//! The presence payload pushed to the chat client, and the mapper that
//! derives it from a fetched track record.

use vstd::prelude::*;
use vstd::string::*;
use crate::track::CurrentTrack;

verus! {

/// A rich-presence payload: two text lines, two images with captions, and up
/// to two labeled action buttons. Derived deterministically from a track
/// record; equality is structural.
#[derive(Debug, Clone)]
pub struct Presence {
    pub state: String,
    pub details: String,
    pub large_image: String,
    pub large_text: String,
    pub small_image: String,
    pub small_text: String,
    pub buttons: Vec<(String, String)>,
}

/// The mathematical value of a [`Presence`]: every text field as a sequence
/// of characters.
#[verifier::ext_equal]
pub struct PresenceView {
    pub state: Seq<char>,
    pub details: Seq<char>,
    pub large_image: Seq<char>,
    pub large_text: Seq<char>,
    pub small_image: Seq<char>,
    pub small_text: Seq<char>,
    pub buttons: Seq<(Seq<char>, Seq<char>)>,
}

impl View for Presence {
    type V = PresenceView;

    open spec fn view(&self) -> PresenceView {
        PresenceView {
            state: self.state@,
            details: self.details@,
            large_image: self.large_image@,
            large_text: self.large_text@,
            small_image: self.small_image@,
            small_text: self.small_text@,
            buttons: self.buttons@.map_values(|b: (String, String)| (b.0@, b.1@)),
        }
    }
}

impl vstd::std_specs::cmp::PartialEqSpecImpl for Presence {
    open spec fn obeys_eq_spec() -> bool {
        true
    }

    open spec fn eq_spec(&self, other: &Presence) -> bool {
        self@ == other@
    }
}

impl PartialEq for Presence {
    /// Two presences are equal exactly when all fields match.
    fn eq(&self, other: &Presence) -> (r: bool) {
        if !str_eq(self.state.as_str(), other.state.as_str()) {
            return false;
        }
        if !str_eq(self.details.as_str(), other.details.as_str()) {
            return false;
        }
        if !str_eq(self.large_image.as_str(), other.large_image.as_str()) {
            return false;
        }
        if !str_eq(self.large_text.as_str(), other.large_text.as_str()) {
            return false;
        }
        if !str_eq(self.small_image.as_str(), other.small_image.as_str()) {
            return false;
        }
        if !str_eq(self.small_text.as_str(), other.small_text.as_str()) {
            return false;
        }
        if self.buttons.len() != other.buttons.len() {
            proof {
                assert(self@.buttons.len() == self.buttons@.len());
                assert(other@.buttons.len() == other.buttons@.len());
            }
            return false;
        }
        let n = self.buttons.len();
        let mut i: usize = 0;
        while i < n
            invariant
                i <= n,
                n == self.buttons@.len(),
                n == other.buttons@.len(),
                forall|j: int| 0 <= j < i ==> self@.buttons[j] == other@.buttons[j],
            decreases n - i,
        {
            let a = &self.buttons[i];
            let b = &other.buttons[i];
            proof {
                assert(self@.buttons[i as int] == (self.buttons@[i as int].0@, self.buttons@[i as int].1@));
                assert(other@.buttons[i as int] == (other.buttons@[i as int].0@, other.buttons@[i as int].1@));
            }
            if !str_eq(a.0.as_str(), b.0.as_str()) {
                return false;
            }
            if !str_eq(a.1.as_str(), b.1.as_str()) {
                return false;
            }
            i += 1;
        }
        proof {
            assert(self@.buttons =~= other@.buttons);
            assert(self@ =~= other@);
        }
        true
    }
}

/// The placeholder payload: sample text lines, the fallback artwork as the
/// large image, the service logo as the small one.
pub open spec fn spec_default_presence() -> PresenceView {
    PresenceView {
        state: "state"@,
        details: "details"@,
        large_image: spec_fallback_image_url(),
        large_text: "large_text"@,
        small_image: spec_lastfm_logo_url(),
        small_text: "last.fm"@,
        buttons: seq![
            ("Button 1"@, "https://example.com"@),
            ("Button 2"@, "https://example.com"@),
        ],
    }
}

impl Default for Presence {
    /// Builds the placeholder payload.
    fn default() -> (r: Presence)
        ensures
            r@ == spec_default_presence(),
    {
        let mut buttons: Vec<(String, String)> = Vec::new();
        buttons.push(("Button 1".to_owned(), "https://example.com".to_owned()));
        buttons.push(("Button 2".to_owned(), "https://example.com".to_owned()));
        let r = Presence {
            state: "state".to_owned(),
            details: "details".to_owned(),
            large_image: fallback_image_url().to_owned(),
            large_text: "large_text".to_owned(),
            small_image: lastfm_logo_url().to_owned(),
            small_text: "last.fm".to_owned(),
            buttons,
        };
        proof {
            assert(r@.buttons =~= spec_default_presence().buttons);
            assert(r@ =~= spec_default_presence());
        }
        r
    }
}

/// Compares two string slices by their character sequences.
fn str_eq(a: &str, b: &str) -> (r: bool)
    ensures
        r == (a@ == b@),
{
    let owned_a: String = a.to_owned();
    let owned_b: String = b.to_owned();
    owned_a == owned_b
}

/// The fixed image substituted when a track carries no usable artwork.
pub open spec fn spec_fallback_image_url() -> Seq<char> {
    "https://cdn.signed.host/643beee7355f27cfb8628f80/1XP4viYdypmFHAUDNb.png"@
}

/// Returns the fallback artwork image URL.
pub fn fallback_image_url() -> (r: &'static str)
    ensures
        r@ == spec_fallback_image_url(),
{
    "https://cdn.signed.host/643beee7355f27cfb8628f80/1XP4viYdypmFHAUDNb.png"
}

/// The scrobble service's logo, shown as the small presence image.
pub open spec fn spec_lastfm_logo_url() -> Seq<char> {
    "https://www.last.fm/static/images/lastfm_avatar_twitter.52a5d69a85ac.png"@
}

/// Returns the service logo URL.
pub fn lastfm_logo_url() -> (r: &'static str)
    ensures
        r@ == spec_lastfm_logo_url(),
{
    "https://www.last.fm/static/images/lastfm_avatar_twitter.52a5d69a85ac.png"
}

/// The artwork URL the service serves for tracks with no artwork of their
/// own; it is replaced by the fallback image rather than displayed.
pub open spec fn spec_placeholder_art_url() -> Seq<char> {
    "https://lastfm.freetls.fastly.net/i/u/300x300/2a96cbd8b46e442fc41c2b86b821562f.png"@
}

/// Returns the placeholder artwork URL.
pub fn placeholder_art_url() -> (r: &'static str)
    ensures
        r@ == spec_placeholder_art_url(),
{
    "https://lastfm.freetls.fastly.net/i/u/300x300/2a96cbd8b46e442fc41c2b86b821562f.png"
}

/// Whether `url::Url::parse` accepts the string as an absolute URL.
pub uninterp spec fn url_parse_ok(s: Seq<char>) -> bool;

/// Relies on `url::Url::parse`: whether an absolute URL can be parsed from a
/// string depends on the string's characters alone.
#[verifier::external_body]
fn parse_url_ok(s: &str) -> (r: bool)
    ensures
        r == url_parse_ok(s@),
{
    url::Url::parse(s).is_ok()
}

/// The large image chosen for an artwork URL: the URL itself when it is a
/// well-formed absolute URL and not the placeholder, else the fallback.
pub open spec fn spec_select_large_image(img: Seq<char>) -> Seq<char> {
    if url_parse_ok(img) && img != spec_placeholder_art_url() {
        img
    } else {
        spec_fallback_image_url()
    }
}

/// Picks the large presence image for an artwork URL whose validity has
/// already been decided: the URL itself when valid and not the placeholder,
/// else the fallback image.
pub fn select_large_image(img: &str, is_valid_url: bool) -> (r: String)
    ensures
        r@ == (if is_valid_url && img@ != spec_placeholder_art_url() {
            img@
        } else {
            spec_fallback_image_url()
        }),
{
    if is_valid_url && !str_eq(img, placeholder_art_url()) {
        img.to_owned()
    } else {
        fallback_image_url().to_owned()
    }
}

/// The presence derived from a track record for a user, or `None` when the
/// most recent entry carries no now-playing marker.
pub open spec fn spec_map_track(c: CurrentTrack, username: Seq<char>) -> Option<PresenceView>
    recommends
        c.has_tracks(),
{
    if !c.is_now_playing() {
        None
    } else {
        let t = c.first_track();
        Some(PresenceView {
            state: t.artist.text@,
            details: t.name@,
            large_image: spec_select_large_image(t.chosen_image_url()),
            large_text: t.album.text@,
            small_image: spec_lastfm_logo_url(),
            small_text: "last.fm"@,
            buttons: seq![
                ("View on last.fm"@, t.url@),
                (username + " on last.fm"@, "https://last.fm/user/"@ + username),
            ],
        })
    }
}

/// Maps the most recent track entry to a presence payload, or to `None`
/// when no track is currently playing.
///
/// Fields map directly: state from the artist, details from the title, the
/// large caption from the album. The large image is the last (highest
/// resolution) artwork URL if it is a well-formed absolute URL and not the
/// placeholder, else the fallback image. The buttons link to the track page
/// and to the user's profile page.
pub fn map_track(current: &CurrentTrack, username: &str) -> (r: Option<Presence>)
    requires
        current.has_tracks(),
        current.is_now_playing() ==> current.first_track().image.len() > 0,
    ensures
        r is Some <==> spec_map_track(*current, username@) is Some,
        (r matches Some(p) ==> spec_map_track(*current, username@) == Some(p@)),
{
    let t = &current.recenttracks.track[0];
    if t.attr.is_some() {
        let img: &String = &t.image[t.image.len() - 1].text;
        let valid = parse_url_ok(img.as_str());
        let large_image = select_large_image(img.as_str(), valid);

        let mut buttons: Vec<(String, String)> = Vec::new();
        buttons.push(("View on last.fm".to_owned(), t.url.clone()));
        let mut profile_label = username.to_owned();
        profile_label.append(" on last.fm");
        let mut profile_url = "https://last.fm/user/".to_owned();
        profile_url.append(username);
        buttons.push((profile_label, profile_url));

        let p = Presence {
            state: t.artist.text.clone(),
            details: t.name.clone(),
            large_image,
            large_text: t.album.text.clone(),
            small_image: lastfm_logo_url().to_owned(),
            small_text: "last.fm".to_owned(),
            buttons,
        };
        proof {
            let sv = spec_map_track(*current, username@);
            assert(p@.buttons =~= sv.unwrap().buttons);
            assert(p@ =~= sv.unwrap());
        }
        Some(p)
    } else {
        None
    }
}

/// A valid artwork URL that is not the placeholder is shown as the large
/// image itself; an invalid or placeholder URL is replaced by the fixed
/// fallback image.
pub proof fn lemma_large_image_selection(c: CurrentTrack, username: Seq<char>)
    requires
        c.has_tracks(),
        c.is_now_playing(),
    ensures
        ({
            let img = c.first_track().chosen_image_url();
            let p = spec_map_track(c, username).unwrap();
            &&& (url_parse_ok(img) && img != spec_placeholder_art_url()) ==> p.large_image == img
            &&& !(url_parse_ok(img) && img != spec_placeholder_art_url()) ==> p.large_image
                == spec_fallback_image_url()
        }),
{
}

/// Mapping is a pure function of the track record and the username: equal
/// inputs yield equal presences.
pub proof fn lemma_map_track_pure(c1: CurrentTrack, c2: CurrentTrack, u1: Seq<char>, u2: Seq<char>)
    requires
        c1 == c2,
        u1 == u2,
    ensures
        spec_map_track(c1, u1) == spec_map_track(c2, u2),
{
}

} // verus!
