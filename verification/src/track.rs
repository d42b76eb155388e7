//! The typed record decoded from the scrobble service's "recently played"
//! response. Produced fresh on every fetch, immutable, and discarded after
//! mapping.

use vstd::prelude::*;

verus! {

/// One artist entry: an optional musicbrainz id and the display name.
pub struct Artist {
    pub mbid: String,
    pub text: String,
}

/// One artwork entry: a size label and the artwork URL.
pub struct Image {
    pub size: String,
    pub text: String,
}

/// One album entry: an optional musicbrainz id and the display name.
pub struct Album {
    pub mbid: String,
    pub text: String,
}

/// The time a historical track was scrobbled, as a unix stamp and a label.
pub struct Date {
    pub uts: String,
    pub text: String,
}

/// Paging attributes of the response list.
pub struct Attr {
    pub user: String,
    pub totalpages: String,
    pub page: String,
    pub perpage: String,
    pub total: String,
}

/// The service marks the most recent entry with this attribute while the
/// track is actively playing; historical entries carry none.
pub struct TrackAttr {
    pub nowplaying: String,
}

/// One track entry of the response. `image` is ordered by rising resolution,
/// so the last entry is the highest one. `attr` is present exactly when the
/// track is playing right now; `date` is present exactly on historical
/// entries.
pub struct Track {
    pub artist: Artist,
    pub streamable: String,
    pub image: Vec<Image>,
    pub mbid: String,
    pub album: Album,
    pub name: String,
    pub attr: Option<TrackAttr>,
    pub url: String,
    pub date: Option<Date>,
}

/// The list of recent tracks, most recent first.
pub struct RecentTracks {
    pub track: Vec<Track>,
    pub attr: Attr,
}

/// The whole response document.
pub struct CurrentTrack {
    pub recenttracks: RecentTracks,
}

impl CurrentTrack {
    /// The response carries at least one track entry.
    pub open spec fn has_tracks(self) -> bool {
        self.recenttracks.track.len() > 0
    }

    /// The most recent entry, which the pipeline inspects.
    pub open spec fn first_track(self) -> Track
        recommends
            self.has_tracks(),
    {
        self.recenttracks.track[0]
    }

    /// Whether the most recent entry carries the now-playing marker.
    pub open spec fn is_now_playing(self) -> bool
        recommends
            self.has_tracks(),
    {
        self.first_track().attr is Some
    }
}

impl Track {
    /// The artwork URL the mapper chooses: the last entry, which the
    /// service lists at the highest resolution.
    pub open spec fn chosen_image_url(self) -> Seq<char>
        recommends
            self.image.len() > 0,
    {
        self.image[self.image.len() - 1].text@
    }
}

} // verus!
