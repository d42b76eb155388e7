//! The change detector: compares the newly computed presence against the
//! last published one and decides whether the pipeline must republish,
//! merely log a transition, or stay silent. The remote endpoint returns a
//! full snapshot on every poll, so this state machine exists purely to
//! avoid redundant IPC traffic and redundant logging.

use vstd::prelude::*;
use crate::presence::Presence;
use crate::presence::spec_map_track;
use crate::track::CurrentTrack;

verus! {

/// The textual status recorded after a log-only transition.
#[derive(Debug, Clone, Copy, PartialEq, Eq, Structural)]
pub enum StatusLabel {
    NoTrackPlaying,
    TrackStillPlaying,
}

impl StatusLabel {
    /// The log line the label stands for.
    pub open spec fn spec_text(self) -> Seq<char> {
        match self {
            StatusLabel::NoTrackPlaying => "No track playing"@,
            StatusLabel::TrackStillPlaying => "Track is still playing"@,
        }
    }

    /// Returns the log line the label stands for.
    pub fn text(&self) -> (r: String)
        ensures
            r@ == self.spec_text(),
    {
        match self {
            StatusLabel::NoTrackPlaying => "No track playing".to_owned(),
            StatusLabel::TrackStillPlaying => "Track is still playing".to_owned(),
        }
    }
}

/// What the pipeline must do after a poll: push the new presence, clear the
/// published one, log a transition without touching the IPC channel, or
/// nothing at all.
#[derive(Debug, Clone, Copy, PartialEq, Eq, Structural)]
pub enum Action {
    /// The presence changed to a playing track: push it.
    PublishSet,
    /// The presence changed to "absent": clear the published activity and
    /// log that no track is playing.
    PublishClear,
    /// Unchanged and absent, not yet logged: log it once.
    LogNoTrack,
    /// Unchanged and still playing, not yet logged: log it once.
    LogStillPlaying,
    /// Nothing new.
    Silent,
}

impl Action {
    /// Whether the action touches the IPC channel.
    pub open spec fn is_publish(self) -> bool {
        self == Action::PublishSet || self == Action::PublishClear
    }
}

/// The two snapshots the detector keeps: the last recorded presence, with
/// `None` for "never computed" and `Some(None)` for "computed as absent",
/// and the last logged status label.
pub struct PublishedState {
    pub last_presence: Option<Option<Presence>>,
    pub last_status: Option<StatusLabel>,
}

/// Whether two computed presences are equal: both absent, or structurally
/// equal payloads.
pub open spec fn spec_opt_presence_eq(a: Option<Presence>, b: Option<Presence>) -> bool {
    match (a, b) {
        (Option::None, Option::None) => true,
        (Option::Some(x), Option::Some(y)) => x@ == y@,
        _ => false,
    }
}

/// Whether a newly computed presence differs from the last recorded one;
/// a never-computed state always counts as changed.
pub open spec fn spec_changed(st: PublishedState, scrobble: Option<Presence>) -> bool {
    match st.last_presence {
        Option::None => true,
        Option::Some(prev) => !spec_opt_presence_eq(prev, scrobble),
    }
}

/// The action a detector in state `st` orders for a newly computed presence.
pub open spec fn spec_step_action(st: PublishedState, scrobble: Option<Presence>) -> Action {
    if spec_changed(st, scrobble) {
        if scrobble is Some {
            Action::PublishSet
        } else {
            Action::PublishClear
        }
    } else if scrobble is None {
        if st.last_status == Some(StatusLabel::NoTrackPlaying) {
            Action::Silent
        } else {
            Action::LogNoTrack
        }
    } else {
        if st.last_status == Some(StatusLabel::TrackStillPlaying) {
            Action::Silent
        } else {
            Action::LogStillPlaying
        }
    }
}

/// The detector's state after it sees a newly computed presence: a changed
/// presence is recorded and the status label reset (to the absent label when
/// the change was to "absent"); an unchanged one only records the label of
/// the transition it logs.
pub open spec fn spec_step_state(st: PublishedState, scrobble: Option<Presence>) -> PublishedState {
    if spec_changed(st, scrobble) {
        PublishedState {
            last_presence: Some(scrobble),
            last_status: if scrobble is Some {
                None
            } else {
                Some(StatusLabel::NoTrackPlaying)
            },
        }
    } else if scrobble is None {
        PublishedState { last_presence: st.last_presence, last_status: Some(StatusLabel::NoTrackPlaying) }
    } else {
        PublishedState { last_presence: st.last_presence, last_status: Some(StatusLabel::TrackStillPlaying) }
    }
}

/// Compares two computed presences.
pub fn opt_presence_eq(a: &Option<Presence>, b: &Option<Presence>) -> (r: bool)
    ensures
        r == spec_opt_presence_eq(*a, *b),
{
    match (a, b) {
        (Option::None, Option::None) => true,
        (Option::Some(x), Option::Some(y)) => *x == *y,
        _ => false,
    }
}

impl PublishedState {
    /// The state before the first poll: nothing computed, nothing logged.
    pub fn new() -> (s: PublishedState)
        ensures
            s.last_presence is None,
            s.last_status is None,
    {
        PublishedState { last_presence: None, last_status: None }
    }

    /// Feeds one newly computed presence to the detector and returns the
    /// action the pipeline must take; the state advances accordingly.
    pub fn step(&mut self, scrobble: Option<Presence>) -> (a: Action)
        ensures
            a == spec_step_action(*old(self), scrobble),
            *final(self) == spec_step_state(*old(self), scrobble),
    {
        let changed = match &self.last_presence {
            Option::None => true,
            Option::Some(prev) => !opt_presence_eq(prev, &scrobble),
        };
        if changed {
            let is_present = scrobble.is_some();
            self.last_presence = Some(scrobble);
            if is_present {
                self.last_status = None;
                Action::PublishSet
            } else {
                self.last_status = Some(StatusLabel::NoTrackPlaying);
                Action::PublishClear
            }
        } else if scrobble.is_none() {
            if self.last_status == Some(StatusLabel::NoTrackPlaying) {
                Action::Silent
            } else {
                self.last_status = Some(StatusLabel::NoTrackPlaying);
                Action::LogNoTrack
            }
        } else {
            if self.last_status == Some(StatusLabel::TrackStillPlaying) {
                Action::Silent
            } else {
                self.last_status = Some(StatusLabel::TrackStillPlaying);
                Action::LogStillPlaying
            }
        }
    }
}

/// Feeding the detector the same presence twice in a row never publishes a
/// second time: the second step is at most one log emission, and a third
/// identical step does nothing at all.
pub proof fn lemma_step_idempotent(st: PublishedState, scrobble: Option<Presence>)
    ensures
        !spec_step_action(spec_step_state(st, scrobble), scrobble).is_publish(),
        spec_step_action(
            spec_step_state(spec_step_state(st, scrobble), scrobble),
            scrobble,
        ) == Action::Silent,
{
}

/// A track record without a now-playing marker on its first entry maps to
/// "absent", and an absent presence never makes the detector order a set:
/// it orders a clear when the state changed, and at most a log otherwise.
pub proof fn lemma_absent_never_sets(c: CurrentTrack, username: Seq<char>, st: PublishedState)
    requires
        c.has_tracks(),
        !c.is_now_playing(),
    ensures
        spec_map_track(c, username) is None,
        spec_step_action(st, Option::<Presence>::None) != Action::PublishSet,
        spec_changed(st, Option::<Presence>::None) ==> spec_step_action(
            st,
            Option::<Presence>::None,
        ) == Action::PublishClear,
{
}

} // verus!
