//! Layout of the terminal status screen: which lines are shown for a
//! presence and how they are centered vertically. Drawing them is the
//! surrounding process's job.

use vstd::prelude::*;
use crate::presence::Presence;

verus! {

/// The lines the status screen shows for a presence: the track title, the
/// artist, and the album caption, in that order.
pub fn status_lines(presence: &Presence) -> (r: Vec<String>)
    ensures
        r@.len() == 3,
        r@[0]@ == presence.details@,
        r@[1]@ == presence.state@,
        r@[2]@ == presence.large_text@,
{
    let mut lines: Vec<String> = Vec::new();
    lines.push(presence.details.clone());
    lines.push(presence.state.clone());
    lines.push(presence.large_text.clone());
    lines
}

/// The blank rows printed above and below the status lines to center them:
/// half the leftover height, or none when the text does not fit.
pub fn center_padding(height: u16, lines: u16) -> (r: u16)
    ensures
        r == (if height > lines {
            ((height - lines) / 2) as u16
        } else {
            0u16
        }),
{
    if height > lines {
        (height - lines) / 2
    } else {
        0
    }
}

} // verus!
