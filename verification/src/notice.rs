//! The one-line notices that the session shows under the header.

use vstd::prelude::*;
use vstd::string::*;

verus! {

/// A message for the player, with the text it carries from the outside
/// (an error description or a path).
#[derive(Clone, Debug, PartialEq, Eq)]
pub enum Notice {
    /// The save file was refused when the session opened; the text is the reason.
    LoadRejected(String),
    /// Writing the save failed.
    SaveFailed(String),
    /// The refused save file was moved aside to the given path.
    Archived(String),
    /// Moving the refused save file aside failed.
    ArchiveFailed(String),
    /// The tank could not take a step.
    CannotMove(String),
}

/// The words shown for a notice.
pub open spec fn notice_text(n: Notice) -> Seq<char> {
    match n {
        Notice::LoadRejected(e) => e@,
        Notice::SaveFailed(e) => "Could not save: "@ + e@,
        Notice::Archived(p) => "Original archived to "@ + p@,
        Notice::ArchiveFailed(e) => "Archive failed; original retained: "@ + e@,
        Notice::CannotMove(e) => "Cannot move: "@ + e@,
    }
}

impl Notice {
    /// The line shown for this notice: a rejected save shows its reason as
    /// is; the others put a fixed prefix before the text they carry.
    pub fn text(&self) -> (r: String)
        ensures
            r@ == notice_text(*self),
    {
        match self {
            Notice::LoadRejected(e) => e.clone(),
            Notice::SaveFailed(e) => String::from_str("Could not save: ").concat(e.as_str()),
            Notice::Archived(p) => String::from_str("Original archived to ").concat(p.as_str()),
            Notice::ArchiveFailed(e) => String::from_str(
                "Archive failed; original retained: ",
            ).concat(e.as_str()),
            Notice::CannotMove(e) => String::from_str("Cannot move: ").concat(e.as_str()),
        }
    }
}

} // verus!
