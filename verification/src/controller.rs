//! The controller for one "open files" interaction: it owns the playlist,
//! tracks whether a native dialog is pending, refuses a second request while
//! one is pending, and returns to an idle, re-invokable state whether the
//! user confirms a selection or cancels.

use vstd::prelude::*;
use crate::dialog::DialogKind;
use crate::playlist::{ids_in_order, merged_tracks, Playlist};
use crate::track::Track;

verus! {

/// Whether a native picker is currently pending.
#[derive(Clone, Copy, Debug, PartialEq, Eq, Structural)]
pub enum DialogState {
    /// No dialog pending; a new request is accepted.
    Idle,
    /// A picker of this kind is showing; its one-shot event has not arrived.
    DialogOpen(DialogKind),
}

/// Why an open request was refused.
#[derive(Clone, Copy, Debug, PartialEq, Eq, Structural)]
pub enum DialogError {
    /// A dialog is already pending; racing two listeners on the same
    /// one-shot event is not allowed.
    AlreadyOpen,
}

/// A controller accepts a new open request exactly when no dialog is
/// pending.
pub open spec fn accepts_open_request(c: PlaylistController) -> bool {
    c.dialog_state() == DialogState::Idle
}

/// Owns the playlist and the dialog interaction state. The host side only
/// shows the picker and forwards its one-shot outcome; every decision about
/// the playlist is made here.
pub struct PlaylistController {
    playlist: Playlist,
    state: DialogState,
}

impl PlaylistController {
    /// The tracks currently in the playlist.
    pub closed spec fn tracks(&self) -> Seq<Track> {
        self.playlist@
    }

    /// The dialog interaction state.
    pub closed spec fn dialog_state(&self) -> DialogState {
        self.state
    }

    /// Well-formedness: track ids equal positions.
    pub open spec fn wf(&self) -> bool {
        ids_in_order(self.tracks())
    }

    /// A fresh controller: empty playlist, no dialog pending.
    pub fn new() -> (c: PlaylistController)
        ensures
            c.tracks() == Seq::<Track>::empty(),
            c.dialog_state() == DialogState::Idle,
            c.wf(),
    {
        PlaylistController { playlist: Playlist::new(), state: DialogState::Idle }
    }

    /// Read-only snapshot of the playlist for the render layer.
    pub fn playlist(&self) -> (r: &Playlist)
        ensures
            r@ == self.tracks(),
    {
        &self.playlist
    }

    /// Whether a dialog is pending.
    pub fn is_dialog_open(&self) -> (b: bool)
        ensures
            b == (self.dialog_state() is DialogOpen),
    {
        match self.state {
            DialogState::Idle => false,
            DialogState::DialogOpen(_) => true,
        }
    }

    /// The user asked to open a picker. Accepted exactly when idle; while a
    /// dialog is pending the request is refused and nothing changes. On
    /// acceptance the caller shows the native picker of the given kind and
    /// later reports its outcome through `paths_received` or
    /// `dialog_cancelled`.
    pub fn request_open(&mut self, kind: DialogKind) -> (r: Result<(), DialogError>)
        ensures
            final(self).tracks() == old(self).tracks(),
            accepts_open_request(*old(self)) ==> r is Ok && final(self).dialog_state()
                == DialogState::DialogOpen(kind),
            !accepts_open_request(*old(self)) ==> r == Err::<(), DialogError>(
                DialogError::AlreadyOpen,
            ) && final(self).dialog_state() == old(self).dialog_state(),
            old(self).wf() ==> final(self).wf(),
    {
        match self.state {
            DialogState::Idle => {
                self.state = DialogState::DialogOpen(kind);
                Ok(())
            },
            DialogState::DialogOpen(_) => Err(DialogError::AlreadyOpen),
        }
    }

    /// The pending dialog was dismissed without a selection, or the pending
    /// request was abandoned. The playlist is untouched and the controller
    /// is idle again, so the next open request is accepted: cancellation is
    /// not an error and must never leave the interface hanging.
    pub fn dialog_cancelled(&mut self)
        ensures
            final(self).tracks() == old(self).tracks(),
            final(self).dialog_state() == DialogState::Idle,
            accepts_open_request(*final(self)),
            old(self).wf() ==> final(self).wf(),
    {
        self.state = DialogState::Idle;
    }

    /// The one-shot event arrived with the chosen paths, each already
    /// decoded to text where possible (`None` marks a path that was not
    /// valid UTF-8). While a dialog is pending the batch is merged and the
    /// controller returns to idle; a delivery with no dialog pending is
    /// stale (its request was cancelled) and is ignored.
    pub fn paths_received(&mut self, paths: &Vec<Option<String>>)
        requires
            old(self).tracks().len() + paths@.len() <= usize::MAX,
        ensures
            old(self).dialog_state() is DialogOpen ==> final(self).tracks() == merged_tracks(
                old(self).tracks(),
                paths@,
            ) && final(self).dialog_state() == DialogState::Idle,
            old(self).dialog_state() == DialogState::Idle ==> *final(self) == *old(self),
            accepts_open_request(*final(self)),
            old(self).wf() ==> final(self).wf(),
    {
        match self.state {
            DialogState::DialogOpen(_) => {
                self.playlist.append_batch(paths);
                self.state = DialogState::Idle;
            },
            DialogState::Idle => {},
        }
    }
}

} // verus!
