//! Core state of a small music-player front end: an append-only playlist
//! fed by a native file/folder picker.
//!
//! The picker itself runs on the privileged side of a webview application and
//! delivers the chosen paths asynchronously over a one-shot event. This crate
//! holds everything on the logic side of that boundary: the track and
//! playlist data model, the merge that assigns each chosen path a stable id,
//! and the controller that keeps a pending dialog from being raced or from
//! hanging the interface when the user cancels.

pub mod controller;
pub mod dialog;
pub mod playlist;
pub mod track;
