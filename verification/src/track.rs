//! A single playlist entry: a stable id and the displayable form of the
//! path the user picked.

use vstd::prelude::*;

verus! {

/// The displayable form of a filesystem path handed over by the dialog host.
///
/// Decoding an operating-system path to text can fail: the path need not be
/// valid UTF-8. A failed decoding is kept as an explicit marker rather than
/// collapsed into an empty string, so it can never be mistaken for a path
/// that really decoded to nothing.
#[derive(Clone, Debug, PartialEq, Eq)]
pub enum DisplayPath {
    /// The path decoded to this text.
    Text(String),
    /// The path could not be decoded to text.
    Unreadable,
}

/// The display of a track for a given decoding outcome: a decoded path keeps
/// its text, a failed decoding is marked unreadable.
pub open spec fn display_of(p: Option<String>) -> DisplayPath {
    match p {
        Option::Some(s) => DisplayPath::Text(s),
        Option::None => DisplayPath::Unreadable,
    }
}

/// The text a renderer shows for a display: the decoded path itself, or a
/// fixed placeholder for a path that could not be decoded.
pub open spec fn label_of(d: DisplayPath) -> Seq<char> {
    match d {
        DisplayPath::Text(s) => s@,
        DisplayPath::Unreadable => "[unreadable path]"@,
    }
}

impl DisplayPath {
    /// Whether this display marks a failed decoding.
    pub fn is_unreadable(&self) -> (b: bool)
        ensures
            b == (*self is Unreadable),
    {
        match self {
            DisplayPath::Text(_) => false,
            DisplayPath::Unreadable => true,
        }
    }

    /// The text to render for this entry.
    pub fn label(&self) -> (r: &str)
        ensures
            r@ == label_of(*self),
    {
        match self {
            DisplayPath::Text(s) => s.as_str(),
            DisplayPath::Unreadable => "[unreadable path]",
        }
    }
}

/// One playlist entry.
#[derive(Clone, Debug, PartialEq, Eq)]
pub struct Track {
    /// Stable identifier, assigned at merge time as the track's position in
    /// the playlist.
    pub id: usize,
    /// Displayable form of the picked path.
    pub display: DisplayPath,
}

impl Track {
    /// Builds the track for one decoding outcome.
    pub fn new(id: usize, path: Option<String>) -> (t: Track)
        ensures
            t.id == id,
            t.display == display_of(path),
    {
        match path {
            Option::Some(s) => Track { id, display: DisplayPath::Text(s) },
            Option::None => Track { id, display: DisplayPath::Unreadable },
        }
    }
}

/// A path that failed to decode is visibly marked: its display is not the
/// text form of any decoded path, the empty string included.
pub proof fn lemma_unreadable_is_marked(s: String)
    ensures
        display_of(Option::None) is Unreadable,
        display_of(Option::None) != DisplayPath::Text(s),
{
}

} // verus!
