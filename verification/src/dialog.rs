//! The fixed interface between the playlist side and the dialog host: which
//! pickers exist, which extensions they are filtered to, and on which
//! one-shot event each delivers its paths. Both sides of the process
//! boundary must agree on these values, so they are defined once here.

use vstd::prelude::*;

verus! {

/// Which native picker a request asks for.
#[derive(Clone, Copy, Debug, PartialEq, Eq, Structural)]
pub enum DialogKind {
    /// Pick individual audio files.
    Files,
    /// Pick folders.
    Folders,
}

/// The file extensions both pickers are filtered to.
pub fn audio_extensions() -> (r: Vec<&'static str>)
    ensures
        r@.len() == 3,
        r@[0]@ == "mp3"@,
        r@[1]@ == "wav"@,
        r@[2]@ == "ogg"@,
{
    let mut exts: Vec<&'static str> = Vec::new();
    exts.push("mp3");
    exts.push("wav");
    exts.push("ogg");
    exts
}

/// The name of the one-shot event on which a picker of the given kind
/// delivers the chosen paths.
pub fn event_name(kind: DialogKind) -> (r: &'static str)
    ensures
        kind == DialogKind::Files ==> r@ == "open-files"@,
        kind == DialogKind::Folders ==> r@ == "open-folders"@,
{
    match kind {
        DialogKind::Files => "open-files",
        DialogKind::Folders => "open-folders",
    }
}

} // verus!
