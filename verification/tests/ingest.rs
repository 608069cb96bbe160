use playlist_core::playlist::Playlist;
use playlist_core::track::{DisplayPath, Track};

fn decoded(s: &str) -> Option<String> {
    Some(s.to_string())
}

#[test]
fn empty_batch_leaves_playlist_unchanged() {
    let mut pl = Playlist::new();
    pl.append_batch(&vec![decoded("/a.mp3")]);
    let before: Vec<Track> = pl.tracks().clone();
    pl.append_batch(&Vec::new());
    assert_eq!(pl.len(), 1);
    assert_eq!(*pl.tracks(), before);
}

#[test]
fn batch_onto_empty_playlist() {
    let mut pl = Playlist::new();
    pl.append_batch(&vec![decoded("/a.mp3"), decoded("/b.wav")]);
    assert_eq!(pl.len(), 2);
    let tracks = pl.tracks();
    assert_eq!(tracks[0].id, 0);
    assert_eq!(tracks[0].display, DisplayPath::Text("/a.mp3".to_string()));
    assert_eq!(tracks[1].id, 1);
    assert_eq!(tracks[1].display, DisplayPath::Text("/b.wav".to_string()));
}

#[test]
fn batch_onto_nonempty_playlist_assigns_next_id() {
    let mut pl = Playlist::new();
    pl.append_batch(&vec![decoded("/a.mp3")]);
    pl.append_batch(&vec![decoded("/c.ogg")]);
    assert_eq!(pl.len(), 2);
    let tracks = pl.tracks();
    assert_eq!(tracks[1].id, 1);
    assert_eq!(tracks[1].display, DisplayPath::Text("/c.ogg".to_string()));
}

#[test]
fn batch_ids_continue_from_length_in_input_order() {
    let mut pl = Playlist::new();
    pl.append_batch(&vec![decoded("/a.mp3"), decoded("/b.wav")]);
    pl.append_batch(&vec![decoded("/c.ogg"), decoded("/d.mp3"), decoded("/e.wav")]);
    assert_eq!(pl.len(), 5);
    let tracks = pl.tracks();
    assert_eq!(tracks[2].id, 2);
    assert_eq!(tracks[3].id, 3);
    assert_eq!(tracks[4].id, 4);
    assert_eq!(tracks[2].display, DisplayPath::Text("/c.ogg".to_string()));
    assert_eq!(tracks[3].display, DisplayPath::Text("/d.mp3".to_string()));
    assert_eq!(tracks[4].display, DisplayPath::Text("/e.wav".to_string()));
    assert_eq!(tracks[0].display, DisplayPath::Text("/a.mp3".to_string()));
    assert_eq!(tracks[1].display, DisplayPath::Text("/b.wav".to_string()));
}

#[test]
fn undecodable_path_is_marked_not_emptied() {
    let mut pl = Playlist::new();
    pl.append_batch(&vec![None]);
    let tracks = pl.tracks();
    assert_eq!(tracks[0].display, DisplayPath::Unreadable);
    assert!(tracks[0].display.is_unreadable());
    assert_ne!(tracks[0].display, DisplayPath::Text(String::new()));
    assert_eq!(tracks[0].display.label(), "[unreadable path]");
}

#[test]
fn mixed_batch_keeps_arrival_order() {
    let mut pl = Playlist::new();
    pl.append_batch(&vec![decoded("/a.mp3"), None, decoded("/b.wav")]);
    let tracks = pl.tracks();
    assert_eq!(tracks[0].display, DisplayPath::Text("/a.mp3".to_string()));
    assert_eq!(tracks[1].display, DisplayPath::Unreadable);
    assert_eq!(tracks[2].display, DisplayPath::Text("/b.wav".to_string()));
    assert_eq!(tracks[1].id, 1);
}

#[test]
fn track_new_keeps_decoded_text() {
    let t = Track::new(7, decoded("/a.mp3"));
    assert_eq!(t.id, 7);
    assert_eq!(t.display, DisplayPath::Text("/a.mp3".to_string()));
    assert_eq!(t.display.label(), "/a.mp3");
    assert!(!t.display.is_unreadable());
}

#[test]
fn track_new_marks_failed_decoding() {
    let t = Track::new(0, None);
    assert_eq!(t.id, 0);
    assert_eq!(t.display, DisplayPath::Unreadable);
}
