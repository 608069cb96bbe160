//! The playlist: an ordered, append-only sequence of tracks, grown one batch
//! per successful dialog interaction.

use vstd::prelude::*;
use crate::track::{display_of, DisplayPath, Track};

verus! {

/// In a playlist built only by batch merges every track's id equals its
/// position.
pub open spec fn ids_in_order(tracks: Seq<Track>) -> bool {
    forall|i: int| 0 <= i < tracks.len() ==> (#[trigger] tracks[i].id) == i
}

/// The playlist after merging one batch of decoding outcomes: the old tracks
/// unchanged, then one track per path in arrival order, ids continuing from
/// the old length.
pub open spec fn merged_tracks(tracks: Seq<Track>, paths: Seq<Option<String>>) -> Seq<Track> {
    tracks + Seq::new(
        paths.len(),
        |j: int| Track { id: (tracks.len() + j) as usize, display: display_of(paths[j]) },
    )
}

/// An ordered, append-only sequence of tracks. The only mutation is the
/// batch merge; ids therefore always equal positions and are never reused.
pub struct Playlist {
    tracks: Vec<Track>,
}

impl View for Playlist {
    type V = Seq<Track>;

    closed spec fn view(&self) -> Seq<Track> {
        self.tracks@
    }
}

impl Playlist {
    /// Well-formedness: ids equal positions.
    pub open spec fn wf(&self) -> bool {
        ids_in_order(self@)
    }

    /// The empty playlist a freshly mounted view starts from.
    pub fn new() -> (pl: Playlist)
        ensures
            pl@ == Seq::<Track>::empty(),
            pl.wf(),
    {
        Playlist { tracks: Vec::new() }
    }

    /// Number of tracks.
    pub fn len(&self) -> (n: usize)
        ensures
            n == self@.len(),
    {
        self.tracks.len()
    }

    /// Read-only snapshot for the render layer.
    pub fn tracks(&self) -> (r: &Vec<Track>)
        ensures
            r@ == self@,
    {
        &self.tracks
    }

    /// Merges one batch of decoding outcomes, in arrival order. Each new
    /// track gets id = old length + position in the batch, so ids keep
    /// counting up and never collide with ids already present.
    pub fn append_batch(&mut self, paths: &Vec<Option<String>>)
        requires
            old(self)@.len() + paths@.len() <= usize::MAX,
        ensures
            final(self)@ == merged_tracks(old(self)@, paths@),
            old(self).wf() ==> final(self).wf(),
    {
        let ghost orig: Seq<Track> = self.tracks@;
        let mut j: usize = 0;
        while j < paths.len()
            invariant
                j <= paths@.len(),
                orig.len() + paths@.len() <= usize::MAX,
                self.tracks@ == merged_tracks(orig, paths@.take(j as int)),
            decreases paths@.len() - j,
        {
            let display: DisplayPath = match &paths[j] {
                Option::Some(s) => DisplayPath::Text(s.clone()),
                Option::None => DisplayPath::Unreadable,
            };
            let id: usize = self.tracks.len();
            self.tracks.push(Track { id, display });
            j = j + 1;
            proof {
                assert(self.tracks@ =~= merged_tracks(orig, paths@.take(j as int)));
            }
        }
        proof {
            assert(paths@.take(paths@.len() as int) == paths@);
            if old(self).wf() {
                lemma_merged_ids_in_order(orig, paths@);
            }
        }
    }
}

/// A merge preserves the id discipline: if ids equal positions before, they
/// do after, the new tracks included.
pub proof fn lemma_merged_ids_in_order(tracks: Seq<Track>, paths: Seq<Option<String>>)
    requires
        ids_in_order(tracks),
        tracks.len() + paths.len() <= usize::MAX,
    ensures
        ids_in_order(merged_tracks(tracks, paths)),
{
    let merged = merged_tracks(tracks, paths);
    assert forall|i: int| 0 <= i < merged.len() implies (#[trigger] merged[i].id) == i by {
        if i < tracks.len() {
            assert(merged[i] == tracks[i]);
        }
    }
}

/// Merging a batch of n paths onto a playlist of length l leaves the first
/// l tracks unchanged and appends tracks with ids l, l + 1, ..., l + n - 1,
/// in input order, each displaying its own path's decoding outcome.
pub proof fn lemma_merge_appends_in_order(tracks: Seq<Track>, paths: Seq<Option<String>>)
    ensures
        merged_tracks(tracks, paths).len() == tracks.len() + paths.len(),
        forall|i: int|
            0 <= i < tracks.len() ==> #[trigger] merged_tracks(tracks, paths)[i] == tracks[i],
        forall|j: int|
            0 <= j < paths.len() ==> (#[trigger] merged_tracks(tracks, paths)[tracks.len() + j]).id
                == (tracks.len() + j) as usize,
        forall|j: int|
            0 <= j < paths.len() ==> (#[trigger] merged_tracks(tracks, paths)[tracks.len() + j]).display
                == display_of(paths[j]),
{
}

/// Sequential merges never reuse an id: after a second merge, every id the
/// second batch introduced differs from every id present after the first.
pub proof fn lemma_sequential_merges_fresh_ids(
    tracks: Seq<Track>,
    batch1: Seq<Option<String>>,
    batch2: Seq<Option<String>>,
)
    requires
        ids_in_order(tracks),
        tracks.len() + batch1.len() + batch2.len() <= usize::MAX,
    ensures
        ({
            let after1 = merged_tracks(tracks, batch1);
            let after2 = merged_tracks(after1, batch2);
            forall|i: int, j: int|
                0 <= i < after1.len() && after1.len() <= j < after2.len()
                    ==> (#[trigger] after2[j].id) != (#[trigger] after1[i].id)
        }),
{
    let after1 = merged_tracks(tracks, batch1);
    let after2 = merged_tracks(after1, batch2);
    lemma_merged_ids_in_order(tracks, batch1);
    lemma_merged_ids_in_order(after1, batch2);
    assert forall|i: int, j: int|
        0 <= i < after1.len() && after1.len() <= j < after2.len() implies (#[trigger] after2[j].id)
        != (#[trigger] after1[i].id) by {
        assert(after1[i].id == i);
        assert(after2[j].id == j);
    }
}

} // verus!
