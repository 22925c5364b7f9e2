use super::{AudioTrack, SubtitleTrack};
use vstd::prelude::*;

verus! {

/// Track selection for encoding
#[derive(Debug, Clone)]
pub struct TrackSelection {
    pub audio_indices: Vec<usize>,
    pub subtitle_indices: Vec<usize>,
}

/// A list of indices is in ascending order.
pub open spec fn ascending(s: Seq<usize>) -> bool {
    forall|i: int, j: int| 0 <= i < j < s.len() ==> s[i] <= s[j]
}

/// What toggling `index` makes of a list of selected indices: a selected
/// index is taken out wherever it stands; an index that is not selected is
/// added, and the list is then in ascending order.
pub open spec fn toggled(before: Seq<usize>, index: usize, after: Seq<usize>) -> bool {
    if before.contains(index) {
        after == before.filter(other_than(index))
    } else {
        ascending(after) && after.to_multiset() == before.push(index).to_multiset()
    }
}

/// The test that every index but `index` passes.
pub open spec fn other_than(index: usize) -> spec_fn(usize) -> bool {
    |i: usize| i != index
}

/// The indices that a list of audio tracks carries, in order.
pub open spec fn audio_indices_of(tracks: Seq<AudioTrack>) -> Seq<usize> {
    Seq::new(tracks.len(), |i: int| tracks[i].index)
}

/// The indices that a list of subtitle tracks carries, in order.
pub open spec fn subtitle_indices_of(tracks: Seq<SubtitleTrack>) -> Seq<usize> {
    Seq::new(tracks.len(), |i: int| tracks[i].index)
}

/// Trusted: `sort` on a slice of integers puts it in ascending order and
/// keeps every element, as often as it occurred.
#[verifier::external_body]
pub(crate) fn sort_indices(list: &mut Vec<usize>)
    ensures
        ascending(final(list)@),
        final(list)@.to_multiset() == old(list)@.to_multiset(),
{
    list.sort();
}

/// Tells whether `index` occurs in the list.
pub fn contains_index(list: &Vec<usize>, index: usize) -> (found: bool)
    ensures
        found == list@.contains(index),
{
    let mut k: usize = 0;
    while k < list.len()
        invariant
            k <= list.len(),
            forall|j: int| 0 <= j < k ==> list@[j] != index,
        decreases list.len() - k,
    {
        if list[k] == index {
            return true;
        }
        k += 1;
    }
    false
}

/// The list without any occurrence of `index`, the rest in order.
pub fn without_index(list: &Vec<usize>, index: usize) -> (rest: Vec<usize>)
    ensures
        rest@ == list@.filter(other_than(index)),
{
    let ghost keep = other_than(index);
    let mut rest: Vec<usize> = Vec::new();
    let mut k: usize = 0;
    proof {
        reveal(Seq::filter);
        assert(list@.take(0) =~= Seq::<usize>::empty());
    }
    while k < list.len()
        invariant
            k <= list.len(),
            keep == other_than(index),
            rest@ == list@.take(k as int).filter(keep),
        decreases list.len() - k,
    {
        proof {
            assert(list@.take(k + 1) =~= list@.take(k as int).push(list@[k as int]));
            list@.take(k as int).lemma_filter_push(list@[k as int], keep);
        }
        if list[k] != index {
            rest.push(list[k]);
        }
        k += 1;
    }
    proof {
        assert(list@.take(k as int) =~= list@);
    }
    rest
}

/// Toggles `index` in a list of selected indices.
pub fn toggle_index(list: &mut Vec<usize>, index: usize)
    ensures
        toggled(old(list)@, index, final(list)@),
{
    if contains_index(list, index) {
        let rest = without_index(list, index);
        *list = rest;
    } else {
        list.push(index);
        sort_indices(list);
    }
}

impl TrackSelection {
    /// Select all available tracks
    pub fn select_all(audio_tracks: &[AudioTrack], subtitle_tracks: &[SubtitleTrack]) -> (all: Self)
        ensures
            all.audio_indices@ == audio_indices_of(audio_tracks@),
            all.subtitle_indices@ == subtitle_indices_of(subtitle_tracks@),
    {
        let mut audio_indices: Vec<usize> = Vec::new();
        let mut a: usize = 0;
        while a < audio_tracks.len()
            invariant
                a <= audio_tracks.len(),
                audio_indices@ == audio_indices_of(audio_tracks@.take(a as int)),
            decreases audio_tracks.len() - a,
        {
            audio_indices.push(audio_tracks[a].index);
            a += 1;
            assert(audio_indices@ =~= audio_indices_of(audio_tracks@.take(a as int)));
        }
        assert(audio_tracks@.take(a as int) =~= audio_tracks@);
        let mut subtitle_indices: Vec<usize> = Vec::new();
        let mut s: usize = 0;
        while s < subtitle_tracks.len()
            invariant
                s <= subtitle_tracks.len(),
                subtitle_indices@ == subtitle_indices_of(subtitle_tracks@.take(s as int)),
            decreases subtitle_tracks.len() - s,
        {
            subtitle_indices.push(subtitle_tracks[s].index);
            s += 1;
            assert(subtitle_indices@ =~= subtitle_indices_of(subtitle_tracks@.take(s as int)));
        }
        assert(subtitle_tracks@.take(s as int) =~= subtitle_tracks@);
        TrackSelection { audio_indices, subtitle_indices }
    }

    /// Toggle an audio track selection
    pub fn toggle_audio(&mut self, index: usize)
        ensures
            toggled(old(self).audio_indices@, index, final(self).audio_indices@),
            final(self).subtitle_indices@ == old(self).subtitle_indices@,
    {
        toggle_index(&mut self.audio_indices, index);
    }

    /// Toggle a subtitle track selection
    pub fn toggle_subtitle(&mut self, index: usize)
        ensures
            toggled(old(self).subtitle_indices@, index, final(self).subtitle_indices@),
            final(self).audio_indices@ == old(self).audio_indices@,
    {
        toggle_index(&mut self.subtitle_indices, index);
    }

    /// Nothing is selected, which stands for every track.
    pub fn is_select_all(&self) -> (all: bool)
        ensures
            all == (self.audio_indices@.len() == 0 && self.subtitle_indices@.len() == 0),
    {
        self.audio_indices.is_empty() && self.subtitle_indices.is_empty()
    }

    /// A copy with the same indices.
    pub fn duplicate(&self) -> (copy: Self)
        ensures
            copy.audio_indices@ == self.audio_indices@,
            copy.subtitle_indices@ == self.subtitle_indices@,
    {
        TrackSelection {
            audio_indices: self.audio_indices.clone(),
            subtitle_indices: self.subtitle_indices.clone(),
        }
    }
}

impl Default for TrackSelection {
    fn default() -> (none: Self)
        ensures
            none.audio_indices@.len() == 0,
            none.subtitle_indices@.len() == 0,
    {
        TrackSelection { audio_indices: Vec::new(), subtitle_indices: Vec::new() }
    }
}

/// Toggling an index that is selected leaves it unselected.
pub proof fn lemma_toggle_removes(before: Seq<usize>, index: usize, after: Seq<usize>)
    requires
        before.contains(index),
        toggled(before, index, after),
    ensures
        !after.contains(index),
        forall|i: usize| i != index && before.contains(i) ==> after.contains(i),
{
    let keep = other_than(index);
    if after.contains(index) {
        let k = choose|k: int| 0 <= k < after.len() && after[k] == index;
        before.lemma_filter_pred(keep, k);
    }
    assert forall|i: usize| i != index && before.contains(i) implies after.contains(i) by {
        let k = choose|k: int| 0 <= k < before.len() && before[k] == i;
        before.lemma_filter_contains(keep, k);
    }
}

/// Toggling an index that is not selected leaves it selected, once, and
/// keeps what was selected.
pub proof fn lemma_toggle_adds(before: Seq<usize>, index: usize, after: Seq<usize>)
    requires
        !before.contains(index),
        toggled(before, index, after),
    ensures
        after.contains(index),
        after.len() == before.len() + 1,
        forall|i: usize| before.contains(i) ==> after.contains(i),
{
    broadcast use vstd::seq_lib::group_to_multiset_ensures;

    let grown = before.push(index);
    assert(grown.to_multiset().len() == grown.len());
    assert(after.to_multiset().len() == after.len());
    assert(grown[before.len() as int] == index);
    assert(grown.contains(index));
    assert(after.to_multiset().count(index) > 0);
    assert forall|i: usize| before.contains(i) implies after.contains(i) by {
        let k = choose|k: int| 0 <= k < before.len() && before[k] == i;
        assert(grown[k] == i);
        assert(grown.contains(i));
        assert(after.to_multiset().count(i) > 0);
    }
}

} // verus!
