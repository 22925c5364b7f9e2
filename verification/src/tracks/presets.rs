use super::selection::{ascending, contains_index, sort_indices};
use super::{AudioTrack, SubtitleTrack, TrackSelection};
use crate::config::TrackPresetConfig;
use vstd::prelude::*;

verus! {

/// The lowercase form of an ASCII capital; any other character is itself.
pub open spec fn ascii_lower(c: char) -> char {
    if 'A' <= c && c <= 'Z' {
        ((c as u8) + 32) as char
    } else {
        c
    }
}

/// Two texts are the same but for the case of their ASCII letters.
pub open spec fn same_ignoring_ascii_case(a: Seq<char>, b: Seq<char>) -> bool {
    a.len() == b.len() && forall|i: int|
        0 <= i < a.len() ==> ascii_lower(#[trigger] a[i]) == ascii_lower(b[i])
}

/// Trusted: `str::eq_ignore_ascii_case` compares two texts character by
/// character, taking an ASCII capital for its lowercase letter.
#[verifier::external_body]
pub(crate) fn eq_ignore_ascii_case(a: &str, b: &str) -> (same: bool)
    ensures
        same == same_ignoring_ascii_case(a@, b@),
{
    a.eq_ignore_ascii_case(b)
}

/// One track as the selection sees it: its index and its language.
pub struct TrackLanguage {
    pub index: usize,
    pub language: Option<String>,
}

/// The language of a track is one of the preferred languages, the case of
/// ASCII letters aside.
pub open spec fn preferred_track(track: TrackLanguage, preferred: Seq<Seq<char>>) -> bool {
    track.language matches Some(language) && exists|p: int|
        0 <= p < preferred.len() && same_ignoring_ascii_case(language@, #[trigger] preferred[p])
}

/// The language of a track is `wanted`, the case of ASCII letters aside.
pub open spec fn speaks(track: TrackLanguage, wanted: Seq<char>) -> bool {
    track.language matches Some(language) && same_ignoring_ascii_case(language@, wanted)
}

/// `index` is that of a track in a preferred language.
pub open spec fn index_preferred(
    tracks: Seq<TrackLanguage>,
    preferred: Seq<Seq<char>>,
    index: usize,
) -> bool {
    exists|t: int, p: int|
        0 <= t < tracks.len() && 0 <= p < preferred.len() && (#[trigger] tracks[t]).index == index
            && speaks(tracks[t], #[trigger] preferred[p])
}

/// `index` is that of one of the first `upto` tracks, in the language
/// `wanted`.
pub open spec fn index_speaks(
    tracks: Seq<TrackLanguage>,
    wanted: Seq<char>,
    upto: int,
    index: usize,
) -> bool {
    exists|u: int| 0 <= u < upto && (#[trigger] tracks[u]).index == index && speaks(tracks[u], wanted)
}

/// The indices of all tracks, in order.
pub open spec fn all_indices(tracks: Seq<TrackLanguage>) -> Seq<usize> {
    Seq::new(tracks.len(), |i: int| tracks[i].index)
}

/// The numbers from zero up to `count`, in order.
pub open spec fn first_indices(count: usize) -> Seq<usize> {
    Seq::new(count as nat, |i: int| i as usize)
}

/// What is selected of a list of tracks under a list of preferred
/// languages.
///
/// Without a preference, or without tracks, all tracks are selected where
/// the fallback is on, and none where it is off. Else the tracks in a
/// preferred language are selected, each index once and in ascending order;
/// where there is none and the fallback is on, the first `total_count`
/// indices are.
pub open spec fn language_choice(
    tracks: Seq<TrackLanguage>,
    preferred: Seq<Seq<char>>,
    select_all_fallback: bool,
    total_count: usize,
    selected: Seq<usize>,
) -> bool {
    if preferred.len() == 0 || tracks.len() == 0 {
        if select_all_fallback {
            selected == all_indices(tracks)
        } else {
            selected.len() == 0
        }
    } else if select_all_fallback && (forall|i: usize| !index_preferred(tracks, preferred, i)) {
        selected == first_indices(total_count)
    } else {
        &&& ascending(selected)
        &&& selected.no_duplicates()
        &&& forall|i: usize| selected.contains(i) <==> index_preferred(tracks, preferred, i)
    }
}

/// The tracks of an audio list as the selection sees them.
pub open spec fn audio_languages(tracks: Seq<AudioTrack>, list: Seq<TrackLanguage>) -> bool {
    list.len() == tracks.len() && forall|i: int|
        0 <= i < tracks.len() ==> (#[trigger] list[i]).index == tracks[i].index
            && list[i].language.deep_view() == tracks[i].language.deep_view()
}

/// The tracks of a subtitle list as the selection sees them.
pub open spec fn subtitle_languages(tracks: Seq<SubtitleTrack>, list: Seq<TrackLanguage>) -> bool {
    list.len() == tracks.len() && forall|i: int|
        0 <= i < tracks.len() ==> (#[trigger] list[i]).index == tracks[i].index
            && list[i].language.deep_view() == tracks[i].language.deep_view()
}

fn copy_language(language: &Option<String>) -> (copy: Option<String>)
    ensures
        copy.deep_view() == language.deep_view(),
{
    match language {
        Some(l) => Some(l.clone()),
        None => None,
    }
}

/// The audio tracks as the selection sees them.
pub fn audio_track_languages(tracks: &[AudioTrack]) -> (list: Vec<TrackLanguage>)
    ensures
        audio_languages(tracks@, list@),
{
    let mut list: Vec<TrackLanguage> = Vec::new();
    let mut k: usize = 0;
    while k < tracks.len()
        invariant
            k <= tracks@.len(),
            list@.len() == k,
            forall|i: int|
                0 <= i < k ==> (#[trigger] list@[i]).index == tracks@[i].index
                    && list@[i].language.deep_view() == tracks@[i].language.deep_view(),
        decreases tracks@.len() - k,
    {
        list.push(
            TrackLanguage { index: tracks[k].index, language: copy_language(&tracks[k].language) },
        );
        k += 1;
    }
    list
}

/// The subtitle tracks as the selection sees them.
pub fn subtitle_track_languages(tracks: &[SubtitleTrack]) -> (list: Vec<TrackLanguage>)
    ensures
        subtitle_languages(tracks@, list@),
{
    let mut list: Vec<TrackLanguage> = Vec::new();
    let mut k: usize = 0;
    while k < tracks.len()
        invariant
            k <= tracks@.len(),
            list@.len() == k,
            forall|i: int|
                0 <= i < k ==> (#[trigger] list@[i]).index == tracks@[i].index
                    && list@[i].language.deep_view() == tracks@[i].language.deep_view(),
        decreases tracks@.len() - k,
    {
        list.push(
            TrackLanguage { index: tracks[k].index, language: copy_language(&tracks[k].language) },
        );
        k += 1;
    }
    list
}

/// Auto-select tracks based on language preferences from config
pub fn auto_select_tracks(
    audio_tracks: &[AudioTrack],
    subtitle_tracks: &[SubtitleTrack],
    config: &TrackPresetConfig,
) -> (selection: TrackSelection)
    ensures
        exists|audio: Seq<TrackLanguage>, subtitles: Seq<TrackLanguage>|
            {
                &&& audio_languages(audio_tracks@, audio)
                &&& subtitle_languages(subtitle_tracks@, subtitles)
                &&& language_choice(
                    audio,
                    config.preferred_audio_languages.deep_view(),
                    config.select_all_fallback,
                    audio_tracks@.len() as usize,
                    selection.audio_indices@,
                )
                &&& language_choice(
                    subtitles,
                    config.preferred_subtitle_languages.deep_view(),
                    config.select_all_fallback,
                    subtitle_tracks@.len() as usize,
                    selection.subtitle_indices@,
                )
            },
{
    let audio = audio_track_languages(audio_tracks);
    let audio_indices = select_by_language(
        &audio,
        &config.preferred_audio_languages,
        config.select_all_fallback,
        audio_tracks.len(),
    );
    let subtitles = subtitle_track_languages(subtitle_tracks);
    let subtitle_indices = select_by_language(
        &subtitles,
        &config.preferred_subtitle_languages,
        config.select_all_fallback,
        subtitle_tracks.len(),
    );
    TrackSelection { audio_indices, subtitle_indices }
}

/// Tells whether a track is in the language `wanted`.
pub fn track_speaks(track: &TrackLanguage, wanted: &str) -> (yes: bool)
    ensures
        yes == speaks(*track, wanted@),
{
    match &track.language {
        Some(language) => eq_ignore_ascii_case(language.as_str(), wanted),
        None => false,
    }
}

/// Select tracks matching preferred languages
pub fn select_by_language(
    tracks: &Vec<TrackLanguage>,
    preferred: &Vec<String>,
    select_all_fallback: bool,
    total_count: usize,
) -> (selected: Vec<usize>)
    ensures
        language_choice(
            tracks@,
            preferred.deep_view(),
            select_all_fallback,
            total_count,
            selected@,
        ),
{
    if preferred.is_empty() || tracks.is_empty() {
        let mut all: Vec<usize> = Vec::new();
        if select_all_fallback {
            let mut k: usize = 0;
            while k < tracks.len()
                invariant
                    k <= tracks@.len(),
                    all@ == all_indices(tracks@.take(k as int)),
                decreases tracks@.len() - k,
            {
                all.push(tracks[k].index);
                k += 1;
                assert(all@ =~= all_indices(tracks@.take(k as int)));
            }
            assert(tracks@.take(k as int) =~= tracks@);
        }
        return all;
    }
    let ghost wanted = preferred.deep_view();
    let mut selected: Vec<usize> = Vec::new();
    let mut p: usize = 0;
    proof {
        assert forall|i: usize| !index_preferred(tracks@, wanted.take(0), i) by {}
    }
    while p < preferred.len()
        invariant
            p <= preferred@.len(),
            wanted == preferred.deep_view(),
            selected@.no_duplicates(),
            forall|i: usize|
                selected@.contains(i) <==> index_preferred(tracks@, wanted.take(p as int), i),
        decreases preferred@.len() - p,
    {
        let mut t: usize = 0;
        let ghost done = wanted.take(p as int);
        let ghost now = wanted[p as int];
        while t < tracks.len()
            invariant
                t <= tracks@.len(),
                p < preferred@.len(),
                wanted == preferred.deep_view(),
                done == wanted.take(p as int),
                now == wanted[p as int],
                selected@.no_duplicates(),
                forall|i: usize|
                    selected@.contains(i) <==> (index_preferred(tracks@, done, i) || index_speaks(
                        tracks@,
                        now,
                        t as int,
                        i,
                    )),
            decreases tracks@.len() - t,
        {
            let ghost before = selected@;
            let index = tracks[t].index;
            let hit = track_speaks(&tracks[t], preferred[p].as_str());
            let known = contains_index(&selected, index);
            if hit && !known {
                selected.push(index);
            }
            proof {
                let after = selected@;
                assert forall|i: usize|
                    after.contains(i) <==> (index_preferred(tracks@, done, i) || index_speaks(
                        tracks@,
                        now,
                        t + 1,
                        i,
                    )) by {
                    let old_side = index_preferred(tracks@, done, i) || index_speaks(
                        tracks@,
                        now,
                        t as int,
                        i,
                    );
                    assert(before.contains(i) <==> old_side);
                    // what the list holds after the step
                    if hit && !known {
                        assert(after == before.push(index));
                        assert(after[before.len() as int] == index);
                        if before.contains(i) {
                            let k = choose|k: int| 0 <= k < before.len() && before[k] == i;
                            assert(after[k] == i);
                        }
                        if after.contains(i) && i != index {
                            let k = choose|k: int| 0 <= k < after.len() && after[k] == i;
                            assert(before[k] == i);
                        }
                        assert(after.contains(i) <==> (before.contains(i) || i == index));
                    } else {
                        assert(after == before);
                    }
                    // what the tracks up to and with this one give
                    if index_speaks(tracks@, now, t as int, i) {
                        let u = choose|u: int|
                            0 <= u < t && (#[trigger] tracks@[u]).index == i && speaks(
                                tracks@[u],
                                now,
                            );
                        assert(0 <= u < t + 1 && tracks@[u].index == i && speaks(tracks@[u], now));
                    }
                    if index_speaks(tracks@, now, t + 1, i) {
                        let u = choose|u: int|
                            0 <= u < t + 1 && (#[trigger] tracks@[u]).index == i && speaks(
                                tracks@[u],
                                now,
                            );
                        if u < t {
                            assert(index_speaks(tracks@, now, t as int, i));
                        } else {
                            assert(i == index && hit);
                        }
                    }
                    if i == index && hit {
                        assert(tracks@[t as int].index == i && speaks(tracks@[t as int], now));
                        assert(index_speaks(tracks@, now, t + 1, i));
                    }
                }
            }
            t += 1;
        }
        proof {
            let grown = wanted.take(p + 1);
            assert(grown =~= done.push(now));
            assert forall|i: usize|
                selected@.contains(i) <==> index_preferred(tracks@, grown, i) by {
                if index_preferred(tracks@, grown, i) {
                    let (u, q) = choose|u: int, q: int|
                        0 <= u < tracks@.len() && 0 <= q < grown.len() && (
                        #[trigger] tracks@[u]).index == i && speaks(tracks@[u], #[trigger] grown[q]);
                    if q < p {
                        assert(done[q] == grown[q]);
                        assert(index_preferred(tracks@, done, i));
                    } else {
                        assert(tracks@[u].index == i && speaks(tracks@[u], now));
                        assert(index_speaks(tracks@, now, tracks@.len() as int, i));
                    }
                }
                if index_preferred(tracks@, done, i) {
                    let (u, q) = choose|u: int, q: int|
                        0 <= u < tracks@.len() && 0 <= q < done.len() && (
                        #[trigger] tracks@[u]).index == i && speaks(tracks@[u], #[trigger] done[q]);
                    assert(grown[q] == done[q]);
                    assert(index_preferred(tracks@, grown, i));
                }
                if index_speaks(tracks@, now, tracks@.len() as int, i) {
                    let u = choose|u: int|
                        0 <= u < tracks@.len() && (#[trigger] tracks@[u]).index == i && speaks(
                            tracks@[u],
                            now,
                        );
                    assert(speaks(tracks@[u], grown[p as int]));
                    assert(index_preferred(tracks@, grown, i));
                }
            }
        }
        p += 1;
    }
    proof {
        assert(wanted.take(p as int) =~= wanted);
    }
    // If nothing matched, select all or none
    if selected.is_empty() && select_all_fallback {
        let mut all: Vec<usize> = Vec::new();
        let mut k: usize = 0;
        while k < total_count
            invariant
                k <= total_count,
                all@ == first_indices(k),
            decreases total_count - k,
        {
            all.push(k);
            k += 1;
            assert(all@ =~= first_indices(k));
        }
        proof {
            assert forall|i: usize| !index_preferred(tracks@, wanted, i) by {
                if index_preferred(tracks@, wanted, i) {
                    assert(selected@.contains(i));
                }
            }
        }
        return all;
    }
    let ghost unsorted = selected@;
    sort_indices(&mut selected);
    proof {
        broadcast use vstd::seq_lib::group_to_multiset_ensures;

        unsorted.lemma_multiset_has_no_duplicates();
        selected@.lemma_multiset_has_no_duplicates_conv();
        assert forall|i: usize| selected@.contains(i) <==> unsorted.contains(i) by {
            assert(selected@.to_multiset().count(i) == unsorted.to_multiset().count(i));
        }
        assert forall|i: usize|
            selected@.contains(i) <==> index_preferred(tracks@, wanted, i) by {
            assert(selected@.contains(i) <==> unsorted.contains(i));
        }
        if select_all_fallback {
            assert(unsorted.len() > 0);
            assert(unsorted.contains(unsorted[0]));
            assert(index_preferred(tracks@, wanted, unsorted[0]));
        }
    }
    selected
}

} // verus!
