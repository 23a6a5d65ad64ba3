//! Ordered song list with a navigation policy: sequential, repeat-one, or
//! shuffled track selection.

use crate::text::{ascii_lower_eq, eq_ignore_ascii, is_substring, lower_of, lowercase};
use rand::seq::IndexedRandom;
use vstd::arithmetic::div_mod::{
    lemma_add_mod_noop_right, lemma_mod_add_multiples_vanish, lemma_mod_bound, lemma_small_mod,
};
use vstd::prelude::*;

verus! {

broadcast use vstd::seq_lib::group_seq_properties;

/// Rule set governing which track follows another.
#[derive(Debug, Clone, Copy, PartialEq, Eq, Structural)]
pub enum PlaybackMode {
    Sequential,
    RepeatOne,
    Shuffle,
}

impl Default for PlaybackMode {
    fn default() -> (r: Self)
        ensures
            r == PlaybackMode::Sequential,
    {
        PlaybackMode::Sequential
    }
}

/// Ordered sequence of song paths, the optional index of the track being
/// played, and the active navigation policy.
pub struct Playlist {
    pub items: Vec<String>,
    pub current: Option<usize>,
    pub mode: PlaybackMode,
}

/// Snapshot of the playlist for rendering: size, position, mode, and the
/// display names of the playing track and of its likely successor.
#[derive(Clone)]
pub struct PlaylistView {
    pub len: usize,
    pub current: Option<usize>,
    pub mode: PlaybackMode,
    pub now_name: String,
    pub next_name: String,
}

/// A path separator.
pub open spec fn is_sep(c: char) -> bool {
    c == '/' || c == '\\'
}

/// The part of a path after its last separator (the whole path when it has
/// none, empty when it ends in a separator).
pub open spec fn base_name_of(s: Seq<char>) -> Seq<char>
    decreases s.len(),
{
    if s.len() == 0 {
        s
    } else if is_sep(s.last()) {
        Seq::empty()
    } else {
        base_name_of(s.drop_last()).push(s.last())
    }
}

/// The extension of a path: what follows the last dot of its base name,
/// none when the base name has no dot or starts with its only dot.
pub open spec fn ext_of(s: Seq<char>) -> Option<Seq<char>>
    decreases s.len(),
{
    if s.len() == 0 {
        None
    } else if is_sep(s.last()) {
        None
    } else if s.last() == '.' {
        if s.len() == 1 || is_sep(s[s.len() - 2]) {
            None
        } else {
            Some(Seq::empty())
        }
    } else {
        match ext_of(s.drop_last()) {
            Some(e) => Some(e.push(s.last())),
            None => None,
        }
    }
}

/// An extension naming one of the supported audio formats, up to ASCII case.
pub open spec fn is_audio_ext(e: Seq<char>) -> bool {
    ||| ascii_lower_eq(e, "mp3"@)
    ||| ascii_lower_eq(e, "flac"@)
    ||| ascii_lower_eq(e, "wav"@)
    ||| ascii_lower_eq(e, "ogg"@)
    ||| ascii_lower_eq(e, "m4a"@)
    ||| ascii_lower_eq(e, "aac"@)
}

/// A path whose extension names a supported audio format.
pub open spec fn is_audio_path(s: Seq<char>) -> bool {
    match ext_of(s) {
        Some(e) => is_audio_ext(e),
        None => false,
    }
}

/// The predicate that a folder scan keeps: paths of audio files.
pub open spec fn audio_pred() -> spec_fn(String) -> bool {
    |p: String| is_audio_path(p@)
}

/// The predicate that a search keeps: rows whose file name contains the
/// query, both in lower case.
pub open spec fn search_pred(q: Seq<char>) -> spec_fn((usize, String)) -> bool {
    |row: (usize, String)| is_substring(lower_of(base_name_of(row.1@)), lower_of(q))
}

fn is_sep_exec(c: char) -> (r: bool)
    ensures
        r == is_sep(c),
{
    c == '/' || c == '\\'
}

/// The display name of a song path: what follows its last separator.
pub fn base_name<'a>(path: &'a str) -> (r: &'a str)
    ensures
        r@ == base_name_of(path@),
{
    let n = path.unicode_len();
    let mut i: usize = n;
    proof {
        assert(base_name_of(path@.take(n as int)) + path@.skip(n as int) =~= base_name_of(path@));
    }
    loop
        invariant
            i <= n,
            n == path@.len(),
            base_name_of(path@) == base_name_of(path@.take(i as int)) + path@.skip(i as int),
        decreases i,
    {
        if i == 0 {
            proof {
                assert(base_name_of(path@.take(0)) + path@.skip(0) =~= path@);
            }
            return path;
        }
        let c = path.get_char(i - 1);
        if is_sep_exec(c) {
            proof {
                assert(path@.take(i as int).last() == path@[i - 1]);
                assert(base_name_of(path@.take(i as int)) =~= Seq::<char>::empty());
                assert(Seq::<char>::empty() + path@.skip(i as int) =~= path@.skip(i as int));
            }
            return path.substring_char(i, n);
        }
        proof {
            let t = path@.take(i as int);
            assert(t.last() == path@[i - 1]);
            assert(t.drop_last() =~= path@.take(i - 1));
            assert(base_name_of(t) == base_name_of(path@.take(i - 1)).push(path@[i - 1]));
            assert(base_name_of(path@.take(i - 1)).push(path@[i - 1]) + path@.skip(i as int)
                =~= base_name_of(path@.take(i - 1)) + path@.skip(i - 1));
        }
        i = i - 1;
    }
}

/// The extension of a path, when its base name has one.
pub fn extension_of<'a>(path: &'a str) -> (r: Option<&'a str>)
    ensures
        r is Some <==> ext_of(path@) is Some,
        r matches Some(x) ==> ext_of(path@) == Some(x@),
{
    let n = path.unicode_len();
    let mut i: usize = n;
    proof {
        assert(path@.take(n as int) =~= path@);
        assert(path@.skip(n as int) =~= Seq::<char>::empty());
        if ext_of(path@) is Some {
            assert(ext_of(path@)->Some_0 + path@.skip(n as int) =~= ext_of(path@)->Some_0);
        }
    }
    loop
        invariant
            i <= n,
            n == path@.len(),
            ext_of(path@) is Some <==> ext_of(path@.take(i as int)) is Some,
            ext_of(path@.take(i as int)) is Some ==> ext_of(path@) == Some(
                ext_of(path@.take(i as int))->Some_0 + path@.skip(i as int),
            ),
        decreases i,
    {
        if i == 0 {
            proof {
                assert(path@.take(0) =~= Seq::<char>::empty());
            }
            return None;
        }
        let c = path.get_char(i - 1);
        proof {
            assert(path@.take(i as int).last() == path@[i - 1]);
        }
        if is_sep_exec(c) {
            return None;
        }
        if c == '.' {
            if i == 1 || is_sep_exec(path.get_char(i - 2)) {
                proof {
                    if i >= 2 {
                        assert(path@.take(i as int)[i - 2] == path@[i - 2]);
                    }
                }
                return None;
            }
            proof {
                assert(path@.take(i as int)[i - 2] == path@[i - 2]);
                assert(ext_of(path@.take(i as int)) == Some(Seq::<char>::empty()));
                assert(Seq::<char>::empty() + path@.skip(i as int) =~= path@.skip(i as int));
            }
            return Some(path.substring_char(i, n));
        }
        proof {
            let t = path@.take(i as int);
            assert(t.drop_last() =~= path@.take(i - 1));
            if ext_of(path@.take(i - 1)) is Some {
                let e1 = ext_of(path@.take(i - 1))->Some_0;
                assert(ext_of(t) == Some(e1.push(path@[i - 1])));
                assert(e1.push(path@[i - 1]) + path@.skip(i as int) =~= e1 + path@.skip(i - 1));
            }
        }
        i = i - 1;
    }
}

/// Whether a path names a file in one of the supported audio formats.
pub fn is_audio(path: &str) -> (r: bool)
    ensures
        r == is_audio_path(path@),
{
    match extension_of(path) {
        Some(e) => eq_ignore_ascii(e, "mp3") || eq_ignore_ascii(e, "flac") || eq_ignore_ascii(
            e,
            "wav",
        ) || eq_ignore_ascii(e, "ogg") || eq_ignore_ascii(e, "m4a") || eq_ignore_ascii(e, "aac"),
        None => false,
    }
}

/// Relies on rand's IndexedRandom::choose: None exactly on an empty slice,
/// otherwise a uniformly sampled element of the slice.
#[verifier::external_body]
fn choose_from(choices: &Vec<usize>) -> (r: Option<usize>)
    ensures
        r is Some <==> choices@.len() > 0,
        r matches Some(x) ==> choices@.contains(x),
{
    choices.as_slice().choose(&mut rand::rng()).copied()
}

/// The sequential successor of index `i` in a list of length `len`.
pub open spec fn wrap_next(i: int, len: int) -> int {
    (i + 1) % len
}

/// The sequential predecessor of index `i` in a list of length `len`.
pub open spec fn wrap_prev(i: int, len: int) -> int {
    if i == 0 {
        len - 1
    } else {
        i - 1
    }
}

/// The index that sequential navigation moves to next: the successor of the
/// current index, or the first track when nothing has been played.
pub open spec fn sequential_next(current: Option<usize>, len: int) -> int {
    match current {
        Some(i) => wrap_next(i as int, len),
        None => 0,
    }
}

/// `start` advanced `k` times by sequential navigation in a list of length
/// `len`.
pub open spec fn advance_times(start: int, len: int, k: nat) -> int
    decreases k,
{
    if k == 0 {
        start
    } else {
        advance_times(wrap_next(start, len), len, (k - 1) as nat)
    }
}

proof fn lemma_advance_times_mod(start: int, len: int, k: nat)
    requires
        0 < len,
        0 <= start < len,
    ensures
        advance_times(start, len, k) == (start + k) % len,
    decreases k,
{
    if k == 0 {
        lemma_small_mod(start as nat, len as nat);
    } else {
        let s2 = wrap_next(start, len);
        lemma_mod_bound(start + 1, len);
        lemma_advance_times_mod(s2, len, (k - 1) as nat);
        lemma_add_mod_noop_right(k - 1, start + 1, len);
        assert((s2 + (k - 1)) % len == (start + k) % len);
    }
}

/// Sequential navigation is cyclic: advancing as many times as the list is
/// long returns to the starting index.
pub proof fn lemma_sequential_cycle(start: int, len: int)
    requires
        0 < len,
        0 <= start < len,
    ensures
        advance_times(start, len, len as nat) == start,
{
    lemma_advance_times_mod(start, len, len as nat);
    lemma_mod_add_multiples_vanish(start, len);
    lemma_small_mod(start as nat, len as nat);
}

impl Default for Playlist {
    fn default() -> (r: Self)
        ensures
            r.wf(),
            r.items@.len() == 0,
            r.current is None,
            r.mode == PlaybackMode::Sequential,
    {
        Playlist::new()
    }
}

impl Playlist {
    /// A current index, when present, stays inside the song list.
    pub open spec fn wf(&self) -> bool {
        self.current matches Some(i) ==> i < self.items@.len()
    }

    pub fn new() -> (r: Self)
        ensures
            r.wf(),
            r.items@.len() == 0,
            r.current is None,
            r.mode == PlaybackMode::Sequential,
    {
        Playlist { items: Vec::new(), current: None, mode: PlaybackMode::Sequential }
    }

    pub fn current_index(&self) -> (r: Option<usize>)
        ensures
            r == self.current,
    {
        self.current
    }

    pub fn get(&self, idx: usize) -> (r: Option<&String>)
        ensures
            idx < self.items@.len() ==> (r matches Some(p) && p == self.items@[idx as int]),
            idx >= self.items@.len() ==> r is None,
    {
        if idx < self.items.len() {
            Some(&self.items[idx])
        } else {
            None
        }
    }

    /// Replaces the song list with the audio files among the scanned paths,
    /// in scan order, and resets playback state: nothing current, sequential
    /// mode.
    pub fn apply_scan(&mut self, paths: Vec<String>) -> (count: usize)
        ensures
            final(self).wf(),
            final(self).items@ == paths@.filter(audio_pred()),
            final(self).current is None,
            final(self).mode == PlaybackMode::Sequential,
            count == final(self).items@.len(),
    {
        broadcast use vstd::prelude::Seq::lemma_filter_push;

        self.items = Vec::new();
        self.current = None;
        self.mode = PlaybackMode::Sequential;
        let n = paths.len();
        let mut i: usize = 0;
        proof {
            assert(paths@.take(0).filter(audio_pred()) =~= self.items@);
        }
        while i < n
            invariant
                i <= n,
                n == paths@.len(),
                self.items@ == paths@.take(i as int).filter(audio_pred()),
                self.current is None,
                self.mode == PlaybackMode::Sequential,
            decreases n - i,
        {
            let keep = is_audio(&paths[i]);
            proof {
                paths@.take(i as int).lemma_filter_push(paths@[i as int], audio_pred());
                assert(audio_pred()(paths@[i as int]) == is_audio_path(paths@[i as int]@));
                assert(keep == audio_pred()(paths@[i as int]));
            }
            if keep {
                self.items.push(paths[i].clone());
            }
            proof {
                assert(paths@.take(i + 1) =~= paths@.take(i as int).push(paths@[i as int]));
            }
            i = i + 1;
        }
        proof {
            assert(paths@.take(n as int) =~= paths@);
        }
        self.items.len()
    }

    /// The playlist as `(index, path, is_current)` rows, in order.
    pub fn list(&self) -> (r: Vec<(usize, String, bool)>)
        ensures
            r@.len() == self.items@.len(),
            forall|i: int|
                #![trigger r@[i]]
                0 <= i < r@.len() ==> r@[i].0 == i && r@[i].1 == self.items@[i] && r@[i].2 == (
                self.current == Some(i as usize)),
    {
        let n = self.items.len();
        let mut r: Vec<(usize, String, bool)> = Vec::new();
        let mut i: usize = 0;
        while i < n
            invariant
                i <= n,
                n == self.items@.len(),
                r@.len() == i,
                forall|t: int|
                    #![trigger r@[t]]
                    0 <= t < i ==> r@[t].0 == t && r@[t].1 == self.items@[t] && r@[t].2 == (
                    self.current == Some(t as usize)),
            decreases n - i,
        {
            let is_cur = match self.current {
                Some(c) => c == i,
                None => false,
            };
            r.push((i, self.items[i].clone(), is_cur));
            proof {
                assert(r@[i as int] == (i, self.items@[i as int], is_cur));
            }
            i = i + 1;
        }
        r
    }

    /// The rows whose file name contains the query, both compared in lower
    /// case.
    pub fn search(&self, q: &str) -> (r: Vec<(usize, String)>)
        ensures
            r@ == Seq::new(self.items@.len(), |i: int| (i as usize, self.items@[i])).filter(
                search_pred(q@),
            ),
    {
        broadcast use vstd::prelude::Seq::lemma_filter_push;

        let ghost all = Seq::new(self.items@.len(), |i: int| (i as usize, self.items@[i]));
        let ql = lowercase(q);
        let n = self.items.len();
        let mut r: Vec<(usize, String)> = Vec::new();
        let mut i: usize = 0;
        proof {
            assert(all.take(0).filter(search_pred(q@)) =~= r@);
        }
        while i < n
            invariant
                i <= n,
                n == self.items@.len(),
                ql@ == lower_of(q@),
                r@ == all.take(i as int).filter(search_pred(q@)),
                all == Seq::new(self.items@.len(), |t: int| (t as usize, self.items@[t])),
            decreases n - i,
        {
            let name = base_name(&self.items[i]);
            let lowered = lowercase(name);
            let hit = crate::text::contains_sub(lowered.as_str(), ql.as_str());
            proof {
                all.take(i as int).lemma_filter_push(all[i as int], search_pred(q@));
                assert(all[i as int] == (i as usize, self.items@[i as int]));
                assert(search_pred(q@)(all[i as int]) == is_substring(
                    lower_of(base_name_of(self.items@[i as int]@)),
                    lower_of(q@),
                ));
                assert(hit == search_pred(q@)(all[i as int]));
            }
            if hit {
                r.push((i, self.items[i].clone()));
            }
            proof {
                assert(all.take(i + 1) =~= all.take(i as int).push(all[i as int]));
            }
            i = i + 1;
        }
        proof {
            assert(all.take(n as int) =~= all);
        }
        r
    }

    /// The display name of the track that "next" would pick: empty on an
    /// empty list or when repeat-one has nothing current; under `Shuffle`
    /// the name of some valid pick. Under `Shuffle` the preview draws its
    /// own random pick, so it may differ from the track actually played
    /// next.
    pub fn peek_next_name(&self) -> (r: String)
        requires
            self.wf(),
        ensures
            self.items@.len() == 0 ==> r@ == Seq::<char>::empty(),
            self.items@.len() > 0 && self.mode == PlaybackMode::Sequential ==> r@ == base_name_of(
                self.items@[sequential_next(self.current, self.items@.len() as int)]@,
            ),
            self.mode == PlaybackMode::RepeatOne ==> r@ == (match self.current {
                Some(c) => base_name_of(self.items@[c as int]@),
                None => Seq::<char>::empty(),
            }),
            self.items@.len() > 0 && self.mode == PlaybackMode::Shuffle ==> (exists|j: int|
                0 <= j < self.items@.len() && r@ == base_name_of(self.items@[j]@) && (
                self.items@.len() > 1 ==> (self.current matches Some(c) ==> j != c))),
    {
        if self.items.len() == 0 {
            let r = String::new();
            return r;
        }
        match self.next_index_step() {
            Some(j) => {
                let name = base_name(&self.items[j]);
                String::from_str(name)
            },
            None => String::new(),
        }
    }

    /// A rendering snapshot of the playlist.
    pub fn clone_view(&self) -> (v: PlaylistView)
        requires
            self.wf(),
        ensures
            v.len == self.items@.len(),
            v.current == self.current,
            v.mode == self.mode,
            v.now_name@ == (match self.current {
                Some(c) => base_name_of(self.items@[c as int]@),
                None => Seq::<char>::empty(),
            }),
            self.items@.len() == 0 ==> v.next_name@ == Seq::<char>::empty(),
            self.items@.len() > 0 && self.mode == PlaybackMode::Sequential ==> v.next_name@
                == base_name_of(
                self.items@[sequential_next(self.current, self.items@.len() as int)]@,
            ),
            self.mode == PlaybackMode::RepeatOne ==> v.next_name@ == (match self.current {
                Some(c) => base_name_of(self.items@[c as int]@),
                None => Seq::<char>::empty(),
            }),
            self.items@.len() > 0 && self.mode == PlaybackMode::Shuffle ==> (exists|j: int|
                0 <= j < self.items@.len() && v.next_name@ == base_name_of(self.items@[j]@)),
    {
        let now_name = match self.current {
            Some(c) => String::from_str(base_name(&self.items[c])),
            None => String::new(),
        };
        let next_name = self.peek_next_name();
        PlaylistView {
            len: self.items.len(),
            current: self.current,
            mode: self.mode,
            now_name,
            next_name,
        }
    }

    /// The index that navigation would move to next, without moving there.
    /// Under `Shuffle` the pick is random: any index other than the current
    /// one, when the list offers a choice.
    fn next_index_step(&self) -> (r: Option<usize>)
        requires
            self.wf(),
        ensures
            self.items@.len() == 0 ==> r is None,
            r matches Some(x) ==> x < self.items@.len(),
            self.items@.len() > 0 && self.mode == PlaybackMode::Sequential ==> (r matches Some(x)
                && x as int == sequential_next(self.current, self.items@.len() as int)),
            self.mode == PlaybackMode::RepeatOne ==> r == self.current,
            self.items@.len() > 0 && self.mode == PlaybackMode::Shuffle ==> r is Some,
            self.items@.len() > 1 && self.mode == PlaybackMode::Shuffle ==> (self.current matches
                Some(c) ==> (r matches Some(x) && x != c)),
    {
        let len = self.items.len();
        if len == 0 {
            return None;
        }
        match self.mode {
            PlaybackMode::Sequential => {
                let i = match self.current {
                    Some(i) => (i + 1) % len,
                    None => 0,
                };
                Some(i)
            },
            PlaybackMode::RepeatOne => self.current,
            PlaybackMode::Shuffle => {
                let mut choices: Vec<usize> = Vec::new();
                let mut i: usize = 0;
                while i < len
                    invariant
                        i <= len,
                        len == self.items@.len(),
                        self.wf(),
                        forall|t: int|
                            0 <= t < choices@.len() ==> #[trigger] choices@[t] < len && (
                            self.current matches Some(c) ==> choices@[t] != c),
                        match self.current {
                            Some(c) => choices@.len() + (if (c as int) < i {
                                1int
                            } else {
                                0int
                            }) == i,
                            None => choices@.len() == i,
                        },
                    decreases len - i,
                {
                    let skip = match self.current {
                        Some(c) => i == c,
                        None => false,
                    };
                    if !skip {
                        choices.push(i);
                    }
                    i = i + 1;
                }
                match choose_from(&choices) {
                    Some(x) => {
                        proof {
                            let t = choose|t: int|
                                0 <= t < choices@.len() && choices@[t] == x;
                        }
                        Some(x)
                    },
                    None => self.current,
                }
            },
        }
    }

    /// The index that playing "next" moves to, under the active policy.
    pub fn next_index(&mut self) -> (r: Option<usize>)
        requires
            old(self).wf(),
        ensures
            *final(self) == *old(self),
            old(self).items@.len() == 0 ==> r is None,
            r matches Some(x) ==> x < old(self).items@.len(),
            old(self).items@.len() > 0 && old(self).mode == PlaybackMode::Sequential ==> (
            r matches Some(x) && x as int == sequential_next(
                old(self).current,
                old(self).items@.len() as int,
            )),
            old(self).mode == PlaybackMode::RepeatOne ==> r == old(self).current,
            old(self).items@.len() > 0 && old(self).mode == PlaybackMode::Shuffle ==> r is Some,
            old(self).items@.len() > 1 && old(self).mode == PlaybackMode::Shuffle ==> (old(
                self,
            ).current matches Some(c) ==> (r matches Some(x) && x != c)),
    {
        self.next_index_step()
    }

    /// The index that playing "previous" moves to: the sequential
    /// predecessor, except that `Shuffle` picks at random exactly as "next"
    /// does.
    pub fn prev_index(&self) -> (r: Option<usize>)
        requires
            self.wf(),
        ensures
            self.items@.len() == 0 ==> r is None,
            r matches Some(x) ==> x < self.items@.len(),
            self.items@.len() > 0 && self.mode != PlaybackMode::Shuffle ==> (r matches Some(x)
                && (x as int) == wrap_prev(
                match self.current {
                    Some(i) => i as int,
                    None => 0,
                },
                self.items@.len() as int,
            )),
            self.items@.len() > 0 && self.mode == PlaybackMode::Shuffle ==> r is Some,
            self.items@.len() > 1 && self.mode == PlaybackMode::Shuffle ==> (self.current matches
                Some(c) ==> (r matches Some(x) && x != c)),
    {
        let len = self.items.len();
        if len == 0 {
            return None;
        }
        match self.mode {
            PlaybackMode::Sequential | PlaybackMode::RepeatOne => {
                let i = match self.current {
                    Some(i) => i,
                    None => 0,
                };
                Some(if i == 0 {
                    len - 1
                } else {
                    i - 1
                })
            },
            PlaybackMode::Shuffle => self.next_index_step(),
        }
    }

    /// Moves the current index forward after a track finished on its own,
    /// under the active policy, and reports where playback continues.
    pub fn advance_on_finished(&mut self) -> (r: Option<usize>)
        requires
            old(self).wf(),
        ensures
            final(self).wf(),
            final(self).items@ == old(self).items@,
            final(self).mode == old(self).mode,
            old(self).items@.len() == 0 ==> r is None && *final(self) == *old(self),
            r matches Some(x) ==> x < old(self).items@.len(),
            old(self).mode == PlaybackMode::RepeatOne ==> r == old(self).current && *final(self)
                == *old(self),
            old(self).items@.len() > 0 && old(self).mode == PlaybackMode::Sequential ==> (
            r matches Some(x) && x as int == sequential_next(
                old(self).current,
                old(self).items@.len() as int,
            ) && final(self).current == r),
            old(self).items@.len() > 0 && old(self).mode == PlaybackMode::Shuffle ==> r is Some
                && final(self).current == r,
            old(self).items@.len() > 1 && old(self).mode == PlaybackMode::Shuffle ==> (old(
                self,
            ).current matches Some(c) ==> (r matches Some(x) && x != c)),
    {
        let len = self.items.len();
        if len == 0 {
            return None;
        }
        match self.mode {
            PlaybackMode::Sequential => {
                let next = match self.current {
                    Some(i) => (i + 1) % len,
                    None => 0,
                };
                self.current = Some(next);
                Some(next)
            },
            PlaybackMode::RepeatOne => self.current,
            PlaybackMode::Shuffle => {
                match self.next_index_step() {
                    Some(x) => {
                        self.current = Some(x);
                        Some(x)
                    },
                    None => None,
                }
            },
        }
    }
}

} // verus!
