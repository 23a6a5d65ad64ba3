//! Timed lyrics: parsing the bracketed timestamp format, and mapping a
//! playback position to the active line.

use crate::text::{find_char, lower_of, lowercase, trim_of};
use vstd::prelude::*;

verus! {

/// A decimal digit.
pub open spec fn is_digit(c: char) -> bool {
    '0' <= c && c <= '9'
}

/// A non-empty run of decimal digits.
pub open spec fn all_digits(s: Seq<char>) -> bool {
    s.len() > 0 && forall|i: int| 0 <= i < s.len() ==> is_digit(s[i])
}

/// The number that a run of decimal digits denotes.
pub open spec fn digits_val(s: Seq<char>) -> int
    decreases s.len(),
{
    if s.len() == 0 {
        0
    } else {
        digits_val(s.drop_last()) * 10 + (s.last() as u32 - 48)
    }
}

/// The fractional part of a timestamp in milliseconds: one digit counts
/// hundreds, two count tens, three or more count as written.
pub open spec fn frac_ms(f: Seq<char>) -> int {
    if f.len() == 1 {
        digits_val(f) * 100
    } else if f.len() == 2 {
        digits_val(f) * 10
    } else {
        digits_val(f)
    }
}

/// The milliseconds that a bracketed tag of the form `mm:ss`, `mm:ss.f`
/// denotes; what follows a second colon is ignored, as is a second dot.
/// None when the pieces are not plain digit runs.
pub open spec fn parse_ts_spec(s: Seq<char>) -> Option<int> {
    match find_char(s, ':') {
        None => None,
        Some(ci) => {
            let mm = s.take(ci);
            let rest = s.skip(ci + 1);
            let ssf = match find_char(rest, ':') {
                Some(j) => rest.take(j),
                None => rest,
            };
            let ss = match find_char(ssf, '.') {
                Some(k) => ssf.take(k),
                None => ssf,
            };
            let frac = match find_char(ssf, '.') {
                Some(k) => {
                    let after = ssf.skip(k + 1);
                    Some(
                        match find_char(after, '.') {
                            Some(m) => after.take(m),
                            None => after,
                        },
                    )
                },
                None => None,
            };
            if all_digits(mm) && all_digits(ss) && (match frac {
                Some(f) => all_digits(f),
                None => true,
            }) {
                Some(
                    digits_val(mm) * 60000 + digits_val(ss) * 1000 + (match frac {
                        Some(f) => frac_ms(f),
                        None => 0,
                    }),
                )
            } else {
                None
            }
        },
    }
}

proof fn lemma_digits_val_nonneg(s: Seq<char>)
    requires
        forall|i: int| 0 <= i < s.len() ==> is_digit(s[i]),
    ensures
        digits_val(s) >= 0,
    decreases s.len(),
{
    if s.len() > 0 {
        assert(forall|i: int| 0 <= i < s.len() - 1 ==> #[trigger] s.drop_last()[i] == s[i]);
        lemma_digits_val_nonneg(s.drop_last());
    }
}

proof fn lemma_digits_val_prefix_le(s: Seq<char>, i: int, j: int)
    requires
        0 <= i <= j <= s.len(),
        forall|k: int| 0 <= k < s.len() ==> is_digit(s[k]),
    ensures
        digits_val(s.take(i)) <= digits_val(s.take(j)),
    decreases j - i,
{
    if i < j {
        lemma_digits_val_prefix_le(s, i, j - 1);
        assert(s.take(j).drop_last() =~= s.take(j - 1));
        assert(s.take(j).last() == s[j - 1]);
        assert(forall|k: int| 0 <= k < j - 1 ==> #[trigger] s.take(j - 1)[k] == s[k]);
        lemma_digits_val_nonneg(s.take(j - 1));
    }
}

/// Reads a non-empty run of decimal digits as a number; none when the text
/// holds anything else or the value does not fit.
pub fn parse_digits(s: &str) -> (r: Option<u128>)
    ensures
        r is Some <==> (all_digits(s@) && digits_val(s@) <= u128::MAX),
        r matches Some(v) ==> v as int == digits_val(s@),
{
    let n = s.unicode_len();
    if n == 0 {
        return None;
    }
    let mut acc: u128 = 0;
    let mut i: usize = 0;
    proof {
        assert(s@.take(0) =~= Seq::<char>::empty());
    }
    while i < n
        invariant
            i <= n,
            n == s@.len(),
            n > 0,
            forall|t: int| 0 <= t < i ==> is_digit(s@[t]),
            acc as int == digits_val(s@.take(i as int)),
        decreases n - i,
    {
        let c = s.get_char(i);
        if !('0' <= c && c <= '9') {
            return None;
        }
        let d = (c as u32 - 48) as u128;
        proof {
            assert(s@.take(i + 1).drop_last() =~= s@.take(i as int));
            assert(s@.take(i + 1).last() == s@[i as int]);
        }
        let next = match acc.checked_mul(10) {
            Some(m) => m.checked_add(d),
            None => None,
        };
        match next {
            Some(v) => {
                acc = v;
            },
            None => {
                proof {
                    assert(digits_val(s@.take(i + 1)) > u128::MAX);
                    if all_digits(s@) {
                        lemma_digits_val_prefix_le(s@, i + 1, n as int);
                        assert(s@.take(n as int) =~= s@);
                    }
                }
                return None;
            },
        }
        i = i + 1;
    }
    proof {
        assert(s@.take(n as int) =~= s@);
    }
    Some(acc)
}

/// Reads a bracketed-timestamp tag as milliseconds; none when it is not in
/// the `mm:ss` / `mm:ss.f` shape or does not fit.
pub fn parse_timestamp(ts: &str) -> (r: Option<u128>)
    ensures
        r is Some <==> (parse_ts_spec(ts@) matches Some(v) && v <= u128::MAX),
        r matches Some(x) ==> parse_ts_spec(ts@) == Some(x as int),
{
    let n = ts.unicode_len();
    let ci = match crate::text::find_in(ts, ':') {
        Some(i) => i,
        None => {
            return None;
        },
    };
    let mm_s = ts.substring_char(0, ci);
    let rest = ts.substring_char(ci + 1, n);
    proof {
        assert(mm_s@ =~= ts@.take(ci as int));
        assert(rest@ =~= ts@.skip(ci + 1));
    }
    let ssf = match crate::text::find_in(rest, ':') {
        Some(j) => rest.substring_char(0, j),
        None => rest,
    };
    proof {
        assert(ssf@ =~= (match find_char(rest@, ':') {
            Some(j) => rest@.take(j),
            None => rest@,
        }));
    }
    let sn = ssf.unicode_len();
    let dot = crate::text::find_in(ssf, '.');
    let ss_s = match dot {
        Some(k) => ssf.substring_char(0, k),
        None => ssf,
    };
    let frac_s: Option<&str> = match dot {
        Some(k) => {
            let after = ssf.substring_char(k + 1, sn);
            match crate::text::find_in(after, '.') {
                Some(m) => Some(after.substring_char(0, m)),
                None => Some(after),
            }
        },
        None => None,
    };
    proof {
        assert(ss_s@ =~= (match find_char(ssf@, '.') {
            Some(k) => ssf@.take(k),
            None => ssf@,
        }));
        crate::text::lemma_find_char_props(ssf@, '.');
        if find_char(ssf@, '.') is Some {
            let k = find_char(ssf@, '.')->Some_0;
            crate::text::lemma_find_char_props(ssf@.skip(k + 1), '.');
            assert(ssf@.subrange(k + 1, ssf@.len() as int) =~= ssf@.skip(k + 1));
            let after = ssf@.skip(k + 1);
            if find_char(after, '.') is Some {
                let m = find_char(after, '.')->Some_0;
                assert(frac_s is Some && frac_s->Some_0@ =~= after.take(m));
            } else {
                assert(frac_s is Some && frac_s->Some_0@ =~= after);
            }
        }
    }
    let mm = match parse_digits(mm_s) {
        Some(v) => v,
        None => {
            proof {
                if parse_ts_spec(ts@) is Some {
                    lemma_digits_val_nonneg(mm_s@);
                    lemma_digits_val_nonneg(ss_s@);
                    if frac_s is Some {
                        lemma_digits_val_nonneg(frac_s->Some_0@);
                    }
                }
            }
            return None;
        },
    };
    let ss = match parse_digits(ss_s) {
        Some(v) => v,
        None => {
            proof {
                if parse_ts_spec(ts@) is Some {
                    lemma_digits_val_nonneg(mm_s@);
                    lemma_digits_val_nonneg(ss_s@);
                    if frac_s is Some {
                        lemma_digits_val_nonneg(frac_s->Some_0@);
                    }
                }
            }
            return None;
        },
    };
    let frac: u128 = match frac_s {
        Some(f) => {
            let fv = match parse_digits(f) {
                Some(v) => v,
                None => {
                    proof {
                        if parse_ts_spec(ts@) is Some {
                            lemma_digits_val_nonneg(mm_s@);
                            lemma_digits_val_nonneg(ss_s@);
                            lemma_digits_val_nonneg(f@);
                        }
                    }
                    return None;
                },
            };
            let fn_len = f.unicode_len();
            if fn_len == 1 {
                proof {
                    assert(f@.drop_last() =~= Seq::<char>::empty());
                    assert(is_digit(f@.last()));
                    assert(f@.last() as u32 >= 48 && f@.last() as u32 <= 57);
                    assert(digits_val(f@.drop_last()) == 0);
                    assert(digits_val(f@) == digits_val(f@.drop_last()) * 10 + (f@.last() as u32
                        - 48));
                    assert(digits_val(f@) <= 9);
                }
                fv * 100
            } else if fn_len == 2 {
                proof {
                    assert(f@.drop_last().drop_last() =~= Seq::<char>::empty());
                    assert(is_digit(f@.drop_last().last()) && is_digit(f@.last()));
                    assert(f@.drop_last().last() as u32 >= 48 && f@.drop_last().last() as u32
                        <= 57);
                    assert(f@.last() as u32 >= 48 && f@.last() as u32 <= 57);
                    assert(digits_val(f@.drop_last().drop_last()) == 0);
                    assert(digits_val(f@.drop_last()) == digits_val(f@.drop_last().drop_last())
                        * 10 + (f@.drop_last().last() as u32 - 48));
                    assert(digits_val(f@.drop_last()) <= 9);
                    assert(digits_val(f@) == digits_val(f@.drop_last()) * 10 + (f@.last() as u32
                        - 48));
                    assert(digits_val(f@) <= 99);
                }
                fv * 10
            } else {
                fv
            }
        },
        None => 0,
    };
    proof {
        lemma_digits_val_nonneg(mm_s@);
        lemma_digits_val_nonneg(ss_s@);
    }
    let mm_ms = match mm.checked_mul(60000) {
        Some(v) => v,
        None => {
            return None;
        },
    };
    let ss_ms = match ss.checked_mul(1000) {
        Some(v) => v,
        None => {
            return None;
        },
    };
    let partial = match mm_ms.checked_add(ss_ms) {
        Some(v) => v,
        None => {
            return None;
        },
    };
    match partial.checked_add(frac) {
        Some(v) => Some(v),
        None => None,
    }
}

/// The greatest index whose timestamp is at most `ms`, reading the entries
/// from the end.
pub open spec fn line_index_at(lines: Seq<(u128, String)>, ms: u128) -> Option<int>
    decreases lines.len(),
{
    if lines.len() == 0 {
        None
    } else if lines.last().0 <= ms {
        Some(lines.len() - 1)
    } else {
        line_index_at(lines.drop_last(), ms)
    }
}

/// What the greatest-index reading guarantees: the returned index is valid,
/// its timestamp is within the position, and every later entry is beyond it;
/// no index at all means every entry is beyond the position.
pub proof fn lemma_line_index_at_props(lines: Seq<(u128, String)>, ms: u128)
    ensures
        line_index_at(lines, ms) matches Some(j) ==> (0 <= j < lines.len() && lines[j].0 <= ms
            && (forall|k: int| j < k < lines.len() ==> #[trigger] lines[k].0 > ms)),
        line_index_at(lines, ms) is None ==> (forall|k: int|
            0 <= k < lines.len() ==> #[trigger] lines[k].0 > ms),
    decreases lines.len(),
{
    if lines.len() > 0 && !(lines.last().0 <= ms) {
        lemma_line_index_at_props(lines.drop_last(), ms);
        assert(forall|k: int|
            0 <= k < lines.len() - 1 ==> #[trigger] lines[k] == lines.drop_last()[k]);
    }
}

/// The active line index never moves backward as the position grows.
pub proof fn lemma_line_index_monotone(lines: Seq<(u128, String)>, ms1: u128, ms2: u128)
    requires
        ms1 <= ms2,
    ensures
        line_index_at(lines, ms1) matches Some(j1) ==> (line_index_at(lines, ms2) matches Some(j2)
            && j1 <= j2),
    decreases lines.len(),
{
    if lines.len() > 0 {
        if lines.last().0 <= ms1 {
        } else if lines.last().0 <= ms2 {
            lemma_line_index_at_props(lines.drop_last(), ms1);
        } else {
            lemma_line_index_monotone(lines.drop_last(), ms1, ms2);
        }
    }
}

/// A document whose first timestamp is zero, and whose later entries come
/// strictly after it, is at its first line at position zero.
pub proof fn lemma_first_line_at_zero(lines: Seq<(u128, String)>)
    requires
        lines.len() > 0,
        lines[0].0 == 0,
        forall|k: int| 1 <= k < lines.len() ==> #[trigger] lines[k].0 > 0,
    ensures
        line_index_at(lines, 0) == Some(0int),
    decreases lines.len(),
{
    if lines.len() == 1 {
    } else {
        assert(lines.last().0 > 0);
        assert(forall|k: int|
            0 <= k < lines.len() - 1 ==> #[trigger] lines.drop_last()[k] == lines[k]);
        lemma_first_line_at_zero(lines.drop_last());
    }
}

/// A position before every timestamp has no active line.
pub proof fn lemma_before_first_none(lines: Seq<(u128, String)>, ms: u128)
    requires
        forall|k: int| 0 <= k < lines.len() ==> #[trigger] lines[k].0 > ms,
    ensures
        line_index_at(lines, ms) is None,
    decreases lines.len(),
{
    if lines.len() > 0 {
        assert(forall|k: int|
            0 <= k < lines.len() - 1 ==> #[trigger] lines.drop_last()[k] == lines[k]);
        lemma_before_first_none(lines.drop_last(), ms);
    }
}

/// The timed entry that a raw line yields: the line is trimmed, must be
/// bracketed, its tag must denote an in-range timestamp, and the text after
/// the bracket, trimmed, must be non-empty.
pub open spec fn entry_of(l: Seq<char>) -> Option<(u128, Seq<char>)> {
    let t = trim_of(l);
    if t.len() > 0 && t[0] == '[' && find_char(t, ']') is Some {
        let end = find_char(t, ']')->Some_0;
        let tag = t.subrange(1, end);
        match parse_ts_spec(tag) {
            Some(v) => {
                let text = trim_of(t.skip(end + 1));
                if 0 <= v <= u128::MAX && text.len() > 0 {
                    Some((v as u128, text))
                } else {
                    None
                }
            },
            None => None,
        }
    } else {
        None
    }
}

/// The timed entries of a document's raw lines, in file order.
pub open spec fn timed_entries(raw: Seq<Seq<char>>) -> Seq<(u128, Seq<char>)> {
    raw.filter_map(|l: Seq<char>| entry_of(l))
}

/// The metadata value that a raw line yields for `key` (`ti:`, `ar:` or
/// `al:`): a bracketed tag that does not denote an in-range timestamp,
/// whose lower-case form begins with the key; the value is what follows,
/// trimmed.
pub open spec fn meta_value(l: Seq<char>, key: Seq<char>) -> Option<Seq<char>> {
    let t = trim_of(l);
    if t.len() > 0 && t[0] == '[' && find_char(t, ']') is Some {
        let end = find_char(t, ']')->Some_0;
        let tag = t.subrange(1, end);
        if parse_ts_spec(tag) matches Some(v) && 0 <= v <= u128::MAX {
            None
        } else {
            let low = lower_of(tag);
            if low.len() >= key.len() && low.take(key.len() as int) == key {
                Some(trim_of(low.skip(key.len() as int)))
            } else {
                None
            }
        }
    } else {
        None
    }
}

/// The metadata value for `key` over a whole document: the last line that
/// yields one wins.
pub open spec fn meta_of(raw: Seq<Seq<char>>, key: Seq<char>) -> Option<Seq<char>>
    decreases raw.len(),
{
    if raw.len() == 0 {
        None
    } else {
        match meta_value(raw.last(), key) {
            Some(v) => Some(v),
            None => meta_of(raw.drop_last(), key),
        }
    }
}

/// Entries ordered by non-decreasing timestamp.
pub open spec fn sorted_ts(s: Seq<(u128, String)>) -> bool {
    forall|i: int, j: int| 0 <= i < j < s.len() ==> #[trigger] s[i].0 <= #[trigger] s[j].0
}

/// The entries as `(timestamp, characters)` pairs.
pub open spec fn entry_views(lines: Seq<(u128, String)>) -> Seq<(u128, Seq<char>)> {
    lines.map_values(|p: (u128, String)| (p.0, p.1@))
}

/// The raw lines as character sequences.
pub open spec fn line_views(raw: Seq<String>) -> Seq<Seq<char>> {
    raw.map_values(|s: String| s@)
}

/// Applies one raw line: appends its timed entry, or overwrites the
/// metadata field its tag names; does nothing for a malformed line.
fn process_line(
    line: &str,
    entries: &mut Vec<(u128, String)>,
    title: &mut Option<String>,
    artist: &mut Option<String>,
    album: &mut Option<String>,
)
    ensures
        entry_views(final(entries)@) == entry_views(old(entries)@) + (match entry_of(line@) {
            Some(e) => seq![e],
            None => Seq::<(u128, Seq<char>)>::empty(),
        }),
        match meta_value(line@, "ti:"@) {
            Some(v) => (*final(title)) matches Some(t) && t@ == v,
            None => *final(title) == *old(title),
        },
        match meta_value(line@, "ar:"@) {
            Some(v) => (*final(artist)) matches Some(t) && t@ == v,
            None => *final(artist) == *old(artist),
        },
        match meta_value(line@, "al:"@) {
            Some(v) => (*final(album)) matches Some(t) && t@ == v,
            None => *final(album) == *old(album),
        },
{
    proof {
        reveal_strlit("ti:");
        reveal_strlit("ar:");
        reveal_strlit("al:");
    }
    let t = crate::text::trim_str(line);
    let tn = t.unicode_len();
    proof {
        assert(entry_views(entries@) + Seq::<(u128, Seq<char>)>::empty() =~= entry_views(
            entries@,
        ));
    }
    if tn == 0 {
        return ;
    }
    if t.get_char(0) != '[' {
        return ;
    }
    let end = match crate::text::find_in(t, ']') {
        Some(e) => e,
        None => {
            return ;
        },
    };
    let tag = t.substring_char(1, end);
    proof {
        assert(tag@ =~= trim_of(line@).subrange(1, end as int));
    }
    match parse_timestamp(tag) {
        Some(ms) => {
            let text_part = t.substring_char(end + 1, tn);
            let text = crate::text::trim_str(text_part);
            proof {
                assert(text_part@ =~= trim_of(line@).skip(end + 1));
            }
            if text.unicode_len() > 0 {
                entries.push((ms, String::from_str(text)));
                proof {
                    assert(entry_of(line@) == Some((ms, text@)));
                    assert(entry_views(entries@) =~= entry_views(old(entries)@) + seq![
                        (ms, text@),
                    ]);
                }
            }
        },
        None => {
            let low = lowercase(tag);
            let ln = low.unicode_len();
            if crate::text::has_prefix(low.as_str(), "ti:") {
                let val = crate::text::trim_str(low.as_str().substring_char(3, ln));
                *title = Some(String::from_str(val));
                proof {
                    assert(low@.take(3) == "ti:"@);
                    assert("ti:"@[0] == 't' && "ar:"@[0] == 'a' && "al:"@[0] == 'a');
                    assert(low@.take(3) != "ar:"@ && low@.take(3) != "al:"@);
                    assert(meta_value(line@, "ti:"@) == Some(trim_of(low@.skip(3))));
                }
            } else if crate::text::has_prefix(low.as_str(), "ar:") {
                let val = crate::text::trim_str(low.as_str().substring_char(3, ln));
                *artist = Some(String::from_str(val));
                proof {
                    assert(low@.take(3) == "ar:"@);
                    assert("ti:"@[0] == 't' && "ar:"@[0] == 'a' && "ar:"@[1] == 'r' && "al:"@[1]
                        == 'l');
                    assert(low@.take(3) != "ti:"@ && low@.take(3) != "al:"@);
                    assert(meta_value(line@, "ar:"@) == Some(trim_of(low@.skip(3))));
                }
            } else if crate::text::has_prefix(low.as_str(), "al:") {
                let val = crate::text::trim_str(low.as_str().substring_char(3, ln));
                *album = Some(String::from_str(val));
                proof {
                    assert(low@.take(3) == "al:"@);
                    assert("ti:"@[0] == 't' && "al:"@[0] == 'a' && "ar:"@[1] == 'r' && "al:"@[1]
                        == 'l');
                    assert(low@.take(3) != "ti:"@ && low@.take(3) != "ar:"@);
                    assert(meta_value(line@, "al:"@) == Some(trim_of(low@.skip(3))));
                }
            }
        },
    }
}

/// Orders entries by non-decreasing timestamp, keeping exactly the same
/// entries.
fn sort_entries(v: Vec<(u128, String)>) -> (r: Vec<(u128, String)>)
    ensures
        sorted_ts(r@),
        entry_views(r@).to_multiset() == entry_views(v@).to_multiset(),
{
    let mut src = v;
    let mut out: Vec<(u128, String)> = Vec::new();
    proof {
        Seq::<(u128, Seq<char>)>::empty().to_multiset_ensures();
        entry_views(src@).to_multiset_ensures();
        assert(entry_views(out@) =~= Seq::<(u128, Seq<char>)>::empty());
        assert(entry_views(out@).to_multiset().add(entry_views(src@).to_multiset())
            =~= entry_views(src@).to_multiset());
    }
    let ghost orig = entry_views(src@).to_multiset();
    while src.len() > 0
        invariant
            sorted_ts(out@),
            entry_views(out@).to_multiset().add(entry_views(src@).to_multiset()) == orig,
            forall|i: int, j: int|
                0 <= i < out@.len() && 0 <= j < src@.len() ==> #[trigger] out@[i].0
                    <= #[trigger] src@[j].0,
        decreases src.len(),
    {
        let mut min_i: usize = 0;
        let mut k: usize = 1;
        while k < src.len()
            invariant
                min_i < k <= src@.len(),
                src@.len() > 0,
                forall|t: int| 0 <= t < k ==> src@[min_i as int].0 <= #[trigger] src@[t].0,
            decreases src@.len() - k,
        {
            if src[k].0 < src[min_i].0 {
                min_i = k;
            }
            k = k + 1;
        }
        let ghost old_src = src@;
        let ghost old_out = out@;
        let x = src.remove(min_i);
        out.push(x);
        proof {
            let vx = (x.0, x.1@);
            assert(entry_views(old_src)[min_i as int] == vx);
            assert(entry_views(src@) =~= entry_views(old_src).remove(min_i as int));
            assert(entry_views(out@) =~= entry_views(old_out).push(vx));
            entry_views(old_src).to_multiset_ensures();
            entry_views(old_out).to_multiset_ensures();
            assert(entry_views(src@).to_multiset() =~= entry_views(old_src).to_multiset().remove(
                vx,
            ));
            assert(entry_views(out@).to_multiset() =~= entry_views(old_out).to_multiset().insert(
                vx,
            ));
            assert(entry_views(old_src).to_multiset().contains(vx));
            assert(entry_views(out@).to_multiset().add(entry_views(src@).to_multiset())
                =~= entry_views(old_out).to_multiset().add(entry_views(old_src).to_multiset()));
            assert(forall|j: int|
                0 <= j < src@.len() ==> #[trigger] src@[j] == (if j < min_i {
                    old_src[j]
                } else {
                    old_src[j + 1]
                }));
            assert(forall|j: int| 0 <= j < src@.len() ==> x.0 <= #[trigger] src@[j].0);
        }
    }
    proof {
        assert(entry_views(src@) =~= Seq::<(u128, Seq<char>)>::empty());
        entry_views(src@).to_multiset_ensures();
        assert(entry_views(src@).to_multiset() =~= vstd::multiset::Multiset::<(
            u128,
            Seq<char>,
        )>::empty());
        assert(entry_views(out@).to_multiset().add(entry_views(src@).to_multiset())
            =~= entry_views(out@).to_multiset());
    }
    out
}

/// A timed lyric document: `(milliseconds, text)` entries sorted by time,
/// with optional metadata. An empty document is valid.
pub struct Lyrics {
    pub lines: Vec<(u128, String)>,
    pub title: Option<String>,
    pub artist: Option<String>,
    pub album: Option<String>,
}

impl Default for Lyrics {
    fn default() -> (r: Self)
        ensures
            r.wf(),
            r.lines@.len() == 0,
            r.title is None,
            r.artist is None,
            r.album is None,
    {
        Lyrics::new()
    }
}

impl Lyrics {
    /// Entries are sorted by timestamp.
    pub open spec fn wf(&self) -> bool {
        sorted_ts(self.lines@)
    }

    pub fn new() -> (r: Self)
        ensures
            r.wf(),
            r.lines@.len() == 0,
            r.title is None,
            r.artist is None,
            r.album is None,
    {
        Lyrics { lines: Vec::new(), title: None, artist: None, album: None }
    }

    /// The greatest line index whose timestamp is at most `millis`, or none
    /// when the document is empty or starts later than `millis`.
    pub fn current_line_index(&self, millis: u128) -> (r: Option<usize>)
        ensures
            r is Some <==> line_index_at(self.lines@, millis) is Some,
            r matches Some(x) ==> line_index_at(self.lines@, millis) == Some(x as int),
    {
        let n = self.lines.len();
        let mut i: usize = n;
        proof {
            assert(self.lines@.take(n as int) =~= self.lines@);
        }
        loop
            invariant
                i <= n,
                n == self.lines@.len(),
                line_index_at(self.lines@, millis) == line_index_at(
                    self.lines@.take(i as int),
                    millis,
                ),
            decreases i,
        {
            if i == 0 {
                return None;
            }
            proof {
                assert(self.lines@.take(i as int).last() == self.lines@[i - 1]);
                assert(self.lines@.take(i as int).drop_last() =~= self.lines@.take(i - 1));
            }
            if self.lines[i - 1].0 <= millis {
                return Some(i - 1);
            }
            i = i - 1;
        }
    }

    /// Builds a document from raw text lines: timed entries collected and
    /// sorted by timestamp, metadata taken from the last tag of each kind;
    /// malformed lines are skipped, never fatal.
    pub fn from_lines(raw: &Vec<String>) -> (r: Lyrics)
        ensures
            r.wf(),
            entry_views(r.lines@).to_multiset() == timed_entries(line_views(raw@)).to_multiset(),
            match meta_of(line_views(raw@), "ti:"@) {
                Some(v) => r.title matches Some(t) && t@ == v,
                None => r.title is None,
            },
            match meta_of(line_views(raw@), "ar:"@) {
                Some(v) => r.artist matches Some(t) && t@ == v,
                None => r.artist is None,
            },
            match meta_of(line_views(raw@), "al:"@) {
                Some(v) => r.album matches Some(t) && t@ == v,
                None => r.album is None,
            },
    {
        let ghost lv = line_views(raw@);
        let mut entries: Vec<(u128, String)> = Vec::new();
        let mut title: Option<String> = None;
        let mut artist: Option<String> = None;
        let mut album: Option<String> = None;
        let n = raw.len();
        let mut i: usize = 0;
        proof {
            assert(lv.take(0) =~= Seq::<Seq<char>>::empty());
            assert(entry_views(entries@) =~= timed_entries(lv.take(0)));
        }
        while i < n
            invariant
                i <= n,
                n == raw@.len(),
                lv == line_views(raw@),
                lv.len() == n,
                entry_views(entries@) == timed_entries(lv.take(i as int)),
                match meta_of(lv.take(i as int), "ti:"@) {
                    Some(v) => title matches Some(t) && t@ == v,
                    None => title is None,
                },
                match meta_of(lv.take(i as int), "ar:"@) {
                    Some(v) => artist matches Some(t) && t@ == v,
                    None => artist is None,
                },
                match meta_of(lv.take(i as int), "al:"@) {
                    Some(v) => album matches Some(t) && t@ == v,
                    None => album is None,
                },
            decreases n - i,
        {
            proof {
                assert(lv[i as int] == raw@[i as int]@);
            }
            process_line(&raw[i], &mut entries, &mut title, &mut artist, &mut album);
            proof {
                lv.lemma_filter_map_take_succ(|l: Seq<char>| entry_of(l), i as int);
                assert(timed_entries(lv.take(i + 1)) == timed_entries(lv.take(i as int)) + (
                match entry_of(lv[i as int]) {
                    Some(e) => seq![e],
                    None => Seq::<(u128, Seq<char>)>::empty(),
                }));
                assert(lv.take(i + 1).last() == lv[i as int]);
                assert(lv.take(i + 1).drop_last() =~= lv.take(i as int));
            }
            i = i + 1;
        }
        proof {
            assert(lv.take(n as int) =~= lv);
        }
        let sorted = sort_entries(entries);
        Lyrics { lines: sorted, title, artist, album }
    }

    pub fn len(&self) -> (r: usize)
        ensures
            r == self.lines@.len(),
    {
        self.lines.len()
    }

    pub fn is_empty(&self) -> (r: bool)
        ensures
            r == (self.lines@.len() == 0),
    {
        self.lines.is_empty()
    }
}

} // verus!
