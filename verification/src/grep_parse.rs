use vstd::prelude::*;
use crate::request::{SearchResult, SearchResultView};
use crate::textenc::{utf8_lossy, utf8_lossy_of};

verus! {

/// Index of the first occurrence of `c` in `s`, or `s.len()` if `c` is
/// absent.
pub open spec fn first_at(s: Seq<u8>, c: u8) -> int
    decreases s.len(),
{
    if s.len() == 0 {
        0
    } else if s[0] == c {
        0
    } else {
        1 + first_at(s.skip(1), c)
    }
}

pub proof fn lemma_first_at(s: Seq<u8>, c: u8)
    ensures
        0 <= first_at(s, c) <= s.len(),
        forall|k: int| 0 <= k < first_at(s, c) ==> s[k] != c,
        first_at(s, c) < s.len() ==> s[first_at(s, c)] == c,
    decreases s.len(),
{
    if s.len() > 0 && s[0] != c {
        lemma_first_at(s.skip(1), c);
        assert forall|k: int| 0 <= k < first_at(s, c) implies s[k] != c by {
            if k > 0 {
                assert(s.skip(1)[k - 1] == s[k]);
            }
        }
        if first_at(s, c) < s.len() {
            assert(s.skip(1)[first_at(s, c) - 1] == s[first_at(s, c)]);
        }
    }
}

pub proof fn lemma_first_at_unique(s: Seq<u8>, c: u8, j: int)
    requires
        0 <= j <= s.len(),
        forall|k: int| 0 <= k < j ==> s[k] != c,
        j < s.len() ==> s[j] == c,
    ensures
        j == first_at(s, c),
{
    lemma_first_at(s, c);
    let f = first_at(s, c);
    if j < f {
        assert(s[j] != c);
    } else if f < j {
        assert(s[f] != c);
    }
}

/// Finds the first occurrence of `c` in `v`, returning `v.len()` if absent.
pub fn find_byte(v: &Vec<u8>, c: u8) -> (i: usize)
    ensures
        i as int == first_at(v@, c),
{
    let mut i: usize = 0;
    while i < v.len()
        invariant
            i <= v.len(),
            forall|k: int| 0 <= k < i ==> v@[k] != c,
        decreases v.len() - i,
    {
        if v[i] == c {
            proof {
                lemma_first_at_unique(v@, c, i as int);
            }
            return i;
        }
        i = i + 1;
    }
    proof {
        lemma_first_at_unique(v@, c, i as int);
    }
    i
}

/// The numeric value of one decimal digit byte.
pub open spec fn digit_val(b: u8) -> nat {
    if 48 <= b <= 57 {
        (b - 48) as nat
    } else {
        0
    }
}

/// Whether every byte is a decimal digit.
pub open spec fn is_digits(s: Seq<u8>) -> bool {
    forall|k: int| 0 <= k < s.len() ==> 48 <= #[trigger] s[k] <= 57
}

/// The value of a sequence of decimal digit bytes, most significant first.
pub open spec fn dec_val(s: Seq<u8>) -> nat
    decreases s.len(),
{
    if s.len() == 0 {
        0
    } else {
        dec_val(s.drop_last()) * 10 + digit_val(s.last())
    }
}

pub proof fn lemma_dec_val_prefix(s: Seq<u8>, m: int)
    requires
        0 <= m <= s.len(),
    ensures
        dec_val(s.take(m)) <= dec_val(s),
    decreases s.len() - m,
{
    if m < s.len() {
        lemma_dec_val_prefix(s, m + 1);
        let t = s.take(m + 1);
        assert(t.drop_last() =~= s.take(m));
        assert(dec_val(s.take(m)) * 10 >= dec_val(s.take(m)) * 1);
        assert(dec_val(s.take(m)) <= dec_val(t));
    } else {
        assert(s.take(m) =~= s);
    }
}

/// How a line-number segment is read: an optional leading plus sign, then at
/// least one decimal digit, with a value that fits in 32 bits; anything else
/// is no line number.
pub open spec fn spec_parse_u32(s: Seq<u8>) -> Option<u32> {
    let t = if s.len() > 0 && s[0] == 43u8 {
        s.skip(1)
    } else {
        s
    };
    if t.len() > 0 && is_digits(t) && dec_val(t) <= u32::MAX {
        Some(dec_val(t) as u32)
    } else {
        None
    }
}

/// Reads a 32-bit line number from a byte segment, exactly as
/// `spec_parse_u32` describes.
pub fn parse_u32(seg: &Vec<u8>) -> (r: Option<u32>)
    ensures
        r == spec_parse_u32(seg@),
{
    let mut start: usize = 0;
    if seg.len() > 0 && seg[0] == 43 {
        start = 1;
    }
    let ghost t = if seg@.len() > 0 && seg@[0] == 43u8 {
        seg@.skip(1)
    } else {
        seg@
    };
    proof {
        assert(t =~= seg@.skip(start as int));
    }
    if seg.len() == start {
        return None;
    }
    let mut val: u64 = 0;
    let mut k: usize = start;
    while k < seg.len()
        invariant
            start <= k <= seg.len(),
            start <= 1,
            t =~= seg@.skip(start as int),
            t == (if seg@.len() > 0 && seg@[0] == 43u8 {
                seg@.skip(1)
            } else {
                seg@
            }),
            is_digits(t.take(k - start)),
            val == dec_val(t.take(k - start)),
            val <= u32::MAX,
        decreases seg.len() - k,
    {
        let b = seg[k];
        proof {
            assert(t[k - start] == seg@[k as int]);
        }
        if b < 48 || b > 57 {
            proof {
                let idx = k as int - start as int;
                assert(0 <= idx < t.len());
                assert(t[idx] == b);
                assert(!(48 <= t[idx] <= 57));
                assert(!is_digits(t));
                assert(spec_parse_u32(seg@) is None);
            }
            return None;
        }
        val = val * 10 + ((b - 48) as u64);
        proof {
            let t1 = t.take(k - start + 1);
            assert(t1.drop_last() =~= t.take(k - start));
            assert(t1.last() == b);
            assert(val == dec_val(t1));
            assert(is_digits(t1));
        }
        if val > 0xFFFF_FFFF {
            proof {
                lemma_dec_val_prefix(t, k as int - start as int + 1);
                assert(dec_val(t) > u32::MAX);
                assert(spec_parse_u32(seg@) is None);
            }
            return None;
        }
        k = k + 1;
    }
    proof {
        assert(t.take(k - start) =~= t);
    }
    Some(val as u32)
}

/// What one line of the line-oriented engine's output means: split at the
/// first two colons into path, line number and content; a line without both
/// colons, or whose middle segment is no line number, yields nothing. Line
/// numbers are 1-based, so a parsed zero names no line and the line is
/// dropped like any other malformed one.
pub open spec fn spec_grep_line(line: Seq<u8>) -> Option<SearchResultView> {
    let i = first_at(line, 58);
    if i == line.len() {
        None
    } else {
        let rest = line.skip(i + 1);
        let j = first_at(rest, 58);
        if j == rest.len() {
            None
        } else {
            match spec_parse_u32(rest.take(j)) {
                Some(n) => if n == 0 {
                    None
                } else {
                    Some(
                        SearchResultView {
                            path: utf8_lossy_of(line.take(i)),
                            line_number: n,
                            content: utf8_lossy_of(rest.skip(j + 1)),
                        },
                    )
                },
                None => None,
            }
        }
    }
}

/// Copies the byte range `from .. to` out of `v`.
fn copy_range(v: &Vec<u8>, from: usize, to: usize) -> (r: Vec<u8>)
    requires
        from <= to <= v@.len(),
    ensures
        r@ == v@.subrange(from as int, to as int),
{
    let mut r: Vec<u8> = Vec::new();
    let mut k: usize = from;
    while k < to
        invariant
            from <= k <= to <= v@.len(),
            r@ =~= v@.subrange(from as int, k as int),
        decreases to - k,
    {
        r.push(v[k]);
        proof {
            assert(r@ =~= v@.subrange(from as int, k as int + 1));
        }
        k = k + 1;
    }
    r
}

/// Parses one line of line-oriented engine output, exactly as
/// `spec_grep_line` describes.
pub fn parse_grep_line(line: &Vec<u8>) -> (r: Option<SearchResult>)
    ensures
        r.deep_view() == spec_grep_line(line@),
{
    let i = find_byte(line, 58);
    proof {
        lemma_first_at(line@, 58);
    }
    if i == line.len() {
        return None;
    }
    let rest = copy_range(line, i + 1, line.len());
    proof {
        assert(rest@ =~= line@.skip(i as int + 1));
    }
    let j = find_byte(&rest, 58);
    proof {
        lemma_first_at(rest@, 58);
    }
    if j == rest.len() {
        return None;
    }
    let numseg = copy_range(&rest, 0, j);
    proof {
        assert(numseg@ =~= rest@.take(j as int));
    }
    match parse_u32(&numseg) {
        Some(n) => {
            if n == 0 {
                return None;
            }
            let path_bytes = copy_range(line, 0, i);
            let content_bytes = copy_range(&rest, j + 1, rest.len());
            proof {
                assert(path_bytes@ =~= line@.take(i as int));
                assert(content_bytes@ =~= rest@.skip(j as int + 1));
            }
            let path = utf8_lossy(path_bytes.as_slice());
            let content = utf8_lossy(content_bytes.as_slice());
            Some(SearchResult { path, line_number: n, content })
        },
        None => None,
    }
}

} // verus!
