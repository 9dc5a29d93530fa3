use vstd::prelude::*;

verus! {

/// The character views of a sequence of strings.
pub open spec fn str_views(v: Seq<String>) -> Seq<Seq<char>> {
    v.map_values(|s: String| s@)
}

/// The character view of an optional string.
pub open spec fn opt_view(v: Option<String>) -> Option<Seq<char>> {
    match v {
        Some(s) => Some(s@),
        None => None,
    }
}

/// The needle `n` occurs in `h` starting at position `i`.
pub open spec fn occurs_at(h: Seq<char>, n: Seq<char>, i: int) -> bool {
    0 <= i && i + n.len() <= h.len() && h.subrange(i, i + n.len()) == n
}

/// The needle `n` occurs somewhere in `h`.
pub open spec fn contains_seq(h: Seq<char>, n: Seq<char>) -> bool {
    exists|i: int| occurs_at(h, n, i)
}

/// Substring search: whether `needle` occurs anywhere in `haystack`.
pub fn contains_str(haystack: &str, needle: &str) -> (r: bool)
    ensures
        r == contains_seq(haystack@, needle@),
{
    let h_len = haystack.unicode_len();
    let n_len = needle.unicode_len();
    if n_len > h_len {
        return false;
    }
    if n_len == 0 {
        proof {
            assert(haystack@.subrange(0, 0) =~= needle@);
            assert(occurs_at(haystack@, needle@, 0));
        }
        return true;
    }
    let mut i: usize = 0;
    while i <= h_len - n_len
        invariant
            n_len <= h_len,
            h_len == haystack@.len(),
            n_len == needle@.len(),
            1 <= n_len,
            i <= h_len - n_len + 1,
            forall|k: int| 0 <= k < i ==> !occurs_at(haystack@, needle@, k),
        decreases h_len - n_len + 1 - i,
    {
        let mut j: usize = 0;
        let mut matched = true;
        while j < n_len
            invariant_except_break
                matched,
                forall|l: int| 0 <= l < j ==> haystack@[i + l] == needle@[l],
            invariant
                n_len <= h_len,
                h_len == haystack@.len(),
                n_len == needle@.len(),
                i + n_len <= h_len,
                j <= n_len,
            ensures
                matched ==> forall|l: int| 0 <= l < n_len ==> haystack@[i + l] == needle@[l],
                !matched ==> !occurs_at(haystack@, needle@, i as int),
            decreases n_len - j,
        {
            if haystack.get_char(i + j) != needle.get_char(j) {
                proof {
                    if occurs_at(haystack@, needle@, i as int) {
                        assert(haystack@.subrange(i as int, i + needle@.len())[j as int]
                            == needle@[j as int]);
                    }
                }
                matched = false;
                break;
            }
            j += 1;
        }
        if matched {
            proof {
                assert(haystack@.subrange(i as int, i + needle@.len()) =~= needle@);
                assert(occurs_at(haystack@, needle@, i as int));
            }
            return true;
        }
        i += 1;
    }
    proof {
        assert forall|k: int| !occurs_at(haystack@, needle@, k) by {
            assert(k < i || k + needle@.len() > haystack@.len());
        }
    }
    false
}

/// `a` equals the lower-case reference character `b`, up to ASCII case:
/// either the same character, or `a` is the ASCII upper-case form of `b`.
pub open spec fn ascii_eq_ci(a: char, b: char) -> bool {
    a == b || (65 <= a as int && a as int <= 90 && a as int + 32 == b as int)
}

/// `s` ends with `suffix`, compared ASCII-case-insensitively, where
/// `suffix` is given in lower case.
pub open spec fn ends_with_ci(s: Seq<char>, suffix: Seq<char>) -> bool {
    s.len() >= suffix.len() && (forall|i: int|
        0 <= i < suffix.len() ==> ascii_eq_ci(s[s.len() - suffix.len() + i], suffix[i]))
}

/// One character compared against a lower-case reference, ASCII-case-insensitively.
fn char_eq_ci(a: char, b: char) -> (r: bool)
    ensures
        r == ascii_eq_ci(a, b),
{
    if a == b {
        true
    } else {
        let au = a as u32;
        let bu = b as u32;
        65 <= au && au <= 90 && au + 32 == bu
    }
}

/// Whether `s` ends, ASCII-case-insensitively, with the four lower-case
/// characters `c0 c1 c2 c3`.
pub fn ends_with_ci4(s: &str, c0: char, c1: char, c2: char, c3: char) -> (r: bool)
    ensures
        r == ends_with_ci(s@, seq![c0, c1, c2, c3]),
{
    let n = s.unicode_len();
    if n < 4 {
        return false;
    }
    let r0 = char_eq_ci(s.get_char(n - 4), c0);
    let r1 = char_eq_ci(s.get_char(n - 3), c1);
    let r2 = char_eq_ci(s.get_char(n - 2), c2);
    let r3 = char_eq_ci(s.get_char(n - 1), c3);
    let r = r0 && r1 && r2 && r3;
    proof {
        let suf = seq![c0, c1, c2, c3];
        assert(suf[0] == c0 && suf[1] == c1 && suf[2] == c2 && suf[3] == c3);
        if r {
            assert forall|i: int| 0 <= i < 4 implies ascii_eq_ci(
                s@[s@.len() - 4 + i],
                suf[i],
            ) by {
                if i == 0 {
                } else if i == 1 {
                } else if i == 2 {
                } else {
                }
            }
        }
    }
    r
}

} // verus!
