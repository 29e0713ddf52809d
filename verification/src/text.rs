//! Character-level text predicates and helpers the provider logic needs:
//! prefix and suffix tests, and element-wise cloning of name lists.

use vstd::prelude::*;

verus! {

/// `s` begins with `prefix`.
pub open spec fn has_prefix(s: Seq<char>, prefix: Seq<char>) -> bool {
    prefix.len() <= s.len() && s.subrange(0, prefix.len() as int) == prefix
}

/// `s` ends with `suffix`.
pub open spec fn has_suffix(s: Seq<char>, suffix: Seq<char>) -> bool {
    suffix.len() <= s.len() && s.subrange(
        s.len() - suffix.len(),
        s.len() as int,
    ) == suffix
}

/// Whether `s` begins with `prefix`, checked character by character.
pub fn str_starts_with(s: &str, prefix: &str) -> (r: bool)
    ensures
        r == has_prefix(s@, prefix@),
{
    let s_len = s.unicode_len();
    let p_len = prefix.unicode_len();
    if p_len > s_len {
        return false;
    }
    let mut i: usize = 0;
    while i < p_len
        invariant
            0 <= i <= p_len <= s_len,
            s_len == s@.len(),
            p_len == prefix@.len(),
            forall|j: int| 0 <= j < i ==> s@[j] == prefix@[j],
        decreases p_len - i,
    {
        if s.get_char(i) != prefix.get_char(i) {
            proof {
                if has_prefix(s@, prefix@) {
                    assert(s@.subrange(0, prefix@.len() as int)[i as int] == prefix@[i as int]);
                }
            }
            return false;
        }
        i = i + 1;
    }
    proof {
        assert(s@.subrange(0, prefix@.len() as int) =~= prefix@);
    }
    true
}

/// Whether `s` ends with `suffix`, checked character by character.
pub fn str_ends_with(s: &str, suffix: &str) -> (r: bool)
    ensures
        r == has_suffix(s@, suffix@),
{
    let s_len = s.unicode_len();
    let x_len = suffix.unicode_len();
    if x_len > s_len {
        return false;
    }
    let offset = s_len - x_len;
    let mut i: usize = 0;
    while i < x_len
        invariant
            0 <= i <= x_len <= s_len,
            s_len == s@.len(),
            x_len == suffix@.len(),
            offset == s_len - x_len,
            forall|j: int| 0 <= j < i ==> s@[offset + j] == suffix@[j],
        decreases x_len - i,
    {
        if s.get_char(offset + i) != suffix.get_char(i) {
            proof {
                if has_suffix(s@, suffix@) {
                    assert(s@.subrange(s@.len() - suffix@.len(), s@.len() as int)[i as int]
                        == suffix@[i as int]);
                }
            }
            return false;
        }
        i = i + 1;
    }
    proof {
        assert(s@.subrange(s@.len() - suffix@.len(), s@.len() as int) =~= suffix@);
    }
    true
}

/// `s` holds `pattern` somewhere.
pub open spec fn contains_seq(s: Seq<char>, pattern: Seq<char>) -> bool {
    exists|i: int|
        0 <= i <= s.len() - pattern.len() && #[trigger] s.subrange(i, i + pattern.len())
            == pattern
}

/// Whether `s` holds `pattern` somewhere, checked window by window.
pub fn str_contains(s: &str, pattern: &str) -> (r: bool)
    ensures
        r == contains_seq(s@, pattern@),
{
    let s_len = s.unicode_len();
    let p_len = pattern.unicode_len();
    if p_len > s_len {
        return false;
    }
    let mut i: usize = 0;
    while i <= s_len - p_len
        invariant
            0 <= i <= s_len - p_len + 1,
            p_len <= s_len,
            s_len == s@.len(),
            p_len == pattern@.len(),
            forall|j: int| 0 <= j < i ==> #[trigger] s@.subrange(j, j + pattern@.len())
                != pattern@,
        decreases s_len - i,
    {
        let window = s.substring_char(i, i + p_len);
        if str_starts_with(window, pattern) {
            proof {
                assert(window@.subrange(0, pattern@.len() as int) =~= window@);
                assert(s@.subrange(i as int, i + p_len as int) == pattern@);
            }
            return true;
        }
        proof {
            if pattern@.len() == 0 {
                assert(window@.subrange(0, 0) =~= pattern@);
            }
            if s@.subrange(i as int, i + pattern@.len()) == pattern@ {
                assert(window@.subrange(0, pattern@.len() as int) =~= window@);
                assert(has_prefix(window@, pattern@));
            }
        }
        i = i + 1;
    }
    proof {
        if contains_seq(s@, pattern@) {
            let w = choose|w: int|
                0 <= w <= s@.len() - pattern@.len() && #[trigger] s@.subrange(
                    w,
                    w + pattern@.len(),
                ) == pattern@;
            assert(w < i);
        }
    }
    false
}

/// Clones a list of names, keeping each name's characters.
pub fn clone_strings(names: &Vec<String>) -> (r: Vec<String>)
    ensures
        r@.len() == names@.len(),
        forall|i: int| 0 <= i < names@.len() ==> #[trigger] r@[i]@ == names@[i]@,
{
    let mut out: Vec<String> = Vec::new();
    let mut i: usize = 0;
    while i < names.len()
        invariant
            0 <= i <= names@.len(),
            out@.len() == i,
            forall|j: int| 0 <= j < i ==> #[trigger] out@[j]@ == names@[j]@,
        decreases names@.len() - i,
    {
        out.push(names[i].clone());
        i = i + 1;
    }
    out
}

} // verus!
