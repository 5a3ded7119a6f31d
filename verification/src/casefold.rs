use vstd::prelude::*;

verus! {

/// ASCII lowercase of a single character: 'A'..='Z' maps to the
/// corresponding lowercase letter, every other character is unchanged.
pub open spec fn lower_char(c: char) -> char {
    if 'A' <= c && c <= 'Z' {
        ((c as int) + 32) as char
    } else {
        c
    }
}

/// ASCII lowercase applied to every character of a sequence.
pub open spec fn lower(s: Seq<char>) -> Seq<char> {
    s.map_values(|c: char| lower_char(c))
}

/// The code point of the ASCII lowercase of `c`.
fn lower_code(c: char) -> (r: u32)
    ensures
        r == lower_char(c) as u32,
{
    let u = c as u32;
    if 65 <= u && u <= 90 {
        u + 32
    } else {
        u
    }
}

/// Whether two characters are equal up to ASCII case.
fn chars_match(a: char, b: char) -> (r: bool)
    ensures
        r == (lower_char(a) == lower_char(b)),
{
    lower_code(a) == lower_code(b)
}

/// Whether two strings are equal up to ASCII case.
pub fn eq_ignore_case(s: &str, t: &str) -> (r: bool)
    ensures
        r == (lower(s@) == lower(t@)),
{
    let n = s.unicode_len();
    if n != t.unicode_len() {
        proof {
            assert(lower(s@).len() != lower(t@).len());
        }
        return false;
    }
    let mut i: usize = 0;
    while i < n
        invariant
            n == s@.len(),
            n == t@.len(),
            i <= n,
            forall|j: int| 0 <= j < i ==> lower_char(s@[j]) == lower_char(t@[j]),
        decreases n - i,
    {
        let cs = s.get_char(i);
        let ct = t.get_char(i);
        if !chars_match(cs, ct) {
            proof {
                assert(lower(s@)[i as int] != lower(t@)[i as int]);
            }
            return false;
        }
        i += 1;
    }
    proof {
        assert(lower(s@) =~= lower(t@));
    }
    true
}

/// ASCII lowering leaves a sequence without uppercase letters as it is.
proof fn lemma_lower_id(s: Seq<char>)
    requires
        forall|i: int| 0 <= i < s.len() ==> !('A' <= s[i] && s[i] <= 'Z'),
    ensures
        lower(s) == s,
{
    assert(lower(s) =~= s);
}

/// Whether `s` equals the all-lowercase keyword `t` up to ASCII case.
pub(crate) fn matches_keyword(s: &str, t: &str) -> (r: bool)
    requires
        forall|i: int| 0 <= i < t@.len() ==> !('A' <= t@[i] && t@[i] <= 'Z'),
    ensures
        r == (lower(s@) == t@),
{
    let r = eq_ignore_case(s, t);
    proof {
        lemma_lower_id(t@);
    }
    r
}

} // verus!
