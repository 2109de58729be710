//! Small verified string helpers shared across the library.

use vstd::prelude::*;

verus! {

/// Whether `p` is a prefix of `s`.
pub open spec fn spec_starts_with(s: Seq<char>, p: Seq<char>) -> bool {
    p.len() <= s.len() && s.subrange(0, p.len() as int) == p
}

/// Whether the string starts with the given prefix.
pub fn starts_with_prefix(s: &str, prefix: &str) -> (r: bool)
    ensures
        r == spec_starts_with(s@, prefix@),
{
    let n = prefix.unicode_len();
    let m = s.unicode_len();
    if m < n {
        return false;
    }
    let head = s.substring_char(0, n);
    let h = String::from_str(head);
    let p = String::from_str(prefix);
    let eq = h == p;
    proof {
        if eq {
            assert(s@.subrange(0, n as int) == prefix@);
        } else {
            assert(s@.subrange(0, n as int) != prefix@);
        }
    }
    eq
}

/// The characters trimmed from the ends of an environment value.
pub open spec fn spec_is_wspace(c: char) -> bool {
    c == ' ' || c == '\t' || c == '\n' || c == '\r'
}

/// The sequence with leading whitespace removed.
pub open spec fn spec_trim_front(s: Seq<char>) -> Seq<char>
    decreases s.len(),
{
    if s.len() == 0 {
        s
    } else if spec_is_wspace(s[0]) {
        spec_trim_front(s.drop_first())
    } else {
        s
    }
}

/// The sequence with trailing whitespace removed.
pub open spec fn spec_trim_back(s: Seq<char>) -> Seq<char>
    decreases s.len(),
{
    if s.len() == 0 {
        s
    } else if spec_is_wspace(s.last()) {
        spec_trim_back(s.drop_last())
    } else {
        s
    }
}

/// The sequence with whitespace removed from both ends.
pub open spec fn spec_trim(s: Seq<char>) -> Seq<char> {
    spec_trim_back(spec_trim_front(s))
}

fn is_wspace(c: char) -> (r: bool)
    ensures
        r == spec_is_wspace(c),
{
    c == ' ' || c == '\t' || c == '\n' || c == '\r'
}

/// Removes whitespace from both ends of the string.
pub fn trim_whitespace(s: &str) -> (r: String)
    ensures
        r@ == spec_trim(s@),
{
    let n = s.unicode_len();
    let mut i: usize = 0;
    proof {
        assert(s@.skip(0) =~= s@);
    }
    while i < n && is_wspace(s.get_char(i))
        invariant
            n == s@.len(),
            i <= n,
            spec_trim_front(s@) == spec_trim_front(s@.skip(i as int)),
        decreases n - i,
    {
        proof {
            assert(s@.skip(i as int)[0] == s@[i as int]);
            assert(s@.skip(i as int).drop_first() =~= s@.skip(i + 1 as int));
        }
        i = i + 1;
    }
    proof {
        if i < n {
            assert(s@.skip(i as int)[0] == s@[i as int]);
            assert(spec_trim_front(s@.skip(i as int)) == s@.skip(i as int));
        } else {
            assert(s@.skip(i as int) =~= Seq::<char>::empty());
        }
    }
    let ghost rest = s@.skip(i as int);
    let mut j: usize = n;
    proof {
        assert(s@.subrange(i as int, n as int) =~= rest);
    }
    while j > i && is_wspace(s.get_char(j - 1))
        invariant
            n == s@.len(),
            i <= j <= n,
            rest == s@.skip(i as int),
            spec_trim_front(s@) == rest,
            spec_trim_back(rest) == spec_trim_back(s@.subrange(i as int, j as int)),
        decreases j,
    {
        proof {
            assert(s@.subrange(i as int, j as int).last() == s@[j - 1]);
            assert(s@.subrange(i as int, j as int).drop_last() =~= s@.subrange(
                i as int,
                j - 1 as int,
            ));
        }
        j = j - 1;
    }
    proof {
        let piece = s@.subrange(i as int, j as int);
        if j > i {
            assert(piece.last() == s@[j - 1]);
            assert(spec_trim_back(piece) == piece);
        } else {
            assert(piece =~= Seq::<char>::empty());
        }
    }
    let head = s.substring_char(i, j);
    String::from_str(head)
}

/// The environment API key, trimmed; an empty value counts as unset.
pub fn normalize_api_key(value: &str) -> (r: Option<String>)
    ensures
        match r {
            Some(k) => k@ == spec_trim(value@) && k@.len() > 0,
            None => spec_trim(value@).len() == 0,
        },
{
    let trimmed = trim_whitespace(value);
    if trimmed.as_str().unicode_len() == 0 {
        None
    } else {
        Some(trimmed)
    }
}

} // verus!
