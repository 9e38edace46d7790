//! Declaration names.  Every struct, function, and trait implementation is
//! identified by a stable name; two declarations are equal iff their names
//! match.  A method name may be qualified, `Trait::method`; matching an
//! unqualified call uses the suffix after the last `::` separator.

use vstd::prelude::*;

verus! {

/// Whether the two-character separator `::` stands at position `i` of `s`.
pub open spec fn sep_at(s: Seq<char>, i: int) -> bool {
    0 <= i && i + 2 <= s.len() && s[i] == ':' && s[i + 1] == ':'
}

/// The suffix of `s` after the last occurrence of the `::` separator;
/// `s` itself when no separator occurs.
pub open spec fn suffix_after_sep(s: Seq<char>) -> Seq<char>
    decreases s.len(),
{
    if s.len() < 2 {
        s
    } else if s[s.len() - 2] == ':' && s[s.len() - 1] == ':' {
        Seq::empty()
    } else {
        suffix_after_sep(s.drop_last()).push(s.last())
    }
}

/// When no separator occurs in `s`, the suffix is `s` itself.
pub proof fn lemma_suffix_no_sep(s: Seq<char>)
    requires
        forall|i: int| !sep_at(s, i),
    ensures
        suffix_after_sep(s) == s,
    decreases s.len(),
{
    if s.len() < 2 {
        assert(suffix_after_sep(s) =~= s);
    } else {
        assert(!sep_at(s, s.len() - 2));
        assert forall|i: int| !sep_at(s.drop_last(), i) by {
            if sep_at(s.drop_last(), i) {
                assert(s.drop_last()[i] == s[i] && s.drop_last()[i + 1] == s[i + 1]);
                assert(sep_at(s, i));
            }
        }
        lemma_suffix_no_sep(s.drop_last());
        assert(suffix_after_sep(s) =~= s);
    }
}

/// When the last separator of `s` stands at `i`, the suffix is what follows it.
pub proof fn lemma_suffix_last_sep(s: Seq<char>, i: int)
    requires
        sep_at(s, i),
        forall|j: int| j > i ==> !sep_at(s, j),
    ensures
        suffix_after_sep(s) == s.subrange(i + 2, s.len() as int),
    decreases s.len(),
{
    if i + 2 == s.len() {
        assert(suffix_after_sep(s) =~= s.subrange(i + 2, s.len() as int));
    } else {
        assert(!sep_at(s, s.len() - 2));
        assert(!(s[s.len() - 2] == ':' && s[s.len() - 1] == ':'));
        assert(sep_at(s.drop_last(), i));
        assert forall|j: int| j > i implies !sep_at(s.drop_last(), j) by {
            if sep_at(s.drop_last(), j) {
                assert(s.drop_last()[j] == s[j] && s.drop_last()[j + 1] == s[j + 1]);
                assert(sep_at(s, j));
            }
        }
        lemma_suffix_last_sep(s.drop_last(), i);
        assert(suffix_after_sep(s) =~= s.subrange(i + 2, s.len() as int));
    }
}

/// The unqualified form of a possibly qualified name: the suffix after the
/// last `::` separator, or the whole name when no separator occurs.
pub fn unqualified_suffix(name: &str) -> (r: String)
    ensures
        r@ == suffix_after_sep(name@),
{
    let n = name.unicode_len();
    let mut idx: usize = 0;
    let mut found: bool = false;
    let mut at: usize = 0;
    while n > 0 && idx < n - 1
        invariant
            n == name@.len(),
            idx <= n,
            found ==> sep_at(name@, at as int),
            forall|j: int|
                0 <= j && j < idx as int && (!found || j > at as int) ==> !sep_at(name@, j),
        decreases n - idx,
    {
        if name.get_char(idx) == ':' && name.get_char(idx + 1) == ':' {
            found = true;
            at = idx;
        }
        idx += 1;
    }
    if found {
        let r = name.substring_char(at + 2, n).to_owned();
        proof {
            assert(forall|j: int| j > at as int ==> !sep_at(name@, j));
            lemma_suffix_last_sep(name@, at as int);
        }
        r
    } else {
        proof {
            assert(forall|j: int| !sep_at(name@, j));
            lemma_suffix_no_sep(name@);
        }
        name.to_owned()
    }
}

/// Whether `name`'s unqualified suffix is exactly `method`.
pub open spec fn spec_suffix_matches(name: Seq<char>, method: Seq<char>) -> bool {
    suffix_after_sep(name) == method
}

/// Whether `name`'s unqualified suffix is exactly `method`.
pub fn suffix_matches(name: &String, method: &String) -> (r: bool)
    ensures
        r == spec_suffix_matches(name@, method@),
{
    let suffix = unqualified_suffix(name.as_str());
    suffix == *method
}

} // verus!
