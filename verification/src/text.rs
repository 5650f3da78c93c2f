//! Text predicates used by the frame filter and the payload builder:
//! substring containment (for infrastructure-path and exclusion-marker
//! matching) and stripping the first line of a fault description.

use vstd::prelude::*;

verus! {

/// `needle` occurs contiguously somewhere inside `hay`.
pub open spec fn contains_sub(hay: Seq<char>, needle: Seq<char>) -> bool {
    exists|k: int|
        0 <= k && k + needle.len() <= hay.len() && #[trigger] hay.subrange(k, k + needle.len())
            == needle
}

/// Everything after the first newline of `s`; empty if `s` has no newline.
pub open spec fn strip_first_line_spec(s: Seq<char>) -> Seq<char>
    decreases s.len(),
{
    if s.len() == 0 {
        Seq::empty()
    } else if s[0] == '\n' {
        s.skip(1)
    } else {
        strip_first_line_spec(s.skip(1))
    }
}

/// The needle matches `hay` exactly at offset `k`.
fn match_at(hay: &str, needle: &str, k: usize) -> (r: bool)
    requires
        k + needle@.len() <= hay@.len(),
    ensures
        r == (hay@.subrange(k as int, k as int + needle@.len()) == needle@),
{
    let hlen = hay.unicode_len();
    let nlen = needle.unicode_len();
    let mut j: usize = 0;
    while j < nlen
        invariant
            j <= nlen,
            hlen == hay@.len(),
            nlen == needle@.len(),
            k + nlen <= hay@.len(),
            forall|t: int| 0 <= t < j ==> hay@[k + t] == needle@[t],
        decreases nlen - j,
    {
        if hay.get_char(k + j) != needle.get_char(j) {
            proof {
                assert(hay@.subrange(k as int, k as int + nlen as int)[j as int] == hay@[k + j]);
            }
            return false;
        }
        j += 1;
    }
    proof {
        assert(hay@.subrange(k as int, k as int + nlen as int) =~= needle@);
    }
    true
}

/// Character-wise string equality.
pub fn str_equal(a: &str, b: &str) -> (r: bool)
    ensures
        r == (a@ == b@),
{
    let alen = a.unicode_len();
    let blen = b.unicode_len();
    if alen != blen {
        return false;
    }
    let matched = match_at(a, b, 0);
    proof {
        assert(a@.subrange(0, b@.len() as int) =~= a@);
    }
    matched
}

/// Substring search: does `needle` occur anywhere inside `hay`?
pub fn contains_substr(hay: &str, needle: &str) -> (r: bool)
    ensures
        r == contains_sub(hay@, needle@),
{
    let hlen = hay.unicode_len();
    let nlen = needle.unicode_len();
    if nlen == 0 {
        proof {
            assert(hay@.subrange(0, 0 + needle@.len() as int) =~= needle@);
        }
        return true;
    }
    if nlen > hlen {
        return false;
    }
    let bound = hlen - nlen;
    let mut k: usize = 0;
    while k <= bound
        invariant
            hlen == hay@.len(),
            nlen == needle@.len(),
            1 <= nlen <= hlen,
            bound == hlen - nlen,
            k <= bound + 1,
            forall|t: int|
                0 <= t < k ==> #[trigger] hay@.subrange(t, t + needle@.len()) != needle@,
        decreases bound + 1 - k,
    {
        if match_at(hay, needle, k) {
            proof {
                assert(0 <= k as int && k as int + needle@.len() <= hay@.len()
                    && hay@.subrange(k as int, k as int + needle@.len()) == needle@);
            }
            return true;
        }
        k += 1;
    }
    false
}

/// Everything after the first newline of `s`; empty if `s` has no newline.
/// The first line of a fault description is a generic banner that the
/// reporting sink does not need repeated on every record.
pub fn strip_first_line(s: &str) -> (r: String)
    ensures
        r@ == strip_first_line_spec(s@),
{
    let len = s.unicode_len();
    proof {
        assert(s@.skip(0) =~= s@);
    }
    let mut i: usize = 0;
    while i < len
        invariant
            i <= len,
            len == s@.len(),
            strip_first_line_spec(s@) == strip_first_line_spec(s@.skip(i as int)),
        decreases len - i,
    {
        if s.get_char(i) == '\n' {
            let rest = s.substring_char(i + 1, len);
            proof {
                assert(s@.skip(i as int).skip(1) =~= s@.skip(i as int + 1));
                assert(s@.skip(i as int + 1) =~= s@.subrange(i as int + 1, len as int));
            }
            return rest.to_owned();
        }
        proof {
            assert(s@.skip(i as int).skip(1) =~= s@.skip(i as int + 1));
        }
        i += 1;
    }
    proof {
        assert(s@.skip(len as int) =~= Seq::<char>::empty());
    }
    String::new()
}

} // verus!
