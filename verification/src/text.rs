use vstd::prelude::*;
use vstd::string::StrSliceExecFns;

verus! {

/// `needle` occurs contiguously somewhere in `haystack`.
pub open spec fn str_contains(haystack: Seq<char>, needle: Seq<char>) -> bool {
    exists|i: int|
        0 <= i && i + needle.len() <= haystack.len() && #[trigger] haystack.subrange(
            i,
            i + needle.len() as int,
        ) == needle
}

/// Whether `needle` stands at position `at` of `haystack`.
fn matches_at(haystack: &str, needle: &str, at: usize, needle_len: usize) -> (r: bool)
    requires
        needle_len == needle@.len(),
        at + needle_len <= haystack@.len(),
        haystack@.len() <= usize::MAX,
    ensures
        r == (haystack@.subrange(at as int, at + needle@.len()) == needle@),
{
    let mut j: usize = 0;
    while j < needle_len
        invariant
            needle_len == needle@.len(),
            at + needle_len <= haystack@.len(),
            haystack@.len() <= usize::MAX,
            j <= needle_len,
            forall|k: int| 0 <= k < j ==> haystack@[at + k] == needle@[k],
        decreases needle_len - j,
    {
        if haystack.get_char(at + j) != needle.get_char(j) {
            assert(haystack@.subrange(at as int, at + needle@.len())[j as int] == haystack@[at
                + j]);
            return false;
        }
        j += 1;
    }
    assert(haystack@.subrange(at as int, at + needle@.len()) =~= needle@);
    true
}

/// Relies on std's `String::push`: appends exactly the one character.
#[verifier::external_body]
pub(crate) fn push_char(s: &mut String, c: char)
    ensures
        final(s)@ == old(s)@.push(c),
{
    s.push(c);
}

/// Substring search: whether `needle` occurs anywhere in `haystack`.
pub fn contains_substring(haystack: &str, needle: &str) -> (r: bool)
    ensures
        r == str_contains(haystack@, needle@),
{
    let haystack_len = haystack.unicode_len();
    let needle_len = needle.unicode_len();
    if needle_len > haystack_len {
        return false;
    }
    if needle_len == 0 {
        assert(str_contains(haystack@, needle@)) by {
            assert(haystack@.subrange(0, 0 + needle@.len() as int) =~= needle@);
        }
        return true;
    }
    let mut i: usize = 0;
    while i <= haystack_len - needle_len
        invariant
            1 <= needle_len <= haystack_len,
            haystack_len == haystack@.len(),
            needle_len == needle@.len(),
            i <= haystack_len - needle_len + 1,
            forall|k: int|
                0 <= k < i ==> #[trigger] haystack@.subrange(k, k + needle@.len() as int)
                    != needle@,
        decreases haystack_len - i,
    {
        if matches_at(haystack, needle, i, needle_len) {
            assert(str_contains(haystack@, needle@)) by {
                assert(haystack@.subrange(i as int, i + needle@.len()) == needle@);
            }
            return true;
        }
        i += 1;
    }
    assert(forall|k: int|
        0 <= k && k + needle@.len() <= haystack@.len() ==> #[trigger] haystack@.subrange(
            k,
            k + needle@.len() as int,
        ) != needle@);
    false
}

} // verus!
