use crate::text::push_char;
use vstd::prelude::*;
use vstd::string::{StrSliceExecFns, StringExecFns};

verus! {

/// A player profile as the session service reports it.
#[derive(Debug, Clone)]
pub struct Profile {
    pub id: String,
    pub name: String,
}

/// The characters of `s` with every `'-'` removed.
pub open spec fn spec_strip_dashes(s: Seq<char>) -> Seq<char>
    decreases s.len(),
{
    if s.len() == 0 {
        Seq::empty()
    } else {
        let rest = spec_strip_dashes(s.drop_last());
        if s.last() == '-' {
            rest
        } else {
            rest.push(s.last())
        }
    }
}

/// The canonical hyphenation of a 32-digit uuid: groups of 8, 4, 4, 4 and
/// 12 digits.
pub open spec fn spec_hyphenate(u: Seq<char>) -> Seq<char> {
    u.subrange(0, 8) + "-"@ + u.subrange(8, 12) + "-"@ + u.subrange(12, 16) + "-"@ + u.subrange(
        16,
        20,
    ) + "-"@ + u.subrange(20, 32)
}

/// Normalise a uuid token to its canonical hyphenated form: drop whatever
/// hyphens it holds, refuse it if fewer than 32 characters remain, and
/// re-hyphenate the first 32 in the canonical 8-4-4-4-12 grouping.
pub fn format_uuid(uuid: &str) -> (r: Option<String>)
    ensures
        r is None <==> spec_strip_dashes(uuid@).len() < 32,
        r matches Some(t) ==> t@ == spec_hyphenate(spec_strip_dashes(uuid@)),
{
    let len = uuid.unicode_len();
    let mut stripped = String::new();
    let mut i: usize = 0;
    while i < len
        invariant
            len == uuid@.len(),
            i <= len,
            stripped@ == spec_strip_dashes(uuid@.subrange(0, i as int)),
            stripped@.len() <= i,
        decreases len - i,
    {
        let c = uuid.get_char(i);
        if c != '-' {
            push_char(&mut stripped, c);
        }
        proof {
            assert(uuid@.subrange(0, i + 1).drop_last() =~= uuid@.subrange(0, i as int));
        }
        i += 1;
    }
    proof {
        assert(uuid@.subrange(0, len as int) =~= uuid@);
    }

    let stripped_len = stripped.as_str().unicode_len();
    if stripped_len < 32 {
        return None;
    }

    let s = stripped.as_str();
    let mut out = s.substring_char(0, 8).to_owned();
    out.append("-");
    out.append(s.substring_char(8, 12));
    out.append("-");
    out.append(s.substring_char(12, 16));
    out.append("-");
    out.append(s.substring_char(16, 20));
    out.append("-");
    out.append(s.substring_char(20, 32));
    proof {
        assert(out@ =~= spec_hyphenate(spec_strip_dashes(uuid@)));
    }
    Some(out)
}

} // verus!
