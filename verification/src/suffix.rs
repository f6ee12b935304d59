//! The naming suffix by which renamed clothing is recognised, and its
//! normal form.

use crate::text::{
    char_is_whitespace, chars_of, is_whitespace, strip_trailing, trim_end, trim_start, trimmed,
};
use vstd::prelude::*;
use vstd::string::StringExecFns;

verus! {

/// The normal form of a raw suffix. White space is trimmed from both ends,
/// then every trailing underscore is dropped. If nothing is left the suffix
/// is empty, which switches renaming off. Otherwise the rest is kept as it
/// is when it starts with an underscore, and gets one in front when it does
/// not.
pub open spec fn normalized_suffix(raw: Seq<char>) -> Seq<char> {
    let core = strip_trailing(trimmed(raw), '_');
    if core.len() == 0 {
        Seq::empty()
    } else if core[0] == '_' {
        core
    } else {
        seq!['_'] + core
    }
}

proof fn trim_start_skips(s: Seq<char>, k: int)
    requires
        0 <= k <= s.len(),
        forall|i: int| 0 <= i < k ==> is_whitespace(s[i]),
    ensures
        trim_start(s) == trim_start(s.skip(k)),
    decreases k,
{
    if k > 0 {
        assert(s.drop_first().skip(k - 1) =~= s.skip(k));
        trim_start_skips(s.drop_first(), k - 1);
    } else {
        assert(s.skip(0) =~= s);
    }
}

proof fn trim_end_takes(s: Seq<char>, k: int)
    requires
        0 <= k <= s.len(),
        forall|i: int| k <= i < s.len() ==> is_whitespace(s[i]),
    ensures
        trim_end(s) == trim_end(s.take(k)),
    decreases s.len() - k,
{
    if k < s.len() {
        assert(s.drop_last().take(k) =~= s.take(k));
        trim_end_takes(s.drop_last(), k);
    } else {
        assert(s.take(k) =~= s);
    }
}

proof fn strip_trailing_takes(s: Seq<char>, c: char, k: int)
    requires
        0 <= k <= s.len(),
        forall|i: int| k <= i < s.len() ==> s[i] == c,
    ensures
        strip_trailing(s, c) == strip_trailing(s.take(k), c),
    decreases s.len() - k,
{
    if k < s.len() {
        assert(s.drop_last().take(k) =~= s.take(k));
        strip_trailing_takes(s.drop_last(), c, k);
    } else {
        assert(s.take(k) =~= s);
    }
}

/// Brings a raw suffix into its normal form.
pub fn normalize_suffix(raw: &str) -> (out: String)
    ensures
        out@ == normalized_suffix(raw@),
{
    let cs = chars_of(raw);
    let n = cs.len();
    let mut start: usize = 0;
    while start < n && char_is_whitespace(cs[start])
        invariant
            n == cs.len(),
            start <= n,
            forall|i: int| 0 <= i < start ==> is_whitespace(cs@[i]),
        decreases n - start,
    {
        start += 1;
    }
    let mut end: usize = n;
    while end > start && char_is_whitespace(cs[end - 1])
        invariant
            n == cs.len(),
            start <= end <= n,
            forall|i: int| end <= i < n ==> is_whitespace(cs@[i]),
        decreases end,
    {
        end -= 1;
    }
    let ghost rest = cs@.skip(start as int);
    let ghost inner = cs@.subrange(start as int, end as int);
    proof {
        trim_start_skips(cs@, start as int);
        assert(trim_start(rest) == rest);
        trim_end_takes(rest, end - start);
        assert(rest.take(end - start) =~= inner);
        assert(trim_end(inner) == inner);
        assert(trimmed(raw@) == inner);
    }
    let mut stop: usize = end;
    while stop > start && cs[stop - 1] == '_'
        invariant
            n == cs.len(),
            start <= stop <= end <= n,
            forall|i: int| stop <= i < end ==> cs@[i] == '_',
        decreases stop,
    {
        stop -= 1;
    }
    let ghost core = cs@.subrange(start as int, stop as int);
    proof {
        strip_trailing_takes(inner, '_', stop - start);
        assert(inner.take(stop - start) =~= core);
        assert(strip_trailing(core, '_') == core);
        assert(strip_trailing(trimmed(raw@), '_') == core);
    }
    if stop == start {
        return String::new();
    }
    let body = raw.substring_char(start, stop);
    if cs[start] == '_' {
        String::from_str(body)
    } else {
        proof {
            reveal_strlit("_");
            assert("_"@ =~= seq!['_']);
        }
        String::from_str("_").concat(body)
    }
}

proof fn strip_trailing_end(s: Seq<char>, c: char)
    ensures
        strip_trailing(s, c).len() > 0 ==> strip_trailing(s, c).last() != c,
    decreases s.len(),
{
    if s.len() > 0 && s.last() == c {
        strip_trailing_end(s.drop_last(), c);
    }
}

/// A normal form that is not empty starts with an underscore and does not
/// end with one.
pub proof fn normalized_suffix_shape(raw: Seq<char>)
    ensures
        normalized_suffix(raw).len() > 0 ==> normalized_suffix(raw)[0] == '_'
            && normalized_suffix(raw).last() != '_',
{
    strip_trailing_end(trimmed(raw), '_');
}

/// Normalizing is idempotent: a normal form that is not empty is its own
/// normal form, unless it ends in white space (which an underscore at the
/// end of the raw text can leave behind).
pub proof fn normalize_suffix_idempotent(raw: Seq<char>)
    requires
        normalized_suffix(raw).len() > 0,
        !is_whitespace(normalized_suffix(raw).last()),
    ensures
        normalized_suffix(normalized_suffix(raw)) == normalized_suffix(raw),
{
    normalized_suffix_shape(raw);
}

/// A raw suffix of white space alone, or of underscores alone, or of no
/// characters at all, has the empty normal form.
pub proof fn normalize_suffix_blank(raw: Seq<char>)
    requires
        (forall|i: int| 0 <= i < raw.len() ==> is_whitespace(raw[i])) || (forall|i: int|
            0 <= i < raw.len() ==> raw[i] == '_'),
    ensures
        normalized_suffix(raw) == Seq::<char>::empty(),
{
    if forall|i: int| 0 <= i < raw.len() ==> is_whitespace(raw[i]) {
        trim_start_skips(raw, raw.len() as int);
        assert(raw.skip(raw.len() as int) =~= Seq::<char>::empty());
    } else {
        strip_trailing_takes(raw, '_', 0);
        assert(raw.take(0) =~= Seq::<char>::empty());
    }
}

} // verus!
