//! Character-level utilities: string equality and prefix tests, and the
//! well-formedness of identifiers and code paths that the generator splices
//! into fragments by name.

use vstd::prelude::*;
use vstd::string::StrSliceExecFns;

verus! {

/// `p` is an initial segment of `s`.
pub open spec fn is_prefix_of(p: Seq<char>, s: Seq<char>) -> bool {
    p.len() <= s.len() && s.subrange(0, p.len() as int) == p
}

/// Character-wise string equality.
pub fn str_eq(a: &str, b: &str) -> (r: bool)
    ensures
        r == (a@ == b@),
{
    let alen = a.unicode_len();
    let blen = b.unicode_len();
    if alen != blen {
        return false;
    }
    let mut i: usize = 0;
    while i < alen
        invariant
            alen == a@.len(),
            blen == b@.len(),
            alen == blen,
            i <= alen,
            forall|j: int| 0 <= j < i ==> a@[j] == b@[j],
        decreases alen - i,
    {
        if a.get_char(i) != b.get_char(i) {
            return false;
        }
        i += 1;
    }
    proof {
        assert(a@ =~= b@);
    }
    true
}

/// Whether `s` starts with `p`, character by character.
pub fn str_starts_with(s: &str, p: &str) -> (r: bool)
    ensures
        r == is_prefix_of(p@, s@),
{
    let plen = p.unicode_len();
    let slen = s.unicode_len();
    if plen > slen {
        return false;
    }
    let mut i: usize = 0;
    while i < plen
        invariant
            plen == p@.len(),
            slen == s@.len(),
            plen <= slen,
            i <= plen,
            forall|j: int| 0 <= j < i ==> s@[j] == p@[j],
        decreases plen - i,
    {
        if s.get_char(i) != p.get_char(i) {
            proof {
                if is_prefix_of(p@, s@) {
                    assert(s@.subrange(0, p@.len() as int)[i as int] == p@[i as int]);
                }
            }
            return false;
        }
        i += 1;
    }
    proof {
        assert(s@.subrange(0, p@.len() as int) =~= p@);
    }
    true
}

/// A character that may occur in an identifier.
pub open spec fn is_ident_char(c: char) -> bool {
    ('a' <= c && c <= 'z') || ('A' <= c && c <= 'Z') || ('0' <= c && c <= '9') || c == '_'
}

/// A decimal digit.
pub open spec fn is_digit_char(c: char) -> bool {
    '0' <= c && c <= '9'
}

/// A well-formed identifier: nonempty, made of identifier characters, and
/// not starting with a digit.
pub open spec fn is_valid_ident(s: Seq<char>) -> bool {
    &&& s.len() > 0
    &&& !is_digit_char(s[0])
    &&& forall|i: int| 0 <= i < s.len() ==> is_ident_char(#[trigger] s[i])
}

/// What must hold of the character at position `i` of a well-formed path:
/// a colon is adjacent to exactly one other colon (so colons come in exact
/// pairs); any other character is an identifier character, and not a digit
/// where a segment starts.
pub open spec fn path_char_ok(s: Seq<char>, i: int) -> bool {
    if s[i] == ':' {
        (i > 0 && s[i - 1] == ':') != (i + 1 < s.len() && s[i + 1] == ':')
    } else {
        is_ident_char(s[i]) && ((i == 0 || s[i - 1] == ':') ==> !is_digit_char(s[i]))
    }
}

/// A well-formed code path: identifier segments joined by `::`, with an
/// optional leading `::`. Stated position-wise: the string is nonempty,
/// does not end in a colon, and every position is in order.
pub open spec fn is_valid_path(s: Seq<char>) -> bool {
    &&& s.len() > 0
    &&& s[s.len() - 1] != ':'
    &&& forall|i: int| 0 <= i < s.len() ==> #[trigger] path_char_ok(s, i)
}

fn ident_char(c: char) -> (r: bool)
    ensures
        r == is_ident_char(c),
{
    ('a' <= c && c <= 'z') || ('A' <= c && c <= 'Z') || ('0' <= c && c <= '9') || c == '_'
}

fn digit_char(c: char) -> (r: bool)
    ensures
        r == is_digit_char(c),
{
    '0' <= c && c <= '9'
}

/// Decides identifier well-formedness.
pub fn check_ident(s: &str) -> (r: bool)
    ensures
        r == is_valid_ident(s@),
{
    let len = s.unicode_len();
    if len == 0 {
        return false;
    }
    if digit_char(s.get_char(0)) {
        return false;
    }
    let mut i: usize = 0;
    while i < len
        invariant
            len == s@.len(),
            i <= len,
            forall|j: int| 0 <= j < i ==> is_ident_char(#[trigger] s@[j]),
        decreases len - i,
    {
        if !ident_char(s.get_char(i)) {
            return false;
        }
        i += 1;
    }
    true
}

/// Decides path well-formedness.
pub fn check_path(s: &str) -> (r: bool)
    ensures
        r == is_valid_path(s@),
{
    let len = s.unicode_len();
    if len == 0 {
        return false;
    }
    if s.get_char(len - 1) == ':' {
        return false;
    }
    let mut i: usize = 0;
    while i < len
        invariant
            len == s@.len(),
            0 < len,
            s@[len - 1] != ':',
            i <= len,
            forall|j: int| 0 <= j < i ==> #[trigger] path_char_ok(s@, j),
        decreases len - i,
    {
        let c = s.get_char(i);
        let pos_ok: bool;
        if c == ':' {
            let before = i > 0 && s.get_char(i - 1) == ':';
            let after = i + 1 < len && s.get_char(i + 1) == ':';
            pos_ok = before != after;
        } else {
            let at_segment_start = i == 0 || s.get_char(i - 1) == ':';
            pos_ok = ident_char(c) && !(at_segment_start && digit_char(c));
        }
        if !pos_ok {
            proof {
                assert(!path_char_ok(s@, i as int));
            }
            return false;
        }
        proof {
            assert(path_char_ok(s@, i as int));
        }
        i += 1;
    }
    true
}

/// A fresh copy of an optional string, equal to the original in view.
pub fn clone_opt_string(s: &Option<String>) -> (r: Option<String>)
    ensures
        r.deep_view() == s.deep_view(),
{
    match s {
        Some(m) => Some(m.clone()),
        None => None,
    }
}

} // verus!
