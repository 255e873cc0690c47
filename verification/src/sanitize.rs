//! Turning untrusted text into a safe path segment.

use crate::text::push_char;
use vstd::prelude::*;

verus! {

/// The characters a sanitized segment may hold: `a`-`z`, `0`-`9` and `_`.
pub open spec fn is_safe_char(c: char) -> bool {
    ('a' <= c && c <= 'z') || ('0' <= c && c <= '9') || c == '_'
}

/// What one character becomes: safe characters stay, ASCII capitals are
/// lowered, everything else turns into an underscore.
pub open spec fn sanitized_char(c: char) -> char {
    if is_safe_char(c) {
        c
    } else if 'A' <= c && c <= 'Z' {
        ((c as u8) + 32) as char
    } else {
        '_'
    }
}

/// The sanitized form of `raw`: every character replaced by its safe
/// counterpart, and a lone underscore where `raw` is empty.
pub open spec fn sanitized(raw: Seq<char>) -> Seq<char> {
    if raw.len() == 0 {
        seq!['_']
    } else {
        Seq::new(raw.len(), |i: int| sanitized_char(raw[i]))
    }
}

/// Maps one character to its safe counterpart.
pub fn sanitize_char(c: char) -> (r: char)
    ensures
        r == sanitized_char(c),
        is_safe_char(r),
{
    if (c >= 'a' && c <= 'z') || (c >= '0' && c <= '9') || c == '_' {
        c
    } else if c >= 'A' && c <= 'Z' {
        ((c as u8) + 32u8) as char
    } else {
        '_'
    }
}

/// Turns `raw` into a path segment made of `a`-`z`, `0`-`9` and `_` only.
/// The result is never empty and never fails.
pub fn sanitize(raw: &str) -> (out: String)
    ensures
        out@ == sanitized(raw@),
        out@.len() > 0,
        forall|i: int| 0 <= i < out@.len() ==> is_safe_char(#[trigger] out@[i]),
{
    let mut out = String::new();
    for c in it: raw.chars()
        invariant
            it.seq() == raw@,
            out@.len() == it.index(),
            forall|i: int| 0 <= i < out@.len() ==> out@[i] == sanitized_char(#[trigger] raw@[i]),
    {
        let s = sanitize_char(c);
        push_char(&mut out, s);
    }
    if out.as_str().is_empty() {
        push_char(&mut out, '_');
    }
    out
}

/// A sanitized segment is never empty and holds safe characters only.
pub proof fn lemma_sanitized_is_safe(raw: Seq<char>)
    ensures
        sanitized(raw).len() > 0,
        forall|i: int| 0 <= i < sanitized(raw).len() ==> is_safe_char(#[trigger] sanitized(raw)[i]),
{
}

/// Sanitizing twice gives what sanitizing once gives.
pub proof fn lemma_sanitized_idempotent(raw: Seq<char>)
    ensures
        sanitized(sanitized(raw)) == sanitized(raw),
{
    lemma_sanitized_is_safe(raw);
    assert(sanitized(sanitized(raw)) =~= sanitized(raw));
}

/// A sanitized segment holds neither a path separator nor a dot, so joining
/// it onto a directory names an entry directly inside that directory.
pub proof fn lemma_sanitized_stays_inside(raw: Seq<char>)
    ensures
        forall|i: int|
            0 <= i < sanitized(raw).len() ==> {
                let c = #[trigger] sanitized(raw)[i];
                c != '/' && c != '\\' && c != '.'
            },
{
    lemma_sanitized_is_safe(raw);
}

} // verus!
