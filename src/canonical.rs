//! Canonical comparison keys for package and author names.

use vstd::prelude::*;

verus! {

/// Relies on String::push, which appends the character to the end of the
/// string.
pub assume_specification[ String::push ](s: &mut String, ch: char)
    ensures
        final(s)@ == old(s)@.push(ch),
;

/// The canonical form of one character: ASCII upper-case letters become
/// lower-case, and `-` becomes `_`; every other character is kept.
pub open spec fn canonical_char(c: char) -> char {
    if 'A' <= c && c <= 'Z' {
        ((c as u32) + 32) as char
    } else if c == '-' {
        '_'
    } else {
        c
    }
}

/// The canonical key of a name: each character in canonical form.
pub open spec fn canonical_key(s: Seq<char>) -> Seq<char> {
    s.map_values(|c: char| canonical_char(c))
}

fn canonical_char_exec(c: char) -> (r: char)
    ensures
        r == canonical_char(c),
{
    if 'A' <= c && c <= 'Z' {
        ((c as u32 + 32) as u8) as char
    } else if c == '-' {
        '_'
    } else {
        c
    }
}

/// Canonical form is a fixed point: a canonical character stays as it is.
pub proof fn lemma_canonical_char_idempotent(c: char)
    ensures
        canonical_char(canonical_char(c)) == canonical_char(c),
{
}

/// Canonicalization is idempotent: the key of a key is the key itself.
pub proof fn lemma_canonical_key_idempotent(s: Seq<char>)
    ensures
        canonical_key(canonical_key(s)) == canonical_key(s),
{
    assert forall|i: int| 0 <= i < s.len() implies #[trigger] canonical_key(
        canonical_key(s),
    )[i] == canonical_key(s)[i] by {
        lemma_canonical_char_idempotent(s[i]);
    }
    assert(canonical_key(canonical_key(s)) =~= canonical_key(s));
}

/// Computes the canonical comparison key of a package or author name. Total:
/// every name has a key, and the key has as many characters as the name.
pub fn canonicalize(name: &str) -> (r: String)
    ensures
        r@ == canonical_key(name@),
        r@.len() == name@.len(),
{
    let n = name.unicode_len();
    let mut r = String::new();
    let mut i: usize = 0;
    while i < n
        invariant
            n == name@.len(),
            i <= n,
            r@ =~= canonical_key(name@.subrange(0, i as int)),
        decreases n - i,
    {
        let c = name.get_char(i);
        r.push(canonical_char_exec(c));
        assert(name@.subrange(0, i + 1) =~= name@.subrange(0, i as int).push(c));
        i = i + 1;
    }
    assert(name@.subrange(0, n as int) =~= name@);
    r
}

} // verus!
