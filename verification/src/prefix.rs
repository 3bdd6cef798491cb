//! Scheduler names carry a fixed `scx_` prefix on the wire; users may give
//! them with or without it. These functions add or strip that prefix, and
//! the lemmas show the two transforms agree with each other.

use vstd::prelude::*;

verus! {

/// The characters of the fixed scheduler-name prefix.
pub open spec fn prefix_seq() -> Seq<char> {
    seq!['s', 'c', 'x', '_']
}

/// Whether a name begins with the fixed prefix.
pub open spec fn has_scx_prefix(s: Seq<char>) -> bool {
    s.len() >= 4 && s[0] == 's' && s[1] == 'c' && s[2] == 'x' && s[3] == '_'
}

/// A name with the prefix added where it was missing.
pub open spec fn with_scx_prefix(s: Seq<char>) -> Seq<char> {
    if has_scx_prefix(s) {
        s
    } else {
        prefix_seq() + s
    }
}

/// A name with the prefix stripped where it was present.
pub open spec fn without_scx_prefix(s: Seq<char>) -> Seq<char> {
    if has_scx_prefix(s) {
        s.subrange(4, s.len() as int)
    } else {
        s
    }
}

/// Whether the string starts with the fixed prefix.
pub fn starts_with_scx(s: &str) -> (r: bool)
    ensures
        r == has_scx_prefix(s@),
{
    let n = s.unicode_len();
    if n < 4 {
        return false;
    }
    let c0 = s.get_char(0);
    let c1 = s.get_char(1);
    let c2 = s.get_char(2);
    let c3 = s.get_char(3);
    c0 == 's' && c1 == 'c' && c2 == 'x' && c3 == '_'
}

/// Adds the prefix to a name that lacks it; a name that has it is unchanged.
pub fn ensure_scx_prefix(input: String) -> (r: String)
    ensures
        r@ == with_scx_prefix(input@),
{
    if starts_with_scx(input.as_str()) {
        input
    } else {
        let mut r = String::from_str("scx_");
        proof {
            reveal_strlit("scx_");
            assert(r@ =~= prefix_seq());
        }
        r.append(input.as_str());
        r
    }
}

/// Strips the prefix from a name that has it; a name that lacks it is unchanged.
pub fn remove_scx_prefix(input: &String) -> (r: String)
    ensures
        r@ == without_scx_prefix(input@),
{
    if starts_with_scx(input.as_str()) {
        let n = input.as_str().unicode_len();
        let stripped = input.as_str().substring_char(4, n);
        String::from_str(stripped)
    } else {
        input.clone()
    }
}

/// Adding the prefix is idempotent.
pub proof fn lemma_with_prefix_idempotent(s: Seq<char>)
    ensures
        with_scx_prefix(with_scx_prefix(s)) == with_scx_prefix(s),
{
    if !has_scx_prefix(s) {
        assert(has_scx_prefix(prefix_seq() + s));
    }
}

/// Stripping after adding the prefix strips exactly as stripping alone does:
/// the displayed form of a name does not depend on whether the prefix was
/// first added.
pub proof fn lemma_without_after_with(s: Seq<char>)
    ensures
        without_scx_prefix(with_scx_prefix(s)) == without_scx_prefix(s),
{
    if !has_scx_prefix(s) {
        let t = prefix_seq() + s;
        assert(has_scx_prefix(t));
        assert(t.subrange(4, t.len() as int) =~= s);
    }
}

/// A name without the prefix survives the round trip of adding and then
/// stripping it.
pub proof fn lemma_prefix_round_trip(s: Seq<char>)
    requires
        !has_scx_prefix(s),
    ensures
        without_scx_prefix(with_scx_prefix(s)) == s,
{
    lemma_without_after_with(s);
}

/// A name with the prefix survives the round trip of stripping and then
/// adding it back, provided what is under the prefix does not itself start
/// with the prefix (a doubled prefix cannot be reconstructed).
pub proof fn lemma_strip_round_trip(s: Seq<char>)
    requires
        has_scx_prefix(s),
        !has_scx_prefix(without_scx_prefix(s)),
    ensures
        with_scx_prefix(without_scx_prefix(s)) == s,
{
    let t = s.subrange(4, s.len() as int);
    assert(prefix_seq() + t =~= s);
}

} // verus!
