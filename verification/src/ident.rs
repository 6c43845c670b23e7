//! Identifiers: slot numbers, composite keys, and the path prefixes that are
//! stripped to recover them.

use crate::text::{decimal, format_decimal, lemma_decimal_nine, lemma_decimal_numeral};
use vstd::prelude::*;

verus! {

/// The smallest slot number: the first number of nine decimal digits.
pub const SLOT_MIN: u32 = 100_000_000;

/// How many slot numbers there are: every number of nine decimal digits.
pub const SLOT_SPAN: u32 = 900_000_000;

/// The slot number that a draw selects.
pub open spec fn slot_of(draw: u32) -> nat {
    (SLOT_MIN + draw % SLOT_SPAN) as nat
}

/// The separator between namespace and slot in a composite key.
pub open spec fn separator() -> Seq<char> {
    seq![':', ':', ':']
}

/// The composite key of a slot in a namespace.
pub open spec fn qualified(instance_id: Seq<char>, file_id: Seq<char>) -> Seq<char> {
    instance_id + separator() + file_id
}

/// `s` without the prefix `p`, or `s` itself where it does not start with `p`.
pub open spec fn without_prefix(s: Seq<char>, p: Seq<char>) -> Seq<char> {
    if p.is_prefix_of(s) {
        s.skip(p.len() as int)
    } else {
        s
    }
}

/// `s` after each of `parts` in turn was taken off its front where it stood there.
pub open spec fn stripped(s: Seq<char>, parts: Seq<&str>) -> Seq<char>
    decreases parts.len(),
{
    if parts.len() == 0 {
        s
    } else {
        without_prefix(stripped(s, parts.drop_last()), parts.last()@)
    }
}

/// Maps a draw to a slot number. A draw below `SLOT_SPAN` is taken as the
/// offset from `SLOT_MIN`; a larger one is reduced into that range first.
pub fn get_rand(draw: u32) -> (slot: u32)
    ensures
        slot == slot_of(draw),
        SLOT_MIN <= slot < SLOT_MIN + SLOT_SPAN,
        draw < SLOT_SPAN ==> slot == SLOT_MIN + draw,
{
    SLOT_MIN + draw % SLOT_SPAN
}

/// Joins a namespace and a slot identifier into the composite key
/// `"{instance_id}:::{file_id}"`.
pub fn get_fully_qualified(instance_id: &String, file_id: &String) -> (key: String)
    ensures
        key@ == qualified(instance_id@, file_id@),
{
    proof {
        reveal_strlit(":::");
    }
    let mut key = instance_id.clone();
    key.append(":::");
    key.append(file_id.as_str());
    key
}

/// Mints a candidate: the slot identifier that `draw` selects, as a decimal
/// numeral of nine digits, and its composite key in the namespace.
pub fn create_id(instance_id: &String, draw: u32) -> (ids: (String, String))
    ensures
        ids.0@ == decimal(slot_of(draw)),
        ids.0@.len() == 9,
        ids.1@ == qualified(instance_id@, ids.0@),
{
    let slot: u32 = get_rand(draw);
    let file_id = format_decimal(slot as u64);
    proof {
        lemma_decimal_nine(slot as nat);
    }
    let out = get_fully_qualified(instance_id, &file_id);
    (file_id, out)
}

/// Whether `s` starts with `p`.
fn starts_with(s: &str, p: &str) -> (b: bool)
    ensures
        b == p@.is_prefix_of(s@),
{
    let n: usize = p.unicode_len();
    if s.unicode_len() < n {
        return false;
    }
    let mut i: usize = 0;
    while i < n
        invariant
            i <= n,
            n == p@.len(),
            n <= s@.len(),
            forall|j: int| 0 <= j < i ==> s@[j] == p@[j],
        decreases n - i,
    {
        if s.get_char(i) != p.get_char(i) {
            return false;
        }
        i += 1;
    }
    true
}

/// Takes each of `part` in turn off the front of `string`, where the text
/// left so far starts with it; a part that does not stand there is skipped.
pub fn strip(string: &String, part: Vec<&str>) -> (out_string: String)
    ensures
        out_string@ == stripped(string@, part@),
{
    let mut out_string: String = string.clone();
    let mut i: usize = 0;
    while i < part.len()
        invariant
            i <= part.len(),
            out_string@ == stripped(string@, part@.take(i as int)),
        decreases part.len() - i,
    {
        let v: &str = part[i];
        assert(part@.take(i + 1).drop_last() =~= part@.take(i as int));
        if starts_with(out_string.as_str(), v) {
            let from: usize = v.unicode_len();
            let to: usize = out_string.as_str().unicode_len();
            out_string = String::from_str(out_string.as_str().substring_char(from, to));
        }
        i += 1;
    }
    assert(part@.take(part.len() as int) =~= part@);
    out_string
}

/// A slot number is written with nine digits, and distinct slot numbers are
/// written differently.
pub proof fn lemma_slot_text(a: u32, b: u32)
    ensures
        decimal(slot_of(a)).len() == 9,
        decimal(slot_of(a)) == decimal(slot_of(b)) ==> slot_of(a) == slot_of(b),
        a < SLOT_SPAN && b < SLOT_SPAN && a != b ==> slot_of(a) != slot_of(b),
{
    lemma_decimal_nine(slot_of(a));
    lemma_decimal_numeral(slot_of(a));
    lemma_decimal_numeral(slot_of(b));
}

/// A composite key names one namespace and one slot: two minted keys are
/// equal only if their namespaces are equal and their slots are.
pub proof fn lemma_key_injective(ns1: Seq<char>, draw1: u32, ns2: Seq<char>, draw2: u32)
    requires
        qualified(ns1, decimal(slot_of(draw1))) == qualified(ns2, decimal(slot_of(draw2))),
    ensures
        ns1 == ns2,
        slot_of(draw1) == slot_of(draw2),
{
    let f1 = decimal(slot_of(draw1));
    let f2 = decimal(slot_of(draw2));
    let k1 = qualified(ns1, f1);
    let k2 = qualified(ns2, f2);
    lemma_slot_text(draw1, draw2);
    lemma_slot_text(draw2, draw1);
    assert(ns1 =~= k1.take(ns1.len() as int));
    assert(f1 =~= k1.skip(ns1.len() as int + 3));
    assert(f2 =~= k2.skip(ns2.len() as int + 3));
}

} // verus!
