//! Lexicographic order of pairs and triples of texts, as Rust orders tuples of `str`.

use vstd::prelude::*;
use crate::lexical::{compare_text, lemma_text_order, text_lt, TextOrder};

verus! {

/// A pair of texts, as a key.
pub type Key2 = (Seq<char>, Seq<char>);

/// A triple of texts, as a key.
pub type Key3 = (Seq<char>, Seq<char>, Seq<char>);

/// Strict lexicographic order of pairs of texts.
pub open spec fn pair_lt(a: Key2, b: Key2) -> bool {
    text_lt(a.0, b.0) || (a.0 == b.0 && text_lt(a.1, b.1))
}

/// Strict lexicographic order of triples of texts.
pub open spec fn triple_lt(a: Key3, b: Key3) -> bool {
    text_lt(a.0, b.0) || (a.0 == b.0 && (text_lt(a.1, b.1) || (a.1 == b.1 && text_lt(a.2, b.2))))
}

/// The leading pair of a triple.
pub open spec fn front(a: Key3) -> Key2 {
    (a.0, a.1)
}

/// `pair_lt` is a strict total order.
pub proof fn lemma_pair_order(a: Key2, b: Key2, c: Key2)
    ensures
        !pair_lt(a, a),
        !(pair_lt(a, b) && pair_lt(b, a)),
        pair_lt(a, b) || a == b || pair_lt(b, a),
        pair_lt(a, b) && pair_lt(b, c) ==> pair_lt(a, c),
        !pair_lt(b, a) && !pair_lt(c, b) ==> !pair_lt(c, a),
{
    lemma_text_order(a.0, b.0, c.0);
    lemma_text_order(a.1, b.1, c.1);
    lemma_text_order(b.0, a.0, c.0);
    lemma_text_order(b.1, a.1, c.1);
    lemma_text_order(c.0, b.0, a.0);
    lemma_text_order(c.1, b.1, a.1);
    lemma_text_order(a.0, c.0, b.0);
    lemma_text_order(a.1, c.1, b.1);
}

/// `triple_lt` is a strict total order.
pub proof fn lemma_triple_order(a: Key3, b: Key3, c: Key3)
    ensures
        !triple_lt(a, a),
        !(triple_lt(a, b) && triple_lt(b, a)),
        triple_lt(a, b) || a == b || triple_lt(b, a),
        triple_lt(a, b) && triple_lt(b, c) ==> triple_lt(a, c),
        !triple_lt(b, a) && !triple_lt(c, b) ==> !triple_lt(c, a),
{
    lemma_text_order(a.0, b.0, c.0);
    lemma_text_order(a.1, b.1, c.1);
    lemma_text_order(a.2, b.2, c.2);
    lemma_text_order(b.0, a.0, c.0);
    lemma_text_order(b.1, a.1, c.1);
    lemma_text_order(b.2, a.2, c.2);
    lemma_text_order(c.0, b.0, a.0);
    lemma_text_order(c.1, b.1, a.1);
    lemma_text_order(c.2, b.2, a.2);
    lemma_text_order(a.0, c.0, b.0);
    lemma_text_order(a.1, c.1, b.1);
    lemma_text_order(a.2, c.2, b.2);
}

/// Pairs in order have their first texts in order.
pub proof fn lemma_pair_le_first(a: Key2, b: Key2)
    requires
        !pair_lt(b, a),
    ensures
        !text_lt(b.0, a.0),
{
}

/// Triples in order have their leading pairs in order.
pub proof fn lemma_triple_le_front(a: Key3, b: Key3)
    requires
        !triple_lt(b, a),
    ensures
        !pair_lt(front(b), front(a)),
{
}

/// Compares two pairs of texts.
pub fn compare_pair(a0: &str, a1: &str, b0: &str, b1: &str) -> (r: TextOrder)
    ensures
        match r {
            TextOrder::Less => pair_lt((a0@, a1@), (b0@, b1@)),
            TextOrder::Equal => (a0@, a1@) == (b0@, b1@),
            TextOrder::Greater => pair_lt((b0@, b1@), (a0@, a1@)),
        },
{
    match compare_text(a0, b0) {
        TextOrder::Less => TextOrder::Less,
        TextOrder::Greater => TextOrder::Greater,
        TextOrder::Equal => compare_text(a1, b1),
    }
}

/// Compares two triples of texts.
pub fn compare_triple(a0: &str, a1: &str, a2: &str, b0: &str, b1: &str, b2: &str) -> (r: TextOrder)
    ensures
        match r {
            TextOrder::Less => triple_lt((a0@, a1@, a2@), (b0@, b1@, b2@)),
            TextOrder::Equal => (a0@, a1@, a2@) == (b0@, b1@, b2@),
            TextOrder::Greater => triple_lt((b0@, b1@, b2@), (a0@, a1@, a2@)),
        },
{
    match compare_text(a0, b0) {
        TextOrder::Less => TextOrder::Less,
        TextOrder::Greater => TextOrder::Greater,
        TextOrder::Equal => match compare_text(a1, b1) {
            TextOrder::Less => TextOrder::Less,
            TextOrder::Greater => TextOrder::Greater,
            TextOrder::Equal => compare_text(a2, b2),
        },
    }
}

} // verus!
