//! Lexicographic order of texts, as Rust orders `str` values: byte by byte
//! over their UTF-8 encoding.

use vstd::prelude::*;

verus! {

/// Strict lexicographic order on byte sequences; a proper prefix comes first.
pub open spec fn bytes_lt(a: Seq<u8>, b: Seq<u8>) -> bool
    decreases a.len(),
{
    if a.len() == 0 {
        b.len() > 0
    } else if b.len() == 0 {
        false
    } else if a[0] != b[0] {
        a[0] < b[0]
    } else {
        bytes_lt(a.drop_first(), b.drop_first())
    }
}

/// The UTF-8 bytes of a text.
pub open spec fn text_bytes(s: Seq<char>) -> Seq<u8> {
    vstd::utf8::encode_utf8(s)
}

/// Strict order of texts: the order of `str`'s `Ord`, which compares UTF-8 bytes.
pub open spec fn text_lt(a: Seq<char>, b: Seq<char>) -> bool {
    bytes_lt(text_bytes(a), text_bytes(b))
}

/// The outcome of comparing two texts.
#[derive(Debug, Clone, Copy, PartialEq, Eq, Structural)]
pub enum TextOrder {
    Less,
    Equal,
    Greater,
}

/// What a `TextOrder` says of two texts.
pub open spec fn text_order_holds(r: TextOrder, a: Seq<char>, b: Seq<char>) -> bool {
    match r {
        TextOrder::Less => text_lt(a, b),
        TextOrder::Equal => a == b,
        TextOrder::Greater => text_lt(b, a),
    }
}

pub proof fn lemma_bytes_lt_irreflexive(a: Seq<u8>)
    ensures
        !bytes_lt(a, a),
    decreases a.len(),
{
    if a.len() > 0 {
        lemma_bytes_lt_irreflexive(a.drop_first());
    }
}

pub proof fn lemma_bytes_lt_asymmetric(a: Seq<u8>, b: Seq<u8>)
    ensures
        !(bytes_lt(a, b) && bytes_lt(b, a)),
    decreases a.len(),
{
    if a.len() > 0 && b.len() > 0 && a[0] == b[0] {
        lemma_bytes_lt_asymmetric(a.drop_first(), b.drop_first());
    }
}

pub proof fn lemma_bytes_lt_total(a: Seq<u8>, b: Seq<u8>)
    ensures
        bytes_lt(a, b) || a == b || bytes_lt(b, a),
    decreases a.len(),
{
    if a.len() == 0 && b.len() == 0 {
        assert(a =~= b);
    } else if a.len() > 0 && b.len() > 0 && a[0] == b[0] {
        lemma_bytes_lt_total(a.drop_first(), b.drop_first());
        if a.drop_first() == b.drop_first() {
            assert(a =~= seq![a[0]] + a.drop_first());
            assert(b =~= seq![b[0]] + b.drop_first());
        }
    }
}

pub proof fn lemma_bytes_lt_transitive(a: Seq<u8>, b: Seq<u8>, c: Seq<u8>)
    requires
        bytes_lt(a, b),
        bytes_lt(b, c),
    ensures
        bytes_lt(a, c),
    decreases a.len(),
{
    if a.len() > 0 && b.len() > 0 && c.len() > 0 && a[0] == b[0] && b[0] == c[0] {
        lemma_bytes_lt_transitive(a.drop_first(), b.drop_first(), c.drop_first());
    }
}

/// Past a common prefix, the order is decided by what follows it.
pub proof fn lemma_bytes_lt_skip(a: Seq<u8>, b: Seq<u8>, i: int)
    requires
        0 <= i <= a.len(),
        i <= b.len(),
        forall|j: int| 0 <= j < i ==> a[j] == b[j],
    ensures
        bytes_lt(a, b) == bytes_lt(a.skip(i), b.skip(i)),
    decreases i,
{
    if i == 0 {
        assert(a.skip(0) =~= a);
        assert(b.skip(0) =~= b);
    } else {
        assert(a[0] == b[0]);
        lemma_bytes_lt_skip(a.drop_first(), b.drop_first(), i - 1);
        assert(a.drop_first().skip(i - 1) =~= a.skip(i));
        assert(b.drop_first().skip(i - 1) =~= b.skip(i));
    }
}

/// Texts with the same UTF-8 bytes are the same text.
pub proof fn lemma_text_bytes_injective(a: Seq<char>, b: Seq<char>)
    requires
        text_bytes(a) == text_bytes(b),
    ensures
        a == b,
{
    vstd::utf8::encode_utf8_decode_utf8(a);
    vstd::utf8::encode_utf8_decode_utf8(b);
}

/// `text_lt` is a strict total order.
pub proof fn lemma_text_order(a: Seq<char>, b: Seq<char>, c: Seq<char>)
    ensures
        !text_lt(a, a),
        !(text_lt(a, b) && text_lt(b, a)),
        text_lt(a, b) || a == b || text_lt(b, a),
        text_lt(a, b) && text_lt(b, c) ==> text_lt(a, c),
{
    lemma_bytes_lt_irreflexive(text_bytes(a));
    lemma_bytes_lt_asymmetric(text_bytes(a), text_bytes(b));
    lemma_bytes_lt_total(text_bytes(a), text_bytes(b));
    if text_bytes(a) == text_bytes(b) {
        lemma_text_bytes_injective(a, b);
    }
    if text_lt(a, b) && text_lt(b, c) {
        lemma_bytes_lt_transitive(text_bytes(a), text_bytes(b), text_bytes(c));
    }
}

/// Compares two texts as `str`'s `Ord` does.
pub fn compare_text(a: &str, b: &str) -> (r: TextOrder)
    ensures
        text_order_holds(r, a@, b@),
{
    let ab = a.as_bytes();
    let bb = b.as_bytes();
    let ghost sa = text_bytes(a@);
    let ghost sb = text_bytes(b@);
    let mut i: usize = 0;
    while i < ab.len() && i < bb.len()
        invariant
            ab@ == sa,
            bb@ == sb,
            sa == text_bytes(a@),
            sb == text_bytes(b@),
            i <= ab.len(),
            i <= bb.len(),
            forall|j: int| 0 <= j < i ==> sa[j] == sb[j],
        decreases ab.len() - i,
    {
        if ab[i] < bb[i] {
            proof {
                lemma_bytes_lt_skip(sa, sb, i as int);
            }
            return TextOrder::Less;
        }
        if ab[i] > bb[i] {
            proof {
                lemma_bytes_lt_skip(sb, sa, i as int);
            }
            return TextOrder::Greater;
        }
        i = i + 1;
    }
    proof {
        lemma_bytes_lt_skip(sa, sb, i as int);
        lemma_bytes_lt_skip(sb, sa, i as int);
    }
    if ab.len() == bb.len() {
        proof {
            assert(sa =~= sb);
            lemma_text_bytes_injective(a@, b@);
        }
        TextOrder::Equal
    } else if i == ab.len() {
        TextOrder::Less
    } else {
        TextOrder::Greater
    }
}

/// Whether two texts are equal.
pub fn text_eq(a: &str, b: &str) -> (r: bool)
    ensures
        r == (a@ == b@),
{
    let o = compare_text(a, b);
    proof {
        lemma_text_order(a@, b@, b@);
    }
    match o {
        TextOrder::Equal => true,
        _ => false,
    }
}

} // verus!
