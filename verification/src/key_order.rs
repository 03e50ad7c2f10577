//! The order in which complaint identifiers are listed.
//!
//! Identifiers are ordered as their UTF-8 encodings are, byte by byte, a
//! shorter encoding coming before every longer one that it begins. This
//! is a strict total order on identifiers, which the lemmas of this module
//! establish.

use vstd::prelude::*;
use vstd::utf8::*;

verus! {

/// Whether `x` comes before `y`, both looked at from position `from` on,
/// in the lexicographic order of byte sequences.
pub open spec fn bytes_before_from(x: Seq<u8>, y: Seq<u8>, from: int) -> bool
    decreases x.len() - from,
{
    if from < 0 || from >= y.len() {
        false
    } else if from >= x.len() {
        true
    } else if x[from] != y[from] {
        x[from] < y[from]
    } else {
        bytes_before_from(x, y, from + 1)
    }
}

/// Whether identifier `a` is listed before identifier `b`.
pub open spec fn key_before(a: Seq<char>, b: Seq<char>) -> bool {
    bytes_before_from(encode_utf8(a), encode_utf8(b), 0)
}

proof fn lemma_bytes_irreflexive(x: Seq<u8>, from: int)
    ensures
        !bytes_before_from(x, x, from),
    decreases x.len() - from,
{
    if 0 <= from < x.len() {
        lemma_bytes_irreflexive(x, from + 1);
    }
}

proof fn lemma_bytes_transitive(x: Seq<u8>, y: Seq<u8>, z: Seq<u8>, from: int)
    requires
        bytes_before_from(x, y, from),
        bytes_before_from(y, z, from),
    ensures
        bytes_before_from(x, z, from),
    decreases x.len() - from,
{
    if from < x.len() && x[from] == y[from] && y[from] == z[from] {
        lemma_bytes_transitive(x, y, z, from + 1);
    }
}

proof fn lemma_bytes_connected(x: Seq<u8>, y: Seq<u8>, from: int)
    requires
        0 <= from <= x.len(),
        from <= y.len(),
        !bytes_before_from(x, y, from),
        !bytes_before_from(y, x, from),
    ensures
        x.len() == y.len(),
        forall|i: int| from <= i < x.len() ==> x[i] == y[i],
    decreases x.len() - from,
{
    if from < x.len() && from < y.len() {
        lemma_bytes_connected(x, y, from + 1);
    }
}

/// No identifier comes before itself.
pub proof fn lemma_key_before_irreflexive(a: Seq<char>)
    ensures
        !key_before(a, a),
{
    lemma_bytes_irreflexive(encode_utf8(a), 0);
}

/// The order of identifiers is transitive.
pub proof fn lemma_key_before_transitive(a: Seq<char>, b: Seq<char>, c: Seq<char>)
    requires
        key_before(a, b),
        key_before(b, c),
    ensures
        key_before(a, c),
{
    lemma_bytes_transitive(encode_utf8(a), encode_utf8(b), encode_utf8(c), 0);
}

/// Of two different identifiers one comes before the other.
pub proof fn lemma_key_before_connected(a: Seq<char>, b: Seq<char>)
    ensures
        a == b || key_before(a, b) || key_before(b, a),
{
    if !key_before(a, b) && !key_before(b, a) {
        lemma_bytes_connected(encode_utf8(a), encode_utf8(b), 0);
        assert(encode_utf8(a) =~= encode_utf8(b));
        encode_utf8_decode_utf8(a);
        encode_utf8_decode_utf8(b);
    }
}

/// Of two identifiers at most one comes before the other.
pub proof fn lemma_key_before_asymmetric(a: Seq<char>, b: Seq<char>)
    ensures
        !(key_before(a, b) && key_before(b, a)),
{
    if key_before(a, b) && key_before(b, a) {
        lemma_key_before_transitive(a, b, a);
        lemma_key_before_irreflexive(a);
    }
}

/// Decides whether identifier `a` is listed before identifier `b`.
pub fn key_precedes(a: &String, b: &String) -> (r: bool)
    ensures
        r == key_before(a@, b@),
{
    let x = a.as_str().as_bytes();
    let y = b.as_str().as_bytes();
    let mut i: usize = 0;
    while i < x.len() && i < y.len()
        invariant
            i <= x.len(),
            i <= y.len(),
            x@ == encode_utf8(a@),
            y@ == encode_utf8(b@),
            key_before(a@, b@) == bytes_before_from(x@, y@, i as int),
        decreases x.len() - i,
    {
        if x[i] != y[i] {
            return x[i] < y[i];
        }
        i += 1;
    }
    i < y.len()
}

} // verus!
