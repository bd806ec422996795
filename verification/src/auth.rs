//! Credential gate: a request is allowed when no secret is configured, or when
//! the presented credential equals the configured one.  The comparison runs in
//! constant time over equal-length byte strings (XOR/OR accumulation, no early
//! exit) so that the time taken leaks nothing about the secret.

use vstd::prelude::*;

verus! {

/// What a gated operation hands back: denial before any work is done, or the
/// operation's own result.
pub enum Gated<T> {
    Denied,
    Allowed(T),
}

/// The allow decision: the configured secret is empty (the feature is
/// disabled), or a credential was presented and its bytes equal the secret.
pub open spec fn key_allows(expected: Seq<u8>, provided: Option<Seq<u8>>) -> bool {
    expected.len() == 0 || provided == Some(expected)
}

/// View of an optionally presented credential.
pub open spec fn provided_view(provided: Option<&Vec<u8>>) -> Option<Seq<u8>> {
    match provided {
        Some(p) => Some(p@),
        None => None,
    }
}

/// Byte-string equality without an early exit: the loop always walks the whole
/// length, folding the XOR of each byte pair into an accumulator.
fn ct_bytes_eq(a: &[u8], b: &[u8]) -> (r: bool)
    ensures
        r == (a@ == b@),
{
    if a.len() != b.len() {
        assert(a@ != b@) by {
            assert(a@.len() != b@.len());
        }
        return false;
    }
    let mut acc: u8 = 0;
    let mut i: usize = 0;
    while i < a.len()
        invariant
            a@.len() == b@.len(),
            i <= a.len(),
            (acc == 0) <==> (forall|j: int| 0 <= j < i ==> a@[j] == b@[j]),
        decreases a.len() - i,
    {
        let x = a[i];
        let y = b[i];
        let next = acc | (x ^ y);
        assert((next == 0) <==> (acc == 0 && x == y)) by (bit_vector)
            requires
                next == acc | (x ^ y),
        ;
        acc = next;
        i = i + 1;
    }
    if acc == 0 {
        assert(a@ =~= b@);
        true
    } else {
        assert(a@ != b@) by {
            let j = choose|j: int| 0 <= j < a@.len() && a@[j] != b@[j];
            assert(a@[j] != b@[j]);
        }
        false
    }
}

/// The credential gate.  Every operation calls this exactly once before
/// touching any state; it reads nothing and mutates nothing.
pub fn check_api_key(expected: &Vec<u8>, provided: Option<&Vec<u8>>) -> (allow: bool)
    ensures
        allow == key_allows(expected@, provided_view(provided)),
{
    if expected.len() == 0 {
        return true;
    }
    match provided {
        None => false,
        Some(p) => ct_bytes_eq(expected.as_slice(), p.as_slice()),
    }
}

} // verus!
