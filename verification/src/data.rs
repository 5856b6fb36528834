//! The protocol's data model, over canonical fixed-width byte encodings.
//!
//! Field elements and replicated secret shares cross this layer only in
//! their canonical uncompressed encodings, so that storing and reloading a
//! value is bit-identical.  The arithmetic behind those encodings belongs to
//! the external cryptographic engine and is never interpreted here.

use vstd::prelude::*;

verus! {

/// Bytes in the canonical uncompressed encoding of one field element.
pub const FIELD_BYTES: usize = 32;

/// Bytes in the canonical uncompressed encoding of one replicated secret
/// share, which holds two field elements.
pub const SHARE_BYTES: usize = 64;

/// A rejected encoding: the byte buffer does not have the fixed width that
/// the canonical encoding prescribes.
#[derive(Clone, Copy, Debug, PartialEq, Eq)]
pub enum DataError {
    InvalidLength,
}

/// A public protocol value (a commitment): one field element in its
/// canonical fixed-width encoding.
#[derive(Clone, Debug, PartialEq, Eq)]
pub struct PublicValue {
    pub bytes: Vec<u8>,
}

/// One party's replicated secret share of a field element, in its canonical
/// fixed-width encoding.  Shares never leave the party that holds them.
#[derive(Clone, Debug, PartialEq, Eq)]
pub struct SecretShare {
    pub bytes: Vec<u8>,
}

impl PublicValue {
    /// The canonical encoding is exactly one field element wide.
    pub open spec fn wf(&self) -> bool {
        self.bytes@.len() == FIELD_BYTES
    }

    /// Accepts a buffer as a public value exactly when it has the canonical
    /// width.
    pub fn from_bytes(bytes: Vec<u8>) -> (r: Result<PublicValue, DataError>)
        ensures
            bytes@.len() == FIELD_BYTES ==> r == Ok::<PublicValue, DataError>(PublicValue { bytes }),
            bytes@.len() != FIELD_BYTES ==> r == Err::<PublicValue, DataError>(DataError::InvalidLength),
    {
        if bytes.len() == FIELD_BYTES {
            Ok(PublicValue { bytes })
        } else {
            Err(DataError::InvalidLength)
        }
    }
}

impl SecretShare {
    /// The canonical encoding is exactly two field elements wide.
    pub open spec fn wf(&self) -> bool {
        self.bytes@.len() == SHARE_BYTES
    }

    /// Accepts a buffer as a share exactly when it has the canonical width.
    pub fn from_bytes(bytes: Vec<u8>) -> (r: Result<SecretShare, DataError>)
        ensures
            bytes@.len() == SHARE_BYTES ==> r == Ok::<SecretShare, DataError>(SecretShare { bytes }),
            bytes@.len() != SHARE_BYTES ==> r == Err::<SecretShare, DataError>(DataError::InvalidLength),
    {
        if bytes.len() == SHARE_BYTES {
            Ok(SecretShare { bytes })
        } else {
            Err(DataError::InvalidLength)
        }
    }
}

/// The root randomness of one game epoch, as one party holds it: shares of
/// the seed and of its blinding, and the public commitment binding them.
#[derive(Clone, Debug, PartialEq, Eq)]
pub struct RootRandomness {
    pub seed: SecretShare,
    pub seed_r: SecretShare,
    pub seed_c: PublicValue,
}

impl RootRandomness {
    pub open spec fn wf(&self) -> bool {
        self.seed.wf() && self.seed_r.wf() && self.seed_c.wf()
    }
}

/// The initialized game, as one party holds it: the proof of correct
/// initialization, the party's share of the game state, and the public
/// commitment to that state.
#[derive(Clone, Debug, PartialEq, Eq)]
pub struct InitState {
    pub proof_bytes: Vec<u8>,
    pub game_state_r: SecretShare,
    pub game_state_c: PublicValue,
}

impl InitState {
    pub open spec fn wf(&self) -> bool {
        self.game_state_r.wf() && self.game_state_c.wf()
    }
}

/// What one party reports back from the randomness-sampling step: its view
/// of the public commitment to the shared seed, as raw wire bytes.
#[derive(Clone, Debug, PartialEq, Eq)]
pub struct SampleRandResponse {
    pub seed_c: Vec<u8>,
}

/// What one party reports back from the game-initialization step: the proof
/// and its view of the public game-state commitment, as raw wire bytes.
#[derive(Clone, Debug, PartialEq, Eq)]
pub struct InitGameResponse {
    pub proof_bytes: Vec<u8>,
    pub game_state_c: Vec<u8>,
}

/// What one party reports back from the door-reveal step: the step's public
/// output, as raw wire bytes.
#[derive(Clone, Debug, PartialEq, Eq)]
pub struct RevealDoorResponse {
    pub payload: Vec<u8>,
}

/// An exact copy of a byte buffer.
pub fn clone_bytes(v: &Vec<u8>) -> (r: Vec<u8>)
    ensures
        r@ == v@,
{
    let mut r: Vec<u8> = Vec::new();
    let mut i: usize = 0;
    while i < v.len()
        invariant
            0 <= i <= v@.len(),
            r@ == v@.subrange(0, i as int),
        decreases v@.len() - i,
    {
        r.push(v[i]);
        proof {
            assert(v@.subrange(0, i as int).push(v@[i as int]) =~= v@.subrange(0, i + 1));
        }
        i += 1;
    }
    proof {
        assert(v@.subrange(0, v@.len() as int) =~= v@);
    }
    r
}

/// Byte-for-byte equality of two buffers.
pub fn bytes_eq(a: &Vec<u8>, b: &Vec<u8>) -> (r: bool)
    ensures
        r == (a@ == b@),
{
    if a.len() != b.len() {
        return false;
    }
    let mut i: usize = 0;
    while i < a.len()
        invariant
            0 <= i <= a@.len(),
            a@.len() == b@.len(),
            forall|k: int| 0 <= k < i ==> a@[k] == b@[k],
        decreases a@.len() - i,
    {
        if a[i] != b[i] {
            return false;
        }
        i += 1;
    }
    proof {
        assert(a@ =~= b@);
    }
    true
}

} // verus!
