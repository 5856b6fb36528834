//! Single-row persistence of protocol state between steps.
//!
//! One game epoch owns at most one stored root randomness and at most one
//! stored init state; storing a new value replaces the old one.  Values are
//! kept as rows of canonical fixed-width byte encodings, so that a store
//! followed by a load hands back a bit-identical value.

use vstd::prelude::*;

use crate::data::clone_bytes;
use crate::data::InitState;
use crate::data::PublicValue;
use crate::data::RootRandomness;
use crate::data::SecretShare;
use crate::data::FIELD_BYTES;
use crate::data::SHARE_BYTES;

verus! {

/// Why a store operation failed.
#[derive(Clone, Copy, Debug, PartialEq, Eq)]
pub enum StoreError {
    /// No value of the requested kind has been stored this epoch.
    NotFound,
    /// A row does not hold canonical fixed-width encodings.
    CorruptRecord,
}

/// The root randomness as one stored row: each field in its canonical
/// encoding.
#[derive(Clone, Debug, PartialEq, Eq)]
pub struct RootRandomnessSerialized {
    pub seed: Vec<u8>,
    pub seed_r: Vec<u8>,
    pub seed_c: Vec<u8>,
}

/// The init state as one stored row: the proof as the engine's canonical
/// byte buffer, the share and the commitment in their canonical encodings.
#[derive(Clone, Debug, PartialEq, Eq)]
pub struct InitStateSerialized {
    pub proof_bytes: Vec<u8>,
    pub game_state_r: Vec<u8>,
    pub game_state_c: Vec<u8>,
}

impl RootRandomnessSerialized {
    /// The row holds canonical fixed-width encodings.
    pub open spec fn wf(&self) -> bool {
        &&& self.seed@.len() == SHARE_BYTES
        &&& self.seed_r@.len() == SHARE_BYTES
        &&& self.seed_c@.len() == FIELD_BYTES
    }

    /// A fresh row with every field still empty.
    pub fn new() -> (r: Self)
        ensures
            r.seed@ == Seq::<u8>::empty(),
            r.seed_r@ == Seq::<u8>::empty(),
            r.seed_c@ == Seq::<u8>::empty(),
    {
        Self { seed: Vec::new(), seed_r: Vec::new(), seed_c: Vec::new() }
    }

    /// An exact copy of the row.
    pub fn duplicate(&self) -> (r: Self)
        ensures
            r.seed@ == self.seed@,
            r.seed_r@ == self.seed_r@,
            r.seed_c@ == self.seed_c@,
    {
        Self {
            seed: clone_bytes(&self.seed),
            seed_r: clone_bytes(&self.seed_r),
            seed_c: clone_bytes(&self.seed_c),
        }
    }
}

impl InitStateSerialized {
    /// The share and commitment hold canonical fixed-width encodings; the
    /// proof buffer is opaque and of no fixed width.
    pub open spec fn wf(&self) -> bool {
        &&& self.game_state_r@.len() == SHARE_BYTES
        &&& self.game_state_c@.len() == FIELD_BYTES
    }

    /// A fresh row with every field still empty.
    pub fn new() -> (r: Self)
        ensures
            r.proof_bytes@ == Seq::<u8>::empty(),
            r.game_state_r@ == Seq::<u8>::empty(),
            r.game_state_c@ == Seq::<u8>::empty(),
    {
        Self { proof_bytes: Vec::new(), game_state_r: Vec::new(), game_state_c: Vec::new() }
    }

    /// An exact copy of the row.
    pub fn duplicate(&self) -> (r: Self)
        ensures
            r.proof_bytes@ == self.proof_bytes@,
            r.game_state_r@ == self.game_state_r@,
            r.game_state_c@ == self.game_state_c@,
    {
        Self {
            proof_bytes: clone_bytes(&self.proof_bytes),
            game_state_r: clone_bytes(&self.game_state_r),
            game_state_c: clone_bytes(&self.game_state_c),
        }
    }
}

impl RootRandomness {
    /// Serializes the randomness into one row, field by field.
    pub fn to_row(self) -> (r: RootRandomnessSerialized)
        ensures
            r.seed@ == self.seed.bytes@,
            r.seed_r@ == self.seed_r.bytes@,
            r.seed_c@ == self.seed_c.bytes@,
            self.wf() ==> r.wf(),
            r == spec_randomness_row(self),
    {
        RootRandomnessSerialized {
            seed: self.seed.bytes,
            seed_r: self.seed_r.bytes,
            seed_c: self.seed_c.bytes,
        }
    }

    /// Reads a row back into a randomness value.  Succeeds exactly when the
    /// row holds canonical fixed-width encodings, and then the value is
    /// bit-identical to the row.
    pub fn from_row(row: RootRandomnessSerialized) -> (r: Result<RootRandomness, StoreError>)
        ensures
            r is Ok <==> row.wf(),
            r matches Ok(v) ==> {
                &&& v.seed.bytes@ == row.seed@
                &&& v.seed_r.bytes@ == row.seed_r@
                &&& v.seed_c.bytes@ == row.seed_c@
                &&& v.wf()
            },
            row.wf() ==> r == Ok::<RootRandomness, StoreError>(spec_randomness_of_row(row)),
            r is Err ==> r == Err::<RootRandomness, StoreError>(StoreError::CorruptRecord),
    {
        let seed = match SecretShare::from_bytes(row.seed) {
            Ok(s) => s,
            Err(_) => {
                return Err(StoreError::CorruptRecord);
            },
        };
        let seed_r = match SecretShare::from_bytes(row.seed_r) {
            Ok(s) => s,
            Err(_) => {
                return Err(StoreError::CorruptRecord);
            },
        };
        let seed_c = match PublicValue::from_bytes(row.seed_c) {
            Ok(c) => c,
            Err(_) => {
                return Err(StoreError::CorruptRecord);
            },
        };
        Ok(RootRandomness { seed, seed_r, seed_c })
    }
}

impl InitState {
    /// Serializes the init state into one row, field by field.
    pub fn to_row(self) -> (r: InitStateSerialized)
        ensures
            r.proof_bytes@ == self.proof_bytes@,
            r.game_state_r@ == self.game_state_r.bytes@,
            r.game_state_c@ == self.game_state_c.bytes@,
            self.wf() ==> r.wf(),
            r == spec_init_state_row(self),
    {
        InitStateSerialized {
            proof_bytes: self.proof_bytes,
            game_state_r: self.game_state_r.bytes,
            game_state_c: self.game_state_c.bytes,
        }
    }

    /// Reads a row back into an init state.  Succeeds exactly when the row
    /// holds canonical fixed-width encodings, and then the value is
    /// bit-identical to the row.
    pub fn from_row(row: InitStateSerialized) -> (r: Result<InitState, StoreError>)
        ensures
            r is Ok <==> row.wf(),
            r matches Ok(v) ==> {
                &&& v.proof_bytes@ == row.proof_bytes@
                &&& v.game_state_r.bytes@ == row.game_state_r@
                &&& v.game_state_c.bytes@ == row.game_state_c@
                &&& v.wf()
            },
            row.wf() ==> r == Ok::<InitState, StoreError>(spec_init_state_of_row(row)),
            r is Err ==> r == Err::<InitState, StoreError>(StoreError::CorruptRecord),
    {
        let game_state_r = match SecretShare::from_bytes(row.game_state_r) {
            Ok(s) => s,
            Err(_) => {
                return Err(StoreError::CorruptRecord);
            },
        };
        let game_state_c = match PublicValue::from_bytes(row.game_state_c) {
            Ok(c) => c,
            Err(_) => {
                return Err(StoreError::CorruptRecord);
            },
        };
        Ok(InitState { proof_bytes: row.proof_bytes, game_state_r, game_state_c })
    }
}

/// Storage of exactly one root randomness and exactly one init state for
/// the active game epoch.  Storing replaces the prior value; loading fails
/// with `NotFound` while nothing is stored.
pub struct ProtocolStateStore {
    pub root_rand: Option<RootRandomnessSerialized>,
    pub init_state: Option<InitStateSerialized>,
}

impl ProtocolStateStore {
    /// Every stored row holds canonical fixed-width encodings.
    pub open spec fn wf(&self) -> bool {
        &&& (self.root_rand matches Some(r) ==> r.wf())
        &&& (self.init_state matches Some(s) ==> s.wf())
    }

    /// An empty store: nothing persisted yet this epoch.
    pub fn new() -> (r: Self)
        ensures
            r.root_rand is None,
            r.init_state is None,
            r.wf(),
    {
        Self { root_rand: None, init_state: None }
    }

    /// Replaces any prior stored randomness with `value` and returns the
    /// stored public commitment.
    pub fn store_randomness(&mut self, value: RootRandomness) -> (r: Result<
        PublicValue,
        StoreError,
    >)
        requires
            old(self).wf(),
            value.wf(),
        ensures
            final(self).wf(),
            final(self).root_rand == Some(spec_randomness_row(value)),
            final(self).root_rand matches Some(row) && {
                &&& row.seed@ == value.seed.bytes@
                &&& row.seed_r@ == value.seed_r.bytes@
                &&& row.seed_c@ == value.seed_c.bytes@
            },
            final(self).init_state == old(self).init_state,
            r matches Ok(c) && c.bytes@ == value.seed_c.bytes@,
    {
        let commitment = PublicValue { bytes: clone_bytes(&value.seed_c.bytes) };
        self.root_rand = Some(value.to_row());
        Ok(commitment)
    }

    /// Loads the stored randomness; fails with `NotFound` exactly when none
    /// has been stored this epoch.  The loaded value is bit-identical to the
    /// stored row.
    pub fn load_randomness(&self) -> (r: Result<RootRandomness, StoreError>)
        requires
            self.wf(),
        ensures
            self.root_rand is None ==> r == Err::<RootRandomness, StoreError>(StoreError::NotFound),
            self.root_rand matches Some(row) ==> r matches Ok(v) && {
                &&& v.seed.bytes@ == row.seed@
                &&& v.seed_r.bytes@ == row.seed_r@
                &&& v.seed_c.bytes@ == row.seed_c@
                &&& v.wf()
            },
    {
        match &self.root_rand {
            None => Err(StoreError::NotFound),
            Some(row) => RootRandomness::from_row(row.duplicate()),
        }
    }

    /// Replaces any prior stored init state with `value` and returns the
    /// stored row.
    pub fn store_init_state(&mut self, value: InitState) -> (r: Result<
        InitStateSerialized,
        StoreError,
    >)
        requires
            old(self).wf(),
            value.wf(),
        ensures
            final(self).wf(),
            final(self).init_state == Some(spec_init_state_row(value)),
            final(self).init_state matches Some(row) && {
                &&& row.proof_bytes@ == value.proof_bytes@
                &&& row.game_state_r@ == value.game_state_r.bytes@
                &&& row.game_state_c@ == value.game_state_c.bytes@
            },
            final(self).root_rand == old(self).root_rand,
            r matches Ok(row) && {
                &&& row.proof_bytes@ == value.proof_bytes@
                &&& row.game_state_r@ == value.game_state_r.bytes@
                &&& row.game_state_c@ == value.game_state_c.bytes@
            },
    {
        let row = value.to_row();
        let returned = row.duplicate();
        self.init_state = Some(row);
        Ok(returned)
    }

    /// Loads the stored init state; fails with `NotFound` exactly when none
    /// has been stored this epoch.  The loaded value is bit-identical to the
    /// stored row.
    pub fn load_init_state(&self) -> (r: Result<InitState, StoreError>)
        requires
            self.wf(),
        ensures
            self.init_state is None ==> r == Err::<InitState, StoreError>(StoreError::NotFound),
            self.init_state matches Some(row) ==> r matches Ok(v) && {
                &&& v.proof_bytes@ == row.proof_bytes@
                &&& v.game_state_r.bytes@ == row.game_state_r@
                &&& v.game_state_c.bytes@ == row.game_state_c@
                &&& v.wf()
            },
    {
        match &self.init_state {
            None => Err(StoreError::NotFound),
            Some(row) => InitState::from_row(row.duplicate()),
        }
    }
}

/// The row that serializing a randomness value produces.
pub open spec fn spec_randomness_row(v: RootRandomness) -> RootRandomnessSerialized {
    RootRandomnessSerialized { seed: v.seed.bytes, seed_r: v.seed_r.bytes, seed_c: v.seed_c.bytes }
}

/// The randomness value that reading a row back produces.
pub open spec fn spec_randomness_of_row(row: RootRandomnessSerialized) -> RootRandomness {
    RootRandomness {
        seed: SecretShare { bytes: row.seed },
        seed_r: SecretShare { bytes: row.seed_r },
        seed_c: PublicValue { bytes: row.seed_c },
    }
}

/// The row that serializing an init state produces.
pub open spec fn spec_init_state_row(v: InitState) -> InitStateSerialized {
    InitStateSerialized {
        proof_bytes: v.proof_bytes,
        game_state_r: v.game_state_r.bytes,
        game_state_c: v.game_state_c.bytes,
    }
}

/// The init state that reading a row back produces.
pub open spec fn spec_init_state_of_row(row: InitStateSerialized) -> InitState {
    InitState {
        proof_bytes: row.proof_bytes,
        game_state_r: SecretShare { bytes: row.game_state_r },
        game_state_c: PublicValue { bytes: row.game_state_c },
    }
}

/// Round-trip law: serializing any randomness value into a row and reading
/// the row back yields the value again, bit for bit.  Together with the
/// contracts of `store_randomness` and `load_randomness`, a load after a
/// store hands back exactly the stored value.
pub proof fn lemma_randomness_round_trip(v: RootRandomness)
    ensures
        spec_randomness_of_row(spec_randomness_row(v)) == v,
{
}

/// Round-trip law for the init state, as for the randomness.
pub proof fn lemma_init_state_round_trip(v: InitState)
    ensures
        spec_init_state_of_row(spec_init_state_row(v)) == v,
{
}

} // verus!
