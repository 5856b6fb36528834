//! The per-party protocol state machine.
//!
//! One party-node moves through `Idle -> RandomnessReady -> GameInitialized
//! -> DoorRevealed` within a game epoch.  Each step hands the blocking joint
//! cryptographic session to the external engine on a dedicated execution
//! context; this module holds the decisions around that hand-off: which
//! prior state a step needs, what is persisted when the engine succeeds,
//! and that nothing changes when it fails.  Every operation is
//! all-or-nothing: an engine failure leaves the node exactly as it was.

use vstd::prelude::*;

use crate::data::clone_bytes;
use crate::data::InitGameResponse;
use crate::data::InitState;
use crate::data::PublicValue;
use crate::data::RevealDoorResponse;
use crate::data::RootRandomness;
use crate::data::SecretShare;
use crate::store::spec_init_state_row;
use crate::store::spec_randomness_row;
use crate::store::ProtocolStateStore;

verus! {

/// A failure reported by the external cryptographic engine or its peer
/// network.  The detail is logged server-side and never crosses the trust
/// boundary to the caller.
#[derive(Clone, Debug, PartialEq, Eq)]
pub struct EngineError {
    pub detail: String,
}

/// How a node-side operation fails towards the caller.
#[derive(Clone, Copy, Debug, PartialEq, Eq)]
pub enum NodeError {
    /// The step needs prior state that has not been established this epoch.
    PreconditionFailed,
    /// The engine or the persistence layer failed; detail stays server-side
    /// and the caller sees only an opaque internal status.
    Internal,
}

impl NodeError {
    /// The opaque status line surfaced to the caller; internal detail never
    /// crosses the trust boundary.
    pub fn status_message(&self) -> (r: &'static str)
        ensures
            *self is PreconditionFailed ==> r@ == "required prior protocol state is absent"@,
            *self is Internal ==> r@ == "check logs something broke"@,
    {
        match self {
            NodeError::PreconditionFailed => "required prior protocol state is absent",
            NodeError::Internal => "check logs something broke",
        }
    }
}

/// One entry of the witness the engine hands back from a circuit run:
/// either a value opened to all parties or a secret-shared one.
#[derive(Clone, Debug, PartialEq, Eq)]
pub enum WitnessValue {
    Public(PublicValue),
    Shared(SecretShare),
}

impl WitnessValue {
    /// The entry holds a canonical fixed-width encoding.
    pub open spec fn wf(&self) -> bool {
        match self {
            WitnessValue::Public(p) => p.wf(),
            WitnessValue::Shared(s) => s.wf(),
        }
    }
}

/// Every entry of the witness holds a canonical fixed-width encoding.
pub open spec fn witness_wf(w: Seq<WitnessValue>) -> bool {
    forall|i: int| 0 <= i < w.len() ==> w[i].wf()
}

/// Index of the public seed commitment in the commit circuit's witness.
pub const COMMIT_WITNESS_INDEX: usize = 2;

/// Index of the public game-state commitment in the init circuit's witness.
pub const INIT_COMMITMENT_WITNESS_INDEX: usize = 4;

/// Reads the public value at `index` of a witness.  Succeeds exactly when
/// the entry exists and was opened as public; a shared entry there means
/// the circuit layout is not the expected one.
pub fn extract_public(witness: &Vec<WitnessValue>, index: usize) -> (r: Option<PublicValue>)
    ensures
        r is Some <==> index < witness@.len() && witness@[index as int] is Public,
        r matches Some(v) ==> (witness@[index as int] matches WitnessValue::Public(w)
            && v.bytes@ == w.bytes@),
{
    if index < witness.len() {
        match &witness[index] {
            WitnessValue::Public(v) => Some(PublicValue { bytes: clone_bytes(&v.bytes) }),
            WitnessValue::Shared(_) => None,
        }
    } else {
        None
    }
}

/// Assembles one party's root randomness from its two jointly sampled
/// shares and the commit circuit's witness, in which the public seed
/// commitment stands at `COMMIT_WITNESS_INDEX`.  Fails exactly when the
/// witness holds no public value there — the circuit layout would not be
/// the expected one.
pub fn assemble_root_randomness(
    seed: SecretShare,
    seed_r: SecretShare,
    witness: &Vec<WitnessValue>,
) -> (r: Option<RootRandomness>)
    requires
        seed.wf(),
        seed_r.wf(),
        witness_wf(witness@),
    ensures
        r is Some <==> (COMMIT_WITNESS_INDEX < witness@.len()
            && witness@[COMMIT_WITNESS_INDEX as int] is Public),
        r matches Some(v) ==> {
            &&& v.wf()
            &&& v.seed == seed
            &&& v.seed_r == seed_r
            &&& (witness@[COMMIT_WITNESS_INDEX as int] matches WitnessValue::Public(w)
                && v.seed_c.bytes@ == w.bytes@)
        },
{
    match extract_public(witness, COMMIT_WITNESS_INDEX) {
        Some(seed_c) => {
            proof {
                assert(witness@[COMMIT_WITNESS_INDEX as int].wf());
            }
            Some(RootRandomness { seed, seed_r, seed_c })
        },
        None => None,
    }
}

/// Assembles one party's init state from the generated proof, its freshly
/// sampled share of the output blinding, and the init circuit's witness,
/// in which the public game-state commitment stands at
/// `INIT_COMMITMENT_WITNESS_INDEX`.  Fails exactly when the witness holds
/// no public value there.
pub fn assemble_init_state(
    proof_bytes: Vec<u8>,
    out_r: SecretShare,
    witness: &Vec<WitnessValue>,
) -> (r: Option<InitState>)
    requires
        out_r.wf(),
        witness_wf(witness@),
    ensures
        r is Some <==> (INIT_COMMITMENT_WITNESS_INDEX < witness@.len()
            && witness@[INIT_COMMITMENT_WITNESS_INDEX as int] is Public),
        r matches Some(v) ==> {
            &&& v.wf()
            &&& v.proof_bytes@ == proof_bytes@
            &&& v.game_state_r == out_r
            &&& (witness@[INIT_COMMITMENT_WITNESS_INDEX as int] matches WitnessValue::Public(w)
                && v.game_state_c.bytes@ == w.bytes@)
        },
{
    match extract_public(witness, INIT_COMMITMENT_WITNESS_INDEX) {
        Some(game_state_c) => {
            proof {
                assert(witness@[INIT_COMMITMENT_WITNESS_INDEX as int].wf());
            }
            Some(InitState { proof_bytes, game_state_r: out_r, game_state_c })
        },
        None => None,
    }
}

/// The protocol stage a node is in within the current epoch.
#[derive(Clone, Copy, Debug, PartialEq, Eq)]
pub enum NodeState {
    Idle,
    RandomnessReady,
    GameInitialized,
    DoorRevealed,
}

/// One party's side of the protocol: its persisted secret-share state and
/// whether the epoch's terminal reveal step has run.
pub struct PartyNodeService {
    pub store: ProtocolStateStore,
    pub door_revealed: bool,
}

impl PartyNodeService {
    pub open spec fn wf(&self) -> bool {
        self.store.wf()
    }

    /// The stage, read off the persisted state: randomness stored means
    /// ready, init state stored means initialized, and the reveal flag is
    /// terminal.
    pub open spec fn state(&self) -> NodeState {
        if self.door_revealed {
            NodeState::DoorRevealed
        } else if self.store.init_state is Some {
            NodeState::GameInitialized
        } else if self.store.root_rand is Some {
            NodeState::RandomnessReady
        } else {
            NodeState::Idle
        }
    }

    /// A fresh node with nothing persisted: stage `Idle`.
    pub fn new() -> (r: Self)
        ensures
            r.wf(),
            r.state() == NodeState::Idle,
            r.store.root_rand is None,
            r.store.init_state is None,
            !r.door_revealed,
    {
        Self { store: ProtocolStateStore::new(), door_revealed: false }
    }

    /// Completes the randomness-sampling step from the engine's outcome.
    /// On success the sampled randomness is persisted, replacing any prior
    /// one, and the public commitment is returned; on engine failure
    /// nothing is persisted and the caller sees an opaque internal error.
    pub fn sample_rand(&mut self, outcome: Result<RootRandomness, EngineError>) -> (r: Result<
        PublicValue,
        NodeError,
    >)
        requires
            old(self).wf(),
            outcome matches Ok(v) ==> v.wf(),
        ensures
            final(self).wf(),
            outcome is Err ==> {
                &&& r == Err::<PublicValue, NodeError>(NodeError::Internal)
                &&& *final(self) == *old(self)
            },
            outcome matches Ok(v) ==> {
                &&& final(self).store.root_rand == Some(spec_randomness_row(v))
                &&& final(self).store.init_state == old(self).store.init_state
                &&& final(self).door_revealed == old(self).door_revealed
                &&& r matches Ok(c) && c.bytes@ == v.seed_c.bytes@
            },
    {
        match outcome {
            Err(_) => Err(NodeError::Internal),
            Ok(v) => match self.store.store_randomness(v) {
                Ok(c) => Ok(c),
                Err(_) => Err(NodeError::Internal),
            },
        }
    }

    /// Opens the game-initialization step: loads the randomness that the
    /// init circuit consumes.  Fails with `PreconditionFailed` exactly when
    /// no randomness has been sampled this epoch.
    pub fn init_game_begin(&self) -> (r: Result<RootRandomness, NodeError>)
        requires
            self.wf(),
        ensures
            self.store.root_rand is None ==> r == Err::<RootRandomness, NodeError>(
                NodeError::PreconditionFailed,
            ),
            self.store.root_rand matches Some(row) ==> r matches Ok(v) && {
                &&& v.seed.bytes@ == row.seed@
                &&& v.seed_r.bytes@ == row.seed_r@
                &&& v.seed_c.bytes@ == row.seed_c@
                &&& v.wf()
            },
    {
        match self.store.load_randomness() {
            Ok(v) => Ok(v),
            Err(_) => Err(NodeError::PreconditionFailed),
        }
    }

    /// Completes the game-initialization step from the engine's outcome.
    /// On success the init state is persisted, replacing any prior one, and
    /// the public parts — the proof and the game-state commitment — are
    /// returned; on engine failure nothing is persisted.
    pub fn init_game_complete(&mut self, outcome: Result<InitState, EngineError>) -> (r: Result<
        InitGameResponse,
        NodeError,
    >)
        requires
            old(self).wf(),
            outcome matches Ok(v) ==> v.wf(),
        ensures
            final(self).wf(),
            outcome is Err ==> {
                &&& r == Err::<InitGameResponse, NodeError>(NodeError::Internal)
                &&& *final(self) == *old(self)
            },
            outcome matches Ok(v) ==> {
                &&& final(self).store.init_state == Some(spec_init_state_row(v))
                &&& final(self).store.root_rand == old(self).store.root_rand
                &&& final(self).door_revealed == old(self).door_revealed
                &&& r matches Ok(resp) && resp.proof_bytes@ == v.proof_bytes@
                    && resp.game_state_c@ == v.game_state_c.bytes@
            },
    {
        match outcome {
            Err(_) => Err(NodeError::Internal),
            Ok(v) => match self.store.store_init_state(v) {
                Ok(row) => Ok(
                    InitGameResponse { proof_bytes: row.proof_bytes, game_state_c: row.game_state_c },
                ),
                Err(_) => Err(NodeError::Internal),
            },
        }
    }

    /// Opens the door-reveal step: loads the init state that the reveal
    /// circuit consumes.  The reveal is valid only from `GameInitialized`:
    /// from `Idle`, `RandomnessReady` or the terminal `DoorRevealed` it
    /// fails with `PreconditionFailed`.
    pub fn reveal_door_begin(&self) -> (r: Result<InitState, NodeError>)
        requires
            self.wf(),
        ensures
            self.state() != NodeState::GameInitialized ==> r == Err::<InitState, NodeError>(
                NodeError::PreconditionFailed,
            ),
            self.state() == NodeState::GameInitialized ==> (r matches Ok(v)
                && (self.store.init_state matches Some(row) && {
                &&& v.proof_bytes@ == row.proof_bytes@
                &&& v.game_state_r.bytes@ == row.game_state_r@
                &&& v.game_state_c.bytes@ == row.game_state_c@
                &&& v.wf()
            })),
    {
        if self.door_revealed {
            return Err(NodeError::PreconditionFailed);
        }
        match self.store.load_init_state() {
            Ok(v) => Ok(v),
            Err(_) => Err(NodeError::PreconditionFailed),
        }
    }

    /// Completes the door-reveal step from the engine's outcome.  On
    /// success the node reaches the terminal `DoorRevealed` stage and the
    /// step's public output is returned; on engine failure nothing changes.
    pub fn reveal_door_complete(&mut self, outcome: Result<RevealDoorResponse, EngineError>) -> (r:
        Result<RevealDoorResponse, NodeError>)
        requires
            old(self).wf(),
            old(self).state() == NodeState::GameInitialized,
        ensures
            final(self).wf(),
            outcome is Err ==> {
                &&& r == Err::<RevealDoorResponse, NodeError>(NodeError::Internal)
                &&& *final(self) == *old(self)
            },
            outcome matches Ok(p) ==> {
                &&& final(self).state() == NodeState::DoorRevealed
                &&& final(self).store == old(self).store
                &&& r == Ok::<RevealDoorResponse, NodeError>(p)
            },
    {
        match outcome {
            Err(_) => Err(NodeError::Internal),
            Ok(p) => {
                self.door_revealed = true;
                Ok(p)
            },
        }
    }
}

} // verus!
