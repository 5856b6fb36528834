//! The coordinator: fan one logical step out to the three parties and
//! accept a result only on unanimous agreement.
//!
//! The three party calls run concurrently and the step waits for all three
//! outcomes before judging them.  A step is accepted only when every call
//! succeeded and the public outputs of all three parties are bit-identical;
//! any disagreement rejects the whole step and commits nothing.  There is
//! no majority policy: agreement is unanimous or the step fails.

use vstd::prelude::*;

use crate::data::bytes_eq;
use crate::data::clone_bytes;
use crate::data::InitGameResponse;
use crate::data::RevealDoorResponse;
use crate::data::SampleRandResponse;
use crate::store::RootRandomnessSerialized;

verus! {

/// How a call to one party fails at the connection layer.
#[derive(Clone, Debug, PartialEq, Eq)]
pub enum PartyCallError {
    /// The task owning the party's connection has terminated.
    MailboxClosed,
    /// The remote party reported a failure; its opaque status line.
    RemoteError(String),
}

/// Why a coordinated step is rejected.
#[derive(Clone, Copy, Debug, PartialEq, Eq)]
pub enum StepError {
    /// At least one party's call failed; the step cannot be judged.
    RemoteError,
    /// All parties answered but their public outputs disagree.
    ConsistencyViolation,
    /// The parties agreed but the accompanying proof did not verify.
    ProofRejected,
}

/// All three parties reported bit-identical sampling commitments.
pub open spec fn sample_outputs_agree(
    a: SampleRandResponse,
    b: SampleRandResponse,
    c: SampleRandResponse,
) -> bool {
    a.seed_c@ == b.seed_c@ && b.seed_c@ == c.seed_c@
}

/// All three parties reported bit-identical proofs and game-state
/// commitments.
pub open spec fn init_outputs_agree(
    a: InitGameResponse,
    b: InitGameResponse,
    c: InitGameResponse,
) -> bool {
    &&& a.proof_bytes@ == b.proof_bytes@ && b.proof_bytes@ == c.proof_bytes@
    &&& a.game_state_c@ == b.game_state_c@ && b.game_state_c@ == c.game_state_c@
}

/// All three parties reported bit-identical reveal outputs.
pub open spec fn reveal_outputs_agree(
    a: RevealDoorResponse,
    b: RevealDoorResponse,
    c: RevealDoorResponse,
) -> bool {
    a.payload@ == b.payload@ && b.payload@ == c.payload@
}

/// The verdict on the sampling step: the agreed commitment when every call
/// succeeded and all reported commitments are identical, the exact error
/// otherwise.
pub open spec fn spec_reconcile_sample(
    r0: Result<SampleRandResponse, PartyCallError>,
    r1: Result<SampleRandResponse, PartyCallError>,
    r2: Result<SampleRandResponse, PartyCallError>,
) -> Result<Seq<u8>, StepError> {
    match (r0, r1, r2) {
        (Ok(a), Ok(b), Ok(c)) => if sample_outputs_agree(a, b, c) {
            Ok(a.seed_c@)
        } else {
            Err(StepError::ConsistencyViolation)
        },
        _ => Err(StepError::RemoteError),
    }
}

/// The verdict on the initialization step, as for sampling, over both
/// public outputs.
pub open spec fn spec_reconcile_init(
    r0: Result<InitGameResponse, PartyCallError>,
    r1: Result<InitGameResponse, PartyCallError>,
    r2: Result<InitGameResponse, PartyCallError>,
) -> Result<(Seq<u8>, Seq<u8>), StepError> {
    match (r0, r1, r2) {
        (Ok(a), Ok(b), Ok(c)) => if init_outputs_agree(a, b, c) {
            Ok((a.proof_bytes@, a.game_state_c@))
        } else {
            Err(StepError::ConsistencyViolation)
        },
        _ => Err(StepError::RemoteError),
    }
}

/// The verdict on the reveal step, as for sampling.
pub open spec fn spec_reconcile_reveal(
    r0: Result<RevealDoorResponse, PartyCallError>,
    r1: Result<RevealDoorResponse, PartyCallError>,
    r2: Result<RevealDoorResponse, PartyCallError>,
) -> Result<Seq<u8>, StepError> {
    match (r0, r1, r2) {
        (Ok(a), Ok(b), Ok(c)) => if reveal_outputs_agree(a, b, c) {
            Ok(a.payload@)
        } else {
            Err(StepError::ConsistencyViolation)
        },
        _ => Err(StepError::RemoteError),
    }
}

/// Judges the three parties' sampling outcomes: returns the agreed
/// commitment, or the exact rejection that `spec_reconcile_sample` gives.
pub fn reconcile_sample_rand(
    r0: &Result<SampleRandResponse, PartyCallError>,
    r1: &Result<SampleRandResponse, PartyCallError>,
    r2: &Result<SampleRandResponse, PartyCallError>,
) -> (out: Result<Vec<u8>, StepError>)
    ensures
        out matches Ok(v) ==> spec_reconcile_sample(*r0, *r1, *r2) == Ok::<Seq<u8>, StepError>(v@),
        out matches Err(e) ==> spec_reconcile_sample(*r0, *r1, *r2) == Err::<Seq<u8>, StepError>(e),
{
    let a = match r0 {
        Ok(a) => a,
        Err(_) => {
            return Err(StepError::RemoteError);
        },
    };
    let b = match r1 {
        Ok(b) => b,
        Err(_) => {
            return Err(StepError::RemoteError);
        },
    };
    let c = match r2 {
        Ok(c) => c,
        Err(_) => {
            return Err(StepError::RemoteError);
        },
    };
    if bytes_eq(&a.seed_c, &b.seed_c) && bytes_eq(&b.seed_c, &c.seed_c) {
        Ok(clone_bytes(&a.seed_c))
    } else {
        Err(StepError::ConsistencyViolation)
    }
}

/// Judges the three parties' initialization outcomes: returns the agreed
/// proof and game-state commitment, or the exact rejection that
/// `spec_reconcile_init` gives.
pub fn reconcile_init_game(
    r0: &Result<InitGameResponse, PartyCallError>,
    r1: &Result<InitGameResponse, PartyCallError>,
    r2: &Result<InitGameResponse, PartyCallError>,
) -> (out: Result<InitGameResponse, StepError>)
    ensures
        out matches Ok(v) ==> spec_reconcile_init(*r0, *r1, *r2) == Ok::<
            (Seq<u8>, Seq<u8>),
            StepError,
        >((v.proof_bytes@, v.game_state_c@)),
        out matches Err(e) ==> spec_reconcile_init(*r0, *r1, *r2) == Err::<
            (Seq<u8>, Seq<u8>),
            StepError,
        >(e),
{
    let a = match r0 {
        Ok(a) => a,
        Err(_) => {
            return Err(StepError::RemoteError);
        },
    };
    let b = match r1 {
        Ok(b) => b,
        Err(_) => {
            return Err(StepError::RemoteError);
        },
    };
    let c = match r2 {
        Ok(c) => c,
        Err(_) => {
            return Err(StepError::RemoteError);
        },
    };
    if bytes_eq(&a.proof_bytes, &b.proof_bytes) && bytes_eq(&b.proof_bytes, &c.proof_bytes)
        && bytes_eq(&a.game_state_c, &b.game_state_c) && bytes_eq(
        &b.game_state_c,
        &c.game_state_c,
    ) {
        Ok(
            InitGameResponse {
                proof_bytes: clone_bytes(&a.proof_bytes),
                game_state_c: clone_bytes(&a.game_state_c),
            },
        )
    } else {
        Err(StepError::ConsistencyViolation)
    }
}

/// Judges the three parties' reveal outcomes: returns the agreed public
/// output, or the exact rejection that `spec_reconcile_reveal` gives.
pub fn reconcile_reveal_door(
    r0: &Result<RevealDoorResponse, PartyCallError>,
    r1: &Result<RevealDoorResponse, PartyCallError>,
    r2: &Result<RevealDoorResponse, PartyCallError>,
) -> (out: Result<Vec<u8>, StepError>)
    ensures
        out matches Ok(v) ==> spec_reconcile_reveal(*r0, *r1, *r2) == Ok::<Seq<u8>, StepError>(v@),
        out matches Err(e) ==> spec_reconcile_reveal(*r0, *r1, *r2) == Err::<Seq<u8>, StepError>(e),
{
    let a = match r0 {
        Ok(a) => a,
        Err(_) => {
            return Err(StepError::RemoteError);
        },
    };
    let b = match r1 {
        Ok(b) => b,
        Err(_) => {
            return Err(StepError::RemoteError);
        },
    };
    let c = match r2 {
        Ok(c) => c,
        Err(_) => {
            return Err(StepError::RemoteError);
        },
    };
    if bytes_eq(&a.payload, &b.payload) && bytes_eq(&b.payload, &c.payload) {
        Ok(clone_bytes(&a.payload))
    } else {
        Err(StepError::ConsistencyViolation)
    }
}

/// The coordinator's record of what the current epoch has accepted for
/// onward submission: the agreed seed commitment once sampling committed,
/// and the agreed proof and game-state commitment once initialization was
/// finalized.  Secret shares never appear here: the coordinator only ever
/// sees public values and opaque proof bytes.
pub struct Coordinator {
    pub committed_seed_c: Option<Vec<u8>>,
    pub finalized_init: Option<InitGameResponse>,
}

impl Coordinator {
    /// A fresh coordinator: nothing accepted yet.
    pub fn new() -> (r: Self)
        ensures
            r.committed_seed_c is None,
            r.finalized_init is None,
    {
        Self { committed_seed_c: None, finalized_init: None }
    }

    /// The sampling step: judges the three outcomes and, only on unanimous
    /// agreement, commits the agreed commitment as the step's output.  On
    /// any rejection the coordinator is unchanged and nothing downstream
    /// sees the step.
    pub fn sample_randomness(
        &mut self,
        r0: &Result<SampleRandResponse, PartyCallError>,
        r1: &Result<SampleRandResponse, PartyCallError>,
        r2: &Result<SampleRandResponse, PartyCallError>,
    ) -> (out: Result<Vec<u8>, StepError>)
        ensures
            out matches Ok(v) ==> {
                &&& spec_reconcile_sample(*r0, *r1, *r2) == Ok::<Seq<u8>, StepError>(v@)
                &&& final(self).committed_seed_c matches Some(s) && s@ == v@
                &&& final(self).finalized_init == old(self).finalized_init
            },
            out matches Err(e) ==> {
                &&& spec_reconcile_sample(*r0, *r1, *r2) == Err::<Seq<u8>, StepError>(e)
                &&& *final(self) == *old(self)
            },
    {
        match reconcile_sample_rand(r0, r1, r2) {
            Ok(v) => {
                self.committed_seed_c = Some(clone_bytes(&v));
                Ok(v)
            },
            Err(e) => Err(e),
        }
    }

    /// Finalizes the initialization step from the agreed public outputs and
    /// the verdict of external proof verification.  A proof that does not
    /// verify rejects the step: nothing is finalized for onward submission.
    pub fn finalize_init_game(&mut self, agreed: InitGameResponse, proof_valid: bool) -> (out:
        Result<(), StepError>)
        ensures
            proof_valid ==> {
                &&& out == Ok::<(), StepError>(())
                &&& final(self).finalized_init == Some(agreed)
                &&& final(self).committed_seed_c == old(self).committed_seed_c
            },
            !proof_valid ==> {
                &&& out == Err::<(), StepError>(StepError::ProofRejected)
                &&& *final(self) == *old(self)
            },
    {
        if proof_valid {
            self.finalized_init = Some(agreed);
            Ok(())
        } else {
            Err(StepError::ProofRejected)
        }
    }
}

/// Unanimity law: when every party's sampling call succeeded and all three
/// reported commitments are bit-identical, the step is accepted and the
/// accepted commitment equals every party's reported one.
pub proof fn lemma_sample_accepts_unanimous(
    r0: Result<SampleRandResponse, PartyCallError>,
    r1: Result<SampleRandResponse, PartyCallError>,
    r2: Result<SampleRandResponse, PartyCallError>,
)
    requires
        r0 is Ok && r1 is Ok && r2 is Ok,
        sample_outputs_agree(r0.unwrap(), r1.unwrap(), r2.unwrap()),
    ensures
        spec_reconcile_sample(r0, r1, r2) == Ok::<Seq<u8>, StepError>(r0.unwrap().seed_c@),
        r0.unwrap().seed_c@ == r1.unwrap().seed_c@,
        r0.unwrap().seed_c@ == r2.unwrap().seed_c@,
{
}

/// Persistence law for the sampling step: each party answers with the
/// commitment of the randomness record it has just persisted — that is
/// the contract of the node's sampling step — so when the three answers
/// agree and the step is accepted, the accepted commitment equals the one
/// in every party's persisted record.
pub proof fn lemma_sample_accepts_persisted_commitment(
    r0: Result<SampleRandResponse, PartyCallError>,
    r1: Result<SampleRandResponse, PartyCallError>,
    r2: Result<SampleRandResponse, PartyCallError>,
    row0: RootRandomnessSerialized,
    row1: RootRandomnessSerialized,
    row2: RootRandomnessSerialized,
)
    requires
        r0 is Ok && r1 is Ok && r2 is Ok,
        r0.unwrap().seed_c@ == row0.seed_c@,
        r1.unwrap().seed_c@ == row1.seed_c@,
        r2.unwrap().seed_c@ == row2.seed_c@,
        sample_outputs_agree(r0.unwrap(), r1.unwrap(), r2.unwrap()),
    ensures
        spec_reconcile_sample(r0, r1, r2) == Ok::<Seq<u8>, StepError>(row0.seed_c@),
        row0.seed_c@ == row1.seed_c@,
        row0.seed_c@ == row2.seed_c@,
{
}

/// Disagreement law: when every party's sampling call succeeded but one
/// reported commitment differs from the others, the step is rejected as a
/// consistency violation — and by the contract of `sample_randomness` the
/// coordinator then commits nothing.
pub proof fn lemma_sample_rejects_disagreement(
    r0: Result<SampleRandResponse, PartyCallError>,
    r1: Result<SampleRandResponse, PartyCallError>,
    r2: Result<SampleRandResponse, PartyCallError>,
)
    requires
        r0 is Ok && r1 is Ok && r2 is Ok,
        !sample_outputs_agree(r0.unwrap(), r1.unwrap(), r2.unwrap()),
    ensures
        spec_reconcile_sample(r0, r1, r2) == Err::<Seq<u8>, StepError>(
            StepError::ConsistencyViolation,
        ),
{
}

} // verus!
