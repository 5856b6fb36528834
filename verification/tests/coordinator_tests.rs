use monty_hall_mpc::coordinator::reconcile_init_game;
use monty_hall_mpc::coordinator::reconcile_reveal_door;
use monty_hall_mpc::coordinator::reconcile_sample_rand;
use monty_hall_mpc::coordinator::Coordinator;
use monty_hall_mpc::coordinator::PartyCallError;
use monty_hall_mpc::coordinator::StepError;
use monty_hall_mpc::data::InitGameResponse;
use monty_hall_mpc::data::RevealDoorResponse;
use monty_hall_mpc::data::SampleRandResponse;
use monty_hall_mpc::error::api_error_of_step;
use monty_hall_mpc::error::ApiErrors;

type SampleResult = Result<SampleRandResponse, PartyCallError>;
type InitResult = Result<InitGameResponse, PartyCallError>;
type RevealResult = Result<RevealDoorResponse, PartyCallError>;

fn sample_ok(c: &[u8]) -> SampleResult {
    Ok(SampleRandResponse { seed_c: c.to_vec() })
}

fn init_ok(proof: &[u8], c: &[u8]) -> InitResult {
    Ok(InitGameResponse { proof_bytes: proof.to_vec(), game_state_c: c.to_vec() })
}

fn remote_failure<T>() -> Result<T, PartyCallError> {
    Err(PartyCallError::RemoteError(String::from("party reported an internal status")))
}

#[test]
fn unanimous_commitments_are_accepted() {
    let c = [7u8, 7, 7];
    let out = reconcile_sample_rand(&sample_ok(&c), &sample_ok(&c), &sample_ok(&c));
    assert_eq!(out.unwrap(), c.to_vec());
}

#[test]
fn one_differing_commitment_is_a_consistency_violation() {
    let c1 = [7u8, 7, 7];
    let c2 = [7u8, 7, 8];
    let out = reconcile_sample_rand(&sample_ok(&c1), &sample_ok(&c1), &sample_ok(&c2));
    assert_eq!(out.unwrap_err(), StepError::ConsistencyViolation);
    let out = reconcile_sample_rand(&sample_ok(&c1), &sample_ok(&c2), &sample_ok(&c1));
    assert_eq!(out.unwrap_err(), StepError::ConsistencyViolation);
    let out = reconcile_sample_rand(&sample_ok(&c2), &sample_ok(&c1), &sample_ok(&c1));
    assert_eq!(out.unwrap_err(), StepError::ConsistencyViolation);
}

#[test]
fn any_failed_party_call_fails_the_step() {
    let c = [7u8];
    let out = reconcile_sample_rand(&sample_ok(&c), &remote_failure(), &sample_ok(&c));
    assert_eq!(out.unwrap_err(), StepError::RemoteError);
    let out = reconcile_sample_rand(&Err(PartyCallError::MailboxClosed), &sample_ok(&c), &sample_ok(&c));
    assert_eq!(out.unwrap_err(), StepError::RemoteError);
}

#[test]
fn accepted_sampling_step_commits_the_agreed_value() {
    let mut coordinator = Coordinator::new();
    let c = [3u8, 1, 4];
    let out = coordinator.sample_randomness(&sample_ok(&c), &sample_ok(&c), &sample_ok(&c));
    assert_eq!(out.unwrap(), c.to_vec());
    assert_eq!(coordinator.committed_seed_c.unwrap(), c.to_vec());
}

#[test]
fn rejected_sampling_step_commits_nothing_and_is_a_server_error() {
    let mut coordinator = Coordinator::new();
    let c1 = [1u8];
    let c2 = [2u8];
    let out = coordinator.sample_randomness(&sample_ok(&c1), &sample_ok(&c1), &sample_ok(&c2));
    let err = out.unwrap_err();
    assert_eq!(err, StepError::ConsistencyViolation);
    assert!(coordinator.committed_seed_c.is_none());
    let api = api_error_of_step(&err);
    assert_eq!(api.status_code(), 500);
    assert!(matches!(api, ApiErrors::InternalServerError(_)));
}

#[test]
fn init_game_requires_agreement_on_proof_and_commitment() {
    let agreed = reconcile_init_game(
        &init_ok(&[1, 2], &[3]),
        &init_ok(&[1, 2], &[3]),
        &init_ok(&[1, 2], &[3]),
    )
    .unwrap();
    assert_eq!(agreed.proof_bytes, vec![1, 2]);
    assert_eq!(agreed.game_state_c, vec![3]);

    let out = reconcile_init_game(
        &init_ok(&[1, 2], &[3]),
        &init_ok(&[1, 9], &[3]),
        &init_ok(&[1, 2], &[3]),
    );
    assert_eq!(out.unwrap_err(), StepError::ConsistencyViolation);

    let out = reconcile_init_game(
        &init_ok(&[1, 2], &[3]),
        &init_ok(&[1, 2], &[3]),
        &init_ok(&[1, 2], &[4]),
    );
    assert_eq!(out.unwrap_err(), StepError::ConsistencyViolation);

    let out = reconcile_init_game(&init_ok(&[1], &[2]), &remote_failure(), &init_ok(&[1], &[2]));
    assert_eq!(out.unwrap_err(), StepError::RemoteError);
}

#[test]
fn finalization_requires_a_verifying_proof() {
    let mut coordinator = Coordinator::new();
    let agreed = InitGameResponse { proof_bytes: vec![1], game_state_c: vec![2] };
    let out = coordinator.finalize_init_game(agreed.clone(), false);
    assert_eq!(out.unwrap_err(), StepError::ProofRejected);
    assert!(coordinator.finalized_init.is_none());
    coordinator.finalize_init_game(agreed, true).unwrap();
    let finalized = coordinator.finalized_init.unwrap();
    assert_eq!(finalized.proof_bytes, vec![1]);
    assert_eq!(finalized.game_state_c, vec![2]);
}

#[test]
fn reveal_requires_agreement_on_the_public_output() {
    let a = RevealDoorResponse { payload: vec![5, 5] };
    let out = reconcile_reveal_door(&Ok(a.clone()), &Ok(a.clone()), &Ok(a.clone()));
    assert_eq!(out.unwrap(), vec![5, 5]);
    let b = RevealDoorResponse { payload: vec![5, 6] };
    let out = reconcile_reveal_door(&Ok(a.clone()), &Ok(b), &Ok(a));
    assert_eq!(out.unwrap_err(), StepError::ConsistencyViolation);
}

#[test]
fn step_errors_surface_with_their_own_messages() {
    match api_error_of_step(&StepError::RemoteError) {
        ApiErrors::InternalServerError(m) => assert_eq!(m, "a party call failed"),
        other => panic!("unexpected error {other:?}"),
    }
    match api_error_of_step(&StepError::ConsistencyViolation) {
        ApiErrors::InternalServerError(m) => {
            assert_eq!(m, "public outputs differ across parties")
        }
        other => panic!("unexpected error {other:?}"),
    }
    match api_error_of_step(&StepError::ProofRejected) {
        ApiErrors::InternalServerError(m) => assert_eq!(m, "proof verification failed"),
        other => panic!("unexpected error {other:?}"),
    }
}
