//! One whole epoch, walked across three party-nodes and the coordinator:
//! sampling, initialization and reveal, with the public outputs agreeing
//! and the secret shares differing per party.

use monty_hall_mpc::coordinator::reconcile_init_game;
use monty_hall_mpc::coordinator::reconcile_reveal_door;
use monty_hall_mpc::coordinator::Coordinator;
use monty_hall_mpc::coordinator::PartyCallError;
use monty_hall_mpc::data::InitGameResponse;
use monty_hall_mpc::data::InitState;
use monty_hall_mpc::data::PublicValue;
use monty_hall_mpc::data::RevealDoorResponse;
use monty_hall_mpc::data::RootRandomness;
use monty_hall_mpc::data::SampleRandResponse;
use monty_hall_mpc::data::SecretShare;
use monty_hall_mpc::data::FIELD_BYTES;
use monty_hall_mpc::data::SHARE_BYTES;
use monty_hall_mpc::node::PartyNodeService;

fn share(fill: u8) -> SecretShare {
    SecretShare::from_bytes(vec![fill; SHARE_BYTES]).unwrap()
}

fn value(fill: u8) -> PublicValue {
    PublicValue::from_bytes(vec![fill; FIELD_BYTES]).unwrap()
}

/// The engine's sampling outcome for one party: its own shares, the same
/// public commitment for everyone.
fn sampled(party: u8, commitment: u8) -> RootRandomness {
    RootRandomness { seed: share(party), seed_r: share(party + 10), seed_c: value(commitment) }
}

#[test]
fn a_full_epoch_reaches_the_reveal() {
    let mut nodes = [PartyNodeService::new(), PartyNodeService::new(), PartyNodeService::new()];
    let mut coordinator = Coordinator::new();

    // sampling: every party persists its own shares and answers with the
    // joint public commitment
    let mut responses: Vec<Result<SampleRandResponse, PartyCallError>> = Vec::new();
    for (i, node) in nodes.iter_mut().enumerate() {
        let commitment = node.sample_rand(Ok(sampled(i as u8, 0xC1))).unwrap();
        responses.push(Ok(SampleRandResponse { seed_c: commitment.bytes }));
    }
    let accepted =
        coordinator.sample_randomness(&responses[0], &responses[1], &responses[2]).unwrap();

    // the accepted commitment is the one in every party's persisted record
    for node in &nodes {
        let stored = node.init_game_begin().unwrap();
        assert_eq!(stored.seed_c.bytes, accepted);
    }
    assert_eq!(coordinator.committed_seed_c.as_ref().unwrap(), &accepted);

    // initialization: every party loads its randomness, runs the circuit,
    // and answers with the same proof and game-state commitment
    let mut responses: Vec<Result<InitGameResponse, PartyCallError>> = Vec::new();
    for (i, node) in nodes.iter_mut().enumerate() {
        let root = node.init_game_begin().unwrap();
        assert_eq!(root.seed.bytes, vec![i as u8; SHARE_BYTES]);
        let outcome = InitState {
            proof_bytes: vec![0xAB; 96],
            game_state_r: share(i as u8 + 20),
            game_state_c: value(0xC2),
        };
        responses.push(node.init_game_complete(Ok(outcome)).map_err(|_| unreachable!()));
    }
    let agreed = reconcile_init_game(&responses[0], &responses[1], &responses[2]).unwrap();
    coordinator.finalize_init_game(agreed, true).unwrap();
    assert_eq!(
        coordinator.finalized_init.as_ref().unwrap().game_state_c,
        vec![0xC2; FIELD_BYTES]
    );

    // reveal: every party loads its init state and answers with the same
    // public output
    let mut responses: Vec<Result<RevealDoorResponse, PartyCallError>> = Vec::new();
    for node in nodes.iter_mut() {
        let init = node.reveal_door_begin().unwrap();
        assert_eq!(init.proof_bytes, vec![0xAB; 96]);
        let outcome = RevealDoorResponse { payload: vec![2] };
        responses.push(node.reveal_door_complete(Ok(outcome)).map_err(|_| unreachable!()));
    }
    let payload = reconcile_reveal_door(&responses[0], &responses[1], &responses[2]).unwrap();
    assert_eq!(payload, vec![2]);
}
