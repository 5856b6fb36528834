use monty_hall_mpc::data::InitState;
use monty_hall_mpc::data::PublicValue;
use monty_hall_mpc::data::RootRandomness;
use monty_hall_mpc::data::SecretShare;
use monty_hall_mpc::data::FIELD_BYTES;
use monty_hall_mpc::data::SHARE_BYTES;
use monty_hall_mpc::store::InitStateSerialized;
use monty_hall_mpc::store::ProtocolStateStore;
use monty_hall_mpc::store::RootRandomnessSerialized;
use monty_hall_mpc::store::StoreError;

fn share(fill: u8) -> SecretShare {
    SecretShare::from_bytes(vec![fill; SHARE_BYTES]).unwrap()
}

fn value(fill: u8) -> PublicValue {
    PublicValue::from_bytes(vec![fill; FIELD_BYTES]).unwrap()
}

fn randomness(a: u8, b: u8, c: u8) -> RootRandomness {
    RootRandomness { seed: share(a), seed_r: share(b), seed_c: value(c) }
}

fn init_state(proof: Vec<u8>, r: u8, c: u8) -> InitState {
    InitState { proof_bytes: proof, game_state_r: share(r), game_state_c: value(c) }
}

#[test]
fn fresh_rows_are_empty() {
    let row = RootRandomnessSerialized::new();
    assert!(row.seed.is_empty());
    assert!(row.seed_r.is_empty());
    assert!(row.seed_c.is_empty());
    let row = InitStateSerialized::new();
    assert!(row.proof_bytes.is_empty());
    assert!(row.game_state_r.is_empty());
    assert!(row.game_state_c.is_empty());
}

#[test]
fn load_before_store_is_not_found() {
    let store = ProtocolStateStore::new();
    assert_eq!(store.load_randomness().unwrap_err(), StoreError::NotFound);
    assert_eq!(store.load_init_state().unwrap_err(), StoreError::NotFound);
}

#[test]
fn randomness_round_trip_is_bit_identical() {
    let mut store = ProtocolStateStore::new();
    let v = randomness(1, 2, 3);
    let commitment = store.store_randomness(v.clone()).unwrap();
    assert_eq!(commitment.bytes, v.seed_c.bytes);
    let loaded = store.load_randomness().unwrap();
    assert_eq!(loaded.seed.bytes, v.seed.bytes);
    assert_eq!(loaded.seed_r.bytes, v.seed_r.bytes);
    assert_eq!(loaded.seed_c.bytes, v.seed_c.bytes);
}

#[test]
fn init_state_round_trip_is_bit_identical() {
    let mut store = ProtocolStateStore::new();
    let v = init_state(vec![9, 8, 7, 6, 5], 4, 5);
    let row = store.store_init_state(v.clone()).unwrap();
    assert_eq!(row.proof_bytes, v.proof_bytes);
    let loaded = store.load_init_state().unwrap();
    assert_eq!(loaded.proof_bytes, v.proof_bytes);
    assert_eq!(loaded.game_state_r.bytes, v.game_state_r.bytes);
    assert_eq!(loaded.game_state_c.bytes, v.game_state_c.bytes);
}

#[test]
fn empty_proof_round_trips() {
    let mut store = ProtocolStateStore::new();
    let v = init_state(Vec::new(), 1, 2);
    store.store_init_state(v).unwrap();
    assert!(store.load_init_state().unwrap().proof_bytes.is_empty());
}

#[test]
fn storing_randomness_replaces_the_prior_value() {
    let mut store = ProtocolStateStore::new();
    store.store_randomness(randomness(1, 2, 3)).unwrap();
    store.store_randomness(randomness(4, 5, 6)).unwrap();
    let loaded = store.load_randomness().unwrap();
    assert_eq!(loaded.seed.bytes, vec![4u8; SHARE_BYTES]);
    assert_eq!(loaded.seed_r.bytes, vec![5u8; SHARE_BYTES]);
    assert_eq!(loaded.seed_c.bytes, vec![6u8; FIELD_BYTES]);
}

#[test]
fn storing_randomness_keeps_the_init_state() {
    let mut store = ProtocolStateStore::new();
    store.store_init_state(init_state(vec![1], 2, 3)).unwrap();
    store.store_randomness(randomness(7, 8, 9)).unwrap();
    assert_eq!(store.load_init_state().unwrap().proof_bytes, vec![1]);
}

#[test]
fn corrupt_rows_are_rejected_on_read() {
    let row = RootRandomnessSerialized {
        seed: vec![0; SHARE_BYTES - 1],
        seed_r: vec![0; SHARE_BYTES],
        seed_c: vec![0; FIELD_BYTES],
    };
    assert_eq!(RootRandomness::from_row(row).unwrap_err(), StoreError::CorruptRecord);
    let row = InitStateSerialized {
        proof_bytes: Vec::new(),
        game_state_r: vec![0; SHARE_BYTES],
        game_state_c: vec![0; FIELD_BYTES + 1],
    };
    assert_eq!(InitState::from_row(row).unwrap_err(), StoreError::CorruptRecord);
}

#[test]
fn row_serialization_moves_each_field() {
    let v = randomness(10, 11, 12);
    let row = v.to_row();
    assert_eq!(row.seed, vec![10u8; SHARE_BYTES]);
    assert_eq!(row.seed_r, vec![11u8; SHARE_BYTES]);
    assert_eq!(row.seed_c, vec![12u8; FIELD_BYTES]);
    let back = RootRandomness::from_row(row).unwrap();
    assert_eq!(back.seed.bytes, vec![10u8; SHARE_BYTES]);
}
