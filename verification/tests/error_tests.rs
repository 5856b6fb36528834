use monty_hall_mpc::data::bytes_eq;
use monty_hall_mpc::data::DataError;
use monty_hall_mpc::data::PublicValue;
use monty_hall_mpc::data::SecretShare;
use monty_hall_mpc::data::FIELD_BYTES;
use monty_hall_mpc::data::SHARE_BYTES;
use monty_hall_mpc::error::ApiError;
use monty_hall_mpc::error::ApiErrors;
use monty_hall_mpc::node::NodeError;
use monty_hall_mpc::error::api_error_of_node;

#[test]
fn status_codes_follow_the_taxonomy() {
    assert_eq!(ApiErrors::Unauthorized.status_code(), 401);
    assert_eq!(ApiErrors::BadRequest(String::from("no such door")).status_code(), 400);
    assert_eq!(ApiErrors::InternalServerError(String::from("detail")).status_code(), 500);
    let explicit = ApiErrors::ExplicitError(ApiError::new(404, String::from("missing")));
    assert_eq!(explicit.status_code(), 404);
}

#[test]
fn explicit_errors_carry_their_message() {
    let e = ApiError::new(418, String::from("teapot"));
    assert_eq!(e.code, 418);
    assert_eq!(e.message.as_deref(), Some("teapot"));
}

#[test]
fn node_failures_surface_as_opaque_server_errors() {
    let api = api_error_of_node(&NodeError::Internal);
    assert_eq!(api.status_code(), 500);
    match api {
        ApiErrors::InternalServerError(m) => assert_eq!(m, "check logs something broke"),
        other => panic!("unexpected error {other:?}"),
    }
    let api = api_error_of_node(&NodeError::PreconditionFailed);
    assert_eq!(api.status_code(), 500);
}

#[test]
fn encodings_of_the_wrong_width_are_rejected() {
    assert_eq!(PublicValue::from_bytes(vec![0; FIELD_BYTES - 1]), Err(DataError::InvalidLength));
    assert_eq!(SecretShare::from_bytes(vec![0; SHARE_BYTES + 1]), Err(DataError::InvalidLength));
    assert!(PublicValue::from_bytes(vec![0; FIELD_BYTES]).is_ok());
    assert!(SecretShare::from_bytes(vec![0; SHARE_BYTES]).is_ok());
}

#[test]
fn byte_equality_is_exact() {
    assert!(bytes_eq(&vec![1, 2, 3], &vec![1, 2, 3]));
    assert!(!bytes_eq(&vec![1, 2, 3], &vec![1, 2, 4]));
    assert!(!bytes_eq(&vec![1, 2, 3], &vec![1, 2]));
    assert!(bytes_eq(&Vec::new(), &Vec::new()));
}
