use ftsov2mon::mon_error::MonError;
use ftsov2mon::runtime_config::RuntimeConfig;

fn valid_config() -> RuntimeConfig {
    RuntimeConfig {
        tg_api_key: String::new(),
        tg_chat_id: String::new(),
        rpc_url: String::from("http://localhost:9650"),
        block_window: 100,
        submit_address: b"0x1234567890abcdefABCDEF1234567890abcdef12".to_vec(),
        submit_signature_address: b"0xcccccccccccccccccccccccccccccccccccccccc".to_vec(),
        signing_policy_address: b"0xaaaaaaaaaaaaaaaaaaaaaaaaaaaaaaaaaaaaaaaa".to_vec(),
    }
}

#[test]
fn every_engine_error_is_an_internal_server_error() {
    assert_eq!(MonError::InternalServerError.status_code(), 500);
    assert_eq!(MonError::RpcClientError(String::from("down")).status_code(), 500);
    assert_eq!(MonError::UnableToUnwrapSyncInfo.status_code(), 500);
    assert_eq!(MonError::ConversionError(String::from("bad hex")).status_code(), 500);
    assert_eq!(MonError::EncodeError(String::from("buffer")).status_code(), 500);
    assert_eq!(MonError::IOError(String::from("pipe")).status_code(), 500);
    assert_eq!(MonError::RegisterError(String::from("duplicate")).status_code(), 500);
    assert_eq!(MonError::ResponseError(String::from("body")).status_code(), 500);
    assert_eq!(MonError::DeserializationError(String::from("json")).status_code(), 500);
}

#[test]
fn a_well_formed_configuration_is_accepted() {
    assert!(valid_config().validate().is_ok());
}

#[test]
fn a_malformed_address_is_a_conversion_error() {
    let mut cfg = valid_config();
    cfg.submit_address = b"0x12345".to_vec();
    match cfg.validate() {
        Err(MonError::ConversionError(_)) => {}
        _ => panic!("a short address must be rejected"),
    }
    let mut cfg = valid_config();
    cfg.signing_policy_address = b"0xzzaaaaaaaaaaaaaaaaaaaaaaaaaaaaaaaaaaaaaa".to_vec();
    match cfg.validate() {
        Err(MonError::ConversionError(_)) => {}
        _ => panic!("a non-hex address must be rejected"),
    }
}

#[test]
fn a_zero_block_window_is_rejected() {
    let mut cfg = valid_config();
    cfg.block_window = 0;
    assert!(cfg.validate().is_err());
}

#[test]
fn address_validation() {
    assert!(ftsov2mon::address::valid_address(
        &b"0x1234567890abcdefABCDEF1234567890abcdef12".to_vec()
    ));
    assert!(!ftsov2mon::address::valid_address(&b"".to_vec()));
    assert!(!ftsov2mon::address::valid_address(
        &b"1x1234567890abcdefABCDEF1234567890abcdef12".to_vec()
    ));
}
