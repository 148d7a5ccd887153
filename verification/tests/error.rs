use tmc_langs::error::ParamError;

#[test]
fn param_error_messages() {
    assert_eq!(ParamError::Empty.message(), "Parameter key/value was empty");
    assert_eq!(
        ParamError::InvalidChar('ä').message(),
        "Invalid character found in key/value: ä"
    );
}
