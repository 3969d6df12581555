use esp_i2c_hal::{ErrorKind, I2cError};
use esp_i2c_hal::error::{
    ESP_ERR_INVALID_ARG, ESP_ERR_INVALID_CRC, ESP_ERR_INVALID_MAC, ESP_ERR_INVALID_RESPONSE,
    ESP_ERR_INVALID_SIZE, ESP_ERR_INVALID_STATE, ESP_ERR_INVALID_VERSION, ESP_ERR_NOT_FINISHED,
    ESP_ERR_NOT_FOUND, ESP_ERR_NOT_SUPPORTED, ESP_ERR_NO_MEM, ESP_ERR_TIMEOUT, ESP_FAIL, ESP_OK,
};

#[test]
fn nack_code_maps_to_no_acknowledge() {
    assert_eq!(I2cError::from_native(ESP_FAIL).kind(), ErrorKind::NoAcknowledge);
}

#[test]
fn timeout_code_maps_to_timeout() {
    assert_eq!(I2cError::from_native(ESP_ERR_TIMEOUT).kind(), ErrorKind::Timeout);
}

#[test]
fn invalid_state_code_maps_to_bus() {
    assert_eq!(I2cError::from_native(ESP_ERR_INVALID_STATE).kind(), ErrorKind::Bus);
}

#[test]
fn every_defined_code_maps_to_some_kind() {
    // Totality over the native enumeration: every defined code yields a
    // kind, and the originating code is preserved in the result.
    let codes = [
        ESP_OK,
        ESP_FAIL,
        ESP_ERR_NO_MEM,
        ESP_ERR_INVALID_ARG,
        ESP_ERR_INVALID_STATE,
        ESP_ERR_INVALID_SIZE,
        ESP_ERR_NOT_FOUND,
        ESP_ERR_NOT_SUPPORTED,
        ESP_ERR_TIMEOUT,
        ESP_ERR_INVALID_RESPONSE,
        ESP_ERR_INVALID_CRC,
        ESP_ERR_INVALID_VERSION,
        ESP_ERR_INVALID_MAC,
        ESP_ERR_NOT_FINISHED,
    ];
    for code in codes {
        let e = I2cError::from_native(code);
        assert_eq!(e.native_code(), code);
        let _kind: ErrorKind = e.kind();
    }
}

#[test]
fn unknown_codes_degrade_to_other() {
    for code in [12345, -7, i32::MAX, i32::MIN, 0x200] {
        let e = I2cError::from_native(code);
        assert_eq!(e.kind(), ErrorKind::Other);
        assert_eq!(e.native_code(), code);
    }
}

#[test]
fn success_code_is_not_a_recognised_failure() {
    assert_eq!(I2cError::from_native(ESP_OK).kind(), ErrorKind::Other);
    assert_eq!(I2cError::from_native(ESP_OK).native_code(), 0);
}
