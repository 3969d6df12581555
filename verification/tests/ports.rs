use esp_i2c_hal::{ClaimedPort, DriverArbiter, DriverFamily, I2c, I2C0, I2C1};

#[test]
fn port_indices_are_fixed_per_identity() {
    assert_eq!(I2C0::port(), 0);
    assert_eq!(I2C1::port(), 1);
}

#[test]
fn claiming_a_port_consumes_the_identity() {
    let mut arbiter = DriverArbiter::new();
    let i2c0 = I2C0::new();
    let handle = ClaimedPort::claim(i2c0, &mut arbiter, DriverFamily::Legacy)
        .unwrap_or_else(|_| panic!("fresh claim must be accepted"));
    assert_eq!(handle.port(), 0);
}

#[test]
fn conflicting_claim_returns_the_identity() {
    let mut arbiter = DriverArbiter::new();
    let i2c0 = I2C0::new();
    let _legacy = ClaimedPort::claim(i2c0, &mut arbiter, DriverFamily::Legacy)
        .unwrap_or_else(|_| panic!("fresh claim must be accepted"));
    // A modern-family claim of the other port now hits the process-wide
    // conflict and hands the untouched identity back.
    let i2c1 = I2C1::new();
    match ClaimedPort::claim(i2c1, &mut arbiter, DriverFamily::Modern) {
        Ok(_) => panic!("modern claim after a legacy claim must be rejected"),
        Err(identity) => {
            // The identity is still usable for a correctly-arbitrated claim.
            let handle = ClaimedPort::claim(identity, &mut arbiter, DriverFamily::Legacy)
                .unwrap_or_else(|_| panic!("same-family claim must be accepted"));
            assert_eq!(handle.port(), 1);
        }
    }
}

#[test]
fn both_ports_can_be_claimed_under_one_family() {
    let mut arbiter = DriverArbiter::new();
    let h0 = ClaimedPort::claim(I2C0::new(), &mut arbiter, DriverFamily::Modern)
        .unwrap_or_else(|_| panic!("fresh claim must be accepted"));
    let h1 = ClaimedPort::claim(I2C1::new(), &mut arbiter, DriverFamily::Modern)
        .unwrap_or_else(|_| panic!("same-family claim must be accepted"));
    assert_eq!(h0.port(), 0);
    assert_eq!(h1.port(), 1);
}
