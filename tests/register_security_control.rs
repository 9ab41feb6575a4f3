use cc2420::register::{Register, SecurityControlRegister0Builder, SecurityControlRegister1Builder};

#[test]
fn test_rx_fifo_protection_value() {
    let security_control = SecurityControlRegister0Builder::default()
        .rx_fifo_protection(false)
        .build()
        .unwrap();

    assert_eq!(
        security_control.register_value(),
        0b0_1_1_1_0_001_00,
    )
}

#[test]
fn test_sec_cbc_head_value() {
    let security_control = SecurityControlRegister0Builder::default()
        .sec_cbc_head(false)
        .build()
        .unwrap();

    assert_eq!(
        security_control.register_value(),
        0b1_0_1_1_0_001_00,
    )
}

#[test]
fn test_sec_sa_key_sel_value() {
    let security_control = SecurityControlRegister0Builder::default()
        .sec_sa_key_sel(false)
        .build()
        .unwrap();

    assert_eq!(
        security_control.register_value(),
        0b1_1_0_1_0_001_00,
    )
}

#[test]
fn test_tx_key_sel_value() {
    let security_control = SecurityControlRegister0Builder::default()
        .sec_tx_key_sel(false)
        .build()
        .unwrap();

    assert_eq!(
        security_control.register_value(),
        0b1_1_1_0_0_001_00,
    )
}

#[test]
fn test_rx_key_sel_value() {
    let security_control = SecurityControlRegister0Builder::default()
        .sec_rx_key_sel(true)
        .build()
        .unwrap();

    assert_eq!(
        security_control.register_value(),
        0b1_1_1_1_1_001_00,
    )
}

#[test]
fn test_sec_m_value() {
    let security_control = SecurityControlRegister0Builder::default()
        .sec_m(7)
        .build()
        .unwrap();

    assert_eq!(
        security_control.register_value(),
        0b1_1_1_1_0_111_00,
    )
}

#[test]
fn test_sec_mode_value() {
    let security_control = SecurityControlRegister0Builder::default()
        .sec_mode(3)
        .build()
        .unwrap();

    assert_eq!(
        security_control.register_value(),
        0b1_1_1_1_0_001_11,
    )
}

#[test]
fn test_security_control_from_u16() {
    let value: u16 = 0b0_0_0_0_1_110_11;

    let expected_security_control = SecurityControlRegister0Builder::default()
        .rx_fifo_protection(false)
        .sec_cbc_head(false)
        .sec_sa_key_sel(false)
        .sec_tx_key_sel(false)
        .sec_rx_key_sel(true)
        .sec_m(6)
        .sec_mode(3)
        .build()
        .unwrap();

    assert_eq!(
        expected_security_control,
        value.into(),
    )
}

#[test]
fn test_sec_txl_value() {
    let security_control = SecurityControlRegister1Builder::default()
        .sec_txl(5)
        .build()
        .unwrap();

    assert_eq!(
        security_control.register_value(),
        0b0_0000101_0000_0000,
    )
}

#[test]
fn test_sec_rxl_value() {
    let security_control = SecurityControlRegister1Builder::default()
        .sec_rxl(5)
        .build()
        .unwrap();

    assert_eq!(
        security_control.register_value(),
        0b0_0000000_0_0000101,
    )
}

#[test]
fn test_security_control_1_from_u16() {
    let value: u16 = 0b0_1111111_0_1111111;

    let expected_security_control = SecurityControlRegister1Builder::default()
        .sec_txl(0x7F)
        .sec_rxl(0x7F)
        .build()
        .unwrap();

    assert_eq!(
        expected_security_control,
        value.into(),
    )
}
