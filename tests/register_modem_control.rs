use cc2420::register::{Register, ModemControlRegister0Builder, ModemControlRegister1Builder};

#[test]
fn test_reserved_frame_mode_value() {
    let modem_control_0 = ModemControlRegister0Builder::default()
        .reserved_frame_mode(true)
        .build()
        .unwrap();

    assert_eq!(
        modem_control_0.register_value(),
        0b00_1_0_1_010_11_1_0_0010,
    )
}

#[test]
fn test_pan_coordinator_value() {
    let modem_control_0 = ModemControlRegister0Builder::default()
        .pan_coordinator(true)
        .build()
        .unwrap();

    assert_eq!(
        modem_control_0.register_value(),
        0b00_0_1_1_010_11_1_0_0010,
    )
}

#[test]
fn test_adr_decode_value() {
    let modem_control_0 = ModemControlRegister0Builder::default()
        .adr_decode(false)
        .build()
        .unwrap();

    assert_eq!(
        modem_control_0.register_value(),
        0b00_0_0_0_010_11_1_0_0010,
    )
}

#[test]
fn test_cca_hyst_value() {
    let modem_control_0 = ModemControlRegister0Builder::default()
        .cca_hyst(3)
        .build()
        .unwrap();

    assert_eq!(
        modem_control_0.register_value(),
        0b00_0_0_1_011_11_1_0_0010,
    )
}

#[test]
fn test_cca_mode_value() {
    let modem_control_0 = ModemControlRegister0Builder::default()
        .cca_mode(1)
        .build()
        .unwrap();

    assert_eq!(
        modem_control_0.register_value(),
        0b00_0_0_1_010_01_1_0_0010,
    )
}

#[test]
fn test_auto_crc_value() {
    let modem_control_0 = ModemControlRegister0Builder::default()
        .auto_crc(false)
        .build()
        .unwrap();

    assert_eq!(
        modem_control_0.register_value(),
        0b00_0_0_1_010_11_0_0_0010,
    )
}

#[test]
fn test_auto_ack_value() {
    let modem_control_0 = ModemControlRegister0Builder::default()
        .auto_ack(true)
        .build()
        .unwrap();

    assert_eq!(
        modem_control_0.register_value(),
        0b00_0_0_1_010_11_1_1_0010,
    )
}

#[test]
fn test_preamble_length_value() {
    let modem_control_0 = ModemControlRegister0Builder::default()
        .preamble_length(5)
        .build()
        .unwrap();

    assert_eq!(
        modem_control_0.register_value(),
        0b00_0_0_1_010_11_1_0_0101,
    )
}

#[test]
fn test_modem_control_register_0_from_u16() {
    let value: u16 = 0b00_1_1_0_111_01_0_1_1111;

    let expected_modem_control_0 = ModemControlRegister0Builder::default()
        .reserved_frame_mode(true)
        .pan_coordinator(true)
        .adr_decode(false)
        .cca_hyst(7)
        .cca_mode(1)
        .auto_crc(false)
        .auto_ack(true)
        .preamble_length(15)
        .build()
        .unwrap();

    assert_eq!(
        expected_modem_control_0,
        value.into(),
    )
}

#[test]
fn test_correlation_threshold_value() {
    let modem_control_1 = ModemControlRegister1Builder::default()
        .corr_threshold(5)
        .build()
        .unwrap();

    assert_eq!(
        modem_control_1.register_value(),
        0b00000_00101_0_0_00_00,
    )
}

#[test]
fn test_demod_avg_mode_value() {
    let modem_control_1 = ModemControlRegister1Builder::default()
        .demod_average_mode(true)
        .build()
        .unwrap();

    assert_eq!(
        modem_control_1.register_value(),
        0b00000_10100_1_0_00_00,
    )
}

#[test]
fn test_modulation_mode_value() {
    let modem_control_1 = ModemControlRegister1Builder::default()
        .modulation_mode(true)
        .build()
        .unwrap();
    
    assert_eq!(
        modem_control_1.register_value(),
        0b00000_10100_0_1_00_00,
    )
}

#[test]
fn test_tx_mode_value() {
    let modem_control_1 = ModemControlRegister1Builder::default()
        .tx_mode(2)
        .build()
        .unwrap();

    assert_eq!(
        modem_control_1.register_value(),
        0b00000_10100_0_0_10_00,
    )
}

#[test]
fn test_rx_mode_value() {
    let modem_control_1 = ModemControlRegister1Builder::default()
        .rx_mode(2)
        .build()
        .unwrap();

    assert_eq!(
        modem_control_1.register_value(),
        0b00000_10100_0_0_00_10,
    )
}

#[test]
fn test_modem_control_register_1_from_u16() {
    let value: u16 = 0b00000_00011_1_1_01_01;

    let expected_modem_control_1 = ModemControlRegister1Builder::default()
        .corr_threshold(3)
        .demod_average_mode(true)
        .modulation_mode(true)
        .tx_mode(1)
        .rx_mode(1)
        .build()
        .unwrap();

    assert_eq!(
        expected_modem_control_1,
        value.into(),
    )
}
