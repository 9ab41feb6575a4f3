use cc2420::register::{Register, ReceiveControlRegister0Builder, ReceiveControlRegister1Builder};

#[test]
fn test_rx_mix_buf_current_value() {
    let rx_control_0 = ReceiveControlRegister0Builder::default()
        .rx_mix_buf_current(3)
        .build()
        .unwrap();

    assert_eq!(
        rx_control_0.register_value(),
        0b00_11_00_10_11_10_01_01,
    )
}

#[test]
fn test_high_lna_gain_value() {
    let rx_control_0 = ReceiveControlRegister0Builder::default()
        .high_lna_gain(3)
        .build()
        .unwrap();

    assert_eq!(
        rx_control_0.register_value(),
        0b00_01_11_10_11_10_01_01,
    )
}

#[test]
fn test_med_lna_gain_value() {
    let rx_control_0 = ReceiveControlRegister0Builder::default()
        .med_lna_gain(0)
        .build()
        .unwrap();

    assert_eq!(
        rx_control_0.register_value(),
        0b00_01_00_00_11_10_01_01,
    )
}

#[test]
fn test_low_lna_gain_value() {
    let rx_control_0 = ReceiveControlRegister0Builder::default()
        .low_lna_gain(0)
        .build()
        .unwrap();

    assert_eq!(
        rx_control_0.register_value(),
        0b00_01_00_10_00_10_01_01,
    )
}

#[test]
fn test_high_lna_current_value() {
    let rx_control_0 = ReceiveControlRegister0Builder::default()
        .high_lna_current(0)
        .build()
        .unwrap();

    assert_eq!(
        rx_control_0.register_value(),
        0b00_01_00_10_11_00_01_01,
    )
}

#[test]
fn test_med_lna_current_value() {
    let rx_control_0 = ReceiveControlRegister0Builder::default()
        .med_lna_current(2)
        .build()
        .unwrap();

    assert_eq!(
        rx_control_0.register_value(),
        0b00_01_00_10_11_10_10_01,
    )
}

#[test]
fn test_low_ln_current_value() {
    let rx_control_0 = ReceiveControlRegister0Builder::default()
        .low_lna_current(2)
        .build()
        .unwrap();

    assert_eq!(
        rx_control_0.register_value(),
        0b00_01_00_10_11_10_01_10,
    )
}

#[test]
fn test_rx_control_0_from_u16() {
    let value = 0b00_10_11_00_01_01_10_10;

    let expected_rx_control = ReceiveControlRegister0Builder::default()
        .rx_mix_buf_current(2)
        .high_lna_gain(3)
        .med_lna_gain(0)
        .low_lna_gain(1)
        .high_lna_current(1)
        .med_lna_current(2)
        .low_lna_current(2)
        .build()
        .unwrap();

    assert_eq!(
        expected_rx_control,
        value.into()
    )
}

#[test]
fn test_rxbpf_locur_value() {
    let rx_control_1 = ReceiveControlRegister1Builder::default()
        .rxbpf_locur(false)
        .build()
        .unwrap();

    assert_eq!(
        rx_control_1.register_value(),
        0b00_0_0_1_0_1_0_01_01_01_10,
    )
}

#[test]
fn test_rxbpf_midcur_value() {
    let rx_control_1 = ReceiveControlRegister1Builder::default()
        .rxbpf_midcur(true)
        .build()
        .unwrap();

    assert_eq!(
        rx_control_1.register_value(),
        0b00_1_1_1_0_1_0_01_01_01_10,
    )
}

#[test]
fn test_low_lowgain_value() {
    let rx_control_1 = ReceiveControlRegister1Builder::default()
        .low_lowgain(false)
        .build()
        .unwrap();

    assert_eq!(
        rx_control_1.register_value(),
        0b00_1_0_0_0_1_0_01_01_01_10,
    )
}

#[test]
fn test_med_lowgain_value() {
    let rx_control_1 = ReceiveControlRegister1Builder::default()
        .med_lowgain(true)
        .build()
        .unwrap();

    assert_eq!(
        rx_control_1.register_value(),
        0b00_1_0_1_1_1_0_01_01_01_10,
    )
}

#[test]
fn test_high_hgm_value() {
    let rx_control_1 = ReceiveControlRegister1Builder::default()
        .high_hgm(false)
        .build()
        .unwrap();

    assert_eq!(
        rx_control_1.register_value(),
        0b00_1_0_1_0_0_0_01_01_01_10,
    )
}

#[test]
fn test_med_hgm_value() {
    let rx_control_1 = ReceiveControlRegister1Builder::default()
        .med_hgm(true)
        .build()
        .unwrap();

    assert_eq!(
        rx_control_1.register_value(),
        0b00_1_0_1_0_1_1_01_01_01_10,
    )
}

#[test]
fn test_lna_cap_array_value() {
    let rx_control_1 = ReceiveControlRegister1Builder::default()
        .lna_cap_array(2)
        .build()
        .unwrap();

    assert_eq!(
        rx_control_1.register_value(),
        0b00_1_0_1_0_1_0_10_01_01_10,
    )
}

#[test]
fn test_rxmix_tail_value() {
    let rx_control_1 = ReceiveControlRegister1Builder::default()
        .rxmix_tail(2)
        .build()
        .unwrap();

    assert_eq!(
        rx_control_1.register_value(),
        0b00_1_0_1_0_1_0_01_10_01_10,
    )
}

#[test]
fn test_rxmix_vcm_value() {
    let rx_control_1 = ReceiveControlRegister1Builder::default()
        .rxmix_vcm(2)
        .build()
        .unwrap();

    assert_eq!(
        rx_control_1.register_value(),
        0b00_1_0_1_0_1_0_01_01_10_10,
    )
}

#[test]
fn test_rxmix_current_value() {
    let rx_control_1 = ReceiveControlRegister1Builder::default()
        .rxmix_current(1)
        .build()
        .unwrap();

    assert_eq!(
        rx_control_1.register_value(),
        0b00_1_0_1_0_1_0_01_01_01_01,
    )
}

#[test]
fn test_rx_control_1_from_u16() {
    let value: u16 = 0b00_110101_10_10_10_01;

    let expected_rx_control = ReceiveControlRegister1Builder::default()
        .rxbpf_locur(true)
        .rxbpf_midcur(true)
        .low_lowgain(false)
        .med_lowgain(true)
        .high_hgm(false)
        .med_hgm(true)
        .lna_cap_array(2)
        .rxmix_tail(2)
        .rxmix_vcm(2)
        .rxmix_current(1)
        .build()
        .unwrap();

    assert_eq!(
        expected_rx_control,
        value.into()
    )
}
