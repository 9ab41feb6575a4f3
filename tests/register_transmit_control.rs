use cc2420::register::{Register, TransmitControlRegisterBuilder};

#[test]
fn test_tx_mix_buffer_current_value() {
    let transmit_control = TransmitControlRegisterBuilder::default()
        .tx_mix_buffer_current(3)
        .build()
        .unwrap();

    assert_eq!(
        transmit_control.register_value(),
        0b11_1_00_00_011_1_11111,
    )
}

#[test]
fn test_tx_turnaround_value() {
    let transmit_control = TransmitControlRegisterBuilder::default()
        .tx_turnaround(false)
        .build()
        .unwrap();

    assert_eq!(
        transmit_control.register_value(),
        0b10_0_00_00_011_1_11111,
    )
}

#[test]
fn test_tx_mix_cap_array_value() {
    let transmit_control = TransmitControlRegisterBuilder::default()
        .tx_mix_cap_array(2)
        .build()
        .unwrap();

    assert_eq!(
        transmit_control.register_value(),
        0b10_1_10_00_011_1_11111,
    )
}

#[test]
fn test_tx_mix_current_value() {
    let transmit_control = TransmitControlRegisterBuilder::default()
        .tx_mix_current(1)
        .build()
        .unwrap();

    assert_eq!(
        transmit_control.register_value(),
        0b10_1_00_01_011_1_11111,
    )
}

#[test]
fn test_pa_current_value() {
    let transmit_control = TransmitControlRegisterBuilder::default()
        .pa_current(4)
        .build()
        .unwrap();

    assert_eq!(
        transmit_control.register_value(),
        0b10_1_00_00_100_1_11111,
    )
}

#[test]
fn test_pa_level_value() {
    let transmit_control = TransmitControlRegisterBuilder::default()
        .pa_level(7)
        .build()
        .unwrap();

    assert_eq!(
        transmit_control.register_value(),
        0b10_1_00_00_011_1_00111,
    )
}

#[test]
fn test_transmit_control_from_u16() {
    let value: u16 = 0b01_0_11_01_100_1_00111;

    let expected_transmit_control = TransmitControlRegisterBuilder::default()
        .tx_mix_buffer_current(1)
        .tx_turnaround(false)
        .tx_mix_cap_array(3)
        .tx_mix_current(1)
        .pa_current(4)
        .pa_level(7)
        .build()
        .unwrap();

    assert_eq!(
        expected_transmit_control,
        value.into()
    )
}
