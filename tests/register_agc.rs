use cc2420::register::{Register, AGCControlRegisterBuilder};

#[test]
fn test_vga_gain_oe_value() {
    let agc_control = AGCControlRegisterBuilder::default()
        .vga_gain_oe(true)
        .build()
        .unwrap();

    assert_eq!(
        agc_control.register_value(),
        0b1_1111111_00_00,
    )
}

#[test]
fn test_vga_gain_value() {
    let agc_control = AGCControlRegisterBuilder::default()
        .vga_gain(0)
        .build()
        .unwrap();

    assert_eq!(
        agc_control.register_value(),
        0b0_0000000_00_00,
    )
}

#[test]
fn test_lnamix_gainmode_o_value() {
    let agc_control = AGCControlRegisterBuilder::default()
        .lnamix_gainmode_o(1)
        .build()
        .unwrap();

    assert_eq!(
        agc_control.register_value(),
        0b0_1111111_01_00,
    )
}

#[test]
fn test_agc_control_from_u16() {
    let value = 0b1_0000000_11_00;

    let expected_agc_control = AGCControlRegisterBuilder::default()
        .vga_gain_oe(true)
        .vga_gain(0)
        .lnamix_gainmode_o(3)
        .lnamix_gainmode(0)
        .build()
        .unwrap();

    assert_eq!(
        expected_agc_control,
        value.into(),
    )
}
