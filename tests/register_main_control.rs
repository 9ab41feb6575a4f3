use cc2420::register::{Register, MainControlRegisterBuilder};

#[test]
fn test_register_value_reset_n() {
    let main_control_register = MainControlRegisterBuilder::default()
        .reset_n(false)
        .build()
        .unwrap();

    assert_eq!(
        main_control_register.register_value(),
        0b01111000_00000000,
    )
}

#[test]
fn test_register_value_enc_reset_n() {
    let main_control_register = MainControlRegisterBuilder::default()
        .enc_reset_n(false)
        .build()
        .unwrap();

    assert_eq!(
        main_control_register.register_value(),
        0b10111000_00000000,
    )
}

#[test]
fn test_register_value_demod_reset_n() {
    let main_control_register = MainControlRegisterBuilder::default()
        .demod_reset_n(false)
        .build()
        .unwrap();

    assert_eq!(
        main_control_register.register_value(),
        0b11011000_00000000,
    )
}

#[test]
fn test_register_value_mod_reset_n() {
    let main_control_register = MainControlRegisterBuilder::default()
        .mod_reset_n(false)
        .build()
        .unwrap();

    assert_eq!(
        main_control_register.register_value(),
        0b11101000_00000000,
    )
}

#[test]
fn test_register_value_fs_reset_n() {
    let main_control_register = MainControlRegisterBuilder::default()
        .fs_reset_n(false)
        .build()
        .unwrap();

    assert_eq!(
        main_control_register.register_value(),
        0b11110000_00000000,
    )
}

#[test]
fn test_register_value_xosxc16m_bypass() {
    let main_control_register = MainControlRegisterBuilder::default()
        .xosc16m_bypass(true)
        .build()
        .unwrap();

    assert_eq!(
        main_control_register.register_value(),
        0b11111000_00000001,
    )
}

#[test]
fn test_main_control_from_u16() {
    let value: u16 = 0b00100000_00000001;

    let expected_register = MainControlRegisterBuilder::default()
        .reset_n(false)
        .enc_reset_n(false)
        .demod_reset_n(true)
        .mod_reset_n(false)
        .fs_reset_n(false)
        .xosc16m_bypass(true)
        .build()
        .unwrap();

    assert_eq!(
        expected_register,
        value.into(),
    )
}
