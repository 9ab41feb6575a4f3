use cc2420::register::{Register, RSSIRegisterBuilder};

#[test]
fn test_cca_value() {
    let rssi_register = RSSIRegisterBuilder::default()
        .cca_threshold(-22)
        .build()
        .unwrap();

    assert_eq!(
        rssi_register.register_value(),
        0b11101010_00000000,
    )
}

#[test]
fn test_rssi_register_from_u16() {
    let value: u16 = 0x1294;

    let expected_register = RSSIRegisterBuilder::default()
        .cca_threshold(18)
        .rssi_value(-108)
        .build()
        .unwrap();

    assert_eq!(
        expected_register,
        value.into(),
    )
}
