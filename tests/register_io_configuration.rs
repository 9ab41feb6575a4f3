use cc2420::register::{Register, IOConfigurationRegister1Builder, IOConfigurationRegisterBuilder};

#[test]
fn test_bcn_accept_value() {
    let io_configuration = IOConfigurationRegisterBuilder::default()
        .bcn_accept(true)
        .build()
        .unwrap();

    assert_eq!(
        io_configuration.register_value(),
        0b1_0_0_0_0_1000000,
    )
}

#[test]
fn test_fifo_polarity_value() {
    let io_configuration = IOConfigurationRegisterBuilder::default()
        .fifo_polarity(true)
        .build()
        .unwrap();

    assert_eq!(
        io_configuration.register_value(),
        0b0_1_0_0_0_1000000,
    )
}

#[test]
fn test_fifop_polarity_value() {
    let io_configuration = IOConfigurationRegisterBuilder::default()
        .fifop_polarity(true)
        .build()
        .unwrap();

    assert_eq!(
        io_configuration.register_value(),
        0b0_0_1_0_0_1000000,
    )
}

#[test]
fn test_sfd_polarity_value() {
    let io_configuration = IOConfigurationRegisterBuilder::default()
        .sfd_polarity(true)
        .build()
        .unwrap();

    assert_eq!(
        io_configuration.register_value(),
        0b0_0_0_1_0_1000000,
    )
}

#[test]
fn test_cca_polarity_value() {
    let io_configuration = IOConfigurationRegisterBuilder::default()
        .cca_polarity(true)
        .build()
        .unwrap();

    assert_eq!(
        io_configuration.register_value(),
        0b0_0_0_0_1_1000000,
    )
}

#[test]
fn test_fifop_threshold_value() {
    let io_configuration = IOConfigurationRegisterBuilder::default()
        .fifop_threshold(127)
        .build()
        .unwrap();

    assert_eq!(
        io_configuration.register_value(),
        0b0_0_0_0_0_1111111,
    )
}

#[test]
fn test_io_configuration_from_u16() {
    let value = 0b1_1_1_1_1_1111111;

    let expected_io_configuration = IOConfigurationRegisterBuilder::default()
        .bcn_accept(true)
        .fifo_polarity(true)
        .fifop_polarity(true)
        .sfd_polarity(true)
        .cca_polarity(true)
        .fifop_threshold(127)
        .build()
        .unwrap();

    assert_eq!(
        expected_io_configuration,
        value.into(),
    )
}

#[test]
fn test_hssd_src_value() {
    let io_configuration = IOConfigurationRegister1Builder::default()
        .hssd_src(3)
        .build()
        .unwrap();

    assert_eq!(
        io_configuration.register_value(),
        0b011_00000_00000,
    )
}

#[test]
fn test_sfd_mux_value() {
    let io_configuration = IOConfigurationRegister1Builder::default()
        .sfd_mux(5)
        .build()
        .unwrap();

    assert_eq!(
        io_configuration.register_value(),
        0b00101_00000,
    )
}

#[test]
fn test_cca_mux_value() {
    let io_configuration = IOConfigurationRegister1Builder::default()
        .cca_mux(5)
        .build()
        .unwrap();

    assert_eq!(
        io_configuration.register_value(),
        0b00101,
    )
}

#[test]
fn test_io_configuration_1_from_u16() {
    let value = 0b111_11111_11111;

    let expected_io_configuration = IOConfigurationRegister1Builder::default()
        .hssd_src(7)
        .sfd_mux(31)
        .cca_mux(31)
        .build()
        .unwrap();

    assert_eq!(
        expected_io_configuration,
        value.into(),
    )
}
