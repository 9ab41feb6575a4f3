use cc2420::register::{Register, FiniteStateMachineConstantsBuilder};

#[test]
fn test_tc_rxchain_to_rx_value() {
    let fsm_constants = FiniteStateMachineConstantsBuilder::default()
        .tc_rxchain_to_rx(5)
        .build()
        .unwrap();

    assert_eq!(
        fsm_constants.register_value(),
        0b101_110_1010_010_100,
    )
}

#[test]
fn test_tc_switch_to_tx() {
    let fsm_constants = FiniteStateMachineConstantsBuilder::default()
        .tc_switch_to_tx(5)
        .build()
        .unwrap();

    assert_eq!(
        fsm_constants.register_value(),
        0b011_101_1010_010_100,
    )
}

#[test]
fn test_tc_paon_to_tx() {
    let fsm_constants = FiniteStateMachineConstantsBuilder::default()
        .tc_paon_to_tx(5)
        .build()
        .unwrap();

    assert_eq!(
        fsm_constants.register_value(),
        0b011_110_0101_010_100,
    )
}

#[test]
fn test_tc_txend_to_switch() {
    let fsm_constants = FiniteStateMachineConstantsBuilder::default()
        .tc_txend_to_switch(5)
        .build()
        .unwrap();

    assert_eq!(
        fsm_constants.register_value(),
        0b011_110_1010_101_100,
    )
}

#[test]
fn test_tc_txend_to_paoff() {
    let fsm_constants = FiniteStateMachineConstantsBuilder::default()
        .tc_txend_to_paoff(5)
        .build()
        .unwrap();

    assert_eq!(
        fsm_constants.register_value(),
        0b011_110_1010_010_101,
    )
}

#[test]
fn test_fsm_constants_from_u16() {
    let value = 0b101_101_0101_101_101;

    let expected_fsm_constants = FiniteStateMachineConstantsBuilder::default()
        .tc_rxchain_to_rx(5)
        .tc_switch_to_tx(5)
        .tc_paon_to_tx(5)
        .tc_txend_to_switch(5)
        .tc_txend_to_paoff(5)
        .build()
        .unwrap();

    assert_eq!(
        expected_fsm_constants,
        value.into()
    )
}
