use cc2420::register::{Register, FrequencySynthesizerRegisterBuilder};

#[test]
fn test_lock_threshold_value() {
    let frequency_synthesis = FrequencySynthesizerRegisterBuilder::default()
        .lock_threshold(2)
        .build()
        .unwrap();

    assert_eq!(
        frequency_synthesis.register_value(),
        0b10_0_0_0_0_0101100101,
    )
}

#[test]
fn test_lock_length_value() {
    let frequency_synthesis = FrequencySynthesizerRegisterBuilder::default()
        .lock_length(true)
        .build()
        .unwrap();

    assert_eq!(
        frequency_synthesis.register_value(),
        0b01_0_0_1_0_0101100101,
    )
}

#[test]
fn test_frequency_value() {
    let frequency_synthesis = FrequencySynthesizerRegisterBuilder::default()
        .frequency(32)
        .build()
        .unwrap();

    assert_eq!(
        frequency_synthesis.register_value(),
        0b01_0_0_0_0_0000100000,
    )
}

#[test]
fn test_frequency_synthesis_from_u16() {
    let value = 0b10_1_1_1_1_0100001111;

    let expected_frequency_synthesis = FrequencySynthesizerRegisterBuilder::default()
        .lock_threshold(2)
        .cal_done(true)
        .cal_running(true)
        .lock_length(true)
        .lock_status(true)
        .frequency(271)
        .build()
        .unwrap();

    assert_eq!(
        expected_frequency_synthesis,
        value.into(),
    )
}
