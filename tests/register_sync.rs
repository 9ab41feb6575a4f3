use cc2420::register::{Register, SyncWordRegisterBuilder};

#[test]
fn test_sync_word_to_value() {
    let sync_register = SyncWordRegisterBuilder::default()
        .sync_word(0x1234)
        .build()
        .unwrap();

    assert_eq!(
        sync_register.register_value(),
        0x1234,
    )
}

#[test]
fn test_sync_word_from_u16() {
    let value: u16 = 0x1234;

    let expected_sync_register = SyncWordRegisterBuilder::default()
        .sync_word(0x1234)
        .build()
        .unwrap();

    assert_eq!(
        expected_sync_register,
        value.into(),
    )
}
