use cc2420::register::{LowerManufacturerIDBuilder, UpperManufacturerIDBuilder};

#[test]
fn test_lower_manufacturer_id_from_u16() {
    let value = 0b0101_0000_0000_0101;

    let expected_lower_manufacturer_id = LowerManufacturerIDBuilder::default()
        .part_num(5)
        .manufacturer_id(5)
        .build()
        .unwrap();

    assert_eq!(
        expected_lower_manufacturer_id,
        value.into(),
    )
}

#[test]
fn test_higher_manufacturer_id_from_u16() {
    let value = 0b0101_0000_0000_0101;

    let expected_upper_manufacturer_id = UpperManufacturerIDBuilder::default()
        .version(5)
        .part_num(5)
        .build()
        .unwrap();

    assert_eq!(
        expected_upper_manufacturer_id,
        value.into(),
    )
}
