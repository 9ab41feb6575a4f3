use cc2420::register::{Register, BatteryMonitorRegisterBuilder};

#[test]
fn test_battmon_en_value() {
    let battery_monitor = BatteryMonitorRegisterBuilder::default()
        .battmon_en(true)
        .build()
        .unwrap();

    assert_eq!(
        battery_monitor.register_value(),
        0b010_0000,
    )
}

#[test]
fn test_battmon_voltage_value() {
    let battery_monitor = BatteryMonitorRegisterBuilder::default()
        .battmon_voltage(3)
        .build()
        .unwrap();

    assert_eq!(
        battery_monitor.register_value(),
        0b000_0011,
    )
}

#[test]
fn test_battery_monitor_from_u16() {
    let value = 0b0_1_11111;

    let expected_battery_monitor = BatteryMonitorRegisterBuilder::default()
        .battmon_ok(false)
        .battmon_en(true)
        .battmon_voltage(0x1F)
        .build()
        .unwrap();

    assert_eq!(
        expected_battery_monitor,
        value.into(),
    )
}
