use ds3231::DateTime;
use ds3231::SimBus;
use ds3231::DS3231;

#[test]
fn temperature_composes_msb_and_fraction() {
    let mut bus = SimBus::new();
    bus.set_reg(0x11, 23);
    bus.set_reg(0x12, 0b0100_0000);
    let mut rtc = DS3231::new(bus);
    let quarters = rtc.temperature().unwrap();
    assert_eq!(quarters, 93);
    assert_eq!(quarters as f32 * 0.25, 23.25);
}

#[test]
fn temperature_msb_is_signed() {
    // 0xFF in the integer register is -1 degree Celsius; with a 0.25 degree
    // fraction the device reports -0.75 degrees, that is -3 quarters.
    let mut bus = SimBus::new();
    bus.set_reg(0x11, 0xFF);
    bus.set_reg(0x12, 0b0100_0000);
    let mut rtc = DS3231::new(bus);
    let quarters = rtc.temperature().unwrap();
    assert_eq!(quarters, -3);
    assert_eq!(quarters as f32 * 0.25, -0.75);

    // 0x80 is the most negative reading, -128 degrees Celsius.
    let mut bus = SimBus::new();
    bus.set_reg(0x11, 0x80);
    let mut rtc = DS3231::new(bus);
    assert_eq!(rtc.temperature().unwrap(), -512);
}

#[test]
fn temperature_zero() {
    let bus = SimBus::new();
    let mut rtc = DS3231::new(bus);
    let quarters = rtc.temperature().unwrap();
    assert_eq!(quarters, 0);
    assert_eq!(quarters as f32 * 0.25, 0.0);
}

#[test]
fn set_datetime_writes_exact_registers() {
    let bus = SimBus::new();
    let mut rtc = DS3231::new(bus);
    let dt = DateTime { sec: 45, min: 30, hour: 12, mday: 15, mon: 6, year: 2023, wday: 5 };
    rtc.set_datetime(dt).unwrap();
    assert_eq!(rtc.i2c.reg(0x00), 0x45);
    assert_eq!(rtc.i2c.reg(0x01), 0x30);
    assert_eq!(rtc.i2c.reg(0x02), 0x12);
    assert_eq!(rtc.i2c.reg(0x03), 0x05);
    assert_eq!(rtc.i2c.reg(0x04), 0x15);
    assert_eq!(rtc.i2c.reg(0x05), 0x86);
    assert_eq!(rtc.i2c.reg(0x06), 0x23);
}

#[test]
fn datetime_round_trip_through_device() {
    let bus = SimBus::new();
    let mut rtc = DS3231::new(bus);
    let dt = DateTime { sec: 45, min: 30, hour: 12, mday: 15, mon: 6, year: 2023, wday: 5 };
    rtc.set_datetime(dt).unwrap();
    let back = rtc.get_datetime().unwrap();
    assert_eq!(back.sec, 45);
    assert_eq!(back.min, 30);
    assert_eq!(back.hour, 12);
    assert_eq!(back.mday, 15);
    assert_eq!(back.mon, 6);
    assert_eq!(back.wday, 5);
    // The read path does not surface the century flag: the year comes back
    // as the device's two-digit value.
    assert_eq!(back.year, 23);
}

#[test]
fn century_boundary_encoding() {
    let bus = SimBus::new();
    let mut rtc = DS3231::new(bus);
    let dt = DateTime { sec: 0, min: 0, hour: 0, mday: 1, mon: 1, year: 1999, wday: 1 };
    rtc.set_datetime(dt).unwrap();
    assert_eq!(rtc.i2c.reg(0x06), 0x99);
    assert_eq!(rtc.i2c.reg(0x05) & 0x80, 0x00);

    let dt = DateTime { sec: 0, min: 0, hour: 0, mday: 1, mon: 1, year: 2000, wday: 1 };
    rtc.set_datetime(dt).unwrap();
    assert_eq!(rtc.i2c.reg(0x06), 0x00);
    assert_eq!(rtc.i2c.reg(0x05) & 0x80, 0x80);
}

#[test]
fn month_byte_century_bit_is_masked_on_read() {
    let mut bus = SimBus::new();
    bus.set_reg(0x05, 0x86);
    let mut rtc = DS3231::new(bus);
    let dt = rtc.get_datetime().unwrap();
    assert_eq!(dt.mon, 6);

    let mut bus = SimBus::new();
    bus.set_reg(0x05, 0x06);
    let mut rtc = DS3231::new(bus);
    let dt = rtc.get_datetime().unwrap();
    assert_eq!(dt.mon, 6);
}

#[test]
fn transaction_counts_per_operation() {
    let bus = SimBus::new();
    let mut rtc = DS3231::new(bus);
    assert_eq!(rtc.i2c.txn_count(), 0);

    rtc.temperature().unwrap();
    assert_eq!(rtc.i2c.txn_count(), 2);

    rtc.get_datetime().unwrap();
    assert_eq!(rtc.i2c.txn_count(), 3);

    let dt = DateTime { sec: 1, min: 2, hour: 3, mday: 4, mon: 5, year: 2021, wday: 6 };
    rtc.set_datetime(dt).unwrap();
    assert_eq!(rtc.i2c.txn_count(), 4);
}

#[test]
fn bus_errors_propagate() {
    let mut bus = SimBus::new();
    bus.set_fail(true);
    let mut rtc = DS3231::new(bus);

    assert!(rtc.temperature().is_err());
    // The first read fails, so the second is never issued.
    assert_eq!(rtc.i2c.txn_count(), 1);

    assert!(rtc.get_datetime().is_err());
    assert_eq!(rtc.i2c.txn_count(), 2);

    let dt = DateTime { sec: 1, min: 2, hour: 3, mday: 4, mon: 5, year: 2021, wday: 6 };
    assert!(rtc.set_datetime(dt).is_err());
    assert_eq!(rtc.i2c.txn_count(), 3);
    // A failed write stores nothing.
    assert_eq!(rtc.i2c.reg(0x00), 0);
}

#[test]
fn failed_write_leaves_registers_unchanged() {
    let bus = SimBus::new();
    let mut rtc = DS3231::new(bus);
    let dt = DateTime { sec: 45, min: 30, hour: 12, mday: 15, mon: 6, year: 2023, wday: 5 };
    rtc.set_datetime(dt).unwrap();

    let mut bus = rtc.i2c;
    bus.set_fail(true);
    let mut rtc = DS3231::new(bus);
    let dt2 = DateTime { sec: 1, min: 2, hour: 3, mday: 4, mon: 5, year: 2021, wday: 6 };
    assert!(rtc.set_datetime(dt2).is_err());
    assert_eq!(rtc.i2c.reg(0x00), 0x45);
    assert_eq!(rtc.i2c.reg(0x06), 0x23);
}
