use ds3231::bcd2dec;
use ds3231::dec2bcd;

#[test]
fn bcd_round_trip_all_values() {
    let mut v: u8 = 0;
    while v <= 99 {
        assert_eq!(bcd2dec(dec2bcd(v)), v);
        if v == 99 {
            break;
        }
        v += 1;
    }
}

#[test]
fn dec2bcd_exact_values() {
    assert_eq!(dec2bcd(0), 0x00);
    assert_eq!(dec2bcd(6), 0x06);
    assert_eq!(dec2bcd(45), 0x45);
    assert_eq!(dec2bcd(59), 0x59);
    assert_eq!(dec2bcd(99), 0x99);
}

#[test]
fn bcd2dec_exact_values() {
    assert_eq!(bcd2dec(0x00), 0);
    assert_eq!(bcd2dec(0x12), 12);
    assert_eq!(bcd2dec(0x31), 31);
    assert_eq!(bcd2dec(0x59), 59);
    assert_eq!(bcd2dec(0x99), 99);
}
