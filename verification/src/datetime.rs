//! Date-time value type and its wire encoding.
//!
//! A `DateTime` holds decimal fields; BCD packing is a wire-format detail kept
//! to the encode and decode functions here. The wire layout is the device's
//! seven-byte block starting at the seconds register, with the century flag in
//! bit 7 of the month byte.

use vstd::prelude::*;

use crate::bcd::bcd2dec;
use crate::bcd::bcd_to_dec;
use crate::bcd::dec2bcd;
use crate::bcd::dec_to_bcd;
use crate::bcd::lemma_bcd_round_trip;

verus! {

/// Date and time, all fields decimal.
///
/// On writes the caller fills every field; `wday` follows the device's
/// convention of 1 through 7 and is not interpreted by the driver. On reads
/// `year` comes back as the device's two-digit year, since the read path does
/// not surface the century flag.
#[derive(Copy, Clone, PartialEq, Eq, Structural, Debug)]
pub struct DateTime {
    pub sec: u8,
    pub min: u8,
    pub hour: u8,
    pub mday: u8,
    pub mon: u8,
    pub year: u16,
    pub wday: u8,
}

/// A `DateTime` whose fields all fit the wire format: every byte field packs
/// into two BCD digits and the year's offset from its century base does too.
pub open spec fn encodable(dt: DateTime) -> bool {
    &&& dt.sec <= 99
    &&& dt.min <= 99
    &&& dt.hour <= 99
    &&& dt.mday <= 99
    &&& dt.mon <= 99
    &&& dt.wday <= 99
    &&& 1900 <= dt.year <= 2099
}

/// A `DateTime` whose fields all lie in their nominal calendar ranges.
pub open spec fn in_range(dt: DateTime) -> bool {
    &&& dt.sec <= 59
    &&& dt.min <= 59
    &&& dt.hour <= 23
    &&& 1 <= dt.wday <= 7
    &&& 1 <= dt.mday <= 31
    &&& 1 <= dt.mon <= 12
    &&& 1900 <= dt.year <= 2099
}

/// The century flag bit of the month byte: set for years 2000 and later.
pub open spec fn century_bit(year: u16) -> u8 {
    if year >= 2000 {
        0x80
    } else {
        0x00
    }
}

/// The two-digit year stored in the year register: the offset from 2000 when
/// the century flag is set, from 1900 otherwise.
pub open spec fn two_digit_year(year: u16) -> u8 {
    if year >= 2000 {
        (year - 2000) as u8
    } else {
        (year - 1900) as u8
    }
}

/// The eight-byte write transaction that sets the clock: the seconds register
/// address followed by the seven BCD-encoded data bytes.
pub open spec fn encode_dt(dt: DateTime) -> Seq<u8> {
    seq![
        0x00,
        dec_to_bcd(dt.sec),
        dec_to_bcd(dt.min),
        dec_to_bcd(dt.hour),
        dec_to_bcd(dt.wday),
        dec_to_bcd(dt.mday),
        dec_to_bcd(dt.mon) | century_bit(dt.year),
        dec_to_bcd(two_digit_year(dt.year)),
    ]
}

/// The `DateTime` read out of the device's seven-byte block starting at the
/// seconds register. The month byte is masked to its low five bits before BCD
/// decode, since bit 7 is the century flag and not part of the month digits;
/// the year comes back as the device's two-digit value.
pub open spec fn decode_dt(data: Seq<u8>) -> DateTime
    recommends
        data.len() >= 7,
{
    DateTime {
        sec: bcd_to_dec(data[0]),
        min: bcd_to_dec(data[1]),
        hour: bcd_to_dec(data[2]),
        mday: bcd_to_dec(data[4]),
        mon: bcd_to_dec(data[5] & 0x1F),
        wday: bcd_to_dec(data[3]),
        year: bcd_to_dec(data[6]) as u16,
    }
}

/// Builds the eight-byte write transaction for a date-time: the seconds
/// register address, then the BCD bytes in register order, with the century
/// flag folded into the month byte.
pub fn encode_datetime(dt: &DateTime) -> (r: Vec<u8>)
    requires
        encodable(*dt),
    ensures
        r@ == encode_dt(*dt),
        r@.len() == 8,
{
    let (yy, century): (u8, u8) = if dt.year >= 2000 {
        ((dt.year - 2000) as u8, 0x80)
    } else {
        ((dt.year - 1900) as u8, 0x00)
    };
    let mut data: Vec<u8> = Vec::new();
    data.push(0x00);
    data.push(dec2bcd(dt.sec));
    data.push(dec2bcd(dt.min));
    data.push(dec2bcd(dt.hour));
    data.push(dec2bcd(dt.wday));
    data.push(dec2bcd(dt.mday));
    data.push(dec2bcd(dt.mon) | century);
    data.push(dec2bcd(yy));
    proof {
        assert(data@ =~= encode_dt(*dt));
    }
    data
}

/// Decodes the seven-byte register block read from the device.
pub fn decode_datetime(data: &Vec<u8>) -> (r: DateTime)
    requires
        data@.len() >= 7,
    ensures
        r == decode_dt(data@),
{
    DateTime {
        sec: bcd2dec(data[0]),
        min: bcd2dec(data[1]),
        hour: bcd2dec(data[2]),
        mday: bcd2dec(data[4]),
        mon: bcd2dec(data[5] & 0x1F),
        wday: bcd2dec(data[3]),
        year: bcd2dec(data[6]) as u16,
    }
}

/// Law: for a date-time with fields in their nominal ranges, decoding the
/// data bytes of its wire encoding returns every field unchanged except the
/// year, which comes back as the device's two-digit value — the read path
/// does not surface the century flag.
pub proof fn lemma_datetime_round_trip(dt: DateTime)
    requires
        in_range(dt),
    ensures
        decode_dt(encode_dt(dt).subrange(1, 8)) == (DateTime {
            year: two_digit_year(dt.year) as u16,
            ..dt
        }),
{
    lemma_bcd_round_trip(dt.sec);
    lemma_bcd_round_trip(dt.min);
    lemma_bcd_round_trip(dt.hour);
    lemma_bcd_round_trip(dt.wday);
    lemma_bcd_round_trip(dt.mday);
    lemma_bcd_round_trip(dt.mon);
    lemma_bcd_round_trip(two_digit_year(dt.year));
    let mon = dt.mon;
    let m = dec_to_bcd(dt.mon);
    let c = century_bit(dt.year);
    assert(m <= 0x12) by (bit_vector)
        requires
            m == ((mon / 10) * 16 + (mon % 10)) as u8 && mon <= 12,
    ;
    assert((m | c) & 0x1F == m) by (bit_vector)
        requires
            m <= 0x12 && (c == 0x80 || c == 0x00),
    ;
}

} // verus!
