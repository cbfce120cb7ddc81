use vstd::prelude::*;

use crate::reading::SensorReading;

verus! {

/// Manufacturer identifier registered to Ruuvi Innovations.
pub const RUUVI_MANUFACTURER_ID: u16 = 0x0499;

/// Total payload length of a Data Format 5 record, format tag included.
pub const DATA_FORMAT_5_LEN: usize = 24;

/// Format tag of the one supported data format.
pub const DATA_FORMAT_5_TAG: u8 = 5;

/// Why a manufacturer-specific payload could not be decoded.
#[derive(Clone, Copy, PartialEq, Eq, Debug)]
pub enum DecodeError {
    /// The manufacturer identifier is not the Ruuvi one.
    UnknownManufacturer,
    /// The payload starts with a format tag other than 5.
    UnsupportedFormat,
    /// The payload is empty or its length differs from the fixed layout.
    InvalidLength,
}

/// Big-endian 16-bit field starting at byte `i`.
pub open spec fn be16(data: Seq<u8>, i: int) -> int {
    data[i] * 256 + data[i + 1]
}

/// Two's-complement reading of a 16-bit value.
pub open spec fn to_signed16(v: int) -> int {
    if v >= 32768 {
        v - 65536
    } else {
        v
    }
}

/// Integer division rounding toward zero, as executable signed division does.
pub open spec fn div_toward_zero(a: int, b: int) -> int
    recommends
        b > 0,
{
    if a >= 0 {
        a / b
    } else {
        -((-a) / b)
    }
}

/// A successfully decoded buffer: Ruuvi id, full fixed layout, format tag 5.
pub open spec fn spec_decode_ok(id: int, data: Seq<u8>) -> bool {
    id == 0x0499 && data.len() == 24 && data[0] == 5
}

/// The error a rejected (id, buffer) pair decodes to.
pub open spec fn spec_decode_err(id: int, data: Seq<u8>) -> DecodeError {
    if id != 0x0499 {
        DecodeError::UnknownManufacturer
    } else if data.len() > 0 && data[0] != 5 {
        DecodeError::UnsupportedFormat
    } else {
        DecodeError::InvalidLength
    }
}

/// Temperature field: raw signed sixteenths-of-0.005-degree steps times 5,
/// absent on the sentinel bit pattern.
pub open spec fn spec_temperature(data: Seq<u8>) -> Option<i32> {
    let raw = be16(data, 1);
    if raw == 32768 {
        None
    } else {
        Some((5 * to_signed16(raw)) as i32)
    }
}

/// Humidity field: raw 0.0025%-steps times 25 ppm, absent on the sentinel.
pub open spec fn spec_humidity(data: Seq<u8>) -> Option<u32> {
    let raw = be16(data, 3);
    if raw == 65535 {
        None
    } else {
        Some((25 * raw) as u32)
    }
}

/// Pressure field: raw offset from 50000 Pa, absent on the sentinel.
pub open spec fn spec_pressure(data: Seq<u8>) -> Option<u32> {
    let raw = be16(data, 5);
    if raw == 65535 {
        None
    } else {
        Some((raw + 50000) as u32)
    }
}

/// Battery field: the high 11 bits of the power field carry millivolts with
/// a 1600 mV offset; absent on the sentinel, or when the offset subtraction
/// would fall below zero millivolts.
pub open spec fn spec_battery(data: Seq<u8>) -> Option<u16> {
    let stored = be16(data, 13) / 32;
    if stored == 2047 || stored < 1600 {
        None
    } else {
        Some((stored - 1600) as u16)
    }
}

/// Transmitter power field: the low 5 bits of the power field carry
/// (dBm + 40) / 2; absent on the sentinel.
pub open spec fn spec_tx_power(data: Seq<u8>) -> Option<i8> {
    let bits = be16(data, 13) % 32;
    if bits == 31 {
        None
    } else {
        Some((2 * bits - 40) as i8)
    }
}

/// Movement counter field, absent on the sentinel.
pub open spec fn spec_movement(data: Seq<u8>) -> Option<u32> {
    if data[15] == 255 {
        None
    } else {
        Some(data[15] as u32)
    }
}

/// Measurement sequence number field, absent on the sentinel.
pub open spec fn spec_sequence(data: Seq<u8>) -> Option<u32> {
    let raw = be16(data, 16);
    if raw == 65535 {
        None
    } else {
        Some(raw as u32)
    }
}

/// The six MAC bytes of the fixed layout.
pub open spec fn spec_mac(data: Seq<u8>) -> Seq<u8> {
    data.subrange(18, 24)
}

/// The all-ones MAC sentinel that marks the address as absent.
pub open spec fn mac_absent(data: Seq<u8>) -> bool {
    forall|i: int| 18 <= i < 24 ==> data[i] == 255
}

/// All field clauses a decoded reading satisfies with respect to its buffer.
pub open spec fn reading_matches(v: SensorReading, data: Seq<u8>) -> bool {
    &&& v.temperature_millicelsius == spec_temperature(data)
    &&& v.humidity_ppm == spec_humidity(data)
    &&& v.pressure_pascals == spec_pressure(data)
    &&& v.battery_millivolts == spec_battery(data)
    &&& v.tx_power_dbm == spec_tx_power(data)
    &&& v.movement_counter == spec_movement(data)
    &&& v.measurement_sequence_number == spec_sequence(data)
    &&& (v.mac_address is Some <==> !mac_absent(data))
    &&& (v.mac_address matches Some(m) ==> m@ == spec_mac(data))
}

/// Two's-complement 16-bit wire encoding of the quantized temperature.
pub open spec fn raw_temperature(millicelsius: int) -> int {
    let q = div_toward_zero(millicelsius, 5);
    if q < 0 {
        q + 65536
    } else {
        q
    }
}

/// Wire encoding of the humidity: truncated 0.0025%-steps.
pub open spec fn raw_humidity(ppm: int) -> int {
    ppm / 25
}

/// Wire encoding of the pressure: offset from 50000 Pa.
pub open spec fn raw_pressure(pascals: int) -> int {
    pascals - 50000
}

/// Wire encoding of the combined power field: battery millivolts plus the
/// 1600 mV offset, kept to the 11 bits the field has, in the high bits, and
/// the truncated transmitter power steps in the low 5 bits.
pub open spec fn raw_power(millivolts: int, dbm: int) -> int {
    ((millivolts + 1600) % 2048) * 32 + (dbm + 40) / 2
}

/// Temperature as reproduced by an encode/decode round trip.
pub open spec fn quantized_temperature(millicelsius: int) -> int {
    5 * div_toward_zero(millicelsius, 5)
}

/// Humidity as reproduced by an encode/decode round trip.
pub open spec fn quantized_humidity(ppm: int) -> int {
    25 * (ppm / 25)
}

/// Battery potential as reproduced by an encode/decode round trip.
pub open spec fn quantized_battery(millivolts: int) -> Option<u16> {
    let stored = (millivolts + 1600) % 2048;
    if stored == 2047 || stored < 1600 {
        None
    } else {
        Some((stored - 1600) as u16)
    }
}

/// Transmitter power as reproduced by an encode/decode round trip.
pub open spec fn quantized_tx_power(dbm: int) -> int {
    2 * ((dbm + 40) / 2) - 40
}

/// Big-endian 16-bit read at byte offset `i`.
fn read_be16(data: &Vec<u8>, i: usize) -> (r: u16)
    requires
        i + 1 < data@.len(),
    ensures
        r == be16(data@, i as int),
{
    let n = data.len();
    proof {
        assert(i + 1 < n);
    }
    (data[i] as u16) * 256 + (data[i + 1] as u16)
}

/// Decode one manufacturer-specific payload as a Ruuvi Data Format 5 record.
///
/// Only the Ruuvi manufacturer id and format tag 5 are accepted, and the
/// buffer must hold exactly the fixed layout:
/// tag(1) | temperature(2) | humidity(2) | pressure(2) | acceleration(6) |
/// power(2) | movement(1) | sequence(2) | mac(6), multi-byte fields
/// big-endian. On any rejection no partial reading is produced.
pub fn decode(manufacturer_id: u16, data: &Vec<u8>) -> (r: Result<SensorReading, DecodeError>)
    ensures
        r is Ok <==> spec_decode_ok(manufacturer_id as int, data@),
        r matches Err(e) ==> e == spec_decode_err(manufacturer_id as int, data@),
        r matches Ok(v) ==> reading_matches(v, data@),
{
    if manufacturer_id != RUUVI_MANUFACTURER_ID {
        return Err(DecodeError::UnknownManufacturer);
    }
    if data.len() == 0 {
        return Err(DecodeError::InvalidLength);
    }
    if data[0] != DATA_FORMAT_5_TAG {
        return Err(DecodeError::UnsupportedFormat);
    }
    if data.len() != DATA_FORMAT_5_LEN {
        return Err(DecodeError::InvalidLength);
    }

    let temp_raw = read_be16(data, 1);
    let temperature_millicelsius: Option<i32> = if temp_raw == 32768 {
        None
    } else {
        let signed: i32 = if temp_raw >= 32768 {
            (temp_raw as i32) - 65536
        } else {
            temp_raw as i32
        };
        Some(5 * signed)
    };

    let humidity_raw = read_be16(data, 3);
    let humidity_ppm: Option<u32> = if humidity_raw == 65535 {
        None
    } else {
        Some(25 * (humidity_raw as u32))
    };

    let pressure_raw = read_be16(data, 5);
    let pressure_pascals: Option<u32> = if pressure_raw == 65535 {
        None
    } else {
        Some((pressure_raw as u32) + 50000)
    };

    let power_raw = read_be16(data, 13);
    let stored_battery: u16 = power_raw / 32;
    let tx_bits: u16 = power_raw % 32;
    let battery_millivolts: Option<u16> = if stored_battery == 2047 || stored_battery < 1600 {
        None
    } else {
        Some(stored_battery - 1600)
    };
    let tx_power_dbm: Option<i8> = if tx_bits == 31 {
        None
    } else {
        Some((2 * (tx_bits as i32) - 40) as i8)
    };

    let movement_raw = data[15];
    let movement_counter: Option<u32> = if movement_raw == 255 {
        None
    } else {
        Some(movement_raw as u32)
    };

    let sequence_raw = read_be16(data, 16);
    let measurement_sequence_number: Option<u32> = if sequence_raw == 65535 {
        None
    } else {
        Some(sequence_raw as u32)
    };

    let mac: [u8; 6] = [data[18], data[19], data[20], data[21], data[22], data[23]];
    let absent = mac[0] == 255 && mac[1] == 255 && mac[2] == 255 && mac[3] == 255 && mac[4] == 255
        && mac[5] == 255;
    let mac_address: Option<[u8; 6]> = if absent {
        None
    } else {
        Some(mac)
    };
    proof {
        assert(mac@ =~= spec_mac(data@));
    }

    Ok(SensorReading {
        mac_address,
        humidity_ppm,
        temperature_millicelsius,
        pressure_pascals,
        battery_millivolts,
        tx_power_dbm,
        movement_counter,
        measurement_sequence_number,
    })
}

/// Append a 16-bit value in big-endian order.
fn push_be16(out: &mut Vec<u8>, v: u16)
    ensures
        final(out)@.len() == old(out)@.len() + 2,
        forall|k: int| 0 <= k < old(out)@.len() ==> final(out)@[k] == old(out)@[k],
        be16(final(out)@, old(out)@.len() as int) == v,
{
    out.push((v / 256) as u8);
    out.push((v % 256) as u8);
}

/// Encode physical values into a Data Format 5 payload, format tag included.
///
/// The acceleration fields, which this core does not expose, are written as
/// zero. Battery millivolts are stored with the +1600 mV offset, kept to the
/// 11 bits the field has; each divided field is truncated to its wire step.
/// The preconditions are the ranges the fixed-width fields can hold without
/// colliding with a field-absent sentinel.
pub fn encode_data_format_5(
    mac: [u8; 6],
    temperature_millicelsius: i32,
    humidity_ppm: u32,
    pressure_pascals: u32,
    battery_millivolts: u16,
    tx_power_dbm: i8,
    movement_counter: u32,
    measurement_sequence_number: u32,
) -> (r: Vec<u8>)
    requires
        -163839 <= temperature_millicelsius <= 163839,
        humidity_ppm <= 1638374,
        50000 <= pressure_pascals <= 115534,
        battery_millivolts <= 63935,
        -40 <= tx_power_dbm <= 21,
        movement_counter <= 254,
        measurement_sequence_number <= 65534,
    ensures
        r@.len() == 24,
        r@[0] == 5,
        be16(r@, 1) == raw_temperature(temperature_millicelsius as int),
        be16(r@, 3) == raw_humidity(humidity_ppm as int),
        be16(r@, 5) == raw_pressure(pressure_pascals as int),
        be16(r@, 7) == 0,
        be16(r@, 9) == 0,
        be16(r@, 11) == 0,
        be16(r@, 13) == raw_power(battery_millivolts as int, tx_power_dbm as int),
        r@[15] == movement_counter as u8,
        be16(r@, 16) == measurement_sequence_number,
        spec_mac(r@) == mac@,
{
    let mut out: Vec<u8> = Vec::new();
    out.push(DATA_FORMAT_5_TAG);

    let temp_magnitude: u32 = if temperature_millicelsius >= 0 {
        (temperature_millicelsius as u32) / 5
    } else {
        ((-temperature_millicelsius) as u32) / 5
    };
    let temp_raw: u16 = if temperature_millicelsius >= 0 || temp_magnitude == 0 {
        temp_magnitude as u16
    } else {
        (65536 - temp_magnitude) as u16
    };
    push_be16(&mut out, temp_raw);

    push_be16(&mut out, (humidity_ppm / 25) as u16);
    push_be16(&mut out, (pressure_pascals - 50000) as u16);

    push_be16(&mut out, 0);
    push_be16(&mut out, 0);
    push_be16(&mut out, 0);

    let stored_battery: u16 = (battery_millivolts + 1600) % 2048;
    let tx_bits: u16 = ((tx_power_dbm as i32 + 40) as u32 / 2) as u16;
    push_be16(&mut out, stored_battery * 32 + tx_bits);

    out.push(movement_counter as u8);
    push_be16(&mut out, measurement_sequence_number as u16);

    out.push(mac[0]);
    out.push(mac[1]);
    out.push(mac[2]);
    out.push(mac[3]);
    out.push(mac[4]);
    out.push(mac[5]);

    proof {
        assert(spec_mac(out@) =~= mac@);
    }
    out
}

/// Law (decoder round trip): a payload laid out as the encoder guarantees is
/// accepted by the decoder, and every field decodes back to the original
/// physical value within one quantization step of the wire format: under
/// 5 millicelsius for temperature, under 25 ppm for humidity, under 2 dBm
/// for transmitter power, and exactly for pressure, battery (within its
/// encodable range), movement, sequence and MAC.
pub proof fn lemma_round_trip(
    data: Seq<u8>,
    mac: Seq<u8>,
    temperature_millicelsius: int,
    humidity_ppm: int,
    pressure_pascals: int,
    battery_millivolts: int,
    tx_power_dbm: int,
    movement_counter: int,
    measurement_sequence_number: int,
)
    requires
        -163839 <= temperature_millicelsius <= 163839,
        0 <= humidity_ppm <= 1638374,
        50000 <= pressure_pascals <= 115534,
        0 <= battery_millivolts <= 63935,
        -40 <= tx_power_dbm <= 21,
        0 <= movement_counter <= 254,
        0 <= measurement_sequence_number <= 65534,
        data.len() == 24,
        data[0] == 5,
        mac.len() == 6,
        be16(data, 1) == raw_temperature(temperature_millicelsius),
        be16(data, 3) == raw_humidity(humidity_ppm),
        be16(data, 5) == raw_pressure(pressure_pascals),
        be16(data, 13) == raw_power(battery_millivolts, tx_power_dbm),
        data[15] == movement_counter as u8,
        be16(data, 16) == measurement_sequence_number,
        spec_mac(data) == mac,
    ensures
        spec_decode_ok(0x0499, data),
        spec_temperature(data) == Some(quantized_temperature(temperature_millicelsius) as i32),
        temperature_millicelsius - 4 <= quantized_temperature(temperature_millicelsius)
            <= temperature_millicelsius + 4,
        spec_humidity(data) == Some(quantized_humidity(humidity_ppm) as u32),
        humidity_ppm - 24 <= quantized_humidity(humidity_ppm) <= humidity_ppm,
        spec_pressure(data) == Some(pressure_pascals as u32),
        spec_battery(data) == quantized_battery(battery_millivolts),
        battery_millivolts <= 446 ==> spec_battery(data) == Some(battery_millivolts as u16),
        spec_tx_power(data) == Some(quantized_tx_power(tx_power_dbm) as i8),
        tx_power_dbm - 1 <= quantized_tx_power(tx_power_dbm) <= tx_power_dbm,
        spec_movement(data) == Some(movement_counter as u32),
        spec_sequence(data) == Some(measurement_sequence_number as u32),
        mac_absent(data) <==> (forall|i: int| 0 <= i < 6 ==> mac[i] == 255),
{
    let stored = (battery_millivolts + 1600) % 2048;
    let tx_steps = (tx_power_dbm + 40) / 2;
    assert(0 <= tx_steps <= 30);
    assert(0 <= stored <= 2047);
    vstd::arithmetic::div_mod::lemma_fundamental_div_mod_converse(
        stored * 32 + tx_steps,
        32,
        stored,
        tx_steps,
    );
    assert(be16(data, 13) / 32 == stored);
    assert(be16(data, 13) % 32 == tx_steps);

    let q = div_toward_zero(temperature_millicelsius, 5);
    assert(-32767 <= q <= 32767);
    assert(raw_temperature(temperature_millicelsius) != 32768);
    assert(to_signed16(raw_temperature(temperature_millicelsius)) == q);

    assert forall|i: int| 0 <= i < 6 implies mac[i] == data[18 + i] by {
        assert(mac[i] == spec_mac(data)[i]);
    }
    if forall|i: int| 0 <= i < 6 ==> mac[i] == 255 {
        assert forall|j: int| 18 <= j < 24 implies data[j] == 255 by {
            assert(mac[j - 18] == 255);
        }
    }
    if mac_absent(data) {
        assert forall|i: int| 0 <= i < 6 implies mac[i] == 255 by {
            assert(data[18 + i] == 255);
        }
    }
}

} // verus!
