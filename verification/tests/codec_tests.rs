use ruuvi_reader_rs::codec::DATA_FORMAT_5_LEN;
use ruuvi_reader_rs::codec::DecodeError;
use ruuvi_reader_rs::codec::RUUVI_MANUFACTURER_ID;
use ruuvi_reader_rs::codec::decode;
use ruuvi_reader_rs::codec::encode_data_format_5;
use ruuvi_reader_rs::live_scan::ManufacturerPair;
use ruuvi_reader_rs::live_scan::RawEvent;
use ruuvi_reader_rs::live_scan::filter_decode_event;
use ruuvi_reader_rs::live_scan::scan_events;
use ruuvi_reader_rs::live_scan::select_adapter;
use ruuvi_reader_rs::provider::StartError;

fn sample_payload() -> Vec<u8> {
    encode_data_format_5(
        [0xAA, 0xBB, 0xCC, 0xDD, 0xEE, 0x11],
        22005,
        570925,
        100621,
        2941,
        4,
        10,
        100,
    )
}

#[test]
fn test_concrete_round_trip_example() {
    let payload = sample_payload();
    assert_eq!(payload.len(), DATA_FORMAT_5_LEN);
    assert_eq!(payload[0], 5);

    let values = decode(RUUVI_MANUFACTURER_ID, &payload).unwrap();
    assert_eq!(values.temperature_as_millicelsius(), Some(22005));
    assert_eq!(values.humidity_as_ppm(), Some(570925));
    assert_eq!(values.pressure_as_pascals(), Some(100621));
    assert_eq!(values.mac_address(), Some([0xAA, 0xBB, 0xCC, 0xDD, 0xEE, 0x11]));
    assert_eq!(values.movement_counter(), Some(10));
    assert_eq!(values.measurement_sequence_number(), Some(100));
    assert_eq!(values.tx_power_as_dbm(), Some(4));
}

#[test]
fn test_round_trip_quantization_steps() {
    // Values that do not sit on a wire quantization step come back truncated
    // toward zero, within one step.
    let payload = encode_data_format_5(
        [0x01, 0x02, 0x03, 0x04, 0x05, 0x06],
        22003,
        570930,
        99999,
        300,
        5,
        0,
        0,
    );
    let values = decode(RUUVI_MANUFACTURER_ID, &payload).unwrap();
    assert_eq!(values.temperature_as_millicelsius(), Some(22000));
    assert_eq!(values.humidity_as_ppm(), Some(570925));
    assert_eq!(values.pressure_as_pascals(), Some(99999));
    assert_eq!(values.battery_potential_as_millivolts(), Some(300));
    assert_eq!(values.tx_power_as_dbm(), Some(4));
    assert_eq!(values.movement_counter(), Some(0));
    assert_eq!(values.measurement_sequence_number(), Some(0));

    let negative = encode_data_format_5(
        [0x01, 0x02, 0x03, 0x04, 0x05, 0x06],
        -22003,
        0,
        50000,
        446,
        -40,
        254,
        65534,
    );
    let values = decode(RUUVI_MANUFACTURER_ID, &negative).unwrap();
    assert_eq!(values.temperature_as_millicelsius(), Some(-22000));
    assert_eq!(values.humidity_as_ppm(), Some(0));
    assert_eq!(values.pressure_as_pascals(), Some(50000));
    assert_eq!(values.battery_potential_as_millivolts(), Some(446));
    assert_eq!(values.tx_power_as_dbm(), Some(-40));
    assert_eq!(values.movement_counter(), Some(254));
    assert_eq!(values.measurement_sequence_number(), Some(65534));
}

#[test]
fn test_battery_outside_encodable_range_reads_absent() {
    // 2941 mV plus the 1600 mV offset does not fit the 11-bit field; the
    // stored bits fall below the offset and the decoder reports no battery
    // reading rather than a wrong one.
    let payload = sample_payload();
    let values = decode(RUUVI_MANUFACTURER_ID, &payload).unwrap();
    assert_eq!(values.battery_potential_as_millivolts(), None);
}

#[test]
fn test_decode_short_buffer_fails() {
    let empty: Vec<u8> = Vec::new();
    assert_eq!(
        decode(RUUVI_MANUFACTURER_ID, &empty),
        Err(DecodeError::InvalidLength)
    );

    let short: Vec<u8> = vec![5, 0x01, 0x02, 0x03];
    assert_eq!(
        decode(RUUVI_MANUFACTURER_ID, &short),
        Err(DecodeError::InvalidLength)
    );

    let mut truncated = sample_payload();
    truncated.truncate(23);
    assert_eq!(
        decode(RUUVI_MANUFACTURER_ID, &truncated),
        Err(DecodeError::InvalidLength)
    );

    let mut long = sample_payload();
    long.push(0);
    assert_eq!(
        decode(RUUVI_MANUFACTURER_ID, &long),
        Err(DecodeError::InvalidLength)
    );
}

#[test]
fn test_decode_wrong_format_tag_fails() {
    let mut payload = sample_payload();
    payload[0] = 3;
    assert_eq!(
        decode(RUUVI_MANUFACTURER_ID, &payload),
        Err(DecodeError::UnsupportedFormat)
    );
}

#[test]
fn test_decode_wrong_manufacturer_fails() {
    let payload = sample_payload();
    assert_eq!(
        decode(0x004C, &payload),
        Err(DecodeError::UnknownManufacturer)
    );
}

#[test]
fn test_decode_sentinels_mean_absent_fields() {
    let mut payload = vec![5u8];
    payload.extend_from_slice(&[0x80, 0x00]); // temperature sentinel
    payload.extend_from_slice(&[0xFF, 0xFF]); // humidity sentinel
    payload.extend_from_slice(&[0xFF, 0xFF]); // pressure sentinel
    payload.extend_from_slice(&[0x00, 0x00, 0x00, 0x00, 0x00, 0x00]); // acceleration
    payload.extend_from_slice(&[0xFF, 0xFF]); // battery and tx sentinels
    payload.push(0xFF); // movement sentinel
    payload.extend_from_slice(&[0xFF, 0xFF]); // sequence sentinel
    payload.extend_from_slice(&[0xFF; 6]); // mac sentinel

    let values = decode(RUUVI_MANUFACTURER_ID, &payload).unwrap();
    assert_eq!(values.temperature_as_millicelsius(), None);
    assert_eq!(values.humidity_as_ppm(), None);
    assert_eq!(values.pressure_as_pascals(), None);
    assert_eq!(values.battery_potential_as_millivolts(), None);
    assert_eq!(values.tx_power_as_dbm(), None);
    assert_eq!(values.movement_counter(), None);
    assert_eq!(values.measurement_sequence_number(), None);
    assert_eq!(values.mac_address(), None);
}

#[test]
fn test_scan_filters_noise_and_yields_third_event() {
    let noise = RawEvent::Other;
    let undecodable = RawEvent::ManufacturerData {
        pairs: vec![ManufacturerPair {
            manufacturer_id: RUUVI_MANUFACTURER_ID,
            data: vec![0xDE, 0xAD, 0xBE, 0xEF],
        }],
    };
    let valid = RawEvent::ManufacturerData {
        pairs: vec![ManufacturerPair {
            manufacturer_id: RUUVI_MANUFACTURER_ID,
            data: sample_payload(),
        }],
    };

    let events = vec![noise, undecodable, valid];
    let readings = scan_events(&events);

    assert_eq!(readings.len(), 1);
    assert_eq!(readings[0].temperature_as_millicelsius(), Some(22005));
    assert_eq!(
        readings[0].mac_address(),
        Some([0xAA, 0xBB, 0xCC, 0xDD, 0xEE, 0x11])
    );
}

#[test]
fn test_filter_decode_single_events() {
    assert_eq!(filter_decode_event(&RawEvent::Other), None);

    let no_pairs = RawEvent::ManufacturerData { pairs: Vec::new() };
    assert_eq!(filter_decode_event(&no_pairs), None);

    let foreign = RawEvent::ManufacturerData {
        pairs: vec![ManufacturerPair {
            manufacturer_id: 0x004C,
            data: sample_payload(),
        }],
    };
    assert_eq!(filter_decode_event(&foreign), None);

    // Only the first entry is considered, by design.
    let second_entry_valid = RawEvent::ManufacturerData {
        pairs: vec![
            ManufacturerPair {
                manufacturer_id: 0x004C,
                data: vec![1, 2, 3],
            },
            ManufacturerPair {
                manufacturer_id: RUUVI_MANUFACTURER_ID,
                data: sample_payload(),
            },
        ],
    };
    assert_eq!(filter_decode_event(&second_entry_valid), None);

    let valid = RawEvent::ManufacturerData {
        pairs: vec![ManufacturerPair {
            manufacturer_id: RUUVI_MANUFACTURER_ID,
            data: sample_payload(),
        }],
    };
    let decoded = filter_decode_event(&valid).unwrap();
    assert_eq!(decoded.pressure_as_pascals(), Some(100621));
}

#[test]
fn test_select_adapter_first_found_wins() {
    assert_eq!(select_adapter(0), Err(StartError::NoAdapter));
    assert_eq!(select_adapter(1), Ok(0));
    assert_eq!(select_adapter(7), Ok(0));
}
