use vstd::prelude::*;

use crate::codec::RUUVI_MANUFACTURER_ID;
use crate::codec::decode;
use crate::codec::encode_data_format_5;
use crate::codec::lemma_round_trip;
use crate::codec::quantized_battery;
use crate::codec::quantized_humidity;
use crate::codec::quantized_temperature;
use crate::codec::quantized_tx_power;
use crate::provider::StartError;
use crate::provider::TelemetryProvider;
use crate::reading::SensorReading;

verus! {

/// Replay telemetry source: a fixed, pre-decoded sequence of readings,
/// replayed in order, restartable any number of times.
pub struct MockProvider {
    /// The readings every session of this source replays, in order.
    pub data: Vec<SensorReading>,
    index: usize,
}

impl MockProvider {
    /// Create a replay source over the given readings.
    pub fn new(data: Vec<SensorReading>) -> (r: MockProvider)
        ensures
            r.inv(),
            r.sequence() == data@,
            r.pending() == data@,
    {
        let r = MockProvider { data, index: 0 };
        proof {
            assert(r.pending() =~= r.data@);
        }
        r
    }

    /// Create a replay source over three representative sample readings.
    pub fn with_sample_data() -> (r: MockProvider)
        ensures
            r.inv(),
            r.pending() == r.sequence(),
            r.sequence().len() == 3,
            r.sequence()[0].temperature_millicelsius == Some(22005i32),
            r.sequence()[1].temperature_millicelsius == Some(-5000i32),
            r.sequence()[2].temperature_millicelsius == Some(35500i32),
            r.sequence()[0].humidity_ppm == Some(570925u32),
            r.sequence()[0].pressure_pascals == Some(100621u32),
            r.sequence()[0].mac_address == Some([0xAAu8, 0xBB, 0xCC, 0xDD, 0xEE, 0x11]),
            r.sequence()[0].tx_power_dbm == Some(4i8),
            r.sequence()[0].movement_counter == Some(10u32),
            r.sequence()[0].measurement_sequence_number == Some(100u32),
            r.sequence()[0].battery_millivolts is None,
    {
        let mut samples: Vec<SensorReading> = Vec::new();
        samples.push(
            create_sample_sensor_values(
                [0xAA, 0xBB, 0xCC, 0xDD, 0xEE, 0x11],
                22005,  // 22.005 degrees Celsius
                570925,  // 57.0925% humidity
                100621,  // 100621 Pa
                2941,  // 2941 mV
                4,  // 4 dBm
                10,
                100,
            ),
        );
        samples.push(
            create_sample_sensor_values(
                [0xAA, 0xBB, 0xCC, 0xDD, 0xEE, 0x22],
                -5000,  // -5 degrees Celsius
                450000,  // 45% humidity
                101325,  // 101325 Pa (sea level)
                3000,  // 3000 mV
                0,  // 0 dBm
                5,
                101,
            ),
        );
        samples.push(
            create_sample_sensor_values(
                [0xFF, 0xEE, 0xDD, 0xCC, 0xBB, 0xAA],
                35500,  // 35.5 degrees Celsius
                800000,  // 80% humidity
                99000,  // 99000 Pa
                2500,  // 2500 mV (low battery)
                8,  // 8 dBm
                250,
                102,
            ),
        );
        MockProvider::new(samples)
    }

    /// Create a replay source that ends its stream immediately.
    pub fn empty() -> (r: MockProvider)
        ensures
            r.inv(),
            r.sequence() == Seq::<SensorReading>::empty(),
            r.pending() == Seq::<SensorReading>::empty(),
    {
        let r = MockProvider::new(Vec::new());
        proof {
            assert(r.sequence() =~= Seq::<SensorReading>::empty());
        }
        r
    }
}

impl TelemetryProvider for MockProvider {
    closed spec fn inv(&self) -> bool {
        self.index <= self.data@.len()
    }

    closed spec fn sequence(&self) -> Seq<SensorReading> {
        self.data@
    }

    closed spec fn pending(&self) -> Seq<SensorReading> {
        self.data@.skip(self.index as int)
    }

    open spec fn start_infallible(&self) -> bool {
        true
    }

    fn start(&mut self) -> (r: Result<(), StartError>)
        ensures
            r is Ok,
    {
        self.index = 0;
        proof {
            assert(self.pending() =~= self.sequence());
        }
        Ok(())
    }

    fn next(&mut self) -> (r: Option<SensorReading>) {
        if self.index < self.data.len() {
            let value = self.data[self.index];
            self.index = self.index + 1;
            proof {
                assert(self.pending() =~= old(self).pending().skip(1));
            }
            Some(value)
        } else {
            None
        }
    }
}

/// Build one sample reading by encoding the given physical values into a
/// Data Format 5 payload and decoding it back, as a real advertisement
/// would be decoded. Each divided field comes back truncated to its wire
/// quantization step; the others come back exactly.
pub fn create_sample_sensor_values(
    mac: [u8; 6],
    temp_millicelsius: i32,
    humidity_ppm: u32,
    pressure_pa: u32,
    battery_mv: u16,
    tx_power_dbm: i8,
    movement: u32,
    sequence: u32,
) -> (r: SensorReading)
    requires
        -163839 <= temp_millicelsius <= 163839,
        humidity_ppm <= 1638374,
        50000 <= pressure_pa <= 115534,
        battery_mv <= 63935,
        -40 <= tx_power_dbm <= 21,
        movement <= 254,
        sequence <= 65534,
    ensures
        r.temperature_millicelsius == Some(quantized_temperature(temp_millicelsius as int) as i32),
        r.humidity_ppm == Some(quantized_humidity(humidity_ppm as int) as u32),
        r.pressure_pascals == Some(pressure_pa),
        r.battery_millivolts == quantized_battery(battery_mv as int),
        r.tx_power_dbm == Some(quantized_tx_power(tx_power_dbm as int) as i8),
        r.movement_counter == Some(movement),
        r.measurement_sequence_number == Some(sequence),
        (forall|i: int| 0 <= i < 6 ==> mac@[i] == 255) ==> r.mac_address is None,
        !(forall|i: int| 0 <= i < 6 ==> mac@[i] == 255) ==> r.mac_address == Some(mac),
{
    let payload = encode_data_format_5(
        mac,
        temp_millicelsius,
        humidity_ppm,
        pressure_pa,
        battery_mv,
        tx_power_dbm,
        movement,
        sequence,
    );
    proof {
        lemma_round_trip(
            payload@,
            mac@,
            temp_millicelsius as int,
            humidity_ppm as int,
            pressure_pa as int,
            battery_mv as int,
            tx_power_dbm as int,
            movement as int,
            sequence as int,
        );
    }
    let decoded = decode(RUUVI_MANUFACTURER_ID, &payload);
    match decoded {
        Ok(values) => {
            proof {
                if !(forall|i: int| 0 <= i < 6 ==> mac@[i] == 255) {
                    let m = values.mac_address->0;
                    assert(m@ == mac@);
                    assert(m =~= mac);
                }
            }
            values
        },
        Err(_) => vstd::pervasive::unreached(),
    }
}

} // verus!
