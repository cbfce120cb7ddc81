use vstd::prelude::*;

verus! {

/// One decoded sensor reading: the physically meaningful content of a single
/// Ruuvi Data Format 5 advertisement.
///
/// Every field is optional: the wire format reserves a sentinel bit pattern
/// per field that marks it as absent, and absence is distinct from a reading
/// of zero. A reading is immutable once decoded.
#[derive(Clone, Copy, PartialEq, Eq, Debug)]
pub struct SensorReading {
    /// 6-byte hardware identifier of the sensor, verbatim from the payload.
    pub mac_address: Option<[u8; 6]>,
    /// Relative humidity in parts per million.
    pub humidity_ppm: Option<u32>,
    /// Temperature in millidegrees Celsius.
    pub temperature_millicelsius: Option<i32>,
    /// Air pressure in pascals.
    pub pressure_pascals: Option<u32>,
    /// Battery potential in millivolts.
    pub battery_millivolts: Option<u16>,
    /// Transmitter power in dBm.
    pub tx_power_dbm: Option<i8>,
    /// Rollover movement counter.
    pub movement_counter: Option<u32>,
    /// Per-device measurement sequence number.
    pub measurement_sequence_number: Option<u32>,
}

impl SensorReading {
    /// Temperature in millidegrees Celsius, if present in the source bytes.
    pub fn temperature_as_millicelsius(&self) -> (r: Option<i32>)
        ensures
            r == self.temperature_millicelsius,
    {
        self.temperature_millicelsius
    }

    /// Humidity in parts per million, if present in the source bytes.
    pub fn humidity_as_ppm(&self) -> (r: Option<u32>)
        ensures
            r == self.humidity_ppm,
    {
        self.humidity_ppm
    }

    /// Pressure in pascals, if present in the source bytes.
    pub fn pressure_as_pascals(&self) -> (r: Option<u32>)
        ensures
            r == self.pressure_pascals,
    {
        self.pressure_pascals
    }

    /// Battery potential in millivolts, if present in the source bytes.
    pub fn battery_potential_as_millivolts(&self) -> (r: Option<u16>)
        ensures
            r == self.battery_millivolts,
    {
        self.battery_millivolts
    }

    /// Transmitter power in dBm, if present in the source bytes.
    pub fn tx_power_as_dbm(&self) -> (r: Option<i8>)
        ensures
            r == self.tx_power_dbm,
    {
        self.tx_power_dbm
    }

    /// Movement counter, if present in the source bytes.
    pub fn movement_counter(&self) -> (r: Option<u32>)
        ensures
            r == self.movement_counter,
    {
        self.movement_counter
    }

    /// Measurement sequence number, if present in the source bytes.
    pub fn measurement_sequence_number(&self) -> (r: Option<u32>)
        ensures
            r == self.measurement_sequence_number,
    {
        self.measurement_sequence_number
    }

    /// MAC address bytes, if present in the source bytes.
    pub fn mac_address(&self) -> (r: Option<[u8; 6]>)
        ensures
            r == self.mac_address,
    {
        self.mac_address
    }
}

} // verus!
