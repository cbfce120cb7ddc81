use vstd::prelude::*;

use crate::provider::StartError;
use crate::provider::TelemetryProvider;
use crate::reading::SensorReading;

verus! {

/// One output record: a sensor reading plus the capture timestamp assigned
/// at the moment the reading was pulled from its source.
#[derive(Clone, Copy, PartialEq, Debug)]
pub struct SensorValuesDef {
    pub mac_address: Option<[u8; 6]>,
    pub humidity: Option<u32>,
    pub temperature_millicelsius: Option<i32>,
    pub pressure: Option<u32>,
    pub battery_potential: Option<u16>,
    pub tx_power: Option<i8>,
    pub movement_counter: Option<u32>,
    pub measurement_sequence_number: Option<u32>,
    /// Capture time in milliseconds since the Unix epoch; always present.
    pub measurement_ts_ms: u128,
}

/// The output record that shapes a reading with a given capture time.
pub open spec fn spec_record(values: SensorReading, ts: u128) -> SensorValuesDef {
    SensorValuesDef {
        mac_address: values.mac_address,
        humidity: values.humidity_ppm,
        temperature_millicelsius: values.temperature_millicelsius,
        pressure: values.pressure_pascals,
        battery_potential: values.battery_millivolts,
        tx_power: values.tx_power_dbm,
        movement_counter: values.movement_counter,
        measurement_sequence_number: values.measurement_sequence_number,
        measurement_ts_ms: ts,
    }
}

/// Relies on std::time::SystemTime::now and its duration_since(UNIX_EPOCH):
/// the wall clock as milliseconds since the Unix epoch, zero if the clock
/// reads earlier than the epoch.
#[verifier::external_body]
fn now_epoch_millis() -> (r: u128) {
    match std::time::SystemTime::now().duration_since(std::time::UNIX_EPOCH) {
        Ok(elapsed) => elapsed.as_millis(),
        Err(_) => 0,
    }
}

impl SensorValuesDef {
    /// Shape one reading into an output record with the given capture time.
    pub fn with_timestamp(values: &SensorReading, measurement_ts_ms: u128) -> (r: SensorValuesDef)
        ensures
            r == spec_record(*values, measurement_ts_ms),
    {
        SensorValuesDef {
            mac_address: values.mac_address,
            humidity: values.humidity_ppm,
            temperature_millicelsius: values.temperature_millicelsius,
            pressure: values.pressure_pascals,
            battery_potential: values.battery_millivolts,
            tx_power: values.tx_power_dbm,
            movement_counter: values.movement_counter,
            measurement_sequence_number: values.measurement_sequence_number,
            measurement_ts_ms,
        }
    }

    /// Shape one reading into an output record stamped with the wall-clock
    /// time of this call.
    pub fn capture(values: &SensorReading) -> (r: SensorValuesDef)
        ensures
            r == spec_record(*values, r.measurement_ts_ms),
    {
        let measurement_ts_ms = now_epoch_millis();
        SensorValuesDef::with_timestamp(values, measurement_ts_ms)
    }
}

/// The acquisition loop: drain a telemetry source into timestamped output
/// records.
///
/// `start` is called exactly once; its failure is fatal and yields no
/// records. Then readings are pulled until the source reports end of
/// stream, and each one becomes exactly one output record, in arrival
/// order, with the capture timestamp taken at consumption time.
pub fn read_events<P: TelemetryProvider>(provider: &mut P) -> (r: Result<
    Vec<SensorValuesDef>,
    StartError,
>)
    requires
        old(provider).inv(),
    ensures
        final(provider).inv(),
        old(provider).start_infallible() ==> r is Ok,
        r matches Ok(records) ==> {
            &&& final(provider).sequence() == old(provider).sequence()
            &&& records@.len() == final(provider).sequence().len()
            &&& forall|i: int|
                0 <= i < records@.len() ==> #[trigger] records@[i] == spec_record(
                    final(provider).sequence()[i],
                    records@[i].measurement_ts_ms,
                )
            &&& final(provider).pending().len() == 0
        },
{
    match provider.start() {
        Err(e) => {
            return Err(e);
        },
        Ok(_) => {},
    }
    let ghost full = provider.sequence();
    let mut records: Vec<SensorValuesDef> = Vec::new();
    loop
        invariant
            provider.inv(),
            provider.sequence() == full,
            records@.len() <= full.len(),
            provider.pending() == full.skip(records@.len() as int),
            forall|i: int|
                0 <= i < records@.len() ==> #[trigger] records@[i] == spec_record(
                    full[i],
                    records@[i].measurement_ts_ms,
                ),
        ensures
            provider.inv(),
            provider.sequence() == full,
            records@.len() == full.len(),
            provider.pending().len() == 0,
            forall|i: int|
                0 <= i < records@.len() ==> #[trigger] records@[i] == spec_record(
                    full[i],
                    records@[i].measurement_ts_ms,
                ),
        decreases full.len() - records@.len(),
    {
        match provider.next() {
            Some(values) => {
                let record = SensorValuesDef::capture(&values);
                proof {
                    assert(full.skip(records@.len() as int)[0] == full[records@.len() as int]);
                    assert(full.skip(records@.len() as int).skip(1) =~= full.skip(
                        records@.len() as int + 1,
                    ));
                }
                records.push(record);
            },
            None => {
                proof {
                    assert(full.skip(records@.len() as int).len() == 0);
                    assert(records@.len() == full.len());
                }
                break;
            },
        }
    }
    Ok(records)
}

/// Law: under a monotonic clock, successively emitted output records carry
/// non-decreasing timestamps: if the capture instants assigned to a run of
/// readings are taken in non-decreasing order, the records they shape carry
/// timestamps in the same order.
pub proof fn lemma_timestamps_non_decreasing(readings: Seq<SensorReading>, times: Seq<u128>)
    requires
        times.len() == readings.len(),
        forall|i: int, j: int| 0 <= i <= j < times.len() ==> #[trigger] times[i] <= #[trigger] times[j],
    ensures
        forall|i: int, j: int|
            0 <= i <= j < readings.len() ==> #[trigger] spec_record(
                readings[i],
                times[i],
            ).measurement_ts_ms <= #[trigger] spec_record(readings[j], times[j]).measurement_ts_ms,
{
}

} // verus!
