use vstd::prelude::*;

use crate::codec::decode;
use crate::codec::reading_matches;
use crate::codec::spec_decode_ok;
use crate::provider::StartError;
use crate::reading::SensorReading;

verus! {

/// One manufacturer-specific entry of an advertisement: a registered
/// manufacturer identifier and the payload bytes it tags.
#[derive(Debug)]
pub struct ManufacturerPair {
    pub manufacturer_id: u16,
    pub data: Vec<u8>,
}

/// A discovery notification from the radio layer, as the scan filter sees
/// it: either an advertisement carrying manufacturer-specific payloads, or
/// any other event kind, which the filter ignores.
#[derive(Debug)]
pub enum RawEvent {
    /// An advertisement with zero or more manufacturer-specific entries,
    /// in the order the radio layer delivered them.
    ManufacturerData { pairs: Vec<ManufacturerPair> },
    /// Every other event kind; opaque to this core.
    Other,
}

/// Whether the scan filter turns this event into a reading: it must be a
/// manufacturer-data advertisement whose first entry — only the first is
/// considered, by design — decodes as a Ruuvi Data Format 5 payload.
pub open spec fn spec_event_decodes(event: RawEvent) -> bool {
    &&& event matches RawEvent::ManufacturerData { pairs }
    &&& pairs@.len() > 0
    &&& spec_decode_ok(pairs@[0].manufacturer_id as int, pairs@[0].data@)
}

/// The payload bytes of the event's first manufacturer-specific entry.
pub open spec fn first_payload(event: RawEvent) -> Seq<u8> {
    match event {
        RawEvent::ManufacturerData { pairs } => pairs@[0].data@,
        RawEvent::Other => Seq::<u8>::empty(),
    }
}

/// The filter-and-decode step of the live scan loop, for one raw event:
/// a reading exactly when the event is a manufacturer-data advertisement
/// whose first entry decodes; everything else — other event kinds, events
/// with no entries, undecodable payloads — is discarded as expected noise.
pub fn filter_decode_event(event: &RawEvent) -> (r: Option<SensorReading>)
    ensures
        r is Some <==> spec_event_decodes(*event),
        r matches Some(values) ==> reading_matches(values, first_payload(*event)),
{
    match event {
        RawEvent::ManufacturerData { pairs } => {
            if pairs.len() > 0 {
                let first = &pairs[0];
                match decode(first.manufacturer_id, &first.data) {
                    Ok(values) => Some(values),
                    Err(_) => None,
                }
            } else {
                None
            }
        },
        RawEvent::Other => None,
    }
}

/// How a finite run of raw events relates to the readings the scan yields:
/// each event that decodes contributes exactly one reading, in stream
/// order, and every other event contributes nothing.
pub open spec fn scan_matches(events: Seq<RawEvent>, readings: Seq<SensorReading>) -> bool
    decreases events.len(),
{
    if events.len() == 0 {
        readings.len() == 0
    } else if spec_event_decodes(events.last()) {
        &&& readings.len() > 0
        &&& reading_matches(readings.last(), first_payload(events.last()))
        &&& scan_matches(events.drop_last(), readings.drop_last())
    } else {
        scan_matches(events.drop_last(), readings)
    }
}

/// Run the live scan's filter-and-decode step over a finite stream of raw
/// events: only decodable manufacturer-data advertisements yield readings,
/// one each, in stream order; no event kind and no decode failure ends the
/// scan early.
pub fn scan_events(events: &Vec<RawEvent>) -> (r: Vec<SensorReading>)
    ensures
        scan_matches(events@, r@),
{
    let mut readings: Vec<SensorReading> = Vec::new();
    let n = events.len();
    let mut i: usize = 0;
    while i < n
        invariant
            i <= n,
            n == events@.len(),
            scan_matches(events@.subrange(0, i as int), readings@),
        decreases n - i,
    {
        let ghost previous = readings@;
        match filter_decode_event(&events[i]) {
            Some(values) => {
                readings.push(values);
            },
            None => {},
        }
        i = i + 1;
        proof {
            let prefix = events@.subrange(0, i as int);
            assert(prefix.last() == events@[i - 1]);
            assert(prefix.drop_last() =~= events@.subrange(0, i - 1));
            if spec_event_decodes(events@[i - 1]) {
                assert(readings@.last() == readings@[readings@.len() - 1]);
                assert(readings@.drop_last() =~= previous);
            }
            assert(scan_matches(prefix, readings@));
        }
    }
    proof {
        assert(events@.subrange(0, n as int) =~= events@);
    }
    readings
}

/// Adapter selection policy of the live scan: among the adapters found,
/// the first one wins; none at all is the fatal no-adapter start failure.
pub fn select_adapter(adapter_count: usize) -> (r: Result<usize, StartError>)
    ensures
        adapter_count > 0 ==> r == Ok::<usize, StartError>(0),
        adapter_count == 0 ==> r == Err::<usize, StartError>(StartError::NoAdapter),
{
    if adapter_count == 0 {
        Err(StartError::NoAdapter)
    } else {
        Ok(0)
    }
}

} // verus!
