use vstd::prelude::*;

use crate::reading::SensorReading;

verus! {

/// Why a telemetry source could not start.
#[derive(Clone, Copy, PartialEq, Eq, Debug)]
pub enum StartError {
    /// No Bluetooth adapter is present.
    NoAdapter,
    /// The radio layer failed to initialize the session.
    RadioInit,
}

/// A pull-based source of decoded sensor readings.
///
/// `start` begins a session, binding the source to its underlying resource;
/// it may be called again after a session ends and then begins a fresh
/// session with no state carried over. `next` yields one reading per call,
/// in order, and `None` exactly when the session's sequence is exhausted.
/// Callers call `start` once before the first `next`.
pub trait TelemetryProvider: Sized {
    /// Well-formedness of the source's state; every operation preserves it.
    spec fn inv(&self) -> bool;

    /// The full ordered sequence of readings a session of this source yields.
    spec fn sequence(&self) -> Seq<SensorReading>;

    /// The readings the current session has not yielded yet.
    spec fn pending(&self) -> Seq<SensorReading>;

    /// Whether `start` on this source cannot fail. The replay source's
    /// never does; a live radio's may.
    spec fn start_infallible(&self) -> bool;

    /// Begin (or restart) a session.
    fn start(&mut self) -> (r: Result<(), StartError>)
        requires
            old(self).inv(),
        ensures
            final(self).inv(),
            old(self).start_infallible() ==> r is Ok,
            r is Ok ==> final(self).sequence() == old(self).sequence() && final(self).pending()
                == final(self).sequence(),
    ;

    /// Pull one reading; `None` exactly when the session is exhausted.
    fn next(&mut self) -> (r: Option<SensorReading>)
        requires
            old(self).inv(),
        ensures
            final(self).inv(),
            final(self).sequence() == old(self).sequence(),
            r matches Some(v) ==> old(self).pending().len() > 0 && v == old(self).pending()[0]
                && final(self).pending() == old(self).pending().skip(1),
            r is None ==> old(self).pending().len() == 0 && final(self).pending() == old(
                self,
            ).pending(),
    ;
}

} // verus!
