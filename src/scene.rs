use vstd::prelude::*;
use core::time::Duration;
use web_time::Instant;

verus! {

#[verifier::external_type_specification]
#[verifier::external_body]
pub struct ExInstant(Instant);

/// Relies on `web_time::Instant::now` (std's `Instant::now` off the web) to
/// read the clock; nothing is assumed of the instant it returns.
pub assume_specification[ Instant::now ]() -> Instant;

/// Relies on `web_time::Instant::elapsed` to measure the time since an
/// instant; nothing is assumed of the duration it returns.
pub assume_specification[ Instant::elapsed ](i: &Instant) -> Duration;

/// Relies on `Duration::as_millis` for the whole milliseconds of a duration;
/// nothing is assumed of the number it returns.
pub assume_specification[ Duration::as_millis ](d: &Duration) -> u128;

/// The abstract state of a scene controller: the highest elapsed time read so
/// far, the last input event applied, and the last known pointer position.
pub struct SceneView {
    pub elapsed_ms: u64,
    pub last_event: Option<u64>,
    pub pointer: Option<(i32, i32)>,
}

impl SceneView {
    /// The elapsed time after a clock reading of `measured` milliseconds:
    /// the reading, saturated to `u64`, unless an earlier one was higher.
    pub open spec fn advanced(self, measured: u128) -> SceneView {
        let m: int = if measured > u64::MAX as u128 {
            u64::MAX as int
        } else {
            measured as int
        };
        SceneView {
            elapsed_ms: if m > self.elapsed_ms as int {
                m as u64
            } else {
                self.elapsed_ms
            },
            ..self
        }
    }

    /// Events are numbered by the host in delivery order; one is new when its
    /// number is above every number applied before.
    pub open spec fn is_new_event(self, event_id: u64) -> bool {
        match self.last_event {
            None => true,
            Some(last) => event_id > last,
        }
    }

    pub open spec fn interacted(self, event_id: u64, pointer: Option<(i32, i32)>) -> (
        SceneView,
        bool,
    ) {
        if self.is_new_event(event_id) {
            (
                SceneView {
                    last_event: Some(event_id),
                    pointer: if pointer is Some {
                        pointer
                    } else {
                        self.pointer
                    },
                    ..self
                },
                true,
            )
        } else {
            (self, false)
        }
    }
}

/// Owns the scene's time base and interaction state. The camera itself is
/// moved by the host, from what this controller reports.
pub struct SceneController {
    origin: Instant,
    elapsed_ms: u64,
    last_event: Option<u64>,
    pointer: Option<(i32, i32)>,
}

impl View for SceneController {
    type V = SceneView;

    closed spec fn view(&self) -> SceneView {
        SceneView {
            elapsed_ms: self.elapsed_ms,
            last_event: self.last_event,
            pointer: self.pointer,
        }
    }
}

impl SceneController {
    /// A controller whose time base starts now.
    pub fn new() -> (r: SceneController)
        ensures
            r@ == (SceneView { elapsed_ms: 0, last_event: None, pointer: None }),
    {
        SceneController { origin: Instant::now(), elapsed_ms: 0, last_event: None, pointer: None }
    }

    /// The time since construction in milliseconds; never less than any
    /// earlier reading.
    pub fn current_elapsed(&mut self) -> (r: u64)
        ensures
            exists|measured: u128| final(self)@ == old(self)@.advanced(measured),
            r == final(self)@.elapsed_ms,
            r >= old(self)@.elapsed_ms,
    {
        let measured = self.origin.elapsed().as_millis();
        self.advance_elapsed(measured)
    }

    /// Takes a clock reading of `measured` milliseconds since construction
    /// and returns the elapsed time it gives.
    pub fn advance_elapsed(&mut self, measured: u128) -> (r: u64)
        ensures
            final(self)@ == old(self)@.advanced(measured),
            r == final(self)@.elapsed_ms,
    {
        let m: u64 = if measured > u64::MAX as u128 {
            u64::MAX
        } else {
            measured as u64
        };
        if m > self.elapsed_ms {
            self.elapsed_ms = m;
        }
        self.elapsed_ms
    }

    /// Applies an input event once: a repeated delivery of an event, or an
    /// older one, changes nothing. Returns whether the event was applied.
    pub fn interact(&mut self, event_id: u64, pointer: Option<(i32, i32)>) -> (r: bool)
        ensures
            (final(self)@, r) == old(self)@.interacted(event_id, pointer),
    {
        let fresh = match self.last_event {
            None => true,
            Some(last) => event_id > last,
        };
        if !fresh {
            return false;
        }
        self.last_event = Some(event_id);
        if pointer.is_some() {
            self.pointer = pointer;
        }
        true
    }

    pub fn pointer(&self) -> (r: Option<(i32, i32)>)
        ensures
            r == self@.pointer,
    {
        self.pointer
    }
}

/// Of two elapsed-time readings, the later one is never smaller, whatever
/// the clock measured.
pub proof fn lemma_elapsed_never_decreases(s: SceneView, first: u128, second: u128)
    ensures
        s.elapsed_ms <= s.advanced(first).elapsed_ms,
        s.advanced(first).elapsed_ms <= s.advanced(first).advanced(second).elapsed_ms,
{
}

/// Delivering the same event twice has the effect of delivering it once.
pub proof fn lemma_interact_idempotent(s: SceneView, event_id: u64, pointer: Option<(i32, i32)>)
    ensures
        s.interacted(event_id, pointer).0.interacted(event_id, pointer).0 == s.interacted(
            event_id,
            pointer,
        ).0,
        !s.interacted(event_id, pointer).0.interacted(event_id, pointer).1,
{
}

} // verus!
