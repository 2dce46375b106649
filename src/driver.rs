use vstd::prelude::*;

use crate::frame::{decode_frame, decode_spec, DriverError, SensorData};

verus! {

/// How long the line is held at its idle level before the start signal.
pub const IDLE_HOLD_US: u64 = 50_000;

/// How long the start signal holds the line low.
pub const START_HOLD_US: u64 = 20_000;

/// Deadline of the wait for the sensor's response and of each bit wait.
pub const TIMEOUT_US: u64 = 500_000;

/// Deadline of each of the two short acknowledgement pulses.
pub const ACK_TIMEOUT_US: u64 = 100;

/// A high pulse longer than this decodes to a one bit.
pub const BIT_1_DELAY_US: u64 = 50;

/// A reading younger than this is served from the cache.
pub const MIN_INTERVAL_US: u64 = 1_000_000;

/// Index of the last step of the start handshake.
pub const LAST_HANDSHAKE_STEP: u8 = 6;

/// Index of the last wait of a read: three acknowledgement waits, then two
/// waits for each of the forty bits.
pub const LAST_WAIT: u8 = 82;

/// A logical level of the data line.
#[derive(Clone, Copy, Debug, PartialEq, Eq, Structural)]
pub enum Level {
    Low,
    High,
}

/// The direction of the data line.
#[derive(Clone, Copy, Debug, PartialEq, Eq, Structural)]
pub enum PinMode {
    Input,
    Output,
}

/// What the driver asks of whoever owns the line and the clock.
#[derive(Clone, Copy, Debug)]
pub enum Action {
    /// Switch the line's direction.
    SetMode(PinMode),
    /// Drive the line to a level.
    SetLevel(Level),
    /// Block for the given number of microseconds.
    Sleep(u64),
    /// Read the line's level and report it with the time.
    Sample,
    /// The read is over, with this outcome.
    Finish(Result<SensorData, DriverError>),
}

/// What happened after an action, stamped with a monotonic time in
/// microseconds.
#[derive(Clone, Copy, Debug)]
pub enum Event {
    /// A `SetMode`, `SetLevel` or `Sleep` was carried out.
    Performed { now_us: u64 },
    /// A `Sample` read the line at this level.
    Sampled { level: Level, now_us: u64 },
}

/// Where a read stands.
#[derive(Clone, Copy, Debug)]
enum Phase {
    Idle,
    /// Handshake step `step` was issued and awaits its `Performed` event.
    Handshake { step: u8 },
    /// Wait number `wait` started at `start_us`; `bits` holds the frame bits
    /// received so far, most significant first.
    Waiting { wait: u8, start_us: u64, bits: u64 },
}

/// A DHT11-class sensor driver: the protocol's decisions and the one-slot
/// cache of the last good reading.
#[derive(Clone, Copy, Debug)]
pub struct DHT11 {
    phase: Phase,
    last_read_us: u64,
    last_data: Option<SensorData>,
}

/// Time from `start` to `now`, zero if the clock seems to run backwards.
pub open spec fn elapsed(start: u64, now: u64) -> int {
    if now >= start {
        now - start
    } else {
        0
    }
}

/// The time stamp of an event.
pub open spec fn event_time(e: Event) -> u64 {
    match e {
        Event::Performed { now_us } => now_us,
        Event::Sampled { now_us, .. } => now_us,
    }
}

/// The line operation of each handshake step: idle high for 50 ms, start
/// signal low for 20 ms, release high, then hand the line to the sensor.
pub open spec fn handshake_action(step: u8) -> Action {
    if step == 0 {
        Action::SetMode(PinMode::Output)
    } else if step == 1 {
        Action::SetLevel(Level::High)
    } else if step == 2 {
        Action::Sleep(IDLE_HOLD_US)
    } else if step == 3 {
        Action::SetLevel(Level::Low)
    } else if step == 4 {
        Action::Sleep(START_HOLD_US)
    } else if step == 5 {
        Action::SetLevel(Level::High)
    } else {
        Action::SetMode(PinMode::Input)
    }
}

/// The level that wait number `wait` waits for: low, high, low for the
/// acknowledgement, then high and low for each bit.
pub open spec fn wait_level(wait: u8) -> Level {
    if wait % 2 == 1 {
        Level::High
    } else {
        Level::Low
    }
}

/// The deadline of wait number `wait`.
pub open spec fn wait_timeout(wait: u8) -> u64 {
    if wait == 1 || wait == 2 {
        ACK_TIMEOUT_US
    } else {
        TIMEOUT_US
    }
}

/// Whether wait number `wait` ends a bit's high pulse, whose length is the bit.
pub open spec fn ends_bit(wait: u8) -> bool {
    wait >= 4 && wait % 2 == 0
}

/// `bits` with one more bit shifted in at the low end.
pub open spec fn push_bit(bits: u64, one: bool) -> u64 {
    (bits << 1u64) | (if one {
        1u64
    } else {
        0u64
    })
}

/// Byte number `k` (0 to 4) of a 40-bit frame held in the low bits of `bits`.
pub open spec fn frame_byte(bits: u64, k: u64) -> u8 {
    ((bits >> (8 * (4 - k))) & 0xff) as u8
}

/// What the forty bits received decode to.
pub open spec fn decode_bits(bits: u64) -> Result<SensorData, DriverError> {
    decode_spec(
        frame_byte(bits, 0),
        frame_byte(bits, 1),
        frame_byte(bits, 2),
        frame_byte(bits, 3),
        frame_byte(bits, 4),
    )
}

impl DHT11 {
    /// The driver's internal invariant.
    pub closed spec fn wf(self) -> bool {
        match self.phase {
            Phase::Idle => true,
            Phase::Handshake { step } => step <= LAST_HANDSHAKE_STEP,
            Phase::Waiting { wait, .. } => wait <= LAST_WAIT,
        }
    }

    /// Whether a read is under way.
    pub closed spec fn reading(self) -> bool {
        !(self.phase is Idle)
    }

    /// The cached reading, if any.
    pub closed spec fn cached(self) -> Option<SensorData> {
        self.last_data
    }

    /// When the cached reading was taken.
    pub closed spec fn last_read(self) -> u64 {
        self.last_read_us
    }

    /// The handshake step that awaits completion, if any.
    pub closed spec fn handshake_step(self) -> Option<u8> {
        match self.phase {
            Phase::Handshake { step } => Some(step),
            _ => None,
        }
    }

    /// The wait under way and when it started, if any.
    pub closed spec fn current_wait(self) -> Option<(u8, u64)> {
        match self.phase {
            Phase::Waiting { wait, start_us, .. } => Some((wait, start_us)),
            _ => None,
        }
    }

    /// Whether the cached reading may be served at time `now`.
    pub closed spec fn fresh(self, now: u64) -> bool {
        self.last_data is Some && elapsed(self.last_read_us, now) < MIN_INTERVAL_US
    }

    /// The driver's state and the action after `read` at time `now`.
    pub closed spec fn read_spec(self, now: u64) -> (DHT11, Action) {
        if self.fresh(now) {
            (self, Action::Finish(Ok(self.last_data.unwrap())))
        } else {
            (DHT11 { phase: Phase::Handshake { step: 0 }, ..self }, handshake_action(0))
        }
    }

    /// The driver's state and the action after a sampled level ended wait
    /// number `wait`, which started at `start`.
    pub closed spec fn edge_spec(self, wait: u8, start: u64, bits: u64, now: u64) -> (DHT11, Action) {
        let next_bits = if ends_bit(wait) {
            push_bit(bits, elapsed(start, now) > BIT_1_DELAY_US)
        } else {
            bits
        };
        if wait == LAST_WAIT {
            match decode_bits(next_bits) {
                Ok(data) => (
                    DHT11 { phase: Phase::Idle, last_read_us: now, last_data: Some(data) },
                    Action::Finish(Ok(data)),
                ),
                Err(e) => (DHT11 { phase: Phase::Idle, ..self }, Action::Finish(Err(e))),
            }
        } else {
            (
                DHT11 {
                    phase: Phase::Waiting { wait: (wait + 1) as u8, start_us: now, bits: next_bits },
                    ..self
                },
                Action::Sample,
            )
        }
    }

    /// The driver's state and the action after event `e`.
    pub closed spec fn advance_spec(self, e: Event) -> (DHT11, Action) {
        match self.phase {
            Phase::Idle => (self, Action::Sample),
            Phase::Handshake { step } => {
                if step < LAST_HANDSHAKE_STEP {
                    (
                        DHT11 { phase: Phase::Handshake { step: (step + 1) as u8 }, ..self },
                        handshake_action((step + 1) as u8),
                    )
                } else {
                    (
                        DHT11 {
                            phase: Phase::Waiting { wait: 0, start_us: event_time(e), bits: 0 },
                            ..self
                        },
                        Action::Sample,
                    )
                }
            },
            Phase::Waiting { wait, start_us, bits } => match e {
                Event::Performed { .. } => (self, Action::Sample),
                Event::Sampled { level, now_us } => {
                    if level == wait_level(wait) {
                        self.edge_spec(wait, start_us, bits, now_us)
                    } else if elapsed(start_us, now_us) > wait_timeout(wait) {
                        (
                            DHT11 { phase: Phase::Idle, ..self },
                            Action::Finish(Err(DriverError::SignalTimeoutError)),
                        )
                    } else {
                        (self, Action::Sample)
                    }
                },
            },
        }
    }
}

/// Time from `start` to `now`, zero if the clock seems to run backwards.
fn elapsed_us(start: u64, now: u64) -> (r: u64)
    ensures
        r == elapsed(start, now),
{
    if now >= start {
        now - start
    } else {
        0
    }
}

fn handshake_action_of(step: u8) -> (r: Action)
    ensures
        r == handshake_action(step),
{
    if step == 0 {
        Action::SetMode(PinMode::Output)
    } else if step == 1 {
        Action::SetLevel(Level::High)
    } else if step == 2 {
        Action::Sleep(IDLE_HOLD_US)
    } else if step == 3 {
        Action::SetLevel(Level::Low)
    } else if step == 4 {
        Action::Sleep(START_HOLD_US)
    } else if step == 5 {
        Action::SetLevel(Level::High)
    } else {
        Action::SetMode(PinMode::Input)
    }
}

fn wait_level_of(wait: u8) -> (r: Level)
    ensures
        r == wait_level(wait),
{
    if wait % 2 == 1 {
        Level::High
    } else {
        Level::Low
    }
}

fn wait_timeout_of(wait: u8) -> (r: u64)
    ensures
        r == wait_timeout(wait),
{
    if wait == 1 || wait == 2 {
        ACK_TIMEOUT_US
    } else {
        TIMEOUT_US
    }
}

/// Decodes the forty bits of a frame: five bytes, most significant first.
pub fn decode_bits_of(bits: u64) -> (r: Result<SensorData, DriverError>)
    ensures
        r == decode_bits(bits),
{
    let h1: u8 = ((bits >> 32u64) & 0xff) as u8;
    let h2: u8 = ((bits >> 24u64) & 0xff) as u8;
    let t1: u8 = ((bits >> 16u64) & 0xff) as u8;
    let t2: u8 = ((bits >> 8u64) & 0xff) as u8;
    let checksum_byte: u8 = (bits & 0xff) as u8;
    assert(frame_byte(bits, 4) == (bits & 0xff) as u8) by (bit_vector);
    decode_frame(h1, h2, t1, t2, checksum_byte)
}

impl DHT11 {
    /// A driver with an empty cache, created at time `now_us`.
    pub fn new(now_us: u64) -> (r: DHT11)
        ensures
            r.wf(),
            !r.reading(),
            r.cached() is None,
            r.last_read() == now_us,
    {
        DHT11 { phase: Phase::Idle, last_read_us: now_us, last_data: None }
    }

    /// Whether a read is under way, so that `advance` expects an event.
    pub fn is_reading(&self) -> (r: bool)
        ensures
            r == self.reading(),
    {
        match self.phase {
            Phase::Idle => false,
            _ => true,
        }
    }

    /// Starts a read at time `now_us`. A reading younger than a second is
    /// returned at once as `Finish`, with no line operation and the driver
    /// unchanged; otherwise the handshake begins and its first operation is
    /// returned.
    pub fn read(&mut self, now_us: u64) -> (r: Action)
        requires
            old(self).wf(),
        ensures
            final(self).wf(),
            (*final(self), r) == old(self).read_spec(now_us),
    {
        let fresh: bool = match self.last_data {
            Some(_) => elapsed_us(self.last_read_us, now_us) < MIN_INTERVAL_US,
            None => false,
        };
        if fresh {
            Action::Finish(Ok(self.last_data.unwrap()))
        } else {
            self.phase = Phase::Handshake { step: 0 };
            handshake_action_of(0)
        }
    }

    /// Takes the outcome of the last action of a read under way and returns
    /// the next action.
    pub fn advance(&mut self, e: Event) -> (r: Action)
        requires
            old(self).wf(),
            old(self).reading(),
        ensures
            final(self).wf(),
            (*final(self), r) == old(self).advance_spec(e),
    {
        match self.phase {
            Phase::Idle => Action::Sample,
            Phase::Handshake { step } => {
                if step < LAST_HANDSHAKE_STEP {
                    self.phase = Phase::Handshake { step: step + 1 };
                    handshake_action_of(step + 1)
                } else {
                    let now_us: u64 = match e {
                        Event::Performed { now_us } => now_us,
                        Event::Sampled { now_us, .. } => now_us,
                    };
                    self.phase = Phase::Waiting { wait: 0, start_us: now_us, bits: 0 };
                    Action::Sample
                }
            },
            Phase::Waiting { wait, start_us, bits } => match e {
                Event::Performed { .. } => Action::Sample,
                Event::Sampled { level, now_us } => {
                    if level == wait_level_of(wait) {
                        self.on_edge(wait, start_us, bits, now_us)
                    } else if elapsed_us(start_us, now_us) > wait_timeout_of(wait) {
                        self.phase = Phase::Idle;
                        Action::Finish(Err(DriverError::SignalTimeoutError))
                    } else {
                        Action::Sample
                    }
                },
            },
        }
    }

    /// Ends wait number `wait`: records a bit where the wait measured one,
    /// and after the last wait decodes the frame and updates the cache.
    fn on_edge(&mut self, wait: u8, start_us: u64, bits: u64, now_us: u64) -> (r: Action)
        requires
            wait <= LAST_WAIT,
        ensures
            final(self).wf(),
            (*final(self), r) == old(self).edge_spec(wait, start_us, bits, now_us),
    {
        let next_bits: u64 = if wait >= 4 && wait % 2 == 0 {
            let one: u64 = if elapsed_us(start_us, now_us) > BIT_1_DELAY_US {
                1
            } else {
                0
            };
            (bits << 1u64) | one
        } else {
            bits
        };
        if wait == LAST_WAIT {
            let outcome = decode_bits_of(next_bits);
            match outcome {
                Ok(data) => {
                    self.phase = Phase::Idle;
                    self.last_read_us = now_us;
                    self.last_data = Some(data);
                },
                Err(_) => {
                    self.phase = Phase::Idle;
                },
            }
            Action::Finish(outcome)
        } else {
            self.phase = Phase::Waiting { wait: wait + 1, start_us: now_us, bits: next_bits };
            Action::Sample
        }
    }
}

/// A read that ends in success fills the cache, and a second read less than a
/// second later returns the same data at once, with no line operation and
/// without changing the driver.
pub proof fn lemma_cache_hit(d: DHT11, e: Event, data: SensorData, later: u64)
    requires
        d.wf(),
        d.reading(),
        d.advance_spec(e).1 == Action::Finish(Ok(data)),
        event_time(e) <= later,
        later < event_time(e) + MIN_INTERVAL_US,
    ensures
        d.advance_spec(e).0.read_spec(later) == (d.advance_spec(e).0, Action::Finish(Ok(data))),
{
}

/// Once the cached reading is a second old or older, a read starts the
/// handshake: its first action switches the line to output.
pub proof fn lemma_cache_miss(d: DHT11, now: u64)
    requires
        d.wf(),
        now >= d.last_read() + MIN_INTERVAL_US,
    ensures
        d.read_spec(now).1 == Action::SetMode(PinMode::Output),
        d.read_spec(now).0.handshake_step() == Some(0u8),
        d.read_spec(now).0.cached() == d.cached(),
{
}

/// While a wait is under way, a sample at the wrong level ends the read with a
/// timeout once the wait's deadline has passed, leaving the cache as it was;
/// before the deadline the driver keeps sampling.
pub proof fn lemma_timeout(d: DHT11, level: Level, now: u64)
    requires
        d.wf(),
        d.current_wait() is Some,
        level != wait_level(d.current_wait().unwrap().0),
    ensures
        ({
            let (wait, start) = d.current_wait().unwrap();
            let (next, action) = d.advance_spec(Event::Sampled { level, now_us: now });
            if elapsed(start, now) > wait_timeout(wait) {
                action == Action::Finish(Err(DriverError::SignalTimeoutError)) && !next.reading()
                    && next.cached() == d.cached() && next.last_read() == d.last_read()
            } else {
                action == Action::Sample && next == d
            }
        }),
{
}

/// A read that ends in failure leaves the cache untouched, and one that ends in
/// success stores its data with the time of the last event.
pub proof fn lemma_finish_and_cache(d: DHT11, e: Event)
    requires
        d.wf(),
        d.reading(),
    ensures
        d.advance_spec(e).1 is Finish ==> !d.advance_spec(e).0.reading(),
        d.advance_spec(e).1 matches Action::Finish(Err(_)) ==> d.advance_spec(e).0.cached()
            == d.cached() && d.advance_spec(e).0.last_read() == d.last_read(),
        d.advance_spec(e).1 matches Action::Finish(Ok(data)) ==> d.advance_spec(e).0.cached()
            == Some(data) && d.advance_spec(e).0.last_read() == event_time(e),
        !(d.advance_spec(e).1 is Finish) ==> d.advance_spec(e).0.cached() == d.cached()
            && d.advance_spec(e).0.last_read() == d.last_read(),
{
}

/// When the last bit arrives and the frame's checksum byte is not the wrapping
/// sum of its data bytes, the read fails with a checksum error and the cache
/// keeps what it held.
pub proof fn lemma_checksum_error_keeps_cache(d: DHT11, e: Event)
    requires
        d.wf(),
        d.reading(),
        d.advance_spec(e).1 == Action::Finish(Err(DriverError::ChecksumError)),
    ensures
        d.advance_spec(e).0.cached() == d.cached(),
        d.advance_spec(e).0.last_read() == d.last_read(),
        !d.advance_spec(e).0.reading(),
{
}

/// The handshake issues, in order: output mode, high, a 50 ms hold, low, a
/// 20 ms hold, high, input mode; then the driver samples the line.
pub proof fn lemma_handshake_order(d: DHT11, e: Event)
    requires
        d.wf(),
        d.handshake_step() is Some,
    ensures
        ({
            let step = d.handshake_step().unwrap();
            let (next, action) = d.advance_spec(e);
            if step < LAST_HANDSHAKE_STEP {
                next.handshake_step() == Some((step + 1) as u8) && action == handshake_action(
                    (step + 1) as u8,
                )
            } else {
                next.current_wait() == Some((0u8, event_time(e))) && action == Action::Sample
            }
        }),
        handshake_action(0) == Action::SetMode(PinMode::Output),
        handshake_action(1) == Action::SetLevel(Level::High),
        handshake_action(2) == Action::Sleep(IDLE_HOLD_US),
        handshake_action(3) == Action::SetLevel(Level::Low),
        handshake_action(4) == Action::Sleep(START_HOLD_US),
        handshake_action(5) == Action::SetLevel(Level::High),
        handshake_action(6) == Action::SetMode(PinMode::Input),
{
}

} // verus!
