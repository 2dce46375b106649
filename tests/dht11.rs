use sensors::driver::{decode_bits_of, MIN_INTERVAL_US, TIMEOUT_US};
use sensors::{checksum, decode_frame, Action, DriverError, Event, Level, PinMode, SensorData, DHT11};

/// A line that, once the driver hands it over, plays back a script of levels,
/// each held for a number of microseconds, and then stays at `rest`.
struct FakeLine {
    segments: Vec<(Level, u64)>,
    rest: Level,
}

impl FakeLine {
    fn level_at(&self, t: u64) -> Level {
        let mut end: u64 = 0;
        for &(level, len) in &self.segments {
            end += len;
            if t < end {
                return level;
            }
        }
        self.rest
    }

    /// The response of a sensor that sends these five bytes.
    fn sending(bytes: [u8; 5]) -> FakeLine {
        let mut segments = vec![(Level::High, 20), (Level::Low, 80), (Level::High, 80)];
        for byte in bytes {
            for i in 0..8 {
                let one = byte & (0x80 >> i) != 0;
                segments.push((Level::Low, 50));
                segments.push((Level::High, if one { 70 } else { 26 }));
            }
        }
        segments.push((Level::Low, 50));
        FakeLine { segments, rest: Level::High }
    }

    fn stuck_at(level: Level) -> FakeLine {
        FakeLine { segments: vec![], rest: level }
    }
}

/// Runs one read against the fake line; each sample takes one microsecond.
/// Returns the outcome and the line operations that the driver asked for.
fn run_read(d: &mut DHT11, now: &mut u64, line: &FakeLine) -> (Result<SensorData, DriverError>, Vec<Action>) {
    let mut ops = Vec::new();
    let mut input_since: Option<u64> = None;
    let mut action = d.read(*now);
    loop {
        match action {
            Action::Finish(r) => return (r, ops),
            Action::SetMode(mode) => {
                ops.push(action);
                *now += 1;
                if mode == PinMode::Input {
                    input_since = Some(*now);
                }
                action = d.advance(Event::Performed { now_us: *now });
            }
            Action::SetLevel(_) => {
                ops.push(action);
                *now += 1;
                action = d.advance(Event::Performed { now_us: *now });
            }
            Action::Sleep(us) => {
                ops.push(action);
                *now += us;
                action = d.advance(Event::Performed { now_us: *now });
            }
            Action::Sample => {
                *now += 1;
                let since = input_since.expect("sampled before input mode");
                let level = line.level_at(*now - since);
                action = d.advance(Event::Sampled { level, now_us: *now });
            }
        }
    }
}

/// Time that the fake spends on the handshake: five 1 us line operations
/// and the two holds.
const HANDSHAKE_US: u64 = 5 + 50_000 + 20_000;

fn frame(h1: u8, h2: u8, t1: u8, t2: u8) -> [u8; 5] {
    [h1, h2, t1, t2, checksum(h1, h2, t1, t2)]
}

#[test]
fn checksum_wraps() {
    assert_eq!(checksum(50, 0, 23, 5), 78);
    assert_eq!(checksum(200, 100, 0, 0), 44);
    assert_eq!(checksum(255, 255, 255, 255), 252);
}

#[test]
fn concrete_scenario_positive() {
    let data = decode_frame(50, 0, 23, 5, 78).unwrap();
    assert_eq!(data, SensorData { temperature_tenths: 235, humidity_tenths: 500 });
    assert_eq!(data.humidity_tenths as f32 / 10.0, 50.0);
    assert_eq!(data.temperature_tenths as f32 / 10.0, 23.5);
}

#[test]
fn concrete_scenario_negative() {
    let cs = checksum(50, 0, 23, 0x85);
    assert_eq!(cs, 206);
    let data = decode_frame(50, 0, 23, 0x85, cs).unwrap();
    assert_eq!(data.temperature_tenths, -235);
    assert_eq!(data.temperature_tenths as f32 / 10.0, -23.5);
    assert_eq!(data.humidity_tenths, 500);
}

#[test]
fn round_trip_on_many_frames() {
    for h1 in [0u8, 1, 37, 128, 255] {
        for h2 in [0u8, 9, 200, 255] {
            for t1 in [0u8, 23, 255] {
                for t2 in [0u8, 5, 0x7f, 0x80, 0x85, 0xff] {
                    let data = decode_frame(h1, h2, t1, t2, checksum(h1, h2, t1, t2)).unwrap();
                    assert_eq!(data.humidity_tenths, 10 * h1 as u32 + h2 as u32);
                    let magnitude = 10 * t1 as i32 + (t2 & 0x7f) as i32;
                    let expected = if t2 & 0x80 != 0 { -magnitude } else { magnitude };
                    assert_eq!(data.temperature_tenths, expected);
                }
            }
        }
    }
}

#[test]
fn checksum_mismatch_is_refused() {
    assert_eq!(decode_frame(50, 0, 23, 5, 79), Err(DriverError::ChecksumError));
    assert_eq!(decode_frame(50, 0, 23, 5, 0), Err(DriverError::ChecksumError));
    assert_eq!(decode_frame(0, 0, 0, 0, 255), Err(DriverError::ChecksumError));
}

#[test]
fn decode_bits_takes_bytes_most_significant_first() {
    let bits: u64 = (50u64 << 32) | (0 << 24) | (23 << 16) | (5 << 8) | 78;
    assert_eq!(decode_bits_of(bits), Ok(SensorData { temperature_tenths: 235, humidity_tenths: 500 }));
    assert_eq!(decode_bits_of(bits ^ 1), Err(DriverError::ChecksumError));
}

#[test]
fn full_read_decodes_the_frame() {
    let mut now: u64 = 1_000;
    let mut d = DHT11::new(now);
    let (r, ops) = run_read(&mut d, &mut now, &FakeLine::sending(frame(50, 0, 23, 5)));
    assert_eq!(r, Ok(SensorData { temperature_tenths: 235, humidity_tenths: 500 }));
    assert!(!d.is_reading());
    assert_eq!(ops.len(), 7);
    assert!(matches!(ops[0], Action::SetMode(PinMode::Output)));
    assert!(matches!(ops[1], Action::SetLevel(Level::High)));
    assert!(matches!(ops[2], Action::Sleep(50_000)));
    assert!(matches!(ops[3], Action::SetLevel(Level::Low)));
    assert!(matches!(ops[4], Action::Sleep(20_000)));
    assert!(matches!(ops[5], Action::SetLevel(Level::High)));
    assert!(matches!(ops[6], Action::SetMode(PinMode::Input)));
}

#[test]
fn full_read_of_negative_temperature() {
    let mut now: u64 = 0;
    let mut d = DHT11::new(now);
    let (r, _) = run_read(&mut d, &mut now, &FakeLine::sending(frame(50, 0, 23, 0x85)));
    assert_eq!(r, Ok(SensorData { temperature_tenths: -235, humidity_tenths: 500 }));
}

#[test]
fn cache_hit_within_a_second() {
    let mut now: u64 = 0;
    let mut d = DHT11::new(now);
    let line = FakeLine::sending(frame(61, 2, 19, 8));
    let (first, _) = run_read(&mut d, &mut now, &line);
    let first = first.unwrap();
    now += MIN_INTERVAL_US - 1;
    let (second, ops) = run_read(&mut d, &mut now, &FakeLine::stuck_at(Level::High));
    assert_eq!(second, Ok(first));
    assert!(ops.is_empty());
}

#[test]
fn cache_miss_after_a_second() {
    let mut now: u64 = 0;
    let mut d = DHT11::new(now);
    let (first, _) = run_read(&mut d, &mut now, &FakeLine::sending(frame(61, 2, 19, 8)));
    assert!(first.is_ok());
    now += MIN_INTERVAL_US;
    assert!(matches!(d.read(now), Action::SetMode(PinMode::Output)));
    assert!(d.is_reading());
    let (second, ops) = run_read(&mut d, &mut now, &FakeLine::sending(frame(40, 0, 20, 0)));
    assert_eq!(second, Ok(SensorData { temperature_tenths: 200, humidity_tenths: 400 }));
    assert_eq!(ops.len(), 7);
}

#[test]
fn empty_cache_triggers_handshake() {
    let mut d = DHT11::new(0);
    assert!(matches!(d.read(10), Action::SetMode(PinMode::Output)));
}

#[test]
fn timeout_when_line_never_answers() {
    let mut now: u64 = 0;
    let mut d = DHT11::new(now);
    let start = HANDSHAKE_US;
    let (r, _) = run_read(&mut d, &mut now, &FakeLine::stuck_at(Level::High));
    assert_eq!(r, Err(DriverError::SignalTimeoutError));
    let waited = now - start;
    assert!(waited > TIMEOUT_US && waited <= TIMEOUT_US + 1, "waited {}", waited);
    assert!(!d.is_reading());
}

#[test]
fn timeout_on_short_acknowledgement() {
    let mut now: u64 = 0;
    let mut d = DHT11::new(now);
    let line = FakeLine { segments: vec![(Level::High, 20)], rest: Level::Low };
    let (r, _) = run_read(&mut d, &mut now, &line);
    assert_eq!(r, Err(DriverError::SignalTimeoutError));
    let start = HANDSHAKE_US + 20;
    assert_eq!(now - start, 101);
}

#[test]
fn checksum_error_keeps_cache() {
    let mut now: u64 = 0;
    let mut d = DHT11::new(now);
    let (first, _) = run_read(&mut d, &mut now, &FakeLine::sending(frame(55, 1, 21, 3)));
    assert!(first.is_ok());
    now += MIN_INTERVAL_US;
    let mut bad = frame(10, 0, 30, 0);
    bad[4] = bad[4].wrapping_add(1);
    let (r, _) = run_read(&mut d, &mut now, &FakeLine::sending(bad));
    assert_eq!(r, Err(DriverError::ChecksumError));
    // Had the failed read refreshed the cache, this read would be served from it.
    assert!(matches!(d.read(now + 1), Action::SetMode(PinMode::Output)));
}

#[test]
fn failed_read_does_not_extend_cache_age() {
    let mut now: u64 = 0;
    let mut d = DHT11::new(now);
    let (first, _) = run_read(&mut d, &mut now, &FakeLine::sending(frame(55, 1, 21, 3)));
    assert!(first.is_ok());
    now += MIN_INTERVAL_US;
    let (r, _) = run_read(&mut d, &mut now, &FakeLine::stuck_at(Level::High));
    assert_eq!(r, Err(DriverError::SignalTimeoutError));
    assert!(matches!(d.read(now), Action::SetMode(PinMode::Output)));
}

#[test]
fn high_pulse_threshold_decides_bits() {
    // Pulses of 50 us decode to zero, 51 us to one.
    let mut segments = vec![(Level::High, 20), (Level::Low, 80), (Level::High, 80)];
    let bytes = frame(0xff, 0, 0, 0);
    for byte in bytes {
        for i in 0..8 {
            let one = byte & (0x80 >> i) != 0;
            segments.push((Level::Low, 50));
            segments.push((Level::High, if one { 51 } else { 50 }));
        }
    }
    segments.push((Level::Low, 50));
    let line = FakeLine { segments, rest: Level::High };
    let mut now: u64 = 0;
    let mut d = DHT11::new(now);
    let (r, _) = run_read(&mut d, &mut now, &line);
    assert_eq!(r, Ok(SensorData { temperature_tenths: 0, humidity_tenths: 2550 }));
}
