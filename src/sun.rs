use vstd::prelude::*;

verus! {

/// Temperature by day, in kelvin.
pub const HIGH_TEMP: u16 = 6500;

/// Temperature by night, in kelvin.
pub const LOW_TEMP: u16 = 4000;

/// Earliest instant that jiff can hold, in milliseconds since the Unix epoch.
pub const MIN_TIMESTAMP_MS: i64 = -377705023201000;

/// Latest instant that jiff can hold, in milliseconds since the Unix epoch.
pub const MAX_TIMESTAMP_MS: i64 = 253402207200000;

/// An instant, in milliseconds since the Unix epoch.
#[derive(Clone, Copy, Debug, PartialEq, Eq, Structural)]
pub struct Timestamp {
    pub millis: i64,
}

/// Why the sun's times could not be taken.
#[derive(Clone, Copy, Debug, PartialEq, Eq, Structural)]
pub enum SunError {
    /// A phase fell outside the range of instants that can be represented.
    TimestampOutOfRange,
}

/// The four phases of one day's sun.
#[derive(Clone, Copy, Debug, PartialEq, Eq, Structural)]
pub struct SunTimes {
    pub dawn: Timestamp,
    pub sunrise: Timestamp,
    pub sunset: Timestamp,
    pub dusk: Timestamp,
}

impl SunTimes {
    /// The phases come in their natural order.
    pub open spec fn is_ordered(self) -> bool {
        self.dawn.millis <= self.sunrise.millis <= self.sunset.millis <= self.dusk.millis
    }
}

pub open spec fn in_timestamp_range(ms: int) -> bool {
    MIN_TIMESTAMP_MS <= ms <= MAX_TIMESTAMP_MS
}

/// Relies on jiff::Timestamp::from_millisecond, which fails exactly when the value
/// lies outside `Timestamp::MIN..=Timestamp::MAX` (jiff-core's `UnixEpochMilliseconds`).
#[verifier::external_body]
fn jiff_accepts_millisecond(ms: i64) -> (r: bool)
    ensures
        r == in_timestamp_range(ms as int),
{
    jiff::Timestamp::from_millisecond(ms).is_ok()
}

impl Timestamp {
    /// The instant `ms` milliseconds after the epoch, if jiff can represent it.
    pub fn from_millisecond(ms: i64) -> (r: Result<Timestamp, SunError>)
        ensures
            match r {
                Ok(t) => in_timestamp_range(ms as int) && t.millis == ms,
                Err(e) => !in_timestamp_range(ms as int) && e == SunError::TimestampOutOfRange,
            },
    {
        if jiff_accepts_millisecond(ms) {
            Ok(Timestamp { millis: ms })
        } else {
            Err(SunError::TimestampOutOfRange)
        }
    }
}

/// The sun's phases from the instants, in milliseconds, that an astronomical
/// function gave for them; an error when one cannot be represented.
pub fn sun_times_from_millis(dawn: i64, sunrise: i64, sunset: i64, dusk: i64) -> (r: Result<
    SunTimes,
    SunError,
>)
    ensures
        match r {
            Ok(s) => {
                &&& in_timestamp_range(dawn as int) && in_timestamp_range(sunrise as int)
                &&& in_timestamp_range(sunset as int) && in_timestamp_range(dusk as int)
                &&& s.dawn.millis == dawn && s.sunrise.millis == sunrise
                &&& s.sunset.millis == sunset && s.dusk.millis == dusk
            },
            Err(e) => {
                &&& e == SunError::TimestampOutOfRange
                &&& !(in_timestamp_range(dawn as int) && in_timestamp_range(sunrise as int)
                    && in_timestamp_range(sunset as int) && in_timestamp_range(dusk as int))
            },
        },
{
    let dawn = Timestamp::from_millisecond(dawn)?;
    let sunrise = Timestamp::from_millisecond(sunrise)?;
    let sunset = Timestamp::from_millisecond(sunset)?;
    let dusk = Timestamp::from_millisecond(dusk)?;
    Ok(SunTimes { dawn, sunrise, sunset, dusk })
}

/// How far `now` has come through the window from `start` to `stop`, as `(p, q)`
/// with `0 <= p <= q`: the fraction `p / q`, clamped to the window.
pub open spec fn window_position(now: int, start: int, stop: int) -> (int, int) {
    let (p, q) = if stop > start {
        (now - start, stop - start)
    } else {
        (start - now, start - stop)
    };
    if p < 0 {
        (0, q)
    } else if p > q {
        (q, q)
    } else {
        (p, q)
    }
}

/// The temperature at `now` on the straight line from `temp_start` at `start` to
/// `temp_stop` at `stop`, clamped to the window and rounded down; `temp_stop` when the
/// window is empty.
pub open spec fn interpolated(now: int, start: int, stop: int, temp_start: int, temp_stop: int) -> int {
    if start == stop {
        temp_stop
    } else {
        let (p, q) = window_position(now, start, stop);
        (temp_start * q + (temp_stop - temp_start) * p) / q
    }
}

/// The temperature that the sun's position asks for at `now`.
pub open spec fn target_temperature(now: int, sun: SunTimes) -> int {
    if now < sun.dawn.millis {
        LOW_TEMP as int
    } else if now < sun.sunrise.millis {
        interpolated(now, sun.dawn.millis as int, sun.sunrise.millis as int, LOW_TEMP as int, HIGH_TEMP as int)
    } else if now < sun.sunset.millis {
        HIGH_TEMP as int
    } else if now < sun.dusk.millis {
        interpolated(now, sun.sunset.millis as int, sun.dusk.millis as int, HIGH_TEMP as int, LOW_TEMP as int)
    } else {
        LOW_TEMP as int
    }
}

proof fn lemma_interpolated_between(now: int, start: int, stop: int, a: int, b: int)
    requires
        0 <= a,
        0 <= b,
    ensures
        a <= b ==> a <= interpolated(now, start, stop, a, b) <= b,
        b <= a ==> b <= interpolated(now, start, stop, a, b) <= a,
{
    if start != stop {
        let (p, q) = window_position(now, start, stop);
        assert(0 <= p <= q && q > 0);
        let num = a * q + (b - a) * p;
        assert(a <= b ==> a * q <= num <= b * q) by (nonlinear_arith)
            requires
                num == a * q + (b - a) * p,
                0 <= p <= q,
        ;
        assert(b <= a ==> b * q <= num <= a * q) by (nonlinear_arith)
            requires
                num == a * q + (b - a) * p,
                0 <= p <= q,
        ;
        assert(a * q <= num ==> a <= num / q) by (nonlinear_arith)
            requires
                q > 0,
        ;
        assert(num <= b * q ==> num / q <= b) by (nonlinear_arith)
            requires
                q > 0,
        ;
        assert(b * q <= num ==> b <= num / q) by (nonlinear_arith)
            requires
                q > 0,
        ;
        assert(num <= a * q ==> num / q <= a) by (nonlinear_arith)
            requires
                q > 0,
        ;
    }
}

/// Interpolates between two temperatures across a window of time (see `interpolated`).
pub fn interpolate_temperature(
    now: Timestamp,
    start: Timestamp,
    stop: Timestamp,
    temp_start: u16,
    temp_stop: u16,
) -> (r: u16)
    ensures
        r == interpolated(
            now.millis as int,
            start.millis as int,
            stop.millis as int,
            temp_start as int,
            temp_stop as int,
        ),
{
    if start.millis == stop.millis {
        return temp_stop;
    }
    proof {
        lemma_interpolated_between(
            now.millis as int,
            start.millis as int,
            stop.millis as int,
            temp_start as int,
            temp_stop as int,
        );
    }
    let now = now.millis as i128;
    let start = start.millis as i128;
    let stop = stop.millis as i128;
    let (p0, q) = if stop > start {
        (now - start, stop - start)
    } else {
        (start - now, start - stop)
    };
    let p = if p0 < 0 {
        0
    } else if p0 > q {
        q
    } else {
        p0
    };
    let a = temp_start as i128;
    let b = temp_stop as i128;
    proof {
        assert(0 <= a * q <= 65535 * 36893488147419103232) by (nonlinear_arith)
            requires
                0 <= a <= 65535,
                0 < q <= 36893488147419103232,
        ;
        assert(-65535 * 36893488147419103232 <= (b - a) * p <= 65535 * 36893488147419103232)
            by (nonlinear_arith)
            requires
                0 <= a <= 65535,
                0 <= b <= 65535,
                0 <= p <= 36893488147419103232,
        ;
    }
    let num = a * q + (b - a) * p;
    proof {
        assert((p as int, q as int) == window_position(now as int, start as int, stop as int));
        assert(num >= 0) by (nonlinear_arith)
            requires
                num == a * q + (b - a) * p,
                0 <= a,
                0 <= b,
                0 <= p <= q,
        ;
    }
    let v = num / q;
    v as u16
}

/// The temperature for `now`: `LOW_TEMP` at night, `HIGH_TEMP` by day, and a straight
/// line between them from dawn to sunrise and from sunset to dusk.
pub fn get_temperature(now: Timestamp, sun: SunTimes) -> (r: u16)
    ensures
        r == target_temperature(now.millis as int, sun),
{
    if now.millis < sun.dawn.millis {
        LOW_TEMP
    } else if now.millis < sun.sunrise.millis {
        interpolate_temperature(now, sun.dawn, sun.sunrise, LOW_TEMP, HIGH_TEMP)
    } else if now.millis < sun.sunset.millis {
        HIGH_TEMP
    } else if now.millis < sun.dusk.millis {
        interpolate_temperature(now, sun.sunset, sun.dusk, HIGH_TEMP, LOW_TEMP)
    } else {
        LOW_TEMP
    }
}

/// When dawn and sunrise fall on the same instant, the temperature at that instant is
/// the one the dawn window ends on, the day's; this holds unless dusk falls on that
/// instant too, when the day has no length at all.
pub proof fn lemma_empty_dawn_window(sun: SunTimes)
    requires
        sun.is_ordered(),
        sun.dawn == sun.sunrise,
        sun.sunrise.millis < sun.dusk.millis,
    ensures
        target_temperature(sun.sunrise.millis as int, sun) == HIGH_TEMP,
{
    if sun.sunrise.millis == sun.sunset.millis {
        let q = sun.dusk.millis - sun.sunset.millis;
        assert((6500 * q + (4000 - 6500) * 0) / q == 6500) by (nonlinear_arith)
            requires
                q > 0,
        ;
    }
}

/// Between sunset and dusk the temperature lies below the day's and not below the
/// night's, it never rises as the instant moves on toward dusk, and it stays above the
/// night's until the last 1/2500 of the window.
pub proof fn lemma_dusk_descends(sun: SunTimes, a: int, b: int)
    requires
        sun.is_ordered(),
        sun.sunset.millis < a <= b < sun.dusk.millis,
    ensures
        LOW_TEMP <= target_temperature(a, sun) < HIGH_TEMP,
        target_temperature(b, sun) <= target_temperature(a, sun),
        2500 * (a - sun.sunset.millis) <= 2499 * (sun.dusk.millis - sun.sunset.millis) ==> LOW_TEMP
            < target_temperature(a, sun),
{
    let q = sun.dusk.millis - sun.sunset.millis;
    let pa = a - sun.sunset.millis;
    let pb = b - sun.sunset.millis;
    let na = 6500 * q + (4000 - 6500) * pa;
    let nb = 6500 * q + (4000 - 6500) * pb;
    assert(target_temperature(a, sun) == na / q);
    assert(target_temperature(b, sun) == nb / q);
    lemma_interpolated_between(a, sun.sunset.millis as int, sun.dusk.millis as int, 6500, 4000);
    assert(na / q < 6500) by (nonlinear_arith)
        requires
            na == 6500 * q - 2500 * pa,
            0 < pa,
            0 < q,
    ;
    assert(nb <= na);
    vstd::arithmetic::div_mod::lemma_div_is_ordered(nb, na, q);
    if 2500 * pa <= 2499 * q {
        assert(na / q >= 4001) by (nonlinear_arith)
            requires
                na == 6500 * q - 2500 * pa,
                2500 * pa <= 2499 * q,
                0 < q,
        ;
    }
}

/// What one recomputation found.
#[derive(Clone, Copy, Debug, PartialEq, Eq, Structural)]
pub struct Recompute {
    /// The sun's times differ from the ones held before.
    pub sun_changed: bool,
    /// The new temperature, when it differs from the one applied before.
    pub new_temperature: Option<u16>,
}

/// What the driving loop remembers between recomputations: the sun's last times and
/// the temperature last applied.
#[derive(Clone, Copy, Debug, PartialEq, Eq, Structural)]
pub struct Schedule {
    pub sun: Option<SunTimes>,
    pub temperature: u16,
}

impl Schedule {
    /// Nothing known of the sun yet; the day's temperature is taken as applied.
    pub fn new() -> (r: Schedule)
        ensures
            r.sun is None,
            r.temperature == HIGH_TEMP,
    {
        Schedule { sun: None, temperature: HIGH_TEMP }
    }

    /// Takes the sun's times for `now` and says whether they changed and which
    /// temperature, if any, is to be applied now.
    pub fn recompute(&mut self, now: Timestamp, sun: SunTimes) -> (r: Recompute)
        ensures
            final(self).sun == Some(sun),
            r.sun_changed == (old(self).sun != Some(sun)),
            final(self).temperature == target_temperature(now.millis as int, sun),
            r.new_temperature == (if target_temperature(now.millis as int, sun)
                == old(self).temperature {
                None
            } else {
                Some(final(self).temperature)
            }),
    {
        let sun_changed = match self.sun {
            Some(held) => held != sun,
            None => true,
        };
        self.sun = Some(sun);
        let t = get_temperature(now, sun);
        let new_temperature = if t == self.temperature {
            None
        } else {
            self.temperature = t;
            Some(t)
        };
        Recompute { sun_changed, new_temperature }
    }
}

} // verus!
