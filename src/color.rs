use vstd::prelude::*;

verus! {

/// Why a ramp could not be made.
#[derive(Clone, Copy, Debug, PartialEq, Eq, Structural)]
pub enum ColorError {
    /// The temperature lies outside `MIN_TEMPERATURE..=MAX_TEMPERATURE`.
    InvalidTemperature,
    /// A ramp needs at least two samples.
    InvalidRampSize,
}

/// What a display is asked to show: a temperature in kelvin, a brightness in
/// thousandths, and whether the channels are inverted.
#[derive(Clone, Copy, Debug, PartialEq, Eq, Structural)]
pub struct ColorProfile {
    pub temperature: u16,
    pub brightness: u16,
    pub inverted: bool,
}

impl ColorProfile {
    pub open spec fn is_valid(self) -> bool {
        valid_temperature(self.temperature as int) && self.brightness <= FULL_BRIGHTNESS
    }

    /// The profile that changes only the temperature: full brightness, not inverted.
    pub fn from_temperature(temperature: u16) -> (r: ColorProfile)
        ensures
            r == (ColorProfile { temperature, brightness: FULL_BRIGHTNESS, inverted: false }),
    {
        ColorProfile { temperature, brightness: FULL_BRIGHTNESS, inverted: false }
    }
}

/// A black-body tint: each channel in units of 1e-10, so that `TINT_ONE` is 1.0.
#[derive(Clone, Copy, Debug, PartialEq, Eq, Structural)]
pub struct Tint {
    pub red: u64,
    pub green: u64,
    pub blue: u64,
}

impl View for Tint {
    type V = (int, int, int);

    open spec fn view(&self) -> (int, int, int) {
        (self.red as int, self.green as int, self.blue as int)
    }
}

/// Lowest colour temperature, in kelvin, that a ramp can be made for.
pub const MIN_TEMPERATURE: u16 = 1000;

/// Highest colour temperature, in kelvin, that a ramp can be made for.
pub const MAX_TEMPERATURE: u16 = 10000;

/// Largest value of a ramp sample.
pub const MAX_INTENSITY: u16 = 65535;

/// Brightness of an unscaled ramp, in thousandths.
pub const FULL_BRIGHTNESS: u16 = 1000;

/// A table entry of 1.0 (entries are fixed-point with eight decimals).
pub const TABLE_ONE: u64 = 100000000;

/// A tint channel of 1.0 (a table entry times an interpolation weight out of 100).
pub const TINT_ONE: u64 = 10000000000;

/// Entries in the black-body table: every 100 K from 1000 K to 10100 K.
pub const TABLE_LEN: usize = 92;

/// Colour of black-body radiation at `1000 + 100 * idx` kelvin, as red, green and
/// blue in units of 1e-8 (after gammastep's colour ramp table).
pub open spec fn blackbody(idx: usize) -> (u32, u32, u32) {
    match idx {
        0 => (100000000, 18172716, 0),
        1 => (100000000, 25503671, 0),
        2 => (100000000, 30942099, 0),
        3 => (100000000, 35357379, 0),
        4 => (100000000, 39091524, 0),
        5 => (100000000, 42322816, 0),
        6 => (100000000, 45159884, 0),
        7 => (100000000, 47675916, 0),
        8 => (100000000, 49923747, 0),
        9 => (100000000, 51943421, 0),
        10 => (100000000, 54360078, 8679949),
        11 => (100000000, 56618736, 14065513),
        12 => (100000000, 58734976, 18362641),
        13 => (100000000, 60724493, 22137978),
        14 => (100000000, 62600248, 25591950),
        15 => (100000000, 64373109, 28819679),
        16 => (100000000, 66052319, 31873863),
        17 => (100000000, 67645822, 34786758),
        18 => (100000000, 69160518, 37579588),
        19 => (100000000, 70602449, 40267128),
        20 => (100000000, 71976951, 42860152),
        21 => (100000000, 73288760, 45366838),
        22 => (100000000, 74542112, 47793608),
        23 => (100000000, 75740814, 50145662),
        24 => (100000000, 76888303, 52427322),
        25 => (100000000, 77987699, 54642268),
        26 => (100000000, 79041843, 56793692),
        27 => (100000000, 80053332, 58884417),
        28 => (100000000, 81024551, 60916971),
        29 => (100000000, 81957693, 62893653),
        30 => (100000000, 82854786, 64816570),
        31 => (100000000, 83717703, 66687674),
        32 => (100000000, 84548188, 68508786),
        33 => (100000000, 85347859, 70281616),
        34 => (100000000, 86118227, 72007777),
        35 => (100000000, 86860704, 73688797),
        36 => (100000000, 87576611, 75326132),
        37 => (100000000, 88267187, 76921169),
        38 => (100000000, 88933596, 78475236),
        39 => (100000000, 89576933, 79989606),
        40 => (100000000, 90198230, 81465502),
        41 => (100000000, 90963069, 82838210),
        42 => (100000000, 91710889, 84190889),
        43 => (100000000, 92441842, 85523742),
        44 => (100000000, 93156127, 86836903),
        45 => (100000000, 93853986, 88130458),
        46 => (100000000, 94535695, 89404470),
        47 => (100000000, 95201559, 90658983),
        48 => (100000000, 95851906, 91894041),
        49 => (100000000, 96487079, 93109690),
        50 => (100000000, 97107439, 94305985),
        51 => (100000000, 97713351, 95482993),
        52 => (100000000, 98305189, 96640795),
        53 => (100000000, 98883326, 97779486),
        54 => (100000000, 99448139, 98899179),
        55 => (100000000, 100000000, 100000000),
        56 => (98947904, 99348723, 100000000),
        57 => (97940448, 98722715, 100000000),
        58 => (96975025, 98120637, 100000000),
        59 => (96049223, 97541240, 100000000),
        60 => (95160805, 96983355, 100000000),
        61 => (94303638, 96443333, 100000000),
        62 => (93480451, 95923080, 100000000),
        63 => (92689056, 95421394, 100000000),
        64 => (91927697, 94937330, 100000000),
        65 => (91194747, 94470005, 100000000),
        66 => (90488690, 94018594, 100000000),
        67 => (89808115, 93582323, 100000000),
        68 => (89151710, 93160469, 100000000),
        69 => (88518247, 92752354, 100000000),
        70 => (87906581, 92357340, 100000000),
        71 => (87315640, 91974827, 100000000),
        72 => (86744421, 91604254, 100000000),
        73 => (86191983, 91245088, 100000000),
        74 => (85657444, 90896831, 100000000),
        75 => (85139976, 90559011, 100000000),
        76 => (84638799, 90231183, 100000000),
        77 => (84153180, 89912926, 100000000),
        78 => (83682430, 89603843, 100000000),
        79 => (83225897, 89303558, 100000000),
        80 => (82782969, 89011714, 100000000),
        81 => (82353066, 88727974, 100000000),
        82 => (81935641, 88452017, 100000000),
        83 => (81530175, 88183541, 100000000),
        84 => (81136180, 87922257, 100000000),
        85 => (80753191, 87667891, 100000000),
        86 => (80380769, 87420182, 100000000),
        87 => (80018497, 87178882, 100000000),
        88 => (79665980, 86943756, 100000000),
        89 => (79322843, 86714579, 100000000),
        90 => (78988728, 86491137, 100000000),
        91 => (78663296, 86273225, 100000000),
        _ => (0, 0, 0),
    }
}

fn blackbody_at(idx: usize) -> (r: (u32, u32, u32))
    requires
        idx < TABLE_LEN,
    ensures
        r == blackbody(idx),
        r.0 <= TABLE_ONE,
        r.1 <= TABLE_ONE,
        r.2 <= TABLE_ONE,
{
    match idx {
        0 => (100000000, 18172716, 0),
        1 => (100000000, 25503671, 0),
        2 => (100000000, 30942099, 0),
        3 => (100000000, 35357379, 0),
        4 => (100000000, 39091524, 0),
        5 => (100000000, 42322816, 0),
        6 => (100000000, 45159884, 0),
        7 => (100000000, 47675916, 0),
        8 => (100000000, 49923747, 0),
        9 => (100000000, 51943421, 0),
        10 => (100000000, 54360078, 8679949),
        11 => (100000000, 56618736, 14065513),
        12 => (100000000, 58734976, 18362641),
        13 => (100000000, 60724493, 22137978),
        14 => (100000000, 62600248, 25591950),
        15 => (100000000, 64373109, 28819679),
        16 => (100000000, 66052319, 31873863),
        17 => (100000000, 67645822, 34786758),
        18 => (100000000, 69160518, 37579588),
        19 => (100000000, 70602449, 40267128),
        20 => (100000000, 71976951, 42860152),
        21 => (100000000, 73288760, 45366838),
        22 => (100000000, 74542112, 47793608),
        23 => (100000000, 75740814, 50145662),
        24 => (100000000, 76888303, 52427322),
        25 => (100000000, 77987699, 54642268),
        26 => (100000000, 79041843, 56793692),
        27 => (100000000, 80053332, 58884417),
        28 => (100000000, 81024551, 60916971),
        29 => (100000000, 81957693, 62893653),
        30 => (100000000, 82854786, 64816570),
        31 => (100000000, 83717703, 66687674),
        32 => (100000000, 84548188, 68508786),
        33 => (100000000, 85347859, 70281616),
        34 => (100000000, 86118227, 72007777),
        35 => (100000000, 86860704, 73688797),
        36 => (100000000, 87576611, 75326132),
        37 => (100000000, 88267187, 76921169),
        38 => (100000000, 88933596, 78475236),
        39 => (100000000, 89576933, 79989606),
        40 => (100000000, 90198230, 81465502),
        41 => (100000000, 90963069, 82838210),
        42 => (100000000, 91710889, 84190889),
        43 => (100000000, 92441842, 85523742),
        44 => (100000000, 93156127, 86836903),
        45 => (100000000, 93853986, 88130458),
        46 => (100000000, 94535695, 89404470),
        47 => (100000000, 95201559, 90658983),
        48 => (100000000, 95851906, 91894041),
        49 => (100000000, 96487079, 93109690),
        50 => (100000000, 97107439, 94305985),
        51 => (100000000, 97713351, 95482993),
        52 => (100000000, 98305189, 96640795),
        53 => (100000000, 98883326, 97779486),
        54 => (100000000, 99448139, 98899179),
        55 => (100000000, 100000000, 100000000),
        56 => (98947904, 99348723, 100000000),
        57 => (97940448, 98722715, 100000000),
        58 => (96975025, 98120637, 100000000),
        59 => (96049223, 97541240, 100000000),
        60 => (95160805, 96983355, 100000000),
        61 => (94303638, 96443333, 100000000),
        62 => (93480451, 95923080, 100000000),
        63 => (92689056, 95421394, 100000000),
        64 => (91927697, 94937330, 100000000),
        65 => (91194747, 94470005, 100000000),
        66 => (90488690, 94018594, 100000000),
        67 => (89808115, 93582323, 100000000),
        68 => (89151710, 93160469, 100000000),
        69 => (88518247, 92752354, 100000000),
        70 => (87906581, 92357340, 100000000),
        71 => (87315640, 91974827, 100000000),
        72 => (86744421, 91604254, 100000000),
        73 => (86191983, 91245088, 100000000),
        74 => (85657444, 90896831, 100000000),
        75 => (85139976, 90559011, 100000000),
        76 => (84638799, 90231183, 100000000),
        77 => (84153180, 89912926, 100000000),
        78 => (83682430, 89603843, 100000000),
        79 => (83225897, 89303558, 100000000),
        80 => (82782969, 89011714, 100000000),
        81 => (82353066, 88727974, 100000000),
        82 => (81935641, 88452017, 100000000),
        83 => (81530175, 88183541, 100000000),
        84 => (81136180, 87922257, 100000000),
        85 => (80753191, 87667891, 100000000),
        86 => (80380769, 87420182, 100000000),
        87 => (80018497, 87178882, 100000000),
        88 => (79665980, 86943756, 100000000),
        89 => (79322843, 86714579, 100000000),
        90 => (78988728, 86491137, 100000000),
        _ => (78663296, 86273225, 100000000),
    }
}

pub open spec fn valid_temperature(t: int) -> bool {
    MIN_TEMPERATURE <= t <= MAX_TEMPERATURE
}

/// `a` weighted by `100 - f` plus `b` weighted by `f`.
pub open spec fn lerp_weighted(a: int, b: int, f: int) -> int {
    a * (100 - f) + b * f
}

/// The tint at `t` kelvin: the two table entries around `t`, interpolated by the
/// part of `t` past the lower one.
pub open spec fn tint_of(t: int) -> (int, int, int) {
    let idx = ((t - MIN_TEMPERATURE) / 100) as usize;
    let f = (t - MIN_TEMPERATURE) % 100;
    let lo = blackbody(idx);
    let hi = blackbody((idx + 1) as usize);
    (
        lerp_weighted(lo.0 as int, hi.0 as int, f),
        lerp_weighted(lo.1 as int, hi.1 as int, f),
        lerp_weighted(lo.2 as int, hi.2 as int, f),
    )
}

proof fn lemma_lerp_bounds(a: int, b: int, f: int)
    requires
        0 <= a <= TABLE_ONE,
        0 <= b <= TABLE_ONE,
        0 <= f < 100,
    ensures
        0 <= lerp_weighted(a, b, f) <= TINT_ONE,
{
    assert(0 <= a * (100 - f) + b * f <= 100000000 * 100) by (nonlinear_arith)
        requires
            0 <= a <= 100000000,
            0 <= b <= 100000000,
            0 <= f < 100,
    ;
}

fn lerp_channel(a: u32, b: u32, f: u64) -> (r: u64)
    requires
        a <= TABLE_ONE,
        b <= TABLE_ONE,
        f < 100,
    ensures
        r == lerp_weighted(a as int, b as int, f as int),
        r <= TINT_ONE,
{
    proof {
        lemma_lerp_bounds(a as int, b as int, f as int);
        assert(a * (100 - f) <= 100000000 * 100) by (nonlinear_arith)
            requires
                a <= 100000000,
                f < 100,
        ;
    }
    (a as u64) * (100 - f) + (b as u64) * f
}

/// The black-body tint of `temperature`, or `InvalidTemperature` when it lies
/// outside `MIN_TEMPERATURE..=MAX_TEMPERATURE`.
pub fn find_interpolated_temperature_color(temperature: u16) -> (r: Result<Tint, ColorError>)
    ensures
        match r {
            Ok(tint) => valid_temperature(temperature as int) && tint@ == tint_of(
                temperature as int,
            ),
            Err(e) => !valid_temperature(temperature as int) && e == ColorError::InvalidTemperature,
        },
        r matches Ok(tint) ==> tint.red <= TINT_ONE && tint.green <= TINT_ONE && tint.blue
            <= TINT_ONE,
{
    if temperature < MIN_TEMPERATURE || temperature > MAX_TEMPERATURE {
        return Err(ColorError::InvalidTemperature);
    }
    let offset = temperature - MIN_TEMPERATURE;
    let idx = (offset / 100) as usize;
    let f = (offset % 100) as u64;
    let lo = blackbody_at(idx);
    let hi = blackbody_at(idx + 1);
    Ok(
        Tint {
            red: lerp_channel(lo.0, hi.0, f),
            green: lerp_channel(lo.1, hi.1, f),
            blue: lerp_channel(lo.2, hi.2, f),
        },
    )
}

/// Sample `i` of an `n`-sample ramp for one channel: the intensity
/// `MAX_INTENSITY * i / (n - 1)` scaled by the channel's tint (out of `TINT_ONE`) and by
/// `brightness` (out of `FULL_BRIGHTNESS`), rounded to the nearest integer (halves
/// up), and subtracted from `MAX_INTENSITY` when `inverted`.
pub open spec fn ramp_sample(i: int, n: int, tint: int, brightness: int, inverted: bool) -> int {
    let num = MAX_INTENSITY * i * tint * brightness;
    let den = (n - 1) * TINT_ONE * FULL_BRIGHTNESS;
    let v = (2 * num + den) / (2 * den);
    if inverted {
        MAX_INTENSITY - v
    } else {
        v
    }
}

proof fn lemma_sample_bounds(i: int, n: int, tint: int, brightness: int)
    requires
        0 <= i < n,
        2 <= n,
        0 <= tint <= TINT_ONE,
        0 <= brightness <= FULL_BRIGHTNESS,
    ensures
        0 <= ramp_sample(i, n, tint, brightness, false) <= MAX_INTENSITY,
{
    let num = MAX_INTENSITY * i * tint * brightness;
    let den = (n - 1) * TINT_ONE * FULL_BRIGHTNESS;
    assert(0 <= num <= 65535 * den) by (nonlinear_arith)
        requires
            num == 65535 * i * tint * brightness,
            den == (n - 1) * 10000000000 * 1000,
            0 <= i <= n - 1,
            0 <= tint <= 10000000000,
            0 <= brightness <= 1000,
    ;
    assert(0 <= (2 * num + den) / (2 * den) <= 65535) by (nonlinear_arith)
        requires
            0 <= num <= 65535 * den,
            den > 0,
    ;
}

proof fn lemma_sample_monotonic(i: int, j: int, n: int, tint: int, brightness: int)
    requires
        0 <= i <= j < n,
        2 <= n,
        0 <= tint,
        0 <= brightness,
    ensures
        ramp_sample(i, n, tint, brightness, false) <= ramp_sample(j, n, tint, brightness, false),
{
    let den = (n - 1) * TINT_ONE * FULL_BRIGHTNESS;
    let a = MAX_INTENSITY * i * tint * brightness;
    let b = MAX_INTENSITY * j * tint * brightness;
    assert(a <= b) by (nonlinear_arith)
        requires
            a == 65535 * i * tint * brightness,
            b == 65535 * j * tint * brightness,
            0 <= i <= j,
            0 <= tint,
            0 <= brightness,
    ;
    assert(den > 0) by (nonlinear_arith)
        requires
            den == (n - 1) * 10000000000 * 1000,
            n >= 2,
    ;
    vstd::arithmetic::div_mod::lemma_div_is_ordered(2 * a + den, 2 * b + den, 2 * den);
}

/// One sample of a channel, computed without overflow in 128 bits.
pub fn channel_sample(i: usize, n: usize, tint: u64, brightness: u16, inverted: bool) -> (r: u16)
    requires
        i < n,
        2 <= n,
        tint <= TINT_ONE,
        brightness <= FULL_BRIGHTNESS,
    ensures
        r == ramp_sample(i as int, n as int, tint as int, brightness as int, inverted),
{
    proof {
        lemma_sample_bounds(i as int, n as int, tint as int, brightness as int);
        assert(65535 * (i as int) * (tint as int) * (brightness as int) <= 65535
            * 18446744073709551615 * 10000000000 * 1000) by (nonlinear_arith)
            requires
                i <= 18446744073709551615,
                tint <= 10000000000,
                brightness <= 1000,
        ;
        assert((n as int - 1) * 10000000000 * 1000 <= 18446744073709551615 * 10000000000 * 1000)
            by (nonlinear_arith)
            requires
                n <= 18446744073709551615,
        ;
    }
    let scaled: u128 = (MAX_INTENSITY as u128) * (i as u128);
    proof {
        assert(scaled * (tint as int) <= 65535 * 18446744073709551615 * 10000000000)
            by (nonlinear_arith)
            requires
                scaled <= 65535 * 18446744073709551615,
                tint <= 10000000000,
        ;
        assert(scaled * (tint as int) * (brightness as int) <= 65535 * 18446744073709551615
            * 10000000000 * 1000) by (nonlinear_arith)
            requires
                scaled * (tint as int) <= 65535 * 18446744073709551615 * 10000000000,
                brightness <= 1000,
        ;
    }
    let num: u128 = scaled * (tint as u128) * (brightness as u128);
    let den: u128 = ((n - 1) as u128) * (TINT_ONE as u128) * (FULL_BRIGHTNESS as u128);
    let v: u128 = (2 * num + den) / (2 * den);
    let v16 = v as u16;
    if inverted {
        MAX_INTENSITY - v16
    } else {
        v16
    }
}

/// One channel of an `n`-sample ramp.
pub open spec fn channel_ramp(n: int, tint: int, brightness: int, inverted: bool) -> Seq<u16> {
    Seq::new(n as nat, |i: int| ramp_sample(i, n, tint, brightness, inverted) as u16)
}

/// The ramp buffer of `profile`: the red channel, then green, then blue.
pub open spec fn profile_ramp(n: int, profile: ColorProfile) -> Seq<u16> {
    let t = tint_of(profile.temperature as int);
    let b = profile.brightness as int;
    channel_ramp(n, t.0, b, profile.inverted) + channel_ramp(n, t.1, b, profile.inverted)
        + channel_ramp(n, t.2, b, profile.inverted)
}

/// Why no ramp can be made for `n` samples of `profile`, if anything: an invalid
/// temperature first, then too few samples.
pub open spec fn ramp_error(n: int, profile: ColorProfile) -> Option<ColorError> {
    if !valid_temperature(profile.temperature as int) {
        Some(ColorError::InvalidTemperature)
    } else if n < 2 {
        Some(ColorError::InvalidRampSize)
    } else {
        None
    }
}

proof fn lemma_blackbody_bounded(idx: usize)
    requires
        idx < TABLE_LEN,
    ensures
        blackbody(idx).0 <= TABLE_ONE,
        blackbody(idx).1 <= TABLE_ONE,
        blackbody(idx).2 <= TABLE_ONE,
{
}

proof fn lemma_tint_bounded(t: int)
    requires
        valid_temperature(t),
    ensures
        0 <= tint_of(t).0 <= TINT_ONE,
        0 <= tint_of(t).1 <= TINT_ONE,
        0 <= tint_of(t).2 <= TINT_ONE,
{
    let idx = ((t - MIN_TEMPERATURE) / 100) as usize;
    let f = (t - MIN_TEMPERATURE) % 100;
    lemma_blackbody_bounded(idx);
    lemma_blackbody_bounded((idx + 1) as usize);
    let lo = blackbody(idx);
    let hi = blackbody((idx + 1) as usize);
    lemma_lerp_bounds(lo.0 as int, hi.0 as int, f);
    lemma_lerp_bounds(lo.1 as int, hi.1 as int, f);
    lemma_lerp_bounds(lo.2 as int, hi.2 as int, f);
}

/// For every valid temperature and every ramp of at least two samples, each channel
/// of the unscaled, non-inverted ramp never decreases from one sample to a later one.
pub proof fn lemma_ramp_monotonic(temperature: u16, n: int, i: int, j: int)
    requires
        valid_temperature(temperature as int),
        2 <= n,
        0 <= i <= j < n,
    ensures
        ({
            let ramp = profile_ramp(
                n,
                ColorProfile { temperature, brightness: FULL_BRIGHTNESS, inverted: false },
            );
            &&& ramp.len() == 3 * n
            &&& ramp[i] <= ramp[j]
            &&& ramp[n + i] <= ramp[n + j]
            &&& ramp[2 * n + i] <= ramp[2 * n + j]
        }),
{
    let b = FULL_BRIGHTNESS as int;
    let t = tint_of(temperature as int);
    lemma_tint_bounded(temperature as int);
    lemma_sample_bounds(i, n, t.0, b);
    lemma_sample_bounds(j, n, t.0, b);
    lemma_sample_bounds(i, n, t.1, b);
    lemma_sample_bounds(j, n, t.1, b);
    lemma_sample_bounds(i, n, t.2, b);
    lemma_sample_bounds(j, n, t.2, b);
    lemma_sample_monotonic(i, j, n, t.0, b);
    lemma_sample_monotonic(i, j, n, t.1, b);
    lemma_sample_monotonic(i, j, n, t.2, b);
}

fn push_channel(buf: &mut Vec<u16>, n: usize, tint: u64, brightness: u16, inverted: bool)
    requires
        2 <= n,
        tint <= TINT_ONE,
        brightness <= FULL_BRIGHTNESS,
    ensures
        final(buf)@ == old(buf)@ + channel_ramp(
            n as int,
            tint as int,
            brightness as int,
            inverted,
        ),
{
    let ghost start = buf@;
    let mut i: usize = 0;
    while i < n
        invariant
            i <= n,
            2 <= n,
            tint <= TINT_ONE,
            brightness <= FULL_BRIGHTNESS,
            buf@ == start + channel_ramp(n as int, tint as int, brightness as int, inverted).take(
                i as int,
            ),
        decreases n - i,
    {
        let v = channel_sample(i, n, tint, brightness, inverted);
        buf.push(v);
        i = i + 1;
        assert(buf@ =~= start + channel_ramp(
            n as int,
            tint as int,
            brightness as int,
            inverted,
        ).take(i as int));
    }
    assert(channel_ramp(n as int, tint as int, brightness as int, inverted).take(n as int)
        =~= channel_ramp(n as int, tint as int, brightness as int, inverted));
}

/// The whole ramp buffer for `profile`: `ramp_size` red samples, then as many green,
/// then as many blue.
pub fn ramp_samples(ramp_size: usize, profile: ColorProfile) -> (r: Result<Vec<u16>, ColorError>)
    requires
        profile.brightness <= FULL_BRIGHTNESS,
    ensures
        match r {
            Ok(v) => ramp_error(ramp_size as int, profile) is None && v@ == profile_ramp(
                ramp_size as int,
                profile,
            ),
            Err(e) => ramp_error(ramp_size as int, profile) == Some(e),
        },
{
    let tint = match find_interpolated_temperature_color(profile.temperature) {
        Ok(tint) => tint,
        Err(e) => return Err(e),
    };
    if ramp_size < 2 {
        return Err(ColorError::InvalidRampSize);
    }
    let mut buf: Vec<u16> = Vec::new();
    push_channel(&mut buf, ramp_size, tint.red, profile.brightness, profile.inverted);
    push_channel(&mut buf, ramp_size, tint.green, profile.brightness, profile.inverted);
    push_channel(&mut buf, ramp_size, tint.blue, profile.brightness, profile.inverted);
    Ok(buf)
}

fn fill_channel(out: &mut [u16], n: usize, tint: u64, brightness: u16, inverted: bool)
    requires
        2 <= n,
        n <= old(out)@.len(),
        tint <= TINT_ONE,
        brightness <= FULL_BRIGHTNESS,
    ensures
        final(out)@ == channel_ramp(n as int, tint as int, brightness as int, inverted)
            + old(out)@.skip(n as int),
{
    let ghost start = out@;
    let mut i: usize = 0;
    while i < n
        invariant
            i <= n,
            2 <= n,
            n <= start.len(),
            tint <= TINT_ONE,
            brightness <= FULL_BRIGHTNESS,
            out@.len() == start.len(),
            forall|k: int| 0 <= k < i ==> out@[k] == ramp_sample(k, n as int, tint as int, brightness as int, inverted) as u16,
            forall|k: int| i <= k < start.len() ==> out@[k] == start[k],
        decreases n - i,
    {
        let v = channel_sample(i, n, tint, brightness, inverted);
        out[i] = v;
        i = i + 1;
    }
    assert(out@ =~= channel_ramp(n as int, tint as int, brightness as int, inverted) + start.skip(
        n as int,
    ));
}

/// Fills the first `ramp_size` entries of `r`, `g` and `b` with the three channels of
/// the ramp for `profile`; the rest of each slice is left as it was. On an error
/// nothing is written.
pub fn fill_colorramp_profile(
    r: &mut [u16],
    g: &mut [u16],
    b: &mut [u16],
    ramp_size: usize,
    profile: ColorProfile,
) -> (res: Result<(), ColorError>)
    requires
        ramp_size <= old(r)@.len(),
        ramp_size <= old(g)@.len(),
        ramp_size <= old(b)@.len(),
        profile.brightness <= FULL_BRIGHTNESS,
    ensures
        match res {
            Ok(()) => {
                let ramp = profile_ramp(ramp_size as int, profile);
                let n = ramp_size as int;
                &&& ramp_error(n, profile) is None
                &&& final(r)@ == ramp.subrange(0, n) + old(r)@.skip(n)
                &&& final(g)@ == ramp.subrange(n, 2 * n) + old(g)@.skip(n)
                &&& final(b)@ == ramp.subrange(2 * n, 3 * n) + old(b)@.skip(n)
            },
            Err(e) => {
                &&& ramp_error(ramp_size as int, profile) == Some(e)
                &&& final(r)@ == old(r)@
                &&& final(g)@ == old(g)@
                &&& final(b)@ == old(b)@
            },
        },
{
    let tint = match find_interpolated_temperature_color(profile.temperature) {
        Ok(tint) => tint,
        Err(e) => return Err(e),
    };
    if ramp_size < 2 {
        return Err(ColorError::InvalidRampSize);
    }
    fill_channel(r, ramp_size, tint.red, profile.brightness, profile.inverted);
    fill_channel(g, ramp_size, tint.green, profile.brightness, profile.inverted);
    fill_channel(b, ramp_size, tint.blue, profile.brightness, profile.inverted);
    proof {
        let n = ramp_size as int;
        let t = tint_of(profile.temperature as int);
        let br = profile.brightness as int;
        let ramp = profile_ramp(n, profile);
        assert(ramp.subrange(0, n) =~= channel_ramp(n, t.0, br, profile.inverted));
        assert(ramp.subrange(n, 2 * n) =~= channel_ramp(n, t.1, br, profile.inverted));
        assert(ramp.subrange(2 * n, 3 * n) =~= channel_ramp(n, t.2, br, profile.inverted));
    }
    Ok(())
}

/// Fills a ramp for `temperature` at full brightness, not inverted (see
/// `fill_colorramp_profile`).
pub fn fill_colorramp(r: &mut [u16], g: &mut [u16], b: &mut [u16], ramp_size: usize, temperature: u16) -> (res: Result<(), ColorError>)
    requires
        ramp_size <= old(r)@.len(),
        ramp_size <= old(g)@.len(),
        ramp_size <= old(b)@.len(),
    ensures
        ({
            let profile = ColorProfile { temperature, brightness: FULL_BRIGHTNESS, inverted: false };
            let ramp = profile_ramp(ramp_size as int, profile);
            let n = ramp_size as int;
            match res {
                Ok(()) => {
                    &&& ramp_error(n, profile) is None
                    &&& final(r)@ == ramp.subrange(0, n) + old(r)@.skip(n)
                    &&& final(g)@ == ramp.subrange(n, 2 * n) + old(g)@.skip(n)
                    &&& final(b)@ == ramp.subrange(2 * n, 3 * n) + old(b)@.skip(n)
                },
                Err(e) => {
                    &&& ramp_error(n, profile) == Some(e)
                    &&& final(r)@ == old(r)@
                    &&& final(g)@ == old(g)@
                    &&& final(b)@ == old(b)@
                },
            }
        }),
{
    fill_colorramp_profile(r, g, b, ramp_size, ColorProfile::from_temperature(temperature))
}

} // verus!
