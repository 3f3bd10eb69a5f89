use automatic_redshift::color::{
    fill_colorramp, fill_colorramp_profile, find_interpolated_temperature_color, ramp_samples,
    ColorError, ColorProfile, Tint,
};

#[test]
fn temperature_below_range_is_rejected() {
    let (mut r, mut g, mut b) = (vec![7u16; 4], vec![7u16; 4], vec![7u16; 4]);
    assert_eq!(
        fill_colorramp(&mut r, &mut g, &mut b, 4, 999),
        Err(ColorError::InvalidTemperature)
    );
    assert_eq!(r, vec![7u16; 4]);
    assert_eq!(g, vec![7u16; 4]);
    assert_eq!(b, vec![7u16; 4]);
}

#[test]
fn temperature_above_range_is_rejected() {
    let (mut r, mut g, mut b) = (vec![0u16; 4], vec![0u16; 4], vec![0u16; 4]);
    assert_eq!(
        fill_colorramp(&mut r, &mut g, &mut b, 4, 10001),
        Err(ColorError::InvalidTemperature)
    );
    assert_eq!(
        ramp_samples(4, ColorProfile::from_temperature(10001)),
        Err(ColorError::InvalidTemperature)
    );
}

#[test]
fn range_ends_are_accepted() {
    assert!(ramp_samples(4, ColorProfile::from_temperature(1000)).is_ok());
    assert!(ramp_samples(4, ColorProfile::from_temperature(10000)).is_ok());
}

#[test]
fn ramp_of_one_sample_is_rejected() {
    assert_eq!(
        ramp_samples(1, ColorProfile::from_temperature(6500)),
        Err(ColorError::InvalidRampSize)
    );
    let (mut r, mut g, mut b) = (vec![0u16; 1], vec![0u16; 1], vec![0u16; 1]);
    assert_eq!(
        fill_colorramp(&mut r, &mut g, &mut b, 1, 6500),
        Err(ColorError::InvalidRampSize)
    );
}

#[test]
fn tint_at_table_entries_and_between() {
    assert_eq!(
        find_interpolated_temperature_color(1000),
        Ok(Tint { red: 10000000000, green: 1817271600, blue: 0 })
    );
    assert_eq!(
        find_interpolated_temperature_color(1050),
        Ok(Tint { red: 10000000000, green: 2183819350, blue: 0 })
    );
    assert_eq!(
        find_interpolated_temperature_color(6500),
        Ok(Tint { red: 10000000000, green: 10000000000, blue: 10000000000 })
    );
    assert_eq!(find_interpolated_temperature_color(999), Err(ColorError::InvalidTemperature));
}

#[test]
fn neutral_temperature_gives_full_ramp() {
    let (mut r, mut g, mut b) = (vec![0u16; 2], vec![0u16; 2], vec![0u16; 2]);
    assert_eq!(fill_colorramp(&mut r, &mut g, &mut b, 2, 6500), Ok(()));
    assert_eq!(r, vec![0, 65535]);
    assert_eq!(g, vec![0, 65535]);
    assert_eq!(b, vec![0, 65535]);
}

#[test]
fn warm_ramp_values() {
    let (mut r, mut g, mut b) = (vec![0u16; 3], vec![0u16; 3], vec![0u16; 3]);
    assert_eq!(fill_colorramp(&mut r, &mut g, &mut b, 3, 1000), Ok(()));
    assert_eq!(r, vec![0, 32768, 65535]);
    assert_eq!(g, vec![0, 5955, 11909]);
    assert_eq!(b, vec![0, 0, 0]);
}

#[test]
fn interpolated_ramp_values() {
    let v = ramp_samples(3, ColorProfile::from_temperature(1050)).unwrap();
    assert_eq!(v, vec![0, 32768, 65535, 0, 7156, 14312, 0, 0, 0]);
}

#[test]
fn fill_leaves_tail_untouched() {
    let (mut r, mut g, mut b) = (vec![9u16; 4], vec![9u16; 3], vec![9u16; 5]);
    assert_eq!(fill_colorramp(&mut r, &mut g, &mut b, 3, 1000), Ok(()));
    assert_eq!(r, vec![0, 32768, 65535, 9]);
    assert_eq!(g, vec![0, 5955, 11909]);
    assert_eq!(b, vec![0, 0, 0, 9, 9]);
}

#[test]
fn half_brightness_ramp() {
    let p = ColorProfile { temperature: 3700, brightness: 500, inverted: false };
    let v = ramp_samples(5, p).unwrap();
    assert_eq!(
        v,
        vec![
            0, 8192, 16384, 24576, 32768, 0, 6558, 13116, 19674, 26231, 0, 4824, 9647, 14471,
            19295
        ]
    );
}

#[test]
fn inverted_ramp() {
    let p = ColorProfile { temperature: 3700, brightness: 1000, inverted: true };
    let (mut r, mut g, mut b) = (vec![0u16; 5], vec![0u16; 5], vec![0u16; 5]);
    assert_eq!(fill_colorramp_profile(&mut r, &mut g, &mut b, 5, p), Ok(()));
    assert_eq!(r, vec![65535, 49151, 32767, 16384, 0]);
    assert_eq!(g, vec![65535, 52419, 39304, 26188, 13072]);
    assert_eq!(b, vec![65535, 55888, 46240, 36593, 26945]);
}

#[test]
fn channels_never_decrease() {
    for &t in &[1000u16, 2345, 4000, 6500, 8888, 10000] {
        for &n in &[2usize, 3, 256, 1024] {
            let v = ramp_samples(n, ColorProfile::from_temperature(t)).unwrap();
            assert_eq!(v.len(), 3 * n);
            for c in 0..3 {
                for i in 1..n {
                    assert!(v[c * n + i - 1] <= v[c * n + i]);
                }
            }
        }
    }
}

#[test]
fn same_inputs_same_ramp() {
    let p = ColorProfile { temperature: 4321, brightness: 800, inverted: false };
    assert_eq!(ramp_samples(64, p), ramp_samples(64, p));
}
