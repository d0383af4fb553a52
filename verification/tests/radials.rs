use precip_radial::binary32::Binary32;
use precip_radial::error::ParseError;
use precip_radial::radials::{radial, Radial};
use precip_radial::scalar::Scalar;
use uom::si::angle::degree;
use uom::si::f32::Angle;

/// A record as it stands on the wire.
fn record(azimuth: f32, elevation: f32, width: f32, bins: i32, text: &[u8], rates: &[[u8; 4]]) -> Vec<u8> {
    let mut bytes = Vec::new();
    bytes.extend_from_slice(&azimuth.to_be_bytes());
    bytes.extend_from_slice(&elevation.to_be_bytes());
    bytes.extend_from_slice(&width.to_be_bytes());
    bytes.extend_from_slice(&bins.to_be_bytes());
    bytes.extend_from_slice(&(text.len() as u32).to_be_bytes());
    bytes.extend_from_slice(text);
    bytes.extend_from_slice(&[0xAA, 0xBB, 0xCC, 0xDD]);
    for slot in rates {
        bytes.extend_from_slice(slot);
    }
    bytes
}

fn angle(value: Binary32) -> Angle {
    Angle::new::<degree>(f32::from_bits(value.to_bits()))
}

fn inches_per_hour(rate: u16) -> f32 {
    rate as f32 / 1000.
}

fn float(value: f32) -> Scalar {
    Scalar::Float(Binary32::from_bits(value.to_bits()))
}

fn violation(field: &'static str, value: Scalar, low: Scalar, high: Scalar) -> ParseError {
    ParseError::RangeViolation { field, record: "radial", value, low, high }
}

#[test]
fn decodes_a_whole_record() {
    let bytes = record(90.0, 10.0, 0.5, 2, b"", &[[0, 0, 0x03, 0xE8], [0, 0, 0x07, 0xD0]]);
    assert_eq!(bytes.len(), 32);
    let (r, rest) = radial(&bytes).unwrap();
    assert_eq!(angle(r.azimuth), Angle::new::<degree>(90.0));
    assert_eq!(angle(r.elevation), Angle::new::<degree>(10.0));
    assert_eq!(angle(r.width), Angle::new::<degree>(0.5));
    assert_eq!(r.precip_rates, vec![1000, 2000]);
    let rates: Vec<f32> = r.precip_rates.iter().map(|&rate| inches_per_hour(rate)).collect();
    assert_eq!(rates, vec![1.0, 2.0]);
    assert_eq!(rest.len(), 0);
}

#[test]
fn hands_back_what_follows_the_record() {
    let mut bytes = record(1.5, 0.0, 1.0, 1, b"", &[[0, 0, 0, 7]]);
    bytes.extend_from_slice(&[9, 8, 7]);
    let (r, rest) = radial(&bytes).unwrap();
    assert_eq!(r.precip_rates, vec![7]);
    assert_eq!(rest, &[9, 8, 7]);
}

#[test]
fn passes_over_the_attributes_and_the_reserved_bytes() {
    let bytes = record(0.0, 0.0, 0.0, 1, b"units=in/hr", &[[0, 0, 0x12, 0x34]]);
    let (r, rest) = radial(&bytes).unwrap();
    assert_eq!(r.precip_rates, vec![0x1234]);
    assert!(rest.is_empty());
}

#[test]
fn attributes_need_not_be_text() {
    let bytes = record(0.0, 0.0, 0.0, 1, &[0xFF, 0xFE, 0x80], &[[0, 0, 0, 1]]);
    let (r, rest) = radial(&bytes).unwrap();
    assert_eq!(r.precip_rates, vec![1]);
    assert!(rest.is_empty());
}

#[test]
fn azimuth_of_360_is_legal() {
    let bytes = record(360.0, 0.0, 0.0, 0, b"", &[]);
    let (r, _) = radial(&bytes).unwrap();
    assert_eq!(angle(r.azimuth), Angle::new::<degree>(360.0));
}

#[test]
fn azimuth_of_zero_is_legal() {
    let bytes = record(0.0, 0.0, 0.0, 0, b"", &[]);
    assert!(radial(&bytes).is_ok());
    let bytes = record(-0.0, 0.0, 0.0, 0, b"", &[]);
    assert!(radial(&bytes).is_ok());
}

#[test]
fn azimuth_just_above_360_is_a_range_violation() {
    let bytes = record(360.0001, 0.0, 0.0, 0, b"", &[]);
    assert_eq!(
        radial(&bytes).unwrap_err(),
        violation("azimuth", float(360.0001), float(0.0), float(360.0))
    );
    let next = f32::from_bits(360.0f32.to_bits() + 1);
    let bytes = record(next, 0.0, 0.0, 0, b"", &[]);
    assert!(matches!(radial(&bytes), Err(ParseError::RangeViolation { .. })));
}

#[test]
fn negative_azimuth_is_a_range_violation() {
    let least = f32::from_bits(0x8000_0001);
    for azimuth in [-0.5, -360.0, least, f32::NEG_INFINITY] {
        let bytes = record(azimuth, 0.0, 0.0, 0, b"", &[]);
        assert_eq!(
            radial(&bytes).unwrap_err(),
            violation("azimuth", float(azimuth), float(0.0), float(360.0))
        );
    }
}

#[test]
fn nan_and_infinity_are_range_violations() {
    for bad in [f32::NAN, -f32::NAN, f32::INFINITY] {
        let bytes = record(bad, 0.0, 0.0, 0, b"", &[]);
        assert!(matches!(
            radial(&bytes),
            Err(ParseError::RangeViolation { field: "azimuth", record: "radial", .. })
        ));
        let bytes = record(0.0, bad, 0.0, 0, b"", &[]);
        assert!(matches!(
            radial(&bytes),
            Err(ParseError::RangeViolation { field: "elevation", record: "radial", .. })
        ));
        let bytes = record(0.0, 0.0, bad, 0, b"", &[]);
        assert!(matches!(
            radial(&bytes),
            Err(ParseError::RangeViolation { field: "width", record: "radial", .. })
        ));
    }
}

#[test]
fn elevation_bounds() {
    for legal in [-1.0, -0.5, 0.0, 44.999, 45.0] {
        let bytes = record(0.0, legal, 0.0, 0, b"", &[]);
        let (r, _) = radial(&bytes).unwrap();
        assert_eq!(angle(r.elevation), Angle::new::<degree>(legal));
    }
    for bad in [-1.1, -1.000_000_1, 45.000_004, 90.0] {
        let bytes = record(0.0, bad, 0.0, 0, b"", &[]);
        assert_eq!(
            radial(&bytes).unwrap_err(),
            violation("elevation", float(bad), float(-1.0), float(45.0))
        );
    }
}

#[test]
fn width_bounds() {
    for legal in [0.0, -0.0, 0.5, 2.0] {
        let bytes = record(0.0, 0.0, legal, 0, b"", &[]);
        let (r, _) = radial(&bytes).unwrap();
        assert_eq!(angle(r.width), Angle::new::<degree>(legal));
    }
    for bad in [-0.1, 2.000_000_2, 2.5] {
        let bytes = record(0.0, 0.0, bad, 0, b"", &[]);
        assert_eq!(
            radial(&bytes).unwrap_err(),
            violation("width", float(bad), float(0.0), float(2.0))
        );
    }
}

#[test]
fn bin_count_bounds() {
    let bytes = record(0.0, 0.0, 0.0, 0, b"", &[]);
    let (r, rest) = radial(&bytes).unwrap();
    assert!(r.precip_rates.is_empty());
    assert!(rest.is_empty());

    let slots = vec![[0u8, 0, 0, 1]; 1840];
    let bytes = record(0.0, 0.0, 0.0, 1840, b"", &slots);
    let (r, rest) = radial(&bytes).unwrap();
    assert_eq!(r.precip_rates.len(), 1840);
    assert!(rest.is_empty());

    let slots = vec![[0u8, 0, 0, 1]; 1841];
    let bytes = record(0.0, 0.0, 0.0, 1841, b"", &slots);
    assert_eq!(
        radial(&bytes).unwrap_err(),
        violation("num bins", Scalar::Integer(1841), Scalar::Integer(0), Scalar::Integer(1840))
    );
}

#[test]
fn negative_bin_count_is_a_range_violation() {
    for bins in [-1, i32::MIN] {
        let bytes = record(0.0, 0.0, 0.0, bins, b"", &[]);
        assert_eq!(
            radial(&bytes).unwrap_err(),
            violation("num bins", Scalar::Integer(bins), Scalar::Integer(0), Scalar::Integer(1840))
        );
        // The count is refused as soon as it is read, whatever follows it.
        assert_eq!(
            radial(&bytes[..16]).unwrap_err(),
            violation("num bins", Scalar::Integer(bins), Scalar::Integer(0), Scalar::Integer(1840))
        );
    }
}

#[test]
fn the_first_bad_field_is_reported() {
    let bytes = record(400.0, 50.0, 3.0, -5, b"", &[]);
    assert!(matches!(radial(&bytes), Err(ParseError::RangeViolation { field: "azimuth", .. })));
    let bytes = record(40.0, 50.0, 3.0, -5, b"", &[]);
    assert!(matches!(radial(&bytes), Err(ParseError::RangeViolation { field: "elevation", .. })));
    let bytes = record(40.0, 5.0, 3.0, -5, b"", &[]);
    assert!(matches!(radial(&bytes), Err(ParseError::RangeViolation { field: "width", .. })));
    let bytes = record(40.0, 5.0, 1.0, -5, b"", &[]);
    assert!(matches!(radial(&bytes), Err(ParseError::RangeViolation { field: "num bins", .. })));
    // A bad field is reported even where the buffer ends right behind it.
    let bytes = record(400.0, 0.0, 0.0, 0, b"", &[]);
    assert!(matches!(radial(&bytes[..4]), Err(ParseError::RangeViolation { field: "azimuth", .. })));
}

#[test]
fn one_rate_per_bin_in_wire_order() {
    let slots: Vec<[u8; 4]> = (0..300u16).map(|i| {
        let rate = (i * 7 + 3).to_be_bytes();
        [0, 0, rate[0], rate[1]]
    }).collect();
    let bytes = record(12.0, 3.0, 1.0, 300, b"abc", &slots);
    let (r, rest) = radial(&bytes).unwrap();
    assert_eq!(r.precip_rates.len(), 300);
    for i in 0..300u16 {
        assert_eq!(r.precip_rates[i as usize], i * 7 + 3);
    }
    assert!(rest.is_empty());
}

#[test]
fn rate_of_1000_is_one_inch_per_hour() {
    let bytes = record(0.0, 0.0, 0.0, 3, b"", &[[0, 0, 0x03, 0xE8], [0, 0, 0, 0], [0, 0, 0xFF, 0xFF]]);
    let (r, _) = radial(&bytes).unwrap();
    assert_eq!(r.precip_rates, vec![1000, 0, 65535]);
    assert_eq!(inches_per_hour(r.precip_rates[0]), 1.0);
    assert_eq!(inches_per_hour(r.precip_rates[1]), 0.0);
    assert_eq!(inches_per_hour(r.precip_rates[2]), 65.535);
}

#[test]
fn the_high_bytes_of_a_slot_are_passed_over() {
    let bytes = record(0.0, 0.0, 0.0, 2, b"", &[[0xDE, 0xAD, 0x03, 0xE8], [0xFF, 0xFF, 0x00, 0x01]]);
    let (r, _) = radial(&bytes).unwrap();
    assert_eq!(r.precip_rates, vec![1000, 1]);
}

#[test]
fn short_rate_array_is_end_of_data() {
    let bytes = record(90.0, 10.0, 0.5, 2, b"", &[[0, 0, 0x03, 0xE8]]);
    assert_eq!(radial(&bytes).unwrap_err(), ParseError::UnexpectedEndOfData);
    let bytes = record(90.0, 10.0, 0.5, 1840, b"", &[]);
    assert_eq!(radial(&bytes).unwrap_err(), ParseError::UnexpectedEndOfData);
}

#[test]
fn every_proper_prefix_is_end_of_data() {
    let bytes = record(90.0, 10.0, 0.5, 2, b"xyz", &[[0, 0, 0x03, 0xE8], [0, 0, 0x07, 0xD0]]);
    assert!(radial(&bytes).is_ok());
    for kept in 0..bytes.len() {
        assert_eq!(radial(&bytes[..kept]).unwrap_err(), ParseError::UnexpectedEndOfData);
    }
}

#[test]
fn attributes_longer_than_the_buffer_are_end_of_data() {
    let mut bytes = record(0.0, 0.0, 0.0, 0, b"", &[]);
    bytes[16..20].copy_from_slice(&u32::MAX.to_be_bytes());
    assert_eq!(radial(&bytes).unwrap_err(), ParseError::UnexpectedEndOfData);
    bytes[16..20].copy_from_slice(&5u32.to_be_bytes());
    assert_eq!(radial(&bytes).unwrap_err(), ParseError::UnexpectedEndOfData);
}

#[test]
fn empty_buffer_is_end_of_data() {
    assert_eq!(radial(&[]).unwrap_err(), ParseError::UnexpectedEndOfData);
}

#[test]
fn ranges_of_the_radial() {
    assert_eq!(Radial::azimuth_range().start, float(0.0));
    assert_eq!(Radial::azimuth_range().end, float(360.0));
    assert_eq!(Radial::elevation_range().start, float(-1.0));
    assert_eq!(Radial::elevation_range().end, float(45.0));
    assert_eq!(Radial::width_range().start, float(0.0));
    assert_eq!(Radial::width_range().end, float(2.0));
    assert_eq!(Radial::num_bins_range().start, Scalar::Integer(0));
    assert_eq!(Radial::num_bins_range().end, Scalar::Integer(1840));
}

#[test]
fn default_radial_is_empty() {
    let r = Radial::default();
    assert_eq!(r.azimuth.to_bits(), 0);
    assert_eq!(r.elevation.to_bits(), 0);
    assert_eq!(r.width.to_bits(), 0);
    assert!(r.precip_rates.is_empty());
    assert_eq!(r.clone(), r);
}
