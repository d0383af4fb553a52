//! The radial record: its wire layout, its legal ranges and its decoder.
//!
//! On the wire a radial is, in this order and big-endian throughout:
//!
//! | bytes | field |
//! |---|---|
//! | 4 | azimuth, binary32, degrees |
//! | 4 | elevation, binary32, degrees |
//! | 4 | width, binary32, degrees |
//! | 4 | number of bins, signed |
//! | 4 + n | attributes: a length `n` and `n` bytes of text |
//! | 4 | reserved |
//! | 4 per bin | the low two bytes are the rate, the high two are passed over |

use vstd::prelude::*;
use vstd::arithmetic::power2::*;
use crate::binary32::between;
use crate::binary32::magnitude_of;
use crate::binary32::Binary32;
use crate::cursor::be_i32;
use crate::cursor::be_u16;
use crate::cursor::be_u32;
use crate::cursor::string_end;
use crate::cursor::take_bytes;
use crate::cursor::take_float;
use crate::cursor::take_i32;
use crate::cursor::take_string;
use crate::cursor::u16_at;
use crate::cursor::ParseResult;
use crate::error::ParseErrorView;
use crate::scalar::check_range_inclusive;
use crate::scalar::range_violation;
use crate::scalar::ClosedRange;
use crate::scalar::Scalar;

verus! {

/// The record kind, as failures name it.
pub const NAME: &'static str = "radial";

/// Bit pattern of 360.0, the greatest azimuth.
pub const AZIMUTH_MAX_BITS: u32 = 0x43B4_0000;

/// Bit pattern of -1.0, the least elevation.
pub const ELEVATION_MIN_BITS: u32 = 0xBF80_0000;

/// Bit pattern of 45.0, the greatest elevation.
pub const ELEVATION_MAX_BITS: u32 = 0x4234_0000;

/// Bit pattern of 2.0, the greatest width.
pub const WIDTH_MAX_BITS: u32 = 0x4000_0000;

/// The greatest number of bins.
pub const NUM_BINS_MAX: i32 = 1840;

/// Precipitation rates measured in a particular direction.
#[derive(Clone, Debug, PartialEq, PartialOrd)]
pub struct Radial {
    /// Bearing along which this radial points, in degrees.
    pub azimuth: Binary32,
    /// Angle that the radar beam made with respect to horizontal, in degrees.
    pub elevation: Binary32,
    /// Angular size of this radial, in degrees.
    pub width: Binary32,
    /// Measured precipitation rate in each bin of this radial, in ascending
    /// order of distance, in thousandths of an inch per hour.
    pub precip_rates: Vec<u16>,
}

impl Default for Radial {
    /// The radial at azimuth, elevation and width zero, without bins.
    fn default() -> (record: Radial)
        ensures
            record.azimuth.bits == 0,
            record.elevation.bits == 0,
            record.width.bits == 0,
            record.precip_rates@ == Seq::<u16>::empty(),
            record.well_formed(),
    {
        proof {
            lemma_bounds_denote();
        }
        Radial {
            azimuth: Binary32::from_bits(0),
            elevation: Binary32::from_bits(0),
            width: Binary32::from_bits(0),
            precip_rates: Vec::new(),
        }
    }
}

/// The closed range of binary32 numbers between two bit patterns.
pub open spec fn float_range(start_bits: u32, end_bits: u32) -> ClosedRange {
    ClosedRange {
        start: Scalar::Float(Binary32::from_bits(start_bits)),
        end: Scalar::Float(Binary32::from_bits(end_bits)),
    }
}

impl Radial {
    /// What holds of every decoded radial: each angle lies in its range, and
    /// there are at most 1840 bins.
    pub open spec fn well_formed(&self) -> bool {
        &&& between(self.azimuth, 0, 360)
        &&& between(self.elevation, -1, 45)
        &&& between(self.width, 0, 2)
        &&& self.precip_rates@.len() <= NUM_BINS_MAX
    }

    /// Legal azimuths: 0 to 360 degrees.
    pub open spec fn azimuth_range_spec() -> ClosedRange {
        float_range(0, AZIMUTH_MAX_BITS)
    }

    /// Legal elevations: -1 to 45 degrees.
    pub open spec fn elevation_range_spec() -> ClosedRange {
        float_range(ELEVATION_MIN_BITS, ELEVATION_MAX_BITS)
    }

    /// Legal widths: 0 to 2 degrees.
    pub open spec fn width_range_spec() -> ClosedRange {
        float_range(0, WIDTH_MAX_BITS)
    }

    /// Legal numbers of bins: 0 to 1840.
    pub open spec fn num_bins_range_spec() -> ClosedRange {
        ClosedRange { start: Scalar::Integer(0), end: Scalar::Integer(NUM_BINS_MAX) }
    }

    #[verifier::when_used_as_spec(azimuth_range_spec)]
    pub fn azimuth_range() -> (range: ClosedRange)
        ensures
            range == Self::azimuth_range_spec(),
    {
        ClosedRange {
            start: Scalar::Float(Binary32::from_bits(0)),
            end: Scalar::Float(Binary32::from_bits(AZIMUTH_MAX_BITS)),
        }
    }

    #[verifier::when_used_as_spec(elevation_range_spec)]
    pub fn elevation_range() -> (range: ClosedRange)
        ensures
            range == Self::elevation_range_spec(),
    {
        ClosedRange {
            start: Scalar::Float(Binary32::from_bits(ELEVATION_MIN_BITS)),
            end: Scalar::Float(Binary32::from_bits(ELEVATION_MAX_BITS)),
        }
    }

    #[verifier::when_used_as_spec(width_range_spec)]
    pub fn width_range() -> (range: ClosedRange)
        ensures
            range == Self::width_range_spec(),
    {
        ClosedRange {
            start: Scalar::Float(Binary32::from_bits(0)),
            end: Scalar::Float(Binary32::from_bits(WIDTH_MAX_BITS)),
        }
    }

    #[verifier::when_used_as_spec(num_bins_range_spec)]
    pub fn num_bins_range() -> (range: ClosedRange)
        ensures
            range == Self::num_bins_range_spec(),
    {
        ClosedRange { start: Scalar::Integer(0), end: Scalar::Integer(NUM_BINS_MAX) }
    }
}

/// The azimuth field of the record at the front of `input`.
pub open spec fn wire_azimuth(input: Seq<u8>) -> Binary32 {
    Binary32::from_bits(be_u32(input) as u32)
}

/// The elevation field.
pub open spec fn wire_elevation(input: Seq<u8>) -> Binary32 {
    Binary32::from_bits(be_u32(input.skip(4)) as u32)
}

/// The width field.
pub open spec fn wire_width(input: Seq<u8>) -> Binary32 {
    Binary32::from_bits(be_u32(input.skip(8)) as u32)
}

/// The bin count field.
pub open spec fn wire_num_bins(input: Seq<u8>) -> int {
    be_i32(input.skip(12))
}

/// Where the rate array starts: behind the four header fields, the
/// attributes and the four reserved bytes.
pub open spec fn wire_rates_start(input: Seq<u8>) -> int {
    16 + string_end(input.skip(16)) + 4
}

/// Where the record ends: four bytes per bin behind the start of the rates.
pub open spec fn wire_end(input: Seq<u8>) -> int {
    wire_rates_start(input) + 4 * wire_num_bins(input)
}

/// The rate of bin `i`: the low two bytes of the bin's four.
pub open spec fn wire_rate(input: Seq<u8>, i: int) -> u16 {
    be_u16(input.skip(wire_rates_start(input) + 4 * i + 2)) as u16
}

/// The rates of all bins, nearest first.
pub open spec fn wire_rates(input: Seq<u8>) -> Seq<u16> {
    Seq::new(wire_num_bins(input) as nat, |i: int| wire_rate(input, i))
}

/// The failure that decoding `input` ends in, if any. Fields are read and
/// checked in wire order, and the first one that is cut short or out of range
/// decides.
pub open spec fn decode_error(input: Seq<u8>) -> Option<ParseErrorView> {
    let azimuth = Scalar::Float(wire_azimuth(input));
    let elevation = Scalar::Float(wire_elevation(input));
    let width = Scalar::Float(wire_width(input));
    let num_bins = Scalar::Integer(wire_num_bins(input) as i32);
    if input.len() < 4 {
        Some(ParseErrorView::UnexpectedEndOfData)
    } else if !Radial::azimuth_range_spec().contains_spec(azimuth) {
        Some(range_violation(Radial::azimuth_range_spec(), azimuth, "azimuth"@, NAME@))
    } else if input.len() < 8 {
        Some(ParseErrorView::UnexpectedEndOfData)
    } else if !Radial::elevation_range_spec().contains_spec(elevation) {
        Some(range_violation(Radial::elevation_range_spec(), elevation, "elevation"@, NAME@))
    } else if input.len() < 12 {
        Some(ParseErrorView::UnexpectedEndOfData)
    } else if !Radial::width_range_spec().contains_spec(width) {
        Some(range_violation(Radial::width_range_spec(), width, "width"@, NAME@))
    } else if input.len() < 16 {
        Some(ParseErrorView::UnexpectedEndOfData)
    } else if !Radial::num_bins_range_spec().contains_spec(num_bins) {
        Some(range_violation(Radial::num_bins_range_spec(), num_bins, "num bins"@, NAME@))
    } else if input.len() < 20 || input.len() < wire_end(input) {
        Some(ParseErrorView::UnexpectedEndOfData)
    } else {
        None
    }
}

/// Whether the record at the front of `input` is all there: its fixed part up
/// to the length of the attributes, and everything up to its end.
pub open spec fn complete(input: Seq<u8>) -> bool {
    input.len() >= 20 && input.len() >= wire_end(input)
}

/// Whether `input` decodes.
pub open spec fn decodes(input: Seq<u8>) -> bool {
    decode_error(input) is None
}

/// The bit patterns that bound the ranges denote 360, -1, 45 and 2; the
/// pattern of all zeros denotes 0.
pub proof fn lemma_bounds_denote()
    ensures
        Binary32::from_bits(0).scaled() == 0,
        Binary32::from_bits(AZIMUTH_MAX_BITS).scaled() == 360 * pow2(149),
        Binary32::from_bits(ELEVATION_MIN_BITS).scaled() == -1 * pow2(149),
        Binary32::from_bits(ELEVATION_MAX_BITS).scaled() == 45 * pow2(149),
        Binary32::from_bits(WIDTH_MAX_BITS).scaled() == 2 * pow2(149),
{
    lemma2_to64();
    assert(pow2(149) == pow2(134) * 0x8000) by {
        lemma_pow2_adds(134, 15);
    }
    assert(pow2(149) == pow2(126) * 0x80_0000) by {
        lemma_pow2_adds(126, 23);
    }
    assert(pow2(149) == pow2(131) * 0x4_0000) by {
        lemma_pow2_adds(131, 18);
    }
    assert(2 * pow2(149) == pow2(127) * 0x80_0000) by {
        lemma_pow2_adds(127, 22);
        assert(pow2(22) == 0x40_0000);
    }
    assert(magnitude_of(0) == 0);
    assert(magnitude_of(0x43B4_0000) == 0xB4_0000 * pow2(134)) by {
        assert(0x43B4_0000nat / 0x80_0000 == 135 && 0x43B4_0000nat % 0x80_0000 == 0x34_0000);
    }
    assert(magnitude_of(0x3F80_0000) == 0x80_0000 * pow2(126)) by {
        assert(0x3F80_0000nat / 0x80_0000 == 127 && 0x3F80_0000nat % 0x80_0000 == 0);
    }
    assert(magnitude_of(0x4234_0000) == 0xB4_0000 * pow2(131)) by {
        assert(0x4234_0000nat / 0x80_0000 == 132 && 0x4234_0000nat % 0x80_0000 == 0x34_0000);
    }
    assert(magnitude_of(0x4000_0000) == 0x80_0000 * pow2(127)) by {
        assert(0x4000_0000nat / 0x80_0000 == 128 && 0x4000_0000nat % 0x80_0000 == 0);
    }
    assert(Binary32::from_bits(ELEVATION_MIN_BITS).magnitude_bits() == 0x3F80_0000);
}

/// Each range of angles holds exactly the numbers between its two bounds in
/// degrees: 0 to 360 for the azimuth, -1 to 45 for the elevation, 0 to 2 for
/// the width. A NaN is in none of them.
pub proof fn lemma_angle_ranges(value: Binary32)
    ensures
        Radial::azimuth_range_spec().contains_spec(Scalar::Float(value)) <==> between(
            value,
            0,
            360,
        ),
        Radial::elevation_range_spec().contains_spec(Scalar::Float(value)) <==> between(
            value,
            -1,
            45,
        ),
        Radial::width_range_spec().contains_spec(Scalar::Float(value)) <==> between(value, 0, 2),
{
    lemma_bounds_denote();
}

/// A buffer decodes if and only if the record is complete, its three angles
/// lie in their ranges and its bin count is between 0 and 1840.
pub proof fn lemma_decodes_iff_legal(input: Seq<u8>)
    ensures
        decodes(input) <==> {
            &&& complete(input)
            &&& between(wire_azimuth(input), 0, 360)
            &&& between(wire_elevation(input), -1, 45)
            &&& between(wire_width(input), 0, 2)
            &&& 0 <= wire_num_bins(input) <= 1840
        },
{
    lemma_angle_ranges(wire_azimuth(input));
    lemma_angle_ranges(wire_elevation(input));
    lemma_angle_ranges(wire_width(input));
}


/// The azimuth decides: whatever follows it, a record whose azimuth is not
/// between 0 and 360 degrees fails with a range violation that names the
/// azimuth; and a record that is otherwise legal and complete decodes if and
/// only if its azimuth is between 0 and 360 degrees.
pub proof fn lemma_azimuth_decides(input: Seq<u8>)
    requires
        input.len() >= 4,
    ensures
        decodes(input) ==> between(wire_azimuth(input), 0, 360),
        !between(wire_azimuth(input), 0, 360) ==> decode_error(input) == Some(
            range_violation(
                Radial::azimuth_range_spec(),
                Scalar::Float(wire_azimuth(input)),
                "azimuth"@,
                NAME@,
            ),
        ),
        ({
            &&& complete(input)
            &&& between(wire_elevation(input), -1, 45)
            &&& between(wire_width(input), 0, 2)
            &&& 0 <= wire_num_bins(input) <= 1840
        }) ==> (decodes(input) <==> between(wire_azimuth(input), 0, 360)),
{
    lemma_decodes_iff_legal(input);
    lemma_angle_ranges(wire_azimuth(input));
}

/// The elevation decides: behind a legal azimuth, a record whose elevation
/// is not between -1 and 45 degrees fails with a range violation that names
/// the elevation; and a record that is otherwise legal and complete decodes
/// if and only if its elevation is between -1 and 45 degrees.
pub proof fn lemma_elevation_decides(input: Seq<u8>)
    requires
        input.len() >= 8,
        between(wire_azimuth(input), 0, 360),
    ensures
        decodes(input) ==> between(wire_elevation(input), -1, 45),
        !between(wire_elevation(input), -1, 45) ==> decode_error(input) == Some(
            range_violation(
                Radial::elevation_range_spec(),
                Scalar::Float(wire_elevation(input)),
                "elevation"@,
                NAME@,
            ),
        ),
        ({
            &&& complete(input)
            &&& between(wire_width(input), 0, 2)
            &&& 0 <= wire_num_bins(input) <= 1840
        }) ==> (decodes(input) <==> between(wire_elevation(input), -1, 45)),
{
    lemma_decodes_iff_legal(input);
    lemma_angle_ranges(wire_azimuth(input));
    lemma_angle_ranges(wire_elevation(input));
}

/// The width decides: behind a legal azimuth and elevation, a record whose
/// width is not between 0 and 2 degrees fails with a range violation that
/// names the width; and a record that is otherwise legal and complete decodes
/// if and only if its width is between 0 and 2 degrees.
pub proof fn lemma_width_decides(input: Seq<u8>)
    requires
        input.len() >= 12,
        between(wire_azimuth(input), 0, 360),
        between(wire_elevation(input), -1, 45),
    ensures
        decodes(input) ==> between(wire_width(input), 0, 2),
        !between(wire_width(input), 0, 2) ==> decode_error(input) == Some(
            range_violation(
                Radial::width_range_spec(),
                Scalar::Float(wire_width(input)),
                "width"@,
                NAME@,
            ),
        ),
        (complete(input) && 0 <= wire_num_bins(input) <= 1840) ==> (decodes(input) <==> between(
            wire_width(input),
            0,
            2,
        )),
{
    lemma_decodes_iff_legal(input);
    lemma_angle_ranges(wire_azimuth(input));
    lemma_angle_ranges(wire_elevation(input));
    lemma_angle_ranges(wire_width(input));
}

/// The bin count decides: behind three legal angles, a record whose bin
/// count is not between 0 and 1840 fails with a range violation that names
/// the bin count, however much or little of the buffer follows; and a
/// complete record decodes if and only if its bin count is between 0 and
/// 1840.
pub proof fn lemma_num_bins_decides(input: Seq<u8>)
    requires
        input.len() >= 16,
        between(wire_azimuth(input), 0, 360),
        between(wire_elevation(input), -1, 45),
        between(wire_width(input), 0, 2),
    ensures
        decodes(input) ==> 0 <= wire_num_bins(input) <= 1840,
        !(0 <= wire_num_bins(input) <= 1840) ==> decode_error(input) == Some(
            range_violation(
                Radial::num_bins_range_spec(),
                Scalar::Integer(wire_num_bins(input) as i32),
                "num bins"@,
                NAME@,
            ),
        ),
        complete(input) ==> (decodes(input) <==> 0 <= wire_num_bins(input) <= 1840),
{
    lemma_decodes_iff_legal(input);
    lemma_angle_ranges(wire_azimuth(input));
    lemma_angle_ranges(wire_elevation(input));
    lemma_angle_ranges(wire_width(input));
}

/// A record that is cut short does not decode: of a buffer that decodes,
/// every prefix that ends before the record does fails with
/// `UnexpectedEndOfData`.
pub proof fn lemma_truncated(input: Seq<u8>, kept: int)
    requires
        0 <= kept < wire_end(input),
        kept <= input.len(),
        decodes(input),
    ensures
        decode_error(input.take(kept)) == Some(ParseErrorView::UnexpectedEndOfData),
{
    let cut = input.take(kept);
    if kept >= 4 {
        assert(be_u32(cut) == be_u32(input));
    }
    if kept >= 8 {
        assert(be_u32(cut.skip(4)) == be_u32(input.skip(4)));
    }
    if kept >= 12 {
        assert(be_u32(cut.skip(8)) == be_u32(input.skip(8)));
    }
    if kept >= 16 {
        assert(be_u32(cut.skip(12)) == be_u32(input.skip(12)));
    }
    if kept >= 20 {
        assert(be_u32(cut.skip(16)) == be_u32(input.skip(16)));
    }
}

/// Behind a legal header, a buffer that is shorter than the record it
/// declares fails with `UnexpectedEndOfData`.
pub proof fn lemma_short_rate_array(input: Seq<u8>)
    requires
        input.len() >= 16,
        between(wire_azimuth(input), 0, 360),
        between(wire_elevation(input), -1, 45),
        between(wire_width(input), 0, 2),
        0 <= wire_num_bins(input) <= 1840,
        !complete(input),
    ensures
        decode_error(input) == Some(ParseErrorView::UnexpectedEndOfData),
{
    lemma_angle_ranges(wire_azimuth(input));
    lemma_angle_ranges(wire_elevation(input));
    lemma_angle_ranges(wire_width(input));
}

/// A record is decided by its own bytes: whatever is appended to a buffer
/// that decodes, the longer buffer decodes to the same angles and rates, and
/// the record ends at the same place in it.
pub proof fn lemma_followed_by(input: Seq<u8>, more: Seq<u8>)
    requires
        decodes(input),
    ensures
        decodes(input + more),
        wire_azimuth(input + more) == wire_azimuth(input),
        wire_elevation(input + more) == wire_elevation(input),
        wire_width(input + more) == wire_width(input),
        wire_rates(input + more) == wire_rates(input),
        wire_end(input + more) == wire_end(input),
        (input + more).skip(wire_end(input)) == input.skip(wire_end(input)) + more,
{
    let longer = input + more;
    assert(be_u32(longer) == be_u32(input));
    assert(be_u32(longer.skip(4)) == be_u32(input.skip(4)));
    assert(be_u32(longer.skip(8)) == be_u32(input.skip(8)));
    assert(be_u32(longer.skip(12)) == be_u32(input.skip(12)));
    assert(be_u32(longer.skip(16)) == be_u32(input.skip(16)));
    assert forall|i: int| 0 <= i < wire_num_bins(input) implies wire_rate(longer, i) == wire_rate(
        input,
        i,
    ) by {
        let at = wire_rates_start(input) + 4 * i + 2;
        assert(be_u16(longer.skip(at)) == be_u16(input.skip(at)));
    }
    assert(wire_rates(longer) =~= wire_rates(input));
    assert(longer.skip(wire_end(input)) =~= input.skip(wire_end(input)) + more);
}

/// Decodes the radial at the front of `input`.
///
/// On success the record holds the three angles as they stand on the wire and
/// one rate per bin, in wire order; the bytes behind the record are handed
/// back with it. On failure nothing of the record is handed back.
pub fn radial<'a>(input: &'a [u8]) -> (res: ParseResult<'a, Radial>)
    ensures
        match res {
            Ok((record, tail)) => {
                &&& decode_error(input@) is None
                &&& record.well_formed()
                &&& record.azimuth == wire_azimuth(input@)
                &&& record.elevation == wire_elevation(input@)
                &&& record.width == wire_width(input@)
                &&& record.precip_rates@ == wire_rates(input@)
                &&& record.precip_rates@.len() == wire_num_bins(input@)
                &&& forall|i: int|
                    0 <= i < wire_num_bins(input@) ==> record.precip_rates@[i] == wire_rate(
                        input@,
                        i,
                    )
                &&& tail@ == input@.skip(wire_end(input@))
            },
            Err(e) => decode_error(input@) == Some(e@),
        },
{
    let (azimuth, tail) = take_float(input)?;
    check_range_inclusive(Radial::azimuth_range(), Scalar::Float(azimuth), "azimuth", NAME)?;

    let (elevation, tail) = take_float(tail)?;
    check_range_inclusive(Radial::elevation_range(), Scalar::Float(elevation), "elevation", NAME)?;
    assert(tail@ =~= input@.skip(8));

    let (width, tail) = take_float(tail)?;
    check_range_inclusive(Radial::width_range(), Scalar::Float(width), "width", NAME)?;
    assert(tail@ =~= input@.skip(12));

    let (num_bins, tail) = take_i32(tail)?;
    check_range_inclusive(Radial::num_bins_range(), Scalar::Integer(num_bins), "num bins", NAME)?;
    assert(tail@ =~= input@.skip(16));

    let (_attributes, tail) = take_string(tail)?;
    let (_, tail) = take_bytes(tail, 4)?;
    assert(tail@ =~= input@.skip(wire_rates_start(input@)));

    let count: usize = num_bins as usize;
    let mut precip_rates: Vec<u16> = Vec::with_capacity(count);
    let (rate_bytes, tail) = take_bytes(tail, count * 4)?;
    assert(tail@ =~= input@.skip(wire_end(input@)));

    let mut idx: usize = 0;
    while idx < count
        invariant
            idx <= count <= NUM_BINS_MAX,
            count == wire_num_bins(input@),
            rate_bytes@ == input@.skip(wire_rates_start(input@)).take(4 * count),
            wire_rates_start(input@) + 4 * count <= input@.len(),
            wire_rates_start(input@) >= 0,
            precip_rates@.len() == idx,
            forall|j: int| 0 <= j < idx ==> precip_rates@[j] == wire_rate(input@, j),
        decreases count - idx,
    {
        let rate = u16_at(rate_bytes, idx * 4 + 2);
        assert(rate_bytes@.skip(idx * 4 + 2).take(2) =~= input@.skip(
            wire_rates_start(input@) + 4 * idx + 2,
        ).take(2));
        precip_rates.push(rate);
        idx = idx + 1;
    }
    assert(precip_rates@ =~= wire_rates(input@));
    proof {
        lemma_decodes_iff_legal(input@);
    }
    Ok((Radial { azimuth, elevation, width, precip_rates }, tail))
}

} // verus!
