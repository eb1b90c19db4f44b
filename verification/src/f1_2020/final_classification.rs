//! The final-classification packet: the end-of-race result of every car slot.

use crate::cursor::{le_u32, le_u64, Cursor};
use crate::error::DecodeError;
use crate::error::Section;
use crate::f1_2020::car::{ActualTyreCompound, TOTAL_CARS, VisualTyreCompound};
use crate::f1_2020::car_status::{parse_actual_tyre_compound, parse_visual_tyre_compound,
    spec_parse_actual_tyre_compound, spec_parse_visual_tyre_compound};
use crate::f1_2020::header::PacketHeader;
use crate::f1_2020::lap::{parse_result_status, spec_parse_result_status, ResultStatus};
use crate::units::{Seconds32, Seconds64};
use vstd::prelude::*;

verus! {

/// Exact expected size of a final-classification datagram.
pub const FINAL_CLASSIFICATION_MIN_SIZE: usize = 839;

/// End-of-race result of a single car.
#[derive(Debug, Clone, PartialEq, Eq)]
pub struct FinalClassificationData {
    /// Finishing position.
    pub position: u8,
    pub num_laps: u8,
    pub grid_position: u8,
    pub points: u8,
    pub num_pit_stops: u8,
    pub result_status: ResultStatus,
    /// Best lap time, seconds as 32-bit floating point.
    pub best_lap_time: Seconds32,
    /// Total race time, seconds as 64-bit floating point.
    pub total_race_time: Seconds64,
    /// Accumulated penalty time in seconds.
    pub penalties_time: u8,
    pub num_penalties: u8,
    /// Number of tyre stints the car ran; the two arrays below always hold
    /// all eight slots regardless.
    pub num_tyre_stints: u8,
    pub tyre_stints_actual: Vec<ActualTyreCompound>,
    pub tyre_stints_visual: Vec<VisualTyreCompound>,
}

/// The final-classification packet: the declared car count and one entry per
/// car slot.
#[derive(Debug, Clone, PartialEq, Eq)]
pub struct PacketFinalClassificationData {
    pub header: PacketHeader,
    /// Number of cars declared in the packet; the array below always holds
    /// every slot regardless.
    pub num_cars: u8,
    pub final_classification_data: Vec<FinalClassificationData>,
}

/// Whether the 37-byte classification entry at `pos` decodes without error.
pub open spec fn spec_final_classification_ok(s: Seq<u8>, pos: int) -> bool {
    &&& pos + 37 <= s.len()
    &&& spec_parse_result_status(s[pos + 5]) is Ok
    &&& (forall|k: int|
        0 <= k < 8 ==> (#[trigger] spec_parse_actual_tyre_compound(s[pos + 21 + k])) is Ok)
    &&& (forall|k: int|
        0 <= k < 8 ==> (#[trigger] spec_parse_visual_tyre_compound(s[pos + 29 + k])) is Ok)
}

/// Whether `e` is the first error met reading the classification entry at
/// `pos` in wire order; meaningful only when the entry does not decode.
pub open spec fn spec_final_classification_err_matches(s: Seq<u8>, pos: int, e: DecodeError) -> bool {
    if pos + 6 > s.len() {
        e == DecodeError::UnexpectedEndOfBuffer
    } else if spec_parse_result_status(s[pos + 5]) is Err {
        e == spec_parse_result_status(s[pos + 5])->Err_0
    } else if pos + 21 > s.len() {
        e == DecodeError::UnexpectedEndOfBuffer
    } else if !(forall|k: int|
        0 <= k < 8 ==> pos + 22 + k <= s.len() && (#[trigger] spec_parse_actual_tyre_compound(
            s[pos + 21 + k],
        )) is Ok) {
        exists|k: int|
            0 <= k < 8 && (forall|m: int|
                0 <= m < k ==> pos + 22 + m <= s.len() && (#[trigger] spec_parse_actual_tyre_compound(
                    s[pos + 21 + m],
                )) is Ok) && (if pos + 22 + k > s.len() {
                e == DecodeError::UnexpectedEndOfBuffer
            } else {
                (#[trigger] spec_parse_actual_tyre_compound(s[pos + 21 + k])) is Err && e
                    == spec_parse_actual_tyre_compound(s[pos + 21 + k])->Err_0
            })
    } else if !(forall|k: int|
        0 <= k < 8 ==> pos + 30 + k <= s.len() && (#[trigger] spec_parse_visual_tyre_compound(
            s[pos + 29 + k],
        )) is Ok) {
        exists|k: int|
            0 <= k < 8 && (forall|m: int|
                0 <= m < k ==> pos + 30 + m <= s.len() && (#[trigger] spec_parse_visual_tyre_compound(
                    s[pos + 29 + m],
                )) is Ok) && (if pos + 30 + k > s.len() {
                e == DecodeError::UnexpectedEndOfBuffer
            } else {
                (#[trigger] spec_parse_visual_tyre_compound(s[pos + 29 + k])) is Err && e
                    == spec_parse_visual_tyre_compound(s[pos + 29 + k])->Err_0
            })
    } else {
        false
    }
}

/// Whether `e` holds exactly the fields of the classification entry laid out
/// at `q`.
pub open spec fn spec_final_classification_matches(
    e: FinalClassificationData,
    s: Seq<u8>,
    q: int,
) -> bool {
    &&& e.position == s[q]
    &&& e.num_laps == s[q + 1]
    &&& e.grid_position == s[q + 2]
    &&& e.points == s[q + 3]
    &&& e.num_pit_stops == s[q + 4]
    &&& e.result_status == spec_parse_result_status(s[q + 5])->Ok_0
    &&& e.best_lap_time == (Seconds32 { bits: le_u32(s, q + 6) })
    &&& e.total_race_time == (Seconds64 { bits: le_u64(s, q + 10) })
    &&& e.penalties_time == s[q + 18]
    &&& e.num_penalties == s[q + 19]
    &&& e.num_tyre_stints == s[q + 20]
    &&& e.tyre_stints_actual@.len() == 8
    &&& (forall|k: int|
        0 <= k < 8 ==> #[trigger] e.tyre_stints_actual@[k] == spec_parse_actual_tyre_compound(
            s[q + 21 + k],
        )->Ok_0)
    &&& e.tyre_stints_visual@.len() == 8
    &&& (forall|k: int|
        0 <= k < 8 ==> #[trigger] e.tyre_stints_visual@[k] == spec_parse_visual_tyre_compound(
            s[q + 29 + k],
        )->Ok_0)
}

/// Decodes one 37-byte classification entry from the cursor's current
/// position, including its two fixed 8-slot tyre-stint arrays.
#[verifier::rlimit(30)]
pub fn parse_final_classification(cursor: &mut Cursor) -> (r: Result<
    FinalClassificationData,
    DecodeError,
>)
    ensures
        final(cursor).data == old(cursor).data,
        spec_final_classification_ok(old(cursor).data@, old(cursor).pos as int) <==> r is Ok,
        r is Ok ==> final(cursor).pos == old(cursor).pos + 37 && spec_final_classification_matches(
            r->Ok_0,
            old(cursor).data@,
            old(cursor).pos as int,
        ),
        r is Err ==> spec_final_classification_err_matches(
            old(cursor).data@,
            old(cursor).pos as int,
            r->Err_0,
        ),
{
    let ghost s = cursor.data@;
    let ghost q = cursor.pos as int;

    let position = cursor.read_u8()?;
    let num_laps = cursor.read_u8()?;
    let grid_position = cursor.read_u8()?;
    let points = cursor.read_u8()?;
    let num_pit_stops = cursor.read_u8()?;
    let result_status = parse_result_status(cursor)?;
    let best_lap_time = Seconds32 { bits: cursor.read_u32()? };
    let total_race_time = Seconds64 { bits: cursor.read_u64()? };
    let penalties_time = cursor.read_u8()?;
    let num_penalties = cursor.read_u8()?;
    let num_tyre_stints = cursor.read_u8()?;

    let mut tyre_stints_actual: Vec<ActualTyreCompound> = Vec::new();
    let mut k: usize = 0;
    while k < 8
        invariant
            s == cursor.data@,
            s == old(cursor).data@,
            cursor.data == old(cursor).data,
            q == old(cursor).pos as int,
            q + 21 <= s.len(),
            spec_parse_result_status(s[q + 5]) is Ok,
            0 <= k <= 8,
            cursor.pos == q + 21 + k,
            tyre_stints_actual@.len() == k,
            forall|m: int|
                0 <= m < k ==> q + 22 + m <= s.len() && (#[trigger] spec_parse_actual_tyre_compound(
                    s[q + 21 + m],
                )) is Ok,
            forall|m: int|
                0 <= m < k ==> #[trigger] tyre_stints_actual@[m]
                    == spec_parse_actual_tyre_compound(s[q + 21 + m])->Ok_0,
        decreases 8 - k,
    {
        let b = match cursor.read_u8() {
            Ok(b) => b,
            Err(e) => {
                proof {
                    let ki = k as int;
                    assert(q + 22 + ki > s.len());
                    assert(!(q + 22 + ki <= s.len() && (spec_parse_actual_tyre_compound(
                        s[q + 21 + ki],
                    )) is Ok));
                }
                return Err(e);
            },
        };
        let tc = match parse_actual_tyre_compound(b) {
            Ok(tc) => tc,
            Err(e) => {
                proof {
                    let ki = k as int;
                    assert(spec_parse_actual_tyre_compound(s[q + 21 + ki]) is Err);
                    assert(!(q + 22 + ki <= s.len() && (spec_parse_actual_tyre_compound(
                        s[q + 21 + ki],
                    )) is Ok));
                }
                return Err(e);
            },
        };
        tyre_stints_actual.push(tc);
        k = k + 1;
    }

    proof {
        assert(q + 22 + 7 <= s.len() && (spec_parse_actual_tyre_compound(s[q + 21 + 7])) is Ok);
    }

    let mut tyre_stints_visual: Vec<VisualTyreCompound> = Vec::new();
    let mut k: usize = 0;
    while k < 8
        invariant
            s == cursor.data@,
            s == old(cursor).data@,
            cursor.data == old(cursor).data,
            q == old(cursor).pos as int,
            q + 29 <= s.len(),
            spec_parse_result_status(s[q + 5]) is Ok,
            forall|m: int|
                0 <= m < 8 ==> q + 22 + m <= s.len() && (#[trigger] spec_parse_actual_tyre_compound(
                    s[q + 21 + m],
                )) is Ok,
            0 <= k <= 8,
            cursor.pos == q + 29 + k,
            tyre_stints_visual@.len() == k,
            forall|m: int|
                0 <= m < k ==> q + 30 + m <= s.len() && (#[trigger] spec_parse_visual_tyre_compound(
                    s[q + 29 + m],
                )) is Ok,
            forall|m: int|
                0 <= m < k ==> #[trigger] tyre_stints_visual@[m]
                    == spec_parse_visual_tyre_compound(s[q + 29 + m])->Ok_0,
        decreases 8 - k,
    {
        let b = match cursor.read_u8() {
            Ok(b) => b,
            Err(e) => {
                proof {
                    let ki = k as int;
                    assert(q + 30 + ki > s.len());
                    assert(!(q + 30 + ki <= s.len() && (spec_parse_visual_tyre_compound(
                        s[q + 29 + ki],
                    )) is Ok));
                }
                return Err(e);
            },
        };
        let tc = match parse_visual_tyre_compound(b) {
            Ok(tc) => tc,
            Err(e) => {
                proof {
                    let ki = k as int;
                    assert(spec_parse_visual_tyre_compound(s[q + 29 + ki]) is Err);
                    assert(!(q + 30 + ki <= s.len() && (spec_parse_visual_tyre_compound(
                        s[q + 29 + ki],
                    )) is Ok));
                }
                return Err(e);
            },
        };
        tyre_stints_visual.push(tc);
        k = k + 1;
    }

    proof {
        assert(q + 30 + 7 <= s.len() && (spec_parse_visual_tyre_compound(s[q + 29 + 7])) is Ok);
        assert(q + 37 <= s.len());
    }

    Ok(FinalClassificationData {
        position,
        num_laps,
        grid_position,
        points,
        num_pit_stops,
        result_status,
        best_lap_time,
        total_race_time,
        penalties_time,
        num_penalties,
        num_tyre_stints,
        tyre_stints_actual,
        tyre_stints_visual,
    })
}

/// Rejects a declared datagram length other than the exact
/// final-classification size.
fn ensure_final_classification_size(size: usize) -> (r: Result<(), DecodeError>)
    ensures
        size == 839 ==> r == Ok::<(), DecodeError>(()),
        size != 839 ==> r == Err::<(), DecodeError>(
            DecodeError::InvalidSize(Section::FinalClassification, size, 839),
        ),
{
    if size == FINAL_CLASSIFICATION_MIN_SIZE {
        return Ok(());
    }
    Err(DecodeError::InvalidSize(Section::FinalClassification, size, FINAL_CLASSIFICATION_MIN_SIZE))
}

/// Everything the final-classification decoder promises of its result `r`,
/// for the buffer `s`, payload start `p`, the already-decoded `header`, and
/// the declared datagram length `size`.
pub open spec fn spec_final_classification_outcome(
    r: Result<PacketFinalClassificationData, DecodeError>,
    s: Seq<u8>,
    p: int,
    header: PacketHeader,
    size: usize,
) -> bool {
    &&& size != 839 ==> r == Err::<PacketFinalClassificationData, DecodeError>(
        DecodeError::InvalidSize(Section::FinalClassification, size, 839),
    )
    &&& size == 839 ==> (r is Ok <==> (p + 1 <= s.len() && (forall|j: int|
        0 <= j < 22 ==> #[trigger] spec_final_classification_ok(s, p + 1 + j * 37))))
    &&& size == 839 && r is Ok ==> {
        &&& r->Ok_0.header == header
        &&& r->Ok_0.num_cars == s[p]
        &&& r->Ok_0.final_classification_data@.len() == 22
        &&& (forall|j: int|
            0 <= j < 22 ==> spec_final_classification_matches(
                #[trigger] r->Ok_0.final_classification_data@[j],
                s,
                p + 1 + j * 37,
            ))
    }
    &&& size == 839 && r is Err ==> ((p + 1 > s.len() && r->Err_0
        == DecodeError::UnexpectedEndOfBuffer) || (p + 1 <= s.len() && (exists|j: int|
        0 <= j < 22 && !(#[trigger] spec_final_classification_ok(s, p + 1 + j * 37))
            && spec_final_classification_err_matches(s, p + 1 + j * 37, r->Err_0) && (forall|
            k: int,
        |
            0 <= k < j ==> #[trigger] spec_final_classification_ok(s, p + 1 + k * 37)))))
}

/// Decodes the final-classification payload: the car count, then 22
/// classification entries, 815 bytes after the header.
///
/// A declared length other than exactly 839 is rejected with `InvalidSize`
/// before any field is read (exact-size policy).  The array always holds all
/// 22 slots, whatever the declared car count.  Success is exactly the case
/// where the count byte is present and all 22 entries decode; on failure the
/// error is the first error in wire order.
#[verifier::rlimit(50)]
pub fn parse_final_classification_data(cursor: &mut Cursor, header: PacketHeader, size: usize) -> (r:
    Result<PacketFinalClassificationData, DecodeError>)
    ensures
        final(cursor).data == old(cursor).data,
        spec_final_classification_outcome(r, old(cursor).data@, old(cursor).pos as int, header, size),
        size != 839 ==> final(cursor).pos == old(cursor).pos,
        r is Ok ==> final(cursor).pos == old(cursor).pos + 815,
{
    ensure_final_classification_size(size)?;

    let ghost s = cursor.data@;
    let ghost p0 = cursor.pos as int;

    let num_cars = cursor.read_u8()?;

    let mut final_classification_data: Vec<FinalClassificationData> = Vec::new();
    let mut i: usize = 0;
    while i < TOTAL_CARS
        invariant
            size == 839,
            s == old(cursor).data@,
            p0 == old(cursor).pos as int,
            p0 + 1 <= s.len(),
            cursor.data == old(cursor).data,
            0 <= i <= 22,
            cursor.pos == p0 + 1 + i * 37,
            final_classification_data@.len() == i,
            forall|j: int| 0 <= j < i ==> #[trigger] spec_final_classification_ok(s, p0 + 1 + j * 37),
            forall|j: int|
                0 <= j < i ==> spec_final_classification_matches(
                    #[trigger] final_classification_data@[j],
                    s,
                    p0 + 1 + j * 37,
                ),
        decreases 22 - i,
    {
        match parse_final_classification(cursor) {
            Ok(data) => {
                final_classification_data.push(data);
            },
            Err(e) => {
                proof {
                    assert(!spec_final_classification_ok(s, p0 + 1 + (i as int) * 37));
                }
                return Err(e);
            },
        }
        i = i + 1;
    }

    Ok(PacketFinalClassificationData { header, num_cars, final_classification_data })
}

} // verus!
