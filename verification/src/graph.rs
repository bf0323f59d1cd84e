//! The altitude sweep behind a detection-range curve, and its projection for plotting.
//!
//! Altitudes are whole metres and are computed here. Ranges are values of a type `T` that the
//! caller picks and computes with: the horizon formula and the divisions are the caller's
//! operations, and each contract says which call of them a value comes from.

use vstd::prelude::*;
use crate::units::Factor;

verus! {

/// Distance in metres between two neighbouring sampled altitudes.
pub const SWEEP_STEP_M: u32 = 25;

/// Highest sampled altitude in metres.
pub const SWEEP_TOP_M: u32 = 20000;

/// Number of points on a curve: one per step from the ground to the top, both included.
pub const SWEEP_POINTS: usize = 801;

/// Detection range for a target at one altitude, both in metres.
#[derive(Debug, PartialEq, Eq)]
pub struct GraphPoint<T> {
    /// Range at which a target at `alt_m` comes into sight.
    pub range_m: T,
    /// Altitude of the target, in whole metres.
    pub alt_m: u32,
}

/// A curve point read in nautical miles and feet.
#[derive(Debug, PartialEq, Eq)]
pub struct PlotPoint<T> {
    /// Range in nautical miles.
    pub range_nm: T,
    /// Altitude in feet.
    pub alt_ft: T,
}

/// Altitude in metres of the sample at position `i` of a curve.
pub open spec fn sweep_altitude(i: int) -> int {
    SWEEP_STEP_M * i
}

/// `points` is the full curve for a radar at height `hrm`: one point per sampled altitude,
/// in sweep order, each holding a range that `horizon` gives for `hrm` and that altitude.
pub open spec fn is_curve<T, H: Fn(T, u32) -> T>(points: Seq<GraphPoint<T>>, hrm: T, horizon: H) -> bool {
    &&& points.len() == SWEEP_POINTS
    &&& forall|i: int|
        0 <= i < points.len() ==> {
            &&& (#[trigger] points[i]).alt_m == sweep_altitude(i)
            &&& horizon.ensures((hrm, points[i].alt_m), points[i].range_m)
        }
}

/// `plot` reads `point` in plotting units: the range divided by [`Factor::MetersPerNm`], a
/// result of `divide`, and the altitude divided by [`Factor::MetersPerFoot`], a result of
/// `divide_whole`.
pub open spec fn is_projection<T, D: Fn(T, Factor) -> T, W: Fn(u32, Factor) -> T>(
    point: GraphPoint<T>,
    plot: PlotPoint<T>,
    divide: D,
    divide_whole: W,
) -> bool {
    &&& divide.ensures((point.range_m, Factor::MetersPerNm), plot.range_nm)
    &&& divide_whole.ensures((point.alt_m, Factor::MetersPerFoot), plot.alt_ft)
}

/// A curve starts on the ground, ends at the top of the sweep and climbs by one step from each
/// point to the next, so its altitudes are strictly increasing.
pub proof fn lemma_curve_climbs<T, H: Fn(T, u32) -> T>(points: Seq<GraphPoint<T>>, hrm: T, horizon: H)
    requires
        is_curve(points, hrm, horizon),
    ensures
        points.first().alt_m == 0,
        points.last().alt_m == SWEEP_TOP_M,
        forall|i: int| 0 <= i < points.len() - 1 ==> points[i + 1].alt_m == #[trigger] points[i].alt_m + SWEEP_STEP_M,
        forall|i: int, j: int| 0 <= i < j < points.len() ==> #[trigger] points[i].alt_m < #[trigger] points[j].alt_m,
{
}

/// Samples the detection range of a radar at height `hrm` over the whole sweep: altitudes 0,
/// 25, 50 and so on up to 20000 metres, in that order, with one call of `horizon` for each.
pub fn graph_meters<T: Copy, H: Fn(T, u32) -> T>(hrm: T, horizon: H) -> (points: Vec<GraphPoint<T>>)
    requires
        forall|i: int| 0 <= i < SWEEP_POINTS ==> horizon.requires((hrm, #[trigger] sweep_altitude(i) as u32)),
    ensures
        is_curve(points@, hrm, horizon),
        forall|i: int, j: int| 0 <= i < j < points.len() ==> #[trigger] points[i].alt_m < #[trigger] points[j].alt_m,
{
    let mut points: Vec<GraphPoint<T>> = Vec::new();
    let mut alt_m: u32 = 0;
    while points.len() < SWEEP_POINTS
        invariant
            points.len() <= SWEEP_POINTS,
            alt_m == sweep_altitude(points.len() as int),
            forall|i: int| 0 <= i < SWEEP_POINTS ==> horizon.requires((hrm, #[trigger] sweep_altitude(i) as u32)),
            forall|i: int|
                0 <= i < points.len() ==> {
                    &&& (#[trigger] points[i]).alt_m == sweep_altitude(i)
                    &&& horizon.ensures((hrm, points[i].alt_m), points[i].range_m)
                },
        decreases SWEEP_POINTS - points.len(),
    {
        let range_m = horizon(hrm, alt_m);
        points.push(GraphPoint { range_m, alt_m });
        alt_m = alt_m + SWEEP_STEP_M;
    }
    points
}

/// Reads every point of `points` in nautical miles and feet. The result has as many points,
/// in the same order; nothing is computed anew but the two divisions for each point.
pub fn graph_ft<T: Copy, D: Fn(T, Factor) -> T, W: Fn(u32, Factor) -> T>(
    points: &Vec<GraphPoint<T>>,
    divide: D,
    divide_whole: W,
) -> (plot: Vec<PlotPoint<T>>)
    requires
        forall|i: int|
            0 <= i < points.len() ==> divide.requires(((#[trigger] points[i]).range_m, Factor::MetersPerNm)),
        forall|i: int|
            0 <= i < points.len() ==> divide_whole.requires(
                ((#[trigger] points[i]).alt_m, Factor::MetersPerFoot),
            ),
    ensures
        plot.len() == points.len(),
        forall|i: int| 0 <= i < points.len() ==> is_projection(points[i], #[trigger] plot[i], divide, divide_whole),
{
    let mut plot: Vec<PlotPoint<T>> = Vec::new();
    let mut i: usize = 0;
    while i < points.len()
        invariant
            i <= points.len(),
            plot.len() == i,
            forall|j: int|
                0 <= j < points.len() ==> divide.requires(((#[trigger] points[j]).range_m, Factor::MetersPerNm)),
            forall|j: int|
                0 <= j < points.len() ==> divide_whole.requires(
                    ((#[trigger] points[j]).alt_m, Factor::MetersPerFoot),
                ),
            forall|j: int| 0 <= j < i ==> is_projection(points[j], #[trigger] plot[j], divide, divide_whole),
        decreases points.len() - i,
    {
        let point = &points[i];
        plot.push(
            PlotPoint {
                range_nm: divide(point.range_m, Factor::MetersPerNm),
                alt_ft: divide_whole(point.alt_m, Factor::MetersPerFoot),
            },
        );
        i = i + 1;
    }
    plot
}

} // verus!
