//! From a pointer position to the square under it.
//!
//! Positions and lengths are whole numbers of one unit that the caller
//! chooses, fine enough for the layout at hand (with quarter world units, a
//! pitch of 77.5 world units is 310).

use vstd::prelude::*;

verus! {

/// Where the board lies and how wide its squares are, as a mathematical value.
pub struct GeometryModel {
    /// The corner of the board at which board-local coordinates start.
    pub origin_x: int,
    pub origin_y: int,
    /// How far the board reaches from its centre in each direction.
    pub extent: int,
    /// The distance from one square to the next.
    pub pitch: int,
}

impl GeometryModel {
    /// The pitch is positive.
    pub open spec fn wf(self) -> bool {
        self.pitch > 0
    }

    /// Whether `(x, y)` lies inside the bounding square of the board: from the
    /// origin corner up to, and not including, twice the extent beyond it.
    pub open spec fn contains(self, x: int, y: int) -> bool {
        &&& self.origin_x <= x < self.origin_x + 2 * self.extent
        &&& self.origin_y <= y < self.origin_y + 2 * self.extent
    }
}

/// `local / pitch` rounded to the nearest whole number, a tie going up.
pub open spec fn round_div(local: int, pitch: int) -> int
    recommends
        local >= 0,
        pitch > 0,
{
    (2 * local + pitch) / (2 * pitch)
}

/// `value` held into `0..=7`.
pub open spec fn clamp_index(value: int) -> int {
    if value < 0 {
        0
    } else if value > 7 {
        7
    } else {
        value
    }
}

/// The index along one axis of the square under a board-local coordinate: the
/// coordinate over the pitch, rounded to the nearest whole number, less one,
/// held into `0..=7`.
pub open spec fn axis_cell(local: int, pitch: int) -> int
    recommends
        local >= 0,
        pitch > 0,
{
    clamp_index(round_div(local, pitch) - 1)
}

/// The square under the position `(x, y)`, or `None` where the position is
/// outside the bounding square.
pub open spec fn spec_normalize_cursor(
    geometry: GeometryModel,
    x: int,
    y: int,
) -> Option<(u8, u8)> {
    if geometry.contains(x, y) {
        Some(
            (
                axis_cell(x - geometry.origin_x, geometry.pitch) as u8,
                axis_cell(y - geometry.origin_y, geometry.pitch) as u8,
            ),
        )
    } else {
        None
    }
}

/// Where the board lies and how wide its squares are.
#[derive(Clone, Copy, Debug)]
pub struct BoardGeometry {
    origin_x: i32,
    origin_y: i32,
    extent: i32,
    pitch: i32,
}

impl View for BoardGeometry {
    type V = GeometryModel;

    closed spec fn view(&self) -> GeometryModel {
        GeometryModel {
            origin_x: self.origin_x as int,
            origin_y: self.origin_y as int,
            extent: self.extent as int,
            pitch: self.pitch as int,
        }
    }
}

impl BoardGeometry {
    /// Every geometry that exists has a positive pitch.
    #[verifier::type_invariant]
    pub open spec fn inv(&self) -> bool {
        self@.wf()
    }

    /// The geometry with the given origin corner, extent and pitch, or `None`
    /// where the pitch is not positive.
    pub fn new(
        origin_x: i32,
        origin_y: i32,
        extent: i32,
        pitch: i32,
    ) -> (geometry: Option<BoardGeometry>)
        ensures
            geometry is Some <==> pitch > 0,
            geometry matches Some(g) ==> g@ == (GeometryModel {
                origin_x: origin_x as int,
                origin_y: origin_y as int,
                extent: extent as int,
                pitch: pitch as int,
            }),
    {
        if pitch > 0 {
            Some(BoardGeometry { origin_x, origin_y, extent, pitch })
        } else {
            None
        }
    }

    /// The origin corner of the board.
    pub fn origin(&self) -> (origin: (i32, i32))
        ensures
            origin.0 == self@.origin_x,
            origin.1 == self@.origin_y,
    {
        (self.origin_x, self.origin_y)
    }

    /// How far the board reaches from its centre in each direction.
    pub fn extent(&self) -> (extent: i32)
        ensures
            extent == self@.extent,
    {
        self.extent
    }

    /// The distance from one square to the next.
    pub fn pitch(&self) -> (pitch: i32)
        ensures
            pitch == self@.pitch,
            pitch > 0,
    {
        proof {
            use_type_invariant(self);
        }
        self.pitch
    }

    /// Whether `coordinate` lies between the origin and twice the extent
    /// beyond it.
    fn spans(&self, origin: i32, coordinate: i32) -> (inside: bool)
        ensures
            inside == (origin <= coordinate < origin + 2 * self@.extent),
    {
        let low: i64 = origin as i64;
        let high: i64 = origin as i64 + 2 * (self.extent as i64);
        low <= coordinate as i64 && (coordinate as i64) < high
    }

    /// The index along one axis of the square under `coordinate`.
    fn axis_index(&self, origin: i32, coordinate: i32) -> (index: u8)
        requires
            origin <= coordinate,
        ensures
            index == axis_cell(coordinate - origin, self@.pitch),
            index < 8,
    {
        proof {
            use_type_invariant(self);
        }
        let local: i64 = coordinate as i64 - origin as i64;
        let pitch: i64 = self.pitch as i64;
        let rounded: i64 = (2 * local + pitch) / (2 * pitch);
        if rounded <= 1 {
            0
        } else if rounded >= 8 {
            7
        } else {
            (rounded - 1) as u8
        }
    }
}

/// Maps a pointer position to the square under it.
///
/// A position outside the bounding square of the board maps to no square.
/// Inside, each coordinate is taken relative to the origin corner, divided by
/// the pitch, rounded to the nearest whole number (a tie going up), lessened
/// by one and held into `0..=7`.
pub fn normalize_cursor(geometry: &BoardGeometry, position: (i32, i32)) -> (cell: Option<(u8, u8)>)
    ensures
        cell == spec_normalize_cursor(geometry@, position.0 as int, position.1 as int),
        cell is Some <==> geometry@.contains(position.0 as int, position.1 as int),
        cell matches Some(c) ==> c.0 < 8 && c.1 < 8,
{
    let (origin_x, origin_y) = geometry.origin();
    if geometry.spans(origin_x, position.0) && geometry.spans(origin_y, position.1) {
        let x_pos = geometry.axis_index(origin_x, position.0);
        let y_pos = geometry.axis_index(origin_y, position.1);
        Some((x_pos, y_pos))
    } else {
        None
    }
}

/// `round_div` is the nearest whole number: it is off from the exact quotient
/// by at most one half, and takes the upper of two that are equally near.
pub proof fn lemma_round_div_nearest(local: int, pitch: int)
    requires
        local >= 0,
        pitch > 0,
    ensures
        round_div(local, pitch) >= 0,
        2 * round_div(local, pitch) * pitch - pitch <= 2 * local,
        2 * local < 2 * round_div(local, pitch) * pitch + pitch,
{
    let r = round_div(local, pitch);
    vstd::arithmetic::div_mod::lemma_fundamental_div_mod(2 * local + pitch, 2 * pitch);
    vstd::arithmetic::div_mod::lemma_mod_bound(2 * local + pitch, 2 * pitch);
    vstd::arithmetic::div_mod::lemma_div_pos_is_pos(2 * local + pitch, 2 * pitch);
    assert(2 * pitch * r == 2 * r * pitch) by (nonlinear_arith);
}

/// Which coordinates fall on which square: the first square is wide one and a
/// half pitches, each of the next six one pitch, and the last takes the rest.
pub proof fn lemma_axis_cell_bands(local: int, pitch: int, k: int)
    requires
        local >= 0,
        pitch > 0,
        0 <= k <= 7,
    ensures
        0 <= axis_cell(local, pitch) <= 7,
        k == 0 ==> (axis_cell(local, pitch) == 0 <==> 2 * local < 3 * pitch),
        0 < k < 7 ==> (axis_cell(local, pitch) == k <==> (2 * k + 1) * pitch <= 2 * local < (2 * k
            + 3) * pitch),
        k == 7 ==> (axis_cell(local, pitch) == 7 <==> 15 * pitch <= 2 * local),
{
    let r = round_div(local, pitch);
    lemma_round_div_nearest(local, pitch);
    assert(r <= k ==> 2 * r * pitch + pitch <= (2 * k + 1) * pitch) by (nonlinear_arith)
        requires
            pitch > 0,
    ;
    assert(r >= k + 2 ==> 2 * r * pitch - pitch >= (2 * k + 3) * pitch) by (nonlinear_arith)
        requires
            pitch > 0,
    ;
    assert(r == k + 1 ==> 2 * r * pitch - pitch == (2 * k + 1) * pitch && 2 * r * pitch + pitch
        == (2 * k + 3) * pitch) by (nonlinear_arith);
    assert(r <= 1 ==> 2 * r * pitch + pitch <= 3 * pitch) by (nonlinear_arith)
        requires
            pitch > 0,
    ;
    assert(r >= 2 ==> 2 * r * pitch - pitch >= 3 * pitch) by (nonlinear_arith)
        requires
            pitch > 0,
    ;
    assert(r >= 8 ==> 2 * r * pitch - pitch >= 15 * pitch) by (nonlinear_arith)
        requires
            pitch > 0,
    ;
    assert(r <= 7 ==> 2 * r * pitch + pitch <= 15 * pitch) by (nonlinear_arith)
        requires
            pitch > 0,
    ;
}

} // verus!
