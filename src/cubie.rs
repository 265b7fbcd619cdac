use crate::face::{
    axis_after, lemma_turn_inverse, lemma_turn_keeps_axes_apart, lemma_turn_order_four, sign, sin,
    Axis, Face,
};
use vstd::array::spec_array_update;
use vstd::prelude::*;

verus! {

/// A lattice position: one coordinate per axis.
pub type Pos = [i8; 3];

/// Every coordinate is -1, 0 or 1.
pub open spec fn in_lattice(p: Pos) -> bool {
    &&& -1 <= p@[0] <= 1
    &&& -1 <= p@[1] <= 1
    &&& -1 <= p@[2] <= 1
}

/// The position lies in the layer that a turn of `face` moves.
pub open spec fn in_layer(p: Pos, face: Face) -> bool {
    p@[face.axis as int] == sign(face.pol)
}

/// The coordinate of `p` on the axis `k` steps after `axis`.
pub open spec fn coord_after(p: Pos, axis: Axis, k: int) -> int {
    p@[axis_after(axis, k) as int] as int
}

/// Where a quarter turn of `face` takes position `p`: a layer position turns
/// by a right angle about the face's axis, any other stays.
pub open spec fn turned_pos(p: Pos, face: Face, clockwise: bool) -> Pos {
    if in_layer(p, face) {
        let s = sign(clockwise);
        let x = axis_after(face.axis, 1) as int;
        let y = axis_after(face.axis, 2) as int;
        spec_array_update(
            spec_array_update(p, x, (-coord_after(p, face.axis, 2) * s) as i8),
            y,
            (coord_after(p, face.axis, 1) * s) as i8,
        )
    } else {
        p
    }
}

/// The orientation of a cubie: the directions in which its originally white
/// and originally blue stickers point now.
#[derive(Clone, Copy, PartialEq, Eq, Debug, Structural)]
pub struct Ori {
    pub white: Face,
    pub blue: Face,
}

impl Ori {
    /// Both reference faces are faces, on different axes.
    pub open spec fn wf(self) -> bool {
        &&& self.white.wf()
        &&& self.blue.wf()
        &&& self.white.axis != self.blue.axis
    }

    pub open spec fn turned(self, face: Face, clockwise: bool) -> Ori {
        Ori { white: self.white.turned(face, clockwise), blue: self.blue.turned(face, clockwise) }
    }

    /// The direction of the sticker that shows color 2: blue turned about
    /// white.
    pub open spec fn third(self) -> Face {
        self.blue.turned(self.white, true)
    }

    /// The color index showing in direction `face`: 0 white, 5 its opposite,
    /// 1 blue, 4 its opposite, 2 the third direction, 3 its opposite.
    pub open spec fn color_of(self, face: Face) -> u8 {
        if face == self.white {
            0
        } else if face.axis == self.white.axis {
            5
        } else if face == self.blue {
            1
        } else if face.axis == self.blue.axis {
            4
        } else if face == self.third() {
            2
        } else {
            3
        }
    }

    /// Some direction shows color `k`.
    pub open spec fn shows(self, k: u8) -> bool {
        exists|f: Face| f.wf() && #[trigger] self.color_of(f) == k
    }
}

/// One of the 27 cells of the cube.
#[derive(Clone, Copy, PartialEq, Eq, Debug)]
pub struct Cubie {
    pub pos: Pos,
    pub rot: Ori,
}

impl Cubie {
    /// The position is on the lattice and the orientation is valid.
    pub open spec fn wf(self) -> bool {
        in_lattice(self.pos) && self.rot.wf()
    }

    /// The cubie after a quarter turn of `face`: moved and reoriented if it
    /// lies in the turning layer, unchanged otherwise.
    pub open spec fn turned(self, face: Face, clockwise: bool) -> Cubie {
        if in_layer(self.pos, face) {
            Cubie { pos: turned_pos(self.pos, face, clockwise), rot: self.rot.turned(face, clockwise) }
        } else {
            self
        }
    }

    /// Applies a quarter turn of `face` to this cubie.
    pub fn rotate(self, face: Face, clockwise: bool) -> (r: Cubie)
        requires
            self.wf(),
            face.wf(),
        ensures
            r == self.turned(face, clockwise),
            r.wf(),
    {
        if self.pos[face.axis as usize] == sin(face.pol) {
            let s = sin(clockwise);
            let x = ((face.axis + 1) % 3) as usize;
            let y = ((face.axis + 2) % 3) as usize;

            let mut pos = self.pos;
            pos[x] = -self.pos[y] * s;
            pos[y] = self.pos[x] * s;

            let rot = Ori {
                white: self.rot.white.rotate(face, clockwise),
                blue: self.rot.blue.rotate(face, clockwise),
            };
            proof {
                lemma_turn_keeps_axes_apart(self.rot.white, self.rot.blue, face, clockwise);
                assert(pos =~= turned_pos(self.pos, face, clockwise));
            }
            Cubie { pos, rot }
        } else {
            self
        }
    }

    /// The color index of the sticker that points in direction `face`.
    pub fn get_color(&self, face: Face) -> (r: u8)
        requires
            self.rot.wf(),
            face.wf(),
        ensures
            r == self.rot.color_of(face),
    {
        if self.rot.white == face {
            0
        } else if self.rot.white.axis == face.axis {
            5
        } else if self.rot.blue == face {
            1
        } else if self.rot.blue.axis == face.axis {
            4
        } else {
            let third_face = self.rot.blue.rotate(self.rot.white, true);
            if third_face == face {
                2
            } else {
                3
            }
        }
    }
}

/// The coordinates of a turned layer position, axis by axis.
proof fn lemma_turned_pos_coords(p: Pos, face: Face, clockwise: bool)
    requires
        in_lattice(p),
        face.wf(),
        in_layer(p, face),
    ensures
        ({
            let q = turned_pos(p, face, clockwise);
            &&& q@[face.axis as int] == p@[face.axis as int]
            &&& q@[axis_after(face.axis, 1) as int] == if clockwise {
                -coord_after(p, face.axis, 2)
            } else {
                coord_after(p, face.axis, 2)
            }
            &&& q@[axis_after(face.axis, 2) as int] == if clockwise {
                coord_after(p, face.axis, 1)
            } else {
                -coord_after(p, face.axis, 1)
            }
        }),
{
    let s = sign(clockwise);
    let x = axis_after(face.axis, 1) as int;
    let y = axis_after(face.axis, 2) as int;
    assert(p@.len() == 3);
    assert(0 <= x < 3 && 0 <= y < 3 && x != y && x != face.axis && y != face.axis);
    let p1 = spec_array_update(p, x, (-coord_after(p, face.axis, 2) * s) as i8);
    assert(p1@ == p@.update(x, (-coord_after(p, face.axis, 2) * s) as i8));
    let p2 = spec_array_update(p1, y, (coord_after(p, face.axis, 1) * s) as i8);
    assert(p2@ == p1@.update(y, (coord_after(p, face.axis, 1) * s) as i8));
}

/// A turn keeps the coordinate on its own axis, and so keeps a position in or
/// out of its layer; it keeps lattice positions on the lattice.
pub proof fn lemma_turned_pos_basics(p: Pos, face: Face, clockwise: bool)
    requires
        in_lattice(p),
        face.wf(),
    ensures
        turned_pos(p, face, clockwise)@[face.axis as int] == p@[face.axis as int],
        in_layer(turned_pos(p, face, clockwise), face) == in_layer(p, face),
        in_lattice(turned_pos(p, face, clockwise)),
{
    if in_layer(p, face) {
        lemma_turned_pos_coords(p, face, clockwise);
        let q = turned_pos(p, face, clockwise);
        if face.axis == 0 {
            assert(axis_after(face.axis, 1) == 1 && axis_after(face.axis, 2) == 2);
        } else if face.axis == 1 {
            assert(axis_after(face.axis, 1) == 2 && axis_after(face.axis, 2) == 0);
        } else {
            assert(axis_after(face.axis, 1) == 0 && axis_after(face.axis, 2) == 1);
        }
    }
}

/// A turn of a position is undone by the turn in the other direction.
pub proof fn lemma_turned_pos_inverse(p: Pos, face: Face, clockwise: bool)
    requires
        in_lattice(p),
        face.wf(),
    ensures
        turned_pos(turned_pos(p, face, clockwise), face, !clockwise) == p,
{
    if in_layer(p, face) {
        let q = turned_pos(p, face, clockwise);
        lemma_turned_pos_coords(p, face, clockwise);
        lemma_turned_pos_basics(p, face, clockwise);
        lemma_turned_pos_coords(q, face, !clockwise);
        let r = turned_pos(q, face, !clockwise);
        if face.axis == 0 {
            assert(axis_after(face.axis, 1) == 1 && axis_after(face.axis, 2) == 2);
        } else if face.axis == 1 {
            assert(axis_after(face.axis, 1) == 2 && axis_after(face.axis, 2) == 0);
        } else {
            assert(axis_after(face.axis, 1) == 0 && axis_after(face.axis, 2) == 1);
        }
        assert(r@[0] == p@[0] && r@[1] == p@[1] && r@[2] == p@[2]);
        assert(r =~= p);
    }
}

/// A turn sends distinct lattice positions to distinct positions.
pub proof fn lemma_turned_pos_injective(p1: Pos, p2: Pos, face: Face, clockwise: bool)
    requires
        in_lattice(p1),
        in_lattice(p2),
        face.wf(),
        p1 != p2,
    ensures
        turned_pos(p1, face, clockwise) != turned_pos(p2, face, clockwise),
{
    lemma_turned_pos_inverse(p1, face, clockwise);
    lemma_turned_pos_inverse(p2, face, clockwise);
}

/// Four quarter turns of a face in one direction bring every lattice
/// position back.
pub proof fn lemma_turned_pos_order_four(p: Pos, face: Face, clockwise: bool)
    requires
        in_lattice(p),
        face.wf(),
    ensures
        turned_pos(
            turned_pos(turned_pos(turned_pos(p, face, clockwise), face, clockwise), face, clockwise),
            face,
            clockwise,
        ) == p,
{
    if in_layer(p, face) {
        let p1 = turned_pos(p, face, clockwise);
        lemma_turned_pos_basics(p, face, clockwise);
        let p2 = turned_pos(p1, face, clockwise);
        lemma_turned_pos_basics(p1, face, clockwise);
        let p3 = turned_pos(p2, face, clockwise);
        lemma_turned_pos_basics(p2, face, clockwise);
        let p4 = turned_pos(p3, face, clockwise);
        lemma_turned_pos_coords(p, face, clockwise);
        lemma_turned_pos_coords(p1, face, clockwise);
        lemma_turned_pos_coords(p2, face, clockwise);
        lemma_turned_pos_coords(p3, face, clockwise);
        if face.axis == 0 {
            assert(axis_after(face.axis, 1) == 1 && axis_after(face.axis, 2) == 2);
        } else if face.axis == 1 {
            assert(axis_after(face.axis, 1) == 2 && axis_after(face.axis, 2) == 0);
        } else {
            assert(axis_after(face.axis, 1) == 0 && axis_after(face.axis, 2) == 1);
        }
        assert(p4@[0] == p@[0] && p4@[1] == p@[1] && p4@[2] == p@[2]);
        assert(p4 =~= p);
    }
}

/// Four quarter turns of the same face in the same direction bring every
/// cubie back to its position and orientation.
pub proof fn lemma_cubie_order_four(c: Cubie, face: Face, clockwise: bool)
    requires
        c.wf(),
        face.wf(),
    ensures
        c.turned(face, clockwise).turned(face, clockwise).turned(face, clockwise).turned(
            face,
            clockwise,
        ) == c,
{
    if in_layer(c.pos, face) {
        let p1 = turned_pos(c.pos, face, clockwise);
        lemma_turned_pos_basics(c.pos, face, clockwise);
        let p2 = turned_pos(p1, face, clockwise);
        lemma_turned_pos_basics(p1, face, clockwise);
        lemma_turned_pos_basics(p2, face, clockwise);
        lemma_turned_pos_order_four(c.pos, face, clockwise);
        lemma_turn_order_four(c.rot.white, face, clockwise);
        lemma_turn_order_four(c.rot.blue, face, clockwise);
    }
}

/// A turn of a cubie is undone by the turn of the same face in the other
/// direction.
pub proof fn lemma_cubie_inverse(c: Cubie, face: Face, clockwise: bool)
    requires
        c.wf(),
        face.wf(),
    ensures
        c.turned(face, clockwise).turned(face, !clockwise) == c,
{
    lemma_turned_pos_basics(c.pos, face, clockwise);
    lemma_turned_pos_inverse(c.pos, face, clockwise);
    lemma_turn_inverse(c.rot.white, face);
    lemma_turn_inverse(c.rot.blue, face);
}

/// The six directions of a cubie show the six colors, each exactly once.
pub proof fn lemma_color_bijection(c: Cubie)
    requires
        c.wf(),
    ensures
        forall|f: Face| f.wf() ==> #[trigger] c.rot.color_of(f) < 6,
        forall|f1: Face, f2: Face|
            f1.wf() && f2.wf() && f1 != f2 ==> #[trigger] c.rot.color_of(f1) != #[trigger] c.rot.color_of(
                f2,
            ),
        forall|k: u8| k < 6 ==> #[trigger] c.rot.shows(k),
{
    let o = c.rot;
    let t = o.third();
    assert(t.axis != o.white.axis && t.axis != o.blue.axis && t.wf());
    assert forall|k: u8| k < 6 implies #[trigger] o.shows(k) by {
        if k == 0 {
            assert(o.color_of(o.white) == k);
        } else if k == 5 {
            assert(o.color_of(o.white.opposite()) == k);
        } else if k == 1 {
            assert(o.color_of(o.blue) == k);
        } else if k == 4 {
            assert(o.color_of(o.blue.opposite()) == k);
        } else if k == 2 {
            assert(o.color_of(t) == k);
        } else {
            assert(o.color_of(t.opposite()) == k);
        }
    }
}

/// A turn keeps a cubie on the lattice with a valid orientation, and moves it
/// to the turned position.
pub proof fn lemma_cubie_turn_wf(c: Cubie, face: Face, clockwise: bool)
    requires
        c.wf(),
        face.wf(),
    ensures
        c.turned(face, clockwise).wf(),
        c.turned(face, clockwise).pos == turned_pos(c.pos, face, clockwise),
{
    lemma_turned_pos_basics(c.pos, face, clockwise);
    lemma_turn_keeps_axes_apart(c.rot.white, c.rot.blue, face, clockwise);
}

} // verus!
