use rand::Rng;
use vstd::prelude::*;

verus! {

/// One of the three coordinate axes: 0, 1 or 2.
pub type Axis = u8;

/// A half-axis sign: `true` for the positive direction.
pub type Polarity = bool;

pub const POS: Polarity = true;

pub const NEG: Polarity = false;

/// One of the six faces of the cube: an axis and a sign along it.
#[derive(Clone, Copy, PartialEq, Eq, Debug, Structural)]
pub struct Face {
    pub axis: Axis,
    pub pol: Polarity,
}

/// The signed unit of a polarity.
pub open spec fn sign(p: Polarity) -> int {
    if p {
        1
    } else {
        -1
    }
}

/// The axis different from both `a` and `b`, for two distinct axes.
pub open spec fn other_axis(a: Axis, b: Axis) -> Axis {
    (3 - a - b) as Axis
}

/// The axis `k` steps further along the cyclic order 0, 1, 2.
pub open spec fn axis_after(a: Axis, k: int) -> Axis {
    ((a + k) % 3) as Axis
}

impl Face {
    /// The axis is one of the three.
    pub open spec fn wf(self) -> bool {
        self.axis < 3
    }

    /// The face on the same axis with the other sign.
    pub open spec fn opposite(self) -> Face {
        Face { axis: self.axis, pol: !self.pol }
    }

    /// The direction that `self` takes under a quarter turn of face `by`.
    ///
    /// A counter-clockwise turn of a face is a clockwise turn of the opposite
    /// face. A clockwise turn leaves the faces on its own axis in place and
    /// moves any other face to the third axis; the sign is flipped exactly
    /// when `by` lies two steps after `self` in the cyclic order and is
    /// positive, or one step after and negative.
    pub open spec fn turned(self, by: Face, clockwise: bool) -> Face {
        let by = if clockwise {
            by
        } else {
            by.opposite()
        };
        if self.axis == by.axis {
            self
        } else {
            Face {
                axis: other_axis(self.axis, by.axis),
                pol: if (by.axis == axis_after(self.axis, 2)) == by.pol {
                    !self.pol
                } else {
                    self.pol
                },
            }
        }
    }

    pub fn white() -> (r: Face)
        ensures
            r == (Face { axis: 0, pol: POS }),
    {
        Face { axis: 0, pol: POS }
    }

    pub fn blue() -> (r: Face)
        ensures
            r == (Face { axis: 1, pol: POS }),
    {
        Face { axis: 1, pol: POS }
    }

    /// The face that white moves to under a clockwise turn of blue.
    pub fn orange() -> (r: Face)
        ensures
            r == (Face { axis: 2, pol: POS }),
    {
        Face::white().rotate(Face::blue(), true)
    }

    pub fn green() -> (r: Face)
        ensures
            r == (Face { axis: 1, pol: NEG }),
    {
        Face::blue().invert()
    }

    pub fn yellow() -> (r: Face)
        ensures
            r == (Face { axis: 0, pol: NEG }),
    {
        Face::white().invert()
    }

    pub fn pink() -> (r: Face)
        ensures
            r == (Face { axis: 2, pol: NEG }),
    {
        Face::orange().invert()
    }

    /// The six faces, axis by axis, the negative one first.
    pub fn all() -> (r: Vec<Face>)
        ensures
            r@.len() == 6,
            forall|i: int| 0 <= i < 6 ==> r@[i] == (Face { axis: (i / 2) as Axis, pol: i % 2 == 1 }),
            forall|f: Face| f.wf() ==> r@.contains(f),
    {
        let mut v: Vec<Face> = Vec::new();
        let mut axis: Axis = 0;
        while axis < 3
            invariant
                axis <= 3,
                v@.len() == 2 * axis,
                forall|i: int|
                    0 <= i < v@.len() ==> v@[i] == (Face { axis: (i / 2) as Axis, pol: i % 2 == 1 }),
            decreases 3 - axis,
        {
            v.push(Face { axis, pol: NEG });
            v.push(Face { axis, pol: POS });
            axis = axis + 1;
        }
        assert forall|f: Face| f.wf() implies v@.contains(f) by {
            let i = 2 * f.axis + if f.pol { 1int } else { 0int };
            assert(v@[i] == f);
        }
        v
    }

    /// The face on the same axis with the other sign.
    pub fn invert(self) -> (r: Face)
        ensures
            r == self.opposite(),
    {
        Face { axis: self.axis, pol: !self.pol }
    }

    /// The direction that `self` takes under a quarter turn of `face`.
    pub fn rotate(self, face: Face, clockwise: bool) -> (r: Face)
        requires
            self.wf(),
            face.wf(),
        ensures
            r == self.turned(face, clockwise),
            r.wf(),
    {
        let face = if clockwise {
            face
        } else {
            face.invert()
        };
        if self.axis == face.axis {
            self
        } else {
            let axis = third_axis(self.axis, face.axis);
            let pm1 = face.axis == (self.axis + 1) % 3;
            let pol = self.pol ^ face.pol ^ pm1;
            Face { axis, pol }
        }
    }

    /// The outward unit vector of this face.
    pub fn normal(&self) -> (r: [i8; 3])
        requires
            self.wf(),
        ensures
            r@[self.axis as int] == sign(self.pol),
            r@[axis_after(self.axis, 1) as int] == 0,
            r@[axis_after(self.axis, 2) as int] == 0,
    {
        place(self.axis, sin(self.pol), 0, 0)
    }

    /// The extent of a sticker on this face, in tenths of a cell: thin along
    /// the face's own axis, a full cell along the other two.
    pub fn area(&self) -> (r: [i8; 3])
        requires
            self.wf(),
        ensures
            r@[self.axis as int] == 1,
            r@[axis_after(self.axis, 1) as int] == 10,
            r@[axis_after(self.axis, 2) as int] == 10,
    {
        place(self.axis, 1, 10, 10)
    }

    /// A face drawn at random, uniformly over the six.
    pub fn sample() -> (r: Face)
        ensures
            r.wf(),
    {
        let axis = random_axis();
        let pol = random_polarity();
        Face { axis, pol }
    }
}

/// The third axis, for two distinct axes.
pub fn third_axis(x: Axis, y: Axis) -> (r: Axis)
    requires
        x < 3,
        y < 3,
        x != y,
    ensures
        r == other_axis(x, y),
{
    assert(x ^ y ^ 3u8 == 3u8 - x - y) by (bit_vector)
        requires
            x < 3u8,
            y < 3u8,
            x != y,
    ;
    x ^ y ^ 3
}

/// The sine of a polarity read as a quarter-turn angle of +90 or -90
/// degrees: 1 for positive, -1 for negative.
pub fn sin(p: Polarity) -> (r: i8)
    ensures
        r == sign(p),
{
    if p {
        1
    } else {
        -1
    }
}

/// The cosine of a polarity read as a quarter-turn angle: 0 either way.
pub fn cos(p: Polarity) -> (r: i8)
    ensures
        r == 0,
{
    0
}

/// The triple with `a` on `axis` and `b`, `c` on the next two axes in cyclic
/// order.
pub fn place(axis: Axis, a: i8, b: i8, c: i8) -> (r: [i8; 3])
    requires
        axis < 3,
    ensures
        r@.len() == 3,
        r@[axis as int] == a,
        r@[axis_after(axis, 1) as int] == b,
        r@[axis_after(axis, 2) as int] == c,
{
    if axis == 0 {
        [a, b, c]
    } else if axis == 1 {
        [c, a, b]
    } else {
        [b, c, a]
    }
}

/// Relies on rand's `Rng::gen_range` on the thread generator: for `0..3` it
/// returns a value in that range.
#[verifier::external_body]
fn random_axis() -> (r: Axis)
    ensures
        r < 3,
{
    rand::thread_rng().gen_range(0..3)
}

/// Relies on `rand::random` for a polarity; any value may come back.
#[verifier::external_body]
fn random_polarity() -> (r: Polarity) {
    rand::random::<bool>()
}

/// Four quarter turns of the same face in the same direction bring every face
/// back to where it was.
pub proof fn lemma_turn_order_four(f: Face, by: Face, clockwise: bool)
    requires
        f.wf(),
        by.wf(),
    ensures
        f.turned(by, clockwise).turned(by, clockwise).turned(by, clockwise).turned(by, clockwise)
            == f,
{
}

/// A turn is undone by the turn of the same face in the other direction, and
/// a clockwise turn of a face is a counter-clockwise turn of its opposite.
pub proof fn lemma_turn_inverse(f: Face, by: Face)
    requires
        f.wf(),
        by.wf(),
    ensures
        f.turned(by, true).turned(by, false) == f,
        f.turned(by, false).turned(by, true) == f,
        f.turned(by, true) == f.turned(by.opposite(), false),
{
}

/// A turn leaves the two faces on its own axis in place, in either direction.
pub proof fn lemma_turn_fixes_own_axis(f: Face, by: Face, clockwise: bool)
    requires
        f.axis == by.axis,
    ensures
        f.turned(by, clockwise) == f,
{
}

/// A given turn sends distinct faces to distinct faces.
pub proof fn lemma_turn_injective(f1: Face, f2: Face, by: Face, clockwise: bool)
    requires
        f1.wf(),
        f2.wf(),
        by.wf(),
        f1 != f2,
    ensures
        f1.turned(by, clockwise) != f2.turned(by, clockwise),
{
}

/// A face off the turn's axis goes somewhere different under a clockwise and
/// a counter-clockwise turn.
pub proof fn lemma_turn_direction_matters(f: Face, by: Face)
    requires
        f.wf(),
        by.wf(),
        f.axis != by.axis,
    ensures
        f.turned(by, true) != f.turned(by, false),
{
}

/// Faces on different axes stay on different axes under a turn.
pub proof fn lemma_turn_keeps_axes_apart(f1: Face, f2: Face, by: Face, clockwise: bool)
    requires
        f1.wf(),
        f2.wf(),
        by.wf(),
        f1.axis != f2.axis,
    ensures
        f1.turned(by, clockwise).axis != f2.turned(by, clockwise).axis,
{
}

} // verus!
