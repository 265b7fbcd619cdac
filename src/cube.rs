use crate::cubie::{
    in_lattice, lemma_cubie_inverse, lemma_cubie_turn_wf, lemma_turned_pos_basics,
    lemma_turned_pos_injective, lemma_turned_pos_inverse, turned_pos, Cubie, Ori, Pos,
};
use crate::face::{Face, POS};
use vstd::prelude::*;

verus! {

/// The orientation of every cubie of a solved cube.
pub open spec fn solved_ori() -> Ori {
    Ori { white: Face { axis: 0, pol: POS }, blue: Face { axis: 1, pol: POS } }
}

/// Cubie `c` is the `i`-th cubie of a solved cube: cells are listed with the
/// last axis running fastest, from -1 to 1 on each axis.
pub open spec fn solved_at(c: Cubie, i: int) -> bool {
    &&& c.pos@[0] == i / 9 - 1
    &&& c.pos@[1] == i / 3 % 3 - 1
    &&& c.pos@[2] == i % 3 - 1
    &&& c.rot == solved_ori()
}

/// The cubies of a solved cube, in construction order.
pub open spec fn is_solved(s: Seq<Cubie>) -> bool {
    &&& s.len() == 27
    &&& forall|i: int| 0 <= i < 27 ==> #[trigger] solved_at(s[i], i)
}

/// Some cubie of `s` sits at `p`.
pub open spec fn occupied(s: Seq<Cubie>, p: Pos) -> bool {
    exists|i: int| 0 <= i < s.len() && #[trigger] s[i].pos == p
}

/// 27 valid cubies whose positions are the 27 lattice cells, each once.
pub open spec fn well_placed(s: Seq<Cubie>) -> bool {
    &&& s.len() == 27
    &&& forall|i: int| 0 <= i < s.len() ==> #[trigger] s[i].wf()
    &&& forall|i: int, j: int|
        0 <= i < s.len() && 0 <= j < s.len() && i != j ==> #[trigger] s[i].pos != #[trigger] s[j].pos
    &&& forall|p: Pos| #[trigger] in_lattice(p) ==> occupied(s, p)
}

/// Every cubie of `s` after a quarter turn of `face`.
pub open spec fn turn_all(s: Seq<Cubie>, face: Face, clockwise: bool) -> Seq<Cubie> {
    s.map_values(|c: Cubie| c.turned(face, clockwise))
}

/// The whole puzzle: 27 cubies that fill the 3x3x3 lattice.
#[derive(PartialEq, Eq, Debug)]
pub struct Cube {
    cubies: Vec<Cubie>,
}

impl View for Cube {
    type V = Seq<Cubie>;

    closed spec fn view(&self) -> Seq<Cubie> {
        self.cubies@
    }
}

impl Clone for Cube {
    fn clone(&self) -> (r: Cube)
        ensures
            r@ == self@,
    {
        proof {
            use_type_invariant(self);
        }
        let cubies = self.cubies.clone();
        proof {
            assert(cubies@ =~= self.cubies@);
        }
        Cube { cubies }
    }
}

impl Cube {
    #[verifier::type_invariant]
    spec fn inv(self) -> bool {
        well_placed(self.cubies@)
    }

    /// A solved cube.
    pub fn new() -> (r: Cube)
        ensures
            is_solved(r@),
            well_placed(r@),
    {
        let mut cubies: Vec<Cubie> = Vec::new();
        let mut i: u8 = 0;
        while i < 27
            invariant
                i <= 27,
                cubies@.len() == i,
                forall|j: int| 0 <= j < i ==> #[trigger] solved_at(cubies@[j], j),
            decreases 27 - i,
        {
            let pos: Pos = [(i / 9) as i8 - 1, (i / 3 % 3) as i8 - 1, (i % 3) as i8 - 1];
            let rot = Ori { white: Face { axis: 0, pol: POS }, blue: Face { axis: 1, pol: POS } };
            cubies.push(Cubie { pos, rot });
            i = i + 1;
        }
        proof {
            lemma_solved_well_placed(cubies@);
        }
        Cube { cubies }
    }

    /// The cubies, in no particular order.
    pub fn cubies(&self) -> (r: &Vec<Cubie>)
        ensures
            r@ == self@,
            well_placed(r@),
    {
        proof {
            use_type_invariant(self);
        }
        &self.cubies
    }

    /// Applies a quarter turn of `face` to every cubie; those outside its
    /// layer stay as they are.
    pub fn rotate(&mut self, face: Face, clockwise: bool)
        requires
            face.wf(),
        ensures
            final(self)@ == turn_all(old(self)@, face, clockwise),
            well_placed(final(self)@),
    {
        proof {
            use_type_invariant(&*self);
        }
        let mut next: Vec<Cubie> = Vec::new();
        let mut i: usize = 0;
        while i < self.cubies.len()
            invariant
                well_placed(self.cubies@),
                face.wf(),
                i <= self.cubies@.len(),
                next@ == turn_all(self.cubies@, face, clockwise).take(i as int),
            decreases self.cubies@.len() - i,
        {
            next.push(self.cubies[i].rotate(face, clockwise));
            i = i + 1;
            proof {
                assert(next@ =~= turn_all(self.cubies@, face, clockwise).take(i as int));
            }
        }
        proof {
            assert(next@ =~= turn_all(self.cubies@, face, clockwise));
            lemma_turn_keeps_lattice(self.cubies@, face, clockwise);
        }
        self.cubies = next;
    }
}

/// The cubies of a solved cube fill the lattice.
pub proof fn lemma_solved_well_placed(s: Seq<Cubie>)
    requires
        is_solved(s),
    ensures
        well_placed(s),
{
    assert forall|i: int| 0 <= i < s.len() implies #[trigger] s[i].wf() by {
        assert(solved_at(s[i], i));
    }
    assert forall|i: int, j: int|
        0 <= i < s.len() && 0 <= j < s.len() && i != j implies #[trigger] s[i].pos
        != #[trigger] s[j].pos by {
        assert(solved_at(s[i], i));
        assert(solved_at(s[j], j));
    }
    assert forall|p: Pos| #[trigger] in_lattice(p) implies occupied(s, p) by {
        let i = 9 * (p@[0] + 1) + 3 * (p@[1] + 1) + (p@[2] + 1);
        assert(solved_at(s[i], i));
        assert(s[i].pos =~= p);
    }
}

/// After any quarter turn the 27 positions are still the 27 lattice cells,
/// each once: a turn permutes the positions.
pub proof fn lemma_turn_keeps_lattice(s: Seq<Cubie>, face: Face, clockwise: bool)
    requires
        well_placed(s),
        face.wf(),
    ensures
        well_placed(turn_all(s, face, clockwise)),
{
    let t = turn_all(s, face, clockwise);
    assert forall|i: int| 0 <= i < t.len() implies #[trigger] t[i].wf()
        && t[i].pos == turned_pos(s[i].pos, face, clockwise) by {
        lemma_cubie_turn_wf(s[i], face, clockwise);
    }
    assert forall|i: int, j: int|
        0 <= i < t.len() && 0 <= j < t.len() && i != j implies #[trigger] t[i].pos
        != #[trigger] t[j].pos by {
        lemma_cubie_turn_wf(s[i], face, clockwise);
        lemma_cubie_turn_wf(s[j], face, clockwise);
        lemma_turned_pos_injective(s[i].pos, s[j].pos, face, clockwise);
    }
    assert forall|p: Pos| #[trigger] in_lattice(p) implies occupied(t, p) by {
        let q = turned_pos(p, face, !clockwise);
        lemma_turned_pos_basics(p, face, !clockwise);
        lemma_turned_pos_inverse(p, face, !clockwise);
        assert(in_lattice(q));
        let i = choose|i: int| 0 <= i < s.len() && #[trigger] s[i].pos == q;
        lemma_cubie_turn_wf(s[i], face, clockwise);
        assert(t[i].pos == p);
    }
}

/// A turn of every cubie is undone by the turn of the same face in the other
/// direction.
pub proof fn lemma_turn_all_inverse(s: Seq<Cubie>, face: Face, clockwise: bool)
    requires
        forall|i: int| 0 <= i < s.len() ==> #[trigger] s[i].wf(),
        face.wf(),
    ensures
        turn_all(turn_all(s, face, clockwise), face, !clockwise) == s,
{
    let t = turn_all(turn_all(s, face, clockwise), face, !clockwise);
    assert forall|i: int| 0 <= i < s.len() implies #[trigger] t[i] == s[i] by {
        lemma_cubie_inverse(s[i], face, clockwise);
    }
    assert(t =~= s);
}

/// Turning a face of a solved cube clockwise and then back leaves a solved
/// cube.
pub proof fn lemma_solved_round_trip(s: Seq<Cubie>, face: Face)
    requires
        is_solved(s),
        face.wf(),
    ensures
        turn_all(turn_all(s, face, true), face, false) == s,
{
    lemma_solved_well_placed(s);
    lemma_turn_all_inverse(s, face, true);
}

} // verus!
