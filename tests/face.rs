use rubiks::face::{cos, place, sin, third_axis, Face, NEG, POS};

fn axes_and_signs() -> Vec<(u8, bool)> {
    let mut v = Vec::new();
    for axis in 0..3u8 {
        for pol in [NEG, POS] {
            v.push((axis, pol));
        }
    }
    v
}

#[test]
fn third_axis_test() {
    for x in [0u8, 1, 2] {
        for y in [0u8, 1, 2] {
            if x == y {
                continue;
            }
            let z = third_axis(x, y);
            assert!(z != x);
            assert!(z != y);
            assert!(z < 3);
        }
    }
}

#[test]
fn third_axis_values() {
    assert_eq!(third_axis(0, 1), 2);
    assert_eq!(third_axis(1, 0), 2);
    assert_eq!(third_axis(0, 2), 1);
    assert_eq!(third_axis(2, 1), 0);
}

#[test]
fn rotation_test() {
    for axis1 in [0u8, 1, 2] {
        for axis2 in [0u8, 1, 2] {
            let face1 = Face { axis: axis1, pol: POS };
            let face2 = Face { axis: axis2, pol: POS };
            let rot1 = face1.rotate(face2, POS);
            let rot2 = rot1.rotate(face2, POS);

            assert_eq!(face1.axis == face2.axis, rot1 == face1);
            assert_eq!(rot2.axis, face1.axis);
            assert_eq!(rot2.pol == face1.pol, face1.axis == face2.axis, "{face1:?}  {face2:?}");
        }
    }
}

#[test]
fn rotation_is_not_same_as_counterrotation() {
    for face in Face::all() {
        for rot in Face::all() {
            if face.axis == rot.axis {
                continue;
            }
            let rot1 = face.rotate(rot, true);
            let rot2 = face.rotate(rot, false);
            assert!(rot1 != rot2, "{face:?} {rot:?}");
        }
    }
}

#[test]
fn rotation_test_2() {
    let data = [
        (Face::white(), Face::blue(), Face::pink()),
        (Face::white(), Face::pink(), Face::green()),
        (Face::white(), Face::green(), Face::orange()),
        (Face::white(), Face::orange(), Face::blue()),
        (Face::orange(), Face::orange(), Face::orange()),
        (Face::orange(), Face::blue(), Face::white()),
        (Face::orange(), Face::white(), Face::green()),
    ];
    for (axis, face, expected) in data {
        let actual = face.rotate(axis, true);
        assert_eq!(actual, expected);
    }
}

#[test]
fn rotation_injectivity() {
    for face1 in Face::all() {
        for face2 in Face::all() {
            for axis in Face::all() {
                if face1 == face2 {
                    continue;
                }
                assert!(face1.rotate(axis, true) != face2.rotate(axis, true));
                assert!(face1.rotate(axis, false) != face2.rotate(axis, false));
            }
        }
    }
}

#[test]
fn opposite_rot_is_inverse1() {
    for face in Face::all() {
        for rot in Face::all() {
            let face1 = face.rotate(rot, true).rotate(rot.invert(), true);
            assert_eq!(face, face1);
        }
    }
}

#[test]
fn opposite_rot_is_inverse2() {
    for face in Face::all() {
        for rot in Face::all() {
            let face1 = face.rotate(rot, true);
            let face2 = face.rotate(rot.invert(), false);
            assert_eq!(face1, face2);
        }
    }
}

#[test]
fn clockwise_then_counterclockwise_is_identity() {
    for face in Face::all() {
        for rot in Face::all() {
            assert_eq!(face.rotate(rot, true).rotate(rot, false), face);
            assert_eq!(face.rotate(rot, false).rotate(rot, true), face);
        }
    }
}

#[test]
fn rotation_noop_4() {
    for face1 in Face::all() {
        for face2 in Face::all() {
            for clockwise in [false, true] {
                let mut face3 = face1;
                for _ in 0..4 {
                    face3 = face3.rotate(face2, clockwise);
                }
                assert_eq!(face1, face3);
            }
        }
    }
}

#[test]
fn aligned_axis_invariant_rotation() {
    for face1 in Face::all() {
        for face2 in Face::all() {
            for clockwise in [false, true] {
                if face1.axis != face2.axis {
                    continue;
                }
                assert_eq!(face1, face1.rotate(face2, clockwise));
            }
        }
    }
}

#[test]
fn named_faces() {
    assert_eq!(Face::white(), Face { axis: 0, pol: POS });
    assert_eq!(Face::blue(), Face { axis: 1, pol: POS });
    assert_eq!(Face::orange(), Face { axis: 2, pol: POS });
    assert_eq!(Face::yellow(), Face { axis: 0, pol: NEG });
    assert_eq!(Face::green(), Face { axis: 1, pol: NEG });
    assert_eq!(Face::pink(), Face { axis: 2, pol: NEG });
    assert_eq!(Face::pink(), Face::orange().invert());
}

#[test]
fn all_lists_six_distinct_faces_in_order() {
    let all = Face::all();
    assert_eq!(all.len(), 6);
    let expected: Vec<Face> = axes_and_signs().into_iter().map(|(axis, pol)| Face { axis, pol }).collect();
    assert_eq!(all, expected);
    for i in 0..6 {
        for j in 0..6 {
            assert_eq!(i == j, all[i] == all[j]);
        }
    }
}

#[test]
fn invert_flips_sign_only() {
    assert_eq!(Face::white().invert(), Face::yellow());
    assert_eq!(Face::yellow().invert(), Face::white());
    assert_eq!(Face::green().invert(), Face::blue());
}

#[test]
fn sin_of_polarity() {
    assert_eq!(sin(POS), 1);
    assert_eq!(sin(NEG), -1);
    assert_eq!(cos(POS), 0);
    assert_eq!(cos(NEG), 0);
}

#[test]
fn place_puts_values_in_cyclic_order() {
    assert_eq!(place(0, 1, 2, 3), [1, 2, 3]);
    assert_eq!(place(1, 1, 2, 3), [3, 1, 2]);
    assert_eq!(place(2, 1, 2, 3), [2, 3, 1]);
}

#[test]
fn normal_and_area() {
    assert_eq!(Face::white().normal(), [1, 0, 0]);
    assert_eq!(Face::green().normal(), [0, -1, 0]);
    assert_eq!(Face::pink().normal(), [0, 0, -1]);
    assert_eq!(Face::white().area(), [1, 10, 10]);
    assert_eq!(Face::blue().area(), [10, 1, 10]);
    assert_eq!(Face::orange().area(), [10, 10, 1]);
}

#[test]
fn sample_is_always_a_face() {
    let mut seen = Vec::new();
    for _ in 0..2000 {
        let f = Face::sample();
        assert!(f.axis < 3);
        if !seen.contains(&f) {
            seen.push(f);
        }
    }
    assert_eq!(seen.len(), 6);
}
