use cretonne::types::{Type, B1, B16, B32, B64, B8, F32, F64, I16, I32, I64, I8, VOID};

fn scalars() -> Vec<Type> {
    vec![VOID(), I8(), I16(), I32(), I64(), F32(), F64(), B1(), B8(), B16(), B32(), B64()]
}

fn lanes() -> Vec<Type> {
    vec![I8(), I16(), I32(), I64(), F32(), F64(), B1(), B8(), B16(), B32(), B64()]
}

fn factors() -> Vec<u16> {
    vec![1, 2, 4, 8, 16, 32, 64, 128, 256]
}

#[test]
fn basic_scalars() {
    assert_eq!(VOID(), VOID().lane_type());
    assert_eq!(0, VOID().bits());
    assert_eq!(B1(), B1().lane_type());
    assert_eq!(B8(), B8().lane_type());
    assert_eq!(B16(), B16().lane_type());
    assert_eq!(B32(), B32().lane_type());
    assert_eq!(B64(), B64().lane_type());
    assert_eq!(I8(), I8().lane_type());
    assert_eq!(I16(), I16().lane_type());
    assert_eq!(I32(), I32().lane_type());
    assert_eq!(I64(), I64().lane_type());
    assert_eq!(F32(), F32().lane_type());
    assert_eq!(F64(), F64().lane_type());

    assert_eq!(VOID().lane_bits(), 0);
    assert_eq!(B1().lane_bits(), 1);
    assert_eq!(B8().lane_bits(), 8);
    assert_eq!(B16().lane_bits(), 16);
    assert_eq!(B32().lane_bits(), 32);
    assert_eq!(B64().lane_bits(), 64);
    assert_eq!(I8().lane_bits(), 8);
    assert_eq!(I16().lane_bits(), 16);
    assert_eq!(I32().lane_bits(), 32);
    assert_eq!(I64().lane_bits(), 64);
    assert_eq!(F32().lane_bits(), 32);
    assert_eq!(F64().lane_bits(), 64);
}

#[test]
fn vectors() {
    let big = F64().by_lanes(256);
    assert_eq!(big.lane_bits(), 64);
    assert_eq!(big.lane_count(), 256);
    assert_eq!(big.bits(), 64 * 256);

    assert_eq!(big.half_vector().to_string(), "f64x128");
    assert_eq!(B1().by_lanes(2).half_vector().to_string(), "b1");
}

#[test]
fn format_scalars() {
    assert_eq!(VOID().to_string(), "void");
    assert_eq!(B1().to_string(), "b1");
    assert_eq!(B8().to_string(), "b8");
    assert_eq!(B16().to_string(), "b16");
    assert_eq!(B32().to_string(), "b32");
    assert_eq!(B64().to_string(), "b64");
    assert_eq!(I8().to_string(), "i8");
    assert_eq!(I16().to_string(), "i16");
    assert_eq!(I32().to_string(), "i32");
    assert_eq!(I64().to_string(), "i64");
    assert_eq!(F32().to_string(), "f32");
    assert_eq!(F64().to_string(), "f64");
}

#[test]
fn format_vectors() {
    assert_eq!(B1().by_lanes(8).to_string(), "b1x8");
    assert_eq!(B8().by_lanes(1).to_string(), "b8");
    assert_eq!(B16().by_lanes(256).to_string(), "b16x256");
    assert_eq!(B32().by_lanes(4).by_lanes(2).to_string(), "b32x8");
    assert_eq!(B64().by_lanes(8).to_string(), "b64x8");
    assert_eq!(I8().by_lanes(64).to_string(), "i8x64");
    assert_eq!(F64().by_lanes(2).to_string(), "f64x2");
}

#[test]
fn a_type_is_one_byte() {
    assert_eq!(std::mem::size_of::<Type>(), 1);
}

#[test]
fn encoding_bytes() {
    let expected = [0u8, 1, 2, 3, 4, 5, 6, 7, 8, 9, 10, 11];
    for (t, byte) in scalars().into_iter().zip(expected) {
        assert_eq!(format!("{:?}", t), format!("Type({})", byte));
    }
    assert_eq!(format!("{:?}", I32().by_lanes(4)), "Type(35)");
    assert_eq!(format!("{:?}", F64().by_lanes(256)), "Type(134)");
    assert_eq!(format!("{:?}", B64().by_lanes(256)), "Type(139)");
    assert_eq!(format!("{:?}", B64().by_lanes(256).half_vector()), "Type(123)");
}

#[test]
fn equality_is_by_value() {
    let all = scalars();
    for (i, a) in all.iter().enumerate() {
        for (j, b) in all.iter().enumerate() {
            assert_eq!(a == b, i == j);
        }
    }
    assert_eq!(I32().by_lanes(4), I32().by_lanes(2).by_lanes(2));
    assert_ne!(I32().by_lanes(4), I32().by_lanes(2));
    assert_ne!(I32().by_lanes(4), B32().by_lanes(4));
    let t = F32().by_lanes(8);
    let copy = t;
    assert_eq!(t, copy);
}

#[test]
fn void_is_only_void() {
    assert!(VOID().is_void());
    for t in lanes() {
        assert!(!t.is_void());
        assert!(!t.by_lanes(2).is_void());
    }
}

#[test]
fn families_of_scalars() {
    let bools = [B1(), B8(), B16(), B32(), B64()];
    let ints = [I8(), I16(), I32(), I64()];
    let floats = [F32(), F64()];
    for t in scalars() {
        assert_eq!(t.is_bool(), bools.contains(&t));
        assert_eq!(t.is_int(), ints.contains(&t));
        assert_eq!(t.is_float(), floats.contains(&t));
        let named = [t.is_void(), t.is_bool(), t.is_int(), t.is_float()];
        assert_eq!(named.iter().filter(|b| **b).count(), 1);
    }
}

#[test]
fn vectors_belong_to_no_family() {
    for t in lanes() {
        for n in factors() {
            if n == 1 {
                continue;
            }
            let v = t.by_lanes(n);
            assert!(!v.is_void());
            assert!(!v.is_bool());
            assert!(!v.is_int());
            assert!(!v.is_float());
            assert!(!v.is_scalar());
        }
    }
    assert!(!I32().by_lanes(4).is_int());
    assert!(!B1().by_lanes(2).is_bool());
    assert!(!F64().by_lanes(256).is_float());
}

#[test]
fn scalars_have_one_lane() {
    for t in scalars() {
        assert!(t.is_scalar());
        assert_eq!(t.log2_lane_count(), 0);
        assert_eq!(t.lane_count(), 1);
        assert_eq!(t.bits(), t.lane_bits() as u16);
    }
}

#[test]
fn lane_counts_and_their_logarithms() {
    let mut log2: u8 = 0;
    for n in factors() {
        let v = I16().by_lanes(n);
        assert_eq!(v.log2_lane_count(), log2);
        assert_eq!(v.lane_count(), n);
        assert_eq!(v.is_scalar(), n == 1);
        log2 += 1;
    }
    assert_eq!(B8().by_lanes(256).log2_lane_count(), 8);
    assert_eq!(B8().by_lanes(256).lane_count(), 256);
    assert_eq!(B8().by_lanes(128).lane_count(), 128);
}

#[test]
fn total_width_is_lane_width_times_lane_count() {
    assert_eq!(I32().by_lanes(4).bits(), 128);
    assert_eq!(B1().by_lanes(256).bits(), 256);
    assert_eq!(B1().by_lanes(8).bits(), 8);
    assert_eq!(I8().by_lanes(16).bits(), 128);
    assert_eq!(F32().by_lanes(2).bits(), 64);
    assert_eq!(B64().by_lanes(256).bits(), 16384);
    assert_eq!(I64().bits(), 64);
    for t in lanes() {
        for n in factors() {
            let v = t.by_lanes(n);
            assert_eq!(v.bits(), v.lane_bits() as u16 * v.lane_count());
            assert_eq!(v.lane_bits(), t.lane_bits());
        }
    }
}

#[test]
fn a_vector_keeps_its_lane_type() {
    for t in lanes() {
        for n in factors() {
            let v = t.by_lanes(n);
            assert_eq!(v.lane_type(), t);
            assert_eq!(v.lane_count(), n);
        }
    }
    assert_eq!(I32().by_lanes(4).lane_type(), I32());
    assert_eq!(I32().by_lanes(4).lane_count(), 4);
    let v = I32().by_lanes(2).by_lanes(2);
    assert_eq!(v.lane_type(), I32());
    assert_ne!(v.lane_type(), I32().by_lanes(2));
    assert_eq!(v.lane_count(), 4);
}

#[test]
fn by_one_changes_nothing() {
    for t in lanes() {
        assert_eq!(t.by_lanes(1), t);
        assert_eq!(t.by_lanes(16).by_lanes(1), t.by_lanes(16));
        assert_eq!(t.by_lanes(256).by_lanes(1), t.by_lanes(256));
    }
}

#[test]
fn growing_twice_is_growing_by_the_product() {
    for t in lanes() {
        for a in factors() {
            for b in factors() {
                if a * b <= 256 {
                    assert_eq!(t.by_lanes(a).by_lanes(b), t.by_lanes(a * b));
                }
            }
        }
    }
    assert_eq!(F32().by_lanes(16).by_lanes(16), F32().by_lanes(256));
    assert_eq!(I8().by_lanes(2).by_lanes(4).by_lanes(8), I8().by_lanes(64));
}

#[test]
fn halving_undoes_growing() {
    for t in lanes() {
        assert_eq!(t.by_lanes(2).half_vector(), t);
        for n in factors() {
            if n > 1 {
                assert_eq!(t.by_lanes(n).half_vector(), t.by_lanes(n / 2));
                assert_eq!(t.by_lanes(n).half_vector().lane_count(), n / 2);
                assert_eq!(t.by_lanes(n).half_vector().lane_type(), t);
            }
        }
    }
    assert_eq!(I64().by_lanes(256).half_vector().half_vector(), I64().by_lanes(64));
}

#[test]
fn text_of_every_vector() {
    let names = ["i8", "i16", "i32", "i64", "f32", "f64", "b1", "b8", "b16", "b32", "b64"];
    for (t, name) in lanes().into_iter().zip(names) {
        assert_eq!(t.to_string(), name);
        for n in factors() {
            if n > 1 {
                assert_eq!(t.by_lanes(n).to_string(), format!("{}x{}", name, n));
            }
        }
    }
    assert_eq!(I32().by_lanes(4).to_string(), "i32x4");
    assert_eq!(F32().by_lanes(128).to_string(), "f32x128");
    assert_eq!(B1().by_lanes(256).to_string(), "b1x256");
    assert_eq!(I16().by_lanes(16).to_string(), "i16x16");
}

#[test]
fn texts_are_distinct() {
    let mut all: Vec<Type> = vec![VOID()];
    for t in lanes() {
        for n in factors() {
            all.push(t.by_lanes(n));
        }
    }
    assert_eq!(all.len(), 100);
    for (i, a) in all.iter().enumerate() {
        for (j, b) in all.iter().enumerate() {
            assert_eq!(a.to_string() == b.to_string(), i == j);
            assert_eq!(a == b, i == j);
        }
    }
}

#[test]
fn what_cannot_be_halved_or_grown() {
    for t in scalars() {
        assert!(t.is_scalar());
    }
    assert_eq!(VOID().lane_bits(), 0);
    for t in lanes() {
        assert!(t.lane_bits() > 0);
        assert_eq!(t.by_lanes(256).lane_count(), 256);
        assert_eq!(t.by_lanes(256).log2_lane_count(), 8);
    }
}
