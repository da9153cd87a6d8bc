use bincode_fuzz::random::seeded_rng;
use bincode_fuzz::types::{CompoundType, Struct, StructField, Type};

fn scalars() -> Vec<(Type, &'static str)> {
    vec![
        (Type::U8, "u8"),
        (Type::U16, "u16"),
        (Type::U32, "u32"),
        (Type::U64, "u64"),
        (Type::I8, "i8"),
        (Type::I16, "i16"),
        (Type::I32, "i32"),
        (Type::I64, "i64"),
        (Type::F32, "f32"),
        (Type::F64, "f64"),
        (Type::Char, "char"),
        (Type::Bool, "bool"),
        (Type::String, "String"),
    ]
}

#[test]
fn scalar_kinds_render_native_types() {
    for (kind, name) in scalars() {
        assert_eq!(kind.to_type(), name);
    }
}

#[test]
fn scalar_generators_use_generic_draw_except_text() {
    for (kind, _) in scalars() {
        if kind == Type::String {
            assert_eq!(kind.to_generator(), "rand_string(rng)");
        } else {
            assert_eq!(kind.to_generator(), "rng.gen()");
        }
    }
}

#[test]
fn compound_kinds_render_native_types() {
    assert_eq!(CompoundType::Vec(Type::U8).to_type(), "Vec<u8>");
    assert_eq!(CompoundType::Option(Type::String).to_type(), "Option<String>");
    assert_eq!(CompoundType::Tuple(Type::U8, Type::I64).to_type(), "(u8, i64)");
    assert_eq!(CompoundType::Array(Type::F32, 16).to_type(), "[f32; 16]");
    assert_eq!(CompoundType::Array(Type::Bool, 1).to_type(), "[bool; 1]");
}

#[test]
fn sequence_generator_maps_element_generator() {
    assert_eq!(
        CompoundType::Vec(Type::U16).to_generator(),
        "rand_range(rng, 512).map(|_| rng.gen()).collect()"
    );
    assert_eq!(
        CompoundType::Vec(Type::String).to_generator(),
        "rand_range(rng, 512).map(|_| rand_string(rng)).collect()"
    );
}

#[test]
fn nullable_generator_wraps_inner_value() {
    assert_eq!(
        CompoundType::Option(Type::Char).to_generator(),
        "{ let value = rng.gen(); rand_option(rng, value) }"
    );
    assert_eq!(
        CompoundType::Option(Type::String).to_generator(),
        "{ let value = rand_string(rng); rand_option(rng, value) }"
    );
}

#[test]
fn pair_generator_has_two_expressions() {
    assert_eq!(
        CompoundType::Tuple(Type::String, Type::F64).to_generator(),
        "(rand_string(rng), rng.gen())"
    );
}

#[test]
fn array_generator_repeats_element_size_times() {
    assert_eq!(CompoundType::Array(Type::U8, 1).to_generator(), "[rng.gen()]");
    assert_eq!(
        CompoundType::Array(Type::U8, 3).to_generator(),
        "[rng.gen(),rng.gen(),rng.gen()]"
    );
    assert_eq!(
        CompoundType::Array(Type::String, 2).to_generator(),
        "[rand_string(rng),rand_string(rng)]"
    );
    let sixteen = CompoundType::Array(Type::I8, 16).to_generator();
    assert_eq!(sixteen.matches("rng.gen()").count(), 16);
    assert_eq!(sixteen.matches(',').count(), 15);
}

#[test]
fn array_generator_of_no_element_is_empty_brackets() {
    assert_eq!(CompoundType::Array(Type::U8, 0).to_generator(), "[]");
}

#[test]
fn fields_render_as_what_they_hold() {
    assert_eq!(StructField::Type(Type::I32).to_type(), "i32");
    assert_eq!(StructField::Type(Type::String).to_generator(), "rand_string(rng)");
    assert_eq!(
        StructField::CompoundType(CompoundType::Vec(Type::Bool)).to_type(),
        "Vec<bool>"
    );
    assert_eq!(
        StructField::CompoundType(CompoundType::Tuple(Type::U8, Type::U8)).to_generator(),
        "(rng.gen(), rng.gen())"
    );
}

#[test]
fn array_len_is_between_one_and_sixteen() {
    assert_eq!(CompoundType::array_len(0), 1);
    assert_eq!(CompoundType::array_len(15), 16);
    assert_eq!(CompoundType::array_len(16), 1);
    assert_eq!(CompoundType::array_len(37), 6);
    assert_eq!(CompoundType::array_len(usize::MAX), 16);
}

#[test]
fn source_of_two_fields() {
    let aggregate = Struct::new(vec![
        StructField::Type(Type::U8),
        StructField::CompoundType(CompoundType::Array(Type::String, 2)),
    ]);
    let expected = "\n#[derive(Debug, PartialEq, Serialize, Deserialize)]\nstruct Test {\n    \
field_00: u8,\nfield_01: [String; 2],\n\n}\n\nimpl Test {\n    fn rand(rng: &mut XorShiftRng) -> Test {\n        Test {\n            \
field_00: rng.gen(),\nfield_01: [rand_string(rng),rand_string(rng)],\n\n        }\n    }\n}";
    assert_eq!(aggregate.source(), expected);
}

#[test]
fn source_names_fields_by_position_in_hex() {
    let mut fields = Vec::new();
    for _ in 0..18 {
        fields.push(StructField::Type(Type::Bool));
    }
    let text = Struct::new(fields).source();
    for name in ["field_00", "field_09", "field_0a", "field_0f", "field_10", "field_11"] {
        assert_eq!(text.matches(name).count(), 2, "{}", name);
    }
    assert_eq!(text.matches("field_12").count(), 0);
}

#[test]
fn source_of_no_field() {
    let expected = "\n#[derive(Debug, PartialEq, Serialize, Deserialize)]\nstruct Test {\n    \
\n}\n\nimpl Test {\n    fn rand(rng: &mut XorShiftRng) -> Test {\n        Test {\n            \
\n        }\n    }\n}";
    assert_eq!(Struct::new(Vec::new()).source(), expected);
}

#[test]
fn new_keeps_fields_in_order() {
    let fields = vec![
        StructField::Type(Type::F64),
        StructField::CompoundType(CompoundType::Option(Type::U32)),
        StructField::Type(Type::Char),
    ];
    let aggregate = Struct::new(fields.clone());
    assert_eq!(aggregate.fields(), &fields);
}

#[test]
fn clone_and_equality_go_by_fields() {
    let a = Struct::new(vec![StructField::Type(Type::U8), StructField::Type(Type::U16)]);
    let b = a.clone();
    assert!(a == b);
    let c = Struct::new(vec![StructField::Type(Type::U16), StructField::Type(Type::U8)]);
    assert!(a != c);
    let d = Struct::new(vec![StructField::Type(Type::U8)]);
    assert!(a != d);
    let e = Struct::new(vec![
        StructField::Type(Type::U8),
        StructField::CompoundType(CompoundType::Array(Type::U16, 2)),
    ]);
    let f = Struct::new(vec![
        StructField::Type(Type::U8),
        StructField::CompoundType(CompoundType::Array(Type::U16, 3)),
    ]);
    assert!(e != f);
}

fn check_generated(aggregate: &Struct) {
    let fields = aggregate.fields();
    assert!(1 <= fields.len() && fields.len() <= 15, "{} fields", fields.len());
    for field in fields {
        if let StructField::CompoundType(CompoundType::Array(_, size)) = field {
            assert!(1 <= *size && *size <= 16, "array of {}", size);
        }
    }
}

#[test]
fn generated_aggregates_keep_their_bounds() {
    for seed in 0..10_000u64 {
        let mut rng = seeded_rng(seed);
        check_generated(&Struct::rand(&mut rng));
    }
}

#[test]
fn generated_aggregates_keep_their_bounds_along_one_stream() {
    let mut rng = seeded_rng(0x5eed);
    for _ in 0..10_000 {
        check_generated(&Struct::rand(&mut rng));
    }
}

#[test]
fn generation_reaches_every_field_count_and_array_size() {
    let mut rng = seeded_rng(7);
    let mut counts = [false; 16];
    let mut sizes = [false; 17];
    for _ in 0..5_000 {
        let aggregate = Struct::rand(&mut rng);
        counts[aggregate.fields().len()] = true;
        for field in aggregate.fields() {
            if let StructField::CompoundType(CompoundType::Array(_, size)) = field {
                sizes[*size] = true;
            }
        }
    }
    assert!(!counts[0]);
    assert!(counts[1..].iter().all(|seen| *seen));
    assert!(!sizes[0]);
    assert!(sizes[1..].iter().all(|seen| *seen));
}

#[test]
fn generation_reaches_every_kind() {
    let mut rng = seeded_rng(11);
    let mut seen = Vec::new();
    let mut forms = [false; 4];
    let mut scalar_field = false;
    for _ in 0..2_000 {
        let kind = Type::rand(&mut rng);
        if !seen.contains(&kind) {
            seen.push(kind);
        }
        match CompoundType::rand(&mut rng) {
            CompoundType::Vec(_) => forms[0] = true,
            CompoundType::Option(_) => forms[1] = true,
            CompoundType::Tuple(_, _) => forms[2] = true,
            CompoundType::Array(_, size) => {
                assert!(1 <= size && size <= 16);
                forms[3] = true;
            }
        }
        if let StructField::Type(_) = StructField::rand(&mut rng) {
            scalar_field = true;
        }
    }
    assert_eq!(seen.len(), 13);
    assert!(forms.iter().all(|form| *form));
    assert!(scalar_field);
}

#[test]
fn generation_is_determined_by_the_seed() {
    for seed in [0u64, 1, 0xdead_beef, u64::MAX] {
        let mut first = seeded_rng(seed);
        let mut second = seeded_rng(seed);
        for _ in 0..50 {
            assert!(Struct::rand(&mut first) == Struct::rand(&mut second));
        }
    }
}
