use bincode_fuzz::mutation::{draw_plan, mutate_bytes, MutationPlan};
use bincode_fuzz::random::{keep_if, range_below, rand_vector_string, seeded_rng};
use bincode_fuzz::types::{CompoundType, Struct, StructField, Type};
use rand::{Rng, XorShiftRng};

const KINDS: [Type; 13] = [
    Type::U8,
    Type::U16,
    Type::U32,
    Type::U64,
    Type::I8,
    Type::I16,
    Type::I32,
    Type::I64,
    Type::F32,
    Type::F64,
    Type::Char,
    Type::Bool,
    Type::String,
];

fn kind(rng: &mut XorShiftRng) -> Type {
    *rng.choose(&KINDS).unwrap()
}

fn compound(rng: &mut XorShiftRng) -> CompoundType {
    match rng.gen::<u64>() % 4 {
        0 => CompoundType::Vec(kind(rng)),
        1 => CompoundType::Option(kind(rng)),
        2 => {
            let first = kind(rng);
            let second = kind(rng);
            CompoundType::Tuple(first, second)
        }
        _ => {
            let element = kind(rng);
            CompoundType::Array(element, rng.gen::<usize>() % 16 + 1)
        }
    }
}

fn field(rng: &mut XorShiftRng) -> StructField {
    if rng.gen::<u64>() % 2 == 0 {
        StructField::Type(kind(rng))
    } else {
        StructField::CompoundType(compound(rng))
    }
}

fn chanced_index(rng: &mut XorShiftRng, chance: u32, bound: usize) -> Option<usize> {
    if rng.gen_weighted_bool(chance) {
        Some(rng.gen_range(0, bound))
    } else {
        None
    }
}

fn plan(rng: &mut XorShiftRng, len: usize) -> MutationPlan {
    let increment = chanced_index(rng, 5, len);
    let decrement = chanced_index(rng, 5, len);
    let invert = chanced_index(rng, 5, len);
    let insert = if rng.gen_weighted_bool(10) {
        let index = rng.gen_range(0, len + 1);
        Some((index, rng.gen::<u8>()))
    } else {
        None
    };
    let grown = len + insert.is_some() as usize;
    let remove = chanced_index(rng, 10, grown);
    let shrunk = grown - remove.is_some() as usize;
    let mut append = Vec::new();
    if rng.gen_weighted_bool(20) {
        let count: i32 = rng.gen_range(0, 8);
        for _ in 0..count {
            append.push(rng.gen::<u8>());
        }
    }
    let extended = shrunk + append.len();
    let truncate = if extended > 0 {
        chanced_index(rng, 40, extended.min(32) + 1)
    } else {
        None
    };
    MutationPlan { increment, decrement, invert, insert, remove, append, truncate }
}

fn same(a: &MutationPlan, b: &MutationPlan) -> bool {
    a.increment == b.increment
        && a.decrement == b.decrement
        && a.invert == b.invert
        && a.insert == b.insert
        && a.remove == b.remove
        && a.append == b.append
        && a.truncate == b.truncate
}

#[test]
fn scalar_kind_is_the_one_chosen_among_the_thirteen() {
    let mut ours = seeded_rng(21);
    let mut theirs = seeded_rng(21);
    for _ in 0..2_000 {
        assert_eq!(Type::rand(&mut ours), kind(&mut theirs));
    }
    assert_eq!(ours.next_u32(), theirs.next_u32());
}

#[test]
fn compound_kind_goes_by_the_numbers_drawn() {
    let mut ours = seeded_rng(22);
    let mut theirs = seeded_rng(22);
    for _ in 0..2_000 {
        assert_eq!(CompoundType::rand(&mut ours), compound(&mut theirs));
    }
    assert_eq!(ours.next_u32(), theirs.next_u32());
}

#[test]
fn field_goes_by_the_parity_of_the_number_drawn() {
    let mut ours = seeded_rng(23);
    let mut theirs = seeded_rng(23);
    for _ in 0..2_000 {
        assert_eq!(StructField::rand(&mut ours), field(&mut theirs));
    }
    assert_eq!(ours.next_u32(), theirs.next_u32());
}

#[test]
fn aggregate_draws_its_count_and_then_its_fields() {
    let mut ours = seeded_rng(24);
    let mut theirs = seeded_rng(24);
    for _ in 0..500 {
        let count: i32 = theirs.gen_range(1, 16);
        let fields: Vec<StructField> = (0..count).map(|_| field(&mut theirs)).collect();
        assert_eq!(Struct::rand(&mut ours).fields(), &fields);
    }
    assert_eq!(ours.next_u32(), theirs.next_u32());
}

#[test]
fn plan_draws_its_edits_in_order() {
    for len in [1usize, 2, 5, 40, 1000] {
        let mut ours = seeded_rng(25);
        let mut theirs = seeded_rng(25);
        for _ in 0..5_000 {
            let drawn = draw_plan(&mut ours, len);
            let expected = plan(&mut theirs, len);
            assert!(same(&drawn, &expected), "{:?} and {:?}", drawn, expected);
        }
        assert_eq!(ours.next_u32(), theirs.next_u32());
    }
}

#[test]
fn mutation_leaves_the_source_where_the_plan_left_it() {
    let mut ours = seeded_rng(26);
    let mut theirs = seeded_rng(26);
    let mut bytes: Vec<u8> = (0..100u8).collect();
    for _ in 0..2_000 {
        if bytes.is_empty() {
            bytes.push(1);
        }
        let len = bytes.len();
        mutate_bytes(&mut ours, &mut bytes);
        plan(&mut theirs, len);
    }
    assert_eq!(ours.next_u32(), theirs.next_u32());
}

#[test]
fn string_vector_draws_its_length_and_then_its_strings() {
    let mut ours = seeded_rng(27);
    let mut theirs = seeded_rng(27);
    for _ in 0..20 {
        let count = theirs.gen::<usize>() % 32;
        let mut expected = Vec::new();
        for _ in 0..count {
            let length = theirs.gen::<usize>() % 512;
            let text: String = (0..length).map(|_| theirs.gen::<char>()).collect();
            expected.push(text);
        }
        assert_eq!(rand_vector_string(&mut ours), expected);
    }
    assert_eq!(ours.next_u32(), theirs.next_u32());
}

#[test]
fn range_below_reduces_the_draw() {
    assert_eq!(range_below(0, 512), 0..0);
    assert_eq!(range_below(511, 512), 0..511);
    assert_eq!(range_below(512, 512), 0..0);
    assert_eq!(range_below(1000, 32), 0..8);
    assert_eq!(range_below(usize::MAX, 1), 0..0);
}

#[test]
fn keep_if_keeps_or_drops() {
    assert_eq!(keep_if(true, 7), Some(7));
    assert_eq!(keep_if(false, 7), None);
    assert_eq!(keep_if(true, "text"), Some("text"));
}

#[test]
fn form_is_the_remainder_on_division_by_four() {
    assert_eq!(CompoundType::form(0), 0);
    assert_eq!(CompoundType::form(1), 1);
    assert_eq!(CompoundType::form(2), 2);
    assert_eq!(CompoundType::form(3), 3);
    assert_eq!(CompoundType::form(4), 0);
    assert_eq!(CompoundType::form(u64::MAX), 3);
}

#[test]
fn even_draws_make_scalar_fields() {
    assert!(StructField::is_scalar_draw(0));
    assert!(!StructField::is_scalar_draw(1));
    assert!(StructField::is_scalar_draw(2));
    assert!(!StructField::is_scalar_draw(u64::MAX));
}
