//! The grammar of generated aggregates: scalar kinds, compound kinds that wrap
//! scalars exactly one level deep, and the ordered list of fields that makes
//! up one aggregate. Each of them can be drawn at random and rendered as
//! source text.

use crate::random::{
    choice_drawn, choose_from, gen_range_i32, gen_u64, gen_usize, range_drawn, u64_drawn,
    usize_drawn, xorshift_words,
};
use crate::text::{
    decimal, decimal_text, lemma_padded_hex_text_injective, padded_hex, padded_hex_text,
};
use rand::XorShiftRng;
use vstd::prelude::*;
use vstd::string::*;

verus! {

/// A scalar kind: the leaves of the grammar.
#[derive(Debug, Clone, Copy, PartialEq, Eq, Structural)]
pub enum Type {
    U8,
    U16,
    U32,
    U64,
    I8,
    I16,
    I32,
    I64,
    F32,
    F64,
    Char,
    Bool,
    String,
}

/// A compound kind. It wraps scalar kinds only, so nesting is one level deep.
#[derive(Debug, Clone, Copy, PartialEq, Eq, Structural)]
pub enum CompoundType {
    Vec(Type),
    Option(Type),
    Tuple(Type, Type),
    Array(Type, usize),
}

/// One field of an aggregate: a scalar or a compound.
#[derive(Debug, Clone, Copy, PartialEq, Eq, Structural)]
pub enum StructField {
    Type(Type),
    CompoundType(CompoundType),
}

/// An aggregate: its fields in order. A field is known by its position alone.
#[derive(Debug)]
pub struct Struct(Vec<StructField>);

/// The thirteen scalar kinds, in the order of their declaration.
pub open spec fn scalar_kinds() -> Seq<Type> {
    seq![
        Type::U8,
        Type::U16,
        Type::U32,
        Type::U64,
        Type::I8,
        Type::I16,
        Type::I32,
        Type::I64,
        Type::F32,
        Type::F64,
        Type::Char,
        Type::Bool,
        Type::String,
    ]
}

/// The length of a generated array for the number drawn for it: between 1
/// and 16.
pub open spec fn array_len_of(draw: usize) -> usize {
    (draw % 16 + 1) as usize
}

/// `count` copies of `item`, with a comma between each two.
pub open spec fn comma_separated(item: Seq<char>, count: nat) -> Seq<char>
    decreases count,
{
    if count == 0 {
        Seq::empty()
    } else if count == 1 {
        item
    } else {
        comma_separated(item, (count - 1) as nat) + ","@ + item
    }
}

/// The canonical name of the field at `index`.
pub open spec fn field_name(index: nat) -> Seq<char> {
    "field_"@ + padded_hex_text(index)
}

/// The line that declares or fills the field at `index`: its canonical name,
/// a colon, `text`, and a comma.
pub open spec fn field_line(index: nat, text: Seq<char>) -> Seq<char> {
    field_name(index) + ": "@ + text + ",\n"@
}

/// Fields at different positions have different names.
pub proof fn lemma_field_names_distinct(i: nat, j: nat)
    requires
        i != j,
    ensures
        field_name(i) != field_name(j),
{
    if field_name(i) == field_name(j) {
        let prefix = "field_"@;
        assert(padded_hex_text(i) =~= field_name(i).subrange(
            prefix.len() as int,
            field_name(i).len() as int,
        ));
        assert(padded_hex_text(j) =~= field_name(j).subrange(
            prefix.len() as int,
            field_name(j).len() as int,
        ));
        lemma_padded_hex_text_injective(i, j);
    }
}

/// The declarations of `fields`, one line each.
pub open spec fn declarations_text(fields: Seq<StructField>) -> Seq<char>
    decreases fields.len(),
{
    if fields.len() == 0 {
        Seq::empty()
    } else {
        declarations_text(fields.drop_last()) + field_line(
            (fields.len() - 1) as nat,
            fields.last().type_text(),
        )
    }
}

/// The expressions that fill `fields` with random values, one line each.
pub open spec fn generators_text(fields: Seq<StructField>) -> Seq<char>
    decreases fields.len(),
{
    if fields.len() == 0 {
        Seq::empty()
    } else {
        generators_text(fields.drop_last()) + field_line(
            (fields.len() - 1) as nat,
            fields.last().generator_text(),
        )
    }
}

/// The `count` fields drawn in a row from a generator that holds `words`,
/// and the words held afterwards.
pub open spec fn fields_drawn(words: Seq<u32>, count: nat) -> (Seq<StructField>, Seq<u32>)
    decreases count,
{
    if count == 0 {
        (Seq::empty(), words)
    } else {
        let (fields, middle) = fields_drawn(words, (count - 1) as nat);
        let (field, next) = StructField::drawn(middle);
        (fields.push(field), next)
    }
}

/// The fields of the aggregate drawn from a generator that holds `words`:
/// first their number, from 1 up to but not including 16, then one after the
/// other. With them, the words held afterwards.
pub open spec fn struct_drawn(words: Seq<u32>) -> (Seq<StructField>, Seq<u32>) {
    let (count, next) = range_drawn(words, 32, 1, 16);
    fields_drawn(next, count as nat)
}

/// The source text for an aggregate of `fields`: the type `Test` with one
/// member per field, and its constructor `rand`, which fills every member
/// from a random source.
pub open spec fn source_text(fields: Seq<StructField>) -> Seq<char> {
    "\n#[derive(Debug, PartialEq, Serialize, Deserialize)]\nstruct Test {\n    "@
        + declarations_text(fields)
        + "\n}\n\nimpl Test {\n    fn rand(rng: &mut XorShiftRng) -> Test {\n        Test {\n            "@
        + generators_text(fields) + "\n        }\n    }\n}"@
}

impl Type {
    /// The name of the native type of this kind.
    pub open spec fn type_text(self) -> Seq<char> {
        match self {
            Type::U8 => "u8"@,
            Type::U16 => "u16"@,
            Type::U32 => "u32"@,
            Type::U64 => "u64"@,
            Type::I8 => "i8"@,
            Type::I16 => "i16"@,
            Type::I32 => "i32"@,
            Type::I64 => "i64"@,
            Type::F32 => "f32"@,
            Type::F64 => "f64"@,
            Type::Char => "char"@,
            Type::Bool => "bool"@,
            Type::String => "String"@,
        }
    }

    /// The expression that draws a value of this kind: the bounded string
    /// constructor for text, the generic generator for every other kind.
    pub open spec fn generator_text(self) -> Seq<char> {
        match self {
            Type::String => "rand_string(rng)"@,
            _ => "rng.gen()"@,
        }
    }

    /// Renders the native type of this kind.
    pub fn to_type(&self) -> (text: String)
        ensures
            text@ == self.type_text(),
    {
        let name = match *self {
            Type::U8 => "u8",
            Type::U16 => "u16",
            Type::U32 => "u32",
            Type::U64 => "u64",
            Type::I8 => "i8",
            Type::I16 => "i16",
            Type::I32 => "i32",
            Type::I64 => "i64",
            Type::F32 => "f32",
            Type::F64 => "f64",
            Type::Char => "char",
            Type::Bool => "bool",
            Type::String => "String",
        };
        String::from_str(name)
    }

    /// Renders the expression that draws a value of this kind.
    pub fn to_generator(&self) -> (text: String)
        ensures
            text@ == self.generator_text(),
    {
        let generator = match *self {
            Type::String => "rand_string(rng)",
            _ => "rng.gen()",
        };
        String::from_str(generator)
    }

    /// The scalar kind drawn from a generator that holds `words`: the one
    /// at the index chosen among the thirteen. With it, the words held
    /// afterwards.
    pub open spec fn drawn(words: Seq<u32>) -> (Type, Seq<u32>) {
        let (index, next) = choice_drawn(words, usize::BITS as int, 13);
        (scalar_kinds()[index], next)
    }

    /// Draws one of the thirteen scalar kinds.
    pub fn rand(rng: &mut XorShiftRng) -> (kind: Type)
        ensures
            (kind, xorshift_words(*final(rng))) == Type::drawn(xorshift_words(*old(rng))),
            scalar_kinds().contains(kind),
    {
        let kinds: [Type; 13] = [
            Type::U8,
            Type::U16,
            Type::U32,
            Type::U64,
            Type::I8,
            Type::I16,
            Type::I32,
            Type::I64,
            Type::F32,
            Type::F64,
            Type::Char,
            Type::Bool,
            Type::String,
        ];
        assert(kinds@ =~= scalar_kinds());
        let picked = choose_from(rng, kinds.as_slice());
        picked.unwrap()
    }
}

impl CompoundType {
    /// An array has between 1 and 16 elements.
    pub open spec fn wf(self) -> bool {
        self matches CompoundType::Array(_, size) ==> 1 <= size <= 16
    }

    /// The native type of this kind: a growable sequence, a nullable
    /// wrapper, a pair, or an array of fixed length.
    pub open spec fn type_text(self) -> Seq<char> {
        match self {
            CompoundType::Vec(t) => "Vec<"@ + t.type_text() + ">"@,
            CompoundType::Option(t) => "Option<"@ + t.type_text() + ">"@,
            CompoundType::Tuple(t, u) => "("@ + t.type_text() + ", "@ + u.type_text() + ")"@,
            CompoundType::Array(t, size) => "["@ + t.type_text() + "; "@ + decimal_text(
                size as nat,
            ) + "]"@,
        }
    }

    /// The expression that draws a value of this kind: fewer than 512
    /// elements for a sequence; a value that is then kept or dropped for a
    /// nullable; both halves for a pair; and as many elements as it has for
    /// an array.
    pub open spec fn generator_text(self) -> Seq<char> {
        match self {
            CompoundType::Vec(t) => "rand_range(rng, 512).map(|_| "@ + t.generator_text()
                + ").collect()"@,
            CompoundType::Option(t) => "{ let value = "@ + t.generator_text()
                + "; rand_option(rng, value) }"@,
            CompoundType::Tuple(t, u) => "("@ + t.generator_text() + ", "@ + u.generator_text()
                + ")"@,
            CompoundType::Array(t, size) => "["@ + comma_separated(
                t.generator_text(),
                size as nat,
            ) + "]"@,
        }
    }

    /// Renders the native type of this kind.
    pub fn to_type(&self) -> (text: String)
        ensures
            text@ == self.type_text(),
    {
        match *self {
            CompoundType::Vec(t) => {
                let mut text = String::from_str("Vec<");
                text.append(t.to_type().as_str());
                text.append(">");
                text
            },
            CompoundType::Option(t) => {
                let mut text = String::from_str("Option<");
                text.append(t.to_type().as_str());
                text.append(">");
                text
            },
            CompoundType::Tuple(t, u) => {
                let mut text = String::from_str("(");
                text.append(t.to_type().as_str());
                text.append(", ");
                text.append(u.to_type().as_str());
                text.append(")");
                text
            },
            CompoundType::Array(t, size) => {
                let mut text = String::from_str("[");
                text.append(t.to_type().as_str());
                text.append("; ");
                text.append(decimal(size as u64).as_str());
                text.append("]");
                text
            },
        }
    }

    /// Renders the expression that draws a value of this kind.
    pub fn to_generator(&self) -> (text: String)
        ensures
            text@ == self.generator_text(),
    {
        match *self {
            CompoundType::Vec(t) => {
                let mut text = String::from_str("rand_range(rng, 512).map(|_| ");
                text.append(t.to_generator().as_str());
                text.append(").collect()");
                text
            },
            CompoundType::Option(t) => {
                let mut text = String::from_str("{ let value = ");
                text.append(t.to_generator().as_str());
                text.append("; rand_option(rng, value) }");
                text
            },
            CompoundType::Tuple(t, u) => {
                let mut text = String::from_str("(");
                text.append(t.to_generator().as_str());
                text.append(", ");
                text.append(u.to_generator().as_str());
                text.append(")");
                text
            },
            CompoundType::Array(t, size) => {
                let item = t.to_generator();
                let mut parts = String::new();
                let mut i: usize = 0;
                while i < size
                    invariant
                        i <= size,
                        item@ == t.generator_text(),
                        parts@ == comma_separated(item@, i as nat),
                    decreases size - i,
                {
                    if i > 0 {
                        parts.append(",");
                    }
                    parts.append(item.as_str());
                    i = i + 1;
                }
                let mut text = String::from_str("[");
                text.append(parts.as_str());
                text.append("]");
                text
            },
        }
    }

    /// Turns the number drawn for an array into its length.
    pub fn array_len(draw: usize) -> (size: usize)
        ensures
            size == array_len_of(draw),
            1 <= size <= 16,
    {
        draw % 16 + 1
    }

    /// The form of a compound kind for the number drawn for it: the
    /// remainder on division by four.
    pub open spec fn form_of(draw: u64) -> u64 {
        draw % 4
    }

    /// The compound kind drawn from a generator that holds `words`. A number
    /// is drawn for the form, then a scalar kind; a pair draws a second
    /// scalar kind, and an array a number for its length. With the kind,
    /// the words held afterwards.
    pub open spec fn drawn(words: Seq<u32>) -> (CompoundType, Seq<u32>) {
        let (draw, after_form) = u64_drawn(words);
        let (first, after_first) = Type::drawn(after_form);
        if CompoundType::form_of(draw) == 0 {
            (CompoundType::Vec(first), after_first)
        } else if CompoundType::form_of(draw) == 1 {
            (CompoundType::Option(first), after_first)
        } else if CompoundType::form_of(draw) == 2 {
            let (second, after_second) = Type::drawn(after_first);
            (CompoundType::Tuple(first, second), after_second)
        } else {
            let (size, after_size) = usize_drawn(after_first, usize::BITS as int);
            (CompoundType::Array(first, array_len_of(size)), after_size)
        }
    }

    /// Turns the number drawn for the form of a compound kind into the
    /// form: 0 for a sequence, 1 for a nullable, 2 for a pair, 3 for an
    /// array.
    pub fn form(draw: u64) -> (form: u64)
        ensures
            form == CompoundType::form_of(draw),
            form < 4,
    {
        draw % 4
    }

    /// Draws a compound kind: one of the four forms, each over scalar kinds
    /// drawn for it, and an array with a length drawn between 1 and 16.
    pub fn rand(rng: &mut XorShiftRng) -> (kind: CompoundType)
        ensures
            (kind, xorshift_words(*final(rng))) == CompoundType::drawn(xorshift_words(*old(rng))),
            kind.wf(),
    {
        let form: u64 = CompoundType::form(gen_u64(rng));
        if form == 0 {
            CompoundType::Vec(Type::rand(rng))
        } else if form == 1 {
            CompoundType::Option(Type::rand(rng))
        } else if form == 2 {
            let first = Type::rand(rng);
            let second = Type::rand(rng);
            CompoundType::Tuple(first, second)
        } else {
            let element = Type::rand(rng);
            let draw: usize = gen_usize(rng);
            CompoundType::Array(element, CompoundType::array_len(draw))
        }
    }
}

impl StructField {
    /// A compound field is well formed.
    pub open spec fn wf(self) -> bool {
        self matches StructField::CompoundType(kind) ==> kind.wf()
    }

    /// The native type of the field.
    pub open spec fn type_text(self) -> Seq<char> {
        match self {
            StructField::Type(t) => t.type_text(),
            StructField::CompoundType(t) => t.type_text(),
        }
    }

    /// The expression that draws a value for the field.
    pub open spec fn generator_text(self) -> Seq<char> {
        match self {
            StructField::Type(t) => t.generator_text(),
            StructField::CompoundType(t) => t.generator_text(),
        }
    }

    /// Renders the native type of the field.
    pub fn to_type(&self) -> (text: String)
        ensures
            text@ == self.type_text(),
    {
        match *self {
            StructField::Type(t) => t.to_type(),
            StructField::CompoundType(t) => t.to_type(),
        }
    }

    /// Renders the expression that draws a value for the field.
    pub fn to_generator(&self) -> (text: String)
        ensures
            text@ == self.generator_text(),
    {
        match *self {
            StructField::Type(t) => t.to_generator(),
            StructField::CompoundType(t) => t.to_generator(),
        }
    }

    /// Whether the number drawn for a field makes it a scalar: an even
    /// number does.
    pub open spec fn scalar_for(draw: u64) -> bool {
        draw % 2 == 0
    }

    /// The field drawn from a generator that holds `words`: a number is
    /// drawn, and then a scalar kind where it is even, and a compound kind
    /// where it is odd. With the field, the words held afterwards.
    pub open spec fn drawn(words: Seq<u32>) -> (StructField, Seq<u32>) {
        let (draw, next) = u64_drawn(words);
        if StructField::scalar_for(draw) {
            (StructField::Type(Type::drawn(next).0), Type::drawn(next).1)
        } else {
            (StructField::CompoundType(CompoundType::drawn(next).0), CompoundType::drawn(next).1)
        }
    }

    /// Decides from the number drawn for a field whether it is a scalar.
    pub fn is_scalar_draw(draw: u64) -> (scalar: bool)
        ensures
            scalar == StructField::scalar_for(draw),
    {
        draw % 2 == 0
    }

    /// Draws a field: a scalar or a compound, as the parity of one number
    /// drawn decides.
    pub fn rand(rng: &mut XorShiftRng) -> (field: StructField)
        ensures
            (field, xorshift_words(*final(rng))) == StructField::drawn(xorshift_words(*old(rng))),
            field.wf(),
    {
        if StructField::is_scalar_draw(gen_u64(rng)) {
            StructField::Type(Type::rand(rng))
        } else {
            StructField::CompoundType(CompoundType::rand(rng))
        }
    }
}

impl View for Struct {
    type V = Seq<StructField>;

    closed spec fn view(&self) -> Seq<StructField> {
        self.0@
    }
}

impl Clone for Struct {
    fn clone(&self) -> (copy: Self)
        ensures
            copy@ == self@,
    {
        let mut fields: Vec<StructField> = Vec::new();
        let mut i: usize = 0;
        while i < self.0.len()
            invariant
                i <= self.0@.len(),
                fields@ == self.0@.take(i as int),
            decreases self.0@.len() - i,
        {
            fields.push(self.0[i]);
            i = i + 1;
        }
        Struct(fields)
    }
}

impl PartialEq for Struct {
    fn eq(&self, other: &Struct) -> (equal: bool) {
        if self.0.len() != other.0.len() {
            return false;
        }
        let mut i: usize = 0;
        while i < self.0.len()
            invariant
                i <= self.0@.len(),
                self.0@.len() == other.0@.len(),
                self.0@.take(i as int) == other.0@.take(i as int),
            decreases self.0@.len() - i,
        {
            if self.0[i] != other.0[i] {
                return false;
            }
            i = i + 1;
        }
        assert(self.0@.take(i as int) =~= self.0@);
        assert(other.0@.take(i as int) =~= other.0@);
        true
    }
}

impl vstd::std_specs::cmp::PartialEqSpecImpl for Struct {
    open spec fn obeys_eq_spec() -> bool {
        true
    }

    open spec fn eq_spec(&self, other: &Struct) -> bool {
        self@ == other@
    }
}

impl Struct {
    /// A generated aggregate has between 1 and 15 fields, each well formed.
    pub open spec fn wf(&self) -> bool {
        &&& 1 <= self@.len() <= 15
        &&& forall|i: int| 0 <= i < self@.len() ==> (#[trigger] self@[i]).wf()
    }

    /// The aggregate of the given fields.
    pub fn new(fields: Vec<StructField>) -> (aggregate: Struct)
        ensures
            aggregate@ == fields@,
    {
        Struct(fields)
    }

    /// The fields, in order.
    pub fn fields(&self) -> (fields: &Vec<StructField>)
        ensures
            fields@ == self@,
    {
        &self.0
    }

    /// Renders the source text of the aggregate.
    pub fn source(&self) -> (text: String)
        ensures
            text@ == source_text(self@),
    {
        let mut declarations = String::new();
        let mut generators = String::new();
        let mut i: usize = 0;
        while i < self.0.len()
            invariant
                i <= self.0@.len(),
                declarations@ == declarations_text(self.0@.take(i as int)),
                generators@ == generators_text(self.0@.take(i as int)),
            decreases self.0@.len() - i,
        {
            let field = self.0[i];
            let name = padded_hex(i as u64);
            proof {
                let next = self.0@.take(i + 1);
                assert(next.drop_last() =~= self.0@.take(i as int));
            }
            declarations.append("field_");
            declarations.append(name.as_str());
            declarations.append(": ");
            declarations.append(field.to_type().as_str());
            declarations.append(",\n");
            generators.append("field_");
            generators.append(name.as_str());
            generators.append(": ");
            generators.append(field.to_generator().as_str());
            generators.append(",\n");
            i = i + 1;
        }
        assert(self.0@.take(i as int) =~= self.0@);
        let mut text = String::from_str(
            "\n#[derive(Debug, PartialEq, Serialize, Deserialize)]\nstruct Test {\n    ",
        );
        text.append(declarations.as_str());
        text.append(
            "\n}\n\nimpl Test {\n    fn rand(rng: &mut XorShiftRng) -> Test {\n        Test {\n            ",
        );
        text.append(generators.as_str());
        text.append("\n        }\n    }\n}");
        text
    }

    /// Draws an aggregate: the number of its fields first, between 1 and
    /// 15, then the fields, one after the other.
    pub fn rand(rng: &mut XorShiftRng) -> (aggregate: Struct)
        ensures
            (aggregate@, xorshift_words(*final(rng))) == struct_drawn(xorshift_words(*old(rng))),
            aggregate.wf(),
    {
        let count: i32 = gen_range_i32(rng, 1, 16);
        let ghost start = xorshift_words(*rng);
        let mut fields: Vec<StructField> = Vec::new();
        let mut i: i32 = 0;
        while i < count
            invariant
                0 <= i <= count < 16,
                (fields@, xorshift_words(*rng)) == fields_drawn(start, i as nat),
                fields@.len() == i,
                forall|j: int| 0 <= j < fields@.len() ==> (#[trigger] fields@[j]).wf(),
            decreases count - i,
        {
            let field = StructField::rand(rng);
            fields.push(field);
            i = i + 1;
        }
        Struct(fields)
    }
}

} // verus!
