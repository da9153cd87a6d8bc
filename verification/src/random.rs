//! The random source and what is drawn from it.
//!
//! Every generator and mutator of this crate takes the random source as an
//! argument. The source is a seeded xorshift generator of the `rand` crate.
//! What it hands out is a function of the four words that it holds; these
//! functions are named here, not spelled out. So the contracts of the
//! functions that draw from the source say which draws, in which order, make
//! up a result, and how the source is left; they do not say which numbers
//! the draws give.

use rand::Rng;
use rand::SeedableRng;
use rand::XorShiftRng;
use std::ops::Range;
use vstd::prelude::*;

verus! {

/// `rand::XorShiftRng`, carried through as an opaque value.
#[verifier::external_type_specification]
#[verifier::external_body]
pub struct ExXorShiftRng(XorShiftRng);

/// The four state words that a generator holds. Whatever is drawn from a
/// generator is a function of these words, and so are the words that it
/// holds afterwards.
pub uninterp spec fn xorshift_words(rng: XorShiftRng) -> Seq<u32>;

/// What `Rng::next_u32` returns for a generator that holds `words`, and the
/// words that it holds afterwards.
pub uninterp spec fn u32_drawn(words: Seq<u32>) -> (u32, Seq<u32>);

/// What `Rng::gen::<u8>` returns for a generator that holds `words`, and the
/// words that it holds afterwards.
pub uninterp spec fn u8_drawn(words: Seq<u32>) -> (u8, Seq<u32>);

/// What `Rng::gen::<u64>` returns for a generator that holds `words`, and the
/// words that it holds afterwards.
pub uninterp spec fn u64_drawn(words: Seq<u32>) -> (u64, Seq<u32>);

/// What `Rng::gen::<usize>` returns for a generator that holds `words`, where
/// a `usize` has `bits` bits, and the words that it holds afterwards.
pub uninterp spec fn usize_drawn(words: Seq<u32>, bits: int) -> (usize, Seq<u32>);

/// What `Rng::gen::<bool>` returns for a generator that holds `words`, and
/// the words that it holds afterwards.
pub uninterp spec fn bool_drawn(words: Seq<u32>) -> (bool, Seq<u32>);

/// What `Rng::gen::<char>` returns for a generator that holds `words`, and
/// the words that it holds afterwards.
pub uninterp spec fn char_drawn(words: Seq<u32>) -> (char, Seq<u32>);

/// What `Rng::gen_range` returns for a generator that holds `words` and the
/// bounds `low` and `high`, where the numbers have `bits` bits, and the words
/// that it holds afterwards.
pub uninterp spec fn range_drawn(words: Seq<u32>, bits: int, low: int, high: int) -> (
    int,
    Seq<u32>,
);

/// What `Rng::gen_weighted_bool` returns for a generator that holds `words`
/// and the weight `n`, and the words that it holds afterwards.
pub uninterp spec fn weighted_bool_drawn(words: Seq<u32>, n: u32) -> (bool, Seq<u32>);

/// The index of the element that `Rng::choose` returns for a generator that
/// holds `words` and a slice of `len` elements, where a `usize` has `bits`
/// bits, and the words that it holds afterwards.
pub uninterp spec fn choice_drawn(words: Seq<u32>, bits: int, len: int) -> (int, Seq<u32>);

/// `<XorShiftRng as SeedableRng<[u32; 4]>>::from_seed`: a generator that
/// holds the four words of the seed. It panics on a seed that is zero in all
/// four words, which the precondition leaves out.
#[verifier::external_body]
pub(crate) fn xorshift_from_seed(words: [u32; 4]) -> (rng: XorShiftRng)
    requires
        !(words[0] == 0 && words[1] == 0 && words[2] == 0 && words[3] == 0),
    ensures
        xorshift_words(rng) == words@,
{
    XorShiftRng::from_seed(words)
}

/// `rand::thread_rng` followed by `Rng::gen::<u64>`: a number from the
/// process's entropy. Nothing is claimed of it. `thread_rng` panics where
/// the system has no entropy to offer, which no argument could rule out.
#[verifier::external_body]
pub(crate) fn entropy_u64() -> (value: u64) {
    rand::thread_rng().gen::<u64>()
}

/// `Rng::next_u32` on the xorshift generator: the number drawn and the
/// words held afterwards are those that the words held before determine.
#[verifier::external_body]
pub(crate) fn next_u32(rng: &mut XorShiftRng) -> (value: u32)
    ensures
        (value, xorshift_words(*final(rng))) == u32_drawn(xorshift_words(*old(rng))),
{
    rng.next_u32()
}

/// `Rng::gen::<u8>`: the byte drawn and the words held afterwards are those
/// that the words held before determine.
#[verifier::external_body]
pub(crate) fn gen_u8(rng: &mut XorShiftRng) -> (value: u8)
    ensures
        (value, xorshift_words(*final(rng))) == u8_drawn(xorshift_words(*old(rng))),
{
    rng.gen::<u8>()
}

/// `Rng::gen::<u64>`: the number drawn and the words held afterwards are
/// those that the words held before determine.
#[verifier::external_body]
pub(crate) fn gen_u64(rng: &mut XorShiftRng) -> (value: u64)
    ensures
        (value, xorshift_words(*final(rng))) == u64_drawn(xorshift_words(*old(rng))),
{
    rng.gen::<u64>()
}

/// `Rng::gen::<usize>`: the number drawn and the words held afterwards are
/// those that the words held before and the width of a `usize` determine.
#[verifier::external_body]
pub(crate) fn gen_usize(rng: &mut XorShiftRng) -> (value: usize)
    ensures
        (value, xorshift_words(*final(rng))) == usize_drawn(
            xorshift_words(*old(rng)),
            usize::BITS as int,
        ),
{
    rng.gen::<usize>()
}

/// `Rng::gen::<bool>`: the outcome and the words held afterwards are those
/// that the words held before determine.
#[verifier::external_body]
pub(crate) fn gen_bool(rng: &mut XorShiftRng) -> (value: bool)
    ensures
        (value, xorshift_words(*final(rng))) == bool_drawn(xorshift_words(*old(rng))),
{
    rng.gen::<bool>()
}

/// `Rng::gen::<char>`: the character drawn and the words held afterwards are
/// those that the words held before determine.
#[verifier::external_body]
pub(crate) fn gen_char(rng: &mut XorShiftRng) -> (value: char)
    ensures
        (value, xorshift_words(*final(rng))) == char_drawn(xorshift_words(*old(rng))),
{
    rng.gen::<char>()
}

/// `Rng::gen_range::<usize>`: a number in `[low, high)`. The number and the
/// words held afterwards are those that the words held before, the bounds
/// and the width of a `usize` determine. The call panics unless `low < high`,
/// which the precondition demands.
#[verifier::external_body]
pub(crate) fn gen_range_usize(rng: &mut XorShiftRng, low: usize, high: usize) -> (value: usize)
    requires
        low < high,
    ensures
        low <= value < high,
        (value as int, xorshift_words(*final(rng))) == range_drawn(
            xorshift_words(*old(rng)),
            usize::BITS as int,
            low as int,
            high as int,
        ),
{
    rng.gen_range(low, high)
}

/// `Rng::gen_range::<i32>`: a number in `[low, high)`. The number and the
/// words held afterwards are those that the words held before and the bounds
/// determine. The call panics unless `low < high`, which the precondition
/// demands.
#[verifier::external_body]
pub(crate) fn gen_range_i32(rng: &mut XorShiftRng, low: i32, high: i32) -> (value: i32)
    requires
        low < high,
    ensures
        low <= value < high,
        (value as int, xorshift_words(*final(rng))) == range_drawn(
            xorshift_words(*old(rng)),
            32,
            low as int,
            high as int,
        ),
{
    rng.gen_range(low, high)
}

/// `Rng::gen_weighted_bool`: true with a chance of one in `n`. The outcome
/// and the words held afterwards are those that the words held before and
/// `n` determine.
#[verifier::external_body]
pub(crate) fn gen_weighted_bool(rng: &mut XorShiftRng, n: u32) -> (hit: bool)
    ensures
        (hit, xorshift_words(*final(rng))) == weighted_bool_drawn(xorshift_words(*old(rng)), n),
{
    rng.gen_weighted_bool(n)
}

/// `Rng::choose`: nothing where `values` is empty, and the generator is then
/// left as it is; else the element at an index within the slice. The index
/// and the words held afterwards are those that the words held before, the
/// length of the slice and the width of a `usize` determine.
#[verifier::external_body]
pub(crate) fn choose_from<T: Copy>(rng: &mut XorShiftRng, values: &[T]) -> (picked: Option<T>)
    ensures
        picked is None <==> values@.len() == 0,
        picked is None ==> xorshift_words(*final(rng)) == xorshift_words(*old(rng)),
        picked is Some ==> 0 <= choice_drawn(
            xorshift_words(*old(rng)),
            usize::BITS as int,
            values@.len() as int,
        ).0 < values@.len(),
        picked is Some ==> picked == Some(
            values@[choice_drawn(
                xorshift_words(*old(rng)),
                usize::BITS as int,
                values@.len() as int,
            ).0],
        ),
        picked is Some ==> xorshift_words(*final(rng)) == choice_drawn(
            xorshift_words(*old(rng)),
            usize::BITS as int,
            values@.len() as int,
        ).1,
{
    rng.choose(values).copied()
}

/// `String::push`: appends one character.
pub assume_specification[ std::string::String::push ](text: &mut std::string::String, ch: char)
    ensures
        final(text)@ == old(text)@.push(ch),
;

/// The low 32 bits of `seed ^ mask`.
pub open spec fn seed_word(seed: u64, mask: u64) -> u32 {
    ((seed ^ mask) & 0xffff_ffff) as u32
}

/// The four words with which the generator for `seed` is started.
pub open spec fn seed_words_of(seed: u64) -> Seq<u32> {
    seq![
        seed_word(seed, 0x4d3a1613c0077157),
        seed_word(seed, 0xaa99ab477fd5d862),
        seed_word(seed, 0xa16d13ad8b5d4420),
        seed_word(seed, 0x82e93fddc8167589),
    ]
}

/// Spreads a 64-bit seed over the four state words of the generator. The
/// words are never all zero, so every seed starts a generator.
pub fn seed_words(seed: u64) -> (words: [u32; 4])
    ensures
        words@ == seed_words_of(seed),
        !(words[0] == 0 && words[1] == 0 && words[2] == 0 && words[3] == 0),
{
    let a: u32 = ((seed ^ 0x4d3a1613c0077157) & 0xffff_ffff) as u32;
    let b: u32 = ((seed ^ 0xaa99ab477fd5d862) & 0xffff_ffff) as u32;
    let c: u32 = ((seed ^ 0xa16d13ad8b5d4420) & 0xffff_ffff) as u32;
    let d: u32 = ((seed ^ 0x82e93fddc8167589) & 0xffff_ffff) as u32;
    assert(!(a == 0 && b == 0)) by (bit_vector)
        requires
            a == ((seed ^ 0x4d3a1613c0077157) & 0xffff_ffff) as u32,
            b == ((seed ^ 0xaa99ab477fd5d862) & 0xffff_ffff) as u32,
    ;
    let words: [u32; 4] = [a, b, c, d];
    words
}

/// What a draw below `max` gives for a generator that holds `words`: one
/// number drawn and reduced modulo `max`, and the words held afterwards.
pub open spec fn length_drawn(words: Seq<u32>, max: int) -> (int, Seq<u32>) {
    let (draw, next) = usize_drawn(words, usize::BITS as int);
    ((draw as int) % max, next)
}

/// The `count` characters drawn in a row from a generator that holds
/// `words`, in the order in which they are drawn, and the words held
/// afterwards.
pub open spec fn chars_drawn(words: Seq<u32>, count: nat) -> (Seq<char>, Seq<u32>)
    decreases count,
{
    if count == 0 {
        (Seq::empty(), words)
    } else {
        let (text, middle) = chars_drawn(words, (count - 1) as nat);
        let (ch, next) = char_drawn(middle);
        (text.push(ch), next)
    }
}

/// The string drawn from a generator that holds `words`: first a length
/// below 512, then that many characters. With it, the words held afterwards.
pub open spec fn string_drawn(words: Seq<u32>) -> (Seq<char>, Seq<u32>) {
    let (length, next) = length_drawn(words, 512);
    chars_drawn(next, length as nat)
}

/// The `count` strings drawn in a row from a generator that holds `words`,
/// and the words held afterwards.
pub open spec fn strings_drawn(words: Seq<u32>, count: nat) -> (Seq<Seq<char>>, Seq<u32>)
    decreases count,
{
    if count == 0 {
        (Seq::empty(), words)
    } else {
        let (texts, middle) = strings_drawn(words, (count - 1) as nat);
        let (text, next) = string_drawn(middle);
        (texts.push(text), next)
    }
}

/// The strings drawn from a generator that holds `words`: first their
/// number, below 32, then one after the other. With them, the words held
/// afterwards.
pub open spec fn string_vector_drawn(words: Seq<u32>) -> (Seq<Seq<char>>, Seq<u32>) {
    let (length, next) = length_drawn(words, 32);
    strings_drawn(next, length as nat)
}

/// `value` where `keep` holds, and else nothing.
pub open spec fn kept_if<T>(keep: bool, value: T) -> Option<T> {
    if keep {
        Some(value)
    } else {
        None
    }
}

/// The strings of `texts` as sequences of characters.
pub open spec fn texts_of(texts: Seq<String>) -> Seq<Seq<char>> {
    Seq::new(texts.len(), |i: int| texts[i]@)
}

/// As many characters are drawn as were asked for.
pub proof fn lemma_chars_drawn_len(words: Seq<u32>, count: nat)
    ensures
        chars_drawn(words, count).0.len() == count,
    decreases count,
{
    if count > 0 {
        lemma_chars_drawn_len(words, (count - 1) as nat);
    }
}

/// The random source for `seed`: a generator that holds the four words over
/// which the seed is spread.
pub fn seeded_rng(seed: u64) -> (rng: XorShiftRng)
    ensures
        xorshift_words(rng) == seed_words_of(seed),
{
    xorshift_from_seed(seed_words(seed))
}

/// The range from zero to `draw` reduced modulo `max`.
pub fn range_below(draw: usize, max: usize) -> (range: Range<usize>)
    requires
        max > 0,
    ensures
        range.start == 0,
        range.end == draw % max,
{
    let length: usize = draw % max;
    0..length
}

/// A range from zero to a random end below `max`: one number is drawn and
/// reduced modulo `max`.
pub fn rand_range(rng: &mut XorShiftRng, max: usize) -> (range: Range<usize>)
    requires
        max > 0,
    ensures
        range.start == 0,
        range.end < max,
        (range.end as int, xorshift_words(*final(rng))) == length_drawn(
            xorshift_words(*old(rng)),
            max as int,
        ),
{
    let draw: usize = gen_usize(rng);
    range_below(draw, max)
}

/// A random string of fewer than 512 characters: its length is drawn first,
/// then its characters, one after the other.
pub fn rand_string(rng: &mut XorShiftRng) -> (text: String)
    ensures
        (text@, xorshift_words(*final(rng))) == string_drawn(xorshift_words(*old(rng))),
        text@.len() < 512,
{
    let length: usize = rand_range(rng, 512).end;
    let ghost start = xorshift_words(*rng);
    let mut text = String::new();
    let mut i: usize = 0;
    while i < length
        invariant
            i <= length,
            (text@, xorshift_words(*rng)) == chars_drawn(start, i as nat),
        decreases length - i,
    {
        let ch = gen_char(rng);
        text.push(ch);
        i = i + 1;
    }
    proof {
        lemma_chars_drawn_len(start, length as nat);
    }
    text
}

/// Fewer than 32 random strings, each of fewer than 512 characters: their
/// number is drawn first, then the strings, one after the other.
pub fn rand_vector_string(rng: &mut XorShiftRng) -> (texts: Vec<String>)
    ensures
        (texts_of(texts@), xorshift_words(*final(rng))) == string_vector_drawn(
            xorshift_words(*old(rng)),
        ),
        texts@.len() < 32,
        forall|i: int| 0 <= i < texts@.len() ==> (#[trigger] texts@[i])@.len() < 512,
{
    let length: usize = rand_range(rng, 32).end;
    let ghost start = xorshift_words(*rng);
    let mut texts: Vec<String> = Vec::new();
    let mut i: usize = 0;
    while i < length
        invariant
            i <= length,
            texts@.len() == i,
            (texts_of(texts@), xorshift_words(*rng)) == strings_drawn(start, i as nat),
            forall|j: int| 0 <= j < texts@.len() ==> (#[trigger] texts@[j])@.len() < 512,
        decreases length - i,
    {
        let ghost before = texts_of(texts@);
        let text = rand_string(rng);
        texts.push(text);
        assert(texts_of(texts@) =~= before.push(text@));
        i = i + 1;
    }
    texts
}

/// `value` where `keep` holds, and else nothing.
pub fn keep_if<T>(keep: bool, value: T) -> (wrapped: Option<T>)
    ensures
        wrapped == kept_if(keep, value),
{
    if keep {
        Some(value)
    } else {
        None
    }
}

/// Either `value` or nothing, as one random bit decides: the value is kept
/// where the bit drawn is set.
pub fn rand_option<T>(rng: &mut XorShiftRng, value: T) -> (wrapped: Option<T>)
    ensures
        wrapped == kept_if(bool_drawn(xorshift_words(*old(rng))).0, value),
        xorshift_words(*final(rng)) == bool_drawn(xorshift_words(*old(rng))).1,
{
    let keep = gen_bool(rng);
    keep_if(keep, value)
}

} // verus!
