//! Blind structural mutation of an encoded buffer.
//!
//! One round of mutation is a fixed battery of seven edits, each of which
//! takes place or not as chance decides. The edits that chance has picked
//! form a [`MutationPlan`]; what a plan does to a buffer is a function of the
//! two, stated by [`MutationPlan::outcome`].

use crate::random::{
    gen_range_i32, gen_range_usize, gen_u8, gen_weighted_bool, next_u32, range_drawn, u32_drawn,
    u8_drawn, weighted_bool_drawn, xorshift_words,
};
use rand::XorShiftRng;
use vstd::prelude::*;

verus! {

/// The byte after `b`, where 0 follows 255.
pub open spec fn wrapping_succ(b: u8) -> u8 {
    if b == 255 {
        0
    } else {
        (b + 1) as u8
    }
}

/// The byte before `b`, where 255 precedes 0.
pub open spec fn wrapping_pred(b: u8) -> u8 {
    if b == 0 {
        255
    } else {
        (b - 1) as u8
    }
}

/// `s` with the byte at `i` incremented.
pub open spec fn incremented(s: Seq<u8>, i: int) -> Seq<u8> {
    s.update(i, wrapping_succ(s[i]))
}

/// `s` with the byte at `i` decremented.
pub open spec fn decremented(s: Seq<u8>, i: int) -> Seq<u8> {
    s.update(i, wrapping_pred(s[i]))
}

/// `s` with every bit of the byte at `i` inverted.
pub open spec fn inverted(s: Seq<u8>, i: int) -> Seq<u8> {
    s.update(i, !s[i])
}

/// `s` without its last `amount` bytes.
pub open spec fn truncated(s: Seq<u8>, amount: int) -> Seq<u8> {
    s.take(s.len() - amount)
}

/// The smaller of two numbers.
pub open spec fn least(a: int, b: int) -> int {
    if a <= b {
        a
    } else {
        b
    }
}

/// The edits of one round of mutation, in the order in which they are made.
/// An edit that chance has passed over is absent.
#[derive(Debug)]
pub struct MutationPlan {
    /// Where a byte is incremented.
    pub increment: Option<usize>,
    /// Where a byte is decremented.
    pub decrement: Option<usize>,
    /// Where a byte is inverted.
    pub invert: Option<usize>,
    /// Where a byte is inserted, and which.
    pub insert: Option<(usize, u8)>,
    /// Where a byte is removed.
    pub remove: Option<usize>,
    /// The bytes added at the end.
    pub append: Vec<u8>,
    /// How many bytes are cut off the end.
    pub truncate: Option<usize>,
}

/// A plan as plain values: the bytes to append as a sequence.
pub struct PlanView {
    pub increment: Option<usize>,
    pub decrement: Option<usize>,
    pub invert: Option<usize>,
    pub insert: Option<(usize, u8)>,
    pub remove: Option<usize>,
    pub append: Seq<u8>,
    pub truncate: Option<usize>,
}

impl View for MutationPlan {
    type V = PlanView;

    open spec fn view(&self) -> PlanView {
        PlanView {
            increment: self.increment,
            decrement: self.decrement,
            invert: self.invert,
            insert: self.insert,
            remove: self.remove,
            append: self.append@,
            truncate: self.truncate,
        }
    }
}

impl MutationPlan {
    /// The buffer after the whole round.
    pub open spec fn outcome(self, s: Seq<u8>) -> Seq<u8> {
        self@.outcome(s)
    }

    /// Whether every edit of the plan is within the bounds that one round of
    /// mutation keeps on a buffer of `len` bytes.
    pub open spec fn fits(self, len: int) -> bool {
        self@.fits(len)
    }
}

impl PlanView {
    /// The buffer after the three edits that change a byte in place.
    pub open spec fn flipped(self, s: Seq<u8>) -> Seq<u8> {
        let s1 = match self.increment {
            Some(i) => incremented(s, i as int),
            None => s,
        };
        let s2 = match self.decrement {
            Some(i) => decremented(s1, i as int),
            None => s1,
        };
        match self.invert {
            Some(i) => inverted(s2, i as int),
            None => s2,
        }
    }

    /// The buffer after the insertion.
    pub open spec fn grown(self, s: Seq<u8>) -> Seq<u8> {
        match self.insert {
            Some((i, byte)) => self.flipped(s).insert(i as int, byte),
            None => self.flipped(s),
        }
    }

    /// The buffer after the removal.
    pub open spec fn shrunk(self, s: Seq<u8>) -> Seq<u8> {
        match self.remove {
            Some(i) => self.grown(s).remove(i as int),
            None => self.grown(s),
        }
    }

    /// The buffer after the bytes were appended: what the truncation finds.
    pub open spec fn extended(self, s: Seq<u8>) -> Seq<u8> {
        self.shrunk(s) + self.append
    }

    /// The buffer after the whole round.
    pub open spec fn outcome(self, s: Seq<u8>) -> Seq<u8> {
        match self.truncate {
            Some(amount) => truncated(self.extended(s), amount as int),
            None => self.extended(s),
        }
    }

    /// The length that the removal finds in a buffer of `len` bytes.
    pub open spec fn grown_len(self, len: int) -> int {
        if self.insert is Some {
            len + 1
        } else {
            len
        }
    }

    /// The length that the truncation finds in a buffer of `len` bytes.
    pub open spec fn extended_len(self, len: int) -> int {
        self.grown_len(len) - (if self.remove is Some {
            1int
        } else {
            0int
        }) + self.append.len()
    }

    /// Whether every edit of the plan is within the bounds that one round of
    /// mutation keeps on a buffer of `len` bytes: an index names a byte that
    /// is there when its edit is made, the insertion point may also be the
    /// end, fewer than eight bytes are appended, and the truncation finds a
    /// buffer that is not empty and cuts at most 32 bytes, and no more than
    /// there are.
    pub open spec fn fits(self, len: int) -> bool {
        &&& self.increment matches Some(i) ==> i < len
        &&& self.decrement matches Some(i) ==> i < len
        &&& self.invert matches Some(i) ==> i < len
        &&& self.insert matches Some((i, _)) ==> i <= len
        &&& self.remove matches Some(i) ==> i < self.grown_len(len)
        &&& self.append.len() < 8
        &&& self.truncate matches Some(amount) ==> 0 < self.extended_len(len) && amount <= least(
            32,
            self.extended_len(len),
        )
    }
}

/// The lengths of the stages of a plan that fits.
pub proof fn lemma_stage_lengths(plan: PlanView, s: Seq<u8>)
    requires
        plan.fits(s.len() as int),
    ensures
        plan.flipped(s).len() == s.len(),
        plan.grown(s).len() == plan.grown_len(s.len() as int),
        plan.extended(s).len() == plan.extended_len(s.len() as int),
        plan.truncate matches Some(amount) ==> plan.outcome(s).len() == plan.extended(s).len()
            - amount,
        plan.truncate is None ==> plan.outcome(s).len() == plan.extended(s).len(),
{
}

/// One round of mutation never leaves a buffer of negative length; its
/// truncation removes at most 32 bytes, and no more than the buffer holds
/// then; and the whole round adds at most eight bytes and takes at most 33.
pub proof fn lemma_outcome_length(plan: PlanView, s: Seq<u8>)
    requires
        plan.fits(s.len() as int),
    ensures
        plan.outcome(s).len() >= 0,
        0 <= plan.extended(s).len() - plan.outcome(s).len() <= least(
            32,
            plan.extended(s).len() as int,
        ),
        s.len() - 33 <= plan.outcome(s).len() <= s.len() + 8,
{
    lemma_stage_lengths(plan, s);
}

/// A plan without any edit leaves the buffer as it is.
pub proof fn lemma_idle_plan(plan: PlanView, s: Seq<u8>)
    requires
        plan.increment is None,
        plan.decrement is None,
        plan.invert is None,
        plan.insert is None,
        plan.remove is None,
        plan.append.len() == 0,
        plan.truncate is None,
    ensures
        plan.fits(s.len() as int),
        plan.outcome(s) == s,
{
}

/// Increments the byte at `index`, with wraparound.
pub fn increment_at(bytes: &mut Vec<u8>, index: usize)
    requires
        index < old(bytes)@.len(),
    ensures
        final(bytes)@ == incremented(old(bytes)@, index as int),
{
    let byte: u8 = bytes[index];
    bytes[index] = byte.wrapping_add(1);
}

/// Decrements the byte at `index`, with wraparound.
pub fn decrement_at(bytes: &mut Vec<u8>, index: usize)
    requires
        index < old(bytes)@.len(),
    ensures
        final(bytes)@ == decremented(old(bytes)@, index as int),
{
    let byte: u8 = bytes[index];
    bytes[index] = byte.wrapping_sub(1);
}

/// Inverts every bit of the byte at `index`.
pub fn invert_at(bytes: &mut Vec<u8>, index: usize)
    requires
        index < old(bytes)@.len(),
    ensures
        final(bytes)@ == inverted(old(bytes)@, index as int),
{
    let byte: u8 = bytes[index];
    bytes[index] = !byte;
}

/// Cuts `amount` bytes off the end.
pub fn truncate_by(bytes: &mut Vec<u8>, amount: usize)
    requires
        amount <= old(bytes)@.len(),
    ensures
        final(bytes)@ == truncated(old(bytes)@, amount as int),
{
    let keep: usize = bytes.len() - amount;
    bytes.truncate(keep);
}

/// Makes the edits of `plan` on `bytes`, in order.
pub fn apply_plan(bytes: &mut Vec<u8>, plan: &MutationPlan)
    requires
        plan.fits(old(bytes)@.len() as int),
    ensures
        final(bytes)@ == plan.outcome(old(bytes)@),
{
    let ghost view = plan@;
    if let Some(index) = plan.increment {
        increment_at(bytes, index);
    }
    if let Some(index) = plan.decrement {
        decrement_at(bytes, index);
    }
    if let Some(index) = plan.invert {
        invert_at(bytes, index);
    }
    assert(bytes@ == view.flipped(old(bytes)@));
    if let Some((index, byte)) = plan.insert {
        bytes.insert(index, byte);
    }
    assert(bytes@ == view.grown(old(bytes)@));
    if let Some(index) = plan.remove {
        bytes.remove(index);
    }
    assert(bytes@ == view.shrunk(old(bytes)@));
    let ghost shrunk = bytes@;
    let mut i: usize = 0;
    while i < plan.append.len()
        invariant
            i <= plan.append@.len(),
            bytes@ == shrunk + plan.append@.take(i as int),
        decreases plan.append@.len() - i,
    {
        bytes.push(plan.append[i]);
        assert(plan.append@.take(i + 1) =~= plan.append@.take(i as int).push(plan.append@[i as int]));
        assert(bytes@ =~= shrunk + plan.append@.take(i + 1));
        i = i + 1;
    }
    assert(plan.append@.take(i as int) =~= plan.append@);
    assert(bytes@ == view.extended(old(bytes)@));
    if let Some(amount) = plan.truncate {
        proof {
            lemma_stage_lengths(view, old(bytes)@);
        }
        truncate_by(bytes, amount);
    }
}

/// The index that one edit draws from a generator that holds `words`: the
/// edit takes place with a chance of one in `chance`, and where it does, an
/// index from zero up to but not including `bound` is drawn. With it, the
/// words held afterwards.
pub open spec fn index_drawn(words: Seq<u32>, chance: u32, bound: int) -> (
    Option<usize>,
    Seq<u32>,
) {
    let (hit, next) = weighted_bool_drawn(words, chance);
    if hit {
        let (index, last) = range_drawn(next, usize::BITS as int, 0, bound);
        (Some(index as usize), last)
    } else {
        (None, next)
    }
}

/// The insertion that a buffer of `len` bytes draws from a generator that
/// holds `words`: with a chance of one in ten, an insertion point from
/// zero up to and including `len`, and then the byte to insert. With it, the
/// words held afterwards.
pub open spec fn insertion_drawn(words: Seq<u32>, len: int) -> (Option<(usize, u8)>, Seq<u32>) {
    let (hit, next) = weighted_bool_drawn(words, 10);
    if hit {
        let (index, middle) = range_drawn(next, usize::BITS as int, 0, len + 1);
        let (byte, last) = u8_drawn(middle);
        (Some((index as usize, byte)), last)
    } else {
        (None, next)
    }
}

/// The `count` bytes drawn in a row from a generator that holds `words`, and
/// the words held afterwards.
pub open spec fn bytes_drawn(words: Seq<u32>, count: nat) -> (Seq<u8>, Seq<u32>)
    decreases count,
{
    if count == 0 {
        (Seq::empty(), words)
    } else {
        let (bytes, middle) = bytes_drawn(words, (count - 1) as nat);
        let (byte, next) = u8_drawn(middle);
        (bytes.push(byte), next)
    }
}

/// The bytes to append that are drawn from a generator that holds `words`:
/// with a chance of one in twenty, a count from zero up to but not
/// including eight, and then that many bytes. With them, the words held
/// afterwards.
pub open spec fn appendix_drawn(words: Seq<u32>) -> (Seq<u8>, Seq<u32>) {
    let (hit, next) = weighted_bool_drawn(words, 20);
    if hit {
        let (count, middle) = range_drawn(next, 32, 0, 8);
        bytes_drawn(middle, count as nat)
    } else {
        (Seq::empty(), next)
    }
}

/// The plan that a buffer of `len` bytes draws from a generator that holds
/// `words`, and the words held afterwards. The edits are drawn in the order
/// in which they are made, each from the words that the one before has left,
/// and each with bounds that go by the length that the buffer has when the
/// edit is made. The truncation is drawn only where the buffer is not empty
/// by then.
pub open spec fn plan_drawn(words: Seq<u32>, len: int) -> (PlanView, Seq<u32>) {
    let (increment, after_increment) = index_drawn(words, 5, len);
    let (decrement, after_decrement) = index_drawn(after_increment, 5, len);
    let (invert, after_invert) = index_drawn(after_decrement, 5, len);
    let (insert, after_insert) = insertion_drawn(after_invert, len);
    let grown = if insert is Some {
        len + 1
    } else {
        len
    };
    let (remove, after_remove) = index_drawn(after_insert, 10, grown);
    let shrunk = if remove is Some {
        grown - 1
    } else {
        grown
    };
    let (append, after_append) = appendix_drawn(after_remove);
    let extended = shrunk + append.len();
    let (truncate, after_truncate) = if extended > 0 {
        index_drawn(after_append, 40, least(32, extended) + 1)
    } else {
        (None, after_append)
    };
    (PlanView { increment, decrement, invert, insert, remove, append, truncate }, after_truncate)
}

/// Draws the index of one edit: with a chance of one in `chance`, an index
/// below `bound`.
fn draw_index(rng: &mut XorShiftRng, chance: u32, bound: usize) -> (index: Option<usize>)
    requires
        bound > 0,
    ensures
        (index, xorshift_words(*final(rng))) == index_drawn(
            xorshift_words(*old(rng)),
            chance,
            bound as int,
        ),
        index matches Some(i) ==> i < bound,
{
    if gen_weighted_bool(rng, chance) {
        Some(gen_range_usize(rng, 0, bound))
    } else {
        None
    }
}

/// Draws the insertion: with a chance of one in ten, an insertion point up
/// to and including `len`, and the byte to insert.
fn draw_insertion(rng: &mut XorShiftRng, len: usize) -> (insertion: Option<(usize, u8)>)
    requires
        len < usize::MAX,
    ensures
        (insertion, xorshift_words(*final(rng))) == insertion_drawn(
            xorshift_words(*old(rng)),
            len as int,
        ),
        insertion matches Some((i, _)) ==> i <= len,
{
    if gen_weighted_bool(rng, 10) {
        let index: usize = gen_range_usize(rng, 0, len + 1);
        let byte: u8 = gen_u8(rng);
        Some((index, byte))
    } else {
        None
    }
}

/// Draws the bytes to append: with a chance of one in twenty, up to seven
/// of them.
fn draw_appendix(rng: &mut XorShiftRng) -> (bytes: Vec<u8>)
    ensures
        (bytes@, xorshift_words(*final(rng))) == appendix_drawn(xorshift_words(*old(rng))),
        bytes@.len() < 8,
{
    let mut bytes: Vec<u8> = Vec::new();
    if gen_weighted_bool(rng, 20) {
        let count: i32 = gen_range_i32(rng, 0, 8);
        let ghost start = xorshift_words(*rng);
        let mut i: i32 = 0;
        while i < count
            invariant
                0 <= i <= count < 8,
                (bytes@, xorshift_words(*rng)) == bytes_drawn(start, i as nat),
                bytes@.len() == i,
            decreases count - i,
        {
            bytes.push(gen_u8(rng));
            i = i + 1;
        }
    }
    bytes
}

/// Draws the edits of one round of mutation for a buffer of `len` bytes.
/// In order, and each by a chance of its own: with one in five, an index
/// at which a byte is incremented; with one in five, one at which a byte is
/// decremented; with one in five, one at which a byte is inverted; with one in
/// ten, an insertion point between zero and the length, both included, and a
/// byte to insert; with one in ten, an index at which a byte is removed; with
/// one in twenty, up to seven bytes to append. Last, unless the buffer is
/// empty by then, with one in forty: a number of bytes to cut off the end,
/// at most 32 and no more than there are.
pub fn draw_plan(rng: &mut XorShiftRng, len: usize) -> (plan: MutationPlan)
    requires
        0 < len,
        len + 8 <= usize::MAX,
    ensures
        (plan@, xorshift_words(*final(rng))) == plan_drawn(xorshift_words(*old(rng)), len as int),
        plan.fits(len as int),
{
    let increment = draw_index(rng, 5, len);
    let decrement = draw_index(rng, 5, len);
    let invert = draw_index(rng, 5, len);
    let insert = draw_insertion(rng, len);
    let grown: usize = if insert.is_some() {
        len + 1
    } else {
        len
    };
    let remove = draw_index(rng, 10, grown);
    let shrunk: usize = if remove.is_some() {
        grown - 1
    } else {
        grown
    };
    let append = draw_appendix(rng);
    let extended: usize = shrunk + append.len();
    let truncate = if extended > 0 {
        let most: usize = if extended < 32 {
            extended
        } else {
            32
        };
        draw_index(rng, 40, most + 1)
    } else {
        None
    };
    MutationPlan { increment, decrement, invert, insert, remove, append, truncate }
}

/// One round of mutation. An empty buffer is left as it is, and nothing is
/// drawn for it; on any other, the edits of the plan drawn for its length
/// are made.
pub fn mutate_bytes(rng: &mut XorShiftRng, bytes: &mut Vec<u8>)
    requires
        old(bytes)@.len() + 8 <= usize::MAX,
    ensures
        old(bytes)@.len() == 0 ==> final(bytes)@ == old(bytes)@ && xorshift_words(*final(rng))
            == xorshift_words(*old(rng)),
        old(bytes)@.len() > 0 ==> ({
            let (plan, words) = plan_drawn(xorshift_words(*old(rng)), old(bytes)@.len() as int);
            &&& plan.fits(old(bytes)@.len() as int)
            &&& final(bytes)@ == plan.outcome(old(bytes)@)
            &&& xorshift_words(*final(rng)) == words
        }),
        old(bytes)@.len() - 33 <= final(bytes)@.len() <= old(bytes)@.len() + 8,
{
    if bytes.is_empty() {
        return ;
    }
    let plan = draw_plan(rng, bytes.len());
    proof {
        lemma_outcome_length(plan@, bytes@);
    }
    apply_plan(bytes, &plan);
}

/// Whether the buffer of a mutation campaign is to be replaced by a freshly
/// encoded value, given the number drawn for this round: always when it is
/// empty, and else when the low twelve bits of the draw are zero, which is
/// one time in 4096.
pub open spec fn reseed_due(len: nat, draw: u32) -> bool {
    len == 0 || draw & 0xfff == 0
}

/// Decides from the buffer and the number drawn for this round whether the
/// buffer is to be replaced by a freshly encoded value.
pub fn needs_reseed(bytes: &Vec<u8>, draw: u32) -> (due: bool)
    ensures
        due == reseed_due(bytes@.len(), draw),
{
    bytes.is_empty() || (draw & 0xfff) == 0
}

/// Decides whether the buffer is to be replaced by a freshly encoded value.
/// For an empty buffer it is, and nothing is drawn; for any other, one
/// number is drawn, and that number decides.
pub fn should_reseed(rng: &mut XorShiftRng, bytes: &Vec<u8>) -> (due: bool)
    ensures
        bytes@.len() == 0 ==> due && xorshift_words(*final(rng)) == xorshift_words(*old(rng)),
        bytes@.len() > 0 ==> due == reseed_due(
            bytes@.len(),
            u32_drawn(xorshift_words(*old(rng))).0,
        ) && xorshift_words(*final(rng)) == u32_drawn(xorshift_words(*old(rng))).1,
{
    if bytes.is_empty() {
        true
    } else {
        let draw: u32 = next_u32(rng);
        needs_reseed(bytes, draw)
    }
}

} // verus!
