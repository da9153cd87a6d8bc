//! The corpus of a fuzz campaign: the seed, the two round counts, and the
//! aggregates to fuzz, in order.

use crate::random::{entropy_u64, seed_words_of, seeded_rng, xorshift_words};
use crate::types::{struct_drawn, Struct, StructField};
use vstd::prelude::*;

verus! {

/// What drives one campaign.
#[derive(Debug)]
pub struct Corpus {
    pub seed: u64,
    pub serializations: usize,
    pub mutations: usize,
    pub structs: Vec<Struct>,
}

/// A corpus as plain values: each aggregate as the sequence of its fields.
pub struct CorpusView {
    pub seed: u64,
    pub serializations: usize,
    pub mutations: usize,
    pub structs: Seq<Seq<StructField>>,
}

/// The number of serialization rounds of a new corpus.
pub const DEFAULT_SERIALIZATIONS: usize = 2048;

/// The number of mutation rounds of a new corpus.
pub const DEFAULT_MUTATIONS: usize = 65536;

/// The number of aggregates of a corpus that is created for a path at which
/// none was found.
pub const DEFAULT_STRUCTS: usize = 32;

/// The `count` aggregates drawn in a row from a generator that holds
/// `words`, each as the sequence of its fields, and the words held
/// afterwards.
pub open spec fn structs_drawn(words: Seq<u32>, count: nat) -> (Seq<Seq<StructField>>, Seq<u32>)
    decreases count,
{
    if count == 0 {
        (Seq::empty(), words)
    } else {
        let (structs, middle) = structs_drawn(words, (count - 1) as nat);
        let (fields, next) = struct_drawn(middle);
        (structs.push(fields), next)
    }
}

/// The aggregates of a corpus with the given seed: `count` of them, drawn
/// in a row from the generator that the seed starts.
pub open spec fn structs_of_seed(seed: u64, count: nat) -> Seq<Seq<StructField>> {
    structs_drawn(seed_words_of(seed), count).0
}

impl View for Corpus {
    type V = CorpusView;

    open spec fn view(&self) -> CorpusView {
        CorpusView {
            seed: self.seed,
            serializations: self.serializations,
            mutations: self.mutations,
            structs: Seq::new(self.structs@.len(), |i: int| self.structs@[i]@),
        }
    }
}

impl Clone for Corpus {
    fn clone(&self) -> (copy: Self)
        ensures
            copy@ == self@,
    {
        let mut structs: Vec<Struct> = Vec::new();
        let mut i: usize = 0;
        while i < self.structs.len()
            invariant
                i <= self.structs@.len(),
                structs@.len() == i,
                forall|j: int| 0 <= j < i ==> (#[trigger] structs@[j])@ == self.structs@[j]@,
            decreases self.structs@.len() - i,
        {
            structs.push(self.structs[i].clone());
            i = i + 1;
        }
        let copy = Corpus {
            seed: self.seed,
            serializations: self.serializations,
            mutations: self.mutations,
            structs,
        };
        assert(copy@.structs =~= self@.structs);
        copy
    }
}

impl PartialEq for Corpus {
    fn eq(&self, other: &Corpus) -> (equal: bool) {
        if self.seed != other.seed || self.serializations != other.serializations
            || self.mutations != other.mutations || self.structs.len() != other.structs.len() {
            assert(other@.structs.len() == other.structs@.len());
            return false;
        }
        let mut i: usize = 0;
        while i < self.structs.len()
            invariant
                i <= self.structs@.len(),
                self.structs@.len() == other.structs@.len(),
                forall|j: int| 0 <= j < i ==> (#[trigger] self.structs@[j])@ == other.structs@[j]@,
            decreases self.structs@.len() - i,
        {
            if self.structs[i] != other.structs[i] {
                assert(self@.structs[i as int] != other@.structs[i as int]);
                return false;
            }
            i = i + 1;
        }
        assert(self@.structs =~= other@.structs);
        true
    }
}

impl vstd::std_specs::cmp::PartialEqSpecImpl for Corpus {
    open spec fn obeys_eq_spec() -> bool {
        true
    }

    open spec fn eq_spec(&self, other: &Corpus) -> bool {
        self@ == other@
    }
}

impl Corpus {
    /// Both round counts are positive, and every aggregate is well formed.
    pub open spec fn wf(&self) -> bool {
        &&& self.serializations > 0
        &&& self.mutations > 0
        &&& forall|i: int| 0 <= i < self.structs@.len() ==> (#[trigger] self.structs@[i]).wf()
    }

    /// The corpus that a campaign starts from, for a given seed: the default
    /// round counts and no aggregate yet.
    pub open spec fn initial(seed: u64) -> CorpusView {
        CorpusView {
            seed,
            serializations: DEFAULT_SERIALIZATIONS,
            mutations: DEFAULT_MUTATIONS,
            structs: Seq::empty(),
        }
    }

    /// A corpus with the default round counts, no aggregate, and the given
    /// seed.
    pub fn with_seed(seed: u64) -> (corpus: Corpus)
        ensures
            corpus@ == Corpus::initial(seed),
            corpus.wf(),
    {
        let corpus = Corpus {
            seed,
            serializations: DEFAULT_SERIALIZATIONS,
            mutations: DEFAULT_MUTATIONS,
            structs: Vec::new(),
        };
        assert(corpus@.structs =~= Seq::empty());
        corpus
    }

    /// A corpus with the default round counts, no aggregate, and a seed
    /// taken from the entropy of the process.
    pub fn new() -> (corpus: Corpus)
        ensures
            corpus@ == Corpus::initial(corpus.seed),
            corpus.wf(),
    {
        Corpus::with_seed(entropy_u64())
    }

    /// Sets the seed, and returns a copy of the corpus as it then is.
    pub fn seed(&mut self, seed: u64) -> (copy: Corpus)
        ensures
            final(self)@ == (CorpusView { seed, ..old(self)@ }),
            copy@ == final(self)@,
            old(self).wf() ==> final(self).wf(),
    {
        self.seed = seed;
        self.clone()
    }

    /// Sets the number of serialization rounds, and returns a copy of the
    /// corpus as it then is.
    pub fn serializations(&mut self, serializations: usize) -> (copy: Corpus)
        ensures
            final(self)@ == (CorpusView { serializations, ..old(self)@ }),
            copy@ == final(self)@,
            old(self).wf() && serializations > 0 ==> final(self).wf(),
    {
        self.serializations = serializations;
        self.clone()
    }

    /// Sets the number of mutation rounds, and returns a copy of the corpus
    /// as it then is.
    pub fn mutations(&mut self, mutations: usize) -> (copy: Corpus)
        ensures
            final(self)@ == (CorpusView { mutations, ..old(self)@ }),
            copy@ == final(self)@,
            old(self).wf() && mutations > 0 ==> final(self).wf(),
    {
        self.mutations = mutations;
        self.clone()
    }

    /// Replaces the aggregates by `size` freshly drawn ones, and returns a
    /// copy of the corpus as it then is. The aggregates are drawn, one after
    /// the other, from the random source that the seed of the corpus starts.
    pub fn structs(&mut self, size: usize) -> (copy: Corpus)
        ensures
            final(self).seed == old(self).seed,
            final(self).serializations == old(self).serializations,
            final(self).mutations == old(self).mutations,
            final(self)@.structs == structs_of_seed(old(self).seed, size as nat),
            final(self).structs@.len() == size,
            forall|i: int| 0 <= i < size ==> (#[trigger] final(self).structs@[i]).wf(),
            copy@ == final(self)@,
    {
        let mut rng = seeded_rng(self.seed);
        let ghost start = xorshift_words(rng);
        let mut structs: Vec<Struct> = Vec::new();
        let mut i: usize = 0;
        while i < size
            invariant
                i <= size,
                structs@.len() == i,
                (Seq::new(structs@.len(), |j: int| structs@[j]@), xorshift_words(rng))
                    == structs_drawn(start, i as nat),
                forall|j: int| 0 <= j < i ==> (#[trigger] structs@[j]).wf(),
            decreases size - i,
        {
            let ghost before = Seq::new(structs@.len(), |j: int| structs@[j]@);
            let aggregate = Struct::rand(&mut rng);
            structs.push(aggregate);
            assert(Seq::new(structs@.len(), |j: int| structs@[j]@) =~= before.push(aggregate@));
            i = i + 1;
        }
        self.structs = structs;
        self.clone()
    }

    /// Settles on the corpus of a campaign, given what was found at its
    /// path. A corpus that was found is taken as it is. Where none was, a
    /// new one is made, with a seed from the entropy of the process, the
    /// default round counts and 32 freshly drawn aggregates; the flag
    /// returned with it says that it has yet to be saved.
    pub fn open_or_new(found: Option<Corpus>) -> (settled: (Corpus, bool))
        ensures
            found matches Some(corpus) ==> settled.0 == corpus && !settled.1,
            found is None ==> {
                &&& settled.1
                &&& settled.0.serializations == DEFAULT_SERIALIZATIONS
                &&& settled.0.mutations == DEFAULT_MUTATIONS
                &&& settled.0.structs@.len() == DEFAULT_STRUCTS
                &&& settled.0@.structs == structs_of_seed(settled.0.seed, DEFAULT_STRUCTS as nat)
                &&& settled.0.wf()
            },
    {
        match found {
            Some(corpus) => (corpus, false),
            None => {
                let mut fresh = Corpus::new();
                let corpus = fresh.structs(DEFAULT_STRUCTS);
                assert(corpus@.structs.len() == fresh@.structs.len());
                assert forall|i: int| 0 <= i < corpus.structs@.len() implies (
                #[trigger] corpus.structs@[i]).wf() by {
                    assert(corpus@.structs[i] == fresh@.structs[i]);
                }
                (corpus, true)
            },
        }
    }
}

} // verus!
