//! The producer capability and the combinators that compose producers.

use vstd::prelude::*;

verus! {

/// A producer of values of type `Output`.
///
/// Each call to `read` performs one observation: it may have side effects,
/// change the producer's state, and need not be deterministic or idempotent.
/// Memoization is never a producer's duty; it belongs to a node wrapping it.
///
/// The contract of `read` is relational: `yields(pre, post, value)` says that
/// one read taken in state `pre` may leave the producer in state `post` and
/// hand back `value`. A deterministic producer pins `post` and `value` down
/// exactly; a producer standing for an outside effect leaves them loose.
pub trait Source<Output>: Sized {
    /// Well-formedness of the producer's state, preserved by every read.
    spec fn wf(&self) -> bool;

    /// The effect of one read: from state `pre`, a read may produce `value`
    /// and leave the producer in state `post`.
    spec fn yields(pre: Self, post: Self, value: Output) -> bool;

    /// Perform one observation.
    fn read(&mut self) -> (value: Output)
        requires
            old(self).wf(),
        ensures
            final(self).wf(),
            Self::yields(*old(self), *final(self), value),
    ;
}

/// Reads an inner producer once and hands both halves of the observation back
/// as a pair of copies.
pub struct DuplicateSource<S> {
    /// The producer whose single observation is copied.
    pub inner_source: S,
}

impl<Output: Copy, S: Source<Output>> Source<(Output, Output)> for DuplicateSource<S> {
    /// The duplicating producer is well-formed when its inner producer is.
    open spec fn wf(&self) -> bool {
        self.inner_source.wf()
    }

    /// Both halves of the pair are the one value the inner producer yielded.
    open spec fn yields(pre: Self, post: Self, value: (Output, Output)) -> bool {
        &&& S::yields(pre.inner_source, post.inner_source, value.0)
        &&& value.1 == value.0
    }

    fn read(&mut self) -> (value: (Output, Output)) {
        let output = self.inner_source.read();
        (output, output)
    }
}

/// Wraps a producer so that one read yields the observed value twice, as two
/// copies of the same observation.
pub fn duplicate<Output: Copy, S: Source<Output>>(source: S) -> (r: DuplicateSource<S>)
    ensures
        r.inner_source == source,
{
    DuplicateSource { inner_source: source }
}

/// Totality of a transformation: it may be applied to every value of its
/// input type.
pub open spec fn accepts_all<Input, Output, F: Fn(Input) -> Output>(f: F) -> bool {
    forall|a: Input| #[trigger] call_requires(f, (a,))
}

/// Reads an ordered collection of producers of one output type, each once,
/// and aggregates the observations in the same order.
pub struct ParallelSource<S> {
    /// The producers, read one after the other in the order given.
    pub sources: Vec<S>,
}

impl<Output, S: Source<Output>> Source<Vec<Output>> for ParallelSource<S> {
    /// The aggregating producer is well-formed when every inner producer is.
    open spec fn wf(&self) -> bool {
        forall|j: int| 0 <= j < self.sources@.len() ==> (#[trigger] self.sources@[j]).wf()
    }

    /// One observation per inner producer, in the order the producers stand
    /// in; an empty collection yields an empty aggregate.
    open spec fn yields(pre: Self, post: Self, value: Vec<Output>) -> bool {
        &&& post.sources@.len() == pre.sources@.len()
        &&& value@.len() == pre.sources@.len()
        &&& forall|j: int|
            0 <= j < pre.sources@.len() ==> #[trigger] S::yields(
                pre.sources@[j],
                post.sources@[j],
                value@[j],
            )
    }

    fn read(&mut self) -> (value: Vec<Output>) {
        let ghost pre = *self;
        let mut results: Vec<Output> = Vec::new();
        let n = self.sources.len();
        let mut i: usize = 0;
        while i < n
            invariant
                i <= n,
                n == self.sources@.len(),
                n == pre.sources@.len(),
                results@.len() == i,
                forall|j: int| i <= j < n ==> self.sources@[j] == pre.sources@[j],
                forall|j: int| 0 <= j < n ==> (#[trigger] self.sources@[j]).wf(),
                forall|j: int|
                    0 <= j < i ==> #[trigger] S::yields(
                        pre.sources@[j],
                        self.sources@[j],
                        results@[j],
                    ),
            decreases n - i,
        {
            let output = self.sources[i].read();
            results.push(output);
            i += 1;
        }
        results
    }
}

/// Aggregates an ordered collection of producers of one output type: one read
/// observes every inner producer once, first to last, and hands the
/// observations back in that same order. The aggregation is logical, not
/// concurrent: the reads run strictly one after the other.
pub fn parallel<Output, S: Source<Output>>(sources: Vec<S>) -> (r: ParallelSource<S>)
    ensures
        r.sources == sources,
{
    ParallelSource { sources }
}

/// Reads an inner producer once and transforms the observation with a
/// caller-supplied function.
pub struct MapSource<Input, S, F> {
    /// The producer whose observation is transformed.
    pub inner_source: S,
    /// The transformation applied to each observation.
    pub transformer: F,
    /// Marks the observation type the transformation consumes.
    pub input_marker: core::marker::PhantomData<Input>,
}

impl<Input, Output, S: Source<Input>, F: Fn(Input) -> Output> Source<Output> for MapSource<
    Input,
    S,
    F,
> {
    /// The inner producer is well-formed and the transformation accepts every
    /// observation it could be handed.
    open spec fn wf(&self) -> bool {
        &&& self.inner_source.wf()
        &&& accepts_all::<Input, Output, F>(self.transformer)
    }

    /// The value is what the transformation may return for the one
    /// observation the inner producer yielded; the transformation itself is
    /// untouched by a read.
    open spec fn yields(pre: Self, post: Self, value: Output) -> bool {
        &&& post.transformer == pre.transformer
        &&& exists|a: Input|
            #[trigger] S::yields(pre.inner_source, post.inner_source, a) && call_ensures(
                pre.transformer,
                (a,),
                value,
            )
    }

    fn read(&mut self) -> (value: Output) {
        let ghost pre = *self;
        let a = self.inner_source.read();
        let value = (self.transformer)(a);
        proof {
            assert(S::yields(pre.inner_source, self.inner_source, a) && call_ensures(
                pre.transformer,
                (a,),
                value,
            ));
        }
        value
    }
}

/// Wraps a producer with a transformation: one read observes the inner
/// producer once and hands back the transformed observation. No caching takes
/// place at this layer.
pub fn map<Input, Output, S: Source<Input>, F: Fn(Input) -> Output>(source: S, f: F) -> (r:
    MapSource<Input, S, F>)
    ensures
        r.inner_source == source,
        r.transformer == f,
{
    MapSource { inner_source: source, transformer: f, input_marker: core::marker::PhantomData }
}

/// Reads an inner producer once and hands back the observed value together
/// with a deep copy of it.
pub struct CloneSource<S> {
    /// The producer whose single observation is deep-copied.
    pub inner_source: S,
}

impl<Output: Clone, S: Source<Output>> Source<(Output, Output)> for CloneSource<S> {
    /// The cloning producer is well-formed when its inner producer is.
    open spec fn wf(&self) -> bool {
        self.inner_source.wf()
    }

    /// The first half is the one value the inner producer yielded; the second
    /// is a clone of it, as the value's own `Clone` implementation made it.
    open spec fn yields(pre: Self, post: Self, value: (Output, Output)) -> bool {
        &&& S::yields(pre.inner_source, post.inner_source, value.0)
        &&& cloned::<Output>(value.0, value.1)
    }

    fn read(&mut self) -> (value: (Output, Output)) {
        let output = self.inner_source.read();
        let output_copy = output.clone();
        (output, output_copy)
    }
}

/// Wraps a producer so that one read yields the observed value and one
/// independently owned deep copy of it.
pub fn clone<Output: Clone, S: Source<Output>>(source: S) -> (r: CloneSource<S>)
    ensures
        r.inner_source == source,
{
    CloneSource { inner_source: source }
}

/// Reads a pair-producing inner producer once and transforms the two halves
/// of the pair with two independent functions.
pub struct BimapSource<FirstInput, SecondInput, S, F, G> {
    /// The producer of pairs whose halves are transformed.
    pub inner_source: S,
    /// The transformation applied to the first half of each pair.
    pub first_transformer: F,
    /// The transformation applied to the second half of each pair.
    pub second_transformer: G,
    /// Marks the pair type the transformations consume.
    pub input_marker: core::marker::PhantomData<(FirstInput, SecondInput)>,
}

impl<
    FirstInput,
    SecondInput,
    FirstOutput,
    SecondOutput,
    S: Source<(FirstInput, SecondInput)>,
    F: Fn(FirstInput) -> FirstOutput,
    G: Fn(SecondInput) -> SecondOutput,
> Source<(FirstOutput, SecondOutput)> for BimapSource<FirstInput, SecondInput, S, F, G> {
    /// The inner producer is well-formed and each transformation accepts
    /// every observation it could be handed.
    open spec fn wf(&self) -> bool {
        &&& self.inner_source.wf()
        &&& accepts_all::<FirstInput, FirstOutput, F>(self.first_transformer)
        &&& accepts_all::<SecondInput, SecondOutput, G>(self.second_transformer)
    }

    /// The halves of the value are what the two transformations may return
    /// for the halves of the one pair the inner producer yielded; the
    /// transformations themselves are untouched by a read.
    open spec fn yields(pre: Self, post: Self, value: (FirstOutput, SecondOutput)) -> bool {
        &&& post.first_transformer == pre.first_transformer
        &&& post.second_transformer == pre.second_transformer
        &&& exists|pair: (FirstInput, SecondInput)|
            #[trigger] S::yields(pre.inner_source, post.inner_source, pair) && call_ensures(
                pre.first_transformer,
                (pair.0,),
                value.0,
            ) && call_ensures(pre.second_transformer, (pair.1,), value.1)
    }

    fn read(&mut self) -> (value: (FirstOutput, SecondOutput)) {
        let ghost pre = *self;
        let (first_input, second_input) = self.inner_source.read();
        let first_output = (self.first_transformer)(first_input);
        let second_output = (self.second_transformer)(second_input);
        proof {
            assert(S::yields(
                pre.inner_source,
                self.inner_source,
                (first_input, second_input),
            ) && call_ensures(pre.first_transformer, (first_input,), first_output) && call_ensures(
                pre.second_transformer,
                (second_input,),
                second_output,
            ));
        }
        (first_output, second_output)
    }
}

/// Wraps a producer of pairs with two transformations, one for each half:
/// one read observes the inner producer once and hands back the pair of
/// transformed halves.
pub fn bimap<
    FirstInput,
    SecondInput,
    FirstOutput,
    SecondOutput,
    S: Source<(FirstInput, SecondInput)>,
    F: Fn(FirstInput) -> FirstOutput,
    G: Fn(SecondInput) -> SecondOutput,
>(
    source: S,
    first_transformer: F,
    second_transformer: G,
) -> (r: BimapSource<FirstInput, SecondInput, S, F, G>)
    ensures
        r.inner_source == source,
        r.first_transformer == first_transformer,
        r.second_transformer == second_transformer,
{
    BimapSource {
        inner_source: source,
        first_transformer,
        second_transformer,
        input_marker: core::marker::PhantomData,
    }
}

/// Reads a first producer, then a second, and pairs the two observations.
pub struct JoinSource<S1, S2> {
    /// The producer read first.
    pub first_source: S1,
    /// The producer read second.
    pub second_source: S2,
}

impl<FirstInput, SecondInput, S1: Source<FirstInput>, S2: Source<SecondInput>> Source<
    (FirstInput, SecondInput),
> for JoinSource<S1, S2> {
    /// The pairing producer is well-formed when both inner producers are.
    open spec fn wf(&self) -> bool {
        &&& self.first_source.wf()
        &&& self.second_source.wf()
    }

    /// Each half of the pair is one observation of the producer on its side.
    open spec fn yields(pre: Self, post: Self, value: (FirstInput, SecondInput)) -> bool {
        &&& S1::yields(pre.first_source, post.first_source, value.0)
        &&& S2::yields(pre.second_source, post.second_source, value.1)
    }

    fn read(&mut self) -> (value: (FirstInput, SecondInput)) {
        let first_content = self.first_source.read();
        let second_content = self.second_source.read();
        (first_content, second_content)
    }
}

/// Pairs two producers: one read observes the first producer, then the
/// second, and hands both observations back as a pair.
pub fn join<FirstInput, SecondInput, S1: Source<FirstInput>, S2: Source<SecondInput>>(
    first_source: S1,
    second_source: S2,
) -> (r: JoinSource<S1, S2>)
    ensures
        r.first_source == first_source,
        r.second_source == second_source,
{
    JoinSource { first_source, second_source }
}

/// A duplicating producer is well-formed as soon as its inner producer is.
pub proof fn lemma_duplicate_wf<Output: Copy, S: Source<Output>>(d: DuplicateSource<S>)
    requires
        d.inner_source.wf(),
    ensures
        d.wf(),
{
}

/// A cloning producer is well-formed as soon as its inner producer is.
pub proof fn lemma_clone_wf<Output: Clone, S: Source<Output>>(c: CloneSource<S>)
    requires
        c.inner_source.wf(),
    ensures
        c.wf(),
{
}

/// A pairing producer is well-formed as soon as both inner producers are.
pub proof fn lemma_join_wf<FirstInput, SecondInput, S1: Source<FirstInput>, S2: Source<
    SecondInput,
>>(j: JoinSource<S1, S2>)
    requires
        j.first_source.wf(),
        j.second_source.wf(),
    ensures
        j.wf(),
{
}

/// Law: one read of a pairing producer observes each inner producer exactly
/// once, the first producer's observation standing first in the pair.
pub proof fn lemma_join_yields<FirstInput, SecondInput, S1: Source<FirstInput>, S2: Source<
    SecondInput,
>>(pre: JoinSource<S1, S2>, post: JoinSource<S1, S2>, value: (FirstInput, SecondInput))
    requires
        <JoinSource<S1, S2> as Source<(FirstInput, SecondInput)>>::yields(pre, post, value),
    ensures
        S1::yields(pre.first_source, post.first_source, value.0),
        S2::yields(pre.second_source, post.second_source, value.1),
{
}

/// An aggregating producer is well-formed as soon as every inner producer
/// is.
pub proof fn lemma_parallel_wf<Output, S: Source<Output>>(p: ParallelSource<S>)
    requires
        forall|j: int| 0 <= j < p.sources@.len() ==> (#[trigger] p.sources@[j]).wf(),
    ensures
        p.wf(),
{
}

/// A mapping producer is well-formed as soon as its inner producer is and
/// its transformation is total.
pub proof fn lemma_map_wf<Input, Output, S: Source<Input>, F: Fn(Input) -> Output>(
    m: MapSource<Input, S, F>,
)
    requires
        m.inner_source.wf(),
        accepts_all::<Input, Output, F>(m.transformer),
    ensures
        m.wf(),
{
}

/// Law: one read of a mapping producer observes the inner producer exactly
/// once and transforms that one observation; the transformation itself is
/// untouched.
pub proof fn lemma_map_yields<Input, Output, S: Source<Input>, F: Fn(Input) -> Output>(
    pre: MapSource<Input, S, F>,
    post: MapSource<Input, S, F>,
    value: Output,
)
    requires
        <MapSource<Input, S, F> as Source<Output>>::yields(pre, post, value),
    ensures
        post.transformer == pre.transformer,
        exists|a: Input|
            #[trigger] S::yields(pre.inner_source, post.inner_source, a) && call_ensures(
                pre.transformer,
                (a,),
                value,
            ),
{
}

/// A pair-transforming producer is well-formed as soon as its inner producer
/// is and both its transformations are total.
pub proof fn lemma_bimap_wf<
    FirstInput,
    SecondInput,
    FirstOutput,
    SecondOutput,
    S: Source<(FirstInput, SecondInput)>,
    F: Fn(FirstInput) -> FirstOutput,
    G: Fn(SecondInput) -> SecondOutput,
>(b: BimapSource<FirstInput, SecondInput, S, F, G>)
    requires
        b.inner_source.wf(),
        accepts_all::<FirstInput, FirstOutput, F>(b.first_transformer),
        accepts_all::<SecondInput, SecondOutput, G>(b.second_transformer),
    ensures
        b.wf(),
{
}

/// Law: one read of a pair-transforming producer observes the inner producer
/// exactly once and transforms the two halves of that one pair
/// independently; the transformations themselves are untouched.
pub proof fn lemma_bimap_yields<
    FirstInput,
    SecondInput,
    FirstOutput,
    SecondOutput,
    S: Source<(FirstInput, SecondInput)>,
    F: Fn(FirstInput) -> FirstOutput,
    G: Fn(SecondInput) -> SecondOutput,
>(
    pre: BimapSource<FirstInput, SecondInput, S, F, G>,
    post: BimapSource<FirstInput, SecondInput, S, F, G>,
    value: (FirstOutput, SecondOutput),
)
    requires
        <BimapSource<FirstInput, SecondInput, S, F, G> as Source<
            (FirstOutput, SecondOutput),
        >>::yields(pre, post, value),
    ensures
        post.first_transformer == pre.first_transformer,
        post.second_transformer == pre.second_transformer,
        exists|pair: (FirstInput, SecondInput)|
            #[trigger] S::yields(pre.inner_source, post.inner_source, pair) && call_ensures(
                pre.first_transformer,
                (pair.0,),
                value.0,
            ) && call_ensures(pre.second_transformer, (pair.1,), value.1),
{
}

/// Law: a duplicating producer's one read yields a pair `(v, v)` whose two
/// halves are both equal to the single observation of the inner producer.
pub proof fn lemma_duplicate_halves_equal<Output: Copy, S: Source<Output>>(
    pre: DuplicateSource<S>,
    post: DuplicateSource<S>,
    value: (Output, Output),
)
    requires
        <DuplicateSource<S> as Source<(Output, Output)>>::yields(pre, post, value),
    ensures
        value.1 == value.0,
        S::yields(pre.inner_source, post.inner_source, value.0),
{
}

/// Law: a cloning producer's one read yields the single observation of the
/// inner producer together with a value its `Clone` implementation made from
/// that observation.
pub proof fn lemma_clone_halves<Output: Clone, S: Source<Output>>(
    pre: CloneSource<S>,
    post: CloneSource<S>,
    value: (Output, Output),
)
    requires
        <CloneSource<S> as Source<(Output, Output)>>::yields(pre, post, value),
    ensures
        S::yields(pre.inner_source, post.inner_source, value.0),
        cloned::<Output>(value.0, value.1),
{
}

/// Law: aggregating an empty collection of producers yields an empty result.
pub proof fn lemma_parallel_empty<Output, S: Source<Output>>(
    pre: ParallelSource<S>,
    post: ParallelSource<S>,
    value: Vec<Output>,
)
    requires
        <ParallelSource<S> as Source<Vec<Output>>>::yields(pre, post, value),
        pre.sources@.len() == 0,
    ensures
        value@.len() == 0,
{
}

/// Law: aggregation keeps the order. One read of an aggregate of producers
/// yields exactly one result per producer, and the result in each position is
/// an observation of the producer in that same position.
pub proof fn lemma_parallel_ordered<Output, S: Source<Output>>(
    pre: ParallelSource<S>,
    post: ParallelSource<S>,
    value: Vec<Output>,
)
    requires
        <ParallelSource<S> as Source<Vec<Output>>>::yields(pre, post, value),
    ensures
        value@.len() == pre.sources@.len(),
        forall|j: int|
            0 <= j < pre.sources@.len() ==> #[trigger] S::yields(
                pre.sources@[j],
                post.sources@[j],
                value@[j],
            ),
{
}

/// Law: transforming both halves of a pair of producers observes each
/// producer once and applies each transformation to its own side's
/// observation. For pure transformations, pinned down by the two spec
/// functions, the value is `(f(a), g(b))` where `a` and `b` are the two
/// producers' observations.
pub proof fn lemma_bimap_of_join<
    FirstInput,
    SecondInput,
    FirstOutput,
    SecondOutput,
    S1: Source<FirstInput>,
    S2: Source<SecondInput>,
    F: Fn(FirstInput) -> FirstOutput,
    G: Fn(SecondInput) -> SecondOutput,
>(
    pre: BimapSource<FirstInput, SecondInput, JoinSource<S1, S2>, F, G>,
    post: BimapSource<FirstInput, SecondInput, JoinSource<S1, S2>, F, G>,
    value: (FirstOutput, SecondOutput),
    first_spec: spec_fn(FirstInput) -> FirstOutput,
    second_spec: spec_fn(SecondInput) -> SecondOutput,
)
    requires
        <BimapSource<FirstInput, SecondInput, JoinSource<S1, S2>, F, G> as Source<
            (FirstOutput, SecondOutput),
        >>::yields(pre, post, value),
        forall|a: FirstInput, c: FirstOutput|
            call_ensures(pre.first_transformer, (a,), c) ==> c == first_spec(a),
        forall|b: SecondInput, d: SecondOutput|
            call_ensures(pre.second_transformer, (b,), d) ==> d == second_spec(b),
    ensures
        exists|a: FirstInput, b: SecondInput|
            #![trigger first_spec(a), second_spec(b)]
            {
                &&& S1::yields(pre.inner_source.first_source, post.inner_source.first_source, a)
                &&& S2::yields(pre.inner_source.second_source, post.inner_source.second_source, b)
                &&& value == (first_spec(a), second_spec(b))
            },
{
    let pair = choose|pair: (FirstInput, SecondInput)|
        #[trigger] JoinSource::<S1, S2>::yields(pre.inner_source, post.inner_source, pair)
            && call_ensures(pre.first_transformer, (pair.0,), value.0) && call_ensures(
            pre.second_transformer,
            (pair.1,),
            value.1,
        );
    assert(S1::yields(pre.inner_source.first_source, post.inner_source.first_source, pair.0)
        && S2::yields(pre.inner_source.second_source, post.inner_source.second_source, pair.1)
        && value == (first_spec(pair.0), second_spec(pair.1)));
}

} // verus!
