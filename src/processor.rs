use vstd::prelude::*;

verus! {

/// # Processor
///
/// A durable operation handler with its dependencies bundled in: given its
/// own state and an input, it produces an output.
///
/// `process` is deterministic in the input and the state, which
/// `spec_process` names, and it takes `&self`, so one instance may serve any
/// number of callers.
pub trait Processor<I, O> {
    /// The output that `process` yields on `input`.
    open spec fn spec_process(&self, input: I) -> O {
        arbitrary()
    }

    /// Process one input.
    fn process(&self, input: I) -> (output: O)
        ensures
            output == self.spec_process(input),
    ;
}

/// ## FinalProcessor
///
/// A processor whose state is held through a shared `Arc` rather than a
/// borrow, so that the work may outlive the caller's frame.
pub trait FinalProcessor<I, O> {
    /// The output that `process` yields for `state` on `input`.
    open spec fn spec_final_process(state: std::sync::Arc<Self>, input: I) -> O {
        arbitrary()
    }

    /// Process one input with shared state.
    fn process(state: std::sync::Arc<Self>, input: I) -> (output: O)
        ensures
            output == Self::spec_final_process(state, input),
    ;
}

/// ## RefProcessor
///
/// A processor that receives a borrowed dependency beside an owned input.
pub trait RefProcessor<Borrowed, O, Owned = ()> {
    /// The output that `process` yields for `deps` and `input`.
    open spec fn spec_ref_process(&self, deps: &Borrowed, input: Owned) -> O {
        arbitrary()
    }

    /// Process one borrowed item with an owned input.
    fn process(&self, deps: &Borrowed, input: Owned) -> (output: O)
        ensures
            output == self.spec_ref_process(deps, input),
    ;
}

/// The outputs of `processor` on each of `inputs`, position by position.
pub open spec fn mapped_outputs<I, O, P: Processor<I, O>>(inputs: Seq<I>, processor: P) -> Seq<O> {
    inputs.map_values(|i: I| processor.spec_process(i))
}

/// The outputs of `ref_processor` on each of the borrowed `inputs`.
pub open spec fn ref_mapped_outputs<I, O, RP: RefProcessor<I, O>>(
    inputs: Seq<I>,
    ref_processor: RP,
) -> Seq<O> {
    inputs.map_values(|i: I| ref_processor.spec_ref_process(&i, ()))
}

/// ## Parallel Map (borrowed version)
///
/// Applies `ref_processor` to every item of `inputs`, each invocation
/// independent of the others. Every input yields exactly one output.
pub fn parallel_map_borrowed<I, O, RP: RefProcessor<I, O>>(
    inputs: &[I],
    ref_processor: &RP,
) -> (outputs: Vec<O>)
    ensures
        outputs@ == ref_mapped_outputs(inputs@, *ref_processor),
{
    let mut outputs: Vec<O> = Vec::new();
    let mut k: usize = 0;
    while k < inputs.len()
        invariant
            k <= inputs@.len(),
            outputs@ == ref_mapped_outputs(inputs@.subrange(0, k as int), *ref_processor),
        decreases inputs@.len() - k,
    {
        let out = ref_processor.process(&inputs[k], ());
        outputs.push(out);
        proof {
            assert(inputs@.subrange(0, k + 1) =~= inputs@.subrange(0, k as int).push(inputs@[k as int]));
        }
        k = k + 1;
    }
    assert(inputs@.subrange(0, inputs@.len() as int) =~= inputs@);
    outputs
}

/// ## Parallel Map (owned version)
///
/// Applies `processor` to every item of `inputs`, each invocation
/// independent of the others. Every input yields exactly one output.
pub fn parallel_map<I, O, P: Processor<I, O>>(inputs: Vec<I>, processor: &P) -> (outputs: Vec<O>)
    ensures
        outputs@ == mapped_outputs(inputs@, *processor),
{
    let ghost all = inputs@;
    let mut rest = inputs;
    let mut outputs: Vec<O> = Vec::new();
    while rest.len() > 0
        invariant
            outputs@.len() + rest@.len() == all.len(),
            rest@ == all.subrange(outputs@.len() as int, all.len() as int),
            outputs@ == mapped_outputs(all.subrange(0, outputs@.len() as int), *processor),
        decreases rest@.len(),
    {
        let ghost k = outputs@.len() as int;
        let item = rest.remove(0);
        let out = processor.process(item);
        outputs.push(out);
        proof {
            assert(all.subrange(0, k + 1) =~= all.subrange(0, k).push(all[k]));
            assert(rest@ =~= all.subrange(k + 1, all.len() as int));
        }
    }
    assert(all.subrange(0, all.len() as int) =~= all);
    outputs
}

} // verus!
