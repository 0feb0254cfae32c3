use vstd::prelude::*;
use crate::processor::Processor;
use std::marker::PhantomData;
use vstd::pervasive::strictly_cloned;

verus! {

/// ## Layer
///
/// Middleware around a processor: it receives the inner processor and the
/// input, and has full control before and after the inner call.
pub trait Layer<I, O, P: Processor<I, O>> {
    /// The output that `wrap` yields for `processor` on `input`.
    open spec fn spec_wrap(&self, processor: P, input: I) -> O {
        arbitrary()
    }

    /// Wrap a processor with a layer.
    fn wrap(&self, processor: &P, input: I) -> (output: O)
        ensures
            output == self.spec_wrap(*processor, input),
    ;
}

/// ## Adapter
///
/// Convert types from I1 to I2 and from O2 to O1.
#[derive(Debug)]
pub struct Adapter<I1, O1, I2, O2, P1: Processor<I1, I2>, P2: Processor<O2, O1>> {
    in_converter: P1,
    out_converter: P2,
    _in_phantom: PhantomData<(I1, I2)>,
    _out_phantom: PhantomData<(O2, O1)>,
}

impl<I1, O1, I2, O2, P1: Processor<I1, I2>, P2: Processor<O2, O1>> Adapter<I1, O1, I2, O2, P1, P2> {
    /// The converter applied to inputs.
    pub closed spec fn in_converter(&self) -> P1 {
        self.in_converter
    }

    /// The converter applied to outputs.
    pub closed spec fn out_converter(&self) -> P2 {
        self.out_converter
    }

    /// The outer output for `input` when `processor` is the inner processor:
    /// convert the input, process it, convert the result back.
    pub open spec fn spec_wrap_process<P3: Processor<I2, O2>>(&self, processor: P3, input: I1) -> O1 {
        self.out_converter().spec_process(
            processor.spec_process(self.in_converter().spec_process(input)),
        )
    }

    /// Create a new adapter.
    pub fn new(in_converter: P1, out_converter: P2) -> (r: Self)
        ensures
            r.in_converter() == in_converter,
            r.out_converter() == out_converter,
    {
        Self { in_converter, out_converter, _in_phantom: PhantomData, _out_phantom: PhantomData }
    }

    /// Run `processor` behind the adapter on `input`.
    pub fn wrap_process<P3: Processor<I2, O2>>(&self, processor: &P3, input: I1) -> (r: O1)
        ensures
            r == self.spec_wrap_process(*processor, input),
    {
        let converted = self.in_converter.process(input);
        let result = processor.process(converted);
        self.out_converter.process(result)
    }

    /// Wrap a processor with an adapter.
    pub fn wrap<P3: Processor<I2, O2>>(self, processor: P3) -> (r: AdapterWrappedProcessor<
        I1,
        O1,
        I2,
        O2,
        P1,
        P2,
        P3,
    >)
        ensures
            r.adapter() == self,
            r.inner() == processor,
    {
        AdapterWrappedProcessor { adapter: self, processor }
    }
}

impl<I1, O1, I2, O2, P1: Processor<I1, I2> + Clone, P2: Processor<O2, O1> + Clone> Clone for Adapter<
    I1,
    O1,
    I2,
    O2,
    P1,
    P2,
> {
    fn clone(&self) -> (r: Self)
        ensures
            strictly_cloned(self.in_converter(), r.in_converter()),
            strictly_cloned(self.out_converter(), r.out_converter()),
    {
        Self {
            in_converter: self.in_converter.clone(),
            out_converter: self.out_converter.clone(),
            _in_phantom: PhantomData,
            _out_phantom: PhantomData,
        }
    }
}

/// ## AdapterWrappedProcessor
///
/// A processor that is wrapped with an adapter.
#[derive(Debug)]
pub struct AdapterWrappedProcessor<
    I1,
    O1,
    I2,
    O2,
    P1: Processor<I1, I2>,
    P2: Processor<O2, O1>,
    P3: Processor<I2, O2>,
> {
    adapter: Adapter<I1, O1, I2, O2, P1, P2>,
    processor: P3,
}

impl<
    I1,
    O1,
    I2,
    O2,
    P1: Processor<I1, I2>,
    P2: Processor<O2, O1>,
    P3: Processor<I2, O2>,
> AdapterWrappedProcessor<I1, O1, I2, O2, P1, P2, P3> {
    /// The adapter around the inner processor.
    pub closed spec fn adapter(&self) -> Adapter<I1, O1, I2, O2, P1, P2> {
        self.adapter
    }

    /// The inner processor.
    pub closed spec fn inner(&self) -> P3 {
        self.processor
    }

    /// Create a new adapter wrapped processor.
    pub fn new(adapter: Adapter<I1, O1, I2, O2, P1, P2>, processor: P3) -> (r: Self)
        ensures
            r.adapter() == adapter,
            r.inner() == processor,
    {
        Self { adapter, processor }
    }
}

impl<
    I1,
    O1,
    I2,
    O2,
    P1: Processor<I1, I2> + Clone,
    P2: Processor<O2, O1> + Clone,
    P3: Processor<I2, O2> + Clone,
> Clone for AdapterWrappedProcessor<I1, O1, I2, O2, P1, P2, P3> {
    fn clone(&self) -> (r: Self)
        ensures
            strictly_cloned(self.inner(), r.inner()),
    {
        Self { adapter: self.adapter.clone(), processor: self.processor.clone() }
    }
}

impl<
    I1,
    O1,
    I2,
    O2,
    P1: Processor<I1, I2>,
    P2: Processor<O2, O1>,
    P3: Processor<I2, O2>,
> Processor<I1, O1> for AdapterWrappedProcessor<I1, O1, I2, O2, P1, P2, P3> {
    open spec fn spec_process(&self, input: I1) -> O1 {
        self.adapter().spec_wrap_process(self.inner(), input)
    }

    fn process(&self, input: I1) -> (output: O1) {
        self.adapter.wrap_process(&self.processor, input)
    }
}

/// ## LayerWrappedProcessor
///
/// A processor that is wrapped with a layer.
#[derive(Debug)]
pub struct LayerWrappedProcessor<I, O, P: Processor<I, O>, L: Layer<I, O, P>> {
    layer: L,
    processor: P,
    _input_phantom: PhantomData<I>,
    _output_phantom: PhantomData<O>,
}

impl<I, O, P: Processor<I, O>, L: Layer<I, O, P>> LayerWrappedProcessor<I, O, P, L> {
    /// The layer around the inner processor.
    pub closed spec fn layer(&self) -> L {
        self.layer
    }

    /// The inner processor.
    pub closed spec fn inner(&self) -> P {
        self.processor
    }

    /// Create a new layer wrapped processor.
    pub fn new(layer: L, processor: P) -> (r: Self)
        ensures
            r.layer() == layer,
            r.inner() == processor,
    {
        Self { layer, processor, _input_phantom: PhantomData, _output_phantom: PhantomData }
    }
}

impl<I, O, P: Processor<I, O>, L: Layer<I, O, P>> Processor<I, O> for LayerWrappedProcessor<
    I,
    O,
    P,
    L,
> {
    open spec fn spec_process(&self, input: I) -> O {
        self.layer().spec_wrap(self.inner(), input)
    }

    fn process(&self, input: I) -> (output: O) {
        self.layer.wrap(&self.processor, input)
    }
}

impl<I, O, P: Processor<I, O> + Clone, L: Layer<I, O, P> + Clone> Clone for LayerWrappedProcessor<
    I,
    O,
    P,
    L,
> {
    fn clone(&self) -> (r: Self)
        ensures
            strictly_cloned(self.layer(), r.layer()),
            strictly_cloned(self.inner(), r.inner()),
    {
        Self {
            layer: self.layer.clone(),
            processor: self.processor.clone(),
            _input_phantom: PhantomData,
            _output_phantom: PhantomData,
        }
    }
}

/// Every input is accepted by `f`, and `f` gives one output for each input.
pub open spec fn is_pure_function<A, B, F: Fn(A) -> B>(f: F) -> bool {
    &&& forall|a: A| #[trigger] f.requires((a,))
    &&& forall|a: A, b1: B, b2: B| #[trigger] f.ensures((a,), b1) && #[trigger] f.ensures((a,), b2) ==> b1
        == b2
}

/// The output of the pure function `f` on `a`.
pub open spec fn pure_output<A, B, F: Fn(A) -> B>(f: F, a: A) -> B {
    choose|b: B| f.ensures((a,), b)
}

/// Whenever `f` yields `b` on `a`, `b` is the output that the pure function names.
pub proof fn lemma_pure_output<A, B, F: Fn(A) -> B>(f: F, a: A, b: B)
    requires
        is_pure_function(f),
        f.ensures((a,), b),
    ensures
        pure_output(f, a) == b,
{
}

/// ## PureAdapter
///
/// An adapter without state: it converts with two pure functions.
#[verifier::reject_recursive_types(I1)]
#[verifier::reject_recursive_types(O1)]
#[verifier::reject_recursive_types(I2)]
#[verifier::reject_recursive_types(O2)]
pub struct PureAdapter<I1, O1, I2, O2, F1: Fn(I1) -> I2, F2: Fn(O2) -> O1> {
    in_function: F1,
    out_function: F2,
    _in_phantom: PhantomData<(I1, I2)>,
    _out_phantom: PhantomData<(O2, O1)>,
}

impl<I1, O1, I2, O2, F1: Fn(I1) -> I2, F2: Fn(O2) -> O1> PureAdapter<I1, O1, I2, O2, F1, F2> {
    #[verifier::type_invariant]
    spec fn inv(&self) -> bool {
        is_pure_function(self.in_function) && is_pure_function(self.out_function)
    }

    /// The function applied to inputs.
    pub closed spec fn in_function(&self) -> F1 {
        self.in_function
    }

    /// The function applied to outputs.
    pub closed spec fn out_function(&self) -> F2 {
        self.out_function
    }

    /// Create a new pure adapter.
    pub fn new(in_function: F1, out_function: F2) -> (r: Self)
        requires
            is_pure_function(in_function),
            is_pure_function(out_function),
        ensures
            r.in_function() == in_function,
            r.out_function() == out_function,
    {
        Self { in_function, out_function, _in_phantom: PhantomData, _out_phantom: PhantomData }
    }

    /// Convert an input.
    fn convert_in(&self, input: I1) -> (r: I2)
        ensures
            r == pure_output(self.in_function(), input),
    {
        proof {
            use_type_invariant(self);
        }
        let r = (self.in_function)(input);
        assert(self.in_function.ensures((input,), pure_output(self.in_function, input)));
        r
    }

    /// Convert an output.
    fn convert_out(&self, output: O2) -> (r: O1)
        ensures
            r == pure_output(self.out_function(), output),
    {
        proof {
            use_type_invariant(self);
        }
        let r = (self.out_function)(output);
        assert(self.out_function.ensures((output,), pure_output(self.out_function, output)));
        r
    }
}

impl<
    I1,
    O1,
    I2,
    O2,
    F1: Fn(I1) -> I2 + Copy,
    F2: Fn(O2) -> O1 + Copy,
> Clone for PureAdapter<I1, O1, I2, O2, F1, F2> {
    fn clone(&self) -> (r: Self)
        ensures
            r.in_function() == self.in_function(),
            r.out_function() == self.out_function(),
    {
        proof {
            use_type_invariant(self);
        }
        Self {
            in_function: self.in_function,
            out_function: self.out_function,
            _in_phantom: PhantomData,
            _out_phantom: PhantomData,
        }
    }
}

/// ## PureAdapterWrappedProcessor
///
/// A processor that is wrapped with a pure adapter.
#[verifier::reject_recursive_types(I1)]
#[verifier::reject_recursive_types(O1)]
#[verifier::reject_recursive_types(I2)]
#[verifier::reject_recursive_types(O2)]
pub struct PureAdapterWrappedProcessor<
    I1,
    O1,
    I2,
    O2,
    F1: Fn(I1) -> I2,
    F2: Fn(O2) -> O1,
    P: Processor<I2, O2>,
> {
    adapter: PureAdapter<I1, O1, I2, O2, F1, F2>,
    processor: P,
}

impl<
    I1,
    O1,
    I2,
    O2,
    F1: Fn(I1) -> I2,
    F2: Fn(O2) -> O1,
    P: Processor<I2, O2>,
> PureAdapterWrappedProcessor<I1, O1, I2, O2, F1, F2, P> {
    /// The adapter around the inner processor.
    pub closed spec fn adapter(&self) -> PureAdapter<I1, O1, I2, O2, F1, F2> {
        self.adapter
    }

    /// The inner processor.
    pub closed spec fn inner(&self) -> P {
        self.processor
    }

    /// Create a new pure adapter wrapped processor.
    pub fn new(adapter: PureAdapter<I1, O1, I2, O2, F1, F2>, processor: P) -> (r: Self)
        ensures
            r.adapter() == adapter,
            r.inner() == processor,
    {
        Self { adapter, processor }
    }
}

impl<
    I1,
    O1,
    I2,
    O2,
    F1: Fn(I1) -> I2 + Copy,
    F2: Fn(O2) -> O1 + Copy,
    P: Processor<I2, O2> + Clone,
> Clone for PureAdapterWrappedProcessor<I1, O1, I2, O2, F1, F2, P> {
    fn clone(&self) -> (r: Self)
        ensures
            r.adapter() == self.adapter(),
            strictly_cloned(self.inner(), r.inner()),
    {
        Self { adapter: self.adapter.clone(), processor: self.processor.clone() }
    }
}

impl<
    I1,
    O1,
    I2,
    O2,
    F1: Fn(I1) -> I2,
    F2: Fn(O2) -> O1,
    P: Processor<I2, O2>,
> Processor<I1, O1> for PureAdapterWrappedProcessor<I1, O1, I2, O2, F1, F2, P> {
    open spec fn spec_process(&self, input: I1) -> O1 {
        pure_output(
            self.adapter().out_function(),
            self.inner().spec_process(pure_output(self.adapter().in_function(), input)),
        )
    }

    fn process(&self, input: I1) -> (output: O1) {
        let input = self.adapter.convert_in(input);
        let output = self.processor.process(input);
        self.adapter.convert_out(output)
    }
}

/// An adapter whose two converters hand every value back unchanged makes the
/// wrapped processor behave exactly as the inner processor.
pub proof fn lemma_adapter_transparent<
    I,
    O,
    P1: Processor<I, I>,
    P2: Processor<O, O>,
    P3: Processor<I, O>,
>(wrapped: AdapterWrappedProcessor<I, O, I, O, P1, P2, P3>, input: I)
    requires
        forall|x: I| #[trigger] wrapped.adapter().in_converter().spec_process(x) == x,
        forall|y: O| #[trigger] wrapped.adapter().out_converter().spec_process(y) == y,
    ensures
        wrapped.spec_process(input) == wrapped.inner().spec_process(input),
{
}

} // verus!
