use vstd::prelude::*;
use crate::processor::Processor;
use vstd::pervasive::strictly_cloned;
use vstd::std_specs::convert::IntoSpec;

verus! {

/// ## EarlyReturn
///
/// Shows whether a value handed on by a stage should go on to the next stage
/// (`Expr`) or end the whole pipeline and go back to the caller (`Return`).
pub enum EarlyReturn<Return, Expr = ()> {
    /// Treat the value as an expression.
    Expr(Expr),
    /// Treat the value as a return value.
    Return(Return),
}

impl<R, E> EarlyReturn<R, E> {
    /// Functor map over the `Expr` payload.
    pub open spec fn fmap<E2>(self, f: spec_fn(E) -> E2) -> EarlyReturn<R, E2> {
        match self {
            EarlyReturn::Expr(e) => EarlyReturn::Expr(f(e)),
            EarlyReturn::Return(r) => EarlyReturn::Return(r),
        }
    }

    /// Functor map over the `Return` payload.
    pub open spec fn fmap_return<R2>(self, f: spec_fn(R) -> R2) -> EarlyReturn<R2, E> {
        match self {
            EarlyReturn::Expr(e) => EarlyReturn::Expr(e),
            EarlyReturn::Return(r) => EarlyReturn::Return(f(r)),
        }
    }

    /// Monadic bind: a halted value stays halted, otherwise the continuation decides.
    pub open spec fn bind<E2>(self, f: spec_fn(E) -> EarlyReturn<R, E2>) -> EarlyReturn<R, E2> {
        match self {
            EarlyReturn::Expr(e) => f(e),
            EarlyReturn::Return(r) => EarlyReturn::Return(r),
        }
    }

    /// The same value with the two variants exchanged.
    pub open spec fn swapped(self) -> EarlyReturn<E, R> {
        match self {
            EarlyReturn::Expr(e) => EarlyReturn::Return(e),
            EarlyReturn::Return(r) => EarlyReturn::Expr(r),
        }
    }

    /// Create an [EarlyReturn::Expr]
    pub fn expr(e: E) -> (r: Self)
        ensures
            r == EarlyReturn::<R, E>::Expr(e),
    {
        EarlyReturn::Expr(e)
    }

    /// Create an [EarlyReturn::Return]
    pub fn ret(r: R) -> (res: Self)
        ensures
            res == EarlyReturn::<R, E>::Return(r),
    {
        EarlyReturn::Return(r)
    }

    /// Swap the return and expression value.
    pub fn swap(self) -> (r: EarlyReturn<E, R>)
        ensures
            r == self.swapped(),
    {
        match self {
            EarlyReturn::Expr(e) => EarlyReturn::Return(e),
            EarlyReturn::Return(r) => EarlyReturn::Expr(r),
        }
    }

    /// Get the second value if the first value is [EarlyReturn::Expr], otherwise return the first value.
    pub fn or_return<Expr2>(self, res: EarlyReturn<R, Expr2>) -> (r: EarlyReturn<R, Expr2>)
        ensures
            r == (match self {
                EarlyReturn::Expr(_) => res,
                EarlyReturn::Return(v) => EarlyReturn::Return(v),
            }),
    {
        match self {
            EarlyReturn::Expr(_) => res,
            EarlyReturn::Return(r) => EarlyReturn::Return(r),
        }
    }

    /// Get the second value if the first value is [EarlyReturn::Return], otherwise return the first value.
    pub fn or_expr<Return2>(self, res: EarlyReturn<Return2, E>) -> (r: EarlyReturn<Return2, E>)
        ensures
            r == (match self {
                EarlyReturn::Expr(e) => EarlyReturn::Expr(e),
                EarlyReturn::Return(_) => res,
            }),
    {
        match self {
            EarlyReturn::Expr(e) => EarlyReturn::Expr(e),
            EarlyReturn::Return(_) => res,
        }
    }

    /// Map the expression value.
    pub fn map<F: FnOnce(E) -> E2, E2>(self, f: F) -> (r: EarlyReturn<R, E2>)
        requires
            self is Expr ==> f.requires((self->Expr_0,)),
        ensures
            self is Expr ==> r is Expr && f.ensures((self->Expr_0,), r->Expr_0),
            self is Return ==> r == EarlyReturn::<R, E2>::Return(self->Return_0),
    {
        match self {
            EarlyReturn::Expr(e) => EarlyReturn::Expr(f(e)),
            EarlyReturn::Return(r) => EarlyReturn::Return(r),
        }
    }

    /// Map the expression value with a processor.
    pub fn process_map<P: Processor<E, E2>, E2>(self, processor: &P) -> (r: EarlyReturn<R, E2>)
        ensures
            r == self.fmap(|e: E| processor.spec_process(e)),
    {
        match self {
            EarlyReturn::Expr(e) => EarlyReturn::Expr(processor.process(e)),
            EarlyReturn::Return(r) => EarlyReturn::Return(r),
        }
    }

    /// Map the return value.
    pub fn map_return<F: FnOnce(R) -> R2, R2>(self, f: F) -> (r: EarlyReturn<R2, E>)
        requires
            self is Return ==> f.requires((self->Return_0,)),
        ensures
            self is Return ==> r is Return && f.ensures((self->Return_0,), r->Return_0),
            self is Expr ==> r == EarlyReturn::<R2, E>::Expr(self->Expr_0),
    {
        match self {
            EarlyReturn::Expr(e) => EarlyReturn::Expr(e),
            EarlyReturn::Return(r) => EarlyReturn::Return(f(r)),
        }
    }

    /// Bind function of the monad.
    pub fn flat_map<F: FnOnce(E) -> EarlyReturn<R, E2>, E2>(self, f: F) -> (r: EarlyReturn<R, E2>)
        requires
            self is Expr ==> f.requires((self->Expr_0,)),
        ensures
            self is Expr ==> f.ensures((self->Expr_0,), r),
            self is Return ==> r == EarlyReturn::<R, E2>::Return(self->Return_0),
    {
        match self {
            EarlyReturn::Expr(e) => f(e),
            EarlyReturn::Return(r) => EarlyReturn::Return(r),
        }
    }

    /// Bind function of the monad with a processor.
    pub fn process_flat_map<P: Processor<E, EarlyReturn<R, E2>>, E2>(self, processor: &P) -> (r:
        EarlyReturn<R, E2>)
        ensures
            r == self.bind(|e: E| processor.spec_process(e)),
    {
        match self {
            EarlyReturn::Expr(e) => processor.process(e),
            EarlyReturn::Return(r) => EarlyReturn::Return(r),
        }
    }
}

impl<R, E> EarlyReturn<R, EarlyReturn<R, E>> {
    /// One level of nesting removed.
    pub open spec fn flattened(self) -> EarlyReturn<R, E> {
        match self {
            EarlyReturn::Expr(EarlyReturn::Expr(e)) => EarlyReturn::Expr(e),
            EarlyReturn::Expr(EarlyReturn::Return(r)) => EarlyReturn::Return(r),
            EarlyReturn::Return(r) => EarlyReturn::Return(r),
        }
    }

    /// Flatten the early return.
    pub fn flatten(self) -> (r: EarlyReturn<R, E>)
        ensures
            r == self.flattened(),
    {
        match self {
            EarlyReturn::Expr(EarlyReturn::Expr(e)) => EarlyReturn::Expr(e),
            EarlyReturn::Expr(EarlyReturn::Return(r)) => EarlyReturn::Return(r),
            EarlyReturn::Return(r) => EarlyReturn::Return(r),
        }
    }
}

impl<'a, R, E> EarlyReturn<R, &'a E> {
    /// Copy the expression value.
    pub fn copied_expr(self) -> (r: EarlyReturn<R, E>)
        where
            E: Copy,
        ensures
            r == self.fmap(|e: &'a E| *e),
    {
        match self {
            EarlyReturn::Expr(e) => EarlyReturn::Expr(*e),
            EarlyReturn::Return(r) => EarlyReturn::Return(r),
        }
    }

    /// Clone the expression value.
    pub fn cloned_expr(self) -> (r: EarlyReturn<R, E>)
        where
            E: Clone,
        ensures
            self is Expr ==> r is Expr && strictly_cloned(*self->Expr_0, r->Expr_0),
            self is Return ==> r == EarlyReturn::<R, E>::Return(self->Return_0),
    {
        match self {
            EarlyReturn::Expr(e) => EarlyReturn::Expr(e.clone()),
            EarlyReturn::Return(r) => EarlyReturn::Return(r),
        }
    }

    /// Convert the expression value to an owned value.
    pub fn owned_expr<Owned>(self) -> (r: EarlyReturn<R, Owned>)
        where
            E: ToOwned<Owned = Owned>,
        ensures
            self is Expr <==> r is Expr,
            self is Return ==> r == EarlyReturn::<R, Owned>::Return(self->Return_0),
    {
        match self {
            EarlyReturn::Expr(e) => EarlyReturn::Expr(owned_copy(e)),
            EarlyReturn::Return(r) => EarlyReturn::Return(r),
        }
    }
}

/// Relies on `ToOwned::to_owned`, which vstd leaves unspecified: it makes an
/// owned value from a borrowed one. Nothing is promised of that value.
#[verifier::external_body]
fn owned_copy<B: ?Sized + ToOwned>(b: &B) -> B::Owned {
    b.to_owned()
}

/// The outcome of a fallible step folded into the monad: a success goes on as
/// an expression, a failure halts with the converted error.
pub open spec fn fallible_step<Succ, Error, Expr2, Error2: Into<Error>>(
    out: Result<Expr2, Error2>,
) -> EarlyReturn<Result<Succ, Error>, Expr2> {
    match out {
        Ok(v) => EarlyReturn::Expr(v),
        Err(e) => EarlyReturn::Return(Err(e.into_spec())),
    }
}

impl<Succ, Error, Expr> EarlyReturn<Result<Succ, Error>, Expr> {
    /// Map the expression value with a fallible function. Return the error if the function returns an error.
    ///
    /// The error is converted by `Into`; where that conversion has a
    /// specification, the halted value is `Err` of the converted error.
    pub fn try_map<F: FnOnce(Expr) -> Result<Expr2, Error2>, Expr2, Error2: Into<Error>>(self, f: F) -> (r:
        EarlyReturn<Result<Succ, Error>, Expr2>)
        requires
            self is Expr ==> f.requires((self->Expr_0,)),
        ensures
            self is Expr ==> exists|out: Result<Expr2, Error2>|
                #[trigger] f.ensures((self->Expr_0,), out) && match out {
                    Ok(v) => r == EarlyReturn::<Result<Succ, Error>, Expr2>::Expr(v),
                    Err(e) => r is Return && r->Return_0 is Err && (Error2::obeys_into_spec()
                        ==> r == fallible_step::<Succ, Error, Expr2, Error2>(out)),
                },
            self is Return ==> r == EarlyReturn::<Result<Succ, Error>, Expr2>::Return(self->Return_0),
    {
        match self {
            EarlyReturn::Expr(e) => {
                let out = f(e);
                match out {
                    Ok(v) => EarlyReturn::Expr(v),
                    Err(err) => EarlyReturn::Return(Err(err.into())),
                }
            },
            EarlyReturn::Return(r) => EarlyReturn::Return(r),
        }
    }

    /// Map the expression value with a fallible processor. Return the error if the processor returns an error.
    pub fn try_process_map<P: Processor<Expr, Result<Expr2, Error2>>, Expr2, Error2: Into<Error>>(
        self,
        processor: &P,
    ) -> (r: EarlyReturn<Result<Succ, Error>, Expr2>)
        ensures
            self is Expr ==> match processor.spec_process(self->Expr_0) {
                Ok(v) => r == EarlyReturn::<Result<Succ, Error>, Expr2>::Expr(v),
                Err(e) => r is Return && r->Return_0 is Err && (Error2::obeys_into_spec() ==> r
                    == fallible_step::<Succ, Error, Expr2, Error2>(processor.spec_process(self->Expr_0))),
            },
            self is Return ==> r == EarlyReturn::<Result<Succ, Error>, Expr2>::Return(self->Return_0),
    {
        match self {
            EarlyReturn::Expr(e) => match processor.process(e) {
                Ok(v) => EarlyReturn::Expr(v),
                Err(err) => EarlyReturn::Return(Err(err.into())),
            },
            EarlyReturn::Return(r) => EarlyReturn::Return(r),
        }
    }
}

/// ## Continuation Passing Style (CPS)
///
/// Runs `processor` on `input` and hands its output to `next`, whose result
/// is returned. There is no short circuit.
pub fn cps_pure<I, O, P: Processor<I, O>, Next, N: FnOnce(O) -> Next>(
    processor: &P,
    input: I,
    next: N,
) -> (r: Next)
    requires
        next.requires((processor.spec_process(input),)),
    ensures
        next.ensures((processor.spec_process(input),), r),
{
    next(processor.process(input))
}

/// The result of chaining `first` and `rest` on `input`: `rest` sees the
/// expression that `first` hands on, and a halt of `first` is the result.
pub open spec fn chained<I, O, Return, Final, P1, P2>(first: P1, rest: P2, input: I) -> EarlyReturn<
    Return,
    Final,
> where P1: Processor<I, EarlyReturn<Return, O>>, P2: Processor<O, EarlyReturn<Return, Final>> {
    first.spec_process(input).bind(|o: O| rest.spec_process(o))
}

/// ## Continuation Passing Style (CPS)
///
/// Runs `first` on `input`. If it halts, the halt is the result and `rest`
/// is never run; otherwise the expression goes to `rest`, whose result is
/// returned.
pub fn cps<
    I,
    O,
    Return,
    P1: Processor<I, EarlyReturn<Return, O>>,
    Final,
    P2: Processor<O, EarlyReturn<Return, Final>>,
>(first: &P1, rest: &P2, input: I) -> (r: EarlyReturn<Return, Final>)
    ensures
        r == chained::<I, O, Return, Final, P1, P2>(*first, *rest, input),
{
    let step = first.process(input);
    match step {
        EarlyReturn::Return(v) => EarlyReturn::Return(v),
        EarlyReturn::Expr(o) => rest.process(o),
    }
}

/// Binding an expression runs the continuation on it: `Expr(e).bind(f) == f(e)`.
pub proof fn lemma_bind_left_identity<R, E, E2>(e: E, f: spec_fn(E) -> EarlyReturn<R, E2>)
    ensures
        EarlyReturn::<R, E>::Expr(e).bind(f) == f(e),
{
}

/// A halted value is never handed to the continuation:
/// `Return(r).bind(f) == Return(r)` for every `f`.
pub proof fn lemma_bind_short_circuit<R, E, E2>(r: R, f: spec_fn(E) -> EarlyReturn<R, E2>)
    ensures
        EarlyReturn::<R, E>::Return(r).bind(f) == EarlyReturn::<R, E2>::Return(r),
{
}

/// Binding with `Expr` changes nothing.
pub proof fn lemma_bind_right_identity<R, E>(x: EarlyReturn<R, E>)
    ensures
        x.bind(|e: E| EarlyReturn::<R, E>::Expr(e)) == x,
{
}

/// Bind is associative: binding `f` then `g` equals binding the composite
/// continuation `e -> f(e).bind(g)`.
pub proof fn lemma_bind_associative<R, E, E2, E3>(
    x: EarlyReturn<R, E>,
    f: spec_fn(E) -> EarlyReturn<R, E2>,
    g: spec_fn(E2) -> EarlyReturn<R, E3>,
)
    ensures
        x.bind(f).bind(g) == x.bind(|e: E| f(e).bind(g)),
{
}

/// `flat_map` with a continuation that computes `g` yields `x.bind(g)`.
pub proof fn lemma_flat_map_is_bind<R, E, E2, F: FnOnce(E) -> EarlyReturn<R, E2>>(
    x: EarlyReturn<R, E>,
    f: F,
    g: spec_fn(E) -> EarlyReturn<R, E2>,
    r: EarlyReturn<R, E2>,
)
    requires
        forall|e: E, o: EarlyReturn<R, E2>| #[trigger] f.ensures((e,), o) ==> o == g(e),
        x is Expr ==> f.ensures((x->Expr_0,), r),
        x is Return ==> r == EarlyReturn::<R, E2>::Return(x->Return_0),
    ensures
        r == x.bind(g),
{
}

/// Swapping twice gives back the original value.
pub proof fn lemma_swap_involutive<R, E>(x: EarlyReturn<R, E>)
    ensures
        x.swapped().swapped() == x,
{
}

/// Mapping the identity over either payload changes nothing.
pub proof fn lemma_fmap_identity<R, E>(x: EarlyReturn<R, E>)
    ensures
        x.fmap(|e: E| e) == x,
        x.fmap_return(|r: R| r) == x,
{
}

/// Mapping `f` then `g` equals mapping their composition, on either payload.
pub proof fn lemma_fmap_composition<R, E, E2, E3, R2, R3>(
    x: EarlyReturn<R, E>,
    f: spec_fn(E) -> E2,
    g: spec_fn(E2) -> E3,
    h: spec_fn(R) -> R2,
    k: spec_fn(R2) -> R3,
)
    ensures
        x.fmap(f).fmap(g) == x.fmap(|e: E| g(f(e))),
        x.fmap_return(h).fmap_return(k) == x.fmap_return(|r: R| k(h(r))),
{
}

/// Flattening is binding with the identity continuation.
pub proof fn lemma_flatten_is_bind<R, E>(x: EarlyReturn<R, EarlyReturn<R, E>>)
    ensures
        x.flattened() == x.bind(|inner: EarlyReturn<R, E>| inner),
{
}

/// When `first` halts with `Return(v)`, chaining yields `Return(v)` whatever
/// the second stage is: the second stage is never consulted.
pub proof fn lemma_chain_halts<I, O, Return, Final, P1, P2>(first: P1, rest: P2, other: P2, input: I)
    where
        P1: Processor<I, EarlyReturn<Return, O>>,
        P2: Processor<O, EarlyReturn<Return, Final>>,
    requires
        first.spec_process(input) is Return,
    ensures
        chained::<I, O, Return, Final, P1, P2>(first, rest, input) == EarlyReturn::<Return, Final>::Return(
            first.spec_process(input)->Return_0,
        ),
        chained::<I, O, Return, Final, P1, P2>(first, rest, input) == chained::<
            I,
            O,
            Return,
            Final,
            P1,
            P2,
        >(first, other, input),
{
}

} // verus!
