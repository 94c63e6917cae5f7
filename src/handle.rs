use vstd::prelude::*;

verus! {

/// What a handler decides when it is entered.
#[derive(Clone, Debug, PartialEq, Eq)]
pub enum Step<O> {
    /// Hand the context to the rest of the chain and wait for its output.
    Next,
    /// Stop here: the rest of the chain does not run, and this is the output.
    Done(O),
}

/// The capability shared by every handler.
///
/// A handler is entered with exclusive access to the context and decides
/// whether the rest of the chain runs. If it delegates, it is left once the
/// rest of the chain has produced its output, and it may read and change the
/// context again and replace or pass on that output.
///
/// What a handler does is a function of the handler and the context alone:
/// `enter_spec` and `leave_spec` state it.
pub trait Handle<Context> {
    type Output;

    /// The context after entering, and the decision taken.
    ///
    /// The default fixes nothing, so that an implementation that does not
    /// state its own cannot prove `enter`.
    open spec fn enter_spec(&self, cx: Context) -> (Context, Step<Self::Output>) {
        arbitrary()
    }

    /// The context and output after leaving, given the output of the rest of
    /// the chain. The default fixes nothing, as for `enter_spec`.
    open spec fn leave_spec(&self, cx: Context, inner: Self::Output) -> (Context, Self::Output) {
        arbitrary()
    }

    fn enter(&self, cx: &mut Context) -> (r: Step<Self::Output>)
        ensures
            (*final(cx), r) == self.enter_spec(*old(cx)),
    ;

    fn leave(&self, cx: &mut Context, inner: Self::Output) -> (r: Self::Output)
        ensures
            (*final(cx), r) == self.leave_spec(*old(cx), inner),
    ;
}

/// A handler behind shared ownership behaves as the handler itself, so one
/// instance can be loaded into many chains and passes.
impl<Context, H: Handle<Context>> Handle<Context> for std::sync::Arc<H> {
    type Output = H::Output;

    open spec fn enter_spec(&self, cx: Context) -> (Context, Step<H::Output>) {
        (**self).enter_spec(cx)
    }

    open spec fn leave_spec(&self, cx: Context, inner: H::Output) -> (Context, H::Output) {
        (**self).leave_spec(cx, inner)
    }

    fn enter(&self, cx: &mut Context) -> (r: Step<H::Output>) {
        (**self).enter(cx)
    }

    fn leave(&self, cx: &mut Context, inner: H::Output) -> (r: H::Output) {
        (**self).leave(cx, inner)
    }
}

} // verus!
