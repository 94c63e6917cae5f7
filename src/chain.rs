use vstd::prelude::*;
use crate::handle::{Handle, Step};

verus! {

/// One traversal of `hs` from context `cx`: the handlers left in the chain,
/// the final context and the output.
///
/// The chain is a stack: the last handler of `hs` is entered first. If it
/// stops, the handlers below it stay in the chain. If it delegates, the rest
/// of the chain is traversed and the handler is left with that output. An
/// empty chain returns `done` and leaves the context as it is.
pub open spec fn run<C, H: Handle<C>>(hs: Seq<H>, cx: C, done: H::Output) -> (Seq<H>, C, H::Output)
    decreases hs.len(),
{
    if hs.len() == 0 {
        (hs, cx, done)
    } else {
        let h = hs.last();
        let entered = h.enter_spec(cx);
        match entered.1 {
            Step::Done(o) => (hs.drop_last(), entered.0, o),
            Step::Next => {
                let inner = run(hs.drop_last(), entered.0, done);
                let left = h.leave_spec(inner.1, inner.2);
                (inner.0, left.0, left.1)
            },
        }
    }
}

/// The handlers still to run, consumed from the back.
pub struct Chain<H> {
    handlers: Vec<H>,
}

impl<H> View for Chain<H> {
    type V = Seq<H>;

    closed spec fn view(&self) -> Seq<H> {
        self.handlers@
    }
}

impl<H> Chain<H> {
    /// A chain holding `handlers`; the last one runs first.
    pub fn new(handlers: Vec<H>) -> (r: Self)
        ensures
            r@ == handlers@,
    {
        Chain { handlers }
    }

    /// Replaces whatever is left in the chain by `handlers`, for a new pass.
    pub fn load(&mut self, handlers: Vec<H>)
        ensures
            final(self)@ == handlers@,
    {
        self.handlers = handlers;
    }

    /// Number of handlers still to run.
    pub fn len(&self) -> (r: usize)
        ensures
            r == self@.len(),
    {
        self.handlers.len()
    }

    /// Whether no handler is left.
    pub fn is_empty(&self) -> (r: bool)
        ensures
            r == (self@.len() == 0),
    {
        self.handlers.len() == 0
    }

    /// Calls the next handler: takes it from the back of the chain, enters it,
    /// and if it delegates, runs the rest of the chain and leaves it with that
    /// output. On an empty chain returns `done` and changes nothing.
    pub fn do_next<C>(&mut self, cx: &mut C, done: H::Output) -> (r: H::Output)
        where
            H: Handle<C>,
        ensures
            (final(self)@, *final(cx), r) == run(old(self)@, *old(cx), done),
        decreases old(self)@.len(),
    {
        match self.handlers.pop() {
            None => done,
            Some(h) => {
                match h.enter(cx) {
                    Step::Done(o) => o,
                    Step::Next => {
                        let inner = self.do_next(cx, done);
                        h.leave(cx, inner)
                    },
                }
            },
        }
    }
}

} // verus!
