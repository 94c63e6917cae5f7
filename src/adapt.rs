use vstd::prelude::*;
use crate::handle::{Handle, Step};
use core::marker::PhantomData;

verus! {

/// A plain callable adapted as a handler.
///
/// The callable reads the context and gives back the new context with the
/// decision. When the rest of the chain has run, the handler passes its
/// output on unchanged and leaves the context as it is.
///
/// The callable must accept every context and give one result for each.
#[verifier::reject_recursive_types(C)]
#[verifier::reject_recursive_types(O)]
pub struct FnHandler<C, O, F: Fn(&C) -> (C, Step<O>)> {
    f: F,
    marker: PhantomData<(C, O)>,
}

impl<C, O, F: Fn(&C) -> (C, Step<O>)> FnHandler<C, O, F> {
    /// The callable accepts every context and gives one result for each.
    #[verifier::type_invariant]
    pub closed spec fn adaptable(self) -> bool {
        &&& forall|cx: C| call_requires(self.f, (&cx,))
        &&& forall|cx: C, a: (C, Step<O>), b: (C, Step<O>)|
            call_ensures(self.f, (&cx,), a) && call_ensures(self.f, (&cx,), b) ==> a == b
    }

    /// The callable, as a value of the adapter.
    pub closed spec fn callable(self) -> F {
        self.f
    }

    /// Entering gives the one result of the callable.
    pub proof fn lemma_enter_is_call(self, cx: C, out: (C, Step<O>))
        requires
            self.adaptable(),
            call_ensures(self.callable(), (&cx,), out),
        ensures
            self.enter_spec(cx) == out,
    {
    }

    /// Adapts `f`.
    pub fn new(f: F) -> (r: Self)
        requires
            forall|cx: C| call_requires(f, (&cx,)),
            forall|cx: C, a: (C, Step<O>), b: (C, Step<O>)|
                call_ensures(f, (&cx,), a) && call_ensures(f, (&cx,), b) ==> a == b,
        ensures
            r.callable() == f,
            r.adaptable(),
            forall|cx: C, out: (C, Step<O>)| #[trigger] call_ensures(f, (&cx,), out) ==> r.enter_spec(cx) == out,
    {
        FnHandler { f, marker: PhantomData }
    }
}

/// A copy adapts the same callable.
impl<C, O, F: Fn(&C) -> (C, Step<O>) + Copy> Clone for FnHandler<C, O, F> {
    fn clone(&self) -> (r: Self)
        ensures
            r.callable() == self.callable(),
    {
        proof {
            use_type_invariant(self);
        }
        FnHandler { f: self.f, marker: PhantomData }
    }
}

impl<C, O, F: Fn(&C) -> (C, Step<O>)> Handle<C> for FnHandler<C, O, F> {
    type Output = O;

    open spec fn enter_spec(&self, cx: C) -> (C, Step<O>) {
        choose|r: (C, Step<O>)| call_ensures(self.callable(), (&cx,), r)
    }

    open spec fn leave_spec(&self, cx: C, inner: O) -> (C, O) {
        (cx, inner)
    }

    fn enter(&self, cx: &mut C) -> (r: Step<O>) {
        proof {
            use_type_invariant(self);
        }
        let (next, r) = (self.f)(&*cx);
        *cx = next;
        r
    }

    fn leave(&self, cx: &mut C, inner: O) -> (r: O) {
        inner
    }
}

} // verus!
