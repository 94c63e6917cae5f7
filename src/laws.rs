use vstd::prelude::*;
use crate::adapt::FnHandler;
use crate::chain::run;
use crate::handle::{Handle, Step};

verus! {

/// The context after entering each handler of `outer`, from the back, when
/// every one of them delegates.
pub open spec fn enter_all<C, H: Handle<C>>(outer: Seq<H>, cx: C) -> C
    decreases outer.len(),
{
    if outer.len() == 0 {
        cx
    } else {
        enter_all(outer.drop_last(), outer.last().enter_spec(cx).0)
    }
}

/// The context and output after leaving each handler of `outer`, from the
/// front, starting from output `o`.
pub open spec fn leave_all<C, H: Handle<C>>(outer: Seq<H>, cx: C, o: H::Output) -> (C, H::Output)
    decreases outer.len(),
{
    if outer.len() == 0 {
        (cx, o)
    } else {
        let inner = leave_all(outer.drop_last(), cx, o);
        outer.last().leave_spec(inner.0, inner.1)
    }
}

/// Whether every handler of `hs` delegates, whatever the context.
pub open spec fn all_delegate<C, H: Handle<C>>(hs: Seq<H>) -> bool {
    forall|i: int, c: C| 0 <= i < hs.len() ==> (#[trigger] hs[i].enter_spec(c)).1 is Next
}

/// Whether every handler of `hs` passes the output of the rest of the chain
/// on unchanged, whatever the context.
pub open spec fn all_pass_on<C, H: Handle<C>>(hs: Seq<H>) -> bool {
    forall|i: int, c: C, o: H::Output| 0 <= i < hs.len() ==> (#[trigger] hs[i].leave_spec(c, o)).1 == o
}

/// A plain callable behaves the same called directly or through the
/// handler that adapts it: entering gives exactly the callable's context and
/// decision, and leaving changes neither the context nor the output.
pub proof fn lemma_adaptation_identity<C, O, F: Fn(&C) -> (C, Step<O>)>(
    h: FnHandler<C, O, F>,
    cx: C,
    out: (C, Step<O>),
    later: C,
    inner: O,
)
    requires
        h.adaptable(),
        call_ensures(h.callable(), (&cx,), out),
    ensures
        h.enter_spec(cx) == out,
        h.leave_spec(later, inner) == (later, inner),
{
    h.lemma_enter_is_call(cx, out);
}

/// Calling the next handler of an empty chain returns the given result and
/// leaves the context and the chain as they were.
pub proof fn lemma_exhausted_chain<C, H: Handle<C>>(cx: C, done: H::Output)
    ensures
        run(Seq::<H>::empty(), cx, done) == (Seq::<H>::empty(), cx, done),
{
}

/// Handlers loaded later wrap those loaded earlier: when every handler of
/// `outer` delegates, they are entered from the back, then `inner` is
/// traversed, then they are left from the front.
pub proof fn lemma_outer_wraps_inner<C, H: Handle<C>>(
    inner: Seq<H>,
    outer: Seq<H>,
    cx: C,
    done: H::Output,
)
    requires
        all_delegate(outer),
    ensures
        ({
            let r = run(inner, enter_all(outer, cx), done);
            let left = leave_all(outer, r.1, r.2);
            run(inner + outer, cx, done) == (r.0, left.0, left.1)
        }),
    decreases outer.len(),
{
    if outer.len() > 0 {
        let rest = outer.drop_last();
        let h = outer.last();
        assert((inner + outer).drop_last() =~= inner + rest);
        assert((inner + outer).last() == h);
        assert(h.enter_spec(cx).1 is Next) by {
            assert(outer[outer.len() - 1].enter_spec(cx).1 is Next);
        }
        assert(all_delegate(rest)) by {
            assert forall|i: int, c: C| 0 <= i < rest.len() implies (#[trigger] rest[i].enter_spec(c)).1 is Next by {
                assert(rest[i] == outer[i]);
            }
        }
        lemma_outer_wraps_inner(inner, rest, h.enter_spec(cx).0, done);
    } else {
        assert(inner + outer =~= inner);
    }
}

/// Leaving handlers that pass the output on keeps the output.
proof fn lemma_leave_all_passes_on<C, H: Handle<C>>(outer: Seq<H>, cx: C, o: H::Output)
    requires
        all_pass_on(outer),
    ensures
        leave_all(outer, cx, o).1 == o,
    decreases outer.len(),
{
    if outer.len() > 0 {
        let rest = outer.drop_last();
        assert(all_pass_on(rest)) by {
            assert forall|i: int, c: C, p: H::Output| 0 <= i < rest.len() implies (#[trigger] rest[i].leave_spec(c, p)).1 == p by {
                assert(rest[i] == outer[i]);
            }
        }
        lemma_leave_all_passes_on(rest, cx, o);
        let inner = leave_all(rest, cx, o);
        assert(outer[outer.len() - 1].leave_spec(inner.0, inner.1).1 == inner.1);
    }
}

/// When the handlers of `outer` delegate and pass the output on unchanged,
/// the traversal's output is the output of `inner`, traversed from the
/// context that entering `outer` left.
pub proof fn lemma_delegation_transparency<C, H: Handle<C>>(
    inner: Seq<H>,
    outer: Seq<H>,
    cx: C,
    done: H::Output,
)
    requires
        all_delegate(outer),
        all_pass_on(outer),
    ensures
        run(inner + outer, cx, done).2 == run(inner, enter_all(outer, cx), done).2,
{
    lemma_outer_wraps_inner(inner, outer, cx, done);
    let r = run(inner, enter_all(outer, cx), done);
    lemma_leave_all_passes_on(outer, r.1, r.2);
}

/// A traversal is a function of the handlers loaded and the starting context
/// alone: passes over the same handlers from equal contexts visit them in the
/// same order and give the same chain, context and output.
pub proof fn lemma_passes_agree<C, H: Handle<C>>(
    hs1: Seq<H>,
    hs2: Seq<H>,
    cx1: C,
    cx2: C,
    done1: H::Output,
    done2: H::Output,
)
    requires
        hs1 == hs2,
        cx1 == cx2,
        done1 == done2,
    ensures
        run(hs1, cx1, done1) == run(hs2, cx2, done2),
{
}

} // verus!
