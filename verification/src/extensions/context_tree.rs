//! The model of the context tree of one extension instance: which slot
//! holds which tracing context, and how each hook changes that.

use crate::extensions::ResolveId;
use opentelemetry::Context;
use vstd::prelude::*;

verus! {

/// The slot of the context that spans the whole request.
pub const REQUEST_CTX: u128 = 0;

/// The slot of the context that spans parsing.
pub const PARSE_CTX: u128 = 1;

/// The slot of the context that spans validation.
pub const VALIDATION_CTX: u128 = 2;

/// The slot of the context that spans execution.
pub const EXECUTE_CTX: u128 = 3;

/// The distance between a resolve id and its slot, which keeps the slots of
/// field resolutions clear of those of the phases.
pub const RESOLVE_CTX_OFFSET: u128 = 10;

/// The slot of the field resolution `resolver_id`.
pub open spec fn resolve_slot(resolver_id: usize) -> u128 {
    (resolver_id + RESOLVE_CTX_OFFSET) as u128
}

/// The slot under which the context of a field resolution is kept.
#[inline]
pub fn resolve_ctx_id(resolver_id: usize) -> (slot: u128)
    ensures
        slot == resolve_slot(resolver_id),
        slot == resolver_id + RESOLVE_CTX_OFFSET,
{
    resolver_id as u128 + RESOLVE_CTX_OFFSET
}

/// The slot in which a field resolution looks for its parent context: that
/// of the enclosing resolution where there is one and it is not zero, else
/// that of the execution phase.
pub open spec fn parent_slot(id: ResolveId) -> u128 {
    match id.parent {
        Some(parent_id) => if parent_id > 0 {
            resolve_slot(parent_id)
        } else {
            EXECUTE_CTX
        },
        None => EXECUTE_CTX,
    }
}

/// The slot in which a field resolution looks for its parent context.
pub fn parent_ctx_id(id: &ResolveId) -> (slot: u128)
    ensures
        slot == parent_slot(*id),
{
    match id.parent {
        Some(parent_id) => if parent_id > 0 {
            resolve_ctx_id(parent_id)
        } else {
            EXECUTE_CTX
        },
        None => EXECUTE_CTX,
    }
}

/// The context that `tree` holds at `slot`, if any.
pub open spec fn lookup(tree: Map<u128, Context>, slot: u128) -> Option<Context> {
    if tree.contains_key(slot) {
        Some(tree[slot])
    } else {
        None
    }
}

/// What a hook call means for the tree. An event that starts something
/// carries the context that it enters where it enters one.
pub enum Event {
    /// The request starts, under `request`.
    Start { request: Context },
    /// The request ends.
    End,
    /// Parsing starts; `span` is the context made for it.
    ParseStart { span: Context },
    /// Parsing ends.
    ParseEnd,
    /// Validation starts; `span` is the context made for it.
    ValidationStart { span: Context },
    /// Validation ends.
    ValidationEnd,
    /// Execution starts; `span` is the context made for it.
    ExecutionStart { span: Context },
    /// Execution ends.
    ExecutionEnd,
    /// The resolution `id` starts; `span` is the context made for it.
    ResolveStart { id: ResolveId, span: Context },
    /// The resolution `id` ends.
    ResolveEnd { id: ResolveId },
    /// The engine reports an error.
    Error,
}

/// The tree after a hook call. A phase that hangs below the request is
/// traced only while the request is; execution is always traced; a field is
/// traced only while its parent is.
pub open spec fn step(tree: Map<u128, Context>, event: Event) -> Map<u128, Context> {
    match event {
        Event::Start { request } => tree.insert(REQUEST_CTX, request),
        Event::End => tree.remove(REQUEST_CTX),
        Event::ParseStart { span } => if tree.contains_key(REQUEST_CTX) {
            tree.insert(PARSE_CTX, span)
        } else {
            tree
        },
        Event::ParseEnd => tree.remove(PARSE_CTX),
        Event::ValidationStart { span } => if tree.contains_key(REQUEST_CTX) {
            tree.insert(VALIDATION_CTX, span)
        } else {
            tree
        },
        Event::ValidationEnd => tree.remove(VALIDATION_CTX),
        Event::ExecutionStart { span } => tree.insert(EXECUTE_CTX, span),
        Event::ExecutionEnd => tree.remove(EXECUTE_CTX),
        Event::ResolveStart { id, span } => if tree.contains_key(parent_slot(id)) {
            tree.insert(resolve_slot(id.current), span)
        } else {
            tree
        },
        Event::ResolveEnd { id } => tree.remove(resolve_slot(id.current)),
        Event::Error => tree,
    }
}

/// The tree after a run of hook calls, the first event first.
pub open spec fn run(tree: Map<u128, Context>, events: Seq<Event>) -> Map<u128, Context>
    decreases events.len(),
{
    if events.len() == 0 {
        tree
    } else {
        step(run(tree, events.drop_last()), events.last())
    }
}

/// The slot that an event may enter or leave; an error touches none.
pub open spec fn touched_slot(event: Event) -> Option<u128> {
    match event {
        Event::Start { .. } | Event::End => Some(REQUEST_CTX),
        Event::ParseStart { .. } | Event::ParseEnd => Some(PARSE_CTX),
        Event::ValidationStart { .. } | Event::ValidationEnd => Some(VALIDATION_CTX),
        Event::ExecutionStart { .. } | Event::ExecutionEnd => Some(EXECUTE_CTX),
        Event::ResolveStart { id, .. } => Some(resolve_slot(id.current)),
        Event::ResolveEnd { id } => Some(resolve_slot(id.current)),
        Event::Error => None,
    }
}

/// Whether an event is the start or the end of the resolution `resolver_id`.
pub open spec fn resolves(event: Event, resolver_id: usize) -> bool {
    match event {
        Event::ResolveStart { id, .. } => id.current == resolver_id,
        Event::ResolveEnd { id } => id.current == resolver_id,
        _ => false,
    }
}

/// Whether an event is the start or the end of the execution phase.
pub open spec fn executes(event: Event) -> bool {
    event is ExecutionStart || event is ExecutionEnd
}

/// Two field resolutions never share a slot, and none uses the slot of a
/// phase.
pub proof fn resolve_slots_are_distinct(a: usize, b: usize)
    ensures
        resolve_slot(a) == resolve_slot(b) ==> a == b,
        resolve_slot(a) != REQUEST_CTX,
        resolve_slot(a) != PARSE_CTX,
        resolve_slot(a) != VALIDATION_CTX,
        resolve_slot(a) != EXECUTE_CTX,
{
}

/// The context that is entered at a slot is the one that leaves it, and
/// with it the slot is as if it had never been entered.
pub proof fn exit_returns_what_was_entered(tree: Map<u128, Context>, slot: u128, cx: Context)
    ensures
        lookup(tree.insert(slot, cx), slot) == Some(cx),
        tree.insert(slot, cx).remove(slot) == tree.remove(slot),
{
}

/// To leave a slot that holds nothing returns nothing and changes nothing,
/// be it that the slot was never entered or that it was left before.
pub proof fn exit_of_empty_slot_is_noop(tree: Map<u128, Context>, slot: u128)
    ensures
        !tree.contains_key(slot) ==> lookup(tree, slot) is None && tree.remove(slot) == tree,
        lookup(tree.remove(slot), slot) is None,
        tree.remove(slot).remove(slot) == tree.remove(slot),
{
}

/// An event changes nothing at a slot that it does not touch.
pub proof fn untouched_slot_keeps_its_context(tree: Map<u128, Context>, event: Event, slot: u128)
    requires
        touched_slot(event) != Some(slot),
    ensures
        lookup(step(tree, event), slot) == lookup(tree, slot),
{
}

/// However many events pass, a slot that none of them touches holds what it
/// held before.
pub proof fn untouched_slot_survives_run(tree: Map<u128, Context>, events: Seq<Event>, slot: u128)
    requires
        forall|i: int| 0 <= i < events.len() ==> touched_slot(#[trigger] events[i]) != Some(slot),
    ensures
        lookup(run(tree, events), slot) == lookup(tree, slot),
    decreases events.len(),
{
    if events.len() > 0 {
        let earlier = events.drop_last();
        untouched_slot_survives_run(tree, earlier, slot);
        untouched_slot_keeps_its_context(run(tree, earlier), events.last(), slot);
    }
}

/// A field whose parent context is missing is not traced: its start enters
/// nothing, and its end, where its id is fresh, then leaves the tree as it
/// was.
pub proof fn untraced_parent_leaves_child_untraced(
    tree: Map<u128, Context>,
    id: ResolveId,
    span: Context,
)
    requires
        !tree.contains_key(parent_slot(id)),
    ensures
        step(tree, Event::ResolveStart { id, span }) == tree,
        !tree.contains_key(resolve_slot(id.current)) ==> {
            let started = step(tree, Event::ResolveStart { id, span });
            &&& lookup(started, resolve_slot(id.current)) is None
            &&& step(started, Event::ResolveEnd { id }) == tree
        },
{
}

/// Whether each resolution of `ids` runs under the one before it.
pub open spec fn is_chain(ids: Seq<ResolveId>) -> bool {
    forall|i: int|
        0 < i < ids.len() ==> (#[trigger] ids[i]).parent == Some(ids[i - 1].current) && ids[i
            - 1].current > 0
}

/// The starts of the resolutions `ids`, in their order, each with the
/// context that the tracer would make for it.
pub open spec fn starts_of(ids: Seq<ResolveId>, spans: Seq<Context>) -> Seq<Event> {
    Seq::new(ids.len(), |i: int| Event::ResolveStart { id: ids[i], span: spans[i] })
}

/// Silence travels downward: below a field whose parent context is missing
/// nothing is traced, however deep the fields nest. The ids are fresh, as
/// those of a request are.
pub proof fn untraced_field_leaves_descendants_untraced(
    tree: Map<u128, Context>,
    ids: Seq<ResolveId>,
    spans: Seq<Context>,
)
    requires
        ids.len() > 0,
        ids.len() == spans.len(),
        is_chain(ids),
        !tree.contains_key(parent_slot(ids[0])),
        forall|i: int|
            0 <= i < ids.len() ==> !tree.contains_key(resolve_slot((#[trigger] ids[i]).current)),
    ensures
        run(tree, starts_of(ids, spans)) == tree,
    decreases ids.len(),
{
    let events = starts_of(ids, spans);
    if ids.len() == 1 {
        assert(run(tree, events.drop_last()) == tree);
    } else {
        let shorter = ids.drop_last();
        assert(is_chain(shorter));
        untraced_field_leaves_descendants_untraced(tree, shorter, spans.drop_last());
        assert(events.drop_last() =~= starts_of(shorter, spans.drop_last()));
    }
}

/// A traced field is the parent of its nested fields whatever happens to
/// other fields meanwhile: once the resolution `a` has entered `span`, and
/// as long as no event starts or ends `a` again, every field that names `a`
/// as its parent finds `span`, and so no context of a sibling of `a`.
pub proof fn nested_field_finds_its_own_parent(
    tree: Map<u128, Context>,
    a: ResolveId,
    span: Context,
    others: Seq<Event>,
    child: ResolveId,
)
    requires
        tree.contains_key(parent_slot(a)),
        a.current > 0,
        child.parent == Some(a.current),
        forall|i: int| 0 <= i < others.len() ==> !resolves(#[trigger] others[i], a.current),
    ensures
        lookup(
            run(step(tree, Event::ResolveStart { id: a, span }), others),
            parent_slot(child),
        ) == Some(span),
{
    let slot = resolve_slot(a.current);
    assert forall|i: int| 0 <= i < others.len() implies touched_slot(#[trigger] others[i])
        != Some(slot) by {
        assert(!resolves(others[i], a.current));
    }
    untouched_slot_survives_run(step(tree, Event::ResolveStart { id: a, span }), others, slot);
}

/// An error is recorded on the context of the execution phase, whatever
/// fields are being resolved: while no event starts or ends execution, that
/// context stays where errors look for it, and the error itself leaves the
/// tree as it is.
pub proof fn error_finds_execution_context(
    tree: Map<u128, Context>,
    span: Context,
    others: Seq<Event>,
)
    requires
        forall|i: int| 0 <= i < others.len() ==> !executes(#[trigger] others[i]),
    ensures
        lookup(run(step(tree, Event::ExecutionStart { span }), others), EXECUTE_CTX) == Some(span),
        step(run(step(tree, Event::ExecutionStart { span }), others), Event::Error) == run(
            step(tree, Event::ExecutionStart { span }),
            others,
        ),
{
    assert forall|i: int| 0 <= i < others.len() implies touched_slot(#[trigger] others[i])
        != Some(EXECUTE_CTX) by {
        assert(!executes(others[i]));
    }
    untouched_slot_survives_run(step(tree, Event::ExecutionStart { span }), others, EXECUTE_CTX);
}

/// One of two extension instances that observe the same request.
#[derive(Clone, Copy, PartialEq, Eq, Debug, Structural)]
pub enum Observer {
    /// The instance that was registered first.
    First,
    /// The instance that was registered second.
    Second,
}

/// The events among `calls` that go to `instance`, in their order.
pub open spec fn calls_to(calls: Seq<(Observer, Event)>, instance: Observer) -> Seq<Event>
    decreases calls.len(),
{
    if calls.len() == 0 {
        Seq::empty()
    } else if calls.last().0 == instance {
        calls_to(calls.drop_last(), instance).push(calls.last().1)
    } else {
        calls_to(calls.drop_last(), instance)
    }
}

/// The trees of two instances after a run of hook calls, each call going to
/// one of the two.
pub open spec fn run_two(
    first: Map<u128, Context>,
    second: Map<u128, Context>,
    calls: Seq<(Observer, Event)>,
) -> (Map<u128, Context>, Map<u128, Context>)
    decreases calls.len(),
{
    if calls.len() == 0 {
        (first, second)
    } else {
        let earlier = run_two(first, second, calls.drop_last());
        match calls.last().0 {
            Observer::First => (step(earlier.0, calls.last().1), earlier.1),
            Observer::Second => (earlier.0, step(earlier.1, calls.last().1)),
        }
    }
}

/// Two instances that observe the same request do not interfere: however
/// their hook calls interleave, each ends with the tree that its own calls
/// alone would have given it.
pub proof fn instances_do_not_interfere(
    first: Map<u128, Context>,
    second: Map<u128, Context>,
    calls: Seq<(Observer, Event)>,
)
    ensures
        run_two(first, second, calls) == (
            run(first, calls_to(calls, Observer::First)),
            run(second, calls_to(calls, Observer::Second)),
        ),
    decreases calls.len(),
{
    if calls.len() > 0 {
        let earlier = calls.drop_last();
        instances_do_not_interfere(first, second, earlier);
        let event = calls.last().1;
        match calls.last().0 {
            Observer::First => {
                let own = calls_to(earlier, Observer::First);
                assert(own.push(event).drop_last() =~= own);
            },
            Observer::Second => {
                let own = calls_to(earlier, Observer::Second);
                assert(own.push(event).drop_last() =~= own);
            },
        }
    }
}

} // verus!
