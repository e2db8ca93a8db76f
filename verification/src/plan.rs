//! The plan of a frame: which steps the raised flags ask for, in which
//! order they are performed, and which flags stay raised until a step is
//! reported to have succeeded.
//!
//! A step that allocates a buffer or a texture can fail; the flag that asked
//! for it stays raised until the step is reported to have succeeded. A step
//! that only sets a uniform cannot fail; its flags are cleared when it is
//! handed out. The opacity of the source markers asks nothing of the slice.

use vstd::prelude::*;
use crate::update_flag::Flag;

verus! {

/// One piece of the work of a frame.
#[derive(Debug, Clone, Copy, PartialEq, Eq, Structural)]
pub enum Step {
    /// The vertex and index buffers of the slice.
    Geometry,
    /// The texture of phases and amplitudes.
    DriveTexture,
    /// The number of sources, a uniform.
    SourceCount,
    /// The texture of source positions.
    PositionTexture,
    /// The texture of the colour ramp, and the colour scale.
    ColorMap,
    /// The wavenumber, a uniform.
    Wavenumber,
    /// The model matrix and its product with view and projection.
    Transform,
}

/// The flag that a step clears when its allocation has succeeded. A step
/// that only sets a uniform allocates nothing and clears nothing: its flags
/// are cleared when it is handed out.
pub open spec fn cleared_by(step: Step) -> Option<Flag> {
    match step {
        Step::Geometry => Some(Flag::SliceSize),
        Step::DriveTexture => Some(Flag::SourceDrive),
        Step::PositionTexture => Some(Flag::SourcePos),
        Step::ColorMap => Some(Flag::ColorMap),
        Step::SourceCount | Step::Wavenumber | Step::Transform => None,
    }
}

/// Whether a frame with the flags `raised` and `count` sources takes `step`.
/// An empty array has no texture to build.
pub open spec fn takes(raised: Set<Flag>, count: nat, step: Step) -> bool {
    match step {
        Step::Geometry => raised.contains(Flag::SliceSize),
        Step::DriveTexture => raised.contains(Flag::SourceDrive) && count > 0,
        Step::SourceCount => raised.contains(Flag::SourcePos),
        Step::PositionTexture => raised.contains(Flag::SourcePos) && count > 0,
        Step::ColorMap => raised.contains(Flag::ColorMap),
        Step::Wavenumber => raised.contains(Flag::Wavenum),
        Step::Transform => raised.contains(Flag::CameraPos) || raised.contains(Flag::SlicePos)
            || raised.contains(Flag::SliceSize),
    }
}

/// `step` alone if `taken`, else nothing.
pub open spec fn optional(taken: bool, step: Step) -> Seq<Step> {
    if taken {
        seq![step]
    } else {
        Seq::empty()
    }
}

/// The steps of a frame, in the order in which they are performed. The
/// geometry comes before the transform that depends on it.
pub open spec fn plan_of(raised: Set<Flag>, count: nat) -> Seq<Step> {
    optional(takes(raised, count, Step::Geometry), Step::Geometry)
        + optional(takes(raised, count, Step::DriveTexture), Step::DriveTexture)
        + optional(takes(raised, count, Step::SourceCount), Step::SourceCount)
        + optional(takes(raised, count, Step::PositionTexture), Step::PositionTexture)
        + optional(takes(raised, count, Step::ColorMap), Step::ColorMap)
        + optional(takes(raised, count, Step::Wavenumber), Step::Wavenumber)
        + optional(takes(raised, count, Step::Transform), Step::Transform)
}

/// The flags that stay raised when a frame's steps have been handed out:
/// those whose step is in the plan and needs an allocation.
pub open spec fn awaiting(raised: Set<Flag>, count: nat) -> Set<Flag> {
    Set::new(
        |f: Flag|
            raised.contains(f) && (f == Flag::SliceSize || f == Flag::ColorMap || (count > 0 && (f
                == Flag::SourceDrive || f == Flag::SourcePos))),
    )
}

/// The flags that stay raised when `step` has been reported.
pub open spec fn acknowledged(pending: Set<Flag>, step: Step, ok: bool) -> Set<Flag> {
    match cleared_by(step) {
        Some(f) => if ok {
            pending.remove(f)
        } else {
            pending
        },
        None => pending,
    }
}

/// The flags that stay raised when every one of `steps` has succeeded.
pub open spec fn acknowledged_all(pending: Set<Flag>, steps: Seq<Step>) -> Set<Flag>
    decreases steps.len(),
{
    if steps.len() == 0 {
        pending
    } else {
        acknowledged_all(
            acknowledged(pending, steps[0], true),
            steps.subrange(1, steps.len() as int),
        )
    }
}

/// Reporting the steps of `a` and then those of `b` is reporting those of
/// `a + b`.
pub proof fn lemma_acknowledged_all_concat(pending: Set<Flag>, a: Seq<Step>, b: Seq<Step>)
    ensures
        acknowledged_all(pending, a + b) == acknowledged_all(acknowledged_all(pending, a), b),
    decreases a.len(),
{
    if a.len() == 0 {
        assert(a + b =~= b);
    } else {
        let rest = a.subrange(1, a.len() as int);
        assert((a + b).subrange(1, (a + b).len() as int) =~= rest + b);
        lemma_acknowledged_all_concat(acknowledged(pending, a[0], true), rest, b);
    }
}

/// Reporting a step that may or may not have been taken.
pub proof fn lemma_acknowledged_optional(pending: Set<Flag>, taken: bool, step: Step)
    ensures
        acknowledged_all(pending, optional(taken, step)) == if taken {
            acknowledged(pending, step, true)
        } else {
            pending
        },
{
    if taken {
        let one = optional(taken, step);
        assert(one.subrange(1, one.len() as int) =~= Seq::<Step>::empty());
        assert(acknowledged_all(
            acknowledged(pending, step, true),
            one.subrange(1, one.len() as int),
        ) == acknowledged(pending, step, true));
    }
}

/// The place of a step in the order of a frame.
pub open spec fn rank(step: Step) -> int {
    match step {
        Step::Geometry => 0,
        Step::DriveTexture => 1,
        Step::SourceCount => 2,
        Step::PositionTexture => 3,
        Step::ColorMap => 4,
        Step::Wavenumber => 5,
        Step::Transform => 6,
    }
}

/// Whether `steps` holds, in the order of their ranks and each once, the
/// steps of a rank below `bound` that the flags ask for, and no other.
#[verifier::opaque]
pub open spec fn in_order(steps: Seq<Step>, raised: Set<Flag>, count: nat, bound: int) -> bool {
    &&& forall|i: int|
        0 <= i < steps.len() ==> rank(#[trigger] steps[i]) < bound && takes(raised, count, steps[i])
    &&& forall|i: int, j: int|
        0 <= i < j < steps.len() ==> rank(#[trigger] steps[i]) < rank(#[trigger] steps[j])
    &&& forall|step: Step|
        rank(step) < bound && takes(raised, count, step) ==> #[trigger] steps.contains(step)
}

/// Putting the step of the next rank behind the steps below it, if the
/// flags ask for it, keeps them in order.
pub proof fn lemma_in_order_extend(steps: Seq<Step>, raised: Set<Flag>, count: nat, step: Step)
    requires
        in_order(steps, raised, count, rank(step)),
    ensures
        in_order(
            steps + optional(takes(raised, count, step), step),
            raised,
            count,
            rank(step) + 1,
        ),
{
    reveal(in_order);
    let all = steps + optional(takes(raised, count, step), step);
    assert forall|other: Step|
        rank(other) < rank(step) + 1 && takes(raised, count, other) implies #[trigger] all.contains(
        other,
    ) by {
        if rank(other) < rank(step) {
            assert(steps.contains(other));
            let i = choose|i: int| 0 <= i < steps.len() && steps[i] == other;
            assert(all[i] == other);
        } else {
            assert(other == step);
            assert(all[steps.len() as int] == other);
        }
    }
}

/// The plan of a frame is in order up to the last rank.
pub proof fn lemma_plan_in_order(raised: Set<Flag>, count: nat)
    ensures
        in_order(plan_of(raised, count), raised, count, 7),
{
    let s0 = Seq::<Step>::empty();
    let s1 = s0 + optional(takes(raised, count, Step::Geometry), Step::Geometry);
    let s2 = s1 + optional(takes(raised, count, Step::DriveTexture), Step::DriveTexture);
    let s3 = s2 + optional(takes(raised, count, Step::SourceCount), Step::SourceCount);
    let s4 = s3 + optional(takes(raised, count, Step::PositionTexture), Step::PositionTexture);
    let s5 = s4 + optional(takes(raised, count, Step::ColorMap), Step::ColorMap);
    let s6 = s5 + optional(takes(raised, count, Step::Wavenumber), Step::Wavenumber);
    let s7 = s6 + optional(takes(raised, count, Step::Transform), Step::Transform);
    assert(in_order(s0, raised, count, 0)) by {
        reveal(in_order);
    }
    lemma_in_order_extend(s0, raised, count, Step::Geometry);
    lemma_in_order_extend(s1, raised, count, Step::DriveTexture);
    lemma_in_order_extend(s2, raised, count, Step::SourceCount);
    lemma_in_order_extend(s3, raised, count, Step::PositionTexture);
    lemma_in_order_extend(s4, raised, count, Step::ColorMap);
    lemma_in_order_extend(s5, raised, count, Step::Wavenumber);
    lemma_in_order_extend(s6, raised, count, Step::Transform);
    assert(s1 =~= optional(takes(raised, count, Step::Geometry), Step::Geometry));
    assert(s7 == plan_of(raised, count));
}

/// A plan holds a step exactly when the raised flags ask for it, and holds
/// it once: a frame rebuilds what the flags implicate and nothing else.
pub proof fn lemma_plan_exact(raised: Set<Flag>, count: nat)
    ensures
        plan_of(raised, count).no_duplicates(),
        forall|step: Step|
            #[trigger] plan_of(raised, count).contains(step) <==> takes(raised, count, step),
{
    reveal(in_order);
    lemma_plan_in_order(raised, count);
    let plan = plan_of(raised, count);
    assert forall|i: int, j: int|
        0 <= i < plan.len() && 0 <= j < plan.len() && i != j implies plan[i] != plan[j] by {
        if i < j {
            assert(rank(plan[i]) < rank(plan[j]));
        } else {
            assert(rank(plan[j]) < rank(plan[i]));
        }
    }
}

/// The steps of a plan stand in the order of their ranks. So where a plan
/// holds both, the geometry stands before the transform; and a change of
/// the slice's size asks for both.
pub proof fn lemma_geometry_before_transform(raised: Set<Flag>, count: nat)
    ensures
        forall|i: int, j: int|
            0 <= i < j < plan_of(raised, count).len() ==> rank(
                #[trigger] plan_of(raised, count)[i],
            ) < rank(#[trigger] plan_of(raised, count)[j]),
        forall|i: int, j: int|
            0 <= i < plan_of(raised, count).len() && 0 <= j < plan_of(raised, count).len()
                && plan_of(raised, count)[i] == Step::Geometry && plan_of(raised, count)[j]
                == Step::Transform ==> i < j,
        raised.contains(Flag::SliceSize) ==> plan_of(raised, count).contains(Step::Geometry)
            && plan_of(raised, count).contains(Step::Transform),
{
    reveal(in_order);
    lemma_plan_in_order(raised, count);
    let plan = plan_of(raised, count);
    assert forall|i: int, j: int|
        0 <= i < plan.len() && 0 <= j < plan.len() && plan[i] == Step::Geometry && plan[j]
            == Step::Transform implies i < j by {
        if j < i {
            assert(rank(plan[j]) < rank(plan[i]));
        }
    }
}

/// The flags that stay raised after a frame are those that a step of its
/// plan clears.
pub proof fn lemma_awaiting_is_planned(raised: Set<Flag>, count: nat, flag: Flag)
    ensures
        awaiting(raised, count).contains(flag) <==> raised.contains(flag) && exists|step: Step|
            takes(raised, count, step) && cleared_by(step) == Some(flag),
{
    if awaiting(raised, count).contains(flag) {
        let step = match flag {
            Flag::SliceSize => Step::Geometry,
            Flag::SourceDrive => Step::DriveTexture,
            Flag::SourcePos => Step::PositionTexture,
            _ => Step::ColorMap,
        };
        assert(takes(raised, count, step) && cleared_by(step) == Some(flag));
    }
}

/// Rebuilding twice does the work once. When every step that a frame handed
/// out has succeeded, no flag is left raised; and a frame in which no flag
/// is raised hands out nothing and leaves none raised.
pub proof fn lemma_rebuild_idempotent(raised: Set<Flag>, count: nat)
    ensures
        acknowledged_all(awaiting(raised, count), plan_of(raised, count)) == Set::<Flag>::empty(),
        plan_of(Set::<Flag>::empty(), count) == Seq::<Step>::empty(),
        awaiting(Set::<Flag>::empty(), count) == Set::<Flag>::empty(),
{
    let left0 = awaiting(raised, count);
    let o1 = optional(takes(raised, count, Step::Geometry), Step::Geometry);
    let o2 = optional(takes(raised, count, Step::DriveTexture), Step::DriveTexture);
    let o3 = optional(takes(raised, count, Step::SourceCount), Step::SourceCount);
    let o4 = optional(takes(raised, count, Step::PositionTexture), Step::PositionTexture);
    let o5 = optional(takes(raised, count, Step::ColorMap), Step::ColorMap);
    let o6 = optional(takes(raised, count, Step::Wavenumber), Step::Wavenumber);
    let o7 = optional(takes(raised, count, Step::Transform), Step::Transform);
    let left1 = acknowledged_all(left0, o1);
    let left2 = acknowledged_all(left1, o2);
    let left3 = acknowledged_all(left2, o3);
    let left4 = acknowledged_all(left3, o4);
    let left5 = acknowledged_all(left4, o5);
    let left6 = acknowledged_all(left5, o6);
    let left7 = acknowledged_all(left6, o7);
    lemma_acknowledged_all_concat(left0, o1 + o2 + o3 + o4 + o5 + o6, o7);
    lemma_acknowledged_all_concat(left0, o1 + o2 + o3 + o4 + o5, o6);
    lemma_acknowledged_all_concat(left0, o1 + o2 + o3 + o4, o5);
    lemma_acknowledged_all_concat(left0, o1 + o2 + o3, o4);
    lemma_acknowledged_all_concat(left0, o1 + o2, o3);
    lemma_acknowledged_all_concat(left0, o1, o2);
    assert(acknowledged_all(left0, plan_of(raised, count)) == left7);
    lemma_acknowledged_optional(left0, takes(raised, count, Step::Geometry), Step::Geometry);
    lemma_acknowledged_optional(
        left1,
        takes(raised, count, Step::DriveTexture),
        Step::DriveTexture,
    );
    lemma_acknowledged_optional(left2, takes(raised, count, Step::SourceCount), Step::SourceCount);
    lemma_acknowledged_optional(
        left3,
        takes(raised, count, Step::PositionTexture),
        Step::PositionTexture,
    );
    lemma_acknowledged_optional(left4, takes(raised, count, Step::ColorMap), Step::ColorMap);
    lemma_acknowledged_optional(left5, takes(raised, count, Step::Wavenumber), Step::Wavenumber);
    lemma_acknowledged_optional(left6, takes(raised, count, Step::Transform), Step::Transform);
    assert(left7 =~= Set::<Flag>::empty());
    assert(plan_of(Set::<Flag>::empty(), count) =~= Seq::<Step>::empty());
    assert(awaiting(Set::<Flag>::empty(), count) =~= Set::<Flag>::empty());
}

/// Reporting a step a second time changes nothing.
pub proof fn lemma_acknowledged_twice(pending: Set<Flag>, step: Step, ok: bool)
    ensures
        acknowledged(acknowledged(pending, step, ok), step, ok) == acknowledged(pending, step, ok),
{
    assert(acknowledged(acknowledged(pending, step, ok), step, ok) =~= acknowledged(
        pending,
        step,
        ok,
    ));
}

/// A step whose allocation failed is handed out again in the next frame,
/// whatever else has been raised by then.
pub proof fn lemma_failed_step_is_retried(
    raised: Set<Flag>,
    count: nat,
    step: Step,
    more: Set<Flag>,
)
    requires
        takes(raised, count, step),
        cleared_by(step) is Some,
    ensures
        acknowledged(awaiting(raised, count), step, false).contains(cleared_by(step)->0),
        plan_of(acknowledged(awaiting(raised, count), step, false).union(more), count).contains(
            step,
        ),
{
    let next = acknowledged(awaiting(raised, count), step, false).union(more);
    lemma_plan_exact(next, count);
}

} // verus!
