//! How a render call is spread over the device and over time.
//!
//! A compute pass covers the pixel grid with square work-groups, so the
//! dispatch must round each axis up to whole groups. The progressive mode
//! re-renders the same frame along a fixed ladder of sample counts, keeping
//! only the last image, so the ladder decides both how often the progress
//! callback fires and which image survives.

use vstd::prelude::*;

verus! {

/// Threads per work-group axis: work-groups are 8 x 8.
pub const WORKGROUP_SIZE: u32 = 8;

/// How many work-groups one axis of the dispatch needs: the extent rounded
/// up to whole groups, so the groups cover every pixel and the last group
/// is not entirely out of bounds.
pub fn workgroup_count(extent: u32) -> (groups: u32)
    requires
        extent + 7 <= u32::MAX,
    ensures
        groups == (extent + 7) / 8,
        WORKGROUP_SIZE * groups >= extent,
        extent > 0 ==> WORKGROUP_SIZE * (groups - 1) < extent,
{
    (extent + 7) / 8
}

/// The ladder of sample counts that the progressive mode renders, in
/// order: the powers of two 1, 2, 4, 8 that lie below the target, then the
/// target itself, so the kept image is always rendered at the requested
/// sample count. A target of zero renders nothing.
pub open spec fn spec_sample_steps(target: u32) -> Seq<u32> {
    if target == 0 {
        Seq::empty()
    } else if target == 1 {
        seq![1u32]
    } else if target == 2 {
        seq![1u32, 2u32]
    } else if target <= 4 {
        seq![1u32, 2u32, target]
    } else if target <= 8 {
        seq![1u32, 2u32, 4u32, target]
    } else {
        seq![1u32, 2u32, 4u32, 8u32, target]
    }
}

/// Builds the progressive ladder for a target sample count. The final
/// element, when there is one, is the sample count of the image that the
/// progressive mode keeps.
pub fn sample_steps(target: u32) -> (steps: Vec<u32>)
    ensures
        steps@ == spec_sample_steps(target),
{
    let steps: Vec<u32> = if target == 0 {
        Vec::new()
    } else if target == 1 {
        vec![1]
    } else if target == 2 {
        vec![1, 2]
    } else if target <= 4 {
        vec![1, 2, target]
    } else if target <= 8 {
        vec![1, 2, 4, target]
    } else {
        vec![1, 2, 4, 8, target]
    };
    proof {
        assert(steps@ =~= spec_sample_steps(target));
    }
    steps
}

/// The ladder is strictly increasing, never oversteps the target, and —
/// whenever anything is rendered at all — ends on the target itself, so
/// the image the progressive mode keeps is the one the caller asked for.
pub proof fn lemma_sample_steps_bounded(target: u32)
    ensures
        forall|i: int|
            0 <= i < spec_sample_steps(target).len() ==> #[trigger] spec_sample_steps(
                target,
            )[i] <= target,
        forall|i: int|
            0 <= i < spec_sample_steps(target).len() - 1 ==> #[trigger] spec_sample_steps(
                target,
            )[i] < spec_sample_steps(target)[i + 1],
        target > 0 ==> spec_sample_steps(target).len() > 0,
        target > 0 ==> spec_sample_steps(target).last() == target,
{
}

} // verus!
