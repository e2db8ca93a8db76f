//! One frame: the commands that came since the last one are applied to the
//! array, then the viewer hands out what the changes ask for.

use vstd::prelude::*;
use crate::acoustic_field_slice_viewer::{
    every_encodes, steps_of, AcousticFiledSliceViewer, Upload,
};
use crate::plan::{awaiting, plan_of};
use crate::command::{applied_all, mismatches, raised_by_all, Command, CommandFeed};
use crate::settings::ViewerSettings;
use crate::update_flag::UpdateFlag;

verus! {

/// What a frame hands back.
pub struct Frame {
    /// The uploads to perform, in order.
    pub uploads: Vec<Upload>,
    /// How many drive updates did not cover the array.
    pub mismatched: usize,
}

/// Runs one frame. The commands are applied in order; their flags, those
/// that the user raised and those that still waited from earlier frames
/// together decide the plan; the uploads encode the array as the commands
/// left it.
pub fn tick(
    feed: &mut CommandFeed,
    viewer: &mut AcousticFiledSliceViewer,
    commands: &[Command],
    settings: &ViewerSettings,
    raised: UpdateFlag,
) -> (frame: Frame)
    ensures
        final(feed)@ == applied_all(old(feed)@, commands@),
        frame.mismatched == mismatches(old(feed)@, commands@),
        steps_of(frame.uploads@) == plan_of(
            old(viewer).pending_spec().union(raised@.union(raised_by_all(commands@))),
            final(feed)@.sources.len(),
        ),
        every_encodes(frame.uploads@, old(viewer).scene(*settings, final(feed)@.sources)),
        final(viewer).pending_spec() == awaiting(
            old(viewer).pending_spec().union(raised@.union(raised_by_all(commands@))),
            final(feed)@.sources.len(),
        ),
        final(viewer).model_spec() == old(viewer).model_spec(),
        final(viewer).color_map_spec() == old(viewer).color_map_spec(),
{
    let mut flags = raised;
    let mismatched = feed.drain(commands, &mut flags);
    let uploads = viewer.update(settings, feed.sources(), flags);
    Frame { uploads, mismatched }
}

} // verus!
