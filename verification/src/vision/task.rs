//! One round of the background watcher: from the components found in a frame
//! to the decision whether the countdown should start.

use vstd::prelude::*;

use crate::vision::util::{block_count, count_square_blocks, ComponentStats};

verus! {

/// The settings one round of the watcher runs with.
pub struct TaskCtx {
    pub block_threshold: usize,
    pub block_min_width: usize,
    pub block_max_width: usize,
    pub debug_enabled: bool,
}

/// A grey-scale picture of the colour mask, for display while debugging.
#[derive(Clone)]
pub struct DebugFrame {
    pub width: usize,
    pub height: usize,
    pub gray_pixels: Vec<u8>,
}

/// What the analysis of one frame found.
pub struct BlockAnalysis {
    pub count: usize,
    pub debug_mask_half: Option<DebugFrame>,
}

/// What one round of the watcher reports.
pub struct LoopResult {
    pub triggered: bool,
    pub debug_frame: Option<DebugFrame>,
}

/// A frame calls for the countdown when it holds more blocks than the
/// threshold.
pub open spec fn blocks_trigger(count: nat, threshold: nat) -> bool {
    count > threshold
}

/// Counts the blocks among the components of a frame with the side bounds of
/// `ctx`, and keeps the mask picture only while debugging is on.
pub fn analyze_components(
    ctx: &TaskCtx,
    stats: &Vec<ComponentStats>,
    debug_mask_half: Option<DebugFrame>,
) -> (analysis: BlockAnalysis)
    ensures
        analysis.count == block_count(
            stats@,
            ctx.block_min_width as int,
            ctx.block_max_width as int,
        ),
        analysis.debug_mask_half == (if ctx.debug_enabled {
            debug_mask_half
        } else {
            None
        }),
{
    let count = count_square_blocks(stats, ctx.block_min_width, ctx.block_max_width);
    let debug_mask_half = if ctx.debug_enabled {
        debug_mask_half
    } else {
        None
    };
    BlockAnalysis { count, debug_mask_half }
}

/// Decides one round: the countdown is due when more blocks were found than
/// the threshold allows; the mask picture, if any, is passed on.
pub fn loop_task(ctx: &TaskCtx, analysis: BlockAnalysis) -> (result: LoopResult)
    ensures
        result.triggered == blocks_trigger(analysis.count as nat, ctx.block_threshold as nat),
        result.debug_frame == analysis.debug_mask_half,
{
    let triggered = analysis.count > ctx.block_threshold;
    let debug_frame = match analysis.debug_mask_half {
        Some(mask) => Some(DebugFrame { width: mask.width, height: mask.height, gray_pixels: mask.gray_pixels }),
        None => None,
    };
    LoopResult { triggered, debug_frame }
}

} // verus!
