//! The fusion engine: joining the two per-half state streams in lockstep.
//!
//! Exactly one combined frame is produced per pair of updates, one drawn from
//! each stream in arrival order. When either stream ends, fusion ends: no
//! frame is ever built from a single half alone.

use crate::gamepad::{apply_left, apply_right, neutral_frame, GamepadFrame};
use crate::state::{LeftJoyConState, RightJoyConState};
use vstd::math::min;
use vstd::prelude::*;

verus! {

/// The combined frame one left update and one right update fuse to: both
/// halves applied to the neutral frame, left first.
pub open spec fn fused_frame(l: LeftJoyConState, r: RightJoyConState) -> GamepadFrame {
    apply_right(apply_left(neutral_frame(), l), r)
}

/// The frame sequence a pair of finite update streams fuses to: the i-th
/// frame joins the i-th update of each side, and the sequence ends with the
/// shorter stream.
pub open spec fn fused_frames(
    lefts: Seq<LeftJoyConState>,
    rights: Seq<RightJoyConState>,
) -> Seq<GamepadFrame> {
    Seq::new(
        min(lefts.len() as int, rights.len() as int) as nat,
        |i: int| fused_frame(lefts[i], rights[i]),
    )
}

/// Fuse one matched pair of updates into a combined frame.
pub fn fuse(l: &LeftJoyConState, r: &RightJoyConState) -> (f: GamepadFrame)
    ensures
        f == fused_frame(*l, *r),
{
    let mut frame = GamepadFrame::default();
    l.apply_to(&mut frame);
    r.apply_to(&mut frame);
    frame
}

/// Fuse two finite update streams in strict lockstep.
pub fn fuse_streams(
    lefts: &Vec<LeftJoyConState>,
    rights: &Vec<RightJoyConState>,
) -> (frames: Vec<GamepadFrame>)
    ensures
        frames@ == fused_frames(lefts@, rights@),
{
    let pairs = if lefts.len() <= rights.len() {
        lefts.len()
    } else {
        rights.len()
    };
    let mut frames: Vec<GamepadFrame> = Vec::new();
    let mut i: usize = 0;
    while i < pairs
        invariant
            i <= pairs,
            pairs == min(lefts@.len() as int, rights@.len() as int),
            frames@.len() == i,
            forall|j: int| 0 <= j < i ==> frames@[j] == fused_frame(lefts@[j], rights@[j]),
        decreases pairs - i,
    {
        let frame = fuse(&lefts[i], &rights[i]);
        frames.push(frame);
        i = i + 1;
    }
    proof {
        assert(frames@ =~= fused_frames(lefts@, rights@));
    }
    frames
}

/// Law: fusion is strict lockstep. The fused sequence pairs the streams'
/// updates index by index, in arrival order, one frame per matched pair, and
/// is as long as the shorter stream.
pub proof fn lemma_fusion_lockstep(lefts: Seq<LeftJoyConState>, rights: Seq<RightJoyConState>)
    ensures
        fused_frames(lefts, rights).len() == min(lefts.len() as int, rights.len() as int),
        forall|i: int|
            0 <= i < fused_frames(lefts, rights).len() ==> fused_frames(lefts, rights)[i]
                == fused_frame(lefts[i], rights[i]),
{
}

/// Law: once the shorter stream has ended, later updates of the other stream
/// contribute to no frame — the fused stream has already ended, and no frame
/// is built from one half alone.
pub proof fn lemma_fusion_ends_with_closed_stream(
    lefts: Seq<LeftJoyConState>,
    extra: Seq<LeftJoyConState>,
    rights: Seq<RightJoyConState>,
)
    requires
        rights.len() <= lefts.len(),
    ensures
        fused_frames(lefts + extra, rights) == fused_frames(lefts, rights),
{
    assert(fused_frames(lefts + extra, rights) =~= fused_frames(lefts, rights));
}

} // verus!
