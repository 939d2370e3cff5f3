//! Lifecycle of the movement-sound instance.
//!
//! A sound instance is started by the mover and removes itself when its
//! playback completes; the mover never starts a second one while one is
//! live.  This module models that lifecycle over whole frame histories and
//! states the single-instance law.

use crate::player::spawn_sound_spec;
use vstd::prelude::*;

verus! {

/// One frame's worth of sound events: whether a movement intent is present,
/// and whether the engine removed a finished instance just before the mover
/// ran.
pub struct SoundFrame {
    pub intent_present: bool,
    pub playback_finished: bool,
}

/// The number of live movement-sound instances after a sequence of frames,
/// starting from none.  Each frame, a finished instance first removes
/// itself; then the mover starts a new instance exactly when movement is
/// intended and none is active.
pub open spec fn instances_after(frames: Seq<SoundFrame>) -> nat
    decreases frames.len(),
{
    if frames.len() == 0 {
        0
    } else {
        let before = instances_after(frames.drop_last());
        let after_removal = if frames.last().playback_finished && before > 0 {
            (before - 1) as nat
        } else {
            before
        };
        if spawn_sound_spec(frames.last().intent_present, after_removal > 0) {
            (after_removal + 1) as nat
        } else {
            after_removal
        }
    }
}

/// Law: at most one movement-sound instance is ever live, no matter how many
/// consecutive frames carry a movement intent.
pub proof fn lemma_at_most_one_instance(frames: Seq<SoundFrame>)
    ensures
        instances_after(frames) <= 1,
    decreases frames.len(),
{
    if frames.len() > 0 {
        lemma_at_most_one_instance(frames.drop_last());
    }
}

} // verus!
