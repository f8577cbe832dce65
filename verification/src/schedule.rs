//! Batching of settings saves: a change is written out only once the
//! interface has gone a fixed number of frames without another change.
use vstd::prelude::*;

verus! {

/// The number of frames that a change waits before it is saved.
pub const SETTINGS_SAVE_INTERVAL_FRAMES: u32 = 20;

/// Counts down the frames until pending settings are saved; zero means
/// that nothing is pending.
#[derive(Clone, Copy, Debug, PartialEq, Eq, Structural)]
pub struct SaveSchedule {
    dirty_frames: u32,
}

/// The frames left after one frame has passed with `frames` left.
pub open spec fn frames_after_tick(frames: nat) -> nat {
    if frames == 0 { 0 } else { (frames - 1) as nat }
}

/// Whether the frame that passes with `frames` left is the one that saves.
pub open spec fn saves_on_tick(frames: nat) -> bool {
    frames == 1
}

/// The frames left after `k` frames have passed with `frames` left.
pub open spec fn frames_after(frames: nat, k: nat) -> nat
    decreases k,
{
    if k == 0 { frames } else { frames_after_tick(frames_after(frames, (k - 1) as nat)) }
}

/// Whether the `k`-th frame, counted from 1, that passes with `frames` left
/// is the one that saves.
pub open spec fn saves_on_frame(frames: nat, k: nat) -> bool {
    k >= 1 && saves_on_tick(frames_after(frames, (k - 1) as nat))
}

/// One frame lowers a pending count by one and leaves an idle one at zero;
/// it saves exactly when it takes the last pending frame.
pub proof fn lemma_one_frame(frames: nat)
    ensures
        frames == 0 ==> frames_after_tick(frames) == 0,
        frames > 0 ==> frames_after_tick(frames) == frames - 1,
        saves_on_tick(frames) <==> (frames > 0 && frames_after_tick(frames) == 0),
{
}

/// After `k` frames the count has gone down by `k`, and stops at zero.
pub proof fn lemma_frames_after(frames: nat, k: nat)
    ensures
        frames_after(frames, k) == (if k <= frames { (frames - k) as nat } else { 0nat }),
    decreases k,
{
    if k > 0 {
        lemma_frames_after(frames, (k - 1) as nat);
    }
}

/// A schedule with `frames` left saves exactly once: on frame `frames`,
/// and never where nothing is pending.
pub proof fn lemma_saves_exactly_once(frames: nat, k: nat)
    ensures
        saves_on_frame(frames, k) <==> (frames > 0 && k == frames),
{
    if k >= 1 {
        lemma_frames_after(frames, (k - 1) as nat);
    }
}

/// Once a change is marked, the settings are saved on the last frame of the
/// interval and on no frame before or after it.
pub proof fn lemma_marked_change_saved_after_interval(k: nat)
    ensures
        saves_on_frame(SETTINGS_SAVE_INTERVAL_FRAMES as nat, k) <==> k == SETTINGS_SAVE_INTERVAL_FRAMES,
{
    lemma_saves_exactly_once(SETTINGS_SAVE_INTERVAL_FRAMES as nat, k);
}

impl View for SaveSchedule {
    type V = nat;

    closed spec fn view(&self) -> nat {
        self.dirty_frames as nat
    }
}

impl SaveSchedule {
    /// A schedule with nothing pending.
    pub fn new() -> (r: SaveSchedule)
        ensures
            r@ == 0,
    {
        SaveSchedule { dirty_frames: 0 }
    }

    /// Whether a save is pending.
    pub fn is_pending(&self) -> (r: bool)
        ensures
            r <==> self@ > 0,
    {
        self.dirty_frames > 0
    }

    /// Notes a change: the save waits the full interval again from now.
    pub fn mark_dirty(&mut self)
        ensures
            final(self)@ == SETTINGS_SAVE_INTERVAL_FRAMES,
    {
        self.dirty_frames = SETTINGS_SAVE_INTERVAL_FRAMES;
    }

    /// Lets one frame pass; returns whether the settings are to be saved now.
    pub fn save_soon(&mut self) -> (save: bool)
        ensures
            final(self)@ == frames_after_tick(old(self)@),
            save == saves_on_tick(old(self)@),
            old(self)@ == 0 ==> final(self)@ == 0,
            old(self)@ > 0 ==> final(self)@ == old(self)@ - 1,
            save <==> old(self)@ == 1,
    {
        if self.dirty_frames == 0 {
            return false;
        }
        self.dirty_frames = self.dirty_frames - 1;
        self.dirty_frames == 0
    }
}

} // verus!
