//! What one animation player is playing, and what the controller can do to it.

use crate::units::{shift, shifted};
use vstd::prelude::*;

verus! {

/// One clip that a player is playing.
#[derive(Clone, Copy, Debug, PartialEq, Eq)]
pub struct ActiveClip {
    /// Whether the clip stands still.
    pub paused: bool,
    /// The playback speed, in thousandths of the authored speed. It may be
    /// zero or negative.
    pub speed: i64,
    /// The time into the clip, in milliseconds. It may be negative or lie
    /// beyond the end of the clip.
    pub elapsed: i64,
}

/// The clips that one animation player is playing, in the order in which the
/// player lists them.
#[derive(Debug, PartialEq, Eq)]
pub struct PlayerState {
    /// The clips, the first of which gives the speed that is reported.
    pub clips: Vec<ActiveClip>,
}

impl Clone for PlayerState {
    fn clone(&self) -> (copy: Self)
        ensures
            copy@ == self@,
    {
        PlayerState { clips: self.clips.clone() }
    }
}

impl View for PlayerState {
    type V = Seq<ActiveClip>;

    open spec fn view(&self) -> Seq<ActiveClip> {
        self.clips@
    }
}

/// One thing that the controller asks the host to do for a player.
#[derive(Clone, Copy, Debug, PartialEq, Eq)]
pub enum Action {
    /// Pause every clip of the player.
    PauseAll,
    /// Resume every clip of the player.
    ResumeAll,
    /// Give every clip of the player this speed.
    SetSpeed { speed: i64 },
    /// Move the time of every clip of the player by `delta` milliseconds.
    Seek { delta: i64 },
    /// Blend over `blend_ms` milliseconds into the clip at index `clip` of the
    /// catalogue, looping it if `repeat` is set, and print the clip's name and
    /// descriptor.
    Transition { clip: usize, blend_ms: u64, repeat: bool },
    /// Print the playback speed and the scroll velocity. `playback_speed` is
    /// `None` where the player plays nothing.
    Report { playback_speed: Option<i64>, velocity: i64 },
    /// Print the speed mode that was just chosen, the playback speed and the
    /// scroll velocity.
    ReportMode { use_params: bool, playback_speed: Option<i64>, velocity: i64 },
}

/// The clip after `action`. A transition and the reports leave the model as it
/// is: which clips play after a blend has begun is for the engine to say.
pub open spec fn changed(clip: ActiveClip, action: Action) -> ActiveClip {
    match action {
        Action::PauseAll => ActiveClip { paused: true, speed: clip.speed, elapsed: clip.elapsed },
        Action::ResumeAll => ActiveClip { paused: false, speed: clip.speed, elapsed: clip.elapsed },
        Action::SetSpeed { speed } => ActiveClip {
            paused: clip.paused,
            speed,
            elapsed: clip.elapsed,
        },
        Action::Seek { delta } => ActiveClip {
            paused: clip.paused,
            speed: clip.speed,
            elapsed: shifted(clip.elapsed, delta),
        },
        _ => clip,
    }
}

/// The clips of a player after `action`: each clip is changed alike.
pub open spec fn applied(clips: Seq<ActiveClip>, action: Action) -> Seq<ActiveClip> {
    Seq::new(clips.len(), |i: int| changed(clips[i], action))
}

/// The clips of a player after `actions`, carried out from first to last.
pub open spec fn applied_all(clips: Seq<ActiveClip>, actions: Seq<Action>) -> Seq<ActiveClip>
    decreases actions.len(),
{
    if actions.len() == 0 {
        clips
    } else {
        applied(applied_all(clips, actions.drop_last()), actions.last())
    }
}

/// Whether every clip is paused. A player that plays nothing counts as paused.
pub open spec fn all_paused(clips: Seq<ActiveClip>) -> bool {
    forall|i: int| 0 <= i < clips.len() ==> (#[trigger] clips[i]).paused
}

/// The speed of the first clip, which is the speed that the controller reports
/// and nudges.
pub open spec fn first_speed(clips: Seq<ActiveClip>) -> Option<i64> {
    if clips.len() > 0 {
        Some(clips[0].speed)
    } else {
        None
    }
}

impl ActiveClip {
    /// This clip after `action`.
    pub fn after(self, action: Action) -> (clip: ActiveClip)
        ensures
            clip == changed(self, action),
    {
        match action {
            Action::PauseAll => ActiveClip {
                paused: true,
                speed: self.speed,
                elapsed: self.elapsed,
            },
            Action::ResumeAll => ActiveClip {
                paused: false,
                speed: self.speed,
                elapsed: self.elapsed,
            },
            Action::SetSpeed { speed } => ActiveClip {
                paused: self.paused,
                speed,
                elapsed: self.elapsed,
            },
            Action::Seek { delta } => ActiveClip {
                paused: self.paused,
                speed: self.speed,
                elapsed: shift(self.elapsed, delta),
            },
            _ => self,
        }
    }
}

impl PlayerState {
    /// Whether every clip of the player is paused.
    pub fn all_paused(&self) -> (paused: bool)
        ensures
            paused == all_paused(self@),
    {
        let mut i: usize = 0;
        while i < self.clips.len()
            invariant
                i <= self.clips.len(),
                forall|j: int| 0 <= j < i ==> (#[trigger] self.clips@[j]).paused,
            decreases self.clips.len() - i,
        {
            if !self.clips[i].paused {
                return false;
            }
            i += 1;
        }
        true
    }

    /// The speed of the first clip, if the player plays any.
    pub fn speed(&self) -> (speed: Option<i64>)
        ensures
            speed == first_speed(self@),
    {
        if self.clips.len() > 0 {
            Some(self.clips[0].speed)
        } else {
            None
        }
    }

    /// Carries out `action` on every clip of the player.
    pub fn apply(&mut self, action: Action)
        ensures
            final(self)@ == applied(old(self)@, action),
    {
        let mut i: usize = 0;
        while i < self.clips.len()
            invariant
                i <= self.clips.len(),
                self.clips@.len() == old(self).clips@.len(),
                forall|j: int|
                    0 <= j < i ==> self.clips@[j] == changed(old(self).clips@[j], action),
                forall|j: int| i <= j < self.clips@.len() ==> self.clips@[j] == old(self).clips@[j],
            decreases self.clips.len() - i,
        {
            let clip = self.clips[i].after(action);
            self.clips.set(i, clip);
            i += 1;
        }
    }
}

} // verus!
