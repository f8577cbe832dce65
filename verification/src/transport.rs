//! The playback transport: what each control does to the playback state,
//! and how the state moves on as the audio callback renders frames.
//!
//! Levels and samples are left to the caller; the transport says, for each
//! command and each frame, which state follows and what becomes of the
//! output level and of the brown-noise walk.
use vstd::prelude::*;

use crate::model::PlaybackState;

verus! {

/// A control of the player.
#[derive(Clone, Copy, Debug, PartialEq, Eq, Structural)]
pub enum Command {
    Play,
    Pause,
    Stop,
    FadeIn,
    FadeOut,
}

/// What a command does to the current output level.
#[derive(Clone, Copy, Debug, PartialEq, Eq, Structural)]
pub enum LevelChange {
    /// The level stays where it is.
    Keep,
    /// The level jumps to the target volume.
    ToTarget,
    /// The level drops to silence.
    ToSilence,
}

/// The effect of a command besides the new playback state.
#[derive(Clone, Copy, Debug, PartialEq, Eq, Structural)]
pub struct CommandEffect {
    pub level: LevelChange,
    /// Whether the brown-noise walk starts again from the centre.
    pub reset_brown: bool,
}

/// How the level moves while a frame is rendered.
#[derive(Clone, Copy, Debug, PartialEq, Eq, Structural)]
pub enum Fade {
    /// One fade step up, no higher than the target volume.
    Rising,
    /// One fade step down, no lower than silence.
    Falling,
    /// The level does not move.
    Steady,
}

/// The states in which the player is silent and generates nothing.
pub open spec fn is_silent(state: PlaybackState) -> bool {
    state == PlaybackState::Stopped || state == PlaybackState::Paused
}

/// The playback state that follows `command` in `state`. A fade-out from a
/// silent state has nothing to fade and changes nothing.
pub open spec fn after_command(state: PlaybackState, command: Command) -> PlaybackState {
    match command {
        Command::Play => PlaybackState::Playing,
        Command::Pause => PlaybackState::Paused,
        Command::Stop => PlaybackState::Stopped,
        Command::FadeIn => PlaybackState::FadingIn,
        Command::FadeOut => if is_silent(state) { state } else { PlaybackState::FadingOut },
    }
}

/// What `command` does to the level and the brown-noise walk. Play jumps to
/// the target, a fade-in starts from silence, a fade-out starts from where
/// the level is, and only stop restarts the walk.
pub open spec fn command_effect(command: Command) -> CommandEffect {
    CommandEffect {
        level: match command {
            Command::Play => LevelChange::ToTarget,
            Command::FadeOut => LevelChange::Keep,
            _ => LevelChange::ToSilence,
        },
        reset_brown: command == Command::Stop,
    }
}

/// How the level moves during a frame rendered in `state`.
pub open spec fn fade_of(state: PlaybackState) -> Fade {
    match state {
        PlaybackState::FadingIn => Fade::Rising,
        PlaybackState::FadingOut => Fade::Falling,
        _ => Fade::Steady,
    }
}

/// The state after a frame rendered in `state`, where `limit_reached` tells
/// whether the fade step brought the level to its end (the target volume
/// when rising, silence when falling). A finished fade-in plays on; a
/// finished fade-out stops.
pub open spec fn after_frame(state: PlaybackState, limit_reached: bool) -> PlaybackState {
    if limit_reached && state == PlaybackState::FadingIn {
        PlaybackState::Playing
    } else if limit_reached && state == PlaybackState::FadingOut {
        PlaybackState::Stopped
    } else {
        state
    }
}

/// Whether a frame rendered in `state` ends a fade-out, which restarts the
/// brown-noise walk.
pub open spec fn frame_resets_brown(state: PlaybackState, limit_reached: bool) -> bool {
    limit_reached && state == PlaybackState::FadingOut
}

/// Pressing the same control twice has the effect of pressing it once.
pub proof fn lemma_commands_idempotent(state: PlaybackState, command: Command)
    ensures
        after_command(after_command(state, command), command) == after_command(state, command),
{
}

/// Every control but fade-out leads to the same state whatever the player
/// was doing.
pub proof fn lemma_commands_forget_state(a: PlaybackState, b: PlaybackState, command: Command)
    requires
        command != Command::FadeOut,
    ensures
        after_command(a, command) == after_command(b, command),
{
}

/// A fade-out pressed while stopped or paused leaves the state, the level and
/// the brown-noise walk as they are.
pub proof fn lemma_fade_out_of_silence_changes_nothing(state: PlaybackState)
    requires
        is_silent(state),
    ensures
        after_command(state, Command::FadeOut) == state,
        command_effect(Command::FadeOut).level == LevelChange::Keep,
        !command_effect(Command::FadeOut).reset_brown,
{
}

/// A fade-in, once the level has reached the target, ends where play would
/// have led at once.
pub proof fn lemma_finished_fade_in_plays(state: PlaybackState)
    ensures
        after_frame(after_command(state, Command::FadeIn), true) == after_command(state, Command::Play),
{
}

/// A fade-out of a sounding player, once the level has reached silence,
/// ends where stop would have led at once, brown-noise walk restarted too.
pub proof fn lemma_finished_fade_out_stops(state: PlaybackState)
    requires
        !is_silent(state),
    ensures
        after_frame(after_command(state, Command::FadeOut), true) == after_command(state, Command::Stop),
        frame_resets_brown(after_command(state, Command::FadeOut), true) == command_effect(Command::Stop).reset_brown,
{
}

/// Rendering frames changes the state only when a fade finishes: a finished
/// fade-in plays on, a finished fade-out stops, and nothing else moves.
/// In particular a silent player stays silent and a playing one keeps playing.
pub proof fn lemma_frames_change_only_finished_fades(state: PlaybackState, limit_reached: bool)
    ensures
        after_frame(state, limit_reached) != state ==> limit_reached && (
            (state == PlaybackState::FadingIn && after_frame(state, limit_reached) == PlaybackState::Playing)
            || (state == PlaybackState::FadingOut && after_frame(state, limit_reached) == PlaybackState::Stopped)),
        fade_of(state) == Fade::Steady ==> after_frame(state, limit_reached) == state,
        !limit_reached ==> after_frame(state, limit_reached) == state,
        frame_resets_brown(state, limit_reached) ==> after_frame(state, limit_reached) == PlaybackState::Stopped,
{
}

/// The player is silent exactly when stopped or paused: it sounds while
/// playing and throughout both fades, so a fade-out is heard falling away.
pub proof fn lemma_silent_exactly_when_stopped_or_paused(state: PlaybackState)
    ensures
        is_silent(state) <==> (state == PlaybackState::Stopped || state == PlaybackState::Paused),
        !is_silent(PlaybackState::FadingOut),
        !is_silent(PlaybackState::FadingIn),
        !is_silent(PlaybackState::Playing),
{
}

/// A fade-out of a sounding player keeps it sounding until the fade ends,
/// and a fade-in sounds from its start.
pub proof fn lemma_fades_are_heard(state: PlaybackState)
    ensures
        !is_silent(state) ==> !is_silent(after_command(state, Command::FadeOut)),
        !is_silent(after_command(state, Command::FadeIn)),
{
}

/// The level moves only during a fade: up during a fade-in, down during a
/// fade-out, and not at all while playing, paused or stopped.
pub proof fn lemma_level_moves_only_while_fading(state: PlaybackState)
    ensures
        fade_of(state) == Fade::Rising <==> state == PlaybackState::FadingIn,
        fade_of(state) == Fade::Falling <==> state == PlaybackState::FadingOut,
        fade_of(state) == Fade::Steady <==> (state != PlaybackState::FadingIn && state != PlaybackState::FadingOut),
        fade_of(PlaybackState::Paused) == Fade::Steady,
        fade_of(PlaybackState::Stopped) == Fade::Steady,
        fade_of(PlaybackState::Playing) == Fade::Steady,
{
}

/// A moving level is one whose end a frame can reach: the states whose
/// level rises or falls are exactly those that a finished fade leaves.
pub proof fn lemma_moving_level_ends_with_fade(state: PlaybackState)
    ensures
        fade_of(state) != Fade::Steady <==> after_frame(state, true) != state,
{
}

/// What each control leads to: play, pause, stop and fade-in each reach their
/// own state from anywhere; fade-out starts a fade in a sounding player and
/// leaves a silent one as it is.
pub proof fn lemma_command_outcomes(state: PlaybackState)
    ensures
        after_command(state, Command::Play) == PlaybackState::Playing,
        after_command(state, Command::Pause) == PlaybackState::Paused,
        after_command(state, Command::Stop) == PlaybackState::Stopped,
        after_command(state, Command::FadeIn) == PlaybackState::FadingIn,
        (state == PlaybackState::Stopped || state == PlaybackState::Paused)
            ==> after_command(state, Command::FadeOut) == state,
        (state == PlaybackState::Playing || state == PlaybackState::FadingIn || state == PlaybackState::FadingOut)
            ==> after_command(state, Command::FadeOut) == PlaybackState::FadingOut,
{
}

/// What each control does to the level: play jumps to the target, pause,
/// stop and fade-in silence it, fade-out leaves it to fall from where it is;
/// only stop restarts the brown-noise walk.
pub proof fn lemma_command_levels(command: Command)
    ensures
        command_effect(command).level == LevelChange::ToTarget <==> command == Command::Play,
        command_effect(command).level == LevelChange::Keep <==> command == Command::FadeOut,
        command_effect(command).level == LevelChange::ToSilence <==> (command == Command::Pause
            || command == Command::Stop || command == Command::FadeIn),
        command_effect(command).reset_brown <==> command == Command::Stop,
{
}

/// A frame whose fade step reaches the end of a fade finishes it: a fade-in
/// plays on, a fade-out stops and restarts the brown-noise walk; no other
/// frame restarts the walk.
pub proof fn lemma_finished_fades(state: PlaybackState, limit_reached: bool)
    ensures
        after_frame(PlaybackState::FadingIn, true) == PlaybackState::Playing,
        after_frame(PlaybackState::FadingOut, true) == PlaybackState::Stopped,
        frame_resets_brown(state, limit_reached) <==> (limit_reached && state == PlaybackState::FadingOut),
        (state != PlaybackState::FadingIn && state != PlaybackState::FadingOut)
            ==> after_frame(state, limit_reached) == state,
{
}

/// The playback state of the player, changed by the controls and by the
/// frames that the audio callback renders.
#[derive(Clone, Copy, Debug, PartialEq, Eq, Structural)]
pub struct Transport {
    playback: PlaybackState,
}

impl View for Transport {
    type V = PlaybackState;

    closed spec fn view(&self) -> PlaybackState {
        self.playback
    }
}

impl Transport {
    /// A stopped transport.
    pub fn new() -> (r: Transport)
        ensures
            r@ == PlaybackState::Stopped,
    {
        Transport { playback: PlaybackState::Stopped }
    }

    /// The current playback state.
    pub fn playback(&self) -> (r: PlaybackState)
        ensures
            r == self@,
    {
        self.playback
    }

    /// Applies a control and says what it does to the level and the
    /// brown-noise walk.
    pub fn apply(&mut self, command: Command) -> (effect: CommandEffect)
        ensures
            final(self)@ == after_command(old(self)@, command),
            effect == command_effect(command),
    {
        let next = match command {
            Command::Play => PlaybackState::Playing,
            Command::Pause => PlaybackState::Paused,
            Command::Stop => PlaybackState::Stopped,
            Command::FadeIn => PlaybackState::FadingIn,
            Command::FadeOut => match self.playback {
                PlaybackState::Stopped | PlaybackState::Paused => self.playback,
                _ => PlaybackState::FadingOut,
            },
        };
        self.playback = next;
        let level = match command {
            Command::Play => LevelChange::ToTarget,
            Command::FadeOut => LevelChange::Keep,
            _ => LevelChange::ToSilence,
        };
        let reset_brown = match command {
            Command::Stop => true,
            _ => false,
        };
        CommandEffect { level, reset_brown }
    }

    /// Starts playing at the target volume.
    pub fn play(&mut self) -> (effect: CommandEffect)
        ensures
            final(self)@ == PlaybackState::Playing,
            effect == command_effect(Command::Play),
    {
        self.apply(Command::Play)
    }

    /// Pauses: silent, with the brown-noise walk kept.
    pub fn pause(&mut self) -> (effect: CommandEffect)
        ensures
            final(self)@ == PlaybackState::Paused,
            effect == command_effect(Command::Pause),
    {
        self.apply(Command::Pause)
    }

    /// Stops: silent, with the brown-noise walk restarted.
    pub fn stop(&mut self) -> (effect: CommandEffect)
        ensures
            final(self)@ == PlaybackState::Stopped,
            effect == command_effect(Command::Stop),
    {
        self.apply(Command::Stop)
    }

    /// Starts a fade-in from silence.
    pub fn fade_in(&mut self) -> (effect: CommandEffect)
        ensures
            final(self)@ == PlaybackState::FadingIn,
            effect == command_effect(Command::FadeIn),
    {
        self.apply(Command::FadeIn)
    }

    /// Starts a fade-out from the current level, unless the player is
    /// already silent.
    pub fn fade_out(&mut self) -> (effect: CommandEffect)
        ensures
            final(self)@ == after_command(old(self)@, Command::FadeOut),
            is_silent(old(self)@) ==> final(self)@ == old(self)@,
            !is_silent(old(self)@) ==> final(self)@ == PlaybackState::FadingOut,
            effect == command_effect(Command::FadeOut),
    {
        self.apply(Command::FadeOut)
    }

    /// Whether a new target volume takes effect at once: only while
    /// playing; a fade or a later play picks it up otherwise.
    pub fn volume_follows_target(&self) -> (r: bool)
        ensures
            r <==> self@ == PlaybackState::Playing,
    {
        match self.playback {
            PlaybackState::Playing => true,
            _ => false,
        }
    }

    /// Whether frames rendered now carry noise.
    pub fn emits_noise(&self) -> (r: bool)
        ensures
            r <==> !is_silent(self@),
            r <==> (self@ == PlaybackState::Playing || self@ == PlaybackState::FadingIn
                || self@ == PlaybackState::FadingOut),
    {
        match self.playback {
            PlaybackState::Stopped | PlaybackState::Paused => false,
            PlaybackState::Playing | PlaybackState::FadingIn | PlaybackState::FadingOut => true,
        }
    }

    /// How the level moves during the frame rendered now.
    pub fn fade(&self) -> (r: Fade)
        ensures
            r == fade_of(self@),
            r == Fade::Rising <==> self@ == PlaybackState::FadingIn,
            r == Fade::Falling <==> self@ == PlaybackState::FadingOut,
            r == Fade::Steady <==> (self@ != PlaybackState::FadingIn && self@ != PlaybackState::FadingOut),
    {
        match self.playback {
            PlaybackState::FadingIn => Fade::Rising,
            PlaybackState::FadingOut => Fade::Falling,
            _ => Fade::Steady,
        }
    }

    /// Ends a frame, given whether its fade step brought the level to the
    /// end of the fade; returns whether the brown-noise walk restarts.
    pub fn finish_frame(&mut self, limit_reached: bool) -> (reset_brown: bool)
        ensures
            final(self)@ == after_frame(old(self)@, limit_reached),
            reset_brown == frame_resets_brown(old(self)@, limit_reached),
    {
        if limit_reached {
            match self.playback {
                PlaybackState::FadingIn => {
                    self.playback = PlaybackState::Playing;
                    false
                },
                PlaybackState::FadingOut => {
                    self.playback = PlaybackState::Stopped;
                    true
                },
                _ => false,
            }
        } else {
            false
        }
    }
}

} // verus!
