use vstd::prelude::*;

verus! {

/// The three phases a player can be in.
#[derive(Debug, Copy, Clone, PartialEq, Eq, Structural)]
pub enum StateKind {
    Stopped,
    Paused,
    Playing,
}

/// Where pressing play leads from each phase: stopped and paused start
/// playback, playback pauses.
pub open spec fn play_target(k: StateKind) -> StateKind {
    match k {
        StateKind::Stopped => StateKind::Playing,
        StateKind::Paused => StateKind::Playing,
        StateKind::Playing => StateKind::Paused,
    }
}

/// Where pressing stop leads from each phase: always to stopped.
pub open spec fn stop_target(k: StateKind) -> StateKind {
    StateKind::Stopped
}

/// What a button press hands back: the concrete next state.  `boxed`
/// turns it into a state object again.
pub enum Transition {
    ToStopped(StoppedState),
    ToPaused(PausedState),
    ToPlaying(PlayingState),
}

impl Transition {
    /// The phase of the state inside.
    pub open spec fn kind(&self) -> StateKind {
        match self {
            Transition::ToStopped(_) => StateKind::Stopped,
            Transition::ToPaused(_) => StateKind::Paused,
            Transition::ToPlaying(_) => StateKind::Playing,
        }
    }

    /// The next state as a state object, for callers that keep the state
    /// behind `dyn`; what Verus knows of it is only what `phase` says.
    pub fn boxed(self) -> Box<dyn State> {
        match self {
            Transition::ToStopped(s) => Box::new(s),
            Transition::ToPaused(s) => Box::new(s),
            Transition::ToPlaying(s) => Box::new(s),
        }
    }
}

/// One phase of the player, as a state object: pressing a button consumes
/// the state and hands back the next one, never touching the player.
pub trait State {
    spec fn kind(&self) -> StateKind;

    /// The phase, readable through a state object.
    fn phase(&self) -> (k: StateKind)
        ensures
            k == self.kind(),
    ;

    fn play(self: Box<Self>, player: &mut Player) -> (t: Transition)
        ensures
            *final(player) == *old(player),
            t.kind() == play_target(self.kind()),
    ;

    fn stop(self: Box<Self>, player: &mut Player) -> (t: Transition)
        ensures
            *final(player) == *old(player),
            t.kind() == stop_target(self.kind()),
    ;
}

/// The player is stopped.
pub struct StoppedState;

/// The player is paused.
pub struct PausedState;

/// The player is playing.
pub struct PlayingState;

impl State for StoppedState {
    open spec fn kind(&self) -> StateKind {
        StateKind::Stopped
    }

    fn phase(&self) -> (k: StateKind) {
        StateKind::Stopped
    }

    fn play(self: Box<Self>, player: &mut Player) -> (t: Transition) {
        Transition::ToPlaying(PlayingState)
    }

    fn stop(self: Box<Self>, player: &mut Player) -> (t: Transition) {
        Transition::ToStopped(*self)
    }
}

impl State for PausedState {
    open spec fn kind(&self) -> StateKind {
        StateKind::Paused
    }

    fn phase(&self) -> (k: StateKind) {
        StateKind::Paused
    }

    fn play(self: Box<Self>, player: &mut Player) -> (t: Transition) {
        Transition::ToPlaying(PlayingState)
    }

    fn stop(self: Box<Self>, player: &mut Player) -> (t: Transition) {
        Transition::ToStopped(StoppedState)
    }
}

impl State for PlayingState {
    open spec fn kind(&self) -> StateKind {
        StateKind::Playing
    }

    fn phase(&self) -> (k: StateKind) {
        StateKind::Playing
    }

    fn play(self: Box<Self>, player: &mut Player) -> (t: Transition) {
        Transition::ToPaused(PausedState)
    }

    fn stop(self: Box<Self>, player: &mut Player) -> (t: Transition) {
        Transition::ToStopped(StoppedState)
    }
}

/// The player whose buttons drive the state objects; it knows the track
/// it would play.
pub struct Player {
    music: String,
}

impl Player {
    /// The loaded track.
    pub closed spec fn spec_music(&self) -> Seq<char> {
        self.music@
    }

    /// A player loaded with a track.
    pub fn new(music: &str) -> (p: Self)
        ensures
            p.spec_music() == music@,
    {
        Self { music: music.to_owned() }
    }

    /// The loaded track.
    pub fn music(&self) -> (m: &str)
        ensures
            m@ == self.spec_music(),
    {
        self.music.as_str()
    }
}

} // verus!
