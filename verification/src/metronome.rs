//! The metronome state controller.
//!
//! [`Metronome`] is the state as a mathematical value, with one total
//! transition per [`Intent`]. [`MetronomeState`] is the executable state; its
//! view is a [`Metronome`], and every operation is specified as the matching
//! transition of that view.

use vstd::prelude::*;

verus! {

/// Tempo of a freshly created metronome, in beats per minute.
pub const DEFAULT_TEMPO: i64 = 120;

/// Beats per measure of a freshly created metronome.
pub const DEFAULT_BEATS: u64 = 4;

/// Largest beats-per-measure value; one step above it wraps to 0.
pub const MAX_BEATS: u64 = 8;

/// A discrete user action consumed by the controller.
#[derive(Clone, Copy, Debug, PartialEq, Eq, Structural)]
pub enum Intent {
    Up,
    Down,
    ToggleMode,
    Play,
}

/// The metronome state as a mathematical value.
///
/// `tempo` is an unbounded integer: it has no floor and no ceiling, and may
/// be zero or negative. `beats` is meant to lie in `0..=8`, see
/// [`Metronome::wf`]. Exactly one of the two is being edited at any time:
/// the tempo when `is_tempo_mode` holds, the beats otherwise.
pub struct Metronome {
    pub tempo: int,
    pub beats: int,
    pub is_tempo_mode: bool,
}

impl Metronome {
    /// The invariant of the state: beats per measure lies in `0..=8`.
    pub open spec fn wf(self) -> bool {
        0 <= self.beats <= MAX_BEATS
    }

    /// The state a metronome starts in: 120 beats per minute, 4 beats per
    /// measure, Up and Down editing the tempo.
    pub open spec fn initial() -> Metronome {
        Metronome { tempo: DEFAULT_TEMPO as int, beats: DEFAULT_BEATS as int, is_tempo_mode: true }
    }

    /// Up: in tempo mode the tempo grows by one; in beats mode the beats
    /// advance by one around the cycle 0, 1, .., 8, 0.
    pub open spec fn up(self) -> Metronome {
        if self.is_tempo_mode {
            Metronome { tempo: self.tempo + 1, ..self }
        } else {
            Metronome { beats: (self.beats + 1) % (MAX_BEATS + 1), ..self }
        }
    }

    /// Down: in tempo mode the tempo shrinks by one; in beats mode the beats
    /// go back by one around the cycle 8, 7, .., 0, 8. (`%` is the Euclidean
    /// remainder here, so 0 is followed by 8.)
    pub open spec fn down(self) -> Metronome {
        if self.is_tempo_mode {
            Metronome { tempo: self.tempo - 1, ..self }
        } else {
            Metronome { beats: (self.beats - 1) % (MAX_BEATS + 1), ..self }
        }
    }

    /// ToggleMode: flips which counter Up and Down edit.
    pub open spec fn toggle_mode(self) -> Metronome {
        Metronome { is_tempo_mode: !self.is_tempo_mode, ..self }
    }

    /// Play: reserved for playback; it changes nothing.
    pub open spec fn play(self) -> Metronome {
        self
    }

    /// The state that follows `self` on `intent`.
    pub open spec fn apply(self, intent: Intent) -> Metronome {
        match intent {
            Intent::Up => self.up(),
            Intent::Down => self.down(),
            Intent::ToggleMode => self.toggle_mode(),
            Intent::Play => self.play(),
        }
    }

    /// The state after `n` consecutive applications of `intent`.
    pub open spec fn repeat(self, intent: Intent, n: nat) -> Metronome
        decreases n,
    {
        if n == 0 {
            self
        } else {
            self.repeat(intent, (n - 1) as nat).apply(intent)
        }
    }

    /// Whether a [`MetronomeState`] with this view can take `intent`: the
    /// tempo that would result has to fit the machine integer that stores it.
    /// Nothing else is ever asked of an intent.
    pub open spec fn accepts(self, intent: Intent) -> bool {
        match intent {
            Intent::Up => self.is_tempo_mode ==> self.tempo < i64::MAX,
            Intent::Down => self.is_tempo_mode ==> self.tempo > i64::MIN,
            Intent::ToggleMode | Intent::Play => true,
        }
    }
}

/// The executable metronome state.
///
/// The fields are private and [`MetronomeState::inv`] is a type invariant, so
/// every value of this type that a program can hold has its beats within
/// `0..=8`.
#[derive(Clone, Copy, Debug, PartialEq, Eq)]
pub struct MetronomeState {
    tempo: i64,
    beats: u64,
    is_tempo_mode: bool,
}

impl View for MetronomeState {
    type V = Metronome;

    closed spec fn view(&self) -> Metronome {
        Metronome {
            tempo: self.tempo as int,
            beats: self.beats as int,
            is_tempo_mode: self.is_tempo_mode,
        }
    }
}

impl MetronomeState {
    /// The type invariant: the view of every value is well formed.
    #[verifier::type_invariant]
    pub open spec fn inv(self) -> bool {
        self@.wf()
    }

    /// Creates the state a metronome starts in.
    pub fn new() -> (state: MetronomeState)
        ensures
            state@ == Metronome::initial(),
    {
        MetronomeState { tempo: DEFAULT_TEMPO, beats: DEFAULT_BEATS, is_tempo_mode: true }
    }

    /// The tempo, in beats per minute.
    pub fn tempo(&self) -> (tempo: i64)
        ensures
            tempo == self@.tempo,
    {
        self.tempo
    }

    /// The beats per measure, always within `0..=8`.
    pub fn beats(&self) -> (beats: u64)
        ensures
            beats == self@.beats,
            self@.wf(),
    {
        proof {
            use_type_invariant(self);
        }
        self.beats
    }

    /// Whether Up and Down edit the tempo (`true`) or the beats (`false`).
    pub fn is_tempo_mode(&self) -> (is_tempo_mode: bool)
        ensures
            is_tempo_mode == self@.is_tempo_mode,
    {
        self.is_tempo_mode
    }

    /// Tells whether `intent` can be handled in this state, that is whether
    /// the precondition of [`MetronomeState::handle`] holds for it.
    pub fn accepts(&self, intent: Intent) -> (ok: bool)
        ensures
            ok == self@.accepts(intent),
    {
        match intent {
            Intent::Up => !self.is_tempo_mode || self.tempo < i64::MAX,
            Intent::Down => !self.is_tempo_mode || self.tempo > i64::MIN,
            Intent::ToggleMode | Intent::Play => true,
        }
    }

    /// Applies Up: one more beat per minute in tempo mode; in beats mode one
    /// more beat per measure, with 8 followed by 0.
    pub fn on_up(&mut self)
        requires
            old(self)@.accepts(Intent::Up),
        ensures
            final(self)@ == old(self)@.up(),
            final(self)@.wf(),
    {
        proof {
            use_type_invariant(&*self);
        }
        if self.is_tempo_mode {
            self.tempo = self.tempo + 1;
        } else if self.beats < MAX_BEATS {
            self.beats = self.beats + 1;
        } else {
            self.beats = 0;
        }
    }

    /// Applies Down: one beat per minute less in tempo mode, with no floor;
    /// in beats mode one beat per measure less, with 0 followed by 8.
    pub fn on_down(&mut self)
        requires
            old(self)@.accepts(Intent::Down),
        ensures
            final(self)@ == old(self)@.down(),
            final(self)@.wf(),
    {
        proof {
            use_type_invariant(&*self);
        }
        if self.is_tempo_mode {
            self.tempo = self.tempo - 1;
        } else if self.beats > 0 {
            self.beats = self.beats - 1;
        } else {
            self.beats = MAX_BEATS;
        }
    }

    /// Applies ToggleMode: switches between editing the tempo and editing
    /// the beats. Both counters keep their values.
    pub fn on_toggle_mode(&mut self)
        ensures
            final(self)@ == old(self)@.toggle_mode(),
            final(self)@.wf(),
    {
        proof {
            use_type_invariant(&*self);
        }
        self.is_tempo_mode = !self.is_tempo_mode;
    }

    /// Applies Play. Playback is not scheduled here: the state stays as it is.
    pub fn on_play(&mut self)
        ensures
            final(self)@ == old(self)@.play(),
            final(self)@ == old(self)@,
            final(self)@.wf(),
    {
        proof {
            use_type_invariant(&*self);
        }
    }

    /// Handles one intent to completion and leaves the state that follows.
    pub fn handle(&mut self, intent: Intent)
        requires
            old(self)@.accepts(intent),
        ensures
            final(self)@ == old(self)@.apply(intent),
            final(self)@.wf(),
    {
        match intent {
            Intent::Up => self.on_up(),
            Intent::Down => self.on_down(),
            Intent::ToggleMode => self.on_toggle_mode(),
            Intent::Play => self.on_play(),
        }
    }
}

} // verus!
