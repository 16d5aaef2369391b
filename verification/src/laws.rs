//! Laws of the metronome's transitions, proved once and for all states.
//!
//! Each law is stated over [`Metronome`], the view of
//! [`MetronomeState`](crate::metronome::MetronomeState), in the terms that the
//! operations' own contracts use: what holds of `m.up()` here holds of the
//! state that `on_up` leaves. The last three carry the laws over to the
//! messages of the application model.

use vstd::prelude::*;
use crate::metronome::{Intent, Metronome};
use crate::shell::{AppView, Message};

verus! {

/// One Up step in beats mode: below 8 the beats grow by one, and 8 is
/// followed by 0. The tempo and the mode stay as they are.
pub proof fn lemma_up_wraps_at_eight(m: Metronome)
    requires
        m.wf(),
        !m.is_tempo_mode,
    ensures
        m.up() == (Metronome { beats: if m.beats < 8 { m.beats + 1 } else { 0 }, ..m }),
{
}

/// One Down step in beats mode: above 0 the beats shrink by one, and 0 is
/// followed by 8. The tempo and the mode stay as they are.
pub proof fn lemma_down_wraps_at_zero(m: Metronome)
    requires
        m.wf(),
        !m.is_tempo_mode,
    ensures
        m.down() == (Metronome { beats: if m.beats > 0 { m.beats - 1 } else { 8 }, ..m }),
{
}

/// In beats mode, `n` Up steps move the beats `n` places forward around the
/// cycle 0, 1, .., 8 and change nothing else. However many steps are taken,
/// the beats therefore stay within `0..=8`.
pub proof fn lemma_up_steps_beats(m: Metronome, n: nat)
    requires
        m.wf(),
        !m.is_tempo_mode,
    ensures
        m.repeat(Intent::Up, n) == (Metronome { beats: (m.beats + n) % 9, ..m }),
        m.repeat(Intent::Up, n).wf(),
    decreases n,
{
    if n > 0 {
        lemma_up_steps_beats(m, (n - 1) as nat);
    }
}

/// In beats mode Up has cycle length nine: nine consecutive steps lead back
/// to the state they started from, and `n` steps bring back the starting
/// beats only when `n` is a multiple of nine.
pub proof fn lemma_up_cycle(m: Metronome, n: nat)
    requires
        m.wf(),
        !m.is_tempo_mode,
    ensures
        m.repeat(Intent::Up, 9) == m,
        m.repeat(Intent::Up, n) == m <==> n % 9 == 0,
        m.repeat(Intent::Up, n).beats == m.beats <==> n % 9 == 0,
{
    lemma_up_steps_beats(m, 9);
    lemma_up_steps_beats(m, n);
}

/// In beats mode, `n` Down steps move the beats `n` places backward around
/// the cycle and change nothing else. However many steps are taken, the beats
/// therefore stay within `0..=8`.
pub proof fn lemma_down_steps_beats(m: Metronome, n: nat)
    requires
        m.wf(),
        !m.is_tempo_mode,
    ensures
        m.repeat(Intent::Down, n) == (Metronome { beats: (m.beats - n) % 9, ..m }),
        m.repeat(Intent::Down, n).wf(),
    decreases n,
{
    if n > 0 {
        lemma_down_steps_beats(m, (n - 1) as nat);
    }
}

/// In beats mode Down has cycle length nine: nine consecutive steps lead back
/// to the state they started from, and `n` steps bring back the starting
/// beats only when `n` is a multiple of nine.
pub proof fn lemma_down_cycle(m: Metronome, n: nat)
    requires
        m.wf(),
        !m.is_tempo_mode,
    ensures
        m.repeat(Intent::Down, 9) == m,
        m.repeat(Intent::Down, n) == m <==> n % 9 == 0,
        m.repeat(Intent::Down, n).beats == m.beats <==> n % 9 == 0,
{
    lemma_down_steps_beats(m, 9);
    lemma_down_steps_beats(m, n);
}

/// In tempo mode nothing bounds the tempo: `n` Up steps add `n` to it and
/// `n` Down steps take `n` from it, below zero too, and the beats stay put.
pub proof fn lemma_steps_tempo(m: Metronome, n: nat)
    requires
        m.is_tempo_mode,
    ensures
        m.repeat(Intent::Up, n) == (Metronome { tempo: m.tempo + n, ..m }),
        m.repeat(Intent::Down, n) == (Metronome { tempo: m.tempo - n, ..m }),
    decreases n,
{
    if n > 0 {
        lemma_steps_tempo(m, (n - 1) as nat);
    }
}

/// ToggleMode is its own inverse: two of them restore the mode, and neither
/// touches the tempo or the beats.
pub proof fn lemma_toggle_mode_twice(m: Metronome)
    ensures
        m.toggle_mode().toggle_mode() == m,
        m.toggle_mode().tempo == m.tempo,
        m.toggle_mode().beats == m.beats,
        m.toggle_mode().is_tempo_mode == !m.is_tempo_mode,
        m.repeat(Intent::ToggleMode, 2) == m,
{
    reveal_with_fuel(Metronome::repeat, 3);
}

/// Play leaves the tempo, the beats and the mode as they are, however often
/// it is applied.
pub proof fn lemma_play_changes_nothing(m: Metronome, n: nat)
    ensures
        m.play() == m,
        m.repeat(Intent::Play, n) == m,
    decreases n,
{
    if n > 0 {
        lemma_play_changes_nothing(m, (n - 1) as nat);
    }
}

/// Every transition keeps the beats within `0..=8`.
pub proof fn lemma_apply_preserves_wf(m: Metronome, intent: Intent)
    requires
        m.wf(),
    ensures
        m.apply(intent).wf(),
{
}

/// No message takes the beats of the application's metronome out of
/// `0..=8`.
pub proof fn lemma_update_preserves_wf(v: AppView, message: Message)
    requires
        v.metronome.wf(),
    ensures
        v.update(message).metronome.wf(),
{
}

/// Pressing the mode button twice leaves the application model as it was.
pub proof fn lemma_mode_button_twice(v: AppView)
    ensures
        v.update(Message::ButtonModePressed).update(Message::ButtonModePressed) == v,
{
}

/// Pressing the play button leaves the application model as it was.
pub proof fn lemma_play_button_changes_nothing(v: AppView)
    ensures
        v.update(Message::ButtonPlayPressed) == v,
{
}

} // verus!
