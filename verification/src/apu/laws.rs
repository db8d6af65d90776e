use super::constants::length_table;
use super::noise::Noise;
use super::square::Square;
use super::triangle::Triangle;
use super::{Apu, Sample};
use crate::helper::flag_bit;
use crate::types::Data;
use vstd::prelude::*;

verus! {

/// In the four-step mode with the frame interrupt enabled, exactly one of any
/// four steps of the sequencer in a row raises the frame interrupt, and that
/// step sets the frame interrupt flag.
pub proof fn lemma_frame_interrupt_once(a0: Apu)
    requires
        !a0.sequencer_mode,
        a0.enable_irq,
    ensures
        ({
            let a1 = a0.after_frame_step();
            let a2 = a1.after_frame_step();
            let a3 = a2.after_frame_step();
            &&& flag_bit(a0.frame_step_interrupts()) + flag_bit(a1.frame_step_interrupts())
                + flag_bit(a2.frame_step_interrupts()) + flag_bit(a3.frame_step_interrupts()) == 1
            &&& a3.after_frame_step().frame_irq
        }),
{
    let a1 = a0.after_frame_step();
    let a2 = a1.after_frame_step();
    let a3 = a2.after_frame_step();
    assert(!a1.sequencer_mode && a1.enable_irq && a1.step == a0.next_step());
    assert(!a2.sequencer_mode && a2.enable_irq && a2.step == a1.next_step());
    assert(!a3.sequencer_mode && a3.enable_irq && a3.step == a2.next_step());
}

/// A write to the fourth register of a pulse, triangle or noise channel
/// loads the length counter from the length table, at the index that the top
/// five bits of the byte give.
pub proof fn lemma_length_reload(square: Square, triangle: Triangle, noise: Noise, data: Data)
    ensures
        square.after_write(3, data).length_value == length_table(data / 8),
        triangle.after_write(3, data).length_value == length_table(data / 8),
        noise.after_write(3, data).length_value == length_table(data / 8),
        data / 8 < 32,
{
}

/// While all five channels are disabled the mixer is fed nothing: both of its
/// inputs are zero.
pub proof fn lemma_disabled_is_silent(a: Apu)
    requires
        !a.squares.0.enabled,
        !a.squares.1.enabled,
        !a.triangle.enabled,
        !a.noise.enabled,
        !a.dmc.is_enabled,
    ensures
        a.mixer_input() == (Sample { pulse: 0, tnd: 0 }),
{
}

} // verus!
