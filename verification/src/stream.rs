//! The tone stream and the scale stream.
//!
//! Both streams count pitch in chromatic step indices above the reference
//! pitch A0: under tone count `n`, step `s` stands for the frequency
//! `A0 * 2^(s / n)`, so advancing one step multiplies the frequency by the
//! equal-tempered ratio `2^(1/n)`. The step bookkeeping here is exact; a
//! caller renders a step index as a floating-point frequency outside the
//! library.

use crate::mode::{Key, Mode};
use crate::pattern::{interval, interval_at, lemma_interval_bounds, lemma_interval_take_mod,
    lemma_pattern_sum_step, scale_step};
use vstd::arithmetic::div_mod::lemma_add_mod_noop_right;
use vstd::prelude::*;

verus! {

/// Tone stream: walks an N-tone equal temperament one chromatic step at a
/// time, from low to high pitch. The sequence never ends; a stream restarts
/// only by cloning or reconstructing it, never in place.
#[derive(Clone, Copy)]
pub struct FreqGenerator {
    step: u32,
    tone_count: u32,
}

impl FreqGenerator {
    /// Chromatic step index the stream currently stands at.
    pub closed spec fn step_index(self) -> u32 {
        self.step
    }

    /// Equal divisions of the octave; always positive.
    pub closed spec fn tones(self) -> u32 {
        self.tone_count
    }

    /// Well-formedness: a zero tone count would make the step ratio
    /// `2^(1/tone_count)` meaningless, so construction rejects it.
    pub open spec fn wf(self) -> bool {
        self.tones() > 0
    }

    /// Makes a stream that stands at `step` chromatic steps above the
    /// reference pitch, under `tone_count` divisions of the octave.
    pub fn new(step: u32, tone_count: u32) -> (r: Self)
        requires
            tone_count > 0,
        ensures
            r.wf(),
            r.step_index() == step,
            r.tones() == tone_count,
    {
        FreqGenerator { step, tone_count }
    }

    /// Advances one chromatic step and returns the new step index: the first
    /// call returns the step one above the seed, never the seed itself.
    pub fn next(&mut self) -> (r: u32)
        requires
            old(self).wf(),
            old(self).step_index() < u32::MAX,
        ensures
            final(self).wf(),
            final(self).tones() == old(self).tones(),
            final(self).step_index() == old(self).step_index() + 1,
            r == final(self).step_index(),
    {
        self.step = self.step + 1;
        self.step
    }

    /// Passes over the next `n` chromatic steps, as `n` calls of [`Self::next`]
    /// with the results discarded would.
    pub fn skip(self, n: u32) -> (r: Self)
        requires
            self.wf(),
            self.step_index() + n <= u32::MAX,
        ensures
            r.wf(),
            r.tones() == self.tones(),
            r.step_index() == self.step_index() + n,
    {
        FreqGenerator { step: self.step + n, tone_count: self.tone_count }
    }

    /// The stream's divisions of the octave.
    pub fn tone_count(&self) -> (r: u32)
        ensures
            r == self.tones(),
    {
        self.tone_count
    }

    /// The chromatic step index the stream currently stands at.
    pub fn position(&self) -> (r: u32)
        ensures
            r == self.step_index(),
    {
        self.step
    }
}

/// Chromatic steps a 12-tone stream seeded at the reference pitch is shifted
/// by before [`ScaleGenerator::from_key`] wraps it: far enough that the first
/// interval of the rotated pattern closes on the key's tonic. Always below 12.
pub open spec fn key_shift(key: Key, mode: Mode) -> int {
    (key.pitch_class() + 12 - interval_at(mode.rotation())) % 12
}

/// Scale stream: filters a [`FreqGenerator`] down to the degrees of the
/// diatonic pattern, rotated by a mode. Each value it produces discards the
/// chromatic steps inside one interval of the pattern and returns the step
/// that closes it, so its `k`-th value stands
/// [`scale_step`]`(seed, rotation, k)` chromatic steps above the reference.
pub struct ScaleGenerator {
    fg: FreqGenerator,
    cursor: u32,
    seed: Ghost<u32>,
    rot: Ghost<u32>,
    emitted: Ghost<nat>,
}

impl ScaleGenerator {
    /// Step index the wrapped tone stream stood at when this stream was made.
    pub closed spec fn seed_step(self) -> u32 {
        self.seed@
    }

    /// Rotation of the diatonic pattern this stream reads, below 7.
    pub closed spec fn rotation(self) -> u32 {
        self.rot@
    }

    /// How many scale degrees the stream has produced so far.
    pub closed spec fn produced(self) -> nat {
        self.emitted@
    }

    /// Divisions of the octave of the wrapped tone stream.
    pub closed spec fn tones(self) -> u32 {
        self.fg.tones()
    }

    /// Step index the wrapped tone stream currently stands at.
    pub closed spec fn current_step(self) -> u32 {
        self.fg.step_index()
    }

    /// Well-formedness: the pattern cursor and the wrapped stream's position
    /// agree with the walk that produced `self.produced()` degrees from
    /// `self.seed_step()` under rotation `self.rotation()`.
    pub closed spec fn wf(self) -> bool {
        &&& self.fg.wf()
        &&& self.rot@ < 7
        &&& self.cursor == (self.rot@ + self.emitted@) % 7
        &&& self.fg.step_index() == scale_step(self.seed@ as int, self.rot@ as int, self.emitted@)
    }

    /// Wraps a tone stream, reading the diatonic pattern from the rotation the
    /// mode names. Shifting the tone stream with [`FreqGenerator::skip`]
    /// before wrapping it selects the key; the two choices are orthogonal.
    ///
    /// The pattern is written in whole 12-tone semitones, so the scale only
    /// lands on familiar diatonic degrees when the wrapped stream divides the
    /// octave in 12; nothing here enforces that.
    pub fn new(frequencies: FreqGenerator, mode: Mode) -> (r: Self)
        requires
            frequencies.wf(),
        ensures
            r.wf(),
            r.seed_step() == frequencies.step_index(),
            r.rotation() == mode.rotation(),
            r.produced() == 0,
            r.tones() == frequencies.tones(),
            r.current_step() == frequencies.step_index(),
    {
        let cursor = mode.to_usize() as u32;
        ScaleGenerator {
            fg: frequencies,
            cursor,
            seed: Ghost(frequencies.step_index()),
            rot: Ghost(cursor),
            emitted: Ghost(0),
        }
    }

    /// Makes a 12-tone scale stream in the given key and mode. The tonic
    /// table of the key and the rotation table of the mode stay independent:
    /// the key only shifts the tone stream before it is wrapped, the mode
    /// only rotates the pattern, and the shift is chosen so that the first
    /// degree the stream produces is the key's tonic — its step index names
    /// the tonic's pitch class, within the first octave above the reference.
    pub fn from_key(key: Key, mode: Mode) -> (r: Self)
        ensures
            r.wf(),
            r.tones() == 12,
            r.rotation() == mode.rotation(),
            r.produced() == 0,
            r.seed_step() == key_shift(key, mode),
            scale_step(r.seed_step() as int, r.rotation() as int, 1) % 12 == key.pitch_class(),
            scale_step(r.seed_step() as int, r.rotation() as int, 1) < 24,
    {
        proof {
            lemma_interval_bounds(mode.rotation());
            lemma_pattern_sum_step(mode.rotation(), 0);
        }
        let rot = mode.to_usize() as u32;
        let first = interval(rot);
        let shift = (key.semitones() + 12 - first) % 12;
        proof {
            lemma_interval_take_mod(mode.rotation());
            assert((shift + interval_at(mode.rotation())) % 12 == key.pitch_class()) by {
                let pc = key.pitch_class();
                let iv = interval_at(mode.rotation());
                if pc < iv {
                    assert((pc + 12 - iv) % 12 == pc + 12 - iv);
                    assert((pc + 12 - iv + iv) % 12 == pc);
                } else {
                    assert((pc + 12 - iv) % 12 == pc - iv);
                    assert((pc - iv + iv) % 12 == pc);
                }
            }
        }
        Self::new(FreqGenerator::new(shift, 12), mode)
    }

    /// The chromatic step index the wrapped tone stream currently stands at.
    pub fn position(&self) -> (r: u32)
        ensures
            r == self.current_step(),
    {
        self.fg.position()
    }

    /// Divisions of the octave of the wrapped tone stream.
    pub fn tone_count(&self) -> (r: u32)
        ensures
            r == self.tones(),
    {
        self.fg.tone_count()
    }

    /// Produces the next scale degree: reads one interval from the pattern,
    /// discards the chromatic steps strictly inside it, and returns the tone
    /// stream's step that closes it. The `k`-th call after construction
    /// returns exactly `scale_step(seed, rotation, k)`; nothing but the
    /// construction parameters and the number of calls decides the value.
    pub fn next(&mut self) -> (r: u32)
        requires
            old(self).wf(),
            old(self).current_step() + 2 <= u32::MAX,
        ensures
            final(self).wf(),
            final(self).seed_step() == old(self).seed_step(),
            final(self).rotation() == old(self).rotation(),
            final(self).tones() == old(self).tones(),
            final(self).produced() == old(self).produced() + 1,
            r == scale_step(
                old(self).seed_step() as int,
                old(self).rotation() as int,
                old(self).produced() + 1,
            ),
            r == final(self).current_step(),
    {
        proof {
            lemma_interval_take_mod(self.rot@ + self.emitted@);
            lemma_interval_bounds(self.rot@ + self.emitted@);
            lemma_pattern_sum_step(self.rot@ as int, self.emitted@);
            lemma_add_mod_noop_right(1, self.rot@ + self.emitted@, 7);
        }
        let width = interval(self.cursor);
        self.cursor = (self.cursor + 1) % 7;
        let mut taken: u32 = 1;
        while taken < width
            invariant
                old(self).wf(),
                old(self).current_step() + 2 <= u32::MAX,
                1 <= taken <= width,
                width == interval_at(old(self).rotation() + old(self).produced()),
                self.fg.wf(),
                self.fg.tones() == old(self).tones(),
                self.fg.step_index() == old(self).current_step() + taken - 1,
                self.cursor == (old(self).rotation() + old(self).produced() + 1) % 7,
                self.seed@ == old(self).seed_step(),
                self.rot@ == old(self).rotation(),
                self.emitted@ == old(self).produced(),
            decreases width - taken,
        {
            proof {
                lemma_interval_bounds(old(self).rotation() + old(self).produced());
            }
            self.fg.next();
            taken = taken + 1;
        }
        proof {
            lemma_interval_bounds(old(self).rotation() + old(self).produced());
            lemma_pattern_sum_step(old(self).rotation() as int, old(self).produced());
        }
        let r = self.fg.next();
        self.emitted = Ghost(self.emitted@ + 1);
        r
    }
}

/// Determinism: the pitches a scale stream produces are a pure function of
/// its construction parameters and of how often it was advanced. Two streams
/// wrapped at the same seed step with the same rotation agree on every
/// degree; there is no hidden or global state.
pub proof fn lemma_deterministic(a: ScaleGenerator, b: ScaleGenerator, k: nat)
    requires
        a.seed_step() == b.seed_step(),
        a.rotation() == b.rotation(),
    ensures
        scale_step(a.seed_step() as int, a.rotation() as int, k) == scale_step(
            b.seed_step() as int,
            b.rotation() as int,
            k,
        ),
{
}

} // verus!
