//! Signal-acquisition logic: preamble window check on edge timestamps,
//! MSB-first accumulation of the 52 sampled bits, repeat detection against
//! the last completed capture, and the debounced enable toggle.
//!
//! The timed waits, pin reads and channel sends stay with the runtime; this
//! module turns their plain values (timestamps, sampled levels) into the
//! wire word the router consumes.

use vstd::prelude::*;

use vstd::arithmetic::power2::{
    pow2, lemma2_to64, lemma2_to64_rest, lemma_pow2_strictly_increases, lemma_pow2_unfold,
};

use crate::config::{
    MAX_REPETITION_INTERVAL, PREAMBLE_REFERENCE, PREAMBLE_TOLERANCE,
};
use crate::remote::{spec_address, spec_data, spec_encode, spec_repeated, DATA_WIDTH, FLAGS_OFFSET};

verus! {

/// Value of a bit string read MSB-first: the first sampled bit lands in the
/// most significant position.
pub open spec fn spec_bits_value(bits: Seq<bool>) -> nat
    decreases bits.len(),
{
    if bits.len() == 0 {
        0
    } else {
        2 * spec_bits_value(bits.drop_last()) + (if bits.last() {
            1nat
        } else {
            0nat
        })
    }
}

/// A bit string's value fits in as many bits as it has.
pub proof fn lemma_bits_value_bound(bits: Seq<bool>)
    ensures
        spec_bits_value(bits) < pow2(bits.len()),
    decreases bits.len(),
{
    if bits.len() == 0 {
        lemma2_to64();
    } else {
        lemma_bits_value_bound(bits.drop_last());
        lemma_pow2_unfold(bits.len());
    }
}

/// Elapsed ticks between two monotonic timestamps, modulo the counter width.
pub open spec fn spec_tick_delta(now: u64, prev: u64) -> u64 {
    vstd::wrapping::u64_specs::wrapping_sub(now, prev)
}

/// The preamble window: a pulse counts as a preamble when its width lies
/// within the configured tolerance around the reference width.
pub open spec fn spec_preamble_matches(delta: u64) -> bool {
    PREAMBLE_REFERENCE - PREAMBLE_TOLERANCE <= delta && delta < PREAMBLE_REFERENCE
        + PREAMBLE_TOLERANCE
}

/// Folds the 52 sampled line levels into the raw capture payload, first
/// sample into the most significant bit.
pub fn accumulate_samples(samples: &Vec<bool>) -> (payload: u64)
    requires
        samples@.len() == DATA_WIDTH,
    ensures
        payload == spec_bits_value(samples@),
        payload < 0x0010_0000_0000_0000,
{
    let mut payload: u64 = 0;
    let mut i: usize = 0;
    while i < samples.len()
        invariant
            samples@.len() == DATA_WIDTH,
            i <= samples@.len(),
            payload == spec_bits_value(samples@.take(i as int)),
        decreases samples@.len() - i,
    {
        let bit = samples[i];
        proof {
            lemma_bits_value_bound(samples@.take(i as int));
            if (i as nat) < 51 {
                lemma_pow2_strictly_increases(i as nat, 51);
            }
            lemma2_to64_rest();
            assert(samples@.take(i as int + 1).drop_last() =~= samples@.take(i as int));
            assert(samples@.take(i as int + 1).last() == samples@[i as int]);
        }
        let ghost prev: u64 = payload;
        assert(prev < 0x0008_0000_0000_0000 ==> (prev << 1u64) == 2 * prev && ((prev << 1u64) | 1)
            == 2 * prev + 1) by (bit_vector);
        payload = if bit {
            (payload << 1u64) | 1
        } else {
            payload << 1u64
        };
        i = i + 1;
    }
    proof {
        assert(samples@.take(samples@.len() as int) =~= samples@);
        lemma_bits_value_bound(samples@);
        lemma2_to64_rest();
    }
    payload
}

/// Raising the repeat flag on a 52-bit payload leaves the address and data
/// fields as they are: the composed word is exactly the codec's encoding of
/// those fields with that flag.
pub proof fn lemma_payload_compose(payload: u64, repeated: bool)
    requires
        payload < 0x0010_0000_0000_0000,
    ensures
        spec_encode(spec_address(payload), spec_data(payload), repeated) == (if repeated {
            (1u64 << FLAGS_OFFSET) | payload
        } else {
            payload
        }),
        spec_repeated((1u64 << FLAGS_OFFSET) | payload) == true,
        spec_repeated(payload) == false,
{
    assert(payload < 0x0010_0000_0000_0000 ==> (1u64 << 56) | ((((payload >> 32)
        & 0x000f_ffff) as u32 as u64) << 32) | ((payload & 0xffff_ffff) as u32 as u64) == (1u64
        << 56) | payload) by (bit_vector);
    assert(payload < 0x0010_0000_0000_0000 ==> (0u64 << 56) | ((((payload >> 32)
        & 0x000f_ffff) as u32 as u64) << 32) | ((payload & 0xffff_ffff) as u32 as u64)
        == payload) by (bit_vector);
    assert(((((1u64 << 56) | payload) >> 56) as u8) & 0x1 != 0) by (bit_vector);
    assert(payload < 0x0010_0000_0000_0000 ==> ((payload >> 56) as u8) & 0x1 == 0) by (bit_vector);
}

/// History the acquisition engine keeps between captures: the previous raw
/// payload and the timestamp of the previous completed capture.
#[derive(Clone, Copy, Debug, PartialEq, Eq, Structural)]
pub struct CaptureHistory {
    pub last_ticks: u64,
    pub last_keycode: u64,
}

impl CaptureHistory {
    /// Fresh history, as at power-up.
    pub fn new() -> (r: CaptureHistory)
        ensures
            r.last_ticks == 0,
            r.last_keycode == 0,
    {
        CaptureHistory { last_ticks: 0, last_keycode: 0 }
    }

    /// A capture counts as a repeat exactly when its payload equals the
    /// previous one and it completed within the configured maximum
    /// repetition interval of it.
    pub open spec fn spec_is_repeat(self, payload: u64, ticks: u64) -> bool {
        self.last_keycode == payload && spec_tick_delta(ticks, self.last_ticks)
            < MAX_REPETITION_INTERVAL
    }

    /// Closes one capture: computes the repeat flag against the stored
    /// history, overwrites the history with this capture, and composes the
    /// wire word (flag byte over the 52-bit payload).
    pub fn finish_capture(&mut self, payload: u64, ticks: u64) -> (word: u64)
        requires
            payload < 0x0010_0000_0000_0000,
        ensures
            spec_repeated(word) == old(self).spec_is_repeat(payload, ticks),
            spec_address(word) == spec_address(payload),
            spec_data(word) == spec_data(payload),
            word == spec_encode(
                spec_address(payload),
                spec_data(payload),
                old(self).spec_is_repeat(payload, ticks),
            ),
            final(self).last_ticks == ticks,
            final(self).last_keycode == payload,
    {
        let delta = ticks.wrapping_sub(self.last_ticks);
        let mut flags: u8 = 0;
        if self.last_keycode == payload {
            if delta < MAX_REPETITION_INTERVAL {
                flags = flags | 0x1;
            }
        }
        self.last_ticks = ticks;
        self.last_keycode = payload;
        let word = ((flags as u64) << FLAGS_OFFSET) | payload;
        proof {
            let repeat = old(self).spec_is_repeat(payload, ticks);
            lemma_payload_compose(payload, repeat);
            assert((0u8 | 0x1u8) == 0x1u8) by (bit_vector);
            assert((0u64 << 56u32) | payload == payload) by (bit_vector);
            lemma_codec_fields(payload);
        }
        word
    }
}

/// Helper for `finish_capture`: the composed word's fields are the payload's.
proof fn lemma_codec_fields(payload: u64)
    requires
        payload < 0x0010_0000_0000_0000,
    ensures
        spec_address((1u64 << FLAGS_OFFSET) | payload) == spec_address(payload),
        spec_data((1u64 << FLAGS_OFFSET) | payload) == spec_data(payload),
{
    assert(((((1u64 << 56) | payload) >> 32) & 0x000f_ffff) == ((payload >> 32)
        & 0x000f_ffff)) by (bit_vector);
    assert((((1u64 << 56) | payload) & 0xffff_ffff) == (payload & 0xffff_ffff)) by (bit_vector);
}

/// Edge timing the preamble detector keeps: the timestamp of the previous
/// transition of the IR line.
#[derive(Clone, Copy, Debug, PartialEq, Eq, Structural)]
pub struct EdgeDetector {
    pub last_ticks: u64,
}

impl EdgeDetector {
    /// Fresh detector, as at power-up.
    pub fn new() -> (r: EdgeDetector)
        ensures
            r.last_ticks == 0,
    {
        EdgeDetector { last_ticks: 0 }
    }

    /// Decides one IR edge: remembers its timestamp and says whether a
    /// capture must start, which is exactly when the width of the pulse that
    /// ended here falls in the preamble window and acquisition is enabled.
    pub fn on_ir_edge(&mut self, ticks: u64, enabled: bool) -> (trigger: bool)
        ensures
            final(self).last_ticks == ticks,
            trigger == (enabled && spec_preamble_matches(
                spec_tick_delta(ticks, old(self).last_ticks),
            )),
    {
        let delta = ticks.wrapping_sub(self.last_ticks);
        self.last_ticks = ticks;
        if PREAMBLE_REFERENCE - PREAMBLE_TOLERANCE <= delta && delta < PREAMBLE_REFERENCE
            + PREAMBLE_TOLERANCE {
            enabled
        } else {
            false
        }
    }
}

/// Decides one edge of the enable button: a press toggles the shared enabled
/// flag and reports the new indicator level (lit while disabled); anything
/// else leaves both alone.
pub fn on_btn_toggle(enabled: &mut bool, btn_pressed: bool) -> (led_on: Option<bool>)
    ensures
        btn_pressed ==> *final(enabled) == !*old(enabled) && led_on == Some(!*final(enabled)),
        !btn_pressed ==> *final(enabled) == *old(enabled) && led_on is None,
{
    if btn_pressed {
        if *enabled {
            *enabled = false;
            Some(true)
        } else {
            *enabled = true;
            Some(false)
        }
    } else {
        None
    }
}

} // verus!
