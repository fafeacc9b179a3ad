//! The PS/2 serial decoder: assembles 11-bit frames (start bit, 8 data bits
//! sent least-significant first, odd parity, stop bit) from per-clock-edge
//! data-line samples, and validates a packed frame into its data byte.
//!
//! A packed word carries bit `i` of the frame at numeric weight `2^i`, in
//! the order the wire delivered them: bit 0 is the start bit, bits 1 to 8
//! the data byte, bit 9 the parity bit, bit 10 the stop bit.

use vstd::arithmetic::div_mod::lemma_fundamental_div_mod_converse;
use vstd::arithmetic::power2::{
    lemma2_to64, lemma_pow2_pos, lemma_pow2_strictly_increases, lemma_pow2_unfold, pow2,
};
use vstd::prelude::*;

verus! {

/// How many bits one PS/2 frame carries.
pub const PS2_FRAME_BITS: u8 = 11;

/// The number a bit string denotes, first bit at weight 1, later bits at
/// higher weights.
pub open spec fn spec_word_of(bits: Seq<bool>) -> nat
    decreases bits.len(),
{
    if bits.len() == 0 {
        0
    } else {
        spec_word_of(bits.drop_last()) + (if bits.last() {
            pow2((bits.len() - 1) as nat)
        } else {
            0nat
        })
    }
}

/// How many bits of a bit string are set.
pub open spec fn spec_ones_of(bits: Seq<bool>) -> nat
    decreases bits.len(),
{
    if bits.len() == 0 {
        0
    } else {
        (if bits[0] {
            1nat
        } else {
            0nat
        }) + spec_ones_of(bits.drop_first())
    }
}

/// How many binary digits of a number are set.
pub open spec fn spec_count_ones(v: nat) -> nat
    decreases v,
{
    if v == 0 {
        0
    } else {
        v % 2 + spec_count_ones(v / 2)
    }
}

/// A well-formed frame, bit by bit: start bit clear, stop bit set, and an
/// odd number of ones across the eight data bits and the parity bit.
pub open spec fn spec_valid_frame(bits: Seq<bool>) -> bool {
    &&& bits.len() == PS2_FRAME_BITS
    &&& !bits[0]
    &&& bits[10]
    &&& spec_ones_of(bits.subrange(1, 10)) % 2 == 1
}

/// The same check over a packed word: bit 0 clear, bit 10 set, and an odd
/// number of ones across bits 1 to 9.
pub open spec fn spec_frame_ok(w: u16) -> bool {
    &&& (w as nat) % 2 == 0
    &&& ((w as nat) / 1024) % 2 == 1
    &&& spec_count_ones(((w as nat) / 2) % 512) % 2 == 1
}

/// The data byte of a packed word: bits 1 to 8.
pub open spec fn spec_data_byte(w: u16) -> u8 {
    ((((w as nat) / 2) % 256)) as u8
}

/// The frame accumulator of one PS/2 port: a shift register, a bit counter,
/// and the weight the next bit will carry.
#[derive(Clone, Copy, Debug, PartialEq, Eq, Structural)]
pub struct Ps2Decoder {
    /// How many bits of the current frame have arrived.
    pub bit_count: u8,
    /// The bits that have arrived, packed at their weights.
    pub shift: u16,
    /// `pow2(bit_count)`: the weight of the next bit.
    pub weight: u16,
}

impl Ps2Decoder {
    /// The accumulator's invariant.
    pub open spec fn wf(&self) -> bool {
        &&& self.bit_count <= 10
        &&& self.weight == pow2(self.bit_count as nat)
        &&& self.shift < self.weight
    }

    /// A fresh accumulator, between frames.
    pub fn new() -> (r: Ps2Decoder)
        ensures
            r.wf(),
            r.bit_count == 0,
            r.shift == 0,
    {
        proof {
            lemma2_to64();
        }
        Ps2Decoder { bit_count: 0, shift: 0, weight: 1 }
    }

    /// Shifts in one sampled data-line level. The first ten bits accumulate
    /// at their weights; the eleventh completes the frame, hands back the
    /// packed word, and resets the accumulator for the next frame.
    pub fn add_bit(&mut self, bit: bool) -> (word: Option<u16>)
        requires
            old(self).wf(),
        ensures
            final(self).wf(),
            old(self).bit_count < 10 ==> {
                &&& word is None
                &&& final(self).bit_count == old(self).bit_count + 1
                &&& final(self).shift == old(self).shift + (if bit {
                    pow2(old(self).bit_count as nat)
                } else {
                    0nat
                })
            },
            old(self).bit_count == 10 ==> {
                &&& word == Some(
                    (old(self).shift + (if bit {
                        1024int
                    } else {
                        0int
                    })) as u16,
                )
                &&& final(self).bit_count == 0
                &&& final(self).shift == 0
            },
    {
        proof {
            lemma2_to64();
            if self.bit_count < 10 {
                lemma_pow2_strictly_increases(self.bit_count as nat, 10);
                lemma_pow2_unfold((self.bit_count + 1) as nat);
            }
        }
        if self.bit_count < 10 {
            if bit {
                self.shift = self.shift + self.weight;
            }
            self.weight = self.weight * 2;
            self.bit_count = self.bit_count + 1;
            None
        } else {
            let w = if bit {
                self.shift + 1024
            } else {
                self.shift
            };
            self.bit_count = 0;
            self.shift = 0;
            self.weight = 1;
            Some(w)
        }
    }

    /// Validates a packed 11-bit word and extracts its data byte: the byte
    /// comes back exactly when the start bit is clear, the stop bit is set,
    /// and the data and parity bits carry an odd number of ones; any other
    /// word is a framing error and yields nothing.
    pub fn check_word(word: u16) -> (r: Option<u8>)
        ensures
            r == (if spec_frame_ok(word) {
                Some(spec_data_byte(word))
            } else {
                None::<u8>
            }),
    {
        let start_ok = word % 2 == 0;
        let stop_ok = (word / 1024) % 2 == 1;
        let mid = (word / 2) % 512;
        proof {
            lemma2_to64();
            lemma_count_ones_bound(mid as nat, 9);
        }
        let mut v: u16 = mid;
        let mut ones: u16 = 0;
        while v > 0
            invariant
                ones + spec_count_ones(v as nat) == spec_count_ones(mid as nat),
                spec_count_ones(mid as nat) <= 9,
            decreases v,
        {
            ones = ones + v % 2;
            v = v / 2;
        }
        let parity_ok = ones % 2 == 1;
        if start_ok && stop_ok && parity_ok {
            Some((word / 2 % 256) as u8)
        } else {
            None
        }
    }
}

/// A number below `pow2(k)` has at most `k` set digits.
proof fn lemma_count_ones_bound(v: nat, k: nat)
    requires
        v < pow2(k),
    ensures
        spec_count_ones(v) <= k,
    decreases v,
{
    if v > 0 {
        assert(k > 0) by {
            lemma2_to64();
            if k == 0 {
                assert(pow2(0) == 1);
            }
        }
        lemma_pow2_unfold(k);
        lemma_count_ones_bound(v / 2, (k - 1) as nat);
    }
}

/// The value of a bit string, peeled from the front: the first bit plus
/// twice the value of the rest.
proof fn lemma_word_drop_first(bits: Seq<bool>)
    requires
        bits.len() >= 1,
    ensures
        spec_word_of(bits) == (if bits[0] {
            1nat
        } else {
            0nat
        }) + 2 * spec_word_of(bits.drop_first()),
    decreases bits.len(),
{
    if bits.len() == 1 {
        assert(bits.drop_first().len() == 0);
        lemma2_to64();
        assert(bits.last() == bits[0]);
        assert(spec_word_of(bits.drop_first()) == 0);
        assert(spec_word_of(bits.drop_last()) == 0);
        assert(spec_word_of(bits) == (if bits[0] {
            1nat
        } else {
            0nat
        }));
    } else {
        let n = bits.len();
        let dl = bits.drop_last();
        let df = bits.drop_first();
        lemma_word_drop_first(dl);
        assert(dl.drop_first() =~= df.drop_last());
        assert(df.last() == bits.last());
        assert(dl[0] == bits[0]);
        lemma_pow2_unfold((n - 1) as nat);
        let b0: nat = if bits[0] {
            1
        } else {
            0
        };
        let tail: nat = if bits.last() {
            pow2((n - 2) as nat)
        } else {
            0
        };
        assert(spec_word_of(df) == spec_word_of(df.drop_last()) + (if df.last() {
            pow2((n - 2) as nat)
        } else {
            0nat
        }));
        assert(spec_word_of(bits) == b0 + 2 * spec_word_of(dl.drop_first()) + 2 * tail);
        assert(spec_word_of(df) == spec_word_of(dl.drop_first()) + tail);
        assert(spec_word_of(bits) == b0 + 2 * spec_word_of(df));
    }
}

/// The value of a bit string is below `pow2` of its length.
proof fn lemma_word_bound(bits: Seq<bool>)
    ensures
        spec_word_of(bits) < pow2(bits.len()),
    decreases bits.len(),
{
    if bits.len() == 0 {
        lemma2_to64();
    } else {
        lemma_word_bound(bits.drop_last());
        lemma_pow2_unfold(bits.len());
    }
}

/// A number's set digits are exactly the set bits of any bit string that
/// denotes it.
proof fn lemma_count_ones_of_word(bits: Seq<bool>)
    ensures
        spec_count_ones(spec_word_of(bits)) == spec_ones_of(bits),
    decreases bits.len(),
{
    if bits.len() > 0 {
        lemma_word_drop_first(bits);
        let b0: nat = if bits[0] {
            1
        } else {
            0
        };
        let rest = spec_word_of(bits.drop_first());
        let w = spec_word_of(bits);
        lemma_count_ones_of_word(bits.drop_first());
        if w == 0 {
            assert(b0 == 0 && rest == 0);
        } else {
            lemma_fundamental_div_mod_converse(w as int, 2, rest as int, b0 as int);
        }
    }
}

/// Flipping one bit of a bit string moves its count of ones by exactly one.
proof fn lemma_ones_flip(s: Seq<bool>, i: int)
    requires
        0 <= i < s.len(),
    ensures
        spec_ones_of(s.update(i, !s[i])) + (if s[i] {
            1nat
        } else {
            0nat
        }) == spec_ones_of(s) + (if s[i] {
            0nat
        } else {
            1nat
        }),
    decreases s.len(),
{
    if i == 0 {
        assert(s.update(0, !s[0]).drop_first() =~= s.drop_first());
    } else {
        assert(s.update(i, !s[i]).drop_first() =~= s.drop_first().update(i - 1, !s[i]));
        lemma_ones_flip(s.drop_first(), i - 1);
    }
}

/// Law: packing an 11-bit frame into a word preserves its meaning — the
/// packed word passes the frame check exactly when the frame is well formed
/// (start bit clear, stop bit set, odd parity), and the extracted data byte
/// is the number the eight data bits denote.
pub proof fn lemma_ps2_framing(bits: Seq<bool>)
    requires
        bits.len() == PS2_FRAME_BITS,
    ensures
        spec_word_of(bits) < 2048,
        spec_frame_ok(spec_word_of(bits) as u16) <==> spec_valid_frame(bits),
        spec_valid_frame(bits) ==> spec_data_byte(spec_word_of(bits) as u16) == spec_word_of(
            bits.subrange(1, 9),
        ),
{
    lemma2_to64();
    lemma_word_bound(bits);
    let w = spec_word_of(bits);
    let t = bits.drop_first();
    lemma_word_drop_first(bits);
    let b0: nat = if bits[0] {
        1
    } else {
        0
    };
    let a = spec_word_of(t);
    // w % 2 and w / 2.
    lemma_word_bound(t);
    lemma_fundamental_div_mod_converse(w as int, 2, a as int, b0 as int);
    // Decompose a: its low nine bits and its top (stop) bit.
    assert(t.drop_last() =~= bits.subrange(1, 10));
    let mid = spec_word_of(bits.subrange(1, 10));
    let b10: nat = if bits[10] {
        1
    } else {
        0
    };
    assert(t.last() == bits[10]);
    assert(a == mid + b10 * 512);
    lemma_word_bound(bits.subrange(1, 10));
    lemma_fundamental_div_mod_converse(a as int, 512, b10 as int, mid as int);
    // The stop bit: w / 1024 == a / 512.
    lemma_fundamental_div_mod_converse(
        w as int,
        1024,
        b10 as int,
        (mid * 2 + b0) as int,
    );
    // The data byte: the low eight of the nine middle bits.
    assert(bits.subrange(1, 10).drop_last() =~= bits.subrange(1, 9));
    let data = spec_word_of(bits.subrange(1, 9));
    let b9: nat = if bits[9] {
        1
    } else {
        0
    };
    assert(bits.subrange(1, 10).last() == bits[9]);
    assert(mid == data + b9 * 256);
    lemma_word_bound(bits.subrange(1, 9));
    assert(a == data + (b9 + 2 * b10) * 256) by {
        assert(a == mid + b10 * 512);
    }
    lemma_fundamental_div_mod_converse(a as int, 256, (b9 + 2 * b10) as int, data as int);
    // The parity digits.
    lemma_count_ones_of_word(bits.subrange(1, 10));
}

/// Law: corrupting the parity bit of a well-formed frame makes the packed
/// word fail the frame check, so the decoder emits nothing for it.
pub proof fn lemma_ps2_parity_flip(bits: Seq<bool>)
    requires
        spec_valid_frame(bits),
    ensures
        !spec_frame_ok(spec_word_of(bits.update(9, !bits[9])) as u16),
{
    let flipped = bits.update(9, !bits[9]);
    assert(flipped.subrange(1, 10) =~= bits.subrange(1, 10).update(8, !bits[9]));
    assert(bits.subrange(1, 10)[8] == bits[9]);
    lemma_ones_flip(bits.subrange(1, 10), 8);
    lemma_ps2_framing(flipped);
    assert(!spec_valid_frame(flipped));
}

} // verus!
