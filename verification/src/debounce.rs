//! The debounced input reader: a run-length filter over raw button samples.
//!
//! Each monitored button/press-length combination keeps a fixed-width shift
//! register of the most recent samples. An edge is reported only when the
//! register reaches all-ones (rising) or all-zeros (falling) after a new
//! sample is shifted in — that is, after `depth` consecutive identical
//! samples — and at most once per state change, never repeatedly while the
//! button is held.
//!
//! The register is modelled arithmetically: a register of depth `d` is a
//! number below `pow2(d)` whose bit `0` is the newest sample; shifting in a
//! sample doubles it, adds the sample, and discards the bit that falls off
//! the top.

use vstd::arithmetic::power2::{
    lemma2_to64, lemma_pow2_pos, lemma_pow2_strictly_increases, lemma_pow2_unfold, pow2,
};
use vstd::prelude::*;

verus! {

/// Debounce depth of the short-press detectors: two identical consecutive
/// samples at the poll tick.
pub const DEBOUNCE_SHORT_DEPTH: u8 = 2;

/// Debounce depth of the long-press detector: sixteen identical consecutive
/// samples at the poll tick.
pub const DEBOUNCE_LONG_DEPTH: u8 = 16;

/// A reported change of the debounced state.
#[derive(Clone, Copy, Debug, PartialEq, Eq, Structural)]
pub enum Edge {
    /// The debounced state went from released to pressed.
    Rising,
    /// The debounced state went from pressed to released.
    Falling,
}

/// One debounced channel.
#[derive(Clone, Copy, Debug, PartialEq, Eq, Structural)]
pub struct Debouncer {
    /// How many consecutive identical samples report an edge.
    pub depth: u8,
    /// `pow2(depth)`, kept alongside to bound the register.
    pub modulus: u32,
    /// The shift register: the last `depth` raw samples, newest in bit 0.
    pub history: u32,
    /// The debounced state last reported.
    pub debounced: bool,
}

/// The shift register after `sample` is shifted in: double, add the sample,
/// drop the bit that falls off the top.
pub open spec fn spec_shift_in(history: nat, modulus: nat, sample: bool) -> nat {
    let shifted = 2 * history + (if sample {
        1nat
    } else {
        0nat
    });
    if shifted >= modulus {
        (shifted - modulus) as nat
    } else {
        shifted
    }
}

/// The edge reported when the register holds `history` and the debounced
/// state is `debounced`: all-ones reports Rising if the state was released,
/// all-zeros reports Falling if it was pressed.
pub open spec fn spec_edge(history: nat, debounced: bool, modulus: nat) -> Option<Edge> {
    if history == modulus - 1 && !debounced {
        Some(Edge::Rising)
    } else if history == 0 && debounced {
        Some(Edge::Falling)
    } else {
        None
    }
}

/// The debounced state after the register holds `history`.
pub open spec fn spec_debounced_after(history: nat, debounced: bool, modulus: nat) -> bool {
    if history == modulus - 1 {
        true
    } else if history == 0 {
        false
    } else {
        debounced
    }
}

/// How many edges a channel in state (`history`, `debounced`) reports over a
/// sample sequence.
pub open spec fn spec_run_edges(
    history: nat,
    debounced: bool,
    modulus: nat,
    samples: Seq<bool>,
) -> nat
    decreases samples.len(),
{
    if samples.len() == 0 {
        0
    } else {
        let h1 = spec_shift_in(history, modulus, samples[0]);
        let e = spec_edge(h1, debounced, modulus);
        let d1 = spec_debounced_after(h1, debounced, modulus);
        (if e is Some {
            1nat
        } else {
            0nat
        }) + spec_run_edges(h1, d1, modulus, samples.drop_first())
    }
}

/// The channel after one raw sample is shifted in.
pub open spec fn spec_after_update(d: Debouncer, sample: bool) -> Debouncer {
    let h1 = spec_shift_in(d.history as nat, d.modulus as nat, sample);
    Debouncer {
        depth: d.depth,
        modulus: d.modulus,
        history: h1 as u32,
        debounced: spec_debounced_after(h1, d.debounced, d.modulus as nat),
    }
}

/// The edge one raw sample makes the channel report.
pub open spec fn spec_update_edge(d: Debouncer, sample: bool) -> Option<Edge> {
    spec_edge(
        spec_shift_in(d.history as nat, d.modulus as nat, sample),
        d.debounced,
        d.modulus as nat,
    )
}

impl Debouncer {
    /// The channel's invariant.
    pub open spec fn wf(&self) -> bool {
        &&& 1 <= self.depth <= 16
        &&& self.modulus == pow2(self.depth as nat)
        &&& self.history < self.modulus
    }

    /// A fresh channel of the given depth, stable at `initial`: its register
    /// is uniform, so the first edge still takes `depth` identical samples of
    /// the opposite level.
    pub fn new(depth: u8, initial: bool) -> (r: Debouncer)
        requires
            1 <= depth <= 16,
        ensures
            r.wf(),
            r.depth == depth,
            r.debounced == initial,
            r.history == (if initial {
                pow2(depth as nat) - 1
            } else {
                0int
            }),
    {
        proof {
            lemma2_to64();
        }
        let mut m: u32 = 1;
        let mut i: u8 = 0;
        while i < depth
            invariant
                i <= depth <= 16,
                m == pow2(i as nat),
                m <= 0x10000,
            decreases depth - i,
        {
            proof {
                lemma_pow2_unfold((i + 1) as nat);
                lemma_pow2_strictly_increases(i as nat, 17);
                lemma2_to64();
            }
            m = m * 2;
            i = i + 1;
        }
        proof {
            lemma_pow2_pos(depth as nat);
        }
        Debouncer {
            depth,
            modulus: m,
            history: if initial {
                m - 1
            } else {
                0
            },
            debounced: initial,
        }
    }

    /// Shifts one raw sample in and reports the edge, if any: Rising after
    /// `depth` consecutive pressed samples while released, Falling after
    /// `depth` consecutive released samples while pressed, nothing otherwise.
    pub fn update(&mut self, sample: bool) -> (edge: Option<Edge>)
        requires
            old(self).wf(),
        ensures
            final(self).wf(),
            *final(self) == spec_after_update(*old(self), sample),
            edge == spec_update_edge(*old(self), sample),
    {
        proof {
            lemma_pow2_strictly_increases(self.depth as nat, 17);
            lemma2_to64();
        }
        let shifted: u32 = 2 * self.history + (if sample {
            1
        } else {
            0
        });
        let h1 = if shifted >= self.modulus {
            shifted - self.modulus
        } else {
            shifted
        };
        self.history = h1;
        if h1 == self.modulus - 1 && !self.debounced {
            self.debounced = true;
            Some(Edge::Rising)
        } else if h1 == 0 && self.debounced {
            self.debounced = false;
            Some(Edge::Falling)
        } else {
            None
        }
    }
}

/// Once pressed and saturated (register all-ones), further pressed samples
/// report nothing: the edge fires at most once per state change.
proof fn lemma_held_reports_nothing(modulus: nat, n: nat)
    requires
        modulus >= 2,
    ensures
        spec_run_edges((modulus - 1) as nat, true, modulus, Seq::new(n, |i: int| true)) == 0,
    decreases n,
{
    if n > 0 {
        let samples = Seq::new(n, |i: int| true);
        assert(spec_shift_in((modulus - 1) as nat, modulus, true) == modulus - 1);
        assert(samples.drop_first() =~= Seq::new((n - 1) as nat, |i: int| true));
        lemma_held_reports_nothing(modulus, (n - 1) as nat);
    }
}

/// Once released and drained (register all-zeros), further released samples
/// report nothing.
proof fn lemma_released_reports_nothing(modulus: nat, n: nat)
    requires
        modulus >= 2,
    ensures
        spec_run_edges(0, false, modulus, Seq::new(n, |i: int| false)) == 0,
    decreases n,
{
    if n > 0 {
        let samples = Seq::new(n, |i: int| false);
        assert(spec_shift_in(0, modulus, false) == 0);
        assert(samples.drop_first() =~= Seq::new((n - 1) as nat, |i: int| false));
        lemma_released_reports_nothing(modulus, (n - 1) as nat);
    }
}

/// The rising induction step: from a register of `j` consecutive pressed
/// samples (value `pow2(j) - 1`) in the released state, `k` further pressed
/// samples report one edge if they reach the depth and none otherwise.
proof fn lemma_run_trues(depth: nat, j: nat, k: nat)
    requires
        1 <= depth <= 16,
        j < depth,
    ensures
        spec_run_edges(
            (pow2(j) - 1) as nat,
            false,
            pow2(depth),
            Seq::new(k, |i: int| true),
        ) == (if j + k >= depth {
            1nat
        } else {
            0nat
        }),
    decreases k,
{
    lemma_pow2_pos(j);
    lemma_pow2_pos(depth);
    if j + 1 <= depth {
        lemma_pow2_unfold((j + 1) as nat);
        if j + 1 < depth {
            lemma_pow2_strictly_increases((j + 1) as nat, depth);
        }
    }
    if k > 0 {
        let samples = Seq::new(k, |i: int| true);
        let m = pow2(depth);
        let h0 = (pow2(j) - 1) as nat;
        let h1 = spec_shift_in(h0, m, true);
        assert(h1 == pow2((j + 1) as nat) - 1);
        assert(samples.drop_first() =~= Seq::new((k - 1) as nat, |i: int| true));
        if j + 1 == depth {
            assert(h1 == m - 1);
            lemma_held_reports_nothing(m, (k - 1) as nat);
        } else {
            assert(h1 != m - 1 && h1 != 0);
            lemma_run_trues(depth, j + 1, (k - 1) as nat);
        }
    }
}

/// The falling induction step: from a register whose `j` newest samples are
/// released (value `pow2(depth) - pow2(j)`) in the pressed state, `k` further
/// released samples report one edge if they reach the depth and none
/// otherwise.
proof fn lemma_run_falses(depth: nat, j: nat, k: nat)
    requires
        1 <= depth <= 16,
        j < depth,
    ensures
        spec_run_edges(
            (pow2(depth) - pow2(j)) as nat,
            true,
            pow2(depth),
            Seq::new(k, |i: int| false),
        ) == (if j + k >= depth {
            1nat
        } else {
            0nat
        }),
    decreases k,
{
    lemma_pow2_pos(j);
    lemma_pow2_pos(depth);
    lemma_pow2_strictly_increases(j, depth);
    if j + 1 <= depth {
        lemma_pow2_unfold((j + 1) as nat);
        if j + 1 < depth {
            lemma_pow2_strictly_increases((j + 1) as nat, depth);
        }
    }
    if k > 0 {
        let samples = Seq::new(k, |i: int| false);
        let m = pow2(depth);
        let h0 = (m - pow2(j)) as nat;
        let h1 = spec_shift_in(h0, m, false);
        assert(h1 == m - pow2((j + 1) as nat));
        assert(samples.drop_first() =~= Seq::new((k - 1) as nat, |i: int| false));
        if j + 1 == depth {
            assert(h1 == 0);
            lemma_released_reports_nothing(m, (k - 1) as nat);
        } else {
            assert(h1 != 0);
            assert(pow2((j + 1) as nat) > 1) by {
                lemma_pow2_strictly_increases(0, (j + 1) as nat);
                lemma2_to64();
            }
            assert(h1 != m - 1);
            lemma_run_falses(depth, j + 1, (k - 1) as nat);
        }
    }
}

/// Law: from a stable released channel, fewer than `depth` consecutive
/// pressed samples report no edge, and `depth` or more report exactly one.
pub proof fn lemma_debounce_rising(depth: nat, n: nat)
    requires
        1 <= depth <= 16,
    ensures
        spec_run_edges(0, false, pow2(depth), Seq::new(n, |i: int| true)) == (if n >= depth {
            1nat
        } else {
            0nat
        }),
{
    lemma2_to64();
    assert(0 == pow2(0) - 1);
    lemma_run_trues(depth, 0, n);
}

/// Law: from a stable pressed channel, fewer than `depth` consecutive
/// released samples report no edge, and `depth` or more report exactly one.
pub proof fn lemma_debounce_falling(depth: nat, n: nat)
    requires
        1 <= depth <= 16,
    ensures
        spec_run_edges(
            (pow2(depth) - 1) as nat,
            true,
            pow2(depth),
            Seq::new(n, |i: int| false),
        ) == (if n >= depth {
            1nat
        } else {
            0nat
        }),
{
    lemma2_to64();
    assert(pow2(depth) - 1 == pow2(depth) - pow2(0));
    lemma_run_falses(depth, 0, n);
}

} // verus!
