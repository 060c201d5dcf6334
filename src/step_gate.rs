use vstd::prelude::*;

verus! {

/// How many of the first `n` blocks of a pass are let through when the
/// `target`-th one is the one to draw.
pub open spec fn pass_draws(target: nat, n: nat) -> nat
    decreases n,
{
    if n == 0 {
        0
    } else {
        pass_draws(target, (n - 1) as nat) + if n == target {
            1nat
        } else {
            0nat
        }
    }
}

/// The target after one frame: one further on, or back to the first block
/// once the ceiling has been reached.
pub open spec fn next_target(target: nat, ceiling: nat) -> nat {
    if target >= ceiling {
        1
    } else {
        target + 1
    }
}

/// The target after `k` frames.
pub open spec fn target_after(target: nat, ceiling: nat, k: nat) -> nat
    decreases k,
{
    if k == 0 {
        target
    } else {
        next_target(target_after(target, ceiling, (k - 1) as nat), ceiling)
    }
}

/// A pass lets through exactly one block when it has at least `target`
/// blocks, and none when it has fewer.
pub proof fn lemma_one_draw_per_pass(target: nat, n: nat)
    requires
        target >= 1,
    ensures
        pass_draws(target, n) == if target <= n {
            1nat
        } else {
            0nat
        },
    decreases n,
{
    if n > 0 {
        lemma_one_draw_per_pass(target, (n - 1) as nat);
    }
}

/// Until the ceiling is reached, each frame advances the target by exactly
/// one, so no block is drawn twice and none is passed over; after the
/// ceiling the target wraps back to the first block.
pub proof fn lemma_targets_advance(target: nat, ceiling: nat, k: nat)
    requires
        1 <= target <= ceiling,
    ensures
        target + k <= ceiling ==> target_after(target, ceiling, k) == target + k,
        target + k == ceiling + 1 ==> target_after(target, ceiling, k) == 1,
    decreases k,
{
    if k > 0 {
        lemma_targets_advance(target, ceiling, (k - 1) as nat);
    }
}

/// Lets only the `target`-th block of each decode pass through, and moves the
/// target on by one each frame, so that the blocks appear one at a time in
/// the order the decoder emits them.
pub struct StepGate {
    target: u32,
    ceiling: u32,
    seen: u64,
    drawn: u64,
}

impl StepGate {
    pub closed spec fn target_spec(&self) -> nat {
        self.target as nat
    }

    pub closed spec fn ceiling_spec(&self) -> nat {
        self.ceiling as nat
    }

    /// Blocks offered in the current pass.
    pub closed spec fn seen_spec(&self) -> nat {
        self.seen as nat
    }

    /// Blocks let through in the current pass.
    pub closed spec fn drawn_spec(&self) -> nat {
        self.drawn as nat
    }

    pub closed spec fn wf(&self) -> bool {
        &&& 1 <= self.target <= self.ceiling
        &&& self.drawn == pass_draws(self.target as nat, self.seen as nat)
    }

    /// A gate that draws the first block in the first pass and wraps after
    /// the `ceiling`-th.
    pub fn new(ceiling: u32) -> (g: StepGate)
        requires
            ceiling >= 1,
        ensures
            g.wf(),
            g.target_spec() == 1,
            g.ceiling_spec() == ceiling,
            g.seen_spec() == 0,
            g.drawn_spec() == 0,
    {
        StepGate { target: 1, ceiling, seen: 0, drawn: 0 }
    }

    pub fn target(&self) -> (r: u32)
        ensures
            r == self.target_spec(),
    {
        self.target
    }

    pub fn drawn(&self) -> (r: u64)
        ensures
            r == self.drawn_spec(),
    {
        self.drawn
    }

    /// Starts a decode pass: no block has been offered yet.
    pub fn begin_pass(&mut self)
        requires
            old(self).wf(),
        ensures
            final(self).wf(),
            final(self).target_spec() == old(self).target_spec(),
            final(self).ceiling_spec() == old(self).ceiling_spec(),
            final(self).seen_spec() == 0,
            final(self).drawn_spec() == 0,
    {
        self.seen = 0;
        self.drawn = 0;
    }

    /// Offers the next block of the pass; true when it is the one to draw.
    pub fn offer(&mut self) -> (r: bool)
        requires
            old(self).wf(),
        ensures
            final(self).wf(),
            final(self).target_spec() == old(self).target_spec(),
            final(self).ceiling_spec() == old(self).ceiling_spec(),
            old(self).seen_spec() < u64::MAX ==> final(self).seen_spec() == old(self).seen_spec() + 1,
            old(self).seen_spec() == u64::MAX ==> final(self).seen_spec() == old(self).seen_spec(),
            r == (old(self).seen_spec() < u64::MAX && old(self).seen_spec() + 1
                == old(self).target_spec()),
            final(self).drawn_spec() == old(self).drawn_spec() + if r {
                1nat
            } else {
                0nat
            },
    {
        if self.seen == u64::MAX {
            return false;
        }
        proof {
            lemma_one_draw_per_pass(self.target as nat, self.seen as nat);
        }
        self.seen = self.seen + 1;
        let hit = self.seen == self.target as u64;
        if hit {
            self.drawn = self.drawn + 1;
        }
        hit
    }

    /// Ends a frame: the next pass draws the following block, or the first
    /// again once the ceiling has been drawn.
    pub fn end_frame(&mut self)
        requires
            old(self).wf(),
        ensures
            final(self).wf(),
            final(self).target_spec() == next_target(old(self).target_spec(), old(self).ceiling_spec()),
            final(self).ceiling_spec() == old(self).ceiling_spec(),
            final(self).seen_spec() == 0,
            final(self).drawn_spec() == 0,
    {
        if self.target >= self.ceiling {
            self.target = 1;
        } else {
            self.target = self.target + 1;
        }
        self.seen = 0;
        self.drawn = 0;
    }
}

/// Within a pass, a gate never lets more than one block through, and it has
/// let one through exactly when the pass has reached its target.
pub proof fn lemma_gate_draws_once(g: StepGate)
    requires
        g.wf(),
    ensures
        g.drawn_spec() <= 1,
        g.drawn_spec() == 1 <==> g.target_spec() <= g.seen_spec(),
{
    lemma_one_draw_per_pass(g.target_spec(), g.seen_spec());
}

} // verus!
