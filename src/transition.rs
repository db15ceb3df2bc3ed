use vstd::prelude::*;

verus! {

/// Number of values from `lo` up to `hi`, both included, that lie `step` apart.
pub open spec fn ramp_len(lo: nat, hi: nat, step: nat) -> nat
    recommends
        lo <= hi,
        step > 0,
{
    ((hi - lo) / (step as int) + 1) as nat
}

/// The values from the lower of `from` and `to` upward in strides of `step`,
/// not passing the higher one; listed downward when `from` is above `to`.
pub open spec fn plan(from: u8, to: u8, step: u8) -> Seq<u8>
    recommends
        step > 0,
{
    let lo: nat = if from <= to { from as nat } else { to as nat };
    let hi: nat = if from <= to { to as nat } else { from as nat };
    let n = ramp_len(lo, hi, step as nat);
    if from > to {
        Seq::new(n, |i: int| (lo + (n - 1 - i) * step) as u8)
    } else {
        Seq::new(n, |i: int| (lo + i * step) as u8)
    }
}

/// A move downward writes exactly the values of the opposite move upward,
/// in reverse order.
pub proof fn lemma_plan_reverses(a: u8, b: u8, step: u8)
    requires
        step > 0,
        a < b,
    ensures
        plan(b, a, step).len() == plan(a, b, step).len(),
        forall|i: int|
            0 <= i < plan(a, b, step).len() ==> #[trigger] plan(b, a, step)[i] == plan(a, b, step)[plan(
                a,
                b,
                step,
            ).len() - 1 - i],
{
}

/// The stepped values that carry the brightness from `from` toward `to`.
pub fn smooth_transition(from: u8, to: u8, step: u8) -> (r: Vec<u8>)
    requires
        step > 0,
    ensures
        r@ == plan(from, to, step),
{
    let lo: u8 = if from <= to { from } else { to };
    let hi: u8 = if from <= to { to } else { from };
    let ghost n = ramp_len(lo as nat, hi as nat, step as nat);
    let mut up: Vec<u8> = Vec::new();
    let mut v: u16 = lo as u16;
    let mut k: u16 = 0;
    while v <= hi as u16
        invariant
            lo <= hi,
            step > 0,
            n == ramp_len(lo as nat, hi as nat, step as nat),
            v == lo + k * step,
            k <= n,
            k < n <==> v <= hi,
            up@.len() == k,
            forall|i: int| 0 <= i < k ==> up@[i] == lo + i * step,
        decreases hi as int + step as int - v,
    {
        proof {
            assert((k + 1) * step == k * step + step) by (nonlinear_arith);
            assert(k + 1 < n <==> lo + (k + 1) * step <= hi) by (nonlinear_arith)
                requires
                    n == ((hi - lo) / (step as int) + 1) as nat,
                    lo <= hi,
                    step > 0,
            ;
        }
        up.push(v as u8);
        v = v + step as u16;
        k = k + 1;
    }
    if from <= to {
        assert(up@ =~= plan(from, to, step));
        return up;
    }
    let mut down: Vec<u8> = Vec::new();
    let mut j: usize = up.len();
    while j > 0
        invariant
            up@.len() == n,
            j <= n,
            down@.len() == n - j,
            forall|i: int| 0 <= i < n - j ==> down@[i] == up@[n - 1 - i],
        decreases j,
    {
        j = j - 1;
        down.push(up[j]);
    }
    assert(down@ =~= plan(from, to, step));
    down
}

/// What the driver of a transition does next.
#[derive(Debug, Clone, Copy, PartialEq, Eq, Structural)]
pub enum Action {
    /// Write this brightness to the device and report whether it was accepted.
    Apply(u8),
    /// Stop: `true` when every step was accepted, `false` after a refused one.
    Finish(bool),
}

/// A stepped move of the device's brightness from its current value to a
/// target, one write at a time, stopping at the first write the device refuses.
#[derive(Debug)]
pub struct Transition {
    steps: Vec<u8>,
    sent: usize,
    failed: bool,
}

/// The writes a transition from `current` to `target` plans: none when the
/// two agree.
pub open spec fn planned_steps(current: u8, target: u8, step: u8) -> Seq<u8> {
    if current == target {
        Seq::empty()
    } else {
        plan(current, target, step)
    }
}

/// The action a transition in the given state asks for.
pub open spec fn action_of(steps: Seq<u8>, sent: nat, failed: bool) -> Action {
    if failed {
        Action::Finish(false)
    } else if sent < steps.len() {
        Action::Apply(steps[sent as int])
    } else {
        Action::Finish(true)
    }
}

impl Transition {
    /// The planned writes, in order.
    pub closed spec fn steps(&self) -> Seq<u8> {
        self.steps@
    }

    /// How many planned writes were sent.
    pub closed spec fn sent(&self) -> nat {
        self.sent as nat
    }

    /// Whether the device refused a write.
    pub closed spec fn failed(&self) -> bool {
        self.failed
    }

    /// Sent writes never outnumber the planned ones.
    pub closed spec fn wf(&self) -> bool {
        self.sent <= self.steps@.len()
    }

    /// Plans the move from `current` to `target` in strides of `step`.
    pub fn new(current: u8, target: u8, step: u8) -> (r: Transition)
        requires
            step > 0,
        ensures
            r.wf(),
            r.steps() == planned_steps(current, target, step),
            r.sent() == 0,
            !r.failed(),
    {
        let steps = if current == target {
            Vec::new()
        } else {
            smooth_transition(current, target, step)
        };
        proof {
            if current == target {
                assert(steps@ =~= planned_steps(current, target, step));
            }
        }
        Transition { steps, sent: 0, failed: false }
    }

    /// The next thing to do: the next planned write, or the outcome once
    /// every write was accepted or one was refused.
    pub fn next_action(&self) -> (r: Action)
        requires
            self.wf(),
        ensures
            r == action_of(self.steps(), self.sent(), self.failed()),
    {
        if self.failed {
            Action::Finish(false)
        } else if self.sent < self.steps.len() {
            Action::Apply(self.steps[self.sent])
        } else {
            Action::Finish(true)
        }
    }

    /// Records the device's answer to the write that `next_action` asked for.
    pub fn record(&mut self, accepted: bool)
        requires
            old(self).wf(),
            action_of(old(self).steps(), old(self).sent(), old(self).failed()) is Apply,
        ensures
            final(self).wf(),
            final(self).steps() == old(self).steps(),
            final(self).sent() == old(self).sent() + 1,
            final(self).failed() == !accepted,
    {
        let total: usize = self.steps.len();
        proof {
            assert(self.sent < total);
        }
        self.sent = self.sent + 1;
        self.failed = !accepted;
    }
}

} // verus!
