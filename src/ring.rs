//! Index and phase bookkeeping of the admin submission and completion rings.
use vstd::prelude::*;

verus! {

/// Entries in each admin queue: the submission queue takes 16 KiB (four
/// frames), the completion queue 4 KiB (one frame).
pub const ADMIN_QUEUE_DEPTH: u16 = 256;

/// Producer side of a submission ring: the driver writes at `tail`, the
/// controller has consumed everything before `head`.
#[derive(Clone, Copy, Debug, PartialEq, Eq, Structural)]
pub struct SubmissionRing {
    pub depth: u16,
    pub tail: u16,
    pub head: u16,
}

impl SubmissionRing {
    pub open spec fn wf(self) -> bool {
        2 <= self.depth && self.tail < self.depth && self.head < self.depth
    }

    /// Entries written and not yet consumed.
    pub open spec fn outstanding(self) -> int {
        if self.tail >= self.head {
            self.tail - self.head
        } else {
            self.tail + self.depth - self.head
        }
    }

    /// One more entry would make the tail meet the unread head.
    pub open spec fn spec_is_full(self) -> bool {
        next_index(self.tail, self.depth) == self.head
    }

    /// The ring after one entry is written at the tail.
    pub open spec fn spec_advance(self) -> SubmissionRing {
        SubmissionRing { tail: next_index(self.tail, self.depth), ..self }
    }

    /// The ring after `n` entries are written and none is consumed.
    pub open spec fn spec_advance_n(self, n: nat) -> SubmissionRing
        decreases n,
    {
        if n == 0 {
            self
        } else {
            self.spec_advance_n((n - 1) as nat).spec_advance()
        }
    }

    /// An empty ring of `depth` entries.
    pub fn new(depth: u16) -> (r: SubmissionRing)
        requires
            2 <= depth,
        ensures
            r.wf(),
            r.depth == depth && r.tail == 0 && r.head == 0,
    {
        SubmissionRing { depth, tail: 0, head: 0 }
    }

    pub fn is_full(&self) -> (r: bool)
        requires
            self.wf(),
        ensures
            r == self.spec_is_full(),
    {
        let next = if self.tail + 1 == self.depth { 0 } else { self.tail + 1 };
        next == self.head
    }

    /// Claims the slot at the tail for a new entry and advances the tail;
    /// returns the slot.
    pub fn advance(&mut self) -> (slot: u16)
        requires
            old(self).wf(),
            !old(self).spec_is_full(),
        ensures
            final(self).wf(),
            slot == old(self).tail,
            *final(self) == old(self).spec_advance(),
            final(self).tail == (old(self).tail + 1) % (old(self).depth as int),
            final(self).outstanding() == old(self).outstanding() + 1,
    {
        proof {
            lemma_next_index(self.tail, self.depth);
        }
        let slot = self.tail;
        self.tail = if self.tail + 1 == self.depth { 0 } else { self.tail + 1 };
        slot
    }

    /// Records that the controller has consumed every entry written so far.
    pub fn retire_all(&mut self)
        requires
            old(self).wf(),
        ensures
            final(self).wf(),
            *final(self) == (SubmissionRing { head: old(self).tail, ..*old(self) }),
            final(self).outstanding() == 0,
    {
        self.head = self.tail;
    }
}

/// The index after `i` in a ring of `depth` slots.
pub open spec fn next_index(i: u16, depth: u16) -> u16 {
    if i + 1 == depth {
        0
    } else {
        (i + 1) as u16
    }
}

proof fn lemma_mod_wrap(x: int, d: int)
    requires
        0 <= x < 2 * d,
        d > 0,
    ensures
        x % d == (if x < d { x } else { x - d }),
{
    if x < d {
        vstd::arithmetic::div_mod::lemma_fundamental_div_mod_converse(x, d, 0, x);
    } else {
        vstd::arithmetic::div_mod::lemma_fundamental_div_mod_converse(x, d, 1, x - d);
    }
}

proof fn lemma_next_index(i: u16, depth: u16)
    requires
        i < depth,
    ensures
        next_index(i, depth) == (i + 1) % (depth as int),
{
    lemma_mod_wrap(i + 1, depth as int);
}

/// Writing `n` entries into an empty ring of depth `D` with no consumption
/// in between, for `n < D`: each write is allowed (the ring is never full
/// beforehand), entry `i` lands in slot `(tail + i) mod D` so no two share a
/// slot, the tail advances exactly `n` times modulo `D`, and it never comes
/// to rest on the unread head. With `n == D` the tail would return onto the
/// head, so the controller would read the ring as empty.
pub proof fn lemma_submissions_fill_distinct_slots(r: SubmissionRing, n: nat)
    requires
        r.wf(),
        r.head == r.tail,
        n < r.depth,
    ensures
        r.spec_advance_n(n).tail == (r.tail + n) % (r.depth as int),
        r.spec_advance_n(n).head == r.head,
        r.spec_advance_n(n).depth == r.depth,
        r.spec_advance_n(n).outstanding() == n,
        forall|i: nat| i < n ==> !(#[trigger] r.spec_advance_n(i)).spec_is_full(),
        forall|i: nat| i < n ==> (#[trigger] r.spec_advance_n(i)).tail == (r.tail + i) % (r.depth as int),
        forall|i: nat| 1 <= i <= n ==> (#[trigger] r.spec_advance_n(i)).tail != r.head,
        forall|i: nat, j: nat|
            i < j < n ==> (#[trigger] r.spec_advance_n(i)).tail != (#[trigger] r.spec_advance_n(j)).tail,
{
    lemma_advance_n(r, n);
    assert forall|i: nat| i < n implies !(#[trigger] r.spec_advance_n(i)).spec_is_full() by {
        lemma_advance_n(r, i);
        lemma_advance_n(r, i + 1);
    }
    assert forall|i: nat| i < n implies (#[trigger] r.spec_advance_n(i)).tail == (r.tail + i) % (r.depth as int) by {
        lemma_advance_n(r, i);
    }
    assert forall|i: nat| 1 <= i <= n implies (#[trigger] r.spec_advance_n(i)).tail != r.head by {
        lemma_advance_n(r, i);
    }
    assert forall|i: nat, j: nat| i < j < n implies (#[trigger] r.spec_advance_n(i)).tail != (#[trigger] r.spec_advance_n(j)).tail by {
        lemma_advance_n(r, i);
        lemma_advance_n(r, j);
    }
}

proof fn lemma_advance_n(r: SubmissionRing, n: nat)
    requires
        r.wf(),
        r.head == r.tail,
        n < r.depth,
    ensures
        r.spec_advance_n(n).tail == (r.tail + n) % (r.depth as int),
        r.spec_advance_n(n).tail == (if r.tail + n < r.depth { r.tail + n } else { r.tail + n - r.depth }),
        r.spec_advance_n(n).head == r.head,
        r.spec_advance_n(n).depth == r.depth,
        r.spec_advance_n(n).wf(),
        r.spec_advance_n(n).outstanding() == n,
    decreases n,
{
    lemma_mod_wrap(r.tail + n, r.depth as int);
    if n > 0 {
        lemma_advance_n(r, (n - 1) as nat);
    }
}

/// Consumer side of a completion ring: the next entry to read is at `head`,
/// and it is new when its phase tag equals `phase`.
#[derive(Clone, Copy, Debug, PartialEq, Eq, Structural)]
pub struct CompletionRing {
    pub depth: u16,
    pub head: u16,
    pub phase: bool,
}

impl CompletionRing {
    pub open spec fn wf(self) -> bool {
        2 <= self.depth && self.head < self.depth
    }

    /// The ring after the entry at the head is consumed: the head advances
    /// modulo the depth and the expected phase flips when it wraps to 0.
    pub open spec fn spec_consume(self) -> CompletionRing {
        let h = next_index(self.head, self.depth);
        CompletionRing { head: h, phase: if h == 0 { !self.phase } else { self.phase }, ..self }
    }

    /// The ring after `n` entries are consumed.
    pub open spec fn spec_consume_n(self, n: nat) -> CompletionRing
        decreases n,
    {
        if n == 0 {
            self
        } else {
            self.spec_consume_n((n - 1) as nat).spec_consume()
        }
    }

    /// A ring over zeroed memory: every entry carries phase 0, so the first
    /// pass of the controller is recognised by phase 1.
    pub fn new(depth: u16) -> (r: CompletionRing)
        requires
            2 <= depth,
        ensures
            r.wf(),
            r.depth == depth && r.head == 0 && r.phase,
    {
        CompletionRing { depth, head: 0, phase: true }
    }

    /// Whether an entry at the head whose phase tag is `phase_tag` is new.
    pub fn is_new(&self, phase_tag: bool) -> (r: bool)
        ensures
            r == (phase_tag == self.phase),
    {
        phase_tag == self.phase
    }

    /// Consumes the entry at the head.
    pub fn consume(&mut self)
        requires
            old(self).wf(),
        ensures
            final(self).wf(),
            *final(self) == old(self).spec_consume(),
            final(self).head == (old(self).head + 1) % (old(self).depth as int),
            final(self).phase == (if final(self).head == 0 { !old(self).phase } else { old(self).phase }),
    {
        proof {
            lemma_next_index(self.head, self.depth);
        }
        let h = if self.head + 1 == self.depth { 0 } else { self.head + 1 };
        self.head = h;
        if h == 0 {
            self.phase = !self.phase;
        }
    }
}

/// Over a full traversal the expected phase flips exactly once: after `k`
/// consumptions (`k` up to the depth `D`), the head is `(head + k) mod D` and
/// the phase has flipped precisely when `head + k` has reached `D`; so after
/// exactly `D` consumptions the head is back where it started and the phase
/// has flipped once.
pub proof fn lemma_phase_flips_once_per_pass(r: CompletionRing, k: nat)
    requires
        r.wf(),
        k <= r.depth,
    ensures
        r.spec_consume_n(k).head == (r.head + k) % (r.depth as int),
        r.spec_consume_n(k).phase == (if r.head + k >= r.depth { !r.phase } else { r.phase }),
        r.spec_consume_n(r.depth as nat).head == r.head,
        r.spec_consume_n(r.depth as nat).phase == !r.phase,
{
    lemma_consume_n(r, k);
    lemma_consume_n(r, r.depth as nat);
}

proof fn lemma_consume_n(r: CompletionRing, k: nat)
    requires
        r.wf(),
        k <= r.depth,
    ensures
        r.spec_consume_n(k).head == (r.head + k) % (r.depth as int),
        r.spec_consume_n(k).head == (if r.head + k < r.depth { r.head + k } else { r.head + k - r.depth }),
        r.spec_consume_n(k).phase == (if r.head + k >= r.depth { !r.phase } else { r.phase }),
        r.spec_consume_n(k).depth == r.depth,
        r.spec_consume_n(k).wf(),
    decreases k,
{
    lemma_mod_wrap(r.head + k, r.depth as int);
    if k > 0 {
        lemma_consume_n(r, (k - 1) as nat);
    }
}

} // verus!
