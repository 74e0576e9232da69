//! Shared per-target state for one round.
//!
//! A [`Registry`] maps each contested target (by position, with the target's
//! id kept alongside) to a [`TargetState`].  All workers of a round share one
//! registry; the only write path is the check-and-set [`Registry::try_transition`],
//! which refuses to touch a target that is already terminal.  That discipline
//! gives the two guarantees the engine is built on, proved here over arbitrary
//! sequences of serialized transitions: a terminal state never changes again
//! ([`lemma_terminal_monotonic`]), and racing writers observe at most one
//! successful transition per target ([`lemma_at_most_one_success`]).

use vstd::prelude::*;

verus! {

/// Why a target was given up for the rest of the round.
#[derive(Clone, Copy, PartialEq, Eq, Structural, Debug)]
pub enum FailReason {
    /// The session credential was rejected; only a fresh login can help.
    Unauthorized,
    /// The target was full and the policy says not to keep waiting for it.
    CapacityFull,
}

/// The state of one target within a round.
#[derive(Clone, Copy, PartialEq, Eq, Structural, Debug)]
pub enum TargetState {
    /// Not yet resolved; workers may still attempt claims.
    Waiting,
    /// Successfully claimed, or confirmed as already held.  Terminal.
    Done,
    /// Unrecoverable for this round.  Terminal.
    Failed(FailReason),
}

impl TargetState {
    /// A terminal state is never left again.
    pub open spec fn is_terminal(self) -> bool {
        !(self is Waiting)
    }

    /// Executable form of [`TargetState::is_terminal`].
    pub fn terminal(&self) -> (b: bool)
        ensures
            b == self.is_terminal(),
    {
        match self {
            TargetState::Waiting => false,
            TargetState::Done => true,
            TargetState::Failed(_) => true,
        }
    }
}

/// Whether a check-and-set of target `i` to `to` succeeds on `states`:
/// the index must be in range and the current state non-terminal.
pub open spec fn transition_allowed(states: Seq<TargetState>, i: int, to: TargetState) -> bool {
    0 <= i < states.len() && !states[i].is_terminal()
}

/// The states after one check-and-set of target `i` to `to`: the single
/// entry changes when the transition is allowed, nothing otherwise.
pub open spec fn apply_transition(states: Seq<TargetState>, i: int, to: TargetState) -> Seq<TargetState> {
    if transition_allowed(states, i, to) {
        states.update(i, to)
    } else {
        states
    }
}

/// The states after a sequence of check-and-set operations, each given as
/// `(index, new state)`.  Because all registry writes are serialized, any
/// interleaving of concurrent callers is some such sequence.
pub open spec fn apply_transitions(
    states: Seq<TargetState>,
    ops: Seq<(int, TargetState)>,
) -> Seq<TargetState>
    decreases ops.len(),
{
    if ops.len() == 0 {
        states
    } else {
        apply_transitions(apply_transition(states, ops[0].0, ops[0].1), ops.drop_first())
    }
}

/// How many operations of `ops` on target `i` succeed, starting from `states`.
pub open spec fn transition_success_count(
    states: Seq<TargetState>,
    ops: Seq<(int, TargetState)>,
    i: int,
) -> nat
    decreases ops.len(),
{
    if ops.len() == 0 {
        0nat
    } else {
        (if ops[0].0 == i && transition_allowed(states, ops[0].0, ops[0].1) {
            1nat
        } else {
            0nat
        }) + transition_success_count(
            apply_transition(states, ops[0].0, ops[0].1),
            ops.drop_first(),
            i,
        )
    }
}

/// Terminal monotonicity: once a target's state is terminal, no sequence of
/// check-and-set transitions changes it again, whatever the other operations
/// do to the rest of the registry.
pub proof fn lemma_terminal_monotonic(
    states: Seq<TargetState>,
    ops: Seq<(int, TargetState)>,
    i: int,
)
    requires
        0 <= i < states.len(),
        states[i].is_terminal(),
    ensures
        apply_transitions(states, ops).len() == states.len(),
        apply_transitions(states, ops)[i] == states[i],
    decreases ops.len(),
{
    if ops.len() > 0 {
        let next = apply_transition(states, ops[0].0, ops[0].1);
        assert(next[i] == states[i]);
        lemma_terminal_monotonic(next, ops.drop_first(), i);
    }
}

/// Once a target is terminal, no later operation on it succeeds at all.
pub proof fn lemma_no_success_when_terminal(
    states: Seq<TargetState>,
    ops: Seq<(int, TargetState)>,
    i: int,
)
    requires
        0 <= i < states.len(),
        states[i].is_terminal(),
    ensures
        transition_success_count(states, ops, i) == 0,
    decreases ops.len(),
{
    if ops.len() > 0 {
        let next = apply_transition(states, ops[0].0, ops[0].1);
        assert(next[i] == states[i]);
        lemma_no_success_when_terminal(next, ops.drop_first(), i);
    }
}

/// At-most-one success: in any serialized sequence of check-and-set
/// operations that write terminal states, at most one operation on a given
/// target succeeds.  Racing workers that all try to mark the same target
/// `Done` therefore observe exactly one winning write, and only the winner
/// fires its success side effect.
pub proof fn lemma_at_most_one_success(
    states: Seq<TargetState>,
    ops: Seq<(int, TargetState)>,
    i: int,
)
    requires
        0 <= i < states.len(),
        forall|k: int| 0 <= k < ops.len() ==> (#[trigger] ops[k]).1.is_terminal(),
    ensures
        transition_success_count(states, ops, i) <= 1,
    decreases ops.len(),
{
    if ops.len() > 0 {
        let next = apply_transition(states, ops[0].0, ops[0].1);
        let rest = ops.drop_first();
        assert(forall|k: int| 0 <= k < rest.len() ==> (#[trigger] rest[k]).1.is_terminal()) by {
            assert(forall|k: int| 0 <= k < rest.len() ==> rest[k] == ops[k + 1]);
        }
        if ops[0].0 == i && transition_allowed(states, i, ops[0].1) {
            assert(next[i] == ops[0].1);
            lemma_no_success_when_terminal(next, rest, i);
        } else {
            lemma_at_most_one_success(next, rest, i);
        }
    }
}

/// Exactly-one success: starting from an unresolved target, any serialized
/// sequence of terminal check-and-set operations that touches the target at
/// least once has exactly one winning write on it — never none, never two.
pub proof fn lemma_exactly_one_success(
    states: Seq<TargetState>,
    ops: Seq<(int, TargetState)>,
    i: int,
)
    requires
        0 <= i < states.len(),
        !states[i].is_terminal(),
        forall|k: int| 0 <= k < ops.len() ==> (#[trigger] ops[k]).1.is_terminal(),
        exists|k: int| 0 <= k < ops.len() && (#[trigger] ops[k]).0 == i,
    ensures
        transition_success_count(states, ops, i) == 1,
    decreases ops.len(),
{
    let next = apply_transition(states, ops[0].0, ops[0].1);
    let rest = ops.drop_first();
    assert(forall|k: int| 0 <= k < rest.len() ==> (#[trigger] rest[k]) == ops[k + 1]);
    if ops[0].0 == i {
        assert(transition_allowed(states, i, ops[0].1));
        assert(next[i] == ops[0].1);
        lemma_no_success_when_terminal(next, rest, i);
    } else {
        let k = choose|k: int| 0 <= k < ops.len() && (#[trigger] ops[k]).0 == i;
        assert(0 <= k - 1 < rest.len() && rest[k - 1].0 == i);
        assert(next[i] == states[i]);
        lemma_exactly_one_success(next, rest, i);
    }
}

/// The first index at or after `from` whose id equals `id`, or the length of
/// `ids` when no such index exists.
pub open spec fn first_match(ids: Seq<Seq<char>>, id: Seq<char>, from: int) -> int
    decreases ids.len() - from when 0 <= from <= ids.len()
{
    if from >= ids.len() {
        ids.len() as int
    } else if ids[from] == id {
        from
    } else {
        first_match(ids, id, from + 1)
    }
}

/// The shared store of per-target state for one round.  Created with every
/// target `Waiting`, mutated only through check-and-set transitions, read
/// back as a snapshot when the round is over.
pub struct Registry {
    ids: Vec<String>,
    states: Vec<TargetState>,
}

impl View for Registry {
    type V = Seq<TargetState>;

    closed spec fn view(&self) -> Seq<TargetState> {
        self.states@
    }
}

impl Registry {
    /// One state per id.
    pub closed spec fn wf(self) -> bool {
        self.ids@.len() == self.states@.len()
    }

    /// The target ids, in registry order.
    pub closed spec fn ids(self) -> Seq<Seq<char>> {
        self.ids@.map_values(|s: String| s@)
    }

    /// A fresh registry for one round: every target starts out `Waiting`.
    pub fn new(ids: Vec<String>) -> (reg: Registry)
        ensures
            reg.wf(),
            reg@.len() == ids@.len(),
            reg.ids().len() == ids@.len(),
            forall|i: int| 0 <= i < ids@.len() ==> reg.ids()[i] == ids@[i]@,
            forall|i: int| 0 <= i < ids@.len() ==> reg@[i] == TargetState::Waiting,
    {
        let n = ids.len();
        let mut states: Vec<TargetState> = Vec::new();
        let mut k: usize = 0;
        while k < n
            invariant
                k <= n,
                states@.len() == k,
                forall|i: int| 0 <= i < k ==> states@[i] == TargetState::Waiting,
            decreases n - k,
        {
            states.push(TargetState::Waiting);
            k = k + 1;
        }
        Registry { ids, states }
    }

    /// How many targets the registry tracks.
    pub fn len(&self) -> (n: usize)
        ensures
            n == self@.len(),
    {
        self.states.len()
    }

    /// The current state of the target at `index`.
    pub fn get(&self, index: usize) -> (state: TargetState)
        requires
            index < self@.len(),
        ensures
            state == self@[index as int],
    {
        self.states[index]
    }

    /// Check-and-set: move the target at `index` to the terminal state `to`,
    /// unless it is already terminal.  Returns whether this call made the
    /// change; a `false` return means some earlier transition won and the
    /// caller must skip its side effects.
    pub fn try_transition(&mut self, index: usize, to: TargetState) -> (claimed: bool)
        requires
            old(self).wf(),
            index < old(self)@.len(),
            to.is_terminal(),
        ensures
            final(self).wf(),
            final(self).ids() == old(self).ids(),
            final(self)@ == apply_transition(old(self)@, index as int, to),
            claimed == transition_allowed(old(self)@, index as int, to),
            claimed ==> final(self)@[index as int] == to,
            !claimed ==> final(self)@ == old(self)@,
    {
        let current = self.states[index];
        if current.terminal() {
            false
        } else {
            self.states.set(index, to);
            true
        }
    }

    /// Check-and-set by id: like [`Registry::try_transition`] on the first
    /// index holding `id`; an unknown id changes nothing.
    pub fn try_transition_by_id(&mut self, id: &str, to: TargetState) -> (claimed: bool)
        requires
            old(self).wf(),
            to.is_terminal(),
        ensures
            final(self).wf(),
            final(self).ids() == old(self).ids(),
            ({
                let fm = first_match(old(self).ids(), id@, 0);
                if fm < old(self).ids().len() {
                    final(self)@ == apply_transition(old(self)@, fm, to) && claimed
                        == transition_allowed(old(self)@, fm, to)
                } else {
                    final(self)@ == old(self)@ && !claimed
                }
            }),
    {
        match self.find_index(id) {
            Some(index) => {
                proof {
                    lemma_ids_len(*self);
                }
                self.try_transition(index, to)
            },
            None => false,
        }
    }

    /// The first registry index holding `id`, if any.
    pub fn find_index(&self, id: &str) -> (found: Option<usize>)
        requires
            self.wf(),
        ensures
            ({
                let fm = first_match(self.ids(), id@, 0);
                if fm < self.ids().len() {
                    found matches Some(j) && j as int == fm
                } else {
                    found is None
                }
            }),
    {
        let needle = String::from_str(id);
        let n = self.ids.len();
        let mut j: usize = 0;
        while j < n
            invariant
                self.wf(),
                n == self.ids().len(),
                j <= n,
                needle@ == id@,
                first_match(self.ids(), id@, 0) == first_match(self.ids(), id@, j as int),
            decreases n - j,
        {
            if self.ids[j] == needle {
                assert(first_match(self.ids(), id@, j as int) == j);
                return Some(j);
            }
            j = j + 1;
        }
        None
    }

    /// The current state of the target with the given id, if it is tracked.
    pub fn state_of(&self, id: &str) -> (state: Option<TargetState>)
        requires
            self.wf(),
        ensures
            ({
                let fm = first_match(self.ids(), id@, 0);
                if fm < self.ids().len() {
                    state matches Some(s) && s == self@[fm]
                } else {
                    state is None
                }
            }),
    {
        match self.find_index(id) {
            Some(j) => {
                proof {
                    lemma_ids_len(*self);
                }
                Some(self.get(j))
            },
            None => None,
        }
    }

    /// Whether any target is still unresolved; the caller uses this to decide
    /// on another round.
    pub fn any_waiting(&self) -> (waiting: bool)
        ensures
            waiting == exists|i: int| 0 <= i < self@.len() && !(#[trigger] self@[i]).is_terminal(),
    {
        let n = self.states.len();
        let mut j: usize = 0;
        while j < n
            invariant
                n == self@.len(),
                j <= n,
                forall|i: int| 0 <= i < j ==> (#[trigger] self@[i]).is_terminal(),
            decreases n - j,
        {
            if !self.states[j].terminal() {
                assert(!self@[j as int].is_terminal());
                return true;
            }
            j = j + 1;
        }
        false
    }

    /// The full `(id, state)` listing for reporting after a round.
    pub fn snapshot(&self) -> (snap: Vec<(String, TargetState)>)
        requires
            self.wf(),
        ensures
            snap@.len() == self@.len(),
            forall|i: int|
                0 <= i < snap@.len() ==> (#[trigger] snap@[i]).0@ == self.ids()[i]
                    && snap@[i].1 == self@[i],
    {
        proof {
            lemma_ids_len(*self);
        }
        let n = self.states.len();
        let mut snap: Vec<(String, TargetState)> = Vec::new();
        let mut j: usize = 0;
        while j < n
            invariant
                self.wf(),
                n == self@.len(),
                self.ids().len() == n,
                j <= n,
                snap@.len() == j,
                forall|i: int|
                    0 <= i < j ==> (#[trigger] snap@[i]).0@ == self.ids()[i]
                        && snap@[i].1 == self@[i],
            decreases n - j,
        {
            snap.push((self.ids[j].clone(), self.states[j]));
            j = j + 1;
        }
        snap
    }
}

/// A well-formed registry tracks as many ids as states.
pub proof fn lemma_ids_len(reg: Registry)
    requires
        reg.wf(),
    ensures
        reg.ids().len() == reg@.len(),
{
}

} // verus!
