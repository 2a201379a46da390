//! Recognizer for the sentinel "newline, '.', newline" that a user types to
//! end the interactive part of an open exchange.

use vstd::prelude::*;

verus! {

/// The newline byte.
pub const NEWLINE: u8 = 0x0A;

/// The period byte.
pub const PERIOD: u8 = 0x2E;

/// The four states of the sentinel recognizer.
#[derive(Clone, Copy, Debug, PartialEq, Eq, Structural)]
pub enum FinishCommunicationState {
    NoLeads,
    SawFirstEnter,
    SawPeriod,
    SawSecondEnter,
}

/// One step of the recognizer.
pub open spec fn step(s: FinishCommunicationState, byte: u8) -> FinishCommunicationState {
    match s {
        FinishCommunicationState::SawSecondEnter => FinishCommunicationState::SawSecondEnter,
        FinishCommunicationState::SawFirstEnter if byte == PERIOD => FinishCommunicationState::SawPeriod,
        FinishCommunicationState::SawPeriod if byte == NEWLINE => FinishCommunicationState::SawSecondEnter,
        _ => if byte == NEWLINE {
            FinishCommunicationState::SawFirstEnter
        } else {
            FinishCommunicationState::NoLeads
        },
    }
}

/// The state reached from `s` after reading all of `bytes`.
pub open spec fn run(s: FinishCommunicationState, bytes: Seq<u8>) -> FinishCommunicationState
    decreases bytes.len(),
{
    if bytes.len() == 0 {
        s
    } else {
        step(run(s, bytes.drop_last()), bytes.last())
    }
}

/// `bytes` holds the full sentinel, newline, '.', newline, somewhere.
pub open spec fn contains_sentinel(bytes: Seq<u8>) -> bool {
    exists|i: int|
        0 <= i && i + 2 < bytes.len() && #[trigger] bytes[i] == NEWLINE && bytes[i + 1] == PERIOD
            && bytes[i + 2] == NEWLINE
}

/// `bytes` holds '.' directly followed by a newline somewhere.
pub open spec fn contains_period_newline(bytes: Seq<u8>) -> bool {
    exists|i: int| 0 <= i && i + 1 < bytes.len() && #[trigger] bytes[i] == PERIOD && bytes[i + 1] == NEWLINE
}

/// `bytes` ends with `suffix`.
pub open spec fn ends_with(bytes: Seq<u8>, suffix: Seq<u8>) -> bool {
    suffix.len() <= bytes.len() && bytes.subrange(bytes.len() - suffix.len(), bytes.len() as int) == suffix
}

/// What the recognizer state says about everything read so far: whether the
/// sentinel has been seen and, if not, how much of it the input ends with.
pub open spec fn state_of(history: Seq<u8>) -> FinishCommunicationState {
    if contains_sentinel(history) {
        FinishCommunicationState::SawSecondEnter
    } else if ends_with(history, seq![NEWLINE, PERIOD]) {
        FinishCommunicationState::SawPeriod
    } else if ends_with(history, seq![NEWLINE]) {
        FinishCommunicationState::SawFirstEnter
    } else {
        FinishCommunicationState::NoLeads
    }
}

/// Appending one byte: when the sentinel appears, and what the input ends with.
proof fn lemma_push_facts(h: Seq<u8>, x: u8)
    ensures
        contains_sentinel(h.push(x)) <==> (contains_sentinel(h) || (ends_with(h, seq![NEWLINE, PERIOD])
            && x == NEWLINE)),
        ends_with(h.push(x), seq![NEWLINE, PERIOD]) <==> (ends_with(h, seq![NEWLINE]) && x == PERIOD),
        ends_with(h.push(x), seq![NEWLINE]) <==> x == NEWLINE,
{
    let g = h.push(x);
    let n = h.len() as int;
    assert forall|i: int| 0 <= i < n implies g[i] == h[i] by {}
    assert(g[n] == x);
    if contains_sentinel(g) {
        let i = choose|i: int|
            0 <= i && i + 2 < g.len() && #[trigger] g[i] == NEWLINE && g[i + 1] == PERIOD && g[i + 2]
                == NEWLINE;
        if i + 2 < n {
            assert(h[i] == NEWLINE && h[i + 1] == PERIOD && h[i + 2] == NEWLINE);
        } else {
            assert(h.subrange(n - 2, n) =~= seq![NEWLINE, PERIOD]);
        }
    }
    if contains_sentinel(h) {
        let i = choose|i: int|
            0 <= i && i + 2 < h.len() && #[trigger] h[i] == NEWLINE && h[i + 1] == PERIOD && h[i + 2]
                == NEWLINE;
        assert(g[i] == NEWLINE && g[i + 1] == PERIOD && g[i + 2] == NEWLINE);
    }
    if ends_with(h, seq![NEWLINE, PERIOD]) && x == NEWLINE {
        assert(h.subrange(n - 2, n)[0] == NEWLINE);
        assert(h.subrange(n - 2, n)[1] == PERIOD);
        assert(g[n - 2] == NEWLINE && g[n - 1] == PERIOD && g[n] == NEWLINE);
    }
    if ends_with(g, seq![NEWLINE, PERIOD]) {
        assert(g.subrange(n - 1, n + 1)[0] == NEWLINE);
        assert(g.subrange(n - 1, n + 1)[1] == PERIOD);
        assert(h.subrange(n - 1, n) =~= seq![NEWLINE]);
    }
    if ends_with(h, seq![NEWLINE]) && x == PERIOD {
        assert(h.subrange(n - 1, n)[0] == NEWLINE);
        assert(g.subrange(n - 1, n + 1) =~= seq![NEWLINE, PERIOD]);
    }
    if ends_with(g, seq![NEWLINE]) {
        assert(g.subrange(n, n + 1)[0] == NEWLINE);
    }
    if x == NEWLINE {
        assert(g.subrange(n, n + 1) =~= seq![NEWLINE]);
    }
}

/// The recognizer tracks `state_of` one byte at a time.
proof fn lemma_step_state_of(h: Seq<u8>, x: u8)
    ensures
        step(state_of(h), x) == state_of(h.push(x)),
{
    lemma_push_facts(h, x);
    if !contains_sentinel(h) && ends_with(h, seq![NEWLINE, PERIOD]) {
        let n = h.len() as int;
        assert(h.subrange(n - 2, n)[1] == PERIOD);
        if ends_with(h, seq![NEWLINE]) {
            assert(h.subrange(n - 1, n)[0] == NEWLINE);
        }
    }
}

/// Starting from the state that summarizes `h`, reading `bytes` leads to the
/// state that summarizes `h + bytes`.
pub proof fn lemma_run_state_of(h: Seq<u8>, bytes: Seq<u8>)
    ensures
        run(state_of(h), bytes) == state_of(h + bytes),
    decreases bytes.len(),
{
    if bytes.len() == 0 {
        assert(h + bytes =~= h);
    } else {
        lemma_run_state_of(h, bytes.drop_last());
        lemma_step_state_of(h + bytes.drop_last(), bytes.last());
        assert((h + bytes.drop_last()).push(bytes.last()) =~= h + bytes);
    }
}

/// Every '.' that is followed by a newline in `bytes` is at the start or comes
/// right after a newline.
pub open spec fn periods_follow_newlines(bytes: Seq<u8>) -> bool {
    forall|i: int|
        0 <= i && i + 1 < bytes.len() && #[trigger] bytes[i] == PERIOD && bytes[i + 1] == NEWLINE ==> i
            == 0 || bytes[i - 1] == NEWLINE
}

/// Seeded in `SawFirstEnter`, the recognizer accepts exactly the inputs that,
/// behind one leading newline, hold the full sentinel.
pub proof fn law_seeded_accepts_exactly(bytes: Seq<u8>)
    ensures
        (run(FinishCommunicationState::SawFirstEnter, bytes) == FinishCommunicationState::SawSecondEnter)
            <==> contains_sentinel(seq![NEWLINE] + bytes),
{
    let h = seq![NEWLINE];
    assert(!contains_sentinel(h));
    assert(h.subrange(0, 1) =~= seq![NEWLINE]);
    assert(state_of(h) == FinishCommunicationState::SawFirstEnter);
    lemma_run_state_of(h, bytes);
}

/// Seeded in `SawFirstEnter`, the recognizer never accepts an input in which
/// no '.' is directly followed by a newline.
pub proof fn law_never_accepts_without_period_newline(bytes: Seq<u8>)
    requires
        !contains_period_newline(bytes),
    ensures
        run(FinishCommunicationState::SawFirstEnter, bytes) != FinishCommunicationState::SawSecondEnter,
{
    law_seeded_accepts_exactly(bytes);
    let g = seq![NEWLINE] + bytes;
    if contains_sentinel(g) {
        let i = choose|i: int|
            0 <= i && i + 2 < g.len() && #[trigger] g[i] == NEWLINE && g[i + 1] == PERIOD && g[i + 2]
                == NEWLINE;
        assert(bytes[i] == PERIOD && bytes[i + 1] == NEWLINE);
    }
}

/// Seeded in `SawFirstEnter` and fed a prefix of an input whose every ".\n"
/// starts the input or follows a newline, the recognizer has accepted exactly
/// when that prefix holds ".\n": so it first accepts on the shortest prefix
/// that holds ".\n", and on no shorter one.
pub proof fn law_accepts_at_first_period_newline(bytes: Seq<u8>, k: int)
    requires
        0 <= k <= bytes.len(),
        periods_follow_newlines(bytes),
    ensures
        (run(FinishCommunicationState::SawFirstEnter, bytes.take(k)) == FinishCommunicationState::SawSecondEnter)
            <==> contains_period_newline(bytes.take(k)),
{
    let p = bytes.take(k);
    law_seeded_accepts_exactly(p);
    let g = seq![NEWLINE] + p;
    if contains_sentinel(g) {
        let i = choose|i: int|
            0 <= i && i + 2 < g.len() && #[trigger] g[i] == NEWLINE && g[i + 1] == PERIOD && g[i + 2]
                == NEWLINE;
        assert(p[i] == PERIOD && p[i + 1] == NEWLINE);
    }
    if contains_period_newline(p) {
        let i = choose|i: int| 0 <= i && i + 1 < p.len() && #[trigger] p[i] == PERIOD && p[i + 1] == NEWLINE;
        assert(bytes[i] == PERIOD && bytes[i + 1] == NEWLINE);
        assert(i == 0 || bytes[i - 1] == NEWLINE);
        assert(g[i] == NEWLINE && g[i + 1] == PERIOD && g[i + 2] == NEWLINE);
    }
}

/// Once the sentinel has been recognized, no further input undoes it.
pub proof fn law_accepting_state_absorbs(bytes: Seq<u8>)
    ensures
        run(FinishCommunicationState::SawSecondEnter, bytes) == FinishCommunicationState::SawSecondEnter,
    decreases bytes.len(),
{
    if bytes.len() > 0 {
        law_accepting_state_absorbs(bytes.drop_last());
    }
}

impl FinishCommunicationState {
    /// Advances the recognizer by one byte.
    pub fn transition(&self, byte: u8) -> (r: Self)
        ensures
            r == step(*self, byte),
    {
        match *self {
            FinishCommunicationState::SawSecondEnter => FinishCommunicationState::SawSecondEnter,
            FinishCommunicationState::SawFirstEnter if byte == PERIOD => FinishCommunicationState::SawPeriod,
            FinishCommunicationState::SawPeriod if byte == NEWLINE => FinishCommunicationState::SawSecondEnter,
            _ => if byte == NEWLINE {
                FinishCommunicationState::SawFirstEnter
            } else {
                FinishCommunicationState::NoLeads
            },
        }
    }

    /// Advances the recognizer over every byte of `bytes`, in order.
    pub fn feed(&self, bytes: &Vec<u8>) -> (r: Self)
        ensures
            r == run(*self, bytes@),
    {
        let mut t = *self;
        let mut i: usize = 0;
        while i < bytes.len()
            invariant
                0 <= i <= bytes.len(),
                t == run(*self, bytes@.take(i as int)),
            decreases bytes.len() - i,
        {
            assert(bytes@.take(i + 1).drop_last() =~= bytes@.take(i as int));
            t = t.transition(bytes[i]);
            i = i + 1;
        }
        assert(bytes@.take(i as int) =~= bytes@);
        t
    }

    /// Whether the sentinel has been recognized.
    pub fn is_finished(&self) -> (r: bool)
        ensures
            r == (*self == FinishCommunicationState::SawSecondEnter),
    {
        *self == FinishCommunicationState::SawSecondEnter
    }
}

} // verus!
