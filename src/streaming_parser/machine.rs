use vstd::prelude::*;

verus! {

/// A machine that reads one byte at a time and stops for good once it has
/// reached a terminal state.
pub trait ByteMachine: Sized {
    /// The state after reading one more byte.
    spec fn step(self, b: u8) -> Self;

    /// Whether the state is terminal: done or failed.
    spec fn is_terminal(self) -> bool;
}

/// The state after reading `bs` from `s`, stopping at the first terminal
/// state.
pub open spec fn run<S: ByteMachine>(s: S, bs: Seq<u8>) -> S
    decreases bs.len(),
{
    if bs.len() == 0 || s.is_terminal() {
        s
    } else {
        run(s.step(bs[0]), bs.drop_first())
    }
}

/// How many bytes of `bs` are read from `s` before a terminal state is
/// reached, or all of them if none is.
pub open spec fn consumed<S: ByteMachine>(s: S, bs: Seq<u8>) -> nat
    decreases bs.len(),
{
    if bs.len() == 0 || s.is_terminal() {
        0
    } else {
        1 + consumed(s.step(bs[0]), bs.drop_first())
    }
}

/// The chunks one after the other, as one byte sequence.
pub open spec fn concat_all(cs: Seq<Seq<u8>>) -> Seq<u8>
    decreases cs.len(),
{
    if cs.len() == 0 {
        Seq::empty()
    } else {
        cs[0] + concat_all(cs.drop_first())
    }
}

/// The state after feeding each chunk in turn.
pub open spec fn run_chunks<S: ByteMachine>(s: S, cs: Seq<Seq<u8>>) -> S
    decreases cs.len(),
{
    if cs.len() == 0 {
        s
    } else {
        run_chunks(run(s, cs[0]), cs.drop_first())
    }
}

/// The bytes taken in total when each chunk is fed in turn.
pub open spec fn consumed_chunks<S: ByteMachine>(s: S, cs: Seq<Seq<u8>>) -> nat
    decreases cs.len(),
{
    if cs.len() == 0 {
        0
    } else {
        consumed(s, cs[0]) + consumed_chunks(run(s, cs[0]), cs.drop_first())
    }
}

/// `m` is exactly one message from `s`: reading it ends in a terminal state
/// and no shorter prefix of it does.
pub open spec fn is_one_message<S: ByteMachine>(s: S, m: Seq<u8>) -> bool {
    &&& run(s, m).is_terminal()
    &&& forall|j: int| 0 <= j < m.len() ==> !(#[trigger] run(s, m.take(j))).is_terminal()
}

/// Reading stops where `consumed` says: the bytes after that point change
/// nothing, and fewer than all bytes are taken only when a terminal state was
/// reached.
pub proof fn lemma_consumed_prefix<S: ByteMachine>(s: S, bs: Seq<u8>)
    ensures
        consumed(s, bs) <= bs.len(),
        run(s, bs) == run(s, bs.take(consumed(s, bs) as int)),
        consumed(s, bs) < bs.len() ==> run(s, bs).is_terminal(),
        s.is_terminal() ==> run(s, bs) == s && consumed(s, bs) == 0,
    decreases bs.len(),
{
    if bs.len() == 0 || s.is_terminal() {
        assert(bs.take(0) =~= Seq::<u8>::empty());
    } else {
        let t = s.step(bs[0]);
        lemma_consumed_prefix(t, bs.drop_first());
        let k = consumed(t, bs.drop_first());
        assert(bs.take((k + 1) as int).drop_first() =~= bs.drop_first().take(k as int));
    }
}

/// Feeding `a` and then `b` ends in the same state as feeding `a + b` at
/// once, and takes as many bytes in total.
pub proof fn lemma_split<S: ByteMachine>(s: S, a: Seq<u8>, b: Seq<u8>)
    ensures
        run(run(s, a), b) == run(s, a + b),
        consumed(s, a) + consumed(run(s, a), b) == consumed(s, a + b),
    decreases a.len(),
{
    if a.len() == 0 {
        assert(a + b =~= b);
    } else if s.is_terminal() {
        lemma_consumed_prefix(s, b);
        lemma_consumed_prefix(s, a + b);
    } else {
        assert((a + b).drop_first() =~= a.drop_first() + b);
        lemma_split(s.step(a[0]), a.drop_first(), b);
    }
}

/// Split invariance: however a byte sequence is cut into chunks, feeding
/// the chunks one after the other ends in the same state as feeding it at
/// once, and the bytes taken add up to what one call takes.
pub proof fn lemma_split_invariance<S: ByteMachine>(s: S, cs: Seq<Seq<u8>>)
    ensures
        run_chunks(s, cs) == run(s, concat_all(cs)),
        consumed_chunks(s, cs) == consumed(s, concat_all(cs)),
    decreases cs.len(),
{
    if cs.len() > 0 {
        lemma_split_invariance(run(s, cs[0]), cs.drop_first());
        lemma_split(s, cs[0], concat_all(cs.drop_first()));
    }
}

/// A whole message is taken byte for byte.
proof fn lemma_one_message_consumed<S: ByteMachine>(s: S, m: Seq<u8>)
    requires
        forall|j: int| 0 <= j < m.len() ==> !(#[trigger] run(s, m.take(j))).is_terminal(),
    ensures
        consumed(s, m) == m.len(),
    decreases m.len(),
{
    if m.len() > 0 {
        assert(m.take(0) =~= Seq::<u8>::empty());
        assert(!run(s, m.take(0)).is_terminal());
        let t = s.step(m[0]);
        let rest = m.drop_first();
        assert forall|j: int| 0 <= j < rest.len() implies !(#[trigger] run(t, rest.take(j))).is_terminal() by {
            assert(m.take(j + 1).drop_first() =~= rest.take(j));
            assert(!run(s, m.take(j + 1)).is_terminal());
        }
        lemma_one_message_consumed(t, rest);
    }
}

/// Consumed accounting: when the bytes fed, chunk after chunk, are one
/// whole message `m` followed by anything at all, the bytes taken over all
/// calls add up to the length of `m`: what follows it is never taken.
pub proof fn lemma_consumed_accounting<S: ByteMachine>(s: S, m: Seq<u8>, rest: Seq<u8>, cs: Seq<Seq<u8>>)
    requires
        is_one_message(s, m),
        concat_all(cs) == m + rest,
    ensures
        consumed_chunks(s, cs) == m.len(),
        run_chunks(s, cs) == run(s, m),
{
    lemma_split_invariance(s, cs);
    lemma_split(s, m, rest);
    lemma_one_message_consumed(s, m);
    lemma_consumed_prefix(run(s, m), rest);
}

/// Idempotent terminality: once a terminal state is reached, further bytes
/// are not taken and change nothing.
pub proof fn lemma_terminal_idempotent<S: ByteMachine>(s: S, bs: Seq<u8>)
    requires
        s.is_terminal(),
    ensures
        run(s, bs) == s,
        consumed(s, bs) == 0,
{
    lemma_consumed_prefix(s, bs);
}

} // verus!
