//! The bounded window of past turns: first in, first out.

use crate::text::{join, join_lines, texts};
use std::collections::VecDeque;
use vstd::prelude::*;

verus! {

/// The last `n` items of `s` in their order; all of `s` where it has no more
/// than `n`.
pub open spec fn keep_last<T>(s: Seq<T>, n: nat) -> Seq<T> {
    if s.len() <= n {
        s
    } else {
        s.skip(s.len() - n)
    }
}

/// What a window of the given capacity holds after `turns` were pushed onto
/// `held` one by one, oldest first.
pub open spec fn push_all(held: Seq<Seq<char>>, turns: Seq<Seq<char>>, capacity: nat) -> Seq<
    Seq<char>,
>
    decreases turns.len(),
{
    if turns.len() == 0 {
        held
    } else {
        keep_last(push_all(held, turns.drop_last(), capacity).push(turns.last()), capacity)
    }
}

/// The separator between two turns in the rendered history.
pub open spec fn turn_separator() -> Seq<char> {
    "\n"@
}

/// A first-in, first-out window over the most recent turns of a conversation.
///
/// Each turn is a finished piece of text. The window never holds more turns
/// than its capacity, which is fixed when it is made. Its view is the texts
/// of the turns it holds, oldest first.
#[derive(Debug)]
pub struct ConversationWindow {
    turns: VecDeque<String>,
    capacity: usize,
}

impl View for ConversationWindow {
    type V = Seq<Seq<char>>;

    closed spec fn view(&self) -> Seq<Seq<char>> {
        texts(self.turns@)
    }
}

impl ConversationWindow {
    #[verifier::type_invariant]
    spec fn within_capacity(self) -> bool {
        self.turns@.len() <= self.capacity
    }

    /// The largest number of turns the window holds.
    pub closed spec fn spec_capacity(&self) -> usize {
        self.capacity
    }

    /// The number of turns held.
    pub closed spec fn spec_len(&self) -> usize {
        self.turns@.len() as usize
    }

    /// The history as one block of text: the turns in the order they were
    /// pushed, one line break between neighbours.
    pub open spec fn rendered(&self) -> Seq<char> {
        join(self@, turn_separator())
    }

    /// An empty window that will hold up to `capacity` turns.
    pub fn new(capacity: usize) -> (window: Self)
        ensures
            window@ == Seq::<Seq<char>>::empty(),
            window.capacity() == capacity,
    {
        let window = ConversationWindow { turns: VecDeque::with_capacity(capacity), capacity };
        assert(window@ =~= Seq::<Seq<char>>::empty());
        window
    }

    /// The largest number of turns the window holds.
    #[verifier::when_used_as_spec(spec_capacity)]
    pub fn capacity(&self) -> (n: usize)
        ensures
            n == self.capacity(),
    {
        self.capacity
    }

    /// The number of turns held; never more than the capacity.
    #[verifier::when_used_as_spec(spec_len)]
    pub fn len(&self) -> (n: usize)
        ensures
            n == self.len(),
            n == self@.len(),
            n <= self.capacity(),
    {
        proof {
            use_type_invariant(self);
        }
        self.turns.len()
    }

    /// Whether no turn is held.
    pub fn is_empty(&self) -> (empty: bool)
        ensures
            empty == (self@.len() == 0),
    {
        self.turns.len() == 0
    }

    /// Appends `turn` as the newest turn. A full window first gives up its
    /// oldest turn; the others keep their order. A window of capacity zero
    /// holds nothing, before and after.
    pub fn push(&mut self, turn: String)
        ensures
            final(self)@ == keep_last(old(self)@.push(turn@), old(self).capacity() as nat),
            final(self)@.len() <= final(self).capacity(),
            final(self).capacity() == old(self).capacity(),
    {
        proof {
            use_type_invariant(&*self);
        }
        if self.capacity == 0 {
            assert(self@ =~= keep_last(self@.push(turn@), 0));
            return ;
        }
        let mut turns: VecDeque<String> = VecDeque::new();
        std::mem::swap(&mut turns, &mut self.turns);
        if turns.len() >= self.capacity {
            turns.pop_front();
        }
        turns.push_back(turn);
        self.turns = turns;
        assert(self@ =~= keep_last(old(self)@.push(turn@), old(self).capacity() as nat));
    }

    /// Empties the window. The capacity stays.
    pub fn clear(&mut self)
        ensures
            final(self)@ == Seq::<Seq<char>>::empty(),
            final(self).capacity() == old(self).capacity(),
    {
        let mut turns: VecDeque<String> = VecDeque::new();
        std::mem::swap(&mut turns, &mut self.turns);
        turns.clear();
        self.turns = turns;
        assert(self@ =~= Seq::<Seq<char>>::empty());
    }

    /// A copy of the turns held, oldest first.
    pub fn turns(&self) -> (out: Vec<String>)
        ensures
            texts(out@) == self@,
    {
        let mut out: Vec<String> = Vec::new();
        let mut i: usize = 0;
        while i < self.turns.len()
            invariant
                i <= self.turns.len(),
                out.len() == i,
                forall|j: int| 0 <= j < i ==> out@[j]@ == self.turns@[j]@,
            decreases self.turns.len() - i,
        {
            out.push(self.turns[i].clone());
            i += 1;
        }
        assert(texts(out@) =~= self@);
        out
    }

    /// Renders the history as one block of text. The window is left as it
    /// was, so a second call gives the same text.
    pub fn render(&self) -> (out: String)
        ensures
            out@ == self.rendered(),
    {
        let turns = self.turns();
        join_lines(&turns, "\n")
    }
}

/// Rendering reads the turns and nothing else: windows that hold the same
/// turns render to the same text, and so does one window asked twice.
pub proof fn lemma_render_is_repeatable(first: &ConversationWindow, second: &ConversationWindow)
    requires
        first@ == second@,
    ensures
        first.rendered() == second.rendered(),
{
}

/// Cutting down to the last `n` before and after one more item is the same
/// as cutting down once, after it.
pub proof fn lemma_keep_last_push<T>(s: Seq<T>, item: T, n: nat)
    ensures
        keep_last(keep_last(s, n).push(item), n) == keep_last(s.push(item), n),
{
    assert(keep_last(keep_last(s, n).push(item), n) =~= keep_last(s.push(item), n));
}

/// A run of pushes leaves the last turns of all that the window has seen:
/// what it held before followed by what was pushed, cut down to its capacity.
pub proof fn lemma_push_all_keeps_last(
    held: Seq<Seq<char>>,
    turns: Seq<Seq<char>>,
    capacity: nat,
)
    requires
        held.len() <= capacity,
    ensures
        push_all(held, turns, capacity) == keep_last(held + turns, capacity),
    decreases turns.len(),
{
    if turns.len() == 0 {
        assert(held + turns =~= held);
    } else {
        let earlier = held + turns.drop_last();
        lemma_push_all_keeps_last(held, turns.drop_last(), capacity);
        lemma_keep_last_push(earlier, turns.last(), capacity);
        assert(earlier.push(turns.last()) =~= held + turns);
    }
}

/// First in, first out: once at least as many turns were pushed as the
/// window holds, it holds exactly the most recent ones, as many as its
/// capacity, in the order in which they were pushed. What it held before is
/// gone.
pub proof fn lemma_fifo_eviction(held: Seq<Seq<char>>, turns: Seq<Seq<char>>, capacity: nat)
    requires
        held.len() <= capacity,
        turns.len() >= capacity,
    ensures
        push_all(held, turns, capacity) == turns.skip(turns.len() - capacity),
        push_all(held, turns, capacity).len() == capacity,
        forall|i: int|
            0 <= i < capacity ==> push_all(held, turns, capacity)[i] == turns[turns.len()
                - capacity + i],
{
    lemma_push_all_keeps_last(held, turns, capacity);
    assert(keep_last(held + turns, capacity) =~= turns.skip(turns.len() - capacity));
}

/// The window never outgrows its capacity, whatever is pushed.
pub proof fn lemma_push_all_within_capacity(
    held: Seq<Seq<char>>,
    turns: Seq<Seq<char>>,
    capacity: nat,
)
    requires
        held.len() <= capacity,
    ensures
        push_all(held, turns, capacity).len() <= capacity,
{
    lemma_push_all_keeps_last(held, turns, capacity);
}

} // verus!
