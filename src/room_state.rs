use std::collections::VecDeque;
use vstd::prelude::*;
use vstd::seq_lib::*;
use vstd::string::*;

use crate::classify::{ChatEvent, ChatEventView};
use crate::codec::text_views;

verus! {

/// The number of lines that a session's history keeps by default.
pub const DEFAULT_RECORD_SIZE: u32 = 100;

/// `h` with `line` appended, its oldest line dropped where that leaves more
/// than `cap` lines.
pub open spec fn bounded_push(h: Seq<Seq<char>>, line: Seq<char>, cap: nat) -> Seq<Seq<char>> {
    let g = h.push(line);
    if g.len() > cap {
        g.drop_first()
    } else {
        g
    }
}

/// The history that holds at most `cap` lines after `lines` were appended to
/// an empty one, in order.
pub open spec fn history_after(lines: Seq<Seq<char>>, cap: nat) -> Seq<Seq<char>>
    decreases lines.len(),
{
    if lines.len() == 0 {
        Seq::empty()
    } else {
        bounded_push(history_after(lines.drop_last(), cap), lines.last(), cap)
    }
}

/// A history of capacity `cap` holds the last `cap` lines appended to it (all
/// of them while there are fewer), in the order in which they came.
pub proof fn lemma_history_keeps_last(lines: Seq<Seq<char>>, cap: nat)
    ensures
        lines.len() > cap ==> history_after(lines, cap) == lines.subrange(
            lines.len() - cap,
            lines.len() as int,
        ),
        lines.len() <= cap ==> history_after(lines, cap) == lines,
        history_after(lines, cap).len() == if lines.len() > cap {
            cap
        } else {
            lines.len()
        },
    decreases lines.len(),
{
    let n = lines.len() as int;
    if n > 0 {
        let init = lines.drop_last();
        lemma_history_keeps_last(init, cap);
        let a = if n - 1 > cap {
            n - 1 - cap
        } else {
            0
        };
        assert(history_after(init, cap) =~= lines.subrange(a, n - 1));
        assert(lines.subrange(a, n - 1).push(lines.last()) =~= lines.subrange(a, n));
        if n - a > cap {
            assert(lines.subrange(a, n).drop_first() =~= lines.subrange(n - cap, n));
        } else {
            assert(lines.subrange(a, n) =~= lines);
        }
    } else {
        assert(lines =~= Seq::<Seq<char>>::empty());
    }
}

/// The chat lines of a session, oldest first, of which it keeps the newest
/// `capacity`.
#[derive(Debug)]
pub struct MessageHistory {
    lines: VecDeque<String>,
    capacity: usize,
}

impl View for MessageHistory {
    type V = Seq<Seq<char>>;

    closed spec fn view(&self) -> Seq<Seq<char>> {
        self.lines@.map_values(|s: String| s@)
    }
}

impl MessageHistory {
    /// The most lines that the history keeps.
    pub closed spec fn capacity(&self) -> nat {
        self.capacity as nat
    }

    /// The history never holds more lines than its capacity.
    #[verifier::type_invariant]
    spec fn within_capacity(&self) -> bool {
        self.lines@.len() <= self.capacity
    }

    /// An empty history that keeps at most `capacity` lines.
    pub fn new(capacity: usize) -> (r: MessageHistory)
        ensures
            r@ == Seq::<Seq<char>>::empty(),
            r.capacity() == capacity,
    {
        let r = MessageHistory { lines: VecDeque::new(), capacity };
        assert(r@ =~= Seq::<Seq<char>>::empty());
        r
    }

    /// Appends a line, dropping the oldest one once the history is full.
    pub fn push(&mut self, line: String)
        ensures
            final(self).capacity() == old(self).capacity(),
            final(self)@ == bounded_push(old(self)@, line@, old(self).capacity()),
    {
        proof {
            use_type_invariant(&*self);
        }
        let mut lines: VecDeque<String> = VecDeque::new();
        core::mem::swap(&mut self.lines, &mut lines);
        let ghost before = lines@;
        let ghost text = line@;
        lines.push_back(line);
        assert(lines@.map_values(|s: String| s@) =~= before.map_values(|s: String| s@).push(text));
        if lines.len() > self.capacity {
            let ghost full = lines@;
            let _ = lines.pop_front();
            assert(lines@.map_values(|s: String| s@) =~= full.map_values(
                |s: String| s@,
            ).drop_first());
        }
        self.lines = lines;
    }

    /// The number of lines held.
    pub fn len(&self) -> (r: usize)
        ensures
            r == self@.len(),
            r <= self.capacity(),
    {
        proof {
            use_type_invariant(self);
        }
        self.lines.len()
    }

    /// A copy of the lines, oldest first.
    pub fn lines(&self) -> (r: Vec<String>)
        ensures
            text_views(r@) == self@,
    {
        let mut r: Vec<String> = Vec::new();
        let mut i: usize = 0;
        while i < self.lines.len()
            invariant
                i <= self.lines@.len(),
                text_views(r@) == self@.take(i as int),
            decreases self.lines@.len() - i,
        {
            let ghost prev = r@;
            r.push(self.lines[i].clone());
            assert(text_views(r@) =~= text_views(prev).push(self.lines@[i as int]@));
            assert(self@.take(i + 1) =~= self@.take(i as int).push(self@[i as int]));
            i = i + 1;
        }
        assert(self@.take(i as int) =~= self@);
        r
    }
}

/// The users in a room, in the order in which they came.
#[derive(Debug)]
pub struct MemberList {
    names: Vec<String>,
}

/// The index of the first element of `s` at or after `i` that equals `x`, or
/// `s.len()` where there is none.
pub open spec fn first_index_from(s: Seq<Seq<char>>, x: Seq<char>, i: int) -> int
    decreases s.len() - i,
{
    if i >= s.len() {
        s.len() as int
    } else if s[i] == x {
        i
    } else {
        first_index_from(s, x, i + 1)
    }
}

/// `s` without its first occurrence of `x`; `s` itself where `x` is absent.
pub open spec fn remove_first_of(s: Seq<Seq<char>>, x: Seq<char>) -> Seq<Seq<char>> {
    let k = first_index_from(s, x, 0);
    if 0 <= k < s.len() {
        s.remove(k)
    } else {
        s
    }
}

/// The member list after an event: an arrival appends the user (even one
/// already present), a departure removes the user's first entry.
pub open spec fn apply_event(s: Seq<Seq<char>>, e: ChatEventView) -> Seq<Seq<char>> {
    match e {
        ChatEventView::Joined(u) => s.push(u),
        ChatEventView::Left(u) => remove_first_of(s, u),
        ChatEventView::Plain => s,
    }
}

proof fn lemma_first_index_from(s: Seq<Seq<char>>, x: Seq<char>, i: int)
    requires
        0 <= i <= s.len(),
    ensures
        i <= first_index_from(s, x, i) <= s.len(),
        first_index_from(s, x, i) < s.len() ==> s[first_index_from(s, x, i)] == x,
        forall|j: int| i <= j < first_index_from(s, x, i) ==> s[j] != x,
    decreases s.len() - i,
{
    if i < s.len() && s[i] != x {
        lemma_first_index_from(s, x, i + 1);
    }
}

/// An arrival puts the user on the list once more; a departure that follows
/// takes one entry of that user off again, so that the user is listed as many
/// times as before the arrival.
pub proof fn lemma_join_then_leave(s: Seq<Seq<char>>, x: Seq<char>)
    ensures
        apply_event(s, ChatEventView::Joined(x)).contains(x),
        apply_event(s, ChatEventView::Joined(x)).to_multiset().count(x) == s.to_multiset().count(x)
            + 1,
        apply_event(apply_event(s, ChatEventView::Joined(x)), ChatEventView::Left(x)).to_multiset().count(x)
            == s.to_multiset().count(x),
{
    let t = s.push(x);
    assert(t[s.len() as int] == x);
    to_multiset_build(s, x);
    lemma_leave_removes_one(t, x);
}

/// A departure takes exactly one entry of the user off the list where there
/// is one, and leaves the list as it is where there is none.
pub proof fn lemma_leave_removes_one(s: Seq<Seq<char>>, x: Seq<char>)
    ensures
        s.contains(x) ==> apply_event(s, ChatEventView::Left(x)).to_multiset().count(x)
            == s.to_multiset().count(x) - 1,
        !s.contains(x) ==> apply_event(s, ChatEventView::Left(x)) == s,
        s.to_multiset().count(x) > 0 <==> s.contains(x),
{
    lemma_first_index_from(s, x, 0);
    to_multiset_contains(s, x);
    let k = first_index_from(s, x, 0);
    if s.contains(x) {
        let j = choose|j: int| 0 <= j < s.len() && s[j] == x;
        assert(k <= j);
        to_multiset_remove(s, k);
    }
}

impl View for MemberList {
    type V = Seq<Seq<char>>;

    closed spec fn view(&self) -> Seq<Seq<char>> {
        text_views(self.names@)
    }
}

impl MemberList {
    /// An empty list.
    pub fn new() -> (r: MemberList)
        ensures
            r@ == Seq::<Seq<char>>::empty(),
    {
        let r = MemberList { names: Vec::new() };
        assert(r@ =~= Seq::<Seq<char>>::empty());
        r
    }

    /// Appends a user, whether or not the list holds the name already.
    pub fn add(&mut self, name: String)
        ensures
            final(self)@ == old(self)@.push(name@),
    {
        let ghost before = self.names@;
        let ghost text = name@;
        self.names.push(name);
        assert(text_views(self.names@) =~= text_views(before).push(text));
    }

    /// Appends each of `names`, in order.
    pub fn add_all(&mut self, names: Vec<String>)
        ensures
            final(self)@ == old(self)@ + text_views(names@),
    {
        let mut i: usize = 0;
        while i < names.len()
            invariant
                i <= names@.len(),
                self@ == old(self)@ + text_views(names@).take(i as int),
            decreases names@.len() - i,
        {
            self.add(names[i].clone());
            assert(text_views(names@).take(i + 1) =~= text_views(names@).take(i as int).push(
                names@[i as int]@,
            ));
            assert(old(self)@ + text_views(names@).take(i + 1) =~= (old(self)@ + text_views(
                names@,
            ).take(i as int)).push(names@[i as int]@));
            i = i + 1;
        }
        assert(text_views(names@).take(i as int) =~= text_views(names@));
    }

    /// Removes the first entry equal to `name`; does nothing where there is
    /// none.
    pub fn remove_first(&mut self, name: &str)
        ensures
            final(self)@ == remove_first_of(old(self)@, name@),
    {
        let ghost s = self@;
        let target = String::from_str(name);
        let mut i: usize = 0;
        while i < self.names.len()
            invariant
                self@ == s,
                s == old(self)@,
                target@ == name@,
                i <= s.len(),
                first_index_from(s, name@, 0) == first_index_from(s, name@, i as int),
            decreases s.len() - i,
        {
            assert(s[i as int] == self.names@[i as int]@);
            let eq = self.names[i] == target;
            if eq {
                proof {
                    lemma_first_index_from(s, name@, 0);
                }
                assert(first_index_from(s, name@, i as int) == i);
                let ghost before = self.names@;
                self.names.remove(i);
                assert(text_views(self.names@) =~= text_views(before).remove(i as int));
                return;
            }
            i = i + 1;
        }
    }

    /// Updates the list for what a chat line announced.
    pub fn apply(&mut self, event: &ChatEvent)
        ensures
            final(self)@ == apply_event(old(self)@, event@),
    {
        match event {
            ChatEvent::Joined(u) => self.add(u.clone()),
            ChatEvent::Left(u) => self.remove_first(u.as_str()),
            ChatEvent::Plain => {},
        }
    }

    /// The number of entries.
    pub fn len(&self) -> (r: usize)
        ensures
            r == self@.len(),
    {
        self.names.len()
    }

    /// A copy of the names, in order.
    pub fn names(&self) -> (r: Vec<String>)
        ensures
            text_views(r@) == self@,
    {
        self.names.clone()
    }
}

} // verus!
