//! The pending compilation jobs: a stack of source paths.
use vstd::prelude::*;

verus! {

/// Pending task paths. The most recently added path leaves first.
pub struct TaskQueue {
    items: Vec<String>,
}

/// The path an `Option<String>` holds, as text.
pub open spec fn opt_text(o: Option<String>) -> Option<Seq<char>> {
    match o {
        Some(s) => Some(s@),
        None => None,
    }
}

/// What one `pop` returns and leaves behind on the queue `q`.
pub open spec fn pop_of(q: Seq<Seq<char>>) -> (Option<Seq<char>>, Seq<Seq<char>>) {
    if q.len() == 0 {
        (None, q)
    } else {
        (Some(q.last()), q.drop_last())
    }
}

impl View for TaskQueue {
    type V = Seq<Seq<char>>;

    /// The pending paths, oldest first.
    closed spec fn view(&self) -> Seq<Seq<char>> {
        self.items@.map_values(|s: String| s@)
    }
}

impl TaskQueue {
    pub fn new() -> (r: Self)
        ensures
            r@ == Seq::<Seq<char>>::empty(),
    {
        let r = TaskQueue { items: Vec::new() };
        assert(r@ =~= Seq::<Seq<char>>::empty());
        r
    }

    /// A queue holding `paths`; the last of them leaves first.
    pub fn from_paths(paths: Vec<String>) -> (r: Self)
        ensures
            r@ == paths@.map_values(|s: String| s@),
    {
        TaskQueue { items: paths }
    }

    pub fn len(&self) -> (r: usize)
        ensures
            r == self@.len(),
    {
        self.items.len()
    }

    pub fn is_empty(&self) -> (r: bool)
        ensures
            r == (self@.len() == 0),
    {
        self.items.len() == 0
    }

    /// Adds a path; never fails.
    pub fn push(&mut self, path: String)
        ensures
            final(self)@ == old(self)@.push(path@),
    {
        self.items.push(path);
        assert(self@ =~= old(self)@.push(path@));
    }

    /// Removes and returns the most recently added path; nothing when empty.
    pub fn pop(&mut self) -> (r: Option<String>)
        ensures
            pop_of(old(self)@) == (opt_text(r), final(self)@),
    {
        let r = self.items.pop();
        assert(self@ =~= pop_of(old(self)@).1);
        r
    }
}

/// After pushing `a` and then `b`, one pop returns `b`, a second returns `a`, and
/// the queue is then as it was before the two pushes.
pub proof fn lemma_push_push_pop(q: Seq<Seq<char>>, a: Seq<char>, b: Seq<char>)
    ensures
        pop_of(q.push(a).push(b)).0 == Some(b),
        pop_of(pop_of(q.push(a).push(b)).1).0 == Some(a),
        pop_of(pop_of(q.push(a).push(b)).1).1 == q,
{
    assert(q.push(a).push(b).drop_last() =~= q.push(a));
    assert(q.push(a).drop_last() =~= q);
}

} // verus!
