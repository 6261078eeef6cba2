//! Completed jobs: one outcome per finished compilation, in completion order.
use vstd::prelude::*;

verus! {

/// One finished compilation.
pub struct TaskOutcome {
    pub path: String,
    pub success: bool,
    pub log: String,
}

/// A finished compilation as plain values: path, success flag, diagnostic text.
pub type OutcomeView = (Seq<char>, bool, Seq<char>);

impl View for TaskOutcome {
    type V = OutcomeView;

    open spec fn view(&self) -> OutcomeView {
        (self.path@, self.success, self.log@)
    }
}

/// The first outcome recorded for `p`, if any.
pub open spec fn find_in(s: Seq<OutcomeView>, p: Seq<char>) -> Option<OutcomeView>
    decreases s.len(),
{
    if s.len() == 0 {
        None
    } else if s[0].0 == p {
        Some(s[0])
    } else {
        find_in(s.drop_first(), p)
    }
}

/// How many of the outcomes succeeded.
pub open spec fn count_succeeded(s: Seq<OutcomeView>) -> nat
    decreases s.len(),
{
    if s.len() == 0 {
        0
    } else {
        count_succeeded(s.drop_last()) + if s.last().1 {
            1nat
        } else {
            0nat
        }
    }
}

/// The outcomes recorded so far; entries are never removed.
pub struct ResultTable {
    entries: Vec<TaskOutcome>,
}

impl View for ResultTable {
    type V = Seq<OutcomeView>;

    closed spec fn view(&self) -> Seq<OutcomeView> {
        self.entries@.map_values(|e: TaskOutcome| e@)
    }
}

impl ResultTable {
    pub fn new() -> (r: Self)
        ensures
            r@ == Seq::<OutcomeView>::empty(),
    {
        let r = ResultTable { entries: Vec::new() };
        assert(r@ =~= Seq::<OutcomeView>::empty());
        r
    }

    pub fn len(&self) -> (r: usize)
        ensures
            r == self@.len(),
    {
        self.entries.len()
    }

    /// Appends the outcome of the job `path`.
    pub fn record(&mut self, path: String, success: bool, log: String)
        ensures
            final(self)@ == old(self)@.push((path@, success, log@)),
    {
        self.entries.push(TaskOutcome { path, success, log });
        assert(self@ =~= old(self)@.push((path@, success, log@)));
    }

    /// The first outcome recorded for `path`, left in place.
    pub fn find(&self, path: &str) -> (r: Option<&TaskOutcome>)
        ensures
            match r {
                Some(e) => find_in(self@, path@) == Some(e@),
                None => find_in(self@, path@) == None::<OutcomeView>,
            },
    {
        let wanted = path.to_owned();
        let mut i: usize = 0;
        assert(self@.subrange(0, self@.len() as int) =~= self@);
        while i < self.entries.len()
            invariant
                i <= self@.len(),
                wanted@ == path@,
                find_in(self@, path@) == find_in(self@.subrange(i as int, self@.len() as int), path@),
            decreases self@.len() - i,
        {
            let e = &self.entries[i];
            assert(self@[i as int] == e@);
            if e.path == wanted {
                return Some(e);
            }
            assert(self@.subrange(i as int, self@.len() as int).drop_first() =~= self@.subrange(
                i + 1,
                self@.len() as int,
            ));
            i = i + 1;
        }
        None
    }

    /// How many recorded outcomes succeeded.
    pub fn succeeded(&self) -> (r: usize)
        ensures
            r == count_succeeded(self@),
    {
        let mut n: usize = 0;
        let mut i: usize = 0;
        while i < self.entries.len()
            invariant
                i <= self@.len(),
                n == count_succeeded(self@.subrange(0, i as int)),
                n <= i,
            decreases self@.len() - i,
        {
            assert(self@.subrange(0, i + 1).drop_last() =~= self@.subrange(0, i as int));
            if self.entries[i].success {
                n = n + 1;
            }
            i = i + 1;
        }
        assert(self@.subrange(0, self@.len() as int) =~= self@);
        n
    }
}

/// Finding a path with no recorded outcome gives nothing.
pub proof fn lemma_find_unrecorded(s: Seq<OutcomeView>, p: Seq<char>)
    requires
        forall|i: int| 0 <= i < s.len() ==> s[i].0 != p,
    ensures
        find_in(s, p) == None::<OutcomeView>,
    decreases s.len(),
{
    if s.len() > 0 {
        assert(s[0].0 != p);
        lemma_find_unrecorded(s.drop_first(), p);
    }
}

/// Once `p` is recorded, and it had not been before, finding `p` gives that outcome.
pub proof fn lemma_record_then_find(s: Seq<OutcomeView>, p: Seq<char>, success: bool, log: Seq<char>)
    requires
        find_in(s, p) == None::<OutcomeView>,
    ensures
        find_in(s.push((p, success, log)), p) == Some((p, success, log)),
    decreases s.len(),
{
    if s.len() == 0 {
        assert(s.push((p, success, log))[0] == (p, success, log));
    } else {
        assert(s.push((p, success, log)).drop_first() =~= s.drop_first().push((p, success, log)));
        lemma_record_then_find(s.drop_first(), p, success, log);
    }
}

} // verus!
