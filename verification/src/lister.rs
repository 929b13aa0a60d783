use vstd::prelude::*;
use vstd::string::StringExecFns;

use crate::access::List;
use crate::path_util::spec_starts_with;
use crate::path_util::str_starts_with;
use crate::types::Entry;
use crate::types::Error;

verus! {

/// An in-memory lister: yields a fixed sequence of entries and never fails.
pub struct EntryLister {
    pub entries: Vec<Entry>,
    pub pos: usize,
}

impl EntryLister {
    pub fn new(entries: Vec<Entry>) -> (l: EntryLister)
        ensures
            l.wf(),
            l.remaining() == entries@,
    {
        let l = EntryLister { entries, pos: 0 };
        proof {
            assert(l.remaining() =~= l.entries@);
        }
        l
    }
}

impl List for EntryLister {
    open spec fn wf(&self) -> bool {
        self.pos <= self.entries@.len()
    }

    open spec fn remaining(&self) -> Seq<Entry> {
        self.entries@.skip(self.pos as int)
    }

    fn next(&mut self) -> (r: Result<Option<Entry>, Error>) {
        if self.pos < self.entries.len() {
            let e = self.entries[self.pos].clone();
            self.pos = self.pos + 1;
            proof {
                assert(old(self).remaining() =~= seq![e] + self.remaining());
            }
            Ok(Some(e))
        } else {
            Ok(None)
        }
    }
}

/// The predicate retained by a prefix filter: the entry's key starts with
/// the prefix, as an exact string prefix.
pub open spec fn prefix_pred(prefix: Seq<char>) -> spec_fn(Entry) -> bool {
    |e: Entry| spec_starts_with(e.path@, prefix)
}

/// Filtering a sequence headed by `e` keeps `e` exactly when the predicate
/// holds of it, and filters the rest either way.
pub proof fn lemma_filter_head(e: Entry, rest: Seq<Entry>, pred: spec_fn(Entry) -> bool)
    ensures
        (seq![e] + rest).filter(pred) == if pred(e) {
            seq![e] + rest.filter(pred)
        } else {
            rest.filter(pred)
        },
{
    reveal(Seq::filter);
    Seq::filter_distributes_over_add(seq![e], rest, pred);
    assert(seq![e].drop_last() =~= Seq::<Entry>::empty());
    assert(Seq::<Entry>::empty().filter(pred) =~= Seq::<Entry>::empty());
    if pred(e) {
        assert(seq![e].filter(pred) =~= seq![e]);
    } else {
        assert(seq![e].filter(pred) =~= Seq::<Entry>::empty());
        assert(Seq::<Entry>::empty() + rest.filter(pred) =~= rest.filter(pred));
    }
}

/// Wraps a lister and yields only the entries whose key starts with a given
/// prefix, in the inner order. Errors propagate unchanged.
pub struct PrefixLister<L> {
    pub inner: L,
    pub prefix: String,
}

impl<L: List> PrefixLister<L> {
    pub fn new(inner: L, prefix: &str) -> (l: PrefixLister<L>)
        requires
            inner.wf(),
        ensures
            l.wf(),
            l.remaining() == inner.remaining().filter(prefix_pred(prefix@)),
    {
        PrefixLister { inner, prefix: String::from_str(prefix) }
    }
}

impl<L: List> List for PrefixLister<L> {
    open spec fn wf(&self) -> bool {
        self.inner.wf()
    }

    open spec fn remaining(&self) -> Seq<Entry> {
        self.inner.remaining().filter(prefix_pred(self.prefix@))
    }

    fn next(&mut self) -> (r: Result<Option<Entry>, Error>) {
        loop
            invariant
                self.inner.wf(),
                self.prefix@ == old(self).prefix@,
                self.remaining() == old(self).remaining(),
            decreases self.inner.remaining().len(),
        {
            let ghost pre = self.inner.remaining();
            match self.inner.next() {
                Err(e) => {
                    proof {
                        self.inner.remaining().lemma_filter_len(prefix_pred(self.prefix@));
                    }
                    return Err(e);
                },
                Ok(None) => {
                    proof {
                        self.inner.remaining().lemma_filter_len(prefix_pred(self.prefix@));
                    }
                    return Ok(None);
                },
                Ok(Some(e)) => {
                    proof {
                        lemma_filter_head(e, self.inner.remaining(), prefix_pred(self.prefix@));
                    }
                    if str_starts_with(e.path.as_str(), self.prefix.as_str()) {
                        return Ok(Some(e));
                    }
                },
            }
        }
    }
}

/// The four shapes a completed lister can take, one variant each, forwarding
/// `next` to whichever it holds.
pub enum FourWays<A, B, C, D> {
    One(A),
    Two(B),
    Three(C),
    Four(D),
}

impl<A: List, B: List, C: List, D: List> List for FourWays<A, B, C, D> {
    open spec fn wf(&self) -> bool {
        match self {
            FourWays::One(l) => l.wf(),
            FourWays::Two(l) => l.wf(),
            FourWays::Three(l) => l.wf(),
            FourWays::Four(l) => l.wf(),
        }
    }

    open spec fn remaining(&self) -> Seq<Entry> {
        match self {
            FourWays::One(l) => l.remaining(),
            FourWays::Two(l) => l.remaining(),
            FourWays::Three(l) => l.remaining(),
            FourWays::Four(l) => l.remaining(),
        }
    }

    fn next(&mut self) -> (r: Result<Option<Entry>, Error>) {
        match self {
            FourWays::One(l) => l.next(),
            FourWays::Two(l) => l.next(),
            FourWays::Three(l) => l.next(),
            FourWays::Four(l) => l.next(),
        }
    }
}

} // verus!
