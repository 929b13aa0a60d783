use vstd::prelude::*;
use vstd::string::StringExecFns;

use std::sync::Arc;

use crate::access::Access;
use crate::access::List;
use crate::access::OpList;
use crate::types::Entry;
use crate::types::Error;

verus! {

/// Pre-order expansion of a sequence of entries: each entry is yielded, and a
/// directory entry is followed at once by the expansion of its own listing.
/// `fuel` bounds the directory depth so the definition is well-founded.
pub open spec fn expand_all<A: Access>(a: A, es: Seq<Entry>, fuel: nat) -> Seq<Entry>
    decreases fuel, es.len(), 1int,
{
    if es.len() == 0 {
        Seq::empty()
    } else {
        expand_one(a, es[0], fuel) + expand_all(a, es.drop_first(), fuel)
    }
}

pub open spec fn expand_one<A: Access>(a: A, e: Entry, fuel: nat) -> Seq<Entry>
    decreases fuel, 0int, 0int,
{
    if e.metadata.mode.spec_is_dir() && fuel > 0 {
        seq![e] + expand_all(a, a.listing(e.path@, false), (fuel - 1) as nat)
    } else {
        seq![e]
    }
}

/// The tree under these entries is exhausted within `fuel` levels of
/// directories: the well-foundedness a depth-first walk needs.
pub open spec fn wf_entries<A: Access>(a: A, es: Seq<Entry>, fuel: nat) -> bool
    decreases fuel, es.len(), 1int,
{
    if es.len() == 0 {
        true
    } else {
        wf_one(a, es[0], fuel) && wf_entries(a, es.drop_first(), fuel)
    }
}

pub open spec fn wf_one<A: Access>(a: A, e: Entry, fuel: nat) -> bool
    decreases fuel, 0int, 0int,
{
    e.metadata.mode.spec_is_dir() ==> fuel > 0 && wf_entries(
        a,
        a.listing(e.path@, false),
        (fuel - 1) as nat,
    )
}

/// The expansion does not depend on which sufficient fuel bound is used.
pub proof fn lemma_expand_fuel_indep<A: Access>(a: A, es: Seq<Entry>, f1: nat, f2: nat)
    requires
        wf_entries(a, es, f1),
        wf_entries(a, es, f2),
    ensures
        expand_all(a, es, f1) == expand_all(a, es, f2),
    decreases f1, es.len(),
{
    if es.len() > 0 {
        let e = es[0];
        assert(wf_one(a, e, f1) && wf_entries(a, es.drop_first(), f1));
        assert(wf_one(a, e, f2) && wf_entries(a, es.drop_first(), f2));
        if e.metadata.mode.spec_is_dir() {
            let sub = a.listing(e.path@, false);
            assert(f1 > 0 && wf_entries(a, sub, (f1 - 1) as nat));
            assert(f2 > 0 && wf_entries(a, sub, (f2 - 1) as nat));
            lemma_expand_fuel_indep(a, sub, (f1 - 1) as nat, (f2 - 1) as nat);
        }
        lemma_expand_fuel_indep(a, es.drop_first(), f1, f2);
        assert(expand_one(a, e, f1) == expand_one(a, e, f2));
        assert(expand_all(a, es, f1) == expand_one(a, e, f1) + expand_all(a, es.drop_first(), f1));
        assert(expand_all(a, es, f2) == expand_one(a, e, f2) + expand_all(a, es.drop_first(), f2));
    }
}

/// What a fault-free recursive walk from `path` yields, in pre-order: the
/// full flat listing of the subtree, directories standing before their
/// contents. Meaningful whenever some fuel bound makes the tree well-founded.
pub open spec fn flat_listing<A: Access>(a: A, path: Seq<char>) -> Seq<Entry> {
    let fuel = choose|fuel: nat| wf_entries(a, a.listing(path, false), fuel);
    expand_all(a, a.listing(path, false), fuel)
}

/// Nothing listed is lost: every entry of the expanded sequence appears in
/// its own expansion.
pub proof fn lemma_expand_contains<A: Access>(a: A, es: Seq<Entry>, fuel: nat, i: int)
    requires
        0 <= i < es.len(),
    ensures
        expand_all(a, es, fuel).contains(es[i]),
    decreases es.len(),
{
    let head = expand_one(a, es[0], fuel);
    let rest = expand_all(a, es.drop_first(), fuel);
    assert(head[0] == es[0]);
    assert(expand_all(a, es, fuel) == head + rest);
    if i == 0 {
        assert((head + rest)[0] == es[0]);
    } else {
        lemma_expand_contains(a, es.drop_first(), fuel, i - 1);
        let k = choose|k: int| 0 <= k < rest.len() && rest[k] == es.drop_first()[i - 1];
        assert((head + rest)[head.len() + k] == es[i]);
    }
}

/// Every entry of the root's own listing appears in the flat listing.
pub proof fn lemma_flat_listing_complete<A: Access>(a: A, path: Seq<char>, fuel: nat, i: int)
    requires
        wf_entries(a, a.listing(path, false), fuel),
        0 <= i < a.listing(path, false).len(),
    ensures
        flat_listing(a, path).contains(a.listing(path, false)[i]),
{
    lemma_flat_listing_is_expansion(a, path, fuel);
    lemma_expand_contains(a, a.listing(path, false), fuel, i);
}

/// Under any sufficient fuel bound, the flat listing is exactly the
/// pre-order expansion of the root's own listing: every entry of a listed
/// directory appears, and a directory stands immediately before its
/// contents.
pub proof fn lemma_flat_listing_is_expansion<A: Access>(a: A, path: Seq<char>, fuel: nat)
    requires
        wf_entries(a, a.listing(path, false), fuel),
    ensures
        flat_listing(a, path) == expand_all(a, a.listing(path, false), fuel),
{
    let f2 = choose|f2: nat| wf_entries(a, a.listing(path, false), f2);
    lemma_expand_fuel_indep(a, a.listing(path, false), fuel, f2);
}

/// The depth-first state: what the open directory cursors on the stack, top
/// first, still owe.
pub open spec fn frames_rem<A: Access>(a: A, stack: Seq<A::Lister>, fuels: Seq<nat>) -> Seq<Entry>
    decreases stack.len(),
{
    if stack.len() == 0 {
        Seq::empty()
    } else {
        expand_all(a, stack.last().remaining(), fuels.last()) + frames_rem(
            a,
            stack.drop_last(),
            fuels.drop_last(),
        )
    }
}

/// Transforms a hierarchical backend into a recursive lister: a depth-first
/// walker over a stack of open directory cursors. Directories are yielded
/// before their contents; an error from any frame aborts the traversal.
pub struct FlatLister<A: Access> {
    pub acc: Arc<A>,
    pub root: String,
    pub stack: Vec<A::Lister>,
    pub started: bool,
    pub fuels: Ghost<Seq<nat>>,
    pub base_fuel: Ghost<nat>,
}

impl<A: Access> FlatLister<A> {
    /// The backend the walker reopens directories through.
    pub open spec fn a(&self) -> A {
        *self.acc
    }

    pub fn new(acc: Arc<A>, root: &str) -> (l: FlatLister<A>)
        requires
            exists|fuel: nat| wf_entries(*acc, (*acc).listing(root@, false), fuel),
        ensures
            l.wf(),
            l.a() == *acc,
            l.remaining() == flat_listing(*acc, root@),
    {
        let ghost fuel = choose|fuel: nat| wf_entries(*acc, (*acc).listing(root@, false), fuel);
        let l = FlatLister {
            acc,
            root: String::from_str(root),
            stack: Vec::new(),
            started: false,
            fuels: Ghost(Seq::empty()),
            base_fuel: Ghost(fuel),
        };
        proof {
            lemma_flat_listing_is_expansion(l.a(), root@, fuel);
        }
        l
    }
}

impl<A: Access> List for FlatLister<A> {
    open spec fn wf(&self) -> bool {
        &&& self.fuels@.len() == self.stack@.len()
        &&& forall|i: int|
            0 <= i < self.stack@.len() ==> (#[trigger] self.stack@[i]).wf() && wf_entries(
                self.a(),
                self.stack@[i].remaining(),
                self.fuels@[i],
            )
        &&& !self.started ==> self.stack@.len() == 0 && wf_entries(
            self.a(),
            self.a().listing(self.root@, false),
            self.base_fuel@,
        )
    }

    open spec fn remaining(&self) -> Seq<Entry> {
        if !self.started {
            expand_all(self.a(), self.a().listing(self.root@, false), self.base_fuel@)
        } else {
            frames_rem(self.a(), self.stack@, self.fuels@)
        }
    }

    fn next(&mut self) -> (r: Result<Option<Entry>, Error>) {
        if !self.started {
            let l = match self.acc.list(self.root.as_str(), OpList::new()) {
                Err(e) => {
                    self.started = true;
                    return Err(e);
                },
                Ok(l) => l,
            };
            let ghost lg = l;
            self.started = true;
            self.stack.push(l);
            proof {
                self.fuels@ = self.fuels@.push(self.base_fuel@);
                assert(self.stack@.len() == 1);
                assert(self.stack@.last() == lg);
                assert(self.stack@.drop_last() =~= Seq::<A::Lister>::empty());
                assert(self.fuels@.drop_last() =~= Seq::<nat>::empty());
                assert(frames_rem(self.a(), self.stack@.drop_last(), self.fuels@.drop_last())
                    == Seq::<Entry>::empty());
                assert(lg.remaining() == self.a().listing(self.root@, false));
                let ex = expand_all(self.a(), lg.remaining(), self.base_fuel@);
                assert(frames_rem(self.a(), self.stack@, self.fuels@) == ex + Seq::<
                    Entry,
                >::empty());
                assert(ex + Seq::<Entry>::empty() =~= ex);
                assert(self.remaining() == old(self).remaining());
                assert forall|i: int|
                    0 <= i < self.stack@.len() implies (#[trigger] self.stack@[i]).wf()
                    && wf_entries(self.a(), self.stack@[i].remaining(), self.fuels@[i]) by {
                    assert(self.stack@[i] == lg);
                    assert(self.fuels@[i] == self.base_fuel@);
                };
            }
        }
        loop
            invariant
                self.wf(),
                self.started,
                self.acc == old(self).acc,
                self.remaining() == old(self).remaining(),
            decreases self.stack@.len(),
        {
            if self.stack.len() == 0 {
                return Ok(None);
            }
            let ghost stack0 = self.stack@;
            let ghost fuels0 = self.fuels@;
            let ghost a = self.a();
            let mut top = self.stack.pop().unwrap();
            let ghost f = self.fuels@.last();
            proof {
                self.fuels@ = self.fuels@.drop_last();
                assert(stack0.last() == top);
                assert(wf_entries(a, top.remaining(), f));
            }
            let ghost pre = top.remaining();
            match top.next() {
                Err(e) => {
                    self.stack = Vec::new();
                    proof {
                        self.fuels@ = Seq::<nat>::empty();
                        assert(frames_rem(a, self.stack@, self.fuels@) == Seq::<Entry>::empty());
                    }
                    return Err(e);
                },
                Ok(None) => {
                    // this frame is exhausted: drop it and go on one level up
                    proof {
                        assert(pre.len() == 0);
                        assert(expand_all(a, pre, f) == Seq::<Entry>::empty());
                        assert(frames_rem(a, stack0, fuels0) == expand_all(a, pre, f) + frames_rem(
                            a,
                            self.stack@,
                            self.fuels@,
                        ));
                        assert(Seq::<Entry>::empty() + frames_rem(a, self.stack@, self.fuels@)
                            =~= frames_rem(a, self.stack@, self.fuels@));
                        assert forall|i: int| 0 <= i < self.stack@.len() implies (
                        #[trigger] self.stack@[i]).wf() && wf_entries(
                            a,
                            self.stack@[i].remaining(),
                            self.fuels@[i],
                        ) by {
                            assert(self.stack@[i] == stack0[i]);
                            assert(self.fuels@[i] == fuels0[i]);
                        };
                    }
                },
                Ok(Some(e)) => {
                    proof {
                        assert(pre == seq![e] + top.remaining());
                        assert(pre[0] == e);
                        assert(pre.drop_first() =~= top.remaining());
                        assert(pre.len() > 0);
                        assert(wf_one(a, e, f) && wf_entries(a, pre.drop_first(), f));
                        assert(wf_entries(a, top.remaining(), f));
                    }
                    if e.metadata.is_dir() {
                        let child = match self.acc.list(e.path.as_str(), OpList::new()) {
                            Err(err) => {
                                self.stack = Vec::new();
                                proof {
                                    self.fuels@ = Seq::<nat>::empty();
                                    assert(frames_rem(a, self.stack@, self.fuels@) == Seq::<
                                        Entry,
                                    >::empty());
                                }
                                return Err(err);
                            },
                            Ok(child) => child,
                        };
                        let ghost topg = top;
                        let ghost childg = child;
                        self.stack.push(top);
                        self.stack.push(child);
                        proof {
                            let below = self.fuels@;
                            self.fuels@ = self.fuels@.push(f).push((f - 1) as nat);
                            assert(self.stack@ == stack0.drop_last().push(topg).push(childg));
                            assert(self.stack@.drop_last() =~= stack0.drop_last().push(topg));
                            assert(self.stack@.drop_last().drop_last() =~= stack0.drop_last());
                            assert(self.fuels@.drop_last() =~= below.push(f));
                            assert(self.fuels@.drop_last().drop_last() =~= fuels0.drop_last());
                            assert(self.stack@.last() == childg);
                            assert(self.stack@.drop_last().last() == topg);
                            assert(self.fuels@.last() == (f - 1) as nat);
                            assert(self.fuels@.drop_last().last() == f);
                            assert(childg.remaining() == a.listing(e.path@, false));
                            lemma_step_dir::<A>(a, stack0, fuels0, self.stack@, self.fuels@, e, f);
                            assert(frames_rem(a, stack0, fuels0) == seq![e] + frames_rem(
                                a,
                                self.stack@,
                                self.fuels@,
                            ));
                            assert forall|i: int| 0 <= i < self.stack@.len() implies (
                            #[trigger] self.stack@[i]).wf() && wf_entries(
                                a,
                                self.stack@[i].remaining(),
                                self.fuels@[i],
                            ) by {
                                if i < self.stack@.len() - 2 {
                                    assert(self.stack@[i] == stack0[i]);
                                    assert(self.fuels@[i] == fuels0[i]);
                                } else if i == self.stack@.len() - 2 {
                                    assert(self.stack@[i] == topg);
                                    assert(self.fuels@[i] == f);
                                } else {
                                    assert(self.stack@[i] == childg);
                                    assert(self.fuels@[i] == (f - 1) as nat);
                                }
                            };
                        }
                        return Ok(Some(e));
                    } else {
                        let ghost topg = top;
                        self.stack.push(top);
                        proof {
                            self.fuels@ = self.fuels@.push(f);
                            assert(self.stack@ == stack0.drop_last().push(topg));
                            assert(self.stack@.drop_last() =~= stack0.drop_last());
                            assert(self.fuels@.drop_last() =~= fuels0.drop_last());
                            assert(self.stack@.last() == topg);
                            assert(self.fuels@.last() == f);
                            lemma_step_file::<A>(a, stack0, fuels0, self.stack@, self.fuels@, e, f);
                            assert(frames_rem(a, stack0, fuels0) == seq![e] + frames_rem(
                                a,
                                self.stack@,
                                self.fuels@,
                            ));
                            assert forall|i: int| 0 <= i < self.stack@.len() implies (
                            #[trigger] self.stack@[i]).wf() && wf_entries(
                                a,
                                self.stack@[i].remaining(),
                                self.fuels@[i],
                            ) by {
                                if i < self.stack@.len() - 1 {
                                    assert(self.stack@[i] == stack0[i]);
                                    assert(self.fuels@[i] == fuels0[i]);
                                } else {
                                    assert(self.stack@[i] == topg);
                                    assert(self.fuels@[i] == f);
                                }
                            };
                        }
                        return Ok(Some(e));
                    }
                },
            }
        }
    }
}

/// After a file entry `e` is taken off the top frame, the stack owes exactly
/// what it did before, less the leading `e`.
proof fn lemma_step_file<A: Access>(
    a: A,
    stack0: Seq<A::Lister>,
    fuels0: Seq<nat>,
    stack1: Seq<A::Lister>,
    fuels1: Seq<nat>,
    e: Entry,
    f: nat,
)
    requires
        stack0.len() > 0,
        fuels0.len() == stack0.len(),
        stack1.len() == stack0.len(),
        fuels1.len() == stack1.len(),
        stack1.drop_last() == stack0.drop_last(),
        fuels1.drop_last() == fuels0.drop_last(),
        fuels0.last() == f,
        fuels1.last() == f,
        !e.metadata.mode.spec_is_dir(),
        stack0.last().remaining() == seq![e] + stack1.last().remaining(),
    ensures
        frames_rem(a, stack0, fuels0) == seq![e] + frames_rem(a, stack1, fuels1),
{
    let pre = stack0.last().remaining();
    let post = stack1.last().remaining();
    let below = frames_rem(a, stack0.drop_last(), fuels0.drop_last());
    assert(pre[0] == e);
    assert(pre.drop_first() =~= post);
    assert(pre.len() > 0);
    assert(expand_all(a, pre, f) == expand_one(a, e, f) + expand_all(a, post, f));
    assert(expand_one(a, e, f) == seq![e]);
    assert(frames_rem(a, stack0, fuels0) == (seq![e] + expand_all(a, post, f)) + below);
    assert(frames_rem(a, stack1, fuels1) == expand_all(a, post, f) + below);
    assert((seq![e] + expand_all(a, post, f)) + below =~= seq![e] + (expand_all(a, post, f)
        + below));
}

/// After a directory entry `e` is taken off the top frame and a cursor for
/// it is pushed, the stack owes exactly what it did before, less the
/// leading `e`: the child's expansion stands where `e`'s subtree stood.
proof fn lemma_step_dir<A: Access>(
    a: A,
    stack0: Seq<A::Lister>,
    fuels0: Seq<nat>,
    stack2: Seq<A::Lister>,
    fuels2: Seq<nat>,
    e: Entry,
    f: nat,
)
    requires
        stack0.len() > 0,
        fuels0.len() == stack0.len(),
        stack2.len() == stack0.len() + 1,
        fuels2.len() == stack2.len(),
        stack2.drop_last().drop_last() == stack0.drop_last(),
        fuels2.drop_last().drop_last() == fuels0.drop_last(),
        fuels0.last() == f,
        f > 0,
        fuels2.last() == (f - 1) as nat,
        fuels2.drop_last().last() == f,
        e.metadata.mode.spec_is_dir(),
        stack0.last().remaining() == seq![e] + stack2.drop_last().last().remaining(),
        stack2.last().remaining() == a.listing(e.path@, false),
    ensures
        frames_rem(a, stack0, fuels0) == seq![e] + frames_rem(a, stack2, fuels2),
{
    let pre = stack0.last().remaining();
    let post = stack2.drop_last().last().remaining();
    let sub = a.listing(e.path@, false);
    let below = frames_rem(a, stack0.drop_last(), fuels0.drop_last());
    assert(pre[0] == e);
    assert(pre.drop_first() =~= post);
    assert(pre.len() > 0);
    assert(expand_all(a, pre, f) == expand_one(a, e, f) + expand_all(a, post, f));
    assert(expand_one(a, e, f) == seq![e] + expand_all(a, sub, (f - 1) as nat));
    assert(frames_rem(a, stack0, fuels0) == ((seq![e] + expand_all(a, sub, (f - 1) as nat))
        + expand_all(a, post, f)) + below);
    let mid_stack = stack2.drop_last();
    let mid_fuels = fuels2.drop_last();
    assert(frames_rem(a, stack2, fuels2) == expand_all(a, sub, (f - 1) as nat) + frames_rem(
        a,
        mid_stack,
        mid_fuels,
    ));
    assert(frames_rem(a, mid_stack, mid_fuels) == expand_all(a, post, f) + below);
    assert(((seq![e] + expand_all(a, sub, (f - 1) as nat)) + expand_all(a, post, f)) + below
        =~= seq![e] + (expand_all(a, sub, (f - 1) as nat) + (expand_all(a, post, f) + below)));
}

} // verus!
