use vstd::prelude::*;

verus! {

/// Two vectors of equal length, read as a vector of pairs.
pub struct VecPair<A, B> {
    a: Vec<A>,
    b: Vec<B>,
}

/// The elements of `s` whose `keep` flag is set, in order.
pub open spec fn kept<T>(s: Seq<T>, keep: Seq<bool>) -> Seq<T>
    decreases s.len(),
{
    if s.len() == 0 || keep.len() != s.len() {
        Seq::empty()
    } else {
        let r = kept(s.drop_last(), keep.drop_last());
        if keep.last() { r.push(s.last()) } else { r }
    }
}

/// Keeping by the same flags from two sequences of one length keeps as
/// many elements of each.
proof fn lemma_kept_same_len<A, B>(a: Seq<A>, b: Seq<B>, keep: Seq<bool>)
    requires
        a.len() == b.len(),
    ensures
        kept(a, keep).len() == kept(b, keep).len(),
    decreases a.len(),
{
    if a.len() > 0 && keep.len() == a.len() {
        lemma_kept_same_len(a.drop_last(), b.drop_last(), keep.drop_last());
    }
}

impl<A, B> VecPair<A, B> {
    /// Both halves have the same length.
    pub closed spec fn wf(&self) -> bool {
        self.a@.len() == self.b@.len()
    }

    /// The first elements of the pairs.
    pub closed spec fn firsts(&self) -> Seq<A> {
        self.a@
    }

    /// The second elements of the pairs.
    pub closed spec fn seconds(&self) -> Seq<B> {
        self.b@
    }

    pub open spec fn len_spec(&self) -> nat {
        self.firsts().len()
    }

    pub fn new() -> (r: Self)
        ensures
            r.wf(),
            r.firsts() == Seq::<A>::empty(),
            r.seconds() == Seq::<B>::empty(),
    {
        VecPair { a: Vec::new(), b: Vec::new() }
    }

    pub fn len(&self) -> (r: usize)
        requires
            self.wf(),
        ensures
            r == self.firsts().len(),
            r == self.seconds().len(),
    {
        self.a.len()
    }

    pub fn is_empty(&self) -> (r: bool)
        requires
            self.wf(),
        ensures
            r == (self.firsts().len() == 0),
            self.firsts().len() == self.seconds().len(),
    {
        self.a.len() == 0
    }

    /// Adds the pair `(a, b)` at the end.
    pub fn push(&mut self, a: A, b: B)
        requires
            old(self).wf(),
        ensures
            final(self).wf(),
            final(self).firsts() == old(self).firsts().push(a),
            final(self).seconds() == old(self).seconds().push(b),
    {
        self.a.push(a);
        self.b.push(b);
    }

    /// Moves all pairs of `other` to the end of this one.
    pub fn append(&mut self, other: &mut VecPair<A, B>)
        requires
            old(self).wf(),
            old(other).wf(),
        ensures
            final(self).wf(),
            final(other).wf(),
            final(self).firsts() == old(self).firsts() + old(other).firsts(),
            final(self).seconds() == old(self).seconds() + old(other).seconds(),
            final(other).firsts().len() == 0,
            final(other).seconds().len() == 0,
    {
        self.a.append(&mut other.a);
        self.b.append(&mut other.b);
    }

    /// The pair at `i`.
    pub fn get(&self, i: usize) -> (r: (&A, &B))
        requires
            self.wf(),
            i < self.firsts().len(),
        ensures
            *r.0 == self.firsts()[i as int],
            *r.1 == self.seconds()[i as int],
    {
        (&self.a[i], &self.b[i])
    }

    /// Keeps the pairs for which `f` holds, in order.
    pub fn retain<F: Fn(&A, &B) -> bool>(&mut self, f: F)
        requires
            old(self).wf(),
            forall|a: &A, b: &B| #[trigger] f.requires((a, b)),
        ensures
            final(self).wf(),
            exists|keep: Seq<bool>| {
                &&& keep.len() == old(self).firsts().len()
                &&& forall|i: int| 0 <= i < keep.len() ==> #[trigger] f.ensures(
                    (&old(self).firsts()[i], &old(self).seconds()[i]),
                    keep[i],
                )
                &&& final(self).firsts() == kept(old(self).firsts(), keep)
                &&& final(self).seconds() == kept(old(self).seconds(), keep)
            },
    {
        let mut old_a: Vec<A> = Vec::new();
        let mut old_b: Vec<B> = Vec::new();
        std::mem::swap(&mut old_a, &mut self.a);
        std::mem::swap(&mut old_b, &mut self.b);
        let ghost a0 = old_a@;
        let ghost b0 = old_b@;
        let ghost mut keep: Seq<bool> = Seq::empty();
        let mut new_a: Vec<A> = Vec::new();
        let mut new_b: Vec<B> = Vec::new();
        let n = old_a.len();
        let mut i: usize = 0;
        while i < n
            invariant
                n == a0.len(),
                n == b0.len(),
                i <= n,
                old_a@ == a0.subrange(i as int, n as int),
                old_b@ == b0.subrange(i as int, n as int),
                keep.len() == i,
                forall|k: int| 0 <= k < i ==> #[trigger] f.ensures((&a0[k], &b0[k]), keep[k]),
                forall|a: &A, b: &B| #[trigger] f.requires((a, b)),
                new_a@ == kept(a0.subrange(0, i as int), keep),
                new_b@ == kept(b0.subrange(0, i as int), keep),
            decreases n - i,
        {
            let x = old_a.remove(0);
            let y = old_b.remove(0);
            let k = f(&x, &y);
            let ghost prev_keep = keep;
            proof {
                assert(x == a0[i as int]);
                assert(y == b0[i as int]);
                assert(old_a@ =~= a0.subrange(i + 1, n as int));
                assert(old_b@ =~= b0.subrange(i + 1, n as int));
                keep = keep.push(k);
                assert(keep.drop_last() =~= prev_keep);
                assert(a0.subrange(0, i + 1).drop_last() =~= a0.subrange(0, i as int));
                assert(b0.subrange(0, i + 1).drop_last() =~= b0.subrange(0, i as int));
                assert(kept(a0.subrange(0, i + 1), keep) == if k {
                    kept(a0.subrange(0, i as int), prev_keep).push(x)
                } else {
                    kept(a0.subrange(0, i as int), prev_keep)
                });
                assert(kept(b0.subrange(0, i + 1), keep) == if k {
                    kept(b0.subrange(0, i as int), prev_keep).push(y)
                } else {
                    kept(b0.subrange(0, i as int), prev_keep)
                });
            }
            if k {
                new_a.push(x);
                new_b.push(y);
            }
            i = i + 1;
        }
        proof {
            assert(a0.subrange(0, n as int) =~= a0);
            assert(b0.subrange(0, n as int) =~= b0);
            lemma_kept_same_len(a0, b0, keep);
        }
        self.a = new_a;
        self.b = new_b;
    }
}

} // verus!
