//! Witness references and witness-equality meta-statements, and their
//! canonical form: the disjoint equality partition. A witness reference
//! addresses one witness scalar inside one statement; an equality set
//! demands that all its references carry the same scalar. The partition
//! merges overlapping sets by transitive closure into pairwise-disjoint
//! classes.

use vstd::prelude::*;

verus! {

/// Addresses one witness inside one statement: `(statement index, local
/// witness index)`.
pub type WitnessRef = (usize, usize);

/// A set of witness references required to share one scalar.
#[derive(Debug, PartialEq, Eq)]
pub struct EqualWitnesses {
    pub refs: Vec<WitnessRef>,
}

/// The bag of equality sets of a proof spec.
#[derive(Debug, PartialEq, Eq)]
pub struct MetaStatements {
    pub eqs: Vec<EqualWitnesses>,
}

/// Whether the equality set holds the reference.
pub open spec fn ew_has(e: EqualWitnesses, x: WitnessRef) -> bool {
    e.refs@.contains(x)
}

/// Whether any of the sets holds the reference.
pub open spec fn any_has(sets: Seq<EqualWitnesses>, x: WitnessRef) -> bool {
    exists|i: int| 0 <= i < sets.len() && ew_has(sets[i], x)
}

/// Whether the two equality sets share a reference.
pub open spec fn ew_intersects(a: EqualWitnesses, b: EqualWitnesses) -> bool {
    exists|x: WitnessRef| ew_has(a, x) && ew_has(b, x)
}

/// Whether every reference of `a` also stands in `b`.
pub open spec fn ew_subset(a: EqualWitnesses, b: EqualWitnesses) -> bool {
    forall|y: WitnessRef| ew_has(a, y) ==> ew_has(b, y)
}

/// Whether some single set holds both references.
pub open spec fn linked(sets: Seq<EqualWitnesses>, x: WitnessRef, y: WitnessRef) -> bool {
    exists|k: int| 0 <= k < sets.len() && ew_has(#[trigger] sets[k], x) && ew_has(sets[k], y)
}

/// Whether every adjacent pair of the path is linked.
pub open spec fn chained(sets: Seq<EqualWitnesses>, p: Seq<WitnessRef>) -> bool {
    forall|i: int| 0 <= i < p.len() - 1 ==> linked(sets, #[trigger] p[i], p[i + 1])
}

/// Whether the two references are joined by a chain of sets: the
/// transitive closure of sharing a set. Kept opaque so that the chain
/// quantifiers surface only inside the lemmas below.
#[verifier::opaque]
pub open spec fn connected(sets: Seq<EqualWitnesses>, x: WitnessRef, y: WitnessRef) -> bool {
    exists|p: Seq<WitnessRef>|
        p.len() >= 1 && p.first() == x && p.last() == y && #[trigger] chained(sets, p)
}

/// Two references of one set are connected.
pub proof fn lemma_linked_connected(sets: Seq<EqualWitnesses>, x: WitnessRef, y: WitnessRef)
    requires
        linked(sets, x, y),
    ensures
        connected(sets, x, y),
{
    reveal(crate::meta::connected);
    let p = seq![x, y];
    assert(chained(sets, p)) by {
        assert forall|i: int| 0 <= i < p.len() - 1 implies linked(
            sets,
            #[trigger] p[i],
            p[i + 1],
        ) by {
            assert(i == 0);
            assert(p[0] == x && p[1] == y);
        }
    }
    assert(p.first() == x && p.last() == y);
}

/// Connectedness is symmetric.
pub proof fn lemma_connected_sym(sets: Seq<EqualWitnesses>, x: WitnessRef, y: WitnessRef)
    requires
        connected(sets, x, y),
    ensures
        connected(sets, y, x),
{
    reveal(crate::meta::connected);
    let p = choose|p: Seq<WitnessRef>|
        p.len() >= 1 && p.first() == x && p.last() == y && #[trigger] chained(sets, p);
    let q = Seq::new(p.len(), |i: int| p[p.len() - 1 - i]);
    assert(chained(sets, q)) by {
        assert forall|i: int| 0 <= i < q.len() - 1 implies linked(sets, #[trigger] q[i], q[i + 1])
            by {
            let j = p.len() - 2 - i;
            assert(linked(sets, p[j], p[j + 1]));
            let k = choose|k: int|
                0 <= k < sets.len() && ew_has(#[trigger] sets[k], p[j]) && ew_has(
                    sets[k],
                    p[j + 1],
                );
            assert(q[i] == p[j + 1] && q[i + 1] == p[j]);
        }
    }
    assert(q.first() == y && q.last() == x);
}

/// Connectedness is transitive.
pub proof fn lemma_connected_trans(
    sets: Seq<EqualWitnesses>,
    x: WitnessRef,
    y: WitnessRef,
    z: WitnessRef,
)
    requires
        connected(sets, x, y),
        connected(sets, y, z),
    ensures
        connected(sets, x, z),
{
    reveal(crate::meta::connected);
    let p1 = choose|p: Seq<WitnessRef>|
        p.len() >= 1 && p.first() == x && p.last() == y && #[trigger] chained(sets, p);
    let p2 = choose|p: Seq<WitnessRef>|
        p.len() >= 1 && p.first() == y && p.last() == z && #[trigger] chained(sets, p);
    let q = p1 + p2.skip(1);
    if p2.len() == 1 {
        assert(q =~= p1);
        assert(q.len() >= 1 && q.first() == x && q.last() == z);
    } else {
        assert(q.len() >= 1 && q.first() == x && q.last() == z);
        assert(chained(sets, q)) by {
            assert forall|i: int|
                0 <= i < q.len() - 1 implies linked(sets, #[trigger] q[i], q[i + 1]) by {
                if i < p1.len() - 1 {
                    assert(q[i] == p1[i] && q[i + 1] == p1[i + 1]);
                    assert(linked(sets, p1[i], p1[i + 1]));
                } else if i == p1.len() - 1 {
                    assert(q[i] == p1[p1.len() - 1] && q[i + 1] == p2[1]);
                    assert(linked(sets, p2[0], p2[1]));
                    assert(p2[0] == y && p1[p1.len() - 1] == y);
                } else {
                    let j = i - p1.len() + 1;
                    assert(q[i] == p2[j] && q[i + 1] == p2[j + 1]);
                    assert(linked(sets, p2[j], p2[j + 1]));
                }
            }
        }
    }
}

/// Whether, in every set of the sequence, all references are connected
/// under `base`.
pub open spec fn all_connected(sets: Seq<EqualWitnesses>, base: Seq<EqualWitnesses>) -> bool {
    forall|c: int, x: WitnessRef, y: WitnessRef|
        0 <= c < sets.len() && #[trigger] ew_has(sets[c], x) && #[trigger] ew_has(sets[c], y)
            ==> connected(base, x, y)
}

/// Whether the sets of the sequence are pairwise disjoint.
pub open spec fn pairwise_disjoint(sets: Seq<EqualWitnesses>) -> bool {
    forall|i: int, j: int, x: WitnessRef|
        0 <= i < sets.len() && 0 <= j < sets.len() && i != j && #[trigger] ew_has(sets[i], x)
            ==> !#[trigger] ew_has(sets[j], x)
}

impl EqualWitnesses {
    /// An equality set over the given references.
    pub fn new(refs: Vec<WitnessRef>) -> (r: EqualWitnesses)
        ensures
            r.refs@ == refs@,
    {
        EqualWitnesses { refs }
    }

    /// A meaningful equality set relates at least two references.
    pub fn is_valid(&self) -> (r: bool)
        ensures
            r == (self.refs@.len() >= 2),
    {
        self.refs.len() >= 2
    }

    /// Whether this set holds the given reference.
    pub fn has_wit_ref(&self, x: &WitnessRef) -> (r: bool)
        ensures
            r == ew_has(*self, *x),
    {
        let mut i: usize = 0;
        while i < self.refs.len()
            invariant
                i <= self.refs@.len(),
                forall|j: int| 0 <= j < i ==> self.refs@[j] != *x,
            decreases self.refs@.len() - i,
        {
            if self.refs[i].0 == x.0 && self.refs[i].1 == x.1 {
                proof {
                    assert(self.refs@[i as int] == *x);
                }
                return true;
            }
            i += 1;
        }
        false
    }

    /// Whether this set shares a reference with `other`.
    pub fn intersects(&self, other: &EqualWitnesses) -> (r: bool)
        ensures
            r == ew_intersects(*self, *other),
    {
        let mut i: usize = 0;
        while i < self.refs.len()
            invariant
                i <= self.refs@.len(),
                forall|j: int| 0 <= j < i ==> !ew_has(*other, #[trigger] self.refs@[j]),
            decreases self.refs@.len() - i,
        {
            let x = self.refs[i];
            if other.has_wit_ref(&x) {
                proof {
                    assert(ew_has(*self, x) && ew_has(*other, x));
                }
                return true;
            }
            i += 1;
        }
        proof {
            assert(!ew_intersects(*self, *other)) by {
                if ew_intersects(*self, *other) {
                    let x = choose|x: WitnessRef| ew_has(*self, x) && ew_has(*other, x);
                    let j = choose|j: int|
                        0 <= j < self.refs@.len() && self.refs@[j] == x;
                }
            }
        }
        false
    }

    /// Adds the reference unless it is already present.
    pub fn insert_unique(&mut self, x: WitnessRef)
        ensures
            forall|y: WitnessRef| ew_has(*final(self), y) <==> (ew_has(*old(self), y) || y == x),
            final(self).refs@.no_duplicates() <== old(self).refs@.no_duplicates(),
    {
        if !self.has_wit_ref(&x) {
            let ghost pre = self.refs@;
            self.refs.push(x);
            proof {
                assert forall|y: WitnessRef| ew_has(*self, y) <==> (pre.contains(y) || y == x) by {
                    if ew_has(*self, y) {
                        let j = choose|j: int| 0 <= j < self.refs@.len() && self.refs@[j] == y;
                        if j < pre.len() {
                            assert(pre[j] == y);
                        }
                    }
                    if pre.contains(y) {
                        let j = choose|j: int| 0 <= j < pre.len() && pre[j] == y;
                        assert(self.refs@[j] == y);
                    }
                    if y == x {
                        assert(self.refs@[pre.len() as int] == y);
                    }
                }
                if pre.no_duplicates() {
                    assert(self.refs@.no_duplicates()) by {
                        assert forall|p: int, q: int|
                            0 <= p < self.refs@.len() && 0 <= q < self.refs@.len() && p != q
                            implies self.refs@[p] != self.refs@[q] by {
                            if p < pre.len() && q < pre.len() {
                            } else if p < pre.len() {
                                assert(pre.contains(pre[p]));
                            } else if q < pre.len() {
                                assert(pre.contains(pre[q]));
                            }
                        }
                    }
                }
            }
        }
    }

    /// Adds every reference of `other` not already present.
    pub fn extend_unique(&mut self, other: &EqualWitnesses)
        ensures
            forall|y: WitnessRef|
                ew_has(*final(self), y) <==> (ew_has(*old(self), y) || ew_has(*other, y)),
            final(self).refs@.no_duplicates() <== old(self).refs@.no_duplicates(),
    {
        let mut i: usize = 0;
        while i < other.refs.len()
            invariant
                i <= other.refs@.len(),
                forall|y: WitnessRef|
                    ew_has(*self, y) <==> (ew_has(*old(self), y) || exists|j: int|
                        0 <= j < i && #[trigger] other.refs@[j] == y),
                self.refs@.no_duplicates() <== old(self).refs@.no_duplicates(),
            decreases other.refs@.len() - i,
        {
            let x = other.refs[i];
            self.insert_unique(x);
            i += 1;
        }
        proof {
            assert forall|y: WitnessRef|
                ew_has(*self, y) <==> (ew_has(*old(self), y) || ew_has(*other, y)) by {
                if ew_has(*other, y) {
                    let j = choose|j: int| 0 <= j < other.refs@.len() && other.refs@[j] == y;
                }
            }
        }
    }

    /// A duplicate-free copy of this set.
    pub fn deduped(&self) -> (r: EqualWitnesses)
        ensures
            forall|y: WitnessRef| ew_has(r, y) <==> ew_has(*self, y),
            r.refs@.no_duplicates(),
    {
        let mut out = EqualWitnesses { refs: Vec::new() };
        proof {
            assert(out.refs@.no_duplicates());
        }
        out.extend_unique(self);
        out
    }
}

impl MetaStatements {
    /// An empty bag of equality sets.
    pub fn new() -> (r: MetaStatements)
        ensures
            r.eqs@.len() == 0,
    {
        MetaStatements { eqs: Vec::new() }
    }

    /// Adds one equality set.
    pub fn add_witness_equality(&mut self, eq: EqualWitnesses)
        ensures
            final(self).eqs@ == old(self).eqs@.push(eq),
    {
        self.eqs.push(eq);
    }

    /// Whether the bag is empty.
    pub fn is_empty(&self) -> (r: bool)
        ensures
            r == (self.eqs@.len() == 0),
    {
        self.eqs.len() == 0
    }

    /// The canonical disjoint equality partition: overlapping sets are
    /// merged until the classes are pairwise disjoint. The classes are
    /// duplicate-free, non-empty sets covering exactly the references of
    /// the input, and every input set lands inside a single class.
    pub fn disjoint_witness_equalities(&self) -> (r: Vec<EqualWitnesses>)
        ensures
            pairwise_disjoint(r@),
            forall|x: WitnessRef| any_has(r@, x) <==> any_has(self.eqs@, x),
            forall|c: int| 0 <= c < r@.len() ==> (#[trigger] r@[c]).refs@.len() > 0,
            forall|c: int| 0 <= c < r@.len() ==> (#[trigger] r@[c]).refs@.no_duplicates(),
            forall|k: int|
                0 <= k < self.eqs@.len() && (#[trigger] self.eqs@[k]).refs@.len() > 0
                    ==> exists|c: int| 0 <= c < r@.len() && ew_subset(self.eqs@[k], r@[c]),
            all_connected(r@, self.eqs@),
    {
        let mut out: Vec<EqualWitnesses> = Vec::new();
        let mut k: usize = 0;
        while k < self.eqs.len()
            invariant
                k <= self.eqs@.len(),
                pairwise_disjoint(out@),
                forall|x: WitnessRef| any_has(out@, x) <==> any_has(self.eqs@.take(k as int), x),
                forall|c: int| 0 <= c < out@.len() ==> (#[trigger] out@[c]).refs@.len() > 0,
                forall|c: int| 0 <= c < out@.len() ==> (#[trigger] out@[c]).refs@.no_duplicates(),
                forall|k2: int|
                    0 <= k2 < k && (#[trigger] self.eqs@[k2]).refs@.len() > 0 ==> exists|c: int|
                        0 <= c < out@.len() && ew_subset(self.eqs@[k2], out@[c]),
                all_connected(out@, self.eqs@),
            decreases self.eqs@.len() - k,
        {
            let ghost out_old = out@;
            let eq = &self.eqs[k];
            let nonempty = eq.refs.len() > 0;
            if nonempty {
                proof {
                    assert forall|x: WitnessRef, y: WitnessRef|
                        ew_has(*eq, x) && ew_has(*eq, y) implies connected(self.eqs@, x, y) by {
                        assert(ew_has(self.eqs@[k as int], x) && ew_has(self.eqs@[k as int], y));
                        assert(linked(self.eqs@, x, y));
                        lemma_linked_connected(self.eqs@, x, y);
                    }
                }
                out = merge_into_classes(out, eq, Ghost(self.eqs@));
            }
            proof {
                assert forall|x: WitnessRef|
                    any_has(out@, x) <==> any_has(self.eqs@.take(k + 1), x) by {
                    lemma_any_has_take_step(self.eqs@, k as int, x);
                    if self.eqs@[k as int].refs@.len() == 0 {
                        assert(!ew_has(self.eqs@[k as int], x));
                    }
                }
                assert forall|k2: int|
                    0 <= k2 < k + 1 && (#[trigger] self.eqs@[k2]).refs@.len() > 0
                    implies exists|c: int|
                        0 <= c < out@.len() && ew_subset(self.eqs@[k2], out@[c]) by {
                    if k2 == k {
                        assert(ew_subset(self.eqs@[k2], out@[out@.len() - 1]));
                    } else {
                        let c_old = choose|c: int|
                            0 <= c < out_old.len() && ew_subset(#[trigger] self.eqs@[k2], out_old[c]);
                        if nonempty {
                            let c_new = choose|c2: int|
                                0 <= c2 < out@.len() && ew_subset(#[trigger] out_old[c_old], out@[c2]);
                            assert forall|y: WitnessRef|
                                ew_has(self.eqs@[k2], y) implies ew_has(out@[c_new], y) by {
                                assert(ew_has(out_old[c_old], y));
                            }
                            assert(ew_subset(self.eqs@[k2], out@[c_new]));
                        } else {
                            assert(ew_subset(self.eqs@[k2], out@[c_old]));
                        }
                    }
                }
            }
            k += 1;
        }
        proof {
            assert(self.eqs@.take(self.eqs@.len() as int) =~= self.eqs@);
        }
        out
    }
}

/// Relates membership in the first `k + 1` sets to membership in the first
/// `k` or in set `k` itself.
proof fn lemma_any_has_take_step(sets: Seq<EqualWitnesses>, k: int, x: WitnessRef)
    requires
        0 <= k < sets.len(),
    ensures
        any_has(sets.take(k + 1), x) <==> (any_has(sets.take(k), x) || ew_has(sets[k], x)),
{
    if any_has(sets.take(k + 1), x) {
        let i = choose|i: int| 0 <= i < k + 1 && #[trigger] ew_has(sets.take(k + 1)[i], x);
        if i < k {
            assert(ew_has(sets.take(k)[i], x));
        } else {
            assert(sets.take(k + 1)[i] == sets[k]);
        }
    }
    if any_has(sets.take(k), x) {
        let i = choose|i: int| 0 <= i < k && #[trigger] ew_has(sets.take(k)[i], x);
        assert(ew_has(sets.take(k + 1)[i], x));
    }
    if ew_has(sets[k], x) {
        assert(ew_has(sets.take(k + 1)[k], x));
    }
}

/// Merges one non-empty equality set into pairwise-disjoint classes: every
/// class sharing a reference with the (transitively growing) merged set is
/// folded into it; the others are kept. Because the prior classes are
/// pairwise disjoint, a class is folded exactly when it meets the incoming
/// set itself.
fn merge_into_classes(
    classes: Vec<EqualWitnesses>,
    eq: &EqualWitnesses,
    eqs0: Ghost<Seq<EqualWitnesses>>,
) -> (r: Vec<EqualWitnesses>)
    requires
        pairwise_disjoint(classes@),
        eq.refs@.len() > 0,
        forall|c: int| 0 <= c < classes@.len() ==> (#[trigger] classes@[c]).refs@.len() > 0,
        forall|c: int| 0 <= c < classes@.len() ==> (#[trigger] classes@[c]).refs@.no_duplicates(),
        all_connected(classes@, eqs0@),
        forall|x: WitnessRef, y: WitnessRef|
            ew_has(*eq, x) && ew_has(*eq, y) ==> connected(eqs0@, x, y),
    ensures
        pairwise_disjoint(r@),
        forall|x: WitnessRef| any_has(r@, x) <==> (any_has(classes@, x) || ew_has(*eq, x)),
        forall|c: int| 0 <= c < r@.len() ==> (#[trigger] r@[c]).refs@.len() > 0,
        forall|c: int| 0 <= c < r@.len() ==> (#[trigger] r@[c]).refs@.no_duplicates(),
        // the incoming set lands whole inside the last class
        r@.len() > 0,
        forall|y: WitnessRef| ew_has(*eq, y) ==> ew_has(r@[r@.len() - 1], y),
        // every prior class lands whole inside a single class of the result
        forall|c: int|
            0 <= c < classes@.len() ==> exists|c2: int|
                0 <= c2 < r@.len() && ew_subset(#[trigger] classes@[c], r@[c2]),
        all_connected(r@, eqs0@),
{
    let ghost orig = classes@;
    let mut rest = classes;
    let mut merged = eq.deduped();
    let mut kept: Vec<EqualWitnesses> = Vec::new();
    let ghost mut kept_src: Seq<int> = Seq::empty();
    let ghost mut j: int = 0;
    proof {
        assert(eq.refs@.contains(eq.refs@[0]));
        assert(ew_has(merged, eq.refs@[0]));
        assert(merged.refs@.len() > 0);
        assert forall|y: WitnessRef| #[trigger] ew_has(merged, y) implies connected(
            eqs0@,
            y,
            eq.refs@[0],
        ) by {
            assert(ew_has(*eq, y) && ew_has(*eq, eq.refs@[0]));
        }
    }
    while rest.len() > 0
        invariant
            j == orig.len() - rest@.len(),
            0 <= j <= orig.len(),
            rest@ =~= orig.subrange(j, orig.len() as int),
            pairwise_disjoint(orig),
            forall|c: int| 0 <= c < orig.len() ==> (#[trigger] orig[c]).refs@.len() > 0,
            forall|c: int| 0 <= c < orig.len() ==> (#[trigger] orig[c]).refs@.no_duplicates(),
            merged.refs@.no_duplicates(),
            merged.refs@.len() > 0,
            all_connected(orig, eqs0@),
            forall|x: WitnessRef, y: WitnessRef|
                ew_has(*eq, x) && ew_has(*eq, y) ==> connected(eqs0@, x, y),
            // everything merged so far is connected to the incoming
            // set's first reference
            forall|y: WitnessRef|
                #[trigger] ew_has(merged, y) ==> connected(eqs0@, y, eq.refs@[0]),
            // merged holds eq plus exactly the scanned classes meeting eq
            forall|y: WitnessRef|
                ew_has(merged, y) <==> (ew_has(*eq, y) || exists|c: int|
                    0 <= c < j && ew_intersects(#[trigger] orig[c], *eq) && ew_has(orig[c], y)),
            // kept holds exactly the scanned classes missing eq, in order
            kept_src.len() == kept@.len(),
            forall|c2: int|
                0 <= c2 < kept@.len() ==> 0 <= #[trigger] kept_src[c2] < j && !ew_intersects(
                    orig[kept_src[c2]],
                    *eq,
                ) && kept@[c2] == orig[kept_src[c2]],
            forall|c2: int, c3: int| 0 <= c2 < c3 < kept@.len() ==> kept_src[c2] < kept_src[c3],
            forall|c: int|
                0 <= c < j && !ew_intersects(#[trigger] orig[c], *eq) ==> exists|c2: int|
                    0 <= c2 < kept@.len() && kept_src[c2] == c,
        decreases rest@.len(),
    {
        let c = rest.remove(0);
        let ghost gc = c;
        proof {
            assert(gc == orig[j]);
            assert(rest@ =~= orig.subrange(j + 1, orig.len() as int));
        }
        let meets = c.intersects(&merged);
        proof {
            // the decision against the growing merged set is the same
            // decision against the incoming set alone, because the prior
            // classes are pairwise disjoint
            assert(ew_intersects(gc, merged) == ew_intersects(gc, *eq)) by {
                if ew_intersects(gc, merged) {
                    let x = choose|x: WitnessRef| ew_has(gc, x) && ew_has(merged, x);
                    if !ew_has(*eq, x) {
                        let c0 = choose|c0: int|
                            0 <= c0 < j && ew_intersects(#[trigger] orig[c0], *eq) && ew_has(
                                orig[c0],
                                x,
                            );
                        assert(false);
                    }
                }
                if ew_intersects(gc, *eq) {
                    let x = choose|x: WitnessRef| ew_has(gc, x) && ew_has(*eq, x);
                    assert(ew_has(merged, x));
                }
            }
        }
        if meets {
            merged.extend_unique(&c);
            proof {
                assert forall|y: WitnessRef|
                    ew_has(merged, y) <==> (ew_has(*eq, y) || exists|c0: int|
                        0 <= c0 < j + 1 && ew_intersects(#[trigger] orig[c0], *eq) && ew_has(
                            orig[c0],
                            y,
                        )) by {
                    if ew_has(merged, y) && !ew_has(*eq, y) {
                        if ew_has(gc, y) {
                            assert(ew_intersects(orig[j], *eq));
                            assert(ew_has(orig[j], y));
                        } else {
                            let c0 = choose|c0: int|
                                0 <= c0 < j && ew_intersects(#[trigger] orig[c0], *eq) && ew_has(
                                    orig[c0],
                                    y,
                                );
                            assert(ew_intersects(orig[c0], *eq) && ew_has(orig[c0], y));
                        }
                    }
                    if exists|c0: int|
                        0 <= c0 < j + 1 && ew_intersects(#[trigger] orig[c0], *eq) && ew_has(
                            orig[c0],
                            y,
                        ) {
                        let c0 = choose|c0: int|
                            0 <= c0 < j + 1 && ew_intersects(#[trigger] orig[c0], *eq) && ew_has(
                                orig[c0],
                                y,
                            );
                        if c0 == j {
                            assert(ew_has(merged, y));
                        }
                    }
                }
                assert forall|y: WitnessRef| #[trigger] ew_has(merged, y) implies connected(
                    eqs0@,
                    y,
                    eq.refs@[0],
                ) by {
                    if ew_has(gc, y) {
                        let w = choose|w: WitnessRef| ew_has(gc, w) && ew_has(*eq, w);
                        assert(ew_has(orig[j], y) && ew_has(orig[j], w));
                        assert(connected(eqs0@, y, w));
                        assert(connected(eqs0@, w, eq.refs@[0])) by {
                            assert(ew_has(*eq, eq.refs@[0]));
                        }
                        lemma_connected_trans(eqs0@, y, w, eq.refs@[0]);
                    }
                }
            }
        } else {
            let ghost pre_kept = kept@;
            let ghost pre_src = kept_src;
            kept.push(c);
            proof {
                kept_src = kept_src.push(j);
                assert(forall|c2: int|
                    0 <= c2 < pre_src.len() ==> #[trigger] kept_src[c2] == pre_src[c2]);
                assert(kept@[pre_kept.len() as int] == gc);
                assert(forall|c2: int| 0 <= c2 < pre_kept.len() ==> kept@[c2] == pre_kept[c2]);
                assert(kept_src[pre_kept.len() as int] == j);
                assert forall|c0: int|
                    0 <= c0 < j + 1 && !ew_intersects(#[trigger] orig[c0], *eq)
                    implies exists|c2: int| 0 <= c2 < kept@.len() && kept_src[c2] == c0 by {
                    if c0 == j {
                        assert(kept_src[pre_kept.len() as int] == c0);
                    } else {
                        let c2 = choose|c2: int|
                            0 <= c2 < pre_src.len() && #[trigger] pre_src[c2] == c0;
                        assert(kept_src[c2] == c0);
                    }
                }
            }
        }
        proof {
            j = j + 1;
        }
    }
    let ghost merged_snapshot = merged;
    let ghost pre_out = kept@;
    let ghost n_orig = orig.len() as int;
    kept.push(merged);
    proof {
        let out = kept@;
        assert(out[pre_out.len() as int] == merged_snapshot);
        assert(forall|c2: int| 0 <= c2 < pre_out.len() ==> out[c2] == pre_out[c2]);
        // the kept classes stand whole in the result; the merged ones and
        // the incoming set stand inside the final class
        assert forall|x: WitnessRef| any_has(out, x) <==> (any_has(orig, x) || ew_has(
            *eq,
            x,
        )) by {
            if any_has(out, x) {
                let i = choose|i: int| 0 <= i < out.len() && ew_has(out[i], x);
                if i < pre_out.len() {
                    assert(ew_has(orig[kept_src[i]], x));
                } else {
                    assert(ew_has(merged_snapshot, x));
                    if !ew_has(*eq, x) {
                        let c0 = choose|c0: int|
                            0 <= c0 < n_orig && ew_intersects(#[trigger] orig[c0], *eq) && ew_has(
                                orig[c0],
                                x,
                            );
                    }
                }
            }
            if ew_has(*eq, x) {
                assert(ew_has(merged_snapshot, x));
                assert(ew_has(out[out.len() - 1], x));
            }
            if any_has(orig, x) {
                let c0 = choose|c0: int| 0 <= c0 < orig.len() && ew_has(#[trigger] orig[c0], x);
                if ew_intersects(orig[c0], *eq) {
                    assert(ew_has(merged_snapshot, x));
                    assert(ew_has(out[out.len() - 1], x));
                } else {
                    let c2 = choose|c2: int|
                        0 <= c2 < pre_out.len() && kept_src[c2] == c0;
                    assert(ew_has(out[c2], x));
                }
            }
        }
        // pairwise disjointness of the result
        assert forall|i: int, i2: int, x: WitnessRef|
            0 <= i < out.len() && 0 <= i2 < out.len() && i != i2 && #[trigger] ew_has(out[i], x)
            implies !#[trigger] ew_has(out[i2], x) by {
            if ew_has(out[i2], x) {
                if i < pre_out.len() && i2 < pre_out.len() {
                    assert(ew_has(orig[kept_src[i]], x) && ew_has(orig[kept_src[i2]], x));
                    assert(kept_src[i] != kept_src[i2]) by {
                        if i < i2 {
                            assert(kept_src[i] < kept_src[i2]);
                        } else {
                            assert(kept_src[i2] < kept_src[i]);
                        }
                    }
                    assert(false);
                } else {
                    // one of the two is the merged class
                    let k = if i < pre_out.len() { i } else { i2 };
                    assert(ew_has(orig[kept_src[k]], x) && ew_has(merged_snapshot, x));
                    if ew_has(*eq, x) {
                        assert(ew_intersects(orig[kept_src[k]], *eq));
                        assert(false);
                    } else {
                        let c0 = choose|c0: int|
                            0 <= c0 < n_orig && ew_intersects(#[trigger] orig[c0], *eq) && ew_has(
                                orig[c0],
                                x,
                            );
                        assert(c0 != kept_src[k]);
                        assert(false);
                    }
                }
            }
        }
        // every class of the result is a non-empty duplicate-free set
        assert forall|c: int| 0 <= c < out.len() implies (#[trigger] out[c]).refs@.len() > 0 by {
            if c < pre_out.len() {
                assert(out[c] == orig[kept_src[c]]);
            } else {
                assert(out[c] == merged_snapshot);
            }
        }
        assert forall|c: int|
            0 <= c < out.len() implies (#[trigger] out[c]).refs@.no_duplicates() by {
            if c < pre_out.len() {
                assert(out[c] == orig[kept_src[c]]);
            } else {
                assert(out[c] == merged_snapshot);
            }
        }
        // every class of the result has all its references connected
        assert forall|c: int, x: WitnessRef, y: WitnessRef|
            0 <= c < out.len() && #[trigger] ew_has(out[c], x) && #[trigger] ew_has(out[c], y)
            implies connected(eqs0@, x, y) by {
            if c < pre_out.len() {
                assert(out[c] == orig[kept_src[c]]);
                assert(ew_has(orig[kept_src[c]], x) && ew_has(orig[kept_src[c]], y));
            } else {
                assert(ew_has(merged_snapshot, x) && ew_has(merged_snapshot, y));
                assert(connected(eqs0@, x, eq.refs@[0]));
                assert(connected(eqs0@, y, eq.refs@[0]));
                lemma_connected_sym(eqs0@, y, eq.refs@[0]);
                lemma_connected_trans(eqs0@, x, eq.refs@[0], y);
                lemma_connected_sym(eqs0@, x, y);
                assert(connected(eqs0@, x, y));
            }
        }
        // every prior class lands whole inside one class of the result
        assert forall|c: int| 0 <= c < n_orig implies exists|c2: int|
            0 <= c2 < out.len() && ew_subset(#[trigger] orig[c], out[c2]) by {
            if ew_intersects(orig[c], *eq) {
                assert(ew_subset(orig[c], out[out.len() - 1]));
            } else {
                let c2 = choose|c2: int| 0 <= c2 < pre_out.len() && kept_src[c2] == c;
                assert(ew_subset(orig[c], out[c2]));
            }
        }
    }
    kept
}

/// The index of the first class holding the reference, scanning from
/// `i`.
pub open spec fn spec_class_of_from(classes: Seq<EqualWitnesses>, x: WitnessRef, i: int) -> Option<
    int,
>
    decreases classes.len() - i,
{
    if i < 0 || i >= classes.len() {
        None
    } else if ew_has(classes[i], x) {
        Some(i)
    } else {
        spec_class_of_from(classes, x, i + 1)
    }
}

/// The index of the first class holding the reference, if any.
pub open spec fn spec_class_of(classes: Seq<EqualWitnesses>, x: WitnessRef) -> Option<int> {
    spec_class_of_from(classes, x, 0)
}

/// The index of the class holding the reference, if any.
pub fn class_index_of(classes: &Vec<EqualWitnesses>, x: &WitnessRef) -> (r: Option<usize>)
    ensures
        match r {
            Some(i) => i < classes@.len() && spec_class_of(classes@, *x) == Some(i as int),
            None => spec_class_of(classes@, *x) is None,
        },
{
    let mut i: usize = 0;
    while i < classes.len()
        invariant
            i <= classes@.len(),
            spec_class_of(classes@, *x) == spec_class_of_from(classes@, *x, i as int),
        decreases classes@.len() - i,
    {
        if classes[i].has_wit_ref(x) {
            return Some(i);
        }
        i += 1;
    }
    None
}

} // verus!
