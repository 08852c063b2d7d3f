//! Randomized batch verifier for pairing equations of the form
//! `e(A_1,B_1)...e(A_n,B_n) = T`. Claims are folded by a random linear
//! combination: every added claim is scaled by the current power of a
//! random scalar, Miller loops are either run eagerly or staged until the
//! final check, and one final exponentiation decides all claims at once.

use vstd::prelude::*;

use crate::algebra::{
    final_exp_of, final_exponentiation, fp12_mul_of, g1_mul, g1_mul_of, g1_neg, g1_neg_of,
    g1_views, g2_views, gt_add, gt_add_of, gt_id_of, gt_identity, gt_mul_of, gt_mul_scalar,
    miller_mul, ml_of, multi_miller_loop, random_scalar, sc_mul_of, sc_of_u64, scalar_from_u64,
    scalar_mul, FieldRng, G1Elem, G2Elem, GtElem, MillerAcc, Scalar,
};
use crate::bytes::bytes_eq;

verus! {

/// The encodings of the points of `ps`, each multiplied by the scalar
/// encoded by `m`.
pub open spec fn g1_scaled(ps: Seq<Seq<u8>>, m: Seq<u8>) -> Seq<Seq<u8>> {
    ps.map_values(|p: Seq<u8>| g1_mul_of(p, m))
}

/// The encodings of the points of `ps`, each multiplied by the scalar
/// encoded by `m` and then negated.
pub open spec fn g1_scaled_neg(ps: Seq<Seq<u8>>, m: Seq<u8>) -> Seq<Seq<u8>> {
    ps.map_values(|p: Seq<u8>| g1_neg_of(g1_mul_of(p, m)))
}

/// The Miller accumulator after folding the staged pairs into the eager
/// accumulator; `None` stands for the empty product.
pub open spec fn spec_combined_miller(
    left: Option<Seq<u8>>,
    pending_a: Seq<Seq<u8>>,
    pending_b: Seq<Seq<u8>>,
) -> Option<Seq<u8>> {
    if pending_a.len() > 0 {
        let m = ml_of(pending_a, pending_b);
        match left {
            Some(l) => Some(fp12_mul_of(m, l)),
            None => Some(m),
        }
    } else {
        left
    }
}

/// Whether the accumulated checker state passes its final check.
pub open spec fn spec_checker_passes(
    left: Option<Seq<u8>>,
    pending_a: Seq<Seq<u8>>,
    pending_b: Seq<Seq<u8>>,
    right: Seq<u8>,
) -> bool {
    match spec_combined_miller(left, pending_a, pending_b) {
        Some(m) => final_exp_of(m) == right,
        None => gt_id_of(true) == right,
    }
}

/// Batch verifier for pairing equations, folded by powers of one random
/// scalar.
pub struct RandomizedPairingChecker {
    /// Product of the Miller loops already run; `None` while none has run.
    pub left: Option<MillerAcc>,
    /// Target-side accumulator, compared after the final exponentiation.
    pub right: GtElem,
    /// If true, Miller loops are deferred to `verify` unless overridden.
    pub lazy: bool,
    /// First components of the staged pairs.
    pub pending_g1: Vec<G1Elem>,
    /// Second components of the staged pairs.
    pub pending_g2: Vec<G2Elem>,
    /// The random scalar whose powers scale the claims.
    pub random: Scalar,
    /// The power of `random` that scales the next claim.
    pub current: Scalar,
}

impl View for RandomizedPairingChecker {
    type V = (Option<Seq<u8>>, Seq<u8>, Seq<Seq<u8>>, Seq<Seq<u8>>, Seq<u8>, Seq<u8>);

    open spec fn view(&self) -> Self::V {
        (
            match self.left {
                Some(l) => Some(l@),
                None => None,
            },
            self.right@,
            g1_views(self.pending_g1@),
            g2_views(self.pending_g2@),
            self.random@,
            self.current@,
        )
    }
}

impl RandomizedPairingChecker {
    /// The staged pairs line up.
    pub open spec fn wf(&self) -> bool {
        self.pending_g1@.len() == self.pending_g2@.len()
    }

    /// The eager Miller accumulator, as an optional byte view.
    pub open spec fn left_view(&self) -> Option<Seq<u8>> {
        match self.left {
            Some(l) => Some(l@),
            None => None,
        }
    }

    /// A fresh checker around a random scalar drawn from the generator.
    pub fn new_using_rng(rng: &mut FieldRng, lazy: bool) -> (r: Self)
        ensures
            r.wf(),
            r.left_view() is None,
            r.right@ == gt_id_of(true),
            r.lazy == lazy,
            r.pending_g1@.len() == 0,
            r.current@ == sc_of_u64(1),
    {
        let random = random_scalar(rng);
        Self::new(random, lazy)
    }

    /// A fresh checker around the given random scalar.
    pub fn new(random: Scalar, lazy: bool) -> (r: Self)
        ensures
            r.wf(),
            r.left_view() is None,
            r.right@ == gt_id_of(true),
            r.lazy == lazy,
            r.pending_g1@.len() == 0,
            r.random@ == random@,
            r.current@ == sc_of_u64(1),
    {
        RandomizedPairingChecker {
            left: None,
            right: gt_identity(true),
            lazy,
            pending_g1: Vec::new(),
            pending_g2: Vec::new(),
            random,
            current: scalar_from_u64(1),
        }
    }

    /// Adds the claim `e(a_1,b_1)...e(a_n,b_n) = out`, using the checker's
    /// own laziness.
    pub fn add_multiple_sources_and_target(
        &mut self,
        a: &Vec<G1Elem>,
        b: &Vec<G2Elem>,
        out: &GtElem,
    )
        requires
            old(self).wf(),
            a@.len() == b@.len(),
        ensures
            final(self).wf(),
            spec_add_target(*old(self), *final(self), g1_views(a@), g2_views(b@), out@, old(self).lazy),
    {
        let lazy = self.lazy;
        self.add_multiple_sources_and_target_with_laziness_choice(a, b, out, lazy)
    }

    /// Adds the claim `e(a_1,b_1)...e(a_n,b_n) = e(c_1,d_1)...e(c_m,d_m)`,
    /// using the checker's own laziness.
    pub fn add_multiple_sources(
        &mut self,
        a: &Vec<G1Elem>,
        b: &Vec<G2Elem>,
        c: &Vec<G1Elem>,
        d: &Vec<G2Elem>,
    )
        requires
            old(self).wf(),
            a@.len() == b@.len(),
            c@.len() == d@.len(),
        ensures
            final(self).wf(),
            spec_add_sources(
                *old(self),
                *final(self),
                g1_views(a@),
                g2_views(b@),
                g1_views(c@),
                g2_views(d@),
                old(self).lazy,
            ),
    {
        let lazy = self.lazy;
        self.add_multiple_sources_with_laziness_choice(a, b, c, d, lazy)
    }

    /// Adds the claim `e(a,b) = e(c,d)`, using the checker's own laziness.
    pub fn add_sources(&mut self, a: &G1Elem, b: &G2Elem, c: &G1Elem, d: &G2Elem)
        requires
            old(self).wf(),
        ensures
            final(self).wf(),
            spec_add_sources(
                *old(self),
                *final(self),
                seq![a@],
                seq![b@],
                seq![c@],
                seq![d@],
                old(self).lazy,
            ),
    {
        let lazy = self.lazy;
        self.add_sources_with_laziness_choice(a, b, c, d, lazy)
    }

    /// Adds the claim `e(a_1,b_1)...e(a_n,b_n) = out` with an explicit
    /// laziness choice.
    pub fn add_multiple_sources_and_target_with_laziness_choice(
        &mut self,
        a: &Vec<G1Elem>,
        b: &Vec<G2Elem>,
        out: &GtElem,
        lazy: bool,
    )
        requires
            old(self).wf(),
            a@.len() == b@.len(),
        ensures
            final(self).wf(),
            spec_add_target(*old(self), *final(self), g1_views(a@), g2_views(b@), out@, lazy),
    {
        let a_m = self.scale_g1(a);
        if lazy {
            self.push_pending(&a_m, b);
        } else {
            let m = multi_miller_loop(&a_m, b);
            self.merge_left(m);
        }
        self.right = gt_add(&self.right, &gt_mul_scalar(out, &self.current));
        self.current = scalar_mul(&self.current, &self.random);
    }

    /// Adds the claim `e(a_1,b_1)...e(a_n,b_n) = e(c_1,d_1)...e(c_m,d_m)`
    /// with an explicit laziness choice: the right side is staged negated
    /// on the left.
    pub fn add_multiple_sources_with_laziness_choice(
        &mut self,
        a: &Vec<G1Elem>,
        b: &Vec<G2Elem>,
        c: &Vec<G1Elem>,
        d: &Vec<G2Elem>,
        lazy: bool,
    )
        requires
            old(self).wf(),
            a@.len() == b@.len(),
            c@.len() == d@.len(),
        ensures
            final(self).wf(),
            spec_add_sources(
                *old(self),
                *final(self),
                g1_views(a@),
                g2_views(b@),
                g1_views(c@),
                g2_views(d@),
                lazy,
            ),
    {
        let a_m = self.scale_g1(a);
        let c_m = self.scale_neg_g1(c);
        if lazy {
            self.push_pending(&a_m, b);
            self.push_pending(&c_m, d);
        } else {
            let m1 = multi_miller_loop(&a_m, b);
            self.merge_left(m1);
            let m2 = multi_miller_loop(&c_m, d);
            self.merge_left(m2);
        }
        self.current = scalar_mul(&self.current, &self.random);
    }

    /// Adds the claim `e(a,b) = e(c,d)` with an explicit laziness choice.
    pub fn add_sources_with_laziness_choice(
        &mut self,
        a: &G1Elem,
        b: &G2Elem,
        c: &G1Elem,
        d: &G2Elem,
        lazy: bool,
    )
        requires
            old(self).wf(),
        ensures
            final(self).wf(),
            spec_add_sources(*old(self), *final(self), seq![a@], seq![b@], seq![c@], seq![d@], lazy),
    {
        let mut av: Vec<G1Elem> = Vec::new();
        av.push(a.dup());
        let mut bv: Vec<G2Elem> = Vec::new();
        bv.push(b.dup());
        let mut cv: Vec<G1Elem> = Vec::new();
        cv.push(c.dup());
        let mut dv: Vec<G2Elem> = Vec::new();
        dv.push(d.dup());
        proof {
            assert(g1_views(av@) =~= seq![a@]);
            assert(g2_views(bv@) =~= seq![b@]);
            assert(g1_views(cv@) =~= seq![c@]);
            assert(g2_views(dv@) =~= seq![d@]);
        }
        self.add_multiple_sources_with_laziness_choice(&av, &bv, &cv, &dv, lazy)
    }

    /// Runs the staged Miller loops, folds them into the eager
    /// accumulator, applies the final exponentiation and compares with the
    /// target accumulator.
    pub fn verify(&self) -> (r: bool)
        requires
            self.wf(),
        ensures
            r == spec_checker_passes(
                self.left_view(),
                g1_views(self.pending_g1@),
                g2_views(self.pending_g2@),
                self.right@,
            ),
    {
        if self.pending_g1.len() > 0 {
            let m = multi_miller_loop(&self.pending_g1, &self.pending_g2);
            let combined = match &self.left {
                Some(l) => miller_mul(&m, l),
                None => m,
            };
            let lhs = final_exponentiation(&combined);
            bytes_eq(&lhs.b, &self.right.b)
        } else {
            match &self.left {
                Some(l) => {
                    let lhs = final_exponentiation(l);
                    bytes_eq(&lhs.b, &self.right.b)
                },
                None => {
                    let id = gt_identity(true);
                    bytes_eq(&id.b, &self.right.b)
                },
            }
        }
    }

    /// Each point of `ps`, multiplied by the current power of the random
    /// scalar.
    fn scale_g1(&self, ps: &Vec<G1Elem>) -> (r: Vec<G1Elem>)
        ensures
            r@.len() == ps@.len(),
            g1_views(r@) == g1_scaled(g1_views(ps@), self.current@),
    {
        let mut out: Vec<G1Elem> = Vec::new();
        let mut i: usize = 0;
        while i < ps.len()
            invariant
                i <= ps@.len(),
                out@.len() == i,
                forall|j: int| 0 <= j < i ==> out@[j]@ == g1_mul_of(ps@[j]@, self.current@),
            decreases ps@.len() - i,
        {
            out.push(g1_mul(&ps[i], &self.current));
            i += 1;
        }
        proof {
            assert(g1_views(out@) =~= g1_scaled(g1_views(ps@), self.current@));
        }
        out
    }

    /// Each point of `ps`, multiplied by the current power of the random
    /// scalar and negated.
    fn scale_neg_g1(&self, ps: &Vec<G1Elem>) -> (r: Vec<G1Elem>)
        ensures
            r@.len() == ps@.len(),
            g1_views(r@) == g1_scaled_neg(g1_views(ps@), self.current@),
    {
        let mut out: Vec<G1Elem> = Vec::new();
        let mut i: usize = 0;
        while i < ps.len()
            invariant
                i <= ps@.len(),
                out@.len() == i,
                forall|j: int| 0 <= j < i ==> out@[j]@ == g1_neg_of(g1_mul_of(ps@[j]@, self.current@)),
            decreases ps@.len() - i,
        {
            out.push(g1_neg(&g1_mul(&ps[i], &self.current)));
            i += 1;
        }
        proof {
            assert(g1_views(out@) =~= g1_scaled_neg(g1_views(ps@), self.current@));
        }
        out
    }

    /// Stages the given pairs.
    fn push_pending(&mut self, a: &Vec<G1Elem>, b: &Vec<G2Elem>)
        requires
            old(self).wf(),
            a@.len() == b@.len(),
        ensures
            final(self).wf(),
            g1_views(final(self).pending_g1@) == g1_views(old(self).pending_g1@) + g1_views(a@),
            g2_views(final(self).pending_g2@) == g2_views(old(self).pending_g2@) + g2_views(b@),
            final(self).left == old(self).left,
            final(self).right == old(self).right,
            final(self).random == old(self).random,
            final(self).current == old(self).current,
            final(self).lazy == old(self).lazy,
    {
        let ghost n: int = old(self).pending_g1@.len() as int;
        let ghost mut pushed1: Seq<G1Elem> = Seq::empty();
        let ghost mut pushed2: Seq<G2Elem> = Seq::empty();
        let mut i: usize = 0;
        proof {
            assert(self.pending_g1@ =~= old(self).pending_g1@ + pushed1);
            assert(self.pending_g2@ =~= old(self).pending_g2@ + pushed2);
        }
        while i < a.len()
            invariant
                i <= a@.len(),
                a@.len() == b@.len(),
                pushed1.len() == i,
                pushed2.len() == i,
                self.pending_g1@ == old(self).pending_g1@ + pushed1,
                self.pending_g2@ == old(self).pending_g2@ + pushed2,
                forall|j: int| 0 <= j < i ==> #[trigger] pushed1[j]@ == a@[j]@,
                forall|j: int| 0 <= j < i ==> #[trigger] pushed2[j]@ == b@[j]@,
                self.left == old(self).left,
                self.right == old(self).right,
                self.random == old(self).random,
                self.current == old(self).current,
                self.lazy == old(self).lazy,
            decreases a@.len() - i,
        {
            let e1 = a[i].dup();
            let e2 = b[i].dup();
            let ghost ge1 = e1;
            let ghost ge2 = e2;
            self.pending_g1.push(e1);
            self.pending_g2.push(e2);
            proof {
                pushed1 = pushed1.push(ge1);
                pushed2 = pushed2.push(ge2);
                assert(self.pending_g1@ =~= old(self).pending_g1@ + pushed1);
                assert(self.pending_g2@ =~= old(self).pending_g2@ + pushed2);
            }
            i += 1;
        }
        proof {
            assert(g1_views(self.pending_g1@) =~= g1_views(old(self).pending_g1@) + g1_views(a@))
                by {
                assert forall|k: int|
                    0 <= k < n + a@.len() implies #[trigger] g1_views(self.pending_g1@)[k] == (
                g1_views(old(self).pending_g1@) + g1_views(a@))[k] by {
                    assert(self.pending_g1@[k] == (old(self).pending_g1@ + pushed1)[k]);
                    if k < n {
                    } else {
                        assert(pushed1[k - n]@ == a@[k - n]@);
                    }
                }
            }
            assert(g2_views(self.pending_g2@) =~= g2_views(old(self).pending_g2@) + g2_views(b@))
                by {
                assert forall|k: int|
                    0 <= k < n + b@.len() implies #[trigger] g2_views(self.pending_g2@)[k] == (
                g2_views(old(self).pending_g2@) + g2_views(b@))[k] by {
                    assert(self.pending_g2@[k] == (old(self).pending_g2@ + pushed2)[k]);
                    if k < n {
                    } else {
                        assert(pushed2[k - n]@ == b@[k - n]@);
                    }
                }
            }
        }
    }

    /// Folds one Miller-loop output into the eager accumulator.
    fn merge_left(&mut self, m: MillerAcc)
        ensures
            final(self).left_view() == Some(
                match old(self).left_view() {
                    Some(l) => fp12_mul_of(l, m@),
                    None => m@,
                },
            ),
            final(self).right == old(self).right,
            final(self).pending_g1 == old(self).pending_g1,
            final(self).pending_g2 == old(self).pending_g2,
            final(self).random == old(self).random,
            final(self).current == old(self).current,
            final(self).lazy == old(self).lazy,
    {
        let merged = match &self.left {
            Some(l) => miller_mul(l, &m),
            None => m,
        };
        self.left = Some(merged);
    }
}

/// A ghost model of the checker: its views alone, so that callers can
/// state how a sequence of additions evolves the state.
#[verifier::ext_equal]
pub ghost struct CheckerModel {
    pub left: Option<Seq<u8>>,
    pub right: Seq<u8>,
    pub pending_a: Seq<Seq<u8>>,
    pub pending_b: Seq<Seq<u8>>,
    pub random: Seq<u8>,
    pub current: Seq<u8>,
    pub lazy: bool,
}

impl RandomizedPairingChecker {
    /// The ghost model of this checker.
    pub open spec fn model(&self) -> CheckerModel {
        CheckerModel {
            left: self.left_view(),
            right: self.right@,
            pending_a: g1_views(self.pending_g1@),
            pending_b: g2_views(self.pending_g2@),
            random: self.random@,
            current: self.current@,
            lazy: self.lazy,
        }
    }
}

/// How one target-carrying claim evolves the model.
pub open spec fn model_add_target(
    m: CheckerModel,
    a: Seq<Seq<u8>>,
    b: Seq<Seq<u8>>,
    out: Seq<u8>,
    lazy: bool,
) -> CheckerModel {
    let a_m = g1_scaled(a, m.current);
    CheckerModel {
        left: if lazy {
            m.left
        } else {
            Some(
                match m.left {
                    Some(l) => fp12_mul_of(l, ml_of(a_m, b)),
                    None => ml_of(a_m, b),
                },
            )
        },
        right: gt_add_of(m.right, gt_mul_of(out, m.current)),
        pending_a: if lazy {
            m.pending_a + a_m
        } else {
            m.pending_a
        },
        pending_b: if lazy {
            m.pending_b + b
        } else {
            m.pending_b
        },
        random: m.random,
        current: sc_mul_of(m.current, m.random),
        lazy: m.lazy,
    }
}

/// Whether a model's accumulated state passes the final check.
pub open spec fn model_passes(m: CheckerModel) -> bool {
    spec_checker_passes(m.left, m.pending_a, m.pending_b, m.right)
}

/// A target-carrying addition evolves the model exactly as
/// `model_add_target` says.
pub proof fn lemma_add_target_model(
    pre: RandomizedPairingChecker,
    post: RandomizedPairingChecker,
    a: Seq<Seq<u8>>,
    b: Seq<Seq<u8>>,
    out: Seq<u8>,
    lazy: bool,
)
    requires
        spec_add_target(pre, post, a, b, out, lazy),
    ensures
        post.model() == model_add_target(pre.model(), a, b, out, lazy),
{
    assert(post.model() =~= model_add_target(pre.model(), a, b, out, lazy));
}

/// How one target-carrying claim changes the checker state: the scaled
/// sources either run through a Miller loop eagerly or are staged, the
/// target joins the right-side accumulator scaled by the current power,
/// and the power advances.
pub open spec fn spec_add_target(
    pre: RandomizedPairingChecker,
    post: RandomizedPairingChecker,
    a: Seq<Seq<u8>>,
    b: Seq<Seq<u8>>,
    out: Seq<u8>,
    lazy: bool,
) -> bool {
    let a_m = g1_scaled(a, pre.current@);
    &&& post.random@ == pre.random@
    &&& post.lazy == pre.lazy
    &&& post.current@ == sc_mul_of(pre.current@, pre.random@)
    &&& post.right@ == gt_add_of(pre.right@, gt_mul_of(out, pre.current@))
    &&& if lazy {
        &&& g1_views(post.pending_g1@) == g1_views(pre.pending_g1@) + a_m
        &&& g2_views(post.pending_g2@) == g2_views(pre.pending_g2@) + b
        &&& post.left_view() == pre.left_view()
    } else {
        &&& g1_views(post.pending_g1@) == g1_views(pre.pending_g1@)
        &&& g2_views(post.pending_g2@) == g2_views(pre.pending_g2@)
        &&& post.left_view() == Some(
            match pre.left_view() {
                Some(l) => fp12_mul_of(l, ml_of(a_m, b)),
                None => ml_of(a_m, b),
            },
        )
    }
}

/// How one two-sided claim changes the checker state: the left sources are
/// scaled, the right sources are scaled and negated, both sides either run
/// eagerly (two Miller loops) or are staged, and the power advances; the
/// target accumulator is untouched.
pub open spec fn spec_add_sources(
    pre: RandomizedPairingChecker,
    post: RandomizedPairingChecker,
    a: Seq<Seq<u8>>,
    b: Seq<Seq<u8>>,
    c: Seq<Seq<u8>>,
    d: Seq<Seq<u8>>,
    lazy: bool,
) -> bool {
    let a_m = g1_scaled(a, pre.current@);
    let c_m = g1_scaled_neg(c, pre.current@);
    &&& post.random@ == pre.random@
    &&& post.lazy == pre.lazy
    &&& post.current@ == sc_mul_of(pre.current@, pre.random@)
    &&& post.right@ == pre.right@
    &&& if lazy {
        &&& g1_views(post.pending_g1@) == g1_views(pre.pending_g1@) + a_m + c_m
        &&& g2_views(post.pending_g2@) == g2_views(pre.pending_g2@) + b + d
        &&& post.left_view() == pre.left_view()
    } else {
        &&& g1_views(post.pending_g1@) == g1_views(pre.pending_g1@)
        &&& g2_views(post.pending_g2@) == g2_views(pre.pending_g2@)
        &&& post.left_view() == Some(
            match pre.left_view() {
                Some(l) => fp12_mul_of(fp12_mul_of(l, ml_of(a_m, b)), ml_of(c_m, d)),
                None => fp12_mul_of(ml_of(a_m, b), ml_of(c_m, d)),
            },
        )
    }
}

} // verus!
