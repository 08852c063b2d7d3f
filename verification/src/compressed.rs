//! Compressed sigma protocol for a linear form over a Pedersen-committed
//! vector: a proof of knowledge of an opening `(x, gamma)` of
//! `P = <x, g> + gamma * h` with `L(x) = y`, whose response vector is
//! recursively halved until two scalars remain. Both the recursive and the
//! batched verifier are provided.

use vstd::prelude::*;

use crate::algebra::{
    g1_add, g1_add_of, g1_msm, g1_msm_of, g1_mul, g1_mul_of, g1_views, sc_add_of, sc_mul_of,
    sc_of_u64, scalar_add, scalar_from_u64, scalar_mul, scalar_views, FieldRng, G1Elem, Scalar,
    random_scalar,
};
use crate::bytes::{append_bytes, bytes_eq, dup_bytes};
use crate::transcript::{hash_scalar_of, hash_to_scalar};

verus! {

/// Why a compressed proof was rejected.
#[derive(Debug, Clone, Copy, PartialEq, Eq)]
pub enum CompSigmaError {
    /// A vector whose length must be a power of two is not.
    InputDimensionNotPowerOfTwo,
    /// The final multi-scalar multiplication does not meet the folded
    /// commitment.
    InvalidResponse,
}

/// Whether `n` is a power of two.
pub open spec fn spec_is_pow2(n: int) -> bool
    decreases n,
{
    if n <= 0 {
        false
    } else if n == 1 {
        true
    } else {
        n % 2 == 0 && spec_is_pow2(n / 2)
    }
}

/// Two to the power `n`.
pub open spec fn spec_pow2(n: nat) -> nat
    decreases n,
{
    if n == 0 {
        1
    } else {
        2 * spec_pow2((n - 1) as nat)
    }
}

/// Whether `n` is a power of two.
pub fn is_power_of_two(n: usize) -> (r: bool)
    ensures
        r == spec_is_pow2(n as int),
{
    if n == 0 {
        return false;
    }
    let mut m: usize = n;
    while m > 1
        invariant
            m >= 1,
            spec_is_pow2(n as int) == spec_is_pow2(m as int),
        decreases m,
    {
        if m % 2 == 1 {
            return false;
        }
        m = m / 2;
    }
    true
}

/// The power-of-two logarithm of `n`, if `n` is a power of two.
pub fn pow2_log(n: usize) -> (r: Option<usize>)
    ensures
        match r {
            Some(k) => n == spec_pow2(k as nat),
            None => !spec_is_pow2(n as int),
        },
{
    if n == 0 {
        return None;
    }
    let mut m: usize = n;
    let mut k: usize = 0;
    proof {
        assert(spec_pow2(0) == 1);
        assert(n == m * spec_pow2(0));
    }
    while m > 1
        invariant
            m >= 1,
            spec_is_pow2(n as int) == spec_is_pow2(m as int),
            n == m * spec_pow2(k as nat),
        decreases m,
    {
        if m % 2 == 1 {
            return None;
        }
        proof {
            assert(m / 2 * spec_pow2((k + 1) as nat) == n) by (nonlinear_arith)
                requires
                    n == m * spec_pow2(k as nat),
                    m % 2 == 0,
                    m >= 2,
                    spec_pow2((k + 1) as nat) == 2 * spec_pow2(k as nat),
            ;
            lemma_pow2_gt(k as nat);
            assert(spec_pow2(k as nat) <= n) by (nonlinear_arith)
                requires
                    n == m * spec_pow2(k as nat),
                    m >= 2,
                    spec_pow2(k as nat) >= 1,
            ;
        }
        m = m / 2;
        k = k + 1;
    }
    Some(k)
}

/// A power of two is at least one.
pub proof fn lemma_pow2_pos(n: nat)
    ensures
        spec_pow2(n) >= 1,
    decreases n,
{
    if n > 0 {
        lemma_pow2_pos((n - 1) as nat);
    }
}

/// A power of two exceeds its exponent.
pub proof fn lemma_pow2_gt(n: nat)
    ensures
        spec_pow2(n) > n,
    decreases n,
{
    if n > 0 {
        lemma_pow2_gt((n - 1) as nat);
    }
}

/// The inner product of two scalar sequences of equal length, folded from
/// the rear, starting from zero.
pub open spec fn spec_ip(cs: Seq<Seq<u8>>, xs: Seq<Seq<u8>>) -> Seq<u8>
    decreases cs.len(),
{
    if cs.len() == 0 {
        sc_of_u64(0)
    } else {
        sc_add_of(sc_mul_of(cs.last(), xs.last()), spec_ip(cs.drop_last(), xs.drop_last()))
    }
}

/// The linear form applied to a vector: the inner product over the common
/// prefix of the coefficients and the vector.
pub open spec fn spec_eval(cs: Seq<Seq<u8>>, xs: Seq<Seq<u8>>) -> Seq<u8> {
    let n = if cs.len() <= xs.len() {
        cs.len() as int
    } else {
        xs.len() as int
    };
    spec_ip(cs.take(n), xs.take(n))
}

/// Each coefficient multiplied by `s`.
pub open spec fn spec_scale(cs: Seq<Seq<u8>>, s: Seq<u8>) -> Seq<Seq<u8>> {
    cs.map_values(|c: Seq<u8>| sc_mul_of(c, s))
}

/// The coefficient-wise sum of two equal-length coefficient vectors.
pub open spec fn spec_lf_add(a: Seq<Seq<u8>>, b: Seq<Seq<u8>>) -> Seq<Seq<u8>> {
    Seq::new(a.len(), |i: int| sc_add_of(a[i], b[i]))
}

/// A public linear form `L(x) = sum of constants[i] * x[i]`: evaluable,
/// splittable in half and scalable.
#[derive(Debug, PartialEq)]
pub struct LinearForm {
    pub constants: Vec<Scalar>,
}

impl LinearForm {
    /// The encodings of the coefficients.
    pub open spec fn coeffs(&self) -> Seq<Seq<u8>> {
        scalar_views(self.constants@)
    }

    /// A linear form with the given coefficients.
    pub fn new(constants: Vec<Scalar>) -> (r: LinearForm)
        ensures
            r.coeffs() == scalar_views(constants@),
    {
        LinearForm { constants }
    }

    /// The number of coefficients.
    pub fn size(&self) -> (r: usize)
        ensures
            r == self.coeffs().len(),
    {
        self.constants.len()
    }

    /// Applies the form to a vector.
    pub fn eval(&self, x: &Vec<Scalar>) -> (r: Scalar)
        ensures
            r@ == spec_eval(self.coeffs(), scalar_views(x@)),
    {
        let n = if self.constants.len() <= x.len() {
            self.constants.len()
        } else {
            x.len()
        };
        let mut acc = scalar_from_u64(0);
        let mut i: usize = 0;
        proof {
            assert(self.coeffs().take(0) =~= Seq::<Seq<u8>>::empty());
            assert(scalar_views(x@).take(0) =~= Seq::<Seq<u8>>::empty());
        }
        while i < n
            invariant
                i <= n,
                n <= self.constants@.len(),
                n <= x@.len(),
                acc@ == spec_ip(self.coeffs().take(i as int), scalar_views(x@).take(i as int)),
            decreases n - i,
        {
            acc = scalar_add(&scalar_mul(&self.constants[i], &x[i]), &acc);
            proof {
                let cs = self.coeffs();
                let xs = scalar_views(x@);
                assert(cs.take(i + 1).drop_last() =~= cs.take(i as int));
                assert(xs.take(i + 1).drop_last() =~= xs.take(i as int));
                assert(cs.take(i + 1).last() == cs[i as int]);
                assert(xs.take(i + 1).last() == xs[i as int]);
            }
            i += 1;
        }
        proof {
            let cs = self.coeffs();
            let xs = scalar_views(x@);
            let nn = if cs.len() <= xs.len() {
                cs.len() as int
            } else {
                xs.len() as int
            };
            assert(nn == n as int);
        }
        acc
    }

    /// The form scaled by `s`.
    pub fn scale(&self, s: &Scalar) -> (r: LinearForm)
        ensures
            r.coeffs() == spec_scale(self.coeffs(), s@),
    {
        let mut out: Vec<Scalar> = Vec::new();
        let mut i: usize = 0;
        while i < self.constants.len()
            invariant
                i <= self.constants@.len(),
                out@.len() == i,
                forall|j: int| 0 <= j < i ==> out@[j]@ == sc_mul_of(self.coeffs()[j], s@),
            decreases self.constants@.len() - i,
        {
            out.push(scalar_mul(&self.constants[i], s));
            i += 1;
        }
        proof {
            assert(scalar_views(out@) =~= spec_scale(self.coeffs(), s@));
        }
        LinearForm { constants: out }
    }

    /// The coefficient-wise sum with another form of the same size.
    pub fn add(&self, other: &LinearForm) -> (r: LinearForm)
        requires
            self.coeffs().len() == other.coeffs().len(),
        ensures
            r.coeffs() == spec_lf_add(self.coeffs(), other.coeffs()),
    {
        let mut out: Vec<Scalar> = Vec::new();
        let mut i: usize = 0;
        while i < self.constants.len()
            invariant
                i <= self.constants@.len(),
                self.constants@.len() == other.constants@.len(),
                out@.len() == i,
                forall|j: int|
                    0 <= j < i ==> out@[j]@ == sc_add_of(self.coeffs()[j], other.coeffs()[j]),
            decreases self.constants@.len() - i,
        {
            out.push(scalar_add(&self.constants[i], &other.constants[i]));
            i += 1;
        }
        proof {
            assert(scalar_views(out@) =~= spec_lf_add(self.coeffs(), other.coeffs()));
        }
        LinearForm { constants: out }
    }

    /// The two halves of the form, split at the midpoint.
    pub fn split_in_half(&self) -> (r: (LinearForm, LinearForm))
        ensures
            r.0.coeffs() == self.coeffs().take(self.coeffs().len() as int / 2),
            r.1.coeffs() == self.coeffs().skip(self.coeffs().len() as int / 2),
    {
        let half = self.constants.len() / 2;
        let mut left: Vec<Scalar> = Vec::new();
        let mut i: usize = 0;
        while i < half
            invariant
                i <= half,
                half == self.constants@.len() / 2,
                left@.len() == i,
                forall|j: int| 0 <= j < i ==> left@[j]@ == self.coeffs()[j],
            decreases half - i,
        {
            left.push(self.constants[i].dup());
            i += 1;
        }
        let mut right: Vec<Scalar> = Vec::new();
        let mut i2: usize = half;
        while i2 < self.constants.len()
            invariant
                half <= i2 <= self.constants@.len(),
                half == self.constants@.len() / 2,
                right@.len() == i2 - half,
                forall|j: int| 0 <= j < i2 - half ==> right@[j]@ == self.coeffs()[half + j],
            decreases self.constants@.len() - i2,
        {
            right.push(self.constants[i2].dup());
            i2 += 1;
        }
        proof {
            assert(scalar_views(left@) =~= self.coeffs().take(self.coeffs().len() as int / 2));
            assert(scalar_views(right@) =~= self.coeffs().skip(self.coeffs().len() as int / 2));
        }
        (LinearForm { constants: left }, LinearForm { constants: right })
    }

    /// A fresh copy of the form.
    pub fn dup(&self) -> (r: LinearForm)
        ensures
            r.coeffs() == self.coeffs(),
    {
        let mut out: Vec<Scalar> = Vec::new();
        let mut i: usize = 0;
        while i < self.constants.len()
            invariant
                i <= self.constants@.len(),
                out@.len() == i,
                forall|j: int| 0 <= j < i ==> out@[j]@ == self.coeffs()[j],
            decreases self.constants@.len() - i,
        {
            out.push(self.constants[i].dup());
            i += 1;
        }
        proof {
            assert(scalar_views(out@) =~= self.coeffs());
        }
        LinearForm { constants: out }
    }
}

/// The generator vector folded by a challenge: `c * left + right`,
/// componentwise over the left half's length.
pub open spec fn spec_fold_g(gl: Seq<Seq<u8>>, gr: Seq<Seq<u8>>, c: Seq<u8>) -> Seq<Seq<u8>> {
    Seq::new(gl.len(), |i: int| g1_add_of(g1_mul_of(gl[i], c), gr[i]))
}

/// The response vector folded by a challenge: `left + c * right`.
pub open spec fn spec_fold_z(zl: Seq<Seq<u8>>, zr: Seq<Seq<u8>>, c: Seq<u8>) -> Seq<Seq<u8>> {
    Seq::new(zl.len(), |i: int| sc_add_of(zl[i], sc_mul_of(zr[i], c)))
}

/// One cross-term of a halving round: the multi-scalar multiplication of
/// one generator half with the other response half, plus `k` times the
/// matching half of the linear form applied there.
pub open spec fn spec_cross(
    g_half: Seq<Seq<u8>>,
    z_half: Seq<Seq<u8>>,
    l_half: Seq<Seq<u8>>,
    k: Seq<u8>,
) -> Seq<u8> {
    g1_add_of(g1_msm_of(g_half, z_half), g1_mul_of(k, spec_eval(l_half, z_half)))
}

/// The full compressed response: recursive halving of the response,
/// generator and linear-form vectors, drawing each round's challenge from
/// the accumulated transcript bytes. Returns the two terminal scalars and
/// the recorded cross-terms of every round.
pub open spec fn spec_compress(
    z: Seq<Seq<u8>>,
    g: Seq<Seq<u8>>,
    l: Seq<Seq<u8>>,
    k: Seq<u8>,
    bytes: Seq<u8>,
) -> (Seq<u8>, Seq<u8>, Seq<Seq<u8>>, Seq<Seq<u8>>)
    decreases z.len(),
{
    if z.len() <= 2 {
        (z[0], z[1], Seq::empty(), Seq::empty())
    } else {
        let half = z.len() as int / 2;
        let a = spec_cross(g.skip(half), z.take(half), l.skip(half), k);
        let b = spec_cross(g.take(half), z.skip(half), l.take(half), k);
        let bytes2 = bytes + a + b;
        let c = hash_scalar_of(bytes2);
        let rest = spec_compress(
            spec_fold_z(z.take(half), z.skip(half), c),
            spec_fold_g(g.take(half), g.skip(half), c),
            spec_lf_add(spec_scale(l.take(half), c), l.skip(half)),
            k,
            bytes2,
        );
        (rest.0, rest.1, seq![a] + rest.2, seq![b] + rest.3)
    }
}

/// The generator halves folded by a challenge.
fn fold_g_exec(gl: &Vec<G1Elem>, gr: &Vec<G1Elem>, c: &Scalar) -> (r: Vec<G1Elem>)
    requires
        gl@.len() <= gr@.len(),
    ensures
        r@.len() == gl@.len(),
        g1_views(r@) == spec_fold_g(g1_views(gl@), g1_views(gr@), c@),
{
    let mut out: Vec<G1Elem> = Vec::new();
    let mut i: usize = 0;
    while i < gl.len()
        invariant
            i <= gl@.len(),
            gl@.len() <= gr@.len(),
            out@.len() == i,
            forall|j: int|
                0 <= j < i ==> out@[j]@ == g1_add_of(g1_mul_of(gl@[j]@, c@), gr@[j]@),
        decreases gl@.len() - i,
    {
        out.push(g1_add(&g1_mul(&gl[i], c), &gr[i]));
        i += 1;
    }
    proof {
        assert(g1_views(out@) =~= spec_fold_g(g1_views(gl@), g1_views(gr@), c@));
    }
    out
}

/// The response halves folded by a challenge.
fn fold_z_exec(zl: &Vec<Scalar>, zr: &Vec<Scalar>, c: &Scalar) -> (r: Vec<Scalar>)
    requires
        zl@.len() <= zr@.len(),
    ensures
        r@.len() == zl@.len(),
        scalar_views(r@) == spec_fold_z(scalar_views(zl@), scalar_views(zr@), c@),
{
    let mut out: Vec<Scalar> = Vec::new();
    let mut i: usize = 0;
    while i < zl.len()
        invariant
            i <= zl@.len(),
            zl@.len() <= zr@.len(),
            out@.len() == i,
            forall|j: int| 0 <= j < i ==> out@[j]@ == sc_add_of(zl@[j]@, sc_mul_of(zr@[j]@, c@)),
        decreases zl@.len() - i,
    {
        out.push(scalar_add(&zl[i], &scalar_mul(&zr[i], c)));
        i += 1;
    }
    proof {
        assert(scalar_views(out@) =~= spec_fold_z(scalar_views(zl@), scalar_views(zr@), c@));
    }
    out
}

/// A vector starting with `first` and continuing with `rest`.
fn g1_prepend(first: G1Elem, rest: Vec<G1Elem>) -> (r: Vec<G1Elem>)
    ensures
        g1_views(r@) == seq![first@] + g1_views(rest@),
{
    let mut out: Vec<G1Elem> = Vec::new();
    out.push(first);
    let mut i: usize = 0;
    while i < rest.len()
        invariant
            i <= rest@.len(),
            out@.len() == 1 + i,
            out@[0]@ == first@,
            forall|j: int| 0 <= j < i ==> out@[1 + j]@ == rest@[j]@,
        decreases rest@.len() - i,
    {
        out.push(rest[i].dup());
        i += 1;
    }
    proof {
        assert(g1_views(out@) =~= seq![first@] + g1_views(rest@));
    }
    out
}

/// A vector of `n` freshly sampled scalars.
pub fn random_scalars(rng: &mut FieldRng, n: usize) -> (r: Vec<Scalar>)
    ensures
        r@.len() == n,
{
    let mut out: Vec<Scalar> = Vec::new();
    let mut i: usize = 0;
    while i < n
        invariant
            i <= n,
            out@.len() == i,
        decreases n - i,
    {
        out.push(random_scalar(rng));
        i += 1;
    }
    out
}

/// One round plus the rest of the halving recursion, mirrored exactly by
/// `spec_compress`.
#[verifier::rlimit(30)]
fn compress_inner(z: Vec<Scalar>, g: Vec<G1Elem>, l: LinearForm, k: &G1Elem, bytes: Vec<u8>) -> (r:
    (Scalar, Scalar, Vec<G1Elem>, Vec<G1Elem>))
    requires
        z@.len() == g@.len(),
        l.coeffs().len() == z@.len(),
        z@.len() >= 2,
        spec_is_pow2(z@.len() as int),
    ensures
        ({
            let s = spec_compress(scalar_views(z@), g1_views(g@), l.coeffs(), k@, bytes@);
            r.0@ == s.0 && r.1@ == s.1 && g1_views(r.2@) == s.2 && g1_views(r.3@) == s.3
        }),
    decreases z@.len(),
{
    let ghost z0v = scalar_views(z@);
    let ghost g0v = g1_views(g@);
    let ghost l0v = l.coeffs();
    if z.len() == 2 {
        let out0 = z[0].dup();
        let out1 = z[1].dup();
        let aas: Vec<G1Elem> = Vec::new();
        let bbs: Vec<G1Elem> = Vec::new();
        proof {
            assert(g1_views(aas@) =~= Seq::<Seq<u8>>::empty());
            assert(g1_views(bbs@) =~= Seq::<Seq<u8>>::empty());
        }
        (out0, out1, aas, bbs)
    } else {
        let half = z.len() / 2;
        proof {
            assert(z@.len() % 2 == 0 && spec_is_pow2(z@.len() as int / 2));
            assert(z@.len() >= 4);
        }
        let mut zl = z;
        let zr = zl.split_off(half);
        let mut gl = g;
        let gr = gl.split_off(half);
        let (ll, lr) = l.split_in_half();
        proof {
            assert(scalar_views(zl@) =~= z0v.take(half as int));
            assert(scalar_views(zr@) =~= z0v.skip(half as int));
            assert(g1_views(gl@) =~= g0v.take(half as int));
            assert(g1_views(gr@) =~= g0v.skip(half as int));
            assert(ll.coeffs() =~= l0v.take(half as int));
            assert(lr.coeffs() =~= l0v.skip(half as int));
        }
        let a = g1_add(&g1_msm(&gr, &zl), &g1_mul(k, &lr.eval(&zl)));
        let b = g1_add(&g1_msm(&gl, &zr), &g1_mul(k, &ll.eval(&zr)));
        proof {
            assert(a@ == spec_cross(g0v.skip(half as int), z0v.take(half as int), l0v.skip(
                half as int,
            ), k@));
            assert(b@ == spec_cross(g0v.take(half as int), z0v.skip(half as int), l0v.take(
                half as int,
            ), k@));
        }
        let mut bytes2 = bytes;
        append_bytes(&mut bytes2, &a.b);
        append_bytes(&mut bytes2, &b.b);
        let c = hash_to_scalar(&bytes2);
        let zf = fold_z_exec(&zl, &zr, &c);
        let gf = fold_g_exec(&gl, &gr, &c);
        let lf = ll.scale(&c).add(&lr);
        let rest = compress_inner(zf, gf, lf, k, bytes2);
        let ghost s = spec_compress(z0v, g0v, l0v, k@, bytes@);
        let aas = g1_prepend(a, rest.2);
        let bbs = g1_prepend(b, rest.3);
        proof {
            assert(g1_views(aas@) =~= s.2);
            assert(g1_views(bbs@) =~= s.3);
        }
        (rest.0, rest.1, aas, bbs)
    }
}

/// The announcement of the compression protocol: the blinding vector, its
/// commitment and the form's value on the blindings.
#[derive(Debug, PartialEq)]
pub struct RandomCommitment {
    pub r: Vec<Scalar>,
    pub rho: Scalar,
    pub A_hat: G1Elem,
    pub t: Scalar,
}

/// The compressed response: the two terminal scalars and the recorded
/// cross-terms of every halving round.
#[derive(Debug, PartialEq)]
pub struct Response {
    pub z_prime_0: Scalar,
    pub z_prime_1: Scalar,
    pub A: Vec<G1Elem>,
    pub B: Vec<G1Elem>,
}

/// The extended generators and the scaled linear form the compression
/// works on: the blinding generator joins the vector, and the form is
/// scaled by the second challenge.
pub fn prepare_generators_and_linear_form_for_compression(
    g: &Vec<G1Elem>,
    h: &G1Elem,
    linear_form: &LinearForm,
    c_1: &Scalar,
) -> (r: (Vec<G1Elem>, LinearForm))
    ensures
        g1_views(r.0@) == g1_views(g@).push(h@),
        r.1.coeffs() == spec_scale(linear_form.coeffs(), c_1@),
{
    let mut g_hat: Vec<G1Elem> = Vec::new();
    let mut i: usize = 0;
    while i < g.len()
        invariant
            i <= g@.len(),
            g_hat@.len() == i,
            forall|j: int| 0 <= j < i ==> g_hat@[j]@ == g@[j]@,
        decreases g@.len() - i,
    {
        g_hat.push(g[i].dup());
        i += 1;
    }
    g_hat.push(h.dup());
    proof {
        assert(g1_views(g_hat@) =~= g1_views(g@).push(h@));
    }
    (g_hat, linear_form.scale(c_1))
}

/// `Q = c_0 * P + (c_1 * (c_0 * y + t)) * k + A_hat`: the folded
/// commitment the verifier starts from.
pub open spec fn spec_calc_q(
    k: Seq<u8>,
    p: Seq<u8>,
    y: Seq<u8>,
    a_hat: Seq<u8>,
    t: Seq<u8>,
    c_0: Seq<u8>,
    c_1: Seq<u8>,
) -> Seq<u8> {
    g1_add_of(
        g1_add_of(
            g1_mul_of(p, c_0),
            g1_mul_of(k, sc_mul_of(c_1, sc_add_of(sc_mul_of(c_0, y), t))),
        ),
        a_hat,
    )
}

/// Computes the verifier's starting commitment.
fn calculate_q(
    k: &G1Elem,
    p: &G1Elem,
    y: &Scalar,
    a_hat: &G1Elem,
    t: &Scalar,
    c_0: &Scalar,
    c_1: &Scalar,
) -> (r: G1Elem)
    ensures
        r@ == spec_calc_q(k@, p@, y@, a_hat@, t@, c_0@, c_1@),
{
    g1_add(
        &g1_add(
            &g1_mul(p, c_0),
            &g1_mul(k, &scalar_mul(c_1, &scalar_add(&scalar_mul(c_0, y), t))),
        ),
        a_hat,
    )
}

impl RandomCommitment {
    /// Starts the protocol: samples (or adopts) a blinding vector and a
    /// blinding scalar, commits to the vector and evaluates the form on
    /// it. Rejects a generator vector whose length plus one is not a power
    /// of two.
    pub fn new(
        rng: &mut FieldRng,
        g: &Vec<G1Elem>,
        h: &G1Elem,
        linear_form: &LinearForm,
        blindings: Option<Vec<Scalar>>,
    ) -> (r: Result<RandomCommitment, CompSigmaError>)
        requires
            g@.len() < usize::MAX,
            blindings matches Some(b) ==> b@.len() == g@.len(),
        ensures
            r is Err <==> !spec_is_pow2(g@.len() + 1 as int),
            r matches Err(e) ==> e == CompSigmaError::InputDimensionNotPowerOfTwo,
            r matches Ok(rc) ==> {
                &&& rc.r@.len() == g@.len()
                &&& (blindings matches Some(b) ==> scalar_views(rc.r@) == scalar_views(b@))
                &&& rc.t@ == spec_eval(linear_form.coeffs(), scalar_views(rc.r@))
                &&& rc.A_hat@ == g1_add_of(
                    g1_msm_of(g1_views(g@), scalar_views(rc.r@)),
                    g1_mul_of(h@, rc.rho@),
                )
            },
    {
        if !is_power_of_two(g.len() + 1) {
            return Err(CompSigmaError::InputDimensionNotPowerOfTwo);
        }
        let r = match blindings {
            Some(b) => b,
            None => random_scalars(rng, g.len()),
        };
        let rho = random_scalar(rng);
        let t = linear_form.eval(&r);
        let a_hat = g1_add(&g1_msm(g, &r), &g1_mul(h, &rho));
        Ok(RandomCommitment { r, rho, A_hat: a_hat, t })
    }

    /// The extended response vector the compression starts from: each
    /// witness scalar folded with its blinding by the first challenge, and
    /// the folded commitment blinding appended.
    pub open spec fn spec_z_hat(
        x: Seq<Seq<u8>>,
        rr: Seq<Seq<u8>>,
        gamma: Seq<u8>,
        rho: Seq<u8>,
        c_0: Seq<u8>,
    ) -> Seq<Seq<u8>> {
        Seq::new(x.len(), |i: int| sc_add_of(sc_mul_of(x[i], c_0), rr[i])).push(
            sc_add_of(sc_mul_of(gamma, c_0), rho),
        )
    }

    /// Runs the response phase: folds the witness with the blindings by
    /// the first challenge and compresses recursively. Rejects dimensions
    /// that are not a power of two.
    pub fn response(
        &self,
        g: &Vec<G1Elem>,
        h: &G1Elem,
        k: &G1Elem,
        linear_form: &LinearForm,
        x: &Vec<Scalar>,
        gamma: &Scalar,
        c_0: &Scalar,
        c_1: &Scalar,
    ) -> (r: Result<Response, CompSigmaError>)
        requires
            g@.len() == x@.len(),
            self.r@.len() == x@.len(),
            linear_form.coeffs().len() == x@.len() + 1,
            x@.len() >= 1,
            g@.len() < usize::MAX,
        ensures
            r is Err <==> !spec_is_pow2(g@.len() + 1 as int),
            r matches Err(e) ==> e == CompSigmaError::InputDimensionNotPowerOfTwo,
            r matches Ok(resp) ==> {
                let s = spec_compress(
                    Self::spec_z_hat(
                        scalar_views(x@),
                        scalar_views(self.r@),
                        gamma@,
                        self.rho@,
                        c_0@,
                    ),
                    g1_views(g@).push(h@),
                    spec_scale(linear_form.coeffs(), c_1@),
                    k@,
                    Seq::empty(),
                );
                resp.z_prime_0@ == s.0 && resp.z_prime_1@ == s.1 && g1_views(resp.A@) == s.2
                    && g1_views(resp.B@) == s.3
            },
    {
        if !is_power_of_two(g.len() + 1) {
            return Err(CompSigmaError::InputDimensionNotPowerOfTwo);
        }
        let phi = scalar_add(&scalar_mul(gamma, c_0), &self.rho);
        let mut z_hat: Vec<Scalar> = Vec::new();
        let mut i: usize = 0;
        while i < x.len()
            invariant
                i <= x@.len(),
                self.r@.len() == x@.len(),
                z_hat@.len() == i,
                forall|j: int|
                    0 <= j < i ==> z_hat@[j]@ == sc_add_of(
                        sc_mul_of(x@[j]@, c_0@),
                        self.r@[j]@,
                    ),
            decreases x@.len() - i,
        {
            z_hat.push(scalar_add(&scalar_mul(&x[i], c_0), &self.r[i]));
            i += 1;
        }
        z_hat.push(phi);
        proof {
            assert(scalar_views(z_hat@) =~= Self::spec_z_hat(
                scalar_views(x@),
                scalar_views(self.r@),
                gamma@,
                self.rho@,
                c_0@,
            ));
        }
        let (g_hat, l_tilde) = prepare_generators_and_linear_form_for_compression(
            g,
            h,
            linear_form,
            c_1,
        );
        proof {
            assert(g1_views(g_hat@).len() == g_hat@.len());
            assert(g1_views(g@).push(h@).len() == g@.len() + 1);
            assert(spec_scale(linear_form.coeffs(), c_1@).len() == linear_form.coeffs().len());
        }
        Ok(Self::compressed_response(z_hat, g_hat, k, l_tilde))
    }

    /// The recursive halving itself, on an already-extended response
    /// vector, generator vector and linear form.
    pub fn compressed_response(
        z_hat: Vec<Scalar>,
        g_hat: Vec<G1Elem>,
        k: &G1Elem,
        l_tilde: LinearForm,
    ) -> (r: Response)
        requires
            z_hat@.len() == g_hat@.len(),
            l_tilde.coeffs().len() == z_hat@.len(),
            z_hat@.len() >= 2,
            spec_is_pow2(z_hat@.len() as int),
        ensures
            ({
                let s = spec_compress(
                    scalar_views(z_hat@),
                    g1_views(g_hat@),
                    l_tilde.coeffs(),
                    k@,
                    Seq::empty(),
                );
                r.z_prime_0@ == s.0 && r.z_prime_1@ == s.1 && g1_views(r.A@) == s.2 && g1_views(
                    r.B@,
                ) == s.3
            }),
    {
        let bytes: Vec<u8> = Vec::new();
        proof {
            assert(bytes@ =~= Seq::<u8>::empty());
        }
        let (z0, z1, aas, bbs) = compress_inner(z_hat, g_hat, l_tilde, k, bytes);
        Response { z_prime_0: z0, z_prime_1: z1, A: aas, B: bbs }
    }
}

/// The outcome of the recursive verifier from round `i` on: each round
/// re-derives its challenge from the transcript bytes and folds the
/// commitment, the generators and the form; at the end one multi-scalar
/// multiplication over the two folded generators and the auxiliary
/// generator must meet the folded commitment.
pub open spec fn spec_rec_validate(
    a: Seq<Seq<u8>>,
    b: Seq<Seq<u8>>,
    z0: Seq<u8>,
    z1: Seq<u8>,
    i: int,
    q: Seq<u8>,
    g: Seq<Seq<u8>>,
    l: Seq<Seq<u8>>,
    k: Seq<u8>,
    bytes: Seq<u8>,
) -> Result<(), CompSigmaError>
    decreases a.len() - i,
{
    if i < 0 || i >= a.len() {
        if g.len() != 2 || l.len() != 2 {
            Err(CompSigmaError::InputDimensionNotPowerOfTwo)
        } else {
            let lz = spec_eval(l, seq![z0, z1]);
            if g1_msm_of(g.push(k), seq![z0, z1, lz]) == q {
                Ok(())
            } else {
                Err(CompSigmaError::InvalidResponse)
            }
        }
    } else {
        let bytes2 = bytes + a[i] + b[i];
        let c = hash_scalar_of(bytes2);
        let half = g.len() as int / 2;
        let g2 = spec_fold_g(g.take(half), g.skip(half), c);
        let q2 = g1_add_of(g1_add_of(a[i], g1_mul_of(q, c)), g1_mul_of(b[i], sc_mul_of(c, c)));
        let lhalf = l.len() as int / 2;
        let l2 = spec_lf_add(spec_scale(l.take(lhalf), c), l.skip(lhalf));
        spec_rec_validate(a, b, z0, z1, i + 1, q2, g2, l2, k, bytes2)
    }
}

impl Response {
    /// The recursive rounds of the verifier, from round `i` on.
    fn validate_rounds(
        &self,
        i: usize,
        q: G1Elem,
        g: Vec<G1Elem>,
        l: LinearForm,
        k: &G1Elem,
        bytes: Vec<u8>,
    ) -> (r: Result<(), CompSigmaError>)
        requires
            self.A@.len() == self.B@.len(),
            i <= self.A@.len(),
            g@.len() == spec_pow2((self.A@.len() - i + 1) as nat),
            l.coeffs().len() == g@.len(),
        ensures
            r == spec_rec_validate(
                g1_views(self.A@),
                g1_views(self.B@),
                self.z_prime_0@,
                self.z_prime_1@,
                i as int,
                q@,
                g1_views(g@),
                l.coeffs(),
                k@,
                bytes@,
            ),
        decreases self.A@.len() - i,
    {
        let ghost gv = g1_views(g@);
        let ghost lv = l.coeffs();
        if i == self.A.len() {
            proof {
                assert(spec_pow2(1) == 2);
                assert(gv.len() == 2 && lv.len() == 2);
            }
            let mut zz: Vec<Scalar> = Vec::new();
            zz.push(self.z_prime_0.dup());
            zz.push(self.z_prime_1.dup());
            let lz = l.eval(&zz);
            let mut gk = g;
            gk.push(k.dup());
            let mut ss: Vec<Scalar> = Vec::new();
            ss.push(self.z_prime_0.dup());
            ss.push(self.z_prime_1.dup());
            ss.push(lz);
            proof {
                assert(scalar_views(zz@) =~= seq![self.z_prime_0@, self.z_prime_1@]);
                assert(g1_views(gk@) =~= gv.push(k@));
                assert(scalar_views(ss@) =~= seq![
                    self.z_prime_0@,
                    self.z_prime_1@,
                    spec_eval(lv, seq![self.z_prime_0@, self.z_prime_1@]),
                ]);
            }
            let lhs = g1_msm(&gk, &ss);
            if bytes_eq(&lhs.b, &q.b) {
                Ok(())
            } else {
                Err(CompSigmaError::InvalidResponse)
            }
        } else {
            proof {
                assert(spec_pow2((self.A@.len() - i + 1) as nat) == 2 * spec_pow2(
                    (self.A@.len() - i) as nat,
                ));
                lemma_pow2_pos((self.A@.len() - i) as nat);
            }
            let half = g.len() / 2;
            let mut bytes2 = bytes;
            append_bytes(&mut bytes2, &self.A[i].b);
            append_bytes(&mut bytes2, &self.B[i].b);
            let c = hash_to_scalar(&bytes2);
            let mut gl = g;
            let gr = gl.split_off(half);
            let g2 = fold_g_exec(&gl, &gr, &c);
            let q2 = g1_add(
                &g1_add(&self.A[i].dup(), &g1_mul(&q, &c)),
                &g1_mul(&self.B[i], &scalar_mul(&c, &c)),
            );
            let (ll, lr) = l.split_in_half();
            let l2 = ll.scale(&c).add(&lr);
            proof {
                assert(g1_views(gl@) =~= gv.take(half as int));
                assert(g1_views(gr@) =~= gv.skip(half as int));
                assert(ll.coeffs() =~= lv.take(lv.len() as int / 2));
                assert(lr.coeffs() =~= lv.skip(lv.len() as int / 2));
                assert(g2@.len() == spec_pow2((self.A@.len() - (i + 1) + 1) as nat));
            }
            self.validate_rounds(i + 1, q2, g2, l2, k, bytes2)
        }
    }

    /// Runs the recursive rounds on an already-extended generator vector
    /// and scaled form.
    pub fn recursively_validate_compressed(
        &self,
        q: G1Elem,
        g_hat: Vec<G1Elem>,
        l_tilde: LinearForm,
        k: &G1Elem,
    ) -> (r: Result<(), CompSigmaError>)
        requires
            self.A@.len() == self.B@.len(),
            g_hat@.len() == spec_pow2((self.A@.len() + 1) as nat),
            l_tilde.coeffs().len() == g_hat@.len(),
        ensures
            r == spec_rec_validate(
                g1_views(self.A@),
                g1_views(self.B@),
                self.z_prime_0@,
                self.z_prime_1@,
                0,
                q@,
                g1_views(g_hat@),
                l_tilde.coeffs(),
                k@,
                Seq::empty(),
            ),
    {
        let bytes: Vec<u8> = Vec::new();
        proof {
            assert(bytes@ =~= Seq::<u8>::empty());
        }
        self.validate_rounds(0, q, g_hat, l_tilde, k, bytes)
    }

    /// Whether the vectors of a proof and a statement have the shape the
    /// compression demands: as many left as right cross-terms, a
    /// generator count one short of the matching power of two, and a form
    /// of exactly the extended length.
    pub open spec fn spec_shape_ok(
        a_len: int,
        b_len: int,
        g_len: int,
        lf_len: int,
    ) -> bool {
        &&& a_len == b_len
        &&& g_len + 1 == spec_pow2((a_len + 1) as nat)
        &&& lf_len == g_len + 1
    }

    /// Checks the proof and statement shapes.
    fn shape_ok(&self, g: &Vec<G1Elem>, linear_form: &LinearForm) -> (r: bool)
        requires
            g@.len() < usize::MAX,
        ensures
            r == Self::spec_shape_ok(
                self.A@.len() as int,
                self.B@.len() as int,
                g@.len() as int,
                linear_form.coeffs().len() as int,
            ),
    {
        if self.A.len() != self.B.len() {
            return false;
        }
        if linear_form.size() != g.len() + 1 {
            return false;
        }
        match pow2_log(g.len() + 1) {
            Some(klog) => {
                if klog >= 1 && klog - 1 == self.A.len() {
                    true
                } else {
                    proof {
                        lemma_pow2_injective(klog as nat, (self.A@.len() + 1) as nat);
                    }
                    false
                }
            },
            None => {
                proof {
                    if g@.len() + 1 == spec_pow2((self.A@.len() + 1) as nat) {
                        lemma_pow2_is_pow2((self.A@.len() + 1) as nat);
                    }
                }
                false
            },
        }
    }

    /// Validates the proof round by round, exactly as the prover folded
    /// it. Rejects shapes that do not match a power of two.
    pub fn is_valid_recursive(
        &self,
        g: &Vec<G1Elem>,
        h: &G1Elem,
        k: &G1Elem,
        p: &G1Elem,
        y: &Scalar,
        linear_form: &LinearForm,
        a_hat: &G1Elem,
        t: &Scalar,
        c_0: &Scalar,
        c_1: &Scalar,
    ) -> (r: Result<(), CompSigmaError>)
        requires
            g@.len() < usize::MAX,
        ensures
            r == spec_is_valid_recursive(
                *self,
                g1_views(g@),
                h@,
                k@,
                p@,
                y@,
                linear_form.coeffs(),
                a_hat@,
                t@,
                c_0@,
                c_1@,
            ),
    {
        if !self.shape_ok(g, linear_form) {
            return Err(CompSigmaError::InputDimensionNotPowerOfTwo);
        }
        let (g_hat, l_tilde) = prepare_generators_and_linear_form_for_compression(
            g,
            h,
            linear_form,
            c_1,
        );
        let q = calculate_q(k, p, y, a_hat, t, c_0, c_1);
        proof {
            assert(g1_views(g_hat@).len() == g_hat@.len());
            assert(g1_views(g@).push(h@).len() == g@.len() + 1);
        }
        self.recursively_validate_compressed(q, g_hat, l_tilde, k)
    }
}

/// The outcome the recursive verifier owes, from the raw statement: shape
/// failures are dimension errors, then the rounds decide.
pub open spec fn spec_is_valid_recursive(
    resp: Response,
    g: Seq<Seq<u8>>,
    h: Seq<u8>,
    k: Seq<u8>,
    p: Seq<u8>,
    y: Seq<u8>,
    lf: Seq<Seq<u8>>,
    a_hat: Seq<u8>,
    t: Seq<u8>,
    c_0: Seq<u8>,
    c_1: Seq<u8>,
) -> Result<(), CompSigmaError> {
    if !Response::spec_shape_ok(
        resp.A@.len() as int,
        resp.B@.len() as int,
        g.len() as int,
        lf.len() as int,
    ) {
        Err(CompSigmaError::InputDimensionNotPowerOfTwo)
    } else {
        spec_rec_validate(
            g1_views(resp.A@),
            g1_views(resp.B@),
            resp.z_prime_0@,
            resp.z_prime_1@,
            0,
            spec_calc_q(k, p, y, a_hat, t, c_0, c_1),
            g.push(h),
            spec_scale(lf, c_1),
            k,
            Seq::empty(),
        )
    }
}

/// Powers of two are injective in the exponent.
pub proof fn lemma_pow2_injective(a: nat, b: nat)
    requires
        a != b,
    ensures
        spec_pow2(a) != spec_pow2(b),
{
    if a < b {
        lemma_pow2_strict(a, b);
    } else {
        lemma_pow2_strict(b, a);
    }
}

/// Powers of two grow strictly.
pub proof fn lemma_pow2_strict(a: nat, b: nat)
    requires
        a < b,
    ensures
        spec_pow2(a) < spec_pow2(b),
    decreases b,
{
    if a + 1 < b {
        lemma_pow2_strict(a, (b - 1) as nat);
    }
    lemma_pow2_pos(a);
}

/// Every power of two passes the power-of-two test.
pub proof fn lemma_pow2_is_pow2(n: nat)
    ensures
        spec_is_pow2(spec_pow2(n) as int),
    decreases n,
{
    if n > 0 {
        lemma_pow2_is_pow2((n - 1) as nat);
        lemma_pow2_pos((n - 1) as nat);
    }
}

/// The challenges of all rounds from round `i` on, re-derived from the
/// transcript bytes, together with the fully folded linear form.
pub open spec fn spec_challenges_and_form(
    a: Seq<Seq<u8>>,
    b: Seq<Seq<u8>>,
    l: Seq<Seq<u8>>,
    bytes: Seq<u8>,
    i: int,
) -> (Seq<Seq<u8>>, Seq<Seq<u8>>)
    decreases a.len() - i,
{
    if i < 0 || i >= a.len() {
        (Seq::empty(), l)
    } else {
        let bytes2 = bytes + a[i] + b[i];
        let c = hash_scalar_of(bytes2);
        let lhalf = l.len() as int / 2;
        let l2 = spec_lf_add(spec_scale(l.take(lhalf), c), l.skip(lhalf));
        let rest = spec_challenges_and_form(a, b, l2, bytes2, i + 1);
        (seq![c] + rest.0, rest.1)
    }
}

/// The suffix products of the challenges, ending with the empty product:
/// entry `i` is the product of the challenges from `i` on.
pub open spec fn spec_suffix_products_one(cs: Seq<Seq<u8>>) -> Seq<Seq<u8>>
    decreases cs.len(),
{
    if cs.len() == 0 {
        seq![sc_of_u64(1)]
    } else {
        let rest = spec_suffix_products_one(cs.drop_first());
        seq![sc_mul_of(cs.first(), rest.first())] + rest
    }
}

/// The multi-scalars that express the folded generator pair as a
/// combination of the original generators: processing the rounds in
/// order, the left half of the coefficients carries the round's
/// challenge.
pub open spec fn spec_expand_multiples(cs: Seq<Seq<u8>>, z0: Seq<u8>, z1: Seq<u8>) -> Seq<
    Seq<u8>,
>
    decreases cs.len(),
{
    if cs.len() == 0 {
        seq![z0, z1]
    } else {
        let inner = spec_expand_multiples(cs.drop_first(), z0, z1);
        inner.map_values(|m: Seq<u8>| sc_mul_of(m, cs.first())) + inner
    }
}

/// The suffix products list is one longer than the challenge list.
pub proof fn lemma_suffix_products_len(cs: Seq<Seq<u8>>)
    ensures
        spec_suffix_products_one(cs).len() == cs.len() + 1,
    decreases cs.len(),
{
    if cs.len() > 0 {
        lemma_suffix_products_len(cs.drop_first());
    }
}

/// The multi-scalar list doubles with each challenge.
pub proof fn lemma_expand_multiples_len(cs: Seq<Seq<u8>>, z0: Seq<u8>, z1: Seq<u8>)
    ensures
        spec_expand_multiples(cs, z0, z1).len() == spec_pow2((cs.len() + 1) as nat),
    decreases cs.len(),
{
    if cs.len() > 0 {
        lemma_expand_multiples_len(cs.drop_first(), z0, z1);
    } else {
        assert(spec_pow2(0) == 1);
        assert(spec_pow2(1) == 2);
    }
}

impl Response {
    /// Re-derives every round challenge and folds the form.
    fn collect_challenges(&self, i: usize, l: LinearForm, bytes: Vec<u8>) -> (r: (
        Vec<Scalar>,
        LinearForm,
    ))
        requires
            self.A@.len() == self.B@.len(),
            i <= self.A@.len(),
            l.coeffs().len() == spec_pow2((self.A@.len() - i + 1) as nat),
        ensures
            ({
                let s = spec_challenges_and_form(
                    g1_views(self.A@),
                    g1_views(self.B@),
                    l.coeffs(),
                    bytes@,
                    i as int,
                );
                scalar_views(r.0@) == s.0 && r.1.coeffs() == s.1 && r.0@.len() == self.A@.len()
                    - i
            }),
        decreases self.A@.len() - i,
    {
        if i == self.A.len() {
            let empty: Vec<Scalar> = Vec::new();
            proof {
                assert(scalar_views(empty@) =~= Seq::<Seq<u8>>::empty());
            }
            (empty, l)
        } else {
            let mut bytes2 = bytes;
            append_bytes(&mut bytes2, &self.A[i].b);
            append_bytes(&mut bytes2, &self.B[i].b);
            let c = hash_to_scalar(&bytes2);
            proof {
                assert(spec_pow2((self.A@.len() - i + 1) as nat) == 2 * spec_pow2(
                    (self.A@.len() - i) as nat,
                ));
                lemma_pow2_pos((self.A@.len() - i) as nat);
            }
            let (ll, lr) = l.split_in_half();
            let l2 = ll.scale(&c).add(&lr);
            let (rest, l_fin) = self.collect_challenges(i + 1, l2, bytes2);
            let out = scalar_prepend(c, rest);
            (out, l_fin)
        }
    }

    /// The batched verifier: re-derives all challenges up front, builds
    /// the multi-scalars of the original generators and one combined
    /// target, and decides with a single multi-scalar multiplication.
    pub fn validate_compressed(
        &self,
        q: G1Elem,
        g_hat: Vec<G1Elem>,
        l_tilde: LinearForm,
        k: &G1Elem,
    ) -> (r: Result<(), CompSigmaError>)
        requires
            self.A@.len() == self.B@.len(),
            g_hat@.len() == spec_pow2((self.A@.len() + 1) as nat),
            l_tilde.coeffs().len() == g_hat@.len(),
        ensures
            r == spec_validate_batched(
                *self,
                q@,
                g1_views(g_hat@),
                l_tilde.coeffs(),
                k@,
            ),
    {
        let ghost ghat0 = g_hat@;
        let bytes: Vec<u8> = Vec::new();
        proof {
            assert(bytes@ =~= Seq::<u8>::empty());
        }
        let (challenges, l_fin) = self.collect_challenges(0, l_tilde, bytes);
        let ghost cs = scalar_views(challenges@);

        let full = suffix_products_one(&challenges, 0);
        proof {
            assert(cs.skip(0) =~= cs);
            lemma_suffix_products_len(cs);
            assert(scalar_views(full@) == spec_suffix_products_one(cs));
        }
        let mut a_m: Vec<Scalar> = Vec::new();
        let mut b_m: Vec<Scalar> = Vec::new();
        let mut i: usize = 0;
        while i < challenges.len()
            invariant
                i <= challenges@.len(),
                full@.len() == challenges@.len() + 1,
                a_m@.len() == i,
                b_m@.len() == i,
                forall|j: int|
                    0 <= j < i ==> a_m@[j]@ == scalar_views(full@).drop_first()[j],
                forall|j: int|
                    0 <= j < i ==> b_m@[j]@ == sc_mul_of(
                        scalar_views(full@).drop_first()[j],
                        sc_mul_of(challenges@[j]@, challenges@[j]@),
                    ),
            decreases challenges@.len() - i,
        {
            let prod = full[i + 1].dup();
            let csq = scalar_mul(&challenges[i], &challenges[i]);
            b_m.push(scalar_mul(&prod, &csq));
            a_m.push(prod);
            i += 1;
        }
        proof {
            assert(scalar_views(a_m@) =~= scalar_views(full@).drop_first());
            assert(scalar_views(b_m@) =~= Seq::new(
                g1_views(self.A@).len(),
                |j: int|
                    sc_mul_of(
                        scalar_views(full@).drop_first()[j],
                        sc_mul_of(cs[j], cs[j]),
                    ),
            ));
        }
        let q_scaled = g1_mul(&q, &full[0]);
        let q_prime = g1_add(&g1_add(&g1_msm(&self.A, &a_m), &g1_msm(&self.B, &b_m)), &q_scaled);

        let ms = expand_multiples(&challenges, 0, &self.z_prime_0, &self.z_prime_1);
        proof {
            assert(cs.skip(0) =~= cs);
            assert(scalar_views(ms@) == spec_expand_multiples(cs, self.z_prime_0@, self.z_prime_1@));
            lemma_expand_multiples_len(cs, self.z_prime_0@, self.z_prime_1@);
        }
        let mut zz: Vec<Scalar> = Vec::new();
        zz.push(self.z_prime_0.dup());
        zz.push(self.z_prime_1.dup());
        let lz = l_fin.eval(&zz);
        proof {
            assert(scalar_views(zz@) =~= seq![self.z_prime_0@, self.z_prime_1@]);
        }
        let mut gk = g_hat;
        gk.push(k.dup());
        let mut ms2 = ms;
        ms2.push(lz);
        proof {
            assert(g1_views(gk@) =~= g1_views(ghat0).push(k@));
            assert(scalar_views(ms2@) =~= spec_expand_multiples(
                cs,
                self.z_prime_0@,
                self.z_prime_1@,
            ).push(lz@));
        }
        let lhs = g1_msm(&gk, &ms2);
        if bytes_eq(&lhs.b, &q_prime.b) {
            Ok(())
        } else {
            Err(CompSigmaError::InvalidResponse)
        }
    }

    /// Validates the proof with the batched verifier, from the raw
    /// statement. Rejects shapes that do not match a power of two.
    pub fn is_valid(
        &self,
        g: &Vec<G1Elem>,
        h: &G1Elem,
        k: &G1Elem,
        p: &G1Elem,
        y: &Scalar,
        linear_form: &LinearForm,
        a_hat: &G1Elem,
        t: &Scalar,
        c_0: &Scalar,
        c_1: &Scalar,
    ) -> (r: Result<(), CompSigmaError>)
        requires
            g@.len() < usize::MAX,
        ensures
            r == spec_is_valid(
                *self,
                g1_views(g@),
                h@,
                k@,
                p@,
                y@,
                linear_form.coeffs(),
                a_hat@,
                t@,
                c_0@,
                c_1@,
            ),
    {
        if !self.shape_ok(g, linear_form) {
            return Err(CompSigmaError::InputDimensionNotPowerOfTwo);
        }
        let (g_hat, l_tilde) = prepare_generators_and_linear_form_for_compression(
            g,
            h,
            linear_form,
            c_1,
        );
        let q = calculate_q(k, p, y, a_hat, t, c_0, c_1);
        proof {
            assert(g1_views(g_hat@).len() == g_hat@.len());
            assert(g1_views(g@).push(h@).len() == g@.len() + 1);
        }
        self.validate_compressed(q, g_hat, l_tilde, k)
    }
}

/// The outcome the batched verifier owes on an extended statement.
pub open spec fn spec_validate_batched(
    resp: Response,
    q: Seq<u8>,
    g_hat: Seq<Seq<u8>>,
    l: Seq<Seq<u8>>,
    k: Seq<u8>,
) -> Result<(), CompSigmaError> {
    let av = g1_views(resp.A@);
    let bv = g1_views(resp.B@);
    let s = spec_challenges_and_form(av, bv, l, Seq::empty(), 0);
    let cs = s.0;
    let l_fin = s.1;
    let full = spec_suffix_products_one(cs);
    let a_m = full.drop_first();
    let b_m = Seq::new(av.len(), |j: int| sc_mul_of(a_m[j], sc_mul_of(cs[j], cs[j])));
    let q_prime = g1_add_of(
        g1_add_of(g1_msm_of(av, a_m), g1_msm_of(bv, b_m)),
        g1_mul_of(q, full.first()),
    );
    let ms = spec_expand_multiples(cs, resp.z_prime_0@, resp.z_prime_1@);
    let lz = spec_eval(l_fin, seq![resp.z_prime_0@, resp.z_prime_1@]);
    if g1_msm_of(g_hat.push(k), ms.push(lz)) == q_prime {
        Ok(())
    } else {
        Err(CompSigmaError::InvalidResponse)
    }
}

/// The outcome the batched verifier owes, from the raw statement.
pub open spec fn spec_is_valid(
    resp: Response,
    g: Seq<Seq<u8>>,
    h: Seq<u8>,
    k: Seq<u8>,
    p: Seq<u8>,
    y: Seq<u8>,
    lf: Seq<Seq<u8>>,
    a_hat: Seq<u8>,
    t: Seq<u8>,
    c_0: Seq<u8>,
    c_1: Seq<u8>,
) -> Result<(), CompSigmaError> {
    if !Response::spec_shape_ok(
        resp.A@.len() as int,
        resp.B@.len() as int,
        g.len() as int,
        lf.len() as int,
    ) {
        Err(CompSigmaError::InputDimensionNotPowerOfTwo)
    } else {
        spec_validate_batched(
            resp,
            spec_calc_q(k, p, y, a_hat, t, c_0, c_1),
            g.push(h),
            spec_scale(lf, c_1),
            k,
        )
    }
}

/// A vector starting with `first` and continuing with `rest`.
fn scalar_prepend(first: Scalar, rest: Vec<Scalar>) -> (r: Vec<Scalar>)
    ensures
        scalar_views(r@) == seq![first@] + scalar_views(rest@),
        r@.len() == rest@.len() + 1,
{
    let mut out: Vec<Scalar> = Vec::new();
    out.push(first);
    let mut i: usize = 0;
    while i < rest.len()
        invariant
            i <= rest@.len(),
            out@.len() == 1 + i,
            out@[0]@ == first@,
            forall|j: int| 0 <= j < i ==> out@[1 + j]@ == rest@[j]@,
        decreases rest@.len() - i,
    {
        out.push(rest[i].dup());
        i += 1;
    }
    proof {
        assert(scalar_views(out@) =~= seq![first@] + scalar_views(rest@));
    }
    out
}

/// The suffix products of the challenges from index `i` on, ending with
/// the empty product.
fn suffix_products_one(cs: &Vec<Scalar>, i: usize) -> (r: Vec<Scalar>)
    requires
        i <= cs@.len(),
    ensures
        scalar_views(r@) == spec_suffix_products_one(scalar_views(cs@).skip(i as int)),
        r@.len() == cs@.len() - i + 1,
    decreases cs@.len() - i,
{
    if i == cs.len() {
        let mut out: Vec<Scalar> = Vec::new();
        out.push(scalar_from_u64(1));
        proof {
            assert(scalar_views(cs@).skip(i as int) =~= Seq::<Seq<u8>>::empty());
            assert(scalar_views(out@) =~= seq![sc_of_u64(1)]);
        }
        out
    } else {
        let rest = suffix_products_one(cs, i + 1);
        let head = scalar_mul(&cs[i], &rest[0]);
        let out = scalar_prepend(head, rest);
        proof {
            let tailv = scalar_views(cs@).skip(i as int);
            assert(tailv.drop_first() =~= scalar_views(cs@).skip(i + 1));
            assert(tailv.first() == cs@[i as int]@);
            assert(scalar_views(out@) =~= spec_suffix_products_one(tailv));
        }
        out
    }
}

/// The folded-generator multi-scalars for the challenges from index `i`
/// on.
fn expand_multiples(cs: &Vec<Scalar>, i: usize, z0: &Scalar, z1: &Scalar) -> (r: Vec<Scalar>)
    requires
        i <= cs@.len(),
    ensures
        scalar_views(r@) == spec_expand_multiples(scalar_views(cs@).skip(i as int), z0@, z1@),
        r@.len() == spec_pow2((cs@.len() - i + 1) as nat),
    decreases cs@.len() - i,
{
    if i == cs.len() {
        let mut out: Vec<Scalar> = Vec::new();
        out.push(z0.dup());
        out.push(z1.dup());
        proof {
            assert(scalar_views(cs@).skip(i as int) =~= Seq::<Seq<u8>>::empty());
            assert(scalar_views(out@) =~= seq![z0@, z1@]);
            assert(spec_pow2(0) == 1);
            assert(spec_pow2(1) == 2);
        }
        out
    } else {
        let inner = expand_multiples(cs, i + 1, z0, z1);
        let mut out: Vec<Scalar> = Vec::new();
        let mut j: usize = 0;
        while j < inner.len()
            invariant
                i < cs@.len(),
                j <= inner@.len(),
                out@.len() == j,
                forall|m: int| 0 <= m < j ==> out@[m]@ == sc_mul_of(inner@[m]@, cs@[i as int]@),
            decreases inner@.len() - j,
        {
            out.push(scalar_mul(&inner[j], &cs[i]));
            j += 1;
        }
        let mut j2: usize = 0;
        let ghost scaled_len = out@.len();
        while j2 < inner.len()
            invariant
                i < cs@.len(),
                j2 <= inner@.len(),
                scaled_len == inner@.len(),
                out@.len() == scaled_len + j2,
                forall|m: int|
                    0 <= m < scaled_len ==> out@[m]@ == sc_mul_of(inner@[m]@, cs@[i as int]@),
                forall|m: int| 0 <= m < j2 ==> out@[scaled_len + m]@ == inner@[m]@,
            decreases inner@.len() - j2,
        {
            out.push(inner[j2].dup());
            j2 += 1;
        }
        proof {
            let tailv = scalar_views(cs@).skip(i as int);
            assert(tailv.drop_first() =~= scalar_views(cs@).skip(i + 1));
            assert(tailv.first() == cs@[i as int]@);
            let innerv = spec_expand_multiples(tailv.drop_first(), z0@, z1@);
            assert(scalar_views(inner@) == innerv);
            assert(scalar_views(out@) =~= innerv.map_values(
                |m: Seq<u8>| sc_mul_of(m, tailv.first()),
            ) + innerv);
            assert(spec_expand_multiples(tailv, z0@, z1@) == innerv.map_values(
                |m: Seq<u8>| sc_mul_of(m, tailv.first()),
            ) + innerv);
            lemma_pow2_pos((cs@.len() - i - 1) as nat);
            assert(spec_pow2((cs@.len() - i + 1) as nat) == 2 * spec_pow2(
                (cs@.len() - i) as nat,
            ));
        }
        out
    }
}

} // verus!
