use vstd::prelude::*;
use vstd::arithmetic::power::{lemma_pow1, lemma_pow_adds, lemma_pow_distributes, lemma_pow_mod_noop, pow};
use vstd::arithmetic::div_mod::lemma_mul_mod_noop_general;

verus! {

/// The characteristic of the base field: 2^62 - 111 * 2^39 + 1.
pub const MODULUS: u64 = 4611624995532046337;

/// An element of the prime field of characteristic `MODULUS`, always held
/// in canonical (fully reduced) form.
#[derive(Clone, Copy, Debug, PartialEq, Eq, Structural)]
pub struct Felt {
    value: u64,
}

impl View for Felt {
    type V = nat;

    closed spec fn view(&self) -> nat {
        self.value as nat
    }
}

impl Felt {
    #[verifier::type_invariant]
    spec fn canonical(self) -> bool {
        self.value < MODULUS
    }

    /// The additive identity, as a spec value.
    pub closed spec fn spec_zero() -> Felt {
        Felt { value: 0 }
    }

    /// The multiplicative identity, as a spec value.
    pub closed spec fn spec_one() -> Felt {
        Felt { value: 1 }
    }

    /// Reduces `value` modulo the field's characteristic.
    pub fn new(value: u64) -> (r: Felt)
        ensures
            r@ == value % MODULUS,
    {
        Felt { value: value % MODULUS }
    }

    pub fn zero() -> (r: Felt)
        ensures
            r == Felt::spec_zero(),
            r@ == 0,
    {
        Felt { value: 0 }
    }

    pub fn one() -> (r: Felt)
        ensures
            r == Felt::spec_one(),
            r@ == 1,
    {
        Felt { value: 1 }
    }

    /// The canonical integer representative of this element.
    pub fn as_int(&self) -> (r: u64)
        ensures
            r == self@,
            r < MODULUS,
    {
        proof {
            use_type_invariant(self);
        }
        self.value
    }

    pub fn add(self, rhs: Felt) -> (r: Felt)
        ensures
            r@ == (self@ + rhs@) % (MODULUS as nat),
    {
        proof {
            use_type_invariant(self);
            use_type_invariant(rhs);
        }
        let sum: u64 = self.value + rhs.value;
        if sum >= MODULUS {
            Felt { value: sum - MODULUS }
        } else {
            Felt { value: sum }
        }
    }

    pub fn neg(self) -> (r: Felt)
        ensures
            r@ as int == (MODULUS - self@) % (MODULUS as int),
    {
        proof {
            use_type_invariant(self);
        }
        if self.value == 0 {
            Felt { value: 0 }
        } else {
            Felt { value: MODULUS - self.value }
        }
    }

    pub fn sub(self, rhs: Felt) -> (r: Felt)
        ensures
            r@ as int == (self@ + MODULUS - rhs@) % (MODULUS as int),
    {
        proof {
            use_type_invariant(self);
            use_type_invariant(rhs);
        }
        if self.value >= rhs.value {
            Felt { value: self.value - rhs.value }
        } else {
            Felt { value: MODULUS - (rhs.value - self.value) }
        }
    }

    /// Raises this element to the power `e`.
    pub fn exp(self, e: u64) -> (r: Felt)
        ensures
            r@ == pow(self@ as int, e as nat) % (MODULUS as int),
    {
        let ghost m = MODULUS as int;
        let mut result = Felt::one();
        let mut base = self;
        let mut k: u64 = e;
        proof {
            vstd::arithmetic::power::lemma_pow0(self@ as int);
        }
        while k > 0
            invariant
                result@ < MODULUS,
                (result@ * pow(base@ as int, k as nat)) % m == pow(self@ as int, e as nat) % m,
                m == MODULUS,
            decreases k,
        {
            let ghost r0 = result@ as int;
            let ghost b0 = base@ as int;
            let ghost k0 = k as nat;
            if k % 2 == 1 {
                result = result.mul(base);
            }
            base = base.mul(base);
            k = k / 2;
            proof {
                lemma_exp_step(r0, b0, k0, m);
            }
        }
        proof {
            vstd::arithmetic::power::lemma_pow0(base@ as int);
        }
        result
    }

    /// The multiplicative inverse, `self^(p - 2)` for the characteristic
    /// `p`; zero maps to zero.
    pub fn inv(self) -> (r: Felt)
        ensures
            r@ == pow(self@ as int, (MODULUS - 2) as nat) % (MODULUS as int),
    {
        self.exp(MODULUS - 2)
    }

    pub fn mul(self, rhs: Felt) -> (r: Felt)
        ensures
            r@ == (self@ * rhs@) % (MODULUS as nat),
    {
        proof {
            use_type_invariant(self);
            use_type_invariant(rhs);
            let a = self.value as int;
            let b = rhs.value as int;
            assert(a * b < 0x1_0000_0000_0000_0000_0000_0000_0000_0000) by (nonlinear_arith)
                requires
                    0 <= a < MODULUS,
                    0 <= b < MODULUS,
            ;
        }
        let prod: u128 = (self.value as u128) * (rhs.value as u128);
        Felt { value: (prod % (MODULUS as u128)) as u64 }
    }
}

/// One round of square-and-multiply keeps `r * b^k mod m` fixed: for odd
/// `k` the running product takes one factor `b`, then `b` is squared and
/// `k` halved.
proof fn lemma_exp_step(r: int, b: int, k: nat, m: int)
    requires
        m > 0,
        k > 0,
    ensures
        ({
            let r1 = if k % 2 == 1 {
                (r * b) % m
            } else {
                r
            };
            (r1 * pow((b * b) % m, k / 2)) % m == (r * pow(b, k)) % m
        }),
{
    let h = k / 2;
    let sq = pow(b, 2 * h);
    lemma_pow_mod_noop(b * b, h, m);
    lemma_pow_distributes(b, b, h);
    lemma_pow_adds(b, h, h);
    assert(pow(b * b, h) == sq);
    let p = pow((b * b) % m, h);
    assert(p % m == sq % m);
    if k % 2 == 1 {
        lemma_pow_adds(b, 2 * h, 1);
        lemma_pow1(b);
        assert(k == 2 * h + 1);
        assert(pow(b, k) == sq * b);
        lemma_mul_mod_noop_general(r * b, p, m);
        lemma_mul_mod_noop_general(r * b, sq, m);
        assert(((r * b) % m * p) % m == ((r * b) * (p % m)) % m);
        assert(((r * b) * (p % m)) % m == ((r * b) * (sq % m)) % m);
        assert(((r * b) * (sq % m)) % m == ((r * b) * sq) % m);
        assert((r * b) * sq == r * (sq * b)) by (nonlinear_arith);
    } else {
        assert(k == 2 * h);
        lemma_mul_mod_noop_general(r, p, m);
        lemma_mul_mod_noop_general(r, sq, m);
    }
}

/// Two elements are equal exactly when their canonical values are.
pub proof fn lemma_felt_eq(a: Felt, b: Felt)
    ensures
        (a == b) <==> (a@ == b@),
{
}

/// The named constants hold the values zero and one, and differ.
pub proof fn lemma_felt_constants()
    ensures
        Felt::spec_zero()@ == 0,
        Felt::spec_one()@ == 1,
        Felt::spec_zero() != Felt::spec_one(),
{
}

} // verus!
