//! Elements of the prime field of order
//! p = 28948022309329048855892746252171976963363056481941647379679742748393362948097
//! (the Pallas scalar field, which is the Vesta base field), held as four canonical
//! little-endian limbs.
use vstd::prelude::*;
use vstd::arithmetic::power::pow;
use vstd::arithmetic::div_mod::lemma_fundamental_div_mod_converse;
use ff::Field;
use ff::PrimeField;

verus! {

/// The field modulus `p`.
/// p = 28948022309329048855892746252171976963363056481941647379679742748393362948097
pub open spec fn modulus() -> int {
    0x8c46eb2100000001 + limb_base() * (0x224698fc0994a8dd + limb_base() * limb_base()
        * 0x4000000000000000)
}

pub open spec fn limb_base() -> int {
    0x10000000000000000
}

/// Addition in the field.
pub open spec fn fadd(a: int, b: int) -> int {
    (a + b) % modulus()
}

/// Raising to a power in the field.
pub open spec fn fpow(a: int, e: nat) -> int {
    pow(a, e) % modulus()
}

/// The residue of a signed 32-bit integer.
pub open spec fn lift_i32(v: i32) -> int {
    if v >= 0 {
        v as int
    } else {
        modulus() + v
    }
}

/// The integer with little-endian base-2^64 digits `l0, l1, l2, l3`.
pub open spec fn limbs_value(l0: u64, l1: u64, l2: u64, l3: u64) -> int {
    l0 + limb_base() * (l1 + limb_base() * (l2 + limb_base() * l3))
}

/// A field element: the integer `l0 + l1·2^64 + l2·2^128 + l3·2^192`, always below `p`, so
/// that equal limbs and equal residues are the same thing.
#[derive(Clone, Copy, Debug, PartialEq, Eq, Structural)]
pub struct Fr {
    l0: u64,
    l1: u64,
    l2: u64,
    l3: u64,
}

/// The element with limbs `l0, l1, l2, l3`.
pub closed spec fn fr_limbs(l0: u64, l1: u64, l2: u64, l3: u64) -> Fr {
    Fr { l0, l1, l2, l3 }
}

/// The element whose limbs are the base-2^64 digits of `v`, for `0 <= v < 2^256`.
pub closed spec fn fr_of(v: int) -> Fr {
    Fr {
        l0: (v % limb_base()) as u64,
        l1: ((v / limb_base()) % limb_base()) as u64,
        l2: ((v / limb_base() / limb_base()) % limb_base()) as u64,
        l3: (v / limb_base() / limb_base() / limb_base()) as u64,
    }
}

impl Fr {
    pub closed spec fn value(self) -> int {
        limbs_value(self.l0, self.l1, self.l2, self.l3)
    }

    /// The element is the canonical representative of its class.
    pub open spec fn canonical(self) -> bool {
        self.value() < modulus()
    }

    #[verifier::type_invariant]
    closed spec fn inv(self) -> bool {
        self.canonical()
    }

    /// The element with canonical limbs `l0, l1, l2, l3`.
    pub(crate) fn from_canonical_limbs(l0: u64, l1: u64, l2: u64, l3: u64) -> (r: Fr)
        requires
            limbs_value(l0, l1, l2, l3) < modulus(),
        ensures
            r == fr_limbs(l0, l1, l2, l3),
            r.value() == limbs_value(l0, l1, l2, l3),
    {
        Fr { l0, l1, l2, l3 }
    }

    /// The limbs, least significant first.
    pub fn limbs(&self) -> (r: [u64; 4])
        ensures
            limbs_value(r@[0], r@[1], r@[2], r@[3]) == self.value(),
    {
        [self.l0, self.l1, self.l2, self.l3]
    }

    /// The value lies in `0 .. p`.
    pub proof fn lemma_value_range(x: Fr)
        ensures
            0 <= x.value(),
    {
        lemma_fr_of_value(x);
    }

    /// The additive identity.
    pub fn zero() -> (r: Fr)
        ensures
            r.value() == 0,
            r.canonical(),
    {
        Fr { l0: 0, l1: 0, l2: 0, l3: 0 }
    }

    /// Embeds an unsigned 128-bit integer.
    pub fn from_u128(n: u128) -> (r: Fr)
        ensures
            r.value() == n,
            r.canonical(),
    {
        let lo = (n % 0x10000000000000000u128) as u64;
        let hi = (n / 0x10000000000000000u128) as u64;
        let r = Fr { l0: lo, l1: hi, l2: 0, l3: 0 };
        assert(n == lo + limb_base() * hi);
        r
    }

    /// The residue of a signed 32-bit integer: `v` itself when it is not negative, else `p + v`.
    pub fn from_i32(v: i32) -> (r: Fr)
        ensures
            r.value() == lift_i32(v),
            r.canonical(),
    {
        if v >= 0 {
            Fr { l0: v as u64, l1: 0, l2: 0, l3: 0 }
        } else {
            let m: u64 = (0 - (v as i64)) as u64;
            Fr { l0: 0x8c46eb2100000001u64 - m, l1: 0x224698fc0994a8ddu64, l2: 0, l3: 0x4000000000000000u64 }
        }
    }

    /// Parses a decimal numeral: digits only, no sign, no leading zero but in `"0"` itself.
    pub fn from_str_vartime(s: &str) -> (r: Option<Fr>)
        ensures
            r is Some <==> decimal_numeral(s@),
            r is Some ==> r->Some_0.value() == decimal_value(s@) % modulus(),
            r is Some ==> r->Some_0.canonical(),
    {
        parse_decimal(s)
    }
}

pub open spec fn is_digit(c: char) -> bool {
    '0' <= c && c <= '9'
}

/// `s` is a decimal numeral as the field's parser takes it.
pub open spec fn decimal_numeral(s: Seq<char>) -> bool {
    &&& s.len() > 0
    &&& forall|i: int| 0 <= i < s.len() ==> is_digit(#[trigger] s[i])
    &&& (s.len() == 1 || s[0] != '0')
}

/// The number that a string of decimal digits denotes.
pub open spec fn decimal_value(s: Seq<char>) -> int
    decreases s.len(),
{
    if s.len() == 0 {
        0
    } else {
        10 * decimal_value(s.drop_last()) + (s.last() as int - '0' as int)
    }
}

/// Limbs and values determine each other.
pub proof fn lemma_fr_of_value(x: Fr)
    ensures
        fr_of(x.value()) == x,
        0 <= x.value(),
{
    let b = limb_base();
    let v = x.value();
    let q1 = x.l1 + b * (x.l2 + b * x.l3);
    let q2 = x.l2 + b * x.l3;
    assert(0 <= q2) by (nonlinear_arith)
        requires q2 == x.l2 + b * x.l3, 0 <= x.l2, 0 <= x.l3, b > 0;
    assert(0 <= q1) by (nonlinear_arith)
        requires q1 == x.l1 + b * q2, 0 <= x.l1, 0 <= q2, b > 0;
    assert(0 <= v) by (nonlinear_arith)
        requires v == x.l0 + b * q1, 0 <= x.l0, 0 <= q1, b > 0;
    lemma_fundamental_div_mod_converse(v, b, q1, x.l0 as int);
    lemma_fundamental_div_mod_converse(q1, b, q2, x.l1 as int);
    lemma_fundamental_div_mod_converse(q2, b, x.l3 as int, x.l2 as int);
}

/// Relies on pasta_curves's `Fq` (the field of modulus `p`): `from_raw` takes
/// limbs to the congruent element, `+` adds in the field, `to_repr` gives the canonical
/// little-endian bytes.
#[verifier::external_body]
pub(crate) fn fr_add(a: Fr, b: Fr) -> (r: Fr)
    ensures
        r.value() == fadd(a.value(), b.value()),
{
    let x = pasta_curves::Fq::from_raw([a.l0, a.l1, a.l2, a.l3])
        + pasta_curves::Fq::from_raw([b.l0, b.l1, b.l2, b.l3]);
    let bytes = x.to_repr();
    Fr {
        l0: u64::from_le_bytes(bytes[0..8].try_into().unwrap()),
        l1: u64::from_le_bytes(bytes[8..16].try_into().unwrap()),
        l2: u64::from_le_bytes(bytes[16..24].try_into().unwrap()),
        l3: u64::from_le_bytes(bytes[24..32].try_into().unwrap()),
    }
}

/// Relies on ff's `Field::pow` on pasta_curves's `Fq`: `a` raised to `e` in the field,
/// brought back to canonical limbs through `to_repr`.
#[verifier::external_body]
pub(crate) fn fr_pow(a: Fr, e: u64) -> (r: Fr)
    ensures
        r.value() == fpow(a.value(), e as nat),
{
    let x = pasta_curves::Fq::from_raw([a.l0, a.l1, a.l2, a.l3]).pow([e]);
    let bytes = x.to_repr();
    Fr {
        l0: u64::from_le_bytes(bytes[0..8].try_into().unwrap()),
        l1: u64::from_le_bytes(bytes[8..16].try_into().unwrap()),
        l2: u64::from_le_bytes(bytes[16..24].try_into().unwrap()),
        l3: u64::from_le_bytes(bytes[24..32].try_into().unwrap()),
    }
}

/// Relies on ff's `PrimeField::from_str_vartime` on pasta_curves's `Fq`: `None` unless `s`
/// is a decimal numeral without a leading zero, else its residue, in canonical limbs.
#[verifier::external_body]
fn parse_decimal(s: &str) -> (r: Option<Fr>)
    ensures
        r is Some <==> decimal_numeral(s@),
        r is Some ==> r->Some_0.value() == decimal_value(s@) % modulus(),
        r is Some ==> r->Some_0.canonical(),
{
    match pasta_curves::Fq::from_str_vartime(s) {
        Some(x) => {
            let bytes = x.to_repr();
            Some(Fr {
                l0: u64::from_le_bytes(bytes[0..8].try_into().unwrap()),
                l1: u64::from_le_bytes(bytes[8..16].try_into().unwrap()),
                l2: u64::from_le_bytes(bytes[16..24].try_into().unwrap()),
                l3: u64::from_le_bytes(bytes[24..32].try_into().unwrap()),
            })
        },
        None => None,
    }
}

} // verus!
