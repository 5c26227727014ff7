//! Storage identifiers of key material: a structured `(epoch, role)` pair in
//! process, rendered as the bytes of `"{epoch}-{role suffix}"` at the storage
//! boundary.
use vstd::arithmetic::div_mod::lemma_fundamental_div_mod;
use vstd::prelude::*;

verus! {

/// The three parts of the key material of one epoch.
#[derive(Clone, Copy, Debug, PartialEq, Eq, Structural)]
pub enum KeyRole {
    Params,
    SigningKey,
    PublicKey,
}

/// ASCII code of the digit zero.
pub const DIGIT_ZERO: u8 = 48;

/// The decimal digits of `n`, most significant first, without leading zeros.
pub open spec fn decimal(n: nat) -> Seq<u8>
    decreases n,
{
    if n < 10 {
        seq![(DIGIT_ZERO + n) as u8]
    } else {
        decimal(n / 10).push((DIGIT_ZERO + n % 10) as u8)
    }
}

/// The suffix that follows the epoch in a stored identifier, as ASCII:
/// `-key_params`, `-signing_key` or `-public_key`.
pub open spec fn role_suffix(role: KeyRole) -> Seq<u8> {
    match role {
        KeyRole::Params => seq![45u8, 107, 101, 121, 95, 112, 97, 114, 97, 109, 115],
        KeyRole::SigningKey => seq![45u8, 115, 105, 103, 110, 105, 110, 103, 95, 107, 101, 121],
        KeyRole::PublicKey => seq![45u8, 112, 117, 98, 108, 105, 99, 95, 107, 101, 121],
    }
}

/// The stored identifier of one part of an epoch's key material.
pub open spec fn key_id_of(epoch: u64, role: KeyRole) -> Seq<u8> {
    decimal(epoch as nat) + role_suffix(role)
}

/// A decimal rendering is nonempty and made of ASCII digits only.
pub proof fn lemma_decimal_digits(n: nat)
    ensures
        decimal(n).len() >= 1,
        forall|i: int| 0 <= i < decimal(n).len() ==> DIGIT_ZERO <= #[trigger] decimal(n)[i] < DIGIT_ZERO + 10,
    decreases n,
{
    if n >= 10 {
        lemma_decimal_digits(n / 10);
    }
}

/// Distinct numbers have distinct decimal renderings.
pub proof fn lemma_decimal_injective(a: nat, b: nat)
    requires
        decimal(a) == decimal(b),
    ensures
        a == b,
    decreases a,
{
    lemma_decimal_digits(a);
    lemma_decimal_digits(b);
    if a >= 10 && b >= 10 {
        assert(decimal(a) == decimal(a / 10).push((DIGIT_ZERO + a % 10) as u8));
        assert(decimal(b) == decimal(b / 10).push((DIGIT_ZERO + b % 10) as u8));
        assert(decimal(a).last() == (DIGIT_ZERO + a % 10) as u8);
        assert(decimal(b).last() == (DIGIT_ZERO + b % 10) as u8);
        assert(decimal(a).drop_last() =~= decimal(a / 10));
        assert(decimal(b).drop_last() =~= decimal(b / 10));
        lemma_decimal_injective(a / 10, b / 10);
        lemma_fundamental_div_mod(a as int, 10);
        lemma_fundamental_div_mod(b as int, 10);
    } else if a < 10 && b < 10 {
        assert(decimal(a)[0] == (DIGIT_ZERO + a) as u8);
        assert(decimal(b)[0] == (DIGIT_ZERO + b) as u8);
        assert(((DIGIT_ZERO + a) as u8) as nat == DIGIT_ZERO + a);
        assert(((DIGIT_ZERO + b) as u8) as nat == DIGIT_ZERO + b);
    } else if a < 10 {
        assert(decimal(b) == decimal(b / 10).push((DIGIT_ZERO + b % 10) as u8));
        assert(decimal(a).len() != decimal(b).len());
    } else {
        assert(decimal(a) == decimal(a / 10).push((DIGIT_ZERO + a % 10) as u8));
        assert(decimal(a).len() != decimal(b).len());
    }
}

/// Stored identifiers never collide: two `(epoch, role)` pairs with the same
/// identifier are the same pair.
pub proof fn lemma_key_id_injective(e1: u64, r1: KeyRole, e2: u64, r2: KeyRole)
    requires
        key_id_of(e1, r1) == key_id_of(e2, r2),
    ensures
        e1 == e2,
        r1 == r2,
{
    let d1 = decimal(e1 as nat);
    let d2 = decimal(e2 as nat);
    let id = key_id_of(e1, r1);
    lemma_decimal_digits(e1 as nat);
    lemma_decimal_digits(e2 as nat);
    if d1.len() < d2.len() {
        assert(id[d1.len() as int] == role_suffix(r1)[0]);
        assert(key_id_of(e2, r2)[d1.len() as int] == d2[d1.len() as int]);
    } else if d2.len() < d1.len() {
        assert(key_id_of(e2, r2)[d2.len() as int] == role_suffix(r2)[0]);
        assert(id[d2.len() as int] == d1[d2.len() as int]);
    } else {
        assert(d1 =~= id.take(d1.len() as int));
        assert(d2 =~= key_id_of(e2, r2).take(d2.len() as int));
        lemma_decimal_injective(e1 as nat, e2 as nat);
        assert(role_suffix(r1) =~= id.skip(d1.len() as int));
        assert(role_suffix(r2) =~= key_id_of(e2, r2).skip(d2.len() as int));
        if r1 != r2 {
            assert(role_suffix(r1) != role_suffix(r2)) by {
                assert(role_suffix(r1).len() != role_suffix(r2).len() || role_suffix(r1)[1] != role_suffix(r2)[1]);
            }
        }
    }
}

/// The decimal rendering of `n` as ASCII bytes.
pub fn decimal_bytes(n: u64) -> (r: Vec<u8>)
    ensures
        r@ == decimal(n as nat),
{
    let mut digits: Vec<u8> = Vec::new();
    let mut rest: u64 = n;
    while rest >= 10
        invariant
            decimal(n as nat) == decimal(rest as nat) + digits@,
        decreases rest,
    {
        let digit: u8 = (rest % 10) as u8;
        proof {
            assert(decimal(rest as nat) == decimal((rest / 10) as nat).push((DIGIT_ZERO + digit) as u8));
            assert(decimal(rest as nat) + digits@ =~= decimal((rest / 10) as nat) + seq![(
            DIGIT_ZERO + digit) as u8].add(digits@));
        }
        digits.insert(0, DIGIT_ZERO + digit);
        rest = rest / 10;
    }
    let last: u8 = rest as u8;
    digits.insert(0, DIGIT_ZERO + last);
    proof {
        assert(decimal(n as nat) =~= digits@);
    }
    digits
}

/// The ASCII suffix of a role.
pub fn role_suffix_bytes(role: KeyRole) -> (r: Vec<u8>)
    ensures
        r@ == role_suffix(role),
{
    let r = match role {
        KeyRole::Params => vec![45u8, 107, 101, 121, 95, 112, 97, 114, 97, 109, 115],
        KeyRole::SigningKey => vec![45u8, 115, 105, 103, 110, 105, 110, 103, 95, 107, 101, 121],
        KeyRole::PublicKey => vec![45u8, 112, 117, 98, 108, 105, 99, 95, 107, 101, 121],
    };
    assert(r@ =~= role_suffix(role));
    r
}

/// The stored identifier of one part of an epoch's key material,
/// e.g. `600-key_params`.
pub fn key_id(epoch: u64, role: KeyRole) -> (r: Vec<u8>)
    ensures
        r@ == key_id_of(epoch, role),
{
    let mut id = decimal_bytes(epoch);
    let mut suffix = role_suffix_bytes(role);
    id.append(&mut suffix);
    id
}

} // verus!
