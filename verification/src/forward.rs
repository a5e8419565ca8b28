use vstd::prelude::*;

use vstd::arithmetic::div_mod::{lemma_div_is_ordered, lemma_div_multiples_vanish};
use vstd::arithmetic::mul::{lemma_mul_inequality, lemma_mul_is_commutative};

use crate::state::{Coin, Fraction};

verus! {

/// The coin obtained by taking the given part of one coin: the
/// denomination is kept and the amount is multiplied by the part,
/// truncated to the base unit.
pub open spec fn forwarded_coin(c: Coin, part: Fraction) -> Coin {
    Coin { denom: c.denom, amount: ((c.amount * part.numerator) / (part.denominator as int)) as u128 }
}

/// The funds forwarded out of a balance: every coin of the balance, in
/// order, with the part taken of its amount.  Denominations the balance
/// does not hold do not appear, and a zero result is kept, not filtered.
pub open spec fn forwarded_funds(balance: Seq<Coin>, part: Fraction) -> Seq<Coin> {
    balance.map_values(|c: Coin| forwarded_coin(c, part))
}

/// Taking a well-formed part of an amount never enlarges it, so the
/// truncated product always fits the amount's own width.
pub proof fn lemma_part_fits(amount: u128, part: Fraction)
    requires
        part.wf(),
    ensures
        (amount * part.numerator) / (part.denominator as int) <= amount,
{
    lemma_mul_inequality(part.numerator as int, part.denominator as int, amount as int);
    lemma_mul_is_commutative(part.numerator as int, amount as int);
    lemma_mul_is_commutative(part.denominator as int, amount as int);
    lemma_div_is_ordered(
        amount as int * part.numerator as int,
        amount as int * part.denominator as int,
        part.denominator as int,
    );
    lemma_div_multiples_vanish(amount as int, part.denominator as int);
}

/// Relies on `cosmwasm_std::Uint128::multiply_ratio`: it returns the
/// full-width product `amount * numerator` divided by `denominator`,
/// floored.  It panics only on a zero denominator or on a quotient above
/// `u128::MAX`; the `requires` rules both out.
#[verifier::external_body]
fn mul_ratio(amount: u128, numerator: u128, denominator: u128) -> (r: u128)
    requires
        0 < denominator,
        (amount * numerator) / (denominator as int) <= u128::MAX,
    ensures
        r == (amount * numerator) / (denominator as int),
{
    cosmwasm_std::Uint128::new(amount).multiply_ratio(numerator, denominator).u128()
}

/// Computes the funds to attach to a forward event: the given part of
/// every coin of the balance, truncating each product.
pub fn compute_forward(balance: &Vec<Coin>, part: Fraction) -> (r: Vec<Coin>)
    requires
        part.wf(),
    ensures
        r@ == forwarded_funds(balance@, part),
{
    let mut r: Vec<Coin> = Vec::new();
    let mut i: usize = 0;
    while i < balance.len()
        invariant
            part.wf(),
            i <= balance.len(),
            r@ == forwarded_funds(balance@.subrange(0, i as int), part),
        decreases balance.len() - i,
    {
        let c = &balance[i];
        proof {
            lemma_part_fits(c.amount, part);
        }
        let amount = mul_ratio(c.amount, part.numerator, part.denominator);
        r.push(Coin { denom: c.denom.clone(), amount });
        i += 1;
        proof {
            assert(r@ =~= forwarded_funds(balance@.subrange(0, i as int), part));
        }
    }
    proof {
        assert(balance@.subrange(0, balance@.len() as int) =~= balance@);
    }
    r
}

} // verus!
