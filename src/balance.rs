//! Unspent outputs and what they add up to.
use vstd::prelude::*;

use crate::error::ServiceError;

verus! {

/// The transaction output an unspent output refers to.
#[derive(Clone, Debug, PartialEq, Eq)]
pub struct Outpoint {
    pub txid: Vec<u8>,
    pub vout: u32,
}

/// An unspent transaction output, as the chain-data service reports it.
#[derive(Clone, Debug, PartialEq, Eq)]
pub struct Utxo {
    pub outpoint: Outpoint,
    /// Its value in satoshis.
    pub value: u64,
    /// The height of the block that confirmed it.
    pub height: u32,
}

/// The sum of the values of a sequence of outputs.
pub open spec fn utxo_total(utxos: Seq<Utxo>) -> int
    decreases utxos.len(),
{
    if utxos.len() == 0 {
        0
    } else {
        utxo_total(utxos.drop_last()) + utxos.last().value
    }
}

/// The balance and the number of outputs of an output set.
pub open spec fn aggregate_outcome(utxos: Seq<Utxo>) -> Result<(u64, u32), ServiceError> {
    if utxos.len() > u32::MAX {
        Err(ServiceError::CountOverflow)
    } else if utxo_total(utxos) > u64::MAX {
        Err(ServiceError::AmountOverflow)
    } else {
        Ok((utxo_total(utxos) as u64, utxos.len() as u32))
    }
}

/// The number of outputs of an output set.
pub open spec fn count_outcome(utxos: Seq<Utxo>) -> Result<u32, ServiceError> {
    if utxos.len() > u32::MAX {
        Err(ServiceError::CountOverflow)
    } else {
        Ok(utxos.len() as u32)
    }
}

/// The number of outputs, or `CountOverflow` where it does not fit in a `u32`.
pub fn count_utxos(utxos: &Vec<Utxo>) -> (r: Result<u32, ServiceError>)
    ensures
        r == count_outcome(utxos@),
{
    if utxos.len() > u32::MAX as usize {
        Err(ServiceError::CountOverflow)
    } else {
        Ok(utxos.len() as u32)
    }
}

/// The total value in satoshis and the number of outputs.
///
/// The sum is checked: a total beyond `u64::MAX` gives `AmountOverflow`, and
/// more outputs than a `u32` counts give `CountOverflow` (checked first).
pub fn aggregate(utxos: &Vec<Utxo>) -> (r: Result<(u64, u32), ServiceError>)
    ensures
        r == aggregate_outcome(utxos@),
        r matches Ok((balance, count)) ==> balance == utxo_total(utxos@) && count == utxos@.len(),
{
    proof {
        lemma_total_nonnegative(utxos@);
    }
    let count = count_utxos(utxos)?;
    let mut total: u64 = 0;
    let mut i: usize = 0;
    while i < utxos.len()
        invariant
            i <= utxos@.len(),
            utxos@.len() <= u32::MAX,
            total == utxo_total(utxos@.subrange(0, i as int)),
        decreases utxos@.len() - i,
    {
        let value = utxos[i].value;
        assert(utxos@.subrange(0, i + 1).drop_last() == utxos@.subrange(0, i as int));
        assert(utxo_total(utxos@.subrange(0, i + 1)) == total + value);
        match total.checked_add(value) {
            Some(t) => total = t,
            None => {
                proof {
                    lemma_total_of_prefix_bounds(utxos@, i + 1);
                }
                return Err(ServiceError::AmountOverflow);
            },
        }
        i += 1;
    }
    assert(utxos@.subrange(0, i as int) == utxos@);
    Ok((total, count))
}

/// No total is negative.
proof fn lemma_total_nonnegative(utxos: Seq<Utxo>)
    ensures
        utxo_total(utxos) >= 0,
    decreases utxos.len(),
{
    if utxos.len() > 0 {
        lemma_total_nonnegative(utxos.drop_last());
    }
}

/// The total of a sequence is at least the total of any of its prefixes.
proof fn lemma_total_of_prefix_bounds(utxos: Seq<Utxo>, n: int)
    requires
        0 <= n <= utxos.len(),
    ensures
        utxo_total(utxos.subrange(0, n)) <= utxo_total(utxos),
    decreases utxos.len() - n,
{
    if n < utxos.len() {
        lemma_total_of_prefix_bounds(utxos, n + 1);
        assert(utxos.subrange(0, n + 1).drop_last() == utxos.subrange(0, n));
    } else {
        assert(utxos.subrange(0, n) == utxos);
    }
}

} // verus!
