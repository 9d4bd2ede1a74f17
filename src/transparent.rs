//! The transparent pool: outputs to public addresses.
use vstd::prelude::*;
use crate::amount::{Amount, amounts_view, checked_sum, sum_amounts};

verus! {

/// Errors of the transparent pool.
#[derive(Clone, Copy, Debug, PartialEq, Eq)]
pub enum TransparentError {
    InvalidAmount,
}

/// A transparent address: the hash of a public key or of a script.
#[derive(Clone, Copy, Debug, PartialEq, Eq)]
pub enum TransparentAddress {
    PublicKey([u8; 20]),
    Script([u8; 20]),
}

/// A transparent output.
#[derive(Clone, Copy, Debug, PartialEq, Eq)]
pub struct TxOut {
    pub address: TransparentAddress,
    pub value: Amount,
}

/// The transparent part of a transaction.
#[derive(Clone, Debug, PartialEq, Eq)]
pub struct TransparentBundle {
    pub vout: Vec<TxOut>,
}

/// Accumulates the transparent outputs of a transaction.
pub struct TransparentBuilder {
    pub vout: Vec<TxOut>,
}

/// The values of a sequence of outputs.
pub open spec fn out_values(v: Seq<TxOut>) -> Seq<Amount> {
    v.map_values(|o: TxOut| o.value)
}

/// The balance of the pool (inputs less outputs), if every partial sum is in range.
pub open spec fn transparent_balance(vout: Seq<TxOut>) -> Option<int> {
    match checked_sum(amounts_view(out_values(vout))) {
        Some(s) => Some(-s),
        None => None,
    }
}

impl TransparentBuilder {
    pub open spec fn wf(&self) -> bool {
        forall|i: int| 0 <= i < self.vout@.len() ==> (#[trigger] self.vout@[i]).value.wf()
            && self.vout@[i].value.value() >= 0
    }

    pub fn empty() -> (r: TransparentBuilder)
        ensures
            r.wf(),
            r.vout@.len() == 0,
    {
        TransparentBuilder { vout: Vec::new() }
    }

    /// Adds an output; a negative value is refused.
    pub fn add_output(&mut self, to: &TransparentAddress, value: Amount) -> (r: Result<(), TransparentError>)
        requires
            old(self).wf(),
            value.wf(),
        ensures
            final(self).wf(),
            r is Err <==> value.value() < 0,
            r is Err ==> r == Err::<(), TransparentError>(TransparentError::InvalidAmount)
                && final(self).vout@ == old(self).vout@,
            r is Ok ==> final(self).vout@ == old(self).vout@.push(TxOut { address: *to, value }),
    {
        if value.is_negative() {
            return Err(TransparentError::InvalidAmount);
        }
        self.vout.push(TxOut { address: *to, value });
        Ok(())
    }

    /// Inputs less outputs, or `None` where a partial sum leaves the money range.
    pub fn value_balance(&self) -> (r: Option<Amount>)
        ensures
            r is Some <==> transparent_balance(self.vout@) is Some,
            r matches Some(a) ==> a.wf() && transparent_balance(self.vout@) == Some(a.value()),
    {
        let mut vals: Vec<Amount> = Vec::new();
        let mut i: usize = 0;
        while i < self.vout.len()
            invariant
                i <= self.vout.len(),
                vals@ == out_values(self.vout@.subrange(0, i as int)),
            decreases self.vout.len() - i,
        {
            vals.push(self.vout[i].value);
            proof {
                assert(out_values(self.vout@.subrange(0, i as int + 1)) =~= out_values(
                    self.vout@.subrange(0, i as int),
                ).push(self.vout@[i as int].value));
            }
            i = i + 1;
        }
        assert(self.vout@.subrange(0, self.vout.len() as int) =~= self.vout@);
        match sum_amounts(&vals) {
            Some(s) => {
                let z = Amount::zero();
                z.checked_sub(&s)
            },
            None => None,
        }
    }

    /// The bundle of the outputs, absent where there are none.
    pub fn build(self) -> (r: Option<TransparentBundle>)
        ensures
            r is None <==> self.vout@.len() == 0,
            r matches Some(b) ==> b.vout@ == self.vout@,
    {
        if self.vout.len() == 0 {
            None
        } else {
            Some(TransparentBundle { vout: self.vout })
        }
    }
}

} // verus!
