//! The source of proofs and signatures that a build relies on.
use vstd::prelude::*;
use crate::amount::Amount;
use crate::builder::{Transaction, is_unsigned};
use crate::orchard_pool::{OrchardBundle, OrchardSpendingKey};
use crate::sapling::{OutputInfo, SpendInfo};

verus! {

/// Produces the proofs and signatures of a transaction. Callers implement it
/// with a real proving system; `MockTxProver` stands in for tests.
pub trait TxProver {
    /// A proof for one shielded spend.
    fn spend_proof(&self, spend: &SpendInfo) -> Result<Vec<u8>, ()>;

    /// A proof for one shielded output.
    fn output_proof(&self, output: &OutputInfo) -> Vec<u8>;

    /// The binding signature of the first shielded bundle over the unsigned
    /// transaction, which is the commitment every signer signs.
    fn binding_sig(&self, value_balance: Amount, unsigned: &Transaction) -> Result<Vec<u8>, ()>
        requires
            is_unsigned(*unsigned),
            unsigned.sapling_bundle matches Some(sb) && sb.value_balance == value_balance,
    ;

    /// The aggregate proof of the second shielded bundle.
    fn orchard_proof(&self, bundle: &OrchardBundle) -> Result<Vec<u8>, ()>
        requires
            bundle.proof is None,
            bundle.signatures is None,
    ;

    /// The spend authorization and binding signatures of the second shielded
    /// bundle over the unsigned transaction.
    fn orchard_signatures(
        &self,
        bundle: &OrchardBundle,
        unsigned: &Transaction,
        keys: &Vec<OrchardSpendingKey>,
    ) -> Result<Vec<u8>, ()>
        requires
            is_unsigned(*unsigned),
            unsigned.orchard_bundle == Some(*bundle),
    ;
}

/// A prover that makes empty proofs and cannot make a binding signature.
pub struct MockTxProver;

impl TxProver for MockTxProver {
    fn spend_proof(&self, spend: &SpendInfo) -> Result<Vec<u8>, ()> {
        Ok(Vec::new())
    }

    fn output_proof(&self, output: &OutputInfo) -> Vec<u8> {
        Vec::new()
    }

    fn binding_sig(&self, value_balance: Amount, unsigned: &Transaction) -> Result<Vec<u8>, ()> {
        Err(())
    }

    fn orchard_proof(&self, bundle: &OrchardBundle) -> Result<Vec<u8>, ()> {
        Ok(Vec::new())
    }

    fn orchard_signatures(
        &self,
        bundle: &OrchardBundle,
        unsigned: &Transaction,
        keys: &Vec<OrchardSpendingKey>,
    ) -> Result<Vec<u8>, ()> {
        Ok(Vec::new())
    }
}

} // verus!
