use tx_builder::amount::{sum_amounts, Amount, DEFAULT_FEE_ZAT, MAX_MONEY};
use tx_builder::builder::{authorize, Builder, Error, Transaction};
use tx_builder::consensus::{BranchId, Parameters, TxVersion, DEFAULT_TX_EXPIRY_DELTA};
use tx_builder::orchard_pool::{
    OrchardAddress, OrchardBundle, OrchardError, OrchardNote, OrchardSpendingKey, ANCHOR_MISMATCH,
};
use tx_builder::progress::Progress;
use tx_builder::prover::{MockTxProver, TxProver};
use tx_builder::sapling::{
    MemoBytes, Note, OutgoingViewingKey, OutputInfo, PaymentAddress, SaplingError, SpendInfo,
};
use tx_builder::transparent::TransparentAddress;

fn ovk() -> OutgoingViewingKey {
    OutgoingViewingKey([1; 32])
}

fn to() -> PaymentAddress {
    PaymentAddress { diversifier: [2; 11], pk_d: [3; 32] }
}

fn other_to() -> PaymentAddress {
    PaymentAddress { diversifier: [4; 11], pk_d: [5; 32] }
}

fn note(value: u64) -> Note {
    Note { recipient: to(), value }
}

fn sapling_height() -> u32 {
    Parameters::test_network().sapling.unwrap()
}

fn nu5_height() -> u32 {
    Parameters::test_network().nu5.unwrap()
}

const ANCHOR: [u8; 32] = [7; 32];
const OTHER_ANCHOR: [u8; 32] = [8; 32];

fn orchard_note(value: u64) -> OrchardNote {
    OrchardNote { recipient: OrchardAddress([9; 43]), value }
}

struct OkProver;

impl TxProver for OkProver {
    fn spend_proof(&self, _spend: &SpendInfo) -> Result<Vec<u8>, ()> {
        Ok(vec![1])
    }
    fn output_proof(&self, _output: &OutputInfo) -> Vec<u8> {
        vec![2]
    }
    fn binding_sig(&self, _vb: Amount, _unsigned: &Transaction) -> Result<Vec<u8>, ()> {
        Ok(vec![3])
    }
    fn orchard_proof(&self, _bundle: &OrchardBundle) -> Result<Vec<u8>, ()> {
        Ok(vec![4])
    }
    fn orchard_signatures(
        &self,
        _bundle: &OrchardBundle,
        _unsigned: &Transaction,
        _keys: &Vec<OrchardSpendingKey>,
    ) -> Result<Vec<u8>, ()> {
        Ok(vec![5])
    }
}

struct NoOrchardProofProver;

impl TxProver for NoOrchardProofProver {
    fn spend_proof(&self, _spend: &SpendInfo) -> Result<Vec<u8>, ()> {
        Ok(vec![1])
    }
    fn output_proof(&self, _output: &OutputInfo) -> Vec<u8> {
        vec![2]
    }
    fn binding_sig(&self, _vb: Amount, _unsigned: &Transaction) -> Result<Vec<u8>, ()> {
        Ok(vec![3])
    }
    fn orchard_proof(&self, _bundle: &OrchardBundle) -> Result<Vec<u8>, ()> {
        Err(())
    }
    fn orchard_signatures(
        &self,
        _bundle: &OrchardBundle,
        _unsigned: &Transaction,
        _keys: &Vec<OrchardSpendingKey>,
    ) -> Result<Vec<u8>, ()> {
        Ok(vec![5])
    }
}

struct NoSpendProofProver;

impl TxProver for NoSpendProofProver {
    fn spend_proof(&self, _spend: &SpendInfo) -> Result<Vec<u8>, ()> {
        Err(())
    }
    fn output_proof(&self, _output: &OutputInfo) -> Vec<u8> {
        vec![2]
    }
    fn binding_sig(&self, _vb: Amount, _unsigned: &Transaction) -> Result<Vec<u8>, ()> {
        Ok(vec![3])
    }
    fn orchard_proof(&self, _bundle: &OrchardBundle) -> Result<Vec<u8>, ()> {
        Ok(vec![4])
    }
    fn orchard_signatures(
        &self,
        _bundle: &OrchardBundle,
        _unsigned: &Transaction,
        _keys: &Vec<OrchardSpendingKey>,
    ) -> Result<Vec<u8>, ()> {
        Ok(vec![5])
    }
}

fn tx_balance(tx: &Transaction) -> i64 {
    let t: i64 = match &tx.transparent_bundle {
        Some(b) => -b.vout.iter().map(|o| o.value.0).sum::<i64>(),
        None => 0,
    };
    let s = tx.sapling_bundle.as_ref().map(|b| b.value_balance.0).unwrap_or(0);
    let o = tx.orchard_bundle.as_ref().map(|b| b.value_balance.0).unwrap_or(0);
    t + s + o
}

#[test]
fn progress_accessors() {
    let p = Progress::new(3, Some(7));
    assert_eq!(p.cur(), 3);
    assert_eq!(p.end(), Some(7));
    assert_eq!(Progress::new(0, None).end(), None);
}

#[test]
fn amount_range() {
    assert!(Amount::from_i64(MAX_MONEY).is_ok());
    assert!(Amount::from_i64(-MAX_MONEY).is_ok());
    assert!(Amount::from_i64(MAX_MONEY + 1).is_err());
    assert!(Amount::from_i64(-MAX_MONEY - 1).is_err());
    assert!(Amount::from_u64(MAX_MONEY as u64 + 1).is_err());
    let max = Amount::from_i64(MAX_MONEY).unwrap();
    let one = Amount::from_i64(1).unwrap();
    assert_eq!(max.checked_add(&one), None);
    assert_eq!(one.checked_add(&one), Some(Amount(2)));
    assert_eq!(Amount::zero().checked_sub(&one), Some(Amount(-1)));
    assert_eq!(sum_amounts(&vec![Amount(5), Amount(-2), Amount(10)]), Some(Amount(13)));
    assert_eq!(sum_amounts(&vec![max, one, Amount(-1)]), None);
    assert_eq!(sum_amounts(&vec![]), Some(Amount(0)));
}

#[test]
fn branch_and_version_follow_height() {
    let p = Parameters::test_network();
    assert_eq!(BranchId::for_height(&p, 0), BranchId::Sprout);
    assert_eq!(BranchId::for_height(&p, 207_500), BranchId::Overwinter);
    assert_eq!(BranchId::for_height(&p, 279_999), BranchId::Overwinter);
    assert_eq!(BranchId::for_height(&p, 280_000), BranchId::Sapling);
    assert_eq!(BranchId::for_height(&p, 1_028_500), BranchId::Canopy);
    assert_eq!(BranchId::for_height(&p, 1_599_200), BranchId::Nu5);
    assert_eq!(TxVersion::suggested_for_branch(BranchId::Sprout), TxVersion::Sprout(2));
    assert_eq!(TxVersion::suggested_for_branch(BranchId::Heartwood), TxVersion::Sapling);
    assert_eq!(TxVersion::suggested_for_branch(BranchId::Nu5), TxVersion::Zip225);
}

#[test]
fn new_builder_defaults() {
    let b = Builder::new(Parameters::test_network(), 300_000);
    assert_eq!(b.expiry_height, 300_000 + DEFAULT_TX_EXPIRY_DELTA);
    assert_eq!(b.expiry_height, 300_020);
    assert_eq!(b.fee, Amount(DEFAULT_FEE_ZAT));
    assert_eq!(b.fee, Amount(1000));
    assert!(b.orchard_builder.is_none());
}

#[test]
fn transparent_only_zero_fee_builds_without_shielded_bundle() {
    let mut b = Builder::new(Parameters::test_network(), sapling_height());
    b.set_custom_fee(Amount::zero());
    b.add_transparent_output(&TransparentAddress::PublicKey([0; 20]), Amount::zero()).unwrap();
    let (tx, meta) = b.build(&OkProver, &mut Vec::new()).unwrap();
    assert!(tx.sapling_bundle.is_none());
    assert!(tx.orchard_bundle.is_none());
    assert_eq!(tx.transparent_bundle.as_ref().unwrap().vout.len(), 1);
    assert_eq!(tx.version, TxVersion::Sapling);
    assert_eq!(tx.consensus_branch_id, BranchId::Sapling);
    assert_eq!(tx.lock_time, 0);
    assert_eq!(tx.expiry_height, sapling_height() + 20);
    assert!(meta.spend_indices.is_empty());
}

#[test]
fn change_goes_to_first_spend_and_balances_to_fee() {
    let mut b = Builder::new(Parameters::test_network(), sapling_height());
    b.add_sapling_spend(ovk(), note(50000), ANCHOR).unwrap();
    b.add_transparent_output(&TransparentAddress::PublicKey([0; 20]), Amount(20000)).unwrap();
    let (tx, meta) = b.build(&OkProver, &mut Vec::new()).unwrap();
    let sb = tx.sapling_bundle.as_ref().unwrap();
    // 50000 in, 20000 out, 1000 fee: 29000 change as one shielded output.
    assert_eq!(sb.shielded_spends.len(), 1);
    assert_eq!(sb.shielded_outputs.len(), 1);
    assert_eq!(sb.value_balance, Amount(21000));
    assert_eq!(sb.binding_sig, Some(vec![3]));
    assert_eq!(tx_balance(&tx), 1000);
    assert_eq!(meta.spend_indices, vec![0]);
    assert_eq!(meta.output_indices, vec![0]);
}

#[test]
fn explicit_change_address_and_orchard_balance() {
    let mut b = Builder::new_with_orchard(Parameters::test_network(), nu5_height(), ANCHOR);
    b.add_orchard_spend(OrchardSpendingKey([6; 32]), orchard_note(50000), ANCHOR).unwrap();
    b.send_change_to(ovk(), other_to());
    let (tx, _) = b.build(&OkProver, &mut Vec::new()).unwrap();
    assert_eq!(tx.version, TxVersion::Zip225);
    let ob = tx.orchard_bundle.as_ref().unwrap();
    assert_eq!(ob.value_balance, Amount(50000));
    assert_eq!(ob.proof, Some(vec![4]));
    assert_eq!(ob.signatures, Some(vec![5]));
    let sb = tx.sapling_bundle.as_ref().unwrap();
    assert_eq!(sb.value_balance, Amount(-49000));
    assert_eq!(tx_balance(&tx), 1000);
}

#[test]
fn no_change_address() {
    let mut b = Builder::new_with_orchard(Parameters::test_network(), nu5_height(), ANCHOR);
    b.add_orchard_spend(OrchardSpendingKey([6; 32]), orchard_note(50000), ANCHOR).unwrap();
    assert_eq!(b.build(&OkProver, &mut Vec::new()), Err(Error::NoChangeAddress));
}

#[test]
fn orchard_needs_orchard_builder() {
    let mut b = Builder::new(Parameters::test_network(), nu5_height());
    assert_eq!(
        b.add_orchard_output(None, OrchardAddress([9; 43]), 5, MemoBytes::empty()),
        Err(Error::NU5Inactive)
    );
    assert_eq!(
        b.add_orchard_spend(OrchardSpendingKey([6; 32]), orchard_note(5), ANCHOR),
        Err(Error::NU5Inactive)
    );
    assert!(!b.contains_orchard);
    // Before the upgrade the pool is not available either.
    let mut early = Builder::new_with_orchard(Parameters::test_network(), sapling_height(), ANCHOR);
    assert!(early.orchard_builder.is_none());
    assert_eq!(
        early.add_orchard_output(None, OrchardAddress([9; 43]), 5, MemoBytes::empty()),
        Err(Error::NU5Inactive)
    );
}

#[test]
fn orchard_anchor_mismatch() {
    let mut b = Builder::new_with_orchard(Parameters::test_network(), nu5_height(), ANCHOR);
    assert_eq!(
        b.add_orchard_spend(OrchardSpendingKey([6; 32]), orchard_note(5), OTHER_ANCHOR),
        Err(Error::OrchardComponent(ANCHOR_MISMATCH))
    );
    assert_eq!(ANCHOR_MISMATCH, "All anchors must be equal.");
    assert!(!b.contains_orchard);
}

#[test]
fn sapling_anchor_mismatch_and_oversized_note() {
    let mut b = Builder::new(Parameters::test_network(), sapling_height());
    b.add_sapling_spend(ovk(), note(5), ANCHOR).unwrap();
    assert_eq!(
        b.add_sapling_spend(ovk(), note(5), OTHER_ANCHOR),
        Err(Error::SaplingBuild(SaplingError::AnchorMismatch))
    );
    assert_eq!(
        b.add_sapling_spend(ovk(), note(MAX_MONEY as u64 + 1), ANCHOR),
        Err(Error::SaplingBuild(SaplingError::InvalidAmount))
    );
    assert_eq!(b.sapling_builder.spends.len(), 1);
    assert_eq!(b.sapling_builder.value_balance, Amount(5));
}

#[test]
fn overflowing_balance_is_invalid_amount() {
    let mut b = Builder::new(Parameters::test_network(), sapling_height());
    let max = Amount::from_i64(MAX_MONEY).unwrap();
    b.add_transparent_output(&TransparentAddress::PublicKey([0; 20]), max).unwrap();
    b.add_transparent_output(&TransparentAddress::Script([1; 20]), max).unwrap();
    assert_eq!(b.value_balance(), Err(Error::InvalidAmount));
    assert_eq!(b.build(&OkProver, &mut Vec::new()), Err(Error::InvalidAmount));
}

#[test]
fn progress_counts_up_to_total() {
    let mut b = Builder::new(Parameters::test_network(), sapling_height());
    b.with_progress_notifier();
    b.add_sapling_spend(ovk(), note(50999), ANCHOR).unwrap();
    b.add_sapling_spend(ovk(), note(1), ANCHOR).unwrap();
    b.add_sapling_output(Some(ovk()), to(), Amount(30000), MemoBytes::empty()).unwrap();
    b.add_transparent_output(&TransparentAddress::PublicKey([0; 20]), Amount(20000)).unwrap();
    let mut events = Vec::new();
    assert_eq!(
        b.build(&MockTxProver, &mut events),
        Err(Error::SaplingBuild(SaplingError::BindingSig))
    );
    assert_eq!(
        events,
        vec![Progress::new(1, Some(3)), Progress::new(2, Some(3)), Progress::new(3, Some(3))]
    );
}

#[test]
fn progress_silent_without_notifier() {
    let mut b = Builder::new(Parameters::test_network(), sapling_height());
    b.add_sapling_spend(ovk(), note(50000), ANCHOR).unwrap();
    let mut events = Vec::new();
    let _ = b.build(&OkProver, &mut events);
    assert!(events.is_empty());
}

#[test]
fn authorization_failures() {
    let mut b = Builder::new(Parameters::test_network(), sapling_height());
    b.with_progress_notifier();
    b.add_sapling_spend(ovk(), note(1000), ANCHOR).unwrap();
    let mut events = Vec::new();
    assert_eq!(
        b.build(&NoSpendProofProver, &mut events),
        Err(Error::SaplingBuild(SaplingError::SpendProof))
    );
    assert!(events.is_empty());

    let mut o = Builder::new_with_orchard(Parameters::test_network(), nu5_height(), ANCHOR);
    o.add_orchard_spend(OrchardSpendingKey([6; 32]), orchard_note(1000), ANCHOR).unwrap();
    assert_eq!(
        o.build(&NoOrchardProofProver, &mut Vec::new()),
        Err(Error::OrchardBuild(OrchardError::Proof))
    );
}

#[test]
fn orchard_output_only_is_short() {
    let mut b = Builder::new_with_orchard(Parameters::test_network(), nu5_height(), ANCHOR);
    b.add_orchard_output(None, OrchardAddress([9; 43]), 5000, MemoBytes::empty()).unwrap();
    assert!(b.contains_orchard);
    assert_eq!(b.build(&OkProver, &mut Vec::new()), Err(Error::ChangeIsNegative(Amount(-6000))));
}

#[test]
fn change_beyond_shielded_range_is_invalid() {
    let mut b = Builder::new_with_orchard(Parameters::test_network(), nu5_height(), ANCHOR);
    b.set_custom_fee(Amount::zero());
    let max = MAX_MONEY as u64;
    b.add_orchard_spend(OrchardSpendingKey([6; 32]), orchard_note(max), ANCHOR).unwrap();
    b.add_sapling_output(Some(ovk()), to(), Amount(MAX_MONEY), MemoBytes::empty()).unwrap();
    b.add_transparent_output(&TransparentAddress::PublicKey([0; 20]), Amount(0)).unwrap();
    // Balance: 0 - MAX + MAX = 0, so no change is needed.
    assert!(b.build(&OkProver, &mut Vec::new()).is_ok());

    let mut c = Builder::new_with_orchard(Parameters::test_network(), nu5_height(), ANCHOR);
    c.set_custom_fee(Amount::zero());
    c.add_orchard_spend(OrchardSpendingKey([6; 32]), orchard_note(max), ANCHOR).unwrap();
    c.add_sapling_output(Some(ovk()), to(), Amount(1), MemoBytes::empty()).unwrap();
    c.send_change_to(ovk(), to());
    // Change MAX - 1 on top of a shielded balance of -1 stays in range.
    let (tx, _) = c.build(&OkProver, &mut Vec::new()).unwrap();
    assert_eq!(tx.sapling_bundle.unwrap().value_balance, Amount(-MAX_MONEY));
}

#[test]
fn refused_spend_leaves_anchor_free() {
    let mut b = Builder::new(Parameters::test_network(), sapling_height());
    assert_eq!(
        b.add_sapling_spend(ovk(), note(MAX_MONEY as u64 + 1), ANCHOR),
        Err(Error::SaplingBuild(SaplingError::InvalidAmount))
    );
    assert_eq!(b.sapling_builder.anchor, None);
    assert_eq!(b.add_sapling_spend(ovk(), note(5), OTHER_ANCHOR), Ok(()));
    assert_eq!(b.sapling_builder.anchor, Some(OTHER_ANCHOR));
}

#[test]
fn empty_memo_is_full_width() {
    let m = MemoBytes::empty();
    assert_eq!(m.0.len(), 512);
    assert_eq!(m.0[0], 0xF6);
    assert!(m.0[1..].iter().all(|b| *b == 0));
}

fn skeleton() -> Transaction {
    let mut b = Builder::new_with_orchard(Parameters::test_network(), nu5_height(), ANCHOR);
    b.add_orchard_spend(OrchardSpendingKey([6; 32]), orchard_note(50000), ANCHOR).unwrap();
    b.send_change_to(ovk(), other_to());
    let (mut tx, _) = b.build(&OkProver, &mut Vec::new()).unwrap();
    tx.sapling_bundle.as_mut().unwrap().binding_sig = None;
    let ob = tx.orchard_bundle.as_mut().unwrap();
    ob.proof = None;
    ob.signatures = None;
    tx
}

#[test]
fn authorize_maps_each_refusal() {
    assert_eq!(
        authorize(skeleton(), Some(Err(())), None, None),
        Err(Error::SaplingBuild(SaplingError::BindingSig))
    );
    assert_eq!(
        authorize(skeleton(), Some(Ok(vec![3])), Some(Err(())), None),
        Err(Error::OrchardBuild(OrchardError::Proof))
    );
    assert_eq!(
        authorize(skeleton(), Some(Ok(vec![3])), Some(Ok(vec![4])), Some(Err(()))),
        Err(Error::OrchardBuild(OrchardError::MissingSignatures))
    );
}

#[test]
fn authorize_stores_answers() {
    let unsigned = skeleton();
    let (tx, meta) =
        authorize(unsigned.clone(), Some(Ok(vec![7])), Some(Ok(vec![8])), Some(Ok(vec![9]))).unwrap();
    assert_eq!(tx.sapling_bundle.as_ref().unwrap().binding_sig, Some(vec![7]));
    assert_eq!(tx.orchard_bundle.as_ref().unwrap().proof, Some(vec![8]));
    assert_eq!(tx.orchard_bundle.as_ref().unwrap().signatures, Some(vec![9]));
    assert_eq!(tx.expiry_height, unsigned.expiry_height);
    assert_eq!(tx.version, unsigned.version);
    assert_eq!(
        tx.sapling_bundle.as_ref().unwrap().value_balance,
        unsigned.sapling_bundle.as_ref().unwrap().value_balance
    );
    assert_eq!(meta.output_indices, vec![0]);
}

#[test]
fn outputs_alone_need_no_spend_proof() {
    let mut b = Builder::new_with_orchard(Parameters::test_network(), nu5_height(), ANCHOR);
    b.add_orchard_spend(OrchardSpendingKey([6; 32]), orchard_note(50000), ANCHOR).unwrap();
    b.add_sapling_output(Some(ovk()), to(), Amount(49000), MemoBytes::empty()).unwrap();
    let (tx, _) = b.build(&NoSpendProofProver, &mut Vec::new()).unwrap();
    assert_eq!(tx.sapling_bundle.unwrap().shielded_outputs.len(), 1);
    assert_eq!(tx.orchard_bundle.unwrap().value_balance, Amount(50000));
}

struct NoOrchardSignatureProver;

impl TxProver for NoOrchardSignatureProver {
    fn spend_proof(&self, _spend: &SpendInfo) -> Result<Vec<u8>, ()> {
        Ok(vec![1])
    }
    fn output_proof(&self, _output: &OutputInfo) -> Vec<u8> {
        vec![2]
    }
    fn binding_sig(&self, _vb: Amount, _unsigned: &Transaction) -> Result<Vec<u8>, ()> {
        Ok(vec![3])
    }
    fn orchard_proof(&self, _bundle: &OrchardBundle) -> Result<Vec<u8>, ()> {
        Ok(vec![4])
    }
    fn orchard_signatures(
        &self,
        _bundle: &OrchardBundle,
        _unsigned: &Transaction,
        _keys: &Vec<OrchardSpendingKey>,
    ) -> Result<Vec<u8>, ()> {
        Err(())
    }
}

#[test]
fn orchard_signature_refusal() {
    let mut o = Builder::new_with_orchard(Parameters::test_network(), nu5_height(), ANCHOR);
    o.add_orchard_spend(OrchardSpendingKey([6; 32]), orchard_note(1000), ANCHOR).unwrap();
    assert_eq!(
        o.build(&NoOrchardSignatureProver, &mut Vec::new()),
        Err(Error::OrchardBuild(OrchardError::MissingSignatures))
    );
}
