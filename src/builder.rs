//! The transaction builder: collects inputs and outputs of every pool, balances
//! them against the fee with a change output, proves, and authorizes.
use vstd::prelude::*;
use crate::amount::{Amount, DEFAULT_FEE_ZAT, in_range, sum_step};
use crate::consensus::{
    BranchId, Parameters, TxVersion, DEFAULT_TX_EXPIRY_DELTA, active, branch_for_height,
    version_for_branch,
};
use crate::orchard_pool::{
    OrchardAddress, OrchardBuilder, OrchardBundle, OrchardError, OrchardNote, OrchardRecipient,
    OrchardSpendingKey, orchard_balance,
};
use crate::progress::{Progress, progress_run};
use crate::prover::TxProver;
use crate::sapling::{
    MemoBytes, Note, OutgoingViewingKey, OutputInfo, PaymentAddress, SaplingBuilder, SaplingBundle,
    SaplingError, SaplingMetadata, anchor_differs,
};
use crate::transparent::{
    TransparentAddress, TransparentBuilder, TransparentBundle, TransparentError, TxOut,
    transparent_balance,
};

verus! {

/// Errors of building a transaction.
#[derive(Clone, Copy, Debug, PartialEq, Eq)]
pub enum Error {
    ChangeIsNegative(Amount),
    InvalidAmount,
    NoChangeAddress,
    TransparentBuild(TransparentError),
    SaplingBuild(SaplingError),
    OrchardBuild(OrchardError),
    OrchardComponent(&'static str),
    NU5Inactive,
}

/// Where change goes when the caller says so.
#[derive(Clone, Copy, Debug, PartialEq, Eq)]
pub enum ChangeAddress {
    SaplingChangeAddress(OutgoingViewingKey, PaymentAddress),
}

/// A transaction: its header and one optional bundle per pool.
#[derive(Clone, Debug, PartialEq, Eq)]
pub struct Transaction {
    pub version: TxVersion,
    pub consensus_branch_id: BranchId,
    pub lock_time: u32,
    pub expiry_height: u32,
    pub transparent_bundle: Option<TransparentBundle>,
    pub sapling_bundle: Option<SaplingBundle>,
    pub orchard_bundle: Option<OrchardBundle>,
}

/// The transparent balance of a transaction; an absent bundle counts zero.
pub open spec fn tx_transparent_balance(tx: Transaction) -> Option<int> {
    match tx.transparent_bundle {
        Some(b) => transparent_balance(b.vout@),
        None => Some(0),
    }
}

pub open spec fn tx_sapling_balance(tx: Transaction) -> int {
    match tx.sapling_bundle {
        Some(b) => b.value_balance.value(),
        None => 0,
    }
}

pub open spec fn tx_orchard_balance(tx: Transaction) -> int {
    match tx.orchard_bundle {
        Some(b) => b.value_balance.value(),
        None => 0,
    }
}

/// The sum of the pools' balances of a transaction, where the transparent one exists.
pub open spec fn tx_balance(tx: Transaction) -> Option<int> {
    match tx_transparent_balance(tx) {
        Some(t) => Some(t + tx_sapling_balance(tx) + tx_orchard_balance(tx)),
        None => None,
    }
}

/// Generates a transaction from its inputs and outputs.
pub struct Builder {
    pub params: Parameters,
    pub target_height: u32,
    pub expiry_height: u32,
    pub fee: Amount,
    pub transparent_builder: TransparentBuilder,
    pub sapling_builder: SaplingBuilder,
    pub contains_orchard: bool,
    /// `None` where the builder was made without the second shielded pool, or
    /// for a height at which it is not active.
    pub orchard_builder: Option<OrchardBuilder>,
    pub orchard_spending_keys: Vec<OrchardSpendingKey>,
    pub change_address: Option<ChangeAddress>,
    pub report_progress: bool,
}

/// The balance of the second shielded pool; zero where it is disabled.
pub open spec fn pool_orchard_balance(o: Option<OrchardBuilder>) -> Option<int> {
    match o {
        Some(b) => orchard_balance(b),
        None => Some(0),
    }
}

/// The sum of the pools' balances, added as checked amounts in pool order.
pub open spec fn total_balance(b: Builder) -> Option<int> {
    match (transparent_balance(b.transparent_builder.vout@), pool_orchard_balance(b.orchard_builder)) {
        (Some(t), Some(o)) => sum_step(
            sum_step(sum_step(Some(0), t), b.sapling_builder.value_balance.value()),
            o,
        ),
        _ => None,
    }
}

/// The pools' balance less the fee, where both are in range.
pub open spec fn change_of(b: Builder) -> Option<int> {
    match total_balance(b) {
        Some(v) => if in_range(v - b.fee.value()) {
            Some(v - b.fee.value())
        } else {
            None
        },
        None => None,
    }
}

/// The change that a build adds as a shielded output, or why it fails first.
pub open spec fn change_outcome(b: Builder) -> Result<int, Error> {
    match change_of(b) {
        None => Err(Error::InvalidAmount),
        Some(c) => if c < 0 {
            Err(Error::ChangeIsNegative(Amount(c as i64)))
        } else if c == 0 {
            Ok(0)
        } else if b.change_address is None && b.sapling_builder.spends@.len() == 0 {
            Err(Error::NoChangeAddress)
        } else if !in_range(b.sapling_builder.value_balance.value() - c) {
            Err(Error::SaplingBuild(SaplingError::InvalidAmount))
        } else {
            Ok(c)
        },
    }
}

/// The key and address that change goes to: the one set by the caller, else
/// those of the first shielded spend.
pub open spec fn change_recipient(b: Builder) -> (OutgoingViewingKey, PaymentAddress) {
    match b.change_address {
        Some(ChangeAddress::SaplingChangeAddress(ovk, to)) => (ovk, to),
        None => (b.sapling_builder.spends@[0].ovk, b.sapling_builder.spends@[0].note.recipient),
    }
}

/// Failures that come from proving or signing rather than from the builder's state.
pub open spec fn is_authorization_failure(e: Error) -> bool {
    ||| e == Error::SaplingBuild(SaplingError::SpendProof)
    ||| e == Error::SaplingBuild(SaplingError::BindingSig)
    ||| e matches Error::OrchardBuild(_)
}

/// The change of a build that gets past balancing; zero otherwise.
pub open spec fn change_amount(b: Builder) -> int {
    match change_outcome(b) {
        Ok(c) => c,
        Err(_) => 0,
    }
}

/// The number of shielded proofs a build makes: one per spend and per output,
/// counting the change output.
pub open spec fn build_steps(b: Builder) -> nat {
    (b.sapling_builder.spends@.len() + b.sapling_builder.outputs@.len() + if change_amount(b) > 0 {
        1int
    } else {
        0int
    }) as nat
}

/// Whether the second shielded pool is enabled, used, and holds a spend or output.
pub open spec fn orchard_in_use(b: Builder) -> bool {
    b.contains_orchard && match b.orchard_builder {
        Some(ob) => ob.spends@.len() + ob.recipients@.len() > 0,
        None => false,
    }
}

/// What a transaction built from `b` is: its header follows the parameters and
/// heights, its pools balance to the fee, and a pool's bundle is there exactly
/// when the pool has something in it, authorized.
pub open spec fn built_from(b: Builder, tx: Transaction) -> bool {
    &&& change_outcome(b) is Ok
    &&& tx.consensus_branch_id == branch_for_height(b.params, b.target_height)
    &&& tx.version == version_for_branch(branch_for_height(b.params, b.target_height))
    &&& tx.lock_time == 0
    &&& tx.expiry_height == b.expiry_height
    &&& tx_balance(tx) == Some(b.fee.value())
    &&& (tx.transparent_bundle is None <==> b.transparent_builder.vout@.len() == 0)
    &&& (tx.transparent_bundle matches Some(tb) ==> tb.vout@ == b.transparent_builder.vout@)
    &&& (tx.sapling_bundle is None <==> (b.sapling_builder.spends@.len() == 0
        && b.sapling_builder.outputs@.len() == 0 && change_amount(b) == 0))
    &&& (tx.sapling_bundle matches Some(sb) ==> sb.binding_sig is Some
        && sb.shielded_spends@.len() == b.sapling_builder.spends@.len()
        && sb.shielded_outputs@.len() == b.sapling_builder.outputs@.len() + if change_amount(b) > 0 {
            1int
        } else {
            0int
        } && sb.value_balance.value() == b.sapling_builder.value_balance.value() - change_amount(b))
    &&& (tx.orchard_bundle is Some <==> orchard_in_use(b))
    &&& (tx.orchard_bundle matches Some(obd) ==> obd.proof is Some && obd.signatures is Some
        && pool_orchard_balance(b.orchard_builder) == Some(obd.value_balance.value()))
}

/// The positions `0 .. n` in order.
pub fn positions(n: usize) -> (r: Vec<usize>)
    ensures
        r@.len() == n,
        forall|i: int| 0 <= i < n ==> r@[i] == i,
{
    let mut v: Vec<usize> = Vec::new();
    let mut i: usize = 0;
    while i < n
        invariant
            i <= n,
            v@.len() == i,
            forall|j: int| 0 <= j < i ==> v@[j] == j,
        decreases n - i,
    {
        v.push(i);
        i = i + 1;
    }
    v
}

/// A transaction as every signer receives it: nothing in it is signed or
/// proved yet.
pub open spec fn is_unsigned(tx: Transaction) -> bool {
    &&& tx.lock_time == 0
    &&& (tx.sapling_bundle matches Some(sb) ==> sb.binding_sig is None)
    &&& (tx.orchard_bundle matches Some(ob) ==> ob.proof is None && ob.signatures is None)
}

/// Whether a prover was asked and refused.
pub open spec fn failed(o: Option<Result<Vec<u8>, ()>>) -> bool {
    o matches Some(Err(_))
}

/// What a prover handed back, where it was asked and answered.
pub open spec fn answer(o: Option<Result<Vec<u8>, ()>>) -> Option<Vec<u8>> {
    match o {
        Some(Ok(v)) => Some(v),
        _ => None,
    }
}

/// `tx` is `unsigned` with the given binding signature, proof and signatures
/// stored in its shielded bundles, and nothing else changed.
pub open spec fn authorized_from(
    unsigned: Transaction,
    sapling_sig: Option<Result<Vec<u8>, ()>>,
    orchard_proof: Option<Result<Vec<u8>, ()>>,
    orchard_sigs: Option<Result<Vec<u8>, ()>>,
    tx: Transaction,
) -> bool {
    &&& tx.version == unsigned.version
    &&& tx.consensus_branch_id == unsigned.consensus_branch_id
    &&& tx.lock_time == unsigned.lock_time
    &&& tx.expiry_height == unsigned.expiry_height
    &&& tx.transparent_bundle == unsigned.transparent_bundle
    &&& tx.sapling_bundle == match unsigned.sapling_bundle {
        Some(sb) => Some(SaplingBundle { binding_sig: answer(sapling_sig), ..sb }),
        None => None,
    }
    &&& tx.orchard_bundle == match unsigned.orchard_bundle {
        Some(ob) => Some(
            OrchardBundle { proof: answer(orchard_proof), signatures: answer(orchard_sigs), ..ob },
        ),
        None => None,
    }
}

/// Stores the prover's answers in an unsigned transaction. The first refusal,
/// in the order binding signature, proof, signatures, is the error.
pub fn authorize(
    unsigned: Transaction,
    sapling_sig: Option<Result<Vec<u8>, ()>>,
    orchard_proof: Option<Result<Vec<u8>, ()>>,
    orchard_sigs: Option<Result<Vec<u8>, ()>>,
) -> (r: Result<(Transaction, SaplingMetadata), Error>)
    requires
        sapling_sig is Some <==> unsigned.sapling_bundle is Some,
        orchard_proof is Some ==> unsigned.orchard_bundle is Some,
        orchard_sigs is Some ==> (orchard_proof is Some && !failed(orchard_proof)),
        !failed(sapling_sig) && unsigned.orchard_bundle is Some ==> orchard_proof is Some,
        !failed(sapling_sig) && orchard_proof is Some && !failed(orchard_proof) ==> orchard_sigs is Some,
    ensures
        failed(sapling_sig) ==> r == Err::<(Transaction, SaplingMetadata), Error>(
            Error::SaplingBuild(SaplingError::BindingSig),
        ),
        !failed(sapling_sig) && failed(orchard_proof) ==> r == Err::<(Transaction, SaplingMetadata), Error>(
            Error::OrchardBuild(OrchardError::Proof),
        ),
        !failed(sapling_sig) && !failed(orchard_proof) && failed(orchard_sigs) ==> r == Err::<
            (Transaction, SaplingMetadata),
            Error,
        >(Error::OrchardBuild(OrchardError::MissingSignatures)),
        r is Ok <==> !failed(sapling_sig) && !failed(orchard_proof) && !failed(orchard_sigs),
        r is Ok ==> authorized_from(unsigned, sapling_sig, orchard_proof, orchard_sigs, r->Ok_0.0),
        r is Ok ==> (unsigned.sapling_bundle matches Some(sb) ==> r->Ok_0.1.spend_indices@.len()
            == sb.shielded_spends@.len() && r->Ok_0.1.output_indices@.len()
            == sb.shielded_outputs@.len()),
        r is Ok ==> (unsigned.sapling_bundle is None ==> r->Ok_0.1.spend_indices@.len() == 0
            && r->Ok_0.1.output_indices@.len() == 0),
{
    match &sapling_sig {
        Some(Err(_)) => {
            return Err(Error::SaplingBuild(SaplingError::BindingSig));
        },
        _ => {},
    }
    match &orchard_proof {
        Some(Err(_)) => {
            return Err(Error::OrchardBuild(OrchardError::Proof));
        },
        _ => {},
    }
    match &orchard_sigs {
        Some(Err(_)) => {
            return Err(Error::OrchardBuild(OrchardError::MissingSignatures));
        },
        _ => {},
    }
    let Transaction {
        version,
        consensus_branch_id,
        lock_time,
        expiry_height,
        transparent_bundle,
        sapling_bundle,
        orchard_bundle,
    } = unsigned;
    let (sapling_bundle, meta) = match sapling_bundle {
        Some(sb) => {
            let sig = match sapling_sig {
                Some(Ok(v)) => Some(v),
                _ => None,
            };
            let meta = SaplingMetadata {
                spend_indices: positions(sb.shielded_spends.len()),
                output_indices: positions(sb.shielded_outputs.len()),
            };
            (
                Some(
                    SaplingBundle {
                        shielded_spends: sb.shielded_spends,
                        shielded_outputs: sb.shielded_outputs,
                        value_balance: sb.value_balance,
                        binding_sig: sig,
                    },
                ),
                meta,
            )
        },
        None => (None, SaplingMetadata::empty()),
    };
    let orchard_bundle = match orchard_bundle {
        Some(b) => {
            let pf = match orchard_proof {
                Some(Ok(v)) => Some(v),
                _ => None,
            };
            let sigs = match orchard_sigs {
                Some(Ok(v)) => Some(v),
                _ => None,
            };
            Some(
                OrchardBundle {
                    anchor: b.anchor,
                    num_actions: b.num_actions,
                    value_balance: b.value_balance,
                    proof: pf,
                    signatures: sigs,
                },
            )
        },
        None => None,
    };
    Ok(
        (
            Transaction {
                version,
                consensus_branch_id,
                lock_time,
                expiry_height,
                transparent_bundle,
                sapling_bundle,
                orchard_bundle,
            },
            meta,
        ),
    )
}

/// The balances of pools with nothing in them are zero.
proof fn lemma_empty_balances(pre: Builder, mid: Builder)
    requires
        pre.wf(),
        mid.wf(),
    ensures
        pre.transparent_builder.vout@.len() == 0 ==> transparent_balance(
            pre.transparent_builder.vout@,
        ) == Some(0int),
        mid.sapling_builder.spends@.len() == 0 && mid.sapling_builder.outputs@.len() == 0
            ==> mid.sapling_builder.value_balance.value() == 0,
        pre.orchard_builder matches Some(ob) ==> (ob.spends@.len() + ob.recipients@.len() == 0
            ==> orchard_balance(ob) == Some(0int)),
{
    let t = pre.transparent_builder.vout@;
    if t.len() == 0 {
        assert(crate::amount::amounts_view(crate::transparent::out_values(t)).len() == 0);
    }
    let sp = mid.sapling_builder.spends@;
    let op = mid.sapling_builder.outputs@;
    if sp.len() == 0 && op.len() == 0 {
        assert(crate::sapling::spend_values(sp).len() == 0);
        assert(crate::sapling::output_values(op).len() == 0);
    }
    if let Some(ob) = pre.orchard_builder {
        if ob.spends@.len() + ob.recipients@.len() == 0 {
            assert(crate::orchard_pool::note_values(ob.spends@).len() == 0);
            assert(crate::orchard_pool::recipient_values(ob.recipients@).len() == 0);
        }
    }
}

/// Building is determined by the builder's state: two transactions built from
/// one builder have the same header, the same transparent outputs, the same
/// shielded bundles present, and the same pool balances.
pub proof fn lemma_build_deterministic(b: Builder, tx1: Transaction, tx2: Transaction)
    requires
        built_from(b, tx1),
        built_from(b, tx2),
    ensures
        tx1.version == tx2.version,
        tx1.consensus_branch_id == tx2.consensus_branch_id,
        tx1.lock_time == tx2.lock_time,
        tx1.expiry_height == tx2.expiry_height,
        tx1.transparent_bundle is Some <==> tx2.transparent_bundle is Some,
        tx1.transparent_bundle matches Some(t1) ==> tx2.transparent_bundle matches Some(t2)
            && t1.vout@ == t2.vout@,
        tx1.sapling_bundle is Some <==> tx2.sapling_bundle is Some,
        tx1.orchard_bundle is Some <==> tx2.orchard_bundle is Some,
        tx_balance(tx1) == tx_balance(tx2),
{
}

/// Whatever a successful build returns, its pools' balances sum to the fee.
pub proof fn lemma_build_balances_to_fee(b: Builder, tx: Transaction)
    requires
        built_from(b, tx),
    ensures
        tx_balance(tx) == Some(b.fee.value()),
{
}

impl Builder {
    pub open spec fn wf(&self) -> bool {
        &&& self.fee.wf()
        &&& self.fee.value() >= 0
        &&& self.expiry_height >= self.target_height
        &&& self.transparent_builder.wf()
        &&& self.sapling_builder.wf()
        &&& self.orchard_builder is None ==> !self.contains_orchard
        &&& !self.contains_orchard ==> (self.orchard_builder matches Some(ob) ==> ob.spends@.len()
            == 0 && ob.recipients@.len() == 0)
    }

    fn new_internal(params: Parameters, target_height: u32, orchard_builder: Option<OrchardBuilder>) -> (r: Builder)
        requires
            target_height + DEFAULT_TX_EXPIRY_DELTA <= u32::MAX,
            orchard_builder matches Some(ob) ==> ob.spends@.len() == 0 && ob.recipients@.len() == 0,
        ensures
            r.wf(),
            r.params == params,
            r.target_height == target_height,
            r.expiry_height == target_height + DEFAULT_TX_EXPIRY_DELTA,
            r.fee.value() == DEFAULT_FEE_ZAT,
            r.transparent_builder.vout@.len() == 0,
            r.sapling_builder.spends@.len() == 0,
            r.sapling_builder.outputs@.len() == 0,
            r.sapling_builder.anchor is None,
            !r.contains_orchard,
            r.orchard_builder == orchard_builder,
            r.orchard_spending_keys@.len() == 0,
            r.change_address is None,
            !r.report_progress,
    {
        Builder {
            params,
            target_height,
            expiry_height: target_height + DEFAULT_TX_EXPIRY_DELTA,
            fee: Amount::default_fee(),
            transparent_builder: TransparentBuilder::empty(),
            sapling_builder: SaplingBuilder::new(),
            contains_orchard: false,
            orchard_builder,
            orchard_spending_keys: Vec::new(),
            change_address: None,
            report_progress: false,
        }
    }

    /// A builder for the transparent and first shielded pools, expiring
    /// `DEFAULT_TX_EXPIRY_DELTA` blocks after `target_height`, with the default fee.
    pub fn new(params: Parameters, target_height: u32) -> (r: Builder)
        requires
            target_height + DEFAULT_TX_EXPIRY_DELTA <= u32::MAX,
        ensures
            r.wf(),
            r.params == params,
            r.target_height == target_height,
            r.expiry_height == target_height + DEFAULT_TX_EXPIRY_DELTA,
            r.fee.value() == DEFAULT_FEE_ZAT,
            r.transparent_builder.vout@.len() == 0,
            r.sapling_builder.spends@.len() == 0,
            r.sapling_builder.outputs@.len() == 0,
            r.sapling_builder.anchor is None,
            !r.contains_orchard,
            r.orchard_builder is None,
            r.orchard_spending_keys@.len() == 0,
            r.change_address is None,
            !r.report_progress,
    {
        Self::new_internal(params, target_height, None)
    }

    /// As `new`, with the second shielded pool enabled under `anchor` where it is
    /// active at `target_height`.
    pub fn new_with_orchard(params: Parameters, target_height: u32, anchor: [u8; 32]) -> (r: Builder)
        requires
            target_height + DEFAULT_TX_EXPIRY_DELTA <= u32::MAX,
        ensures
            r.wf(),
            r.params == params,
            r.target_height == target_height,
            r.expiry_height == target_height + DEFAULT_TX_EXPIRY_DELTA,
            r.fee.value() == DEFAULT_FEE_ZAT,
            r.transparent_builder.vout@.len() == 0,
            r.sapling_builder.spends@.len() == 0,
            r.sapling_builder.outputs@.len() == 0,
            r.sapling_builder.anchor is None,
            !r.contains_orchard,
            r.orchard_builder is Some <==> active(params.nu5, target_height),
            r.orchard_builder matches Some(ob) ==> ob.anchor == anchor && ob.spends@.len() == 0
                && ob.recipients@.len() == 0,
            r.orchard_spending_keys@.len() == 0,
            r.change_address is None,
            !r.report_progress,
    {
        let nu5_active = match params.nu5 {
            Some(h) => h <= target_height,
            None => false,
        };
        let ob = if nu5_active {
            Some(OrchardBuilder::new(anchor))
        } else {
            None
        };
        Self::new_internal(params, target_height, ob)
    }
    /// Adds a note of the second shielded pool to spend, authorized by `sk`.
    pub fn add_orchard_spend(&mut self, sk: OrchardSpendingKey, note: OrchardNote, path_anchor: [u8; 32]) -> (r: Result<(), Error>)
        requires
            old(self).wf(),
        ensures
            final(self).wf(),
            old(self).orchard_builder is None ==> r == Err::<(), Error>(Error::NU5Inactive),
            old(self).orchard_builder matches Some(ob) ==> (r is Err <==> ob.anchor@ != path_anchor@),
            r is Err ==> r == Err::<(), Error>(Error::NU5Inactive) || r == Err::<(), Error>(
                Error::OrchardComponent(crate::orchard_pool::ANCHOR_MISMATCH),
            ),
            old(self).orchard_builder is Some && r is Err ==> r == Err::<(), Error>(
                Error::OrchardComponent(crate::orchard_pool::ANCHOR_MISMATCH),
            ),
            r is Err ==> *final(self) == *old(self),
            *final(self) == (Builder {
                orchard_builder: final(self).orchard_builder,
                contains_orchard: final(self).contains_orchard,
                orchard_spending_keys: final(self).orchard_spending_keys,
                ..*old(self)
            }),
            r is Ok ==> {
                &&& final(self).contains_orchard
                &&& final(self).orchard_spending_keys@ == old(self).orchard_spending_keys@.push(sk)
                &&& old(self).orchard_builder matches Some(ob) && final(self).orchard_builder
                    matches Some(nb) && nb.spends@ == ob.spends@.push(note) && nb.recipients@
                    == ob.recipients@ && nb.anchor == ob.anchor
                &&& final(self).sapling_builder == old(self).sapling_builder
                &&& final(self).transparent_builder == old(self).transparent_builder
                &&& final(self).fee == old(self).fee
            },
    {
        match self.orchard_builder.as_mut() {
            None => Err(Error::NU5Inactive),
            Some(ob) => {
                match ob.add_spend(note, path_anchor) {
                    Err(e) => Err(Error::OrchardComponent(e)),
                    Ok(()) => {
                        self.contains_orchard = true;
                        self.orchard_spending_keys.push(sk);
                        Ok(())
                    },
                }
            },
        }
    }

    /// Adds an output of the second shielded pool.
    pub fn add_orchard_output(
        &mut self,
        ovk: Option<[u8; 32]>,
        recipient: OrchardAddress,
        value: u64,
        memo: MemoBytes,
    ) -> (r: Result<(), Error>)
        requires
            old(self).wf(),
        ensures
            final(self).wf(),
            r is Err <==> old(self).orchard_builder is None,
            r is Err ==> r == Err::<(), Error>(Error::NU5Inactive) && *final(self) == *old(self),
            *final(self) == (Builder {
                orchard_builder: final(self).orchard_builder,
                contains_orchard: final(self).contains_orchard,
                orchard_spending_keys: final(self).orchard_spending_keys,
                ..*old(self)
            }),
            r is Ok ==> {
                &&& final(self).contains_orchard
                &&& old(self).orchard_builder matches Some(ob) && final(self).orchard_builder
                    matches Some(nb) && nb.recipients@ == ob.recipients@.push(
                    OrchardRecipient { ovk, recipient, value, memo },
                ) && nb.spends@ == ob.spends@ && nb.anchor == ob.anchor
                &&& final(self).orchard_spending_keys == old(self).orchard_spending_keys
                &&& final(self).sapling_builder == old(self).sapling_builder
                &&& final(self).transparent_builder == old(self).transparent_builder
                &&& final(self).fee == old(self).fee
            },
    {
        match self.orchard_builder.as_mut() {
            None => Err(Error::NU5Inactive),
            Some(ob) => {
                ob.add_recipient(OrchardRecipient { ovk, recipient, value, memo });
                self.contains_orchard = true;
                Ok(())
            },
        }
    }

    /// Adds a note of the first shielded pool to spend. Refused where the
    /// pool's balance cannot take its value, or where its path leads to another
    /// anchor than earlier spends.
    pub fn add_sapling_spend(&mut self, ovk: OutgoingViewingKey, note: Note, anchor: [u8; 32]) -> (r: Result<(), Error>)
        requires
            old(self).wf(),
        ensures
            final(self).wf(),
            (r == Err::<(), Error>(Error::SaplingBuild(SaplingError::InvalidAmount))) <==> !(note.value
                <= crate::amount::MAX_MONEY && in_range(
                old(self).sapling_builder.value_balance.value() + note.value,
            )),
            (r == Err::<(), Error>(Error::SaplingBuild(SaplingError::AnchorMismatch))) <==> (note.value
                <= crate::amount::MAX_MONEY && in_range(
                old(self).sapling_builder.value_balance.value() + note.value,
            ) && anchor_differs(old(self).sapling_builder.anchor, anchor)),
            r is Err ==> r == Err::<(), Error>(Error::SaplingBuild(SaplingError::AnchorMismatch))
                || r == Err::<(), Error>(Error::SaplingBuild(SaplingError::InvalidAmount)),
            r is Err ==> *final(self) == *old(self),
            r is Ok ==> final(self).sapling_builder.spends@ == old(self).sapling_builder.spends@.push(
                crate::sapling::SpendInfo { ovk, note, anchor },
            ) && final(self).sapling_builder.value_balance.value()
                == old(self).sapling_builder.value_balance.value() + note.value
                && final(self).sapling_builder.anchor == Some(anchor)
                && final(self).sapling_builder.outputs == old(self).sapling_builder.outputs,
            *final(self) == (Builder { sapling_builder: final(self).sapling_builder, ..*old(self) }),
    {
        match self.sapling_builder.add_spend(ovk, note, anchor) {
            Ok(()) => Ok(()),
            Err(e) => Err(Error::SaplingBuild(e)),
        }
    }

    /// Adds an output of the first shielded pool. A negative value, or one the
    /// pool's balance cannot take, is refused.
    pub fn add_sapling_output(
        &mut self,
        ovk: Option<OutgoingViewingKey>,
        to: PaymentAddress,
        value: Amount,
        memo: MemoBytes,
    ) -> (r: Result<(), Error>)
        requires
            old(self).wf(),
            value.wf(),
        ensures
            final(self).wf(),
            r is Err <==> (value.value() < 0 || !in_range(
                old(self).sapling_builder.value_balance.value() - value.value(),
            )),
            r is Err ==> r == Err::<(), Error>(Error::SaplingBuild(SaplingError::InvalidAmount))
                && final(self).sapling_builder.outputs@ == old(self).sapling_builder.outputs@
                && final(self).sapling_builder.value_balance == old(self).sapling_builder.value_balance,
            r is Ok ==> final(self).sapling_builder.outputs@ == old(self).sapling_builder.outputs@.push(
                OutputInfo { ovk, to, value, memo },
            ) && final(self).sapling_builder.value_balance.value()
                == old(self).sapling_builder.value_balance.value() - value.value(),
            final(self).sapling_builder.spends@ == old(self).sapling_builder.spends@,
            final(self).sapling_builder.anchor == old(self).sapling_builder.anchor,
            final(self).transparent_builder == old(self).transparent_builder,
            final(self).orchard_builder == old(self).orchard_builder,
            final(self).contains_orchard == old(self).contains_orchard,
            final(self).fee == old(self).fee,
            final(self).change_address == old(self).change_address,
            final(self).params == old(self).params,
            final(self).target_height == old(self).target_height,
            final(self).expiry_height == old(self).expiry_height,
            final(self).report_progress == old(self).report_progress,
            final(self).orchard_spending_keys == old(self).orchard_spending_keys,
            *final(self) == (Builder { sapling_builder: final(self).sapling_builder, ..*old(self) }),
    {
        match self.sapling_builder.add_output(ovk, to, value, memo) {
            Ok(()) => Ok(()),
            Err(e) => Err(Error::SaplingBuild(e)),
        }
    }

    /// Adds a transparent output; a negative value is refused.
    pub fn add_transparent_output(&mut self, to: &TransparentAddress, value: Amount) -> (r: Result<(), Error>)
        requires
            old(self).wf(),
            value.wf(),
        ensures
            final(self).wf(),
            r is Err <==> value.value() < 0,
            r is Err ==> r == Err::<(), Error>(Error::TransparentBuild(TransparentError::InvalidAmount))
                && final(self).transparent_builder.vout@ == old(self).transparent_builder.vout@,
            r is Ok ==> final(self).transparent_builder.vout@ == old(self).transparent_builder.vout@.push(
                TxOut { address: *to, value },
            ),
            *final(self) == (Builder { transparent_builder: final(self).transparent_builder, ..*old(self) }),
    {
        match self.transparent_builder.add_output(to, value) {
            Ok(()) => Ok(()),
            Err(e) => Err(Error::TransparentBuild(e)),
        }
    }

    /// Sets the shielded address to which any change will be sent.
    pub fn send_change_to(&mut self, ovk: OutgoingViewingKey, to: PaymentAddress)
        requires
            old(self).wf(),
        ensures
            final(self).wf(),
            *final(self) == (Builder {
                change_address: Some(ChangeAddress::SaplingChangeAddress(ovk, to)),
                ..*old(self)
            }),
    {
        self.change_address = Some(ChangeAddress::SaplingChangeAddress(ovk, to));
    }

    /// Asks `build` to report a step after each shielded proof.
    pub fn with_progress_notifier(&mut self)
        requires
            old(self).wf(),
        ensures
            final(self).wf(),
            *final(self) == (Builder { report_progress: true, ..*old(self) }),
    {
        self.report_progress = true;
    }

    /// Sets the fee.
    pub fn set_custom_fee(&mut self, custom_fee: Amount)
        requires
            old(self).wf(),
            custom_fee.wf(),
            custom_fee.value() >= 0,
        ensures
            final(self).wf(),
            *final(self) == (Builder { fee: custom_fee, ..*old(self) }),
    {
        self.fee = custom_fee;
    }

    /// The sum of the pools' balances.
    pub fn value_balance(&self) -> (r: Result<Amount, Error>)
        requires
            self.wf(),
        ensures
            r is Err <==> total_balance(*self) is None,
            r is Err ==> r == Err::<Amount, Error>(Error::InvalidAmount),
            r matches Ok(a) ==> a.wf() && total_balance(*self) == Some(a.value()),
    {
        let t = match self.transparent_builder.value_balance() {
            Some(t) => t,
            None => {
                return Err(Error::InvalidAmount);
            },
        };
        let o = match &self.orchard_builder {
            Some(ob) => match ob.value_balance() {
                Some(o) => o,
                None => {
                    return Err(Error::InvalidAmount);
                },
            },
            None => Amount::zero(),
        };
        let s = self.sapling_builder.value_balance;
        let z = Amount::zero();
        let a1 = match z.checked_add(&t) {
            Some(a) => a,
            None => {
                return Err(Error::InvalidAmount);
            },
        };
        let a2 = match a1.checked_add(&s) {
            Some(a) => a,
            None => {
                return Err(Error::InvalidAmount);
            },
        };
        match a2.checked_add(&o) {
            Some(a) => Ok(a),
            None => Err(Error::InvalidAmount),
        }
    }

    /// Balances the pools against the fee: fails where the balance is short,
    /// and otherwise adds any surplus as a shielded output to the change address.
    pub fn resolve_change(&mut self) -> (r: Result<Amount, Error>)
        requires
            old(self).wf(),
        ensures
            final(self).wf(),
            r is Err <==> change_outcome(*old(self)) is Err,
            change_outcome(*old(self)) matches Err(e) ==> r == Err::<Amount, Error>(e),
            r matches Ok(c) ==> change_outcome(*old(self)) == Ok::<int, Error>(c.value()) && c.wf(),
            r matches Ok(c) && c.value() == 0 ==> final(self).sapling_builder.outputs@ == old(
            self).sapling_builder.outputs@ && final(self).sapling_builder.value_balance == old(
            self).sapling_builder.value_balance,
            r matches Ok(c) ==> (c.value() > 0 ==> {
                let outs = final(self).sapling_builder.outputs@;
                &&& outs.len() == old(self).sapling_builder.outputs@.len() + 1
                &&& outs.drop_last() == old(self).sapling_builder.outputs@
                &&& outs.last().ovk == Some(change_recipient(*old(self)).0)
                &&& outs.last().to == change_recipient(*old(self)).1
                &&& outs.last().value == c
                &&& outs.last().memo.0@ == crate::sapling::empty_memo_bytes()
                &&& final(self).sapling_builder.value_balance.value() == old(self).sapling_builder.value_balance.value() - c.value()
            }),
            final(self).sapling_builder.spends@ == old(self).sapling_builder.spends@,
            final(self).transparent_builder == old(self).transparent_builder,
            final(self).orchard_builder == old(self).orchard_builder,
            final(self).contains_orchard == old(self).contains_orchard,
            final(self).fee == old(self).fee,
            final(self).params == old(self).params,
            final(self).target_height == old(self).target_height,
            final(self).expiry_height == old(self).expiry_height,
            final(self).report_progress == old(self).report_progress,
            final(self).orchard_spending_keys == old(self).orchard_spending_keys,
    {
        let vb = self.value_balance()?;
        let change = match vb.checked_sub(&self.fee) {
            Some(c) => c,
            None => {
                return Err(Error::InvalidAmount);
            },
        };
        if change.is_negative() {
            return Err(Error::ChangeIsNegative(change));
        }
        if change.is_positive() {
            let (ovk, addr) = match self.change_address {
                Some(ChangeAddress::SaplingChangeAddress(ovk, addr)) => (ovk, addr),
                None => match self.sapling_builder.get_candidate_change_address() {
                    Some(p) => p,
                    None => {
                        return Err(Error::NoChangeAddress);
                    },
                },
            };
            self.add_sapling_output(Some(ovk), addr, change, MemoBytes::empty())?;
        }
        Ok(change)
    }
    /// Builds the transaction: chooses the version, balances the pools with a
    /// change output, proves the shielded bundles, then authorizes every pool
    /// over the one unsigned transaction.
    pub fn build<P: TxProver>(self, prover: &P, progress: &mut Vec<Progress>) -> (r: Result<(Transaction, SaplingMetadata), Error>)
        requires
            self.wf(),
        ensures
            change_outcome(self) matches Err(e) ==> r == Err::<(Transaction, SaplingMetadata), Error>(e),
            r matches Err(e) ==> (change_outcome(self) is Err || is_authorization_failure(e)),
            r is Ok ==> built_from(self, r->Ok_0.0),
            change_outcome(self) is Ok && build_steps(self) == 0 && !orchard_in_use(self) ==> r is Ok,
            r is Ok ==> r->Ok_0.1.spend_indices@.len() == self.sapling_builder.spends@.len()
                && (r->Ok_0.0.sapling_bundle matches Some(sb) ==> r->Ok_0.1.output_indices@.len()
                == sb.shielded_outputs@.len()),
            final(progress)@.len() >= old(progress)@.len(),
            r matches Err(Error::SaplingBuild(SaplingError::SpendProof)) ==> self.sapling_builder.spends@.len() > 0,
            r == Err::<(Transaction, SaplingMetadata), Error>(Error::SaplingBuild(SaplingError::BindingSig))
                ==> change_outcome(self) is Ok && !(self.sapling_builder.spends@.len() == 0
                && self.sapling_builder.outputs@.len() == 0 && change_amount(self) == 0),
            r == Err::<(Transaction, SaplingMetadata), Error>(Error::OrchardBuild(OrchardError::Proof))
                || r == Err::<(Transaction, SaplingMetadata), Error>(Error::OrchardBuild(OrchardError::MissingSignatures))
                ==> change_outcome(self) is Ok && orchard_in_use(self),
            change_outcome(self) is Err || !self.report_progress || build_steps(self) > u32::MAX ==> final(progress)@ == old(progress)@,
            self.report_progress && change_outcome(self) is Ok && build_steps(self) <= u32::MAX ==> final(progress)@ == old(progress)@
                + progress_run(
                (final(progress)@.len() - old(progress)@.len()) as nat,
                build_steps(self) as u32,
            ) && final(progress)@.len() - old(progress)@.len() <= build_steps(self),
            r is Ok && self.report_progress && build_steps(self) <= u32::MAX ==> final(progress)@.len() - old(progress)@.len()
                == build_steps(self),
    {
        let consensus_branch_id = BranchId::for_height(&self.params, self.target_height);
        let version = TxVersion::suggested_for_branch(consensus_branch_id);
        let ghost pre = self;
        let mut this = self;
        let change = this.resolve_change()?;
        let ghost mid = this;
        proof {
            assert(this.sapling_builder.outputs@.len() == pre.sapling_builder.outputs@.len() + if change.value() > 0 {
                1int
            } else {
                0int
            });
        }
        let report = this.report_progress;
        let expiry_height = this.expiry_height;
        let transparent_bundle = this.transparent_builder.build();
        let sapling_bundle = match this.sapling_builder.build(prover, report, progress) {
            Ok(b) => b,
            Err(e) => {
                return Err(Error::SaplingBuild(e));
            },
        };
        let orchard_bundle = if this.contains_orchard {
            match &this.orchard_builder {
                Some(ob) => match ob.build() {
                    Ok(b) => b,
                    Err(e) => {
                        return Err(Error::OrchardBuild(e));
                    },
                },
                None => None,
            }
        } else {
            None
        };
        let unsigned = Transaction {
            version,
            consensus_branch_id,
            lock_time: 0,
            expiry_height,
            transparent_bundle,
            sapling_bundle,
            orchard_bundle,
        };
        // Every signature and proof below is made over the finished unsigned transaction.
        let sapling_sig: Option<Result<Vec<u8>, ()>> = match &unsigned.sapling_bundle {
            Some(sb) => Some(prover.binding_sig(sb.value_balance, &unsigned)),
            None => None,
        };
        let sapling_failed = match &sapling_sig {
            Some(Err(_)) => true,
            _ => false,
        };
        let (orchard_proof, orchard_sigs): (Option<Result<Vec<u8>, ()>>, Option<Result<Vec<u8>, ()>>) =
            if sapling_failed {
            (None, None)
        } else {
            match &unsigned.orchard_bundle {
                Some(obd) => {
                    let pf = prover.orchard_proof(obd);
                    if pf.is_err() {
                        (Some(pf), None)
                    } else {
                        let sigs = prover.orchard_signatures(obd, &unsigned, &this.orchard_spending_keys);
                        (Some(pf), Some(sigs))
                    }
                },
                None => (None, None),
            }
        };
        let r = authorize(unsigned, sapling_sig, orchard_proof, orchard_sigs);
        proof {
            lemma_empty_balances(pre, mid);
        }
        r
    }
}

} // verus!
