//! The first shielded pool: note spends and outputs, their proofs, and the
//! running value balance.
use vstd::prelude::*;
use crate::amount::{Amount, MAX_MONEY, in_range};
use crate::progress::{Progress, progress_run};
use crate::prover::TxProver;

verus! {

/// Errors of the shielded pool.
#[derive(Clone, Copy, Debug, PartialEq, Eq)]
pub enum SaplingError {
    AnchorMismatch,
    BindingSig,
    InvalidAmount,
    SpendProof,
}

/// A key that lets the sender decrypt the outputs it made.
#[derive(Clone, Copy, Debug, PartialEq, Eq)]
pub struct OutgoingViewingKey(pub [u8; 32]);

/// A shielded payment address.
#[derive(Clone, Copy, Debug, PartialEq, Eq)]
pub struct PaymentAddress {
    pub diversifier: [u8; 11],
    pub pk_d: [u8; 32],
}

/// A spendable note: its owner's address and its value.
#[derive(Clone, Copy, Debug, PartialEq, Eq)]
pub struct Note {
    pub recipient: PaymentAddress,
    pub value: u64,
}

/// The memo field of a shielded output.
#[derive(Clone, Debug, PartialEq, Eq)]
pub struct MemoBytes(pub Vec<u8>);

/// The memo field's width.
pub const MEMO_SIZE: usize = 512;

/// The memo that says "no memo": 0xF6 followed by zeros.
pub open spec fn empty_memo_bytes() -> Seq<u8> {
    Seq::new(MEMO_SIZE as nat, |i: int| if i == 0 { 0xF6u8 } else { 0u8 })
}

impl MemoBytes {
    pub fn empty() -> (r: MemoBytes)
        ensures
            r.0@ == empty_memo_bytes(),
    {
        let mut v: Vec<u8> = vec![0xF6u8];
        while v.len() < MEMO_SIZE
            invariant
                1 <= v@.len() <= MEMO_SIZE,
                v@[0] == 0xF6u8,
                forall|j: int| 1 <= j < v@.len() ==> v@[j] == 0u8,
            decreases MEMO_SIZE - v@.len(),
        {
            v.push(0u8);
        }
        assert(v@ =~= empty_memo_bytes());
        MemoBytes(v)
    }
}

/// A note to be spent, with the outgoing viewing key of its spending key and the
/// root of the tree its witness leads to.
#[derive(Clone, Copy, Debug, PartialEq, Eq)]
pub struct SpendInfo {
    pub ovk: OutgoingViewingKey,
    pub note: Note,
    pub anchor: [u8; 32],
}

/// An output to be created.
#[derive(Clone, Debug, PartialEq, Eq)]
pub struct OutputInfo {
    pub ovk: Option<OutgoingViewingKey>,
    pub to: PaymentAddress,
    pub value: Amount,
    pub memo: MemoBytes,
}

/// A proved spend.
#[derive(Clone, Debug, PartialEq, Eq)]
pub struct SpendDescription {
    pub anchor: [u8; 32],
    pub proof: Vec<u8>,
}

/// A proved output.
#[derive(Clone, Debug, PartialEq, Eq)]
pub struct OutputDescription {
    pub proof: Vec<u8>,
}

/// The shielded bundle of a transaction; `binding_sig` is set by authorization.
#[derive(Clone, Debug, PartialEq, Eq)]
pub struct SaplingBundle {
    pub shielded_spends: Vec<SpendDescription>,
    pub shielded_outputs: Vec<OutputDescription>,
    pub value_balance: Amount,
    pub binding_sig: Option<Vec<u8>>,
}

/// Where each spend and output went in the bundle.
#[derive(Clone, Debug, PartialEq, Eq)]
pub struct SaplingMetadata {
    pub spend_indices: Vec<usize>,
    pub output_indices: Vec<usize>,
}

impl SaplingMetadata {
    pub fn empty() -> (r: SaplingMetadata)
        ensures
            r.spend_indices@.len() == 0,
            r.output_indices@.len() == 0,
    {
        SaplingMetadata { spend_indices: Vec::new(), output_indices: Vec::new() }
    }
}

/// The plain sum of a sequence.
pub open spec fn seq_sum(s: Seq<int>) -> int
    decreases s.len(),
{
    if s.len() == 0 {
        0
    } else {
        seq_sum(s.drop_last()) + s.last()
    }
}

pub proof fn lemma_seq_sum_push(s: Seq<int>, x: int)
    ensures
        seq_sum(s.push(x)) == seq_sum(s) + x,
{
    assert(s.push(x).drop_last() =~= s);
}

pub open spec fn spend_values(s: Seq<SpendInfo>) -> Seq<int> {
    s.map_values(|sp: SpendInfo| sp.note.value as int)
}

pub open spec fn output_values(s: Seq<OutputInfo>) -> Seq<int> {
    s.map_values(|o: OutputInfo| o.value.value())
}

/// Whether a fixed anchor exists and differs from `anchor`.
pub open spec fn anchor_differs(fixed: Option<[u8; 32]>, anchor: [u8; 32]) -> bool {
    match fixed {
        Some(a) => a@ != anchor@,
        None => false,
    }
}

/// Compares two byte strings of one width.
pub fn bytes_eq(a: &[u8; 32], b: &[u8; 32]) -> (r: bool)
    ensures
        r == (a@ == b@),
{
    let mut i: usize = 0;
    while i < 32
        invariant
            i <= 32,
            a@.len() == 32,
            b@.len() == 32,
            forall|j: int| 0 <= j < i ==> a@[j] == b@[j],
        decreases 32 - i,
    {
        if a[i] != b[i] {
            return false;
        }
        i = i + 1;
    }
    assert(a@ =~= b@);
    true
}

/// Accumulates the spends and outputs of the shielded pool.
pub struct SaplingBuilder {
    pub anchor: Option<[u8; 32]>,
    pub value_balance: Amount,
    pub spends: Vec<SpendInfo>,
    pub outputs: Vec<OutputInfo>,
}

impl SaplingBuilder {
    /// Spends less outputs, kept within range; every spend shares the anchor.
    pub open spec fn wf(&self) -> bool {
        &&& self.value_balance.wf()
        &&& self.value_balance.value() == seq_sum(spend_values(self.spends@)) - seq_sum(
            output_values(self.outputs@),
        )
        &&& forall|i: int|
            0 <= i < self.outputs@.len() ==> (#[trigger] self.outputs@[i]).value.wf()
                && self.outputs@[i].value.value() >= 0
        &&& self.spends@.len() > 0 ==> self.anchor is Some
        &&& forall|i: int|
            0 <= i < self.spends@.len() ==> self.anchor == Some((#[trigger] self.spends@[i]).anchor)
    }

    pub fn new() -> (r: SaplingBuilder)
        ensures
            r.wf(),
            r.anchor is None,
            r.spends@.len() == 0,
            r.outputs@.len() == 0,
    {
        SaplingBuilder {
            anchor: None,
            value_balance: Amount::zero(),
            spends: Vec::new(),
            outputs: Vec::new(),
        }
    }

    /// Adds a note to spend. A value the balance cannot take is refused; so is
    /// a spend whose path leads to another anchor than earlier spends. The first
    /// spend that is taken fixes the anchor.
    pub fn add_spend(&mut self, ovk: OutgoingViewingKey, note: Note, anchor: [u8; 32]) -> (r: Result<(), SaplingError>)
        requires
            old(self).wf(),
        ensures
            final(self).wf(),
            (r == Err::<(), SaplingError>(SaplingError::InvalidAmount)) <==> !(note.value <= MAX_MONEY
                && in_range(old(self).value_balance.value() + note.value)),
            (r == Err::<(), SaplingError>(SaplingError::AnchorMismatch)) <==> (note.value <= MAX_MONEY
                && in_range(old(self).value_balance.value() + note.value) && anchor_differs(
                old(self).anchor,
                anchor,
            )),
            r is Err ==> r == Err::<(), SaplingError>(SaplingError::AnchorMismatch) || r == Err::<
                (),
                SaplingError,
            >(SaplingError::InvalidAmount),
            r is Err ==> *final(self) == *old(self),
            r is Ok ==> final(self).spends@ == old(self).spends@.push(SpendInfo { ovk, note, anchor })
                && final(self).value_balance.value() == old(self).value_balance.value() + note.value
                && final(self).anchor == Some(anchor) && final(self).outputs == old(self).outputs,
    {
        let v = match Amount::from_u64(note.value) {
            Ok(v) => v,
            Err(_) => {
                return Err(SaplingError::InvalidAmount);
            },
        };
        let nb = match self.value_balance.checked_add(&v) {
            Some(nb) => nb,
            None => {
                return Err(SaplingError::InvalidAmount);
            },
        };
        if let Some(a) = self.anchor {
            if !bytes_eq(&a, &anchor) {
                return Err(SaplingError::AnchorMismatch);
            }
            proof {
                assert(a =~= anchor);
            }
        }
        proof {
            lemma_seq_sum_push(spend_values(self.spends@), note.value as int);
            assert(spend_values(self.spends@.push(SpendInfo { ovk, note, anchor }))
                =~= spend_values(self.spends@).push(note.value as int));
        }
        self.anchor = Some(anchor);
        self.value_balance = nb;
        self.spends.push(SpendInfo { ovk, note, anchor });
        Ok(())
    }

    /// Adds an output. A negative value, or one the balance cannot take, is refused.
    pub fn add_output(
        &mut self,
        ovk: Option<OutgoingViewingKey>,
        to: PaymentAddress,
        value: Amount,
        memo: MemoBytes,
    ) -> (r: Result<(), SaplingError>)
        requires
            old(self).wf(),
            value.wf(),
        ensures
            final(self).wf(),
            r is Err <==> (value.value() < 0 || !in_range(
                old(self).value_balance.value() - value.value(),
            )),
            r is Err ==> r == Err::<(), SaplingError>(SaplingError::InvalidAmount) && final(self).outputs@ == old(self).outputs@ && final(self).value_balance == old(self).value_balance,
            r is Ok ==> final(self).outputs@ == old(self).outputs@.push(
                OutputInfo { ovk, to, value, memo },
            ) && final(self).value_balance.value() == old(self).value_balance.value()
                - value.value(),
            final(self).spends@ == old(self).spends@,
            final(self).anchor == old(self).anchor,
    {
        if value.is_negative() {
            return Err(SaplingError::InvalidAmount);
        }
        let nb = match self.value_balance.checked_sub(&value) {
            Some(nb) => nb,
            None => {
                return Err(SaplingError::InvalidAmount);
            },
        };
        let ghost out = OutputInfo { ovk, to, value, memo };
        proof {
            lemma_seq_sum_push(output_values(self.outputs@), value.value());
            assert(output_values(self.outputs@.push(out)) =~= output_values(self.outputs@).push(
                value.value(),
            ));
        }
        self.value_balance = nb;
        self.outputs.push(OutputInfo { ovk, to, value, memo });
        Ok(())
    }

    /// The key and address of the first spend: where change goes by default.
    pub fn get_candidate_change_address(&self) -> (r: Option<(OutgoingViewingKey, PaymentAddress)>)
        ensures
            r is None <==> self.spends@.len() == 0,
            r matches Some(p) ==> p == (self.spends@[0].ovk, self.spends@[0].note.recipient),
    {
        if self.spends.len() == 0 {
            None
        } else {
            Some((self.spends[0].ovk, self.spends[0].note.recipient))
        }
    }
    /// Proves every spend and then every output, reporting one step after each
    /// proof when `report` is set. Absent where there is nothing to prove.
    pub fn build<P: TxProver>(self, prover: &P, report: bool, progress: &mut Vec<Progress>) -> (r:
        Result<Option<SaplingBundle>, SaplingError>)
        requires
            self.wf(),
        ensures
            final(progress)@.len() >= old(progress)@.len(),
            final(progress)@.len() - old(progress)@.len() <= self.spends@.len() + self.outputs@.len(),
            r is Err ==> self.spends@.len() > 0,
            report && self.spends@.len() + self.outputs@.len() <= u32::MAX ==> final(progress)@ == old(progress)@ + progress_run(
                (final(progress)@.len() - old(progress)@.len()) as nat,
                (self.spends@.len() + self.outputs@.len()) as u32,
            ),
            !(report && self.spends@.len() + self.outputs@.len() <= u32::MAX) ==> final(progress)@
                == old(progress)@,
            r is Err ==> r == Err::<Option<SaplingBundle>, SaplingError>(SaplingError::SpendProof),
            r is Ok && report && self.spends@.len() + self.outputs@.len() <= u32::MAX ==> final(progress)@.len() - old(progress)@.len() == self.spends@.len()
                + self.outputs@.len(),
            self.spends@.len() + self.outputs@.len() == 0 ==> r == Ok::<
                Option<SaplingBundle>,
                SaplingError,
            >(None),
            r matches Ok(ob) ==> (ob is None <==> self.spends@.len() + self.outputs@.len() == 0),
            r matches Ok(Some(b)) ==> {
                &&& b.shielded_spends@.len() == self.spends@.len()
                &&& b.shielded_outputs@.len() == self.outputs@.len()
                &&& b.value_balance == self.value_balance
                &&& b.binding_sig is None
                &&& forall|i: int|
                    0 <= i < self.spends@.len() ==> (#[trigger] b.shielded_spends@[i]).anchor
                        == self.spends@[i].anchor
            },
    {
        if self.spends.len() == 0 && self.outputs.len() == 0 {
            return Ok(None);
        }
        // Progress is advisory: a count that a report cannot hold is not reported.
        let fits = self.spends.len() <= u32::MAX as usize && self.outputs.len() <= u32::MAX as usize
            - self.spends.len();
        let reporting = report && fits;
        let total: u32 = if fits {
            (self.spends.len() + self.outputs.len()) as u32
        } else {
            0
        };
        let ghost start = progress@;
        let mut done: u32 = 0;
        let mut spends: Vec<SpendDescription> = Vec::new();
        let mut i: usize = 0;
        while i < self.spends.len()
            invariant
                i <= self.spends@.len(),
                reporting ==> total == self.spends@.len() + self.outputs@.len(),
                reporting ==> done == i,
                spends@.len() == i,
                forall|j: int| 0 <= j < i ==> (#[trigger] spends@[j]).anchor == self.spends@[j].anchor,
                reporting ==> progress@ == start + progress_run(done as nat, total),
                !reporting ==> progress@ == start,
                start == old(progress)@,
                reporting == (report && self.spends@.len() + self.outputs@.len() <= u32::MAX),
            decreases self.spends@.len() - i,
        {
            let proof = match prover.spend_proof(&self.spends[i]) {
                Ok(p) => p,
                Err(_) => {
                    return Err(SaplingError::SpendProof);
                },
            };
            spends.push(SpendDescription { anchor: self.spends[i].anchor, proof });
            if reporting {
                done = done + 1;
                progress.push(Progress::new(done, Some(total)));
                proof {
                    assert(start + progress_run(done as nat, total) =~= (start + progress_run(
                        (done - 1) as nat,
                        total,
                    )).push(Progress { cur: done, end: Some(total) }));
                }
            }
            i = i + 1;
        }
        let mut outputs: Vec<OutputDescription> = Vec::new();
        let mut k: usize = 0;
        while k < self.outputs.len()
            invariant
                k <= self.outputs@.len(),
                reporting ==> total == self.spends@.len() + self.outputs@.len(),
                reporting ==> done == self.spends@.len() + k,
                outputs@.len() == k,
                reporting ==> progress@ == start + progress_run(done as nat, total),
                !reporting ==> progress@ == start,
                start == old(progress)@,
                reporting == (report && self.spends@.len() + self.outputs@.len() <= u32::MAX),
            decreases self.outputs@.len() - k,
        {
            let proof = prover.output_proof(&self.outputs[k]);
            outputs.push(OutputDescription { proof });
            if reporting {
                done = done + 1;
                progress.push(Progress::new(done, Some(total)));
                proof {
                    assert(start + progress_run(done as nat, total) =~= (start + progress_run(
                        (done - 1) as nat,
                        total,
                    )).push(Progress { cur: done, end: Some(total) }));
                }
            }
            k = k + 1;
        }
        Ok(
            Some(
                SaplingBundle {
                    shielded_spends: spends,
                    shielded_outputs: outputs,
                    value_balance: self.value_balance,
                    binding_sig: None,
                },
            ),
        )
    }
}

} // verus!
