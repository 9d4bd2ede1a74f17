//! The second shielded pool: actions that spend and create notes under one anchor.
use vstd::prelude::*;
use crate::amount::{Amount, amounts_view, checked_sum, in_range, lemma_none_stays, sum_amounts};
use crate::sapling::{MemoBytes, bytes_eq};

verus! {

/// Errors of building or authorizing the pool's bundle.
#[derive(Clone, Copy, Debug, PartialEq, Eq)]
pub enum OrchardError {
    MissingSignatures,
    Proof,
    ValueSum,
}

/// A spending key of the pool; its spend authorizing key signs the spends.
#[derive(Clone, Copy, Debug, PartialEq, Eq)]
pub struct OrchardSpendingKey(pub [u8; 32]);

/// A payment address of the pool.
#[derive(Clone, Copy, Debug, PartialEq, Eq)]
pub struct OrchardAddress(pub [u8; 43]);

/// A spendable note of the pool.
#[derive(Clone, Copy, Debug, PartialEq, Eq)]
pub struct OrchardNote {
    pub recipient: OrchardAddress,
    pub value: u64,
}

/// An output of the pool to be created.
#[derive(Clone, Debug, PartialEq, Eq)]
pub struct OrchardRecipient {
    pub ovk: Option<[u8; 32]>,
    pub recipient: OrchardAddress,
    pub value: u64,
    pub memo: MemoBytes,
}

/// The pool's bundle; `proof` and the signatures are set by authorization.
#[derive(Clone, Debug, PartialEq, Eq)]
pub struct OrchardBundle {
    pub anchor: [u8; 32],
    pub num_actions: usize,
    pub value_balance: Amount,
    pub proof: Option<Vec<u8>>,
    pub signatures: Option<Vec<u8>>,
}

/// The message the pool's builder gives when a spend's anchor differs.
pub const ANCHOR_MISMATCH: &'static str = "All anchors must be equal.";

pub open spec fn u64_view(s: Seq<u64>) -> Seq<int> {
    s.map_values(|x: u64| x as int)
}

/// Sums values from the left, failing once a term or a partial sum leaves the range.
pub fn sum_values(v: &Vec<u64>) -> (r: Option<Amount>)
    ensures
        r is Some <==> checked_sum(u64_view(v@)) is Some,
        r matches Some(a) ==> a.wf() && checked_sum(u64_view(v@)) == Some(a.value()),
{
    let mut av: Vec<Amount> = Vec::new();
    let mut i: usize = 0;
    while i < v.len()
        invariant
            i <= v.len(),
            av@.len() == i,
            forall|j: int| 0 <= j < i ==> (#[trigger] av@[j]).value() == v@[j] as int,
        decreases v.len() - i,
    {
        match Amount::from_u64(v[i]) {
            Ok(x) => {
                av.push(x);
            },
            Err(_) => {
                proof {
                    let s = u64_view(v@);
                    assert(s.subrange(0, i as int + 1).drop_last() =~= s.subrange(0, i as int));
                    lemma_none_stays(s, i as int + 1);
                }
                return None;
            },
        }
        i = i + 1;
    }
    assert(amounts_view(av@) =~= u64_view(v@));
    sum_amounts(&av)
}

/// Accumulates the spends and outputs of the pool, under the anchor fixed at creation.
pub struct OrchardBuilder {
    pub anchor: [u8; 32],
    pub spends: Vec<OrchardNote>,
    pub recipients: Vec<OrchardRecipient>,
}

pub open spec fn note_values(s: Seq<OrchardNote>) -> Seq<int> {
    s.map_values(|n: OrchardNote| n.value as int)
}

pub open spec fn recipient_values(s: Seq<OrchardRecipient>) -> Seq<int> {
    s.map_values(|o: OrchardRecipient| o.value as int)
}

/// Spends less outputs, where both sums and their difference are in range.
pub open spec fn orchard_balance(b: OrchardBuilder) -> Option<int> {
    match (checked_sum(note_values(b.spends@)), checked_sum(recipient_values(b.recipients@))) {
        (Some(a), Some(c)) => if in_range(a - c) {
            Some(a - c)
        } else {
            None
        },
        _ => None,
    }
}

impl OrchardBuilder {
    pub fn new(anchor: [u8; 32]) -> (r: OrchardBuilder)
        ensures
            r.anchor == anchor,
            r.spends@.len() == 0,
            r.recipients@.len() == 0,
    {
        OrchardBuilder { anchor, spends: Vec::new(), recipients: Vec::new() }
    }

    /// Adds a note to spend; refused where its path leads to another anchor.
    pub fn add_spend(&mut self, note: OrchardNote, path_anchor: [u8; 32]) -> (r: Result<(), &'static str>)
        ensures
            r is Err <==> old(self).anchor@ != path_anchor@,
            r is Err ==> r == Err::<(), &'static str>(ANCHOR_MISMATCH) && *final(self) == *old(self),
            r is Ok ==> final(self).spends@ == old(self).spends@.push(note),
            final(self).recipients@ == old(self).recipients@,
            final(self).anchor == old(self).anchor,
    {
        if !bytes_eq(&self.anchor, &path_anchor) {
            return Err(ANCHOR_MISMATCH);
        }
        self.spends.push(note);
        Ok(())
    }

    /// Adds an output.
    pub fn add_recipient(&mut self, out: OrchardRecipient)
        ensures
            final(self).recipients@ == old(self).recipients@.push(out),
            final(self).spends@ == old(self).spends@,
            final(self).anchor == old(self).anchor,
    {
        self.recipients.push(out);
    }

    /// Spends less outputs, or `None` where a sum leaves the money range.
    pub fn value_balance(&self) -> (r: Option<Amount>)
        ensures
            r is Some <==> orchard_balance(*self) is Some,
            r matches Some(a) ==> a.wf() && orchard_balance(*self) == Some(a.value()),
    {
        let mut sv: Vec<u64> = Vec::new();
        let mut i: usize = 0;
        while i < self.spends.len()
            invariant
                i <= self.spends@.len(),
                sv@.len() == i,
                forall|j: int| 0 <= j < i ==> sv@[j] == (#[trigger] self.spends@[j]).value,
            decreases self.spends@.len() - i,
        {
            sv.push(self.spends[i].value);
            i = i + 1;
        }
        let mut ov: Vec<u64> = Vec::new();
        let mut k: usize = 0;
        while k < self.recipients.len()
            invariant
                k <= self.recipients@.len(),
                ov@.len() == k,
                forall|j: int| 0 <= j < k ==> ov@[j] == (#[trigger] self.recipients@[j]).value,
            decreases self.recipients@.len() - k,
        {
            ov.push(self.recipients[k].value);
            k = k + 1;
        }
        assert(u64_view(sv@) =~= note_values(self.spends@));
        assert(u64_view(ov@) =~= recipient_values(self.recipients@));
        match (sum_values(&sv), sum_values(&ov)) {
            (Some(a), Some(c)) => a.checked_sub(&c),
            _ => None,
        }
    }

    /// The unproved bundle: one action per spend or output, whichever are more;
    /// absent where there are neither.
    pub fn build(&self) -> (r: Result<Option<OrchardBundle>, OrchardError>)
        ensures
            r is Err <==> orchard_balance(*self) is None && self.spends@.len()
                + self.recipients@.len() > 0,
            r is Err ==> r == Err::<Option<OrchardBundle>, OrchardError>(OrchardError::ValueSum),
            r matches Ok(ob) ==> (ob is None <==> self.spends@.len() + self.recipients@.len() == 0),
            r matches Ok(Some(b)) ==> {
                &&& orchard_balance(*self) == Some(b.value_balance.value())
                &&& b.value_balance.wf()
                &&& b.anchor == self.anchor
                &&& b.proof is None
                &&& b.signatures is None
                &&& b.num_actions >= self.spends@.len()
                &&& b.num_actions >= self.recipients@.len()
            },
    {
        if self.spends.len() == 0 && self.recipients.len() == 0 {
            return Ok(None);
        }
        let vb = match self.value_balance() {
            Some(vb) => vb,
            None => {
                return Err(OrchardError::ValueSum);
            },
        };
        let n = if self.spends.len() > self.recipients.len() {
            self.spends.len()
        } else {
            self.recipients.len()
        };
        Ok(
            Some(
                OrchardBundle {
                    anchor: self.anchor,
                    num_actions: n,
                    value_balance: vb,
                    proof: None,
                    signatures: None,
                },
            ),
        )
    }
}

} // verus!
