//! Monetary amounts in zatoshis, bounded by the total money supply.
use vstd::prelude::*;

verus! {

/// The largest amount that can be held: 21 million coins of 10^8 zatoshis.
pub const MAX_MONEY: i64 = 2_100_000_000_000_000;

/// The fee a builder charges unless told otherwise.
pub const DEFAULT_FEE_ZAT: i64 = 1_000;

/// Whether an integer is a representable amount.
pub open spec fn in_range(v: int) -> bool {
    -(MAX_MONEY as int) <= v && v <= MAX_MONEY as int
}

/// One step of a checked sum: fails once a term or a partial sum leaves the range.
pub open spec fn sum_step(acc: Option<int>, x: int) -> Option<int> {
    match acc {
        Some(p) => if in_range(x) && in_range(p + x) {
            Some(p + x)
        } else {
            None
        },
        None => None,
    }
}

/// The checked sum of a sequence, added from the left.
pub open spec fn checked_sum(s: Seq<int>) -> Option<int>
    decreases s.len(),
{
    if s.len() == 0 {
        Some(0)
    } else {
        sum_step(checked_sum(s.drop_last()), s.last())
    }
}

/// A signed number of zatoshis within `-MAX_MONEY ..= MAX_MONEY`.
#[derive(Clone, Copy, Debug, PartialEq, Eq, Structural)]
pub struct Amount(pub i64);

impl Amount {
    pub open spec fn wf(self) -> bool {
        in_range(self.0 as int)
    }

    pub open spec fn value(self) -> int {
        self.0 as int
    }

    pub fn zero() -> (r: Amount)
        ensures
            r.wf(),
            r.value() == 0,
    {
        Amount(0)
    }

    /// The default fee.
    pub fn default_fee() -> (r: Amount)
        ensures
            r.wf(),
            r.value() == DEFAULT_FEE_ZAT,
    {
        Amount(DEFAULT_FEE_ZAT)
    }

    /// Reads a signed amount; fails outside the money range.
    pub fn from_i64(v: i64) -> (r: Result<Amount, ()>)
        ensures
            r is Ok <==> in_range(v as int),
            r matches Ok(a) ==> a.wf() && a.value() == v,
    {
        if -MAX_MONEY <= v && v <= MAX_MONEY {
            Ok(Amount(v))
        } else {
            Err(())
        }
    }

    /// Reads an unsigned amount; fails above the money supply.
    pub fn from_u64(v: u64) -> (r: Result<Amount, ()>)
        ensures
            r is Ok <==> v <= MAX_MONEY,
            r matches Ok(a) ==> a.wf() && a.value() == v,
    {
        if v <= MAX_MONEY as u64 {
            Ok(Amount(v as i64))
        } else {
            Err(())
        }
    }

    pub fn is_negative(&self) -> (r: bool)
        ensures
            r == (self.value() < 0),
    {
        self.0 < 0
    }

    pub fn is_positive(&self) -> (r: bool)
        ensures
            r == (self.value() > 0),
    {
        self.0 > 0
    }

    /// Checked addition: `None` when the sum leaves the money range.
    pub fn checked_add(&self, o: &Amount) -> (r: Option<Amount>)
        requires
            self.wf(),
            o.wf(),
        ensures
            r is Some <==> in_range(self.value() + o.value()),
            r matches Some(a) ==> a.wf() && a.value() == self.value() + o.value(),
    {
        let s = self.0 + o.0;
        if -MAX_MONEY <= s && s <= MAX_MONEY {
            Some(Amount(s))
        } else {
            None
        }
    }

    /// Checked subtraction: `None` when the difference leaves the money range.
    pub fn checked_sub(&self, o: &Amount) -> (r: Option<Amount>)
        requires
            self.wf(),
            o.wf(),
        ensures
            r is Some <==> in_range(self.value() - o.value()),
            r matches Some(a) ==> a.wf() && a.value() == self.value() - o.value(),
    {
        let s = self.0 - o.0;
        if -MAX_MONEY <= s && s <= MAX_MONEY {
            Some(Amount(s))
        } else {
            None
        }
    }
}

/// The view of a vector of amounts as integers.
pub open spec fn amounts_view(v: Seq<Amount>) -> Seq<int> {
    v.map_values(|a: Amount| a.value())
}

/// Sums amounts from the left, failing once a partial sum leaves the range.
pub fn sum_amounts(v: &Vec<Amount>) -> (r: Option<Amount>)
    ensures
        r is Some <==> checked_sum(amounts_view(v@)) is Some,
        r matches Some(a) ==> a.wf() && checked_sum(amounts_view(v@)) == Some(a.value()),
{
    let mut acc: Amount = Amount(0);
    let mut i: usize = 0;
    while i < v.len()
        invariant
            i <= v.len(),
            acc.wf(),
            checked_sum(amounts_view(v@.subrange(0, i as int))) == Some(acc.value()),
        decreases v.len() - i,
    {
        let x = v[i];
        proof {
            let s = amounts_view(v@.subrange(0, i as int + 1));
            assert(s.drop_last() =~= amounts_view(v@.subrange(0, i as int)));
        }
        if !(-MAX_MONEY <= x.0 && x.0 <= MAX_MONEY) {
            proof {
                assert(amounts_view(v@.subrange(0, i as int + 1)) =~= amounts_view(v@).subrange(0, i as int + 1));
                lemma_none_stays(amounts_view(v@), i as int + 1);
            }
            return None;
        }
        match acc.checked_add(&x) {
            Some(n) => {
                acc = n;
            },
            None => {
                proof {
                    assert(amounts_view(v@.subrange(0, i as int + 1)) =~= amounts_view(v@).subrange(0, i as int + 1));
                lemma_none_stays(amounts_view(v@), i as int + 1);
            }
                return None;
            },
        }
        i = i + 1;
    }
    assert(v@.subrange(0, v.len() as int) =~= v@);
    Some(acc)
}

/// Once a checked sum fails on a prefix it fails on every longer prefix.
pub proof fn lemma_none_stays(s: Seq<int>, k: int)
    requires
        0 <= k <= s.len(),
        checked_sum(s.subrange(0, k)) is None,
    ensures
        checked_sum(s) is None,
    decreases s.len() - k,
{
    if k < s.len() {
        assert(s.subrange(0, k + 1).drop_last() =~= s.subrange(0, k));
        lemma_none_stays(s, k + 1);
    } else {
        assert(s.subrange(0, k) =~= s);
    }
}

} // verus!
