//! Portfolio reports and the rule that picks the current value of a history.
use vstd::prelude::*;
use crate::decimal::{float_literal, Decimal};
use crate::error::{AdapterError, Field};
use crate::text::same_text;

verus! {

/// The histories of one reporting period.
pub struct PortfolioData {
    /// `(timestamp, decimal string)` pairs of the account value.
    pub account_value_history: Vec<(u64, String)>,
    /// `(timestamp, decimal string)` pairs of the profit and loss.
    pub pnl_history: Vec<(u64, String)>,
    pub vlm: String,
}

/// One reporting period (`day`, `week`, ...) of a portfolio.
pub struct PortfolioEntry {
    pub period: String,
    pub data: PortfolioData,
}

/// Position of the current pair of `h`: the one with the greatest timestamp,
/// the last of them where several share it (as `Iterator::max_by_key` picks).
pub open spec fn latest_index(h: Seq<(u64, String)>) -> Option<int>
    decreases h.len(),
{
    if h.len() == 0 {
        None
    } else {
        match latest_index(h.drop_last()) {
            None => Some(h.len() - 1),
            Some(j) => if h.last().0 >= h[j].0 {
                Some(h.len() - 1)
            } else {
                Some(j)
            },
        }
    }
}

/// `i` holds the greatest timestamp of `h`, and every later pair a smaller one.
pub open spec fn is_newest(h: Seq<(u64, String)>, i: int) -> bool {
    &&& 0 <= i < h.len()
    &&& forall|j: int| 0 <= j < h.len() ==> #[trigger] h[j].0 <= h[i].0
    &&& forall|j: int| i < j < h.len() ==> #[trigger] h[j].0 < h[i].0
}

proof fn lemma_latest_prefix(h: Seq<(u64, String)>)
    ensures
        h.len() == 0 <==> latest_index(h) is None,
        latest_index(h) matches Some(i) ==> is_newest(h, i),
    decreases h.len(),
{
    if h.len() > 0 {
        let p = h.drop_last();
        lemma_latest_prefix(p);
        match latest_index(p) {
            None => {},
            Some(j) => {
                assert(forall|k: int| 0 <= k < p.len() ==> p[k] == h[k]);
                if h.last().0 >= h[j].0 {
                    assert forall|k: int| 0 <= k < h.len() implies #[trigger] h[k].0 <= h[h.len()
                        - 1].0 by {
                        if k < p.len() {
                            assert(p[k].0 <= p[j].0);
                        }
                    }
                } else {
                    assert forall|k: int| 0 <= k < h.len() implies #[trigger] h[k].0 <= h[j].0 by {
                        if k < p.len() {
                            assert(p[k].0 <= p[j].0);
                        }
                    }
                    assert forall|k: int| j < k < h.len() implies #[trigger] h[k].0 < h[j].0 by {
                        if k < p.len() {
                            assert(p[k].0 < p[j].0);
                        }
                    }
                }
            },
        }
    }
}

/// The current value of a history is its newest pair, the last of the newest
/// where timestamps tie; no other position qualifies, so the choice is the
/// same on every run whatever the order of the history.
pub proof fn lemma_latest_is_newest(h: Seq<(u64, String)>, k: int)
    ensures
        h.len() > 0 ==> (latest_index(h) matches Some(i) && is_newest(h, i)),
        is_newest(h, k) ==> latest_index(h) == Some(k),
{
    lemma_latest_prefix(h);
    if is_newest(h, k) {
        let i = latest_index(h)->Some_0;
        if i < k {
            assert(h[k].0 < h[i].0);
            assert(h[i].0 <= h[k].0);
        } else if k < i {
            assert(h[i].0 < h[k].0);
            assert(h[k].0 <= h[i].0);
        }
    }
}

/// Position of the current pair of `h` (see [`latest_index`]).
pub fn latest(h: &Vec<(u64, String)>) -> (r: Option<usize>)
    ensures
        match r {
            Some(i) => i < h@.len() && latest_index(h@) == Some(i as int),
            None => latest_index(h@) is None,
        },
{
    let mut best: Option<usize> = None;
    let mut i: usize = 0;
    while i < h.len()
        invariant
            i <= h@.len(),
            match best {
                Some(b) => b < i && latest_index(h@.take(i as int)) == Some(b as int),
                None => i == 0 && latest_index(h@.take(i as int)) is None,
            },
        decreases h.len() - i,
    {
        proof {
            let t = h@.take(i + 1);
            assert(t.drop_last() =~= h@.take(i as int));
            assert(t.last() == h@[i as int]);
            if let Some(b) = best {
                assert(t[b as int] == h@[b as int]);
            }
        }
        best = match best {
            None => Some(i),
            Some(b) => if h[i].0 >= h[b].0 {
                Some(i)
            } else {
                Some(b)
            },
        };
        i = i + 1;
    }
    proof {
        assert(h@.take(i as int) =~= h@);
        lemma_latest_prefix(h@);
    }
    best
}

/// Position of the first entry of `entries` whose period is `day`.
pub open spec fn daily_index(entries: Seq<PortfolioEntry>) -> Option<int> {
    if exists|i: int| 0 <= i < entries.len() && #[trigger] entries[i].period@ == "day"@ {
        Some(
            choose|i: int|
                0 <= i < entries.len() && #[trigger] entries[i].period@ == "day"@ && forall|j: int|
                    0 <= j < i ==> #[trigger] entries[j].period@ != "day"@,
        )
    } else {
        None
    }
}

/// Position of the first entry whose period is `day`, if any.
pub fn daily(entries: &Vec<PortfolioEntry>) -> (r: Option<usize>)
    ensures
        match r {
            Some(i) => i < entries@.len() && daily_index(entries@) == Some(i as int),
            None => daily_index(entries@) is None,
        },
{
    let mut i: usize = 0;
    while i < entries.len()
        invariant
            i <= entries@.len(),
            forall|j: int| 0 <= j < i ==> #[trigger] entries@[j].period@ != "day"@,
        decreases entries.len() - i,
    {
        if same_text(entries[i].period.as_str(), "day") {
            proof {
                let e = entries@;
                assert(exists|k: int| 0 <= k < e.len() && #[trigger] e[k].period@ == "day"@) by {
                    assert(e[i as int].period@ == "day"@);
                }
                let k = daily_index(e)->Some_0;
                assert(0 <= k < e.len() && e[k].period@ == "day"@ && forall|j: int|
                    0 <= j < k ==> #[trigger] e[j].period@ != "day"@) by {
                    assert(0 <= i < e.len() && e[i as int].period@ == "day"@ && forall|j: int|
                        0 <= j < i ==> #[trigger] e[j].period@ != "day"@);
                }
                if k < i {
                    assert(e[k].period@ != "day"@);
                } else if i < k {
                    assert(e[i as int].period@ != "day"@);
                }
            }
            return Some(i);
        }
        i = i + 1;
    }
    None
}


/// The current `(account value, pnl)` texts of the daily entry of a
/// portfolio, or why there are none.
pub open spec fn daily_current(entries: Seq<PortfolioEntry>) -> Result<
    (Seq<char>, Seq<char>),
    AdapterError,
> {
    match daily_index(entries) {
        None => Err(AdapterError::NoDailyPeriod),
        Some(k) => {
            let d = entries[k].data;
            match latest_index(d.account_value_history@) {
                None => Err(AdapterError::EmptyHistory(Field::AccountValue)),
                Some(a) => match latest_index(d.pnl_history@) {
                    None => Err(AdapterError::EmptyHistory(Field::Pnl)),
                    Some(p) => Ok((d.account_value_history@[a].1@, d.pnl_history@[p].1@)),
                },
            }
        },
    }
}

/// The current account-value text of the daily entry, or why there is none.
pub open spec fn daily_account_value(entries: Seq<PortfolioEntry>) -> Result<Seq<char>, AdapterError> {
    match daily_index(entries) {
        None => Err(AdapterError::NoDailyPeriod),
        Some(k) => {
            let h = entries[k].data.account_value_history@;
            match latest_index(h) {
                None => Err(AdapterError::EmptyHistory(Field::AccountValue)),
                Some(a) => Ok(h[a].1@),
            }
        },
    }
}

/// Parses a decimal string that must be a number; the error names `f`.
pub fn strict_decimal(s: &str, f: Field) -> (r: Result<Decimal, AdapterError>)
    ensures
        match r {
            Ok(d) => float_literal(s@) && d@ == s@,
            Err(e) => !float_literal(s@) && e == AdapterError::NumericParse(f),
        },
{
    match Decimal::parse(s) {
        Some(d) => Ok(d),
        None => Err(AdapterError::NumericParse(f)),
    }
}

/// The current account value and pnl of a portfolio's daily entry, parsed.
pub fn current_values(entries: &Vec<PortfolioEntry>) -> (r: Result<(Decimal, Decimal), AdapterError>)
    ensures
        match daily_current(entries@) {
            Err(e) => r matches Err(x) && x == e,
            Ok((av, pnl)) => if !float_literal(av) {
                r matches Err(x) && x == AdapterError::NumericParse(Field::AccountValue)
            } else if !float_literal(pnl) {
                r matches Err(x) && x == AdapterError::NumericParse(Field::Pnl)
            } else {
                r matches Ok((a, p)) && a@ == av && p@ == pnl
            },
        },
{
    let k = match daily(entries) {
        Some(k) => k,
        None => return Err(AdapterError::NoDailyPeriod),
    };
    let d = &entries[k].data;
    let a = match latest(&d.account_value_history) {
        Some(a) => a,
        None => return Err(AdapterError::EmptyHistory(Field::AccountValue)),
    };
    let p = match latest(&d.pnl_history) {
        Some(p) => p,
        None => return Err(AdapterError::EmptyHistory(Field::Pnl)),
    };
    let value = strict_decimal(d.account_value_history[a].1.as_str(), Field::AccountValue)?;
    let pnl = strict_decimal(d.pnl_history[p].1.as_str(), Field::Pnl)?;
    Ok((value, pnl))
}

/// The current account value of a portfolio's daily entry, parsed.
pub fn current_account_value(entries: &Vec<PortfolioEntry>) -> (r: Result<Decimal, AdapterError>)
    ensures
        match daily_account_value(entries@) {
            Err(e) => r matches Err(x) && x == e,
            Ok(av) => if !float_literal(av) {
                r matches Err(x) && x == AdapterError::NumericParse(Field::AccountValue)
            } else {
                r matches Ok(a) && a@ == av
            },
        },
{
    let k = match daily(entries) {
        Some(k) => k,
        None => return Err(AdapterError::NoDailyPeriod),
    };
    let h = &entries[k].data.account_value_history;
    let a = match latest(h) {
        Some(a) => a,
        None => return Err(AdapterError::EmptyHistory(Field::AccountValue)),
    };
    strict_decimal(h[a].1.as_str(), Field::AccountValue)
}

} // verus!
