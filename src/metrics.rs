use vstd::prelude::*;

verus! {

/// Sum of the holding days of the trades.
pub open spec fn total_days(days: Seq<i64>) -> int
    decreases days.len(),
{
    if days.len() == 0 {
        0
    } else {
        total_days(days.drop_last()) + days.last()
    }
}

/// Days invested: each trade counts for at least one day.
pub open spec fn invested_days_of(days: Seq<i64>) -> int
    decreases days.len(),
{
    if days.len() == 0 {
        0
    } else {
        invested_days_of(days.drop_last()) + if days.last() >= 1 {
            days.last() as int
        } else {
            1
        }
    }
}

/// Performance statistics over an equity curve and a trade log.
pub struct MetricsCalculator;

impl MetricsCalculator {
    /// `Σ holding_days`, the numerator of the average trade duration.
    pub fn total_holding_days(days: &Vec<i64>) -> (r: i128)
        ensures
            r == total_days(days@),
    {
        let mut sum: i128 = 0;
        let mut i: usize = 0;
        while i < days.len()
            invariant
                i <= days.len(),
                sum == total_days(days@.take(i as int)),
                -(i as int) * 0x8000_0000_0000_0000 <= sum <= (i as int) * 0x7fff_ffff_ffff_ffff,
            decreases days.len() - i,
        {
            proof {
                assert(days@.take(i + 1).drop_last() =~= days@.take(i as int));
            }
            sum = sum + days[i] as i128;
            i = i + 1;
        }
        assert(days@.take(i as int) =~= days@);
        sum
    }

    /// `Σ max(holding_days, 1)`, the numerator of the exposure.
    pub fn invested_days(days: &Vec<i64>) -> (r: i128)
        ensures
            r == invested_days_of(days@),
            r >= days@.len(),
    {
        let mut sum: i128 = 0;
        let mut i: usize = 0;
        while i < days.len()
            invariant
                i <= days.len(),
                sum == invested_days_of(days@.take(i as int)),
                i <= sum <= (i as int) * 0x7fff_ffff_ffff_ffff,
            decreases days.len() - i,
        {
            proof {
                assert(days@.take(i + 1).drop_last() =~= days@.take(i as int));
            }
            let d = days[i];
            if d >= 1 {
                sum = sum + d as i128;
            } else {
                sum = sum + 1;
            }
            i = i + 1;
        }
        assert(days@.take(i as int) =~= days@);
        sum
    }
}

} // verus!
