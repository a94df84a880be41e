use vstd::prelude::*;
use crate::earnings::{median_of, percentile_spec};
use crate::estimate::{
    anchor_cents, base_salary_spec, loading_pct, overtime_multiplier_spec,
    profile_appetite_factor, profile_industry_factor, seniority_factor, MAX_BASE_CENTS,
    MIN_BASE_CENTS,
};
use crate::loyalty::spec_blocks_upto;
use crate::models::{EmploymentType, Position, SeniorityLevel, UserProfile};

verus! {

/// The base salary estimate always lies between the smallest and largest
/// anchor with loading applied.
pub proof fn lemma_base_salary_bounds(p: Position)
    ensures
        MIN_BASE_CENTS <= base_salary_spec(p) <= MAX_BASE_CENTS,
{
    let a = anchor_cents(p.seniority_level);
    let l = loading_pct(p.employment_type);
    assert(6_000_000int * 100 <= a * l <= 25_000_000int * 125) by (nonlinear_arith)
        requires
            6_000_000 <= a <= 25_000_000,
            100 <= l <= 125,
    ;
    vstd::arithmetic::div_mod::lemma_div_is_ordered(6_000_000int * 100, a * l, 100);
    vstd::arithmetic::div_mod::lemma_div_is_ordered(a * l, 25_000_000int * 125, 100);
}

/// A Permanent position at Entry seniority is estimated at exactly 60000
/// dollars: the anchor, with no loading.
pub proof fn lemma_permanent_entry_base(p: Position)
    requires
        p.employment_type == EmploymentType::Permanent,
        p.seniority_level == SeniorityLevel::Entry,
    ensures
        base_salary_spec(p) == 6_000_000,
{
}

/// The employment-type loading is exact: a Permanent position is estimated
/// at its anchor, a Contract position at the anchor times 1.2, a Casual
/// position at the anchor times 1.25, with no rounding remainder.
pub proof fn lemma_employment_loading(p: Position)
    ensures
        p.employment_type == EmploymentType::Permanent ==> base_salary_spec(p) == anchor_cents(
            p.seniority_level,
        ),
        p.employment_type == EmploymentType::Contract ==> base_salary_spec(p) * 100 == anchor_cents(
            p.seniority_level,
        ) * 120,
        p.employment_type == EmploymentType::Casual ==> base_salary_spec(p) * 100 == anchor_cents(
            p.seniority_level,
        ) * 125,
{
}

/// The overtime multiplier is always the product of exactly three bounded
/// factors; without a profile the industry and personal factors are both
/// neutral, so the multiplier is the seniority factor alone — for a Senior
/// position, exactly 1.2.
pub proof fn lemma_overtime_multiplier_factors(p: Position, profile: Option<UserProfile>)
    ensures
        overtime_multiplier_spec(p, profile) == seniority_factor(p.seniority_level)
            * profile_industry_factor(profile) * profile_appetite_factor(profile),
        105 <= seniority_factor(p.seniority_level) <= 125,
        100 <= profile_industry_factor(profile) <= 130,
        95 <= profile_appetite_factor(profile) <= 140,
        profile is None ==> overtime_multiplier_spec(p, profile) == seniority_factor(
            p.seniority_level,
        ) * 10_000,
        profile is None && p.seniority_level == SeniorityLevel::Senior
            ==> overtime_multiplier_spec(p, profile) == 1_200_000,
{
}

/// Every tenure block the loyalty-tax analysis can emit covers more than
/// two 365.25-day years and carries a non-negative impact.
pub proof fn lemma_blocks_qualify(s: Seq<Position>, n: int)
    ensures
        forall|k: int|
            0 <= k < spec_blocks_upto(s, n).len() ==> (#[trigger] spec_blocks_upto(s, n)[k]).impact
                >= 0 && 2 * spec_blocks_upto(s, n)[k].days > 1461,
    decreases n,
{
    if n <= 0 {
    } else {
        lemma_blocks_qualify(s, n - 1);
        let prev = spec_blocks_upto(s, n - 1);
        let name = s[n - 1].employer_name@;
        if !crate::loyalty::seen_before(s, n - 1) && crate::loyalty::qualifies(s, name) {
            let b = crate::loyalty::block_of(s, name);
            let last = crate::loyalty::group_last(s, name).unwrap();
            let last_sal = base_salary_spec(last);
            let rate = b.market_ppm - b.actual_ppm;
            lemma_base_salary_bounds(last);
            if rate > 0 {
                assert(last_sal * rate * b.days * 4 >= 0) by (nonlinear_arith)
                    requires
                        last_sal >= 0,
                        rate > 0,
                        b.days > 0,
                ;
                vstd::arithmetic::div_mod::lemma_div_is_ordered(
                    0,
                    last_sal * rate * b.days * 4,
                    1_461_000_000,
                );
            }
            assert(forall|k: int|
                0 <= k < prev.len() ==> prev.push(b)[k] == #[trigger] prev[k]);
        }
    }
}

/// The medians of the industry table are positive and divisible by four,
/// so the three quarter-of-median boundaries of the percentile classifier
/// are exact.
pub proof fn lemma_median_props(l: Seq<char>)
    ensures
        median_of(l) > 0,
        median_of(l) % 4 == 0,
{
}

/// The income percentile classifier is a pure step function of the income
/// against the median: it takes no value but 25, 50, 75 and 90; exactly at
/// the three-quarters, median and five-quarters boundaries the comparison
/// is inclusive; and above five quarters of the median the bucket is 90,
/// never higher.
pub proof fn lemma_percentile_step(income: int, median: int)
    requires
        median > 0,
        median % 4 == 0,
    ensures
        percentile_spec(income, median) == 25 || percentile_spec(income, median) == 50
            || percentile_spec(income, median) == 75 || percentile_spec(income, median) == 90,
        income == median * 3 / 4 ==> percentile_spec(income, median) == 25,
        income == median ==> percentile_spec(income, median) == 50,
        income == median * 5 / 4 ==> percentile_spec(income, median) == 75,
        income > median * 5 / 4 ==> percentile_spec(income, median) == 90,
        percentile_spec(income, median) <= 90,
{
    assert(median * 3 / 4 == 3 * (median / 4)) by (nonlinear_arith)
        requires
            median % 4 == 0,
    ;
    assert(median * 5 / 4 == 5 * (median / 4)) by (nonlinear_arith)
        requires
            median % 4 == 0,
    ;
    assert(median / 4 >= 1) by (nonlinear_arith)
        requires
            median > 0,
            median % 4 == 0,
    ;
}

} // verus!
