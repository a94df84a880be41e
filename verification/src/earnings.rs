use vstd::prelude::*;
use vstd::string::StrSliceExecFns;
use vstd::string::StringExecFns;
use crate::estimate::{
    actual_annual_spec, calculate_position_earnings, estimate_overtime_multiplier,
    hourly_rate_spec, overtime_multiplier_spec, MAX_ACTUAL_CENTS,
};
use crate::models::{
    AustralianState, EarningsAnalysis, EarningsInsight, EarningsSnapshot, HoursEarningsPoint,
    InsightCategory, Position, SuperSnapshot, UserProfile,
};
use crate::text::{contains_seq, dec_chars, lower_of, lowercase, money0_chars, money0_string,
    money2_chars, money2_string, str_contains, u64_string};

verus! {

// ---------------------------------------------------------------------------
// Industry medians and the percentile classifier
// ---------------------------------------------------------------------------

/// Median annual income of an industry text (already lowercased), cents.
pub open spec fn median_of(l: Seq<char>) -> int {
    if contains_seq(l, "mining"@) {
        12_500_000
    } else if contains_seq(l, "it"@) || contains_seq(l, "technology"@) {
        11_000_000
    } else if contains_seq(l, "engineering"@) {
        10_500_000
    } else if contains_seq(l, "construction"@) {
        9_500_000
    } else if contains_seq(l, "healthcare"@) {
        8_500_000
    } else if contains_seq(l, "education"@) {
        8_000_000
    } else if contains_seq(l, "finance"@) {
        10_000_000
    } else {
        9_000_000
    }
}

/// Median income assumed when no industry matches, cents.
pub const DEFAULT_MEDIAN_CENTS: i64 = 9_000_000;

/// The four-bucket income percentile classifier: at most three quarters of
/// the median is the 25th percentile, at most the median the 50th, at most
/// five quarters the 75th, above that the 90th.
pub open spec fn percentile_spec(income: int, median: int) -> int {
    if income <= median * 3 / 4 {
        25
    } else if income <= median {
        50
    } else if income <= median * 5 / 4 {
        75
    } else {
        90
    }
}

/// Looks up the median annual income for an industry, cents.
pub fn calculate_industry_median(industry: &str) -> (r: i64)
    ensures
        r == median_of(lower_of(industry@)),
        8_000_000 <= r <= 12_500_000,
{
    let low = lowercase(industry);
    if str_contains(low.as_str(), "mining") {
        12_500_000
    } else if str_contains(low.as_str(), "it") || str_contains(low.as_str(), "technology") {
        11_000_000
    } else if str_contains(low.as_str(), "engineering") {
        10_500_000
    } else if str_contains(low.as_str(), "construction") {
        9_500_000
    } else if str_contains(low.as_str(), "healthcare") {
        8_500_000
    } else if str_contains(low.as_str(), "education") {
        8_000_000
    } else if str_contains(low.as_str(), "finance") {
        10_000_000
    } else {
        9_000_000
    }
}

/// Classifies an income against a given median.
fn classify_income(income: i64, median: i64) -> (r: u32)
    requires
        0 < median <= 12_500_000,
    ensures
        r == percentile_spec(income as int, median as int),
{
    let med = median as u64;
    let three_quarters = (med * 3 / 4) as i64;
    let five_quarters = (med * 5 / 4) as i64;
    if income <= three_quarters {
        25
    } else if income <= median {
        50
    } else if income <= five_quarters {
        75
    } else {
        90
    }
}

/// Classifies an income within its industry; the state is carried for the
/// caller's convenience and does not affect the bucket.
pub fn calculate_income_percentile(income: i64, industry: &str, state: &AustralianState) -> (r:
    u32)
    ensures
        r == percentile_spec(income as int, median_of(lower_of(industry@))),
{
    let median = calculate_industry_median(industry);
    classify_income(income, median)
}

// ---------------------------------------------------------------------------
// Overtime-heavy detection
// ---------------------------------------------------------------------------

/// Some position's overtime multiplier, under the given profile, exceeds
/// 1.2.
pub open spec fn has_heavy_spec(s: Seq<Position>, profile: Option<UserProfile>) -> bool {
    exists|i: int|
        0 <= i < s.len() && #[trigger] overtime_multiplier_spec(s[i], profile) > 1_200_000
}

/// Whether any position's overtime multiplier, under the given profile,
/// exceeds 1.2.
fn any_overtime_heavy(positions: &Vec<Position>, profile: &Option<UserProfile>) -> (r: bool)
    ensures
        r == has_heavy_spec(positions@, *profile),
{
    let mut i: usize = 0;
    while i < positions.len()
        invariant
            i <= positions@.len(),
            forall|k: int|
                0 <= k < i ==> #[trigger] overtime_multiplier_spec(positions@[k], *profile)
                    <= 1_200_000,
        decreases positions@.len() - i,
    {
        let mult = estimate_overtime_multiplier(&positions[i], profile);
        if mult > 1_200_000 {
            return true;
        }
        i = i + 1;
    }
    false
}

/// Whether any position's overtime multiplier, taken without a profile,
/// exceeds 1.2.
pub fn has_overtime_heavy_earnings(positions: &Vec<Position>) -> (r: bool)
    ensures
        r == has_heavy_spec(positions@, None),
{
    any_overtime_heavy(positions, &None)
}

// ---------------------------------------------------------------------------
// Insights
// ---------------------------------------------------------------------------

/// The current position's totals: the first element of the list is taken
/// as the current position.
pub open spec fn current_total_spec(s: Seq<Position>, profile: Option<UserProfile>) -> int {
    if s.len() > 0 {
        actual_annual_spec(s[0], profile)
    } else {
        0
    }
}

pub open spec fn current_hourly_spec(s: Seq<Position>, profile: Option<UserProfile>) -> int {
    if s.len() > 0 {
        hourly_rate_spec(s[0], profile)
    } else {
        0
    }
}

/// The insight reported when earnings lean on overtime.
pub open spec fn overtime_insight_ok(ins: EarningsInsight, hourly: int) -> bool {
    &&& ins.category == InsightCategory::OvertimeHeavy
    &&& ins.title@ == "Overtime-Heavy Compensation Detected"@
    &&& ins.description@
        == "Your earnings are significantly boosted by overtime. Your base rate may appear below market, but actual earnings place you higher."@
    &&& ins.confidence_level == 85
    &&& ins.data_points@.len() == 2
    &&& ins.data_points@[0]@ == "Effective hourly rate: $"@ + money2_chars(hourly) + "/hr"@
    &&& ins.data_points@[1]@
        == "Consider roles with better base rates if overtime burnout is a concern"@
}

/// The insight reported when the income bucket lies below the 25th
/// percentile.
pub open spec fn underpaid_insight_ok(ins: EarningsInsight, pct: int, total: int, median: int) -> bool {
    &&& ins.category == InsightCategory::Underpaid
    &&& ins.title@ == "Earnings Below Market Median"@
    &&& ins.description@ == "You're in the "@ + dec_chars(pct)
        + "th percentile for your industry and location. Consider negotiating or exploring market opportunities."@
    &&& ins.confidence_level == 75
    &&& ins.data_points@.len() == 2
    &&& ins.data_points@[0]@ == "Current total: $"@ + money0_chars(total)
    &&& ins.data_points@[1]@ == "Industry median: $"@ + money0_chars(median)
}

/// The insight reported when the income bucket lies above the 75th
/// percentile.
pub open spec fn overpaid_insight_ok(ins: EarningsInsight, pct: int, total: int) -> bool {
    &&& ins.category == InsightCategory::Overpaid
    &&& ins.title@ == "Earnings Above Market"@
    &&& ins.description@ == "You're in the "@ + dec_chars(pct)
        + "th percentile for your industry and location."@
    &&& ins.confidence_level == 75
    &&& ins.data_points@.len() == 2
    &&& ins.data_points@[0]@ == "Current total: $"@ + money0_chars(total)
    &&& ins.data_points@[1]@ == "You're well compensated compared to peers"@
}

/// One timeline entry per position, with the estimates of that position.
pub open spec fn snapshot_ok(s: EarningsSnapshot, p: Position, profile: Option<UserProfile>) -> bool {
    &&& s.date == p.start_date
    &&& s.base_annual == crate::estimate::base_salary_spec(p)
    &&& s.actual_annual == actual_annual_spec(p, profile)
    &&& s.total_with_super == actual_annual_spec(p, profile) * 111 / 100
    &&& s.effective_hourly_rate == hourly_rate_spec(p, profile)
}

fn build_overtime_insight(current_hourly: i64) -> (ins: EarningsInsight)
    requires
        current_hourly >= 0,
    ensures
        overtime_insight_ok(ins, current_hourly as int),
{
    let mut dp0 = "Effective hourly rate: $".to_owned();
    let rate = money2_string(current_hourly);
    dp0.append(rate.as_str());
    dp0.append("/hr");
    proof {
        assert(dp0@ =~= "Effective hourly rate: $"@ + money2_chars(current_hourly as int)
            + "/hr"@);
    }
    let mut data_points: Vec<String> = Vec::new();
    data_points.push(dp0);
    data_points.push(
        "Consider roles with better base rates if overtime burnout is a concern".to_owned(),
    );
    EarningsInsight {
        category: InsightCategory::OvertimeHeavy,
        title: "Overtime-Heavy Compensation Detected".to_owned(),
        description:
            "Your earnings are significantly boosted by overtime. Your base rate may appear below market, but actual earnings place you higher.".to_owned(),
        confidence_level: 85,
        data_points,
    }
}

fn build_underpaid_insight(pct: u32, total: i64, median: i64) -> (ins: EarningsInsight)
    requires
        0 <= total <= MAX_ACTUAL_CENTS,
        0 <= median <= 12_500_000,
    ensures
        underpaid_insight_ok(ins, pct as int, total as int, median as int),
{
    let mut description = "You're in the ".to_owned();
    let num = u64_string(pct as u64);
    description.append(num.as_str());
    description.append(
        "th percentile for your industry and location. Consider negotiating or exploring market opportunities.",
    );
    proof {
        assert(description@ =~= "You're in the "@ + dec_chars(pct as int)
            + "th percentile for your industry and location. Consider negotiating or exploring market opportunities."@);
    }
    let mut dp0 = "Current total: $".to_owned();
    let total_s = money0_string(total);
    dp0.append(total_s.as_str());
    let mut dp1 = "Industry median: $".to_owned();
    let median_s = money0_string(median);
    dp1.append(median_s.as_str());
    proof {
        assert(dp0@ =~= "Current total: $"@ + money0_chars(total as int));
        assert(dp1@ =~= "Industry median: $"@ + money0_chars(median as int));
    }
    let mut data_points: Vec<String> = Vec::new();
    data_points.push(dp0);
    data_points.push(dp1);
    EarningsInsight {
        category: InsightCategory::Underpaid,
        title: "Earnings Below Market Median".to_owned(),
        description,
        confidence_level: 75,
        data_points,
    }
}

fn build_overpaid_insight(pct: u32, total: i64) -> (ins: EarningsInsight)
    requires
        0 <= total <= MAX_ACTUAL_CENTS,
    ensures
        overpaid_insight_ok(ins, pct as int, total as int),
{
    let mut description = "You're in the ".to_owned();
    let num = u64_string(pct as u64);
    description.append(num.as_str());
    description.append("th percentile for your industry and location.");
    proof {
        assert(description@ =~= "You're in the "@ + dec_chars(pct as int)
            + "th percentile for your industry and location."@);
    }
    let mut dp0 = "Current total: $".to_owned();
    let total_s = money0_string(total);
    dp0.append(total_s.as_str());
    proof {
        assert(dp0@ =~= "Current total: $"@ + money0_chars(total as int));
    }
    let mut data_points: Vec<String> = Vec::new();
    data_points.push(dp0);
    data_points.push("You're well compensated compared to peers".to_owned());
    EarningsInsight {
        category: InsightCategory::Overpaid,
        title: "Earnings Above Market".to_owned(),
        description,
        confidence_level: 75,
        data_points,
    }
}

// ---------------------------------------------------------------------------
// The earnings analysis
// ---------------------------------------------------------------------------

/// The percentile the analysis reports: measured against the profile's
/// industry median, or against the default median with no profile (no
/// industry text matches a keyword then).
pub open spec fn report_percentile_spec(s: Seq<Position>, profile: Option<UserProfile>) -> int {
    match profile {
        Some(p) => percentile_spec(current_total_spec(s, profile), median_of(lower_of(p.industry@))),
        None => percentile_spec(current_total_spec(s, profile), DEFAULT_MEDIAN_CENTS as int),
    }
}

/// Aggregates the position list into a time series of earnings snapshots,
/// an income percentile, and qualitative insights.
///
/// The first element of the list is taken as the current position; the
/// caller supplies the list with the current position first.
pub fn calculate_earnings_analysis(positions: &Vec<Position>, profile: &Option<UserProfile>) -> (r:
    EarningsAnalysis)
    ensures
        r.current_total_compensation == current_total_spec(positions@, *profile),
        r.current_effective_hourly_rate == current_hourly_spec(positions@, *profile),
        r.income_percentile == report_percentile_spec(positions@, *profile),
        r.loyalty_tax_annual == 0,
        r.loyalty_tax_cumulative == 0,
        r.earnings_over_time@.len() == positions@.len(),
        forall|i: int|
            0 <= i < positions@.len() ==> snapshot_ok(
                #[trigger] r.earnings_over_time@[i],
                positions@[i],
                *profile,
            ),
        r.hours_vs_earnings@.len() == 0,
        r.super_trajectory@.len() == 0,
        match *profile {
            None => r.insights@.len() == 0,
            Some(p) => {
                let heavy = has_heavy_spec(positions@, *profile);
                let pct = report_percentile_spec(positions@, *profile);
                let low = if pct < 25 {
                    1int
                } else {
                    0int
                };
                let high = if pct > 75 {
                    1int
                } else {
                    0int
                };
                &&& r.insights@.len() == (if heavy {
                    1int
                } else {
                    0int
                }) + low + high
                &&& heavy ==> overtime_insight_ok(
                    r.insights@[0],
                    current_hourly_spec(positions@, *profile),
                )
                &&& pct < 25 ==> underpaid_insight_ok(
                    r.insights@[r.insights@.len() - 1],
                    pct,
                    current_total_spec(positions@, *profile),
                    median_of(lower_of(p.industry@)),
                )
                &&& pct > 75 ==> overpaid_insight_ok(
                    r.insights@[r.insights@.len() - 1],
                    pct,
                    current_total_spec(positions@, *profile),
                )
            },
        },
{
    let (current_total, current_hourly) = if positions.len() > 0 {
        calculate_position_earnings(&positions[0], profile)
    } else {
        (0i64, 0i64)
    };

    let mut earnings_over_time: Vec<EarningsSnapshot> = Vec::new();
    let mut i: usize = 0;
    while i < positions.len()
        invariant
            i <= positions@.len(),
            earnings_over_time@.len() == i,
            forall|k: int|
                0 <= k < i ==> snapshot_ok(
                    #[trigger] earnings_over_time@[k],
                    positions@[k],
                    *profile,
                ),
        decreases positions@.len() - i,
    {
        let p = &positions[i];
        let (annual, hourly) = calculate_position_earnings(p, profile);
        let base = p.base_salary_estimate();
        let with_super = ((annual as u64) * 111 / 100) as i64;
        earnings_over_time.push(
            EarningsSnapshot {
                date: p.start_date,
                base_annual: base,
                actual_annual: annual,
                total_with_super: with_super,
                effective_hourly_rate: hourly,
            },
        );
        i = i + 1;
    }

    let mut insights: Vec<EarningsInsight> = Vec::new();
    match profile {
        Some(pr) => {
            if any_overtime_heavy(positions, profile) {
                insights.push(build_overtime_insight(current_hourly));
            }
            let percentile = calculate_income_percentile(
                current_total,
                pr.industry.as_str(),
                &pr.state,
            );
            if percentile < 25 {
                let median = calculate_industry_median(pr.industry.as_str());
                insights.push(build_underpaid_insight(percentile, current_total, median));
            } else if percentile > 75 {
                insights.push(build_overpaid_insight(percentile, current_total));
            }
        },
        None => {},
    }

    let income_percentile = match profile {
        Some(pr) => calculate_income_percentile(current_total, pr.industry.as_str(), &pr.state),
        None => classify_income(current_total, DEFAULT_MEDIAN_CENTS),
    };

    EarningsAnalysis {
        current_total_compensation: current_total,
        current_effective_hourly_rate: current_hourly,
        income_percentile,
        loyalty_tax_annual: 0,
        loyalty_tax_cumulative: 0,
        earnings_over_time,
        hours_vs_earnings: Vec::<HoursEarningsPoint>::new(),
        super_trajectory: Vec::<SuperSnapshot>::new(),
        insights,
    }
}

} // verus!
