use vstd::prelude::*;
use crate::date::{analysis_cutoff, cutoff_date, day_number, day_number_of, Date, MAX_DAY_NUMBER};
use crate::estimate::{base_salary_spec, MAX_BASE_CENTS, MIN_BASE_CENTS};
use crate::models::{
    all_wf, LoyaltyTaxAnalysis, MarketComparison, Position, SeniorityLevel, TenureBlock,
    YearlyLoyaltyTax,
};

verus! {

// ---------------------------------------------------------------------------
// Market growth table
// ---------------------------------------------------------------------------

/// Market-expected yearly salary growth for a seniority level, parts per
/// million.
pub open spec fn market_growth_ppm(s: SeniorityLevel) -> int {
    match s {
        SeniorityLevel::Entry => 40_000,
        SeniorityLevel::Junior => 50_000,
        SeniorityLevel::Mid => 60_000,
        SeniorityLevel::Senior => 70_000,
        SeniorityLevel::Lead => 80_000,
        SeniorityLevel::Manager => 80_000,
        SeniorityLevel::Director => 90_000,
        SeniorityLevel::Executive => 100_000,
    }
}

/// Looks up the market-expected yearly salary growth, parts per million.
pub fn market_growth_rate(s: SeniorityLevel) -> (r: i64)
    ensures
        r == market_growth_ppm(s),
        40_000 <= r <= 100_000,
{
    match s {
        SeniorityLevel::Entry => 40_000,
        SeniorityLevel::Junior => 50_000,
        SeniorityLevel::Mid => 60_000,
        SeniorityLevel::Senior => 70_000,
        SeniorityLevel::Lead => 80_000,
        SeniorityLevel::Manager => 80_000,
        SeniorityLevel::Director => 90_000,
        SeniorityLevel::Executive => 100_000,
    }
}

// ---------------------------------------------------------------------------
// Employer groups
// ---------------------------------------------------------------------------

/// The end of a position, with the analysis cutoff standing in for an
/// open-ended one.
pub open spec fn end_or_cutoff(p: Position) -> Date {
    match p.end_date {
        Some(e) => e,
        None => cutoff_date(),
    }
}

pub open spec fn same_employer(p: Position, name: Seq<char>) -> bool {
    p.employer_name@ == name
}

pub open spec fn names_eq(s: Seq<Position>, j: int, i: int) -> bool {
    s[j].employer_name@ == s[i].employer_name@
}

/// Whether an earlier position of the list has the same employer.
pub open spec fn seen_before(s: Seq<Position>, i: int) -> bool {
    exists|j: int| 0 <= j < i && #[trigger] names_eq(s, j, i)
}

/// The earliest-starting position of the employer group; on equal start
/// dates the one listed first. This is the head of the group after a
/// stable sort by start date.
pub open spec fn group_first(s: Seq<Position>, name: Seq<char>) -> Option<Position>
    decreases s.len(),
{
    if s.len() == 0 {
        None
    } else {
        let prev = group_first(s.drop_last(), name);
        let p = s.last();
        if !same_employer(p, name) {
            prev
        } else {
            match prev {
                None => Some(p),
                Some(q) => if day_number(p.start_date) < day_number(q.start_date) {
                    Some(p)
                } else {
                    Some(q)
                },
            }
        }
    }
}

/// The latest-starting position of the employer group; on equal start
/// dates the one listed last. This is the tail of the group after a
/// stable sort by start date.
pub open spec fn group_last(s: Seq<Position>, name: Seq<char>) -> Option<Position>
    decreases s.len(),
{
    if s.len() == 0 {
        None
    } else {
        let prev = group_last(s.drop_last(), name);
        let p = s.last();
        if !same_employer(p, name) {
            prev
        } else {
            match prev {
                None => Some(p),
                Some(q) => if day_number(p.start_date) >= day_number(q.start_date) {
                    Some(p)
                } else {
                    Some(q)
                },
            }
        }
    }
}

/// The head of a non-empty employer group is a member of the group and no
/// member starts earlier.
pub proof fn lemma_group_first_min(s: Seq<Position>, name: Seq<char>)
    ensures
        (group_first(s, name) is Some) <==> (exists|i: int|
            0 <= i < s.len() && same_employer(#[trigger] s[i], name)),
        group_first(s, name) is Some ==> exists|i: int|
            0 <= i < s.len() && #[trigger] s[i] == group_first(s, name).unwrap()
                && same_employer(s[i], name),
        group_first(s, name) is Some ==> forall|j: int|
            0 <= j < s.len() && same_employer(#[trigger] s[j], name) ==> day_number(
                group_first(s, name).unwrap().start_date,
            ) <= day_number(s[j].start_date),
    decreases s.len(),
{
    if s.len() > 0 {
        lemma_group_first_min(s.drop_last(), name);
        assert(forall|j: int| 0 <= j < s.len() - 1 ==> s.drop_last()[j] == #[trigger] s[j]);
        assert(s.last() == s[s.len() - 1]);
    }
}

/// The tail of a non-empty employer group is a member of the group and no
/// member starts later.
pub proof fn lemma_group_last_max(s: Seq<Position>, name: Seq<char>)
    ensures
        (group_last(s, name) is Some) <==> (exists|i: int|
            0 <= i < s.len() && same_employer(#[trigger] s[i], name)),
        group_last(s, name) is Some ==> exists|i: int|
            0 <= i < s.len() && #[trigger] s[i] == group_last(s, name).unwrap()
                && same_employer(s[i], name),
        group_last(s, name) is Some ==> forall|j: int|
            0 <= j < s.len() && same_employer(#[trigger] s[j], name) ==> day_number(
                s[j].start_date,
            ) <= day_number(group_last(s, name).unwrap().start_date),
    decreases s.len(),
{
    if s.len() > 0 {
        lemma_group_last_max(s.drop_last(), name);
        assert(forall|j: int| 0 <= j < s.len() - 1 ==> s.drop_last()[j] == #[trigger] s[j]);
        assert(s.last() == s[s.len() - 1]);
    }
}

// ---------------------------------------------------------------------------
// Per-group figures
// ---------------------------------------------------------------------------

/// Division truncating toward zero, for a positive divisor.
pub open spec fn div_tr(a: int, b: int) -> int {
    if a >= 0 {
        a / b
    } else {
        -((-a) / b)
    }
}

/// Achieved salary growth per year, parts per million: the relative salary
/// change over the group, divided by the tenure in 365.25-day years; zero
/// when the first salary is zero.
pub open spec fn actual_prog_ppm(first_cents: int, last_cents: int, days: int) -> int {
    if first_cents > 0 {
        div_tr((last_cents - first_cents) * 1_000_000 * 1461, first_cents * days * 4)
    } else {
        0
    }
}

/// Modeled cost of the growth shortfall, cents: the last salary times the
/// shortfall rate times the tenure in years; zero when the achieved growth
/// reaches the market expectation.
pub open spec fn impact_cents(last_cents: int, rate_ppm: int, days: int) -> int {
    if rate_ppm > 0 {
        last_cents * rate_ppm * days * 4 / 1_461_000_000
    } else {
        0
    }
}

/// Tenure of the employer group, days: from the earliest start to the end
/// (or cutoff) of the latest-starting position. Negative when an
/// open-ended position starts after the cutoff.
pub open spec fn group_days(s: Seq<Position>, name: Seq<char>) -> int {
    day_number(end_or_cutoff(group_last(s, name).unwrap())) - day_number(
        group_first(s, name).unwrap().start_date,
    )
}

/// A group qualifies when its tenure exceeds two 365.25-day years.
pub open spec fn qualifies(s: Seq<Position>, name: Seq<char>) -> bool {
    group_first(s, name) is Some && 2 * group_days(s, name) > 1461
}

/// The figures of one qualifying employer group, in the integer scales of
/// the report fields.
pub struct SpecBlock {
    pub name: Seq<char>,
    pub start_date: Date,
    pub end_date: Date,
    pub days: int,
    pub years_milli: int,
    pub actual_ppm: int,
    pub market_ppm: int,
    pub impact: int,
}

pub open spec fn block_of(s: Seq<Position>, name: Seq<char>) -> SpecBlock {
    let first = group_first(s, name).unwrap();
    let last = group_last(s, name).unwrap();
    let days = group_days(s, name);
    let actual = actual_prog_ppm(base_salary_spec(first), base_salary_spec(last), days);
    let market = market_growth_ppm(last.seniority_level);
    SpecBlock {
        name: name,
        start_date: first.start_date,
        end_date: end_or_cutoff(last),
        days: days,
        years_milli: days * 4000 / 1461,
        actual_ppm: actual,
        market_ppm: market,
        impact: impact_cents(base_salary_spec(last), market - actual, days),
    }
}

/// The qualifying blocks of the first `n` positions, one per distinct
/// employer, in order of first appearance.
pub open spec fn spec_blocks_upto(s: Seq<Position>, n: int) -> Seq<SpecBlock>
    decreases n,
{
    if n <= 0 {
        Seq::empty()
    } else {
        let prev = spec_blocks_upto(s, n - 1);
        if !seen_before(s, n - 1) && qualifies(s, s[n - 1].employer_name@) {
            prev.push(block_of(s, s[n - 1].employer_name@))
        } else {
            prev
        }
    }
}

/// The qualifying blocks of the whole position list.
pub open spec fn spec_blocks(s: Seq<Position>) -> Seq<SpecBlock> {
    spec_blocks_upto(s, s.len() as int)
}

/// The summed impact of a sequence of blocks, cents.
pub open spec fn sum_impacts(bs: Seq<SpecBlock>) -> int
    decreases bs.len(),
{
    if bs.len() == 0 {
        0
    } else {
        sum_impacts(bs.drop_last()) + bs.last().impact
    }
}

/// A report block carries exactly the figures of its abstract block.
pub open spec fn block_matches(b: TenureBlock, sb: SpecBlock) -> bool {
    &&& b.employer_name@ == sb.name
    &&& b.start_date == sb.start_date
    &&& b.end_date == Some(sb.end_date)
    &&& b.years_of_service == sb.years_milli
    &&& b.actual_progression == sb.actual_ppm
    &&& b.market_expected_progression == sb.market_ppm
    &&& b.loyalty_tax_impact == sb.impact
}

// ---------------------------------------------------------------------------
// Arithmetic helpers
// ---------------------------------------------------------------------------

/// Largest magnitude the achieved-growth figure can take, parts per
/// million.
pub const MAX_PROG_PPM: i64 = 2_200_000;

/// Every impact stays under this bound, cents.
pub const MAX_IMPACT_CENTS: i64 = 1_000_000_000_000;

fn progression_ppm(first_sal: i64, last_sal: i64, days: i64) -> (r: i64)
    requires
        MIN_BASE_CENTS <= first_sal <= MAX_BASE_CENTS,
        MIN_BASE_CENTS <= last_sal <= MAX_BASE_CENTS,
        731 <= days <= MAX_DAY_NUMBER,
    ensures
        r == actual_prog_ppm(first_sal as int, last_sal as int, days as int),
        -MAX_PROG_PPM <= r <= MAX_PROG_PPM,
{
    proof {
        assert(6_000_000int * 731 <= first_sal as int * (days as int) <= 31_250_000int
            * 3_700_000) by (nonlinear_arith)
            requires
                6_000_000 <= first_sal <= 31_250_000,
                731 <= days <= 3_700_000,
        ;
    }
    let den: u128 = (first_sal as u128) * (days as u128) * 4;
    if last_sal >= first_sal {
        let diff: u128 = (last_sal - first_sal) as u128;
        let num: u128 = diff * 1_000_000 * 1461;
        let q: u128 = num / den;
        proof {
            vstd::arithmetic::div_mod::lemma_div_is_ordered_by_denominator(
                num as int,
                6_000_000int * 731 * 4,
                den as int,
            );
            vstd::arithmetic::div_mod::lemma_div_is_ordered(
                num as int,
                25_250_000int * 1_000_000 * 1461,
                6_000_000int * 731 * 4,
            );
        }
        q as i64
    } else {
        let diff: u128 = (first_sal - last_sal) as u128;
        let num: u128 = diff * 1_000_000 * 1461;
        let q: u128 = num / den;
        proof {
            vstd::arithmetic::div_mod::lemma_div_is_ordered_by_denominator(
                num as int,
                6_000_000int * 731 * 4,
                den as int,
            );
            vstd::arithmetic::div_mod::lemma_div_is_ordered(
                num as int,
                25_250_000int * 1_000_000 * 1461,
                6_000_000int * 731 * 4,
            );
        }
        -(q as i64)
    }
}

fn impact_of(last_sal: i64, rate_ppm: i64, days: i64) -> (r: i64)
    requires
        MIN_BASE_CENTS <= last_sal <= MAX_BASE_CENTS,
        -2_300_000 <= rate_ppm <= 2_300_000,
        731 <= days <= MAX_DAY_NUMBER,
    ensures
        r == impact_cents(last_sal as int, rate_ppm as int, days as int),
        0 <= r < MAX_IMPACT_CENTS,
{
    if rate_ppm > 0 {
        proof {
            assert(0 <= last_sal as int * (rate_ppm as int) <= 31_250_000int * 2_300_000 && 0
                <= last_sal as int * (rate_ppm as int) * (days as int) <= 31_250_000int
                * 2_300_000 * 3_700_000) by (nonlinear_arith)
                requires
                    6_000_000 <= last_sal <= 31_250_000,
                    0 < rate_ppm <= 2_300_000,
                    731 <= days <= 3_700_000,
            ;
        }
        let num: u128 = (last_sal as u128) * (rate_ppm as u128) * (days as u128) * 4;
        proof {
            vstd::arithmetic::div_mod::lemma_div_is_ordered(
                num as int,
                31_250_000int * 2_300_000 * 3_700_000 * 4,
                1_461_000_000,
            );
        }
        (num / 1_461_000_000) as i64
    } else {
        0
    }
}

/// Whether an earlier position of the list has the same employer as
/// position `i`.
fn seen_employer_before(positions: &Vec<Position>, i: usize) -> (r: bool)
    requires
        i < positions@.len(),
    ensures
        r == seen_before(positions@, i as int),
{
    let ghost s = positions@;
    let mut seen = false;
    let mut j: usize = 0;
    while j < i
        invariant
            s == positions@,
            i < s.len(),
            j <= i,
            seen == (exists|t: int| 0 <= t < j && #[trigger] names_eq(s, t, i as int)),
        decreases i - j,
    {
        if positions[j].employer_name == positions[i].employer_name {
            proof {
                assert(names_eq(s, j as int, i as int));
            }
            seen = true;
        }
        j = j + 1;
    }
    seen
}

/// Finds the indices of the earliest- and latest-starting positions of the
/// employer group of position `i`.
fn find_group_bounds(positions: &Vec<Position>, i: usize) -> (r: (usize, usize))
    requires
        all_wf(positions@),
        i < positions@.len(),
    ensures
        group_first(positions@, positions@[i as int].employer_name@) is Some,
        group_last(positions@, positions@[i as int].employer_name@) is Some,
        r.0 < positions@.len(),
        r.1 < positions@.len(),
        positions@[r.0 as int] == group_first(
            positions@,
            positions@[i as int].employer_name@,
        ).unwrap(),
        positions@[r.1 as int] == group_last(
            positions@,
            positions@[i as int].employer_name@,
        ).unwrap(),
{
    let ghost s = positions@;
    let ghost name_v = s[i as int].employer_name@;
    let mut have = false;
    let mut fi: usize = 0;
    let mut li: usize = 0;
    let mut k: usize = 0;
    while k < positions.len()
        invariant
            s == positions@,
            all_wf(s),
            i < s.len(),
            k <= s.len(),
            name_v == s[i as int].employer_name@,
            have == (group_first(s.take(k as int), name_v) is Some),
            have == (group_last(s.take(k as int), name_v) is Some),
            have ==> fi < s.len() && s[fi as int] == group_first(s.take(k as int), name_v).unwrap(),
            have ==> li < s.len() && s[li as int] == group_last(s.take(k as int), name_v).unwrap(),
            k > i ==> have,
        decreases s.len() - k,
    {
        proof {
            assert(s.take(k as int + 1).drop_last() =~= s.take(k as int));
            assert(s.take(k as int + 1).last() == s[k as int]);
            assert(s[k as int].wf());
        }
        if positions[k].employer_name == positions[i].employer_name {
            if !have {
                have = true;
                fi = k;
                li = k;
            } else {
                proof {
                    assert(s[fi as int].wf());
                    assert(s[li as int].wf());
                }
                let dk = day_number_of(&positions[k].start_date);
                let df = day_number_of(&positions[fi].start_date);
                if dk < df {
                    fi = k;
                }
                let dl = day_number_of(&positions[li].start_date);
                if dk >= dl {
                    li = k;
                }
            }
        }
        k = k + 1;
    }
    proof {
        assert(s.take(s.len() as int) =~= s);
    }
    (fi, li)
}

// ---------------------------------------------------------------------------
// The loyalty-tax analysis
// ---------------------------------------------------------------------------

/// Quantifies, per employer, the modeled cost of salary growth lagging the
/// market: one tenure block per distinct employer held for more than two
/// years, in order of first appearance.
pub fn calculate_loyalty_tax(positions: &Vec<Position>) -> (r: LoyaltyTaxAnalysis)
    requires
        all_wf(positions@),
    ensures
        r.tenure_blocks@.len() == spec_blocks(positions@).len(),
        forall|i: int|
            0 <= i < r.tenure_blocks@.len() ==> block_matches(
                #[trigger] r.tenure_blocks@[i],
                spec_blocks(positions@)[i],
            ),
        forall|i: int|
            0 <= i < r.tenure_blocks@.len() ==> #[trigger] r.tenure_blocks@[i].loyalty_tax_impact
                >= 0 && r.tenure_blocks@[i].years_of_service > 2000,
        r.cumulative_loyalty_tax == sum_impacts(spec_blocks(positions@)),
        r.annual_loyalty_tax@.len() == 0,
        r.confidence_level == (if spec_blocks(positions@).len() == 0 {
            0int
        } else {
            75int
        }),
        r.market_comparison == (MarketComparison {
            industry_average_growth: 60_000,
            role_level_growth: 70_000,
            cpi_adjusted_growth: 30_000,
        }),
{
    let ghost s = positions@;
    let mut tenure_blocks: Vec<TenureBlock> = Vec::new();
    let mut cumulative: i128 = 0;
    let mut i: usize = 0;
    while i < positions.len()
        invariant
            s == positions@,
            all_wf(s),
            i <= s.len(),
            tenure_blocks@.len() == spec_blocks_upto(s, i as int).len(),
            tenure_blocks@.len() <= i,
            forall|k: int|
                0 <= k < tenure_blocks@.len() ==> block_matches(
                    #[trigger] tenure_blocks@[k],
                    spec_blocks_upto(s, i as int)[k],
                ),
            forall|k: int|
                0 <= k < tenure_blocks@.len() ==> #[trigger] tenure_blocks@[k].loyalty_tax_impact
                    >= 0 && tenure_blocks@[k].years_of_service > 2000,
            cumulative == sum_impacts(spec_blocks_upto(s, i as int)),
            0 <= cumulative <= (tenure_blocks@.len() as int) * (MAX_IMPACT_CENTS as int),
        decreases s.len() - i,
    {
        let seen = seen_employer_before(positions, i);
        if !seen {
            let ghost name_v = s[i as int].employer_name@;
            let (fi, li) = find_group_bounds(positions, i);
            proof {
                assert(s[fi as int].wf());
                assert(s[li as int].wf());
            }
            let first = &positions[fi];
            let last = &positions[li];
            let end_date = match last.end_date {
                Some(e) => e,
                None => analysis_cutoff(),
            };
            let d_start = day_number_of(&first.start_date);
            let d_end = day_number_of(&end_date);
            let days = d_end - d_start;
            if 2 * days > 1461 {
                let first_sal = first.base_salary_estimate();
                let last_sal = last.base_salary_estimate();
                let prog = progression_ppm(first_sal, last_sal, days);
                let market = market_growth_rate(last.seniority_level);
                let rate = market - prog;
                let impact = impact_of(last_sal, rate, days);
                proof {
                    vstd::arithmetic::div_mod::lemma_div_is_ordered(
                        2_924_000,
                        days as int * 4000,
                        1461,
                    );
                }
                let years_milli = ((days as u64) * 4000 / 1461) as i64;
                let block = TenureBlock {
                    employer_name: positions[i].employer_name.clone(),
                    start_date: first.start_date,
                    end_date: Some(end_date),
                    years_of_service: years_milli,
                    actual_progression: prog,
                    market_expected_progression: market,
                    loyalty_tax_impact: impact,
                };
                proof {
                    assert(qualifies(s, name_v));
                    assert(block_matches(block, block_of(s, name_v)));
                    assert(spec_blocks_upto(s, i as int + 1) == spec_blocks_upto(
                        s,
                        i as int,
                    ).push(block_of(s, name_v)));
                    assert(spec_blocks_upto(s, i as int + 1).drop_last() =~= spec_blocks_upto(
                        s,
                        i as int,
                    ));
                    assert(i as int <= 0xffff_ffff_ffff_ffff);
                }
                tenure_blocks.push(block);
                cumulative = cumulative + (impact as i128);
            } else {
                proof {
                    assert(!qualifies(s, name_v));
                    assert(spec_blocks_upto(s, i as int + 1) == spec_blocks_upto(s, i as int));
                }
            }
        } else {
            proof {
                assert(seen_before(s, i as int));
                assert(spec_blocks_upto(s, i as int + 1) == spec_blocks_upto(s, i as int));
            }
        }
        i = i + 1;
    }
    proof {
        assert(spec_blocks_upto(s, s.len() as int) == spec_blocks(s));
    }
    let confidence_level: u32 = if tenure_blocks.len() == 0 {
        0
    } else {
        75
    };
    LoyaltyTaxAnalysis {
        tenure_blocks,
        market_comparison: MarketComparison {
            industry_average_growth: 60_000,
            role_level_growth: 70_000,
            cpi_adjusted_growth: 30_000,
        },
        annual_loyalty_tax: Vec::<YearlyLoyaltyTax>::new(),
        cumulative_loyalty_tax: cumulative,
        confidence_level,
    }
}

} // verus!
