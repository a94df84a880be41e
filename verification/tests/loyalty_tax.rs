use careerflow::date::Date;
use careerflow::loyalty::calculate_loyalty_tax;
use careerflow::models::{EmploymentType, Position, SeniorityLevel};

fn stint(
    employer: &str,
    seniority: SeniorityLevel,
    start: (i32, u8, u8),
    end: Option<(i32, u8, u8)>,
) -> Position {
    Position {
        id: None,
        employer_name: employer.to_string(),
        job_title: "Worker".to_string(),
        employment_type: EmploymentType::Permanent,
        location: "Sydney".to_string(),
        start_date: Date { year: start.0, month: start.1, day: start.2 },
        end_date: end.map(|(y, m, d)| Date { year: y, month: m, day: d }),
        seniority_level: seniority,
        core_responsibilities: String::new(),
        tools_systems_skills: Vec::new(),
        achievements: Vec::new(),
    }
}

#[test]
fn empty_history_yields_an_empty_analysis() {
    let r = calculate_loyalty_tax(&Vec::new());
    assert!(r.tenure_blocks.is_empty());
    assert_eq!(r.cumulative_loyalty_tax, 0);
    assert_eq!(r.confidence_level, 0);
    assert!(r.annual_loyalty_tax.is_empty());
}

#[test]
fn short_tenure_emits_no_block() {
    // 730 days is just under two 365.25-day years
    let v = vec![stint("Acme", SeniorityLevel::Mid, (2019, 1, 1), Some((2020, 12, 31)))];
    let r = calculate_loyalty_tax(&v);
    assert!(r.tenure_blocks.is_empty());
    assert_eq!(r.cumulative_loyalty_tax, 0);
    assert_eq!(r.confidence_level, 0);
}

#[test]
fn acme_two_stints_full_market_rate() {
    // Two Mid positions at one employer, no salary growth: the full
    // market-expected 6% a year becomes the loyalty-tax rate.
    let v = vec![
        stint("Acme", SeniorityLevel::Mid, (2019, 1, 1), Some((2021, 1, 1))),
        stint("Acme", SeniorityLevel::Mid, (2021, 1, 1), None),
    ];
    let r = calculate_loyalty_tax(&v);
    assert_eq!(r.tenure_blocks.len(), 1);
    let b = &r.tenure_blocks[0];
    assert_eq!(b.employer_name, "Acme");
    assert_eq!(b.start_date, Date { year: 2019, month: 1, day: 1 });
    assert_eq!(b.end_date, Some(Date { year: 2024, month: 12, day: 31 }));
    // 2191 days: 5.998 years
    assert_eq!(b.years_of_service, 5_998);
    assert_eq!(b.actual_progression, 0);
    assert_eq!(b.market_expected_progression, 60_000);
    // 95000.00 * 0.06 * (2191 * 4 / 1461) years, about $34,192
    assert_eq!(b.loyalty_tax_impact, 3_419_219);
    assert_eq!(r.cumulative_loyalty_tax, 3_419_219);
    assert_eq!(r.confidence_level, 75);
}

#[test]
fn growth_above_market_floors_the_impact_at_zero() {
    // Entry to Executive within one employer: the achieved progression
    // dwarfs the market expectation, so the impact is floored at zero.
    let v = vec![
        stint("Acme", SeniorityLevel::Entry, (2018, 1, 1), Some((2020, 1, 1))),
        stint("Acme", SeniorityLevel::Executive, (2020, 1, 1), None),
    ];
    let r = calculate_loyalty_tax(&v);
    assert_eq!(r.tenure_blocks.len(), 1);
    let b = &r.tenure_blocks[0];
    assert_eq!(b.years_of_service, 6_997);
    assert_eq!(b.actual_progression, 452_513);
    assert_eq!(b.market_expected_progression, 100_000);
    assert_eq!(b.loyalty_tax_impact, 0);
    assert_eq!(r.cumulative_loyalty_tax, 0);
    assert_eq!(r.confidence_level, 75);
}

#[test]
fn impacts_are_never_negative_and_blocks_never_short() {
    let v = vec![
        stint("A", SeniorityLevel::Entry, (2015, 3, 1), Some((2019, 3, 1))),
        stint("B", SeniorityLevel::Lead, (2019, 3, 2), Some((2020, 1, 1))),
        stint("A", SeniorityLevel::Senior, (2020, 1, 2), None),
        stint("C", SeniorityLevel::Executive, (2010, 1, 1), Some((2013, 6, 30))),
    ];
    let r = calculate_loyalty_tax(&v);
    // B is held under a year and emits no block
    assert_eq!(r.tenure_blocks.len(), 2);
    let mut total: i128 = 0;
    for b in &r.tenure_blocks {
        assert!(b.loyalty_tax_impact >= 0);
        assert!(b.years_of_service > 2_000);
        total += b.loyalty_tax_impact as i128;
    }
    assert_eq!(r.cumulative_loyalty_tax, total);
    assert_eq!(r.confidence_level, 75);
}

#[test]
fn groups_are_keyed_by_exact_employer_name() {
    // employer names differing in case are distinct groups
    let v = vec![
        stint("Acme", SeniorityLevel::Mid, (2019, 1, 1), Some((2022, 1, 1))),
        stint("ACME", SeniorityLevel::Mid, (2019, 1, 1), Some((2020, 1, 1))),
    ];
    let r = calculate_loyalty_tax(&v);
    assert_eq!(r.tenure_blocks.len(), 1);
    assert_eq!(r.tenure_blocks[0].employer_name, "Acme");
}

#[test]
fn open_position_starting_after_the_cutoff_emits_no_block() {
    // the cutoff stands in for the open end, so the tenure comes out
    // negative and the group cannot qualify
    let v = vec![stint("Acme", SeniorityLevel::Mid, (2030, 1, 1), None)];
    let r = calculate_loyalty_tax(&v);
    assert!(r.tenure_blocks.is_empty());
    assert_eq!(r.confidence_level, 0);
}

#[test]
fn leap_days_are_counted() {
    // 2020-01-01 to 2022-01-01 spans the leap day: 731 days, just over
    // two 365.25-day years
    let v = vec![stint("Acme", SeniorityLevel::Mid, (2020, 1, 1), Some((2022, 1, 1)))];
    let r = calculate_loyalty_tax(&v);
    assert_eq!(r.tenure_blocks.len(), 1);
    assert_eq!(r.tenure_blocks[0].years_of_service, 2_001);
}

#[test]
fn market_comparison_carries_the_fixed_rates() {
    let r = calculate_loyalty_tax(&Vec::new());
    assert_eq!(r.market_comparison.industry_average_growth, 60_000);
    assert_eq!(r.market_comparison.role_level_growth, 70_000);
    assert_eq!(r.market_comparison.cpi_adjusted_growth, 30_000);
}
