use careerflow::date::Date;
use careerflow::earnings::{
    calculate_earnings_analysis, calculate_income_percentile, calculate_industry_median,
    has_overtime_heavy_earnings,
};
use careerflow::models::{
    AustralianState, CareerPreferences, EmploymentType, FIFOTolerance, InsightCategory,
    OvertimeAppetite, Position, Qualification, SeniorityLevel, TravelTolerance, UserProfile,
};

fn position(seniority: SeniorityLevel) -> Position {
    Position {
        id: None,
        employer_name: "Acme".to_string(),
        job_title: "Worker".to_string(),
        employment_type: EmploymentType::Permanent,
        location: "Sydney".to_string(),
        start_date: Date { year: 2022, month: 1, day: 1 },
        end_date: None,
        seniority_level: seniority,
        core_responsibilities: String::new(),
        tools_systems_skills: Vec::new(),
        achievements: Vec::new(),
    }
}

fn profile(industry: &str, appetite: OvertimeAppetite) -> UserProfile {
    UserProfile {
        id: None,
        first_name: "Jo".to_string(),
        last_name: "Citizen".to_string(),
        date_of_birth: Date { year: 1990, month: 6, day: 15 },
        state: AustralianState::NSW,
        industry: industry.to_string(),
        highest_qualification: Qualification::Bachelor,
        career_preferences: CareerPreferences {
            employment_type_preference: EmploymentType::Permanent,
            fifo_tolerance: FIFOTolerance::NoFifo,
            travel_tolerance: TravelTolerance::NoTravel,
            overtime_appetite: appetite,
            privacy_acknowledged: true,
            disclaimer_acknowledged: true,
        },
    }
}

#[test]
fn medians_follow_the_industry_table() {
    assert_eq!(calculate_industry_median("Mining"), 12_500_000);
    assert_eq!(calculate_industry_median("Information Technology"), 11_000_000);
    assert_eq!(calculate_industry_median("Civil Engineering"), 10_500_000);
    assert_eq!(calculate_industry_median("construction"), 9_500_000);
    assert_eq!(calculate_industry_median("Healthcare"), 8_500_000);
    assert_eq!(calculate_industry_median("Education"), 8_000_000);
    assert_eq!(calculate_industry_median("Finance"), 10_000_000);
    assert_eq!(calculate_industry_median("Retail"), 9_000_000);
    assert_eq!(calculate_industry_median("Unknown"), 9_000_000);
    // the two-letter keyword matches inside larger words
    assert_eq!(calculate_industry_median("Hospitality"), 11_000_000);
}

#[test]
fn percentile_boundaries_are_inclusive() {
    // finance median: $100,000
    let st = AustralianState::NSW;
    assert_eq!(calculate_income_percentile(7_500_000, "Finance", &st), 25);
    assert_eq!(calculate_income_percentile(7_500_001, "Finance", &st), 50);
    assert_eq!(calculate_income_percentile(10_000_000, "Finance", &st), 50);
    assert_eq!(calculate_income_percentile(10_000_001, "Finance", &st), 75);
    assert_eq!(calculate_income_percentile(12_500_000, "Finance", &st), 75);
    assert_eq!(calculate_income_percentile(12_500_001, "Finance", &st), 90);
    assert_eq!(calculate_income_percentile(1_000_000_000, "Finance", &st), 90);
    assert_eq!(calculate_income_percentile(0, "Finance", &st), 25);
}

#[test]
fn overtime_heavy_means_a_lead_position() {
    // without a profile only the Lead factor (1.25) exceeds 1.2
    assert!(has_overtime_heavy_earnings(&vec![position(SeniorityLevel::Lead)]));
    assert!(!has_overtime_heavy_earnings(&vec![
        position(SeniorityLevel::Senior),
        position(SeniorityLevel::Executive),
    ]));
    assert!(!has_overtime_heavy_earnings(&Vec::new()));
}

#[test]
fn empty_positions_without_profile() {
    let r = calculate_earnings_analysis(&Vec::new(), &None);
    assert_eq!(r.current_total_compensation, 0);
    assert_eq!(r.current_effective_hourly_rate, 0);
    // zero income against the default median is the lowest bucket
    assert_eq!(r.income_percentile, 25);
    assert_eq!(r.loyalty_tax_annual, 0);
    assert_eq!(r.loyalty_tax_cumulative, 0);
    assert!(r.earnings_over_time.is_empty());
    assert!(r.hours_vs_earnings.is_empty());
    assert!(r.super_trajectory.is_empty());
    assert!(r.insights.is_empty());
}

#[test]
fn no_profile_means_no_insights() {
    let r = calculate_earnings_analysis(&vec![position(SeniorityLevel::Lead)], &None);
    assert!(r.insights.is_empty());
    assert_eq!(r.current_total_compensation, 17_500_000);
    // without a profile the default median of $90,000 applies
    assert_eq!(r.income_percentile, 90);
}

#[test]
fn snapshots_carry_the_per_position_estimates() {
    let positions = vec![position(SeniorityLevel::Entry)];
    let r = calculate_earnings_analysis(&positions, &None);
    assert_eq!(r.earnings_over_time.len(), 1);
    let s = &r.earnings_over_time[0];
    assert_eq!(s.date, Date { year: 2022, month: 1, day: 1 });
    assert_eq!(s.base_annual, 6_000_000);
    assert_eq!(s.actual_annual, 6_300_000);
    // flat 1.11 superannuation approximation
    assert_eq!(s.total_with_super, 6_993_000);
    assert_eq!(s.effective_hourly_rate, 3_188);
}

#[test]
fn lead_in_mining_is_overtime_heavy_and_overpaid() {
    let positions = vec![position(SeniorityLevel::Lead)];
    let prof = Some(profile("Mining", OvertimeAppetite::High));
    let r = calculate_earnings_analysis(&positions, &prof);
    // 140000.00 * (1.25 * 1.30 * 1.25)
    assert_eq!(r.current_total_compensation, 28_437_500);
    assert_eq!(r.current_effective_hourly_rate, 14_391);
    assert_eq!(r.income_percentile, 90);
    assert_eq!(r.insights.len(), 2);

    let heavy = &r.insights[0];
    assert!(matches!(heavy.category, InsightCategory::OvertimeHeavy));
    assert_eq!(heavy.title, "Overtime-Heavy Compensation Detected");
    assert_eq!(heavy.confidence_level, 85);
    assert_eq!(heavy.data_points.len(), 2);
    assert_eq!(heavy.data_points[0], "Effective hourly rate: $143.91/hr");
    assert_eq!(
        heavy.data_points[1],
        "Consider roles with better base rates if overtime burnout is a concern"
    );

    let overpaid = &r.insights[1];
    assert!(matches!(overpaid.category, InsightCategory::Overpaid));
    assert_eq!(overpaid.title, "Earnings Above Market");
    assert_eq!(
        overpaid.description,
        "You're in the 90th percentile for your industry and location."
    );
    assert_eq!(overpaid.confidence_level, 75);
    assert_eq!(overpaid.data_points[0], "Current total: $284375");
    assert_eq!(overpaid.data_points[1], "You're well compensated compared to peers");
}

#[test]
fn extreme_appetite_makes_any_position_overtime_heavy() {
    // the insight trigger uses the profile-inclusive multiplier:
    // 1.05 * 1.0 * 1.4 = 1.47 exceeds 1.2 even at Entry seniority
    let positions = vec![position(SeniorityLevel::Entry)];
    let prof = Some(profile("Retail", OvertimeAppetite::Extreme));
    let r = calculate_earnings_analysis(&positions, &prof);
    assert_eq!(r.current_total_compensation, 8_820_000);
    // 88200.00 against the default $90,000 median is the silently fair bucket
    assert_eq!(r.income_percentile, 50);
    assert_eq!(r.insights.len(), 1);
    let heavy = &r.insights[0];
    assert!(matches!(heavy.category, InsightCategory::OvertimeHeavy));
    assert_eq!(heavy.data_points[0], "Effective hourly rate: $44.63/hr");
}

#[test]
fn mid_bucket_income_raises_no_pay_insight() {
    // Entry in education: 63000.00 against an $80,000 median is the 50th
    // bucket, which is silently fair
    let positions = vec![position(SeniorityLevel::Entry)];
    let prof = Some(profile("Education", OvertimeAppetite::Minimal));
    let r = calculate_earnings_analysis(&positions, &prof);
    assert_eq!(r.income_percentile, 50);
    assert!(r.insights.is_empty());
}

#[test]
fn lowest_bucket_raises_no_pay_insight_either() {
    // the classifier never goes below 25, so the below-market insight
    // cannot fire; the mining industry factor still makes the position
    // overtime-heavy (1.05 * 1.3 * 1.0 exceeds 1.2)
    let positions = vec![position(SeniorityLevel::Entry)];
    let prof = Some(profile("Mining", OvertimeAppetite::Minimal));
    let r = calculate_earnings_analysis(&positions, &prof);
    assert_eq!(r.income_percentile, 25);
    assert_eq!(r.insights.len(), 1);
    assert!(matches!(r.insights[0].category, InsightCategory::OvertimeHeavy));
}
