use careerflow::date::Date;
use careerflow::estimate::{
    calculate_position_earnings, estimate_annual_hours, estimate_overtime_multiplier,
};
use careerflow::models::{
    CareerPreferences, EmploymentType, FIFOTolerance, OvertimeAppetite, Position, Qualification,
    SeniorityLevel, TravelTolerance, UserProfile,
};

fn position(employment_type: EmploymentType, seniority_level: SeniorityLevel) -> Position {
    Position {
        id: None,
        employer_name: "Acme".to_string(),
        job_title: "Worker".to_string(),
        employment_type,
        location: "Sydney".to_string(),
        start_date: Date { year: 2020, month: 1, day: 1 },
        end_date: None,
        seniority_level,
        core_responsibilities: String::new(),
        tools_systems_skills: Vec::new(),
        achievements: Vec::new(),
    }
}

fn profile(industry: &str, appetite: OvertimeAppetite) -> UserProfile {
    UserProfile {
        id: None,
        first_name: "Jo".to_string(),
        last_name: "Citizen".to_string(),
        date_of_birth: Date { year: 1990, month: 6, day: 15 },
        state: careerflow::models::AustralianState::NSW,
        industry: industry.to_string(),
        highest_qualification: Qualification::Bachelor,
        career_preferences: CareerPreferences {
            employment_type_preference: EmploymentType::Permanent,
            fifo_tolerance: FIFOTolerance::NoFifo,
            travel_tolerance: TravelTolerance::NoTravel,
            overtime_appetite: appetite,
            privacy_acknowledged: true,
            disclaimer_acknowledged: true,
        },
    }
}

#[test]
fn permanent_entry_base_is_the_anchor() {
    let p = position(EmploymentType::Permanent, SeniorityLevel::Entry);
    assert_eq!(p.base_salary_estimate(), 6_000_000);
}

#[test]
fn permanent_bases_follow_the_anchor_table() {
    let cases = [
        (SeniorityLevel::Entry, 6_000_000),
        (SeniorityLevel::Junior, 7_500_000),
        (SeniorityLevel::Mid, 9_500_000),
        (SeniorityLevel::Senior, 12_000_000),
        (SeniorityLevel::Lead, 14_000_000),
        (SeniorityLevel::Manager, 13_000_000),
        (SeniorityLevel::Director, 18_000_000),
        (SeniorityLevel::Executive, 25_000_000),
    ];
    for (level, cents) in cases {
        let p = position(EmploymentType::Permanent, level);
        assert_eq!(p.base_salary_estimate(), cents);
    }
}

#[test]
fn contract_loading_is_twenty_percent() {
    let p = position(EmploymentType::Contract, SeniorityLevel::Mid);
    assert_eq!(p.base_salary_estimate(), 11_400_000);
    let q = position(EmploymentType::Contract, SeniorityLevel::Entry);
    assert_eq!(q.base_salary_estimate(), 7_200_000);
}

#[test]
fn casual_loading_is_twenty_five_percent() {
    let p = position(EmploymentType::Casual, SeniorityLevel::Mid);
    assert_eq!(p.base_salary_estimate(), 11_875_000);
    let q = position(EmploymentType::Casual, SeniorityLevel::Executive);
    assert_eq!(q.base_salary_estimate(), 31_250_000);
}

#[test]
fn multiplier_without_profile_is_the_seniority_factor() {
    let p = position(EmploymentType::Permanent, SeniorityLevel::Senior);
    assert_eq!(estimate_overtime_multiplier(&p, &None), 1_200_000);
    let q = position(EmploymentType::Permanent, SeniorityLevel::Entry);
    assert_eq!(estimate_overtime_multiplier(&q, &None), 1_050_000);
    let r = position(EmploymentType::Permanent, SeniorityLevel::Lead);
    assert_eq!(estimate_overtime_multiplier(&r, &None), 1_250_000);
}

#[test]
fn multiplier_multiplies_three_factors() {
    let p = position(EmploymentType::Permanent, SeniorityLevel::Senior);
    let prof = Some(profile("Mining services", OvertimeAppetite::Extreme));
    // 1.20 * 1.30 * 1.40
    assert_eq!(estimate_overtime_multiplier(&p, &prof), 2_184_000);
    let prof2 = Some(profile("Retail", OvertimeAppetite::NoOvertime));
    // 1.20 * 1.0 * 0.95
    assert_eq!(estimate_overtime_multiplier(&p, &prof2), 1_140_000);
}

#[test]
fn industry_match_is_case_insensitive() {
    let p = position(EmploymentType::Permanent, SeniorityLevel::Senior);
    let upper = Some(profile("MINING", OvertimeAppetite::Minimal));
    // the industry text is lowercased before the keyword match
    assert_eq!(estimate_overtime_multiplier(&p, &upper), 1_560_000);
    let mixed = Some(profile("Information Technology", OvertimeAppetite::Minimal));
    assert_eq!(estimate_overtime_multiplier(&p, &mixed), 1_380_000);
}

#[test]
fn annual_hours_scale_with_employment_type() {
    let p = position(EmploymentType::Permanent, SeniorityLevel::Mid);
    assert_eq!(estimate_annual_hours(&p), 197_600);
    let c = position(EmploymentType::Contract, SeniorityLevel::Mid);
    assert_eq!(estimate_annual_hours(&c), 217_360);
    let k = position(EmploymentType::Casual, SeniorityLevel::Mid);
    assert_eq!(estimate_annual_hours(&k), 158_080);
}

#[test]
fn position_earnings_divide_by_estimated_hours() {
    let p = position(EmploymentType::Permanent, SeniorityLevel::Entry);
    let (actual, hourly) = calculate_position_earnings(&p, &None);
    // 60000.00 * 1.05 = 63000.00; 6_300_000 cents over 1976 hours
    assert_eq!(actual, 6_300_000);
    assert_eq!(hourly, 3_188);
}
