use careerflow::date::Date;
use careerflow::models::{
    AustralianState, CareerPreferences, EmploymentType, FIFOTolerance, OvertimeAppetite, Position,
    Qualification, SeniorityLevel, TravelTolerance, UserProfile,
};
use careerflow::resume::{
    calculate_compensation_summary, calculate_total_experience, format_duration,
    generate_resume_export,
};

fn d(y: i32, m: u8, day: u8) -> Date {
    Date { year: y, month: m, day }
}

fn stint(seniority: SeniorityLevel, start: Date, end: Option<Date>) -> Position {
    Position {
        id: None,
        employer_name: "Acme".to_string(),
        job_title: "Worker".to_string(),
        employment_type: EmploymentType::Permanent,
        location: "Sydney".to_string(),
        start_date: start,
        end_date: end,
        seniority_level: seniority,
        core_responsibilities: String::new(),
        tools_systems_skills: Vec::new(),
        achievements: Vec::new(),
    }
}

fn profile() -> UserProfile {
    UserProfile {
        id: None,
        first_name: "Jo".to_string(),
        last_name: "Citizen".to_string(),
        date_of_birth: d(1990, 6, 15),
        state: AustralianState::QLD,
        industry: "Finance".to_string(),
        highest_qualification: Qualification::Masters,
        career_preferences: CareerPreferences {
            employment_type_preference: EmploymentType::Contract,
            fifo_tolerance: FIFOTolerance::Limited,
            travel_tolerance: TravelTolerance::National,
            overtime_appetite: OvertimeAppetite::High,
            privacy_acknowledged: true,
            disclaimer_acknowledged: true,
        },
    }
}

#[test]
fn duration_with_years_and_months() {
    assert_eq!(format_duration(d(2020, 1, 15), d(2022, 4, 15)), "2y 3m");
}

#[test]
fn duration_months_only() {
    assert_eq!(format_duration(d(2020, 1, 15), d(2020, 6, 15)), "5m");
}

#[test]
fn duration_whole_years() {
    assert_eq!(format_duration(d(2020, 1, 15), d(2022, 1, 15)), "2y");
}

#[test]
fn duration_counts_calendar_months_not_days() {
    // one elapsed day, but one calendar month difference
    assert_eq!(format_duration(d(2020, 1, 31), d(2020, 2, 1)), "1m");
    assert_eq!(format_duration(d(2020, 3, 1), d(2020, 3, 20)), "0m");
}

#[test]
fn empty_export_without_profile() {
    let r = generate_resume_export(&Vec::new(), &None);
    assert_eq!(r.profile_summary.name, "Unknown");
    assert_eq!(r.profile_summary.age, 0);
    assert_eq!(r.profile_summary.location, "Unknown");
    assert_eq!(r.profile_summary.industry, "Unknown");
    assert_eq!(r.profile_summary.experience_years, 0);
    assert!(matches!(r.profile_summary.seniority_level, SeniorityLevel::Entry));
    assert!(r.career_timeline.is_empty());
    assert!(r.achievements.is_empty());
    assert!(r.skills_and_tools.is_empty());
    assert_eq!(r.compensation_summary.current_base, 0);
    assert_eq!(r.compensation_summary.current_total, 0);
    assert_eq!(r.compensation_summary.career_earnings_total, 0);
    assert_eq!(r.compensation_summary.average_annual_increase, 0);
    let prefs = &r.target_preferences;
    assert!(matches!(prefs.employment_type_preference, EmploymentType::Permanent));
    assert!(matches!(prefs.fifo_tolerance, FIFOTolerance::NoFifo));
    assert!(matches!(prefs.travel_tolerance, TravelTolerance::NoTravel));
    assert!(matches!(prefs.overtime_appetite, OvertimeAppetite::Moderate));
    assert!(!prefs.privacy_acknowledged);
    assert!(!prefs.disclaimer_acknowledged);
}

#[test]
fn export_summarises_profile_and_positions() {
    let mut current = stint(SeniorityLevel::Senior, d(2022, 1, 1), None);
    current.job_title = "Senior Analyst".to_string();
    current.core_responsibilities =
        "  Lead the team \n\n troubleshoot \t\nFix things  ".to_string();
    current.achievements = vec!["Cut costs".to_string()];
    current.tools_systems_skills = vec!["Spreadsheets".to_string(), "SQL".to_string()];
    let mut earlier = stint(SeniorityLevel::Entry, d(2018, 1, 1), Some(d(2022, 1, 1)));
    earlier.achievements = vec!["Hired".to_string(), "Promoted".to_string()];
    earlier.tools_systems_skills = vec!["Filing".to_string()];
    let positions = vec![current, earlier];
    let r = generate_resume_export(&positions, &Some(profile()));

    assert_eq!(r.profile_summary.name, "Jo Citizen");
    assert_eq!(r.profile_summary.age, 34);
    assert_eq!(r.profile_summary.location, "QLD");
    assert_eq!(r.profile_summary.industry, "Finance");
    // 2556 summed days over a 365.25-day year, in thousandths
    assert_eq!(r.profile_summary.experience_years, 6_997);
    assert!(matches!(r.profile_summary.seniority_level, SeniorityLevel::Senior));

    assert_eq!(r.career_timeline.len(), 2);
    let t0 = &r.career_timeline[0];
    assert_eq!(t0.employer, "Acme");
    assert_eq!(t0.title, "Senior Analyst");
    assert_eq!(t0.duration, "Jan 2022 - Present");
    assert_eq!(
        t0.responsibilities,
        vec!["Lead the team".to_string(), "troubleshoot".to_string(), "Fix things".to_string()]
    );
    let t1 = &r.career_timeline[1];
    assert_eq!(t1.duration, "4y");
    assert!(t1.responsibilities.is_empty());

    assert_eq!(
        r.achievements,
        vec!["Cut costs".to_string(), "Hired".to_string(), "Promoted".to_string()]
    );
    assert_eq!(
        r.skills_and_tools,
        vec!["Spreadsheets".to_string(), "SQL".to_string(), "Filing".to_string()]
    );

    assert_eq!(r.compensation_summary.current_base, 12_000_000);
    assert_eq!(r.compensation_summary.current_total, 14_400_000);
    assert_eq!(r.compensation_summary.career_earnings_total, 20_700_000);
    // (12_000_000 - 6_000_000) / 12_000_000 over 2556 days of 365.25-day years
    assert_eq!(r.compensation_summary.average_annual_increase, 71_449);

    assert!(matches!(r.target_preferences.employment_type_preference, EmploymentType::Contract));
    assert!(matches!(r.target_preferences.fifo_tolerance, FIFOTolerance::Limited));
}

#[test]
fn total_experience_sums_each_position() {
    // a closed stint of 821 days
    let v = vec![stint(SeniorityLevel::Mid, d(2020, 1, 15), Some(d(2022, 4, 15)))];
    assert_eq!(calculate_total_experience(&v), 2_247);
    // overlapping stints are double-counted
    let w = vec![
        stint(SeniorityLevel::Mid, d(2020, 1, 15), Some(d(2022, 4, 15))),
        stint(SeniorityLevel::Mid, d(2020, 1, 15), Some(d(2022, 4, 15))),
    ];
    assert_eq!(calculate_total_experience(&w), 4_495);
    assert_eq!(calculate_total_experience(&Vec::new()), 0);
}

#[test]
fn single_position_has_no_average_increase() {
    let v = vec![stint(SeniorityLevel::Executive, d(2018, 1, 1), None)];
    let s = calculate_compensation_summary(&v);
    assert_eq!(s.current_base, 25_000_000);
    assert_eq!(s.average_annual_increase, 0);
}

#[test]
fn average_increase_can_be_negative() {
    // the list-order first element earns less than the last element
    let v = vec![
        stint(SeniorityLevel::Entry, d(2022, 1, 1), None),
        stint(SeniorityLevel::Senior, d(2018, 1, 1), Some(d(2022, 1, 1))),
    ];
    let s = calculate_compensation_summary(&v);
    assert!(s.average_annual_increase < 0);
}
