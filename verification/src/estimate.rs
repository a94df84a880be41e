use vstd::prelude::*;
use crate::models::{EmploymentType, OvertimeAppetite, Position, SeniorityLevel, UserProfile};
use crate::text::{contains_seq, lower_of, lowercase, str_contains};

verus! {

// ---------------------------------------------------------------------------
// Constant tables
// ---------------------------------------------------------------------------

/// Anchor annual base salary for a seniority level, cents.
pub open spec fn anchor_cents(s: SeniorityLevel) -> int {
    match s {
        SeniorityLevel::Entry => 6_000_000,
        SeniorityLevel::Junior => 7_500_000,
        SeniorityLevel::Mid => 9_500_000,
        SeniorityLevel::Senior => 12_000_000,
        SeniorityLevel::Lead => 14_000_000,
        SeniorityLevel::Manager => 13_000_000,
        SeniorityLevel::Director => 18_000_000,
        SeniorityLevel::Executive => 25_000_000,
    }
}

/// Employment-type loading on the anchor salary, scale 100.
pub open spec fn loading_pct(t: EmploymentType) -> int {
    match t {
        EmploymentType::Permanent => 100,
        EmploymentType::Contract => 120,
        EmploymentType::Casual => 125,
    }
}

/// Seniority-based overtime factor, scale 100: it peaks at Lead and tapers
/// off for the management levels.
pub open spec fn seniority_factor(s: SeniorityLevel) -> int {
    match s {
        SeniorityLevel::Entry => 105,
        SeniorityLevel::Junior => 110,
        SeniorityLevel::Mid => 115,
        SeniorityLevel::Senior => 120,
        SeniorityLevel::Lead => 125,
        SeniorityLevel::Manager => 110,
        SeniorityLevel::Director => 105,
        SeniorityLevel::Executive => 105,
    }
}

/// Overtime factor of an industry text (already lowercased), scale 100.
pub open spec fn industry_factor_of(l: Seq<char>) -> int {
    if contains_seq(l, "mining"@) {
        130
    } else if contains_seq(l, "construction"@) {
        125
    } else if contains_seq(l, "engineering"@) {
        120
    } else if contains_seq(l, "it"@) || contains_seq(l, "technology"@) {
        115
    } else {
        100
    }
}

/// Personal overtime-appetite factor, scale 100.
pub open spec fn appetite_factor(a: OvertimeAppetite) -> int {
    match a {
        OvertimeAppetite::NoOvertime => 95,
        OvertimeAppetite::Minimal => 100,
        OvertimeAppetite::Moderate => 110,
        OvertimeAppetite::High => 125,
        OvertimeAppetite::Extreme => 140,
    }
}

/// Industry factor of an optional profile: neutral without one.
pub open spec fn profile_industry_factor(profile: Option<UserProfile>) -> int {
    match profile {
        Some(p) => industry_factor_of(lower_of(p.industry@)),
        None => 100,
    }
}

/// Appetite factor of an optional profile: neutral without one.
pub open spec fn profile_appetite_factor(profile: Option<UserProfile>) -> int {
    match profile {
        Some(p) => appetite_factor(p.career_preferences.overtime_appetite),
        None => 100,
    }
}

/// Hours factor of an employment type, scale 100.
pub open spec fn hours_factor(t: EmploymentType) -> int {
    match t {
        EmploymentType::Permanent => 100,
        EmploymentType::Contract => 110,
        EmploymentType::Casual => 80,
    }
}

// ---------------------------------------------------------------------------
// Derived quantities
// ---------------------------------------------------------------------------

/// Estimated annual base salary of a position, cents: the seniority anchor
/// with the employment-type loading applied.
pub open spec fn base_salary_spec(p: Position) -> int {
    anchor_cents(p.seniority_level) * loading_pct(p.employment_type) / 100
}

/// Smallest estimated base salary, cents.
pub const MIN_BASE_CENTS: i64 = 6_000_000;

/// Largest estimated base salary, cents.
pub const MAX_BASE_CENTS: i64 = 31_250_000;

/// Overtime multiplier, parts per million: the product of exactly three
/// bounded factors (seniority, industry, personal appetite), each at
/// scale 100.
pub open spec fn overtime_multiplier_spec(p: Position, profile: Option<UserProfile>) -> int {
    seniority_factor(p.seniority_level) * profile_industry_factor(profile)
        * profile_appetite_factor(profile)
}

/// Smallest possible overtime multiplier, parts per million.
pub const MIN_MULT_PPM: i64 = 997_500;

/// Largest possible overtime multiplier, parts per million.
pub const MAX_MULT_PPM: i64 = 2_275_000;

/// Estimated annual hours of a position, hundredths of an hour: 38 hours a
/// week over 52 weeks, scaled by the employment-type hours factor.
pub open spec fn annual_hours_spec(p: Position) -> int {
    1976 * hours_factor(p.employment_type)
}

/// Estimated actual annual compensation, cents: the base salary with the
/// overtime multiplier applied.
pub open spec fn actual_annual_spec(p: Position, profile: Option<UserProfile>) -> int {
    base_salary_spec(p) * overtime_multiplier_spec(p, profile) / 1_000_000
}

/// Largest possible actual annual compensation, cents.
pub const MAX_ACTUAL_CENTS: i64 = 71_093_750;

/// Effective hourly rate, cents an hour: actual annual compensation over
/// the annual hours estimate, zero if the hours estimate is zero.
pub open spec fn hourly_rate_spec(p: Position, profile: Option<UserProfile>) -> int {
    if annual_hours_spec(p) > 0 {
        actual_annual_spec(p, profile) * 100 / annual_hours_spec(p)
    } else {
        0
    }
}

impl Position {
    /// Estimates the annual base salary of this position, cents.
    pub fn base_salary_estimate(&self) -> (r: i64)
        ensures
            r == base_salary_spec(*self),
            MIN_BASE_CENTS <= r <= MAX_BASE_CENTS,
    {
        let anchor: u64 = match self.seniority_level {
            SeniorityLevel::Entry => 6_000_000,
            SeniorityLevel::Junior => 7_500_000,
            SeniorityLevel::Mid => 9_500_000,
            SeniorityLevel::Senior => 12_000_000,
            SeniorityLevel::Lead => 14_000_000,
            SeniorityLevel::Manager => 13_000_000,
            SeniorityLevel::Director => 18_000_000,
            SeniorityLevel::Executive => 25_000_000,
        };
        let loading: u64 = match self.employment_type {
            EmploymentType::Permanent => 100,
            EmploymentType::Contract => 120,
            EmploymentType::Casual => 125,
        };
        (anchor * loading / 100) as i64
    }
}

/// Computes the overtime factor of an industry text, scale 100.
pub fn industry_overtime_factor(industry: &str) -> (r: i64)
    ensures
        r == industry_factor_of(lower_of(industry@)),
        100 <= r <= 130,
{
    let low = lowercase(industry);
    if str_contains(low.as_str(), "mining") {
        130
    } else if str_contains(low.as_str(), "construction") {
        125
    } else if str_contains(low.as_str(), "engineering") {
        120
    } else if str_contains(low.as_str(), "it") || str_contains(low.as_str(), "technology") {
        115
    } else {
        100
    }
}

/// Estimates the overtime multiplier of a position under an optional
/// profile, parts per million.
pub fn estimate_overtime_multiplier(position: &Position, profile: &Option<UserProfile>) -> (r:
    i64)
    ensures
        r == overtime_multiplier_spec(*position, *profile),
        MIN_MULT_PPM <= r <= MAX_MULT_PPM,
{
    let base: u64 = match position.seniority_level {
        SeniorityLevel::Entry => 105,
        SeniorityLevel::Junior => 110,
        SeniorityLevel::Mid => 115,
        SeniorityLevel::Senior => 120,
        SeniorityLevel::Lead => 125,
        SeniorityLevel::Manager => 110,
        SeniorityLevel::Director => 105,
        SeniorityLevel::Executive => 105,
    };
    let industry: u64 = match profile {
        Some(p) => industry_overtime_factor(p.industry.as_str()) as u64,
        None => 100,
    };
    let personal: u64 = match profile {
        Some(p) => match p.career_preferences.overtime_appetite {
            OvertimeAppetite::NoOvertime => 95,
            OvertimeAppetite::Minimal => 100,
            OvertimeAppetite::Moderate => 110,
            OvertimeAppetite::High => 125,
            OvertimeAppetite::Extreme => 140,
        },
        None => 100,
    };
    proof {
        assert(base * industry * personal <= 125 * 130 * 140 && base * industry * personal >= 105
            * 100 * 95) by (nonlinear_arith)
            requires
                105 <= base <= 125,
                100 <= industry <= 130,
                95 <= personal <= 140,
        ;
    }
    (base * industry * personal) as i64
}

/// Estimates the annual hours of a position, hundredths of an hour.
pub fn estimate_annual_hours(position: &Position) -> (r: i64)
    ensures
        r == annual_hours_spec(*position),
        0 < r <= 217_360,
{
    let factor: u64 = match position.employment_type {
        EmploymentType::Permanent => 100,
        EmploymentType::Contract => 110,
        EmploymentType::Casual => 80,
    };
    (1976 * factor) as i64
}

/// Estimates the actual annual compensation of a position, cents, and its
/// effective hourly rate, cents an hour.
pub fn calculate_position_earnings(position: &Position, profile: &Option<UserProfile>) -> (r: (
    i64,
    i64,
))
    ensures
        r.0 == actual_annual_spec(*position, *profile),
        r.1 == hourly_rate_spec(*position, *profile),
        0 <= r.0 <= MAX_ACTUAL_CENTS,
        0 <= r.1,
{
    let base: u64 = position.base_salary_estimate() as u64;
    let mult: u64 = estimate_overtime_multiplier(position, profile) as u64;
    proof {
        assert(base * mult <= 31_250_000 * 2_275_000 && base * mult >= 0) by (nonlinear_arith)
            requires
                0 <= base <= 31_250_000,
                0 <= mult <= 2_275_000,
        ;
        vstd::arithmetic::div_mod::lemma_div_is_ordered(
            (base * mult) as int,
            31_250_000int * 2_275_000,
            1_000_000,
        );
    }
    let actual: u64 = base * mult / 1_000_000;
    let hours: u64 = estimate_annual_hours(position) as u64;
    let hourly: u64 = if hours > 0 {
        actual * 100 / hours
    } else {
        0
    };
    (actual as i64, hourly as i64)
}

} // verus!
