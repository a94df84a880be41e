use vstd::prelude::*;
use crate::date::{Date, date_le};

verus! {

// ---------------------------------------------------------------------------
// Closed enumerations
// ---------------------------------------------------------------------------

#[derive(Clone, Copy, PartialEq, Eq, Structural, Debug)]
pub enum AustralianState {
    NSW,
    VIC,
    QLD,
    WA,
    SA,
    TAS,
    ACT,
    NT,
}

#[derive(Clone, PartialEq, Eq, Debug)]
pub enum Qualification {
    HighSchool,
    Certificate,
    Diploma,
    Bachelor,
    GraduateCertificate,
    GraduateDiploma,
    Masters,
    PhD,
    Other(String),
}

#[derive(Clone, Copy, PartialEq, Eq, Structural, Debug)]
pub enum EmploymentType {
    Permanent,
    Contract,
    Casual,
}

#[derive(Clone, Copy, PartialEq, Eq, Structural, Debug)]
pub enum FIFOTolerance {
    NoFifo,
    Limited,
    Regular,
    Extensive,
}

#[derive(Clone, Copy, PartialEq, Eq, Structural, Debug)]
pub enum TravelTolerance {
    NoTravel,
    Local,
    Regional,
    National,
    International,
}

#[derive(Clone, Copy, PartialEq, Eq, Structural, Debug)]
pub enum OvertimeAppetite {
    NoOvertime,
    Minimal,
    Moderate,
    High,
    Extreme,
}

/// The eight ordinal career stages, from Entry up to Executive.
#[derive(Clone, Copy, PartialEq, Eq, Structural, Debug)]
pub enum SeniorityLevel {
    Entry,
    Junior,
    Mid,
    Senior,
    Lead,
    Manager,
    Director,
    Executive,
}

#[derive(Clone, Copy, PartialEq, Eq, Structural, Debug)]
pub enum CompensationEntryType {
    Fuzzy,
    Exact,
}

#[derive(Clone, Copy, PartialEq, Eq, Structural, Debug)]
pub enum PayType {
    Salary,
    Hourly,
}

#[derive(Clone, Copy, PartialEq, Eq, Structural, Debug)]
pub enum OvertimeFrequency {
    Never,
    Occasional,
    Frequent,
    Extreme,
}

#[derive(Clone, Copy, PartialEq, Eq, Structural, Debug)]
pub enum AllowanceFrequency {
    Weekly,
    Fortnightly,
    Monthly,
    Annually,
}

#[derive(Clone, Copy, PartialEq, Eq, Structural, Debug)]
pub enum PayslipFrequency {
    Weekly,
    Fortnightly,
    Monthly,
}

#[derive(Clone, Copy, PartialEq, Eq, Structural, Debug)]
pub enum InsightCategory {
    Underpaid,
    FairlyPaid,
    Overpaid,
    OvertimeHeavy,
    LoyaltyTax,
    MarketOpportunity,
    SkillsGap,
}

// ---------------------------------------------------------------------------
// Input records
// ---------------------------------------------------------------------------

#[derive(Clone, Copy, PartialEq, Eq, Structural, Debug)]
pub struct CareerPreferences {
    pub employment_type_preference: EmploymentType,
    pub fifo_tolerance: FIFOTolerance,
    pub travel_tolerance: TravelTolerance,
    pub overtime_appetite: OvertimeAppetite,
    pub privacy_acknowledged: bool,
    pub disclaimer_acknowledged: bool,
}

/// One employment stint, as recorded by the user.
#[derive(Clone, Debug)]
pub struct Position {
    pub id: Option<i64>,
    pub employer_name: String,
    pub job_title: String,
    pub employment_type: EmploymentType,
    pub location: String,
    pub start_date: Date,
    pub end_date: Option<Date>,
    pub seniority_level: SeniorityLevel,
    pub core_responsibilities: String,
    pub tools_systems_skills: Vec<String>,
    pub achievements: Vec<String>,
}

impl Position {
    /// The record's invariant: real calendar dates, and the stint does not
    /// end before it starts.
    pub open spec fn wf(self) -> bool {
        &&& self.start_date.valid()
        &&& match self.end_date {
            Some(e) => e.valid() && date_le(self.start_date, e),
            None => true,
        }
    }
}

/// The (at most one) profile of the user of the installation.
#[derive(Clone, Debug)]
pub struct UserProfile {
    pub id: Option<i64>,
    pub first_name: String,
    pub last_name: String,
    pub date_of_birth: Date,
    pub state: AustralianState,
    pub industry: String,
    pub highest_qualification: Qualification,
    pub career_preferences: CareerPreferences,
}

impl UserProfile {
    pub open spec fn wf(self) -> bool {
        self.date_of_birth.valid()
    }
}

/// Whether every position of a list satisfies the record invariant.
pub open spec fn all_wf(positions: Seq<Position>) -> bool {
    forall|i: int| 0 <= i < positions.len() ==> #[trigger] positions[i].wf()
}

/// Whether an optional profile satisfies the record invariant.
pub open spec fn profile_wf(profile: Option<UserProfile>) -> bool {
    match profile {
        Some(p) => p.wf(),
        None => true,
    }
}

// ---------------------------------------------------------------------------
// Derived report records
//
// Money fields hold integer cents; factor and rate fields hold scaled
// integers (scale 100 for single factors, parts per million for composed
// multipliers and yearly growth rates); year spans hold thousandths of a
// 365.25-day year.
// ---------------------------------------------------------------------------

#[derive(Clone, Copy, PartialEq, Eq, Structural, Debug)]
pub struct EarningsSnapshot {
    pub date: Date,
    /// Estimated annual base salary, cents.
    pub base_annual: i64,
    /// Estimated annual pay with the overtime multiplier applied, cents.
    pub actual_annual: i64,
    /// Actual annual plus the flat superannuation approximation, cents.
    pub total_with_super: i64,
    /// Cents per hour.
    pub effective_hourly_rate: i64,
}

#[derive(Clone, Copy, PartialEq, Eq, Structural, Debug)]
pub struct HoursEarningsPoint {
    pub year: i32,
    /// Hundredths of an hour.
    pub total_hours_worked: i64,
    /// Cents.
    pub total_earnings: i64,
    /// Parts per million.
    pub overtime_percentage: i64,
}

#[derive(Clone, Debug)]
pub struct SuperSnapshot {
    pub financial_year: String,
    pub employer_contributions: i64,
    pub personal_contributions: i64,
    pub total_super_balance: i64,
}

#[derive(Clone, Debug)]
pub struct EarningsInsight {
    pub category: InsightCategory,
    pub title: String,
    pub description: String,
    /// Hundredths: 75 stands for a confidence of 0.75.
    pub confidence_level: u32,
    pub data_points: Vec<String>,
}

#[derive(Clone, Debug)]
pub struct EarningsAnalysis {
    /// Estimated annual pay of the current position, cents.
    pub current_total_compensation: i64,
    /// Cents per hour.
    pub current_effective_hourly_rate: i64,
    /// One of 25, 50, 75, 90.
    pub income_percentile: u32,
    /// Always zero here: the loyalty-tax report is produced separately.
    pub loyalty_tax_annual: i64,
    /// Always zero here: the loyalty-tax report is produced separately.
    pub loyalty_tax_cumulative: i64,
    pub earnings_over_time: Vec<EarningsSnapshot>,
    pub hours_vs_earnings: Vec<HoursEarningsPoint>,
    pub super_trajectory: Vec<SuperSnapshot>,
    pub insights: Vec<EarningsInsight>,
}

#[derive(Clone, Debug)]
pub struct TenureBlock {
    pub employer_name: String,
    pub start_date: Date,
    pub end_date: Option<Date>,
    /// Thousandths of a 365.25-day year.
    pub years_of_service: i64,
    /// Achieved salary growth per year, parts per million.
    pub actual_progression: i64,
    /// Market-expected salary growth per year, parts per million.
    pub market_expected_progression: i64,
    /// Modeled cost of the growth shortfall, cents.
    pub loyalty_tax_impact: i64,
}

#[derive(Clone, Copy, PartialEq, Eq, Structural, Debug)]
pub struct MarketComparison {
    /// Parts per million per year.
    pub industry_average_growth: i64,
    pub role_level_growth: i64,
    pub cpi_adjusted_growth: i64,
}

#[derive(Clone, Debug)]
pub struct YearlyLoyaltyTax {
    pub year: i32,
    pub loyalty_tax_amount: i64,
    pub missed_opportunities: Vec<String>,
}

#[derive(Clone, Debug)]
pub struct LoyaltyTaxAnalysis {
    pub tenure_blocks: Vec<TenureBlock>,
    pub market_comparison: MarketComparison,
    /// Always empty: only aggregate employer-level blocks are reported.
    pub annual_loyalty_tax: Vec<YearlyLoyaltyTax>,
    /// Sum of the blocks' impacts, cents.
    pub cumulative_loyalty_tax: i128,
    /// Hundredths: 0 with no qualifying block, else 75.
    pub confidence_level: u32,
}

#[derive(Clone, Debug)]
pub struct ProfileSummary {
    pub name: String,
    pub age: i32,
    pub location: String,
    pub industry: String,
    /// Thousandths of a 365.25-day year.
    pub experience_years: i128,
    pub seniority_level: SeniorityLevel,
}

#[derive(Clone, Debug)]
pub struct ResumePosition {
    pub employer: String,
    pub title: String,
    pub duration: String,
    pub responsibilities: Vec<String>,
    pub achievements: Vec<String>,
    pub skills_used: Vec<String>,
}

#[derive(Clone, Debug)]
pub struct CompensationSummary {
    /// Cents.
    pub current_base: i64,
    /// Cents.
    pub current_total: i64,
    /// Cents.
    pub career_earnings_total: i128,
    /// Parts per million per year.
    pub average_annual_increase: i64,
}

#[derive(Clone, Debug)]
pub struct ResumeExport {
    pub profile_summary: ProfileSummary,
    pub career_timeline: Vec<ResumePosition>,
    pub achievements: Vec<String>,
    pub skills_and_tools: Vec<String>,
    pub compensation_summary: CompensationSummary,
    pub target_preferences: CareerPreferences,
}

} // verus!
