use vstd::prelude::*;
use vstd::string::StrSliceExecFns;
use vstd::string::StringExecFns;
use crate::date::{date_le, day_number, Date};
use crate::estimate::{
    actual_annual_spec, base_salary_spec, calculate_position_earnings, MAX_ACTUAL_CENTS,
    MAX_BASE_CENTS, MIN_BASE_CENTS,
};
use crate::loyalty::{div_tr, end_or_cutoff};
use crate::models::{
    all_wf, profile_wf, AustralianState, CareerPreferences, CompensationSummary, EmploymentType,
    FIFOTolerance, OvertimeAppetite, Position, ProfileSummary, ResumeExport, ResumePosition,
    SeniorityLevel, TravelTolerance, UserProfile,
};
use crate::text::{
    dec_chars, month_abbrev, month_chars, resp_lines, u64_string, views_of, year4_chars,
    year4_string, split_trimmed_lines,
};

verus! {

// ---------------------------------------------------------------------------
// Durations
// ---------------------------------------------------------------------------

/// Calendar months between two dates, ignoring the days of month.
pub open spec fn months_between(a: Date, b: Date) -> int {
    (b.year - a.year) * 12 + b.month - a.month
}

/// A closed stint written as whole years and remaining months: "2y 3m",
/// "2y", or "5m".
pub open spec fn duration_chars(a: Date, b: Date) -> Seq<char> {
    let months = months_between(a, b);
    let years = months / 12;
    let rem = months % 12;
    if years > 0 {
        if rem > 0 {
            dec_chars(years) + "y "@ + dec_chars(rem) + "m"@
        } else {
            dec_chars(years) + "y"@
        }
    } else {
        dec_chars(rem) + "m"@
    }
}

/// An open-ended stint written as its start month and "Present".
pub open spec fn present_chars(start: Date) -> Seq<char> {
    month_chars(start.month as int) + " "@ + year4_chars(start.year as int) + " - Present"@
}

/// The duration text of a position on the timeline.
pub open spec fn timeline_duration(p: Position) -> Seq<char> {
    match p.end_date {
        Some(e) => duration_chars(p.start_date, e),
        None => present_chars(p.start_date),
    }
}

/// Writes a closed stint as whole years and remaining months.
pub fn format_duration(start: Date, end: Date) -> (r: String)
    requires
        start.valid(),
        end.valid(),
        date_le(start, end),
    ensures
        r@ == duration_chars(start, end),
{
    let months_i: i64 = (end.year as i64 - start.year as i64) * 12 + end.month as i64
        - start.month as i64;
    let months: u64 = months_i as u64;
    let years: u64 = months / 12;
    let rem: u64 = months % 12;
    if years > 0 {
        if rem > 0 {
            let mut out = u64_string(years);
            out.append("y ");
            let rem_s = u64_string(rem);
            out.append(rem_s.as_str());
            out.append("m");
            proof {
                assert(out@ =~= duration_chars(start, end));
            }
            out
        } else {
            let mut out = u64_string(years);
            out.append("y");
            proof {
                assert(out@ =~= duration_chars(start, end));
            }
            out
        }
    } else {
        let mut out = u64_string(rem);
        out.append("m");
        proof {
            assert(out@ =~= duration_chars(start, end));
        }
        out
    }
}

/// Writes an open-ended stint as its start month and "Present".
fn format_present(start: Date) -> (r: String)
    requires
        start.valid(),
    ensures
        r@ == present_chars(start),
{
    let mut out = month_abbrev(start.month).to_owned();
    out.append(" ");
    let y = year4_string(start.year);
    out.append(y.as_str());
    out.append(" - Present");
    proof {
        assert(out@ =~= present_chars(start));
    }
    out
}

// ---------------------------------------------------------------------------
// Experience
// ---------------------------------------------------------------------------

/// Days spanned by one position, up to its end or the analysis cutoff.
pub open spec fn pos_days(p: Position) -> int {
    day_number(end_or_cutoff(p)) - day_number(p.start_date)
}

/// Total days over all positions; overlapping stints count double.
pub open spec fn sum_days(s: Seq<Position>) -> int
    decreases s.len(),
{
    if s.len() == 0 {
        0
    } else {
        sum_days(s.drop_last()) + pos_days(s.last())
    }
}

/// Total experience in thousandths of a 365.25-day year.
pub open spec fn experience_milli(s: Seq<Position>) -> int {
    div_tr(sum_days(s) * 4000, 1461)
}

/// Largest magnitude the summed days can take.
pub const MAX_TOTAL_DAYS: i128 = 0xffff_ffff_ffff_ffff * 3_700_000;

/// Sums the days spanned by all positions.
fn total_days(positions: &Vec<Position>) -> (r: i128)
    requires
        all_wf(positions@),
    ensures
        r == sum_days(positions@),
        -MAX_TOTAL_DAYS <= r <= MAX_TOTAL_DAYS,
{
    let ghost s = positions@;
    let mut total: i128 = 0;
    let mut i: usize = 0;
    while i < positions.len()
        invariant
            s == positions@,
            all_wf(s),
            i <= s.len(),
            total == sum_days(s.take(i as int)),
            -(i as i128) * 3_700_000 <= total <= (i as i128) * 3_700_000,
        decreases s.len() - i,
    {
        proof {
            assert(s.take(i as int + 1).drop_last() =~= s.take(i as int));
            assert(s.take(i as int + 1).last() == s[i as int]);
            assert(s[i as int].wf());
            assert(i as int <= 0xffff_ffff_ffff_ffff);
        }
        let p = &positions[i];
        let end_date = match p.end_date {
            Some(e) => e,
            None => crate::date::analysis_cutoff(),
        };
        let d_start = crate::date::day_number_of(&p.start_date);
        let d_end = crate::date::day_number_of(&end_date);
        total = total + ((d_end - d_start) as i128);
        i = i + 1;
    }
    proof {
        assert(s.take(s.len() as int) =~= s);
        assert(i as int <= 0xffff_ffff_ffff_ffff);
    }
    total
}

/// Computes the total experience over all positions, thousandths of a
/// 365.25-day year.
pub fn calculate_total_experience(positions: &Vec<Position>) -> (r: i128)
    requires
        all_wf(positions@),
    ensures
        r == experience_milli(positions@),
{
    let days = total_days(positions);
    if days >= 0 {
        let m: u128 = (days as u128) * 4000;
        (m / 1461) as i128
    } else {
        let m: u128 = ((-days) as u128) * 4000;
        -((m / 1461) as i128)
    }
}

// ---------------------------------------------------------------------------
// Compensation summary
// ---------------------------------------------------------------------------

/// Career earnings, cents: the sum over all positions of the actual annual
/// estimate, taken without a profile.
pub open spec fn career_total_spec(s: Seq<Position>) -> int
    decreases s.len(),
{
    if s.len() == 0 {
        0
    } else {
        career_total_spec(s.drop_last()) + actual_annual_spec(s.last(), None)
    }
}

/// Average yearly salary increase, parts per million: the first position's
/// base less the last position's base, relative to the first position's
/// base, over the total experience. The endpoints are list-order, not
/// chronological; zero for a single position, a zero first base, or no
/// elapsed days.
pub open spec fn avg_increase_ppm(s: Seq<Position>) -> int {
    if s.len() > 1 {
        let base_now = base_salary_spec(s[0]);
        let base_then = base_salary_spec(s[s.len() - 1]);
        let days = sum_days(s);
        if days > 0 && base_now > 0 {
            div_tr((base_now - base_then) * 1_000_000 * 1461, base_now * days * 4)
        } else {
            0
        }
    } else {
        0
    }
}

pub open spec fn summary_ok(c: CompensationSummary, s: Seq<Position>) -> bool {
    &&& c.current_base == (if s.len() > 0 {
        base_salary_spec(s[0])
    } else {
        0
    })
    &&& c.current_total == (if s.len() > 0 {
        actual_annual_spec(s[0], None)
    } else {
        0
    })
    &&& c.career_earnings_total == career_total_spec(s)
    &&& c.average_annual_increase == avg_increase_ppm(s)
}

fn increase_ppm(base_now: i64, base_then: i64, days: i128) -> (r: i64)
    requires
        MIN_BASE_CENTS <= base_now <= MAX_BASE_CENTS,
        MIN_BASE_CENTS <= base_then <= MAX_BASE_CENTS,
        0 < days <= MAX_TOTAL_DAYS,
    ensures
        r == div_tr((base_now - base_then) * 1_000_000 * 1461, base_now as int * days * 4),
{
    proof {
        assert(0 < base_now as int * days <= 31_250_000int * (0xffff_ffff_ffff_ffff
            * 3_700_000)) by (nonlinear_arith)
            requires
                6_000_000 <= base_now <= 31_250_000,
                0 < days <= 0xffff_ffff_ffff_ffff * 3_700_000,
        ;
    }
    let den: u128 = (base_now as u128) * (days as u128) * 4;
    if base_now >= base_then {
        let num: u128 = ((base_now - base_then) as u128) * 1_000_000 * 1461;
        proof {
            vstd::arithmetic::div_mod::lemma_div_is_ordered_by_denominator(num as int, 1, den as int);
        }
        let q: u128 = num / den;
        q as i64
    } else {
        let num: u128 = ((base_then - base_now) as u128) * 1_000_000 * 1461;
        proof {
            vstd::arithmetic::div_mod::lemma_div_is_ordered_by_denominator(num as int, 1, den as int);
        }
        let q: u128 = num / den;
        -(q as i64)
    }
}

/// Summarises compensation across the career: current base and total from
/// the first position, career earnings over all positions, and the average
/// yearly increase between the list-order endpoints.
pub fn calculate_compensation_summary(positions: &Vec<Position>) -> (r: CompensationSummary)
    requires
        all_wf(positions@),
    ensures
        summary_ok(r, positions@),
{
    let ghost s = positions@;
    if positions.len() == 0 {
        return CompensationSummary {
            current_base: 0,
            current_total: 0,
            career_earnings_total: 0,
            average_annual_increase: 0,
        };
    }
    let current_base = positions[0].base_salary_estimate();
    let (current_total, _hourly) = calculate_position_earnings(&positions[0], &None);

    let mut career_total: i128 = 0;
    let mut i: usize = 0;
    while i < positions.len()
        invariant
            s == positions@,
            i <= s.len(),
            career_total == career_total_spec(s.take(i as int)),
            0 <= career_total <= (i as i128) * (MAX_ACTUAL_CENTS as i128),
        decreases s.len() - i,
    {
        proof {
            assert(s.take(i as int + 1).drop_last() =~= s.take(i as int));
            assert(s.take(i as int + 1).last() == s[i as int]);
            assert(i as int <= 0xffff_ffff_ffff_ffff);
            assert(career_total + MAX_ACTUAL_CENTS <= ((i + 1) as i128) * (
            MAX_ACTUAL_CENTS as i128)) by (nonlinear_arith)
                requires
                    0 <= career_total <= (i as i128) * (MAX_ACTUAL_CENTS as i128),
                    0 <= i as int <= 0xffff_ffff_ffff_ffff,
            ;
        }
        let (annual, _h) = calculate_position_earnings(&positions[i], &None);
        career_total = career_total + (annual as i128);
        i = i + 1;
    }
    proof {
        assert(s.take(s.len() as int) =~= s);
    }

    let average_annual_increase: i64 = if positions.len() > 1 {
        let base_now = positions[0].base_salary_estimate();
        let base_then = positions[positions.len() - 1].base_salary_estimate();
        let days = total_days(positions);
        if days > 0 {
            increase_ppm(base_now, base_then, days)
        } else {
            0
        }
    } else {
        0
    };

    CompensationSummary {
        current_base,
        current_total,
        career_earnings_total: career_total,
        average_annual_increase,
    }
}

// ---------------------------------------------------------------------------
// Profile summary and timeline
// ---------------------------------------------------------------------------

/// The variant name of a state.
pub open spec fn state_chars(st: AustralianState) -> Seq<char> {
    match st {
        AustralianState::NSW => "NSW"@,
        AustralianState::VIC => "VIC"@,
        AustralianState::QLD => "QLD"@,
        AustralianState::WA => "WA"@,
        AustralianState::SA => "SA"@,
        AustralianState::TAS => "TAS"@,
        AustralianState::ACT => "ACT"@,
        AustralianState::NT => "NT"@,
    }
}

/// Writes the variant name of a state.
pub fn state_name(st: &AustralianState) -> (r: String)
    ensures
        r@ == state_chars(*st),
{
    match st {
        AustralianState::NSW => "NSW".to_owned(),
        AustralianState::VIC => "VIC".to_owned(),
        AustralianState::QLD => "QLD".to_owned(),
        AustralianState::WA => "WA".to_owned(),
        AustralianState::SA => "SA".to_owned(),
        AustralianState::TAS => "TAS".to_owned(),
        AustralianState::ACT => "ACT".to_owned(),
        AustralianState::NT => "NT".to_owned(),
    }
}

/// The preference set assumed when no profile exists.
pub open spec fn default_preferences() -> CareerPreferences {
    CareerPreferences {
        employment_type_preference: EmploymentType::Permanent,
        fifo_tolerance: FIFOTolerance::NoFifo,
        travel_tolerance: TravelTolerance::NoTravel,
        overtime_appetite: OvertimeAppetite::Moderate,
        privacy_acknowledged: false,
        disclaimer_acknowledged: false,
    }
}

pub open spec fn profile_summary_ok(
    ps: ProfileSummary,
    s: Seq<Position>,
    profile: Option<UserProfile>,
) -> bool {
    match profile {
        Some(p) => {
            &&& ps.name@ == p.first_name@ + " "@ + p.last_name@
            &&& ps.age == 2024 - p.date_of_birth.year
            &&& ps.location@ == state_chars(p.state)
            &&& ps.industry@ == p.industry@
            &&& ps.experience_years == experience_milli(s)
            &&& ps.seniority_level == (if s.len() > 0 {
                s[0].seniority_level
            } else {
                SeniorityLevel::Entry
            })
        },
        None => {
            &&& ps.name@ == "Unknown"@
            &&& ps.age == 0
            &&& ps.location@ == "Unknown"@
            &&& ps.industry@ == "Unknown"@
            &&& ps.experience_years == 0
            &&& ps.seniority_level == SeniorityLevel::Entry
        },
    }
}

/// One timeline entry carries the position's texts, its duration, and its
/// responsibility lines.
pub open spec fn timeline_ok(rp: ResumePosition, p: Position) -> bool {
    &&& rp.employer@ == p.employer_name@
    &&& rp.title@ == p.job_title@
    &&& rp.duration@ == timeline_duration(p)
    &&& views_of(rp.responsibilities@) == resp_lines(p.core_responsibilities@)
    &&& rp.achievements@ == p.achievements@
    &&& rp.skills_used@ == p.tools_systems_skills@
}

/// All achievement strings, in list order.
pub open spec fn all_achievements(s: Seq<Position>) -> Seq<String>
    decreases s.len(),
{
    if s.len() == 0 {
        Seq::empty()
    } else {
        all_achievements(s.drop_last()) + s.last().achievements@
    }
}

/// All skill and tool strings, in list order.
pub open spec fn all_skills(s: Seq<Position>) -> Seq<String>
    decreases s.len(),
{
    if s.len() == 0 {
        Seq::empty()
    } else {
        all_skills(s.drop_last()) + s.last().tools_systems_skills@
    }
}

/// Clones a list of strings element by element.
fn clone_strings(v: &Vec<String>) -> (r: Vec<String>)
    ensures
        r@ == v@,
{
    let mut out: Vec<String> = Vec::new();
    let mut i: usize = 0;
    while i < v.len()
        invariant
            i <= v@.len(),
            out@ == v@.take(i as int),
        decreases v@.len() - i,
    {
        out.push(v[i].clone());
        proof {
            assert(out@ =~= v@.take(i as int + 1));
        }
        i = i + 1;
    }
    proof {
        assert(v@.take(v@.len() as int) =~= v@);
    }
    out
}

/// Appends clones of all of `v` to `acc`.
fn append_strings(acc: &mut Vec<String>, v: &Vec<String>)
    ensures
        final(acc)@ == old(acc)@ + v@,
{
    let mut i: usize = 0;
    while i < v.len()
        invariant
            i <= v@.len(),
            acc@ == old(acc)@ + v@.take(i as int),
        decreases v@.len() - i,
    {
        acc.push(v[i].clone());
        proof {
            assert(old(acc)@ + v@.take(i as int + 1) =~= (old(acc)@ + v@.take(i as int)).push(
                v@[i as int],
            ));
        }
        i = i + 1;
    }
    proof {
        assert(v@.take(v@.len() as int) =~= v@);
    }
}

// ---------------------------------------------------------------------------
// The resume export
// ---------------------------------------------------------------------------

/// Projects the stored positions and profile into a display-ready career
/// summary: a profile summary, a per-position timeline, the pooled
/// achievements and skills, and a compensation summary.
///
/// The first element of the list is taken as the current position; the
/// caller supplies the list with the current position first.
pub fn generate_resume_export(positions: &Vec<Position>, profile: &Option<UserProfile>) -> (r:
    ResumeExport)
    requires
        all_wf(positions@),
        profile_wf(*profile),
    ensures
        profile_summary_ok(r.profile_summary, positions@, *profile),
        r.career_timeline@.len() == positions@.len(),
        forall|i: int|
            0 <= i < positions@.len() ==> timeline_ok(
                #[trigger] r.career_timeline@[i],
                positions@[i],
            ),
        r.achievements@ == all_achievements(positions@),
        r.skills_and_tools@ == all_skills(positions@),
        summary_ok(r.compensation_summary, positions@),
        r.target_preferences == (match *profile {
            Some(p) => p.career_preferences,
            None => default_preferences(),
        }),
{
    let ghost s = positions@;
    let profile_summary = match profile {
        Some(p) => {
            let mut name = p.first_name.clone();
            name.append(" ");
            name.append(p.last_name.as_str());
            proof {
                assert(name@ =~= p.first_name@ + " "@ + p.last_name@);
            }
            let experience = calculate_total_experience(positions);
            let seniority = if positions.len() > 0 {
                positions[0].seniority_level
            } else {
                SeniorityLevel::Entry
            };
            ProfileSummary {
                name,
                age: 2024 - p.date_of_birth.year,
                location: state_name(&p.state),
                industry: p.industry.clone(),
                experience_years: experience,
                seniority_level: seniority,
            }
        },
        None => ProfileSummary {
            name: "Unknown".to_owned(),
            age: 0,
            location: "Unknown".to_owned(),
            industry: "Unknown".to_owned(),
            experience_years: 0,
            seniority_level: SeniorityLevel::Entry,
        },
    };

    let mut career_timeline: Vec<ResumePosition> = Vec::new();
    let mut achievements: Vec<String> = Vec::new();
    let mut skills_and_tools: Vec<String> = Vec::new();
    let mut i: usize = 0;
    while i < positions.len()
        invariant
            s == positions@,
            all_wf(s),
            i <= s.len(),
            career_timeline@.len() == i,
            forall|k: int|
                0 <= k < i ==> timeline_ok(#[trigger] career_timeline@[k], s[k]),
            achievements@ == all_achievements(s.take(i as int)),
            skills_and_tools@ == all_skills(s.take(i as int)),
        decreases s.len() - i,
    {
        proof {
            assert(s.take(i as int + 1).drop_last() =~= s.take(i as int));
            assert(s.take(i as int + 1).last() == s[i as int]);
            assert(s[i as int].wf());
        }
        let p = &positions[i];
        let duration = match p.end_date {
            Some(e) => format_duration(p.start_date, e),
            None => format_present(p.start_date),
        };
        let responsibilities = split_trimmed_lines(p.core_responsibilities.as_str());
        let entry = ResumePosition {
            employer: p.employer_name.clone(),
            title: p.job_title.clone(),
            duration,
            responsibilities,
            achievements: clone_strings(&p.achievements),
            skills_used: clone_strings(&p.tools_systems_skills),
        };
        career_timeline.push(entry);
        append_strings(&mut achievements, &p.achievements);
        append_strings(&mut skills_and_tools, &p.tools_systems_skills);
        i = i + 1;
    }
    proof {
        assert(s.take(s.len() as int) =~= s);
    }

    let compensation_summary = calculate_compensation_summary(positions);
    let target_preferences = match profile {
        Some(p) => p.career_preferences,
        None => CareerPreferences {
            employment_type_preference: EmploymentType::Permanent,
            fifo_tolerance: FIFOTolerance::NoFifo,
            travel_tolerance: TravelTolerance::NoTravel,
            overtime_appetite: OvertimeAppetite::Moderate,
            privacy_acknowledged: false,
            disclaimer_acknowledged: false,
        },
    };

    ResumeExport {
        profile_summary,
        career_timeline,
        achievements,
        skills_and_tools,
        compensation_summary,
        target_preferences,
    }
}

} // verus!
