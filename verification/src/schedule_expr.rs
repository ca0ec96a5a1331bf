//! Schedule expressions: cron rules and fixed presets.
//!
//! A schedule expression is either a cron rule (parsed and evaluated by the
//! `cron` crate behind a small trusted boundary) or a preset sentinel
//! (`@none`, `@once`). The cron boundary is modeled by an abstract set of
//! occurrence timestamps (unix seconds) that is a function of the source
//! expression alone.

use crate::BronzeError;
use vstd::prelude::*;

verus! {

/// Whether the `cron` crate accepts this expression (6-or-7-field cron
/// syntax or one of its `@`-aliases such as `@daily`).
pub uninterp spec fn is_valid_cron(expr: Seq<char>) -> bool;

/// The set of timestamps (unix seconds) at which a schedule parsed from
/// `expr` fires. Meaningful only when `is_valid_cron(expr)` holds.
pub uninterp spec fn cron_occurrences(expr: Seq<char>) -> Set<int>;

#[verifier::external_type_specification]
#[verifier::external_body]
pub struct ExCronScheduleRule(cron::Schedule);

/// The latest timestamp a clock works with; far beyond the year 2100 upper
/// bound of the `cron` crate's occurrence range.
pub const MAX_TIMESTAMP: i64 = 253402300799;

/// A parsed cron rule together with the expression it was parsed from.
///
/// Every value of this type is produced by `parse_cron_schedule` (or by
/// `duplicate`), so the inner rule always corresponds to the stored source.
#[derive(Debug)]
pub struct CronSchedule {
    source: String,
    schedule: cron::Schedule,
}

impl View for CronSchedule {
    type V = Seq<char>;

    closed spec fn view(&self) -> Seq<char> {
        self.source@
    }
}

/// Relies on cron's `Schedule::from_str`: it accepts exactly the expressions
/// in cron syntax (or an `@`-alias), and the parsed rule is a function of the
/// expression alone.
#[verifier::external_body]
pub(crate) fn parse_cron_schedule(expr: &str) -> (r: Option<CronSchedule>)
    ensures
        r is Some <==> is_valid_cron(expr@),
        r is Some ==> (r->0)@ == expr@,
{
    match <cron::Schedule as core::str::FromStr>::from_str(expr) {
        Ok(s) => Some(CronSchedule { source: expr.to_owned(), schedule: s }),
        Err(_) => None,
    }
}

impl CronSchedule {
    /// Relies on cron's derived `Clone` for `Schedule`: the copy has the same
    /// source and fields as the original.
    #[verifier::external_body]
    pub(crate) fn duplicate(&self) -> (r: CronSchedule)
        ensures
            r@ == self@,
    {
        CronSchedule { source: self.source.clone(), schedule: self.schedule.clone() }
    }

    /// Relies on cron's `Schedule::after`: its iterator yields the schedule's
    /// occurrences strictly after the given time in increasing order, so its
    /// first element is the earliest occurrence after `t`, and `None` means
    /// there is none. Occurrence years span 1970..=2100, so every occurrence
    /// timestamp lies in [0, 4200000000).
    #[verifier::external_body]
    pub(crate) fn next_after(&self, t: i64) -> (r: Option<i64>)
        requires
            0 <= t <= MAX_TIMESTAMP,
        ensures
            r is Some ==> cron_occurrences(self@).contains(r->0 as int) && t < r->0
                < 4200000000 && (forall|u: int|
                cron_occurrences(self@).contains(u) && u > t ==> u >= r->0),
            r is None ==> forall|u: int| cron_occurrences(self@).contains(u) ==> u <= t,
    {
        let dt = chrono::DateTime::<chrono::Utc>::from_timestamp(t, 0)?;
        self.schedule.after(&dt).next().map(|d| d.timestamp())
    }
}

/// The fixed schedule presets recognized in expression strings.
#[derive(Debug, Clone, Copy, PartialEq, Eq, Structural)]
pub enum FixPreset {
    /// The task does not need to run.
    NotRun,
    /// The task is run only once.
    Once,
    /// The task runs every hour.
    Hourly,
    /// The task runs every day.
    Daily,
    /// The task runs once a week.
    Weekly,
    /// The task runs every month.
    Monthly,
    /// The task runs every year.
    Yearly,
}

/// The exact string that names a preset.
pub open spec fn preset_alias(p: FixPreset) -> Seq<char> {
    match p {
        FixPreset::NotRun => "@none"@,
        FixPreset::Once => "@once"@,
        FixPreset::Hourly => "@hourly"@,
        FixPreset::Daily => "@daily"@,
        FixPreset::Weekly => "@weekly"@,
        FixPreset::Monthly => "@monthly"@,
        FixPreset::Yearly => "@yearly"@,
    }
}

/// String equality on the character level.
fn str_eq(a: &str, b: &str) -> (r: bool)
    ensures
        r == (a@ == b@),
{
    let x = a.to_owned();
    let y = b.to_owned();
    x == y
}

impl FixPreset {
    /// Recognizes a preset string, case-sensitively and exactly.
    pub fn parse(s: &str) -> (r: Result<FixPreset, BronzeError>)
        ensures
            match r {
                Ok(p) => s@ == preset_alias(p),
                Err(e) => e == BronzeError::ParseError && (forall|p: FixPreset|
                    s@ != preset_alias(p)),
            },
    {
        if str_eq(s, "@none") {
            Ok(FixPreset::NotRun)
        } else if str_eq(s, "@once") {
            Ok(FixPreset::Once)
        } else if str_eq(s, "@hourly") {
            Ok(FixPreset::Hourly)
        } else if str_eq(s, "@daily") {
            Ok(FixPreset::Daily)
        } else if str_eq(s, "@weekly") {
            Ok(FixPreset::Weekly)
        } else if str_eq(s, "@monthly") {
            Ok(FixPreset::Monthly)
        } else if str_eq(s, "@yearly") {
            Ok(FixPreset::Yearly)
        } else {
            proof {
                assert forall|p: FixPreset| s@ != preset_alias(p) by {
                    match p {
                        FixPreset::NotRun => assert(s@ != "@none"@),
                        FixPreset::Once => assert(s@ != "@once"@),
                        FixPreset::Hourly => assert(s@ != "@hourly"@),
                        FixPreset::Daily => assert(s@ != "@daily"@),
                        FixPreset::Weekly => assert(s@ != "@weekly"@),
                        FixPreset::Monthly => assert(s@ != "@monthly"@),
                        FixPreset::Yearly => assert(s@ != "@yearly"@),
                    }
                }
            }
            Err(BronzeError::ParseError)
        }
    }

    /// The string that names this preset.
    pub fn get_string(&self) -> (r: String)
        ensures
            r@ == preset_alias(*self),
    {
        match self {
            FixPreset::NotRun => "@none".to_owned(),
            FixPreset::Once => "@once".to_owned(),
            FixPreset::Hourly => "@hourly".to_owned(),
            FixPreset::Daily => "@daily".to_owned(),
            FixPreset::Weekly => "@weekly".to_owned(),
            FixPreset::Monthly => "@monthly".to_owned(),
            FixPreset::Yearly => "@yearly".to_owned(),
        }
    }
}

impl core::str::FromStr for FixPreset {
    type Err = BronzeError;

    fn from_str(s: &str) -> Result<Self, Self::Err> {
        FixPreset::parse(s)
    }
}

/// The non-cron preset sentinels a schedule expression can carry.
#[derive(Debug, Clone, Copy, PartialEq, Eq, Structural)]
pub enum SchedulePreset {
    /// Never runs.
    NotRun,
    /// Runs once; not wired to a concrete next-fire (a declared design gap).
    Once,
}

/// A schedule expression: a cron rule or a preset sentinel.
#[derive(Debug)]
pub enum ScheduleExpr {
    Cron(CronSchedule),
    Preset(SchedulePreset),
}

/// The mathematical shape of a schedule expression: the cron source string,
/// or the preset sentinel.
pub enum ExprShape {
    Cron(Seq<char>),
    Preset(SchedulePreset),
}

impl View for ScheduleExpr {
    type V = ExprShape;

    open spec fn view(&self) -> ExprShape {
        match self {
            ScheduleExpr::Cron(c) => ExprShape::Cron(c@),
            ScheduleExpr::Preset(p) => ExprShape::Preset(*p),
        }
    }
}

/// What parsing a schedule expression string yields: a cron rule wherever the
/// cron syntax accepts the string (this includes the `@hourly`..`@yearly`
/// aliases), otherwise one of the two non-cron sentinels, otherwise nothing.
pub open spec fn spec_parse_expr(s: Seq<char>) -> Option<ExprShape> {
    if is_valid_cron(s) {
        Some(ExprShape::Cron(s))
    } else if s == "@none"@ {
        Some(ExprShape::Preset(SchedulePreset::NotRun))
    } else if s == "@once"@ {
        Some(ExprShape::Preset(SchedulePreset::Once))
    } else {
        None
    }
}

impl ScheduleExpr {
    /// Parses a schedule expression: first as cron syntax, then as a preset.
    pub fn parse(s: &str) -> (r: Result<ScheduleExpr, BronzeError>)
        ensures
            match r {
                Ok(e) => spec_parse_expr(s@) == Some(e@),
                Err(er) => spec_parse_expr(s@) is None && er == BronzeError::ParseError,
            },
    {
        proof {
            reveal_strlit("@none");
            reveal_strlit("@once");
            reveal_strlit("@hourly");
            reveal_strlit("@daily");
            reveal_strlit("@weekly");
            reveal_strlit("@monthly");
            reveal_strlit("@yearly");
            assert("@once"@[1] == 'o' && "@none"@[1] == 'n');
            assert("@once"@ != "@none"@);
        }
        match parse_cron_schedule(s) {
            Some(c) => Ok(ScheduleExpr::Cron(c)),
            None => match FixPreset::parse(s) {
                Ok(FixPreset::NotRun) => Ok(ScheduleExpr::Preset(SchedulePreset::NotRun)),
                Ok(FixPreset::Once) => Ok(ScheduleExpr::Preset(SchedulePreset::Once)),
                // The remaining presets are aliases for cron rules; the cron
                // parse of this very string already failed.
                Ok(_) => Err(BronzeError::ParseError),
                Err(e) => {
                    proof {
                        assert(s@ != preset_alias(FixPreset::NotRun));
                        assert(s@ != preset_alias(FixPreset::Once));
                    }
                    Err(e)
                },
            },
        }
    }

    /// The expression a fixed preset stands for: the two non-cron sentinels
    /// keep their own shape; every other preset is its cron alias.
    pub fn from_preset(p: FixPreset) -> (r: Result<ScheduleExpr, BronzeError>)
        ensures
            match r {
                Ok(e) => match p {
                    FixPreset::NotRun => e@ == ExprShape::Preset(SchedulePreset::NotRun),
                    FixPreset::Once => e@ == ExprShape::Preset(SchedulePreset::Once),
                    _ => e@ == ExprShape::Cron(preset_alias(p)) && is_valid_cron(preset_alias(p)),
                },
                Err(er) => er == BronzeError::ParseError && !(p is NotRun) && !(p is Once)
                    && !is_valid_cron(preset_alias(p)),
            },
    {
        match p {
            FixPreset::NotRun => Ok(ScheduleExpr::Preset(SchedulePreset::NotRun)),
            FixPreset::Once => Ok(ScheduleExpr::Preset(SchedulePreset::Once)),
            _ => {
                let s = p.get_string();
                match parse_cron_schedule(s.as_str()) {
                    Some(c) => Ok(ScheduleExpr::Cron(c)),
                    None => Err(BronzeError::ParseError),
                }
            },
        }
    }

    /// The cron rule inside this expression, if it is one.
    pub fn to_cron_schedule(&self) -> (r: Result<CronSchedule, BronzeError>)
        ensures
            r is Ok <==> self@ is Cron,
            r is Ok ==> (r->Ok_0)@ == self@->Cron_0,
            r is Err ==> r->Err_0 == BronzeError::NotCron,
    {
        match self {
            ScheduleExpr::Cron(c) => Ok(c.duplicate()),
            ScheduleExpr::Preset(_) => Err(BronzeError::NotCron),
        }
    }

    /// An independent copy with the same shape.
    pub fn duplicate(&self) -> (r: ScheduleExpr)
        ensures
            r@ == self@,
    {
        match self {
            ScheduleExpr::Cron(c) => ScheduleExpr::Cron(c.duplicate()),
            ScheduleExpr::Preset(p) => ScheduleExpr::Preset(*p),
        }
    }
}

impl core::str::FromStr for ScheduleExpr {
    type Err = BronzeError;

    fn from_str(s: &str) -> Result<Self, Self::Err> {
        ScheduleExpr::parse(s)
    }
}

} // verus!
