use vstd::prelude::*;
use vstd::arithmetic::div_mod::lemma_fundamental_div_mod_converse;
use crate::date_time::{instant_limit, lemma_instant_limit_bound, QueryDateTime};
use crate::error::PlannerError;
use crate::text::text_eq;

verus! {

/// The largest custom interval accepted, in seconds (10000 leap years).
pub const MAX_INTERVAL_SECONDS: i64 = 316224000000;

/// The calendar units that need no declaration.
pub open spec fn is_predefined_name(s: Seq<char>) -> bool {
    ||| s == seq!['s', 'e', 'c', 'o', 'n', 'd']
    ||| s == seq!['m', 'i', 'n', 'u', 't', 'e']
    ||| s == seq!['h', 'o', 'u', 'r']
    ||| s == seq!['d', 'a', 'y']
    ||| s == seq!['w', 'e', 'e', 'k']
    ||| s == seq!['m', 'o', 'n', 't', 'h']
    ||| s == seq!['q', 'u', 'a', 'r', 't', 'e', 'r']
    ||| s == seq!['y', 'e', 'a', 'r']
}

/// The interval boundary at or before `t`, counting from `origin` in steps of
/// `interval`.
pub open spec fn align_to_origin(t: int, origin: int, interval: int) -> int {
    origin + ((t - origin) / interval) * interval
}

/// What a granularity is, abstractly: its name, and for a custom one its
/// origin instant and interval in seconds.
pub struct GranularityModel {
    pub name: Seq<char>,
    pub custom: Option<(int, int)>,
}

/// A resolved bucketing rule.
pub enum Granularity {
    /// One of the calendar units.
    Predefined { name: String },
    /// A fixed interval counted from an origin instant.
    Custom { name: String, origin: QueryDateTime, interval: i64 },
}

impl View for Granularity {
    type V = GranularityModel;

    open spec fn view(&self) -> GranularityModel {
        match self {
            Granularity::Predefined { name } => GranularityModel { name: name@, custom: None },
            Granularity::Custom { name, origin, interval } => GranularityModel {
                name: name@,
                custom: Some((origin.seconds as int, *interval as int)),
            },
        }
    }
}

/// Is `name` one of the calendar units?
pub fn is_predefined_granularity_name(name: &str) -> (r: bool)
    ensures
        r == is_predefined_name(name@),
{
    proof {
        reveal_strlit("second");
        reveal_strlit("minute");
        reveal_strlit("hour");
        reveal_strlit("day");
        reveal_strlit("week");
        reveal_strlit("month");
        reveal_strlit("quarter");
        reveal_strlit("year");
    }
    let units = ["second", "minute", "hour", "day", "week", "month", "quarter", "year"];
    assert(units[0]@ =~= seq!['s', 'e', 'c', 'o', 'n', 'd']);
    assert(units[1]@ =~= seq!['m', 'i', 'n', 'u', 't', 'e']);
    assert(units[2]@ =~= seq!['h', 'o', 'u', 'r']);
    assert(units[3]@ =~= seq!['d', 'a', 'y']);
    assert(units[4]@ =~= seq!['w', 'e', 'e', 'k']);
    assert(units[5]@ =~= seq!['m', 'o', 'n', 't', 'h']);
    assert(units[6]@ =~= seq!['q', 'u', 'a', 'r', 't', 'e', 'r']);
    assert(units[7]@ =~= seq!['y', 'e', 'a', 'r']);
    let mut i: usize = 0;
    while i < 8
        invariant
            i <= 8,
            forall|j: int| 0 <= j < i ==> units[j]@ != name@,
            is_predefined_name(name@) <==> exists|j: int| 0 <= j < 8 && units[j]@ == name@,
        decreases 8 - i,
    {
        if text_eq(units[i], name) {
            return true;
        }
        i = i + 1;
    }
    false
}

impl Granularity {
    pub open spec fn wf(&self) -> bool {
        match self {
            Granularity::Predefined { name } => is_predefined_name(name@),
            Granularity::Custom { origin, interval, .. } => origin.wf() && 0 < *interval
                <= MAX_INTERVAL_SECONDS,
        }
    }

    pub fn is_predefined_granularity(&self) -> (r: bool)
        ensures
            r == (self@.custom is None),
    {
        match self {
            Granularity::Predefined { .. } => true,
            Granularity::Custom { .. } => false,
        }
    }

    /// The canonical name used downstream.
    pub fn resolved_granularity(&self) -> (r: Result<String, PlannerError>)
        ensures
            r is Ok && r->Ok_0@ == self@.name,
    {
        match self {
            Granularity::Predefined { name } => Ok(name.clone()),
            Granularity::Custom { name, .. } => Ok(name.clone()),
        }
    }

    /// A copy of this granularity.
    pub fn copy(&self) -> (r: Granularity)
        ensures
            r == *self,
    {
        match self {
            Granularity::Predefined { name } => Granularity::Predefined { name: name.clone() },
            Granularity::Custom { name, origin, interval } => Granularity::Custom {
                name: name.clone(),
                origin: origin.copy(),
                interval: *interval,
            },
        }
    }

    /// Shifts `date` back to the nearest interval boundary of a custom
    /// granularity; a predefined one leaves it as it is. Fails when the
    /// boundary falls before the first representable instant.
    pub fn align_date_to_origin(&self, date: QueryDateTime) -> (r: Result<
        QueryDateTime,
        PlannerError,
    >)
        requires
            self.wf(),
            date.wf(),
        ensures
            match self@.custom {
                None => r is Ok && r->Ok_0.seconds == date.seconds,
                Some((o, i)) => {
                    let a = align_to_origin(date.seconds as int, o, i);
                    if a >= 0 {
                        r is Ok && r->Ok_0.seconds == a
                    } else {
                        r == Err::<QueryDateTime, PlannerError>(PlannerError::InvalidDateRange)
                    }
                },
            },
            r is Ok ==> r->Ok_0.wf() && r->Ok_0.timezone@ == date.timezone@,
    {
        match self {
            Granularity::Predefined { .. } => Ok(date),
            Granularity::Custom { origin, interval, .. } => {
                proof {
                    lemma_instant_limit_bound();
                }
                let t = date.seconds;
                let i = *interval;
                let diff: i64 = t - origin.seconds;
                let rem: i64 = if diff >= 0 {
                    ((diff as u64) % (i as u64)) as i64
                } else {
                    let nd: u64 = (-diff) as u64;
                    let mu: u64 = nd % (i as u64);
                    let ghost q: int = nd as int / i as int;
                    proof {
                        vstd::arithmetic::div_mod::lemma_fundamental_div_mod(nd as int, i as int);
                    }
                    assert(-diff == q * i + mu);
                    let m: i64 = mu as i64;
                    if m == 0 {
                        proof {
                            assert(diff == (-q) * i) by (nonlinear_arith)
                                requires
                                    -diff == q * i + mu,
                                    mu == 0,
                            ;
                            lemma_fundamental_div_mod_converse(diff as int, i as int, -q, 0);
                        }
                        0
                    } else {
                        proof {
                            assert(diff == (-q - 1) * i + (i - m)) by (nonlinear_arith)
                                requires
                                    -diff == q * i + m,
                            ;
                            lemma_fundamental_div_mod_converse(
                                diff as int,
                                i as int,
                                -q - 1,
                                i - m,
                            );
                        }
                        i - m
                    }
                };
                assert(rem == (diff as int) % (i as int));
                assert(t - rem == align_to_origin(t as int, origin.seconds as int, i as int)) by {
                    vstd::arithmetic::div_mod::lemma_fundamental_div_mod(diff as int, i as int);
                }
                if t - rem < 0 {
                    Err(PlannerError::InvalidDateRange)
                } else {
                    Ok(QueryDateTime { timezone: date.timezone, seconds: t - rem })
                }
            },
        }
    }
}

/// Alignment law: an instant `k` whole intervals and `r` seconds past the
/// origin, with `0 <= r < interval`, aligns to the boundary `k` intervals past
/// the origin; an instant on a boundary is left where it is.
pub proof fn lemma_alignment(origin: int, interval: int, k: int, r: int)
    requires
        0 < interval,
        0 <= r < interval,
    ensures
        align_to_origin(origin + k * interval + r, origin, interval) == origin + k * interval,
        align_to_origin(origin + k * interval, origin, interval) == origin + k * interval,
        align_to_origin(align_to_origin(origin + k * interval + r, origin, interval), origin, interval)
            == align_to_origin(origin + k * interval + r, origin, interval),
{
    lemma_fundamental_div_mod_converse(k * interval + r, interval, k, r);
    lemma_fundamental_div_mod_converse(k * interval, interval, k, 0);
}

} // verus!
