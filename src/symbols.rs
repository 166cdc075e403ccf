use vstd::prelude::*;
use crate::error::PlannerError;
use crate::granularity::Granularity;
use crate::text::{joined, sanitize, sanitized};

verus! {

/// The views of a list of strings.
pub open spec fn texts(v: Seq<String>) -> Seq<Seq<char>> {
    v.map_values(|s: String| s@)
}

/// A copy of a list of strings.
pub fn copy_texts(v: &Vec<String>) -> (r: Vec<String>)
    ensures
        r@ == v@,
{
    let mut out: Vec<String> = Vec::new();
    let mut i: usize = 0;
    while i < v.len()
        invariant
            i <= v@.len(),
            out@ == v@.subrange(0, i as int),
        decreases v@.len() - i,
    {
        out.push(v[i].clone());
        assert(out@ =~= v@.subrange(0, i + 1));
        i = i + 1;
    }
    assert(v@.subrange(0, v@.len() as int) =~= v@);
    out
}

pub fn copy_optional_text(s: &Option<String>) -> (r: Option<String>)
    ensures
        r == *s,
{
    match s {
        Some(t) => Some(t.clone()),
        None => None,
    }
}

pub fn copy_optional_granularity(g: &Option<Granularity>) -> (r: Option<Granularity>)
    ensures
        r == *g,
{
    match g {
        Some(x) => Some(x.copy()),
        None => None,
    }
}

/// A compiled plain dimension of a cube.
pub struct DimensionSymbol {
    pub cube_name: String,
    pub name: String,
}

impl DimensionSymbol {
    pub fn new(cube_name: String, name: String) -> (r: DimensionSymbol)
        ensures
            r.cube_name == cube_name,
            r.name == name,
    {
        DimensionSymbol { cube_name, name }
    }

    pub fn copy(&self) -> (r: DimensionSymbol)
        ensures
            r == *self,
    {
        DimensionSymbol { cube_name: self.cube_name.clone(), name: self.name.clone() }
    }

    /// `<cube>.<dimension>`.
    pub fn full_name(&self) -> (r: String)
        ensures
            r@ == self.cube_name@ + seq!['.'] + self.name@,
    {
        let dot = ".";
        proof {
            reveal_strlit(".");
        }
        let head = joined(self.cube_name.as_str(), dot);
        joined(head.as_str(), self.name.as_str())
    }
}

/// A dimension bucketed by an optional granularity and restricted to an
/// optional (start, end) date range.
pub struct TimeDimensionSymbol {
    pub base_symbol: DimensionSymbol,
    pub granularity: Option<String>,
    pub granularity_obj: Option<Granularity>,
    pub date_range: Option<(String, String)>,
    pub alias_suffix: Option<String>,
}

/// The alias suffix a granularity name gives: the name, or `day` without one.
pub open spec fn suffix_for(granularity: Option<String>) -> Seq<char> {
    match granularity {
        Some(g) => g@,
        None => seq!['d', 'a', 'y'],
    }
}

/// The alias suffix of a symbol: the declared one, else the granularity's.
pub open spec fn declared_suffix_for(declared: Option<String>, granularity: Option<String>) -> Seq<char> {
    match declared {
        Some(s) => s@,
        None => suffix_for(granularity),
    }
}

impl TimeDimensionSymbol {
    pub open spec fn wf(&self) -> bool {
        self.granularity_obj is Some ==> self.granularity_obj->Some_0.wf()
    }

    pub fn new(
        base_symbol: DimensionSymbol,
        granularity: Option<String>,
        granularity_obj: Option<Granularity>,
        date_range: Option<(String, String)>,
    ) -> (r: TimeDimensionSymbol)
        ensures
            r == (TimeDimensionSymbol {
                base_symbol,
                granularity,
                granularity_obj,
                date_range,
                alias_suffix: None,
            }),
    {
        TimeDimensionSymbol { base_symbol, granularity, granularity_obj, date_range, alias_suffix: None }
    }

    /// The same symbol with a declared alias suffix.
    pub fn with_alias_suffix(self, suffix: String) -> (r: TimeDimensionSymbol)
        ensures
            r == (TimeDimensionSymbol { alias_suffix: Some(suffix), ..self }),
    {
        TimeDimensionSymbol { alias_suffix: Some(suffix), ..self }
    }

    pub fn copy(&self) -> (r: TimeDimensionSymbol)
        ensures
            r == *self,
    {
        let date_range = match &self.date_range {
            Some((a, b)) => Some((a.clone(), b.clone())),
            None => None,
        };
        TimeDimensionSymbol {
            base_symbol: self.base_symbol.copy(),
            granularity: copy_optional_text(&self.granularity),
            granularity_obj: copy_optional_granularity(&self.granularity_obj),
            date_range,
            alias_suffix: copy_optional_text(&self.alias_suffix),
        }
    }

    pub fn base_symbol(&self) -> (r: &DimensionSymbol)
        ensures
            *r == self.base_symbol,
    {
        &self.base_symbol
    }

    pub fn granularity(&self) -> (r: &Option<String>)
        ensures
            *r == self.granularity,
    {
        &self.granularity
    }

    pub fn granularity_obj(&self) -> (r: &Option<Granularity>)
        ensures
            *r == self.granularity_obj,
    {
        &self.granularity_obj
    }

    /// The date range as a two-element list.
    pub fn date_range_vec(&self) -> (r: Option<Vec<String>>)
        ensures
            match self.date_range {
                None => r is None,
                Some((a, b)) => r is Some && r->Some_0@ == seq![a, b],
            },
    {
        match &self.date_range {
            Some((a, b)) => {
                let mut v: Vec<String> = Vec::new();
                v.push(a.clone());
                v.push(b.clone());
                assert(v@ =~= seq![*a, *b]);
                Some(v)
            },
            None => None,
        }
    }

    /// The declared alias suffix, else the granularity name, else `day`.
    pub fn alias_suffix(&self) -> (r: String)
        ensures
            r@ == declared_suffix_for(self.alias_suffix, self.granularity),
    {
        if let Some(s) = &self.alias_suffix {
            return s.clone();
        }
        match &self.granularity {
            Some(g) => g.clone(),
            None => {
                proof {
                    reveal_strlit("day");
                }
                let s = String::from_str("day");
                assert(s@ =~= seq!['d', 'a', 'y']);
                s
            },
        }
    }
}

/// A compiled query member.
pub enum MemberSymbol {
    Dimension(DimensionSymbol),
    TimeDimension(TimeDimensionSymbol),
}

impl MemberSymbol {
    pub fn new_time_dimension(symbol: TimeDimensionSymbol) -> (r: MemberSymbol)
        ensures
            r == MemberSymbol::TimeDimension(symbol),
    {
        MemberSymbol::TimeDimension(symbol)
    }

    pub fn copy(&self) -> (r: MemberSymbol)
        ensures
            r == *self,
    {
        match self {
            MemberSymbol::Dimension(d) => MemberSymbol::Dimension(d.copy()),
            MemberSymbol::TimeDimension(t) => MemberSymbol::TimeDimension(t.copy()),
        }
    }

    /// The dimension a member is built on.
    pub open spec fn base_of(&self) -> DimensionSymbol {
        match self {
            MemberSymbol::Dimension(d) => *d,
            MemberSymbol::TimeDimension(t) => t.base_symbol,
        }
    }

    /// `<cube>.<dimension>` of the underlying dimension.
    pub fn full_name(&self) -> (r: String)
        ensures
            r@ == self.base_of().cube_name@ + seq!['.'] + self.base_of().name@,
    {
        match self {
            MemberSymbol::Dimension(d) => d.full_name(),
            MemberSymbol::TimeDimension(t) => t.base_symbol.full_name(),
        }
    }
}

/// The query-wide context: the active time zone and the alias sanitizer.
pub struct QueryTools {
    pub timezone: String,
}

impl QueryTools {
    pub fn new(timezone: String) -> (r: QueryTools)
        ensures
            r.timezone == timezone,
    {
        QueryTools { timezone }
    }

    pub fn copy(&self) -> (r: QueryTools)
        ensures
            r == *self,
    {
        QueryTools { timezone: self.timezone.clone() }
    }

    pub fn timezone(&self) -> (r: &String)
        ensures
            *r == self.timezone,
    {
        &self.timezone
    }

    /// The column alias for `name`.
    pub fn alias_name(&self, name: &str) -> (r: String)
        ensures
            r@ == sanitize(name@),
    {
        sanitized(name)
    }
}

/// A plain dimension wrapper over its compiled symbol.
pub struct BaseDimension {
    pub member_evaluator: MemberSymbol,
    pub cube_name: String,
    pub name: String,
}

impl BaseDimension {
    pub open spec fn wf(&self) -> bool {
        &&& self.member_evaluator is Dimension
        &&& self.member_evaluator->Dimension_0.cube_name == self.cube_name
        &&& self.member_evaluator->Dimension_0.name == self.name
    }

    /// Wraps a plain dimension symbol; any other member does not compile to a
    /// dimension.
    pub fn try_new_required(member_evaluator: MemberSymbol) -> (r: Result<BaseDimension, PlannerError>)
        ensures
            match member_evaluator {
                MemberSymbol::Dimension(_) => r is Ok && r->Ok_0.member_evaluator == member_evaluator
                    && r->Ok_0.wf(),
                _ => r == Err::<BaseDimension, PlannerError>(PlannerError::CompilationError),
            },
    {
        match member_evaluator {
            MemberSymbol::Dimension(d) => {
                let cube_name = d.cube_name.clone();
                let name = d.name.clone();
                Ok(BaseDimension { member_evaluator: MemberSymbol::Dimension(d), cube_name, name })
            },
            MemberSymbol::TimeDimension(_) => Err(PlannerError::CompilationError),
        }
    }

    pub fn copy(&self) -> (r: BaseDimension)
        ensures
            r == *self,
    {
        BaseDimension {
            member_evaluator: self.member_evaluator.copy(),
            cube_name: self.cube_name.clone(),
            name: self.name.clone(),
        }
    }

    pub fn cube_name(&self) -> (r: &String)
        ensures
            *r == self.cube_name,
    {
        &self.cube_name
    }

    pub fn name(&self) -> (r: &String)
        ensures
            *r == self.name,
    {
        &self.name
    }

    pub fn member_evaluator(&self) -> (r: MemberSymbol)
        ensures
            r == self.member_evaluator,
    {
        self.member_evaluator.copy()
    }

    /// `<cube>.<dimension>`.
    pub fn dimension(&self) -> (r: String)
        requires
            self.wf(),
        ensures
            r@ == self.cube_name@ + seq!['.'] + self.name@,
    {
        self.member_evaluator.full_name()
    }
}

} // verus!
