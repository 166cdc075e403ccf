use vstd::prelude::*;
use std::rc::Rc;
use crate::compiler::{
    in_zone, make_granularity_obj, option_model, option_text, resolution_step, resolve_reference,
    Compiler,
};
use crate::date_time::{parse_instant, rendering, QueryDateTime};
use crate::error::PlannerError;
use crate::granularity::{align_to_origin, Granularity};
use crate::symbols::{
    copy_optional_granularity, copy_optional_text, copy_texts, suffix_for, BaseDimension,
    DimensionSymbol, MemberSymbol, QueryTools, TimeDimensionSymbol, declared_suffix_for,
};
use crate::sql::{
    dimension_sql, evaluate_with_context, symbol_wf, time_dimension_sql, PlanSqlTemplates,
    VisitorContext,
};
use crate::text::{joined, sanitize};

verus! {

/// `<cube>_<dimension>_<suffix>`, sanitized.
pub open spec fn default_alias_text(cube: Seq<char>, name: Seq<char>, suffix: Seq<char>) -> Seq<char> {
    sanitize(cube + seq!['_'] + name + seq!['_'] + suffix)
}

/// `<cube>.<dimension>_<suffix>`, sanitized.
pub open spec fn unescaped_alias_text(cube: Seq<char>, name: Seq<char>, suffix: Seq<char>) -> Seq<char> {
    sanitize(cube + seq!['.'] + name + seq!['_'] + suffix)
}

fn underscore_joined(a: &str, b: &str) -> (r: String)
    ensures
        r@ == a@ + seq!['_'] + b@,
{
    let sep = "_";
    proof {
        reveal_strlit("_");
    }
    let head = joined(a, sep);
    joined(head.as_str(), b)
}

/// The default alias of a member of `cube_name` called `name` with `suffix`.
pub fn default_alias(cube_name: &str, name: &str, suffix: &str, query_tools: &QueryTools) -> (r: String)
    ensures
        r@ == default_alias_text(cube_name@, name@, suffix@),
{
    let head = underscore_joined(cube_name, name);
    let full = underscore_joined(head.as_str(), suffix);
    query_tools.alias_name(full.as_str())
}

/// The two bounds of a date range as a pair.
fn range_pair(date_range: &Option<Vec<String>>) -> (r: Option<(String, String)>)
    requires
        date_range is Some ==> date_range->Some_0@.len() == 2,
    ensures
        match *date_range {
            None => r is None,
            Some(v) => r == Some((v@[0], v@[1])),
        },
{
    match date_range {
        Some(v) => Some((v[0].clone(), v[1].clone())),
        None => None,
    }
}

/// The time-series range for a custom granularity with origin `o` and
/// interval `i`: the start parsed, aligned and rendered; the end checked to
/// parse and kept as declared.
pub open spec fn custom_series_range(
    start: Seq<char>,
    end: String,
    o: int,
    i: int,
    r: Result<Option<Vec<String>>, PlannerError>,
) -> bool {
    match parse_instant(start) {
        None => r == Err::<Option<Vec<String>>, PlannerError>(PlannerError::ParseError),
        Some(s) => {
            let a = align_to_origin(s, o, i);
            if a < 0 {
                r == Err::<Option<Vec<String>>, PlannerError>(PlannerError::InvalidDateRange)
            } else {
                match parse_instant(end@) {
                    None => r == Err::<Option<Vec<String>>, PlannerError>(PlannerError::ParseError),
                    Some(_) => {
                        &&& r is Ok
                        &&& r->Ok_0 is Some
                        &&& r->Ok_0->Some_0@.len() == 2
                        &&& r->Ok_0->Some_0@[0]@ == rendering(a)
                        &&& r->Ok_0->Some_0@[1] == end
                    },
                }
            }
        },
    }
}

pub open spec fn range_view(d: Option<Vec<String>>) -> Option<Seq<String>> {
    match d {
        Some(v) => Some(v@),
        None => None,
    }
}

pub open spec fn pair_as_range(d: Option<(String, String)>) -> Option<Seq<String>> {
    match d {
        Some((a, b)) => Some(seq![a, b]),
        None => None,
    }
}

/// Any member wrapper, for collections that hold members of every kind.
pub enum BaseMember {
    Dimension(Rc<BaseDimension>),
    TimeDimension(Rc<BaseTimeDimension>),
}

/// A dimension bucketed by a granularity and restricted to a date range,
/// together with its compiled symbol and aliases.
pub struct BaseTimeDimension {
    pub dimension: BaseDimension,
    pub member_evaluator: MemberSymbol,
    pub query_tools: QueryTools,
    pub granularity: Option<String>,
    pub granularity_obj: Option<Granularity>,
    pub date_range: Option<Vec<String>>,
    pub default_alias: String,
    pub alias_suffix: String,
}

impl BaseTimeDimension {
    pub open spec fn granularity_wf(&self) -> bool {
        self.granularity_obj is Some ==> self.granularity_obj->Some_0.wf()
    }

    pub open spec fn wf(&self) -> bool {
        &&& self.dimension.wf()
        &&& self.granularity_wf()
        &&& self.date_range is Some ==> self.date_range->Some_0@.len() == 2
        &&& symbol_wf(self.member_evaluator)
    }

    /// The instance built on dimension `base` with these parts.
    pub open spec fn built_from(
        &self,
        query_tools: QueryTools,
        base: DimensionSymbol,
        granularity: Option<String>,
        date_range: Option<Seq<String>>,
        declared_suffix: Option<String>,
    ) -> bool {
        &&& self.wf()
        &&& self.dimension.member_evaluator == MemberSymbol::Dimension(base)
        &&& self.query_tools == query_tools
        &&& self.granularity == granularity
        &&& range_view(self.date_range) == date_range
        &&& self.alias_suffix@ == declared_suffix_for(declared_suffix, granularity)
        &&& self.default_alias@ == default_alias_text(
            base.cube_name@,
            base.name@,
            declared_suffix_for(declared_suffix, granularity),
        )
        &&& self.member_evaluator == MemberSymbol::TimeDimension(
            TimeDimensionSymbol {
                base_symbol: base,
                granularity,
                granularity_obj: self.granularity_obj,
                date_range: match date_range {
                    None => None,
                    Some(v) => Some((v[0], v[1])),
                },
                alias_suffix: declared_suffix,
            },
        )
    }

    /// Wraps an already-compiled time-dimension symbol.
    pub fn try_new_from_td_symbol(query_tools: QueryTools, td_symbol: TimeDimensionSymbol) -> (r: Result<Rc<Self>, PlannerError>)
        requires
            td_symbol.wf(),
        ensures
            r is Ok,
            r->Ok_0.built_from(
                query_tools,
                td_symbol.base_symbol,
                td_symbol.granularity,
                pair_as_range(td_symbol.date_range),
                td_symbol.alias_suffix,
            ),
            r->Ok_0.granularity_obj == td_symbol.granularity_obj,
            r->Ok_0.member_evaluator == MemberSymbol::TimeDimension(td_symbol),
    {
        let dimension = match BaseDimension::try_new_required(
            MemberSymbol::Dimension(td_symbol.base_symbol().copy()),
        ) {
            Ok(d) => d,
            Err(e) => {
                return Err(e);
            },
        };
        let granularity = copy_optional_text(td_symbol.granularity());
        let granularity_obj = copy_optional_granularity(td_symbol.granularity_obj());
        let date_range = td_symbol.date_range_vec();
        let alias_suffix = td_symbol.alias_suffix();
        let default_alias = default_alias(
            dimension.cube_name().as_str(),
            dimension.name().as_str(),
            alias_suffix.as_str(),
            &query_tools,
        );
        let member_evaluator = MemberSymbol::new_time_dimension(td_symbol);
        Ok(
            Rc::new(
                BaseTimeDimension {
                    dimension,
                    member_evaluator,
                    query_tools,
                    granularity,
                    granularity_obj,
                    date_range,
                    default_alias,
                    alias_suffix,
                },
            ),
        )
    }

    /// Builds a time dimension over a plain dimension symbol, resolving the
    /// granularity through the compiler and checking the date range.
    pub fn try_new_required(
        query_tools: QueryTools,
        member_evaluator: MemberSymbol,
        compiler: &mut Compiler,
        granularity: Option<String>,
        date_range: Option<Vec<String>>,
    ) -> (r: Result<Rc<Self>, PlannerError>)
        requires
            old(compiler).wf(),
        ensures
            final(compiler).wf(),
            final(compiler).evaluator == old(compiler).evaluator,
            match member_evaluator {
                MemberSymbol::TimeDimension(_) => r == Err::<Rc<Self>, PlannerError>(
                    PlannerError::CompilationError,
                ) && *final(compiler) == *old(compiler),
                MemberSymbol::Dimension(base) => resolution_step(
                    *old(compiler),
                    *final(compiler),
                    query_tools.timezone@,
                    base.cube_name@,
                    base.name@,
                    option_text(granularity),
                    resolve_reference(
                        old(compiler).evaluator.custom_granularities@,
                        base.cube_name@,
                        base.name@,
                        option_text(granularity),
                    ),
                ),
            },
            r is Ok && r->Ok_0.granularity_obj is Some ==> in_zone(
                r->Ok_0.granularity_obj->Some_0,
                query_tools.timezone@,
            ),
            match member_evaluator {
                MemberSymbol::TimeDimension(_) => true,
                MemberSymbol::Dimension(base) => match resolve_reference(
                    old(compiler).evaluator.custom_granularities@,
                    base.cube_name@,
                    base.name@,
                    option_text(granularity),
                ) {
                    Err(e) => r == Err::<Rc<Self>, PlannerError>(e),
                    Ok(g) => if date_range is Some && date_range->Some_0@.len() != 2 {
                        r == Err::<Rc<Self>, PlannerError>(PlannerError::InvalidDateRange)
                    } else {
                        &&& r is Ok
                        &&& r->Ok_0.built_from(
                            query_tools,
                            base,
                            granularity,
                            range_view(date_range),
                            None,
                        )
                        &&& option_model(r->Ok_0.granularity_obj) == g
                    },
                },
            },
    {
        let alias_suffix = match &granularity {
            Some(g) => g.clone(),
            None => {
                proof {
                    reveal_strlit("day");
                }
                let d = String::from_str("day");
                assert(d@ =~= seq!['d', 'a', 'y']);
                d
            },
        };
        let dimension = match BaseDimension::try_new_required(member_evaluator.copy()) {
            Ok(d) => d,
            Err(e) => {
                return Err(e);
            },
        };
        let default_alias = default_alias(
            dimension.cube_name().as_str(),
            dimension.name().as_str(),
            alias_suffix.as_str(),
            &query_tools,
        );
        let granularity_obj = match make_granularity_obj(
            compiler,
            query_tools.timezone().as_str(),
            dimension.cube_name().as_str(),
            dimension.name().as_str(),
            copy_optional_text(&granularity),
        ) {
            Ok(g) => g,
            Err(e) => {
                return Err(e);
            },
        };
        if let Some(range) = &date_range {
            if range.len() != 2 {
                return Err(PlannerError::InvalidDateRange);
            }
        }
        let date_range_tuple = range_pair(&date_range);
        let base_symbol = match dimension.member_evaluator() {
            MemberSymbol::Dimension(d) => d,
            MemberSymbol::TimeDimension(_) => {
                return Err(PlannerError::CompilationError);
            },
        };
        let member_evaluator = MemberSymbol::new_time_dimension(
            TimeDimensionSymbol::new(
                base_symbol,
                copy_optional_text(&granularity),
                copy_optional_granularity(&granularity_obj),
                date_range_tuple,
            ),
        );
        Ok(
            Rc::new(
                BaseTimeDimension {
                    dimension,
                    member_evaluator,
                    query_tools,
                    granularity,
                    granularity_obj,
                    date_range,
                    default_alias,
                    alias_suffix,
                },
            ),
        )
    }

    /// A sibling instance with a freshly resolved granularity; this one is
    /// left as it is.
    pub fn change_granularity(&self, compiler: &mut Compiler, new_granularity: Option<String>) -> (r: Result<Rc<Self>, PlannerError>)
        requires
            self.wf(),
            old(compiler).wf(),
        ensures
            resolution_step(
                *old(compiler),
                *final(compiler),
                self.query_tools.timezone@,
                self.dimension.cube_name@,
                self.dimension.name@,
                option_text(new_granularity),
                resolve_reference(
                    old(compiler).evaluator.custom_granularities@,
                    self.dimension.cube_name@,
                    self.dimension.name@,
                    option_text(new_granularity),
                ),
            ),
            r is Ok && r->Ok_0.granularity_obj is Some ==> in_zone(
                r->Ok_0.granularity_obj->Some_0,
                self.query_tools.timezone@,
            ),
            match resolve_reference(
                old(compiler).evaluator.custom_granularities@,
                self.dimension.cube_name@,
                self.dimension.name@,
                option_text(new_granularity),
            ) {
                Err(e) => r == Err::<Rc<Self>, PlannerError>(e),
                Ok(g) => {
                    &&& r is Ok
                    &&& r->Ok_0.wf()
                    &&& option_model(r->Ok_0.granularity_obj) == g
                    &&& r->Ok_0.granularity == new_granularity
                    &&& r->Ok_0.dimension == self.dimension
                    &&& r->Ok_0.query_tools == self.query_tools
                    &&& range_view(r->Ok_0.date_range) == range_view(self.date_range)
                    &&& r->Ok_0.alias_suffix == self.alias_suffix
                    &&& r->Ok_0.default_alias == self.default_alias
                    &&& r->Ok_0.member_evaluator == MemberSymbol::TimeDimension(
                        TimeDimensionSymbol {
                            base_symbol: self.dimension.member_evaluator->Dimension_0,
                            granularity: new_granularity,
                            granularity_obj: r->Ok_0.granularity_obj,
                            date_range: match self.date_range {
                                None => None,
                                Some(v) => Some((v@[0], v@[1])),
                            },
                            alias_suffix: None,
                        },
                    )
                },
            },
    {
        let new_granularity_obj = match make_granularity_obj(
            compiler,
            self.query_tools.timezone().as_str(),
            self.dimension.cube_name().as_str(),
            self.dimension.name().as_str(),
            copy_optional_text(&new_granularity),
        ) {
            Ok(g) => g,
            Err(e) => {
                return Err(e);
            },
        };
        let date_range_tuple = range_pair(&self.date_range);
        let base_symbol = match self.dimension.member_evaluator() {
            MemberSymbol::Dimension(d) => d,
            MemberSymbol::TimeDimension(_) => {
                return Err(PlannerError::CompilationError);
            },
        };
        let member_evaluator = MemberSymbol::new_time_dimension(
            TimeDimensionSymbol::new(
                base_symbol,
                copy_optional_text(&new_granularity),
                copy_optional_granularity(&new_granularity_obj),
                date_range_tuple,
            ),
        );
        let date_range = match &self.date_range {
            Some(v) => Some(copy_texts(v)),
            None => None,
        };
        proof {
            if self.date_range is Some {
                assert(date_range->Some_0@ =~= self.date_range->Some_0@);
            }
        }
        Ok(
            Rc::new(
                BaseTimeDimension {
                    dimension: self.dimension.copy(),
                    member_evaluator,
                    query_tools: self.query_tools.copy(),
                    granularity: new_granularity,
                    granularity_obj: new_granularity_obj,
                    date_range,
                    default_alias: self.default_alias.clone(),
                    alias_suffix: self.alias_suffix.clone(),
                },
            ),
        )
    }

    /// The range a time-series scaffold spans: the declared range, except
    /// that for a custom granularity the start is aligned to the granularity's
    /// origin (the end must parse, and is kept as declared).
    pub fn get_range_for_time_series(&self) -> (r: Result<Option<Vec<String>>, PlannerError>)
        requires
            self.granularity_wf(),
        ensures
            match self.date_range {
                None => r == Ok::<Option<Vec<String>>, PlannerError>(None),
                Some(v) => if v@.len() != 2 {
                    r == Err::<Option<Vec<String>>, PlannerError>(PlannerError::InvalidDateRange)
                } else {
                    match option_model(self.granularity_obj) {
                        Some(g) if g.custom is Some => custom_series_range(
                            v@[0]@,
                            v@[1],
                            g.custom->Some_0.0,
                            g.custom->Some_0.1,
                            r,
                        ),
                        _ => r is Ok && r->Ok_0 is Some && r->Ok_0->Some_0@ == v@,
                    }
                },
            },
    {
        match &self.date_range {
            None => Ok(None),
            Some(date_range) => {
                if date_range.len() != 2 {
                    return Err(PlannerError::InvalidDateRange);
                }
                match &self.granularity_obj {
                    Some(granularity_obj) => {
                        if !granularity_obj.is_predefined_granularity() {
                            let tz = self.query_tools.timezone().as_str();
                            let start = match QueryDateTime::from_date_str(tz, date_range[0].as_str()) {
                                Ok(d) => d,
                                Err(e) => {
                                    return Err(e);
                                },
                            };
                            let start = match granularity_obj.align_date_to_origin(start) {
                                Ok(d) => d,
                                Err(e) => {
                                    return Err(e);
                                },
                            };
                            if let Err(e) = QueryDateTime::from_date_str(tz, date_range[1].as_str()) {
                                return Err(e);
                            }
                            let mut out: Vec<String> = Vec::new();
                            out.push(start.to_string());
                            out.push(date_range[1].clone());
                            Ok(Some(out))
                        } else {
                            Ok(Some(copy_texts(date_range)))
                        }
                    },
                    None => Ok(Some(copy_texts(date_range))),
                }
            },
        }
    }

    pub fn get_granularity(&self) -> (r: Option<String>)
        ensures
            r == self.granularity,
    {
        copy_optional_text(&self.granularity)
    }

    pub fn get_granularity_obj(&self) -> (r: &Option<Granularity>)
        ensures
            *r == self.granularity_obj,
    {
        &self.granularity_obj
    }

    /// The canonical name of the resolved granularity, if any.
    pub fn resolved_granularity(&self) -> (r: Result<Option<String>, PlannerError>)
        ensures
            match option_model(self.granularity_obj) {
                None => r == Ok::<Option<String>, PlannerError>(None),
                Some(g) => r is Ok && r->Ok_0 is Some && r->Ok_0->Some_0@ == g.name,
            },
    {
        let res = match &self.granularity_obj {
            Some(granularity_obj) => match granularity_obj.resolved_granularity() {
                Ok(name) => Some(name),
                Err(e) => {
                    return Err(e);
                },
            },
            None => None,
        };
        Ok(res)
    }

    pub fn has_granularity(&self) -> (r: bool)
        ensures
            r == (self.granularity is Some),
    {
        self.granularity.is_some()
    }

    pub fn get_date_range(&self) -> (r: Option<Vec<String>>)
        ensures
            range_view(r) == range_view(self.date_range),
    {
        match &self.date_range {
            Some(v) => Some(copy_texts(v)),
            None => None,
        }
    }

    pub fn base_dimension(&self) -> (r: Rc<BaseDimension>)
        ensures
            *r == self.dimension,
    {
        Rc::new(self.dimension.copy())
    }

    pub fn base_member_evaluator(&self) -> (r: Rc<MemberSymbol>)
        ensures
            *r == self.dimension.member_evaluator,
    {
        Rc::new(self.dimension.member_evaluator())
    }

    /// `<cube>.<dimension>_<granularity or day>`, through the alias sanitizer.
    pub fn unescaped_alias_name(&self) -> (r: String)
        requires
            self.dimension.wf(),
        ensures
            r@ == unescaped_alias_text(
                self.dimension.cube_name@,
                self.dimension.name@,
                suffix_for(self.granularity),
            ),
    {
        let granularity = match &self.granularity {
            Some(g) => g.clone(),
            None => {
                proof {
                    reveal_strlit("day");
                }
                let d = String::from_str("day");
                assert(d@ =~= seq!['d', 'a', 'y']);
                d
            },
        };
        let dim = self.dimension.dimension();
        let full = underscore_joined(dim.as_str(), granularity.as_str());
        proof {
            assert(full@ =~= self.dimension.cube_name@ + seq!['.'] + self.dimension.name@ + seq!['_']
                + suffix_for(self.granularity));
        }
        self.query_tools.alias_name(full.as_str())
    }

    /// The alias used for this member in SQL: always the default alias.
    pub fn alias_name(&self) -> (r: String)
        ensures
            r == self.default_alias,
    {
        self.default_alias.clone()
    }

    pub fn member_evaluator(&self) -> (r: Rc<MemberSymbol>)
        ensures
            *r == self.member_evaluator,
    {
        Rc::new(self.member_evaluator.copy())
    }

    /// `<cube>.<dimension>` of the underlying dimension.
    pub fn full_name(&self) -> (r: String)
        ensures
            r@ == self.member_evaluator.base_of().cube_name@ + seq!['.']
                + self.member_evaluator.base_of().name@,
    {
        self.member_evaluator.full_name()
    }

    pub fn cube_name(&self) -> (r: &String)
        ensures
            *r == self.dimension.cube_name,
    {
        self.dimension.cube_name()
    }

    pub fn name(&self) -> (r: &String)
        ensures
            *r == self.dimension.name,
    {
        self.dimension.name()
    }

    /// The SQL of this time dimension: its base column bucketed by its
    /// granularity.
    pub fn to_sql(&self, context: &VisitorContext, templates: &PlanSqlTemplates) -> (r: Result<String, PlannerError>)
        requires
            symbol_wf(self.member_evaluator),
        ensures
            r is Ok,
            match self.member_evaluator {
                MemberSymbol::Dimension(d) => r->Ok_0@ == dimension_sql(d, context.cube_aliases@),
                MemberSymbol::TimeDimension(t) => time_dimension_sql(
                    t,
                    dimension_sql(t.base_symbol, context.cube_aliases@),
                    r->Ok_0@,
                ),
            },
    {
        evaluate_with_context(&self.member_evaluator, &self.query_tools, context, templates)
    }

    /// This member as a member of any kind.
    pub fn as_base_member(self: Rc<Self>) -> (r: BaseMember)
        ensures
            r == BaseMember::TimeDimension(self),
    {
        BaseMember::TimeDimension(self)
    }
}

} // verus!
