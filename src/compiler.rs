use vstd::prelude::*;
use crate::date_time::{parse_instant, QueryDateTime};
use crate::error::PlannerError;
use crate::granularity::{
    is_predefined_granularity_name, is_predefined_name, Granularity, GranularityModel,
    MAX_INTERVAL_SECONDS,
};
use crate::text::text_eq;

verus! {

/// A custom granularity declared on a cube's dimension: an origin literal and
/// an interval in seconds.
pub struct CustomGranularityDef {
    pub cube_name: String,
    pub dimension_name: String,
    pub name: String,
    pub origin: String,
    pub interval_seconds: i64,
}

/// The model's answers about custom granularities.
pub struct ModelEvaluator {
    pub custom_granularities: Vec<CustomGranularityDef>,
}

pub open spec fn declares(d: CustomGranularityDef, cube: Seq<char>, dim: Seq<char>, name: Seq<char>) -> bool {
    d.cube_name@ == cube && d.dimension_name@ == dim && d.name@ == name
}

/// `j` is the first declaration of `name` on `cube`.`dim`.
pub open spec fn first_declaration(
    defs: Seq<CustomGranularityDef>,
    cube: Seq<char>,
    dim: Seq<char>,
    name: Seq<char>,
    j: int,
) -> bool {
    &&& 0 <= j < defs.len()
    &&& declares(defs[j], cube, dim, name)
    &&& forall|k: int| 0 <= k < j ==> !declares(#[trigger] defs[k], cube, dim, name)
}

/// What a granularity name resolves to on `cube`.`dim`: a calendar unit, else
/// the first custom declaration, whose origin must parse and whose interval
/// must be positive and bounded.
pub open spec fn resolve_granularity(
    defs: Seq<CustomGranularityDef>,
    cube: Seq<char>,
    dim: Seq<char>,
    name: Seq<char>,
) -> Result<GranularityModel, PlannerError> {
    if is_predefined_name(name) {
        Ok(GranularityModel { name, custom: None })
    } else if exists|j: int| first_declaration(defs, cube, dim, name, j) {
        let j = choose|j: int| first_declaration(defs, cube, dim, name, j);
        let d = defs[j];
        match parse_instant(d.origin@) {
            None => Err(PlannerError::ParseError),
            Some(o) => if 0 < d.interval_seconds <= MAX_INTERVAL_SECONDS {
                Ok(GranularityModel { name, custom: Some((o, d.interval_seconds as int)) })
            } else {
                Err(PlannerError::ResolutionError)
            },
        }
    } else {
        Err(PlannerError::ResolutionError)
    }
}

/// The resolution of an optional reference: none asked, none built.
pub open spec fn resolve_reference(
    defs: Seq<CustomGranularityDef>,
    cube: Seq<char>,
    dim: Seq<char>,
    reference: Option<Seq<char>>,
) -> Result<Option<GranularityModel>, PlannerError> {
    match reference {
        None => Ok(None),
        Some(name) => match resolve_granularity(defs, cube, dim, name) {
            Ok(g) => Ok(Some(g)),
            Err(e) => Err(e),
        },
    }
}

pub open spec fn option_text(s: Option<String>) -> Option<Seq<char>> {
    match s {
        Some(t) => Some(t@),
        None => None,
    }
}

pub open spec fn option_model(g: Option<Granularity>) -> Option<GranularityModel> {
    match g {
        Some(x) => Some(x@),
        None => None,
    }
}

pub open spec fn result_model(r: Result<Option<Granularity>, PlannerError>) -> Result<
    Option<GranularityModel>,
    PlannerError,
> {
    match r {
        Ok(g) => Ok(option_model(g)),
        Err(e) => Err(e),
    }
}

/// A granularity whose origin, if any, is read in zone `tz`.
pub open spec fn in_zone(g: Granularity, tz: Seq<char>) -> bool {
    match g {
        Granularity::Predefined { .. } => true,
        Granularity::Custom { origin, .. } => origin.timezone@ == tz,
    }
}

/// One memoized resolution.
pub struct CacheEntry {
    pub timezone: String,
    pub cube_name: String,
    pub dimension_name: String,
    pub name: String,
    pub value: Granularity,
}

/// The compilation session's cache of resolved granularities.
pub struct Compiler {
    pub evaluator: ModelEvaluator,
    pub cache: Vec<CacheEntry>,
}

pub open spec fn entry_for(e: CacheEntry, tz: Seq<char>, cube: Seq<char>, dim: Seq<char>, name: Seq<char>) -> bool {
    e.timezone@ == tz && e.cube_name@ == cube && e.dimension_name@ == dim && e.name@ == name
}

impl Compiler {
    pub open spec fn wf(&self) -> bool {
        forall|j: int|
            0 <= j < self.cache@.len() ==> {
                let e = #[trigger] self.cache@[j];
                &&& e.value.wf()
                &&& in_zone(e.value, e.timezone@)
                &&& resolve_granularity(
                    self.evaluator.custom_granularities@,
                    e.cube_name@,
                    e.dimension_name@,
                    e.name@,
                ) == Ok::<GranularityModel, PlannerError>(e.value@)
            }
    }

    /// Has `name` on `cube`.`dim` in zone `tz` been resolved already?
    pub open spec fn is_cached(&self, tz: Seq<char>, cube: Seq<char>, dim: Seq<char>, name: Seq<char>) -> bool {
        exists|j: int| 0 <= j < self.cache@.len() && entry_for(#[trigger] self.cache@[j], tz, cube, dim, name)
    }

    pub fn new(evaluator: ModelEvaluator) -> (r: Compiler)
        ensures
            r.wf(),
            r.evaluator == evaluator,
            r.cache@.len() == 0,
    {
        Compiler { evaluator, cache: Vec::new() }
    }

    /// How many resolutions have been derived so far.
    pub fn resolved_count(&self) -> (r: usize)
        ensures
            r == self.cache@.len(),
    {
        self.cache.len()
    }
}

/// What one call of `make_granularity_obj` does to the compiler and returns.
pub open spec fn resolution_step(
    before: Compiler,
    after: Compiler,
    tz: Seq<char>,
    cube: Seq<char>,
    dim: Seq<char>,
    reference: Option<Seq<char>>,
    r: Result<Option<GranularityModel>, PlannerError>,
) -> bool {
    &&& after.wf()
    &&& after.evaluator == before.evaluator
    &&& r == resolve_reference(before.evaluator.custom_granularities@, cube, dim, reference)
    &&& match reference {
        None => after == before,
        Some(name) => {
            &&& before.is_cached(tz, cube, dim, name) ==> after == before
            &&& r is Ok ==> after.is_cached(tz, cube, dim, name)
            &&& after.cache@.len() <= before.cache@.len() + 1
        },
    }
}

/// Resolving the same (zone, cube, dimension, reference) twice in a row gives
/// the same result both times; once the first has succeeded, the second
/// derives nothing and leaves the compiler exactly as the first left it.
pub proof fn lemma_resolution_idempotent(
    c0: Compiler,
    c1: Compiler,
    c2: Compiler,
    tz: Seq<char>,
    cube: Seq<char>,
    dim: Seq<char>,
    reference: Option<Seq<char>>,
    r1: Result<Option<GranularityModel>, PlannerError>,
    r2: Result<Option<GranularityModel>, PlannerError>,
)
    requires
        resolution_step(c0, c1, tz, cube, dim, reference, r1),
        resolution_step(c1, c2, tz, cube, dim, reference, r2),
    ensures
        r2 == r1,
        r1 is Ok ==> c2 == c1,
{
}

fn find_declaration(defs: &Vec<CustomGranularityDef>, cube: &str, dim: &str, name: &str) -> (r: Option<usize>)
    ensures
        match r {
            Some(j) => first_declaration(defs@, cube@, dim@, name@, j as int),
            None => !exists|j: int| first_declaration(defs@, cube@, dim@, name@, j),
        },
{
    let mut i: usize = 0;
    while i < defs.len()
        invariant
            i <= defs@.len(),
            forall|k: int| 0 <= k < i ==> !declares(#[trigger] defs@[k], cube@, dim@, name@),
        decreases defs@.len() - i,
    {
        let d = &defs[i];
        if text_eq(d.cube_name.as_str(), cube) && text_eq(d.dimension_name.as_str(), dim)
            && text_eq(d.name.as_str(), name) {
            return Some(i);
        }
        i = i + 1;
    }
    None
}

fn find_cached(cache: &Vec<CacheEntry>, tz: &str, cube: &str, dim: &str, name: &str) -> (r: Option<usize>)
    ensures
        match r {
            Some(j) => j < cache@.len() && entry_for(cache@[j as int], tz@, cube@, dim@, name@),
            None => !exists|j: int| 0 <= j < cache@.len() && entry_for(#[trigger] cache@[j], tz@, cube@, dim@, name@),
        },
{
    let mut i: usize = 0;
    while i < cache.len()
        invariant
            i <= cache@.len(),
            forall|k: int| 0 <= k < i ==> !entry_for(#[trigger] cache@[k], tz@, cube@, dim@, name@),
        decreases cache@.len() - i,
    {
        let e = &cache[i];
        if text_eq(e.timezone.as_str(), tz) && text_eq(e.cube_name.as_str(), cube) && text_eq(
            e.dimension_name.as_str(),
            dim,
        ) && text_eq(e.name.as_str(), name) {
            return Some(i);
        }
        i = i + 1;
    }
    None
}

/// Derives the granularity `name` on `cube`.`dim` from the model, without the cache.
fn derive_granularity(evaluator: &ModelEvaluator, tz: &str, cube: &str, dim: &str, name: &str) -> (r: Result<Granularity, PlannerError>)
    ensures
        match resolve_granularity(evaluator.custom_granularities@, cube@, dim@, name@) {
            Ok(m) => r is Ok && r->Ok_0@ == m && r->Ok_0.wf() && in_zone(r->Ok_0, tz@),
            Err(e) => r == Err::<Granularity, PlannerError>(e),
        },
{
    if is_predefined_granularity_name(name) {
        return Ok(Granularity::Predefined { name: String::from_str(name) });
    }
    match find_declaration(&evaluator.custom_granularities, cube, dim, name) {
        None => Err(PlannerError::ResolutionError),
        Some(j) => {
            let d = &evaluator.custom_granularities[j];
            let ghost defs = evaluator.custom_granularities@;
            proof {
                assert forall|k: int| first_declaration(defs, cube@, dim@, name@, k) implies k == j by {
                    if k < j {
                        assert(!declares(defs[k], cube@, dim@, name@));
                    } else if k > j {
                        assert(!declares(defs[j as int], cube@, dim@, name@));
                    }
                }
            }
            let origin = QueryDateTime::from_date_str(tz, d.origin.as_str());
            match origin {
                Err(e) => Err(e),
                Ok(o) => {
                    if 0 < d.interval_seconds && d.interval_seconds <= MAX_INTERVAL_SECONDS {
                        Ok(
                            Granularity::Custom {
                                name: String::from_str(name),
                                origin: o,
                                interval: d.interval_seconds,
                            },
                        )
                    } else {
                        Err(PlannerError::ResolutionError)
                    }
                },
            }
        },
    }
}

/// Resolves an optional granularity reference on `cube_name`.`dimension_name`,
/// reusing the compiler's earlier resolution of the same reference.
pub fn make_granularity_obj(
    compiler: &mut Compiler,
    timezone: &str,
    cube_name: &str,
    dimension_name: &str,
    granularity: Option<String>,
) -> (r: Result<Option<Granularity>, PlannerError>)
    requires
        old(compiler).wf(),
    ensures
        resolution_step(
            *old(compiler),
            *final(compiler),
            timezone@,
            cube_name@,
            dimension_name@,
            option_text(granularity),
            result_model(r),
        ),
        r is Ok && r->Ok_0 is Some ==> r->Ok_0->Some_0.wf() && in_zone(r->Ok_0->Some_0, timezone@),
{
    match granularity {
        None => Ok(None),
        Some(name) => {
            match find_cached(&compiler.cache, timezone, cube_name, dimension_name, name.as_str()) {
                Some(j) => {
                    let g = compiler.cache[j].value.copy();
                    proof {
                        let e = compiler.cache@[j as int];
                        assert(entry_for(e, timezone@, cube_name@, dimension_name@, name@));
                        assert(compiler.is_cached(timezone@, cube_name@, dimension_name@, name@));
                    }
                    Ok(Some(g))
                },
                None => {
                    let derived = derive_granularity(
                        &compiler.evaluator,
                        timezone,
                        cube_name,
                        dimension_name,
                        name.as_str(),
                    );
                    match derived {
                        Err(e) => Err(e),
                        Ok(g) => {
                            let kept = g.copy();
                            let ghost before = compiler.cache@;
                            compiler.cache.push(
                                CacheEntry {
                                    timezone: String::from_str(timezone),
                                    cube_name: String::from_str(cube_name),
                                    dimension_name: String::from_str(dimension_name),
                                    name: name,
                                    value: g,
                                },
                            );
                            proof {
                                let n = before.len() as int;
                                assert(entry_for(compiler.cache@[n], timezone@, cube_name@, dimension_name@, name@));
                                assert(compiler.is_cached(timezone@, cube_name@, dimension_name@, name@));
                                assert forall|k: int| 0 <= k < compiler.cache@.len() implies {
                                    let e = #[trigger] compiler.cache@[k];
                                    &&& e.value.wf()
                                    &&& in_zone(e.value, e.timezone@)
                                    &&& resolve_granularity(
                                        compiler.evaluator.custom_granularities@,
                                        e.cube_name@,
                                        e.dimension_name@,
                                        e.name@,
                                    ) == Ok::<GranularityModel, PlannerError>(e.value@)
                                } by {
                                    if k < n {
                                        assert(compiler.cache@[k] == before[k]);
                                    }
                                }
                            }
                            Ok(Some(kept))
                        },
                    }
                },
            }
        },
    }
}

} // verus!
