use cubesqlplanner::base_time_dimension::{BaseMember, BaseTimeDimension};
use cubesqlplanner::compiler::{make_granularity_obj, Compiler, CustomGranularityDef, ModelEvaluator};
use cubesqlplanner::date_time::QueryDateTime;
use cubesqlplanner::error::PlannerError;
use cubesqlplanner::granularity::Granularity;
use cubesqlplanner::sql::{evaluate_with_context, PlanSqlTemplates, VisitorContext};
use cubesqlplanner::symbols::{DimensionSymbol, MemberSymbol, QueryTools, TimeDimensionSymbol};

const WEEK_SECONDS: i64 = 7 * 86400;

fn orders_created_at() -> MemberSymbol {
    MemberSymbol::Dimension(DimensionSymbol::new(
        "orders".to_string(),
        "created_at".to_string(),
    ))
}

fn custom(name: &str, origin: &str, interval_seconds: i64) -> CustomGranularityDef {
    CustomGranularityDef {
        cube_name: "orders".to_string(),
        dimension_name: "created_at".to_string(),
        name: name.to_string(),
        origin: origin.to_string(),
        interval_seconds,
    }
}

fn compiler_with(defs: Vec<CustomGranularityDef>) -> Compiler {
    Compiler::new(ModelEvaluator { custom_granularities: defs })
}

fn week_compiler() -> Compiler {
    compiler_with(vec![custom("monday_week", "2023-01-02", WEEK_SECONDS)])
}

fn tools() -> QueryTools {
    QueryTools::new("UTC".to_string())
}

fn range(items: &[&str]) -> Option<Vec<String>> {
    Some(items.iter().map(|s| s.to_string()).collect())
}

fn required(
    compiler: &mut Compiler,
    granularity: Option<&str>,
    date_range: Option<Vec<String>>,
) -> Result<std::rc::Rc<BaseTimeDimension>, PlannerError> {
    BaseTimeDimension::try_new_required(
        tools(),
        orders_created_at(),
        compiler,
        granularity.map(|g| g.to_string()),
        date_range,
    )
}

fn instant(text: &str) -> QueryDateTime {
    QueryDateTime::from_date_str("UTC", text).unwrap()
}

#[test]
fn custom_week_aligns_start_of_series() {
    let mut compiler = compiler_with(vec![]);
    compiler.evaluator.custom_granularities.push(custom("monday_week", "2023-01-02", WEEK_SECONDS));
    let td = required(&mut compiler, Some("monday_week"), range(&["2023-01-01", "2023-01-31"])).unwrap();
    let series = td.get_range_for_time_series().unwrap().unwrap();
    assert_eq!(
        series,
        vec!["2022-12-26T00:00:00.000".to_string(), "2023-01-31".to_string()]
    );
}

#[test]
fn custom_week_start_on_boundary_stays() {
    let mut compiler = week_compiler();
    let td = required(&mut compiler, Some("monday_week"), range(&["2023-01-09", "2023-01-31"])).unwrap();
    let series = td.get_range_for_time_series().unwrap().unwrap();
    assert_eq!(series[0], "2023-01-09T00:00:00.000");
}

#[test]
fn predefined_day_passes_range_through() {
    let mut compiler = week_compiler();
    let td = required(&mut compiler, Some("day"), range(&["2023-01-01", "2023-01-31"])).unwrap();
    assert_eq!(
        td.get_range_for_time_series().unwrap(),
        range(&["2023-01-01", "2023-01-31"])
    );
}

#[test]
fn absent_granularity_passes_range_through() {
    let mut compiler = week_compiler();
    let td = required(&mut compiler, None, range(&["2023-01-01 10:00:00", "junk"])).unwrap();
    assert_eq!(
        td.get_range_for_time_series().unwrap(),
        range(&["2023-01-01 10:00:00", "junk"])
    );
}

#[test]
fn no_date_range_gives_no_series() {
    let mut compiler = week_compiler();
    let td = required(&mut compiler, Some("monday_week"), None).unwrap();
    assert_eq!(td.get_range_for_time_series().unwrap(), None);
}

#[test]
fn single_date_range_is_rejected() {
    let mut compiler = week_compiler();
    let r = required(&mut compiler, Some("day"), range(&["2023-01-01"]));
    assert!(matches!(r, Err(PlannerError::InvalidDateRange)));
}

#[test]
fn empty_and_triple_date_ranges_are_rejected() {
    let mut compiler = week_compiler();
    let r = required(&mut compiler, None, range(&[]));
    assert!(matches!(r, Err(PlannerError::InvalidDateRange)));
    let r = required(&mut compiler, Some("month"), range(&["2023-01-01", "2023-01-02", "2023-01-03"]));
    assert!(matches!(r, Err(PlannerError::InvalidDateRange)));
    let r = required(&mut compiler, Some("month"), range(&["2023-01-01", "2023-01-02"]));
    assert!(r.is_ok());
}

#[test]
fn custom_series_with_bad_start_fails_to_parse() {
    let mut compiler = week_compiler();
    let td = required(&mut compiler, Some("monday_week"), range(&["2023-02-30", "2023-03-01"])).unwrap();
    assert!(matches!(td.get_range_for_time_series(), Err(PlannerError::ParseError)));
}

#[test]
fn default_alias_suffix_is_day() {
    let mut compiler = week_compiler();
    let td = required(&mut compiler, None, None).unwrap();
    assert_eq!(td.alias_suffix, "day");
    assert_eq!(td.alias_name(), "orders_created_at_day");
    assert_eq!(td.unescaped_alias_name(), "orders_created_at_day");
    assert!(!td.has_granularity());
    assert_eq!(td.resolved_granularity().unwrap(), None);
}

#[test]
fn month_alias_suffix_is_month() {
    let mut compiler = week_compiler();
    let td = required(&mut compiler, Some("month"), None).unwrap();
    assert_eq!(td.alias_suffix, "month");
    assert_eq!(td.alias_name(), "orders_created_at_month");
    assert_eq!(td.unescaped_alias_name(), "orders_created_at_month");
    assert_eq!(td.get_granularity(), Some("month".to_string()));
    assert_eq!(td.resolved_granularity().unwrap(), Some("month".to_string()));
}

#[test]
fn change_granularity_leaves_original_alone() {
    let mut compiler = week_compiler();
    let td = required(&mut compiler, Some("day"), range(&["2023-01-01", "2023-01-31"])).unwrap();
    let changed = td.change_granularity(&mut compiler, Some("monday_week".to_string())).unwrap();
    assert_eq!(td.get_granularity(), Some("day".to_string()));
    assert_eq!(td.get_date_range(), range(&["2023-01-01", "2023-01-31"]));
    assert_eq!(td.alias_name(), "orders_created_at_day");
    assert_eq!(changed.get_granularity(), Some("monday_week".to_string()));
    assert_eq!(changed.get_date_range(), td.get_date_range());
    assert_eq!(changed.alias_name(), td.alias_name());
    assert!(td.get_granularity_obj().as_ref().unwrap().is_predefined_granularity());
    assert!(!changed.get_granularity_obj().as_ref().unwrap().is_predefined_granularity());
    assert_eq!(changed.unescaped_alias_name(), "orders_created_at_monday_week");
}

#[test]
fn change_granularity_to_unknown_fails() {
    let mut compiler = week_compiler();
    let td = required(&mut compiler, Some("day"), None).unwrap();
    let r = td.change_granularity(&mut compiler, Some("fortnight".to_string()));
    assert!(matches!(r, Err(PlannerError::ResolutionError)));
}

#[test]
fn repeated_resolution_is_cached() {
    let mut compiler = week_compiler();
    let first = make_granularity_obj(&mut compiler, "UTC", "orders", "created_at", Some("monday_week".to_string()))
        .unwrap()
        .unwrap();
    assert_eq!(compiler.resolved_count(), 1);
    let second = make_granularity_obj(&mut compiler, "UTC", "orders", "created_at", Some("monday_week".to_string()))
        .unwrap()
        .unwrap();
    assert_eq!(compiler.resolved_count(), 1);
    assert_eq!(first.resolved_granularity().unwrap(), second.resolved_granularity().unwrap());
    make_granularity_obj(&mut compiler, "UTC", "orders", "created_at", Some("day".to_string())).unwrap();
    assert_eq!(compiler.resolved_count(), 2);
    assert!(make_granularity_obj(&mut compiler, "UTC", "orders", "created_at", None).unwrap().is_none());
    assert_eq!(compiler.resolved_count(), 2);
}

#[test]
fn unknown_granularity_is_a_resolution_error() {
    let mut compiler = week_compiler();
    let r = required(&mut compiler, Some("fortnight"), None);
    assert!(matches!(r, Err(PlannerError::ResolutionError)));
    let r = make_granularity_obj(&mut compiler, "UTC", "users", "created_at", Some("monday_week".to_string()));
    assert!(matches!(r, Err(PlannerError::ResolutionError)));
    let r = make_granularity_obj(&mut compiler, "UTC", "users", "created_at", Some("week".to_string()));
    assert!(r.unwrap().unwrap().is_predefined_granularity());
}

#[test]
fn predefined_name_wins_over_custom_declaration() {
    let mut compiler = compiler_with(vec![custom("week", "2023-01-02", WEEK_SECONDS)]);
    let g = make_granularity_obj(&mut compiler, "UTC", "orders", "created_at", Some("week".to_string()))
        .unwrap()
        .unwrap();
    assert!(g.is_predefined_granularity());
}

#[test]
fn custom_granularity_is_scoped_to_its_dimension() {
    let mut compiler = compiler_with(vec![custom("fiscal", "2023-04-01", 91 * 86400)]);
    let g = make_granularity_obj(&mut compiler, "UTC", "orders", "created_at", Some("fiscal".to_string()))
        .unwrap()
        .unwrap();
    assert!(!g.is_predefined_granularity());
    assert_eq!(g.resolved_granularity().unwrap(), "fiscal");
    let r = make_granularity_obj(&mut compiler, "UTC", "orders", "amount", Some("fiscal".to_string()));
    assert!(matches!(r, Err(PlannerError::ResolutionError)));
}

#[test]
fn bad_custom_origin_is_a_parse_error() {
    let mut compiler = compiler_with(vec![custom("odd", "not a date", 60)]);
    let r = required(&mut compiler, Some("odd"), None);
    assert!(matches!(r, Err(PlannerError::ParseError)));
    assert_eq!(compiler.resolved_count(), 0);
}

#[test]
fn non_positive_interval_is_a_resolution_error() {
    let mut compiler = compiler_with(vec![custom("odd", "2023-01-01", 0)]);
    let r = required(&mut compiler, Some("odd"), None);
    assert!(matches!(r, Err(PlannerError::ResolutionError)));
}

#[test]
fn time_dimension_member_does_not_compile_as_dimension() {
    let mut compiler = week_compiler();
    let td_symbol = TimeDimensionSymbol::new(
        DimensionSymbol::new("orders".to_string(), "created_at".to_string()),
        None,
        None,
        None,
    );
    let r = BaseTimeDimension::try_new_required(
        tools(),
        MemberSymbol::new_time_dimension(td_symbol),
        &mut compiler,
        None,
        None,
    );
    assert!(matches!(r, Err(PlannerError::CompilationError)));
}

#[test]
fn from_td_symbol_reads_symbol() {
    let td_symbol = TimeDimensionSymbol::new(
        DimensionSymbol::new("orders".to_string(), "created_at".to_string()),
        Some("hour".to_string()),
        Some(Granularity::Predefined { name: "hour".to_string() }),
        Some(("2023-01-01".to_string(), "2023-01-02".to_string())),
    );
    let td = BaseTimeDimension::try_new_from_td_symbol(tools(), td_symbol).unwrap();
    assert_eq!(td.get_granularity(), Some("hour".to_string()));
    assert_eq!(td.get_date_range(), range(&["2023-01-01", "2023-01-02"]));
    assert_eq!(td.alias_name(), "orders_created_at_hour");
    assert_eq!(td.full_name(), "orders.created_at");
    assert_eq!(td.cube_name(), "orders");
    assert_eq!(td.name(), "created_at");
    assert_eq!(td.base_dimension().dimension(), "orders.created_at");
    assert!(matches!(*td.base_member_evaluator(), MemberSymbol::Dimension(_)));
    assert!(matches!(*td.member_evaluator(), MemberSymbol::TimeDimension(_)));
}

#[test]
fn alignment_law_on_concrete_values() {
    let g = Granularity::Custom {
        name: "week".to_string(),
        origin: instant("2023-01-02"),
        interval: WEEK_SECONDS,
    };
    let aligned = g.align_date_to_origin(instant("2023-01-05 13:45:10")).unwrap();
    assert_eq!(aligned.to_string(), "2023-01-02T00:00:00.000");
    let again = g.align_date_to_origin(aligned.copy()).unwrap();
    assert_eq!(again.seconds, aligned.seconds);
    let later = g.align_date_to_origin(instant("2023-01-23")).unwrap();
    assert_eq!(later.to_string(), "2023-01-23T00:00:00.000");
    let predefined = Granularity::Predefined { name: "day".to_string() };
    let same = predefined.align_date_to_origin(instant("2023-01-05 13:45:10")).unwrap();
    assert_eq!(same.to_string(), "2023-01-05T13:45:10.000");
}

#[test]
fn alignment_before_first_instant_fails() {
    let g = Granularity::Custom {
        name: "decade".to_string(),
        origin: instant("0005-01-01"),
        interval: 3650 * 86400,
    };
    let r = g.align_date_to_origin(instant("0001-01-01"));
    assert!(matches!(r, Err(PlannerError::InvalidDateRange)));
}

#[test]
fn date_parsing_and_rendering() {
    assert_eq!(instant("0001-01-01").seconds, 0);
    assert_eq!(instant("0001-01-02").seconds, 86400);
    assert_eq!(instant("2024-02-29T23:59:59").to_string(), "2024-02-29T23:59:59.000");
    assert_eq!(instant("2023-12-31 00:00:01.250").to_string(), "2023-12-31T00:00:01.000");
    assert_eq!(instant("9999-12-31T23:59:59").to_string(), "9999-12-31T23:59:59.000");
    assert_eq!(instant("2000-03-01").seconds - instant("2000-02-28").seconds, 2 * 86400);
    assert_eq!(instant("1900-03-01").seconds - instant("1900-02-28").seconds, 86400);
    for bad in ["2023-02-29", "2023-13-01", "0000-01-01", "2023-1-01", "2023-01-01T24:00:00", "2023-01-01T", "2023-01-01T10:00:00.", ""] {
        assert!(matches!(QueryDateTime::from_date_str("UTC", bad), Err(PlannerError::ParseError)), "{}", bad);
    }
}

#[test]
fn alias_sanitizer_replaces_dots() {
    assert_eq!(tools().alias_name("a.b.c_d"), "a_b_c_d");
    assert_eq!(tools().alias_name(""), "");
}

#[test]
fn to_sql_truncates_predefined_granularity() {
    let mut compiler = week_compiler();
    let td = required(&mut compiler, Some("day"), None).unwrap();
    let mut context = VisitorContext::new();
    context.cube_aliases.push(("orders".to_string(), "o".to_string()));
    let sql = td.to_sql(&context, &PlanSqlTemplates::new()).unwrap();
    assert_eq!(sql, "date_trunc('day', o.created_at)");
}

#[test]
fn to_sql_bins_custom_granularity_from_origin() {
    let mut compiler = week_compiler();
    let td = required(&mut compiler, Some("monday_week"), None).unwrap();
    let sql = td.to_sql(&VisitorContext::new(), &PlanSqlTemplates::new()).unwrap();
    assert_eq!(
        sql,
        "date_bin(interval '604800 second', orders.created_at, timestamp '2023-01-02T00:00:00.000')"
    );
}

#[test]
fn to_sql_without_granularity_is_the_column() {
    let mut compiler = week_compiler();
    let td = required(&mut compiler, None, None).unwrap();
    let mut context = VisitorContext::new();
    context.cube_aliases.push(("users".to_string(), "u".to_string()));
    let sql = td.to_sql(&context, &PlanSqlTemplates::new()).unwrap();
    assert_eq!(sql, "orders.created_at");
    let plain = evaluate_with_context(&orders_created_at(), &tools(), &context, &PlanSqlTemplates::new()).unwrap();
    assert_eq!(plain, "orders.created_at");
}

#[test]
fn rendered_instant_parses_back() {
    for text in ["2023-01-01", "1999-12-31T23:59:59", "0001-01-01 00:00:00"] {
        let t = instant(text);
        let again = instant(&t.to_string());
        assert_eq!(again.seconds, t.seconds);
    }
}

#[test]
fn custom_series_with_bad_end_fails_to_parse() {
    let mut compiler = week_compiler();
    let td = required(&mut compiler, Some("monday_week"), range(&["2023-01-01", "2023-01-32"])).unwrap();
    assert!(matches!(td.get_range_for_time_series(), Err(PlannerError::ParseError)));
}

#[test]
fn custom_series_keeps_declared_end_text() {
    let mut compiler = week_compiler();
    let td = required(&mut compiler, Some("monday_week"), range(&["2023-01-10 08:00:00", "2023-02-01 12:30:00"])).unwrap();
    let series = td.get_range_for_time_series().unwrap().unwrap();
    assert_eq!(series, vec!["2023-01-09T00:00:00.000".to_string(), "2023-02-01 12:30:00".to_string()]);
}

#[test]
fn repeated_constructions_reuse_cached_granularity() {
    let mut compiler = week_compiler();
    let first = required(&mut compiler, Some("monday_week"), None).unwrap();
    assert_eq!(compiler.resolved_count(), 1);
    let second = required(&mut compiler, Some("monday_week"), range(&["2023-01-01", "2023-01-02"])).unwrap();
    assert_eq!(compiler.resolved_count(), 1);
    assert_eq!(first.resolved_granularity().unwrap(), second.resolved_granularity().unwrap());
    let changed = first.change_granularity(&mut compiler, Some("monday_week".to_string())).unwrap();
    let again = first.change_granularity(&mut compiler, Some("monday_week".to_string())).unwrap();
    assert_eq!(compiler.resolved_count(), 1);
    assert_eq!(changed.resolved_granularity().unwrap(), again.resolved_granularity().unwrap());
}

#[test]
fn declared_alias_suffix_wins() {
    let td_symbol = TimeDimensionSymbol::new(
        DimensionSymbol::new("orders".to_string(), "created_at".to_string()),
        Some("hour".to_string()),
        Some(Granularity::Predefined { name: "hour".to_string() }),
        None,
    )
    .with_alias_suffix("hourly".to_string());
    assert_eq!(td_symbol.alias_suffix(), "hourly");
    let td = BaseTimeDimension::try_new_from_td_symbol(tools(), td_symbol).unwrap();
    assert_eq!(td.alias_suffix, "hourly");
    assert_eq!(td.alias_name(), "orders_created_at_hourly");
    assert_eq!(td.unescaped_alias_name(), "orders_created_at_hour");
}

#[test]
fn time_dimension_upcasts_to_member() {
    let mut compiler = week_compiler();
    let td = required(&mut compiler, Some("day"), None).unwrap();
    match td.clone().as_base_member() {
        BaseMember::TimeDimension(m) => assert_eq!(m.alias_name(), td.alias_name()),
        BaseMember::Dimension(_) => panic!("expected a time dimension"),
    }
}
