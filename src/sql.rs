use vstd::prelude::*;
use crate::date_time::{digit_char, digit_text, rendering};
use crate::error::PlannerError;
use crate::granularity::Granularity;
use crate::symbols::{DimensionSymbol, MemberSymbol, QueryTools, TimeDimensionSymbol};
use crate::text::{joined, text_eq};

verus! {

/// The decimal digits of `v`, without leading zeros.
pub open spec fn decimal(v: nat) -> Seq<char>
    decreases v,
{
    if v < 10 {
        seq![digit_char(v as int)]
    } else {
        decimal(v / 10).push(digit_char((v % 10) as int))
    }
}

fn append_decimal(out: &mut String, v: u64)
    ensures
        final(out)@ == old(out)@ + decimal(v as nat),
    decreases v,
{
    if v >= 10 {
        append_decimal(out, v / 10);
    }
    out.append(digit_text(v % 10));
    assert(final(out)@ =~= old(out)@ + decimal(v as nat));
}

/// Per-evaluation context: the table alias under which each cube is visible.
pub struct VisitorContext {
    pub cube_aliases: Vec<(String, String)>,
}

/// The alias given to `cube` by the first matching entry, else the cube's name.
pub open spec fn table_for(aliases: Seq<(String, String)>, cube: Seq<char>) -> Seq<char>
    decreases aliases.len(),
{
    if aliases.len() == 0 {
        cube
    } else if aliases[0].0@ == cube {
        aliases[0].1@
    } else {
        table_for(aliases.drop_first(), cube)
    }
}

impl VisitorContext {
    pub fn new() -> (r: VisitorContext)
        ensures
            r.cube_aliases@.len() == 0,
    {
        VisitorContext { cube_aliases: Vec::new() }
    }

    /// The table alias under which `cube` is visible.
    pub fn table_alias(&self, cube: &str) -> (r: String)
        ensures
            r@ == table_for(self.cube_aliases@, cube@),
    {
        let mut i: usize = 0;
        assert(self.cube_aliases@.subrange(0, self.cube_aliases@.len() as int) =~= self.cube_aliases@);
        while i < self.cube_aliases.len()
            invariant
                i <= self.cube_aliases@.len(),
                table_for(self.cube_aliases@, cube@) == table_for(
                    self.cube_aliases@.subrange(i as int, self.cube_aliases@.len() as int),
                    cube@,
                ),
            decreases self.cube_aliases@.len() - i,
        {
            let ghost rest = self.cube_aliases@.subrange(i as int, self.cube_aliases@.len() as int);
            assert(rest.drop_first() =~= self.cube_aliases@.subrange(
                i + 1,
                self.cube_aliases@.len() as int,
            ));
            if text_eq(self.cube_aliases[i].0.as_str(), cube) {
                return self.cube_aliases[i].1.clone();
            }
            i = i + 1;
        }
        String::from_str(cube)
    }
}

/// `<table>.<column>`.
pub open spec fn column_sql(table: Seq<char>, column: Seq<char>) -> Seq<char> {
    table + seq!['.'] + column
}

/// `date_trunc('<unit>', <expr>)`.
pub open spec fn truncation_sql(unit: Seq<char>, expr: Seq<char>) -> Seq<char> {
    seq!['d', 'a', 't', 'e', '_', 't', 'r', 'u', 'n', 'c', '(', '\''] + unit + seq!['\'', ',', ' ']
        + expr + seq![')']
}

/// `date_bin(interval '<seconds> second', <expr>, timestamp '<origin>')`.
pub open spec fn bin_sql(seconds: Seq<char>, expr: Seq<char>, origin: Seq<char>) -> Seq<char> {
    seq!['d', 'a', 't', 'e', '_', 'b', 'i', 'n', '(', 'i', 'n', 't', 'e', 'r', 'v', 'a', 'l', ' ', '\'']
        + seconds + seq![' ', 's', 'e', 'c', 'o', 'n', 'd', '\'', ',', ' '] + expr + seq![
        ',',
        ' ',
        't',
        'i',
        'm',
        'e',
        's',
        't',
        'a',
        'm',
        'p',
        ' ',
        '\'',
    ] + origin + seq!['\'', ')']
}

/// The SQL syntax used for columns and time bucketing.
pub struct PlanSqlTemplates {}

impl PlanSqlTemplates {
    pub fn new() -> (r: PlanSqlTemplates) {
        PlanSqlTemplates {  }
    }

    pub fn column_reference(&self, table: &str, column: &str) -> (r: String)
        ensures
            r@ == column_sql(table@, column@),
    {
        proof {
            reveal_strlit(".");
        }
        let head = joined(table, ".");
        joined(head.as_str(), column)
    }

    pub fn time_grouped_column(&self, unit: &str, expr: &str) -> (r: String)
        ensures
            r@ == truncation_sql(unit@, expr@),
    {
        proof {
            reveal_strlit("date_trunc('");
            reveal_strlit("', ");
            reveal_strlit(")");
        }
        let mut out = String::from_str("date_trunc('");
        out.append(unit);
        out.append("', ");
        out.append(expr);
        out.append(")");
        assert(out@ =~= truncation_sql(unit@, expr@));
        out
    }

    pub fn date_bin(&self, interval_seconds: u64, expr: &str, origin: &str) -> (r: String)
        ensures
            r@ == bin_sql(decimal(interval_seconds as nat), expr@, origin@),
    {
        proof {
            reveal_strlit("date_bin(interval '");
            reveal_strlit(" second', ");
            reveal_strlit(", timestamp '");
            reveal_strlit("')");
        }
        let mut out = String::from_str("date_bin(interval '");
        append_decimal(&mut out, interval_seconds);
        out.append(" second', ");
        out.append(expr);
        out.append(", timestamp '");
        out.append(origin);
        out.append("')");
        assert(out@ =~= bin_sql(decimal(interval_seconds as nat), expr@, origin@));
        out
    }
}

/// The SQL of a plain dimension in `context`.
pub open spec fn dimension_sql(d: DimensionSymbol, aliases: Seq<(String, String)>) -> Seq<char> {
    column_sql(table_for(aliases, d.cube_name@), d.name@)
}

/// `sql` is what a time dimension `t` renders to, given its base's SQL.
pub open spec fn time_dimension_sql(t: TimeDimensionSymbol, base: Seq<char>, sql: Seq<char>) -> bool {
    match t.granularity_obj {
        None => sql == base,
        Some(Granularity::Predefined { name }) => sql == truncation_sql(name@, base),
        Some(Granularity::Custom { origin, interval, .. }) => sql == bin_sql(
            decimal(interval as nat),
            base,
            rendering(origin.seconds as int),
        ),
    }
}

pub open spec fn symbol_wf(symbol: MemberSymbol) -> bool {
    match symbol {
        MemberSymbol::Dimension(_) => true,
        MemberSymbol::TimeDimension(t) => t.wf(),
    }
}

fn render_dimension(d: &DimensionSymbol, context: &VisitorContext, templates: &PlanSqlTemplates) -> (r: String)
    ensures
        r@ == dimension_sql(*d, context.cube_aliases@),
{
    let table = context.table_alias(d.cube_name.as_str());
    templates.column_reference(table.as_str(), d.name.as_str())
}

/// Turns a member symbol into SQL: a dimension becomes a column reference, a
/// time dimension its base's column bucketed by its granularity.
pub fn evaluate_with_context(
    symbol: &MemberSymbol,
    query_tools: &QueryTools,
    context: &VisitorContext,
    templates: &PlanSqlTemplates,
) -> (r: Result<String, PlannerError>)
    requires
        symbol_wf(*symbol),
    ensures
        r is Ok,
        match *symbol {
            MemberSymbol::Dimension(d) => r->Ok_0@ == dimension_sql(d, context.cube_aliases@),
            MemberSymbol::TimeDimension(t) => time_dimension_sql(
                t,
                dimension_sql(t.base_symbol, context.cube_aliases@),
                r->Ok_0@,
            ),
        },
{
    match symbol {
        MemberSymbol::Dimension(d) => Ok(render_dimension(d, context, templates)),
        MemberSymbol::TimeDimension(t) => {
            let base = render_dimension(&t.base_symbol, context, templates);
            match &t.granularity_obj {
                None => Ok(base),
                Some(Granularity::Predefined { name }) => Ok(
                    templates.time_grouped_column(name.as_str(), base.as_str()),
                ),
                Some(Granularity::Custom { origin, interval, .. }) => {
                    let o = origin.to_string();
                    let sql = templates.date_bin(*interval as u64, base.as_str(), o.as_str());
                    Ok(sql)
                },
            }
        },
    }
}

} // verus!
