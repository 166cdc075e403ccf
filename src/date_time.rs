use vstd::prelude::*;
use vstd::arithmetic::div_mod::lemma_fundamental_div_mod_converse;
use crate::error::PlannerError;

verus! {

pub open spec fn is_leap_year(y: int) -> bool {
    (y % 4 == 0 && y % 100 != 0) || y % 400 == 0
}

pub open spec fn year_length(y: int) -> int {
    if is_leap_year(y) { 366 } else { 365 }
}

pub open spec fn month_length(y: int, m: int) -> int {
    if m == 2 {
        if is_leap_year(y) { 29 } else { 28 }
    } else if m == 4 || m == 6 || m == 9 || m == 11 {
        30
    } else {
        31
    }
}

/// Days from 0001-01-01 to the first day of year `y`.
pub open spec fn days_before_year(y: int) -> int
    decreases y,
{
    if y <= 1 { 0 } else { days_before_year(y - 1) + year_length(y - 1) }
}

/// Days from the first of January of year `y` to the first day of month `m`.
pub open spec fn days_before_month(y: int, m: int) -> int
    decreases m,
{
    if m <= 1 { 0 } else { days_before_month(y, m - 1) + month_length(y, m - 1) }
}

pub open spec fn fields_valid(y: int, mo: int, d: int, h: int, mi: int, s: int) -> bool {
    &&& 1 <= y <= 9999
    &&& 1 <= mo <= 12
    &&& 1 <= d <= month_length(y, mo)
    &&& 0 <= h < 24
    &&& 0 <= mi < 60
    &&& 0 <= s < 60
}

/// Seconds from 0001-01-01T00:00:00 to the given wall-clock time.
pub open spec fn instant_of(y: int, mo: int, d: int, h: int, mi: int, s: int) -> int {
    (days_before_year(y) + days_before_month(y, mo) + d - 1) * 86400 + h * 3600 + mi * 60 + s
}

/// One past the last representable instant (10000-01-01T00:00:00).
pub open spec fn instant_limit() -> int {
    days_before_year(10000) * 86400
}

pub open spec fn is_digit(c: char) -> bool {
    '0' <= c && c <= '9'
}

pub open spec fn digits_at(s: Seq<char>, start: int, n: int) -> bool {
    forall|i: int| start <= i < start + n ==> is_digit(#[trigger] s[i])
}

/// The decimal value of the `n` characters of `s` from `start`.
pub open spec fn number_at(s: Seq<char>, start: int, n: nat) -> int
    decreases n,
{
    if n == 0 {
        0
    } else {
        number_at(s, start, (n - 1) as nat) * 10 + (s[start + n - 1] as int - '0' as int)
    }
}

pub open spec fn date_shape(s: Seq<char>) -> bool {
    &&& s.len() >= 10
    &&& digits_at(s, 0, 4)
    &&& s[4] == '-'
    &&& digits_at(s, 5, 2)
    &&& s[7] == '-'
    &&& digits_at(s, 8, 2)
}

pub open spec fn time_shape(s: Seq<char>) -> bool {
    &&& s.len() >= 19
    &&& (s[10] == 'T' || s[10] == ' ')
    &&& digits_at(s, 11, 2)
    &&& s[13] == ':'
    &&& digits_at(s, 14, 2)
    &&& s[16] == ':'
    &&& digits_at(s, 17, 2)
}

pub open spec fn fraction_shape(s: Seq<char>) -> bool {
    &&& s.len() >= 21
    &&& s[19] == '.'
    &&& digits_at(s, 20, s.len() - 20)
}

/// `YYYY-MM-DD`, optionally followed by `THH:MM:SS` (or a space in place of
/// `T`), optionally followed by a fraction of a second, which is dropped.
pub open spec fn well_shaped(s: Seq<char>) -> bool {
    date_shape(s) && (s.len() == 10 || (time_shape(s) && (s.len() == 19 || fraction_shape(s))))
}

/// The instant a date/time literal denotes, if it is one.
pub open spec fn parse_instant(s: Seq<char>) -> Option<int> {
    if !well_shaped(s) {
        None
    } else {
        let y = number_at(s, 0, 4);
        let mo = number_at(s, 5, 2);
        let d = number_at(s, 8, 2);
        let h = if s.len() == 10 { 0 } else { number_at(s, 11, 2) };
        let mi = if s.len() == 10 { 0 } else { number_at(s, 14, 2) };
        let sec = if s.len() == 10 { 0 } else { number_at(s, 17, 2) };
        if fields_valid(y, mo, d, h, mi, sec) {
            Some(instant_of(y, mo, d, h, mi, sec))
        } else {
            None
        }
    }
}

pub open spec fn digit_char(d: int) -> char {
    if d == 0 { '0' }
    else if d == 1 { '1' }
    else if d == 2 { '2' }
    else if d == 3 { '3' }
    else if d == 4 { '4' }
    else if d == 5 { '5' }
    else if d == 6 { '6' }
    else if d == 7 { '7' }
    else if d == 8 { '8' }
    else { '9' }
}

/// The last `n` decimal digits of `v`, zero-padded.
pub open spec fn digits_of(v: int, n: nat) -> Seq<char>
    decreases n,
{
    if n == 0 {
        seq![]
    } else {
        digits_of(v / 10, (n - 1) as nat).push(digit_char(v % 10))
    }
}

/// The canonical rendering `YYYY-MM-DDTHH:MM:SS.000`.
pub open spec fn render(y: int, mo: int, d: int, h: int, mi: int, s: int) -> Seq<char> {
    digits_of(y, 4) + seq!['-'] + digits_of(mo, 2) + seq!['-'] + digits_of(d, 2) + seq!['T']
        + digits_of(h, 2) + seq![':'] + digits_of(mi, 2) + seq![':'] + digits_of(s, 2)
        + seq!['.', '0', '0', '0']
}

/// `r` is the canonical rendering of instant `t`.
pub open spec fn renders(t: int, r: Seq<char>) -> bool {
    exists|y: int, mo: int, d: int, h: int, mi: int, s: int|
        #![trigger render(y, mo, d, h, mi, s)]
        fields_valid(y, mo, d, h, mi, s) && instant_of(y, mo, d, h, mi, s) == t && r == render(
            y,
            mo,
            d,
            h,
            mi,
            s,
        )
}

pub proof fn lemma_days_before_year_monotonic(a: int, b: int)
    requires
        1 <= a <= b,
    ensures
        days_before_year(a) <= days_before_year(b),
        days_before_year(b) <= 366 * (b - 1),
        days_before_year(a) + 365 * (b - a) <= days_before_year(b),
    decreases b - a,
{
    if a < b {
        lemma_days_before_year_monotonic(a, b - 1);
    } else {
        lemma_days_before_year_bound(b);
    }
}

proof fn lemma_days_before_year_bound(y: int)
    requires
        1 <= y,
    ensures
        0 <= days_before_year(y) <= 366 * (y - 1),
    decreases y,
{
    if y > 1 {
        lemma_days_before_year_bound(y - 1);
    }
}

/// The representable range fits comfortably in 64-bit signed arithmetic.
pub proof fn lemma_instant_limit_bound()
    ensures
        0 < instant_limit() <= 366 * 9999 * 86400,
{
    lemma_days_before_year_bound(10000);
    reveal_with_fuel(days_before_year, 2);
    lemma_days_before_year_monotonic(2, 10000);
}

proof fn lemma_months_fill_year(y: int)
    ensures
        days_before_month(y, 13) == year_length(y),
{
    reveal_with_fuel(days_before_month, 13);
}

proof fn lemma_days_before_month_monotonic(y: int, a: int, b: int)
    requires
        1 <= a <= b,
    ensures
        days_before_month(y, a) + (b - a) * 28 <= days_before_month(y, b),
    decreases b - a,
{
    if a < b {
        lemma_days_before_month_monotonic(y, a, b - 1);
    }
}

/// Every valid wall-clock time lies in the representable range.
pub proof fn lemma_instant_in_range(y: int, mo: int, d: int, h: int, mi: int, s: int)
    requires
        fields_valid(y, mo, d, h, mi, s),
    ensures
        0 <= instant_of(y, mo, d, h, mi, s) < instant_limit(),
{
    lemma_days_before_year_monotonic(1, y);
    lemma_days_before_year_monotonic(y + 1, 10000);
    lemma_months_fill_year(y);
    lemma_days_before_month_monotonic(y, mo + 1, 13);
    lemma_days_before_month_monotonic(y, 1, mo);
    assert(days_before_month(y, mo + 1) == days_before_month(y, mo) + month_length(y, mo));
    let days = days_before_year(y) + days_before_month(y, mo) + d - 1;
    assert(days + 1 <= days_before_year(y + 1));
    assert(h * 3600 + mi * 60 + s < 86400) by (nonlinear_arith)
        requires
            0 <= h < 24,
            0 <= mi < 60,
            0 <= s < 60,
    ;
    assert(days * 86400 + 86400 <= days_before_year(10000) * 86400) by (nonlinear_arith)
        requires
            days + 1 <= days_before_year(10000),
    ;
    assert(0 <= days * 86400) by (nonlinear_arith)
        requires
            0 <= days,
    ;
}


proof fn lemma_number_at_shift(s: Seq<char>, start: int, n: nat)
    requires
        0 <= start,
        start + n <= s.len(),
    ensures
        number_at(s, start, n) == number_at(s.subrange(start, start + n), 0, n),
    decreases n,
{
    if n > 0 {
        let sub = s.subrange(start, start + n);
        lemma_number_at_shift(s, start, (n - 1) as nat);
        lemma_number_at_shift(sub, 0, (n - 1) as nat);
        assert(sub.subrange(0, n - 1) =~= s.subrange(start, start + n - 1));
    }
}

proof fn lemma_digits_of(v: int, n: nat)
    requires
        0 <= v < pow10(n),
    ensures
        digits_of(v, n).len() == n,
        digits_at(digits_of(v, n), 0, n as int),
        number_at(digits_of(v, n), 0, n) == v,
    decreases n,
{
    if n == 0 {
    } else {
        let d = digits_of(v, n);
        let prev = digits_of(v / 10, (n - 1) as nat);
        lemma_digits_of(v / 10, (n - 1) as nat);
        assert(d == prev.push(digit_char(v % 10)));
        lemma_number_at_shift(d, 0, (n - 1) as nat);
        assert(d.subrange(0, n - 1) =~= prev);
        assert(digit_char(v % 10) as int - '0' as int == v % 10);
        assert forall|i: int| 0 <= i < n implies is_digit(#[trigger] d[i]) by {
            if i < n - 1 {
                assert(d[i] == prev[i]);
            }
        }
    }
}

proof fn lemma_field_parses(r: Seq<char>, start: int, v: int, n: nat)
    requires
        0 <= v < pow10(n),
        0 <= start,
        start + n <= r.len(),
        r.subrange(start, start + n) == digits_of(v, n),
    ensures
        digits_at(r, start, n as int),
        number_at(r, start, n) == v,
{
    lemma_digits_of(v, n);
    lemma_number_at_shift(r, start, n);
    assert forall|i: int| start <= i < start + n implies is_digit(#[trigger] r[i]) by {
        assert(r[i] == r.subrange(start, start + n)[i - start]);
    }
}

/// Rendering round-trips: the canonical rendering of an instant parses back
/// to that instant.
pub proof fn lemma_render_parses_back(t: int, r: Seq<char>)
    requires
        renders(t, r),
    ensures
        parse_instant(r) == Some(t),
{
    let (y, mo, d, h, mi, s) = choose|y: int, mo: int, d: int, h: int, mi: int, s: int|
        #![trigger render(y, mo, d, h, mi, s)]
        fields_valid(y, mo, d, h, mi, s) && instant_of(y, mo, d, h, mi, s) == t && r == render(
            y,
            mo,
            d,
            h,
            mi,
            s,
        );
    reveal_with_fuel(pow10, 5);
    lemma_digits_of(y, 4);
    lemma_digits_of(mo, 2);
    lemma_digits_of(d, 2);
    lemma_digits_of(h, 2);
    lemma_digits_of(mi, 2);
    lemma_digits_of(s, 2);
    assert(r.len() == 23);
    assert(r.subrange(0, 4) =~= digits_of(y, 4));
    assert(r.subrange(5, 7) =~= digits_of(mo, 2));
    assert(r.subrange(8, 10) =~= digits_of(d, 2));
    assert(r.subrange(11, 13) =~= digits_of(h, 2));
    assert(r.subrange(14, 16) =~= digits_of(mi, 2));
    assert(r.subrange(17, 19) =~= digits_of(s, 2));
    lemma_field_parses(r, 0, y, 4);
    lemma_field_parses(r, 5, mo, 2);
    lemma_field_parses(r, 8, d, 2);
    lemma_field_parses(r, 11, h, 2);
    lemma_field_parses(r, 14, mi, 2);
    lemma_field_parses(r, 17, s, 2);
    assert(r[4] == '-' && r[7] == '-' && r[10] == 'T' && r[13] == ':' && r[16] == ':');
    assert(r[19] == '.' && r[20] == '0' && r[21] == '0' && r[22] == '0');
    assert(digits_at(r, 20, r.len() - 20));
    assert(well_shaped(r));
}

/// The canonical rendering of instant `t`; `renders(t, r)` holds of no other
/// `r` (see `lemma_rendering_unique`).
pub open spec fn rendering(t: int) -> Seq<char> {
    choose|r: Seq<char>| renders(t, r)
}

/// Distinct valid wall-clock times are distinct instants.
pub proof fn lemma_instant_injective(
    y1: int, mo1: int, d1: int, h1: int, mi1: int, s1: int,
    y2: int, mo2: int, d2: int, h2: int, mi2: int, s2: int,
)
    requires
        fields_valid(y1, mo1, d1, h1, mi1, s1),
        fields_valid(y2, mo2, d2, h2, mi2, s2),
        instant_of(y1, mo1, d1, h1, mi1, s1) == instant_of(y2, mo2, d2, h2, mi2, s2),
    ensures
        y1 == y2 && mo1 == mo2 && d1 == d2 && h1 == h2 && mi1 == mi2 && s1 == s2,
{
    let days1 = days_before_year(y1) + days_before_month(y1, mo1) + d1 - 1;
    let days2 = days_before_year(y2) + days_before_month(y2, mo2) + d2 - 1;
    let sec1 = h1 * 3600 + mi1 * 60 + s1;
    let sec2 = h2 * 3600 + mi2 * 60 + s2;
    assert(0 <= sec1 < 86400 && 0 <= sec2 < 86400) by (nonlinear_arith)
        requires
            0 <= h1 < 24, 0 <= mi1 < 60, 0 <= s1 < 60,
            0 <= h2 < 24, 0 <= mi2 < 60, 0 <= s2 < 60,
            sec1 == h1 * 3600 + mi1 * 60 + s1,
            sec2 == h2 * 3600 + mi2 * 60 + s2,
    ;
    let t = instant_of(y1, mo1, d1, h1, mi1, s1);
    lemma_fundamental_div_mod_converse(t, 86400, days1, sec1);
    lemma_fundamental_div_mod_converse(t, 86400, days2, sec2);
    lemma_fundamental_div_mod_converse(sec1, 3600, h1, mi1 * 60 + s1);
    lemma_fundamental_div_mod_converse(sec1, 3600, h2, mi2 * 60 + s2);
    lemma_fundamental_div_mod_converse(mi1 * 60 + s1, 60, mi1, s1);
    lemma_fundamental_div_mod_converse(mi1 * 60 + s1, 60, mi2, s2);
    lemma_within_year(y1, mo1, d1);
    lemma_within_year(y2, mo2, d2);
    if y1 < y2 {
        lemma_days_before_year_monotonic(y1 + 1, y2);
    } else if y2 < y1 {
        lemma_days_before_year_monotonic(y2 + 1, y1);
    }
    if mo1 < mo2 {
        lemma_days_before_month_monotonic(y1, mo1 + 1, mo2);
    } else if mo2 < mo1 {
        lemma_days_before_month_monotonic(y1, mo2 + 1, mo1);
    }
}

proof fn lemma_within_year(y: int, mo: int, d: int)
    requires
        1 <= mo <= 12,
        1 <= d <= month_length(y, mo),
    ensures
        0 <= days_before_month(y, mo) + d - 1 < year_length(y),
{
    lemma_months_fill_year(y);
    lemma_days_before_month_monotonic(y, mo + 1, 13);
    lemma_days_before_month_monotonic(y, 1, mo);
}

/// An instant has one canonical rendering.
pub proof fn lemma_rendering_unique(t: int, a: Seq<char>, b: Seq<char>)
    requires
        renders(t, a),
        renders(t, b),
    ensures
        a == b,
        a == rendering(t),
{
    let (y1, mo1, d1, h1, mi1, s1) = choose|y: int, mo: int, d: int, h: int, mi: int, s: int|
        #![trigger render(y, mo, d, h, mi, s)]
        fields_valid(y, mo, d, h, mi, s) && instant_of(y, mo, d, h, mi, s) == t && a == render(y, mo, d, h, mi, s);
    let (y2, mo2, d2, h2, mi2, s2) = choose|y: int, mo: int, d: int, h: int, mi: int, s: int|
        #![trigger render(y, mo, d, h, mi, s)]
        fields_valid(y, mo, d, h, mi, s) && instant_of(y, mo, d, h, mi, s) == t && b == render(y, mo, d, h, mi, s);
    lemma_instant_injective(y1, mo1, d1, h1, mi1, s1, y2, mo2, d2, h2, mi2, s2);
    let c = rendering(t);
    let (y3, mo3, d3, h3, mi3, s3) = choose|y: int, mo: int, d: int, h: int, mi: int, s: int|
        #![trigger render(y, mo, d, h, mi, s)]
        fields_valid(y, mo, d, h, mi, s) && instant_of(y, mo, d, h, mi, s) == t && c == render(y, mo, d, h, mi, s);
    lemma_instant_injective(y1, mo1, d1, h1, mi1, s1, y3, mo3, d3, h3, mi3, s3);
}

/// A wall-clock instant in a named time zone, counted in seconds from
/// 0001-01-01T00:00:00.
pub struct QueryDateTime {
    pub timezone: String,
    pub seconds: i64,
}

impl QueryDateTime {
    pub open spec fn wf(&self) -> bool {
        0 <= self.seconds < instant_limit()
    }

    /// Parses `text` in `timezone`.
    pub fn from_date_str(timezone: &str, text: &str) -> (r: Result<QueryDateTime, PlannerError>)
        ensures
            match parse_instant(text@) {
                Some(t) => r is Ok && r->Ok_0.seconds == t && r->Ok_0.timezone@ == timezone@
                    && r->Ok_0.wf(),
                None => r == Err::<QueryDateTime, PlannerError>(PlannerError::ParseError),
            },
    {
        proof {
            lemma_instant_limit_bound();
        }
        match parse_seconds(text) {
            Some(t) => Ok(QueryDateTime { timezone: String::from_str(timezone), seconds: t }),
            None => Err(PlannerError::ParseError),
        }
    }

    /// The same instant in the same time zone.
    pub fn copy(&self) -> (r: QueryDateTime)
        ensures
            r == *self,
    {
        QueryDateTime { timezone: self.timezone.clone(), seconds: self.seconds }
    }

    /// The canonical rendering `YYYY-MM-DDTHH:MM:SS.000`.
    pub fn to_string(&self) -> (r: String)
        requires
            self.wf(),
        ensures
            r@ == rendering(self.seconds as int),
            renders(self.seconds as int, r@),
            parse_instant(r@) == Some(self.seconds as int),
    {
        let r = format_seconds(self.seconds);
        proof {
            lemma_render_parses_back(self.seconds as int, r@);
            lemma_rendering_unique(self.seconds as int, r@, r@);
        }
        r
    }
}

fn year_length_exec(y: u64) -> (r: u64)
    ensures
        r == year_length(y as int),
{
    if (y % 4 == 0 && y % 100 != 0) || y % 400 == 0 {
        366
    } else {
        365
    }
}

fn month_length_exec(y: u64, m: u64) -> (r: u64)
    ensures
        r == month_length(y as int, m as int),
{
    if m == 2 {
        if (y % 4 == 0 && y % 100 != 0) || y % 400 == 0 {
            29
        } else {
            28
        }
    } else if m == 4 || m == 6 || m == 9 || m == 11 {
        30
    } else {
        31
    }
}

fn days_before_year_exec(y: u64) -> (r: u64)
    requires
        1 <= y <= 10000,
    ensures
        r == days_before_year(y as int),
{
    let mut acc: u64 = 0;
    let mut i: u64 = 1;
    while i < y
        invariant
            1 <= i <= y <= 10000,
            acc == days_before_year(i as int),
            acc <= 366 * (i - 1),
        decreases y - i,
    {
        acc = acc + year_length_exec(i);
        i = i + 1;
    }
    acc
}

fn days_before_month_exec(y: u64, m: u64) -> (r: u64)
    requires
        1 <= m <= 13,
    ensures
        r == days_before_month(y as int, m as int),
{
    let mut acc: u64 = 0;
    let mut i: u64 = 1;
    while i < m
        invariant
            1 <= i <= m <= 13,
            acc == days_before_month(y as int, i as int),
            acc <= 31 * (i - 1),
        decreases m - i,
    {
        acc = acc + month_length_exec(y, i);
        i = i + 1;
    }
    acc
}

fn char_is_digit(c: char) -> (r: bool)
    ensures
        r == is_digit(c),
{
    '0' <= c && c <= '9'
}

fn digits_present(text: &str, len: usize, start: usize, n: usize) -> (r: bool)
    requires
        len == text@.len(),
        start + n <= len,
    ensures
        r == digits_at(text@, start as int, n as int),
{
    let mut i: usize = start;
    while i < start + n
        invariant
            start <= i <= start + n <= len == text@.len(),
            digits_at(text@, start as int, i - start),
        decreases start + n - i,
    {
        if !char_is_digit(text.get_char(i)) {
            assert(!is_digit(text@[i as int]));
            return false;
        }
        i = i + 1;
    }
    true
}

pub open spec fn pow10(n: nat) -> int
    decreases n,
{
    if n == 0 { 1 } else { 10 * pow10((n - 1) as nat) }
}

fn number_value(text: &str, len: usize, start: usize, n: usize) -> (r: u64)
    requires
        len == text@.len(),
        start + n <= len,
        n <= 4,
        digits_at(text@, start as int, n as int),
    ensures
        r == number_at(text@, start as int, n as nat),
        r < pow10(n as nat),
{
    proof {
        reveal_with_fuel(pow10, 5);
    }
    let mut acc: u64 = 0;
    let mut k: usize = 0;
    while k < n
        invariant
            k <= n <= 4,
            start + n <= len == text@.len(),
            digits_at(text@, start as int, n as int),
            acc == number_at(text@, start as int, k as nat),
            acc < pow10(k as nat),
            pow10(0) == 1,
            pow10(1) == 10,
            pow10(2) == 100,
            pow10(3) == 1000,
            pow10(4) == 10000,
        decreases n - k,
    {
        let c = text.get_char(start + k);
        assert(is_digit(text@[start + k]));
        let d: u64 = (c as u32 - '0' as u32) as u64;
        assert(pow10((k + 1) as nat) == 10 * pow10(k as nat));
        acc = acc * 10 + d;
        k = k + 1;
    }
    acc
}

fn parse_seconds(text: &str) -> (r: Option<i64>)
    ensures
        match parse_instant(text@) {
            Some(t) => r == Some(t as i64) && 0 <= t < instant_limit(),
            None => r is None,
        },
{
    let s = Ghost(text@);
    proof {
        reveal_with_fuel(pow10, 5);
    }
    let len = text.unicode_len();
    if len < 10 {
        return None;
    }
    if !(digits_present(text, len, 0, 4) && text.get_char(4) == '-' && digits_present(
        text,
        len,
        5,
        2,
    ) && text.get_char(7) == '-' && digits_present(text, len, 8, 2)) {
        return None;
    }
    let y = number_value(text, len, 0, 4);
    let mo = number_value(text, len, 5, 2);
    let d = number_value(text, len, 8, 2);
    let mut h: u64 = 0;
    let mut mi: u64 = 0;
    let mut sec: u64 = 0;
    if len != 10 {
        if len < 19 {
            return None;
        }
        let sep = text.get_char(10);
        if !((sep == 'T' || sep == ' ') && digits_present(text, len, 11, 2) && text.get_char(13)
            == ':' && digits_present(text, len, 14, 2) && text.get_char(16) == ':'
            && digits_present(text, len, 17, 2)) {
            return None;
        }
        if len != 19 {
            if len < 21 {
                return None;
            }
            if !(text.get_char(19) == '.' && digits_present(text, len, 20, len - 20)) {
                return None;
            }
        }
        h = number_value(text, len, 11, 2);
        mi = number_value(text, len, 14, 2);
        sec = number_value(text, len, 17, 2);
    }
    assert(well_shaped(s@));
    if !(1 <= y && 1 <= mo && mo <= 12 && 1 <= d && d <= month_length_exec(y, mo) && h < 24 && mi
        < 60 && sec < 60) {
        return None;
    }
    proof {
        lemma_instant_in_range(y as int, mo as int, d as int, h as int, mi as int, sec as int);
        lemma_days_before_year_monotonic(1, y as int);
        lemma_days_before_month_monotonic(y as int, 1, mo as int);
        lemma_days_before_month_monotonic(y as int, mo as int, 13);
        lemma_months_fill_year(y as int);
    }
    let days = days_before_year_exec(y) + days_before_month_exec(y, mo) + d - 1;
    let t = days * 86400 + h * 3600 + mi * 60 + sec;
    Some(t as i64)
}

pub(crate) fn digit_text(d: u64) -> (r: &'static str)
    requires
        d < 10,
    ensures
        r@ == seq![digit_char(d as int)],
{
    proof {
        reveal_strlit("0");
        reveal_strlit("1");
        reveal_strlit("2");
        reveal_strlit("3");
        reveal_strlit("4");
        reveal_strlit("5");
        reveal_strlit("6");
        reveal_strlit("7");
        reveal_strlit("8");
        reveal_strlit("9");
    }
    if d == 0 {
        "0"
    } else if d == 1 {
        "1"
    } else if d == 2 {
        "2"
    } else if d == 3 {
        "3"
    } else if d == 4 {
        "4"
    } else if d == 5 {
        "5"
    } else if d == 6 {
        "6"
    } else if d == 7 {
        "7"
    } else if d == 8 {
        "8"
    } else {
        "9"
    }
}

fn append_digits(out: &mut String, v: u64, n: usize)
    ensures
        final(out)@ == old(out)@ + digits_of(v as int, n as nat),
    decreases n,
{
    if n == 0 {
        assert(old(out)@ + digits_of(v as int, 0) =~= old(out)@);
    } else {
        append_digits(out, v / 10, n - 1);
        out.append(digit_text(v % 10));
        assert(final(out)@ =~= old(out)@ + digits_of(v as int, n as nat));
    }
}

fn append_text(out: &mut String, piece: &str)
    ensures
        final(out)@ == old(out)@ + piece@,
{
    out.append(piece);
}

fn format_seconds(t: i64) -> (r: String)
    requires
        0 <= t < instant_limit(),
    ensures
        renders(t as int, r@),
{
    let days: u64 = (t / 86400) as u64;
    let rem: u64 = (t % 86400) as u64;
    let h = rem / 3600;
    let mi = (rem % 3600) / 60;
    let sec = rem % 60;
    assert(t as int == days * 86400 + rem);
    assert(days < days_before_year(10000)) by (nonlinear_arith)
        requires
            t as int == days * 86400 + rem,
            0 <= rem,
            t < days_before_year(10000) * 86400,
    ;
    let mut y: u64 = 1;
    let mut dy: u64 = days;
    while dy >= year_length_exec(y)
        invariant
            1 <= y <= 9999,
            days_before_year(y as int) + dy == days,
            days < days_before_year(10000),
        decreases dy,
    {
        dy = dy - year_length_exec(y);
        y = y + 1;
        proof {
            if y >= 10000 {
                lemma_days_before_year_monotonic(10000, y as int);
            }
        }
    }
    let mut m: u64 = 1;
    let mut dm: u64 = dy;
    proof {
        lemma_months_fill_year(y as int);
    }
    while dm >= month_length_exec(y, m)
        invariant
            1 <= y <= 9999,
            1 <= m <= 12,
            days_before_month(y as int, m as int) + dm == dy,
            dy < year_length(y as int),
            days_before_month(y as int, 13) == year_length(y as int),
        decreases dm,
    {
        dm = dm - month_length_exec(y, m);
        m = m + 1;
        proof {
            if m >= 13 {
                lemma_days_before_month_monotonic(y as int, 13, m as int);
            }
        }
    }
    let d = dm + 1;
    let mut out = String::new();
    append_digits(&mut out, y, 4);
    append_text(&mut out, "-");
    append_digits(&mut out, m, 2);
    append_text(&mut out, "-");
    append_digits(&mut out, d, 2);
    append_text(&mut out, "T");
    append_digits(&mut out, h, 2);
    append_text(&mut out, ":");
    append_digits(&mut out, mi, 2);
    append_text(&mut out, ":");
    append_digits(&mut out, sec, 2);
    append_text(&mut out, ".000");
    proof {
        reveal_strlit("-");
        reveal_strlit("T");
        reveal_strlit(":");
        reveal_strlit(".000");
        assert(out@ =~= render(y as int, m as int, d as int, h as int, mi as int, sec as int));
        assert(rem == h * 3600 + mi * 60 + sec);
        assert(fields_valid(y as int, m as int, d as int, h as int, mi as int, sec as int));
        assert(instant_of(y as int, m as int, d as int, h as int, mi as int, sec as int) == t);
    }
    out
}

} // verus!
