use vstd::prelude::*;

verus! {

/// Character-wise equality of two strings.
pub fn text_eq(a: &str, b: &str) -> (r: bool)
    ensures
        r == (a@ == b@),
{
    let n = a.unicode_len();
    if n != b.unicode_len() {
        return false;
    }
    let mut i: usize = 0;
    while i < n
        invariant
            i <= n == a@.len() == b@.len(),
            a@.subrange(0, i as int) == b@.subrange(0, i as int),
        decreases n - i,
    {
        if a.get_char(i) != b.get_char(i) {
            assert(a@[i as int] != b@[i as int]);
            return false;
        }
        assert(a@.subrange(0, i + 1) =~= a@.subrange(0, i as int).push(a@[i as int]));
        assert(b@.subrange(0, i + 1) =~= b@.subrange(0, i as int).push(b@[i as int]));
        i = i + 1;
    }
    assert(a@ =~= a@.subrange(0, n as int));
    assert(b@ =~= b@.subrange(0, n as int));
    true
}

/// A copy of `s` followed by `t`.
pub fn joined(s: &str, t: &str) -> (r: String)
    ensures
        r@ == s@ + t@,
{
    let mut out = String::from_str(s);
    out.append(t);
    out
}

/// The alias form of a name: every `.` becomes `_`.
pub open spec fn sanitize(s: Seq<char>) -> Seq<char> {
    s.map_values(|c: char| if c == '.' { '_' } else { c })
}

/// Rewrites a name into a column alias: every `.` becomes `_`.
pub fn sanitized(s: &str) -> (r: String)
    ensures
        r@ == sanitize(s@),
{
    let n = s.unicode_len();
    let mut out = String::new();
    let mut start: usize = 0;
    let mut i: usize = 0;
    while i < n
        invariant
            start <= i <= n == s@.len(),
            out@ + s@.subrange(start as int, i as int) == sanitize(s@.subrange(0, i as int)),
        decreases n - i,
    {
        let c = s.get_char(i);
        let ghost mapped = if c == '.' { '_' } else { c };
        assert(s@.subrange(0, i + 1) =~= s@.subrange(0, i as int).push(c));
        assert(sanitize(s@.subrange(0, i + 1)) =~= sanitize(s@.subrange(0, i as int)).push(mapped));
        assert(s@.subrange(start as int, i + 1) =~= s@.subrange(start as int, i as int).push(c));
        if c == '.' {
            let ghost before = out@;
            let piece = s.substring_char(start, i);
            out.append(piece);
            let sep = "_";
            proof {
                reveal_strlit("_");
            }
            assert(sep@ =~= seq!['_']);
            out.append(sep);
            assert(out@ =~= before + s@.subrange(start as int, i as int) + seq!['_']);
            start = i + 1;
            assert(s@.subrange(start as int, i + 1) =~= Seq::<char>::empty());
            assert(out@ + s@.subrange(start as int, i + 1) =~= sanitize(s@.subrange(0, i + 1)));
        } else {
            assert(out@ + s@.subrange(start as int, i + 1) =~= sanitize(s@.subrange(0, i + 1)));
        }
        i = i + 1;
    }
    let rest = s.substring_char(start, n);
    out.append(rest);
    assert(s@.subrange(0, n as int) =~= s@);
    out
}

} // verus!
