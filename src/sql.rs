//! Classification of statement text for transaction bookkeeping.
//!
//! A statement is a data-modifying statement (DML) when its text, with
//! surrounding whitespace removed and upper-cased by `str::to_uppercase`,
//! starts with `INSERT`, `UPDATE` or `DELETE`. This is a prefix heuristic,
//! not a parse.
use vstd::prelude::*;

verus! {

/// Whether `c` has the Unicode `White_Space` property.
pub open spec fn is_space(c: char) -> bool {
    let v = c as u32;
    (9 <= v && v <= 13) || v == 32 || v == 0x85 || v == 0xa0 || v == 0x1680 || (0x2000 <= v
        && v <= 0x200a) || v == 0x2028 || v == 0x2029 || v == 0x202f || v == 0x205f || v
        == 0x3000
}

/// Whether every character of `s` is whitespace.
pub open spec fn all_space(s: Seq<char>) -> bool {
    forall|i: int| 0 <= i < s.len() ==> is_space(#[trigger] s[i])
}

/// `s` without its leading whitespace.
pub open spec fn trim_start(s: Seq<char>) -> Seq<char>
    decreases s.len(),
{
    if s.len() > 0 && is_space(s[0]) {
        trim_start(s.drop_first())
    } else {
        s
    }
}

/// `s` without its trailing whitespace.
pub open spec fn trim_end(s: Seq<char>) -> Seq<char>
    decreases s.len(),
{
    if s.len() > 0 && is_space(s.last()) {
        trim_end(s.drop_last())
    } else {
        s
    }
}

/// `s` without leading and trailing whitespace.
pub open spec fn trim(s: Seq<char>) -> Seq<char> {
    trim_end(trim_start(s))
}

/// Whether `s` starts with `p`.
pub open spec fn has_prefix(s: Seq<char>, p: Seq<char>) -> bool {
    p.len() <= s.len() && s.subrange(0, p.len() as int) == p
}

pub open spec fn word_insert() -> Seq<char> {
    seq!['I', 'N', 'S', 'E', 'R', 'T']
}

pub open spec fn word_update() -> Seq<char> {
    seq!['U', 'P', 'D', 'A', 'T', 'E']
}

pub open spec fn word_delete() -> Seq<char> {
    seq!['D', 'E', 'L', 'E', 'T', 'E']
}

/// Whether an upper-cased text starts with `INSERT`, `UPDATE` or `DELETE`.
pub open spec fn dml_prefix(u: Seq<char>) -> bool {
    has_prefix(u, word_insert()) || has_prefix(u, word_update()) || has_prefix(u, word_delete())
}

/// What `str::to_uppercase` returns for a text.
pub uninterp spec fn upper_of(s: Seq<char>) -> Seq<char>;

/// The classification rule: the trimmed text, upper-cased, starts with
/// `INSERT`, `UPDATE` or `DELETE`.
pub open spec fn is_dml_text(s: Seq<char>) -> bool {
    dml_prefix(upper_of(trim(s)))
}

/// Leading whitespace is dropped by leading trimming.
proof fn lemma_trim_start_space_prefix(a: Seq<char>, x: Seq<char>)
    requires
        all_space(a),
    ensures
        trim_start(a + x) == trim_start(x),
    decreases a.len(),
{
    if a.len() > 0 {
        assert((a + x)[0] == a[0]);
        assert((a + x).drop_first() =~= a.drop_first() + x);
        lemma_trim_start_space_prefix(a.drop_first(), x);
    } else {
        assert(a + x =~= x);
    }
}

/// Leading trimming of `s + b` when `b` is whitespace.
proof fn lemma_trim_start_append(s: Seq<char>, b: Seq<char>)
    requires
        all_space(b),
    ensures
        all_space(s) ==> trim_start(s + b) == trim_start(b),
        !all_space(s) ==> trim_start(s + b) == trim_start(s) + b,
    decreases s.len(),
{
    if s.len() == 0 {
        assert(s + b =~= b);
    } else if is_space(s[0]) {
        assert((s + b)[0] == s[0]);
        assert((s + b).drop_first() =~= s.drop_first() + b);
        lemma_trim_start_append(s.drop_first(), b);
        if !all_space(s) {
            let i = choose|i: int| 0 <= i < s.len() && !is_space(s[i]);
            assert(s.drop_first()[i - 1] == s[i]);
        } else {
            assert forall|i: int| 0 <= i < s.drop_first().len() implies is_space(
                #[trigger] s.drop_first()[i],
            ) by {
                assert(s.drop_first()[i] == s[i + 1]);
            }
        }
    } else {
        assert((s + b)[0] == s[0]);
    }
}

/// Leading trimming of an all-whitespace text is empty.
proof fn lemma_trim_start_all_space(s: Seq<char>)
    requires
        all_space(s),
    ensures
        trim_start(s).len() == 0,
    decreases s.len(),
{
    if s.len() > 0 {
        assert forall|i: int| 0 <= i < s.drop_first().len() implies is_space(
            #[trigger] s.drop_first()[i],
        ) by {
            assert(s.drop_first()[i] == s[i + 1]);
        }
        lemma_trim_start_all_space(s.drop_first());
    }
}

/// Trailing whitespace is dropped by trailing trimming.
proof fn lemma_trim_end_space_suffix(u: Seq<char>, b: Seq<char>)
    requires
        all_space(b),
    ensures
        trim_end(u + b) == trim_end(u),
    decreases b.len(),
{
    if b.len() == 0 {
        assert(u + b =~= u);
    } else {
        assert((u + b).last() == b.last());
        assert((u + b).drop_last() =~= u + b.drop_last());
        assert forall|i: int| 0 <= i < b.drop_last().len() implies is_space(
            #[trigger] b.drop_last()[i],
        ) by {
            assert(b.drop_last()[i] == b[i]);
        }
        lemma_trim_end_space_suffix(u, b.drop_last());
    }
}

/// Trimming removes whitespace added before and after a text.
pub proof fn lemma_trim_surrounding_space(a: Seq<char>, s: Seq<char>, b: Seq<char>)
    requires
        all_space(a),
        all_space(b),
    ensures
        trim(a + s + b) == trim(s),
{
    assert(a + s + b =~= a + (s + b));
    lemma_trim_start_space_prefix(a, s + b);
    lemma_trim_start_append(s, b);
    if all_space(s) {
        lemma_trim_start_all_space(s);
        lemma_trim_start_all_space(b);
        assert(trim_start(s) =~= trim_start(b));
    } else {
        lemma_trim_end_space_suffix(trim_start(s), b);
    }
}

/// Classification ignores whitespace added before and after the statement.
pub proof fn lemma_is_dml_text_ignores_surrounding_space(a: Seq<char>, s: Seq<char>, b: Seq<char>)
    requires
        all_space(a),
        all_space(b),
    ensures
        is_dml_text(a + s + b) == is_dml_text(s),
{
    lemma_trim_surrounding_space(a, s, b);
}

/// Classification ignores letter case: texts whose trimmed forms upper-case
/// alike are classified alike.
pub proof fn lemma_is_dml_text_ignores_case(s: Seq<char>, t: Seq<char>)
    requires
        upper_of(trim(s)) == upper_of(trim(t)),
    ensures
        is_dml_text(s) == is_dml_text(t),
{
}

/// Whether `c` is whitespace, as `char::is_whitespace` decides it.
pub fn is_space_char(c: char) -> (r: bool)
    ensures
        r == is_space(c),
{
    let v = c as u32;
    (9 <= v && v <= 13) || v == 32 || v == 0x85 || v == 0xa0 || v == 0x1680 || (0x2000 <= v
        && v <= 0x200a) || v == 0x2028 || v == 0x2029 || v == 0x202f || v == 0x205f || v
        == 0x3000
}

/// Whether `s` starts with `p`.
pub fn starts_with(s: &str, p: &str) -> (r: bool)
    ensures
        r == has_prefix(s@, p@),
{
    let n = s.unicode_len();
    let m = p.unicode_len();
    if m > n {
        return false;
    }
    let mut i: usize = 0;
    while i < m
        invariant
            n == s@.len(),
            m == p@.len(),
            m <= n,
            i <= m,
            forall|j: int| 0 <= j < i ==> #[trigger] s@[j] == p@[j],
        decreases m - i,
    {
        if s.get_char(i) != p.get_char(i) {
            assert(s@.subrange(0, m as int)[i as int] != p@[i as int]);
            return false;
        }
        i += 1;
    }
    assert(s@.subrange(0, m as int) =~= p@);
    true
}

/// `s` without leading and trailing whitespace.
pub fn trimmed(s: &str) -> (r: &str)
    ensures
        r@ == trim(s@),
{
    let n = s.unicode_len();
    let mut i: usize = 0;
    assert(s@.subrange(0, n as int) =~= s@);
    while i < n && is_space_char(s.get_char(i))
        invariant
            n == s@.len(),
            i <= n,
            trim_start(s@) == trim_start(s@.subrange(i as int, n as int)),
        decreases n - i,
    {
        let ghost rest = s@.subrange(i as int, n as int);
        assert(rest.drop_first() =~= s@.subrange(i + 1, n as int));
        i += 1;
    }
    let ghost rest = s@.subrange(i as int, n as int);
    assert(trim_start(rest) == rest);
    let mut j: usize = n;
    while j > i && is_space_char(s.get_char(j - 1))
        invariant
            n == s@.len(),
            i <= j <= n,
            trim(s@) == trim_end(s@.subrange(i as int, j as int)),
        decreases j,
    {
        let ghost part = s@.subrange(i as int, j as int);
        assert(part.drop_last() =~= s@.subrange(i as int, j - 1));
        j -= 1;
    }
    let ghost part = s@.subrange(i as int, j as int);
    assert(trim_end(part) == part);
    s.substring_char(i, j)
}

/// Relies on `str::to_uppercase`: the upper-case form of a text, which
/// depends on its characters alone.
#[verifier::external_body]
fn to_upper(s: &str) -> (r: String)
    ensures
        r@ == upper_of(s@),
{
    s.to_uppercase()
}

/// Whether an upper-cased text starts with `INSERT`, `UPDATE` or `DELETE`.
pub fn starts_with_dml_keyword(upper: &str) -> (r: bool)
    ensures
        r == dml_prefix(upper@),
{
    proof {
        reveal_strlit("INSERT");
        reveal_strlit("UPDATE");
        reveal_strlit("DELETE");
    }
    assert("INSERT"@ =~= word_insert());
    assert("UPDATE"@ =~= word_update());
    assert("DELETE"@ =~= word_delete());
    starts_with(upper, "INSERT") || starts_with(upper, "UPDATE") || starts_with(upper, "DELETE")
}

/// Whether `sql` is a data-modifying statement: its trimmed text,
/// upper-cased, starts with `INSERT`, `UPDATE` or `DELETE`.
pub fn is_dml(sql: &str) -> (r: bool)
    ensures
        r == is_dml_text(sql@),
{
    let t = trimmed(sql);
    let u = to_upper(t);
    starts_with_dml_keyword(u.as_str())
}

} // verus!
