//! Preparation of generated SQL for execution, and the shape of read
//! results.
//!
//! Read mode strips trailing `;`, newline and space characters from the
//! generated text — and only trailing ones, embedded semicolons are
//! untouched — then wraps the trimmed statement as a derived table inside
//! a fixed projection that turns each result row into one opaque
//! document. Write mode runs the text verbatim. Neither mode validates,
//! sanitizes or allow-lists the generated SQL: arbitrary model output
//! runs with the privileges of the invoking session. That is a
//! documented, deliberate property, not an oversight.

use vstd::prelude::*;

verus! {

/// The characters stripped from the end of generated SQL in read mode.
pub open spec fn spec_is_trim_char(c: char) -> bool {
    c == ';' || c == '\n' || c == ' '
}

/// `s` without its trailing run of `;`, newline and space characters.
pub open spec fn trimmed_sql(s: Seq<char>) -> Seq<char>
    decreases s.len(),
{
    if s.len() > 0 && spec_is_trim_char(s.last()) {
        trimmed_sql(s.drop_last())
    } else {
        s
    }
}

/// Trimming returns a prefix of the input, drops only trim characters,
/// and stops at the first character that is not one: together these pin
/// the trimmed text exactly, and in particular every embedded semicolon
/// survives inside the kept prefix.
pub proof fn lemma_trimmed_sql_properties(s: Seq<char>)
    ensures
        trimmed_sql(s).len() <= s.len(),
        trimmed_sql(s) == s.take(trimmed_sql(s).len() as int),
        forall|i: int| trimmed_sql(s).len() <= i < s.len() ==> spec_is_trim_char(s[i]),
        trimmed_sql(s).len() > 0 ==> !spec_is_trim_char(s[trimmed_sql(s).len() - 1]),
    decreases s.len(),
{
    if s.len() > 0 && spec_is_trim_char(s.last()) {
        lemma_trimmed_sql_properties(s.drop_last());
        assert(s.drop_last().take(trimmed_sql(s).len() as int) =~= s.take(
            trimmed_sql(s).len() as int,
        ));
        assert forall|i: int| trimmed_sql(s).len() <= i < s.len() implies spec_is_trim_char(
            s[i],
        ) by {
            if i < s.len() - 1 {
                assert(s.drop_last()[i] == s[i]);
            } else {
                assert(s[i] == s.last());
            }
        }
    } else {
        assert(s.take(s.len() as int) =~= s);
    }
}

/// True when position `k` in `sql` is just past a trailing trim
/// character.
fn has_trim_char_before(sql: &str, k: usize) -> (b: bool)
    requires
        k <= sql@.len(),
    ensures
        b == (k > 0 && spec_is_trim_char(sql@[k - 1])),
{
    if k == 0 {
        false
    } else {
        let c = sql.get_char(k - 1);
        c == ';' || c == '\n' || c == ' '
    }
}

/// Strips the trailing `;`, newline and space characters from generated
/// SQL; everything before them — embedded semicolons included — is
/// returned unchanged.
pub fn trim_generated_sql(sql: &str) -> (r: String)
    ensures
        r@ == trimmed_sql(sql@),
{
    let mut k: usize = sql.unicode_len();
    proof {
        assert(sql@.take(k as int) =~= sql@);
    }
    while has_trim_char_before(sql, k)
        invariant
            k <= sql@.len(),
            trimmed_sql(sql@) == trimmed_sql(sql@.take(k as int)),
        decreases k,
    {
        proof {
            assert(sql@.take(k as int).drop_last() =~= sql@.take(k - 1));
            assert(sql@.take(k as int).last() == sql@[k - 1]);
        }
        k = k - 1;
    }
    proof {
        if k > 0 {
            assert(sql@.take(k as int).last() == sql@[k - 1]);
        }
        assert(trimmed_sql(sql@.take(k as int)) == sql@.take(k as int));
    }
    let kept = sql.substring_char(0, k);
    String::from_str(kept)
}

/// The read-mode statement around a (trimmed) generated query: a fixed
/// projection that converts each row of the derived table to one opaque
/// document.
pub open spec fn read_wrapped(sql: Seq<char>) -> Seq<char> {
    ("SELECT to_jsonb(generated_query) as data FROM (")@ + sql + (") generated_query")@
}

/// Trims the generated SQL and wraps it as a derived table for read-mode
/// execution.
pub fn prepare_read_statement(sql: &str) -> (r: String)
    ensures
        r@ == read_wrapped(trimmed_sql(sql@)),
{
    let trimmed = trim_generated_sql(sql);
    let mut s = String::from_str("SELECT to_jsonb(generated_query) as data FROM (");
    s.append(trimmed.as_str());
    s.append(") generated_query");
    s
}

/// One row of a read-mode result: a zero-based ordinal and an opaque
/// structured document carrying the row's arbitrary shape.
#[derive(Debug, Clone, PartialEq)]
pub struct ExecutedRow {
    pub index: i32,
    pub data: String,
}

/// Numbers the documents of a read result in result order, starting
/// at 0.
pub fn collect_read_rows(values: &Vec<String>) -> (rows: Vec<ExecutedRow>)
    requires
        values@.len() <= 0x7fff_ffff,
    ensures
        rows@.len() == values@.len(),
        forall|k: int|
            0 <= k < rows@.len() ==> rows@[k].index == k && rows@[k].data@ == values@[k]@,
{
    let mut rows: Vec<ExecutedRow> = Vec::new();
    let mut i: usize = 0;
    while i < values.len()
        invariant
            values@.len() <= 0x7fff_ffff,
            i <= values@.len(),
            rows@.len() == i,
            forall|k: int|
                0 <= k < i ==> rows@[k].index == k && rows@[k].data@ == values@[k]@,
        decreases values@.len() - i,
    {
        rows.push(ExecutedRow { index: i as i32, data: values[i].clone() });
        i = i + 1;
    }
    rows
}

} // verus!
