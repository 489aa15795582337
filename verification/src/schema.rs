//! Structured description of the introspected schema.
//!
//! The catalog queries themselves run outside this crate; they hand in
//! plain rows. `DatabaseDescription::build` performs the single linear
//! grouping pass over those rows. Grouping is by *contiguous runs* of the
//! `(schema, table)` key: its correctness as a group-by depends entirely
//! on the column query returning rows pre-sorted by
//! `(schema, table, ordinal position)` — an unsorted input silently
//! yields split or duplicate table entries, not an error.

use vstd::prelude::*;

verus! {

/// One row of the column catalog query: one column of one table,
/// in `(schema, table, ordinal position)` order.
#[derive(Debug, Clone, PartialEq)]
pub struct ColumnRow {
    pub schema: String,
    pub table: String,
    pub column: String,
    pub data_type: String,
}

/// One row of the (single, joined) constraint catalog query: a
/// human-readable constraint definition attached to one table.
#[derive(Debug, Clone, PartialEq)]
pub struct ConstraintRow {
    pub schema: String,
    pub table: String,
    pub definition: String,
}

/// A column: its name and its declared type, both textual.
#[derive(Debug, Clone, PartialEq)]
pub struct ColumnDescription {
    pub name: String,
    pub data_type: String,
}

/// A table: its qualified name, its columns in ordinal-position order,
/// and its constraint definitions in catalog-return order (may be empty).
#[derive(Debug, Clone, PartialEq)]
pub struct TableDescription {
    pub schema: String,
    pub name: String,
    pub columns: Vec<ColumnDescription>,
    pub constraints: Vec<String>,
}

/// The full introspected schema: tables in source-row order. Built fresh
/// on every invocation, never cached or mutated after construction.
#[derive(Debug, Clone, PartialEq)]
pub struct DatabaseDescription {
    pub tables: Vec<TableDescription>,
}

/// Mathematical value of a column.
#[verifier::ext_equal]
pub struct ColumnView {
    pub name: Seq<char>,
    pub data_type: Seq<char>,
}

/// Mathematical value of a table.
#[verifier::ext_equal]
pub struct TableView {
    pub schema: Seq<char>,
    pub name: Seq<char>,
    pub columns: Seq<ColumnView>,
    pub constraints: Seq<Seq<char>>,
}

impl View for ColumnDescription {
    type V = ColumnView;

    open spec fn view(&self) -> ColumnView {
        ColumnView { name: self.name@, data_type: self.data_type@ }
    }
}

impl View for TableDescription {
    type V = TableView;

    open spec fn view(&self) -> TableView {
        TableView {
            schema: self.schema@,
            name: self.name@,
            columns: self.columns@.map_values(|c: ColumnDescription| c@),
            constraints: self.constraints@.map_values(|s: String| s@),
        }
    }
}

impl View for DatabaseDescription {
    type V = Seq<TableView>;

    open spec fn view(&self) -> Seq<TableView> {
        self.tables@.map_values(|t: TableDescription| t@)
    }
}

/// The constraint definitions that belong to the table `(schema, table)`,
/// in source order: the definitions of exactly those rows whose key
/// matches.
pub open spec fn constraints_for(
    crows: Seq<ConstraintRow>,
    schema: Seq<char>,
    table: Seq<char>,
) -> Seq<Seq<char>>
    decreases crows.len(),
{
    if crows.len() == 0 {
        Seq::empty()
    } else {
        let rest = constraints_for(crows.drop_last(), schema, table);
        let last = crows.last();
        if last.schema@ == schema && last.table@ == table {
            rest.push(last.definition@)
        } else {
            rest
        }
    }
}

/// The grouping of column rows into tables by contiguous runs of the
/// `(schema, table)` key: a row whose key equals the key of the table
/// built last joins that table; any other row opens a new table, which
/// receives its constraint definitions from `crows`.
pub open spec fn grouped_tables(rows: Seq<ColumnRow>, crows: Seq<ConstraintRow>) -> Seq<TableView>
    decreases rows.len(),
{
    if rows.len() == 0 {
        Seq::empty()
    } else {
        let rest = grouped_tables(rows.drop_last(), crows);
        let r = rows.last();
        let col = ColumnView { name: r.column@, data_type: r.data_type@ };
        if rest.len() > 0 && rest.last().schema == r.schema@ && rest.last().name == r.table@ {
            rest.update(
                rest.len() - 1,
                TableView {
                    schema: rest.last().schema,
                    name: rest.last().name,
                    columns: rest.last().columns.push(col),
                    constraints: rest.last().constraints,
                },
            )
        } else {
            rest.push(
                TableView {
                    schema: r.schema@,
                    name: r.table@,
                    columns: seq![col],
                    constraints: constraints_for(crows, r.schema@, r.table@),
                },
            )
        }
    }
}

/// The `(schema, table)` key of a column row.
pub open spec fn row_key(r: ColumnRow) -> (Seq<char>, Seq<char>) {
    (r.schema@, r.table@)
}

/// The `(schema, table)` key of a grouped table.
pub open spec fn table_key(t: TableView) -> (Seq<char>, Seq<char>) {
    (t.schema, t.name)
}

/// The column a row describes.
pub open spec fn row_column(r: ColumnRow) -> ColumnView {
    ColumnView { name: r.column@, data_type: r.data_type@ }
}

/// All columns of a sequence of grouped tables, in table order.
pub open spec fn all_grouped_columns(tables: Seq<TableView>) -> Seq<ColumnView>
    decreases tables.len(),
{
    if tables.len() == 0 {
        Seq::empty()
    } else {
        all_grouped_columns(tables.drop_last()) + tables.last().columns
    }
}

/// Law: grouping loses and reorders nothing. The columns of the grouped
/// tables, read table by table, are exactly the source rows' columns in
/// source order — so within each table the columns stand in
/// ordinal-position order. Every grouped table carries at least one
/// column, and the last table carries the key of the last row.
pub proof fn lemma_grouping_preserves_columns(rows: Seq<ColumnRow>, crows: Seq<ConstraintRow>)
    ensures
        all_grouped_columns(grouped_tables(rows, crows)) == rows.map_values(
            |r: ColumnRow| row_column(r),
        ),
        grouped_tables(rows, crows).len() == 0 <==> rows.len() == 0,
        rows.len() > 0 ==> table_key(grouped_tables(rows, crows).last()) == row_key(rows.last()),
        forall|j: int|
            0 <= j < grouped_tables(rows, crows).len() ==> #[trigger] grouped_tables(
                rows,
                crows,
            )[j].columns.len() > 0,
    decreases rows.len(),
{
    if rows.len() == 0 {
        assert(rows.map_values(|r: ColumnRow| row_column(r)) =~= Seq::<ColumnView>::empty());
    } else {
        lemma_grouping_preserves_columns(rows.drop_last(), crows);
        let rest = grouped_tables(rows.drop_last(), crows);
        let g = grouped_tables(rows, crows);
        let r = rows.last();
        let col = row_column(r);
        assert(rows.map_values(|rr: ColumnRow| row_column(rr)) =~= rows.drop_last().map_values(
            |rr: ColumnRow| row_column(rr),
        ).push(col));
        if rest.len() > 0 && rest.last().schema == r.schema@ && rest.last().name == r.table@ {
            assert(g.drop_last() =~= rest.drop_last());
            assert(g.last().columns == rest.last().columns.push(col));
            assert(all_grouped_columns(g) =~= all_grouped_columns(rest).push(col));
            assert forall|j: int| 0 <= j < g.len() implies #[trigger] g[j].columns.len() > 0 by {
                if j < g.len() - 1 {
                    assert(g[j] == rest[j]);
                }
            }
        } else {
            assert(g.drop_last() =~= rest);
            assert(all_grouped_columns(g) =~= all_grouped_columns(rest).push(col));
            assert forall|j: int| 0 <= j < g.len() implies #[trigger] g[j].columns.len() > 0 by {
                if j < g.len() - 1 {
                    assert(g[j] == rest[j]);
                }
            }
        }
    }
}

/// Law: the grouped tables follow the order of the sorted source rows.
/// If adjacent rows are ordered by `key_le` — as the introspection query
/// guarantees for the lexical `(schema, table)` order — and `key_le` is
/// transitive and antisymmetric, then the keys of the grouped tables are
/// strictly increasing: every pair of tables is ordered and no key
/// repeats.
pub proof fn lemma_grouping_respects_sort(
    rows: Seq<ColumnRow>,
    crows: Seq<ConstraintRow>,
    key_le: spec_fn((Seq<char>, Seq<char>), (Seq<char>, Seq<char>)) -> bool,
)
    requires
        forall|i: int|
            0 <= i < rows.len() - 1 ==> #[trigger] key_le(row_key(rows[i]), row_key(rows[i + 1])),
        forall|a: (Seq<char>, Seq<char>), b: (Seq<char>, Seq<char>), c: (Seq<char>, Seq<char>)|
            #[trigger] key_le(a, b) && #[trigger] key_le(b, c) ==> key_le(a, c),
        forall|a: (Seq<char>, Seq<char>), b: (Seq<char>, Seq<char>)|
            #[trigger] key_le(a, b) && #[trigger] key_le(b, a) ==> a == b,
    ensures
        forall|j: int, k: int|
            0 <= j < k < grouped_tables(rows, crows).len() ==> #[trigger] key_le(
                table_key(grouped_tables(rows, crows)[j]),
                table_key(grouped_tables(rows, crows)[k]),
            ) && table_key(grouped_tables(rows, crows)[j]) != table_key(
                grouped_tables(rows, crows)[k],
            ),
    decreases rows.len(),
{
    if rows.len() > 0 {
        lemma_grouping_respects_sort(rows.drop_last(), crows, key_le);
        lemma_grouping_preserves_columns(rows.drop_last(), crows);
        let rest = grouped_tables(rows.drop_last(), crows);
        let g = grouped_tables(rows, crows);
        let r = rows.last();
        if rest.len() > 0 && rest.last().schema == r.schema@ && rest.last().name == r.table@ {
            // the last row joined the last table: every key is unchanged
            assert forall|j: int, k: int| 0 <= j < k < g.len() implies #[trigger] key_le(
                table_key(g[j]),
                table_key(g[k]),
            ) && table_key(g[j]) != table_key(g[k]) by {
                assert(table_key(g[k]) == table_key(rest[k]));
                assert(g[j] == rest[j]);
                assert(key_le(table_key(rest[j]), table_key(rest[k])) && table_key(rest[j])
                    != table_key(rest[k]));
            }
        } else {
            // a new table was opened: its key is the last row's key, the
            // table before it carries the key of the row just before, and
            // adjacent rows are ordered
            let m = g.len();
            assert forall|j: int, k: int| 0 <= j < k < g.len() implies #[trigger] key_le(
                table_key(g[j]),
                table_key(g[k]),
            ) && table_key(g[j]) != table_key(g[k]) by {
                if k < m - 1 {
                    assert(g[j] == rest[j] && g[k] == rest[k]);
                    assert(key_le(table_key(rest[j]), table_key(rest[k])) && table_key(rest[j])
                        != table_key(rest[k]));
                } else {
                    assert(table_key(g[k]) == row_key(r));
                    let i = rows.len() - 2;
                    assert(rows.drop_last().last() == rows[i]);
                    assert(key_le(row_key(rows[i]), row_key(rows[i + 1])));
                    assert(rows[i + 1] == r);
                    assert(table_key(rest.last()) == row_key(rows[i]));
                    assert(rest[m - 2] == rest.last());
                    assert(key_le(table_key(rest.last()), table_key(g[k])));
                    assert(table_key(rest.last()) != row_key(r));
                    if j == m - 2 {
                        assert(g[j] == rest.last());
                    } else {
                        assert(g[j] == rest[j]);
                        assert(key_le(table_key(rest[j]), table_key(rest[m - 2])) && table_key(
                            rest[j],
                        ) != table_key(rest[m - 2]));
                        assert(key_le(table_key(g[j]), table_key(g[k])));
                        if table_key(g[j]) == table_key(g[k]) {
                            assert(key_le(table_key(rest.last()), table_key(rest[j])));
                            assert(key_le(table_key(rest[j]), table_key(rest.last())));
                            assert(table_key(rest[j]) == table_key(rest.last()));
                            assert(false);
                        }
                    }
                }
            }
        }
    }
}

/// Law: every grouped table carries exactly the constraint definitions
/// fetched for its own `(schema, table)` key, in fetch order.
pub proof fn lemma_grouping_attaches_constraints(rows: Seq<ColumnRow>, crows: Seq<ConstraintRow>)
    ensures
        forall|j: int|
            0 <= j < grouped_tables(rows, crows).len() ==> #[trigger] grouped_tables(
                rows,
                crows,
            )[j].constraints == constraints_for(
                crows,
                grouped_tables(rows, crows)[j].schema,
                grouped_tables(rows, crows)[j].name,
            ),
    decreases rows.len(),
{
    if rows.len() > 0 {
        lemma_grouping_attaches_constraints(rows.drop_last(), crows);
        let rest = grouped_tables(rows.drop_last(), crows);
        let g = grouped_tables(rows, crows);
        let r = rows.last();
        assert forall|j: int| 0 <= j < g.len() implies #[trigger] g[j].constraints
            == constraints_for(crows, g[j].schema, g[j].name) by {
            if rest.len() > 0 && rest.last().schema == r.schema@ && rest.last().name == r.table@ {
                if j < g.len() - 1 {
                    assert(g[j] == rest[j]);
                } else {
                    // the updated table keeps both the key and the
                    // constraints of the table it extends
                    assert(g[j].schema == rest.last().schema && g[j].name == rest.last().name
                        && g[j].constraints == rest.last().constraints);
                    assert(rest[rest.len() - 1] == rest.last());
                }
            } else {
                if j < g.len() - 1 {
                    assert(g[j] == rest[j]);
                }
            }
        }
    }
}

/// Two row sequences carrying the same texts, position by position.
pub open spec fn column_rows_text_equal(a: Seq<ColumnRow>, b: Seq<ColumnRow>) -> bool {
    &&& a.len() == b.len()
    &&& forall|i: int|
        0 <= i < a.len() ==> #[trigger] a[i].schema@ == b[i].schema@ && a[i].table@ == b[i].table@
            && a[i].column@ == b[i].column@ && a[i].data_type@ == b[i].data_type@
}

/// Two constraint-row sequences carrying the same texts, position by
/// position.
pub open spec fn constraint_rows_text_equal(a: Seq<ConstraintRow>, b: Seq<ConstraintRow>) -> bool {
    &&& a.len() == b.len()
    &&& forall|i: int|
        0 <= i < a.len() ==> #[trigger] a[i].schema@ == b[i].schema@ && a[i].table@ == b[i].table@
            && a[i].definition@ == b[i].definition@
}

proof fn lemma_constraints_for_text_equal(
    a: Seq<ConstraintRow>,
    b: Seq<ConstraintRow>,
    schema: Seq<char>,
    table: Seq<char>,
)
    requires
        constraint_rows_text_equal(a, b),
    ensures
        constraints_for(a, schema, table) == constraints_for(b, schema, table),
    decreases a.len(),
{
    if a.len() > 0 {
        assert(constraint_rows_text_equal(a.drop_last(), b.drop_last()));
        lemma_constraints_for_text_equal(a.drop_last(), b.drop_last(), schema, table);
        assert(a.last().schema@ == b.last().schema@ && a.last().table@ == b.last().table@
            && a.last().definition@ == b.last().definition@);
    }
}

/// Law: introspecting an unchanged schema twice yields the identical
/// description. The description is a function of the catalog texts
/// alone: two introspections that return the same texts — even as
/// distinct strings — group to equal descriptions.
pub proof fn lemma_describe_idempotent(
    rows1: Seq<ColumnRow>,
    crows1: Seq<ConstraintRow>,
    rows2: Seq<ColumnRow>,
    crows2: Seq<ConstraintRow>,
)
    requires
        column_rows_text_equal(rows1, rows2),
        constraint_rows_text_equal(crows1, crows2),
    ensures
        grouped_tables(rows1, crows1) == grouped_tables(rows2, crows2),
    decreases rows1.len(),
{
    if rows1.len() > 0 {
        assert(column_rows_text_equal(rows1.drop_last(), rows2.drop_last()));
        lemma_describe_idempotent(rows1.drop_last(), crows1, rows2.drop_last(), crows2);
        let r1 = rows1.last();
        let r2 = rows2.last();
        assert(r1.schema@ == r2.schema@ && r1.table@ == r2.table@ && r1.column@ == r2.column@
            && r1.data_type@ == r2.data_type@);
        lemma_constraints_for_text_equal(crows1, crows2, r1.schema@, r1.table@);
        assert(grouped_tables(rows1, crows1) =~= grouped_tables(rows2, crows2));
    }
}

/// The constraint definitions of the rows whose key is `(schema, table)`,
/// in source order.
pub fn table_constraints(crows: &Vec<ConstraintRow>, schema: &String, table: &String) -> (cs: Vec<
    String,
>)
    ensures
        cs@.map_values(|s: String| s@) == constraints_for(crows@, schema@, table@),
{
    let mut cs: Vec<String> = Vec::new();
    let mut i: usize = 0;
    while i < crows.len()
        invariant
            i <= crows@.len(),
            cs@.map_values(|s: String| s@) == constraints_for(crows@.take(i as int), schema@, table@),
        decreases crows@.len() - i,
    {
        let r = &crows[i];
        if r.schema.eq(schema) && r.table.eq(table) {
            cs.push(r.definition.clone());
        }
        proof {
            assert(crows@.take(i + 1).drop_last() =~= crows@.take(i as int));
            assert(crows@.take(i + 1).last() == crows@[i as int]);
            assert(cs@.map_values(|s: String| s@) =~= constraints_for(
                crows@.take(i + 1),
                schema@,
                table@,
            ));
        }
        i = i + 1;
    }
    proof {
        assert(crows@.take(crows@.len() as int) =~= crows@);
    }
    cs
}

impl DatabaseDescription {
    /// The single linear grouping pass: turns the sorted column rows and
    /// the constraint rows into the structured description.
    ///
    /// The result is exactly `grouped_tables(rows@, crows@)`: a function
    /// of the catalog rows alone, so an unchanged schema always yields
    /// the identical description.
    pub fn build(rows: &Vec<ColumnRow>, crows: &Vec<ConstraintRow>) -> (db: DatabaseDescription)
        ensures
            db@ == grouped_tables(rows@, crows@),
    {
        let mut tables: Vec<TableDescription> = Vec::new();
        let mut i: usize = 0;
        while i < rows.len()
            invariant
                i <= rows@.len(),
                tables@.map_values(|t: TableDescription| t@) == grouped_tables(
                    rows@.take(i as int),
                    crows@,
                ),
            decreases rows@.len() - i,
        {
            let ghost pre_tables = tables@;
            let ghost pre_rows = rows@.take(i as int);
            let ghost rest = grouped_tables(pre_rows, crows@);
            let r = &rows[i];
            let ghost colv = ColumnView { name: r.column@, data_type: r.data_type@ };
            let col = ColumnDescription { name: r.column.clone(), data_type: r.data_type.clone() };
            let joins_last = if tables.len() > 0 {
                let t = &tables[tables.len() - 1];
                t.schema.eq(&r.schema) && t.name.eq(&r.table)
            } else {
                false
            };
            proof {
                assert(rows@.take(i + 1).drop_last() =~= pre_rows);
                assert(rows@.take(i + 1).last() == rows@[i as int]);
                if pre_tables.len() > 0 {
                    assert(rest.last() == pre_tables.last()@);
                }
            }
            if joins_last {
                let ghost target = TableView {
                    schema: rest.last().schema,
                    name: rest.last().name,
                    columns: rest.last().columns.push(colv),
                    constraints: rest.last().constraints,
                };
                let mut t = tables.pop().unwrap();
                t.columns.push(col);
                proof {
                    assert(t@.columns =~= rest.last().columns.push(colv));
                    assert(t@ =~= target);
                }
                tables.push(t);
                proof {
                    assert(grouped_tables(rows@.take(i + 1), crows@) == rest.update(
                        rest.len() - 1,
                        target,
                    ));
                    assert(tables@.map_values(|t: TableDescription| t@) =~= rest.update(
                        rest.len() - 1,
                        target,
                    ));
                }
            } else {
                let cs = table_constraints(crows, &r.schema, &r.table);
                let mut cols: Vec<ColumnDescription> = Vec::new();
                cols.push(col);
                let fresh = TableDescription {
                    schema: r.schema.clone(),
                    name: r.table.clone(),
                    columns: cols,
                    constraints: cs,
                };
                proof {
                    assert(fresh@.columns =~= seq![colv]);
                    assert(fresh@ =~= (TableView {
                        schema: r.schema@,
                        name: r.table@,
                        columns: seq![colv],
                        constraints: constraints_for(crows@, r.schema@, r.table@),
                    }));
                }
                tables.push(fresh);
                proof {
                    assert(tables@.map_values(|t: TableDescription| t@) =~= grouped_tables(
                        rows@.take(i + 1),
                        crows@,
                    ));
                }
            }
            i = i + 1;
        }
        proof {
            assert(rows@.take(rows@.len() as int) =~= rows@);
        }
        DatabaseDescription { tables }
    }
}

} // verus!
