//! Deterministic text renderings of a schema description.
//!
//! Two forms exist: a *compact* one-line-per-table form
//! (`CREATE TABLE s.t(col1 type1, col2 type2, ...);`, tables
//! concatenated directly) and an *expanded* multi-line indented form with
//! one column or constraint per line and a blank line between tables.
//! Both place constraints after columns, in the order fetched. The spec
//! functions below give each form character for character.

use vstd::prelude::*;
use crate::schema::ColumnDescription;
use crate::schema::ColumnView;
use crate::schema::DatabaseDescription;
use crate::schema::TableDescription;
use crate::schema::TableView;

verus! {

/// `name type`, the one rendering of a column, shared by both forms.
pub open spec fn column_text(c: ColumnView) -> Seq<char> {
    c.name + (" ")@ + c.data_type
}

/// Columns joined with `, `.
pub open spec fn columns_compact(cols: Seq<ColumnView>) -> Seq<char>
    decreases cols.len(),
{
    if cols.len() == 0 {
        Seq::empty()
    } else if cols.len() == 1 {
        column_text(cols.last())
    } else {
        columns_compact(cols.drop_last()) + (", ")@ + column_text(cols.last())
    }
}

/// Each constraint preceded by `, ` (constraints follow the columns, so
/// every one of them needs the separator).
pub open spec fn constraints_compact(cs: Seq<Seq<char>>) -> Seq<char>
    decreases cs.len(),
{
    if cs.len() == 0 {
        Seq::empty()
    } else {
        constraints_compact(cs.drop_last()) + (", ")@ + cs.last()
    }
}

/// The compact one-line form of a table.
pub open spec fn table_compact(t: TableView) -> Seq<char> {
    ("CREATE TABLE ")@ + t.schema + (".")@ + t.name + ("(")@ + columns_compact(t.columns)
        + constraints_compact(t.constraints) + (");")@
}

/// The compact form of a whole description: the tables' compact forms
/// concatenated directly, with no separator.
pub open spec fn tables_compact(ts: Seq<TableView>) -> Seq<char>
    decreases ts.len(),
{
    if ts.len() == 0 {
        Seq::empty()
    } else {
        tables_compact(ts.drop_last()) + table_compact(ts.last())
    }
}

/// Columns one per indented line, separated by commas.
pub open spec fn columns_expanded(cols: Seq<ColumnView>) -> Seq<char>
    decreases cols.len(),
{
    if cols.len() == 0 {
        Seq::empty()
    } else if cols.len() == 1 {
        ("\n    ")@ + column_text(cols.last())
    } else {
        columns_expanded(cols.drop_last()) + (",\n    ")@ + column_text(cols.last())
    }
}

/// Each constraint on an indented line of its own, after a comma.
pub open spec fn constraints_expanded(cs: Seq<Seq<char>>) -> Seq<char>
    decreases cs.len(),
{
    if cs.len() == 0 {
        Seq::empty()
    } else {
        constraints_expanded(cs.drop_last()) + (",\n    ")@ + cs.last()
    }
}

/// The expanded multi-line form of a table.
pub open spec fn table_expanded(t: TableView) -> Seq<char> {
    ("CREATE TABLE ")@ + t.schema + (".")@ + t.name + ("(")@ + columns_expanded(t.columns)
        + constraints_expanded(t.constraints) + ("\n")@ + (");")@
}

/// The expanded form of a whole description: tables separated by a blank
/// line.
pub open spec fn tables_expanded(ts: Seq<TableView>) -> Seq<char>
    decreases ts.len(),
{
    if ts.len() == 0 {
        Seq::empty()
    } else if ts.len() == 1 {
        table_expanded(ts.last())
    } else {
        tables_expanded(ts.drop_last()) + ("\n\n")@ + table_expanded(ts.last())
    }
}

impl ColumnDescription {
    /// `name type`.
    pub fn render(&self) -> (r: String)
        ensures
            r@ == column_text(self@),
    {
        let mut s = self.name.clone();
        s.append(" ");
        s.append(self.data_type.as_str());
        s
    }
}

impl TableDescription {
    /// The shared head of both forms: `CREATE TABLE schema.name(`.
    fn render_head(&self) -> (r: String)
        ensures
            r@ == ("CREATE TABLE ")@ + self@.schema + (".")@ + self@.name + ("(")@,
    {
        let mut s = String::from_str("CREATE TABLE ");
        s.append(self.schema.as_str());
        s.append(".");
        s.append(self.name.as_str());
        s.append("(");
        s
    }

    /// The compact one-line form of this table.
    pub fn render_compact(&self) -> (r: String)
        ensures
            r@ == table_compact(self@),
    {
        let ghost head = ("CREATE TABLE ")@ + self@.schema + (".")@ + self@.name + ("(")@;
        let mut s = self.render_head();
        let mut i: usize = 0;
        while i < self.columns.len()
            invariant
                i <= self.columns@.len(),
                self@.columns == self.columns@.map_values(|c: ColumnDescription| c@),
                s@ == head + columns_compact(self@.columns.take(i as int)),
            decreases self.columns@.len() - i,
        {
            if i > 0 {
                s.append(", ");
            }
            let c = self.columns[i].render();
            s.append(c.as_str());
            proof {
                assert(self@.columns.take(i + 1).drop_last() =~= self@.columns.take(i as int));
                assert(self@.columns.take(i + 1).last() == self@.columns[i as int]);
                assert(s@ =~= head + columns_compact(self@.columns.take(i + 1)));
            }
            i = i + 1;
        }
        proof {
            assert(self@.columns.take(self@.columns.len() as int) =~= self@.columns);
        }
        let ghost mid = head + columns_compact(self@.columns);
        let mut j: usize = 0;
        while j < self.constraints.len()
            invariant
                j <= self.constraints@.len(),
                self@.constraints == self.constraints@.map_values(|c: String| c@),
                s@ == mid + constraints_compact(self@.constraints.take(j as int)),
            decreases self.constraints@.len() - j,
        {
            s.append(", ");
            s.append(self.constraints[j].as_str());
            proof {
                assert(self@.constraints.take(j + 1).drop_last() =~= self@.constraints.take(
                    j as int,
                ));
                assert(self@.constraints.take(j + 1).last() == self@.constraints[j as int]);
                assert(s@ =~= mid + constraints_compact(self@.constraints.take(j + 1)));
            }
            j = j + 1;
        }
        proof {
            assert(self@.constraints.take(self@.constraints.len() as int) =~= self@.constraints);
        }
        s.append(");");
        proof {
            assert(s@ =~= table_compact(self@));
        }
        s
    }

    /// The expanded multi-line form of this table.
    pub fn render_expanded(&self) -> (r: String)
        ensures
            r@ == table_expanded(self@),
    {
        let ghost head = ("CREATE TABLE ")@ + self@.schema + (".")@ + self@.name + ("(")@;
        let mut s = self.render_head();
        let mut i: usize = 0;
        while i < self.columns.len()
            invariant
                i <= self.columns@.len(),
                self@.columns == self.columns@.map_values(|c: ColumnDescription| c@),
                s@ == head + columns_expanded(self@.columns.take(i as int)),
            decreases self.columns@.len() - i,
        {
            if i > 0 {
                s.append(",\n    ");
            } else {
                s.append("\n    ");
            }
            let c = self.columns[i].render();
            s.append(c.as_str());
            proof {
                assert(self@.columns.take(i + 1).drop_last() =~= self@.columns.take(i as int));
                assert(self@.columns.take(i + 1).last() == self@.columns[i as int]);
                assert(s@ =~= head + columns_expanded(self@.columns.take(i + 1)));
            }
            i = i + 1;
        }
        proof {
            assert(self@.columns.take(self@.columns.len() as int) =~= self@.columns);
        }
        let ghost mid = head + columns_expanded(self@.columns);
        let mut j: usize = 0;
        while j < self.constraints.len()
            invariant
                j <= self.constraints@.len(),
                self@.constraints == self.constraints@.map_values(|c: String| c@),
                s@ == mid + constraints_expanded(self@.constraints.take(j as int)),
            decreases self.constraints@.len() - j,
        {
            s.append(",\n    ");
            s.append(self.constraints[j].as_str());
            proof {
                assert(self@.constraints.take(j + 1).drop_last() =~= self@.constraints.take(
                    j as int,
                ));
                assert(self@.constraints.take(j + 1).last() == self@.constraints[j as int]);
                assert(s@ =~= mid + constraints_expanded(self@.constraints.take(j + 1)));
            }
            j = j + 1;
        }
        proof {
            assert(self@.constraints.take(self@.constraints.len() as int) =~= self@.constraints);
        }
        s.append("\n");
        s.append(");");
        proof {
            assert(s@ =~= table_expanded(self@));
        }
        s
    }
}

impl DatabaseDescription {
    /// The compact form of the whole description.
    pub fn render_compact(&self) -> (r: String)
        ensures
            r@ == tables_compact(self@),
    {
        let mut s = String::new();
        let mut i: usize = 0;
        while i < self.tables.len()
            invariant
                i <= self.tables@.len(),
                self@ == self.tables@.map_values(|t: TableDescription| t@),
                s@ == tables_compact(self@.take(i as int)),
            decreases self.tables@.len() - i,
        {
            let t = self.tables[i].render_compact();
            s.append(t.as_str());
            proof {
                assert(self@.take(i + 1).drop_last() =~= self@.take(i as int));
                assert(self@.take(i + 1).last() == self@[i as int]);
                assert(s@ =~= tables_compact(self@.take(i + 1)));
            }
            i = i + 1;
        }
        proof {
            assert(self@.take(self@.len() as int) =~= self@);
        }
        s
    }

    /// The expanded form of the whole description.
    pub fn render_expanded(&self) -> (r: String)
        ensures
            r@ == tables_expanded(self@),
    {
        let mut s = String::new();
        let mut i: usize = 0;
        while i < self.tables.len()
            invariant
                i <= self.tables@.len(),
                self@ == self.tables@.map_values(|t: TableDescription| t@),
                s@ == tables_expanded(self@.take(i as int)),
            decreases self.tables@.len() - i,
        {
            if i > 0 {
                s.append("\n\n");
            }
            let t = self.tables[i].render_expanded();
            s.append(t.as_str());
            proof {
                assert(self@.take(i + 1).drop_last() =~= self@.take(i as int));
                assert(self@.take(i + 1).last() == self@[i as int]);
                assert(s@ =~= tables_expanded(self@.take(i + 1)));
            }
            i = i + 1;
        }
        proof {
            assert(self@.take(self@.len() as int) =~= self@);
        }
        s
    }
}

} // verus!
