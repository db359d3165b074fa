//! The statements that are sent to the local store, as texts.
//!
//! The texts are put together by `sql_builder::SqlBuilder`. What a builder
//! holds is spoken of through six names; each method that is used here has
//! a wrapper whose contract says what the method does to what the builder
//! holds. The functions below the wrappers fill a builder and prove which
//! text comes out.

use crate::schema::{clause_texts, names, quoted_text, Clause, Table};
use crate::text::decimal;
use vstd::prelude::*;

verus! {

/// `sql_builder::SqlBuilder`, which collects the parts of a statement and
/// renders them. Nothing inside it is seen here; the names below stand for
/// what it holds.
#[verifier::external_type_specification]
#[verifier::external_body]
pub struct ExSqlBuilder(sql_builder::SqlBuilder);

/// The kind of statement that a builder makes: 0 for SELECT from a table,
/// 1 for INSERT with value rows, 2 for UPDATE; 3 where the builder is of
/// another kind or has anything set besides its table, fields, conditions,
/// assignments and value rows (a join, a limit, a query in place of value
/// rows and the like).
pub uninterp spec fn statement_kind(b: sql_builder::SqlBuilder) -> int;

/// The table of a builder.
pub uninterp spec fn statement_table(b: sql_builder::SqlBuilder) -> Seq<char>;

/// The fields of a builder, in the order in which they were added.
pub uninterp spec fn statement_fields(b: sql_builder::SqlBuilder) -> Seq<Seq<char>>;

/// The conditions of a builder, in the order in which they were added.
pub uninterp spec fn statement_wheres(b: sql_builder::SqlBuilder) -> Seq<Seq<char>>;

/// The assignments of a builder, in the order in which they were added.
pub uninterp spec fn statement_sets(b: sql_builder::SqlBuilder) -> Seq<Seq<char>>;

/// The value rows of a builder, each as it stands in the statement, in the
/// order in which they were added.
pub uninterp spec fn statement_rows(b: sql_builder::SqlBuilder) -> Seq<Seq<char>>;

/// What a builder holds.
pub struct Statement {
    pub kind: int,
    pub table: Seq<char>,
    pub fields: Seq<Seq<char>>,
    pub wheres: Seq<Seq<char>>,
    pub sets: Seq<Seq<char>>,
    pub rows: Seq<Seq<char>>,
}

/// What a builder holds, by the six names.
pub open spec fn statement_of(b: sql_builder::SqlBuilder) -> Statement {
    Statement {
        kind: statement_kind(b),
        table: statement_table(b),
        fields: statement_fields(b),
        wheres: statement_wheres(b),
        sets: statement_sets(b),
        rows: statement_rows(b),
    }
}

/// A statement of one of the three kinds, with nothing set that is not
/// spoken of here.
pub open spec fn plain(s: Statement) -> bool {
    0 <= s.kind <= 2
}

/// A statement on a table, with nothing else set.
pub open spec fn bare(kind: int, table: Seq<char>) -> Statement {
    Statement {
        kind,
        table,
        fields: Seq::empty(),
        wheres: Seq::empty(),
        sets: Seq::empty(),
        rows: Seq::empty(),
    }
}

/// The parts in their order, with the separator between one and the next.
pub open spec fn joined(parts: Seq<Seq<char>>, separator: Seq<char>) -> Seq<char>
    decreases parts.len(),
{
    if parts.len() == 0 {
        Seq::empty()
    } else if parts.len() == 1 {
        parts.last()
    } else {
        joined(parts.drop_last(), separator) + separator + parts.last()
    }
}

/// Each part between round brackets.
pub open spec fn bracketed(parts: Seq<Seq<char>>) -> Seq<Seq<char>> {
    Seq::new(parts.len(), |i: int| "("@ + parts[i] + ")"@)
}

/// The conditions as a statement holds them: nothing for none, the
/// condition itself for one, and for more each in brackets with `AND`
/// between them.
pub open spec fn where_text(wheres: Seq<Seq<char>>) -> Seq<char> {
    if wheres.len() == 0 {
        Seq::empty()
    } else if wheres.len() == 1 {
        " WHERE "@ + wheres[0]
    } else {
        " WHERE "@ + joined(bracketed(wheres), " AND "@)
    }
}

/// The text of a plain statement. There is none without a table, for an
/// INSERT without value rows and for an UPDATE without assignments.
pub open spec fn statement_text(s: Statement) -> Option<Seq<char>> {
    if s.table.len() == 0 {
        None
    } else if s.kind == 0 {
        let fields = if s.fields.len() == 0 {
            "*"@
        } else {
            joined(s.fields, ", "@)
        };
        Some("SELECT "@ + fields + " FROM "@ + s.table + where_text(s.wheres) + ";"@)
    } else if s.kind == 1 {
        if s.rows.len() == 0 {
            None
        } else {
            Some(
                "INSERT INTO "@ + s.table + " ("@ + joined(s.fields, ", "@) + ") VALUES "@ + joined(
                    s.rows,
                    ", "@,
                ) + ";"@,
            )
        }
    } else {
        if s.sets.len() == 0 {
            None
        } else {
            Some(
                "UPDATE "@ + s.table + " SET "@ + joined(s.sets, ", "@) + where_text(s.wheres)
                    + ";"@,
            )
        }
    }
}

/// `SqlBuilder::select_from`: a builder for a SELECT from the table, with
/// nothing else set.
#[verifier::external_body]
pub(crate) fn select_from(table: &str) -> (b: sql_builder::SqlBuilder)
    ensures
        statement_kind(b) == 0,
        statement_table(b) == table@,
        statement_of(b) == bare(0, table@),
{
    sql_builder::SqlBuilder::select_from(table)
}

/// `SqlBuilder::insert_into`: a builder for an INSERT into the table, with
/// nothing else set.
#[verifier::external_body]
pub(crate) fn insert_into(table: &str) -> (b: sql_builder::SqlBuilder)
    ensures
        statement_kind(b) == 1,
        statement_table(b) == table@,
        statement_of(b) == bare(1, table@),
{
    sql_builder::SqlBuilder::insert_into(table)
}

/// `SqlBuilder::update_table`: a builder for an UPDATE of the table, with
/// nothing else set.
#[verifier::external_body]
pub(crate) fn update_table(table: &str) -> (b: sql_builder::SqlBuilder)
    ensures
        statement_kind(b) == 2,
        statement_table(b) == table@,
        statement_of(b) == bare(2, table@),
{
    sql_builder::SqlBuilder::update_table(table)
}

/// `SqlBuilder::and_where_eq`: adds the condition that the field equals
/// the value, written as field, ` = ` and value; nothing else changes.
#[verifier::external_body]
pub(crate) fn and_where_eq(b: &mut sql_builder::SqlBuilder, field: &str, value: &str)
    ensures
        statement_of(*final(b)) == (Statement {
            wheres: statement_wheres(*old(b)).push(field@ + " = "@ + value@),
            ..statement_of(*old(b))
        }),
{
    b.and_where_eq(field, value);
}

/// `SqlBuilder::and_where_in_query`: adds the condition that the field is
/// among what the query gives, written as field, ` IN (`, the query and
/// `)`; nothing else changes.
#[verifier::external_body]
pub(crate) fn and_where_in_query(b: &mut sql_builder::SqlBuilder, field: &str, query: &str)
    ensures
        statement_of(*final(b)) == (Statement {
            wheres: statement_wheres(*old(b)).push(field@ + " IN ("@ + query@ + ")"@),
            ..statement_of(*old(b))
        }),
{
    b.and_where_in_query(field, query);
}

/// `SqlBuilder::fields`: adds the fields, in their order, behind those
/// that the builder holds; nothing else changes.
#[verifier::external_body]
pub(crate) fn add_fields(b: &mut sql_builder::SqlBuilder, fields: &Vec<&'static str>)
    ensures
        statement_of(*final(b)) == (Statement {
            fields: statement_fields(*old(b)) + names(fields@),
            ..statement_of(*old(b))
        }),
{
    b.fields(fields.as_slice());
}

/// `SqlBuilder::values`: adds one value row, written as the values with
/// `, ` between them, in round brackets. On a plain builder nothing else
/// changes.
#[verifier::external_body]
pub(crate) fn add_values(b: &mut sql_builder::SqlBuilder, values: &Vec<&'static str>)
    ensures
        plain(statement_of(*old(b))) ==> statement_of(*final(b)) == (Statement {
            rows: statement_rows(*old(b)).push("("@ + joined(names(values@), ", "@) + ")"@),
            ..statement_of(*old(b))
        }),
{
    b.values(values.as_slice());
}

/// `SqlBuilder::set`: adds the assignment of the value to the field,
/// written as field, ` = ` and value; nothing else changes.
#[verifier::external_body]
pub(crate) fn add_set(b: &mut sql_builder::SqlBuilder, field: &str, value: &str)
    ensures
        statement_of(*final(b)) == (Statement {
            sets: statement_sets(*old(b)).push(field@ + " = "@ + value@),
            ..statement_of(*old(b))
        }),
{
    b.set(field, value);
}

/// `SqlBuilder::sql`: the text of the statement, or none where the builder
/// refuses to make one. For a plain builder the text is `statement_text`
/// of what it holds.
#[verifier::external_body]
pub(crate) fn sql(b: &sql_builder::SqlBuilder) -> (r: Option<String>)
    ensures
        plain(statement_of(*b)) ==> crate::text::opt_text(r) == statement_text(statement_of(*b)),
{
    b.sql().ok()
}

/// The conditions that a list of equalities stands for: each field, ` = `
/// and the value between single quotes.
pub open spec fn conditions(clauses: Seq<(Seq<char>, Seq<char>)>) -> Seq<Seq<char>> {
    Seq::new(clauses.len(), |i: int| clauses[i].0 + " = "@ + quoted_text(clauses[i].1))
}

/// The statement that asks for the rows of a table which meet all of the
/// equalities: all columns, and one condition for each equality.
pub open spec fn get_by_statement(table: Table, clauses: Seq<(Seq<char>, Seq<char>)>) -> Statement {
    Statement { fields: seq!["*"@], wheres: conditions(clauses), ..bare(0, table.name_text()) }
}

/// The statement that asks for the rows of a table whose field holds one
/// of the values.
pub open spec fn get_in_statement(table: Table, field: Seq<char>, values: Seq<String>) -> Statement {
    Statement {
        fields: seq!["*"@],
        wheres: seq![
            field + " IN ("@ + quoted_text(crate::schema::joined_text(values)) + ")"@,
        ],
        ..bare(0, table.name_text())
    }
}

/// One placeholder for each of `count` columns.
pub open spec fn marks(count: nat) -> Seq<Seq<char>> {
    Seq::new(count, |i: int| "?"@)
}

/// The statement that writes one row into a table: the columns, and one
/// row of placeholders, whose values are bound when it is carried out.
pub open spec fn insert_statement(table: Table, fields: Seq<Seq<char>>) -> Statement {
    Statement {
        fields,
        rows: seq!["("@ + joined(marks(fields.len()), ", "@) + ")"@],
        ..bare(1, table.name_text())
    }
}

/// The statement that sets columns of the rows of a table which meet all
/// of the equalities.
pub open spec fn update_statement(
    table: Table,
    assignments: Seq<(Seq<char>, Seq<char>)>,
    clauses: Seq<(Seq<char>, Seq<char>)>,
) -> Statement {
    Statement {
        sets: conditions(assignments),
        wheres: conditions(clauses),
        ..bare(2, table.name_text())
    }
}

/// The statement that asks for the transactions of an upload.
pub open spec fn transactions_statement(xml_id: u64) -> Statement {
    Statement {
        fields: seq!["*"@],
        wheres: seq!["XmlId"@ + " = "@ + crate::text::decimal_text(xml_id as nat)],
        ..bare(0, Table::Transactions.name_text())
    }
}

/// Every table has a name.
pub proof fn tables_are_named(table: Table)
    ensures
        table.name_text().len() > 0,
{
    reveal_strlit("XmlParse");
    reveal_strlit("Transactions");
    reveal_strlit("Employees");
    reveal_strlit("Payees");
    reveal_strlit("Payors");
    reveal_strlit("Addresses");
}

fn finish(b: &sql_builder::SqlBuilder) -> (r: String)
    requires
        plain(statement_of(*b)),
        statement_text(statement_of(*b)) is Some,
    ensures
        Some(r@) == statement_text(statement_of(*b)),
{
    match sql(b) {
        Some(text) => text,
        None => String::new(),
    }
}

fn add_conditions(b: &mut sql_builder::SqlBuilder, clauses: &Vec<Clause>)
    ensures
        statement_of(*final(b)) == (Statement {
            wheres: statement_wheres(*old(b)) + conditions(clause_texts(clauses@)),
            ..statement_of(*old(b))
        }),
{
    let ghost start = statement_of(*b);
    let mut i: usize = 0;
    while i < clauses.len()
        invariant
            i <= clauses.len(),
            statement_of(*b) == (Statement {
                wheres: start.wheres + conditions(clause_texts(clauses@.take(i as int))),
                ..start
            }),
        decreases clauses.len() - i,
    {
        let ghost before = conditions(clause_texts(clauses@.take(i as int)));
        let value = clauses[i].value.quoted();
        and_where_eq(b, clauses[i].field, value.as_str());
        proof {
            let after = conditions(clause_texts(clauses@.take(i + 1)));
            assert(after =~= before.push(clauses@[i as int]@.0 + " = "@ + value@));
            assert(start.wheres + after =~= (start.wheres + before).push(
                clauses@[i as int]@.0 + " = "@ + value@,
            ));
        }
        i = i + 1;
    }
    proof {
        assert(clauses@.take(i as int) =~= clauses@);
    }
}

/// The text that asks for the rows of a table which meet all of the
/// equalities.
pub fn get_by_query(table: Table, clauses: &Vec<Clause>) -> (r: String)
    ensures
        Some(r@) == statement_text(get_by_statement(table, clause_texts(clauses@))),
{
    let mut b = select_from(table.name());
    add_conditions(&mut b, clauses);
    let all = vec!["*"];
    add_fields(&mut b, &all);
    proof {
        tables_are_named(table);
        assert(names(all@) =~= seq!["*"@]);
        assert(statement_of(b).fields =~= seq!["*"@]);
        assert(statement_of(b).wheres =~= conditions(clause_texts(clauses@)));
    }
    finish(&b)
}

/// The text that asks for the rows of a table whose field holds one of the
/// values.
pub fn get_in_query(table: Table, field: &str, values: &Vec<String>) -> (r: String)
    ensures
        Some(r@) == statement_text(get_in_statement(table, field@, values@)),
{
    let mut b = select_from(table.name());
    let list = crate::schema::quoted_list(values);
    and_where_in_query(&mut b, field, list.as_str());
    let all = vec!["*"];
    add_fields(&mut b, &all);
    proof {
        tables_are_named(table);
        assert(names(all@) =~= seq!["*"@]);
        assert(statement_of(b).fields =~= seq!["*"@]);
        assert(statement_of(b).wheres =~= get_in_statement(table, field@, values@).wheres);
    }
    finish(&b)
}

/// The text that asks for the transactions of an upload.
pub fn transactions_query(xml_id: u64) -> (r: String)
    ensures
        Some(r@) == statement_text(transactions_statement(xml_id)),
{
    let mut b = select_from(Table::Transactions.name());
    let all = vec!["*"];
    add_fields(&mut b, &all);
    let id = decimal(xml_id);
    and_where_eq(&mut b, "XmlId", id.as_str());
    proof {
        tables_are_named(Table::Transactions);
        assert(names(all@) =~= seq!["*"@]);
        assert(statement_of(b).fields =~= seq!["*"@]);
        assert(statement_of(b).wheres =~= transactions_statement(xml_id).wheres);
    }
    finish(&b)
}

/// The text that writes one row into a table, with a placeholder for each
/// column.
pub fn insert_query(table: Table, fields: &Vec<&'static str>) -> (r: String)
    ensures
        Some(r@) == statement_text(insert_statement(table, names(fields@))),
{
    let mut b = insert_into(table.name());
    add_fields(&mut b, fields);
    let placeholder = crate::schema::placeholders(fields.len());
    add_values(&mut b, &placeholder);
    proof {
        tables_are_named(table);
        assert(names(placeholder@) =~= marks(fields@.len()));
        assert(statement_of(b).fields =~= names(fields@));
        assert(statement_of(b).rows =~= insert_statement(table, names(fields@)).rows);
    }
    finish(&b)
}

/// The text that sets columns of the rows of a table which meet all of the
/// equalities; none where nothing is to be set.
pub fn update_query(table: Table, assignments: &Vec<Clause>, clauses: &Vec<Clause>) -> (r: Option<
    String,
>)
    ensures
        crate::text::opt_text(r) == statement_text(
            update_statement(table, clause_texts(assignments@), clause_texts(clauses@)),
        ),
{
    let mut b = update_table(table.name());
    let ghost start = statement_of(b);
    let mut i: usize = 0;
    proof {
        assert(conditions(clause_texts(assignments@.take(0))) =~= Seq::<Seq<char>>::empty());
    }
    while i < assignments.len()
        invariant
            i <= assignments.len(),
            start == bare(2, table.name_text()),
            statement_of(b) == (Statement {
                sets: conditions(clause_texts(assignments@.take(i as int))),
                ..start
            }),
        decreases assignments.len() - i,
    {
        let ghost before = conditions(clause_texts(assignments@.take(i as int)));
        let value = assignments[i].value.quoted();
        add_set(&mut b, assignments[i].field, value.as_str());
        proof {
            let after = conditions(clause_texts(assignments@.take(i + 1)));
            assert(after =~= before.push(assignments@[i as int]@.0 + " = "@ + value@));
        }
        i = i + 1;
    }
    proof {
        assert(assignments@.take(i as int) =~= assignments@);
    }
    add_conditions(&mut b, clauses);
    proof {
        assert(statement_of(b).wheres =~= conditions(clause_texts(clauses@)));
    }
    sql(&b)
}

} // verus!
