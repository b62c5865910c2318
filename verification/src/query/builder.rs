//! The text of a query, put together piece by piece.

use vstd::prelude::*;

verus! {

/// A query for Postgres that is being put together: a
/// `sqlx::QueryBuilder`, of which only the text is spoken of here.
#[verifier::external_body]
pub struct SqlBuilder {
    inner: sqlx::QueryBuilder<'static, sqlx::Postgres>,
}

/// The text that a query holds so far.
pub uninterp spec fn sql_text(query: SqlBuilder) -> Seq<char>;

/// Calls `sqlx::QueryBuilder::new`, which starts a query with a first piece
/// of text.
#[verifier::external_body]
pub(crate) fn new_query(init: &str) -> (query: SqlBuilder)
    ensures
        sql_text(query) == init@,
{
    SqlBuilder { inner: sqlx::QueryBuilder::new(init) }
}

/// Calls `sqlx::QueryBuilder::push`, which appends a piece of text to the
/// query as it is.
#[verifier::external_body]
pub(crate) fn push(query: &mut SqlBuilder, sql: &str)
    ensures
        sql_text(*final(query)) == sql_text(*old(query)) + sql@,
{
    query.inner.push(sql);
}

/// Calls `sqlx::QueryBuilder::build` and then `sqlx::Execute::sql` on what
/// was built, which gives the text of the query. A query that was built takes
/// no more text, so the query is given up here.
#[verifier::external_body]
pub(crate) fn built_sql(query: SqlBuilder) -> (sql: String)
    ensures
        sql@ == sql_text(query),
{
    let mut query = query;
    sqlx::Execute::sql(&query.inner.build()).into()
}

} // verus!
