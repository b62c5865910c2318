//! The statements that fit every table.

use vstd::prelude::*;

use super::builder::{built_sql, new_query, push};

verus! {

/// The statement that notes on a row of `table` who made it and who changed
/// it last.
pub fn general_insert_cid_mid(table: &str) -> (sql: String)
    ensures
        sql@ == "UPDATE "@ + table@ + " SET cid=$1, mid=$2 WHERE id = $3"@,
{
    let mut query = new_query("UPDATE ");
    push(&mut query, table);
    push(&mut query, " SET cid=$1, mid=$2");
    push(&mut query, " WHERE id = $3");
    proof {
        reveal_strlit(" SET cid=$1, mid=$2");
        reveal_strlit(" WHERE id = $3");
        reveal_strlit(" SET cid=$1, mid=$2 WHERE id = $3");
        assert(" SET cid=$1, mid=$2"@ + " WHERE id = $3"@
            =~= " SET cid=$1, mid=$2 WHERE id = $3"@);
        assert(("UPDATE "@ + table@) + " SET cid=$1, mid=$2"@ + " WHERE id = $3"@
            =~= "UPDATE "@ + table@ + (" SET cid=$1, mid=$2"@ + " WHERE id = $3"@));
    }
    built_sql(query)
}

} // verus!
