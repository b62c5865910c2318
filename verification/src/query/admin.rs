//! The statements on the table of the admins.

use vstd::prelude::*;

use super::builder::{built_sql, new_query, push};

verus! {

/// Insert query using QueryBuilder
pub fn insert() -> (sql: String)
    ensures
        sql@ == "INSERT INTO tbl_admin (uname, email) VALUES ($1, $2) RETURNING id"@,
{
    let mut query = new_query("INSERT INTO tbl_admin");

    push(&mut query, " (uname, email)");
    push(&mut query, " VALUES ($1, $2)");
    push(&mut query, " RETURNING id");

    proof {
        reveal_strlit("INSERT INTO tbl_admin");
        reveal_strlit(" (uname, email)");
        reveal_strlit(" VALUES ($1, $2)");
        reveal_strlit(" RETURNING id");
        reveal_strlit("INSERT INTO tbl_admin (uname, email) VALUES ($1, $2) RETURNING id");
        assert(
            "INSERT INTO tbl_admin"@
                + " (uname, email)"@
                + " VALUES ($1, $2)"@
                + " RETURNING id"@
                =~= "INSERT INTO tbl_admin (uname, email) VALUES ($1, $2) RETURNING id"@
        );
    }
    built_sql(query)
}

/// Get by username query using QueryBuilder
pub fn get_by_uname() -> (sql: String)
    ensures
        sql@
            == "SELECT id, uname, email, pwd, pwd_salt, token_salt FROM tbl_admin WHERE uname = $1"@,
{
    let mut query = new_query("SELECT id, uname, email, pwd, pwd_salt, token_salt FROM tbl_admin");

    push(&mut query, " WHERE uname = $1");

    proof {
        reveal_strlit("SELECT id, uname, email, pwd, pwd_salt, token_salt FROM tbl_admin");
        reveal_strlit(" WHERE uname = $1");
        reveal_strlit(
            "SELECT id, uname, email, pwd, pwd_salt, token_salt FROM tbl_admin WHERE uname = $1",
        );
        assert(
            "SELECT id, uname, email, pwd, pwd_salt, token_salt FROM tbl_admin"@
                + " WHERE uname = $1"@
                =~= "SELECT id, uname, email, pwd, pwd_salt, token_salt FROM tbl_admin WHERE uname = $1"@
        );
    }
    built_sql(query)
}

/// Select all query using QueryBuilder: of all admins, or of the one with the
/// given id.
pub fn select_all(has_id: bool) -> (sql: String)
    ensures
        has_id ==> sql@
            == "SELECT id, uname, email, pwd_salt, token_salt, admin_role, session_typ, admin_stat, cid, ctime, mid, mtime FROM tbl_admin WHERE id = $1"@,
        !has_id ==> sql@
            == "SELECT id, uname, email, pwd_salt, token_salt, admin_role, session_typ, admin_stat, cid, ctime, mid, mtime FROM tbl_admin"@,
{
    let mut query = new_query("SELECT");

    push(
        &mut query,
        " id, uname, email, pwd_salt, token_salt, admin_role, session_typ, admin_stat, cid, ctime, mid, mtime",
    );
    push(&mut query, " FROM tbl_admin");
    if has_id {
        push(&mut query, " WHERE id = $1");
    }
    proof {
        reveal_strlit("SELECT");
        reveal_strlit(
            " id, uname, email, pwd_salt, token_salt, admin_role, session_typ, admin_stat, cid, ctime, mid, mtime",
        );
        reveal_strlit(" FROM tbl_admin");
        reveal_strlit(" WHERE id = $1");
        reveal_strlit(
            "SELECT id, uname, email, pwd_salt, token_salt, admin_role, session_typ, admin_stat, cid, ctime, mid, mtime FROM tbl_admin",
        );
        reveal_strlit(
            "SELECT id, uname, email, pwd_salt, token_salt, admin_role, session_typ, admin_stat, cid, ctime, mid, mtime FROM tbl_admin WHERE id = $1",
        );
        assert(
            "SELECT"@
                + " id, uname, email, pwd_salt, token_salt, admin_role, session_typ, admin_stat, cid, ctime, mid, mtime"@
                + " FROM tbl_admin"@
                =~= "SELECT id, uname, email, pwd_salt, token_salt, admin_role, session_typ, admin_stat, cid, ctime, mid, mtime FROM tbl_admin"@
        );
        assert(
            "SELECT id, uname, email, pwd_salt, token_salt, admin_role, session_typ, admin_stat, cid, ctime, mid, mtime FROM tbl_admin"@
                + " WHERE id = $1"@
                =~= "SELECT id, uname, email, pwd_salt, token_salt, admin_role, session_typ, admin_stat, cid, ctime, mid, mtime FROM tbl_admin WHERE id = $1"@
        );
    }
    built_sql(query)
}

/// Update query using QueryBuilder
pub fn update() -> (sql: String)
    ensures
        sql@ == "UPDATE tbl_admin SET uname=$1, email=$2, mtime=NOW() WHERE id=$3"@,
{
    let mut query = new_query("UPDATE tbl_admin SET");

    push(&mut query, " uname=$1, email=$2, mtime=NOW()");
    push(&mut query, " WHERE id=$3");

    proof {
        reveal_strlit("UPDATE tbl_admin SET");
        reveal_strlit(" uname=$1, email=$2, mtime=NOW()");
        reveal_strlit(" WHERE id=$3");
        reveal_strlit("UPDATE tbl_admin SET uname=$1, email=$2, mtime=NOW() WHERE id=$3");
        assert(
            "UPDATE tbl_admin SET"@
                + " uname=$1, email=$2, mtime=NOW()"@
                + " WHERE id=$3"@
                =~= "UPDATE tbl_admin SET uname=$1, email=$2, mtime=NOW() WHERE id=$3"@
        );
    }
    built_sql(query)
}

/// Removed account query using QueryBuilder
pub fn check_removed_acc() -> (sql: String)
    ensures
        sql@ == "SELECT id, uname FROM tbl_acc_removed WHERE uname=$1, email=$2"@,
{
    let mut query = new_query("SELECT id, uname FROM");

    push(&mut query, " tbl_acc_removed");
    push(&mut query, " WHERE uname=$1, email=$2");

    proof {
        reveal_strlit("SELECT id, uname FROM");
        reveal_strlit(" tbl_acc_removed");
        reveal_strlit(" WHERE uname=$1, email=$2");
        reveal_strlit("SELECT id, uname FROM tbl_acc_removed WHERE uname=$1, email=$2");
        assert(
            "SELECT id, uname FROM"@
                + " tbl_acc_removed"@
                + " WHERE uname=$1, email=$2"@
                =~= "SELECT id, uname FROM tbl_acc_removed WHERE uname=$1, email=$2"@
        );
    }
    built_sql(query)
}

/// Update password query using QueryBuilder
pub fn update_pass() -> (sql: String)
    ensures
        sql@ == "UPDATE tbl_admin SET pwd=$1, mtime=NOW() WHERE id=$2"@,
{
    let mut query = new_query("UPDATE tbl_admin SET");

    push(&mut query, " pwd=$1, mtime=NOW()");
    push(&mut query, " WHERE id=$2");

    proof {
        reveal_strlit("UPDATE tbl_admin SET");
        reveal_strlit(" pwd=$1, mtime=NOW()");
        reveal_strlit(" WHERE id=$2");
        reveal_strlit("UPDATE tbl_admin SET pwd=$1, mtime=NOW() WHERE id=$2");
        assert(
            "UPDATE tbl_admin SET"@
                + " pwd=$1, mtime=NOW()"@
                + " WHERE id=$2"@
                =~= "UPDATE tbl_admin SET pwd=$1, mtime=NOW() WHERE id=$2"@
        );
    }
    built_sql(query)
}

/// Remove admin query using QueryBuilder
pub fn removed() -> (sql: String)
    ensures
        sql@
            == "INSERT INTO tbl_acc_removed (admin_id, cid, mid) VALUES ($1, $2, $3) RETURNING id"@,
{
    let mut query = new_query("INSERT INTO tbl_acc_removed");

    push(&mut query, " (admin_id, cid, mid) VALUES ($1, $2, $3)");
    push(&mut query, " RETURNING id");

    proof {
        reveal_strlit("INSERT INTO tbl_acc_removed");
        reveal_strlit(" (admin_id, cid, mid) VALUES ($1, $2, $3)");
        reveal_strlit(" RETURNING id");
        reveal_strlit(
            "INSERT INTO tbl_acc_removed (admin_id, cid, mid) VALUES ($1, $2, $3) RETURNING id",
        );
        assert(
            "INSERT INTO tbl_acc_removed"@
                + " (admin_id, cid, mid) VALUES ($1, $2, $3)"@
                + " RETURNING id"@
                =~= "INSERT INTO tbl_acc_removed (admin_id, cid, mid) VALUES ($1, $2, $3) RETURNING id"@
        );
    }
    built_sql(query)
}

} // verus!
