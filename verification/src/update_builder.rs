//! The update-patch builder: turns a sparse set of field edits into one
//! parameterized partial-update statement against a single record.
//!
//! Clauses are appended in a fixed, stable field order — email, username,
//! full_name, is_active — each bound to a freshly numbered placeholder, and
//! the target id is bound last. Placeholder numbers are derived from the
//! length of the parameter list at the moment a clause is appended, so they
//! always form the contiguous run `$1 .. $n` in list order.

use vstd::prelude::*;
use vstd::string::*;
use crate::models::UpdateUser;

verus! {

/// One positional parameter of a statement.
#[derive(Debug)]
pub enum SqlValue {
    Text(String),
    Flag(bool),
    Id(u128),
}

/// The mathematical shape of one positional parameter.
pub enum SqlValueModel {
    Text(Seq<char>),
    Flag(bool),
    Id(u128),
}

impl View for SqlValue {
    type V = SqlValueModel;

    open spec fn view(&self) -> SqlValueModel {
        match self {
            SqlValue::Text(s) => SqlValueModel::Text(s@),
            SqlValue::Flag(b) => SqlValueModel::Flag(*b),
            SqlValue::Id(i) => SqlValueModel::Id(*i),
        }
    }
}

/// A statement text together with its positional parameters, in binding
/// order.
#[derive(Debug)]
pub struct ParameterizedStatement {
    pub sql: String,
    pub params: Vec<SqlValue>,
}

/// The views of a parameter list, in order.
pub open spec fn views_of(s: Seq<SqlValue>) -> Seq<SqlValueModel> {
    s.map_values(|v: SqlValue| v@)
}

pub open spec fn email_set(u: UpdateUser) -> int {
    if u.email is Some {
        1
    } else {
        0
    }
}

pub open spec fn username_set(u: UpdateUser) -> int {
    if u.username is Some {
        1
    } else {
        0
    }
}

pub open spec fn full_name_set(u: UpdateUser) -> int {
    if u.full_name is Some {
        1
    } else {
        0
    }
}

pub open spec fn is_active_set(u: UpdateUser) -> int {
    if u.is_active is Some {
        1
    } else {
        0
    }
}

/// How many fields of the patch are set.
pub open spec fn set_field_count(u: UpdateUser) -> int {
    email_set(u) + username_set(u) + full_name_set(u) + is_active_set(u)
}

/// The text of the `n`-th positional placeholder. A statement of this
/// builder binds at most five parameters: four optional fields and the id.
pub open spec fn placeholder(n: int) -> Seq<char> {
    if n == 1 {
        "$1"@
    } else if n == 2 {
        "$2"@
    } else if n == 3 {
        "$3"@
    } else if n == 4 {
        "$4"@
    } else {
        "$5"@
    }
}

/// The placeholder number each clause binds: a field's number is one more
/// than the count of set fields before it in the fixed order, and the
/// final `WHERE id` clause binds one past the last set field.
pub open spec fn email_idx(u: UpdateUser) -> int {
    1
}

pub open spec fn username_idx(u: UpdateUser) -> int {
    1 + email_set(u)
}

pub open spec fn full_name_idx(u: UpdateUser) -> int {
    1 + email_set(u) + username_set(u)
}

pub open spec fn is_active_idx(u: UpdateUser) -> int {
    1 + email_set(u) + username_set(u) + full_name_set(u)
}

pub open spec fn where_idx(u: UpdateUser) -> int {
    1 + set_field_count(u)
}

/// The placeholder numbers a patch's statement uses, in the order its
/// clauses are appended.
pub open spec fn spec_placeholder_indices(u: UpdateUser) -> Seq<int> {
    (if u.email is Some {
        seq![email_idx(u)]
    } else {
        Seq::<int>::empty()
    }) + (if u.username is Some {
        seq![username_idx(u)]
    } else {
        Seq::<int>::empty()
    }) + (if u.full_name is Some {
        seq![full_name_idx(u)]
    } else {
        Seq::<int>::empty()
    }) + (if u.is_active is Some {
        seq![is_active_idx(u)]
    } else {
        Seq::<int>::empty()
    }) + seq![where_idx(u)]
}

/// The parameter list a patch's statement binds: one value per set field in
/// the fixed order, then the target id.
pub open spec fn spec_update_params(u: UpdateUser, target_id: u128) -> Seq<SqlValueModel> {
    (match u.email {
        Some(e) => seq![SqlValueModel::Text(e@)],
        None => Seq::<SqlValueModel>::empty(),
    }) + (match u.username {
        Some(n) => seq![SqlValueModel::Text(n@)],
        None => Seq::<SqlValueModel>::empty(),
    }) + (match u.full_name {
        Some(f) => seq![SqlValueModel::Text(f@)],
        None => Seq::<SqlValueModel>::empty(),
    }) + (match u.is_active {
        Some(b) => seq![SqlValueModel::Flag(b)],
        None => Seq::<SqlValueModel>::empty(),
    }) + seq![SqlValueModel::Id(target_id)]
}

/// The statement text a patch renders to: the base clause refreshing
/// updated_at, one assignment per set field bound to its placeholder, and
/// the `WHERE id` clause bound to the last placeholder.
pub open spec fn spec_update_sql(u: UpdateUser) -> Seq<char> {
    "UPDATE users SET updated_at = NOW()"@ + (if u.email is Some {
        ", email = "@ + placeholder(email_idx(u))
    } else {
        Seq::<char>::empty()
    }) + (if u.username is Some {
        ", username = "@ + placeholder(username_idx(u))
    } else {
        Seq::<char>::empty()
    }) + (if u.full_name is Some {
        ", full_name = "@ + placeholder(full_name_idx(u))
    } else {
        Seq::<char>::empty()
    }) + (if u.is_active is Some {
        ", is_active = "@ + placeholder(is_active_idx(u))
    } else {
        Seq::<char>::empty()
    }) + " WHERE id = "@ + placeholder(where_idx(u)) + " RETURNING *"@
}

/// Law: for every patch, the statement binds exactly one parameter per set
/// field plus the target id, the id is bound last, and the placeholder
/// numbers used — clause by clause — are the contiguous run starting at 1
/// with no gap, ending at the parameter count.
pub proof fn lemma_update_statement_shape(u: UpdateUser, target_id: u128)
    ensures
        spec_update_params(u, target_id).len() == set_field_count(u) + 1,
        spec_update_params(u, target_id).last() == SqlValueModel::Id(target_id),
        spec_placeholder_indices(u).len() == set_field_count(u) + 1,
        spec_placeholder_indices(u) =~= Seq::new(
            (set_field_count(u) + 1) as nat,
            |i: int| i + 1,
        ),
{
}

/// The placeholder text for positions 1 through 5.
fn placeholder_str(n: usize) -> (r: &'static str)
    requires
        1 <= n <= 5,
    ensures
        r@ == placeholder(n as int),
{
    match n {
        1 => "$1",
        2 => "$2",
        3 => "$3",
        4 => "$4",
        _ => "$5",
    }
}

/// Build the partial-update statement for `target_id` from a sparse patch.
/// The text and the parameter list are exactly the rendering the spec
/// functions above describe; an all-unset patch yields the legal no-op that
/// still refreshes updated_at.
#[verifier::rlimit(50)]
pub fn build_update(target_id: u128, u: &UpdateUser) -> (r: ParameterizedStatement)
    ensures
        r.sql@ == spec_update_sql(*u),
        views_of(r.params@) == spec_update_params(*u, target_id),
        r.params@.len() == set_field_count(*u) + 1,
{
    let mut sql = String::from_str("UPDATE users SET updated_at = NOW()");
    let mut params: Vec<SqlValue> = Vec::new();

    let ghost sql1 = "UPDATE users SET updated_at = NOW()"@ + (match u.email {
        Some(_) => ", email = "@ + placeholder(email_idx(*u)),
        None => Seq::<char>::empty(),
    });
    let ghost prm1 = (match &u.email {
        Some(e) => seq![SqlValueModel::Text(e@)],
        None => Seq::<SqlValueModel>::empty(),
    });
    match &u.email {
        Some(e) => {
            sql.append(", email = ");
            sql.append(placeholder_str(params.len() + 1));
            params.push(SqlValue::Text(e.clone()));
        },
        None => {},
    }
    proof {
        assert(sql@ =~= sql1);
        assert(views_of(params@) =~= prm1);
        assert(params@.len() == email_set(*u));
    }

    let ghost sql2 = sql1 + (match u.username {
        Some(_) => ", username = "@ + placeholder(username_idx(*u)),
        None => Seq::<char>::empty(),
    });
    let ghost prm2 = prm1 + (match &u.username {
        Some(n) => seq![SqlValueModel::Text(n@)],
        None => Seq::<SqlValueModel>::empty(),
    });
    match &u.username {
        Some(n) => {
            sql.append(", username = ");
            sql.append(placeholder_str(params.len() + 1));
            params.push(SqlValue::Text(n.clone()));
        },
        None => {},
    }
    proof {
        assert(sql@ =~= sql2);
        assert(views_of(params@) =~= prm2);
        assert(params@.len() == email_set(*u) + username_set(*u));
    }

    let ghost sql3 = sql2 + (match u.full_name {
        Some(_) => ", full_name = "@ + placeholder(full_name_idx(*u)),
        None => Seq::<char>::empty(),
    });
    let ghost prm3 = prm2 + (match &u.full_name {
        Some(f) => seq![SqlValueModel::Text(f@)],
        None => Seq::<SqlValueModel>::empty(),
    });
    match &u.full_name {
        Some(f) => {
            sql.append(", full_name = ");
            sql.append(placeholder_str(params.len() + 1));
            params.push(SqlValue::Text(f.clone()));
        },
        None => {},
    }
    proof {
        assert(sql@ =~= sql3);
        assert(views_of(params@) =~= prm3);
        assert(params@.len() == email_set(*u) + username_set(*u) + full_name_set(*u));
    }

    let ghost sql4 = sql3 + (match u.is_active {
        Some(_) => ", is_active = "@ + placeholder(is_active_idx(*u)),
        None => Seq::<char>::empty(),
    });
    let ghost prm4 = prm3 + (match u.is_active {
        Some(b) => seq![SqlValueModel::Flag(b)],
        None => Seq::<SqlValueModel>::empty(),
    });
    match &u.is_active {
        Some(b) => {
            sql.append(", is_active = ");
            sql.append(placeholder_str(params.len() + 1));
            params.push(SqlValue::Flag(*b));
        },
        None => {},
    }
    proof {
        assert(sql@ =~= sql4);
        assert(views_of(params@) =~= prm4);
        assert(params@.len() == set_field_count(*u));
    }

    sql.append(" WHERE id = ");
    sql.append(placeholder_str(params.len() + 1));
    sql.append(" RETURNING *");
    params.push(SqlValue::Id(target_id));

    proof {
        assert(sql@ =~= spec_update_sql(*u));
        assert(views_of(params@) =~= spec_update_params(*u, target_id));
    }
    ParameterizedStatement { sql, params }
}

} // verus!
