//! The user store's rules: how the rows returned by its queries become results
//! or errors, and how a user query is checked and ordered.

use vstd::prelude::*;
use vstd::string::StringExecFns;

use crate::models::user::email_purged;
use crate::models::{Timestamp, User, UserIden, UserQuery, UserUpdate, UserWithOldState};
use crate::text::{has_substring, occurs_at, push_char};

verus! {

/// Errors of the user store.
pub enum UserError {
    NotFound(UserIden),
    AlreadyExists(UserIden),
    AlreadyDeleted(UserIden),
    IrreversiblyDeleted(UserIden),
    Database(String),
    InvalidRequest(String),
    Internal,
}

/// What the update query returned.
pub enum UpdateResult {
    /// The updated row.
    Row(User),
    /// No user with that id.
    NoRow,
    /// The new e-mail address is taken.
    UniqueViolation,
    /// Any other database failure, with its text.
    Failed(String),
}

/// A lookup by id or e-mail: deleted users count only when asked for.
pub fn lookup_outcome(found: Option<User>, iden: UserIden, include_deleted: bool) -> (r: Result<User, UserError>)
    ensures
        found is None ==> r == Err::<User, UserError>(UserError::NotFound(iden)),
        found matches Some(u) ==> (include_deleted || u.deleted_at is None ==> r == Ok::<User, UserError>(u)),
        found matches Some(u) ==> (!include_deleted && u.deleted_at is Some ==> r == Err::<User, UserError>(
            UserError::AlreadyDeleted(iden),
        )),
{
    match found {
        Some(u) => if include_deleted || u.deleted_at.is_none() {
            Ok(u)
        } else {
            Err(UserError::AlreadyDeleted(iden))
        },
        None => Err(UserError::NotFound(iden)),
    }
}

/// An insert that skips an existing address returns no row: the address is taken.
pub fn insert_outcome(created: Option<User>, email: &str) -> (r: Result<User, UserError>)
    ensures
        created matches Some(u) ==> r == Ok::<User, UserError>(u),
        created is None ==> (r matches Err(UserError::AlreadyExists(UserIden::Email(e))) && e@
            == email@),
{
    match created {
        Some(u) => Ok(u),
        None => Err(UserError::AlreadyExists(UserIden::Email(String::from_str(email)))),
    }
}

/// Soft deletion and purge: the row changes (its `edited_at` moves) only when
/// the user was not deleted already.
pub fn deletion_outcome(row: Option<UserWithOldState>, iden: UserIden) -> (r: Result<User, UserError>)
    ensures
        row is None ==> r == Err::<User, UserError>(UserError::NotFound(iden)),
        row matches Some(u) ==> (u.edited_at != u.old_edited_at ==> (r matches Ok(v) && v.id == u.id
            && v.email == u.email && v.deleted_at == u.deleted_at && v.edited_at == u.edited_at)),
        row matches Some(u) ==> (u.edited_at == u.old_edited_at ==> r == Err::<User, UserError>(
            UserError::AlreadyDeleted(iden),
        )),
{
    match row {
        Some(u) => if u.edited_at != u.old_edited_at {
            Ok(u.into_user())
        } else {
            Err(UserError::AlreadyDeleted(iden))
        },
        None => Err(UserError::NotFound(iden)),
    }
}

/// Recovery: a changed row was recovered; an unchanged one was either purged
/// (irreversibly) or not deleted at all.
pub fn recovery_outcome(row: Option<UserWithOldState>, iden: UserIden) -> (r: Result<User, UserError>)
    ensures
        row is None ==> r == Err::<User, UserError>(UserError::NotFound(iden)),
        row matches Some(u) ==> (u.edited_at != u.old_edited_at ==> (r matches Ok(v) && v.id == u.id
            && v.email == u.email && v.deleted_at == u.deleted_at && v.edited_at == u.edited_at)),
        row matches Some(u) ==> (u.edited_at == u.old_edited_at && email_purged(u.email@) ==> r
            == Err::<User, UserError>(UserError::IrreversiblyDeleted(iden))),
        row matches Some(u) ==> (u.edited_at == u.old_edited_at && !email_purged(u.email@) ==> r
            == Err::<User, UserError>(UserError::AlreadyExists(iden))),
{
    match row {
        Some(u) => if u.edited_at != u.old_edited_at {
            Ok(u.into_user())
        } else if u.has_email_purged() {
            Err(UserError::IrreversiblyDeleted(iden))
        } else {
            Err(UserError::AlreadyExists(iden))
        },
        None => Err(UserError::NotFound(iden)),
    }
}

/// Hard deletion returns the deleted row, or nothing when there was none.
pub fn hard_deletion_outcome(row: Option<User>, iden: UserIden) -> (r: Result<User, UserError>)
    ensures
        row matches Some(u) ==> r == Ok::<User, UserError>(u),
        row is None ==> r == Err::<User, UserError>(UserError::NotFound(iden)),
{
    match row {
        Some(u) => Ok(u),
        None => Err(UserError::NotFound(iden)),
    }
}

/// An update must change something.
pub fn update_precheck(update: &UserUpdate) -> (r: Result<(), UserError>)
    ensures
        update.email is None && update.password_hash is None ==> (r matches Err(
            UserError::InvalidRequest(m),
        ) && m@ == "No fields provided"@),
        update.email is Some || update.password_hash is Some ==> r is Ok,
{
    if update.is_empty() {
        Err(UserError::InvalidRequest(String::from_str("No fields provided")))
    } else {
        Ok(())
    }
}

/// The outcome of the update query: deleted users are not updated, a taken
/// address is reported when the update changed the address.
pub fn update_outcome(update: &UserUpdate, result: UpdateResult) -> (r: Result<User, UserError>)
    ensures
        result matches UpdateResult::Row(u) ==> (u.deleted_at is Some ==> r == Err::<User, UserError>(
            UserError::AlreadyDeleted(UserIden::Id(update.id)),
        )),
        result matches UpdateResult::Row(u) ==> (u.deleted_at is None ==> r == Ok::<User, UserError>(u)),
        result is NoRow ==> r == Err::<User, UserError>(UserError::NotFound(UserIden::Id(update.id))),
        result is UniqueViolation ==> (update.email matches Some(e) ==> (r matches Err(
            UserError::AlreadyExists(UserIden::Email(x)),
        ) && x@ == e@)),
        result is UniqueViolation ==> (update.email is None ==> r == Err::<User, UserError>(
            UserError::Internal,
        )),
        result matches UpdateResult::Failed(m) ==> r == Err::<User, UserError>(UserError::Database(m)),
{
    match result {
        UpdateResult::Row(u) => if u.deleted_at.is_some() {
            Err(UserError::AlreadyDeleted(UserIden::Id(update.id)))
        } else {
            Ok(u)
        },
        UpdateResult::NoRow => Err(UserError::NotFound(UserIden::Id(update.id))),
        UpdateResult::UniqueViolation => match &update.email {
            Some(e) => Err(UserError::AlreadyExists(UserIden::Email(e.clone()))),
            None => Err(UserError::Internal),
        },
        UpdateResult::Failed(m) => Err(UserError::Database(m)),
    }
}

// ---------------------------------------------------------------------------
// User queries
// ---------------------------------------------------------------------------

/// The names of the sortable columns: the query fields except pagination and
/// sorting.
pub open spec fn sortable_fields() -> Seq<&'static str> {
    seq!["id", "email", "created_at", "edited_at", "deleted_at"]
}

/// The requested sorts among the first `n` parameters, in order: each parameter
/// set to `Some(asc)` sorts by the column at the same position.
pub open spec fn active_sorts_upto(params: Seq<Option<bool>>, n: int) -> Seq<(&'static str, bool)>
    decreases n,
{
    if n <= 0 {
        seq![]
    } else {
        let r = active_sorts_upto(params, n - 1);
        match params[n - 1] {
            Some(asc) => r.push((sortable_fields()[n - 1], asc)),
            None => r,
        }
    }
}

/// The outcome of checking a user query: the requested sorts, or the reason
/// the query is refused.
pub open spec fn query_plan_spec(
    empty: bool,
    limit: Option<i64>,
    offset: Option<i64>,
    sort_by: Option<Seq<Option<bool>>>,
) -> Result<Seq<(&'static str, bool)>, Seq<char>> {
    if empty {
        Err("No fields provided"@)
    } else if limit matches Some(l) && l < 0 {
        Err("Pagination 'limit' is negative integer"@)
    } else if offset matches Some(o) && o < 0 {
        Err("Pagination 'offset' is negative integer"@)
    } else {
        match sort_by {
            Some(p) => if p.len() > 5 {
                Err("Sort parameters exceed maximum limit of 5."@)
            } else {
                Ok(active_sorts_upto(p, p.len() as int))
            },
            None => Ok(seq![]),
        }
    }
}

/// The view of an error of a query check.
pub open spec fn plan_view(r: Result<Vec<(&'static str, bool)>, UserError>) -> Result<
    Seq<(&'static str, bool)>,
    Seq<char>,
> {
    match r {
        Ok(v) => Ok(v@),
        Err(UserError::InvalidRequest(m)) => Err(m@),
        Err(_) => Err(seq![]),
    }
}

impl UserQuery {
    /// Checks the query and lists the requested sorts (column and whether
    /// ascending); no sort means newest first.
    pub fn plan(&self) -> (r: Result<Vec<(&'static str, bool)>, UserError>)
        ensures
            plan_view(r) == query_plan_spec(
                self.id is None && self.email is None && self.created_at is None && self.edited_at
                    is None && self.deleted_at is None,
                self.limit,
                self.offset,
                match &self.sort_by {
                    Some(v) => Some(v@),
                    None => None,
                },
            ),
            r is Err ==> r matches Err(UserError::InvalidRequest(_)),
    {
        if self.is_empty() {
            return Err(UserError::InvalidRequest(String::from_str("No fields provided")));
        }
        if let Some(l) = self.limit {
            if l < 0 {
                return Err(
                    UserError::InvalidRequest(
                        String::from_str("Pagination 'limit' is negative integer"),
                    ),
                );
            }
        }
        if let Some(o) = self.offset {
            if o < 0 {
                return Err(
                    UserError::InvalidRequest(
                        String::from_str("Pagination 'offset' is negative integer"),
                    ),
                );
            }
        }
        match &self.sort_by {
            None => {
                let v: Vec<(&'static str, bool)> = Vec::new();
                assert(v@ =~= Seq::<(&'static str, bool)>::empty());
                Ok(v)
            },
            Some(params) => {
                if params.len() > 5 {
                    return Err(
                        UserError::InvalidRequest(
                            String::from_str("Sort parameters exceed maximum limit of 5."),
                        ),
                    );
                }
                let names = UserQuery::fields();
                let mut out: Vec<(&'static str, bool)> = Vec::new();
                let mut i: usize = 0;
                while i < params.len()
                    invariant
                        params.len() <= 5,
                        i <= params.len(),
                        names@ == seq![
                            "id",
                            "email",
                            "created_at",
                            "edited_at",
                            "deleted_at",
                            "offset",
                            "limit",
                            "sort_by",
                        ],
                        out@ == active_sorts_upto(params@, i as int),
                    decreases params.len() - i,
                {
                    match params[i] {
                        Some(asc) => {
                            assert(names@[i as int] == sortable_fields()[i as int]);
                            out.push((names[i], asc));
                        },
                        None => {},
                    }
                    i = i + 1;
                }
                Ok(out)
            },
        }
    }
}

// ---------------------------------------------------------------------------
// The text of a user query
// ---------------------------------------------------------------------------

/// A value bound to a placeholder of a user query.
pub enum SqlParam {
    Id(u128),
    Email(String),
    Time(Timestamp),
    Count(i64),
}

/// A user query as sent to the database: its text, with placeholders `$1`,
/// `$2`, ... in order, and the values bound to them.
pub struct UserSql {
    pub text: String,
    pub params: Vec<SqlParam>,
}

/// The placeholder of the `k`-th bound value (`k` from 1 to 9).
pub open spec fn placeholder(k: nat) -> Seq<char> {
    seq!['$', (48 + k) as char]
}

/// The pieces joined by `sep`.
pub open spec fn join(pieces: Seq<Seq<char>>, sep: Seq<char>) -> Seq<char>
    decreases pieces.len(),
{
    if pieces.len() == 0 {
        seq![]
    } else if pieces.len() == 1 {
        pieces[0]
    } else {
        join(pieces.drop_last(), sep) + sep + pieces.last()
    }
}

/// Adds a condition with a bound value to the conditions and values so far.
pub open spec fn bind_condition(
    acc: (Seq<Seq<char>>, Seq<SqlParam>),
    column: Seq<char>,
    value: SqlParam,
) -> (Seq<Seq<char>>, Seq<SqlParam>) {
    (acc.0.push(column + placeholder(acc.1.len() + 1)), acc.1.push(value))
}

/// The filter conditions and their values, in order: the deletion time
/// (or, unless deleted users are included, that there is none), the id, the
/// address, and the earliest creation and edit times.
pub open spec fn conditions_of(
    deleted_at: Option<Timestamp>,
    id: Option<u128>,
    email: Option<String>,
    created_at: Option<Timestamp>,
    edited_at: Option<Timestamp>,
    include_deleted: bool,
) -> (Seq<Seq<char>>, Seq<SqlParam>) {
    let a0: (Seq<Seq<char>>, Seq<SqlParam>) = match deleted_at {
        Some(d) => bind_condition((seq![], seq![]), "deleted_at = "@, SqlParam::Time(d)),
        None => if include_deleted {
            (seq![], seq![])
        } else {
            (seq!["deleted_at IS NULL"@], seq![])
        },
    };
    let a1 = match id {
        Some(v) => bind_condition(a0, "id = "@, SqlParam::Id(v)),
        None => a0,
    };
    let a2 = match email {
        Some(e) => bind_condition(a1, "email = "@, SqlParam::Email(e)),
        None => a1,
    };
    let a3 = match created_at {
        Some(t) => bind_condition(a2, "created_at >= "@, SqlParam::Time(t)),
        None => a2,
    };
    match edited_at {
        Some(t) => bind_condition(a3, "edited_at >= "@, SqlParam::Time(t)),
        None => a3,
    }
}

/// The filter conditions of a query and their values.
pub open spec fn user_conditions(q: UserQuery, include_deleted: bool) -> (Seq<Seq<char>>, Seq<SqlParam>) {
    conditions_of(q.deleted_at, q.id, q.email, q.created_at, q.edited_at, include_deleted)
}

/// One sort term: the column, a space and the direction (`" ASC"` or
/// `" DESC"`).
pub open spec fn sort_term(s: (&'static str, bool)) -> Seq<char> {
    s.0@ + " "@ + if s.1 {
        " ASC"@
    } else {
        " DESC"@
    }
}

/// The ordering of a query: newest first without sorts, else the sorts in
/// order.
pub open spec fn order_clause(sorts: Seq<(&'static str, bool)>) -> Seq<char> {
    if sorts.len() == 0 {
        " ORDER BY created_at DESC "@
    } else {
        " ORDER BY "@ + join(sorts.map_values(|s: (&'static str, bool)| sort_term(s)), ", "@)
    }
}

/// The whole text and the bound values, given the joined conditions and
/// their values: the conditions, the ordering, then offset and limit.
pub open spec fn finish_sql(
    where_text: Seq<char>,
    p: Seq<SqlParam>,
    offset: Option<i64>,
    limit: Option<i64>,
    sorts: Seq<(&'static str, bool)>,
) -> (Seq<char>, Seq<SqlParam>) {
    let (t1, p1) = match offset {
        Some(o) => (" OFFSET "@ + placeholder(p.len() + 1), p.push(SqlParam::Count(o))),
        None => (seq![], p),
    };
    let (t2, p2) = match limit {
        Some(l) => (" LIMIT "@ + placeholder(p1.len() + 1), p1.push(SqlParam::Count(l))),
        None => (seq![], p1),
    };
    ("SELECT * FROM users WHERE "@ + where_text + order_clause(sorts) + t1 + t2, p2)
}

/// The text and the bound values of a query with the given sorts: the
/// conditions joined by `AND`, the ordering, then offset and limit.
pub open spec fn user_sql(q: UserQuery, include_deleted: bool, sorts: Seq<(&'static str, bool)>) -> (
    Seq<char>,
    Seq<SqlParam>,
) {
    let (conds, p) = user_conditions(q, include_deleted);
    finish_sql(join(conds, " AND "@), p, q.offset, q.limit, sorts)
}

proof fn lemma_conditions_len(
    deleted_at: Option<Timestamp>,
    id: Option<u128>,
    email: Option<String>,
    created_at: Option<Timestamp>,
    edited_at: Option<Timestamp>,
    include_deleted: bool,
)
    ensures
        conditions_of(deleted_at, id, email, created_at, edited_at, include_deleted).1.len() <= 5,
{
}

proof fn lemma_join_push(pieces: Seq<Seq<char>>, sep: Seq<char>, x: Seq<char>)
    ensures
        join(pieces.push(x), sep) == if pieces.len() == 0 {
            x
        } else {
            join(pieces, sep) + sep + x
        },
{
    assert(pieces.push(x).drop_last() =~= pieces);
}

/// Whether `text` holds the condition `column` followed by the placeholder
/// `$k` of a value `v` bound at position `k` of `params`.
pub open spec fn binds(text: Seq<char>, params: Seq<SqlParam>, column: Seq<char>, v: SqlParam) -> bool {
    exists|k: int|
        #![trigger params[k - 1]]
        1 <= k <= params.len() && params[k - 1] == v && has_substring(
            text,
            column + seq!['$', (48 + k) as char],
        )
}

proof fn lemma_substring_left(a: Seq<char>, b: Seq<char>, p: Seq<char>)
    requires
        has_substring(a, p),
    ensures
        has_substring(a + b, p),
{
    let i = choose|i: int| occurs_at(a, p, i);
    assert((a + b).subrange(i, i + p.len()) =~= a.subrange(i, i + p.len()));
    assert(occurs_at(a + b, p, i));
}

proof fn lemma_substring_right(a: Seq<char>, b: Seq<char>, p: Seq<char>)
    requires
        has_substring(b, p),
    ensures
        has_substring(a + b, p),
{
    let i = choose|i: int| occurs_at(b, p, i);
    assert((a + b).subrange(a.len() + i, a.len() + i + p.len()) =~= b.subrange(i, i + p.len()));
    assert(occurs_at(a + b, p, a.len() + i));
}

proof fn lemma_substring_whole(p: Seq<char>)
    ensures
        has_substring(p, p),
{
    assert(p.subrange(0, p.len() as int) =~= p);
    assert(occurs_at(p, p, 0));
}

/// Each piece occurs in the pieces joined.
proof fn lemma_join_has(pieces: Seq<Seq<char>>, sep: Seq<char>, i: int)
    requires
        0 <= i < pieces.len(),
    ensures
        has_substring(join(pieces, sep), pieces[i]),
    decreases pieces.len(),
{
    if pieces.len() == 1 {
        lemma_substring_whole(pieces[0]);
    } else {
        let init = pieces.drop_last();
        if i == pieces.len() - 1 {
            lemma_substring_whole(pieces.last());
            lemma_substring_right(join(init, sep) + sep, pieces.last(), pieces[i]);
        } else {
            lemma_join_has(init, sep, i);
            assert(init[i] == pieces[i]);
            lemma_substring_left(join(init, sep), sep, pieces[i]);
            lemma_substring_left(join(init, sep) + sep, pieces.last(), pieces[i]);
        }
    }
}

/// A condition bound at position `k` of the values stays there as more
/// conditions are bound.
proof fn lemma_bind_keeps(acc: (Seq<Seq<char>>, Seq<SqlParam>), column: Seq<char>, v: SqlParam, c: Seq<char>, k: int)
    requires
        acc.0.contains(c),
        1 <= k <= acc.1.len(),
    ensures
        bind_condition(acc, column, v).0.contains(c),
        bind_condition(acc, column, v).1[k - 1] == acc.1[k - 1],
        bind_condition(acc, column, v).1.len() == acc.1.len() + 1,
{
    let i = choose|i: int| 0 <= i < acc.0.len() && acc.0[i] == c;
    assert(bind_condition(acc, column, v).0[i] == c);
}

/// Whether `conds` holds the condition `column` followed by the placeholder
/// `$k` of a value `v` bound at position `k` of `params`.
pub open spec fn cond_binds(conds: Seq<Seq<char>>, params: Seq<SqlParam>, column: Seq<char>, v: SqlParam) -> bool {
    exists|k: int|
        #![trigger params[k - 1]]
        1 <= k <= params.len() && params[k - 1] == v && conds.contains(column + seq!['$', (48 + k) as char])
}

/// The condition a binding adds is bound to its value.
proof fn lemma_bind_binds(acc: (Seq<Seq<char>>, Seq<SqlParam>), column: Seq<char>, v: SqlParam)
    ensures
        cond_binds(bind_condition(acc, column, v).0, bind_condition(acc, column, v).1, column, v),
{
    let r = bind_condition(acc, column, v);
    let k = r.1.len() as int;
    assert(r.0[r.0.len() - 1] == column + seq!['$', (48 + k) as char]);
    assert(r.1[k - 1] == v);
}

/// Binding more conditions keeps every condition bound so far.
proof fn lemma_bind_preserves(acc: (Seq<Seq<char>>, Seq<SqlParam>), column: Seq<char>, v: SqlParam, c2: Seq<char>, v2: SqlParam)
    requires
        cond_binds(acc.0, acc.1, c2, v2),
    ensures
        cond_binds(bind_condition(acc, column, v).0, bind_condition(acc, column, v).1, c2, v2),
{
    let r = bind_condition(acc, column, v);
    let k = choose|k: int|
        #![trigger acc.1[k - 1]]
        1 <= k <= acc.1.len() && acc.1[k - 1] == v2 && acc.0.contains(c2 + seq!['$', (48 + k) as char]);
    let c = c2 + seq!['$', (48 + k) as char];
    let i = choose|i: int| 0 <= i < acc.0.len() && acc.0[i] == c;
    assert(r.0[i] == c);
    assert(r.1[k - 1] == v2);
}

/// Each filter of a query becomes a condition bound to its value, and
/// without a deletion time or `include_deleted` the conditions ask for users
/// that are not deleted.
proof fn lemma_conditions_bind(
    deleted_at: Option<Timestamp>,
    id: Option<u128>,
    email: Option<String>,
    created_at: Option<Timestamp>,
    edited_at: Option<Timestamp>,
    include_deleted: bool,
)
    ensures
        ({
            let (conds, params) = conditions_of(deleted_at, id, email, created_at, edited_at, include_deleted);
            &&& (deleted_at matches Some(d) ==> cond_binds(conds, params, "deleted_at = "@, SqlParam::Time(d)))
            &&& (deleted_at is None && !include_deleted ==> conds.contains("deleted_at IS NULL"@))
            &&& (id matches Some(v) ==> cond_binds(conds, params, "id = "@, SqlParam::Id(v)))
            &&& (email matches Some(e) ==> cond_binds(conds, params, "email = "@, SqlParam::Email(e)))
            &&& (created_at matches Some(t) ==> cond_binds(conds, params, "created_at >= "@, SqlParam::Time(t)))
            &&& (edited_at matches Some(t) ==> cond_binds(conds, params, "edited_at >= "@, SqlParam::Time(t)))
        }),
{
    let a0: (Seq<Seq<char>>, Seq<SqlParam>) = match deleted_at {
        Some(d) => bind_condition((seq![], seq![]), "deleted_at = "@, SqlParam::Time(d)),
        None => if include_deleted {
            (seq![], seq![])
        } else {
            (seq!["deleted_at IS NULL"@], seq![])
        },
    };
    let a1 = match id {
        Some(v) => bind_condition(a0, "id = "@, SqlParam::Id(v)),
        None => a0,
    };
    let a2 = match email {
        Some(e) => bind_condition(a1, "email = "@, SqlParam::Email(e)),
        None => a1,
    };
    let a3 = match created_at {
        Some(t) => bind_condition(a2, "created_at >= "@, SqlParam::Time(t)),
        None => a2,
    };
    let a4 = match edited_at {
        Some(w) => bind_condition(a3, "edited_at >= "@, SqlParam::Time(w)),
        None => a3,
    };
    if let Some(d) = deleted_at {
        lemma_bind_binds((seq![], seq![]), "deleted_at = "@, SqlParam::Time(d));
        lemma_carry(id, email, created_at, edited_at, a0, "deleted_at = "@, SqlParam::Time(d));
    }
    if deleted_at is None && !include_deleted {
        let c = "deleted_at IS NULL"@;
        assert(a0.0[0] == c);
        assert(a1.0[0] == c);
        assert(a2.0[0] == c);
        assert(a3.0[0] == c);
        assert(a4.0[0] == c);
        assert(a4.0.contains(c));
    }
    if let Some(v) = id {
        lemma_bind_binds(a0, "id = "@, SqlParam::Id(v));
        lemma_carry(None, email, created_at, edited_at, a1, "id = "@, SqlParam::Id(v));
    }
    if let Some(e) = email {
        lemma_bind_binds(a1, "email = "@, SqlParam::Email(e));
        lemma_carry(None, None, created_at, edited_at, a2, "email = "@, SqlParam::Email(e));
    }
    if let Some(t) = created_at {
        lemma_bind_binds(a2, "created_at >= "@, SqlParam::Time(t));
        lemma_carry(None, None, None, edited_at, a3, "created_at >= "@, SqlParam::Time(t));
    }
    if let Some(t) = edited_at {
        lemma_bind_binds(a3, "edited_at >= "@, SqlParam::Time(t));
    }
}

/// The later stages of `conditions_of` keep a condition already bound.
proof fn lemma_carry(
    id: Option<u128>,
    email: Option<String>,
    created_at: Option<Timestamp>,
    edited_at: Option<Timestamp>,
    a: (Seq<Seq<char>>, Seq<SqlParam>),
    c: Seq<char>,
    v: SqlParam,
)
    requires
        cond_binds(a.0, a.1, c, v),
    ensures
        ({
            let a1 = match id {
                Some(x) => bind_condition(a, "id = "@, SqlParam::Id(x)),
                None => a,
            };
            let a2 = match email {
                Some(e) => bind_condition(a1, "email = "@, SqlParam::Email(e)),
                None => a1,
            };
            let a3 = match created_at {
                Some(t) => bind_condition(a2, "created_at >= "@, SqlParam::Time(t)),
                None => a2,
            };
            let a4 = match edited_at {
                Some(w) => bind_condition(a3, "edited_at >= "@, SqlParam::Time(w)),
                None => a3,
            };
            cond_binds(a4.0, a4.1, c, v)
        }),
{
    let a1 = match id {
        Some(x) => bind_condition(a, "id = "@, SqlParam::Id(x)),
        None => a,
    };
    if let Some(x) = id {
        lemma_bind_preserves(a, "id = "@, SqlParam::Id(x), c, v);
    }
    let a2 = match email {
        Some(e) => bind_condition(a1, "email = "@, SqlParam::Email(e)),
        None => a1,
    };
    if let Some(e) = email {
        lemma_bind_preserves(a1, "email = "@, SqlParam::Email(e), c, v);
    }
    let a3 = match created_at {
        Some(t) => bind_condition(a2, "created_at >= "@, SqlParam::Time(t)),
        None => a2,
    };
    if let Some(t) = created_at {
        lemma_bind_preserves(a2, "created_at >= "@, SqlParam::Time(t), c, v);
    }
    if let Some(t) = edited_at {
        lemma_bind_preserves(a3, "edited_at >= "@, SqlParam::Time(t), c, v);
    }
}

/// The text of a query holds each of its conditions, and its values begin
/// with those of the conditions.
proof fn lemma_user_sql_carries(q: UserQuery, include_deleted: bool, sorts: Seq<(&'static str, bool)>)
    ensures
        ({
            let (conds, p) = user_conditions(q, include_deleted);
            let (text, params) = user_sql(q, include_deleted, sorts);
            &&& forall|c: Seq<char>| #[trigger] conds.contains(c) ==> has_substring(text, c)
            &&& p.len() <= params.len()
            &&& forall|k: int| 0 <= k < p.len() ==> #[trigger] params[k] == p[k]
        }),
{
    let (conds, p) = user_conditions(q, include_deleted);
    let (text, params) = user_sql(q, include_deleted, sorts);
    let w = join(conds, " AND "@);
    let (t1, p1) = match q.offset {
        Some(o) => (" OFFSET "@ + placeholder(p.len() + 1), p.push(SqlParam::Count(o))),
        None => (seq![], p),
    };
    let (t2, p2) = match q.limit {
        Some(l) => (" LIMIT "@ + placeholder(p1.len() + 1), p1.push(SqlParam::Count(l))),
        None => (seq![], p1),
    };
    let head = "SELECT * FROM users WHERE "@;
    let rest = order_clause(sorts) + t1 + t2;
    assert(text =~= head + (w + rest));
    assert(params == p2);
    assert forall|c: Seq<char>| #[trigger] conds.contains(c) implies has_substring(text, c) by {
        let i = choose|i: int| 0 <= i < conds.len() && conds[i] == c;
        lemma_join_has(conds, " AND "@, i);
        lemma_substring_left(w, rest, c);
        lemma_substring_right(head, w + rest, c);
    }
    assert forall|k: int| 0 <= k < p.len() implies #[trigger] params[k] == p[k] by {
        assert(p1[k] == p[k]);
        assert(p2[k] == p1[k]);
    }
}

/// What a user query filters on: each filter given becomes a condition of
/// the query's text with its column and comparison (`deleted_at = `, `id = `,
/// `email = `, `created_at >= `, `edited_at >= `, so the times are lower
/// bounds) followed by the placeholder of the value bound for it, and
/// without a deletion time or `include_deleted` the text asks for users that
/// are not deleted.
pub proof fn lemma_user_sql_filters(q: UserQuery, include_deleted: bool, sorts: Seq<(&'static str, bool)>)
    ensures
        ({
            let (text, params) = user_sql(q, include_deleted, sorts);
            &&& (q.deleted_at matches Some(d) ==> binds(text, params, "deleted_at = "@, SqlParam::Time(d)))
            &&& (q.deleted_at is None && !include_deleted ==> has_substring(text, "deleted_at IS NULL"@))
            &&& (q.id matches Some(v) ==> binds(text, params, "id = "@, SqlParam::Id(v)))
            &&& (q.email matches Some(e) ==> binds(text, params, "email = "@, SqlParam::Email(e)))
            &&& (q.created_at matches Some(t) ==> binds(text, params, "created_at >= "@, SqlParam::Time(t)))
            &&& (q.edited_at matches Some(t) ==> binds(text, params, "edited_at >= "@, SqlParam::Time(t)))
        }),
{
    lemma_conditions_bind(q.deleted_at, q.id, q.email, q.created_at, q.edited_at, include_deleted);
    lemma_user_sql_carries(q, include_deleted, sorts);
    let (conds, p) = user_conditions(q, include_deleted);
    let (text, params) = user_sql(q, include_deleted, sorts);
    if let Some(d) = q.deleted_at {
        lemma_lift_binds(conds, p, text, params, "deleted_at = "@, SqlParam::Time(d));
    }
    if let Some(v) = q.id {
        lemma_lift_binds(conds, p, text, params, "id = "@, SqlParam::Id(v));
    }
    if let Some(e) = q.email {
        lemma_lift_binds(conds, p, text, params, "email = "@, SqlParam::Email(e));
    }
    if let Some(t) = q.created_at {
        lemma_lift_binds(conds, p, text, params, "created_at >= "@, SqlParam::Time(t));
    }
    if let Some(t) = q.edited_at {
        lemma_lift_binds(conds, p, text, params, "edited_at >= "@, SqlParam::Time(t));
    }
}

proof fn lemma_lift_binds(
    conds: Seq<Seq<char>>,
    p: Seq<SqlParam>,
    text: Seq<char>,
    params: Seq<SqlParam>,
    column: Seq<char>,
    v: SqlParam,
)
    requires
        cond_binds(conds, p, column, v),
        forall|c: Seq<char>| #[trigger] conds.contains(c) ==> has_substring(text, c),
        p.len() <= params.len(),
        forall|k: int| 0 <= k < p.len() ==> #[trigger] params[k] == p[k],
    ensures
        binds(text, params, column, v),
{
    let k = choose|k: int|
        #![trigger p[k - 1]]
        1 <= k <= p.len() && p[k - 1] == v && conds.contains(column + seq!['$', (48 + k) as char]);
    assert(params[k - 1] == p[k - 1]);
    assert(has_substring(text, column + seq!['$', (48 + k) as char]));
}

/// Appends the placeholder of the `k`-th value.
fn push_placeholder(text: &mut String, k: usize)
    requires
        1 <= k <= 9,
    ensures
        final(text)@ == old(text)@ + placeholder(k as nat),
{
    push_char(text, '$');
    let d = (48 + k) as u8 as char;
    push_char(text, d);
    assert(final(text)@ =~= old(text)@ + placeholder(k as nat));
}

/// Adds a condition with its bound value to the `AND`-joined conditions
/// (`count` of them so far).
fn bind_step(
    text: &mut String,
    params: &mut Vec<SqlParam>,
    count: usize,
    column: &str,
    value: SqlParam,
    Ghost(conds): Ghost<Seq<Seq<char>>>,
) -> (next: Ghost<Seq<Seq<char>>>)
    requires
        old(params)@.len() < 9,
        count == conds.len(),
        old(text)@ == join(conds, " AND "@),
    ensures
        (next@, final(params)@) == bind_condition((conds, old(params)@), column@, value),
        final(text)@ == join(next@, " AND "@),
{
    let k = params.len() + 1;
    let ghost piece = column@ + placeholder(k as nat);
    proof {
        lemma_join_push(conds, " AND "@, piece);
    }
    if count > 0 {
        text.append(" AND ");
    }
    text.append(column);
    push_placeholder(text, k);
    params.push(value);
    assert(final(text)@ =~= join(conds.push(piece), " AND "@));
    Ghost(conds.push(piece))
}

/// The `AND`-joined filter conditions and their values.
fn conditions_text(
    deleted_at: Option<Timestamp>,
    id: Option<u128>,
    email: Option<String>,
    created_at: Option<Timestamp>,
    edited_at: Option<Timestamp>,
    include_deleted: bool,
) -> (r: (String, Vec<SqlParam>))
    ensures
        r.0@ == join(conditions_of(deleted_at, id, email, created_at, edited_at, include_deleted).0, " AND "@),
        r.1@ == conditions_of(deleted_at, id, email, created_at, edited_at, include_deleted).1,
{
    let mut text = String::new();
    let mut params: Vec<SqlParam> = Vec::new();
    let mut count: usize = 0;
    let ghost mut conds: Seq<Seq<char>> = seq![];
    assert(text@ =~= join(conds, " AND "@));
    match deleted_at {
        Some(d) => {
            let g = bind_step(&mut text, &mut params, count, "deleted_at = ", SqlParam::Time(d), Ghost(conds));
            proof {
                conds = g@;
            }
            count = 1;
        },
        None => {
            if !include_deleted {
                text.append("deleted_at IS NULL");
                proof {
                    conds = conds.push("deleted_at IS NULL"@);
                    assert(join(conds, " AND "@) == "deleted_at IS NULL"@);
                }
                count = 1;
            }
        },
    }
    let ghost a0 = (conds, params@);
    match id {
        Some(v) => {
            let g = bind_step(&mut text, &mut params, count, "id = ", SqlParam::Id(v), Ghost(conds));
            proof {
                conds = g@;
            }
            count = count + 1;
        },
        None => {},
    }
    let ghost a1 = (conds, params@);
    match email {
        Some(v) => {
            let g = bind_step(&mut text, &mut params, count, "email = ", SqlParam::Email(v), Ghost(conds));
            proof {
                conds = g@;
            }
            count = count + 1;
        },
        None => {},
    }
    let ghost a2 = (conds, params@);
    match created_at {
        Some(v) => {
            let g = bind_step(&mut text, &mut params, count, "created_at >= ", SqlParam::Time(v), Ghost(conds));
            proof {
                conds = g@;
            }
            count = count + 1;
        },
        None => {},
    }
    match edited_at {
        Some(v) => {
            let g = bind_step(&mut text, &mut params, count, "edited_at >= ", SqlParam::Time(v), Ghost(conds));
            proof {
                conds = g@;
            }
        },
        None => {},
    }
    (text, params)
}

/// The ordering clause for the given sorts.
fn order_text(sorts: &Vec<(&'static str, bool)>) -> (r: String)
    ensures
        r@ == order_clause(sorts@),
{
    if sorts.len() == 0 {
        return String::from_str(" ORDER BY created_at DESC ");
    }
    let mut full = String::from_str(" ORDER BY ");
    let ghost base = full@;
    let mut i: usize = 0;
    assert(sorts@.take(0).map_values(|s: (&'static str, bool)| sort_term(s)) =~= Seq::<Seq<char>>::empty());
    assert(full@ =~= base + join(sorts@.take(0).map_values(|s: (&'static str, bool)| sort_term(s)), ", "@));
    while i < sorts.len()
        invariant
            i <= sorts.len(),
            base == " ORDER BY "@,
            full@ == base + join(sorts@.take(i as int).map_values(|s: (&'static str, bool)| sort_term(s)), ", "@),
        decreases sorts.len() - i,
    {
        let ghost terms = sorts@.take(i as int).map_values(|s: (&'static str, bool)| sort_term(s));
        proof {
            lemma_join_push(terms, ", "@, sort_term(sorts@[i as int]));
            assert(sorts@.take(i + 1).map_values(|s: (&'static str, bool)| sort_term(s)) =~= terms.push(
                sort_term(sorts@[i as int]),
            ));
        }
        if i > 0 {
            full.append(", ");
        }
        let (col, asc) = sorts[i];
        full.append(col);
        full.append(" ");
        if asc {
            full.append(" ASC");
        } else {
            full.append(" DESC");
        }
        proof {
            assert(full@ =~= base + join(terms.push(sort_term(sorts@[i as int])), ", "@));
        }
        i = i + 1;
    }
    assert(sorts@.take(sorts.len() as int) =~= sorts@);
    full
}

/// Appends the ordering, offset and limit to the conditions.
fn finish_text(
    where_text: String,
    params: Vec<SqlParam>,
    offset: Option<i64>,
    limit: Option<i64>,
    sorts: &Vec<(&'static str, bool)>,
) -> (r: UserSql)
    requires
        params@.len() <= 5,
    ensures
        (r.text@, r.params@) == finish_sql(where_text@, params@, offset, limit, sorts@),
{
    let mut params = params;
    let mut full = String::from_str("SELECT * FROM users WHERE ");
    full.append(where_text.as_str());
    let order = order_text(sorts);
    full.append(order.as_str());
    match offset {
        Some(o) => {
            full.append(" OFFSET ");
            push_placeholder(&mut full, params.len() + 1);
            params.push(SqlParam::Count(o));
        },
        None => {},
    }
    match limit {
        Some(l) => {
            full.append(" LIMIT ");
            push_placeholder(&mut full, params.len() + 1);
            params.push(SqlParam::Count(l));
        },
        None => {},
    }
    UserSql { text: full, params }
}

impl UserQuery {
    /// The query listing the users that match: the same checks as `plan`,
    /// then the text with its bound values. Deleted users are left out unless
    /// a deletion time is asked for or `include_deleted` is set. The ordering
    /// comes before `OFFSET` and `LIMIT`, as SQL requires: written after them,
    /// a paged query would be refused by the database.
    pub fn into_sql(self, include_deleted: bool) -> (r: Result<UserSql, UserError>)
        ensures
            match query_plan_spec(
                self.id is None && self.email is None && self.created_at is None && self.edited_at
                    is None && self.deleted_at is None,
                self.limit,
                self.offset,
                match self.sort_by {
                    Some(v) => Some(v@),
                    None => None,
                },
            ) {
                Err(m) => r matches Err(UserError::InvalidRequest(e)) && e@ == m,
                Ok(sorts) => r matches Ok(s) && (s.text@, s.params@) == user_sql(self, include_deleted, sorts),
            },
    {
        let sorts = match self.plan() {
            Ok(v) => v,
            Err(e) => {
                return Err(e);
            },
        };
        let UserQuery { id, email, created_at, edited_at, deleted_at, offset, limit, sort_by: _ } = self;
        proof {
            lemma_conditions_len(deleted_at, id, email, created_at, edited_at, include_deleted);
        }
        let (where_text, params) = conditions_text(deleted_at, id, email, created_at, edited_at, include_deleted);
        Ok(finish_text(where_text, params, offset, limit, &sorts))
    }
}

} // verus!
