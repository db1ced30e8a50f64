use vstd::prelude::*;

use crate::error::DbServiceError;
use crate::model::RedirectDTO;
use crate::repo::{lists, Table};
use crate::service::{
    admissible_table, alias_admissible, alias_violations, create_outcome, delete_outcome,
    read_outcome, rejected, update_outcome, url_admissible, url_violations, FIELD_ALIAS, FIELD_URL,
};
use crate::validator::{has_space, has_web_scheme, PayloadValidator};

verus! {

/// An alias breaks a rule exactly when some message reports it.
pub proof fn lemma_alias_violations_empty(a: Seq<char>)
    ensures
        alias_admissible(a) <==> alias_violations(a).len() == 0,
{
}

/// An address breaks a rule exactly when some message reports it.
pub proof fn lemma_url_violations_empty(u: Seq<char>)
    ensures
        url_admissible(u) <==> url_violations(u).len() == 0,
{
}

/// Creating, updating and deleting keep every record of the table admissible.
pub proof fn lemma_writes_keep_table_admissible(
    t: Table,
    rec: (Seq<char>, Seq<char>),
    created: Result<(), DbServiceError>,
    after_create: Table,
    url: Seq<char>,
    updated: Result<(), DbServiceError>,
    after_update: Table,
    deleted: Result<(), DbServiceError>,
    after_delete: Table,
)
    requires
        admissible_table(t),
        create_outcome(t, rec, created, after_create),
        update_outcome(t, rec.0, url, updated, after_update),
        delete_outcome(t, rec.0, deleted, after_delete),
    ensures
        admissible_table(after_create),
        admissible_table(after_update),
        admissible_table(after_delete),
{
}

/// A create with an alias that is empty, longer than 50 characters or holds a character
/// outside `[A-Za-z0-9_-]` is refused on the alias, with every rule it breaks, and leaves
/// no record of that alias.
pub proof fn lemma_invalid_alias_refused(
    t0: Table,
    alias: Seq<char>,
    url: Seq<char>,
    r: Result<(), DbServiceError>,
    t1: Table,
)
    requires
        admissible_table(t0),
        !alias_admissible(alias),
        create_outcome(t0, (alias, url), r, t1),
    ensures
        rejected(r, FIELD_ALIAS@, alias_violations(alias)),
        alias_violations(alias).len() > 0,
        !t1.contains_key(alias),
{
}

/// An address that does not start with `http://` or `https://`, or holds whitespace, is
/// refused on the address by create (for an admissible alias) and by update, with the
/// scheme message among the reasons, and neither changes the table.
pub proof fn lemma_invalid_url_refused(
    t0: Table,
    alias: Seq<char>,
    url: Seq<char>,
    created: Result<(), DbServiceError>,
    after_create: Table,
    updated: Result<(), DbServiceError>,
    after_update: Table,
)
    requires
        !has_web_scheme(url) || has_space(url),
        alias_admissible(alias),
        create_outcome(t0, (alias, url), created, after_create),
        update_outcome(t0, alias, url, updated, after_update),
    ensures
        rejected(created, FIELD_URL@, url_violations(url)),
        rejected(updated, FIELD_URL@, url_violations(url)),
        url_violations(url).last() == PayloadValidator::ERR_URL_SCHEMA@,
        after_create == t0,
        after_update == t0,
{
}

/// After a successful create, reading the alias gives back exactly the record created,
/// unless the backend fails.
pub proof fn lemma_create_then_read(
    t0: Table,
    alias: Seq<char>,
    url: Seq<char>,
    t1: Table,
    r: Result<RedirectDTO, DbServiceError>,
)
    requires
        create_outcome(t0, (alias, url), Ok(()), t1),
        read_outcome(t1, alias, r),
    ensures
        r is Ok || r matches Err(DbServiceError::DatabaseError(_)),
        r matches Ok(d) ==> d@ == (alias, url),
{
}

/// Two reads of one alias with no write between them give the same answer, unless the
/// backend fails.
pub proof fn lemma_read_twice(
    t: Table,
    alias: Seq<char>,
    r1: Result<RedirectDTO, DbServiceError>,
    r2: Result<RedirectDTO, DbServiceError>,
)
    requires
        read_outcome(t, alias, r1),
        read_outcome(t, alias, r2),
        !(r1 matches Err(DbServiceError::DatabaseError(_))),
        !(r2 matches Err(DbServiceError::DatabaseError(_))),
    ensures
        r1 is Ok <==> r2 is Ok,
        r1 matches Ok(d1) ==> (r2 matches Ok(d2) && d1@ == d2@),
        r1 is Err ==> (r1 matches Err(DbServiceError::NotFoundError)) && (r2 matches Err(
            DbServiceError::NotFoundError,
        )),
{
}

/// Of two creates of one alias, one after the other, at most one succeeds. When the alias
/// was free, both records admissible and the backend did not fail, the first succeeds and
/// the second is refused as a conflict. A listing of the table afterwards holds the alias
/// at most once, and exactly once if either create succeeded.
pub proof fn lemma_create_same_alias_twice(
    t0: Table,
    alias: Seq<char>,
    url1: Seq<char>,
    url2: Seq<char>,
    r1: Result<(), DbServiceError>,
    t1: Table,
    r2: Result<(), DbServiceError>,
    t2: Table,
    rows: Seq<(Seq<char>, Seq<char>)>,
)
    requires
        create_outcome(t0, (alias, url1), r1, t1),
        create_outcome(t1, (alias, url2), r2, t2),
    ensures
        !(r1 is Ok && r2 is Ok),
        alias_admissible(alias) && url_admissible(url1) && url_admissible(url2)
            && !t0.contains_key(alias) && !(r1 matches Err(DbServiceError::DatabaseError(_)))
            && !(r2 matches Err(DbServiceError::DatabaseError(_))) ==> r1 is Ok && r2 matches Err(
            DbServiceError::ConflictError,
        ),
        r1 is Ok ==> t2 == t1 && t2[alias] == url1,
        lists(rows, t2) ==> forall|i: int, j: int|
            0 <= i < rows.len() && 0 <= j < rows.len() && rows[i].0 == alias && rows[j].0 == alias
                ==> i == j,
        lists(rows, t2) && (r1 is Ok || r2 is Ok) ==> exists|i: int|
            0 <= i < rows.len() && rows[i].0 == alias,
{
    if lists(rows, t2) {
        assert forall|i: int, j: int|
            0 <= i < rows.len() && 0 <= j < rows.len() && rows[i].0 == alias && rows[j].0
                == alias implies i == j by {
            if i < j {
                assert(rows[i].0 != rows[j].0);
            } else if j < i {
                assert(rows[j].0 != rows[i].0);
            }
        }
        if r1 is Ok || r2 is Ok {
            assert(t2.contains_key(alias));
        }
    }
}

/// After a delete that the backend carried out, reading the alias finds nothing.
pub proof fn lemma_delete_then_read(
    t0: Table,
    alias: Seq<char>,
    r1: Result<(), DbServiceError>,
    t1: Table,
    r2: Result<RedirectDTO, DbServiceError>,
)
    requires
        delete_outcome(t0, alias, r1, t1),
        !(r1 matches Err(DbServiceError::DatabaseError(_))),
        read_outcome(t1, alias, r2),
    ensures
        !t1.contains_key(alias),
        r2 is Err,
        !(r2 matches Err(DbServiceError::DatabaseError(_))) ==> r2 matches Err(
            DbServiceError::NotFoundError,
        ),
{
}

/// Updating an alias that has no record never succeeds and creates no record; with an
/// admissible address it reports that nothing was found, unless the backend fails.
pub proof fn lemma_update_missing(
    t0: Table,
    alias: Seq<char>,
    url: Seq<char>,
    r: Result<(), DbServiceError>,
    t1: Table,
)
    requires
        !t0.contains_key(alias),
        update_outcome(t0, alias, url, r, t1),
    ensures
        r is Err,
        t1 == t0,
        url_admissible(url) && !(r matches Err(DbServiceError::DatabaseError(_))) ==> r matches Err(
            DbServiceError::NotFoundError,
        ),
{
}

} // verus!
