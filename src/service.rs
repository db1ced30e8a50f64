use vstd::prelude::*;

use crate::error::DbServiceError;
use crate::model::{rows_of, RedirectDTO, RedirectListDTO, UpdateUrlDTO};
use crate::repo::{lists, RedirectRepo, Table};
use crate::validator::{all_alias_chars, has_space, has_web_scheme, texts, PayloadValidator};

verus! {

pub const FIELD_ALIAS: &'static str = "alias";

pub const FIELD_URL: &'static str = "url";

pub const ALIAS_MAX_LENGTH: usize = 50;

pub const URL_MAX_LENGTH: usize = 2048;

/// The message `m` if `failed`, else nothing.
pub open spec fn reported(failed: bool, m: Seq<char>) -> Seq<Seq<char>> {
    if failed {
        seq![m]
    } else {
        Seq::empty()
    }
}

/// Whether `a` may name a redirect: 1 to 50 characters out of `[A-Za-z0-9_-]`.
pub open spec fn alias_admissible(a: Seq<char>) -> bool {
    0 < a.len() <= ALIAS_MAX_LENGTH && all_alias_chars(a)
}

/// Whether `u` may be a target: 1 to 2048 characters, starting with `http://` or
/// `https://`, with no whitespace.
pub open spec fn url_admissible(u: Seq<char>) -> bool {
    0 < u.len() <= URL_MAX_LENGTH && has_web_scheme(u) && !has_space(u)
}

/// The messages for the rules on aliases that `a` breaks, in the order they are checked.
pub open spec fn alias_violations(a: Seq<char>) -> Seq<Seq<char>> {
    reported(a.len() == 0, PayloadValidator::ERR_EMPTY@) + reported(
        a.len() > ALIAS_MAX_LENGTH,
        PayloadValidator::max_length_message(ALIAS_MAX_LENGTH as nat),
    ) + reported(!all_alias_chars(a), PayloadValidator::ERR_ALPHANUMERIC@)
}

/// The messages for the rules on target addresses that `u` breaks, in the order they are checked.
pub open spec fn url_violations(u: Seq<char>) -> Seq<Seq<char>> {
    reported(u.len() == 0, PayloadValidator::ERR_EMPTY@) + reported(
        u.len() > URL_MAX_LENGTH,
        PayloadValidator::max_length_message(URL_MAX_LENGTH as nat),
    ) + reported(!has_web_scheme(u) || has_space(u), PayloadValidator::ERR_URL_SCHEMA@)
}

/// `r` refuses the value of `field` with the messages `msgs`.
pub open spec fn rejected<T>(
    r: Result<T, DbServiceError>,
    field: Seq<char>,
    msgs: Seq<Seq<char>>,
) -> bool {
    r matches Err(DbServiceError::PayloadValidationError(f, m)) && f@ == field && texts(m@) == msgs
}

/// Whether every record of `t` has an admissible alias and target.
pub open spec fn admissible_table(t: Table) -> bool {
    forall|a: Seq<char>|
        #[trigger] t.contains_key(a) ==> alias_admissible(a) && url_admissible(t[a])
}

/// What reading the record of `alias` from `t` may give.
pub open spec fn read_outcome(
    t: Table,
    alias: Seq<char>,
    r: Result<RedirectDTO, DbServiceError>,
) -> bool {
    match r {
        Ok(d) => t.contains_key(alias) && d@ == (alias, t[alias]),
        Err(DbServiceError::NotFoundError) => !t.contains_key(alias),
        Err(DbServiceError::DatabaseError(_)) => true,
        Err(_) => false,
    }
}

/// What reading every record of `t` may give.
pub open spec fn list_outcome(t: Table, r: Result<RedirectListDTO, DbServiceError>) -> bool {
    match r {
        Ok(l) => lists(rows_of(l.redirects@), t),
        Err(DbServiceError::DatabaseError(_)) => true,
        Err(_) => false,
    }
}

/// What creating `rec` in `t0` may give, with the table `t1` it leaves.
pub open spec fn create_outcome(
    t0: Table,
    rec: (Seq<char>, Seq<char>),
    r: Result<(), DbServiceError>,
    t1: Table,
) -> bool {
    if !alias_admissible(rec.0) {
        t1 == t0 && rejected(r, FIELD_ALIAS@, alias_violations(rec.0))
    } else if !url_admissible(rec.1) {
        t1 == t0 && rejected(r, FIELD_URL@, url_violations(rec.1))
    } else {
        match r {
            Ok(()) => !t0.contains_key(rec.0) && t1 == t0.insert(rec.0, rec.1),
            Err(DbServiceError::ConflictError) => t0.contains_key(rec.0) && t1 == t0,
            Err(DbServiceError::DatabaseError(_)) => t1 == t0,
            Err(_) => false,
        }
    }
}

/// What deleting the record of `alias` from `t0` may give, with the table `t1` it leaves.
pub open spec fn delete_outcome(
    t0: Table,
    alias: Seq<char>,
    r: Result<(), DbServiceError>,
    t1: Table,
) -> bool {
    match r {
        Ok(()) => t0.contains_key(alias) && t1 == t0.remove(alias),
        Err(DbServiceError::NotFoundError) => !t0.contains_key(alias) && t1 == t0,
        Err(DbServiceError::DatabaseError(_)) => t1 == t0,
        Err(_) => false,
    }
}

/// What pointing the record of `alias` in `t0` at `url` may give, with the table `t1` it leaves.
pub open spec fn update_outcome(
    t0: Table,
    alias: Seq<char>,
    url: Seq<char>,
    r: Result<(), DbServiceError>,
    t1: Table,
) -> bool {
    if !url_admissible(url) {
        t1 == t0 && rejected(r, FIELD_URL@, url_violations(url))
    } else {
        match r {
            Ok(()) => t0.contains_key(alias) && t1 == t0.insert(alias, url),
            Err(DbServiceError::NotFoundError) => !t0.contains_key(alias) && t1 == t0,
            Err(DbServiceError::DatabaseError(_)) => t1 == t0,
            Err(_) => false,
        }
    }
}

/// The redirect store: validated operations over one table of records keyed by alias.
pub trait RedirectService {
    /// The records the store holds.
    spec fn table(&self) -> Table;

    /// The store's own consistency.
    spec fn inv(&self) -> bool;

    fn get_redirect(&self, alias: &str) -> (r: Result<RedirectDTO, DbServiceError>)
        requires
            self.inv(),
        ensures
            read_outcome(self.table(), alias@, r),
    ;

    fn create_redirect(&mut self, redirect: &RedirectDTO) -> (r: Result<(), DbServiceError>)
        requires
            old(self).inv(),
        ensures
            final(self).inv(),
            create_outcome(old(self).table(), redirect@, r, final(self).table()),
    ;

    fn get_all_redirects(&self) -> (r: Result<RedirectListDTO, DbServiceError>)
        requires
            self.inv(),
        ensures
            list_outcome(self.table(), r),
    ;

    fn delete_redirect(&mut self, alias: &str) -> (r: Result<(), DbServiceError>)
        requires
            old(self).inv(),
        ensures
            final(self).inv(),
            delete_outcome(old(self).table(), alias@, r, final(self).table()),
    ;

    fn update_redirect(
        &mut self,
        alias: &str,
        redirect: &UpdateUrlDTO,
    ) -> (r: Result<(), DbServiceError>)
        requires
            old(self).inv(),
        ensures
            final(self).inv(),
            update_outcome(old(self).table(), alias@, redirect.url@, r, final(self).table()),
    ;
}

/// The store over a backend `R`.
pub struct RedirectServiceImpl<R: RedirectRepo> {
    repo: R,
}

impl<R: RedirectRepo> RedirectServiceImpl<R> {
    /// A store that keeps its records in `repo`.
    pub fn new(repo: R) -> (r: Self)
        ensures
            r.table() == repo.table(),
            r.inv() == repo.inv(),
    {
        RedirectServiceImpl { repo }
    }

    /// Checks an alias: not empty, at most 50 characters, only `[A-Za-z0-9_-]`.
    pub fn validate_alias(alias: &str) -> (r: Result<(), DbServiceError>)
        ensures
            alias_admissible(alias@) ==> r is Ok,
            !alias_admissible(alias@) ==> rejected(r, FIELD_ALIAS@, alias_violations(alias@)),
    {
        let checked = PayloadValidator::new(alias)
            .not_empty()
            .max_length(ALIAS_MAX_LENGTH)
            .valid_characters();
        proof {
            assert(checked@.errors =~= alias_violations(alias@));
        }
        match checked.validate() {
            Ok(()) => Ok(()),
            Err(e) => Err(
                DbServiceError::PayloadValidationError(String::from_str(FIELD_ALIAS), e),
            ),
        }
    }

    /// Checks a target address: not empty, at most 2048 characters, starting with
    /// `http://` or `https://`, without whitespace.
    pub fn validate_url(url: &str) -> (r: Result<(), DbServiceError>)
        ensures
            url_admissible(url@) ==> r is Ok,
            !url_admissible(url@) ==> rejected(r, FIELD_URL@, url_violations(url@)),
    {
        let checked = PayloadValidator::new(url)
            .not_empty()
            .max_length(URL_MAX_LENGTH)
            .has_url_schema();
        proof {
            assert(checked@.errors =~= url_violations(url@));
        }
        match checked.validate() {
            Ok(()) => Ok(()),
            Err(e) => Err(DbServiceError::PayloadValidationError(String::from_str(FIELD_URL), e)),
        }
    }
}

/// The outcome of a write that reports how many rows it changed: none means that no
/// record had the alias.
pub fn write_outcome(changed: u64) -> (r: Result<(), DbServiceError>)
    ensures
        changed == 0 ==> r matches Err(DbServiceError::NotFoundError),
        changed != 0 ==> r is Ok,
{
    if changed == 0 {
        return Err(DbServiceError::NotFoundError);
    }
    Ok(())
}

impl<R: RedirectRepo> RedirectService for RedirectServiceImpl<R> {
    closed spec fn table(&self) -> Table {
        self.repo.table()
    }

    closed spec fn inv(&self) -> bool {
        self.repo.inv()
    }

    fn get_redirect(&self, alias: &str) -> (r: Result<RedirectDTO, DbServiceError>) {
        match self.repo.read_redirect_by_alias(alias) {
            Ok(d) => Ok(d),
            Err(e) => Err(DbServiceError::from(e)),
        }
    }

    fn create_redirect(&mut self, redirect: &RedirectDTO) -> (r: Result<(), DbServiceError>) {
        RedirectServiceImpl::<R>::validate_alias(redirect.alias.as_str())?;
        RedirectServiceImpl::<R>::validate_url(redirect.url.as_str())?;
        match self.repo.create_redirect(redirect) {
            Ok(()) => Ok(()),
            Err(e) => Err(DbServiceError::from(e)),
        }
    }

    fn get_all_redirects(&self) -> (r: Result<RedirectListDTO, DbServiceError>) {
        match self.repo.read_all_redirects() {
            Ok(redirects) => Ok(RedirectListDTO { redirects }),
            Err(e) => Err(DbServiceError::from(e)),
        }
    }

    fn delete_redirect(&mut self, alias: &str) -> (r: Result<(), DbServiceError>) {
        match self.repo.delete_redirect_by_alias(alias) {
            Ok(n) => write_outcome(n),
            Err(e) => Err(DbServiceError::from(e)),
        }
    }

    fn update_redirect(
        &mut self,
        alias: &str,
        redirect: &UpdateUrlDTO,
    ) -> (r: Result<(), DbServiceError>) {
        RedirectServiceImpl::<R>::validate_url(redirect.url.as_str())?;
        match self.repo.update_redirect_by_alias(alias, redirect) {
            Ok(n) => write_outcome(n),
            Err(e) => Err(DbServiceError::from(e)),
        }
    }
}

} // verus!
