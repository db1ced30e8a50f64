use vstd::prelude::*;

use crate::error::StorageError;
use crate::model::{rows_of, RedirectDTO, UpdateUrlDTO};

verus! {

/// The persisted redirects: each alias to its target address.
pub type Table = Map<Seq<char>, Seq<char>>;

/// `rows` lists `t`: each record once, each alias at most once, and nothing else.
pub open spec fn lists(rows: Seq<(Seq<char>, Seq<char>)>, t: Table) -> bool {
    &&& forall|i: int|
        0 <= i < rows.len() ==> t.contains_key(#[trigger] rows[i].0) && t[rows[i].0] == rows[i].1
    &&& forall|i: int, j: int|
        0 <= i < j < rows.len() ==> (#[trigger] rows[i]).0 != (#[trigger] rows[j]).0
    &&& forall|k: Seq<char>|
        #[trigger] t.contains_key(k) ==> exists|i: int| 0 <= i < rows.len() && rows[i].0 == k
}

/// What a lookup of `alias` in `t` may answer.
pub open spec fn found(t: Table, alias: Seq<char>, r: Result<RedirectDTO, StorageError>) -> bool {
    match r {
        Ok(d) => t.contains_key(alias) && d@ == (alias, t[alias]),
        Err(StorageError::RowNotFound) => !t.contains_key(alias),
        Err(StorageError::UniqueViolation) => false,
        Err(StorageError::Other(_)) => true,
    }
}

/// What a read of the whole of `t` may answer.
pub open spec fn listed(t: Table, r: Result<Vec<RedirectDTO>, StorageError>) -> bool {
    match r {
        Ok(v) => lists(rows_of(v@), t),
        Err(StorageError::Other(_)) => true,
        Err(_) => false,
    }
}

/// What inserting `row` into `t0` may answer, with the table `t1` it leaves.
pub open spec fn inserted(
    t0: Table,
    row: (Seq<char>, Seq<char>),
    r: Result<(), StorageError>,
    t1: Table,
) -> bool {
    match r {
        Ok(()) => !t0.contains_key(row.0) && t1 == t0.insert(row.0, row.1),
        Err(StorageError::UniqueViolation) => t0.contains_key(row.0) && t1 == t0,
        Err(StorageError::Other(_)) => t1 == t0,
        Err(StorageError::RowNotFound) => false,
    }
}

/// What deleting the row of `alias` from `t0` may answer: the number of rows removed.
pub open spec fn deleted(
    t0: Table,
    alias: Seq<char>,
    r: Result<u64, StorageError>,
    t1: Table,
) -> bool {
    match r {
        Ok(n) => if t0.contains_key(alias) {
            n == 1 && t1 == t0.remove(alias)
        } else {
            n == 0 && t1 == t0
        },
        Err(StorageError::Other(_)) => t1 == t0,
        Err(_) => false,
    }
}

/// What setting the address of `alias` in `t0` to `url` may answer: the number of rows changed.
pub open spec fn updated(
    t0: Table,
    alias: Seq<char>,
    url: Seq<char>,
    r: Result<u64, StorageError>,
    t1: Table,
) -> bool {
    match r {
        Ok(n) => if t0.contains_key(alias) {
            n == 1 && t1 == t0.insert(alias, url)
        } else {
            n == 0 && t1 == t0
        },
        Err(StorageError::Other(_)) => t1 == t0,
        Err(_) => false,
    }
}

/// The storage backend of the redirects: one table keyed by alias, whose uniqueness it enforces.
/// Each operation touches one row at most and leaves the table as it was when it fails.
pub trait RedirectRepo {
    /// The rows the backend holds.
    spec fn table(&self) -> Table;

    /// The backend's own consistency.
    spec fn inv(&self) -> bool;

    fn read_redirect_by_alias(&self, alias: &str) -> (r: Result<RedirectDTO, StorageError>)
        requires
            self.inv(),
        ensures
            found(self.table(), alias@, r),
    ;

    fn create_redirect(&mut self, redirect: &RedirectDTO) -> (r: Result<(), StorageError>)
        requires
            old(self).inv(),
        ensures
            final(self).inv(),
            inserted(old(self).table(), redirect@, r, final(self).table()),
    ;

    fn read_all_redirects(&self) -> (r: Result<Vec<RedirectDTO>, StorageError>)
        requires
            self.inv(),
        ensures
            listed(self.table(), r),
    ;

    fn delete_redirect_by_alias(&mut self, alias: &str) -> (r: Result<u64, StorageError>)
        requires
            old(self).inv(),
        ensures
            final(self).inv(),
            deleted(old(self).table(), alias@, r, final(self).table()),
    ;

    fn update_redirect_by_alias(
        &mut self,
        alias: &str,
        redirect: &UpdateUrlDTO,
    ) -> (r: Result<u64, StorageError>)
        requires
            old(self).inv(),
        ensures
            final(self).inv(),
            updated(old(self).table(), alias@, redirect.url@, r, final(self).table()),
    ;
}

/// A backend that keeps the table in memory, one record per alias.
pub struct MemoryRepo {
    rows: Vec<RedirectDTO>,
    table: Ghost<Table>,
}

fn copy_row(d: &RedirectDTO) -> (r: RedirectDTO)
    ensures
        r@ == d@,
{
    RedirectDTO { alias: d.alias.clone(), url: d.url.clone() }
}

impl MemoryRepo {
    /// A backend with no record.
    pub fn new() -> (r: Self)
        ensures
            r.inv(),
            r.table() == Table::empty(),
    {
        MemoryRepo { rows: Vec::new(), table: Ghost(Map::empty()) }
    }

    /// The index of the record of `alias`, if there is one.
    fn position(&self, alias: &str) -> (r: Option<usize>)
        requires
            self.inv(),
        ensures
            match r {
                Some(i) => i < self.rows@.len() && self.rows@[i as int].alias@ == alias@,
                None => !self.table@.contains_key(alias@),
            },
    {
        let key = alias.to_owned();
        let mut i: usize = 0;
        while i < self.rows.len()
            invariant
                i <= self.rows@.len(),
                key@ == alias@,
                forall|j: int| 0 <= j < i ==> self.rows@[j].alias@ != alias@,
            decreases self.rows@.len() - i,
        {
            if self.rows[i].alias == key {
                return Some(i);
            }
            i += 1;
        }
        proof {
            if self.table@.contains_key(alias@) {
                let rows = rows_of(self.rows@);
                let j = choose|j: int| 0 <= j < rows.len() && rows[j].0 == alias@;
                assert(rows[j] == self.rows@[j]@);
            }
        }
        None
    }
}

impl RedirectRepo for MemoryRepo {
    closed spec fn table(&self) -> Table {
        self.table@
    }

    closed spec fn inv(&self) -> bool {
        lists(rows_of(self.rows@), self.table@)
    }

    fn read_redirect_by_alias(&self, alias: &str) -> (r: Result<RedirectDTO, StorageError>) {
        match self.position(alias) {
            Some(i) => {
                proof {
                    assert(rows_of(self.rows@)[i as int].0 == alias@);
                }
                Ok(copy_row(&self.rows[i]))
            },
            None => Err(StorageError::RowNotFound),
        }
    }

    fn create_redirect(&mut self, redirect: &RedirectDTO) -> (r: Result<(), StorageError>) {
        match self.position(redirect.alias.as_str()) {
            Some(i) => {
                proof {
                    assert(rows_of(self.rows@)[i as int].0 == redirect.alias@);
                }
                Err(StorageError::UniqueViolation)
            },
            None => {
                let ghost t0 = self.table@;
                let ghost rows0 = rows_of(self.rows@);
                proof {
                    assert(lists(rows0, t0));
                }
                self.rows.push(copy_row(redirect));
                self.table = Ghost(t0.insert(redirect.alias@, redirect.url@));
                proof {
                    let rows = rows_of(self.rows@);
                    assert(rows =~= rows0.push(redirect@));
                    assert forall|k: Seq<char>| #[trigger] self.table@.contains_key(k) implies exists|
                        i: int,
                    | 0 <= i < rows.len() && rows[i].0 == k by {
                        if k == redirect.alias@ {
                            assert(rows[rows0.len() as int].0 == k);
                        } else {
                            let i = choose|i: int| 0 <= i < rows0.len() && rows0[i].0 == k;
                            assert(rows[i].0 == k);
                        }
                    }
                }
                Ok(())
            },
        }
    }

    fn read_all_redirects(&self) -> (r: Result<Vec<RedirectDTO>, StorageError>) {
        let mut out: Vec<RedirectDTO> = Vec::new();
        let mut i: usize = 0;
        while i < self.rows.len()
            invariant
                i <= self.rows@.len(),
                out@.len() == i,
                forall|j: int| 0 <= j < i ==> (#[trigger] out@[j])@ == self.rows@[j]@,
            decreases self.rows@.len() - i,
        {
            out.push(copy_row(&self.rows[i]));
            i += 1;
        }
        proof {
            assert(rows_of(out@) =~= rows_of(self.rows@));
        }
        Ok(out)
    }

    fn delete_redirect_by_alias(&mut self, alias: &str) -> (r: Result<u64, StorageError>) {
        match self.position(alias) {
            Some(i) => {
                let ghost t0 = self.table@;
                let ghost rows0 = rows_of(self.rows@);
                proof {
                    assert(lists(rows0, t0));
                    assert(rows0[i as int].0 == alias@);
                }
                self.rows.remove(i);
                self.table = Ghost(t0.remove(alias@));
                proof {
                    let rows = rows_of(self.rows@);
                    assert(rows =~= rows0.remove(i as int));
                    assert forall|j: int| 0 <= j < rows.len() implies self.table@.contains_key(
                        #[trigger] rows[j].0,
                    ) && self.table@[rows[j].0] == rows[j].1 by {
                        if j < i {
                            assert(rows[j] == rows0[j]);
                        } else {
                            assert(rows[j] == rows0[j + 1]);
                        }
                    }
                    assert forall|j: int, l: int| 0 <= j < l < rows.len() implies (
                    #[trigger] rows[j]).0 != (#[trigger] rows[l]).0 by {
                        let jj = if j < i {
                            j
                        } else {
                            j + 1
                        };
                        let ll = if l < i {
                            l
                        } else {
                            l + 1
                        };
                        assert(rows[j] == rows0[jj]);
                        assert(rows[l] == rows0[ll]);
                    }
                    assert forall|k: Seq<char>| #[trigger] self.table@.contains_key(k) implies exists|
                        j: int,
                    | 0 <= j < rows.len() && rows[j].0 == k by {
                        let j = choose|j: int| 0 <= j < rows0.len() && rows0[j].0 == k;
                        if j < i {
                            assert(rows[j] == rows0[j]);
                        } else {
                            assert(j != i);
                            assert(rows[j - 1] == rows0[j]);
                        }
                    }
                }
                Ok(1)
            },
            None => Ok(0),
        }
    }

    fn update_redirect_by_alias(
        &mut self,
        alias: &str,
        redirect: &UpdateUrlDTO,
    ) -> (r: Result<u64, StorageError>) {
        match self.position(alias) {
            Some(i) => {
                let ghost t0 = self.table@;
                let ghost rows0 = rows_of(self.rows@);
                proof {
                    assert(lists(rows0, t0));
                    assert(rows0[i as int].0 == alias@);
                }
                let alias_text = self.rows[i].alias.clone();
                let row = RedirectDTO { alias: alias_text, url: redirect.url.clone() };
                self.rows.remove(i);
                self.rows.insert(i, row);
                self.table = Ghost(t0.insert(alias@, redirect.url@));
                proof {
                    let rows = rows_of(self.rows@);
                    assert(rows =~= rows0.update(i as int, (alias@, redirect.url@)));
                    assert forall|k: Seq<char>| #[trigger] self.table@.contains_key(k) implies exists|
                        j: int,
                    | 0 <= j < rows.len() && rows[j].0 == k by {
                        let j = choose|j: int| 0 <= j < rows0.len() && rows0[j].0 == k;
                        assert(rows[j].0 == k);
                    }
                }
                Ok(1)
            },
            None => Ok(0),
        }
    }
}

} // verus!
