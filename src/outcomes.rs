use vstd::prelude::*;

use crate::credentials::{hash_password, password_matches, verify_password};
use crate::errors::{ErrorKind, StorageFailure};
use crate::store::{DEFAULT_PAGE_SIZE, PASSWORD_HASH_COST};

verus! {

/// The outcome of a statement whose only failures are storage failures.
pub fn storage_outcome<T>(result: Result<T, StorageFailure>) -> (r: Result<T, ErrorKind>)
    ensures
        match result {
            Ok(v) => r == Ok::<T, ErrorKind>(v),
            Err(f) => r == Err::<T, ErrorKind>(f.spec_kind()),
        },
{
    match result {
        Ok(v) => Ok(v),
        Err(f) => Err(f.kind()),
    }
}

/// The `(offset, count)` of a listing: absent values become 0 and the
/// default page size; a negative one is refused as a storage failure.
pub fn page_bounds(offset: Option<i64>, count: Option<i64>) -> (r: Result<(i64, i64), ErrorKind>)
    ensures
        ({
            let off = match offset {
                Some(o) => o,
                None => 0,
            };
            let cnt = match count {
                Some(c) => c,
                None => DEFAULT_PAGE_SIZE,
            };
            r == if off < 0 || cnt < 0 {
                Err::<(i64, i64), ErrorKind>(ErrorKind::Db)
            } else {
                Ok::<(i64, i64), ErrorKind>((off, cnt))
            }
        }),
{
    let off: i64 = match offset {
        Some(o) => o,
        None => 0,
    };
    let cnt: i64 = match count {
        Some(c) => c,
        None => DEFAULT_PAGE_SIZE,
    };
    if off < 0 || cnt < 0 {
        Err(ErrorKind::Db)
    } else {
        Ok((off, cnt))
    }
}

/// The stored form of a new password: a salted one-way hash that matches it.
/// `None` when no salt could be drawn.
pub fn hash_for_storage(password: &str) -> (r: Option<String>)
    ensures
        r matches Some(h) ==> password_matches(password@, h@),
{
    hash_password(password, PASSWORD_HASH_COST)
}

/// The outcome of a login, given the `(id, stored hash)` rows found under the
/// name (at most one, names being unique): the id when `password` matches the
/// first row's hash; one and the same failure for an unknown name and a wrong
/// password.
pub fn login_outcome(rows: Result<Vec<(i32, String)>, StorageFailure>, password: &str) -> (r: Result<
    i32,
    ErrorKind,
>)
    ensures
        match rows {
            Err(f) => r == Err::<i32, ErrorKind>(f.spec_kind()),
            Ok(v) => r == if v@.len() > 0 && password_matches(password@, v@[0].1@) {
                Ok::<i32, ErrorKind>(v@[0].0)
            } else {
                Err::<i32, ErrorKind>(ErrorKind::Login)
            },
        },
{
    match rows {
        Err(f) => Err(f.kind()),
        Ok(v) => {
            if v.len() > 0 && verify_password(password, v[0].1.as_str()) {
                Ok(v[0].0)
            } else {
                Err(ErrorKind::Login)
            }
        },
    }
}

/// The outcome of an update or deletion scoped to an owner, given the number
/// of rows it affected: none affected means the todo is absent or owned by
/// someone else, reported as `missing`.
pub fn affected_outcome(affected: Result<u64, StorageFailure>, missing: ErrorKind) -> (r: Result<
    (),
    ErrorKind,
>)
    ensures
        match affected {
            Err(f) => r == Err::<(), ErrorKind>(f.spec_kind()),
            Ok(n) => r == if n == 0 {
                Err::<(), ErrorKind>(missing)
            } else {
                Ok::<(), ErrorKind>(())
            },
        },
{
    match affected {
        Err(f) => Err(f.kind()),
        Ok(n) => {
            if n == 0 {
                Err(missing)
            } else {
                Ok(())
            }
        },
    }
}

} // verus!
