//! Generic filtering over raw values, and the guard checks shared by the
//! mutation handlers.

use vstd::prelude::*;
use vstd::std_specs::cmp::PartialEqSpec;

use crate::auth::Role;

verus! {

/// A row identifier.
pub type ID = i32;

/// A point in time, in microseconds since the epoch.
pub type Timestamptz = i64;

/// A calendar day, as a day number.
pub type Date = i32;

/// A filter available to check raw values.
pub trait RawFilter<T> {
    /// The condition the filter stands for.
    spec fn spec_check(&self, item: T) -> bool;

    /// Check if `item` matches the filter condition.
    fn check(&self, item: &T) -> (r: bool)
        ensures
            r == self.spec_check(*item),
    ;
}

/// A conjunction of filters: an item passes when no member rejects it.
impl<U: RawFilter<T>, T> RawFilter<T> for Vec<U> {
    open spec fn spec_check(&self, item: T) -> bool {
        forall|i: int| 0 <= i < self@.len() ==> (#[trigger] self@[i]).spec_check(item)
    }

    fn check(&self, item: &T) -> (r: bool) {
        let n = self.len();
        let mut i: usize = 0;
        while i < n
            invariant
                i <= n,
                n == self@.len(),
                forall|j: int| 0 <= j < i ==> (#[trigger] self@[j]).spec_check(*item),
            decreases n - i,
        {
            if !self[i].check(item) {
                return false;
            }
            i += 1;
        }
        true
    }
}

/// The database operations a change notification can speak of.
#[derive(Clone, Copy, Debug, PartialEq, Eq, Structural)]
pub enum DbOp {
    Created,
    Updated,
    Deleted,
}

/// The orders a query column can be sorted by.
#[derive(Clone, Copy, Debug, PartialEq, Eq, Structural)]
pub enum Ordering {
    Asc,
    Desc,
    AscNullsFirst,
    AscNullsLast,
    DescNullsFirst,
    DescNullsLast,
}

/// Filtering over strings.  Only exact equality is checked here; pattern
/// conditions are applied by the query layer.
#[derive(Clone, Debug)]
pub struct StringFiltering {
    pub eq: Option<String>,
    pub like: Option<String>,
    pub ilike: Option<String>,
}

impl RawFilter<String> for StringFiltering {
    open spec fn spec_check(&self, item: String) -> bool {
        if self.eq is Some {
            item@ == self.eq->0@
        } else {
            true
        }
    }

    fn check(&self, item: &String) -> (r: bool) {
        match &self.eq {
            Some(eq) => *item == *eq,
            None => true,
        }
    }
}

/// Filtering over 16-bit integers.  The first condition present decides,
/// in the order written.
#[derive(Clone, Debug, PartialEq, Eq)]
pub struct I16Filtering {
    pub eq: Option<i16>,
    pub gt: Option<i16>,
    pub lt: Option<i16>,
    pub ge: Option<i16>,
    pub le: Option<i16>,
    pub eq_any: Option<Vec<i16>>,
}

impl RawFilter<i16> for I16Filtering {
    open spec fn spec_check(&self, item: i16) -> bool {
        if self.eq is Some {
            item == self.eq->0
        } else if self.gt is Some {
            item > self.gt->0
        } else if self.lt is Some {
            item < self.lt->0
        } else if self.ge is Some {
            item >= self.ge->0
        } else if self.le is Some {
            item <= self.le->0
        } else if self.eq_any is Some {
            exists|i: int| 0 <= i < self.eq_any->0@.len() && self.eq_any->0@[i] == item
        } else {
            true
        }
    }

    #[verifier::loop_isolation(false)]
    fn check(&self, item: &i16) -> (r: bool) {
        if let Some(eq) = self.eq {
            *item == eq
        } else if let Some(gt) = self.gt {
            *item > gt
        } else if let Some(lt) = self.lt {
            *item < lt
        } else if let Some(ge) = self.ge {
            *item >= ge
        } else if let Some(le) = self.le {
            *item <= le
        } else if let Some(eq_any) = &self.eq_any {
            let n = eq_any.len();
            let mut i: usize = 0;
            while i < n
                invariant
                    i <= n,
                    n == eq_any@.len(),
                    forall|j: int| 0 <= j < i ==> eq_any@[j] != *item,
                decreases n - i,
            {
                if eq_any[i] == *item {
                    proof {
                        assert(self.eq_any->0@[i as int] == *item);
                    }
                    return true;
                }
                i += 1;
            }
            false
        } else {
            true
        }
    }
}

/// Filtering over 32-bit integers.  The first condition present decides,
/// in the order written.
#[derive(Clone, Debug, PartialEq, Eq)]
pub struct I32Filtering {
    pub eq: Option<i32>,
    pub gt: Option<i32>,
    pub lt: Option<i32>,
    pub ge: Option<i32>,
    pub le: Option<i32>,
    pub eq_any: Option<Vec<i32>>,
}

impl RawFilter<i32> for I32Filtering {
    open spec fn spec_check(&self, item: i32) -> bool {
        if self.eq is Some {
            item == self.eq->0
        } else if self.gt is Some {
            item > self.gt->0
        } else if self.lt is Some {
            item < self.lt->0
        } else if self.ge is Some {
            item >= self.ge->0
        } else if self.le is Some {
            item <= self.le->0
        } else if self.eq_any is Some {
            exists|i: int| 0 <= i < self.eq_any->0@.len() && self.eq_any->0@[i] == item
        } else {
            true
        }
    }

    #[verifier::loop_isolation(false)]
    fn check(&self, item: &i32) -> (r: bool) {
        if let Some(eq) = self.eq {
            *item == eq
        } else if let Some(gt) = self.gt {
            *item > gt
        } else if let Some(lt) = self.lt {
            *item < lt
        } else if let Some(ge) = self.ge {
            *item >= ge
        } else if let Some(le) = self.le {
            *item <= le
        } else if let Some(eq_any) = &self.eq_any {
            let n = eq_any.len();
            let mut i: usize = 0;
            while i < n
                invariant
                    i <= n,
                    n == eq_any@.len(),
                    forall|j: int| 0 <= j < i ==> eq_any@[j] != *item,
                decreases n - i,
            {
                if eq_any[i] == *item {
                    proof {
                        assert(self.eq_any->0@[i as int] == *item);
                    }
                    return true;
                }
                i += 1;
            }
            false
        } else {
            true
        }
    }
}

impl Default for I32Filtering {
    /// A filter with no condition: it accepts everything.
    fn default() -> (r: Self)
        ensures
            r.eq is None,
            r.gt is None,
            r.lt is None,
            r.ge is None,
            r.le is None,
            r.eq_any is None,
    {
        I32Filtering { eq: None, gt: None, lt: None, ge: None, le: None, eq_any: None }
    }
}

impl I32Filtering {
    /// A filter accepting exactly `value`.
    pub fn eq(value: i32) -> (r: Self)
        ensures
            r.eq == Some(value),
            r.gt is None && r.lt is None && r.ge is None && r.le is None && r.eq_any is None,
            forall|x: i32| r.spec_check(x) <==> x == value,
    {
        I32Filtering { eq: Some(value), gt: None, lt: None, ge: None, le: None, eq_any: None }
    }

    /// A filter accepting values strictly above `value`.
    pub fn gt(value: i32) -> (r: Self)
        ensures
            r.gt == Some(value),
            r.eq is None && r.lt is None && r.ge is None && r.le is None && r.eq_any is None,
            forall|x: i32| r.spec_check(x) <==> x > value,
    {
        I32Filtering { eq: None, gt: Some(value), lt: None, ge: None, le: None, eq_any: None }
    }

    /// A filter accepting values at or above `value`.
    pub fn ge(value: i32) -> (r: Self)
        ensures
            r.ge == Some(value),
            r.eq is None && r.gt is None && r.lt is None && r.le is None && r.eq_any is None,
            forall|x: i32| r.spec_check(x) <==> x >= value,
    {
        I32Filtering { eq: None, gt: None, lt: None, ge: Some(value), le: None, eq_any: None }
    }

    /// A filter accepting values strictly below `value`.
    pub fn lt(value: i32) -> (r: Self)
        ensures
            r.lt == Some(value),
            r.eq is None && r.gt is None && r.ge is None && r.le is None && r.eq_any is None,
            forall|x: i32| r.spec_check(x) <==> x < value,
    {
        I32Filtering { eq: None, gt: None, lt: Some(value), ge: None, le: None, eq_any: None }
    }

    /// A filter accepting values at or below `value`.
    pub fn le(value: i32) -> (r: Self)
        ensures
            r.le == Some(value),
            r.eq is None && r.gt is None && r.lt is None && r.ge is None && r.eq_any is None,
            forall|x: i32| r.spec_check(x) <==> x <= value,
    {
        I32Filtering { eq: None, gt: None, lt: None, ge: None, le: Some(value), eq_any: None }
    }

    /// A filter accepting exactly the listed values.
    pub fn eq_any(value: Vec<i32>) -> (r: Self)
        ensures
            r.eq_any is Some && r.eq_any->0@ == value@,
            r.eq is None && r.gt is None && r.lt is None && r.ge is None && r.le is None,
            forall|x: i32| r.spec_check(x) <==> value@.contains(x),
    {
        I32Filtering { eq: None, gt: None, lt: None, ge: None, le: None, eq_any: Some(value) }
    }
}

/// Filtering over nullable 32-bit integers: a null item passes only a
/// filter with no value condition that does not demand non-null.
#[derive(Clone, Debug)]
pub struct NullableI32Filtering {
    pub is_null: Option<bool>,
    pub eq: Option<i32>,
    pub gt: Option<i32>,
    pub lt: Option<i32>,
    pub ge: Option<i32>,
    pub le: Option<i32>,
    pub eq_any: Option<Vec<i32>>,
}

impl RawFilter<Option<i32>> for NullableI32Filtering {
    open spec fn spec_check(&self, item: Option<i32>) -> bool {
        match item {
            Some(v) => {
                if self.is_null == Some(true) {
                    false
                } else if self.eq is Some {
                    v == self.eq->0
                } else if self.gt is Some {
                    v > self.gt->0
                } else if self.lt is Some {
                    v < self.lt->0
                } else if self.ge is Some {
                    v >= self.ge->0
                } else if self.le is Some {
                    v <= self.le->0
                } else if self.eq_any is Some {
                    exists|i: int| 0 <= i < self.eq_any->0@.len() && self.eq_any->0@[i] == v
                } else {
                    true
                }
            },
            None => !(self.is_null == Some(false) || self.eq is Some || self.gt is Some
                || self.lt is Some || self.ge is Some || self.le is Some || self.eq_any is Some),
        }
    }

    #[verifier::loop_isolation(false)]
    fn check(&self, item: &Option<i32>) -> (r: bool) {
        match item {
            Some(v) => {
                if self.is_null == Some(true) {
                    false
                } else if let Some(eq) = self.eq {
                    *v == eq
                } else if let Some(gt) = self.gt {
                    *v > gt
                } else if let Some(lt) = self.lt {
                    *v < lt
                } else if let Some(ge) = self.ge {
                    *v >= ge
                } else if let Some(le) = self.le {
                    *v <= le
                } else if let Some(eq_any) = &self.eq_any {
                    let n = eq_any.len();
                    let mut i: usize = 0;
                    while i < n
                        invariant
                            i <= n,
                            n == eq_any@.len(),
                            forall|j: int| 0 <= j < i ==> eq_any@[j] != *v,
                        decreases n - i,
                    {
                        if eq_any[i] == *v {
                            proof {
                                assert(self.eq_any->0@[i as int] == *v);
                            }
                            return true;
                        }
                        i += 1;
                    }
                    false
                } else {
                    true
                }
            },
            None => {
                !(self.is_null == Some(false) || self.eq.is_some() || self.gt.is_some()
                    || self.lt.is_some() || self.ge.is_some() || self.le.is_some()
                    || self.eq_any.is_some())
            },
        }
    }
}

/// Filtering over points in time.  The first condition present decides,
/// in the order written.
#[derive(Clone, Debug)]
pub struct TimestamptzFiltering {
    pub eq: Option<Timestamptz>,
    pub gt: Option<Timestamptz>,
    pub lt: Option<Timestamptz>,
    pub ge: Option<Timestamptz>,
    pub le: Option<Timestamptz>,
    pub eq_any: Option<Vec<Timestamptz>>,
}

impl RawFilter<Timestamptz> for TimestamptzFiltering {
    open spec fn spec_check(&self, item: Timestamptz) -> bool {
        if self.eq is Some {
            item == self.eq->0
        } else if self.gt is Some {
            item > self.gt->0
        } else if self.lt is Some {
            item < self.lt->0
        } else if self.ge is Some {
            item >= self.ge->0
        } else if self.le is Some {
            item <= self.le->0
        } else if self.eq_any is Some {
            exists|i: int| 0 <= i < self.eq_any->0@.len() && self.eq_any->0@[i] == item
        } else {
            true
        }
    }

    #[verifier::loop_isolation(false)]
    fn check(&self, item: &Timestamptz) -> (r: bool) {
        if let Some(eq) = self.eq {
            *item == eq
        } else if let Some(gt) = self.gt {
            *item > gt
        } else if let Some(lt) = self.lt {
            *item < lt
        } else if let Some(ge) = self.ge {
            *item >= ge
        } else if let Some(le) = self.le {
            *item <= le
        } else if let Some(eq_any) = &self.eq_any {
            let n = eq_any.len();
            let mut i: usize = 0;
            while i < n
                invariant
                    i <= n,
                    n == eq_any@.len(),
                    forall|j: int| 0 <= j < i ==> eq_any@[j] != *item,
                decreases n - i,
            {
                if eq_any[i] == *item {
                    proof {
                        assert(self.eq_any->0@[i as int] == *item);
                    }
                    return true;
                }
                i += 1;
            }
            false
        } else {
            true
        }
    }
}

/// Filtering over calendar days.  The first condition present decides,
/// in the order written.
#[derive(Clone, Debug)]
pub struct DateFiltering {
    pub eq: Option<Date>,
    pub gt: Option<Date>,
    pub lt: Option<Date>,
    pub ge: Option<Date>,
    pub le: Option<Date>,
    pub eq_any: Option<Vec<Date>>,
}

impl RawFilter<Date> for DateFiltering {
    open spec fn spec_check(&self, item: Date) -> bool {
        if self.eq is Some {
            item == self.eq->0
        } else if self.gt is Some {
            item > self.gt->0
        } else if self.lt is Some {
            item < self.lt->0
        } else if self.ge is Some {
            item >= self.ge->0
        } else if self.le is Some {
            item <= self.le->0
        } else if self.eq_any is Some {
            exists|i: int| 0 <= i < self.eq_any->0@.len() && self.eq_any->0@[i] == item
        } else {
            true
        }
    }

    #[verifier::loop_isolation(false)]
    fn check(&self, item: &Date) -> (r: bool) {
        if let Some(eq) = self.eq {
            *item == eq
        } else if let Some(gt) = self.gt {
            *item > gt
        } else if let Some(lt) = self.lt {
            *item < lt
        } else if let Some(ge) = self.ge {
            *item >= ge
        } else if let Some(le) = self.le {
            *item <= le
        } else if let Some(eq_any) = &self.eq_any {
            let n = eq_any.len();
            let mut i: usize = 0;
            while i < n
                invariant
                    i <= n,
                    n == eq_any@.len(),
                    forall|j: int| 0 <= j < i ==> eq_any@[j] != *item,
                decreases n - i,
            {
                if eq_any[i] == *item {
                    proof {
                        assert(self.eq_any->0@[i as int] == *item);
                    }
                    return true;
                }
                i += 1;
            }
            false
        } else {
            true
        }
    }
}

/// Filtering over nullable points in time: a null item passes only a
/// filter with no value condition that does not demand non-null.
#[derive(Clone, Debug)]
pub struct NullableTimestamptzFiltering {
    pub is_null: Option<bool>,
    pub eq: Option<Timestamptz>,
    pub gt: Option<Timestamptz>,
    pub lt: Option<Timestamptz>,
    pub ge: Option<Timestamptz>,
    pub le: Option<Timestamptz>,
    pub eq_any: Option<Vec<Timestamptz>>,
}

impl RawFilter<Option<Timestamptz>> for NullableTimestamptzFiltering {
    open spec fn spec_check(&self, item: Option<Timestamptz>) -> bool {
        match item {
            Some(v) => {
                if self.is_null == Some(true) {
                    false
                } else if self.eq is Some {
                    v == self.eq->0
                } else if self.gt is Some {
                    v > self.gt->0
                } else if self.lt is Some {
                    v < self.lt->0
                } else if self.ge is Some {
                    v >= self.ge->0
                } else if self.le is Some {
                    v <= self.le->0
                } else if self.eq_any is Some {
                    exists|i: int| 0 <= i < self.eq_any->0@.len() && self.eq_any->0@[i] == v
                } else {
                    true
                }
            },
            None => !(self.is_null == Some(false) || self.eq is Some || self.gt is Some
                || self.lt is Some || self.ge is Some || self.le is Some || self.eq_any is Some),
        }
    }

    #[verifier::loop_isolation(false)]
    fn check(&self, item: &Option<Timestamptz>) -> (r: bool) {
        match item {
            Some(v) => {
                if self.is_null == Some(true) {
                    false
                } else if let Some(eq) = self.eq {
                    *v == eq
                } else if let Some(gt) = self.gt {
                    *v > gt
                } else if let Some(lt) = self.lt {
                    *v < lt
                } else if let Some(ge) = self.ge {
                    *v >= ge
                } else if let Some(le) = self.le {
                    *v <= le
                } else if let Some(eq_any) = &self.eq_any {
                    let n = eq_any.len();
                    let mut i: usize = 0;
                    while i < n
                        invariant
                            i <= n,
                            n == eq_any@.len(),
                            forall|j: int| 0 <= j < i ==> eq_any@[j] != *v,
                        decreases n - i,
                    {
                        if eq_any[i] == *v {
                            proof {
                                assert(self.eq_any->0@[i as int] == *v);
                            }
                            return true;
                        }
                        i += 1;
                    }
                    false
                } else {
                    true
                }
            },
            None => {
                !(self.is_null == Some(false) || self.eq.is_some() || self.gt.is_some()
                    || self.lt.is_some() || self.ge.is_some() || self.le.is_some()
                    || self.eq_any.is_some())
            },
        }
    }
}

/// The failures the guard checks and mutation rules report.
#[derive(Clone, Debug, PartialEq, Eq)]
pub enum ApiError {
    AssertionFailed,
    AssertionFailedMsg(String),
    NotLoggedIn,
    UserNotLoggedIn,
    NoUser,
    Forbidden,
    ForceHiddenEdit,
}

impl ApiError {
    /// The human-readable message of this failure.
    pub fn message(&self) -> (m: String)
        ensures
            self matches ApiError::AssertionFailed ==> m@ == "Assertion failed"@,
            (self matches ApiError::AssertionFailedMsg(s) ==> m@ == "Assertion failed: "@ + s@),
            self matches ApiError::NotLoggedIn ==> m@ == "Not logged in"@,
            self matches ApiError::UserNotLoggedIn ==> m@ == "User not logged in"@,
            self matches ApiError::NoUser ==> m@ == "No user"@,
            self matches ApiError::Forbidden ==> m@ == "Forbidden: No enough privileges"@,
            self matches ApiError::ForceHiddenEdit ==> m@
                == "Further edits are blocked from a forced hidden puzzle"@,
    {
        match self {
            ApiError::AssertionFailed => String::from_str("Assertion failed"),
            ApiError::AssertionFailedMsg(s) => {
                let base = String::from_str("Assertion failed: ");
                base.concat(s.as_str())
            },
            ApiError::NotLoggedIn => String::from_str("Not logged in"),
            ApiError::UserNotLoggedIn => String::from_str("User not logged in"),
            ApiError::NoUser => String::from_str("No user"),
            ApiError::Forbidden => String::from_str("Forbidden: No enough privileges"),
            ApiError::ForceHiddenEdit => {
                String::from_str("Further edits are blocked from a forced hidden puzzle")
            },
        }
    }
}

/// Make sure that `a` is consistent with `b`, otherwise report an error.
pub fn assert_eq_guard<T: PartialEqSpec>(a: T, b: T) -> (r: Result<(), ApiError>)
    ensures
        T::obeys_eq_spec() ==> (r is Ok <==> a.eq_spec(&b)),
        r is Err ==> r->Err_0 == ApiError::AssertionFailed,
{
    if a == b {
        Ok(())
    } else {
        Err(ApiError::AssertionFailed)
    }
}

/// Make sure that `a` is consistent with `b`, otherwise report an error
/// carrying the message `msg`.
pub fn assert_eq_guard_msg<T: PartialEqSpec>(a: T, b: T, msg: &str) -> (r: Result<(), ApiError>)
    ensures
        T::obeys_eq_spec() ==> (r is Ok <==> a.eq_spec(&b)),
        r is Err ==> (r->Err_0 matches ApiError::AssertionFailedMsg(s) && s@ == msg@),
{
    if a == b {
        Ok(())
    } else {
        Err(ApiError::AssertionFailedMsg(msg.to_owned()))
    }
}

/// A guard denying one role.
pub struct DenyRoleGuard {
    pub role: Role,
}

impl DenyRoleGuard {
    /// Deny a request acting under the guarded role; a request without a
    /// role attached passes.
    pub fn check(&self, request_role: Option<Role>) -> (r: Result<(), ApiError>)
        ensures
            r is Ok <==> !(request_role == Some(self.role)),
            r is Err ==> r->Err_0 == ApiError::Forbidden,
    {
        match request_role {
            Some(role) => {
                if role == self.role {
                    Err(ApiError::Forbidden)
                } else {
                    Ok(())
                }
            },
            None => Ok(()),
        }
    }
}

/// What the user-id guard decides: admins pass, users pass exactly on
/// their own user id, guests are refused.
pub open spec fn spec_user_id_guard(role: Role, request_user_id: Option<ID>, user_id: ID) -> Result<
    (),
    ApiError,
> {
    match role {
        Role::Admin => Ok(()),
        Role::User => match request_user_id {
            Some(request_id) => if request_id == user_id {
                Ok(())
            } else {
                Err(ApiError::AssertionFailed)
            },
            None => Err(ApiError::NoUser),
        },
        Role::Guest => Err(ApiError::NotLoggedIn),
    }
}

/// Guard guests, limit users to their own user id, allow admins.
pub fn user_id_guard(role: Role, request_user_id: Option<ID>, user_id: ID) -> (r: Result<
    (),
    ApiError,
>)
    ensures
        r == spec_user_id_guard(role, request_user_id, user_id),
{
    match role {
        Role::Admin => Ok(()),
        Role::User => {
            match request_user_id {
                Some(request_id) => {
                    if request_id == user_id {
                        Ok(())
                    } else {
                        Err(ApiError::AssertionFailed)
                    }
                },
                None => Err(ApiError::NoUser),
            }
        },
        Role::Guest => Err(ApiError::NotLoggedIn),
    }
}

} // verus!
