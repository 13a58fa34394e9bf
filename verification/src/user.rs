//! The user update inputs and the decision part of the user mutation.

use vstd::prelude::*;

use crate::auth::Role;
use crate::generics::{ApiError, Timestamptz};

verus! {

/// An input field that can carry a value, an explicit null, or be left
/// out altogether.
#[derive(Clone, Copy, Debug, PartialEq, Eq)]
pub enum MaybeUndefined<T> {
    Value(T),
    Null,
    Undefined,
}

impl<T> MaybeUndefined<T> {
    /// This field as nested options: was it given at all, and if so, with
    /// which value?
    pub open spec fn spec_as_options(self) -> Option<Option<T>> {
        match self {
            MaybeUndefined::Value(v) => Some(Some(v)),
            MaybeUndefined::Null => Some(None),
            MaybeUndefined::Undefined => None,
        }
    }

    /// This field as nested options: was it given at all, and if so, with
    /// which value?
    pub fn as_options(self) -> (r: Option<Option<T>>)
        ensures
            r == self.spec_as_options(),
    {
        match self {
            MaybeUndefined::Value(v) => Some(Some(v)),
            MaybeUndefined::Null => Some(None),
            MaybeUndefined::Undefined => None,
        }
    }
}

/// The fields a user update request may carry.
#[derive(Clone, Debug, PartialEq, Eq)]
pub struct UpdateUserSet {
    pub password: Option<String>,
    pub last_login: MaybeUndefined<Timestamptz>,
    pub is_superuser: Option<bool>,
    pub username: Option<String>,
    pub first_name: Option<String>,
    pub last_name: Option<String>,
    pub email: Option<String>,
    pub is_staff: Option<bool>,
    pub is_active: Option<bool>,
    pub date_joined: Option<Timestamptz>,
    pub nickname: Option<String>,
    pub profile: Option<String>,
    pub current_award_id: MaybeUndefined<i32>,
    pub hide_bookmark: Option<bool>,
    pub last_read_dm_id: MaybeUndefined<i32>,
    pub icon: Option<Option<String>>,
}

/// A user update request as it is written, with each three-state field
/// flattened to nested options.
#[derive(Clone, Debug, PartialEq, Eq)]
pub struct UpdateUserData {
    pub password: Option<String>,
    pub last_login: Option<Option<Timestamptz>>,
    pub is_superuser: Option<bool>,
    pub username: Option<String>,
    pub first_name: Option<String>,
    pub last_name: Option<String>,
    pub email: Option<String>,
    pub is_staff: Option<bool>,
    pub is_active: Option<bool>,
    pub date_joined: Option<Timestamptz>,
    pub nickname: Option<String>,
    pub profile: Option<String>,
    pub current_award_id: Option<Option<i32>>,
    pub hide_bookmark: Option<bool>,
    pub last_read_dm_id: Option<Option<i32>>,
    pub icon: Option<Option<String>>,
}

/// What writing a user update stores: field for field, with the
/// three-state fields flattened.
pub open spec fn spec_update_user_data(x: UpdateUserSet) -> UpdateUserData {
    UpdateUserData {
        password: x.password,
        last_login: x.last_login.spec_as_options(),
        is_superuser: x.is_superuser,
        username: x.username,
        first_name: x.first_name,
        last_name: x.last_name,
        email: x.email,
        is_staff: x.is_staff,
        is_active: x.is_active,
        date_joined: x.date_joined,
        nickname: x.nickname,
        profile: x.profile,
        current_award_id: x.current_award_id.spec_as_options(),
        hide_bookmark: x.hide_bookmark,
        last_read_dm_id: x.last_read_dm_id.spec_as_options(),
        icon: x.icon,
    }
}

impl From<UpdateUserSet> for UpdateUserData {
    fn from(x: UpdateUserSet) -> (r: Self) {
        UpdateUserData {
            password: x.password,
            last_login: x.last_login.as_options(),
            is_superuser: x.is_superuser,
            username: x.username,
            first_name: x.first_name,
            last_name: x.last_name,
            email: x.email,
            is_staff: x.is_staff,
            is_active: x.is_active,
            date_joined: x.date_joined,
            nickname: x.nickname,
            profile: x.profile,
            current_award_id: x.current_award_id.as_options(),
            hide_bookmark: x.hide_bookmark,
            last_read_dm_id: x.last_read_dm_id.as_options(),
            icon: x.icon,
        }
    }
}

impl vstd::std_specs::convert::FromSpecImpl<UpdateUserSet> for UpdateUserData {
    open spec fn obeys_from_spec() -> bool {
        true
    }

    open spec fn from_spec(x: UpdateUserSet) -> Self {
        spec_update_user_data(x)
    }
}

/// The decision part of the user update mutation.  Guests may not update;
/// admins update as asked; users may not set their password, join date or
/// last login, in that order of checking.
pub fn prepare_user_update(set: UpdateUserSet, role: Role) -> (r: Result<UpdateUserData, ApiError>)
    ensures
        role == Role::Guest ==> r == Err::<UpdateUserData, ApiError>(ApiError::UserNotLoggedIn),
        role == Role::Admin ==> r == Ok::<UpdateUserData, ApiError>(spec_update_user_data(set)),
        role == Role::User && set.password is Some ==> (r matches Err(e) && e matches
            ApiError::AssertionFailedMsg(s) && s@ == "Setting password explicitly is prohibited"@),
        role == Role::User && set.password is None && set.date_joined is Some ==> (r matches Err(e)
            && e matches ApiError::AssertionFailedMsg(s) && s@
            == "Setting date_joined explicitly is prohibited"@),
        role == Role::User && set.password is None && set.date_joined is None && !(set.last_login
            matches MaybeUndefined::Undefined) ==> (r matches Err(e) && e matches
            ApiError::AssertionFailedMsg(s) && s@
            == "Setting last_login explicitly is prohibited"@),
        role == Role::User && set.password is None && set.date_joined is None && (set.last_login
            matches MaybeUndefined::Undefined) ==> r == Ok::<UpdateUserData, ApiError>(
            spec_update_user_data(set),
        ),
{
    match role {
        Role::Guest => Err(ApiError::UserNotLoggedIn),
        Role::Admin => Ok(UpdateUserData::from(set)),
        Role::User => {
            if set.password.is_some() {
                return Err(
                    ApiError::AssertionFailedMsg(
                        String::from_str("Setting password explicitly is prohibited"),
                    ),
                );
            }
            if set.date_joined.is_some() {
                return Err(
                    ApiError::AssertionFailedMsg(
                        String::from_str("Setting date_joined explicitly is prohibited"),
                    ),
                );
            }
            match set.last_login {
                MaybeUndefined::Undefined => {},
                _ => {
                    return Err(
                        ApiError::AssertionFailedMsg(
                            String::from_str("Setting last_login explicitly is prohibited"),
                        ),
                    );
                },
            }
            Ok(UpdateUserData::from(set))
        },
    }
}

} // verus!
