//! The dialogue model as the mutation rules read it, and the decision
//! parts of the dialogue mutations.

use vstd::prelude::*;

use crate::auth::Role;
use crate::generics::{spec_user_id_guard, user_id_guard, ApiError, Timestamptz, ID};

verus! {

/// A dialogue, as far as the mutation rules read it.
#[derive(Clone, Debug, PartialEq, Eq)]
pub struct Dialogue {
    pub id: ID,
    pub question: String,
    pub answer: String,
    pub is_good: bool,
    pub is_true: bool,
    pub answered_time: Option<Timestamptz>,
    pub puzzle_id: ID,
    pub user_id: ID,
    pub answer_edit_times: i32,
    pub question_edit_times: i32,
    pub qno: i32,
}

/// The fields an update request may carry.
#[derive(Clone, Debug, PartialEq, Eq)]
pub struct UpdateDialogueInput {
    pub id: Option<ID>,
    pub question: Option<String>,
    pub answer: Option<String>,
    pub is_good: Option<bool>,
    pub is_true: Option<bool>,
    pub created: Option<Timestamptz>,
    pub answered_time: Option<Option<Timestamptz>>,
    pub puzzle_id: Option<ID>,
    pub user_id: Option<ID>,
    pub answer_edit_times: Option<i32>,
    pub question_edit_times: Option<i32>,
    pub qno: Option<i32>,
    pub modified: Timestamptz,
}

/// The fields a creation request carries.
#[derive(Clone, Debug, PartialEq, Eq)]
pub struct CreateDialogueInput {
    pub id: Option<ID>,
    pub question: Option<String>,
    pub answer: String,
    pub is_good: bool,
    pub is_true: bool,
    pub created: Timestamptz,
    pub answered_time: Option<Option<Timestamptz>>,
    pub puzzle_id: ID,
    pub user_id: Option<ID>,
    pub answer_edit_times: i32,
    pub question_edit_times: i32,
    pub qno: Option<i32>,
    pub modified: Timestamptz,
}

/// The adjustments a user's update undergoes: editing the question counts
/// an edit; answering for the first time stamps the answered time with
/// `now`, while editing an existing answer counts an edit.
pub open spec fn spec_user_dialogue_update(
    dialogue: Dialogue,
    set: UpdateDialogueInput,
    now: Timestamptz,
) -> UpdateDialogueInput {
    let adjusted = if set.question is Some {
        UpdateDialogueInput {
            question_edit_times: Some((dialogue.question_edit_times + 1) as i32),
            ..set
        }
    } else {
        set
    };
    if set.answer is Some {
        if dialogue.answer@.len() == 0 && dialogue.answered_time is None {
            UpdateDialogueInput { answered_time: Some(Some(now)), ..adjusted }
        } else {
            UpdateDialogueInput {
                answer_edit_times: Some((dialogue.answer_edit_times + 1) as i32),
                ..adjusted
            }
        }
    } else {
        adjusted
    }
}

/// The decision part of the dialogue update mutation.  Guests may not
/// update; admins update as asked; users may not set the question number
/// and have their edit counters and answered time maintained.
pub fn prepare_dialogue_update(
    dialogue: &Dialogue,
    set: UpdateDialogueInput,
    role: Role,
    now: Timestamptz,
) -> (r: Result<UpdateDialogueInput, ApiError>)
    requires
        role == Role::User && set.question is Some ==> dialogue.question_edit_times < i32::MAX,
        role == Role::User && set.answer is Some ==> dialogue.answer_edit_times < i32::MAX,
    ensures
        role == Role::Guest ==> r == Err::<UpdateDialogueInput, ApiError>(ApiError::UserNotLoggedIn),
        role == Role::Admin ==> r == Ok::<UpdateDialogueInput, ApiError>(set),
        role == Role::User && set.qno is Some ==> (r matches Err(e) && e matches
            ApiError::AssertionFailedMsg(s) && s@ == "Setting qno explicitly is prohibited"@),
        role == Role::User && set.qno is None ==> r == Ok::<UpdateDialogueInput, ApiError>(
            spec_user_dialogue_update(*dialogue, set, now),
        ),
{
    match role {
        Role::Guest => Err(ApiError::UserNotLoggedIn),
        Role::Admin => Ok(set),
        Role::User => {
            if set.qno.is_some() {
                return Err(
                    ApiError::AssertionFailedMsg(
                        String::from_str("Setting qno explicitly is prohibited"),
                    ),
                );
            }
            let mut set = set;
            if set.question.is_some() {
                set.question_edit_times = Some(dialogue.question_edit_times + 1);
            }
            if set.answer.is_some() {
                if dialogue.answer.as_str().is_empty() && dialogue.answered_time.is_none() {
                    set.answered_time = Some(Some(now));
                } else {
                    set.answer_edit_times = Some(dialogue.answer_edit_times + 1);
                }
            }
            Ok(set)
        },
    }
}

/// The creation request as it is inserted: the requester owns it unless
/// another owner was asked for, and it gets the next question number for
/// its puzzle.
pub open spec fn spec_dialogue_create(
    data: CreateDialogueInput,
    request_user_id: Option<ID>,
    existing_count: i64,
) -> CreateDialogueInput {
    CreateDialogueInput {
        user_id: if data.user_id is Some {
            data.user_id
        } else {
            request_user_id
        },
        qno: Some((existing_count + 1) as i32),
        ..data
    }
}

/// The decision part of the dialogue creation mutation.  Guests may not
/// create; a user asking for another owner is refused; the new dialogue's
/// question number is one past the puzzle's `existing_count`.
pub fn prepare_dialogue_create(
    data: CreateDialogueInput,
    role: Role,
    request_user_id: Option<ID>,
    existing_count: i64,
) -> (r: Result<CreateDialogueInput, ApiError>)
    requires
        0 <= existing_count < i32::MAX,
    ensures
        role == Role::Guest ==> r == Err::<CreateDialogueInput, ApiError>(ApiError::Forbidden),
        role != Role::Guest ==> (data.user_id matches Some(user_id) ==> r == (
        match spec_user_id_guard(role, request_user_id, user_id) {
            Ok(()) => Ok::<CreateDialogueInput, ApiError>(
                spec_dialogue_create(data, request_user_id, existing_count),
            ),
            Err(e) => Err::<CreateDialogueInput, ApiError>(e),
        })),
        role != Role::Guest && data.user_id is None ==> r == Ok::<CreateDialogueInput, ApiError>(
            spec_dialogue_create(data, request_user_id, existing_count),
        ),
{
    if let Role::Guest = role {
        return Err(ApiError::Forbidden);
    }
    let mut data = data;
    if let Some(user_id) = data.user_id {
        match user_id_guard(role, request_user_id, user_id) {
            Ok(()) => {},
            Err(e) => {
                return Err(e);
            },
        }
    } else {
        data.user_id = request_user_id;
    }
    let qno = existing_count + 1;
    data.qno = Some(qno as i32);
    Ok(data)
}

} // verus!
