use cindy::auth::Role;
use cindy::dialogue::{prepare_dialogue_create, prepare_dialogue_update, CreateDialogueInput, Dialogue, UpdateDialogueInput};
use cindy::generics::{
    assert_eq_guard, assert_eq_guard_msg, user_id_guard, ApiError, DenyRoleGuard, RawFilter,
};
use cindy::puzzle::{
    prepare_puzzle_create, prepare_puzzle_update, puzzle_sub_matches, CreatePuzzleInput,
    CreatePuzzleData, DazeDurations, DazedTimeCalc, Genre, Puzzle, PuzzleSub, PuzzleSubFilter,
    Status, StatusFiltering, UpdatePuzzleData, UpdatePuzzleInput, Yami, YamiFiltering,
};
use cindy::user::{prepare_user_update, MaybeUndefined, UpdateUserSet};

fn durations() -> DazeDurations {
    DazeDurations {
        default_days: 7,
        genre_classic: None,
        genre_twenty_questions: None,
        genre_little_albat: None,
        genre_others: None,
        yami_none: None,
        yami_normal: None,
        yami_longterm: None,
    }
}

fn puzzle() -> Puzzle {
    Puzzle {
        id: 1,
        title: String::from("a riddle"),
        status: Status::Undergoing,
        yami: Yami::NoYami,
        genre: Genre::Classic,
        user_id: 42,
    }
}

fn create_input() -> CreatePuzzleInput {
    CreatePuzzleInput {
        title: Some(String::from("new")),
        yami: None,
        genre: None,
        content: None,
        solution: None,
        created: None,
        modified: None,
        status: None,
        memo: None,
        user_id: None,
        anonymous: None,
        dazed_on: None,
        grotesque: None,
    }
}

fn update_input() -> UpdatePuzzleInput {
    UpdatePuzzleInput {
        title: None,
        yami: None,
        genre: None,
        content: None,
        solution: None,
        created: None,
        modified: None,
        status: None,
        memo: None,
        user_id: None,
        anonymous: None,
        dazed_on: None,
        grotesque: None,
    }
}

#[test]
fn daze_duration_prefers_yami_then_genre_then_default() {
    let mut d = durations();
    assert_eq!(DazedTimeCalc::default().duration(&d), 7);
    d.genre_classic = Some(10);
    d.yami_longterm = Some(30);
    let calc = DazedTimeCalc::default().genre(Some(Genre::Classic));
    assert_eq!(calc.duration(&d), 10);
    let calc = calc.yami(Some(Yami::Longterm));
    assert_eq!(calc.duration(&d), 30);
    // a yami kind without an override falls back to the genre's value
    let calc = DazedTimeCalc::default().genre(Some(Genre::Classic)).yami(Some(Yami::Normal));
    assert_eq!(calc.duration(&d), 10);
    // a genre without an override falls back to the default
    let calc = DazedTimeCalc::default().genre(Some(Genre::Others));
    assert_eq!(calc.duration(&d), 7);
}

#[test]
fn set_default_fills_only_missing_fields() {
    let data = create_input().set_default(1111, 100, &durations());
    assert_eq!(data.created, Some(1111));
    assert_eq!(data.dazed_on, Some(107));
    assert_eq!(data.status, Some(Status::Undergoing));
    let mut preset = create_input();
    preset.created = Some(5);
    preset.dazed_on = Some(6);
    preset.status = Some(Status::Solved);
    let kept = preset.set_default(1111, 100, &durations());
    assert_eq!(kept.created, Some(5));
    assert_eq!(kept.dazed_on, Some(6));
    assert_eq!(kept.status, Some(Status::Solved));
}

#[test]
fn puzzle_create_rules_by_role() {
    let guest = prepare_puzzle_create(create_input(), Role::Guest, None, 1, 1, &durations());
    assert_eq!(guest.unwrap_err(), ApiError::UserNotLoggedIn);

    let admin = prepare_puzzle_create(create_input(), Role::Admin, None, 1, 1, &durations());
    assert!(admin.is_ok());
    assert_eq!(admin.unwrap().user_id, None);

    // a user may not set the timestamps
    let mut with_created = create_input();
    with_created.created = Some(9);
    let refused = prepare_puzzle_create(with_created, Role::User, Some(42), 1, 1, &durations());
    assert_eq!(refused.unwrap_err(), ApiError::AssertionFailed);

    // a user creating without an owner owns the puzzle
    let owned = prepare_puzzle_create(create_input(), Role::User, Some(42), 1, 1, &durations());
    assert_eq!(owned.unwrap().user_id, Some(42));

    // a user asking for another owner is refused
    let mut foreign = create_input();
    foreign.user_id = Some(7);
    let refused = prepare_puzzle_create(foreign, Role::User, Some(42), 1, 1, &durations());
    assert_eq!(refused.unwrap_err(), ApiError::AssertionFailed);
}

#[test]
fn puzzle_update_rules() {
    // a non-owner user is refused
    let refused = prepare_puzzle_update(&puzzle(), update_input(), Role::User, Some(7), 50);
    assert_eq!(refused.unwrap_err(), ApiError::AssertionFailed);

    // a forced-hidden puzzle refuses edits even from its owner
    let mut hidden = puzzle();
    hidden.status = Status::ForceHidden;
    let refused = prepare_puzzle_update(&hidden, update_input(), Role::User, Some(42), 50);
    assert_eq!(refused.unwrap_err(), ApiError::ForceHiddenEdit);

    // solving an undergoing puzzle stamps the modification time
    let mut solve = update_input();
    solve.status = Some(Status::Solved);
    let data = prepare_puzzle_update(&puzzle(), solve, Role::User, Some(42), 50).unwrap();
    assert_eq!(data.modified, Some(50));
    assert_eq!(data.status, Some(1));

    // an update that keeps the puzzle undergoing does not
    let mut keep = update_input();
    keep.status = Some(Status::Undergoing);
    let data = prepare_puzzle_update(&puzzle(), keep, Role::Admin, None, 50).unwrap();
    assert_eq!(data.modified, None);
    assert_eq!(data.status, Some(0));
}

#[test]
fn puzzle_sub_filter_reads_the_first_field_present() {
    let no_filter =
        PuzzleSubFilter { id: None, status: None, yami: None, genre: None };
    assert!(no_filter.check(&puzzle()));

    let by_status = PuzzleSubFilter {
        id: None,
        status: Some(StatusFiltering {
            eq: Some(Status::Undergoing),
            ne: None,
            eq_any: None,
            ne_all: None,
        }),
        yami: None,
        genre: None,
    };
    assert!(by_status.check(&puzzle()));
    let mut solved = puzzle();
    solved.status = Status::Solved;
    assert!(!by_status.check(&solved));

    let by_yami = PuzzleSubFilter {
        id: None,
        status: None,
        yami: Some(YamiFiltering {
            eq: None,
            ne: Some(Yami::NoYami),
            eq_any: None,
            ne_all: None,
        }),
        genre: None,
    };
    assert!(!by_yami.check(&puzzle()));
}

fn dialogue() -> Dialogue {
    Dialogue {
        id: 1,
        question: String::from("why?"),
        answer: String::new(),
        is_good: false,
        is_true: false,
        answered_time: None,
        puzzle_id: 2,
        user_id: 3,
        answer_edit_times: 0,
        question_edit_times: 0,
        qno: 1,
    }
}

fn dialogue_update() -> UpdateDialogueInput {
    UpdateDialogueInput {
        id: None,
        question: None,
        answer: None,
        is_good: None,
        is_true: None,
        created: None,
        answered_time: None,
        puzzle_id: None,
        user_id: None,
        answer_edit_times: None,
        question_edit_times: None,
        qno: None,
        modified: 1000,
    }
}

#[test]
fn dialogue_update_counts_edits_and_stamps_first_answer() {
    // setting qno explicitly is refused for users
    let mut with_qno = dialogue_update();
    with_qno.qno = Some(4);
    let refused = prepare_dialogue_update(&dialogue(), with_qno, Role::User, 500);
    match refused.unwrap_err() {
        ApiError::AssertionFailedMsg(msg) => {
            assert_eq!(msg, "Setting qno explicitly is prohibited")
        },
        other => panic!("unexpected error {:?}", other),
    }

    // a question edit bumps the question counter
    let mut edit_question = dialogue_update();
    edit_question.question = Some(String::from("how?"));
    let set = prepare_dialogue_update(&dialogue(), edit_question, Role::User, 500).unwrap();
    assert_eq!(set.question_edit_times, Some(1));

    // a first answer stamps the answered time instead of counting an edit
    let mut first_answer = dialogue_update();
    first_answer.answer = Some(String::from("because"));
    let set = prepare_dialogue_update(&dialogue(), first_answer, Role::User, 500).unwrap();
    assert_eq!(set.answered_time, Some(Some(500)));
    assert_eq!(set.answer_edit_times, None);

    // editing an existing answer counts an edit
    let mut answered = dialogue();
    answered.answer = String::from("old");
    answered.answered_time = Some(400);
    let mut edit_answer = dialogue_update();
    edit_answer.answer = Some(String::from("new"));
    let set = prepare_dialogue_update(&answered, edit_answer, Role::User, 500).unwrap();
    assert_eq!(set.answer_edit_times, Some(1));
    assert_eq!(set.answered_time, None);

    // admins update as asked
    let mut with_qno = dialogue_update();
    with_qno.qno = Some(4);
    let kept = prepare_dialogue_update(&dialogue(), with_qno.clone(), Role::Admin, 500).unwrap();
    assert_eq!(kept, with_qno);

    // guests may not update
    let refused = prepare_dialogue_update(&dialogue(), dialogue_update(), Role::Guest, 500);
    assert_eq!(refused.unwrap_err(), ApiError::UserNotLoggedIn);
}

#[test]
fn dialogue_create_numbers_questions_and_sets_the_owner() {
    let input = CreateDialogueInput {
        id: None,
        question: Some(String::from("q")),
        answer: String::new(),
        is_good: false,
        is_true: false,
        created: 100,
        answered_time: None,
        puzzle_id: 2,
        user_id: None,
        answer_edit_times: 0,
        question_edit_times: 0,
        qno: None,
        modified: 100,
    };
    let created = prepare_dialogue_create(input.clone(), Role::User, Some(3), 4).unwrap();
    assert_eq!(created.qno, Some(5));
    assert_eq!(created.user_id, Some(3));

    let mut foreign = input.clone();
    foreign.user_id = Some(9);
    let refused = prepare_dialogue_create(foreign, Role::User, Some(3), 4);
    assert_eq!(refused.unwrap_err(), ApiError::AssertionFailed);

    let refused = prepare_dialogue_create(input, Role::Guest, None, 4);
    assert_eq!(refused.unwrap_err(), ApiError::Forbidden);
}

fn user_set() -> UpdateUserSet {
    UpdateUserSet {
        password: None,
        last_login: MaybeUndefined::Undefined,
        is_superuser: None,
        username: None,
        first_name: None,
        last_name: None,
        email: None,
        is_staff: None,
        is_active: None,
        date_joined: None,
        nickname: Some(String::from("nick")),
        profile: None,
        current_award_id: MaybeUndefined::Null,
        hide_bookmark: None,
        last_read_dm_id: MaybeUndefined::Value(8),
        icon: None,
    }
}

#[test]
fn user_update_flattens_fields_and_guards_users() {
    let data = prepare_user_update(user_set(), Role::Admin).unwrap();
    assert_eq!(data.nickname, Some(String::from("nick")));
    assert_eq!(data.current_award_id, Some(None));
    assert_eq!(data.last_read_dm_id, Some(Some(8)));
    assert_eq!(data.last_login, None);

    let mut with_password = user_set();
    with_password.password = Some(String::from("pw"));
    let refused = prepare_user_update(with_password, Role::User);
    match refused.unwrap_err() {
        ApiError::AssertionFailedMsg(msg) => {
            assert_eq!(msg, "Setting password explicitly is prohibited")
        },
        other => panic!("unexpected error {:?}", other),
    }

    let mut with_login = user_set();
    with_login.last_login = MaybeUndefined::Null;
    let refused = prepare_user_update(with_login, Role::User);
    match refused.unwrap_err() {
        ApiError::AssertionFailedMsg(msg) => {
            assert_eq!(msg, "Setting last_login explicitly is prohibited")
        },
        other => panic!("unexpected error {:?}", other),
    }

    let accepted = prepare_user_update(user_set(), Role::User);
    assert!(accepted.is_ok());

    let refused = prepare_user_update(user_set(), Role::Guest);
    assert_eq!(refused.unwrap_err(), ApiError::UserNotLoggedIn);
}

#[test]
fn guards_check_roles_and_identity() {
    assert!(user_id_guard(Role::Admin, None, 5).is_ok());
    assert!(user_id_guard(Role::User, Some(5), 5).is_ok());
    assert_eq!(user_id_guard(Role::User, Some(6), 5).unwrap_err(), ApiError::AssertionFailed);
    assert_eq!(user_id_guard(Role::User, None, 5).unwrap_err(), ApiError::NoUser);
    let guest = user_id_guard(Role::Guest, Some(5), 5).unwrap_err();
    assert_eq!(guest, ApiError::NotLoggedIn);
    assert_eq!(guest.message(), "Not logged in");
    assert_eq!(ApiError::UserNotLoggedIn.message(), "User not logged in");

    let deny = DenyRoleGuard { role: Role::Guest };
    assert!(deny.check(Some(Role::User)).is_ok());
    assert!(deny.check(None).is_ok());
    assert_eq!(deny.check(Some(Role::Guest)).unwrap_err(), ApiError::Forbidden);
}

#[test]
fn equality_guards_compare_and_report() {
    assert!(assert_eq_guard(1, 1).is_ok());
    assert_eq!(assert_eq_guard(1, 2).unwrap_err(), ApiError::AssertionFailed);
    assert!(assert_eq_guard_msg(Some(3), Some(3), "ids differ").is_ok());
    let err = assert_eq_guard_msg(Some(3), None, "ids differ").unwrap_err();
    assert_eq!(err.message(), "Assertion failed: ids differ");
    assert_eq!(ApiError::ForceHiddenEdit.message(), "Further edits are blocked from a forced hidden puzzle");
}

#[test]
fn written_rows_code_each_enumeration_from_its_own_field() {
    let mut input = create_input();
    input.yami = Some(Yami::Normal);
    input.genre = Some(Genre::Classic);
    input.status = Some(Status::Solved);
    let data = CreatePuzzleData::from(input);
    assert_eq!(data.yami, Some(1));
    assert_eq!(data.genre, Some(0));
    assert_eq!(data.status, Some(1));

    let mut set = update_input();
    set.yami = Some(Yami::Longterm);
    set.genre = Some(Genre::Others);
    let data = UpdatePuzzleData::from(set);
    assert_eq!(data.yami, Some(2));
    assert_eq!(data.genre, Some(3));
    assert_eq!(data.status, None);
}

#[test]
fn puzzle_sub_matches_reads_the_right_puzzle() {
    let by_status = PuzzleSubFilter {
        id: None,
        status: Some(StatusFiltering {
            eq: Some(Status::Undergoing),
            ne: None,
            eq_any: None,
            ne_all: None,
        }),
        yami: None,
        genre: None,
    };
    let mut solved = puzzle();
    solved.status = Status::Solved;

    let created = Some(PuzzleSub::Created(puzzle()));
    assert!(puzzle_sub_matches(&Some(by_status.clone()), &created));
    let created_solved = Some(PuzzleSub::Created(solved.clone()));
    assert!(!puzzle_sub_matches(&Some(by_status.clone()), &created_solved));

    // an update is matched on the puzzle before the change
    let update = Some(PuzzleSub::Updated(puzzle(), solved.clone()));
    assert!(puzzle_sub_matches(&Some(by_status.clone()), &update));
    let update_back = Some(PuzzleSub::Updated(solved, puzzle()));
    assert!(!puzzle_sub_matches(&Some(by_status.clone()), &update_back));

    // a sentinel is dropped under a filter, and without one only values pass
    assert!(!puzzle_sub_matches(&Some(by_status), &None));
    assert!(puzzle_sub_matches(&None, &created));
    assert!(!puzzle_sub_matches(&None, &None));
}
