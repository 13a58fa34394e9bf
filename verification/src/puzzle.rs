//! The puzzle model as the broker and the mutation rules read it, the
//! filters a puzzle subscription can apply, and the decision parts of the
//! puzzle mutations: which requests are refused, and what is written when
//! one is accepted.  Database access and transport stay outside.

use vstd::prelude::*;

use crate::auth::Role;
use crate::generics::{user_id_guard, ApiError, Date, RawFilter, Timestamptz, I32Filtering, ID};

verus! {

/// Whether a puzzle hides answers from other participants, and for how
/// long.
#[derive(Clone, Copy, Debug, PartialEq, Eq, Structural)]
pub enum Yami {
    NoYami,
    Normal,
    Longterm,
}

impl Yami {
    /// The integer code this variant is stored under.
    pub open spec fn spec_code(self) -> i32 {
        match self {
            Yami::NoYami => 0,
            Yami::Normal => 1,
            Yami::Longterm => 2,
        }
    }

    /// The integer code this variant is stored under.
    pub fn code(self) -> (c: i32)
        ensures
            c == self.spec_code(),
    {
        match self {
            Yami::NoYami => 0,
            Yami::Normal => 1,
            Yami::Longterm => 2,
        }
    }
}

/// The genre of a puzzle.
#[derive(Clone, Copy, Debug, PartialEq, Eq, Structural)]
pub enum Genre {
    Classic,
    TwentyQuestions,
    LittleAlbat,
    Others,
}

impl Genre {
    /// The integer code this variant is stored under.
    pub open spec fn spec_code(self) -> i32 {
        match self {
            Genre::Classic => 0,
            Genre::TwentyQuestions => 1,
            Genre::LittleAlbat => 2,
            Genre::Others => 3,
        }
    }

    /// The integer code this variant is stored under.
    pub fn code(self) -> (c: i32)
        ensures
            c == self.spec_code(),
    {
        match self {
            Genre::Classic => 0,
            Genre::TwentyQuestions => 1,
            Genre::LittleAlbat => 2,
            Genre::Others => 3,
        }
    }
}

/// The lifecycle state of a puzzle.
#[derive(Clone, Copy, Debug, PartialEq, Eq, Structural)]
pub enum Status {
    Undergoing,
    Solved,
    Dazed,
    Hidden,
    ForceHidden,
}

impl Status {
    /// The integer code this variant is stored under.
    pub open spec fn spec_code(self) -> i32 {
        match self {
            Status::Undergoing => 0,
            Status::Solved => 1,
            Status::Dazed => 2,
            Status::Hidden => 3,
            Status::ForceHidden => 4,
        }
    }

    /// The integer code this variant is stored under.
    pub fn code(self) -> (c: i32)
        ensures
            c == self.spec_code(),
    {
        match self {
            Status::Undergoing => 0,
            Status::Solved => 1,
            Status::Dazed => 2,
            Status::Hidden => 3,
            Status::ForceHidden => 4,
        }
    }
}

/// A puzzle, as far as the subscription filters and the mutation rules
/// read it.
#[derive(Clone, Debug, PartialEq, Eq)]
pub struct Puzzle {
    pub id: ID,
    pub title: String,
    pub status: Status,
    pub yami: Yami,
    pub genre: Genre,
    pub user_id: ID,
}

/// A change notification about a puzzle, as published through the broker:
/// a newly created puzzle, or an update carrying the puzzle before and
/// after.
#[derive(Clone, Debug)]
pub enum PuzzleSub {
    Created(Puzzle),
    Updated(Puzzle, Puzzle),
}

/// Filtering over puzzle statuses.  The first condition present decides,
/// in the order written.
#[derive(Clone, Debug, PartialEq, Eq)]
pub struct StatusFiltering {
    pub eq: Option<Status>,
    pub ne: Option<Status>,
    pub eq_any: Option<Vec<Status>>,
    pub ne_all: Option<Vec<Status>>,
}

impl RawFilter<Status> for StatusFiltering {
    open spec fn spec_check(&self, item: Status) -> bool {
        if self.eq is Some {
            item == self.eq->0
        } else if self.ne is Some {
            item != self.ne->0
        } else if self.eq_any is Some {
            exists|i: int| 0 <= i < self.eq_any->0@.len() && self.eq_any->0@[i] == item
        } else if self.ne_all is Some {
            forall|i: int| 0 <= i < self.ne_all->0@.len() ==> (#[trigger] self.ne_all->0@[i]) != item
        } else {
            true
        }
    }

    #[verifier::loop_isolation(false)]
    fn check(&self, item: &Status) -> (r: bool) {
        if let Some(eq) = self.eq {
            *item == eq
        } else if let Some(ne) = self.ne {
            *item != ne
        } else if let Some(eq_any) = &self.eq_any {
            let n = eq_any.len();
            let mut i: usize = 0;
            while i < n
                invariant
                    i <= n,
                    forall|j: int| 0 <= j < i ==> eq_any@[j] != *item,
                decreases n - i,
            {
                if eq_any[i] == *item {
                    return true;
                }
                i += 1;
            }
            false
        } else if let Some(ne_all) = &self.ne_all {
            let n = ne_all.len();
            let mut i: usize = 0;
            while i < n
                invariant
                    i <= n,
                    forall|j: int| 0 <= j < i ==> ne_all@[j] != *item,
                decreases n - i,
            {
                if ne_all[i] == *item {
                    return false;
                }
                i += 1;
            }
            true
        } else {
            true
        }
    }
}

/// Filtering over yami kinds.  The first condition present decides, in
/// the order written.
#[derive(Clone, Debug, PartialEq, Eq)]
pub struct YamiFiltering {
    pub eq: Option<Yami>,
    pub ne: Option<Yami>,
    pub eq_any: Option<Vec<Yami>>,
    pub ne_all: Option<Vec<Yami>>,
}

impl RawFilter<Yami> for YamiFiltering {
    open spec fn spec_check(&self, item: Yami) -> bool {
        if self.eq is Some {
            item == self.eq->0
        } else if self.ne is Some {
            item != self.ne->0
        } else if self.eq_any is Some {
            exists|i: int| 0 <= i < self.eq_any->0@.len() && self.eq_any->0@[i] == item
        } else if self.ne_all is Some {
            forall|i: int| 0 <= i < self.ne_all->0@.len() ==> (#[trigger] self.ne_all->0@[i]) != item
        } else {
            true
        }
    }

    #[verifier::loop_isolation(false)]
    fn check(&self, item: &Yami) -> (r: bool) {
        if let Some(eq) = self.eq {
            *item == eq
        } else if let Some(ne) = self.ne {
            *item != ne
        } else if let Some(eq_any) = &self.eq_any {
            let n = eq_any.len();
            let mut i: usize = 0;
            while i < n
                invariant
                    i <= n,
                    forall|j: int| 0 <= j < i ==> eq_any@[j] != *item,
                decreases n - i,
            {
                if eq_any[i] == *item {
                    return true;
                }
                i += 1;
            }
            false
        } else if let Some(ne_all) = &self.ne_all {
            let n = ne_all.len();
            let mut i: usize = 0;
            while i < n
                invariant
                    i <= n,
                    forall|j: int| 0 <= j < i ==> ne_all@[j] != *item,
                decreases n - i,
            {
                if ne_all[i] == *item {
                    return false;
                }
                i += 1;
            }
            true
        } else {
            true
        }
    }
}

/// Filtering over genres.  The first condition present decides, in the
/// order written.
#[derive(Clone, Debug, PartialEq, Eq)]
pub struct GenreFiltering {
    pub eq: Option<Genre>,
    pub ne: Option<Genre>,
    pub eq_any: Option<Vec<Genre>>,
    pub ne_all: Option<Vec<Genre>>,
}

impl RawFilter<Genre> for GenreFiltering {
    open spec fn spec_check(&self, item: Genre) -> bool {
        if self.eq is Some {
            item == self.eq->0
        } else if self.ne is Some {
            item != self.ne->0
        } else if self.eq_any is Some {
            exists|i: int| 0 <= i < self.eq_any->0@.len() && self.eq_any->0@[i] == item
        } else if self.ne_all is Some {
            forall|i: int| 0 <= i < self.ne_all->0@.len() ==> (#[trigger] self.ne_all->0@[i]) != item
        } else {
            true
        }
    }

    #[verifier::loop_isolation(false)]
    fn check(&self, item: &Genre) -> (r: bool) {
        if let Some(eq) = self.eq {
            *item == eq
        } else if let Some(ne) = self.ne {
            *item != ne
        } else if let Some(eq_any) = &self.eq_any {
            let n = eq_any.len();
            let mut i: usize = 0;
            while i < n
                invariant
                    i <= n,
                    forall|j: int| 0 <= j < i ==> eq_any@[j] != *item,
                decreases n - i,
            {
                if eq_any[i] == *item {
                    return true;
                }
                i += 1;
            }
            false
        } else if let Some(ne_all) = &self.ne_all {
            let n = ne_all.len();
            let mut i: usize = 0;
            while i < n
                invariant
                    i <= n,
                    forall|j: int| 0 <= j < i ==> ne_all@[j] != *item,
                decreases n - i,
            {
                if ne_all[i] == *item {
                    return false;
                }
                i += 1;
            }
            true
        } else {
            true
        }
    }
}

/// A filter a puzzle subscription applies to change notifications.  The
/// first field present decides.
#[derive(Clone, Debug, PartialEq, Eq)]
pub struct PuzzleSubFilter {
    pub id: Option<I32Filtering>,
    pub status: Option<StatusFiltering>,
    pub yami: Option<YamiFiltering>,
    pub genre: Option<GenreFiltering>,
}

impl RawFilter<Puzzle> for PuzzleSubFilter {
    open spec fn spec_check(&self, item: Puzzle) -> bool {
        if self.id is Some {
            self.id->0.spec_check(item.id)
        } else if self.status is Some {
            self.status->0.spec_check(item.status)
        } else if self.yami is Some {
            self.yami->0.spec_check(item.yami)
        } else if self.genre is Some {
            self.genre->0.spec_check(item.genre)
        } else {
            true
        }
    }

    fn check(&self, item: &Puzzle) -> (r: bool) {
        if let Some(filter) = &self.id {
            filter.check(&item.id)
        } else if let Some(filter) = &self.status {
            filter.check(&item.status)
        } else if let Some(filter) = &self.yami {
            filter.check(&item.yami)
        } else if let Some(filter) = &self.genre {
            filter.check(&item.genre)
        } else {
            true
        }
    }
}

/// Whether a change notification passes a subscriber's filter: a created
/// puzzle is matched itself, an update is matched on the puzzle before
/// the change, and the "no value yet" sentinel passes only when no filter
/// was given.
pub open spec fn spec_puzzle_sub_matches(
    filter: Option<PuzzleSubFilter>,
    notification: Option<PuzzleSub>,
) -> bool {
    match (filter, notification) {
        (Some(f), Some(PuzzleSub::Created(puzzle))) => f.spec_check(puzzle),
        (Some(f), Some(PuzzleSub::Updated(orig, _))) => f.spec_check(orig),
        (Some(_), None) => false,
        (None, n) => n is Some,
    }
}

/// The keep decision of the puzzle subscription stream: which puzzle of a
/// notification the filter reads, and that sentinels are dropped.
pub fn puzzle_sub_matches(filter: &Option<PuzzleSubFilter>, notification: &Option<PuzzleSub>) -> (r:
    bool)
    ensures
        r == spec_puzzle_sub_matches(*filter, *notification),
{
    match (filter, notification) {
        (Some(f), Some(PuzzleSub::Created(puzzle))) => f.check(puzzle),
        (Some(f), Some(PuzzleSub::Updated(orig, _))) => f.check(orig),
        (Some(_), None) => false,
        (None, n) => n.is_some(),
    }
}

/// The configured dazing durations, in days: a default, and one optional
/// override per genre and per yami kind.
#[derive(Clone, Copy, Debug, PartialEq, Eq, Structural)]
pub struct DazeDurations {
    pub default_days: i64,
    pub genre_classic: Option<i64>,
    pub genre_twenty_questions: Option<i64>,
    pub genre_little_albat: Option<i64>,
    pub genre_others: Option<i64>,
    pub yami_none: Option<i64>,
    pub yami_normal: Option<i64>,
    pub yami_longterm: Option<i64>,
}

/// The duration override configured for `g`, if any.
pub open spec fn spec_genre_override(d: DazeDurations, g: Genre) -> Option<i64> {
    match g {
        Genre::Classic => d.genre_classic,
        Genre::TwentyQuestions => d.genre_twenty_questions,
        Genre::LittleAlbat => d.genre_little_albat,
        Genre::Others => d.genre_others,
    }
}

/// The duration override configured for `y`, if any.
pub open spec fn spec_yami_override(d: DazeDurations, y: Yami) -> Option<i64> {
    match y {
        Yami::NoYami => d.yami_none,
        Yami::Normal => d.yami_normal,
        Yami::Longterm => d.yami_longterm,
    }
}

/// Calculate the dazing duration of a puzzle from its yami kind and genre.
#[derive(Clone, Copy, Debug, PartialEq, Eq, Structural)]
pub struct DazedTimeCalc {
    pub yami: Option<Yami>,
    pub genre: Option<Genre>,
}

impl Default for DazedTimeCalc {
    /// A calculator with neither yami kind nor genre set.
    fn default() -> (r: Self)
        ensures
            r.yami is None,
            r.genre is None,
    {
        DazedTimeCalc { yami: None, genre: None }
    }
}

impl DazedTimeCalc {
    /// Set the yami kind.
    pub fn yami(self, yami: Option<Yami>) -> (r: Self)
        ensures
            r.yami == yami,
            r.genre == self.genre,
    {
        DazedTimeCalc { yami, genre: self.genre }
    }

    /// Set the genre.
    pub fn genre(self, genre: Option<Genre>) -> (r: Self)
        ensures
            r.yami == self.yami,
            r.genre == genre,
    {
        DazedTimeCalc { yami: self.yami, genre }
    }

    /// The dazing duration in days: the default, overridden by the genre's
    /// configured duration when the genre is set and configured, in turn
    /// overridden by the yami kind's when that is set and configured.
    pub open spec fn spec_duration(self, d: DazeDurations) -> i64 {
        let after_genre = match self.genre {
            Some(g) => match spec_genre_override(d, g) {
                Some(v) => v,
                None => d.default_days,
            },
            None => d.default_days,
        };
        match self.yami {
            Some(y) => match spec_yami_override(d, y) {
                Some(v) => v,
                None => after_genre,
            },
            None => after_genre,
        }
    }

    /// Get the dazing duration in days under the configured `durations`.
    pub fn duration(&self, durations: &DazeDurations) -> (r: i64)
        ensures
            r == self.spec_duration(*durations),
    {
        let mut days = durations.default_days;
        if let Some(genre) = self.genre {
            let over = match genre {
                Genre::Classic => durations.genre_classic,
                Genre::TwentyQuestions => durations.genre_twenty_questions,
                Genre::LittleAlbat => durations.genre_little_albat,
                Genre::Others => durations.genre_others,
            };
            if let Some(v) = over {
                days = v;
            }
        }
        if let Some(yami) = self.yami {
            let over = match yami {
                Yami::NoYami => durations.yami_none,
                Yami::Normal => durations.yami_normal,
                Yami::Longterm => durations.yami_longterm,
            };
            if let Some(v) = over {
                days = v;
            }
        }
        days
    }
}

/// The fields a creation request may carry.
#[derive(Clone, Debug, PartialEq, Eq)]
pub struct CreatePuzzleInput {
    pub title: Option<String>,
    pub yami: Option<Yami>,
    pub genre: Option<Genre>,
    pub content: Option<String>,
    pub solution: Option<String>,
    pub created: Option<Timestamptz>,
    pub modified: Option<Timestamptz>,
    pub status: Option<Status>,
    pub memo: Option<String>,
    pub user_id: Option<ID>,
    pub anonymous: Option<bool>,
    pub dazed_on: Option<Date>,
    pub grotesque: Option<bool>,
}

impl CreatePuzzleInput {
    /// Fill the defaults a creation request may leave out: `created`
    /// becomes `now`, `dazed_on` becomes `now_date` plus the dazing
    /// duration, and `status` becomes undergoing.  Fields already set are
    /// kept, as is everything else.
    pub fn set_default(self, now: Timestamptz, now_date: Date, durations: &DazeDurations) -> (r:
        Self)
        requires
            self.dazed_on is None ==> i32::MIN <= now_date + (DazedTimeCalc {
                yami: self.yami,
                genre: self.genre,
            }).spec_duration(*durations) <= i32::MAX,
        ensures
            r.created == (if self.created is Some {
                self.created
            } else {
                Some(now)
            }),
            r.dazed_on == (if self.dazed_on is Some {
                self.dazed_on
            } else {
                Some(
                    (now_date + (DazedTimeCalc { yami: self.yami, genre: self.genre }).spec_duration(
                        *durations,
                    )) as i32,
                )
            }),
            r.status == (if self.status is Some {
                self.status
            } else {
                Some(Status::Undergoing)
            }),
            r.title == self.title,
            r.yami == self.yami,
            r.genre == self.genre,
            r.content == self.content,
            r.solution == self.solution,
            r.modified == self.modified,
            r.memo == self.memo,
            r.user_id == self.user_id,
            r.anonymous == self.anonymous,
            r.grotesque == self.grotesque,
    {
        let mut data = self;
        if data.created.is_none() {
            data.created = Some(now);
        }
        if data.dazed_on.is_none() {
            let days = DazedTimeCalc::default().yami(data.yami).genre(data.genre).duration(
                durations,
            );
            data.dazed_on = Some(((now_date as i64) + days) as i32);
        }
        if data.status.is_none() {
            data.status = Some(Status::Undergoing);
        }
        data
    }

    /// Set the owning user.
    pub fn set_user_id(self, user_id: Option<ID>) -> (r: Self)
        ensures
            r.user_id == user_id,
            r == (CreatePuzzleInput { user_id, ..self }),
    {
        CreatePuzzleInput { user_id, ..self }
    }
}

/// A creation request as it is written, with the enumerations stored
/// under their integer codes.
#[derive(Clone, Debug, PartialEq, Eq)]
pub struct CreatePuzzleData {
    pub title: Option<String>,
    pub yami: Option<i32>,
    pub genre: Option<i32>,
    pub content: Option<String>,
    pub solution: Option<String>,
    pub created: Option<Timestamptz>,
    pub modified: Option<Timestamptz>,
    pub status: Option<i32>,
    pub memo: Option<String>,
    pub user_id: Option<ID>,
    pub anonymous: Option<bool>,
    pub dazed_on: Option<Date>,
    pub grotesque: Option<bool>,
}

/// What writing a creation request stores: field for field, with the
/// enumerations coded.
pub open spec fn spec_create_puzzle_data(data: CreatePuzzleInput) -> CreatePuzzleData {
    CreatePuzzleData {
        title: data.title,
        yami: match data.yami {
            Some(y) => Some(y.spec_code()),
            None => None,
        },
        genre: match data.genre {
            Some(g) => Some(g.spec_code()),
            None => None,
        },
        content: data.content,
        solution: data.solution,
        created: data.created,
        modified: data.modified,
        status: match data.status {
            Some(s) => Some(s.spec_code()),
            None => None,
        },
        memo: data.memo,
        user_id: data.user_id,
        anonymous: data.anonymous,
        dazed_on: data.dazed_on,
        grotesque: data.grotesque,
    }
}

impl From<CreatePuzzleInput> for CreatePuzzleData {
    fn from(data: CreatePuzzleInput) -> (r: Self) {
        CreatePuzzleData {
            title: data.title,
            yami: match data.yami {
                Some(y) => Some(y.code()),
                None => None,
            },
            genre: match data.genre {
                Some(g) => Some(g.code()),
                None => None,
            },
            content: data.content,
            solution: data.solution,
            created: data.created,
            modified: data.modified,
            status: match data.status {
                Some(s) => Some(s.code()),
                None => None,
            },
            memo: data.memo,
            user_id: data.user_id,
            anonymous: data.anonymous,
            dazed_on: data.dazed_on,
            grotesque: data.grotesque,
        }
    }
}

impl vstd::std_specs::convert::FromSpecImpl<CreatePuzzleInput> for CreatePuzzleData {
    open spec fn obeys_from_spec() -> bool {
        true
    }

    open spec fn from_spec(data: CreatePuzzleInput) -> Self {
        spec_create_puzzle_data(data)
    }
}

/// The fields an update request may carry.
#[derive(Clone, Debug, PartialEq, Eq)]
pub struct UpdatePuzzleInput {
    pub title: Option<String>,
    pub yami: Option<Yami>,
    pub genre: Option<Genre>,
    pub content: Option<String>,
    pub solution: Option<String>,
    pub created: Option<Timestamptz>,
    pub modified: Option<Timestamptz>,
    pub status: Option<Status>,
    pub memo: Option<String>,
    pub user_id: Option<ID>,
    pub anonymous: Option<bool>,
    pub dazed_on: Option<Date>,
    pub grotesque: Option<bool>,
}

/// An update request as it is written, with the enumerations stored under
/// their integer codes.
#[derive(Clone, Debug, PartialEq, Eq)]
pub struct UpdatePuzzleData {
    pub title: Option<String>,
    pub yami: Option<i32>,
    pub genre: Option<i32>,
    pub content: Option<String>,
    pub solution: Option<String>,
    pub created: Option<Timestamptz>,
    pub modified: Option<Timestamptz>,
    pub status: Option<i32>,
    pub memo: Option<String>,
    pub user_id: Option<ID>,
    pub anonymous: Option<bool>,
    pub dazed_on: Option<Date>,
    pub grotesque: Option<bool>,
}

/// What writing an update request stores: field for field, with the
/// enumerations coded.
pub open spec fn spec_update_puzzle_data(data: UpdatePuzzleInput) -> UpdatePuzzleData {
    UpdatePuzzleData {
        title: data.title,
        yami: match data.yami {
            Some(y) => Some(y.spec_code()),
            None => None,
        },
        genre: match data.genre {
            Some(g) => Some(g.spec_code()),
            None => None,
        },
        content: data.content,
        solution: data.solution,
        created: data.created,
        modified: data.modified,
        status: match data.status {
            Some(s) => Some(s.spec_code()),
            None => None,
        },
        memo: data.memo,
        user_id: data.user_id,
        anonymous: data.anonymous,
        dazed_on: data.dazed_on,
        grotesque: data.grotesque,
    }
}

impl From<UpdatePuzzleInput> for UpdatePuzzleData {
    fn from(data: UpdatePuzzleInput) -> (r: Self) {
        UpdatePuzzleData {
            title: data.title,
            yami: match data.yami {
                Some(y) => Some(y.code()),
                None => None,
            },
            genre: match data.genre {
                Some(g) => Some(g.code()),
                None => None,
            },
            content: data.content,
            solution: data.solution,
            created: data.created,
            modified: data.modified,
            status: match data.status {
                Some(s) => Some(s.code()),
                None => None,
            },
            memo: data.memo,
            user_id: data.user_id,
            anonymous: data.anonymous,
            dazed_on: data.dazed_on,
            grotesque: data.grotesque,
        }
    }
}

impl vstd::std_specs::convert::FromSpecImpl<UpdatePuzzleInput> for UpdatePuzzleData {
    open spec fn obeys_from_spec() -> bool {
        true
    }

    open spec fn from_spec(data: UpdatePuzzleInput) -> Self {
        spec_update_puzzle_data(data)
    }
}

/// What the update mutation decides for a puzzle in `puzzle`'s state, a
/// request under `role` by `request_user_id`, and the current time `now`:
/// the error it is refused with, or the changeset it writes.
pub open spec fn spec_prepare_puzzle_update(
    puzzle: Puzzle,
    set: UpdatePuzzleInput,
    role: Role,
    request_user_id: Option<ID>,
    now: Timestamptz,
) -> Result<UpdatePuzzleData, ApiError> {
    if role == Role::Guest {
        Err(ApiError::NotLoggedIn)
    } else if role == Role::User && request_user_id is None {
        Err(ApiError::NoUser)
    } else if role == Role::User && request_user_id != Some(puzzle.user_id) {
        Err(ApiError::AssertionFailed)
    } else if puzzle.status == Status::ForceHidden {
        Err(ApiError::ForceHiddenEdit)
    } else {
        let adjusted = if puzzle.status == Status::Undergoing && set.status != Some(
            Status::Undergoing,
        ) {
            UpdatePuzzleInput { modified: Some(now), ..set }
        } else {
            set
        };
        Ok(spec_update_puzzle_data(adjusted))
    }
}

/// The decision part of the update mutation.  The requester must own the
/// puzzle unless an admin; a forced-hidden puzzle refuses further edits;
/// and when the update takes the puzzle out of the undergoing state, the
/// modification time is stamped with `now`.
pub fn prepare_puzzle_update(
    puzzle: &Puzzle,
    set: UpdatePuzzleInput,
    role: Role,
    request_user_id: Option<ID>,
    now: Timestamptz,
) -> (r: Result<UpdatePuzzleData, ApiError>)
    ensures
        r == spec_prepare_puzzle_update(*puzzle, set, role, request_user_id, now),
{
    match user_id_guard(role, request_user_id, puzzle.user_id) {
        Ok(()) => {},
        Err(e) => {
            return Err(e);
        },
    }
    if puzzle.status == Status::ForceHidden {
        return Err(ApiError::ForceHiddenEdit);
    }
    let mut set = set;
    if puzzle.status == Status::Undergoing && set.status != Some(Status::Undergoing) {
        set.modified = Some(now);
    }
    Ok(UpdatePuzzleData::from(set))
}

/// What the creation mutation decides for a request under `role` by
/// `request_user_id`: the error it is refused with, or the row it
/// inserts.  Guests may not create; users may not set the timestamps and
/// may only create puzzles they own, owning the new puzzle by default;
/// admins create as asked.
pub open spec fn spec_prepare_puzzle_create(
    data: CreatePuzzleInput,
    role: Role,
    request_user_id: Option<ID>,
    now: Timestamptz,
    now_date: Date,
    durations: DazeDurations,
) -> Result<CreatePuzzleData, ApiError> {
    match role {
        Role::Guest => Err(ApiError::UserNotLoggedIn),
        Role::Admin => Ok(
            spec_create_puzzle_data(spec_set_default(data, now, now_date, durations)),
        ),
        Role::User => {
            if !(data.created is None) || !(data.modified is None) {
                Err(ApiError::AssertionFailed)
            } else {
                match data.user_id {
                    Some(user_id) => {
                        if request_user_id is None {
                            Err(ApiError::NoUser)
                        } else if request_user_id != Some(user_id) {
                            Err(ApiError::AssertionFailed)
                        } else {
                            Ok(
                                spec_create_puzzle_data(
                                    spec_set_default(data, now, now_date, durations),
                                ),
                            )
                        }
                    },
                    None => Ok(
                        spec_create_puzzle_data(
                            spec_set_default(data, now, now_date, durations).set_user_id_spec(
                                request_user_id,
                            ),
                        ),
                    ),
                }
            }
        },
    }
}

/// The defaults filled into a creation request, as `set_default` fills
/// them.
pub open spec fn spec_set_default(
    data: CreatePuzzleInput,
    now: Timestamptz,
    now_date: Date,
    durations: DazeDurations,
) -> CreatePuzzleInput {
    CreatePuzzleInput {
        created: if data.created is Some {
            data.created
        } else {
            Some(now)
        },
        dazed_on: if data.dazed_on is Some {
            data.dazed_on
        } else {
            Some(
                (now_date + (DazedTimeCalc { yami: data.yami, genre: data.genre }).spec_duration(
                    durations,
                )) as i32,
            )
        },
        status: if data.status is Some {
            data.status
        } else {
            Some(Status::Undergoing)
        },
        ..data
    }
}

impl CreatePuzzleInput {
    /// The request with its owner replaced.
    pub open spec fn set_user_id_spec(self, user_id: Option<ID>) -> CreatePuzzleInput {
        CreatePuzzleInput { user_id, ..self }
    }
}

/// The decision part of the creation mutation.
pub fn prepare_puzzle_create(
    data: CreatePuzzleInput,
    role: Role,
    request_user_id: Option<ID>,
    now: Timestamptz,
    now_date: Date,
    durations: &DazeDurations,
) -> (r: Result<CreatePuzzleData, ApiError>)
    requires
        data.dazed_on is None ==> i32::MIN <= now_date + (DazedTimeCalc {
            yami: data.yami,
            genre: data.genre,
        }).spec_duration(*durations) <= i32::MAX,
    ensures
        r == spec_prepare_puzzle_create(data, role, request_user_id, now, now_date, *durations),
{
    match role {
        Role::Guest => Err(ApiError::UserNotLoggedIn),
        Role::Admin => Ok(CreatePuzzleData::from(data.set_default(now, now_date, durations))),
        Role::User => {
            if data.created.is_some() || data.modified.is_some() {
                return Err(ApiError::AssertionFailed);
            }
            match data.user_id {
                Some(user_id) => {
                    match user_id_guard(Role::User, request_user_id, user_id) {
                        Ok(()) => Ok(
                            CreatePuzzleData::from(data.set_default(now, now_date, durations)),
                        ),
                        Err(e) => Err(e),
                    }
                },
                None => Ok(
                    CreatePuzzleData::from(
                        data.set_default(now, now_date, durations).set_user_id(request_user_id),
                    ),
                ),
            }
        },
    }
}

} // verus!
