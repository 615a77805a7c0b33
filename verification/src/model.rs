//! The records of the listing service and the ways a run can fail.

use vstd::prelude::*;

verus! {

/// A selectable category.
#[derive(Debug)]
pub struct Games {
    pub name: String,
    pub id: String,
}

/// A category as plain values.
pub struct GamesView {
    pub name: Seq<char>,
    pub id: Seq<char>,
}

impl View for Games {
    type V = GamesView;

    open spec fn view(&self) -> GamesView {
        GamesView { name: self.name@, id: self.id@ }
    }
}

impl Games {
    /// A category can be forwarded into a listing request only with an
    /// identifier that is not empty.
    pub open spec fn well_formed(&self) -> bool {
        self.id@.len() > 0
    }
}

/// One live broadcast.
#[derive(Debug)]
pub struct Entry {
    pub lang: String,
    pub display_name: String,
    pub title: String,
    pub game_id: String,
    pub viewer_count: i64,
    pub live_duration: String,
    pub user_id: String,
    pub tags: String,
}

/// A broadcast as plain values.
pub struct EntryView {
    pub lang: Seq<char>,
    pub display_name: Seq<char>,
    pub title: Seq<char>,
    pub game_id: Seq<char>,
    pub viewer_count: int,
    pub live_duration: Seq<char>,
    pub user_id: Seq<char>,
    pub tags: Seq<char>,
}

impl View for Entry {
    type V = EntryView;

    open spec fn view(&self) -> EntryView {
        EntryView {
            lang: self.lang@,
            display_name: self.display_name@,
            title: self.title@,
            game_id: self.game_id@,
            viewer_count: self.viewer_count as int,
            live_duration: self.live_duration@,
            user_id: self.user_id@,
            tags: self.tags@,
        }
    }
}

/// The views of a run of broadcasts.
pub open spec fn entry_views(s: Seq<Entry>) -> Seq<EntryView> {
    Seq::new(s.len(), |i: int| s[i]@)
}

/// The views of a run of categories.
pub open spec fn games_views(s: Seq<Games>) -> Seq<GamesView> {
    Seq::new(s.len(), |i: int| s[i]@)
}

/// The text inside an optional string.
pub open spec fn text_view(o: Option<String>) -> Option<Seq<char>> {
    match o {
        Some(s) => Some(s@),
        None => None,
    }
}

/// Why a run ends before its summary.
#[derive(Debug)]
pub enum Failure {
    /// The client identifier is unset or empty.
    MissingClientId,
    /// The bearer token is unset or empty.
    MissingToken,
    /// The request did not complete.
    Transport { detail: String },
    /// The response body is not JSON.
    Body { detail: String },
    /// A required field is absent or of the wrong type.
    Field { key: String },
    /// The response holds no `data` array: there is nothing to do.
    NoData,
}

impl Failure {
    /// The process exit status that belongs to the failure: zero for a
    /// response without data, one for everything else.
    pub open spec fn status(&self) -> int {
        match self {
            Failure::NoData => 0,
            _ => 1,
        }
    }

    /// The failure is a required field, `key`, that is absent or mistyped.
    pub open spec fn names_field(&self, key: Seq<char>) -> bool {
        match self {
            Failure::Field { key: k } => k@ == key,
            _ => false,
        }
    }

    /// The exit status with which the process ends on this failure.
    pub fn exit_code(&self) -> (r: i32)
        ensures
            r == self.status(),
    {
        match self {
            Failure::NoData => 0,
            _ => 1,
        }
    }
}

} // verus!
