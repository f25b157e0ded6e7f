//! The course of one edit of a team, as a state machine: what came back from
//! the server or the user decides what is asked or sent next. The caller does
//! the asking and the sending; nothing is decided outside this module.

use vstd::prelude::*;
use vstd::string::*;
use crate::teams::edit::{
    first_with_id, name_taken, protected, select_team, selection, selection_at, team_names,
    used_names, validate_team_name, EditError, TeamInfo, TeamsEditArgs,
};

verus! {

/// What an edit is waiting for.
#[derive(Clone, Copy, Debug, PartialEq, Eq, Structural)]
pub enum EditStage {
    /// The listing of the user's teams.
    Listing,
    /// The new name, typed by the user.
    Naming,
    /// The new description, typed by the user.
    Describing,
    /// The slug of the new name, typed by the user.
    Slugging,
    /// The server's answer to the update of the name.
    Renaming,
    /// The server's answer to the update of the description.
    Redescribing,
    /// Nothing: the edit is over.
    Closed,
}

/// An edit in progress.
#[derive(Debug)]
pub struct EditSession {
    pub stage: EditStage,
    /// The full identifier of the team.
    pub team_id: String,
    /// The new name, once it is known.
    pub name: Option<String>,
    /// The new description, once it is known.
    pub description: Option<String>,
    /// The user's teams, once they are listed.
    pub teams: Vec<TeamInfo>,
    /// The place of the edited team among them.
    pub place: usize,
}

impl EditSession {
    /// What holds of a session while it waits for the user or for the answer
    /// to an update: the edited team is the first with the identifier and may
    /// be edited, a new name that is known is free, and what the stage is
    /// about to send is known.
    pub open spec fn wf(&self) -> bool {
        match self.stage {
            EditStage::Listing | EditStage::Closed => true,
            stage => {
                &&& self.place < self.teams@.len()
                &&& selection(self.teams@, self.team_id@) == Ok::<int, EditError>(self.place as int)
                &&& self.name matches Some(name) ==> !name_taken(
                    name@,
                    team_names(self.teams@),
                    self.teams@[self.place as int].name@,
                )
                &&& stage == EditStage::Naming ==> self.name.is_none()
                &&& (stage == EditStage::Slugging || stage == EditStage::Renaming)
                    ==> self.name.is_some()
                &&& stage == EditStage::Redescribing ==> self.description.is_some()
            },
        }
    }
}

/// What came back from outside.
#[derive(Debug)]
pub enum EditEvent {
    /// The listing of the user's teams.
    Teams(Vec<TeamInfo>),
    /// What the user typed, or `None` where it could not be read.
    Typed(Option<String>),
    /// The identifier that the server returned for an update, or `None`
    /// where it returned none.
    Updated(Option<String>),
}

/// What the caller does next.
#[derive(Debug)]
pub enum EditAction {
    /// Fetch the listing of the user's teams.
    FetchTeams,
    /// Ask for the new name, offering the current one.
    AskName { current: String },
    /// Ask for the new description, offering the current one if there is one.
    AskDescription { current: Option<String> },
    /// Ask for the slug of the new name.
    AskSlug { name: String },
    /// Send the update of the name.
    SendName { id: String, name: String, slug: String },
    /// Send the update of the description.
    SendDescription { id: String, description: String },
    /// Tell the user that the team was updated.
    Report { id: String },
    /// Give up with this error.
    Fail(EditError),
}

/// Whether `action` sends an update to the server.
pub open spec fn sends_update(action: EditAction) -> bool {
    action is SendName || action is SendDescription
}

/// `session`, moved to `stage`.
pub open spec fn at(session: EditSession, stage: EditStage) -> EditSession {
    EditSession {
        stage,
        team_id: session.team_id,
        name: session.name,
        description: session.description,
        teams: session.teams,
        place: session.place,
    }
}

/// The edit is given up with `error`.
pub open spec fn failed(session: EditSession, error: EditError) -> (EditSession, EditAction) {
    (at(session, EditStage::Closed), EditAction::Fail(error))
}

/// The new values are known: the name goes first, and needs its slug; an
/// edit of the description alone is sent at once.
pub open spec fn after_inputs(session: EditSession) -> (EditSession, EditAction) {
    match session.name {
        Some(name) => (at(session, EditStage::Slugging), EditAction::AskSlug { name }),
        None => after_name(session),
    }
}

/// The name is dealt with: the description follows where there is one, else
/// the edit is done.
pub open spec fn after_name(session: EditSession) -> (EditSession, EditAction) {
    match session.description {
        Some(description) => (
            at(session, EditStage::Redescribing),
            EditAction::SendDescription { id: session.team_id, description },
        ),
        None => (at(session, EditStage::Closed), EditAction::Report { id: session.team_id }),
    }
}

/// The step on the listing of the user's teams. The team must be listed and
/// not be the built-in one, and a name given with the command must be free;
/// where the command gave neither name nor description, they are asked for.
pub open spec fn after_teams(session: EditSession, teams: Vec<TeamInfo>) -> (
    EditSession,
    EditAction,
) {
    if session.stage != EditStage::Listing {
        failed(session, EditError::OutOfTurn)
    } else {
        match selection(teams@, session.team_id@) {
            Err(error) => failed(session, error),
            Ok(place) => {
                let held = EditSession {
                    stage: session.stage,
                    team_id: session.team_id,
                    name: session.name,
                    description: session.description,
                    teams,
                    place: place as usize,
                };
                if session.name.is_none() && session.description.is_none() {
                    (
                        at(held, EditStage::Naming),
                        EditAction::AskName { current: teams@[place].name },
                    )
                } else if session.name matches Some(name) && name_taken(
                    name@,
                    team_names(teams@),
                    teams@[place].name@,
                ) {
                    failed(held, EditError::DuplicateName)
                } else {
                    after_inputs(held)
                }
            },
        }
    }
}

/// The step on what the user typed: a name, a description or a slug,
/// according to the stage. A name that another team has is asked for again.
pub open spec fn after_answer(session: EditSession, answer: Option<String>) -> (
    EditSession,
    EditAction,
) {
    match session.stage {
        EditStage::Naming => match answer {
            None => failed(session, EditError::NameUnread),
            Some(name) => if session.place >= session.teams@.len() {
                failed(session, EditError::OutOfTurn)
            } else {
                let team = session.teams@[session.place as int];
                if name_taken(name@, team_names(session.teams@), team.name@) {
                    (session, EditAction::AskName { current: team.name })
                } else {
                    (
                        EditSession {
                            stage: EditStage::Describing,
                            team_id: session.team_id,
                            name: Some(name),
                            description: session.description,
                            teams: session.teams,
                            place: session.place,
                        },
                        EditAction::AskDescription { current: team.description },
                    )
                }
            },
        },
        EditStage::Describing => match answer {
            None => failed(session, EditError::DescriptionUnread),
            Some(description) => after_inputs(
                EditSession {
                    stage: session.stage,
                    team_id: session.team_id,
                    name: session.name,
                    description: Some(description),
                    teams: session.teams,
                    place: session.place,
                },
            ),
        },
        EditStage::Slugging => match (answer, session.name) {
            (None, _) => failed(session, EditError::SlugUnread),
            (Some(_), None) => failed(session, EditError::OutOfTurn),
            (Some(slug), Some(name)) => (
                at(session, EditStage::Renaming),
                EditAction::SendName { id: session.team_id, name, slug },
            ),
        },
        _ => failed(session, EditError::OutOfTurn),
    }
}

/// The step on the server's answer to an update: without an identifier in
/// it the update failed, and nothing more is sent.
pub open spec fn after_update(session: EditSession, returned: Option<String>) -> (
    EditSession,
    EditAction,
) {
    match session.stage {
        EditStage::Renaming => match returned {
            None => failed(session, EditError::NameNotUpdated),
            Some(_) => after_name(session),
        },
        EditStage::Redescribing => match returned {
            None => failed(session, EditError::DescriptionNotUpdated),
            Some(_) => (at(session, EditStage::Closed), EditAction::Report { id: session.team_id }),
        },
        _ => failed(session, EditError::OutOfTurn),
    }
}

/// The session after `event`, and what the caller does next.
pub open spec fn next(session: EditSession, event: EditEvent) -> (EditSession, EditAction) {
    match event {
        EditEvent::Teams(teams) => after_teams(session, teams),
        EditEvent::Typed(answer) => after_answer(session, answer),
        EditEvent::Updated(returned) => after_update(session, returned),
    }
}

/// Starts the edit of the team with the full identifier `team_id`: the
/// listing of the user's teams is fetched first.
pub fn begin(args: &TeamsEditArgs, team_id: String) -> (start: (EditSession, EditAction))
    ensures
        start.0.stage == EditStage::Listing,
        start.0.team_id == team_id,
        start.0.name == args.name,
        start.0.description == args.description,
        start.0.teams@.len() == 0,
        start.0.place == 0,
        start.0.wf(),
        start.1 == EditAction::FetchTeams,
{
    let session = EditSession {
        stage: EditStage::Listing,
        team_id,
        name: copy_of(&args.name),
        description: copy_of(&args.description),
        teams: Vec::new(),
        place: 0,
    };
    (session, EditAction::FetchTeams)
}

/// A copy of an optional text.
fn copy_of(text: &Option<String>) -> (copy: Option<String>)
    ensures
        copy == *text,
{
    match text {
        Some(t) => Some(t.clone()),
        None => None,
    }
}

/// Ends the edit with `error`.
fn fail(session: EditSession, error: EditError) -> (end: (EditSession, EditAction))
    ensures
        end == failed(session, error),
        end.0.wf(),
{
    let mut closed = session;
    closed.stage = EditStage::Closed;
    (closed, EditAction::Fail(error))
}

/// Goes on once the name is dealt with.
fn proceed_after_name(session: EditSession) -> (end: (EditSession, EditAction))
    ensures
        end == after_name(session),
        at(session, EditStage::Describing).wf() ==> end.0.wf(),
{
    let mut now = session;
    let id = now.team_id.clone();
    match copy_of(&now.description) {
        Some(description) => {
            now.stage = EditStage::Redescribing;
            (now, EditAction::SendDescription { id, description })
        },
        None => {
            now.stage = EditStage::Closed;
            (now, EditAction::Report { id })
        },
    }
}

/// Goes on once the new values are known.
fn proceed_after_inputs(session: EditSession) -> (end: (EditSession, EditAction))
    ensures
        end == after_inputs(session),
        at(session, EditStage::Describing).wf() ==> end.0.wf(),
{
    match copy_of(&session.name) {
        Some(name) => {
            let mut now = session;
            now.stage = EditStage::Slugging;
            (now, EditAction::AskSlug { name })
        },
        None => proceed_after_name(session),
    }
}

/// The step on the listing of the user's teams.
fn on_teams(session: EditSession, teams: Vec<TeamInfo>) -> (end: (EditSession, EditAction))
    ensures
        end == after_teams(session, teams),
        session.wf() ==> end.0.wf(),
{
    if session.stage != EditStage::Listing {
        return fail(session, EditError::OutOfTurn);
    }
    let place = match select_team(&teams, session.team_id.as_str()) {
        Ok(place) => place,
        Err(error) => {
            return fail(session, error);
        },
    };
    let current = teams[place].name.clone();
    let ask = session.name.is_none() && session.description.is_none();
    let taken = match &session.name {
        Some(name) => {
            let used = used_names(&teams);
            validate_team_name(name.as_str(), &used, current.as_str()).is_err()
        },
        None => false,
    };
    let mut held = session;
    held.teams = teams;
    held.place = place;
    if ask {
        held.stage = EditStage::Naming;
        (held, EditAction::AskName { current })
    } else if taken {
        fail(held, EditError::DuplicateName)
    } else {
        proceed_after_inputs(held)
    }
}

/// The step on what the user typed.
fn on_answer(session: EditSession, answer: Option<String>) -> (end: (EditSession, EditAction))
    ensures
        end == after_answer(session, answer),
        session.wf() ==> end.0.wf(),
{
    match session.stage {
        EditStage::Naming => match answer {
            None => fail(session, EditError::NameUnread),
            Some(name) => {
                if session.place >= session.teams.len() {
                    return fail(session, EditError::OutOfTurn);
                }
                let current = session.teams[session.place].name.clone();
                let used = used_names(&session.teams);
                if validate_team_name(name.as_str(), &used, current.as_str()).is_err() {
                    (session, EditAction::AskName { current })
                } else {
                    let offered = copy_of(&session.teams[session.place].description);
                    let mut now = session;
                    now.stage = EditStage::Describing;
                    now.name = Some(name);
                    (now, EditAction::AskDescription { current: offered })
                }
            },
        },
        EditStage::Describing => match answer {
            None => fail(session, EditError::DescriptionUnread),
            Some(description) => {
                let mut now = session;
                now.description = Some(description);
                proceed_after_inputs(now)
            },
        },
        EditStage::Slugging => match answer {
            None => fail(session, EditError::SlugUnread),
            Some(slug) => match copy_of(&session.name) {
                None => fail(session, EditError::OutOfTurn),
                Some(name) => {
                    let id = session.team_id.clone();
                    let mut now = session;
                    now.stage = EditStage::Renaming;
                    (now, EditAction::SendName { id, name, slug })
                },
            },
        },
        _ => fail(session, EditError::OutOfTurn),
    }
}

/// The step on the server's answer to an update.
fn on_update(session: EditSession, returned: Option<String>) -> (end: (EditSession, EditAction))
    ensures
        end == after_update(session, returned),
        session.wf() ==> end.0.wf(),
{
    match session.stage {
        EditStage::Renaming => match returned {
            None => fail(session, EditError::NameNotUpdated),
            Some(_) => proceed_after_name(session),
        },
        EditStage::Redescribing => match returned {
            None => fail(session, EditError::DescriptionNotUpdated),
            Some(_) => {
                let id = session.team_id.clone();
                let mut now = session;
                now.stage = EditStage::Closed;
                (now, EditAction::Report { id })
            },
        },
        _ => fail(session, EditError::OutOfTurn),
    }
}

/// Takes one step of the edit: from the session and what came back from
/// outside to the session after it and what the caller does next. An event
/// that the session does not wait for ends the edit.
pub fn step(session: EditSession, event: EditEvent) -> (end: (EditSession, EditAction))
    ensures
        end == next(session, event),
        session.wf() ==> end.0.wf(),
{
    match event {
        EditEvent::Teams(teams) => on_teams(session, teams),
        EditEvent::Typed(answer) => on_answer(session, answer),
        EditEvent::Updated(returned) => on_update(session, returned),
    }
}

/// The built-in team is refused on the listing, the first thing that comes
/// back: the edit is over before anything was asked or sent.
pub proof fn protected_team_is_refused(session: EditSession, teams: Vec<TeamInfo>, place: int)
    requires
        session.stage == EditStage::Listing,
        first_with_id(teams@, session.team_id@, place),
        protected(teams@[place]),
    ensures
        next(session, EditEvent::Teams(teams)).1 == EditAction::Fail(EditError::ProtectedTeam),
        next(session, EditEvent::Teams(teams)).0.stage == EditStage::Closed,
{
    selection_at(teams@, session.team_id@, place);
}

/// A name given with the command that another team has ends the edit on the
/// listing: nothing is sent.
pub proof fn taken_name_is_refused(
    session: EditSession,
    teams: Vec<TeamInfo>,
    place: int,
    sibling: int,
)
    requires
        session.stage == EditStage::Listing,
        first_with_id(teams@, session.team_id@, place),
        !protected(teams@[place]),
        session.name is Some,
        0 <= sibling < teams@.len(),
        teams@[sibling].name@ == session.name->0@,
        teams@[sibling].name@ != teams@[place].name@,
    ensures
        next(session, EditEvent::Teams(teams)).1 == EditAction::Fail(EditError::DuplicateName),
        next(session, EditEvent::Teams(teams)).0.stage == EditStage::Closed,
{
    selection_at(teams@, session.team_id@, place);
    assert(team_names(teams@)[sibling] == session.name->0@);
}

/// On the listing an update is sent only for a team that may be edited: one
/// that is listed and is not the built-in team.
pub proof fn update_needs_an_editable_team(session: EditSession, teams: Vec<TeamInfo>)
    requires
        sends_update(next(session, EditEvent::Teams(teams)).1),
    ensures
        session.stage == EditStage::Listing,
        selection(teams@, session.team_id@) is Ok,
{
}

/// Whatever is sent is sent for the team of the session, which may be
/// edited; and a name that is sent is free: no other team of the user has it.
pub proof fn what_is_sent_was_checked(session: EditSession, event: EditEvent)
    requires
        session.wf(),
        sends_update(next(session, event).1),
    ensures
        match next(session, event).1 {
            EditAction::SendName { id, name, slug } => id == session.team_id && session.name
                == Some(name),
            EditAction::SendDescription { id, description } => id == session.team_id,
            _ => false,
        },
        selection(next(session, event).0.teams@, session.team_id@) is Ok,
        next(session, event).1 matches EditAction::SendName { id, name, slug } ==> !name_taken(
            name@,
            team_names(session.teams@),
            session.teams@[session.place as int].name@,
        ),
{
}

/// A step that fails ends the edit, and a session that is over stays so.
pub proof fn failure_is_final(session: EditSession, event: EditEvent, later: EditEvent)
    requires
        next(session, event).1 is Fail,
    ensures
        next(session, event).0.stage == EditStage::Closed,
        next(next(session, event).0, later).1 == EditAction::Fail(EditError::OutOfTurn),
        next(next(session, event).0, later).0.stage == EditStage::Closed,
{
}

} // verus!
