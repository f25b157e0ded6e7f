//! The rules of editing a team: which team may be edited, which names are
//! free, and which updates are sent, in what order.

use vstd::prelude::*;
use vstd::string::*;
use crate::text::{contains_text, same_text, views};

verus! {

/// The arguments of the command that edits a team.
#[derive(Clone, Debug)]
pub struct TeamsEditArgs {
    /// The team's identifier, or the first characters of it.
    pub id: String,
    /// The new name, if it is given on the command line.
    pub name: Option<String>,
    /// The new description, if it is given on the command line.
    pub description: Option<String>,
    /// The new slug, if it is given on the command line.
    pub slug: Option<String>,
    /// The access token; without it the stored token is used.
    pub access_token: Option<String>,
}

/// A team as the listing of the user's teams shows it.
#[derive(Clone, Debug)]
pub struct TeamInfo {
    pub id: String,
    pub name: String,
    pub description: Option<String>,
}

/// Why an edit was given up.
#[derive(Clone, Copy, Debug, PartialEq, Eq, Structural)]
pub enum EditError {
    /// The user has no team at all.
    NoTeams,
    /// The user has teams, but not the one to edit.
    TeamNotListed,
    /// The team is the built-in one, which stays as it is.
    ProtectedTeam,
    /// Another team of the user has the new name.
    DuplicateName,
    /// The new name could not be read.
    NameUnread,
    /// The new description could not be read.
    DescriptionUnread,
    /// The slug of the new name could not be read.
    SlugUnread,
    /// The server did not confirm the new name.
    NameNotUpdated,
    /// The server did not confirm the new description.
    DescriptionNotUpdated,
    /// Something came back that the edit was not waiting for.
    OutOfTurn,
}

/// The name of the built-in team.
pub open spec fn protected_name() -> Seq<char> {
    "Personal projects"@
}

/// Whether `team` is the built-in team.
pub open spec fn protected(team: TeamInfo) -> bool {
    team.name@ == protected_name()
}

/// Whether `i` is the place of the first team of `teams` with identifier `id`.
pub open spec fn first_with_id(teams: Seq<TeamInfo>, id: Seq<char>, i: int) -> bool {
    &&& 0 <= i < teams.len()
    &&& teams[i].id@ == id
    &&& forall|j: int| 0 <= j < i ==> teams[j].id@ != id
}

/// Whether a team of `teams` has identifier `id`.
pub open spec fn listed(teams: Seq<TeamInfo>, id: Seq<char>) -> bool {
    exists|i: int| 0 <= i < teams.len() && #[trigger] teams[i].id@ == id
}

/// The names of `teams`, in order.
pub open spec fn team_names(teams: Seq<TeamInfo>) -> Seq<Seq<char>> {
    teams.map_values(|t: TeamInfo| t.name@)
}

/// Whether `name` is refused as the new name of a team now called `own`,
/// where `used` are the names of the user's teams: it is another team's name.
pub open spec fn name_taken(name: Seq<char>, used: Seq<Seq<char>>, own: Seq<char>) -> bool {
    used.contains(name) && name != own
}

/// The team that an edit of `id` is about, by its place in `teams`, or the
/// reason why there is no edit.
pub open spec fn selection(teams: Seq<TeamInfo>, id: Seq<char>) -> Result<int, EditError> {
    if teams.len() == 0 {
        Err(EditError::NoTeams)
    } else if !listed(teams, id) {
        Err(EditError::TeamNotListed)
    } else {
        let i = choose|i: int| first_with_id(teams, id, i);
        if protected(teams[i]) {
            Err(EditError::ProtectedTeam)
        } else {
            Ok(i)
        }
    }
}

/// The message of a failed edit.
pub open spec fn edit_error_text(error: EditError) -> Seq<char> {
    match error {
        EditError::NoTeams => "Editing error. You don't have any teams."@,
        EditError::TeamNotListed => "Editing error. Failed to retrieve user teams."@,
        EditError::ProtectedTeam =>
            "Editing error. You can't change the name of the team `Personal projects`."@,
        EditError::DuplicateName => "The team name must be unique."@,
        EditError::NameUnread => "Editing error. Failed to read the team name."@,
        EditError::DescriptionUnread => "Editing error. Failed to read the team description."@,
        EditError::SlugUnread => "Editing error. Failed to read the team slug."@,
        EditError::NameNotUpdated => "Editing error. Failed to update the team name."@,
        EditError::DescriptionNotUpdated =>
            "Editing error. Failed to update the team description."@,
        EditError::OutOfTurn => "Editing error. An answer came out of turn."@,
    }
}

impl EditError {
    /// The message of the failure.
    pub fn message(&self) -> (text: &'static str)
        ensures
            text@ == edit_error_text(*self),
    {
        match self {
            EditError::NoTeams => "Editing error. You don't have any teams.",
            EditError::TeamNotListed => "Editing error. Failed to retrieve user teams.",
            EditError::ProtectedTeam =>
                "Editing error. You can't change the name of the team `Personal projects`.",
            EditError::DuplicateName => "The team name must be unique.",
            EditError::NameUnread => "Editing error. Failed to read the team name.",
            EditError::DescriptionUnread => "Editing error. Failed to read the team description.",
            EditError::SlugUnread => "Editing error. Failed to read the team slug.",
            EditError::NameNotUpdated => "Editing error. Failed to update the team name.",
            EditError::DescriptionNotUpdated =>
                "Editing error. Failed to update the team description.",
            EditError::OutOfTurn => "Editing error. An answer came out of turn.",
        }
    }
}

/// Whether `team` is the built-in team, which cannot be edited.
pub fn is_protected(team: &TeamInfo) -> (guarded: bool)
    ensures
        guarded == protected(*team),
{
    same_text(team.name.as_str(), "Personal projects")
}

/// The place of the first team with identifier `team_id`.
pub fn find_team(teams: &Vec<TeamInfo>, team_id: &str) -> (place: Option<usize>)
    ensures
        match place {
            Some(i) => first_with_id(teams@, team_id@, i as int),
            None => !listed(teams@, team_id@),
        },
{
    let mut i: usize = 0;
    while i < teams.len()
        invariant
            i <= teams.len(),
            forall|j: int| 0 <= j < i ==> teams@[j].id@ != team_id@,
        decreases teams.len() - i,
    {
        if same_text(teams[i].id.as_str(), team_id) {
            return Some(i);
        }
        i += 1;
    }
    None
}

/// The first place with a given identifier is the only one.
pub proof fn first_with_id_is_unique(teams: Seq<TeamInfo>, id: Seq<char>, i: int, j: int)
    requires
        first_with_id(teams, id, i),
        first_with_id(teams, id, j),
    ensures
        i == j,
{
    if i < j {
        assert(teams[i].id@ != id);
    } else if j < i {
        assert(teams[j].id@ != id);
    }
}

/// Where a team has the identifier, there is a first one that has it.
pub proof fn first_with_id_exists(teams: Seq<TeamInfo>, id: Seq<char>, k: int) -> (i: int)
    requires
        0 <= k < teams.len(),
        teams[k].id@ == id,
    ensures
        first_with_id(teams, id, i),
    decreases k,
{
    if exists|j: int| 0 <= j < k && #[trigger] teams[j].id@ == id {
        let j = choose|j: int| 0 <= j < k && #[trigger] teams[j].id@ == id;
        first_with_id_exists(teams, id, j)
    } else {
        k
    }
}

/// The team that `selection` picks is the first with the identifier, and is
/// not the built-in team.
pub proof fn selection_is_editable(teams: Seq<TeamInfo>, id: Seq<char>)
    ensures
        selection(teams, id) matches Ok(i) ==> first_with_id(teams, id, i) && !protected(teams[i]),
{
    if teams.len() > 0 && listed(teams, id) {
        let k = choose|k: int| 0 <= k < teams.len() && #[trigger] teams[k].id@ == id;
        let i = first_with_id_exists(teams, id, k);
        selection_at(teams, id, i);
    }
}

/// Where a first place exists, `selection` goes by it.
pub proof fn selection_at(teams: Seq<TeamInfo>, id: Seq<char>, i: int)
    requires
        first_with_id(teams, id, i),
    ensures
        selection(teams, id) == if protected(teams[i]) {
            Err::<int, EditError>(EditError::ProtectedTeam)
        } else {
            Ok::<int, EditError>(i)
        },
{
    assert(listed(teams, id));
    let k = choose|k: int| first_with_id(teams, id, k);
    first_with_id_is_unique(teams, id, i, k);
}

/// A team's own name is accepted as its new name, whatever names are in use.
pub proof fn own_name_is_accepted(used: Seq<Seq<char>>, own: Seq<char>)
    ensures
        !name_taken(own, used, own),
{
}

/// The name of another team, where it differs from the team's own, is
/// refused as the team's new name.
pub proof fn sibling_name_is_refused(teams: Seq<TeamInfo>, edited: int, sibling: int)
    requires
        0 <= edited < teams.len(),
        0 <= sibling < teams.len(),
        teams[sibling].name@ != teams[edited].name@,
    ensures
        name_taken(teams[sibling].name@, team_names(teams), teams[edited].name@),
{
    assert(team_names(teams)[sibling] == teams[sibling].name@);
}

/// Picks the team to edit: the first of `teams` with identifier `team_id`,
/// unless it is the built-in team.
pub fn select_team(teams: &Vec<TeamInfo>, team_id: &str) -> (outcome: Result<usize, EditError>)
    ensures
        match outcome {
            Ok(i) => selection(teams@, team_id@) == Ok::<int, EditError>(i as int) && i
                < teams@.len(),
            Err(e) => selection(teams@, team_id@) == Err::<int, EditError>(e),
        },
{
    if teams.len() == 0 {
        return Err(EditError::NoTeams);
    }
    match find_team(teams, team_id) {
        None => Err(EditError::TeamNotListed),
        Some(i) => {
            proof {
                selection_at(teams@, team_id@, i as int);
            }
            if is_protected(&teams[i]) {
                Err(EditError::ProtectedTeam)
            } else {
                Ok(i)
            }
        },
    }
}

/// The names that are in use: those of all the user's teams.
pub fn used_names(teams: &Vec<TeamInfo>) -> (names: Vec<String>)
    ensures
        views(names@) == team_names(teams@),
{
    let mut names: Vec<String> = Vec::new();
    let mut i: usize = 0;
    while i < teams.len()
        invariant
            i <= teams.len(),
            views(names@) =~= team_names(teams@.take(i as int)),
        decreases teams.len() - i,
    {
        let ghost before = names@;
        names.push(teams[i].name.clone());
        assert(views(names@) =~= views(before).push(teams@[i as int].name@));
        assert(team_names(teams@.take(i + 1)) =~= team_names(teams@.take(i as int)).push(
            teams@[i as int].name@,
        ));
        i += 1;
    }
    assert(teams@.take(i as int) =~= teams@);
    names
}

/// Checks a new name for a team now called `own_name`: the name of another
/// team is refused, the team's own name is accepted.
pub fn validate_team_name(name: &str, used: &Vec<String>, own_name: &str) -> (outcome: Result<
    (),
    EditError,
>)
    ensures
        outcome == if name_taken(name@, views(used@), own_name@) {
            Err::<(), EditError>(EditError::DuplicateName)
        } else {
            Ok::<(), EditError>(())
        },
{
    if contains_text(used, name) && !same_text(name, own_name) {
        Err(EditError::DuplicateName)
    } else {
        Ok(())
    }
}

/// The text that the prompt for a description starts with: the team's
/// description, or nothing.
pub fn description_default(current: &Option<String>) -> (text: String)
    ensures
        text@ == match *current {
            Some(d) => d@,
            None => Seq::<char>::empty(),
        },
{
    match current {
        Some(d) => d.clone(),
        None => String::new(),
    }
}

} // verus!
