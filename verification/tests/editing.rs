use zero_cli::report::{compose_report, success_report, team_settings_url};
use zero_cli::teams::edit::{
    description_default, find_team, is_protected, select_team, used_names, validate_team_name,
    EditError, TeamInfo, TeamsEditArgs,
};
use zero_cli::teams::session::{begin, step, EditAction, EditEvent, EditSession, EditStage};
use zero_cli::tokens::generate_token::{GenerateToken, Variables, OPERATION_NAME, QUERY};

fn team(id: &str, name: &str, description: Option<&str>) -> TeamInfo {
    TeamInfo {
        id: id.to_string(),
        name: name.to_string(),
        description: description.map(|d| d.to_string()),
    }
}

fn teams() -> Vec<TeamInfo> {
    vec![
        team("aaaa-1", "Personal projects", None),
        team("bbbb-2", "Backend", Some("the servers")),
        team("cccc-3", "Frontend", None),
    ]
}

fn args(name: Option<&str>, description: Option<&str>) -> TeamsEditArgs {
    TeamsEditArgs {
        id: "bbbb".to_string(),
        name: name.map(|n| n.to_string()),
        description: description.map(|d| d.to_string()),
        slug: None,
        access_token: None,
    }
}

fn listed(name: Option<&str>, description: Option<&str>, id: &str) -> (EditSession, EditAction) {
    let (session, action) = begin(&args(name, description), id.to_string());
    assert!(matches!(action, EditAction::FetchTeams));
    assert_eq!(session.stage, EditStage::Listing);
    step(session, EditEvent::Teams(teams()))
}

fn typed(text: &str) -> EditEvent {
    EditEvent::Typed(Some(text.to_string()))
}

fn updated(id: &str) -> EditEvent {
    EditEvent::Updated(Some(id.to_string()))
}

fn assert_failed(end: (EditSession, EditAction), expected: EditError) {
    assert_eq!(end.0.stage, EditStage::Closed);
    match end.1 {
        EditAction::Fail(error) => assert_eq!(error, expected),
        other => panic!("expected a failure, got {:?}", other),
    }
}

#[test]
fn own_name_is_accepted_and_a_sibling_name_refused() {
    let used = used_names(&teams());
    assert_eq!(used, vec!["Personal projects", "Backend", "Frontend"]);
    assert_eq!(validate_team_name("Backend", &used, "Backend"), Ok(()));
    assert_eq!(validate_team_name("Frontend", &used, "Backend"), Err(EditError::DuplicateName));
    assert_eq!(
        validate_team_name("Personal projects", &used, "Backend"),
        Err(EditError::DuplicateName)
    );
    assert_eq!(validate_team_name("Platform", &used, "Backend"), Ok(()));
    assert_eq!(validate_team_name("backend", &used, "Frontend"), Ok(()));
}

#[test]
fn renaming_to_a_used_name_sends_nothing() {
    assert_failed(listed(Some("Frontend"), Some("d"), "bbbb-2"), EditError::DuplicateName);
    assert_failed(listed(Some("Personal projects"), None, "cccc-3"), EditError::DuplicateName);
}

#[test]
fn the_protected_team_is_never_updated() {
    let all = teams();
    assert_eq!(select_team(&all, "aaaa-1"), Err(EditError::ProtectedTeam));
    assert_failed(listed(Some("Mine"), None, "aaaa-1"), EditError::ProtectedTeam);
    assert_failed(listed(None, Some("text"), "aaaa-1"), EditError::ProtectedTeam);
    assert_failed(listed(None, None, "aaaa-1"), EditError::ProtectedTeam);
    let (closed, _) = listed(None, None, "aaaa-1");
    assert_failed(step(closed, updated("aaaa-1")), EditError::OutOfTurn);
    assert!(is_protected(&all[0]));
    assert!(!is_protected(&all[1]));
    assert!(!is_protected(&team("x", "personal projects", None)));
}

#[test]
fn selecting_a_team() {
    let all = teams();
    assert_eq!(select_team(&all, "bbbb-2"), Ok(1));
    assert_eq!(select_team(&all, "cccc-3"), Ok(2));
    assert_eq!(select_team(&all, "bbbb"), Err(EditError::TeamNotListed));
    assert_eq!(select_team(&Vec::new(), "bbbb-2"), Err(EditError::NoTeams));
    assert_eq!(find_team(&all, "cccc-3"), Some(2));
    assert_eq!(find_team(&all, "dddd-4"), None);
    let twice = vec![team("x", "one", None), team("x", "two", None)];
    assert_eq!(find_team(&twice, "x"), Some(0));
}

#[test]
fn an_edit_without_a_team_fails_on_the_listing() {
    assert_failed(listed(Some("n"), None, "zzzz"), EditError::TeamNotListed);
    let (session, _) = begin(&args(None, None), "bbbb-2".to_string());
    assert_failed(step(session, EditEvent::Teams(Vec::new())), EditError::NoTeams);
}

#[test]
fn an_edit_from_the_command_line_sends_the_name_first() {
    let (session, action) = listed(Some("Platform"), Some("new"), "bbbb-2");
    assert_eq!(session.stage, EditStage::Slugging);
    assert_eq!(session.place, 1);
    match action {
        EditAction::AskSlug { name } => assert_eq!(name, "Platform"),
        other => panic!("expected the slug to be asked for, got {:?}", other),
    }
    let (session, action) = step(session, typed("platform"));
    assert_eq!(session.stage, EditStage::Renaming);
    match action {
        EditAction::SendName { id, name, slug } => {
            assert_eq!(id, "bbbb-2");
            assert_eq!(name, "Platform");
            assert_eq!(slug, "platform");
        }
        other => panic!("expected the name to be sent, got {:?}", other),
    }
    let (session, action) = step(session, updated("bbbb-2"));
    assert_eq!(session.stage, EditStage::Redescribing);
    match action {
        EditAction::SendDescription { id, description } => {
            assert_eq!(id, "bbbb-2");
            assert_eq!(description, "new");
        }
        other => panic!("expected the description to be sent, got {:?}", other),
    }
    let (session, action) = step(session, updated("bbbb-2"));
    assert_eq!(session.stage, EditStage::Closed);
    match action {
        EditAction::Report { id } => assert_eq!(id, "bbbb-2"),
        other => panic!("expected the report, got {:?}", other),
    }
}

#[test]
fn an_edit_of_one_value_sends_one_update() {
    let (session, action) = listed(None, Some("ui"), "cccc-3");
    assert_eq!(session.stage, EditStage::Redescribing);
    assert!(matches!(action, EditAction::SendDescription { .. }));
    let (_, action) = step(session, updated("cccc-3"));
    assert!(matches!(action, EditAction::Report { .. }));

    let (session, _) = listed(Some("Backend"), None, "bbbb-2");
    let (session, action) = step(session, typed("backend"));
    assert!(matches!(action, EditAction::SendName { .. }));
    let (session, action) = step(session, updated("bbbb-2"));
    assert_eq!(session.stage, EditStage::Closed);
    assert!(matches!(action, EditAction::Report { .. }));
}

#[test]
fn an_edit_without_values_asks_for_them() {
    let (session, action) = listed(None, None, "bbbb-2");
    assert_eq!(session.stage, EditStage::Naming);
    match action {
        EditAction::AskName { current } => assert_eq!(current, "Backend"),
        other => panic!("expected the name to be asked for, got {:?}", other),
    }
    let (session, action) = step(session, typed("Frontend"));
    assert_eq!(session.stage, EditStage::Naming);
    match action {
        EditAction::AskName { current } => assert_eq!(current, "Backend"),
        other => panic!("expected the name to be asked for again, got {:?}", other),
    }
    let (session, action) = step(session, typed("Backend"));
    assert_eq!(session.stage, EditStage::Describing);
    assert_eq!(session.name, Some("Backend".to_string()));
    match action {
        EditAction::AskDescription { current } => {
            assert_eq!(current, Some("the servers".to_string()))
        }
        other => panic!("expected the description to be asked for, got {:?}", other),
    }
    let (session, action) = step(session, typed(""));
    assert_eq!(session.stage, EditStage::Slugging);
    assert_eq!(session.description, Some(String::new()));
    assert!(matches!(action, EditAction::AskSlug { .. }));
    let (session, action) = step(session, typed("backend"));
    assert!(matches!(action, EditAction::SendName { .. }));
    let (session, action) = step(session, updated("bbbb-2"));
    match action {
        EditAction::SendDescription { id, description } => {
            assert_eq!(id, "bbbb-2");
            assert_eq!(description, "");
        }
        other => panic!("expected the description to be sent, got {:?}", other),
    }
    let (_, action) = step(session, updated("bbbb-2"));
    assert!(matches!(action, EditAction::Report { .. }));
}

#[test]
fn unread_answers_and_unconfirmed_updates_fail() {
    let (session, _) = listed(None, None, "bbbb-2");
    assert_failed(step(session, EditEvent::Typed(None)), EditError::NameUnread);

    let (session, _) = listed(None, None, "bbbb-2");
    let (session, _) = step(session, typed("Platform"));
    assert_failed(step(session, EditEvent::Typed(None)), EditError::DescriptionUnread);

    let (session, _) = listed(Some("Platform"), None, "bbbb-2");
    assert_failed(step(session, EditEvent::Typed(None)), EditError::SlugUnread);

    let (session, _) = listed(Some("Platform"), Some("d"), "bbbb-2");
    let (session, _) = step(session, typed("platform"));
    assert_failed(step(session, EditEvent::Updated(None)), EditError::NameNotUpdated);

    let (session, _) = listed(None, Some("d"), "bbbb-2");
    assert_failed(step(session, EditEvent::Updated(None)), EditError::DescriptionNotUpdated);
}

#[test]
fn an_event_out_of_turn_ends_the_edit() {
    let (session, _) = begin(&args(Some("n"), None), "bbbb-2".to_string());
    assert_failed(step(session, typed("x")), EditError::OutOfTurn);
    let (session, _) = begin(&args(Some("n"), None), "bbbb-2".to_string());
    assert_failed(step(session, updated("bbbb-2")), EditError::OutOfTurn);
    let (session, _) = listed(None, None, "bbbb-2");
    assert_failed(step(session, EditEvent::Teams(teams())), EditError::OutOfTurn);
    let (session, _) = listed(None, None, "bbbb-2");
    let (closed, _) = step(session, updated("bbbb-2"));
    assert_failed(step(closed, typed("Platform")), EditError::OutOfTurn);
}

#[test]
fn default_of_the_description_prompt() {
    assert_eq!(description_default(&Some("the servers".to_string())), "the servers");
    assert_eq!(description_default(&None), "");
}

#[test]
fn messages_of_failed_edits() {
    assert_eq!(EditError::NoTeams.message(), "Editing error. You don't have any teams.");
    assert_eq!(EditError::TeamNotListed.message(), "Editing error. Failed to retrieve user teams.");
    assert_eq!(
        EditError::ProtectedTeam.message(),
        "Editing error. You can't change the name of the team `Personal projects`."
    );
    assert_eq!(EditError::DuplicateName.message(), "The team name must be unique.");
    assert_eq!(EditError::NameUnread.message(), "Editing error. Failed to read the team name.");
    assert_eq!(
        EditError::DescriptionUnread.message(),
        "Editing error. Failed to read the team description."
    );
    assert_eq!(EditError::SlugUnread.message(), "Editing error. Failed to read the team slug.");
    assert_eq!(EditError::OutOfTurn.message(), "Editing error. An answer came out of turn.");
    assert_eq!(
        EditError::NameNotUpdated.message(),
        "Editing error. Failed to update the team name."
    );
    assert_eq!(
        EditError::DescriptionNotUpdated.message(),
        "Editing error. Failed to update the team description."
    );
}

#[test]
fn report_of_a_successful_edit() {
    assert_eq!(
        team_settings_url("https://app.example", "bbbb-2"),
        "https://app.example/teams/bbbb-2?tab=settings"
    );
    assert_eq!(
        compose_report("ok", "link"),
        "ok The team has been successfully updated.\nlink"
    );
    let report = success_report("https://app.example", "bbbb-2");
    assert!(report.contains(" The team has been successfully updated.\n"));
    assert!(report.contains("https://app.example/teams/bbbb-2?tab=settings"));
    assert!(report.contains('\u{2714}'));
}

#[test]
fn generate_token_query() {
    let variables = Variables {
        id: "dc1c".to_string(),
        name: "testToken".to_string(),
        expires_at: None,
    };
    let body = GenerateToken::build_query(variables);
    assert_eq!(body.operation_name, "GenerateToken");
    assert_eq!(body.operation_name, OPERATION_NAME);
    assert_eq!(body.query, QUERY);
    assert!(body.query.starts_with("mutation GenerateToken($id: String!, $name: String!"));
    assert!(body.query.contains("tokenValue"));
    assert_eq!(body.variables.id, "dc1c");
    assert_eq!(body.variables.name, "testToken");
    assert_eq!(body.variables.expires_at, None);
}
