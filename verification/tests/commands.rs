use composer::commands::cli::{Cli, Cmd};
use composer::commands::delete::{Delete, DeleteAction, DeletePhase};
use composer::commands::install::{
    add_application, verify_file_exists, verify_required_files, Action, AddApplication, Event,
    Install, Outcome, Phase, TemplateProbe,
};
use composer::commands::list::{format_line, pad, print_applications, List};
use composer::commands::test::{Channel, Test};
use composer::commands::upgrade::Upgrade;
use composer::error::ComposerError;
use composer::load_values::ValueSource;
use composer::settings::{
    always_pull, no_run, set_global_always_pull, set_global_no_run, set_global_verbosity,
    verbosity, Level, LevelFilter, Settings,
};
use composer::storage::models::{ApplicationState, PersistedApplication, StoreContents};
use composer::storage::write_to_storage::{append_to_storage, delete_application_by_id};
use composer::walk::WalkEntry;

fn strings(items: Vec<&str>) -> Vec<String> {
    items.into_iter().map(|item| item.to_string()).collect()
}

fn probe(exists: bool, has_descriptor: bool, has_compose: bool, has_ignore: bool) -> TemplateProbe {
    TemplateProbe {
        exists,
        descriptor_path: "dir/app.yaml".to_string(),
        has_descriptor,
        compose_path: "dir/docker-compose.jinja2".to_string(),
        has_compose,
        has_ignore,
    }
}

fn walked(path: &str) -> WalkEntry {
    let file_name = path.rsplit('/').next().unwrap().to_string();
    WalkEntry { path: path.to_string(), file_name, is_file: true }
}

fn values_named(name: &str) -> Event {
    Event::Sources(vec![ValueSource {
        source: name.to_string(),
        contents: Some("image: nginx\n".to_string()),
    }])
}

fn values_event() -> Event {
    values_named("values.yaml")
}

fn stored(id: &str, value_files: Vec<&str>) -> PersistedApplication {
    PersistedApplication {
        id: id.to_string(),
        version: "1.0.0".to_string(),
        timestamp: 0,
        state: ApplicationState::RUNNING,
        app_name: "Test App".to_string(),
        compose_path: "resources/test/simple/".to_string(),
        value_files: strings(value_files),
    }
}

/// Takes an install up to the point where the compose files are known.
fn up_to_compose_files(machine: &mut AddApplication, compose_files: Vec<&str>) -> Action {
    assert!(matches!(machine.step(Event::Begin), Action::ReadSources(_)));
    assert!(matches!(machine.step(values_event()), Action::ProbeTemplate));
    assert!(matches!(
        machine.step(Event::Probed(probe(true, true, true, false))),
        Action::Stage { use_ignore: false }
    ));
    assert!(matches!(machine.step(Event::Done), Action::ReadDescriptor));
    let persisted =
        machine.step(Event::Text(Some("name: \"app1\"\nversion: \"1.0.0\"\n".to_string())));
    match persisted {
        Action::Persist(record) => {
            assert_eq!(record.state, ApplicationState::STARTING);
            assert_eq!(record.id, machine.install_id);
        }
        other => panic!("{:?}", other),
    }
    assert!(matches!(machine.step(Event::Done), Action::WalkStaged));
    assert!(matches!(machine.step(Event::Walked(vec![walked("s/app.yaml")])), Action::WalkStaged));
    assert_eq!(machine.phase, Phase::ComposeFiles);
    machine.step(Event::Walked(compose_files.into_iter().map(walked).collect()))
}

#[test]
fn test_verify_file_exists_happy_path() {
    let install = Install {
        directory: "resources/test/simple/".to_string(),
        id: None,
        value_files: vec![],
    };
    let path = std::path::Path::new(&install.directory).join("app.yaml");
    let result = verify_file_exists("app.yaml", &path.to_string_lossy(), true);
    assert!(result.is_ok());
}

#[test]
fn test_verify_file_exists_not_happy_path() {
    let install = Install {
        directory: "resources/test/simple/".to_string(),
        id: None,
        value_files: vec![],
    };
    let path = std::path::Path::new(&install.directory).join("non_existent_file.txt");
    let result =
        verify_file_exists("non_existent_file.txt", &path.to_string_lossy(), path.exists());
    assert!(result.is_err());
    assert_eq!(
        result.unwrap_err().message(),
        "Could not find non_existent_file.txt at resources/test/simple/non_existent_file.txt"
    );
}

#[test]
fn required_files_are_checked_in_order() {
    assert!(verify_required_files(&probe(true, true, true, false)).is_ok());
    assert_eq!(
        verify_required_files(&probe(true, false, false, false)).unwrap_err().message(),
        "Could not find app.yaml at dir/app.yaml"
    );
    assert_eq!(
        verify_required_files(&probe(true, true, false, false)).unwrap_err().message(),
        "Could not find docker-compose.jinja2 at dir/docker-compose.jinja2"
    );
}

#[test]
fn test_failed_install_no_values() {
    let id = "install_no_values".to_string();
    let test_install_cmd =
        Install { directory: "resources/test/simple/".to_string(), id: Some(id), value_files: vec![] };
    let install_id = test_install_cmd.install_id();
    let mut machine = test_install_cmd.exec(&install_id, false, false).unwrap();
    let action = machine.step(Event::Begin);
    let err = match action {
        Action::Finish(Outcome::Failed(err)) => err,
        other => panic!("{:?}", other),
    };
    let expected_err = "You cannot install an application with no values file. Use -v <values path> to specify values file.".to_string();
    assert_eq!(expected_err, err.message());
    assert_eq!(machine.phase, Phase::Finished);
}

#[test]
fn test_failed_install_invalid_values() {
    let test_install_cmd = Install {
        directory: "resources/test/simple/".to_string(),
        id: Some("test_failed_install_invalid_values".to_string()),
        value_files: vec![String::from("doesNotExist.yaml")],
    };
    let install_id = test_install_cmd.install_id();
    let mut machine = test_install_cmd.exec(&install_id, false, false).unwrap();
    match machine.step(Event::Begin) {
        Action::ReadSources(sources) => assert_eq!(sources, strings(vec!["doesNotExist.yaml"])),
        other => panic!("{:?}", other),
    }
    let action = machine.step(Event::Sources(vec![ValueSource {
        source: "doesNotExist.yaml".to_string(),
        contents: None,
    }]));
    let err = match action {
        Action::Finish(Outcome::Failed(err)) => err,
        other => panic!("{:?}", other),
    };
    assert_eq!("Failed to read values YAML file: doesNotExist.yaml", err.message());
}

#[test]
fn test_no_app_yaml() {
    let mut machine = add_application(
        &"test_no_app_yaml".to_string(),
        false,
        &strings(vec!["values.yaml"]),
        &"resources/test/simpleNoApp/".to_string(),
        false,
    );
    machine.step(Event::Begin);
    machine.step(values_event());
    let action = machine.step(Event::Probed(probe(true, false, true, false)));
    let err = match action {
        Action::Finish(Outcome::Failed(err)) => err,
        other => panic!("{:?}", other),
    };
    assert_eq!(format!("Could not find app.yaml at {}", "dir/app.yaml"), err.message());
}

#[test]
fn test_failed_install_no_template_path() {
    let mut machine = add_application(
        &"test_failed_install_no_template_path".to_string(),
        false,
        &strings(vec!["values.yaml"]),
        &"does_not_exist".to_string(),
        false,
    );
    machine.step(Event::Begin);
    machine.step(values_event());
    let action = machine.step(Event::Probed(probe(false, false, false, false)));
    let err = match action {
        Action::Finish(Outcome::Failed(err)) => err,
        other => panic!("{:?}", other),
    };
    assert_eq!("Template directory does_not_exist does not exist.", err.message());
}

#[test]
fn test_failed_install_existing_install() {
    let id = "test_failed_install_existing_install";
    let test_install_cmd = Install {
        directory: "resources/test/simple/".to_string(),
        id: Some(id.to_string()),
        value_files: strings(vec!["values.yaml"]),
    };
    let install_id = test_install_cmd.install_id();
    assert_eq!(install_id, id);
    // The first install finds nothing staged and begins.
    assert!(test_install_cmd.exec(&install_id, false, false).is_ok());
    // The second finds the staged directory and begins nothing.
    let err = test_install_cmd.exec(&install_id, true, false).unwrap_err();
    let expected_err = "An application with the id 'test_failed_install_existing_install' already exists. Did you mean to `composer upgrade test_failed_install_existing_install` instead?".to_string();
    assert_eq!(expected_err, err.message());
    let again = test_install_cmd.exec(&install_id, true, false).unwrap_err();
    assert_eq!(err, again);
}

#[test]
fn test_install_with_correct_values_from_app_yaml() {
    let id = "test_install_with_correct_values_from_app_yaml";
    let test_install_cmd = Install {
        directory: "resources/test/simple/".to_string(),
        id: Some(id.to_string()),
        value_files: strings(vec!["values.yaml"]),
    };
    let mut machine = test_install_cmd.exec(&id.to_string(), false, false).unwrap();
    assert!(matches!(machine.step(Event::Begin), Action::ReadSources(_)));
    machine.step(values_event());
    machine.step(Event::Probed(probe(true, true, true, true)));
    machine.step(Event::Done);
    machine.step(Event::Text(Some("name: simple-test\nversion: 1.0.0\n".to_string())));
    machine.step(Event::Done);
    // One template, which is also the compose file.
    let read = machine.step(Event::Walked(vec![
        walked("/s/docker-compose.jinja2"),
        walked("/s/app.yaml"),
    ]));
    assert!(matches!(read, Action::ReadTemplate(ref path) if path == "/s/docker-compose.jinja2"));
    let replace = machine.step(Event::Template {
        text: "services:\n  web:\n    image: {{ image }}\n    volumes: [{{ composer.cwd }}]\n"
            .to_string(),
    });
    match replace {
        Action::Replace { path, content } => {
            assert_eq!(path, "/s/docker-compose.jinja2");
            assert_eq!(content, "services:\n  web:\n    image: nginx\n    volumes: [/s]");
        }
        other => panic!("{:?}", other),
    }
    assert!(matches!(machine.step(Event::Done), Action::WalkStaged));
    let read = machine.step(Event::Walked(vec![walked("/s/docker-compose.jinja2")]));
    assert!(matches!(read, Action::ReadFile(ref path) if path == "/s/docker-compose.jinja2"));
    let run = machine.step(Event::Text(Some("services:\n  web:\n    image: nginx".to_string())));
    match run {
        Action::Run(argv) => assert_eq!(
            argv,
            strings(vec!["docker-compose", "-f", "/s/docker-compose.jinja2", "up", "-d"])
        ),
        other => panic!("{:?}", other),
    }
    let app = match machine.step(Event::Exit(0)) {
        Action::Persist(record) => record,
        other => panic!("{:?}", other),
    };
    assert!(matches!(machine.step(Event::Done), Action::Finish(Outcome::Done)));
    assert_eq!(app.id, id);
    assert_eq!(app.version, "1.0.0");
    assert_eq!(app.state, ApplicationState::RUNNING);
    assert_eq!(app.app_name, "simple-test");
    assert_eq!(app.compose_path, "resources/test/simple/");
    assert_eq!(app.value_files, strings(vec!["values.yaml"]));
}

#[test]
fn an_install_of_a_compose_file_without_services_runs_nothing() {
    let install = Install {
        directory: "dir".to_string(),
        id: Some("X".to_string()),
        value_files: strings(vec!["values.yaml"]),
    };
    let mut machine = install.exec(&install.install_id(), false, false).unwrap();
    let read = up_to_compose_files(&mut machine, vec!["s/docker-compose.jinja2"]);
    assert!(matches!(read, Action::ReadFile(_)));
    let last = machine.step(Event::Text(Some("services: []\n".to_string())));
    let record = match last {
        Action::Persist(record) => record,
        other => panic!("{:?}", other),
    };
    assert_eq!(record.id, "X");
    assert_eq!(record.app_name, "app1");
    assert_eq!(record.version, "1.0.0");
    assert_eq!(record.state, ApplicationState::RUNNING);
    assert!(matches!(machine.step(Event::Done), Action::Finish(Outcome::Done)));
    assert_eq!(machine.phase, Phase::Finished);
    // The store then holds that record.
    let store = append_to_storage(StoreContents::Missing, &record).unwrap();
    assert_eq!(store, vec![record]);
}

#[test]
fn a_failed_up_marks_the_record_and_stops() {
    let mut machine = add_application(
        &"X".to_string(),
        false,
        &strings(vec!["values.yaml"]),
        &"dir".to_string(),
        false,
    );
    let read = up_to_compose_files(
        &mut machine,
        vec!["s/docker-compose.jinja2", "s/sub/docker-compose.jinja2"],
    );
    assert!(matches!(read, Action::ReadFile(ref path) if path == "s/docker-compose.jinja2"));
    assert!(matches!(
        machine.step(Event::Text(Some("services: [web]".to_string()))),
        Action::Run(_)
    ));
    let marked = machine.step(Event::Exit(7));
    assert!(matches!(marked, Action::SetState(ApplicationState::ERROR)));
    assert_eq!(machine.phase, Phase::Failing(7));
    assert!(matches!(machine.step(Event::Done), Action::Finish(Outcome::Exit(7))));
    assert!(matches!(machine.step(Event::Done), Action::Finish(Outcome::Failed(_))));
}

#[test]
fn always_pull_pulls_every_compose_file_and_passes_over_failures() {
    let mut machine = add_application(
        &"X".to_string(),
        false,
        &strings(vec!["values.yaml"]),
        &"dir".to_string(),
        true,
    );
    let first = up_to_compose_files(
        &mut machine,
        vec!["s/docker-compose.jinja2", "s/sub/docker-compose.jinja2"],
    );
    match first {
        Action::Run(argv) => assert_eq!(
            argv,
            strings(vec![
                "docker-compose",
                "-f",
                "s/docker-compose.jinja2",
                "pull",
                "--ignore-pull-failures"
            ])
        ),
        other => panic!("{:?}", other),
    }
    let second = machine.step(Event::Exit(1));
    assert!(matches!(second, Action::Run(ref argv) if argv[2] == "s/sub/docker-compose.jinja2"));
    let read = machine.step(Event::Exit(1));
    assert!(matches!(read, Action::ReadFile(ref path) if path == "s/docker-compose.jinja2"));
}

#[test]
fn sources_that_are_not_the_machines_own_stop_the_install() {
    let mut machine = add_application(
        &"X".to_string(),
        false,
        &strings(vec!["values.yaml", "a=b"]),
        &"dir".to_string(),
        false,
    );
    machine.step(Event::Begin);
    let action = machine.step(values_named("values.yaml"));
    assert!(matches!(action, Action::Finish(Outcome::Failed(ComposerError::UnexpectedAnswer))));

    let mut machine = add_application(
        &"X".to_string(),
        false,
        &strings(vec!["values.yaml"]),
        &"dir".to_string(),
        false,
    );
    machine.step(Event::Begin);
    let action = machine.step(values_named("other.yaml"));
    assert!(matches!(action, Action::Finish(Outcome::Failed(ComposerError::UnexpectedAnswer))));
}

#[test]
fn a_failure_outside_stops_the_install() {
    let mut machine = add_application(
        &"X".to_string(),
        false,
        &strings(vec!["values.yaml"]),
        &"dir".to_string(),
        false,
    );
    machine.step(Event::Begin);
    machine.step(values_event());
    machine.step(Event::Probed(probe(true, true, true, false)));
    let failure = ComposerError::Io { context: "disk full".to_string() };
    let action = machine.step(Event::Failed(failure.clone()));
    assert!(matches!(action, Action::Finish(Outcome::Failed(ref e)) if *e == failure));
    assert_eq!(failure.message(), "disk full");
}

#[test]
fn an_answer_that_was_not_waited_for_stops_the_install() {
    let mut machine = add_application(
        &"X".to_string(),
        false,
        &strings(vec!["values.yaml"]),
        &"dir".to_string(),
        false,
    );
    assert!(matches!(machine.step(Event::Exit(0)), Action::Finish(Outcome::Failed(_))));
    assert_eq!(machine.phase, Phase::Finished);
}

#[test]
fn a_generated_id_has_three_words() {
    let install = Install { directory: "dir".to_string(), id: None, value_files: vec![] };
    for _ in 0..50 {
        let id = install.install_id();
        assert!(!id.is_empty());
        assert_eq!(id.split('-').count(), 3);
        assert!(id.split('-').all(|word| !word.is_empty()));
    }
}

#[test]
fn a_template_with_a_relative_path_is_not_rendered() {
    let mut machine = add_application(
        &"X".to_string(),
        false,
        &strings(vec!["values.yaml"]),
        &"dir".to_string(),
        false,
    );
    machine.step(Event::Begin);
    machine.step(values_event());
    machine.step(Event::Probed(probe(true, true, true, false)));
    machine.step(Event::Done);
    machine.step(Event::Text(Some("name: a\nversion: b\n".to_string())));
    machine.step(Event::Done);
    let read = machine.step(Event::Walked(vec![walked("s/docker-compose.jinja2")]));
    assert!(matches!(read, Action::ReadTemplate(_)));
    let action = machine.step(Event::Template { text: "{{ composer.cwd }}".to_string() });
    assert!(matches!(action, Action::Finish(Outcome::Failed(ComposerError::UnexpectedAnswer))));
}

#[test]
fn test_upgrade_without_id() {
    let upgrade_cmd =
        Upgrade { directory: "some/directory".to_string(), id: None, value_files: vec![] };
    let err = upgrade_cmd.exec(false, &StoreContents::Missing, false).unwrap_err();
    let actual_err = err.message();
    let expected_err = "Could not get ID to upgrade.";
    assert_eq!(expected_err, actual_err);
}

#[test]
fn test_upgrade_nonexistent_application() {
    let id = "nonexistent_app";
    let upgrade_cmd = Upgrade {
        directory: "resources/test/simple/".to_string(),
        id: Some(id.to_string()),
        value_files: vec![],
    };
    let err = upgrade_cmd.exec(false, &StoreContents::Missing, false).unwrap_err();
    let expected_err = format!(
        "An application with the id '{}' does not exist. Did you mean to `composer install {}` instead?",
        id, id
    );
    assert_eq!(expected_err, err.message());
}

#[test]
fn test_upgrade_no_value_files_provided_and_none_stored() {
    let id = "test_upgrade_no_values";
    let store = StoreContents::Records(
        append_to_storage(StoreContents::Missing, &stored(id, vec![])).unwrap(),
    );
    let upgrade_cmd = Upgrade {
        directory: "resources/test/simple/".to_string(),
        id: Some(id.to_string()),
        value_files: vec![],
    };
    let err = upgrade_cmd.exec(true, &store, false).unwrap_err();
    let expected_err = format!(
        "Cannot upgrade application '{}' because no value files were provided and none were found from the previous installation. Use -v <values path> to specify value files.",
        id
    );
    assert_eq!(expected_err, err.message());
}

#[test]
fn test_upgrade_with_provided_value_files() {
    let id = "test_upgrade_with_provided_values";
    let store = StoreContents::Records(
        append_to_storage(StoreContents::Missing, &stored(id, vec!["values.yaml"])).unwrap(),
    );
    let upgrade_cmd = Upgrade {
        directory: "resources/test/simple/".to_string(),
        id: Some(id.to_string()),
        value_files: strings(vec!["override.yaml"]),
    };
    let mut machine = upgrade_cmd.exec(true, &store, false).unwrap();
    assert!(machine.is_upgrade);
    assert_eq!(machine.values_files, strings(vec!["override.yaml"]));
    assert!(matches!(machine.step(Event::Begin), Action::RemoveStaged));
    match machine.step(Event::Done) {
        Action::ReadSources(sources) => assert_eq!(sources, strings(vec!["override.yaml"])),
        other => panic!("{:?}", other),
    }
    assert!(matches!(machine.step(values_named("override.yaml")), Action::ProbeTemplate));
    machine.step(Event::Probed(probe(true, true, true, false)));
    machine.step(Event::Done);
    machine.step(Event::Text(Some("name: a\nversion: b\n".to_string())));
    machine.step(Event::Done);
    machine.step(Event::Walked(vec![]));
    let app = match machine.step(Event::Walked(vec![])) {
        Action::Persist(record) => record,
        other => panic!("{:?}", other),
    };
    assert_eq!(app.value_files, strings(vec!["override.yaml"]));
    assert_eq!(app.state, ApplicationState::RUNNING);
}

#[test]
fn test_upgrade_with_no_value_files_but_stored_values_exist() {
    let id = "test_upgrade_with_stored_values";
    let store = StoreContents::Records(
        append_to_storage(StoreContents::Missing, &stored(id, vec!["values.yaml"])).unwrap(),
    );
    let upgrade_cmd = Upgrade {
        directory: "resources/test/simple/".to_string(),
        id: Some(id.to_string()),
        value_files: vec![],
    };
    let machine = upgrade_cmd.exec(true, &store, false).unwrap();
    assert_eq!(machine.values_files, strings(vec!["values.yaml"]));
    assert_eq!(machine.install_id, id);
    assert_eq!(machine.phase, Phase::Start);
}

#[test]
fn an_upgrade_without_values_needs_a_record() {
    let upgrade_cmd =
        Upgrade { directory: "dir".to_string(), id: Some("a".to_string()), value_files: vec![] };
    assert_eq!(
        upgrade_cmd.exec(true, &StoreContents::Missing, false).unwrap_err(),
        ComposerError::NotFound { id: "a".to_string() }
    );
    assert_eq!(
        upgrade_cmd.exec(true, &StoreContents::Malformed, false).unwrap_err(),
        ComposerError::StoreUnreadable
    );
    let upgrade_without_values = add_application(
        &"a".to_string(),
        true,
        &vec![],
        &"dir".to_string(),
        false,
    );
    let mut machine = upgrade_without_values;
    // Nothing is removed before the value sources are seen to be there.
    let action = machine.step(Event::Begin);
    assert!(matches!(
        action,
        Action::Finish(Outcome::Failed(ComposerError::NoValues { upgrade: true }))
    ));
    assert_eq!(machine.phase, Phase::Finished);
    assert_eq!(
        ComposerError::NoValues { upgrade: true }.message(),
        "You cannot upgrade an application with no values file. Use -v <values path> to specify values file."
    );
}

/// Carries a delete out against a store held in memory; says which staged
/// directories were removed and which command lines were run.
fn carry_out(
    delete: &Delete,
    mut store: Vec<PersistedApplication>,
    exit_code: i32,
) -> (Outcome, Vec<PersistedApplication>, Vec<String>, Vec<Vec<String>>) {
    let mut machine = delete.exec(StoreContents::Records(store.clone())).unwrap();
    let mut removed = Vec::new();
    let mut ran = Vec::new();
    let mut event = Event::Begin;
    loop {
        event = match machine.step(event) {
            DeleteAction::WalkStaged(id) => {
                Event::Walked(vec![walked(&format!("home/{}/docker-compose.jinja2", id))])
            }
            DeleteAction::Run(argv) => {
                ran.push(argv);
                Event::Exit(exit_code)
            }
            DeleteAction::SetState { id, state } => {
                for record in store.iter_mut().filter(|record| record.id == id) {
                    record.state = state;
                }
                Event::Done
            }
            DeleteAction::DeleteRecord(id) => {
                match delete_application_by_id(StoreContents::Records(store.clone()), &id) {
                    Ok(left) => {
                        store = left;
                        removed.push(id);
                        Event::Done
                    }
                    Err(error) => Event::Failed(error),
                }
            }
            DeleteAction::Finish(outcome) => return (outcome, store, removed, ran),
        };
    }
}

#[test]
fn delete_all_leaves_an_empty_store() {
    let store = vec![stored("A", vec![]), stored("B", vec![])];
    let delete = Delete { ids: vec![], all: true };
    let (outcome, left, removed, ran) = carry_out(&delete, store, 0);
    assert!(matches!(outcome, Outcome::Done));
    assert!(left.is_empty());
    assert_eq!(removed, strings(vec!["A", "B"]));
    assert_eq!(
        ran,
        vec![
            strings(vec!["docker-compose", "-f", "home/A/docker-compose.jinja2", "down"]),
            strings(vec!["docker-compose", "-f", "home/B/docker-compose.jinja2", "down"]),
        ]
    );
}

#[test]
fn delete_by_ids_when_all_ids_exist() {
    let store = vec![stored("A", vec![]), stored("B", vec![]), stored("C", vec![])];
    let delete = Delete { ids: strings(vec!["C", "A"]), all: false };
    let (outcome, left, removed, _) = carry_out(&delete, store, 0);
    assert!(matches!(outcome, Outcome::Done));
    assert_eq!(left, vec![stored("B", vec![])]);
    assert_eq!(removed, strings(vec!["C", "A"]));
}

#[test]
fn delete_by_ids_fails_fast_at_a_missing_id() {
    let store = vec![stored("A", vec![]), stored("B", vec![]), stored("C", vec![])];
    let delete = Delete { ids: strings(vec!["A", "missing", "C"]), all: false };
    let (outcome, left, removed, _) = carry_out(&delete, store, 0);
    match outcome {
        Outcome::Failed(error) => {
            assert_eq!(error.message(), "Could not find application 'missing' to delete it.")
        }
        other => panic!("{:?}", other),
    }
    assert_eq!(left, vec![stored("B", vec![]), stored("C", vec![])]);
    assert_eq!(removed, strings(vec!["A"]));
}

#[test]
fn delete_of_an_id_given_twice_fails_at_the_second() {
    let delete = Delete { ids: strings(vec!["A", "A"]), all: false };
    let deletion = delete.exec(StoreContents::Records(vec![stored("A", vec![])])).unwrap();
    assert_eq!(deletion.targets, strings(vec!["A"]));
    assert_eq!(deletion.refused, Some("A".to_string()));
    assert_eq!(deletion.phase, DeletePhase::Start);
}

#[test]
fn delete_goes_on_after_a_failed_down() {
    let store = vec![stored("A", vec![]), stored("B", vec![])];
    let delete = Delete { ids: vec![], all: true };
    let (outcome, left, removed, ran) = carry_out(&delete, store, 1);
    assert!(matches!(outcome, Outcome::Done));
    assert!(left.is_empty());
    assert_eq!(removed, strings(vec!["A", "B"]));
    assert_eq!(ran.len(), 2);
}

#[test]
fn delete_all_needs_a_readable_store() {
    let delete = Delete { ids: vec![], all: true };
    assert_eq!(delete.exec(StoreContents::Malformed).unwrap_err(), ComposerError::StoreUnreadable);
    let nothing = delete.exec(StoreContents::Missing).unwrap();
    assert!(nothing.targets.is_empty());
}

#[test]
fn settings_have_defaults_until_fixed() {
    let mut settings = Settings::new();
    assert_eq!(verbosity(&settings), LevelFilter::Trace);
    assert_eq!(always_pull(&settings), false);
    assert_eq!(no_run(&settings), false);
    set_global_verbosity(&mut settings, LevelFilter::Warn);
    set_global_always_pull(&mut settings, true);
    set_global_no_run(&mut settings, true);
    assert_eq!(verbosity(&settings), LevelFilter::Warn);
    assert_eq!(always_pull(&settings), true);
    assert_eq!(no_run(&settings), true);
    assert!(LevelFilter::Warn.allows(Level::Error));
    assert!(LevelFilter::Warn.allows(Level::Warn));
    assert!(!LevelFilter::Warn.allows(Level::Info));
    assert!(!LevelFilter::Off.allows(Level::Error));
    assert!(LevelFilter::Trace.allows(Level::Trace));
}

#[test]
fn the_test_command_speaks_on_the_channels_that_are_heard() {
    let test = Test { text: "hello".to_string() };
    let mut settings = Settings::new();
    let all = test.exec(&settings);
    assert_eq!(all.len(), 9);
    assert_eq!(all[0], (Channel::Trace, "trace hello".to_string()));
    assert_eq!(all[8], (Channel::Critical, "critical hello".to_string()));
    set_global_verbosity(&mut settings, LevelFilter::Warn);
    let some = test.exec(&settings);
    assert_eq!(
        some,
        vec![
            (Channel::Warn, "warn hello".to_string()),
            (Channel::Error, "error hello".to_string()),
            (Channel::Display, "display hello".to_string()),
            (Channel::Critical, "critical hello".to_string()),
        ]
    );
}

#[test]
fn the_listing_pads_its_columns() {
    assert_eq!(pad("ab", 5), "ab   ");
    assert_eq!(pad("abcdef", 5), "abcdef");
    assert_eq!(pad("", 2), "  ");
    assert_eq!(pad("äö", 3), "äö ");
    let line = format_line("id", "1.0", "now", "RUNNING", "name", "dir", false);
    assert_eq!(
        line,
        format!("{:<20} {:<15} {:<15} {:<15} {:<25}", "id", "1.0", "now", "RUNNING", "name")
    );
    let wide = format_line("id", "1.0", "now", "RUNNING", "name", "dir", true);
    assert_eq!(
        wide,
        format!(
            "{:<20} {:<15} {:<15} {:<15} {:<25} {:<20}",
            "id", "1.0", "now", "RUNNING", "name", "dir"
        )
    );
}

#[test]
fn the_listing_shows_a_heading_and_a_line_for_each_record() {
    let records = vec![stored("A", vec![]), stored("B", vec![])];
    let uptimes = strings(vec!["2 hours", "a day"]);
    let narrow = List { quiet: false, wide: false }
        .exec(StoreContents::Records(records.clone()), &uptimes)
        .unwrap();
    assert_eq!(
        narrow.heading,
        Some(format!(
            "{:<20} {:<15} {:<15} {:<15} {:<25}",
            "APP ID", "VERSION", "UPTIME", "STATUS", "APP NAME"
        ))
    );
    assert_eq!(
        narrow.lines,
        vec![
            format!("{:<20} {:<15} {:<15} {:<15} {:<25}", "A", "1.0.0", "2 hours", "RUNNING", "Test App"),
            format!("{:<20} {:<15} {:<15} {:<15} {:<25}", "B", "1.0.0", "a day", "RUNNING", "Test App"),
        ]
    );
    let wide = List { quiet: false, wide: true }
        .exec(StoreContents::Records(records.clone()), &uptimes)
        .unwrap();
    assert!(wide.heading.unwrap().ends_with("COMPOSE             "));
    assert!(wide.lines[0].ends_with(&format!(" {:<20}", "resources/test/simple/")));
    let quiet = List { quiet: true, wide: false }
        .exec(StoreContents::Records(records.clone()), &uptimes)
        .unwrap();
    assert_eq!(quiet.heading, None);
    assert_eq!(quiet.lines, strings(vec!["A", "B"]));
    assert_eq!(print_applications(&records, &vec![], true, true), strings(vec!["A", "B"]));
    assert_eq!(
        List { quiet: false, wide: false }.exec(StoreContents::Malformed, &uptimes).unwrap_err(),
        ComposerError::StoreUnreadable
    );
    assert!(List { quiet: false, wide: false }
        .exec(StoreContents::Missing, &uptimes)
        .unwrap()
        .lines
        .is_empty());
}

#[test]
fn levels_are_named_in_any_case() {
    for (name, filter) in [
        ("INFO", Some(LevelFilter::Info)),
        ("info", Some(LevelFilter::Info)),
        ("InFo", Some(LevelFilter::Info)),
        ("ERROR", Some(LevelFilter::Error)),
        ("TRACE", Some(LevelFilter::Trace)),
        ("WARN", Some(LevelFilter::Warn)),
        ("debug", Some(LevelFilter::Debug)),
        ("Off", Some(LevelFilter::Off)),
        ("", None),
        ("INF", None),
        ("INFOS", None),
        ("warning", None),
        ("1", None),
    ] {
        assert_eq!(LevelFilter::from_name(name), filter, "{}", name);
    }
}

#[test]
fn the_command_line_fixes_the_settings() {
    let mut cli = Cli {
        log_level: "warn".to_string(),
        always_pull: true,
        cmd: Cmd::List(List { quiet: false, wide: false }),
    };
    let settings = cli.settings().unwrap();
    assert_eq!(verbosity(&settings), LevelFilter::Warn);
    assert_eq!(always_pull(&settings), true);
    assert_eq!(no_run(&settings), false);
    assert_eq!(settings.no_run, None);
    cli.log_level = "loud".to_string();
    assert_eq!(cli.settings().unwrap_err(), ComposerError::UnknownLogLevel);
}

#[test]
fn every_failure_has_its_message() {
    let id = || "X".to_string();
    for (error, message) in [
        (ComposerError::InvalidAssignment { source: id() }, "Failed to split YAML string: X, must be the format x.y.z=foo"),
        (ComposerError::MissingKey { source: id() }, "Failed to find yaml key for string X, must be the format x.y.z=foo."),
        (ComposerError::FileNotFound { path: id() }, "Failed to read values YAML file: X"),
        (ComposerError::ParseError { path: id() }, "Failed to read values YAML file: X"),
        (ComposerError::TopLevelNotMapping, "Expected top-level YAML structure to be a mapping."),
        (ComposerError::AlreadyExists { id: id() }, "An application with the id 'X' already exists. Did you mean to `composer upgrade X` instead?"),
        (ComposerError::NoValues { upgrade: false }, "You cannot install an application with no values file. Use -v <values path> to specify values file."),
        (ComposerError::TemplateDirectoryMissing { directory: id() }, "Template directory X does not exist."),
        (ComposerError::MissingFile { name: "n".to_string(), path: id() }, "Could not find n at X"),
        (ComposerError::MissingId, "Could not get ID to upgrade."),
        (ComposerError::NotInstalled { id: id() }, "An application with the id 'X' does not exist. Did you mean to `composer install X` instead?"),
        (ComposerError::NoStoredValues { id: id() }, "Cannot upgrade application 'X' because no value files were provided and none were found from the previous installation. Use -v <values path> to specify value files."),
        (ComposerError::UnknownApplication { id: id() }, "Could not find application 'X' to delete it."),
        (ComposerError::NotFound { id: id() }, "Application with id X not found"),
        (ComposerError::NotFoundToDelete { id: id() }, "Application with id 'X' not found, could not delete. Does it exist?"),
        (ComposerError::StoreUnreadable, "Could not parse JSON in config.json"),
        (ComposerError::StoreInvalid, "Could not parse ~/.composer/config.json. Is it valid json?"),
        (ComposerError::NoTemplateFile, "You have not provided a template file. Use -t <template path> to specify a template file."),
        (ComposerError::NoTemplateValues, "You cannot create a template with no values file. Use -v <values path> to specify values file."),
        (ComposerError::ValuesNotMapping, "Both base and override YAML values must be mappings."),
        (ComposerError::Render { path: id(), cause: "bad".to_string() }, "Failed to render template X: due to an error in the template. Error: bad"),
        (ComposerError::UnsupportedValues { path: id() }, "Failed to render template X: the values hold an empty tag."),
        (ComposerError::ComposeMissing { path: id() }, "The provided compose file path 'X' does not exist."),
        (ComposerError::ComposeInvalid { path: id() }, "The provided compose file 'X' is not a valid YAML file"),
        (ComposerError::DescriptorUnreadable, "Failed to open YAML file"),
        (ComposerError::DescriptorInvalid, "Failed to deserialize YAML data"),
        (ComposerError::InvalidPattern { pattern: id() }, "The pattern 'X' is not a regular expression."),
        (ComposerError::Io { context: id() }, "X"),
        (ComposerError::UnknownLogLevel, "attempted to convert a string that doesn't match an existing log level"),
        (ComposerError::UnexpectedAnswer, "The step could not be carried out."),
    ] {
        assert_eq!(error.message(), message);
    }
}

#[test]
fn the_command_line_names_its_command() {
    let cli = Cli {
        log_level: "INFO".to_string(),
        always_pull: false,
        cmd: Cmd::Test(Test { text: "x".to_string() }),
    };
    assert!(matches!(cli.run(), Cmd::Test(test) if test.text == "x"));
}
