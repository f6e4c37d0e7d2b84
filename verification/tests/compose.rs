use composer::copy_file_utils::{
    copy_files_with_ignorefile, copy_step, CopyStep, EntryKind, SourceEntry,
};
use composer::docker_compose::{
    check_compose_is_valid, compose_down, compose_has_no_services, compose_pull, compose_up,
    is_compose_installed, silent_run, unbuffered_command,
};
use composer::text::is_blank;
use composer::error::ComposerError;
use composer::file_utils::{copy_files_except_regex, should_copy, PathEntry};
use composer::walk::{get_files_with_extension, get_files_with_name, has_extension, WalkEntry};

fn words(argv: Vec<&str>) -> Vec<String> {
    argv.into_iter().map(|word| word.to_string()).collect()
}

#[test]
fn the_command_lines_are_as_the_orchestrator_wants_them() {
    assert_eq!(compose_down("a/b.yml"), words(vec!["docker-compose", "-f", "a/b.yml", "down"]));
    assert_eq!(
        compose_pull("a/b.yml"),
        words(vec!["docker-compose", "-f", "a/b.yml", "pull", "--ignore-pull-failures"])
    );
    assert_eq!(silent_run(), words(vec!["docker-compose", "version"]));
    assert_eq!(
        compose_up("c.yml", Some("services:\n  web:\n    image: nginx\n")).unwrap(),
        Some(words(vec!["docker-compose", "-f", "c.yml", "up", "-d"]))
    );
}

#[test]
fn a_compose_file_without_services_is_skipped() {
    assert_eq!(compose_up("c.yml", Some("services: []\n")).unwrap(), None);
    assert_eq!(compose_up("c.yml", Some("version: '3'\n")).unwrap(), None);
    assert_eq!(compose_up("c.yml", Some("services:\n")).unwrap(), None);
    assert!(compose_has_no_services("services: []"));
    assert!(compose_has_no_services("services: ~"));
    assert!(compose_has_no_services("other: 1"));
    assert!(!compose_has_no_services("services: [web]"));
    assert!(!compose_has_no_services("services: {web: {image: nginx}}"));
    assert!(!compose_has_no_services("services: [1"));
    assert!(!compose_has_no_services("- services"));
}

#[test]
fn a_blank_compose_file_is_skipped() {
    assert_eq!(compose_up("c.yml", Some(" \n\t ")).unwrap(), None);
    assert_eq!(compose_up("c.yml", Some("")).unwrap(), None);
    assert!(check_compose_is_valid("c.yml", Some("")).is_ok());
    assert!(check_compose_is_valid("c.yml", Some("\n")).is_ok());
    assert!(compose_has_no_services(""));
    assert!(compose_has_no_services("  \n"));
    assert_eq!(compose_up("c.yml", Some("# nothing here\n")).unwrap(), None);
    assert_eq!(compose_up("c.yml", Some("~")).unwrap(), None);
}

#[test]
fn a_compose_file_must_be_there_and_hold_yaml() {
    assert_eq!(
        compose_up("c.yml", None).unwrap_err(),
        ComposerError::ComposeMissing { path: "c.yml".to_string() }
    );
    assert_eq!(
        check_compose_is_valid("c.yml", None).unwrap_err().message(),
        "The provided compose file path 'c.yml' does not exist."
    );
    assert_eq!(
        compose_up("c.yml", Some("a: [1")).unwrap_err(),
        ComposerError::ComposeInvalid { path: "c.yml".to_string() }
    );
    assert!(check_compose_is_valid("c.yml", Some("a: 1")).is_ok());
}

#[test]
fn blank_means_white_space_alone() {
    assert!(is_blank(""));
    assert!(is_blank(" \t\r\n\u{a0}\u{2003}\u{3000}"));
    assert!(!is_blank(" a "));
    assert!(!is_blank("\u{200b}"));
    for c in ['\u{0}', ' ', '\u{85}', '\u{1680}', '\u{2028}', '\u{202f}', '\u{205f}', 'x', '\u{feff}'] {
        assert_eq!(is_blank(&c.to_string()), c.is_whitespace());
    }
}

#[test]
fn exit_codes() {
    assert_eq!(unbuffered_command(Some(3)), 3);
    assert_eq!(unbuffered_command(Some(0)), 0);
    assert_eq!(unbuffered_command(None), -1);
    assert!(is_compose_installed(0));
    assert!(!is_compose_installed(1));
    assert!(!is_compose_installed(-1));
}

fn entry(kind: EntryKind, excluded: Option<bool>) -> SourceEntry {
    SourceEntry { kind, excluded }
}

#[test]
fn copy_file_utils_test_copy_files_simple() {
    let entries = vec![
        entry(EntryKind::File, Some(false)),
        entry(EntryKind::File, Some(true)),
    ];
    let steps = copy_files_with_ignorefile(&entries, true);
    assert_eq!(steps, vec![CopyStep::Copy, CopyStep::Skip]);
}

#[test]
fn test_copy_files_no_ignore() {
    let entries = vec![
        entry(EntryKind::File, None),
        entry(EntryKind::File, Some(true)),
    ];
    let steps = copy_files_with_ignorefile(&entries, false);
    assert_eq!(steps, vec![CopyStep::Copy, CopyStep::Copy]);
}

#[test]
fn copy_file_utils_test_copy_files_complex() {
    let entries = vec![
        entry(EntryKind::Directory, Some(true)),
        entry(EntryKind::File, Some(false)),
        entry(EntryKind::File, Some(true)),
        entry(EntryKind::File, None),
        entry(EntryKind::Other, Some(false)),
        entry(EntryKind::Directory, None),
    ];
    let steps = copy_files_with_ignorefile(&entries, true);
    assert_eq!(
        steps,
        vec![
            CopyStep::Descend,
            CopyStep::Copy,
            CopyStep::Skip,
            CopyStep::Copy,
            CopyStep::Skip,
            CopyStep::Descend,
        ]
    );
    assert_eq!(copy_step(&entry(EntryKind::Directory, Some(true)), true), CopyStep::Descend);
}

fn walked(path: &str, is_file: bool) -> WalkEntry {
    let file_name = path.rsplit('/').next().unwrap().to_string();
    WalkEntry { path: path.to_string(), file_name, is_file }
}

#[test]
fn test_basic_walk() {
    let entries = vec![
        walked("resources/test", false),
        walked("resources/test/complex", false),
        walked("resources/test/complex/subDir", false),
        walked("resources/test/complex/subDir/template.jinja2", true),
        walked("resources/test/complex/template.jinja2", true),
        walked("resources/test/complex/.composerignore", true),
        walked("resources/test/simple/template.jinja2", true),
        walked("resources/test/simple/app.yaml", true),
        walked("resources/test/templates/world.jinja2", true),
        walked("resources/test/templates/nested-default.jinja2", true),
        walked("resources/test/dir.jinja2", false),
    ];
    let expected = vec![
        "resources/test/complex/subDir/template.jinja2",
        "resources/test/complex/template.jinja2",
        "resources/test/simple/template.jinja2",
        "resources/test/templates/world.jinja2",
        "resources/test/templates/nested-default.jinja2",
    ];
    let actual = get_files_with_extension(&entries, "jinja2");
    assert_eq!(expected, actual);
}

#[test]
fn files_are_found_by_name() {
    let entries = vec![
        walked("s/docker-compose.jinja2", true),
        walked("s/sub/docker-compose.jinja2", true),
        walked("s/sub/other.jinja2", true),
        walked("s/docker-compose.jinja2.bak", true),
        walked("s/dir/docker-compose.jinja2", false),
    ];
    assert_eq!(
        get_files_with_name(&entries, "docker-compose.jinja2"),
        vec!["s/docker-compose.jinja2", "s/sub/docker-compose.jinja2"]
    );
}

#[test]
fn extensions_follow_the_last_dot() {
    for (name, extension) in [
        ("a.jinja2", "jinja2"),
        ("a.b.jinja2", "jinja2"),
        (".jinja2", "jinja2"),
        ("jinja2", "jinja2"),
        ("a.", ""),
        ("a.jinja2.bak", "jinja2"),
        (".a.jinja2", "jinja2"),
        ("", ""),
    ] {
        let found = std::path::Path::new(name).extension().map(|e| e.to_string_lossy().into_owned());
        let expected = found == Some(extension.to_string());
        assert_eq!(has_extension(name, extension), expected, "{}", name);
    }
}

#[test]
fn file_utils_test_copy_files_simple() {
    let entries = vec![
        PathEntry { kind: EntryKind::File, path: "resources/test/simple/template.jinja".to_string() },
        PathEntry { kind: EntryKind::File, path: "resources/test/simple/.ignoreme".to_string() },
        PathEntry { kind: EntryKind::Directory, path: "resources/test/simple/.ignored".to_string() },
    ];
    let regex_list = vec![String::from(".ignore*")];
    let steps = copy_files_except_regex(&entries, &regex_list).unwrap();
    assert_eq!(steps, vec![CopyStep::Copy, CopyStep::Skip, CopyStep::Descend]);
}

#[test]
fn patterns_are_regular_expressions() {
    assert_eq!(should_copy("a/b.txt", &vec![]), Ok(true));
    assert_eq!(should_copy("a/b.txt", &vec!["^b".to_string(), "x$".to_string()]), Ok(true));
    assert_eq!(should_copy("a/b.txt", &vec!["^b".to_string(), "t$".to_string()]), Ok(false));
    assert_eq!(
        should_copy("a/b.txt", &vec!["(".to_string()]),
        Err(ComposerError::InvalidPattern { pattern: "(".to_string() })
    );
    assert_eq!(should_copy("a/b.txt", &vec!["b".to_string(), "(".to_string()]), Ok(false));
    let entries = vec![PathEntry { kind: EntryKind::File, path: "a".to_string() }];
    assert_eq!(
        copy_files_except_regex(&entries, &vec!["(".to_string()]).unwrap_err().message(),
        "The pattern '(' is not a regular expression."
    );
}
