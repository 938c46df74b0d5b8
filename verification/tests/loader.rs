use micetimer::definition::{DefinitionError, FieldName};
use micetimer::loader::{is_definition_file, load_units, unit_name, DefinitionFile};
use micetimer::span::Span;

fn file(name: &str, content: &str) -> DefinitionFile {
    DefinitionFile { file_name: name.to_string(), content: content.to_string() }
}

#[test]
fn definitions_are_known_by_their_extension() {
    assert!(is_definition_file("backup.toml"));
    assert!(is_definition_file("a.b.toml"));
    assert!(is_definition_file("..toml"));
    assert!(!is_definition_file("backup.txt"));
    assert!(!is_definition_file("backup.TOML"));
    assert!(!is_definition_file("backup.toml.bak"));
    assert!(!is_definition_file("backup"));
    assert!(!is_definition_file("toml"));
    assert!(!is_definition_file(".toml"));
    assert!(!is_definition_file("backup."));
    assert!(!is_definition_file(""));
    assert!(!is_definition_file(".."));
}

#[test]
fn a_timer_is_named_by_its_file_stem() {
    assert_eq!(unit_name("backup.toml"), "backup");
    assert_eq!(unit_name("a.b.toml"), "a.b");
    assert_eq!(unit_name("plain"), "plain");
    assert_eq!(unit_name(".hidden"), ".hidden");
    assert_eq!(unit_name("..toml"), ".");
    assert_eq!(unit_name(".."), "..");
    assert_eq!(unit_name("trailing."), "trailing");
    assert_eq!(unit_name("zeit\u{e4}.toml"), "zeit\u{e4}");
}

#[test]
fn the_names_agree_with_std_paths() {
    for name in ["backup.toml", "a.b.toml", ".toml", "..toml", "x.", "plain", "a.toml.bak"] {
        let path = std::path::Path::new(name);
        let extension = path.extension().and_then(|s| s.to_str());
        assert_eq!(is_definition_file(name), extension == Some("toml"));
        assert_eq!(unit_name(name), path.file_stem().unwrap().to_string_lossy());
    }
}

#[test]
fn no_files_give_no_timers() {
    assert_eq!(load_units(&vec![]), Ok(vec![]));
}

#[test]
fn each_definition_gives_one_timer() {
    let files = vec![
        file("a.toml", "Exec = \"one\"\n"),
        file("README.md", "not a definition"),
        file("b.toml", "Exec = \"two\"\nOnBootSec = \"2s\"\n"),
        file("c.toml", "Exec = \"three\"\nWakeLock = false\n"),
        file("notes", "Exec = "),
    ];
    let records = load_units(&files).unwrap();
    assert_eq!(records.len(), 3);
    assert_eq!(records[0].0, "a");
    assert_eq!(records[0].1.command, "one");
    assert_eq!(records[1].0, "b");
    assert_eq!(records[1].1.on_boot_sec, Some(Span::from_secs(2)));
    assert_eq!(records[2].0, "c");
    assert!(!records[2].1.wake_lock);
}

#[test]
fn the_order_of_the_files_changes_only_the_order_of_the_timers() {
    let forward = vec![file("a.toml", "Exec = \"one\"\n"), file("b.toml", "Exec = \"two\"\n")];
    let backward = vec![file("b.toml", "Exec = \"two\"\n"), file("a.toml", "Exec = \"one\"\n")];
    let mut first = load_units(&forward).unwrap();
    let mut second = load_units(&backward).unwrap();
    first.sort_by(|x, y| x.0.cmp(&y.0));
    second.sort_by(|x, y| x.0.cmp(&y.0));
    assert_eq!(first, second);
}

#[test]
fn a_malformed_definition_ends_loading() {
    let files = vec![
        file("a.toml", "Exec = \"one\"\n"),
        file("skip.txt", "Exec = "),
        file("bad.toml", "Description = \"no command\"\n"),
        file("worse.toml", "Exec = 1\n"),
    ];
    let error = load_units(&files).unwrap_err();
    assert_eq!(error.index, 2);
    assert_eq!(error.file_name, "bad.toml");
    assert_eq!(error.cause, DefinitionError::MissingExec);
}

#[test]
fn the_fault_of_the_file_is_handed_on() {
    let error = load_units(&vec![file("t.toml", "Exec = \"x\"\nOnBootSec = \"never\"\n")])
        .unwrap_err();
    assert_eq!(error.index, 0);
    assert_eq!(error.cause, DefinitionError::BadDuration(FieldName::OnBootSec));
    let error = load_units(&vec![file("t.toml", "Exec = \"x\"\nExtra = 1\n")]).unwrap_err();
    assert_eq!(error.cause, DefinitionError::UnknownField);
    let error = load_units(&vec![file("t.toml", "[[[")]).unwrap_err();
    assert_eq!(error.cause, DefinitionError::Syntax);
}

#[test]
fn definitions_with_long_durations_are_loaded() {
    let files = vec![
        file("year.toml", "Exec = \"a\"\nOnBootSec = \"365days 23h 59m 59s 999ms\"\n"),
        file("fine.toml", "Exec = \"b\"\nOnUnitActiveSec = \"1h 30m 15s 500ms 250us 100ns\"\n"),
    ];
    let records = load_units(&files).unwrap();
    assert_eq!(records.len(), 2);
    assert_eq!(records[0].0, "year");
    assert_eq!(records[0].1.on_boot_sec, Span::new(31_622_399, 999_000_000));
    assert_eq!(records[1].0, "fine");
    assert_eq!(records[1].1.on_unit_active_sec, Span::new(5415, 500_250_100));
}
