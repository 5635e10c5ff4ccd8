use pier::{
    config_candidates, handle_subcommands, resolve_config_source, Action, Config, ConfigSource,
    InnerPierError, PierError, Script, Subcommand,
};

fn script(alias: &str, command: &str) -> Script {
    Script::new(alias.to_string(), command.to_string())
}

fn full_script() -> Script {
    Script {
        alias: "touch-tmp".to_string(),
        command: "touch test.tmp".to_string(),
        description: Some("This command creates a temporary file.".to_string()),
        reference: None,
        tags: Some(vec!["fs".to_string(), "tmp".to_string()]),
    }
}

#[test]
fn new_config_has_no_scripts() {
    let c = Config::new("/tmp/pier_config");
    assert_eq!(c.path(), "/tmp/pier_config");
    assert!(c.list_scripts().is_empty());
    assert!(c.entries().is_empty());
    let err = c.fetch_script("anything").unwrap_err();
    assert_eq!(err, PierError(InnerPierError::AliasNotFound { alias: "anything".to_string() }));
}

#[test]
fn new_config_is_ok_and_empty() {
    let c = Config::new_config("cfg").unwrap();
    assert_eq!(c.path(), "cfg");
    assert!(c.list_scripts().is_empty());
}

#[test]
fn fetch_after_add() {
    let mut c = Config::new("cfg");
    assert!(c.add_script(script("hello", "echo hello")).is_ok());
    let s = c.fetch_script("hello").unwrap();
    assert_eq!(s.alias, "hello");
    assert_eq!(s.command, "echo hello");
    assert_eq!(s.description, None);
}

#[test]
fn add_keeps_existing_script() {
    let mut c = Config::new("cfg");
    c.add_script(script("x", "first")).unwrap();
    assert!(c.add_script(script("x", "second")).is_ok());
    assert_eq!(c.fetch_script("x").unwrap().command, "first");
    assert_eq!(c.list_scripts().len(), 1);
}

#[test]
fn add_leaves_other_scripts() {
    let mut c = Config::new("cfg");
    c.add_script(script("a", "cmd a")).unwrap();
    c.add_script(script("b", "cmd b")).unwrap();
    assert_eq!(c.fetch_script("a").unwrap().command, "cmd a");
    assert_eq!(c.fetch_script("b").unwrap().command, "cmd b");
}

#[test]
fn remove_then_fetch_fails() {
    let mut c = Config::new("cfg");
    c.add_script(script("a", "cmd a")).unwrap();
    c.add_script(script("b", "cmd b")).unwrap();
    assert!(c.remove_script("a").is_ok());
    assert_eq!(
        c.fetch_script("a").unwrap_err(),
        PierError(InnerPierError::AliasNotFound { alias: "a".to_string() })
    );
    assert_eq!(c.fetch_script("b").unwrap().command, "cmd b");
    assert_eq!(
        c.remove_script("a").unwrap_err(),
        PierError(InnerPierError::AliasNotFound { alias: "a".to_string() })
    );
}

#[test]
fn remove_missing_changes_nothing() {
    let mut c = Config::new("cfg");
    c.add_script(script("a", "cmd a")).unwrap();
    let err = c.remove_script("zzz").unwrap_err();
    assert_eq!(err.message(), "error: No script found by alias zzz");
    assert_eq!(c.list_scripts(), vec![("a".to_string(), "cmd a".to_string())]);
}

#[test]
fn remove_after_add_restores() {
    let mut c = Config::new("cfg");
    c.add_script(script("a", "cmd a")).unwrap();
    let before = c.entries();
    c.add_script(script("new", "cmd new")).unwrap();
    c.remove_script("new").unwrap();
    assert_eq!(c.entries(), before);
}

#[test]
fn add_after_remove_restores() {
    let mut c = Config::new("cfg");
    c.add_script(script("a", "cmd a")).unwrap();
    let kept = c.fetch_script("a").unwrap().duplicate();
    c.remove_script("a").unwrap();
    c.add_script(kept).unwrap();
    assert_eq!(c.fetch_script("a").unwrap().command, "cmd a");
}

#[test]
fn list_rows_show_each_script_once() {
    let mut c = Config::new("cfg");
    c.add_script(script("a", "cmd a")).unwrap();
    c.add_script(script("b", "cmd b")).unwrap();
    c.add_script(script("a", "cmd other")).unwrap();
    let mut rows = c.list_scripts();
    rows.sort();
    assert_eq!(
        rows,
        vec![("a".to_string(), "cmd a".to_string()), ("b".to_string(), "cmd b".to_string())]
    );
}

#[test]
fn entries_are_keyed_by_table_name() {
    // a key need not be the script's own alias, as in a hand-written file
    let entries = vec![
        ("read-poem-from-file".to_string(), script("read-poem", "cat tests/assets/poem.txt")),
        ("print-env-var".to_string(), script("print-var", "echo $MYVAR")),
    ];
    let c = Config::from_entries("cfg", entries);
    assert_eq!(c.fetch_script("read-poem-from-file").unwrap().alias, "read-poem");
    assert!(c.fetch_script("read-poem").is_err());
    let mut rows = c.list_scripts();
    rows.sort();
    assert_eq!(
        rows,
        vec![
            ("print-env-var".to_string(), "echo $MYVAR".to_string()),
            ("read-poem-from-file".to_string(), "cat tests/assets/poem.txt".to_string()),
        ]
    );
}

#[test]
fn from_entries_later_entry_wins() {
    let entries = vec![
        ("k".to_string(), script("k", "old")),
        ("j".to_string(), script("j", "other")),
        ("k".to_string(), script("k", "new")),
    ];
    let c = Config::from_entries("cfg", entries);
    assert_eq!(c.fetch_script("k").unwrap().command, "new");
    assert_eq!(c.list_scripts().len(), 2);
}

#[test]
fn entries_rebuild_the_same_config() {
    let mut c = Config::new("cfg");
    c.add_script(script("a", "cmd a")).unwrap();
    c.add_script(full_script()).unwrap();
    let rebuilt = Config::from_entries(&c.path(), c.entries());
    let mut x = rebuilt.entries();
    let mut y = c.entries();
    x.sort_by(|p, q| p.0.cmp(&q.0));
    y.sort_by(|p, q| p.0.cmp(&q.0));
    assert_eq!(x, y);
    assert_eq!(rebuilt.path(), "cfg");
}

#[test]
fn duplicate_copies_every_field() {
    let s = full_script();
    assert_eq!(s.duplicate(), s);
}

#[test]
fn shell_argv_appends_the_argument() {
    let s = script("x", "echo hi");
    assert_eq!(
        s.shell_argv("/bin/bash", "there"),
        vec!["/bin/bash".to_string(), "-c".to_string(), "echo hi there".to_string()]
    );
    assert_eq!(s.shell_argv("sh", "")[2], "echo hi ");
}

#[test]
fn handle_add_writes_config() {
    let mut c = Config::new("cfg");
    let a = handle_subcommands(
        &mut c,
        Subcommand::Add { alias: "list-distro".to_string(), command: "cat /etc/issue".to_string() },
    );
    assert_eq!(a, Ok(Action::Write));
    let s = c.fetch_script("list-distro").unwrap();
    assert_eq!(s.command, "cat /etc/issue");
    assert_eq!(s.tags, None);
}

#[test]
fn handle_remove() {
    let mut c = Config::new("cfg");
    c.add_script(script("touch-tmp", "touch test.tmp")).unwrap();
    assert_eq!(
        handle_subcommands(&mut c, Subcommand::Remove { alias: "touch-tmp".to_string() }),
        Ok(Action::Write)
    );
    assert_eq!(
        handle_subcommands(&mut c, Subcommand::Remove { alias: "touch-tmp".to_string() }),
        Err(PierError(InnerPierError::AliasNotFound { alias: "touch-tmp".to_string() }))
    );
}

#[test]
fn handle_run_hands_out_the_script() {
    let mut c = Config::new("cfg");
    c.add_script(full_script()).unwrap();
    let a = handle_subcommands(&mut c, Subcommand::Run { alias: "touch-tmp".to_string() });
    assert_eq!(a, Ok(Action::Run { script: full_script(), arg: String::new() }));
    let e = handle_subcommands(&mut c, Subcommand::Run { alias: "nope".to_string() });
    assert_eq!(e, Err(PierError(InnerPierError::AliasNotFound { alias: "nope".to_string() })));
}

#[test]
fn handle_list() {
    let mut c = Config::new("cfg");
    c.add_script(script("read-poem", "cat poem.txt")).unwrap();
    assert_eq!(
        handle_subcommands(&mut c, Subcommand::List),
        Ok(Action::List { rows: vec![("read-poem".to_string(), "cat poem.txt".to_string())] })
    );
}

#[test]
fn candidates_in_order() {
    assert_eq!(
        config_candidates(Some("/xdg"), Some("/home/u")),
        vec![
            "/xdg/pier/config".to_string(),
            "/home/u/.config/pier/config".to_string(),
            "/home/u/.pier".to_string(),
        ]
    );
    assert_eq!(config_candidates(None, Some("/h")), vec!["/h/.config/pier/config", "/h/.pier"]);
    assert_eq!(config_candidates(Some("/x"), None), vec!["/x/pier/config"]);
    assert!(config_candidates(None, None).is_empty());
}

#[test]
fn selected_path_is_loaded_or_created() {
    let none: Vec<(String, bool)> = Vec::new();
    assert_eq!(
        resolve_config_source(Some("my.toml"), true, &none),
        Ok(ConfigSource::Load("my.toml".to_string()))
    );
    assert_eq!(
        resolve_config_source(Some("my.toml"), false, &none),
        Ok(ConfigSource::Create("my.toml".to_string()))
    );
}

#[test]
fn first_existing_default_is_loaded() {
    let c = vec![
        ("/x/pier/config".to_string(), false),
        ("/h/.config/pier/config".to_string(), true),
        ("/h/.pier".to_string(), true),
    ];
    assert_eq!(
        resolve_config_source(None, false, &c),
        Ok(ConfigSource::Load("/h/.config/pier/config".to_string()))
    );
}

#[test]
fn no_default_config_file() {
    let c = vec![("/h/.pier".to_string(), false)];
    let e = resolve_config_source(None, false, &c).unwrap_err();
    assert_eq!(e, PierError(InnerPierError::NoConfigFile));
    assert_eq!(e.message(), "error: No default config file found. See help for more info.");
}

#[test]
fn error_messages() {
    let m = |e: InnerPierError| PierError(e).message();
    assert_eq!(
        m(InnerPierError::AliasNotFound { alias: "foo".into() }),
        "error: No script found by alias foo"
    );
    assert_eq!(
        m(InnerPierError::TomlSerialize { source: "bad".into() }),
        "error: Unable to serialize config: bad. Probably a bug in the code."
    );
    assert_eq!(
        m(InnerPierError::TomlParse { source: "expected =".into(), path: "/c".into() }),
        "error: Unable to parse toml config from file /c: expected ="
    );
    assert_eq!(
        m(InnerPierError::ConfigRead { source: "denied".into(), path: "/c".into() }),
        "error: Unable to read config from file /c: denied "
    );
    assert_eq!(
        m(InnerPierError::ConfigWrite { source: "full".into(), path: "/c".into() }),
        "error: Write error from /c: full"
    );
    assert_eq!(m(InnerPierError::NoScriptsFound), "error: No scripts found.");
    assert_eq!(
        m(InnerPierError::CommandFailed { why: "Status(1)".into() }),
        "error: Command failed: \nStatus(1)"
    );
    assert_eq!(
        m(InnerPierError::NoDefaultShell { source: "NotPresent".into() }),
        "error: No default $SHELL: \n"
    );
    assert_eq!(
        m(InnerPierError::CliValueNotFound { name: "INPUT".into() }),
        "error: Expected value for INPUT \n"
    );
    let e = PierError::alias_not_found("q");
    assert_eq!(e.inner(), &InnerPierError::AliasNotFound { alias: "q".to_string() });
}
