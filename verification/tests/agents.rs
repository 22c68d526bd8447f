use cacp::agents::{
    agent_dir, bin_name, contained, package_name, record_file, BinField, InstallError, Installed,
    Launch,
};

#[test]
fn package_names_drop_the_version_but_keep_the_scope() {
    assert_eq!(package_name("@scope/name@1.2.3"), "@scope/name");
    assert_eq!(package_name("@scope/name"), "@scope/name");
    assert_eq!(package_name("name@1.2.3"), "name");
    assert_eq!(package_name("name"), "name");
    assert_eq!(package_name("@"), "@");
    assert_eq!(package_name(""), "");
    assert_eq!(package_name("a@b@c"), "a@b");
}

#[test]
fn install_paths_live_under_the_data_dir() {
    assert_eq!(agent_dir("/data", "codex"), "/data/agents/codex");
    assert_eq!(agent_dir("/data/", "codex"), "/data/agents/codex");
    assert_eq!(record_file("/data", "codex"), "/data/agents/codex/install.json");
    assert_eq!(agent_dir("", "x"), "agents/x");
    // An absolute id replaces the base, as `Path::join` does.
    assert_eq!(agent_dir("/data", "/etc"), "/etc");
}

#[test]
fn contained_accepts_plain_relative_paths() {
    assert_eq!(contained("/d", "a").unwrap(), "/d/a");
    assert_eq!(contained("/d", "./a/b").unwrap(), "/d/a/b");
    assert_eq!(contained("/d", "././bin/run").unwrap(), "/d/bin/run");
    assert_eq!(contained("/d/", "a/").unwrap(), "/d/a/");
    assert_eq!(contained("/d", "a/./b").unwrap(), "/d/a/./b");
    assert_eq!(contained("/d", "a//b").unwrap(), "/d/a//b");
    assert_eq!(contained("/d", "..a").unwrap(), "/d/..a");
}

#[test]
fn contained_refuses_paths_that_escape_or_name_nothing() {
    for rel in ["", "./", ".", "..", "../x", "a/../b", "a/..", "/etc", ".//etc", "./.", "//"] {
        let err = contained("/d", rel).unwrap_err();
        match &err {
            InstallError::NotInside { dir, .. } => assert_eq!(dir, "/d"),
            other => panic!("{rel}: {other:?}"),
        }
    }
    let err = contained("/d", "./../x").unwrap_err();
    assert_eq!(err, InstallError::NotInside { rel: "../x".to_string(), dir: "/d".to_string() });
    assert_eq!(err.describe(), "../x is not a path inside /d");
}

#[test]
fn bin_names_come_from_the_manifest() {
    assert_eq!(bin_name("@scope/tool@1.0.0", &BinField::Text).unwrap(), "tool");
    assert_eq!(bin_name("tool", &BinField::Text).unwrap(), "tool");
    let table = BinField::Table(vec!["first".to_string(), "second".to_string()]);
    assert_eq!(bin_name("pkg@2", &table).unwrap(), "first");
    let err = bin_name("pkg@2", &BinField::Table(vec![])).unwrap_err();
    assert_eq!(err, InstallError::NoExecutable { name: "pkg".to_string() });
    assert_eq!(err.describe(), "pkg declares no executable");
    assert!(bin_name("@s/p@1", &BinField::Other).is_err());
}

#[test]
fn launches_run_what_was_installed() {
    let l = Launch::new("agent".to_string());
    assert_eq!(l.command, "agent");
    assert!(l.args.is_empty() && l.env.is_empty());
    let installed = Installed {
        id: "a".to_string(),
        version: "1".to_string(),
        command: "/d/bin/a".to_string(),
        args: vec!["--acp".to_string()],
    };
    let l = Launch::from_installed(&installed);
    assert_eq!(l.command, "/d/bin/a");
    assert_eq!(l.args, vec!["--acp".to_string()]);
    assert!(l.env.is_empty());
}

#[test]
fn contained_refuses_windows_separators_and_drives() {
    for rel in ["..\\x", "a\\b", "C:\\x", "c:x", "./z:", "a/b\\..\\..\\c"] {
        assert!(contained("/d", rel).is_err(), "{rel}");
    }
    assert_eq!(contained("/d", "ab:c").unwrap(), "/d/ab:c");
    assert_eq!(contained("/d", "1:x").unwrap(), "/d/1:x");
}
