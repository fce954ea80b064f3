use rapture_core::workspace::{
    find_workspace_root, load_rmp_toml, resolve_workspace_root, CliError, Directory,
    FoundDirectory, RequestedRoot, RmpAndroid, RmpCore, RmpIos, RmpProject, RmpToml,
};

fn directory(path: &str, has_manifest: bool) -> Directory {
    Directory { path: path.to_string(), has_manifest }
}

#[test]
fn resolve_workspace_root_uses_explicit_root() {
    let requested = RequestedRoot {
        candidate: "/tmp/apps/rapture".to_string(),
        found: FoundDirectory::Found(directory("/private/tmp/apps/rapture", true)),
    };
    let got = resolve_workspace_root(Some(requested), Ok(vec![directory("/tmp", true)]))
        .expect("resolve root");
    assert_eq!(got, "/private/tmp/apps/rapture");
}

#[test]
fn find_workspace_root_walks_up() {
    let got = find_workspace_root(Ok(vec![
        directory("/tmp/w/a/b/c", false),
        directory("/tmp/w/a/b", false),
        directory("/tmp/w/a", false),
        directory("/tmp/w", true),
        directory("/tmp", true),
        directory("/", false),
    ]))
    .expect("find root");
    assert_eq!(got, "/tmp/w");
}

#[test]
fn roots_that_are_not_there_are_refused() {
    assert_eq!(
        find_workspace_root(Ok(vec![directory("/tmp", false), directory("/", false)])),
        Err(CliError::User(
            "could not find rmp.toml (searches current dir and parents)".to_string()
        ))
    );
    assert_eq!(
        find_workspace_root(Err("gone".to_string())),
        Err(CliError::Operational("failed to resolve cwd: gone".to_string()))
    );
    let missing = RequestedRoot {
        candidate: "x".to_string(),
        found: FoundDirectory::Missing("not found".to_string()),
    };
    assert_eq!(
        resolve_workspace_root(Some(missing), Ok(vec![])),
        Err(CliError::User("failed to resolve --root path 'x': not found".to_string()))
    );
    let empty = RequestedRoot {
        candidate: "x".to_string(),
        found: FoundDirectory::Found(directory("/x", false)),
    };
    assert_eq!(
        resolve_workspace_root(Some(empty), Ok(vec![])),
        Err(CliError::User("--root '/x' does not contain rmp.toml".to_string()))
    );
    assert_eq!(
        resolve_workspace_root(None, Ok(vec![directory("/y", true)])),
        Ok("/y".to_string())
    );
}

#[test]
fn settings_are_loaded_or_refused() {
    let settings = RmpToml {
        project: RmpProject { name: "rapture".to_string(), org: "com.example".to_string() },
        core: RmpCore { crate_: "rapture_core".to_string(), bindings: "uniffi".to_string() },
        ios: Some(RmpIos { bundle_id: "b".to_string(), scheme: None }),
        android: Some(RmpAndroid { app_id: "a".to_string(), avd_name: None }),
    };
    assert_eq!(load_rmp_toml(Ok(Ok(settings.clone()))), Ok(settings));
    assert_eq!(
        load_rmp_toml(Ok(Err("line 1".to_string()))),
        Err(CliError::User("failed to parse rmp.toml: line 1".to_string()))
    );
    assert_eq!(
        load_rmp_toml(Err("denied".to_string())),
        Err(CliError::Operational("failed to read rmp.toml: denied".to_string()))
    );
}
