use qol_cli::setup::{newest_setup_input, path_dependencies_from, setup_inputs, workspace_path_dependencies};

fn pair(a: &str, b: &str) -> (String, String) {
    (a.to_string(), b.to_string())
}

#[test]
fn newest_setup_input_tracks_workspace_path_dependency_sources() {
    let root = "/repo";
    let package = "/repo/tools/qol-cli";
    let dirs = workspace_path_dependencies(
        package,
        "/repo/tools/qol-cli/Cargo.toml",
        "[package]\nversion = \"0.0.0\"\n[dependencies]\nqol-lib.workspace = true\n",
        root,
        "/repo/Cargo.toml",
        Ok("[workspace]\n[workspace.dependencies]\nqol-lib = { path = \"libs/qol-lib\" }\n".to_string()),
    )
    .unwrap();
    assert_eq!(dirs, vec![pair(root, "libs/qol-lib")]);

    let inputs = setup_inputs(package, root, &dirs);
    let listed: Vec<(bool, Vec<String>)> = inputs.iter().map(|i| (i.tree, i.parts.clone())).collect();
    let parts = |v: &[&str]| v.iter().map(|s| s.to_string()).collect::<Vec<String>>();
    assert_eq!(
        listed,
        vec![
            (false, parts(&[package, "Cargo.toml"])),
            (false, parts(&[root, "Cargo.lock"])),
            (true, parts(&[package, "src"])),
            (false, parts(&[root, "libs/qol-lib", "Cargo.toml"])),
            (true, parts(&[root, "libs/qol-lib", "src"])),
        ]
    );

    // The dependency's source file was written last: its time is the newest.
    let dependency_src: u128 = 1_700_000_000_500_000_000;
    let times = vec![1_700_000_000_100_000_000, 1_700_000_000_200_000_000, 1_700_000_000_300_000_000, 1_700_000_000_400_000_000, dependency_src];
    assert_eq!(newest_setup_input(&times), dependency_src);
}

#[test]
fn a_path_entry_is_relative_to_the_package() {
    let dirs = workspace_path_dependencies(
        "/repo/tools/a",
        "/repo/tools/a/Cargo.toml",
        "[dependencies]\nlocal = { path = \"../b\" }\nserde = \"1\"\nodd = { path = 3, workspace = true }\n",
        "/repo",
        "/repo/Cargo.toml",
        Ok("[workspace]\n".to_string()),
    )
    .unwrap();
    assert_eq!(dirs, vec![pair("/repo/tools/a", "../b")]);
}

#[test]
fn a_workspace_entry_without_a_path_names_no_directory() {
    let dirs = workspace_path_dependencies(
        "/repo/p",
        "/repo/p/Cargo.toml",
        "[dependencies]\nanyhow.workspace = true\nmissing.workspace = true\noff = { workspace = false }\n",
        "/repo",
        "/repo/Cargo.toml",
        Ok("[workspace.dependencies]\nanyhow = \"1\"\noff = { path = \"libs/off\" }\n".to_string()),
    )
    .unwrap();
    assert!(dirs.is_empty());
}

#[test]
fn a_manifest_without_dependencies_names_none() {
    let dirs = workspace_path_dependencies(
        "/repo/p",
        "/repo/p/Cargo.toml",
        "[package]\nname = \"p\"\n",
        "/repo",
        "/repo/Cargo.toml",
        Ok(String::new()),
    )
    .unwrap();
    assert!(dirs.is_empty());
}

#[test]
fn a_manifest_that_is_not_toml_is_named_in_the_error() {
    let err = workspace_path_dependencies(
        "/repo/p",
        "/repo/p/Cargo.toml",
        "[dependencies\n",
        "/repo",
        "/repo/Cargo.toml",
        Ok(String::new()),
    )
    .unwrap_err();
    assert_eq!(err, "failed to parse /repo/p/Cargo.toml");

    let err = workspace_path_dependencies(
        "/repo/p",
        "/repo/p/Cargo.toml",
        "[dependencies]\n",
        "/repo",
        "/repo/Cargo.toml",
        Ok("= nope".to_string()),
    )
    .unwrap_err();
    assert_eq!(err, "failed to parse /repo/Cargo.toml");
}

#[test]
fn a_workspace_manifest_that_could_not_be_read_gives_its_read_error() {
    let err = workspace_path_dependencies(
        "/repo/p",
        "/repo/p/Cargo.toml",
        "[dependencies]\n",
        "/repo",
        "/repo/Cargo.toml",
        Err("failed to read /repo/Cargo.toml".to_string()),
    )
    .unwrap_err();
    assert_eq!(err, "failed to read /repo/Cargo.toml");
    // The package's own parse error comes first.
    let err = path_dependencies_from("/repo/p", "/repo/p/Cargo.toml", None, "/repo", "/repo/Cargo.toml", Err("x".to_string()))
        .unwrap_err();
    assert_eq!(err, "failed to parse /repo/p/Cargo.toml");
}

#[test]
fn parsed_entries_resolve_through_the_workspace_table() {
    let deps = vec![
        ("a".to_string(), Some(Some("crates/a".to_string())), None),
        ("b".to_string(), None, Some(true)),
        ("c".to_string(), Some(None), Some(true)),
    ];
    let ws = vec![("b".to_string(), Some("libs/b".to_string()))];
    let dirs = path_dependencies_from("/p", "/p/Cargo.toml", Some((Some(deps), None)), "/r", "/r/Cargo.toml", Ok(Some((None, Some(ws)))))
        .unwrap();
    assert_eq!(dirs, vec![pair("/p", "crates/a"), pair("/r", "libs/b")]);
}

#[test]
fn no_input_times_give_the_epoch() {
    assert_eq!(newest_setup_input(&vec![]), 0);
    assert_eq!(newest_setup_input(&vec![5, 9, 2]), 9);
}
