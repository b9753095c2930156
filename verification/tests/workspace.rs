use qol_cli::workspace::{
    crate_name_matches, default_workspace_path, default_workspace_record, default_workspace_value, doctor_binary_path,
    exe_name, installed_qol_path, resolve_crate_target,
};

fn cands() -> Vec<(String, String)> {
    vec![
        ("/ws".to_string(), "qol-tray".to_string()),
        ("/ws/../qol-cli".to_string(), "qol-cli".to_string()),
        ("/ws/plugins/notes".to_string(), "plugin-notes".to_string()),
        ("/ws/plugins/notes-extra".to_string(), "notes".to_string()),
    ]
}

#[test]
fn crate_names_answer_with_or_without_prefixes() {
    assert!(crate_name_matches("qol-tray", "tray"));
    assert!(crate_name_matches("plugin-notes", "notes"));
    assert!(crate_name_matches("notes", "notes"));
    assert!(!crate_name_matches("plugin-notes-x", "notes"));
}

#[test]
fn resolve_crate_target_picks_the_one_match() {
    assert_eq!(resolve_crate_target(&cands(), "cli"), Ok("/ws/../qol-cli".to_string()));
    assert_eq!(resolve_crate_target(&cands(), "tray"), Ok("/ws".to_string()));
    assert_eq!(
        resolve_crate_target(&cands(), "missing"),
        Err("no qol-tray or sibling crate matching `missing`".to_string())
    );
    assert_eq!(
        resolve_crate_target(&cands(), "notes"),
        Err("ambiguous `notes` - matches: plugin-notes, notes".to_string())
    );
}

#[test]
fn default_workspace_record_round_trips() {
    let record = default_workspace_record("/home/u/qol");
    assert_eq!(record, "/home/u/qol\n");
    assert_eq!(default_workspace_value(&record), Ok("/home/u/qol".to_string()));
    assert_eq!(default_workspace_value("/x\r\n"), Ok("/x".to_string()));
    assert_eq!(
        default_workspace_value("\n"),
        Err("qol dev default workspace is empty; run `qol setup` from the qol workspace again".to_string())
    );
    assert_eq!(default_workspace_path("/cfg"), vec!["/cfg", "dev", "default-workspace.txt"]);
}

#[test]
fn binaries_live_under_cargo_home_and_the_target_dir() {
    assert_eq!(exe_name("qol"), "qol");
    assert_eq!(doctor_binary_path("/ws"), vec!["/ws", "target", "debug", "qol-tray-doctor"]);
    assert_eq!(installed_qol_path(Some("/c".to_string()), Some("/h".to_string())), Ok(vec!["/c".to_string(), "bin".to_string(), "qol".to_string()]));
    assert_eq!(
        installed_qol_path(None, Some("/h".to_string())),
        Ok(vec!["/h".to_string(), ".cargo".to_string(), "bin".to_string(), "qol".to_string()])
    );
    assert_eq!(
        installed_qol_path(None, None),
        Err("CARGO_HOME is not set and no home directory was found".to_string())
    );
}
