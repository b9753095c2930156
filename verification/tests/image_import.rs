use qol_cli::emu_panel::{EmuState, PathInspection, ResolutionState};
use qol_cli::image_import::{
    image_import_conflict, image_import_notice, image_import_request, path_before, qcow2_name, same_path,
    selected_image_import_target, sorted_paths, sorted_strings, EnvironmentImage, ImageCandidate,
    ImageImportTarget,
};

fn emu_env(id: &str, state: ResolutionState) -> EnvironmentImage {
    EnvironmentImage {
        id: id.to_string(),
        state,
        image_kind: "qcow2".to_string(),
        image_base: format!("{id}.qcow2"),
        image_path: Some(format!("/a/b/{id}.qcow2")),
    }
}

fn emu_candidate(id: &str) -> ImageCandidate {
    ImageCandidate { id: id.to_string(), path: format!("/a/b/{id}.qcow2") }
}

#[test]
fn missing_environment_maps_only_to_its_exact_qcow2_candidate() {
    let environments = vec![emu_env("linux/mint", ResolutionState::Missing)];
    let candidates = vec![emu_candidate("other"), emu_candidate("mint")];

    let target = selected_image_import_target(&environments, &candidates, 0, PathInspection::Missing).unwrap();

    assert_eq!(target.environment_id, "linux/mint");
    assert_eq!(target.environment_index, 0);
    assert_eq!(target.candidate_id.as_deref(), Some("mint"));
    assert_eq!(target.source, "/a/b/mint.qcow2");
}

#[test]
fn existing_associated_image_precedes_filename_candidate_matching() {
    let mut environment = emu_env("linux/mint", ResolutionState::Missing);
    environment.image_path = Some("/tmp/x/legacy-custom-name.qcow2".to_string());
    let target = selected_image_import_target(
        &[environment],
        &[emu_candidate("mint")],
        0,
        PathInspection::Found { regular_file: true },
    )
    .unwrap();

    assert_eq!(target.environment_id, "linux/mint");
    assert_eq!(target.source, "/tmp/x/legacy-custom-name.qcow2");
    assert_eq!(target.candidate_id, None);
}

#[test]
fn associated_image_names_the_candidate_at_the_same_path() {
    let mut environment = emu_env("linux/mint", ResolutionState::Missing);
    environment.image_path = Some("/a//b/./mint.qcow2".to_string());
    let target = selected_image_import_target(
        &[environment],
        &[emu_candidate("other"), emu_candidate("mint")],
        0,
        PathInspection::Found { regular_file: true },
    )
    .unwrap();
    assert_eq!(target.candidate_id.as_deref(), Some("mint"));
}

#[test]
fn qcow2_candidate_maps_only_to_its_exact_missing_environment() {
    let environments =
        vec![emu_env("linux/ready", ResolutionState::Ready), emu_env("linux/mint", ResolutionState::Missing)];
    let candidates = vec![emu_candidate("mint")];

    let target =
        selected_image_import_target(&environments, &candidates, environments.len(), PathInspection::Missing).unwrap();

    assert_eq!(target.environment_id, "linux/mint");
    assert_eq!(target.environment_index, 1);
    assert_eq!(target.source, "/a/b/mint.qcow2");
}

#[test]
fn image_import_mapping_refuses_missing_and_ambiguous_matches() {
    let environment = emu_env("linux/mint", ResolutionState::Missing);
    let missing =
        selected_image_import_target(&[environment.clone()], &[emu_candidate("other")], 0, PathInspection::Missing)
            .unwrap_err();
    assert_eq!(missing, "no qcow2 candidate exactly matches linux/mint.qcow2");

    let mut duplicate = emu_candidate("mint");
    duplicate.id = "mint-copy".to_string();
    duplicate.path = "/other/mint.qcow2".to_string();
    let ambiguous = selected_image_import_target(
        &[environment.clone()],
        &[emu_candidate("mint"), duplicate],

        0,
        PathInspection::Missing,
    )
    .unwrap_err();
    assert_eq!(ambiguous, "multiple qcow2 candidates match linux/mint.qcow2: /a/b/mint.qcow2, /other/mint.qcow2");

    let mut second = environment;
    second.id = "linux/mint-copy".to_string();
    let environments = vec![emu_env("linux/mint", ResolutionState::Missing), second];

    let candidate = emu_candidate("mint");
    let ambiguous = selected_image_import_target(
        &environments,
        std::slice::from_ref(&candidate),
        environments.len(),
        PathInspection::Missing,
    )
    .unwrap_err();
    assert_eq!(ambiguous, "/a/b/mint.qcow2 matches multiple missing environments: linux/mint, linux/mint-copy");
}

#[test]
fn image_import_mapping_refuses_ready_and_non_qcow2_selections() {
    let ready = vec![emu_env("linux/mint", ResolutionState::Ready)];
    let ready_error =
        selected_image_import_target(&ready, &[emu_candidate("mint")], 0, PathInspection::Missing).unwrap_err();
    assert_eq!(ready_error, "linux/mint is ready · image verification requires a missing environment");

    let missing = vec![emu_env("linux/mint", ResolutionState::Missing)];
    let mut iso = emu_candidate("mint");
    iso.path = "/a/b/mint.iso".to_string();
    let candidate_error =
        selected_image_import_target(&missing, std::slice::from_ref(&iso), missing.len(), PathInspection::Missing)
            .unwrap_err();
    assert_eq!(candidate_error, "/a/b/mint.iso is not an exact qcow2 image candidate");
}

#[test]
fn non_qcow2_environments_and_bad_rows_are_refused() {
    let mut iso_env = emu_env("win/11", ResolutionState::Missing);
    iso_env.image_kind = "iso".to_string();
    assert_eq!(
        selected_image_import_target(&[iso_env], &[], 0, PathInspection::Missing).unwrap_err(),
        "win/11 expects iso media, not qcow2"
    );
    assert_eq!(
        selected_image_import_target(&[], &[], 3, PathInspection::Missing).unwrap_err(),
        "select a missing environment or qcow2 candidate"
    );
    let env = emu_env("linux/mint", ResolutionState::Missing);
    assert_eq!(
        selected_image_import_target(&[env], &[], 0, PathInspection::Failed("denied".to_string())).unwrap_err(),
        "failed to inspect associated image /a/b/linux/mint.qcow2: denied"
    );
}

#[test]
fn qcow2_names_ignore_extension_case_and_hidden_names() {
    assert_eq!(qcow2_name("/a/b/mint.qcow2").as_deref(), Some("mint.qcow2"));
    assert_eq!(qcow2_name("/a/b/Mint.QCOW2").as_deref(), Some("Mint.QCOW2"));
    assert_eq!(qcow2_name("/a/b/.qcow2"), None);
    assert_eq!(qcow2_name("/a/b/mint.qcow2/.."), None);
    assert_eq!(qcow2_name("/a/b/mint.iso"), None);
    assert_eq!(qcow2_name("/a/b/mint.qcow2/").as_deref(), Some("mint.qcow2"));
}

#[test]
fn path_order_compares_part_by_part() {
    assert!(path_before("/a/b", "/a-b"));
    assert!(!qol_cli::text::str_less("/a/b", "/a-b"));
    assert!(same_path("/a//b/", "/a/b"));
    assert!(!same_path("/a/b", "/a/c"));
    assert_eq!(sorted_paths(&vec!["/a-b".to_string(), "/a/b".to_string()]), vec!["/a/b", "/a-b"]);
    assert_eq!(sorted_strings(&vec!["b".to_string(), "a".to_string(), "ab".to_string()]), vec!["a", "ab", "b"]);
}

#[test]
fn import_requests_wait_for_the_inventory_and_refuse_conflicts() {
    assert_eq!(
        image_import_request(&EmuState::Probing, &[], &[], 0, PathInspection::Missing).unwrap_err(),
        "sandbox inventory is still scanning"
    );
    assert_eq!(
        image_import_request(&EmuState::Failed("bad".to_string()), &[], &[], 0, PathInspection::Missing).unwrap_err(),
        "sandbox inventory unavailable: bad"
    );
    let target = ImageImportTarget {
        environment_id: "linux/mint".to_string(),
        environment_index: 0,
        candidate_id: None,
        source: "/i.qcow2".to_string(),
    };
    assert_eq!(image_import_conflict(&target, false, true, false).as_deref(), Some("linux/mint already has an active sandbox run"));
    assert_eq!(image_import_conflict(&target, false, false, true).as_deref(), Some("linux/mint already has active sandbox lanes"));
    assert_eq!(image_import_conflict(&target, false, false, false), None);
    assert_eq!(image_import_notice(&target, &Ok(())), "verifying /i.qcow2 for linux/mint");
    assert_eq!(
        image_import_notice(&target, &Err("no exe".to_string())),
        "image verification failed to start: no exe · → opens error log"
    );
}

#[test]
fn ambiguity_messages_list_matches_in_sorted_order() {
    let mut second = emu_env("linux/mint", ResolutionState::Missing);
    second.id = "linux/mint-copy".to_string();
    let environments = vec![second, emu_env("linux/mint", ResolutionState::Missing)];
    let err = selected_image_import_target(&environments, &[emu_candidate("mint")], 2, PathInspection::Missing)
        .unwrap_err();
    assert_eq!(err, "/a/b/mint.qcow2 matches multiple missing environments: linux/mint, linux/mint-copy");
    let mut duplicate = emu_candidate("mint");
    duplicate.path = "/other/mint.qcow2".to_string();
    let err = selected_image_import_target(
        &[emu_env("linux/mint", ResolutionState::Missing)],
        &[duplicate, emu_candidate("mint")],
        0,
        PathInspection::Missing,
    )
    .unwrap_err();
    assert_eq!(err, "multiple qcow2 candidates match linux/mint.qcow2: /a/b/mint.qcow2, /other/mint.qcow2");
}
