use std::time::Duration;

use qol_cli::progress::{
    cargo_line_step, read_cargo_json, read_stdout, StdoutRead,
    cargo_progress_text, cargo_tree_args, cargo_tree_count, determinate_progress_bar,
    format_elapsed, indeterminate_progress_bar, normalize_cargo_tree_line, progress_percent,
};

#[test]
fn formats_progress_elapsed_time() {
    assert_eq!(format_elapsed(Duration::from_secs(0)), "00:00");
    assert_eq!(format_elapsed(Duration::from_secs(65)), "01:05");
}

#[test]
fn indeterminate_progress_bar_contains_visible_marker() {
    assert!(indeterminate_progress_bar(0).contains('>'));
    assert!(indeterminate_progress_bar(3).contains('='));
}

#[test]
fn formats_cargo_progress_as_fraction_and_percent() {
    assert_eq!(cargo_progress_text(5, 10), "5/10  50% [#########---------]");
    assert_eq!(cargo_progress_text(10, 10), "10/10 100% [##################]");
}

#[test]
fn cargo_tree_args_keep_feature_flags() {
    let args = cargo_tree_args(
        &[
            "build".into(),
            "--release".into(),
            "--features".into(),
            "dev".into(),
            "--locked".into(),
        ],
        false,
    );
    assert_eq!(
        args,
        vec![
            "tree", "--prefix", "none", "--edges", "normal,build", "--features", "dev", "--locked",
        ]
    );
}

#[test]
fn cargo_tree_args_include_dev_for_tests() {
    let args = cargo_tree_args(&["test".into()], true);
    assert_eq!(args, vec!["tree", "--prefix", "none", "--edges", "normal,build,dev"]);
}

#[test]
fn cargo_tree_count_deduplicates_packages() {
    let output = b"qol v0.1.0\nanyhow v1.0.0\nanyhow v1.0.0 (*)\n";
    assert_eq!(cargo_tree_count(output).unwrap(), 2);
}

#[test]
fn cargo_tree_args_keep_target_flags() {
    let args = cargo_tree_args(
        &["build".into(), "--target".into(), "x86_64-pc-windows-msvc".into()],
        false,
    );
    assert_eq!(
        args,
        vec!["tree", "--prefix", "none", "--edges", "normal,build", "--target", "x86_64-pc-windows-msvc"]
    );
}

#[test]
fn cargo_tree_count_rejects_bytes_that_are_not_utf8() {
    assert_eq!(
        cargo_tree_count(&[0xff, 0xfe]),
        Err("cargo tree output was not UTF-8".to_string())
    );
}

#[test]
fn progress_bars_fill_by_fraction() {
    assert_eq!(progress_percent(1, 3), 33);
    assert_eq!(progress_percent(0, 0), 0);
    assert_eq!(progress_percent(5, 3), 100);
    assert_eq!(determinate_progress_bar(0, 4), "[------------------]");
    assert_eq!(normalize_cargo_tree_line("anyhow v1.0.0 (*)"), "anyhow v1.0.0");
}

#[test]
fn cargo_json_counts_distinct_artifacts_and_replays_messages_and_noise() {
    let lines: Vec<String> = [
        r#"{"reason":"compiler-artifact","package_id":"a 0.1.0"}"#,
        r#"{"reason":"compiler-artifact","package_id":"a 0.1.0"}"#,
        r#"{"reason":"compiler-message","message":{"rendered":"warning: unused\n"}}"#,
        "   ",
        "not json",
        r#"{"reason":"compiler-artifact","package_id":"b 0.1.0"}"#,
        r#"{"reason":"compiler-artifact","package_id":"c 0.1.0"}"#,
        r#"{"reason":"build-finished","success":true}"#,
    ]
    .iter()
    .map(|s| s.to_string())
    .collect();
    let (replay, shown) = read_cargo_json(&lines, 2);
    assert_eq!(replay, "warning: unused\nnot json\n");
    assert_eq!(shown, vec![1, 2, 2], "distinct packages, capped at the total");
}

#[test]
fn a_cargo_line_step_follows_the_parsed_message() {
    let mut seen = Vec::new();
    let mut replay = String::new();
    let artifact = Some((Some("compiler-artifact".to_string()), Some("x".to_string()), None));
    assert_eq!(cargo_line_step("{}", artifact.clone(), 5, &mut seen, &mut replay), Some(1));
    assert_eq!(cargo_line_step("{}", artifact, 5, &mut seen, &mut replay), None);
    let nameless = Some((Some("compiler-artifact".to_string()), None, None));
    assert_eq!(cargo_line_step("{}", nameless, 5, &mut seen, &mut replay), None);
    assert_eq!(cargo_line_step("oops", None, 5, &mut seen, &mut replay), None);
    assert_eq!(replay, "oops\n");
    assert_eq!(seen, vec!["x".to_string()]);
}

#[test]
fn stdout_without_compile_progress_is_kept_as_it_came() {
    let bytes = b"plain \xff output\r\n".to_vec();
    match read_stdout(&bytes, None) {
        Ok(StdoutRead::Raw(kept)) => assert_eq!(kept, bytes),
        _ => panic!("raw output is kept"),
    }
}

#[test]
fn stdout_with_compile_progress_is_read_as_cargo_json_lines() {
    let output = "{\"reason\":\"compiler-artifact\",\"package_id\":\"a 0.1.0\"}\r\nnot json\n{\"reason\":\"compiler-artifact\",\"package_id\":\"b 0.1.0\"}\n";
    match read_stdout(output.as_bytes(), Some(5)) {
        Ok(StdoutRead::Cargo(replay, shown)) => {
            assert_eq!(replay, "not json\n");
            assert_eq!(shown, vec![1, 2]);
        }
        _ => panic!("cargo output is read by lines"),
    }
    assert!(matches!(read_stdout(b"\xff\n", Some(5)), Err(ref e) if e == "stream did not contain valid UTF-8"));
}
