use std::path::{Path, PathBuf};

use qol_cli::ansi::strip_ansi_codes;
use qol_cli::stream_view::{pretty_trace_file, trace_args};

const DEFAULT_TRACE_LOG_FILE: &str = "/tmp/qol-altmon.log";

#[test]
fn trace_args_relax_by_default_and_expand_when_detailed() {
    assert_eq!(
        trace_args(false),
        ["--no-header", "--no-ghosts", "--no-opacity"],
        "the console trace defaults to a relaxed, suppressed firehose"
    );
    assert_eq!(
        trace_args(true),
        ["--no-header", "--details"],
        "toggling detail opts into the full expanded trace"
    );
}

fn pretty_snapshot(file: &str) -> PathBuf {
    pretty_trace_file(file).iter().collect()
}

#[test]
fn trace_pretty_snapshot_helpers_keep_utf8_and_strip_ansi() {
    assert_eq!(
        pretty_snapshot(DEFAULT_TRACE_LOG_FILE),
        PathBuf::from("/tmp/qol-altmon.pretty.log")
    );
    assert_eq!(
        strip_ansi_codes("\x1b[2m[08:00]\x1b[0m ┌── \x1b[1;32mok\x1b[0m\n"),
        "[08:00] ┌── ok\n"
    );
}

#[test]
fn pretty_snapshot_of_a_nameless_trace_is_named_trace() {
    assert_eq!(pretty_snapshot("/"), Path::new("./trace.pretty.log"));
    assert_eq!(pretty_snapshot(""), Path::new("./trace.pretty.log"));
    assert_eq!(pretty_snapshot("/var/log/.hidden"), Path::new("/var/log/.hidden.pretty.log"));
    assert_eq!(pretty_snapshot("trace.tar.gz"), Path::new("trace.tar.pretty.log"));
    assert_eq!(pretty_snapshot("logs/.."), Path::new("logs/trace.pretty.log"));
}
