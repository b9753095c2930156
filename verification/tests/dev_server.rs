use qol_cli::dev_server::{
    checked_get_body, classify_link_status, delete_dev_link, dev_health_url, dev_link_request_body,
    dev_link_url, fetch_plugin_health_rows, fetch_workspace_plugins, health_ok, http_exchange,
    http_get_bool, http_get_ok, http_request_text, merge_workspace_plugins, parse_http_status,
    parse_json_bool, post_promote_generation, post_recompile_body, post_reload_plugins,
    probe_endpoints, recompile_request_body, response_body, toggle_dev_link, link_request, LinkRequest, web_ok, DevLink,
    DevLinkOutcome, DiscoveredPlugin, EndpointStatus, HttpTarget, LinkToggle, PluginDaemonStatus,
    PluginHealthRow, PluginHealthSnapshot, WorkspacePlugin,
};

const BASE: &str = "http://127.0.0.1:42700";

#[test]
fn parses_http_status_line() {
    assert_eq!(parse_http_status("HTTP/1.1 202 Accepted\r\n\r\n").unwrap(), 202);
}

#[test]
fn response_body_splits_headers_from_payload() {
    let cases = [
        ("HTTP/1.1 200 OK\r\nA: b\r\n\r\n[1,2]", "[1,2]"),
        ("HTTP/1.1 204 No Content\r\n\r\n", ""),
        ("HTTP/1.1 200 OK no separator", ""),
    ];
    for (response, expected) in cases {
        assert_eq!(response_body(response), expected, "response: {response:?}");
    }
}

#[test]
fn dev_health_probe_uses_dev_enabled_metadata() {
    assert!(
        dev_health_url(BASE).ends_with("/api/dev/enabled"),
        "dev health must not depend on gated or heavy discovery endpoints"
    );
}

#[test]
fn parses_json_bool_payload() {
    assert_eq!(parse_json_bool("true"), Some(true));
    assert_eq!(parse_json_bool(" false\n"), Some(false));
    assert_eq!(parse_json_bool(r#"{"ok":true}"#), None);
}

fn discovered(id: &str, name: &str, path: &str) -> DiscoveredPlugin {
    DiscoveredPlugin {
        id: id.into(),
        name: name.into(),
        path: path.into(),
    }
}

fn link(id: &str, name: &str, source: &str, needs_rebuild: bool) -> DevLink {
    DevLink {
        id: id.into(),
        name: name.into(),
        version: "1.0.0".into(),
        source: source.into(),
        needs_rebuild,
        rebuild_reason: if needs_rebuild { "Source changed" } else { "" }.into(),
    }
}

#[test]
fn merge_marks_unlinked_and_lets_links_override_path() {
    let discovered = [
        discovered("b", "Beta", "/ws/b"),
        discovered("a", "Alpha", "/clone/a"),
    ];
    let links = [link("a", "Alpha", "/ws/a", true)];
    let rows = merge_workspace_plugins(&links, &discovered);
    assert_eq!(rows.len(), 2, "one row per id");
    assert_eq!(rows[0].id, "a");
    assert!(rows[0].linked, "a is linked");
    assert_eq!(
        rows[0].path, "/ws/a",
        "linked source overrides discovered path"
    );
    assert_eq!(rows[0].version, "1.0.0");
    assert!(rows[0].needs_rebuild);
    assert_eq!(rows[1].id, "b");
    assert!(!rows[1].linked, "b only discovered → linkable");
    assert_eq!(rows[1].path, "/ws/b");
}

#[test]
fn merge_dedupes_duplicate_discovered_last_path_wins() {
    let discovered = [
        discovered("a", "A", "/first/a"),
        discovered("a", "A", "/second/a"),
    ];
    let rows = merge_workspace_plugins(&[], &discovered);
    assert_eq!(rows.len(), 1, "duplicate ids collapse");
    assert!(!rows[0].linked);
    assert_eq!(rows[0].path, "/second/a", "last discovered path wins");
}

#[test]
fn merge_includes_links_absent_from_discovery() {
    let links = [link("x", "X", "/ws/x", false)];
    let rows = merge_workspace_plugins(&links, &[]);
    assert_eq!(rows.len(), 1);
    assert!(rows[0].linked);
    assert_eq!(rows[0].path, "/ws/x");
}

#[test]
fn merge_keeps_discovered_path_when_the_link_has_no_source_and_sorts_ties_by_id() {
    let discovered = [discovered("z", "Same", "/ws/z"), discovered("m", "Same", "/ws/m")];
    let links = [link("z", "Same", "", false)];
    let rows = merge_workspace_plugins(&links, &discovered);
    let ids: Vec<&str> = rows.iter().map(|row| row.id.as_str()).collect();
    assert_eq!(ids, ["m", "z"], "equal names sort by id");
    assert_eq!(rows[1].path, "/ws/z", "an empty link source keeps the discovered path");
    assert!(rows[1].linked);
}

#[test]
fn classify_link_status_handles_known_codes() {
    let cases = [
        (200, Some(false)),
        (201, Some(false)),
        (204, Some(false)),
        (409, Some(true)),
        (400, None),
        (500, None),
        (502, None),
    ];
    for (status, want) in cases {
        let got = classify_link_status(status);
        match want {
            Some(already) => {
                let outcome = got.unwrap_or_else(|e| panic!("status {status}: {e}"));
                let is_already = matches!(outcome, DevLinkOutcome::AlreadyLinked);
                assert_eq!(is_already, already, "status {status}");
            }
            None => {
                let err = got.unwrap_err();
                assert!(err.contains(&status.to_string()), "status {status}: {err}");
            }
        }
    }
}

#[test]
fn classify_link_status_names_the_failed_status() {
    assert_eq!(
        classify_link_status(503).unwrap_err(),
        "dev-link request failed with HTTP 503"
    );
}

#[test]
fn status_replies_pass_2xx_and_name_other_statuses() {
    assert_eq!(delete_dev_link(Ok(204)), Ok(()));
    assert_eq!(
        delete_dev_link(Ok(404)),
        Err("unlink request failed with HTTP 404".to_string())
    );
    assert_eq!(
        post_reload_plugins(Ok(500)),
        Err("plugin reload request failed with HTTP 500".to_string())
    );
    assert_eq!(
        post_recompile_body(Ok(302)),
        Err("recompile request failed with HTTP 302".to_string())
    );
    assert_eq!(
        post_promote_generation(Ok(199)),
        Err("generation promotion request failed with HTTP 199".to_string())
    );
    assert_eq!(
        post_reload_plugins(Err("connection refused".to_string())),
        Err("connection refused".to_string())
    );
}

#[test]
fn get_replies_read_status_and_boolean_body() {
    assert_eq!(http_get_ok(Ok(200)), Ok(true));
    assert_eq!(http_get_ok(Ok(204)), Ok(false));
    assert_eq!(http_get_bool(Ok((200, " true\n".to_string()))), Ok(true));
    assert_eq!(http_get_bool(Ok((200, "false".to_string()))), Ok(false));
    assert_eq!(http_get_bool(Ok((500, "true".to_string()))), Ok(false));
    assert!(health_ok(Ok((200, "true".to_string()))));
    assert!(!health_ok(Ok((200, "yes".to_string()))));
    assert!(!health_ok(Err("down".to_string())));
    assert!(web_ok(Ok(200)));
    assert!(!web_ok(Ok(404)));
    assert!(!web_ok(Err("down".to_string())));
}

#[test]
fn checked_get_body_requires_200() {
    assert_eq!(
        checked_get_body("http://h:1/x", Ok((200, "[]".to_string()))),
        Ok("[]".to_string())
    );
    assert_eq!(
        checked_get_body("http://h:1/x", Ok((503, "busy".to_string()))),
        Err("GET http://h:1/x returned 503".to_string())
    );
}

#[test]
fn parse_http_status_explains_each_failure() {
    assert_eq!(parse_http_status(""), Err("empty HTTP response".to_string()));
    assert_eq!(
        parse_http_status("HTTP/1.1\r\n"),
        Err("malformed HTTP status line: HTTP/1.1".to_string())
    );
    assert_eq!(
        parse_http_status("HTTP/1.1 abc OK\r\n"),
        Err("invalid HTTP status in HTTP/1.1 abc OK".to_string())
    );
    assert_eq!(
        parse_http_status("HTTP/1.1 70000 Big\r\n"),
        Err("invalid HTTP status in HTTP/1.1 70000 Big".to_string())
    );
}

#[test]
fn http_exchange_splits_status_and_body() {
    assert_eq!(
        http_exchange("HTTP/1.1 200 OK\r\nContent-Type: application/json\r\n\r\ntrue"),
        Ok((200, "true".to_string()))
    );
    assert!(http_exchange("garbage").is_err());
}

#[test]
fn http_target_parses_host_port_and_path() {
    let target = HttpTarget::parse("http://127.0.0.1:42700/api/dev/links").unwrap();
    assert_eq!(target.host, "127.0.0.1");
    assert_eq!(target.port, 42700);
    assert_eq!(target.path, "/api/dev/links");
    assert_eq!(
        HttpTarget::parse("https://x:1/").err(),
        Some("only http:// URLs are supported".to_string())
    );
    assert_eq!(
        HttpTarget::parse("http://x:1").err(),
        Some("URL has no path: http://x:1".to_string())
    );
    assert_eq!(
        HttpTarget::parse("http://x/").err(),
        Some("URL has no port: http://x/".to_string())
    );
    assert_eq!(
        HttpTarget::parse("http://x:99999/").err(),
        Some("invalid port in http://x:99999/".to_string())
    );
}

#[test]
fn http_request_text_counts_body_bytes() {
    let target = HttpTarget::parse("http://localhost:8080/api").unwrap();
    assert_eq!(
        http_request_text("POST", &target, "{\"é\":1}"),
        "POST /api HTTP/1.1\r\nHost: localhost:8080\r\nContent-Type: application/json\r\nContent-Length: 8\r\nConnection: close\r\n\r\n{\"é\":1}"
    );
}

#[test]
fn request_bodies_quote_their_values_as_json() {
    assert_eq!(
        recompile_request_body("feat/x"),
        "{\"worktree_branch\":\"feat/x\"}"
    );
    assert_eq!(
        dev_link_request_body("C:\\plugins\\\"a\""),
        "{\"path\":\"C:\\\\plugins\\\\\\\"a\\\"\"}"
    );
}

#[test]
fn dev_link_url_appends_the_id() {
    assert_eq!(
        dev_link_url(BASE, "plugin-a"),
        "http://127.0.0.1:42700/api/dev/links/plugin-a"
    );
}

#[test]
fn plugin_health_rows_wait_for_the_first_round_and_held_autostart() {
    let row = PluginHealthRow {
        plugin_id: "plugin-foo".to_string(),
        status: PluginDaemonStatus::Down {
            consecutive_failures: 5,
            suppressed: true,
        },
    };
    let snapshot = |tick, held| PluginHealthSnapshot {
        tick,
        daemon_autostart_held: held,
        plugins: vec![row.clone()],
    };
    assert!(matches!(fetch_plugin_health_rows(Ok(snapshot(0, false))), Ok(None)));
    assert!(matches!(fetch_plugin_health_rows(Ok(snapshot(4, true))), Ok(None)));
    let rows = fetch_plugin_health_rows(Ok(snapshot(4, false))).unwrap().unwrap();
    assert_eq!(rows.len(), 1);
    assert_eq!(rows[0].plugin_id, "plugin-foo");
    assert_eq!(
        rows[0].status,
        PluginDaemonStatus::Down {
            consecutive_failures: 5,
            suppressed: true
        }
    );
    assert!(fetch_plugin_health_rows(Err("down".to_string())).is_err());
}

#[test]
fn workspace_plugins_need_links_but_tolerate_missing_discovery() {
    let links = vec![link("x", "X", "/ws/x", false)];
    let rows = fetch_workspace_plugins(Ok(links), Err("discovery off".to_string())).unwrap();
    assert_eq!(rows.len(), 1);
    assert_eq!(
        fetch_workspace_plugins(Err("down".to_string()), Ok(Vec::new())).err(),
        Some("down".to_string())
    );
}

fn plugin(linked: bool, path: &str) -> WorkspacePlugin {
    WorkspacePlugin {
        id: "a".to_string(),
        name: "A".to_string(),
        version: String::new(),
        path: path.to_string(),
        linked,
        needs_rebuild: false,
        rebuild_reason: String::new(),
    }
}

#[test]
fn toggling_unlinks_linked_and_links_only_with_a_path() {
    assert!(matches!(link_request(&plugin(true, "")), Ok(LinkRequest::Unlink(id)) if id == "a"));
    assert!(matches!(link_request(&plugin(false, "/ws/a")), Ok(LinkRequest::Link(body)) if body == "{\"path\":\"/ws/a\"}"));
    assert!(matches!(link_request(&plugin(false, "")), Err(e) if e == "no source path known for a"));
    assert_eq!(toggle_dev_link(&plugin(true, ""), Ok(204)), Ok(LinkToggle::Unlinked));
    assert_eq!(toggle_dev_link(&plugin(false, "/ws/a"), Ok(201)), Ok(LinkToggle::Linked));
    assert_eq!(toggle_dev_link(&plugin(false, "/ws/a"), Ok(409)), Ok(LinkToggle::Linked));
    assert_eq!(
        toggle_dev_link(&plugin(false, ""), Ok(200)),
        Err("no source path known for a".to_string())
    );
}

#[test]
fn a_failed_request_fails_the_toggle() {
    assert_eq!(
        toggle_dev_link(&plugin(true, ""), Ok(500)),
        Err("unlink request failed with HTTP 500".to_string())
    );
    assert_eq!(
        toggle_dev_link(&plugin(false, "/ws/a"), Ok(404)),
        Err("dev-link request failed with HTTP 404".to_string())
    );
    assert_eq!(
        toggle_dev_link(&plugin(true, ""), Err("connection refused".to_string())),
        Err("connection refused".to_string())
    );
}

#[test]
fn probed_endpoints_record_their_replies() {
    let mut endpoints: Vec<EndpointStatus> = probe_endpoints(BASE);
    let labels: Vec<&str> = endpoints.iter().map(|e| e.label.as_str()).collect();
    assert_eq!(labels, ["website", "dev api", "github", "logs"]);
    assert_eq!(endpoints[3].url, "http://127.0.0.1:42700/api/logs/entries");
    assert!(endpoints.iter().all(|e| !e.ok));
    endpoints[0].record(Ok(200));
    endpoints[1].record(Ok(500));
    assert!(endpoints[0].ok);
    assert!(!endpoints[1].ok);
}
