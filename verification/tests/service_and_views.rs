use openrollback::mcp::{
    commit_description, committed_reply, deleted_reply, parse_error, protocol_version,
    rolled_back_reply, route_error, route_request, route_tool, server_name, server_version,
    snapshot_id_argument, stopped_reply, tool_definitions, unknown_tool, watch_argument,
    watching_reply, McpRoute, McpTool,
};
use openrollback::places::{base_dir_from_home, keep_existing, default_base_dir, canonical_watch_path, quick_path_candidates, resolve_watch_path, validate_watch_path, require_watch_path, require_watcher};
use openrollback::records::{FileChangeRecord, SnapshotRecord};
use openrollback::snapshot::RollbackResult;
use openrollback::views::{app_status, file_change_view, snapshot_view, watching_status};
use openrollback::watch::PrefetchResult;
use openrollback::error::OpenRollbackError;

#[test]
fn tools_list_response_shape() {
    let tools = tool_definitions();
    assert_eq!(tools.len(), 6);
    assert_eq!(tools[0].name, "openrollback_watch");
}

#[test]
fn listed_tools_are_callable() {
    for t in tool_definitions() {
        assert!(route_tool(&t.name).is_some(), "{}", t.name);
    }
    assert_eq!(route_tool("openrollback_delete_snapshot"), Some(McpTool::DeleteSnapshot));
    assert_eq!(route_tool("nope"), None);
    assert_eq!(unknown_tool("nope"), "Unknown tool: nope");
}

#[test]
fn request_routing() {
    assert_eq!(route_request(false, Some("notifications/initialized"), false), McpRoute::Silent);
    assert_eq!(route_request(true, Some("notifications/initialized"), true), McpRoute::MethodNotFound);
    assert_eq!(route_request(true, Some("initialize"), false), McpRoute::Initialize);
    assert_eq!(route_request(true, Some("tools/list"), false), McpRoute::NotInitialized);
    assert_eq!(route_request(true, Some("tools/list"), true), McpRoute::ToolsList);
    assert_eq!(route_request(true, Some("tools/call"), true), McpRoute::ToolsCall);
    assert_eq!(route_request(true, Some("ping"), false), McpRoute::Ping);
    assert_eq!(route_request(true, None, true), McpRoute::InvalidRequest);
    assert_eq!(route_request(true, Some("foo"), true), McpRoute::MethodNotFound);
}

#[test]
fn routing_errors() {
    assert_eq!(route_error(McpRoute::InvalidRequest, ""), Some((-32600, "Invalid Request".to_string())));
    assert_eq!(route_error(McpRoute::MethodNotFound, "foo"), Some((-32601, "Method not found: foo".to_string())));
    assert_eq!(
        route_error(McpRoute::NotInitialized, "tools/list"),
        Some((-32002, "Server not initialized; call initialize first".to_string()))
    );
    assert_eq!(route_error(McpRoute::Ping, "ping"), None);
    assert_eq!(parse_error("bad json"), (-32700, "Parse error: bad json".to_string()));
}

#[test]
fn tool_replies() {
    assert_eq!(watch_argument(None), Err("missing directory_path".to_string()));
    assert_eq!(watch_argument(Some("/w".into())), Ok("/w".to_string()));
    assert_eq!(snapshot_id_argument(None), Err("missing snapshot_id".to_string()));
    assert_eq!(commit_description(None), "MCP commit");
    assert_eq!(watching_reply("/w"), "Watching: /w");
    assert_eq!(stopped_reply(), "Watcher stopped");
    assert_eq!(committed_reply(3, 2), "Snapshot created: id=3, files=2");
    let r = RollbackResult { restored: 1, removed: 2, skipped: 0, details: vec![] };
    assert_eq!(rolled_back_reply(3, &r), "Rolled back snapshot 3: restored=1, removed=2, skipped=0");
    assert_eq!(deleted_reply(9), "Deleted snapshot 9");
    assert_eq!((protocol_version(), server_name(), server_version()), ("2024-11-05", "openrollback", "0.1.0"));
}

#[test]
fn views_copy_records() {
    let s = SnapshotRecord { id: 1, timestamp: "t".into(), description: "d".into(), status: "active".into() };
    let v = snapshot_view(s, 4);
    assert_eq!((v.id, v.file_count, v.status.as_str()), (1, 4, "active"));
    let c = FileChangeRecord {
        id: 2,
        snapshot_id: 1,
        path: "/w/a".into(),
        action: "modify".into(),
        original_hash: Some("h".into()),
        backup_path: None,
    };
    let fv = file_change_view(c);
    assert_eq!((fv.id, fv.path.as_str(), fv.action.as_str()), (2, "/w/a", "modify"));
    assert_eq!(app_status(), "OpenRollback backend ready");
}

#[test]
fn watching_status_summarises_prefetch() {
    let s = watching_status(false, vec![], 0, 0, None);
    assert_eq!((s.prefetch_total, s.prefetch_truncated), (0, false));
    let p = PrefetchResult { cached: 3, total_candidates: 12000, truncated: true };
    let s = watching_status(true, vec!["/w".into()], 2, 3, Some(p));
    assert_eq!((s.is_watching, s.pending_changes, s.cached_files, s.prefetch_total, s.prefetch_truncated), (true, 2, 3, 12000, true));
}

#[test]
fn quick_paths_labelled_in_order() {
    let q = quick_path_candidates(Some("/home/u".into()), None, Some("/home/u/Docs".into()), Some("/home/u/Dl".into()));
    let labels: Vec<&str> = q.iter().map(|p| p.label.as_str()).collect();
    assert_eq!(labels, vec!["用户目录", "文档", "下载"]);
    assert_eq!(q[1].path, "/home/u/Docs");
}

#[test]
fn base_dir_and_watch_paths() {
    assert_eq!(
        base_dir_from_home(None),
        Err(OpenRollbackError::Snapshot("cannot resolve home directory".into()))
    );
    let b = base_dir_from_home(Some("/home/u".into())).unwrap();
    assert!(b.ends_with(".openrollback"));
    assert_eq!(validate_watch_path("   "), Err("监控路径不能为空".to_string()));
    assert_eq!(validate_watch_path("  /w/project \n"), Ok("/w/project".to_string()));
    assert_eq!(validate_watch_path("\u{3000}\u{a0}桌面 x\t"), Ok("桌面 x".to_string()));
    assert_eq!(validate_watch_path("\u{2028}\u{85}"), Err("监控路径不能为空".to_string()));
    assert_eq!(
        require_watch_path(false, "/w/x"),
        Err(OpenRollbackError::Watcher("watch path does not exist: /w/x".into()))
    );
    assert!(require_watch_path(true, "/w/x").is_ok());
    assert_eq!(require_watcher(false), Err(OpenRollbackError::Watcher("watcher not started".into())));
    assert!(require_watcher(true).is_ok());
}

#[test]
fn watch_path_resolution() {
    assert_eq!(canonical_watch_path("/w/a", false, Err("x".into())), Ok("/w/a".to_string()));
    assert_eq!(canonical_watch_path("/w/a", true, Ok("/real/a".into())), Ok("/real/a".to_string()));
    assert_eq!(
        canonical_watch_path("/w/a", true, Err("denied".into())),
        Err("无法解析路径 /w/a: denied".to_string())
    );
    let missing = "/openrollback-missing-dir/none/x.txt";
    assert_eq!(resolve_watch_path(missing), Ok(missing.to_string()));
    assert_eq!(resolve_watch_path("/"), Ok("/".to_string()));
}

#[test]
fn default_data_dir_is_under_home() {
    match default_base_dir() {
        Ok(p) => assert!(p.ends_with(".openrollback") && p.len() > ".openrollback".len()),
        Err(e) => assert_eq!(e, OpenRollbackError::Snapshot("cannot resolve home directory".into())),
    }
    assert_eq!(base_dir_from_home(Some("/home/u".into())), Ok("/home/u/.openrollback".to_string()));
}

#[test]
fn quick_paths_keep_only_existing() {
    let cands = quick_path_candidates(Some("/h".into()), Some("/d".into()), None, Some("/l".into()));
    let kept = keep_existing(&cands, &vec![true, false, true]);
    let got: Vec<(String, String)> = kept.into_iter().map(|q| (q.label, q.path)).collect();
    assert_eq!(got, vec![("用户目录".to_string(), "/h".to_string()), ("下载".to_string(), "/l".to_string())]);
}

#[test]
fn session_opens_tools_after_initialize() {
    let mut session = openrollback::mcp::McpSession::new();
    assert_eq!(session.route(true, Some("tools/list")), openrollback::mcp::McpRoute::NotInitialized);
    assert_eq!(session.route(false, Some("notifications/initialized")), openrollback::mcp::McpRoute::Silent);
    assert_eq!(session.route(true, Some("tools/call")), openrollback::mcp::McpRoute::NotInitialized);
    assert_eq!(session.route(true, Some("initialize")), openrollback::mcp::McpRoute::Initialize);
    assert_eq!(session.route(true, Some("tools/list")), openrollback::mcp::McpRoute::ToolsList);
    assert_eq!(session.route(true, Some("ping")), openrollback::mcp::McpRoute::Ping);
    assert_eq!(session.route(true, Some("tools/call")), openrollback::mcp::McpRoute::ToolsCall);
}
