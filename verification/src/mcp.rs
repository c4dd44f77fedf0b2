//! The MCP (JSON-RPC 2.0 over stdio) service: which request gets which
//! answer, the tools it offers, and the texts the tools reply with.

use vstd::prelude::*;
use crate::text::{str_eq, concat2, concat3, i64_text, usize_text, spec_int_text, spec_decimal};
use crate::snapshot::RollbackResult;

verus! {

/// The protocol version the service speaks.
pub fn protocol_version() -> (s: &'static str)
    ensures
        s@ == "2024-11-05"@,
{
    "2024-11-05"
}

/// The service's name.
pub fn server_name() -> (s: &'static str)
    ensures
        s@ == "openrollback"@,
{
    "openrollback"
}

/// The service's version.
pub fn server_version() -> (s: &'static str)
    ensures
        s@ == "0.1.0"@,
{
    "0.1.0"
}

/// How a request is answered.
#[derive(Debug, Clone, Copy, PartialEq, Eq, Structural)]
pub enum McpRoute {
    /// The `initialized` notification: no answer.
    Silent,
    Initialize,
    ToolsList,
    ToolsCall,
    Ping,
    /// No method: error -32600.
    InvalidRequest,
    /// An unknown method: error -32601.
    MethodNotFound,
    /// Tools asked for before `initialize`: error -32002.
    NotInitialized,
}

/// The answer a request gets, given whether it has an id, its method and
/// whether the service was initialised.
pub open spec fn spec_route(has_id: bool, method: Option<Seq<char>>, initialized: bool) -> McpRoute {
    if !has_id && method == Some("notifications/initialized"@) {
        McpRoute::Silent
    } else {
        let m = match method {
            Some(m) => m,
            None => Seq::empty(),
        };
        if m == "initialize"@ {
            McpRoute::Initialize
        } else if m == "tools/list"@ {
            if initialized { McpRoute::ToolsList } else { McpRoute::NotInitialized }
        } else if m == "tools/call"@ {
            if initialized { McpRoute::ToolsCall } else { McpRoute::NotInitialized }
        } else if m == "ping"@ {
            McpRoute::Ping
        } else if m.len() == 0 {
            McpRoute::InvalidRequest
        } else {
            McpRoute::MethodNotFound
        }
    }
}

/// Routes a request.
pub fn route_request(has_id: bool, method: Option<&str>, initialized: bool) -> (r: McpRoute)
    ensures
        r == spec_route(has_id, match method {
            Some(m) => Some(m@),
            None => None,
        }, initialized),
        method matches Some(m) && m@ == "initialize"@ ==> r == McpRoute::Initialize,
        method matches Some(m) && m@ == "tools/list"@ ==> r == (if initialized {
            McpRoute::ToolsList
        } else {
            McpRoute::NotInitialized
        }),
        method matches Some(m) && m@ == "tools/call"@ ==> r == (if initialized {
            McpRoute::ToolsCall
        } else {
            McpRoute::NotInitialized
        }),
        method matches Some(m) && m@ == "ping"@ ==> r == McpRoute::Ping,
        !has_id && (method matches Some(m) && m@ == "notifications/initialized"@) ==> r == McpRoute::Silent,
        method is None ==> r == McpRoute::InvalidRequest,
{
    proof {
        lemma_method_names();
    }
    if !has_id {
        if let Some(m) = method {
            if str_eq(m, "notifications/initialized") {
                return McpRoute::Silent;
            }
        }
    }
    let m = match method {
        Some(m) => m,
        None => "",
    };
    proof {
        reveal_strlit("");
        assert(""@ =~= Seq::<char>::empty());
    }
    let ghost spec_m = match method {
        Some(x) => x@,
        None => Seq::<char>::empty(),
    };
    assert(m@ == spec_m);
    if str_eq(m, "initialize") {
        McpRoute::Initialize
    } else if str_eq(m, "tools/list") {
        if initialized { McpRoute::ToolsList } else { McpRoute::NotInitialized }
    } else if str_eq(m, "tools/call") {
        if initialized { McpRoute::ToolsCall } else { McpRoute::NotInitialized }
    } else if str_eq(m, "ping") {
        McpRoute::Ping
    } else if m.unicode_len() == 0 {
        McpRoute::InvalidRequest
    } else {
        McpRoute::MethodNotFound
    }
}

/// The service's state across requests: whether `initialize` was asked.
pub struct McpSession {
    initialized: bool,
}

impl McpSession {
    /// Whether `initialize` was asked.
    pub closed spec fn is_initialized(&self) -> bool {
        self.initialized
    }

    /// A session before `initialize`.
    pub fn new() -> (s: McpSession)
        ensures
            !s.is_initialized(),
    {
        McpSession { initialized: false }
    }

    /// Routes a request in this session; `initialize` opens the session for
    /// the tools, and nothing closes it again.
    pub fn route(&mut self, has_id: bool, method: Option<&str>) -> (r: McpRoute)
        ensures
            r == spec_route(has_id, match method {
                Some(m) => Some(m@),
                None => None,
            }, old(self).is_initialized()),
            final(self).is_initialized() == (old(self).is_initialized() || r == McpRoute::Initialize),
    {
        let r = route_request(has_id, method, self.initialized);
        if r == McpRoute::Initialize {
            self.initialized = true;
        }
        r
    }
}

/// Tools are refused before `initialize` and served after it.
pub proof fn lemma_tools_need_initialize(initialized: bool)
    ensures
        spec_route(true, Some("tools/list"@), initialized) == (if initialized {
            McpRoute::ToolsList
        } else {
            McpRoute::NotInitialized
        }),
        spec_route(true, Some("tools/call"@), initialized) == (if initialized {
            McpRoute::ToolsCall
        } else {
            McpRoute::NotInitialized
        }),
        spec_route(true, Some("initialize"@), initialized) == McpRoute::Initialize,
{
    reveal_strlit("tools/list");
    reveal_strlit("tools/call");
    reveal_strlit("initialize");
    reveal_strlit("notifications/initialized");
    reveal_strlit("ping");
    assert("tools/list"@[0] != "initialize"@[0]);
    assert("tools/call"@[0] != "initialize"@[0]);
    assert("tools/call"@[6] != "tools/list"@[6]);
}

/// A request as the session routes it: whether it has an id, and its method.
pub type McpRequestKey = (bool, Option<Seq<char>>);

/// Whether a session is initialised after the given requests, routed one
/// after another from a fresh session.
pub open spec fn session_initialized(reqs: Seq<McpRequestKey>) -> bool
    decreases reqs.len(),
{
    if reqs.len() == 0 {
        false
    } else {
        let before = session_initialized(reqs.drop_last());
        before || spec_route(reqs.last().0, reqs.last().1, before) == McpRoute::Initialize
    }
}

/// A request is routed to `initialize` exactly when its method is
/// `initialize`, whatever the session's state.
pub proof fn lemma_initialize_route(has_id: bool, method: Option<Seq<char>>, initialized: bool)
    ensures
        (spec_route(has_id, method, initialized) == McpRoute::Initialize) == (method == Some("initialize"@)),
{
    reveal_strlit("initialize");
    reveal_strlit("notifications/initialized");
    assert("notifications/initialized"@[0] != "initialize"@[0]);
}

/// After a sequence of requests a session is initialised exactly when one
/// of them was `initialize`; so tools are served after the first
/// `initialize` and refused before it.
pub proof fn lemma_session_initialized(reqs: Seq<McpRequestKey>)
    ensures
        session_initialized(reqs) == exists|j: int| 0 <= j < reqs.len() && #[trigger] reqs[j].1 == Some("initialize"@),
    decreases reqs.len(),
{
    if reqs.len() > 0 {
        let d = reqs.drop_last();
        lemma_session_initialized(d);
        lemma_initialize_route(reqs.last().0, reqs.last().1, session_initialized(d));
        if exists|j: int| 0 <= j < d.len() && #[trigger] d[j].1 == Some("initialize"@) {
            let j = choose|j: int| 0 <= j < d.len() && #[trigger] d[j].1 == Some("initialize"@);
            assert(reqs[j] == d[j]);
        }
        if exists|j: int| 0 <= j < reqs.len() && #[trigger] reqs[j].1 == Some("initialize"@) {
            let j = choose|j: int| 0 <= j < reqs.len() && #[trigger] reqs[j].1 == Some("initialize"@);
            if j < d.len() {
                assert(d[j] == reqs[j]);
            }
        }
    }
}

/// The method names the service knows are distinct.
pub proof fn lemma_method_names()
    ensures
        "initialize"@ != "tools/list"@,
        "initialize"@ != "tools/call"@,
        "initialize"@ != "ping"@,
        "initialize"@ != "notifications/initialized"@,
        "tools/list"@ != "tools/call"@,
        "tools/list"@ != "ping"@,
        "tools/list"@ != "notifications/initialized"@,
        "tools/call"@ != "ping"@,
        "tools/call"@ != "notifications/initialized"@,
        "ping"@ != "notifications/initialized"@,
        "initialize"@.len() > 0 && "tools/list"@.len() > 0 && "tools/call"@.len() > 0 && "ping"@.len() > 0,
{
    reveal_strlit("initialize");
    reveal_strlit("tools/list");
    reveal_strlit("tools/call");
    reveal_strlit("ping");
    reveal_strlit("notifications/initialized");
    assert("initialize"@[0] != "tools/list"@[0]);
    assert("initialize"@[0] != "tools/call"@[0]);
    assert("initialize"@[0] != "ping"@[0]);
    assert("initialize"@[0] != "notifications/initialized"@[0]);
    assert("tools/list"@[6] != "tools/call"@[6]);
    assert("tools/list"@[0] != "ping"@[0]);
    assert("tools/list"@[0] != "notifications/initialized"@[0]);
    assert("tools/call"@[0] != "ping"@[0]);
    assert("tools/call"@[0] != "notifications/initialized"@[0]);
    assert("ping"@[0] != "notifications/initialized"@[0]);
}

/// The error code and message of a request that gets an error.
pub open spec fn spec_route_error(route: McpRoute, method: Seq<char>) -> Option<(i32, Seq<char>)> {
    match route {
        McpRoute::InvalidRequest => Some((-32600i32, "Invalid Request"@)),
        McpRoute::MethodNotFound => Some((-32601i32, "Method not found: "@ + method)),
        McpRoute::NotInitialized => Some((-32002i32, "Server not initialized; call initialize first"@)),
        _ => None,
    }
}

/// The error answer for a route, if it is one.
pub fn route_error(route: McpRoute, method: &str) -> (r: Option<(i32, String)>)
    ensures
        match spec_route_error(route, method@) {
            Some((c, m)) => r matches Some(e) && e.0 == c && e.1@ == m,
            None => r is None,
        },
{
    match route {
        McpRoute::InvalidRequest => Some((-32600i32, "Invalid Request".to_owned())),
        McpRoute::MethodNotFound => Some((-32601i32, concat2("Method not found: ", method))),
        McpRoute::NotInitialized => Some((-32002i32, "Server not initialized; call initialize first".to_owned())),
        _ => None,
    }
}

/// The error answer for a line that is not a JSON-RPC request.
pub fn parse_error(reason: &str) -> (r: (i32, String))
    ensures
        r.0 == -32700i32,
        r.1@ == "Parse error: "@ + reason@,
{
    (-32700i32, concat2("Parse error: ", reason))
}

/// The tools the service offers.
#[derive(Debug, Clone, Copy, PartialEq, Eq, Structural)]
pub enum McpTool {
    Watch,
    StopWatch,
    Commit,
    Rollback,
    Snapshots,
    DeleteSnapshot,
}

/// The tool a name calls.
pub open spec fn spec_tool(name: Seq<char>) -> Option<McpTool> {
    if name == "openrollback_watch"@ {
        Some(McpTool::Watch)
    } else if name == "openrollback_stop_watch"@ {
        Some(McpTool::StopWatch)
    } else if name == "openrollback_commit"@ {
        Some(McpTool::Commit)
    } else if name == "openrollback_rollback"@ {
        Some(McpTool::Rollback)
    } else if name == "openrollback_snapshots"@ {
        Some(McpTool::Snapshots)
    } else if name == "openrollback_delete_snapshot"@ {
        Some(McpTool::DeleteSnapshot)
    } else {
        None
    }
}

/// The name under which each tool is called and listed.
pub open spec fn tool_name(t: McpTool) -> Seq<char> {
    match t {
        McpTool::Watch => "openrollback_watch"@,
        McpTool::StopWatch => "openrollback_stop_watch"@,
        McpTool::Commit => "openrollback_commit"@,
        McpTool::Rollback => "openrollback_rollback"@,
        McpTool::Snapshots => "openrollback_snapshots"@,
        McpTool::DeleteSnapshot => "openrollback_delete_snapshot"@,
    }
}

/// The tools, in the order they are listed.
pub open spec fn listed_tools() -> Seq<McpTool> {
    seq![McpTool::Watch, McpTool::StopWatch, McpTool::Commit, McpTool::Rollback, McpTool::Snapshots, McpTool::DeleteSnapshot]
}

/// Finds the tool a call names: the tool whose name it is, and no tool for
/// any other name.
pub fn route_tool(name: &str) -> (r: Option<McpTool>)
    ensures
        r == spec_tool(name@),
        r matches Some(t) ==> tool_name(t) == name@,
        forall|t: McpTool| name@ == #[trigger] tool_name(t) ==> r == Some(t),
{
    proof {
        lemma_tool_names(name@);
    }
    if str_eq(name, "openrollback_watch") {
        Some(McpTool::Watch)
    } else if str_eq(name, "openrollback_stop_watch") {
        Some(McpTool::StopWatch)
    } else if str_eq(name, "openrollback_commit") {
        Some(McpTool::Commit)
    } else if str_eq(name, "openrollback_rollback") {
        Some(McpTool::Rollback)
    } else if str_eq(name, "openrollback_snapshots") {
        Some(McpTool::Snapshots)
    } else if str_eq(name, "openrollback_delete_snapshot") {
        Some(McpTool::DeleteSnapshot)
    } else {
        None
    }
}

/// A call dispatches to the tool of the same name: the name of the tool a
/// name calls is that name, every tool is called by its own name, and the
/// tools are listed under those names in order.
pub proof fn lemma_tool_names(name: Seq<char>)
    ensures
        spec_tool(name) matches Some(t) ==> tool_name(t) == name,
        forall|t: McpTool| name == #[trigger] tool_name(t) ==> spec_tool(name) == Some(t),
        forall|i: int| 0 <= i < spec_tools().len() ==> #[trigger] spec_tools()[i].0 == tool_name(listed_tools()[i]),
        spec_tools().len() == listed_tools().len(),
{
    reveal_strlit("openrollback_watch");
    reveal_strlit("openrollback_stop_watch");
    reveal_strlit("openrollback_commit");
    reveal_strlit("openrollback_rollback");
    reveal_strlit("openrollback_snapshots");
    reveal_strlit("openrollback_delete_snapshot");
    let w = "openrollback_watch"@;
    let sw = "openrollback_stop_watch"@;
    let c = "openrollback_commit"@;
    let rb = "openrollback_rollback"@;
    let sn = "openrollback_snapshots"@;
    let d = "openrollback_delete_snapshot"@;
    assert(w[13] != sw[13] && w[13] != c[13] && w[13] != rb[13] && w[13] != sn[13] && w[13] != d[13]);
    assert(sw[14] != sn[14] && sw[13] != c[13] && sw[13] != rb[13] && sw[13] != d[13]);
    assert(c[13] != rb[13] && c[13] != sn[13] && c[13] != d[13]);
    assert(rb[13] != sn[13] && rb[13] != d[13] && sn[13] != d[13]);
}

/// The reply to a call of an unknown tool.
pub fn unknown_tool(name: &str) -> (r: String)
    ensures
        r@ == "Unknown tool: "@ + name@,
{
    concat2("Unknown tool: ", name)
}

/// The directory a watch call names, or the reply when it names none.
pub fn watch_argument(directory_path: Option<String>) -> (r: Result<String, String>)
    ensures
        directory_path matches Some(p) ==> r == Ok::<String, String>(p),
        directory_path is None ==> (r matches Err(m) && m@ == "missing directory_path"@),
{
    match directory_path {
        Some(p) => Ok(p),
        None => Err("missing directory_path".to_owned()),
    }
}

/// The snapshot id a call names, or the reply when it names none.
pub fn snapshot_id_argument(snapshot_id: Option<i64>) -> (r: Result<i64, String>)
    ensures
        snapshot_id matches Some(i) ==> r == Ok::<i64, String>(i),
        snapshot_id is None ==> (r matches Err(m) && m@ == "missing snapshot_id"@),
{
    match snapshot_id {
        Some(i) => Ok(i),
        None => Err("missing snapshot_id".to_owned()),
    }
}

/// The description a commit call gives, `MCP commit` by default.
pub fn commit_description(description: Option<String>) -> (r: String)
    ensures
        description matches Some(d) ==> r == d,
        description is None ==> r@ == "MCP commit"@,
{
    match description {
        Some(d) => d,
        None => "MCP commit".to_owned(),
    }
}

/// The reply to a watch call.
pub fn watching_reply(path: &str) -> (r: String)
    ensures
        r@ == "Watching: "@ + path@,
{
    concat2("Watching: ", path)
}

/// The reply to a stop call.
pub fn stopped_reply() -> (r: String)
    ensures
        r@ == "Watcher stopped"@,
{
    "Watcher stopped".to_owned()
}

/// The reply to a commit call.
pub fn committed_reply(snapshot_id: i64, file_count: i64) -> (r: String)
    ensures
        r@ == "Snapshot created: id="@ + spec_int_text(snapshot_id as int) + ", files="@ + spec_int_text(file_count as int),
{
    let id = i64_text(snapshot_id);
    let n = i64_text(file_count);
    let mut r = concat3("Snapshot created: id=", id.as_str(), ", files=");
    r.append(n.as_str());
    r
}

/// The reply to a rollback call.
pub fn rolled_back_reply(snapshot_id: i64, result: &RollbackResult) -> (r: String)
    ensures
        r@ == "Rolled back snapshot "@ + spec_int_text(snapshot_id as int) + ": restored="@
            + spec_decimal(result.restored as nat) + ", removed="@ + spec_decimal(result.removed as nat)
            + ", skipped="@ + spec_decimal(result.skipped as nat),
{
    let id = i64_text(snapshot_id);
    let mut r = concat3("Rolled back snapshot ", id.as_str(), ": restored=");
    r.append(usize_text(result.restored).as_str());
    r.append(", removed=");
    r.append(usize_text(result.removed).as_str());
    r.append(", skipped=");
    r.append(usize_text(result.skipped).as_str());
    r
}

/// The reply to a delete call.
pub fn deleted_reply(snapshot_id: i64) -> (r: String)
    ensures
        r@ == "Deleted snapshot "@ + spec_int_text(snapshot_id as int),
{
    let id = i64_text(snapshot_id);
    concat2("Deleted snapshot ", id.as_str())
}

/// One parameter of a tool.
#[derive(Debug, Clone, PartialEq, Eq)]
pub struct ToolParam {
    pub name: String,
    /// The JSON type: `string` or `integer`.
    pub kind: String,
    pub description: String,
    pub required: bool,
}

/// A tool as the service lists it.
#[derive(Debug, Clone, PartialEq, Eq)]
pub struct ToolDef {
    pub name: String,
    pub description: String,
    pub params: Vec<ToolParam>,
}

/// The view of a parameter: name, type, description, required.
pub open spec fn param_view(p: ToolParam) -> (Seq<char>, Seq<char>, Seq<char>, bool) {
    (p.name@, p.kind@, p.description@, p.required)
}

/// The view of a tool: name, description, parameters.
pub open spec fn tool_view(t: ToolDef) -> (Seq<char>, Seq<char>, Seq<(Seq<char>, Seq<char>, Seq<char>, bool)>) {
    (t.name@, t.description@, t.params@.map_values(|p: ToolParam| param_view(p)))
}

/// The tools the service lists, in order.
pub open spec fn spec_tools() -> Seq<(Seq<char>, Seq<char>, Seq<(Seq<char>, Seq<char>, Seq<char>, bool)>)> {
    seq![
        ("openrollback_watch"@, "Start watching a directory for file changes"@,
            seq![("directory_path"@, "string"@, "Path to watch recursively"@, true)]),
        ("openrollback_stop_watch"@, "Stop the active file watcher"@, Seq::empty()),
        ("openrollback_commit"@, "Create a snapshot from pending file changes"@,
            seq![("description"@, "string"@, "Snapshot description"@, true)]),
        ("openrollback_rollback"@, "Rollback file system to undo a snapshot"@,
            seq![("snapshot_id"@, "integer"@, "Snapshot ID"@, true)]),
        ("openrollback_snapshots"@, "List all snapshots"@, Seq::empty()),
        ("openrollback_delete_snapshot"@, "Delete a snapshot record and its backups without changing live files"@,
            seq![("snapshot_id"@, "integer"@, "Snapshot ID to delete"@, true)]),
    ]
}

fn tool(name: &str, description: &str, param: Option<(&str, &str, &str)>) -> (t: ToolDef)
    ensures
        tool_view(t) == (name@, description@, match param {
            Some((n, k, d)) => seq![(n@, k@, d@, true)],
            None => Seq::<(Seq<char>, Seq<char>, Seq<char>, bool)>::empty(),
        }),
{
    let mut params: Vec<ToolParam> = Vec::new();
    match param {
        Some((n, k, d)) => {
            params.push(ToolParam { name: n.to_owned(), kind: k.to_owned(), description: d.to_owned(), required: true });
        },
        None => {},
    }
    let t = ToolDef { name: name.to_owned(), description: description.to_owned(), params };
    assert(tool_view(t).2 =~= match param {
        Some((n, k, d)) => seq![(n@, k@, d@, true)],
        None => Seq::<(Seq<char>, Seq<char>, Seq<char>, bool)>::empty(),
    });
    t
}

/// The tools the service offers, as `tools/list` answers.
pub fn tool_definitions() -> (r: Vec<ToolDef>)
    ensures
        r@.map_values(|t: ToolDef| tool_view(t)) == spec_tools(),
{
    let mut r: Vec<ToolDef> = Vec::new();
    r.push(tool("openrollback_watch", "Start watching a directory for file changes",
        Some(("directory_path", "string", "Path to watch recursively"))));
    r.push(tool("openrollback_stop_watch", "Stop the active file watcher", None));
    r.push(tool("openrollback_commit", "Create a snapshot from pending file changes",
        Some(("description", "string", "Snapshot description"))));
    r.push(tool("openrollback_rollback", "Rollback file system to undo a snapshot",
        Some(("snapshot_id", "integer", "Snapshot ID"))));
    r.push(tool("openrollback_snapshots", "List all snapshots", None));
    r.push(tool("openrollback_delete_snapshot",
        "Delete a snapshot record and its backups without changing live files",
        Some(("snapshot_id", "integer", "Snapshot ID to delete"))));
    assert(r@.map_values(|t: ToolDef| tool_view(t)) =~= spec_tools());
    r
}

/// Every listed tool can be called by its name.
pub proof fn lemma_listed_tools_callable(i: int)
    requires
        0 <= i < spec_tools().len(),
    ensures
        spec_tool(spec_tools()[i].0) is Some,
{
}

/// Every tool that can be called by name is listed under that name.
pub proof fn lemma_callable_tools_listed(name: Seq<char>)
    requires
        spec_tool(name) is Some,
    ensures
        exists|i: int| 0 <= i < spec_tools().len() && #[trigger] spec_tools()[i].0 == name,
{
    let t = spec_tools();
    if name == "openrollback_watch"@ {
        assert(t[0].0 == name);
    } else if name == "openrollback_stop_watch"@ {
        assert(t[1].0 == name);
    } else if name == "openrollback_commit"@ {
        assert(t[2].0 == name);
    } else if name == "openrollback_rollback"@ {
        assert(t[3].0 == name);
    } else if name == "openrollback_snapshots"@ {
        assert(t[4].0 == name);
    } else {
        assert(t[5].0 == name);
    }
}

} // verus!
