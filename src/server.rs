//! The tool registry and the dispatcher of one protocol session.
//!
//! The dispatcher decides; the caller acts. A request either gets its reply
//! at once, or names a registered tool to call: the caller runs the tool and
//! hands its outcome to `tool_reply`, which wraps it in a successful envelope.
use vstd::prelude::*;

use crate::json::{find_member, lemma_lookup_absent, lemma_lookup_at, member, text_member, JsonValue};
use crate::jsonrpc::{
    JsonRpcErrorResponse, JsonRpcMessage, JsonRpcNotification, JsonRpcRequest, JsonRpcResponse,
    JsonRpcResultResponse, RequestId, INVALID_PARAMS, INVALID_REQUEST, JSONRPC_VERSION, METHOD_NOT_FOUND,
};
use crate::tool::{describes_tool, renders_block, CallToolResult, Implementation, ToolDefinition};

verus! {

/// The protocol version this server speaks.
pub const PROTOCOL_VERSION: &'static str = "2025-11-25";

/// Whether some registered tool is named `name`.
pub open spec fn has_tool(tools: Seq<ToolDefinition>, name: Seq<char>) -> bool {
    exists|i: int| 0 <= i < tools.len() && (#[trigger] tools[i]).name@ == name
}

/// No two registered tools share a name.
pub open spec fn unique_names(tools: Seq<ToolDefinition>) -> bool {
    forall|i: int, j: int|
        0 <= i < tools.len() && 0 <= j < tools.len() && i != j ==> (#[trigger] tools[i]).name@ != (#[trigger] tools[j]).name@
}

/// The registry after registering `def`: `def` is there, every other name is
/// as before, and names stay unique.
pub open spec fn registered(before: Seq<ToolDefinition>, after: Seq<ToolDefinition>, def: ToolDefinition) -> bool {
    &&& unique_names(after)
    &&& exists|i: int| 0 <= i < after.len() && after[i] == def
    &&& forall|n: Seq<char>| n != def.name@ ==> has_tool(after, n) == has_tool(before, n)
    &&& forall|i: int| 0 <= i < after.len() && (#[trigger] after[i]).name@ != def.name@ ==>
            exists|j: int| 0 <= j < before.len() && before[j] == after[i]
}

fn find_tool(tools: &Vec<ToolDefinition>, name: &String) -> (r: Option<usize>)
    ensures
        match r {
            Some(i) => i < tools@.len() && tools@[i as int].name@ == name@,
            None => !has_tool(tools@, name@),
        },
{
    let mut i: usize = 0;
    while i < tools.len()
        invariant
            i <= tools@.len(),
            forall|j: int| 0 <= j < i ==> (#[trigger] tools@[j]).name@ != name@,
        decreases tools@.len() - i,
    {
        if tools[i].name == *name {
            return Some(i);
        }
        i = i + 1;
    }
    None
}

/// Registers `def` under its name, replacing any tool of the same name.
pub fn register_tool(tools: &mut Vec<ToolDefinition>, def: ToolDefinition)
    requires
        unique_names(old(tools)@),
    ensures
        registered(old(tools)@, final(tools)@, def),
{
    let ghost before = tools@;
    let found = find_tool(tools, &def.name);
    let ghost kept: Seq<ToolDefinition>;
    match found {
        Some(i) => {
            tools.remove(i);
            proof {
                kept = tools@;
                assert forall|n: Seq<char>| n != def.name@ implies has_tool(kept, n) == has_tool(before, n) by {
                    if has_tool(before, n) {
                        let k = choose|k: int| 0 <= k < before.len() && (#[trigger] before[k]).name@ == n;
                        if k < i {
                            assert(kept[k] == before[k]);
                        } else {
                            assert(kept[k - 1] == before[k]);
                        }
                    }
                    if has_tool(kept, n) {
                        let k = choose|k: int| 0 <= k < kept.len() && (#[trigger] kept[k]).name@ == n;
                        if k < i {
                            assert(before[k] == kept[k]);
                        } else {
                            assert(before[k + 1] == kept[k]);
                        }
                    }
                }
                assert forall|k: int| 0 <= k < kept.len() implies exists|j: int| 0 <= j < before.len() && before[j] == #[trigger] kept[k] by {
                    if k < i {
                        assert(before[k] == kept[k]);
                    } else {
                        assert(before[k + 1] == kept[k]);
                    }
                }
                assert(!has_tool(kept, def.name@)) by {
                    if has_tool(kept, def.name@) {
                        let k = choose|k: int| 0 <= k < kept.len() && (#[trigger] kept[k]).name@ == def.name@;
                        if k < i {
                            assert(before[k] == kept[k]);
                        } else {
                            assert(before[k + 1] == kept[k]);
                        }
                    }
                }
                assert forall|a: int, b: int| 0 <= a < kept.len() && 0 <= b < kept.len() && a != b
                    implies (#[trigger] kept[a]).name@ != (#[trigger] kept[b]).name@ by {
                    let a2 = if a < i { a } else { a + 1 };
                    let b2 = if b < i { b } else { b + 1 };
                    assert(kept[a] == before[a2]);
                    assert(kept[b] == before[b2]);
                }
            }
        },
        None => {
            proof {
                kept = before;
            }
        },
    }
    let ghost mid = tools@;
    tools.push(def);
    proof {
        assert(mid == kept);
        let after = tools@;
        assert(after[after.len() - 1] == def);
        assert forall|n: Seq<char>| n != def.name@ implies has_tool(after, n) == has_tool(before, n) by {
            if has_tool(kept, n) {
                let k = choose|k: int| 0 <= k < kept.len() && (#[trigger] kept[k]).name@ == n;
                assert(after[k] == kept[k]);
            }
            if has_tool(after, n) {
                let k = choose|k: int| 0 <= k < after.len() && (#[trigger] after[k]).name@ == n;
                assert(k < kept.len());
                assert(after[k] == kept[k]);
            }
        }
        assert forall|k: int| 0 <= k < after.len() && (#[trigger] after[k]).name@ != def.name@ implies
            exists|j: int| 0 <= j < before.len() && before[j] == after[k] by {
            assert(after[k] == kept[k]);
            if found is None {
                assert(before[k] == after[k]);
            }
        }
        assert forall|a: int, b: int| 0 <= a < after.len() && 0 <= b < after.len() && a != b
            implies (#[trigger] after[a]).name@ != (#[trigger] after[b]).name@ by {
            if a < kept.len() && b < kept.len() {
                assert(after[a] == kept[a] && after[b] == kept[b]);
            } else if a < kept.len() {
                assert(after[a] == kept[a]);
            } else {
                assert(after[b] == kept[b]);
            }
        }
    }
}

/// Builder for an [`McpServer`].
pub struct McpServerBuilder {
    name: String,
    version: String,
    description: Option<String>,
    instructions: Option<String>,
    tools: Vec<ToolDefinition>,
}

/// A protocol session: the server's identity, its tools and whether the
/// client has initialised it.
pub struct McpServer {
    server_info: Implementation,
    instructions: Option<String>,
    tools: Vec<ToolDefinition>,
    initialized: bool,
    client_info: Option<Implementation>,
}

/// What to do with a request.
#[derive(Debug)]
pub enum Dispatch {
    /// Send this response.
    Reply(JsonRpcResponse),
    /// Run the registered tool `name` with `arguments`, then hand its outcome
    /// to `tool_reply` with this id.
    CallTool { id: RequestId, name: String, arguments: Vec<(String, JsonValue)> },
}

/// Whether initialize params are usable: an object with a string
/// `protocolVersion`, an object `capabilities`, and a `clientInfo` object with
/// string `name` and `version`.
pub open spec fn initialize_params_ok(params: Option<JsonValue>) -> bool {
    params matches Some(p) && {
        &&& member(p, "protocolVersion"@) matches Some(JsonValue::Str(_))
        &&& member(p, "capabilities"@) matches Some(JsonValue::Object(_))
        &&& member(p, "clientInfo"@) matches Some(ci) && {
            &&& member(ci, "name"@) matches Some(JsonValue::Str(_))
            &&& member(ci, "version"@) matches Some(JsonValue::Str(_))
        }
    }
}

/// The tool a `tools/call` names, where its params are usable: an object
/// with a string `name` and `arguments` absent, null or an object.
pub open spec fn call_target(params: Option<JsonValue>) -> Option<Seq<char>> {
    match params {
        Some(p) => match member(p, "name"@) {
            Some(JsonValue::Str(n)) => match member(p, "arguments"@) {
                None => Some(n@),
                Some(JsonValue::Null) => Some(n@),
                Some(JsonValue::Object(_)) => Some(n@),
                _ => None,
            },
            _ => None,
        },
        None => None,
    }
}

/// An error reply to `id` with this code.
pub open spec fn error_reply(d: Dispatch, id: RequestId, code: i32) -> bool {
    d matches Dispatch::Reply(JsonRpcResponse::Error(e)) && e.id == Some(id) && e.error.code == code
}

/// A result reply to `id`.
pub open spec fn result_reply(d: Dispatch, id: RequestId) -> bool {
    d matches Dispatch::Reply(JsonRpcResponse::Result(r)) && r.id == id
}

/// An initialize result announcing `PROTOCOL_VERSION`, a tools capability,
/// the server's name, and its instructions exactly where it has them.
pub open spec fn announces(result: JsonValue, server_name: Seq<char>, instructions: Option<Seq<char>>) -> bool {
    &&& member(result, "protocolVersion"@) matches Some(JsonValue::Str(v)) && v@ == PROTOCOL_VERSION@
    &&& member(result, "capabilities"@) matches Some(caps)
        && (member(caps, "tools"@) matches Some(JsonValue::Object(_)))
    &&& member(result, "serverInfo"@) matches Some(info)
        && (member(info, "name"@) matches Some(JsonValue::Str(n)) && n@ == server_name)
    &&& match instructions {
        Some(t) => member(result, "instructions"@) matches Some(JsonValue::Str(i)) && i@ == t,
        None => member(result, "instructions"@) is None,
    }
}

/// The arguments a `tools/call` passes on: the members of its `arguments`
/// object, none where it is absent or null.
pub open spec fn call_arguments(params: Option<JsonValue>) -> Seq<(String, JsonValue)> {
    match params {
        Some(p) => match member(p, "arguments"@) {
            Some(JsonValue::Object(m)) => m@,
            _ => Seq::empty(),
        },
        None => Seq::empty(),
    }
}

/// What `handle_request` does with `req`: the server's identity, tools and
/// instructions stay; a wrong protocol version is an invalid request; each
/// known method is answered or dispatched as it prescribes; any other method
/// is not found; only `initialize` changes whether the session is initialised.
pub open spec fn answers(pre: McpServer, post: McpServer, req: JsonRpcRequest, r: Dispatch) -> bool {
    &&& post.spec_name() == pre.spec_name()
    &&& post.spec_tools() == pre.spec_tools()
    &&& post.spec_instructions() == pre.spec_instructions()
    &&& req.jsonrpc@ != JSONRPC_VERSION@ ==> error_reply(r, req.id, INVALID_REQUEST)
        && post.is_initialized() == pre.is_initialized()
    &&& req.jsonrpc@ == JSONRPC_VERSION@ ==> {
        if req.method@ == "initialize"@ {
            &&& initialize_params_ok(req.params) ==> result_reply(r, req.id) && post.is_initialized()
                && announces(r->Reply_0->Result_0.result, pre.spec_name(), pre.spec_instructions())
            &&& !initialize_params_ok(req.params) ==> error_reply(r, req.id, INVALID_PARAMS)
        } else if req.method@ == "ping"@ {
            result_reply(r, req.id) && (r->Reply_0->Result_0.result matches JsonValue::Object(f) && f@.len() == 0)
        } else if req.method@ == "tools/list"@ {
            result_reply(r, req.id) && (member(r->Reply_0->Result_0.result, "tools"@)
                matches Some(JsonValue::Array(list)) && list@.len() == pre.spec_tools().len()
                && forall|i: int| 0 <= i < list@.len() ==> describes_tool(#[trigger] list@[i],
                    pre.spec_tools()[i]))
                && member(r->Reply_0->Result_0.result, "nextCursor"@) is None
        } else if req.method@ == "tools/call"@ {
            match call_target(req.params) {
                None => error_reply(r, req.id, INVALID_PARAMS),
                Some(n) => if has_tool(pre.spec_tools(), n) {
                    r matches Dispatch::CallTool { id: i, name: m, arguments: a } && i == req.id && m@ == n
                        && a@ == call_arguments(req.params)
                } else {
                    error_reply(r, req.id, INVALID_PARAMS)
                        && r->Reply_0->Error_0.error.message@ == "Tool not found: "@ + n
                },
            }
        } else {
            error_reply(r, req.id, METHOD_NOT_FOUND)
                && r->Reply_0->Error_0.error.message@ == "Method not found: "@ + req.method@
        }
    }
    &&& req.method@ != "initialize"@ ==> post.is_initialized() == pre.is_initialized()
}

/// What `handle_notification` does with `n`: only `notifications/initialized`
/// changes the session, marking it initialised.
pub open spec fn notified(pre: McpServer, post: McpServer, n: JsonRpcNotification) -> bool {
    &&& post.spec_name() == pre.spec_name()
    &&& post.spec_tools() == pre.spec_tools()
    &&& post.spec_instructions() == pre.spec_instructions()
    &&& post.is_initialized() == (pre.is_initialized() || n.method@ == "notifications/initialized"@)
}

fn entry(key: &str, v: JsonValue) -> (r: (String, JsonValue))
    ensures
        r.0@ == key@,
        r.1 == v,
{
    (key.to_owned(), v)
}

fn opt_copy(o: &Option<String>) -> (r: Option<String>)
    ensures
        r == *o,
{
    match o {
        Some(s) => Some(s.clone()),
        None => None,
    }
}

impl McpServerBuilder {
    /// A server named `name` at `version`, with no tools.
    pub fn new(name: &str, version: &str) -> (r: Self)
        ensures
            r.wf(),
            r.spec_name() == name@,
            r.spec_tools().len() == 0,
            r.spec_instructions() is None,
    {
        McpServerBuilder {
            name: name.to_owned(),
            version: version.to_owned(),
            description: None,
            instructions: None,
            tools: Vec::new(),
        }
    }

    pub closed spec fn spec_name(&self) -> Seq<char> {
        self.name@
    }

    pub closed spec fn spec_tools(&self) -> Seq<ToolDefinition> {
        self.tools@
    }

    pub closed spec fn spec_description(&self) -> Option<Seq<char>> {
        match self.description {
            Some(d) => Some(d@),
            None => None,
        }
    }

    pub closed spec fn spec_instructions(&self) -> Option<Seq<char>> {
        match self.instructions {
            Some(d) => Some(d@),
            None => None,
        }
    }

    pub closed spec fn wf(&self) -> bool {
        unique_names(self.tools@)
    }

    /// Sets the server's description.
    pub fn description(self, description: &str) -> (r: Self)
        ensures
            r.spec_name() == self.spec_name(),
            r.spec_tools() == self.spec_tools(),
            r.spec_description() == Some(description@),
            r.spec_instructions() == self.spec_instructions(),
            r.wf() == self.wf(),
    {
        McpServerBuilder { description: Some(description.to_owned()), ..self }
    }

    /// Sets the instructions sent to the client at initialisation.
    pub fn instructions(self, instructions: &str) -> (r: Self)
        ensures
            r.spec_name() == self.spec_name(),
            r.spec_tools() == self.spec_tools(),
            r.spec_instructions() == Some(instructions@),
            r.wf() == self.wf(),
    {
        McpServerBuilder { instructions: Some(instructions.to_owned()), ..self }
    }

    /// Registers a tool under its name; a later tool of the same name replaces
    /// an earlier one.
    pub fn tool(self, def: ToolDefinition) -> (r: Self)
        requires
            self.wf(),
        ensures
            r.wf(),
            r.spec_name() == self.spec_name(),
            r.spec_instructions() == self.spec_instructions(),
            registered(self.spec_tools(), r.spec_tools(), def),
    {
        let mut b = self;
        register_tool(&mut b.tools, def);
        b
    }

    /// The server, uninitialised.
    pub fn build(self) -> (r: McpServer)
        requires
            self.wf(),
        ensures
            r.wf(),
            r.spec_name() == self.spec_name(),
            r.spec_tools() == self.spec_tools(),
            r.spec_instructions() == self.spec_instructions(),
            !r.is_initialized(),
    {
        McpServer {
            server_info: Implementation {
                name: self.name,
                version: self.version,
                title: None,
                description: self.description,
            },
            instructions: self.instructions,
            tools: self.tools,
            initialized: false,
            client_info: None,
        }
    }
}

impl McpServer {
    pub closed spec fn spec_name(&self) -> Seq<char> {
        self.server_info.name@
    }

    pub closed spec fn spec_tools(&self) -> Seq<ToolDefinition> {
        self.tools@
    }

    pub closed spec fn spec_instructions(&self) -> Option<Seq<char>> {
        match self.instructions {
            Some(d) => Some(d@),
            None => None,
        }
    }

    pub closed spec fn is_initialized(&self) -> bool {
        self.initialized
    }

    pub closed spec fn wf(&self) -> bool {
        unique_names(self.tools@)
    }

    /// A builder for a server named `name` at `version`.
    pub fn builder(name: &str, version: &str) -> (r: McpServerBuilder)
        ensures
            r.wf(),
            r.spec_name() == name@,
            r.spec_tools().len() == 0,
            r.spec_instructions() is None,
    {
        McpServerBuilder::new(name, version)
    }

    /// Whether an `initialize` request has been handled.
    pub fn initialized(&self) -> (r: bool)
        ensures
            r == self.is_initialized(),
    {
        self.initialized
    }

    /// The JSON form of every registered definition, as `tools/list` returns them.
    pub fn list_tools(&self) -> (r: Vec<JsonValue>)
        ensures
            r@.len() == self.spec_tools().len(),
            forall|i: int| 0 <= i < r@.len() ==> describes_tool(#[trigger] r@[i], self.spec_tools()[i]),
    {
        let mut out: Vec<JsonValue> = Vec::new();
        let mut i: usize = 0;
        while i < self.tools.len()
            invariant
                i <= self.tools@.len(),
                out@.len() == i,
                forall|k: int| 0 <= k < i ==> describes_tool(#[trigger] out@[k], self.tools@[k]),
            decreases self.tools@.len() - i,
        {
            out.push(self.tools[i].to_json());
            i = i + 1;
        }
        out
    }

    /// The result of `initialize`: the protocol version, the capabilities,
    /// the server's identity, and the instructions where set.
    pub fn initialize_result(&self) -> (r: JsonValue)
        ensures
            announces(r, self.spec_name(), self.spec_instructions()),
    {
        let mut tools_cap: Vec<(String, JsonValue)> = Vec::new();
        tools_cap.push(entry("listChanged", JsonValue::Bool(false)));
        let mut caps: Vec<(String, JsonValue)> = Vec::new();
        caps.push(entry("tools", JsonValue::Object(tools_cap)));
        let mut fields: Vec<(String, JsonValue)> = Vec::new();
        fields.push(entry("protocolVersion", JsonValue::Str(PROTOCOL_VERSION.to_owned())));
        fields.push(entry("capabilities", JsonValue::Object(caps)));
        fields.push(entry("serverInfo", self.server_info.to_json()));
        let ghost head = fields@;
        if let Some(text) = &self.instructions {
            fields.push(entry("instructions", JsonValue::Str(text.clone())));
        }
        proof {
            reveal_strlit("protocolVersion");
            reveal_strlit("capabilities");
            reveal_strlit("serverInfo");
            reveal_strlit("instructions");
            reveal_strlit("tools");
            assert(fields@[0] == head[0] && fields@[1] == head[1] && fields@[2] == head[2]);
            assert("protocolVersion"@.len() != "serverInfo"@.len());
            assert("capabilities"@.len() != "serverInfo"@.len());
            assert("protocolVersion"@.len() != "capabilities"@.len());
            assert("protocolVersion"@.len() != "instructions"@.len());
            assert("capabilities"@[0] != "instructions"@[0]);
            assert("serverInfo"@.len() != "instructions"@.len());
            lemma_lookup_at(fields@, "protocolVersion"@, 0);
            lemma_lookup_at(fields@, "capabilities"@, 1);
            lemma_lookup_at(fields@, "serverInfo"@, 2);
            lemma_lookup_at(caps@, "tools"@, 0);
            if self.instructions is Some {
                lemma_lookup_at(fields@, "instructions"@, 3);
            } else {
                lemma_lookup_absent(fields@, "instructions"@);
            }
        }
        JsonValue::Object(fields)
    }

    fn handle_initialize(&mut self, id: RequestId, params: Option<JsonValue>) -> (r: Dispatch)
        ensures
            final(self).spec_name() == old(self).spec_name(),
            final(self).spec_tools() == old(self).spec_tools(),
            final(self).spec_instructions() == old(self).spec_instructions(),
            initialize_params_ok(params) ==> result_reply(r, id) && final(self).is_initialized()
                && r->Reply_0->Result_0.result is Object
                && announces(r->Reply_0->Result_0.result, old(self).spec_name(), old(self).spec_instructions()),
            !initialize_params_ok(params) ==> error_reply(r, id, INVALID_PARAMS)
                && final(self).is_initialized() == old(self).is_initialized(),
    {
        let p = match &params {
            Some(p) => p,
            None => {
                return Dispatch::Reply(JsonRpcResponse::Error(
                    JsonRpcErrorResponse::invalid_params(id, "Missing params".to_owned()),
                ));
            },
        };
        let fields = match p {
            JsonValue::Object(f) => f,
            _ => {
                return Dispatch::Reply(JsonRpcResponse::Error(
                    JsonRpcErrorResponse::invalid_params(id, "Invalid params: expected an object".to_owned()),
                ));
            },
        };
        let version_ok = match text_member(fields, "protocolVersion") {
            Some(_) => true,
            None => false,
        };
        let caps_ok = match find_member(fields, "capabilities") {
            Some(i) => match &fields[i].1 {
                JsonValue::Object(_) => true,
                _ => false,
            },
            None => false,
        };
        let client = match find_member(fields, "clientInfo") {
            Some(i) => match &fields[i].1 {
                JsonValue::Object(ci) => match (text_member(ci, "name"), text_member(ci, "version")) {
                    (Some(n), Some(v)) => Some(Implementation {
                        name: n,
                        version: v,
                        title: text_member(ci, "title"),
                        description: text_member(ci, "description"),
                    }),
                    _ => None,
                },
                _ => None,
            },
            None => None,
        };
        if !version_ok || !caps_ok || client.is_none() {
            return Dispatch::Reply(JsonRpcResponse::Error(
                JsonRpcErrorResponse::invalid_params(id, "Invalid params: expected protocolVersion, capabilities and clientInfo".to_owned()),
            ));
        }
        self.client_info = client;
        self.initialized = true;
        let result = self.initialize_result();
        Dispatch::Reply(JsonRpcResponse::Result(JsonRpcResultResponse::new(id, result)))
    }

    fn handle_tools_call(&self, id: RequestId, params: Option<JsonValue>) -> (r: Dispatch)
        ensures
            match call_target(params) {
                None => error_reply(r, id, INVALID_PARAMS),
                Some(n) => if has_tool(self.spec_tools(), n) {
                    r matches Dispatch::CallTool { id: i, name: m, arguments: a } && i == id && m@ == n
                        && a@ == call_arguments(params)
                } else {
                    error_reply(r, id, INVALID_PARAMS) && r->Reply_0->Error_0.error.message@ == "Tool not found: "@ + n
                },
            },
    {
        let mut fields = match params {
            Some(JsonValue::Object(f)) => f,
            Some(_) => {
                return Dispatch::Reply(JsonRpcResponse::Error(
                    JsonRpcErrorResponse::invalid_params(id, "Invalid params: expected an object".to_owned()),
                ));
            },
            None => {
                return Dispatch::Reply(JsonRpcResponse::Error(
                    JsonRpcErrorResponse::invalid_params(id, "Missing params".to_owned()),
                ));
            },
        };
        let name = match text_member(&fields, "name") {
            Some(n) => n,
            None => {
                return Dispatch::Reply(JsonRpcResponse::Error(
                    JsonRpcErrorResponse::invalid_params(id, "Invalid params: missing tool name".to_owned()),
                ));
            },
        };
        let arguments: Vec<(String, JsonValue)> = match find_member(&fields, "arguments") {
            Some(i) => {
                let (_, a) = fields.swap_remove(i);
                match a {
                    JsonValue::Null => Vec::new(),
                    JsonValue::Object(members) => members,
                    _ => {
                        return Dispatch::Reply(JsonRpcResponse::Error(
                            JsonRpcErrorResponse::invalid_params(id, "Invalid params: arguments must be an object".to_owned()),
                        ));
                    },
                }
            },
            None => Vec::new(),
        };
        match find_tool(&self.tools, &name) {
            Some(_) => Dispatch::CallTool { id, name, arguments },
            None => {
                let mut message = "Tool not found: ".to_owned();
                message.append(name.as_str());
                Dispatch::Reply(JsonRpcResponse::Error(JsonRpcErrorResponse::invalid_params(id, message)))
            },
        }
    }

    /// Routes a request: a wrong protocol version is an invalid request;
    /// `initialize`, `ping`, `tools/list` and `tools/call` are answered or
    /// dispatched to a tool; any other method is not found.
    pub fn handle_request(&mut self, req: JsonRpcRequest) -> (r: Dispatch)
        ensures
            answers(*old(self), *final(self), req, r),
    {
        if req.jsonrpc != JSONRPC_VERSION.to_owned() {
            return Dispatch::Reply(JsonRpcResponse::Error(
                JsonRpcErrorResponse::invalid_request(Some(req.id), "Invalid JSON-RPC version".to_owned()),
            ));
        }
        if req.method == "initialize".to_owned() {
            self.handle_initialize(req.id, req.params)
        } else if req.method == "ping".to_owned() {
            Dispatch::Reply(JsonRpcResponse::Result(JsonRpcResultResponse::new(req.id, JsonValue::Object(Vec::new()))))
        } else if req.method == "tools/list".to_owned() {
            let mut fields: Vec<(String, JsonValue)> = Vec::new();
            fields.push(entry("tools", JsonValue::Array(self.list_tools())));
            proof {
                reveal_strlit("tools");
                reveal_strlit("nextCursor");
                assert("tools"@.len() != "nextCursor"@.len());
                lemma_lookup_at(fields@, "tools"@, 0);
                lemma_lookup_absent(fields@, "nextCursor"@);
            }
            Dispatch::Reply(JsonRpcResponse::Result(JsonRpcResultResponse::new(req.id, JsonValue::Object(fields))))
        } else if req.method == "tools/call".to_owned() {
            self.handle_tools_call(req.id, req.params)
        } else {
            Dispatch::Reply(JsonRpcResponse::Error(JsonRpcErrorResponse::method_not_found(req.id, req.method.as_str())))
        }
    }

    /// Handles a notification: `notifications/initialized` marks the session
    /// initialised; every other notification is ignored. None is answered.
    pub fn handle_notification(&mut self, notification: &JsonRpcNotification)
        ensures
            final(self).spec_name() == old(self).spec_name(),
            final(self).spec_tools() == old(self).spec_tools(),
            notified(*old(self), *final(self), *notification),
    {
        if notification.method == "notifications/initialized".to_owned() {
            self.initialized = true;
        }
    }

    /// Handles a message: a request yields exactly one dispatch, a
    /// notification none.
    pub fn handle_message(&mut self, msg: JsonRpcMessage) -> (r: Option<Dispatch>)
        ensures
            final(self).spec_name() == old(self).spec_name(),
            final(self).spec_tools() == old(self).spec_tools(),
            match msg {
                JsonRpcMessage::Request(req) => r matches Some(d) && answers(*old(self), *final(self), req, d),
                JsonRpcMessage::Notification(n) => r is None && notified(*old(self), *final(self), n),
            },
    {
        match msg {
            JsonRpcMessage::Request(req) => Some(self.handle_request(req)),
            JsonRpcMessage::Notification(n) => {
                self.handle_notification(&n);
                None
            },
        }
    }

    /// Wraps a tool's outcome in a successful envelope: a tool's own failure
    /// becomes a result with the error flag set and the message as its text,
    /// never a protocol error.
    pub fn tool_reply(id: RequestId, outcome: Result<CallToolResult, String>) -> (r: JsonRpcResponse)
        ensures
            r matches JsonRpcResponse::Result(res) && res.id == id,
            outcome is Err ==> member(r->Result_0.result, "isError"@) == Some(JsonValue::Bool(true)),
            outcome matches Err(message) ==> (member(r->Result_0.result, "content"@) matches Some(JsonValue::Array(blocks))
                && blocks@.len() == 1
                && (member(blocks@[0], "type"@) matches Some(JsonValue::Str(t)) && t@ == "text"@)
                && (member(blocks@[0], "text"@) matches Some(JsonValue::Str(t)) && t@ == message@))
                && member(r->Result_0.result, "structuredContent"@) is None,
            outcome matches Ok(c) ==> (member(r->Result_0.result, "content"@) matches Some(JsonValue::Array(blocks))
                && blocks@.len() == c.content@.len()
                && forall|i: int| 0 <= i < blocks@.len() ==> renders_block(#[trigger] blocks@[i], c.content@[i]))
                && member(r->Result_0.result, "structuredContent"@) == c.structured_content,
            outcome matches Ok(c) ==> member(r->Result_0.result, "isError"@) == match c.is_error {
                Some(b) => Some(JsonValue::Bool(b)),
                None => None,
            },
    {
        let result = match outcome {
            Ok(c) => c,
            Err(message) => CallToolResult::error(message.as_str()),
        };
        JsonRpcResponse::Result(JsonRpcResultResponse::new(id, result.to_json()))
    }
}

} // verus!
