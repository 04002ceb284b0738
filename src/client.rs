//! A client for one MCP server: how its process is started, the
//! `initialize` handshake, and the catalogs fetched from it.
use vstd::prelude::*;

use crate::command_line::{build_windows_command, joined_command};
use crate::json::{is_empty_object, keys_of, text_member, Json, ObjectBuilder};
use crate::peer::{capabilities_from, capabilities_spec, RequestCall, ServerCapabilities};
use crate::rpc::{
    examine_server_capabilities, is_error_response, jsonrpc_version, notification,
    protocol_version, ClientError, JsonRpcNotification, JsonRpcRequest, JsonRpcResponse,
    RequestTracker, INTERNAL_ERROR, METHOD_NOT_FOUND,
};
use crate::sampling::{
    internal_error_reply, prompt_text, sampling_unsupported_reply, PendingSamplingRequest,
    SamplingRequest,
};
use crate::text::{concat, copy_string, copy_strings, push_text, views};

verus! {

/// Relies on `shellexpand::tilde`: a path that does not start with `~`
/// comes back as it is; one that does comes back as it is or with the `~`
/// replaced by a home directory.
#[verifier::external_body]
fn expand_tilde(path: &str) -> (r: String)
    ensures
        tilde_result(path@, r@),
{
    shellexpand::tilde(path).into_owned()
}

/// What a tilde expansion of `path` may give: the path itself when it does
/// not start with `~`; otherwise the path itself or a home directory
/// followed by what came after the `~`.
pub open spec fn tilde_result(path: Seq<char>, out: Seq<char>) -> bool {
    &&& !(path.len() > 0 && path[0] == '~') ==> out == path
    &&& path.len() > 0 && path[0] == '~' ==> out == path || (out.len() >= path.len() - 1 && out.skip(
        out.len() - (path.len() - 1),
    ) == path.drop_first())
}

pub open spec fn env_views(env: Seq<(String, String)>) -> Seq<(Seq<char>, Seq<char>)> {
    env.map_values(|p: (String, String)| (p.0@, p.1@))
}

/// How a server is started and talked to.
#[derive(Debug)]
pub struct ClientConfig {
    pub server_name: String,
    pub bin_path: String,
    pub args: Vec<String>,
    pub timeout: u64,
    pub client_info: Json,
    pub env: Option<Vec<(String, String)>>,
    pub sampling_enabled: bool,
}

/// The program to start for a server, its arguments and its environment.
#[derive(Debug)]
pub struct SpawnPlan {
    pub program: String,
    pub args: Vec<String>,
    pub env: Vec<(String, String)>,
}

pub open spec fn cmd_args(bin: Seq<char>, args: Seq<Seq<char>>) -> Seq<Seq<char>> {
    seq!["/C"@, joined_command(bin, args)]
}

/// The process to start for `config`. On Windows the server runs under
/// `cmd.exe /C`, with its command line quoted; elsewhere it is started
/// directly. A leading `~` of the binary's path is expanded.
pub fn spawn_plan(config: &ClientConfig, windows: bool) -> (r: SpawnPlan)
    ensures
        !(config.bin_path@.len() > 0 && config.bin_path@[0] == '~') ==> {
            &&& windows ==> r.program@ == "cmd.exe"@ && views(r.args@) == cmd_args(
                config.bin_path@,
                views(config.args@),
            )
            &&& !windows ==> r.program@ == config.bin_path@ && views(r.args@) == views(
                config.args@,
            )
        },
        windows ==> r.program@ == "cmd.exe"@ && exists|e: Seq<char>|
            tilde_result(config.bin_path@, e) && views(r.args@) == cmd_args(e, views(config.args@)),
        !windows ==> tilde_result(config.bin_path@, r.program@) && views(r.args@) == views(
            config.args@,
        ),
        config.env is None ==> r.env@.len() == 0,
        config.env matches Some(e) ==> env_views(r.env@) == env_views(e@),
{
    let expanded = expand_tilde(config.bin_path.as_str());
    let args = copy_strings(&config.args);
    let mut env: Vec<(String, String)> = Vec::new();
    if let Some(vars) = &config.env {
        let mut i: usize = 0;
        while i < vars.len()
            invariant
                i <= vars@.len(),
                env@.len() == i,
                forall|j: int| 0 <= j < i ==> (#[trigger] env@[j]).0@ == vars@[j].0@ && env@[j].1@
                    == vars@[j].1@,
            decreases vars.len() - i,
        {
            env.push((copy_string(&vars[i].0), copy_string(&vars[i].1)));
            i = i + 1;
        }
        assert(env_views(env@) =~= env_views(vars@));
    }
    if windows {
        let line = build_windows_command(expanded.as_str(), args);
        let mut cmd_args: Vec<String> = Vec::new();
        proof {
            reveal_strlit("/C");
        }
        cmd_args.push("/C".to_owned());
        let ghost line_view = line@;
        cmd_args.push(line);
        assert(views(cmd_args@) =~= seq!["/C"@, line_view]);
        SpawnPlan { program: "cmd.exe".to_owned(), args: cmd_args, env }
    } else {
        SpawnPlan { program: expanded, args, env }
    }
}

/// What this client declares of itself in `initialize`.
#[derive(Debug)]
pub struct ClientCapabilities {
    pub protocol_version: String,
    pub capabilities: Vec<String>,
    pub client_info: Json,
}

impl ClientCapabilities {
    /// The declaration for `client_info`: it always offers sampling.
    pub fn from_client_info(client_info: Json) -> (r: Self)
        ensures
            r.protocol_version@ == protocol_version(),
            views(r.capabilities@) == seq!["sampling"@],
            r.client_info == client_info,
    {
        let mut capabilities: Vec<String> = Vec::new();
        let s = "sampling".to_owned();
        let ghost sv = s@;
        capabilities.push(s);
        assert(views(capabilities@) =~= seq![sv]);
        ClientCapabilities { protocol_version: jsonrpc_version(), capabilities, client_info }
    }

    /// The parameters of `initialize`: the protocol version, each
    /// capability mapped to an empty object, and the client's information.
    pub fn to_params(self) -> (r: Json)
        ensures
            r is Object,
            keys_of(r->Object_0@) == seq!["protocolVersion"@, "capabilities"@, "clientInfo"@],
            text_member(r, "protocolVersion"@) == Some(self.protocol_version@),
            r.get_spec("capabilities"@) matches Some(c) && c is Object && keys_of(c->Object_0@)
                == views(self.capabilities@) && c->Object_1@.len() == c->Object_0@.len(),
            forall|k: Seq<char>|
                #[trigger] r.get_spec("capabilities"@)->Some_0.get_spec(k) is Some ==> is_empty_object(
                    r.get_spec("capabilities"@)->Some_0.get_spec(k)->Some_0,
                ),
            r.get_spec("clientInfo"@) == Some(self.client_info),
    {
        proof {
            reveal_strlit("protocolVersion");
            reveal_strlit("capabilities");
            reveal_strlit("clientInfo");
            assert("protocolVersion"@.len() == 15 && "capabilities"@.len() == 12);
            assert("clientInfo"@.len() == 10);
        }
        let mut caps = ObjectBuilder::new();
        let mut i: usize = 0;
        while i < self.capabilities.len()
            invariant
                i <= self.capabilities@.len(),
                caps.keys@.len() == caps.values@.len(),
                keys_of(caps.keys@) == views(self.capabilities@.take(i as int)),
                forall|j: int| 0 <= j < caps.values@.len() ==> is_empty_object(#[trigger] caps.values@[j]),
            decreases self.capabilities.len() - i,
        {
            caps.push(self.capabilities[i].as_str(), Json::Object(Vec::new(), Vec::new()));
            proof {
                assert(self.capabilities@.take(i + 1).drop_last() =~= self.capabilities@.take(i as int));
                assert(keys_of(caps.keys@) =~= views(self.capabilities@.take(i + 1)));
            }
            i = i + 1;
        }
        assert(self.capabilities@.take(self.capabilities.len() as int) =~= self.capabilities@);
        let ghost ck = caps.keys@;
        let ghost cv = caps.values@;
        let caps_json = caps.build();
        proof {
            assert forall|k: Seq<char>| #[trigger] caps_json.get_spec(k) is Some implies is_empty_object(
                caps_json.get_spec(k)->Some_0,
            ) by {
                lemma_member_values(ck, cv, k);
            }
        }
        let mut members = ObjectBuilder::new();
        members.push("protocolVersion", Json::Str(self.protocol_version));
        members.push("capabilities", caps_json);
        members.push("clientInfo", self.client_info);
        assert(keys_of(members.keys@) =~= seq!["protocolVersion"@, "capabilities"@, "clientInfo"@]);
        members.build()
    }
}

spec fn member_value_ok(keys: Seq<String>, values: Seq<Json>, k: Seq<char>) -> bool {
    crate::json::member_of(keys, values, k) is Some ==> is_empty_object(
        crate::json::member_of(keys, values, k)->Some_0,
    )
}

proof fn lemma_member_values(keys: Seq<String>, values: Seq<Json>, k: Seq<char>)
    requires
        forall|j: int| 0 <= j < values.len() ==> is_empty_object(#[trigger] values[j]),
    ensures
        member_value_ok(keys, values, k),
    decreases keys.len(),
{
    if keys.len() > 0 && values.len() > 0 && keys[0]@ != k {
        lemma_member_values(keys.drop_first(), values.drop_first(), k);
    }
}

/// What follows a successful `initialize`: the capabilities, the
/// `initialized` notification to send, and which catalogs to fetch.
#[derive(Debug)]
pub struct InitPlan {
    pub capabilities: ServerCapabilities,
    pub initialized: JsonRpcNotification,
    pub fetch_prompts: bool,
    pub fetch_tools: bool,
}

/// The session with one server: its name, the id of its process (only the
/// client that started it holds one, and only that one ends it), and the
/// requests in flight.
#[derive(Debug)]
pub struct Client {
    pub server_name: String,
    pub timeout: u64,
    pub server_process_id: Option<u32>,
    pub client_info: Json,
    pub requests: RequestTracker,
    pub is_prompts_out_of_date: bool,
    pub sampling_enabled: bool,
}

impl Client {
    pub open spec fn wf(&self) -> bool {
        self.requests.wf()
    }

    /// The client of a server whose process was started with the id
    /// `process_id`.
    pub fn from_config(config: ClientConfig, process_id: Option<u32>) -> (r: Result<Self, ClientError>)
        ensures
            process_id is None <==> r is Err,
            r matches Err(e) ==> e is MissingProcessId,
            r matches Ok(c) ==> {
                &&& c.wf()
                &&& c.server_name == config.server_name
                &&& c.timeout == config.timeout
                &&& c.server_process_id == process_id
                &&& c.requests.next_id == 0
                &&& c.requests.outstanding@.len() == 0
                &&& c.sampling_enabled == config.sampling_enabled
            },
    {
        match process_id {
            None => Err(ClientError::MissingProcessId),
            Some(pid) => Ok(
                Client {
                    server_name: config.server_name,
                    timeout: config.timeout,
                    server_process_id: Some(pid),
                    client_info: config.client_info,
                    requests: RequestTracker::new(),
                    is_prompts_out_of_date: false,
                    sampling_enabled: config.sampling_enabled,
                },
            ),
        }
    }

    /// The process to end when this client goes away.
    pub fn process_to_terminate(&self) -> (r: Option<u32>)
        ensures
            r == self.server_process_id,
    {
        self.server_process_id
    }

    /// Starts a request to the server.
    pub fn request(&mut self, method: &str, params: Option<Json>) -> (r: Result<
        (RequestCall, JsonRpcRequest),
        ClientError,
    >)
        requires
            old(self).wf(),
        ensures
            final(self).wf(),
            r is Err <==> old(self).requests.next_id == u64::MAX,
            r matches Ok(p) ==> {
                &&& p.0.wf()
                &&& !p.0.done
                &&& p.1.id == old(self).requests.next_id
                &&& p.0.awaiting == p.1.id
                &&& p.1.method@ == method@
                &&& p.1.params == params
                &&& !old(self).requests.ids().contains(p.1.id)
                &&& p.0.first_id == p.1.id
                &&& p.0.method@ == method@
                &&& p.0.op == crate::peer::list_op_of(method@)
                &&& !p.0.paging
                &&& p.0.pages@.len() == 0
                &&& final(self).requests.next_id == old(self).requests.next_id + 1
                &&& final(self).requests.ids() == old(self).requests.ids().push(p.1.id)
            },
    {
        if self.requests.next_id == u64::MAX {
            return Err(ClientError::RuntimeError { context: method.to_owned() });
        }
        proof {
            if old(self).requests.ids().contains(old(self).requests.next_id) {
                let k = choose|k: int|
                    0 <= k < old(self).requests.ids().len() && old(self).requests.ids()[k]
                        == old(self).requests.next_id;
                assert(old(self).requests.outstanding@[k].id < old(self).requests.next_id);
            }
        }
        Ok(RequestCall::start(&mut self.requests, method, params))
    }

    /// The notification for `method`, named with the `notifications/`
    /// prefix.
    pub fn notify(&self, method: &str, params: Option<Json>) -> (r: JsonRpcNotification)
        ensures
            r.method@ == crate::rpc::notification_prefix() + method@,
            r.params == params,
    {
        notification(method, params)
    }

    /// The parameters of this client's `initialize` request.
    /// The client's information goes out with it, once.
    pub fn initialize_params(&mut self) -> (r: Json)
        ensures
            r.get_spec("clientInfo"@) == Some(old(self).client_info),
            final(self).client_info == Json::Null,
            final(self).requests == old(self).requests,
            final(self).server_name == old(self).server_name,
            final(self).sampling_enabled == old(self).sampling_enabled,
            text_member(r, "protocolVersion"@) == Some(protocol_version()),
            r.get_spec("capabilities"@) matches Some(c) && c is Object && keys_of(c->Object_0@)
                == seq!["sampling"@] && c.get_spec("sampling"@) is Some && is_empty_object(
                c.get_spec("sampling"@)->Some_0,
            ),
    {
        let mut info = Json::Null;
        core::mem::swap(&mut info, &mut self.client_info);
        let caps = ClientCapabilities::from_client_info(info);
        let r = caps.to_params();
        proof {
            reveal_strlit("sampling");
            let c = r.get_spec("capabilities"@)->Some_0;
            assert(keys_of(c->Object_0@) =~= seq!["sampling"@]);
            assert(c->Object_0@[0]@ == keys_of(c->Object_0@)[0]);
            assert(c.get_spec("sampling"@) == Some(c->Object_1@[0]));
        }
        r
    }

    /// Checks the server's answer to `initialize`: the protocol version must
    /// match exactly, and the answer must hold a result with capabilities.
    pub fn init(&self, resp: &JsonRpcResponse) -> (r: Result<InitPlan, ClientError>)
        ensures
            resp.jsonrpc@ != protocol_version() ==> r is Err,
            resp.result is None ==> r is Err,
            resp.result is Some && resp.result->Some_0.get_spec("capabilities"@) is None ==> r is Err,
            resp.jsonrpc@ == protocol_version() && resp.result is Some && resp.result->Some_0.get_spec(
                "capabilities"@,
            ) is Some ==> r is Ok && r->Ok_0.capabilities == capabilities_spec(
                resp.result->Some_0.get_spec("capabilities"@)->Some_0,
            ),
            r matches Err(e) ==> e is NegotiationError,
            r matches Ok(p) ==> {
                &&& resp.jsonrpc@ == protocol_version()
                &&& resp.result is Some
                &&& p.initialized.method@ == crate::rpc::notification_prefix() + "initialized"@
                &&& p.initialized.params is None
                &&& p.fetch_prompts == p.capabilities.prompts
                &&& p.fetch_tools == p.capabilities.tools
            },
    {
        if examine_server_capabilities(resp).is_err() {
            let mut msg = concat("Client ", self.server_name.as_str());
            push_text(&mut msg, " has failed to negotiate server capabilities with server");
            return Err(ClientError::NegotiationError(msg));
        }
        let result = match &resp.result {
            Some(r) => r,
            None => {
                let mut msg = concat("Server ", self.server_name.as_str());
                push_text(&mut msg, " init resp is missing result");
                return Err(ClientError::NegotiationError(msg));
            },
        };
        let caps = match result.get("capabilities") {
            Some(c) => capabilities_from(c),
            None => {
                let mut msg = concat("Server ", self.server_name.as_str());
                push_text(&mut msg, " init resp result is missing capabilities");
                return Err(ClientError::NegotiationError(msg));
            },
        };
        Ok(
            InitPlan {
                capabilities: caps,
                initialized: notification("initialized", None),
                fetch_prompts: caps.prompts,
                fetch_tools: caps.tools,
            },
        )
    }
}

/// What becomes of a sampling request of the server.
#[derive(Debug)]
pub enum SamplingIntake {
    /// Queue it for the user's verdict; answer the request `id` then.
    Queue { id: u64, pending: PendingSamplingRequest },
    /// Answer at once with this response.
    Reply(JsonRpcResponse),
}

impl Client {
    /// Takes a `sampling/createMessage` request `id` whose parameters were
    /// read as `parsed` (or failed to read, with the reason). Without an
    /// approval queue it is refused; parameters that do not read are an
    /// internal error; otherwise it waits for the user.
    pub fn handle_sampling_request(&self, id: u64, parsed: Result<SamplingRequest, String>) -> (r:
        SamplingIntake)
        ensures
            parsed is Err ==> r is Reply && is_error_response(
                r->Reply_0,
                id,
                INTERNAL_ERROR,
                "Internal error: "@ + "Invalid sampling request: "@ + parsed->Err_0@,
            ),
            parsed is Ok && !self.sampling_enabled ==> r is Reply && is_error_response(
                r->Reply_0,
                id,
                METHOD_NOT_FOUND,
                "Sampling requests not supported in this configuration"@,
            ),
            parsed is Ok && self.sampling_enabled ==> {
                let q = parsed->Ok_0;
                let p = r->Queue_pending;
                &&& r is Queue
                &&& r->Queue_id == id
                &&& p.server_name@ == self.server_name@
                &&& p.prompt_content@ == prompt_text(q.messages@)
                &&& p.system_prompt == q.system_prompt
                &&& p.model_preferences == q.model_preferences
                &&& p.max_tokens == q.max_tokens
                &&& p.include_context == q.include_context
                &&& p.temperature == q.temperature
                &&& p.stop_sequences == q.stop_sequences
                &&& p.metadata == q.metadata
                &&& !p.approved
            },
    {
        match parsed {
            Err(reason) => {
                let detail = concat("Invalid sampling request: ", reason.as_str());
                proof {
                    assert("Internal error: "@ + detail@ =~= "Internal error: "@
                        + "Invalid sampling request: "@ + reason@);
                }
                SamplingIntake::Reply(internal_error_reply(id, detail.as_str()))
            },
            Ok(request) => {
                if !self.sampling_enabled {
                    return SamplingIntake::Reply(sampling_unsupported_reply(id));
                }
                let pending = PendingSamplingRequest::from_request(
                    copy_string(&self.server_name),
                    request,
                );
                SamplingIntake::Queue { id, pending }
            },
        }
    }
}

/// The name of a listed item: its text member `name`.
pub open spec fn item_name(j: Json) -> Option<Seq<char>> {
    text_member(j, "name"@)
}

/// The listed items that have a name, in order, with their names.
pub open spec fn named_items(items: Seq<Json>) -> Seq<(Seq<char>, Json)>
    decreases items.len(),
{
    if items.len() == 0 {
        Seq::empty()
    } else {
        let rest = named_items(items.drop_last());
        match item_name(items.last()) {
            Some(n) => rest.push((n, items.last())),
            None => rest,
        }
    }
}

pub open spec fn entry_views(entries: Seq<CatalogEntry>) -> Seq<(Seq<char>, Json)> {
    entries.map_values(|e: CatalogEntry| (e.name@, e.descriptor))
}

/// The list member `key` of a result, when it is an array.
pub open spec fn list_member(result: Json, key: Seq<char>) -> Seq<Json> {
    match result.get_spec(key) {
        Some(Json::Array(v)) => v@,
        _ => Seq::empty(),
    }
}

/// The entries of a fetched list result: each item of its member `key`
/// that has a `name`, under that name, in order. A result without such a
/// list gives nothing, so that a catalog fed from it stays as it was.
pub fn entries_from_list(result: Json, key: &str) -> (r: Option<Vec<CatalogEntry>>)
    ensures
        r is Some <==> result.get_spec(key@) matches Some(Json::Array(_)),
        r matches Some(v) ==> entry_views(v@) == named_items(list_member(result, key@)),
{
    let ghost all = list_member(result, key@);
    let items = match result.take(key) {
        Some(list) => match list.into_items() {
            Some(items) => items,
            None => {
                return None;
            },
        },
        None => {
            return None;
        },
    };
    assert(items@ == all);
    let mut rest = items;
    let n = rest.len();
    let mut out: Vec<CatalogEntry> = Vec::new();
    let mut k: usize = 0;
    while rest.len() > 0
        invariant
            all.len() == n,
            k + rest@.len() == all.len(),
            rest@ == all.skip(k as int),
            entry_views(out@) == named_items(all.take(k as int)),
        decreases rest.len(),
    {
        let item = rest.remove(0);
        proof {
            assert(all.take(k + 1).drop_last() =~= all.take(k as int));
            assert(all.take(k + 1).last() == item);
        }
        let name = match item.get("name") {
            Some(n) => match n.as_text() {
                Some(t) => Some(copy_string(t)),
                None => None,
            },
            None => None,
        };
        let ghost before = out@;
        if let Some(name) = name {
            out.push(CatalogEntry { name, descriptor: item });
            assert(entry_views(out@) =~= entry_views(before).push((name@, item)));
        }
        assert(rest@ =~= all.skip(k + 1));
        k = k + 1;
    }
    assert(all.take(k as int) =~= all);
    Some(out)
}

/// One entry of a catalog: a name and its descriptor.
#[derive(Debug)]
pub struct CatalogEntry {
    pub name: String,
    pub descriptor: Json,
}

pub open spec fn catalog_lookup(entries: Seq<CatalogEntry>, name: Seq<char>) -> Option<
    Json,
>
    decreases entries.len(),
{
    if entries.len() == 0 {
        None
    } else if entries.last().name@ == name {
        Some(entries.last().descriptor)
    } else {
        catalog_lookup(entries.drop_last(), name)
    }
}

/// Descriptors by name, as last fetched from a server; each fetch bumps the
/// version.
#[derive(Debug)]
pub struct Catalog {
    pub entries: Vec<CatalogEntry>,
    pub version: u64,
}

impl Catalog {
    pub fn new() -> (r: Self)
        ensures
            r.entries@.len() == 0,
            r.version == 0,
    {
        Catalog { entries: Vec::new(), version: 0 }
    }

    /// Replaces the whole catalog by a fetched list; of two entries with one
    /// name the later one counts.
    pub fn replace_all(&mut self, fetched: Vec<CatalogEntry>)
        requires
            old(self).version < u64::MAX,
        ensures
            final(self).version == old(self).version + 1,
            forall|n: Seq<char>| catalog_lookup(final(self).entries@, n) == catalog_lookup(
                fetched@,
                n,
            ),
    {
        self.entries = fetched;
        self.version = self.version + 1;
    }

    pub fn get(&self, name: &str) -> (r: Option<&Json>)
        ensures
            r matches Some(d) ==> catalog_lookup(self.entries@, name@) == Some(*d),
            r is None ==> catalog_lookup(self.entries@, name@) is None,
    {
        let mut i: usize = self.entries.len();
        assert(self.entries@.take(i as int) =~= self.entries@);
        while i > 0
            invariant
                i <= self.entries@.len(),
                catalog_lookup(self.entries@, name@) == catalog_lookup(
                    self.entries@.take(i as int),
                    name@,
                ),
            decreases i,
        {
            assert(self.entries@.take(i as int).drop_last() =~= self.entries@.take(i - 1));
            if self.entries[i - 1].name.as_str().to_owned() == name.to_owned() {
                return Some(&self.entries[i - 1].descriptor);
            }
            i = i - 1;
        }
        None
    }
}

} // verus!
