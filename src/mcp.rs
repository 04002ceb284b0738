//! The `/mcp` command: the status report of the servers and the messages of
//! a reload; and the arguments of the chat command.
use vstd::prelude::*;

use crate::chat::ChatState;
use crate::permissions::ToolPermissions;
use crate::text::{concat, copy_strings, push_repeated, push_text, repeat_char, views};

verus! {

/// One line of a server's loading history.
#[derive(Debug)]
pub enum LoadingRecord {
    Success(String),
    Warn(String),
    Error(String),
}

pub open spec fn record_text(r: LoadingRecord) -> Seq<char> {
    match r {
        LoadingRecord::Success(t) => t@,
        LoadingRecord::Warn(t) => t@,
        LoadingRecord::Error(t) => t@,
    }
}

pub open spec fn refresh_separator() -> Seq<char> {
    "\n--- tools refreshed ---\n"@
}

/// The records of one server, separated where the tools were refreshed.
pub open spec fn records_text(rs: Seq<LoadingRecord>) -> Seq<char>
    decreases rs.len(),
{
    if rs.len() == 0 {
        Seq::empty()
    } else if rs.len() == 1 {
        record_text(rs[0])
    } else {
        records_text(rs.drop_last()) + refresh_separator() + record_text(rs.last())
    }
}

pub open spec fn rule(width: nat) -> Seq<char> {
    repeat_char('▔', width) + seq!['\n']
}

pub open spec fn server_block(name: Seq<char>, rs: Seq<LoadingRecord>, width: nat) -> Seq<char> {
    name + seq!['\n'] + rule(width) + records_text(rs) + seq!['\n']
}

pub open spec fn servers_text(servers: Seq<(String, Vec<LoadingRecord>)>, width: nat) -> Seq<char>
    decreases servers.len(),
{
    if servers.len() == 0 {
        Seq::empty()
    } else {
        servers_text(servers.drop_last(), width) + server_block(
            servers.last().0@,
            servers.last().1@,
            width,
        )
    }
}

pub open spec fn loading_lines(names: Seq<String>) -> Seq<char>
    decreases names.len(),
{
    if names.len() == 0 {
        Seq::empty()
    } else {
        loading_lines(names.drop_last()) + " - "@ + names.last()@ + seq!['\n']
    }
}

/// The status report: each server's loading history, then the servers
/// still loading, if any.
pub open spec fn status_text(
    servers: Seq<(String, Vec<LoadingRecord>)>,
    still_loading: Seq<String>,
    width: nat,
) -> Seq<char> {
    servers_text(servers, width) + if still_loading.len() == 0 {
        Seq::empty()
    } else {
        "Still loading:\n"@ + rule(width) + loading_lines(still_loading) + seq!['\n']
    }
}

fn push_records(out: &mut String, rs: &Vec<LoadingRecord>)
    ensures
        final(out)@ == old(out)@ + records_text(rs@),
{
    let mut i: usize = 0;
    while i < rs.len()
        invariant
            i <= rs@.len(),
            out@ == old(out)@ + records_text(rs@.take(i as int)),
        decreases rs.len() - i,
    {
        if i > 0 {
            push_text(out, "\n--- tools refreshed ---\n");
        }
        let text = match &rs[i] {
            LoadingRecord::Success(t) => t,
            LoadingRecord::Warn(t) => t,
            LoadingRecord::Error(t) => t,
        };
        push_text(out, text.as_str());
        proof {
            let t = rs@.take(i + 1);
            assert(t.drop_last() =~= rs@.take(i as int));
            assert(t.last() == rs@[i as int]);
            assert(out@ =~= old(out)@ + records_text(t));
        }
        i = i + 1;
    }
    assert(rs@.take(rs.len() as int) =~= rs@);
}

fn push_rule(out: &mut String, width: usize)
    ensures
        final(out)@ == old(out)@ + rule(width as nat),
{
    push_repeated(out, '▔', width);
    out.push('\n');
    assert(final(out)@ =~= old(out)@ + rule(width as nat));
}

/// The report `/mcp` prints.
pub fn status_report(
    servers: &Vec<(String, Vec<LoadingRecord>)>,
    still_loading: &Vec<String>,
    width: usize,
) -> (r: String)
    ensures
        r@ == status_text(servers@, still_loading@, width as nat),
{
    let mut out = String::new();
    let mut i: usize = 0;
    while i < servers.len()
        invariant
            i <= servers@.len(),
            out@ == servers_text(servers@.take(i as int), width as nat),
        decreases servers.len() - i,
    {
        push_text(&mut out, servers[i].0.as_str());
        out.push('\n');
        push_rule(&mut out, width);
        push_records(&mut out, &servers[i].1);
        out.push('\n');
        proof {
            let t = servers@.take(i + 1);
            assert(t.drop_last() =~= servers@.take(i as int));
            assert(t.last() == servers@[i as int]);
            assert(out@ =~= servers_text(t, width as nat));
        }
        i = i + 1;
    }
    assert(servers@.take(servers.len() as int) =~= servers@);
    if still_loading.len() > 0 {
        push_text(&mut out, "Still loading:\n");
        push_rule(&mut out, width);
        let mut k: usize = 0;
        let ghost mid = out@;
        while k < still_loading.len()
            invariant
                k <= still_loading@.len(),
                out@ == mid + loading_lines(still_loading@.take(k as int)),
            decreases still_loading.len() - k,
        {
            push_text(&mut out, " - ");
            push_text(&mut out, still_loading[k].as_str());
            out.push('\n');
            proof {
                let t = still_loading@.take(k + 1);
                assert(t.drop_last() =~= still_loading@.take(k as int));
                assert(out@ =~= mid + loading_lines(t));
            }
            k = k + 1;
        }
        assert(still_loading@.take(still_loading.len() as int) =~= still_loading@);
        out.push('\n');
    }
    assert(out@ =~= status_text(servers@, still_loading@, width as nat));
    out
}

/// The line printed when a reload starts.
pub fn reload_start_text(server_name: &Option<String>) -> (r: String)
    ensures
        server_name matches Some(n) ==> r@ == "Reloading MCP server: "@ + n@ + "\n"@,
        server_name is None ==> r@ == "Reloading all MCP servers...\n"@,
{
    match server_name {
        Some(n) => {
            let mut t = concat("Reloading MCP server: ", n.as_str());
            push_text(&mut t, "\n");
            t
        },
        None => "Reloading all MCP servers...\n".to_owned(),
    }
}

/// The line printed for the reload of one server: `single` when it was the
/// only one asked for, `failure` the error's text when it failed.
pub fn reload_result_text(server_name: &str, single: bool, failure: Option<&str>) -> (r: String)
    ensures
        single && failure is None ==> r@ == "✓ Successfully reloaded server: "@ + server_name@
            + "\n"@,
        !single && failure is None ==> r@ == "✓ Successfully reloaded: "@ + server_name@ + "\n"@,
        single && failure is Some ==> r@ == "✗ Failed to reload server "@ + server_name@ + ": "@
            + failure->Some_0@ + "\n"@,
        !single && failure is Some ==> r@ == "✗ Failed to reload "@ + server_name@ + ": "@
            + failure->Some_0@ + "\n"@,
{
    match failure {
        None => {
            let mut t = if single {
                concat("✓ Successfully reloaded server: ", server_name)
            } else {
                concat("✓ Successfully reloaded: ", server_name)
            };
            push_text(&mut t, "\n");
            t
        },
        Some(e) => {
            let mut t = if single {
                concat("✗ Failed to reload server ", server_name)
            } else {
                concat("✗ Failed to reload ", server_name)
            };
            push_text(&mut t, ": ");
            push_text(&mut t, e);
            push_text(&mut t, "\n");
            t
        },
    }
}

#[derive(Debug, PartialEq, Eq)]
pub enum McpSubcommand {
    /// Reload the named server, or every server.
    Reload { server_name: Option<String> },
}

#[derive(Debug, PartialEq, Eq)]
pub struct McpArgs {
    pub command: Option<McpSubcommand>,
}

/// What `/mcp` does.
#[derive(Debug, PartialEq, Eq)]
pub enum McpAction {
    Status,
    Reload(Option<String>),
}

impl McpArgs {
    /// Without a subcommand `/mcp` shows the status; `reload` reloads.
    pub fn execute(self) -> (r: McpAction)
        ensures
            self.command is None ==> r == McpAction::Status,
            self.command matches Some(McpSubcommand::Reload { server_name }) ==> r
                == McpAction::Reload(server_name),
    {
        match self.command {
            Some(McpSubcommand::Reload { server_name }) => McpAction::Reload(server_name),
            None => McpAction::Status,
        }
    }
}

impl McpAction {
    /// The chat goes back to the prompt without repeating a pending tool.
    pub fn next_state(&self) -> (r: ChatState)
        ensures
            r == (ChatState::PromptUser { skip_printing_tools: true }),
    {
        ChatState::PromptUser { skip_printing_tools: true }
    }
}

#[derive(Debug, Clone, PartialEq, Eq, Default)]
pub struct ChatArgs {
    pub resume: bool,
    pub profile: Option<String>,
    pub model: Option<String>,
    pub trust_all_tools: bool,
    pub trust_tools: Option<Vec<String>>,
    pub non_interactive: bool,
    pub input: Option<String>,
}

impl ChatArgs {
    /// Starts a chat from the arguments: the input check, then the tool
    /// permissions for the tools named in `tool_names`.
    pub fn execute(&self, tool_names: &Vec<String>) -> (r: Result<ToolPermissions, String>)
        ensures
            r is Err <==> self.non_interactive && self.input is None,
            r matches Err(m) ==> m@ == "Input must be supplied when --non-interactive is set"@,
            r matches Ok(p) ==> {
                &&& p.trust_all == self.trust_all_tools
                &&& self.trust_all_tools ==> forall|i: int|
                    0 <= i < tool_names@.len() ==> p.setting(#[trigger] tool_names@[i]@) == Some(
                        true,
                    )
                &&& !self.trust_all_tools && self.trust_tools is None ==> forall|n: Seq<char>|
                    p.setting(n) is None
                &&& !self.trust_all_tools && self.trust_tools is Some ==> forall|i: int|
                    0 <= i < tool_names@.len() ==> p.setting(#[trigger] tool_names@[i]@) == Some(
                        views(self.trust_tools->Some_0@).contains(tool_names@[i]@),
                    )
            },
    {
        match self.validate() {
            Err(m) => Err(m),
            Ok(()) => {
                let listed = match &self.trust_tools {
                    Some(v) => Some(copy_strings(v)),
                    None => None,
                };
                Ok(ToolPermissions::from_args(tool_names, self.trust_all_tools, listed))
            },
        }
    }

    /// A non-interactive chat needs its input on the command line.
    pub fn validate(&self) -> (r: Result<(), String>)
        ensures
            r is Err <==> self.non_interactive && self.input is None,
            r matches Err(m) ==> m@ == "Input must be supplied when --non-interactive is set"@,
    {
        if self.non_interactive && self.input.is_none() {
            Err("Input must be supplied when --non-interactive is set".to_owned())
        } else {
            Ok(())
        }
    }
}

} // verus!
