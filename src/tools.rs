//! What the network tool endpoint hands out about configured servers:
//! listings in name order and views that name environment variables but
//! never carry their values.
use vstd::prelude::*;

use crate::config::{duplicate_strings, ClaudeConfig, ConfigView, McpServer, McpServerEdit, ServerEntry};
use crate::name_map::{sorted_names, strictly_sorted, Duplicate, NameMap};
use crate::text::strings_view;

verus! {

/// The environment of an entry, an absent one read as empty.
pub open spec fn env_of(e: ServerEntry) -> Map<Seq<char>, Seq<char>> {
    match e.env {
        Some(m) => m,
        None => Map::empty(),
    }
}

/// A server with its name and its environment in full, as the front end
/// shows it.
pub struct McpServerInfo {
    pub name: String,
    pub command: String,
    pub args: Vec<String>,
    pub env: NameMap<String>,
}

impl McpServerInfo {
    /// The entry this describes, with the environment always present.
    pub open spec fn entry(&self) -> ServerEntry {
        ServerEntry { command: self.command@, args: strings_view(self.args@), env: Some(self.env@) }
    }
}

/// The entry that a listing shows for a stored one.
pub open spec fn shown_entry(e: ServerEntry) -> ServerEntry {
    ServerEntry { env: Some(env_of(e)), ..e }
}

/// A server as the tool endpoint shows it: the names of its environment
/// variables, none of their values.
pub struct McpServerInfoSanitized {
    pub name: String,
    pub command: String,
    pub args: Vec<String>,
    pub env_keys: Vec<String>,
}

pub ghost struct SanitizedView {
    pub name: Seq<char>,
    pub command: Seq<char>,
    pub args: Seq<Seq<char>>,
    pub env_keys: Seq<Seq<char>>,
}

impl View for McpServerInfoSanitized {
    type V = SanitizedView;

    open spec fn view(&self) -> SanitizedView {
        SanitizedView {
            name: self.name@,
            command: self.command@,
            args: strings_view(self.args@),
            env_keys: strings_view(self.env_keys@),
        }
    }
}

/// The sanitized view of the entry `e` named `name`: its environment's
/// names in increasing order.
pub open spec fn sanitized_of(name: Seq<char>, e: ServerEntry) -> SanitizedView {
    SanitizedView {
        name,
        command: e.command,
        args: e.args,
        env_keys: sorted_names(env_of(e).dom()),
    }
}

/// The sanitized listing of a configuration, in name order.
pub open spec fn listing_of(c: ConfigView) -> Seq<SanitizedView> {
    sorted_names(c.dom()).map_values(|k: Seq<char>| sanitized_of(k, c[k]))
}

pub open spec fn sanitized_views(v: Seq<McpServerInfoSanitized>) -> Seq<SanitizedView> {
    v.map_values(|x: McpServerInfoSanitized| x@)
}

impl McpServerInfoSanitized {
    pub fn from_server_info(server_info: &McpServerInfo) -> (r: Self)
        ensures
            r@ == sanitized_of(server_info.name@, server_info.entry()),
            strings_view(r.env_keys@).to_set() == server_info.env@.dom(),
    {
        let env_keys = server_info.env.keys();
        proof {
            use_type_invariant(&server_info.env);
            server_info.env.lemma_view();
            assert(server_info.env.names().to_set() =~= server_info.env@.dom());
        }
        McpServerInfoSanitized {
            name: server_info.name.clone(),
            command: server_info.command.clone(),
            args: duplicate_strings(&server_info.args),
            env_keys,
        }
    }
}

/// Sanitized views depend on an environment only through its names: two
/// entries that differ in the values of their variables look the same.
pub proof fn lemma_sanitized_hides_env_values(name: Seq<char>, e1: ServerEntry, e2: ServerEntry)
    requires
        e1.command == e2.command,
        e1.args == e2.args,
        env_of(e1).dom() == env_of(e2).dom(),
    ensures
        sanitized_of(name, e1) == sanitized_of(name, e2),
{
}

/// The same of whole listings: configurations with the same names, commands,
/// arguments and variable names list the same, whatever the variables hold.
pub proof fn lemma_listing_hides_env_values(c1: ClaudeConfig, c2: ClaudeConfig)
    requires
        c1.mcp_servers.is_sorted(),
        c2.mcp_servers.is_sorted(),
        c1@.dom() == c2@.dom(),
        forall|k: Seq<char>|
            #[trigger] c1@.contains_key(k) ==> c1@[k].command == c2@[k].command && c1@[k].args
                == c2@[k].args && env_of(c1@[k]).dom() == env_of(c2@[k]).dom(),
    ensures
        listing_of(c1@) == listing_of(c2@),
{
    c1.mcp_servers.lemma_names_are_sorted_keys();
    c1.mcp_servers.lemma_view();
    let names = sorted_names(c1@.dom());
    assert forall|i: int| 0 <= i < names.len() implies #[trigger] listing_of(c1@)[i] == listing_of(
        c2@,
    )[i] by {
        assert(c1@.contains_key(c1.mcp_servers.names()[i]));
    }
    assert(listing_of(c1@) =~= listing_of(c2@));
}

/// The full description of the entry `server` named `name`.
pub fn info_of(name: &String, server: &McpServer) -> (r: McpServerInfo)
    ensures
        r.name@ == name@,
        r.entry() == shown_entry(server@),
{
    let env = match &server.env {
        Some(e) => e.duplicate(),
        None => NameMap::new(),
    };
    McpServerInfo {
        name: name.clone(),
        command: server.command.clone(),
        args: duplicate_strings(&server.args),
        env,
    }
}

/// Every server of the configuration, in name order.
pub fn server_infos(config: &ClaudeConfig) -> (r: Vec<McpServerInfo>)
    ensures
        r@.len() == sorted_names(config@.dom()).len(),
        forall|i: int|
            0 <= i < r@.len() ==> (#[trigger] r@[i]).name@ == sorted_names(config@.dom())[i]
                && r@[i].entry() == shown_entry(config@[sorted_names(config@.dom())[i]]),
{
    let servers = &config.mcp_servers;
    proof {
        use_type_invariant(servers);
        servers.lemma_names_are_sorted_keys();
        servers.lemma_view();
    }
    let n = servers.len();
    let mut r: Vec<McpServerInfo> = Vec::new();
    let mut i: usize = 0;
    while i < n
        invariant
            n == servers.names().len(),
            servers.names() == sorted_names(config@.dom()),
            config@ == servers@,
            i <= n,
            r@.len() == i,
            forall|j: int|
                0 <= j < i ==> (#[trigger] r@[j]).name@ == servers.names()[j] && r@[j].entry()
                    == shown_entry(servers@[servers.names()[j]]),
        decreases n - i,
    {
        let info = info_of(servers.name_at(i), servers.value_at(i));
        r.push(info);
        i = i + 1;
    }
    r
}

/// The sanitized listing of the configuration, in name order.
pub fn list_servers(config: &ClaudeConfig) -> (r: Vec<McpServerInfoSanitized>)
    ensures
        sanitized_views(r@) == listing_of(config@),
        strictly_sorted(sorted_names(config@.dom())),
        sorted_names(config@.dom()).to_set() == config@.dom(),
{
    proof {
        use_type_invariant(&config.mcp_servers);
        config.mcp_servers.lemma_names_are_sorted_keys();
        config.mcp_servers.lemma_view();
        assert(config.mcp_servers.names().to_set() =~= config@.dom());
    }
    let infos = server_infos(config);
    let mut r: Vec<McpServerInfoSanitized> = Vec::new();
    let mut i: usize = 0;
    while i < infos.len()
        invariant
            infos@.len() == sorted_names(config@.dom()).len(),
            forall|j: int|
                0 <= j < infos@.len() ==> (#[trigger] infos@[j]).name@ == sorted_names(config@.dom())[j]
                    && infos@[j].entry() == shown_entry(config@[sorted_names(config@.dom())[j]]),
            i <= infos@.len(),
            r@.len() == i,
            forall|j: int| 0 <= j < i ==> (#[trigger] r@[j])@ == listing_of(config@)[j],
        decreases infos@.len() - i,
    {
        let s = McpServerInfoSanitized::from_server_info(&infos[i]);
        r.push(s);
        i = i + 1;
    }
    assert(sanitized_views(r@) =~= listing_of(config@));
    r
}

/// The full description of the server `name`, if the configuration has it.
pub fn server_details(config: &ClaudeConfig, name: &String) -> (r: Result<McpServerInfo, String>)
    ensures
        r is Ok <==> config@.contains_key(name@),
        r matches Ok(info) ==> info.name@ == name@ && info.entry() == shown_entry(config@[name@]),
        r matches Err(m) ==> m@ == "Server '"@ + name@ + "' not found"@,
{
    match config.mcp_servers.get(name.as_str()) {
        Some(server) => Ok(info_of(name, server)),
        None => Err(String::from_str("Server '").concat(name.as_str()).concat("' not found")),
    }
}

/// Arguments of the add tool.
pub struct AddMcpServerRequest {
    pub name: String,
    pub command: String,
    pub args: Vec<String>,
    pub env: Option<NameMap<String>>,
}

/// Arguments of the filtered preset listing.
pub struct GetPresetServersRequest {
    pub exclude_installed: bool,
}

/// Arguments of the update tool.
pub struct UpdateMcpServerRequest {
    pub name: String,
    pub command: String,
    pub args: Vec<String>,
    pub env: Option<NameMap<String>>,
}

/// Arguments of the delete tool.
pub struct DeleteMcpServerRequest {
    pub name: String,
}

/// Arguments of the details tool.
pub struct GetMcpServerDetailsRequest {
    pub name: String,
}

/// Arguments of the preset install tool.
pub struct InstallPresetServerRequest {
    pub preset_name: String,
    pub api_keys: Option<NameMap<String>>,
}

/// The edit a tool call asks for, a missing environment read as empty.
fn edit_of(command: String, args: Vec<String>, env: Option<NameMap<String>>) -> (r: McpServerEdit)
    ensures
        r.command@ == command@,
        strings_view(r.args@) == strings_view(args@),
        r.env@ == match env {
            Some(e) => e@,
            None => Map::empty(),
        },
{
    let env = match env {
        Some(e) => e,
        None => NameMap::new(),
    };
    McpServerEdit { command, args, env }
}

impl AddMcpServerRequest {
    /// The name and the edit the request asks to add.
    pub fn into_edit(self) -> (r: (String, McpServerEdit))
        ensures
            r.0@ == self.name@,
            r.1.command@ == self.command@,
            strings_view(r.1.args@) == strings_view(self.args@),
            r.1.env@ == match self.env {
                Some(e) => e@,
                None => Map::empty(),
            },
    {
        let AddMcpServerRequest { name, command, args, env } = self;
        (name, edit_of(command, args, env))
    }
}

impl UpdateMcpServerRequest {
    /// The name and the edit the request asks to store.
    pub fn into_edit(self) -> (r: (String, McpServerEdit))
        ensures
            r.0@ == self.name@,
            r.1.command@ == self.command@,
            strings_view(r.1.args@) == strings_view(self.args@),
            r.1.env@ == match self.env {
                Some(e) => e@,
                None => Map::empty(),
            },
    {
        let UpdateMcpServerRequest { name, command, args, env } = self;
        (name, edit_of(command, args, env))
    }
}

} // verus!
