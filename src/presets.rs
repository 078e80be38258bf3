//! The catalog of ready-made server definitions and the queries over it:
//! by name, category or kind, the kinds and categories it has, and what an
//! install of a preset adds to the configuration.
use vstd::prelude::*;

use crate::config::{duplicate_strings, ClaudeConfig, McpServerEdit};
use crate::name_map::{sorted_names, NameMap};
use crate::text::{str_equal, strings_view};

verus! {

/// How a server is launched, by its command.
pub enum ServerType {
    Docker,
    Npx,
    Uvx,
    Uv,
    Other(String),
}

pub ghost enum TypeView {
    Docker,
    Npx,
    Uvx,
    Uv,
    Other(Seq<char>),
}

impl View for ServerType {
    type V = TypeView;

    open spec fn view(&self) -> TypeView {
        match self {
            ServerType::Docker => TypeView::Docker,
            ServerType::Npx => TypeView::Npx,
            ServerType::Uvx => TypeView::Uvx,
            ServerType::Uv => TypeView::Uv,
            ServerType::Other(s) => TypeView::Other(s@),
        }
    }
}

/// The lowercase form of a string, by Unicode's case mapping.
pub uninterp spec fn lower_of(s: Seq<char>) -> Seq<char>;

/// Relies on `str::to_lowercase`: Unicode's lowercase mapping, which
/// depends on the characters alone.
#[verifier::external_body]
fn lowercase(s: &str) -> (r: String)
    ensures
        r@ == lower_of(s@),
{
    s.to_lowercase()
}

/// The kind named by an already lowercased command; any other command is
/// kept as given.
pub open spec fn type_of_lowered(lowered: Seq<char>, command: Seq<char>) -> TypeView {
    if lowered == "docker"@ {
        TypeView::Docker
    } else if lowered == "npx"@ {
        TypeView::Npx
    } else if lowered == "uvx"@ {
        TypeView::Uvx
    } else if lowered == "uv"@ {
        TypeView::Uv
    } else {
        TypeView::Other(command)
    }
}

/// The name of a kind.
pub open spec fn kind_name(t: TypeView) -> Seq<char> {
    match t {
        TypeView::Docker => "docker"@,
        TypeView::Npx => "npx"@,
        TypeView::Uvx => "uvx"@,
        TypeView::Uv => "uv"@,
        TypeView::Other(s) => s,
    }
}

impl ServerType {
    pub fn from_lowered(lowered: &str, command: &str) -> (r: ServerType)
        ensures
            r@ == type_of_lowered(lowered@, command@),
    {
        if str_equal(lowered, "docker") {
            ServerType::Docker
        } else if str_equal(lowered, "npx") {
            ServerType::Npx
        } else if str_equal(lowered, "uvx") {
            ServerType::Uvx
        } else if str_equal(lowered, "uv") {
            ServerType::Uv
        } else {
            ServerType::Other(String::from_str(command))
        }
    }

    /// The kind of a command, compared without regard to case.
    pub fn from_command(command: &str) -> (r: ServerType)
        ensures
            r@ == type_of_lowered(lower_of(command@), command@),
    {
        let lowered = lowercase(command);
        ServerType::from_lowered(lowered.as_str(), command)
    }

    pub fn to_string(&self) -> (r: String)
        ensures
            r@ == kind_name(self@),
    {
        match self {
            ServerType::Docker => String::from_str("docker"),
            ServerType::Npx => String::from_str("npx"),
            ServerType::Uvx => String::from_str("uvx"),
            ServerType::Uv => String::from_str("uv"),
            ServerType::Other(s) => s.clone(),
        }
    }

    pub fn same_as(&self, other: &ServerType) -> (r: bool)
        ensures
            r == (self@ == other@),
    {
        match (self, other) {
            (ServerType::Docker, ServerType::Docker) => true,
            (ServerType::Npx, ServerType::Npx) => true,
            (ServerType::Uvx, ServerType::Uvx) => true,
            (ServerType::Uv, ServerType::Uv) => true,
            (ServerType::Other(a), ServerType::Other(b)) => str_equal(a.as_str(), b.as_str()),
            _ => false,
        }
    }

    pub fn duplicate(&self) -> (r: ServerType)
        ensures
            r@ == self@,
    {
        match self {
            ServerType::Docker => ServerType::Docker,
            ServerType::Npx => ServerType::Npx,
            ServerType::Uvx => ServerType::Uvx,
            ServerType::Uv => ServerType::Uv,
            ServerType::Other(s) => ServerType::Other(s.clone()),
        }
    }
}

/// An API key that a preset needs at install.
pub struct ApiKeyRequirement {
    pub name: String,
    pub description: String,
    pub required: bool,
}

impl ApiKeyRequirement {
    pub fn duplicate(&self) -> (r: Self)
        ensures
            r.name@ == self.name@,
            r.description@ == self.description@,
            r.required == self.required,
    {
        ApiKeyRequirement {
            name: self.name.clone(),
            description: self.description.clone(),
            required: self.required,
        }
    }
}

/// A ready-made server definition.
pub struct PresetServer {
    pub name: String,
    pub description: String,
    pub category: String,
    pub server_type: ServerType,
    pub command: String,
    pub args: Vec<String>,
    pub env: Option<NameMap<String>>,
    pub api_keys: Vec<ApiKeyRequirement>,
    pub requires_api_key: bool,
    pub api_key_name: Option<String>,
    pub api_key_description: Option<String>,
}

/// What the queries read of a preset.
pub ghost struct PresetView {
    pub name: Seq<char>,
    pub category: Seq<char>,
    pub server_type: TypeView,
    pub command: Seq<char>,
    pub args: Seq<Seq<char>>,
    pub requires_api_key: bool,
}

impl View for PresetServer {
    type V = PresetView;

    open spec fn view(&self) -> PresetView {
        PresetView {
            name: self.name@,
            category: self.category@,
            server_type: self.server_type@,
            command: self.command@,
            args: strings_view(self.args@),
            requires_api_key: self.requires_api_key,
        }
    }
}

pub open spec fn preset_views(v: Seq<PresetServer>) -> Seq<PresetView> {
    v.map_values(|p: PresetServer| p@)
}

pub open spec fn row(
    name: Seq<char>,
    category: Seq<char>,
    server_type: TypeView,
    command: Seq<char>,
    args: Seq<Seq<char>>,
    requires_api_key: bool,
) -> PresetView {
    PresetView { name, category, server_type, command, args, requires_api_key }
}

/// The catalog, as the queries see it.
pub open spec fn catalog() -> Seq<PresetView> {
    seq![
        row("dice"@, "Utilities"@, TypeView::Uvx, "uvx"@, seq!["mcp-dice"@], false),
        row("time"@, "Utilities"@, TypeView::Uvx, "uvx"@, seq!["mcp-server-time"@, "--local-timezone=UTC"@], false),
        row("sequential-thinking"@, "AI Tools"@, TypeView::Docker, "docker"@, seq!["run"@, "--rm"@, "-i"@, "mcp/sequentialthinking"@], false),
        row("browsermcp"@, "Web Tools"@, TypeView::Npx, "npx"@, seq!["@browsermcp/mcp@latest"@], false),
        row("brave-search"@, "Search"@, TypeView::Npx, "npx"@, seq!["-y"@, "@modelcontextprotocol/server-brave-search"@], true),
        row("openweather"@, "Weather"@, TypeView::Docker, "docker"@, seq!["run"@, "-i"@, "--rm"@, "-e"@, "OWM_API_KEY"@, "mcp/openweather"@], true),
        row("context7"@, "Development"@, TypeView::Npx, "npx"@, seq!["-y"@, "@upstash/context7-mcp@latest"@], false),
        row("docker"@, "Development"@, TypeView::Uvx, "uvx"@, seq!["--from"@, "git+https://github.com/ckreiling/mcp-server-docker"@, "mcp-server-docker"@], false),
        row("desktop-commander"@, "System"@, TypeView::Docker, "docker"@, seq!["run"@, "-i"@, "--rm"@, "mcp/desktop-commander"@], false),
        row("mcp-manager"@, "Development"@, TypeView::Npx, "npx"@, seq!["-y"@, "supergateway"@, "--sse"@, "http://localhost:8000/sse"@], false),
    ]
}

/// Every preset of the catalog, in catalog order.
pub fn get_preset_servers_database() -> (r: Vec<PresetServer>)
    ensures
        preset_views(r@) == catalog(),
{
    let r: Vec<PresetServer> = vec![
        PresetServer {
            name: String::from_str("dice"),
            description: String::from_str("Random dice rolling utility for games and decision making"),
            category: String::from_str("Utilities"),
            server_type: ServerType::Uvx,
            command: String::from_str("uvx"),
            args: vec![String::from_str("mcp-dice")],
            env: None,
            api_keys: Vec::new(),
            requires_api_key: false,
            api_key_name: None,
            api_key_description: None,
        },
        PresetServer {
            name: String::from_str("time"),
            description: String::from_str("Time and timezone utilities for scheduling and time management"),
            category: String::from_str("Utilities"),
            server_type: ServerType::Uvx,
            command: String::from_str("uvx"),
            args: vec![
                String::from_str("mcp-server-time"),
                String::from_str("--local-timezone=UTC"),
            ],
            env: None,
            api_keys: Vec::new(),
            requires_api_key: false,
            api_key_name: None,
            api_key_description: None,
        },
        PresetServer {
            name: String::from_str("sequential-thinking"),
            description: String::from_str("Enhanced reasoning capabilities for complex problem solving"),
            category: String::from_str("AI Tools"),
            server_type: ServerType::Docker,
            command: String::from_str("docker"),
            args: vec![
                String::from_str("run"),
                String::from_str("--rm"),
                String::from_str("-i"),
                String::from_str("mcp/sequentialthinking"),
            ],
            env: None,
            api_keys: Vec::new(),
            requires_api_key: false,
            api_key_name: None,
            api_key_description: None,
        },
        PresetServer {
            name: String::from_str("browsermcp"),
            description: String::from_str("Web browsing capabilities for accessing and interacting with websites"),
            category: String::from_str("Web Tools"),
            server_type: ServerType::Npx,
            command: String::from_str("npx"),
            args: vec![String::from_str("@browsermcp/mcp@latest")],
            env: None,
            api_keys: Vec::new(),
            requires_api_key: false,
            api_key_name: None,
            api_key_description: None,
        },
        PresetServer {
            name: String::from_str("brave-search"),
            description: String::from_str("Web search functionality using Brave Search API"),
            category: String::from_str("Search"),
            server_type: ServerType::Npx,
            command: String::from_str("npx"),
            args: vec![
                String::from_str("-y"),
                String::from_str("@modelcontextprotocol/server-brave-search"),
            ],
            env: None,
            api_keys: vec![ApiKeyRequirement {
                name: String::from_str("BRAVE_API_KEY"),
                description: String::from_str("Get your API key from https://brave.com/search/api/"),
                required: true,
            }],
            requires_api_key: true,
            api_key_name: Some(String::from_str("BRAVE_API_KEY")),
            api_key_description: Some(
                String::from_str("Get your API key from https://brave.com/search/api/"),
            ),
        },
        PresetServer {
            name: String::from_str("openweather"),
            description: String::from_str("Weather information and forecasts using OpenWeatherMap API"),
            category: String::from_str("Weather"),
            server_type: ServerType::Docker,
            command: String::from_str("docker"),
            args: vec![
                String::from_str("run"),
                String::from_str("-i"),
                String::from_str("--rm"),
                String::from_str("-e"),
                String::from_str("OWM_API_KEY"),
                String::from_str("mcp/openweather"),
            ],
            env: None,
            api_keys: vec![ApiKeyRequirement {
                name: String::from_str("OWM_API_KEY"),
                description: String::from_str("Get your API key from https://openweathermap.org/api"),
                required: true,
            }],
            requires_api_key: true,
            api_key_name: Some(String::from_str("OWM_API_KEY")),
            api_key_description: Some(
                String::from_str("Get your API key from https://openweathermap.org/api"),
            ),
        },
        PresetServer {
            name: String::from_str("context7"),
            description: String::from_str("Documentation search and code context analysis"),
            category: String::from_str("Development"),
            server_type: ServerType::Npx,
            command: String::from_str("npx"),
            args: vec![String::from_str("-y"), String::from_str("@upstash/context7-mcp@latest")],
            env: None,
            api_keys: Vec::new(),
            requires_api_key: false,
            api_key_name: None,
            api_key_description: None,
        },
        PresetServer {
            name: String::from_str("docker"),
            description: String::from_str("Docker container management and operations"),
            category: String::from_str("Development"),
            server_type: ServerType::Uvx,
            command: String::from_str("uvx"),
            args: vec![
                String::from_str("--from"),
                String::from_str("git+https://github.com/ckreiling/mcp-server-docker"),
                String::from_str("mcp-server-docker"),
            ],
            env: None,
            api_keys: Vec::new(),
            requires_api_key: false,
            api_key_name: None,
            api_key_description: None,
        },
        PresetServer {
            name: String::from_str("desktop-commander"),
            description: String::from_str("Desktop automation and system control capabilities"),
            category: String::from_str("System"),
            server_type: ServerType::Docker,
            command: String::from_str("docker"),
            args: vec![
                String::from_str("run"),
                String::from_str("-i"),
                String::from_str("--rm"),
                String::from_str("mcp/desktop-commander"),
            ],
            env: None,
            api_keys: Vec::new(),
            requires_api_key: false,
            api_key_name: None,
            api_key_description: None,
        },
        PresetServer {
            name: String::from_str("mcp-manager"),
            description: String::from_str("control mcp manager using ai"),
            category: String::from_str("Development"),
            server_type: ServerType::Npx,
            command: String::from_str("npx"),
            args: vec![
                String::from_str("-y"),
                String::from_str("supergateway"),
                String::from_str("--sse"),
                String::from_str("http://localhost:8000/sse"),
            ],
            env: None,
            api_keys: Vec::new(),
            requires_api_key: false,
            api_key_name: None,
            api_key_description: None,
        },
    ];
    proof {
        assert forall|i: int| 0 <= i < r@.len() implies #[trigger] strings_view(r@[i].args@)
            =~= catalog()[i].args by {}
    }
    assert(preset_views(r@) =~= catalog());
    r
}

pub fn get_preset_servers() -> (r: Vec<PresetServer>)
    ensures
        preset_views(r@) == catalog(),
{
    get_preset_servers_database()
}

/// A condition on presets.
#[derive(Clone, Copy)]
pub enum PresetFilter<'a> {
    Category(&'a str),
    Kind(&'a ServerType),
    NotInstalled(&'a ClaudeConfig),
}

pub open spec fn keeps(f: PresetFilter, p: PresetView) -> bool {
    match f {
        PresetFilter::Category(c) => p.category == c@,
        PresetFilter::Kind(t) => p.server_type == t@,
        PresetFilter::NotInstalled(config) => !config@.contains_key(p.name),
    }
}

fn preset_kept(f: &PresetFilter, p: &PresetServer) -> (r: bool)
    ensures
        r == keeps(*f, p@),
{
    match f {
        PresetFilter::Category(c) => str_equal(p.category.as_str(), c),
        PresetFilter::Kind(t) => p.server_type.same_as(t),
        PresetFilter::NotInstalled(config) => !config.mcp_servers.contains_key(p.name.as_str()),
    }
}

/// The presets that meet `f`, in their order.
pub fn filter_presets(presets: Vec<PresetServer>, f: PresetFilter) -> (r: Vec<PresetServer>)
    ensures
        preset_views(r@) == preset_views(presets@).filter(|p: PresetView| keeps(f, p)),
{
    let ghost pred = |p: PresetView| keeps(f, p);
    let ghost all = preset_views(presets@);
    let mut rest = presets;
    let mut r: Vec<PresetServer> = Vec::new();
    assert(preset_views(r@) =~= Seq::<PresetView>::empty());
    while rest.len() > 0
        invariant
            pred == (|p: PresetView| keeps(f, p)),
            all.filter(pred) == preset_views(r@) + preset_views(rest@).filter(pred),
        decreases rest@.len(),
    {
        let ghost before_rest = rest@;
        let ghost before_r = r@;
        let p = rest.remove(0);
        proof {
            assert(preset_views(before_rest) =~= seq![p@] + preset_views(rest@));
            preset_views(rest@).lemma_filter_prepend(p@, pred);
        }
        if preset_kept(&f, &p) {
            r.push(p);
            assert(preset_views(r@) =~= preset_views(before_r).push(p@));
            assert(preset_views(r@) + preset_views(rest@).filter(pred) =~= preset_views(before_r) + (
            seq![p@] + preset_views(rest@).filter(pred)));
        } else {
        }
    }
    proof {
        assert(preset_views(rest@) =~= Seq::<PresetView>::empty());
        reveal(Seq::filter);
        assert(preset_views(rest@).filter(pred) =~= Seq::<PresetView>::empty());
        assert(preset_views(r@) + Seq::<PresetView>::empty() =~= preset_views(r@));
    }
    r
}

pub fn get_preset_servers_by_category(category: String) -> (r: Vec<PresetServer>)
    ensures
        preset_views(r@) == catalog().filter(|p: PresetView| p.category == category@),
{
    let f = PresetFilter::Category(category.as_str());
    let r = filter_presets(get_preset_servers_database(), f);
    assert((|p: PresetView| keeps(f, p)) =~= (|p: PresetView| p.category == category@));
    r
}

pub fn get_preset_servers_by_type(server_type: String) -> (r: Vec<PresetServer>)
    ensures
        preset_views(r@) == catalog().filter(
            |p: PresetView| p.server_type == type_of_lowered(lower_of(server_type@), server_type@),
        ),
{
    let lowered = lowercase(server_type.as_str());
    let target = ServerType::from_lowered(lowered.as_str(), server_type.as_str());
    let f = PresetFilter::Kind(&target);
    let r = filter_presets(get_preset_servers_database(), f);
    assert((|p: PresetView| keeps(f, p)) =~= (|p: PresetView| p.server_type
        == type_of_lowered(lower_of(server_type@), server_type@)));
    r
}

/// The presets whose name the configuration does not hold yet.
pub fn presets_not_installed(presets: Vec<PresetServer>, config: &ClaudeConfig) -> (r: Vec<PresetServer>)
    ensures
        preset_views(r@) == preset_views(presets@).filter(|p: PresetView| !config@.contains_key(p.name)),
{
    let f = PresetFilter::NotInstalled(config);
    let r = filter_presets(presets, f);
    assert((|p: PresetView| keeps(f, p)) =~= (|p: PresetView| !config@.contains_key(p.name)));
    r
}

/// The first preset of the catalog named `name`.
pub fn get_preset_server_by_name(name: String) -> (r: Option<PresetServer>)
    ensures
        r is Some <==> exists|i: int| 0 <= i < catalog().len() && catalog()[i].name == name@,
        r matches Some(p) ==> exists|i: int|
            0 <= i < catalog().len() && p@ == catalog()[i] && p@.name == name@ && forall|j: int|
                0 <= j < i ==> catalog()[j].name != name@,
{
    let mut db = get_preset_servers_database();
    let ghost views = preset_views(db@);
    let mut i: usize = 0;
    while i < db.len()
        invariant
            views == catalog(),
            preset_views(db@) == views,
            i <= db@.len(),
            forall|j: int| 0 <= j < i ==> catalog()[j].name != name@,
        decreases db@.len() - i,
    {
        assert(db@[i as int]@ == catalog()[i as int]);
        if str_equal(db[i].name.as_str(), name.as_str()) {
            let p = db.remove(i);
            return Some(p);
        }
        i = i + 1;
    }
    assert(db@.len() == catalog().len());
    None
}

/// The set of the catalog's categories.
pub open spec fn catalog_categories() -> Set<Seq<char>> {
    catalog().map_values(|p: PresetView| p.category).to_set()
}

/// The set of the catalog's kinds, by name.
pub open spec fn catalog_kinds() -> Set<Seq<char>> {
    catalog().map_values(|p: PresetView| kind_name(p.server_type)).to_set()
}

/// The distinct categories, in increasing order.
pub fn get_preset_server_categories() -> (r: Vec<String>)
    ensures
        strings_view(r@) == sorted_names(catalog_categories()),
{
    let db = get_preset_servers_database();
    let mut seen: NameMap<String> = NameMap::new();
    let mut i: usize = 0;
    while i < db.len()
        invariant
            preset_views(db@) == catalog(),
            i <= db@.len(),
            seen@.dom() == preset_views(db@).subrange(0, i as int).map_values(|p: PresetView| p.category).to_set(),
        decreases db@.len() - i,
    {
        let c = db[i].category.clone();
        seen.insert(c.clone(), c);
        proof {
            let pre = preset_views(db@).subrange(0, i as int).map_values(|p: PresetView| p.category);
            let post = preset_views(db@).subrange(0, i + 1).map_values(|p: PresetView| p.category);
            assert(post =~= pre.push(db@[i as int].category@));
            pre.lemma_push_to_set_commute(db@[i as int].category@);
            assert(seen@.dom() =~= post.to_set());
        }
        i = i + 1;
    }
    proof {
        assert(preset_views(db@).subrange(0, i as int) =~= catalog());
    }
    seen.keys()
}

/// The distinct kinds, by name, in increasing order.
pub fn get_server_types() -> (r: Vec<String>)
    ensures
        strings_view(r@) == sorted_names(catalog_kinds()),
{
    let db = get_preset_servers_database();
    let mut seen: NameMap<String> = NameMap::new();
    let mut i: usize = 0;
    while i < db.len()
        invariant
            preset_views(db@) == catalog(),
            i <= db@.len(),
            seen@.dom() == preset_views(db@).subrange(0, i as int).map_values(
                |p: PresetView| kind_name(p.server_type),
            ).to_set(),
        decreases db@.len() - i,
    {
        let t = db[i].server_type.to_string();
        seen.insert(t.clone(), t);
        proof {
            let pre = preset_views(db@).subrange(0, i as int).map_values(|p: PresetView| kind_name(p.server_type));
            let post = preset_views(db@).subrange(0, i + 1).map_values(|p: PresetView| kind_name(p.server_type));
            assert(post =~= pre.push(kind_name(db@[i as int].server_type@)));
            pre.lemma_push_to_set_commute(kind_name(db@[i as int].server_type@));
            assert(seen@.dom() =~= post.to_set());
        }
        i = i + 1;
    }
    proof {
        assert(preset_views(db@).subrange(0, i as int) =~= catalog());
    }
    seen.keys()
}

impl PresetServer {
    /// The declared kind agrees with the command, or is a free-form kind.
    pub fn validate_command_matches_type(&self) -> (r: bool)
        ensures
            r == (self.server_type@ == type_of_lowered(lower_of(self.command@), self.command@)
                || self.server_type@ is Other),
    {
        let expected = ServerType::from_command(self.command.as_str());
        self.server_type.same_as(&expected) || match self.server_type {
            ServerType::Other(_) => true,
            _ => false,
        }
    }
}

pub fn validate_server_config(server: PresetServer) -> (r: bool)
    ensures
        r == (server.server_type@ == type_of_lowered(lower_of(server.command@), server.command@)
            || server.server_type@ is Other),
{
    server.validate_command_matches_type()
}

/// The server an install of `preset` adds: the preset's command and
/// arguments, and its environment with the given keys laid over it.
pub fn install_edit(preset: &PresetServer, api_keys: Option<NameMap<String>>) -> (r: McpServerEdit)
    ensures
        r.command@ == preset.command@,
        strings_view(r.args@) == strings_view(preset.args@),
        r.env@ == match (preset.env, api_keys) {
            (Some(e), Some(k)) => e@.union_prefer_right(k@),
            (Some(e), None) => e@,
            (None, Some(k)) => k@,
            (None, None) => Map::empty(),
        },
{
    let mut env = match &preset.env {
        Some(e) => e.duplicate(),
        None => NameMap::new(),
    };
    let ghost base = env@;
    match api_keys {
        Some(keys) => {
            proof {
                use_type_invariant(&keys);
                keys.lemma_view();
            }
            let n = keys.len();
            let mut i: usize = 0;
            while i < n
                invariant
                    n == keys.names().len(),
                    i <= n,
                    keys.is_sorted(),
                    env@ == base.union_prefer_right(
                        keys@.restrict(keys.names().subrange(0, i as int).to_set()),
                    ),
                decreases n - i,
            {
                proof {
                    keys.lemma_view();
                }
                let k = keys.name_at(i).clone();
                let v = keys.value_at(i).clone();
                env.insert(k, v);
                proof {
                    keys.lemma_view();
                    assert(keys.names().subrange(0, i + 1) =~= keys.names().subrange(0, i as int).push(
                        keys.names()[i as int],
                    ));
                    keys.names().subrange(0, i as int).lemma_push_to_set_commute(keys.names()[i as int]);
                    assert(keys.names().subrange(0, i + 1).to_set() =~= keys.names().subrange(
                        0,
                        i as int,
                    ).to_set().insert(keys.names()[i as int]));
                    assert(env@ =~= base.union_prefer_right(
                        keys@.restrict(keys.names().subrange(0, i + 1).to_set()),
                    ));
                }
                i = i + 1;
            }
            proof {
                keys.lemma_view();
                assert(keys.names().subrange(0, n as int) =~= keys.names());
                assert(keys@.restrict(keys.names().to_set()) =~= keys@);
                if preset.env is None {
                    assert(base.union_prefer_right(keys@) =~= keys@);
                }
            }
        },
        None => {},
    }
    McpServerEdit {
        command: preset.command.clone(),
        args: duplicate_strings(&preset.args),
        env,
    }
}

/// A preset as the tool endpoint shows it: the names of its environment
/// variables, none of their values.
pub struct PresetServerSanitized {
    pub name: String,
    pub description: String,
    pub category: String,
    pub server_type: String,
    pub command: String,
    pub args: Vec<String>,
    pub env_keys: Vec<String>,
    pub api_keys: Vec<ApiKeyRequirement>,
    pub requires_api_key: bool,
}

fn duplicate_requirements(v: &Vec<ApiKeyRequirement>) -> (r: Vec<ApiKeyRequirement>)
    ensures
        r@.len() == v@.len(),
        forall|i: int|
            0 <= i < v@.len() ==> (#[trigger] r@[i]).name@ == v@[i].name@ && r@[i].description@
                == v@[i].description@ && r@[i].required == v@[i].required,
{
    let mut r: Vec<ApiKeyRequirement> = Vec::new();
    let mut i: usize = 0;
    while i < v.len()
        invariant
            i <= v@.len(),
            r@.len() == i,
            forall|j: int|
                0 <= j < i ==> (#[trigger] r@[j]).name@ == v@[j].name@ && r@[j].description@
                    == v@[j].description@ && r@[j].required == v@[j].required,
        decreases v@.len() - i,
    {
        r.push(v[i].duplicate());
        i = i + 1;
    }
    r
}

impl PresetServerSanitized {
    pub fn from_preset_server(preset: &PresetServer) -> (r: Self)
        ensures
            r.name@ == preset.name@,
            r.description@ == preset.description@,
            r.category@ == preset.category@,
            r.server_type@ == kind_name(preset.server_type@),
            r.command@ == preset.command@,
            strings_view(r.args@) == strings_view(preset.args@),
            strings_view(r.env_keys@) == match preset.env {
                Some(e) => sorted_names(e@.dom()),
                None => Seq::<Seq<char>>::empty(),
            },
            r.api_keys@.len() == preset.api_keys@.len(),
            forall|i: int|
                0 <= i < preset.api_keys@.len() ==> (#[trigger] r.api_keys@[i]).name@
                    == preset.api_keys@[i].name@ && r.api_keys@[i].description@
                    == preset.api_keys@[i].description@ && r.api_keys@[i].required
                    == preset.api_keys@[i].required,
            r.requires_api_key == preset.requires_api_key,
    {
        let env_keys = match &preset.env {
            Some(e) => e.keys(),
            None => Vec::new(),
        };
        assert(preset.env is None ==> strings_view(env_keys@) =~= Seq::<Seq<char>>::empty());
        PresetServerSanitized {
            name: preset.name.clone(),
            description: preset.description.clone(),
            category: preset.category.clone(),
            server_type: preset.server_type.to_string(),
            command: preset.command.clone(),
            args: duplicate_strings(&preset.args),
            env_keys,
            api_keys: duplicate_requirements(&preset.api_keys),
            requires_api_key: preset.requires_api_key,
        }
    }
}

} // verus!
