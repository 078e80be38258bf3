//! The configuration model: named server entries and the structural rules a
//! loaded configuration must meet.
use vstd::prelude::*;

use crate::name_map::{Duplicate, NameMap};
use crate::text::{
    strings_view, has_char, is_blank, starts_with_char, str_has_char, str_is_blank, str_starts_with_char,
};

verus! {

/// The mathematical value of a server entry.
pub ghost struct ServerEntry {
    pub command: Seq<char>,
    pub args: Seq<Seq<char>>,
    pub env: Option<Map<Seq<char>, Seq<char>>>,
}

/// A configuration as a map from server name to entry.
pub type ConfigView = Map<Seq<char>, ServerEntry>;

/// One managed tool server: the command to run, its arguments and,
/// optionally, its environment.
pub struct McpServer {
    pub command: String,
    pub args: Vec<String>,
    pub env: Option<NameMap<String>>,
}

impl View for McpServer {
    type V = ServerEntry;

    open spec fn view(&self) -> ServerEntry {
        ServerEntry {
            command: self.command@,
            args: strings_view(self.args@),
            env: match self.env {
                Some(e) => Some(e@),
                None => None,
            },
        }
    }
}

/// The whole configuration file: every server under its unique name.
pub struct ClaudeConfig {
    pub mcp_servers: NameMap<McpServer>,
}

impl View for ClaudeConfig {
    type V = ConfigView;

    open spec fn view(&self) -> ConfigView {
        self.mcp_servers@
    }
}

/// A copy of a list of strings.
pub fn duplicate_strings(v: &Vec<String>) -> (r: Vec<String>)
    ensures
        strings_view(r@) == strings_view(v@),
{
    let mut r: Vec<String> = Vec::new();
    let mut i: usize = 0;
    while i < v.len()
        invariant
            i <= v@.len(),
            strings_view(r@) == strings_view(v@).subrange(0, i as int),
        decreases v@.len() - i,
    {
        let ghost before = r@;
        assert(strings_view(before).len() == i);
        let c = v[i].clone();
        r.push(c);
        proof {
            assert(r@ == before.push(c));
            assert forall|j: int| 0 <= j <= i implies #[trigger] strings_view(r@)[j] == strings_view(v@)[j] by {
                if j < i {
                    assert(r@[j] == before[j]);
                    assert(strings_view(before)[j] == strings_view(v@).subrange(0, i as int)[j]);
                }
            }
        }
        i = i + 1;
        assert(strings_view(r@) =~= strings_view(v@).subrange(0, i as int));
    }
    assert(strings_view(r@) =~= strings_view(v@));
    r
}

impl Duplicate for McpServer {
    fn duplicate(&self) -> (r: Self)
        ensures
            r@ == self@,
    {
        let env = match &self.env {
            Some(e) => Some(e.duplicate()),
            None => None,
        };
        McpServer { command: self.command.clone(), args: duplicate_strings(&self.args), env }
    }
}

impl ClaudeConfig {
    pub fn duplicate(&self) -> (r: Self)
        ensures
            r@ == self@,
    {
        ClaudeConfig { mcp_servers: self.mcp_servers.duplicate() }
    }

    pub fn new() -> (r: Self)
        ensures
            r@ == Map::<Seq<char>, ServerEntry>::empty(),
    {
        ClaudeConfig { mcp_servers: NameMap::new() }
    }
}

/// A server as the front end edits it: the environment is always present,
/// possibly empty.
pub struct McpServerEdit {
    pub command: String,
    pub args: Vec<String>,
    pub env: NameMap<String>,
}

/// The entry that an edit stores: an empty environment is left out.
pub open spec fn entry_of_edit(
    command: Seq<char>,
    args: Seq<Seq<char>>,
    env: Map<Seq<char>, Seq<char>>,
) -> ServerEntry {
    ServerEntry {
        command,
        args,
        env: if env.dom().len() == 0 { None } else { Some(env) },
    }
}

impl McpServerEdit {
    pub open spec fn entry(&self) -> ServerEntry {
        entry_of_edit(self.command@, strings_view(self.args@), self.env@)
    }

    pub fn into_server(self) -> (r: McpServer)
        ensures
            r@ == self.entry(),
    {
        let McpServerEdit { command, args, env } = self;
        proof {
            use_type_invariant(&env);
            env.lemma_view();
            if env.names().len() > 0 {
                assert(env@.contains_key(env.names()[0]));
            } else {
                assert(env@.dom() =~= Set::<Seq<char>>::empty());
            }
            lemma_finite_dom(&env);
        }
        let env = if env.len() == 0 {
            None
        } else {
            Some(env)
        };
        McpServer { command, args, env }
    }
}

proof fn lemma_finite_dom(m: &NameMap<String>)
    requires
        m.is_sorted(),
    ensures
        m@.dom().finite(),
        m@.dom().len() == 0 <==> m.names().len() == 0,
{
    m.lemma_view();
    assert(m@.dom() =~= m.names().to_set());
    m.names().lemma_cardinality_of_set();
    if m.names().len() > 0 {
        assert(m.names().to_set().contains(m.names()[0]));
    } else {
        assert(m.names().to_set() =~= Set::<Seq<char>>::empty());
    }
}

/// What is wrong with a server entry, as the structural check sees it.
#[derive(Clone, Copy, Debug, PartialEq, Eq, Structural)]
pub enum Problem {
    /// The name is empty once white space is trimmed.
    EmptyName,
    /// The command is empty once white space is trimmed.
    EmptyCommand,
    /// The command holds a space and does not start with a quote: its
    /// arguments belong in the argument list.
    UnquotedCommand,
}

pub open spec fn problem_of(name: Seq<char>, e: ServerEntry) -> Option<Problem> {
    if is_blank(name) {
        Some(Problem::EmptyName)
    } else if is_blank(e.command) {
        Some(Problem::EmptyCommand)
    } else if has_char(e.command, ' ') && !starts_with_char(e.command, '"') {
        Some(Problem::UnquotedCommand)
    } else {
        None
    }
}

/// A configuration in which no entry has a problem.
pub open spec fn config_is_valid(c: ConfigView) -> bool {
    forall|k: Seq<char>| #[trigger] c.contains_key(k) ==> problem_of(k, c[k]) is None
}

/// The first entry, in name order, that fails the structural check.
pub struct ValidationError {
    pub problem: Problem,
    pub server: String,
}

pub fn entry_problem(name: &str, server: &McpServer) -> (r: Option<Problem>)
    ensures
        r == problem_of(name@, server@),
{
    if str_is_blank(name) {
        Some(Problem::EmptyName)
    } else if str_is_blank(server.command.as_str()) {
        Some(Problem::EmptyCommand)
    } else if str_has_char(server.command.as_str(), ' ') && !str_starts_with_char(
        server.command.as_str(),
        '"',
    ) {
        Some(Problem::UnquotedCommand)
    } else {
        None
    }
}

/// Checks every entry in name order and reports the first problem found.
pub fn validate_claude_config_structure(config: &ClaudeConfig) -> (r: Result<(), ValidationError>)
    ensures
        r is Ok <==> config_is_valid(config@),
        r matches Err(e) ==> config@.contains_key(e.server@) && problem_of(
            e.server@,
            config@[e.server@],
        ) == Some(e.problem),
{
    let servers = &config.mcp_servers;
    proof {
        use_type_invariant(servers);
        servers.lemma_view();
    }
    let n = servers.len();
    let mut i: usize = 0;
    while i < n
        invariant
            n == servers.names().len(),
            i <= n,
            config@ == servers@,
            servers.is_sorted(),
            forall|j: int|
                0 <= j < i ==> problem_of(
                    #[trigger] servers.names()[j],
                    servers@[servers.names()[j]],
                ) is None,
        decreases n - i,
    {
        let name = servers.name_at(i);
        let server = servers.value_at(i);
        match entry_problem(name.as_str(), server) {
            Some(p) => {
                proof {
                    servers.lemma_view();
                    assert(servers@.contains_key(servers.names()[i as int]));
                    assert(config@.contains_key(name@));
                }
                return Err(ValidationError { problem: p, server: name.clone() });
            },
            None => {},
        }
        i = i + 1;
    }
    proof {
        servers.lemma_view();
        assert forall|k: Seq<char>| #[trigger] config@.contains_key(k) implies problem_of(
            k,
            config@[k],
        ) is None by {
            let j = choose|j: int| 0 <= j < servers.names().len() && #[trigger] servers.names()[j] == k;
        }
    }
    Ok(())
}

} // verus!
