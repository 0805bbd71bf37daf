//! Which tools a session may use.
use vstd::prelude::*;

use crate::text::str_eq;

verus! {

/// Where tools may come from.
#[derive(Debug, Clone, Copy, PartialEq, Eq, Structural)]
pub enum ToolPolicy {
    BuiltInOnly,
    ProviderOnly,
    BuiltInAndProvider,
}

/// The tool rules of a session.
#[derive(Debug)]
pub struct ToolConfig {
    pub policy: ToolPolicy,
    /// The tools that are allowed; without a list every tool is.
    pub allowlist: Option<Vec<String>>,
    /// The tools that are forbidden, whatever the allowlist says.
    pub denylist: Vec<String>,
}

impl Clone for ToolConfig {
    fn clone(&self) -> (copy: Self)
        ensures
            copy.policy == self.policy,
            copy.denylist@ == self.denylist@,
            match (copy.allowlist, self.allowlist) {
                (Some(a), Some(b)) => a@ == b@,
                (None, None) => true,
                _ => false,
            },
    {
        ToolConfig {
            policy: self.policy,
            allowlist: match &self.allowlist {
                Some(list) => Some(list.clone()),
                None => None,
            },
            denylist: self.denylist.clone(),
        }
    }
}

/// `list` holds the name `name`.
pub open spec fn lists(list: Seq<String>, name: Seq<char>) -> bool {
    exists|i: int| 0 <= i < list.len() && (#[trigger] list[i])@ == name
}

/// Whether `list` holds the name `name`.
pub fn contains_name(list: &Vec<String>, name: &str) -> (yes: bool)
    ensures
        yes == lists(list@, name@),
{
    let mut i: usize = 0;
    while i < list.len()
        invariant
            i <= list@.len(),
            forall|j: int| 0 <= j < i ==> (#[trigger] list@[j])@ != name@,
        decreases list@.len() - i,
    {
        if str_eq(list[i].as_str(), name) {
            return true;
        }
        i = i + 1;
    }
    false
}

/// Whether the rules admit the tool `name`, offered by the MCP server `server` or built in.
///
/// A forbidden name is never admitted. Without an allowlist every other tool is. A built-in
/// tool needs an entry with its name; a tool of a server needs the entry `server.name` or
/// `server.*`.
pub open spec fn admits(config: ToolConfig, name: Seq<char>, server: Option<Seq<char>>) -> bool {
    !lists(config.denylist@, name) && match config.allowlist {
        None => true,
        Some(allowed) => match server {
            None => lists(allowed@, name),
            Some(server) => lists(allowed@, server + "."@ + name) || lists(
                allowed@,
                server + ".*"@,
            ),
        },
    }
}

/// Whether a built-in tool is allowed.
pub fn is_tool_allowed_with(config: &ToolConfig, name: &str) -> (yes: bool)
    ensures
        yes == admits(*config, name@, None),
{
    is_mcp_tool_allowed_with(config, name, None)
}

/// Whether a tool is allowed, given the MCP server that offers it, if one does.
///
/// MCP tools carry bare names that can collide across servers, so only entries that name
/// the server admit them.
pub fn is_mcp_tool_allowed_with(
    config: &ToolConfig,
    name: &str,
    server_name: Option<&str>,
) -> (yes: bool)
    ensures
        yes == admits(
            *config,
            name@,
            match server_name {
                Some(server) => Some(server@),
                None => None,
            },
        ),
{
    if contains_name(&config.denylist, name) {
        return false;
    }
    match &config.allowlist {
        None => true,
        Some(allowlist) => match server_name {
            None => contains_name(allowlist, name),
            Some(server) => {
                let mut exact = server.to_owned();
                exact.append(".");
                exact.append(name);
                if contains_name(allowlist, exact.as_str()) {
                    return true;
                }
                let mut wildcard = server.to_owned();
                wildcard.append(".*");
                contains_name(allowlist, wildcard.as_str())
            },
        },
    }
}

/// The denylist comes first: a forbidden name is refused whoever offers it.
pub proof fn law_denylist_wins(config: ToolConfig, name: Seq<char>, server: Option<Seq<char>>)
    requires
        lists(config.denylist@, name),
    ensures
        !admits(config, name, server),
{
}

/// A wildcard for one server admits all of its tools that are not forbidden.
pub proof fn law_wildcard_admits_the_whole_server(
    config: ToolConfig,
    name: Seq<char>,
    server: Seq<char>,
)
    requires
        config.allowlist matches Some(allowed) && lists(allowed@, server + ".*"@),
        !lists(config.denylist@, name),
    ensures
        admits(config, name, Some(server)),
{
}

/// A text without a dot.
pub open spec fn dotless(text: Seq<char>) -> bool {
    forall|i: int| 0 <= i < text.len() ==> #[trigger] text[i] != '.'
}

/// Bare entries never admit a tool of an MCP server.
pub proof fn law_bare_entries_admit_no_mcp_tool(
    config: ToolConfig,
    name: Seq<char>,
    server: Seq<char>,
)
    requires
        config.allowlist matches Some(allowed) && forall|i: int|
            0 <= i < allowed@.len() ==> dotless((#[trigger] allowed@[i])@),
    ensures
        !admits(config, name, Some(server)),
{
    reveal_strlit(".");
    reveal_strlit(".*");
    let allowed = config.allowlist->Some_0;
    let exact = server + "."@ + name;
    let wildcard = server + ".*"@;
    assert(exact[server.len() as int] == '.');
    assert(wildcard[server.len() as int] == '.');
    if lists(allowed@, exact) {
        let i = choose|i: int| 0 <= i < allowed@.len() && (#[trigger] allowed@[i])@ == exact;
        assert(dotless(allowed@[i]@));
    }
    if lists(allowed@, wildcard) {
        let i = choose|i: int| 0 <= i < allowed@.len() && (#[trigger] allowed@[i])@ == wildcard;
        assert(dotless(allowed@[i]@));
    }
}

/// Selecting a tool of one server does not admit the same tool of another server.
pub proof fn law_selection_is_server_scoped(
    config: ToolConfig,
    name: Seq<char>,
    selected: Seq<char>,
    other: Seq<char>,
)
    requires
        dotless(selected),
        dotless(other),
        selected != other,
        config.allowlist matches Some(allowed) && forall|i: int|
            0 <= i < allowed@.len() ==> (#[trigger] allowed@[i])@ == selected + "."@ + name
                || allowed@[i]@ == selected + ".*"@,
    ensures
        !admits(config, name, Some(other)),
{
    reveal_strlit(".");
    reveal_strlit(".*");
    let allowed = config.allowlist->Some_0;
    lemma_first_dot(selected, "."@ + name, other, "."@ + name);
    lemma_first_dot(selected, "."@ + name, other, ".*"@);
    lemma_first_dot(selected, ".*"@, other, "."@ + name);
    lemma_first_dot(selected, ".*"@, other, ".*"@);
    assert(selected + "."@ + name =~= selected + ("."@ + name));
    assert(other + "."@ + name =~= other + ("."@ + name));
    if lists(allowed@, other + "."@ + name) {
        let i = choose|i: int|
            0 <= i < allowed@.len() && (#[trigger] allowed@[i])@ == other + "."@ + name;
        assert(allowed@[i]@ == selected + "."@ + name || allowed@[i]@ == selected + ".*"@);
    }
    if lists(allowed@, other + ".*"@) {
        let i = choose|i: int|
            0 <= i < allowed@.len() && (#[trigger] allowed@[i])@ == other + ".*"@;
        assert(allowed@[i]@ == selected + "."@ + name || allowed@[i]@ == selected + ".*"@);
    }
}

proof fn lemma_first_dot(a: Seq<char>, x: Seq<char>, b: Seq<char>, y: Seq<char>)
    requires
        dotless(a),
        dotless(b),
        a != b,
        x.len() > 0 && x[0] == '.',
        y.len() > 0 && y[0] == '.',
    ensures
        a + x != b + y,
{
    if a + x == b + y {
        let whole = a + x;
        assert(whole[a.len() as int] == '.');
        assert((b + y)[b.len() as int] == '.');
        if a.len() < b.len() {
            assert((b + y)[a.len() as int] == b[a.len() as int]);
        } else if b.len() < a.len() {
            assert(whole[b.len() as int] == a[b.len() as int]);
        } else {
            assert forall|i: int| 0 <= i < a.len() implies a[i] == b[i] by {
                assert((a + x)[i] == a[i] && (b + y)[i] == b[i]);
            }
            assert(a =~= b);
        }
    }
}

/// A list holds exactly the names that stand somewhere in it.
pub proof fn law_lists_hold_their_entries(list: Seq<String>, name: Seq<char>)
    ensures
        lists(list, name) <==> list.map_values(|entry: String| entry@).contains(name),
{
    let names = list.map_values(|entry: String| entry@);
    if lists(list, name) {
        let i = choose|i: int| 0 <= i < list.len() && (#[trigger] list[i])@ == name;
        assert(names[i] == name);
    }
    if names.contains(name) {
        let i = choose|i: int| 0 <= i < names.len() && names[i] == name;
        assert(list[i]@ == name);
    }
}

/// Without an allowlist exactly the names on the denylist are refused, whoever offers the
/// tool.
pub proof fn law_only_the_denylist_refuses_without_an_allowlist(
    config: ToolConfig,
    name: Seq<char>,
    server: Option<Seq<char>>,
)
    requires
        config.allowlist is None,
    ensures
        admits(config, name, server) <==> !config.denylist@.map_values(
            |entry: String| entry@,
        ).contains(name),
{
    law_lists_hold_their_entries(config.denylist@, name);
}

/// With an allowlist a built-in tool is admitted exactly where its name stands on the
/// allowlist and not on the denylist.
pub proof fn law_allowlist_selects_built_in_tools(
    config: ToolConfig,
    allowed: Vec<String>,
    name: Seq<char>,
)
    requires
        config.allowlist == Some(allowed),
    ensures
        admits(config, name, None) <==> allowed@.map_values(|entry: String| entry@).contains(name)
            && !config.denylist@.map_values(|entry: String| entry@).contains(name),
{
    law_lists_hold_their_entries(allowed@, name);
    law_lists_hold_their_entries(config.denylist@, name);
}

/// With an allowlist a tool of a server is admitted exactly where the tool or the whole
/// server stands on the allowlist, under the server's name, and the tool's name not on the
/// denylist.
pub proof fn law_allowlist_selects_server_tools(
    config: ToolConfig,
    allowed: Vec<String>,
    name: Seq<char>,
    server: Seq<char>,
)
    requires
        config.allowlist == Some(allowed),
    ensures
        admits(config, name, Some(server)) <==> ({
            let entries = allowed@.map_values(|entry: String| entry@);
            entries.contains(server + seq!['.'] + name) || entries.contains(
                server + seq!['.', '*'],
            )
        }) && !config.denylist@.map_values(|entry: String| entry@).contains(name),
{
    reveal_strlit(".");
    reveal_strlit(".*");
    assert("."@ =~= seq!['.']);
    assert(".*"@ =~= seq!['.', '*']);
    law_lists_hold_their_entries(allowed@, server + seq!['.'] + name);
    law_lists_hold_their_entries(allowed@, server + seq!['.', '*']);
    law_lists_hold_their_entries(config.denylist@, name);
}

} // verus!
