//! MCP tool calls in the transcript, and the labels of MCP server states.
use vstd::prelude::*;

use crate::history_cell::mcp_result::join_commas;
use crate::history_cell::request_user_input::join_answers;
use crate::multi_agents::{str_lt, text_less};
use crate::text::{concat2, concat3, dec, owned, push_dec, str_eq};

verus! {

/// How an MCP server's connection stands.
#[derive(Clone, Copy, Debug, PartialEq, Eq, Structural)]
pub enum McpServerConnectionStatus {
    Connected,
    Starting,
    AuthenticationRequired,
    Failed,
    NotStarted,
    Disabled,
    Cancelled,
}

/// How an MCP server's authentication stands.
#[derive(Clone, Copy, Debug, PartialEq, Eq, Structural)]
pub enum McpAuthStatus {
    Unknown,
    Unsupported,
    NotLoggedIn,
    BearerToken,
    OAuth,
}

/// A call of an MCP tool: the server, the tool and its arguments as JSON
/// text.
pub struct McpInvocation {
    pub server: String,
    pub tool: String,
    pub arguments: Option<String>,
}

/// An MCP tool call in the transcript: running until a result arrives or it
/// fails.
pub struct McpToolCallCell {
    pub call_id: String,
    pub invocation: McpInvocation,
    pub result: Option<String>,
    pub failed: bool,
}

impl McpToolCallCell {
    /// A call that has just started.
    pub fn new(call_id: String, invocation: McpInvocation) -> (r: McpToolCallCell)
        ensures
            r.call_id == call_id,
            r.invocation == invocation,
            r.result is None,
            !r.failed,
    {
        McpToolCallCell { call_id, invocation, result: None, failed: false }
    }
}

/// The state of a server's connection, in words; without a connection
/// state, a server that needs a login counts as needing authentication.
pub open spec fn connection_label(
    status: Option<McpServerConnectionStatus>,
    auth: McpAuthStatus,
) -> Seq<char> {
    match status {
        Some(McpServerConnectionStatus::Connected) => "connected"@,
        Some(McpServerConnectionStatus::Starting) => "starting"@,
        Some(McpServerConnectionStatus::AuthenticationRequired) => "authentication required"@,
        Some(McpServerConnectionStatus::Failed) => "failed"@,
        Some(McpServerConnectionStatus::NotStarted) => "not started"@,
        Some(McpServerConnectionStatus::Disabled) => "disabled"@,
        Some(McpServerConnectionStatus::Cancelled) => "cancelled"@,
        None => if auth == McpAuthStatus::NotLoggedIn {
            "authentication required"@
        } else {
            "unknown"@
        },
    }
}

/// Different connection states read differently, whatever the
/// authentication; without a connection state, a server that needs a
/// login reads as needing authentication and any other as unknown.
pub proof fn lemma_connection_labels(
    a: McpServerConnectionStatus,
    b: McpServerConnectionStatus,
    x: McpAuthStatus,
    y: McpAuthStatus,
)
    ensures
        a != b ==> connection_label(Some(a), x) != connection_label(Some(b), y),
        connection_label(None, McpAuthStatus::NotLoggedIn) == connection_label(
            Some(McpServerConnectionStatus::AuthenticationRequired),
            y,
        ),
        x != McpAuthStatus::NotLoggedIn ==> connection_label(None, x) == "unknown"@,
{
    reveal_strlit("connected");
    reveal_strlit("starting");
    reveal_strlit("authentication required");
    reveal_strlit("failed");
    reveal_strlit("not started");
    reveal_strlit("disabled");
    reveal_strlit("cancelled");
    assert("connected"@[0] == 'c' && "starting"@[0] == 's' && "authentication required"@[0] == 'a'
        && "failed"@[0] == 'f' && "not started"@[0] == 'n' && "disabled"@[0] == 'd'
        && "cancelled"@[0] == 'c');
    assert("connected"@[1] == 'o' && "cancelled"@[1] == 'a');
}

/// The state of a server's connection, in words (`connection_label`).
pub fn mcp_connection_status_label(
    status: Option<McpServerConnectionStatus>,
    auth_status: McpAuthStatus,
) -> (r: &'static str)
    ensures
        r@ == connection_label(status, auth_status),
{
    match status {
        Some(McpServerConnectionStatus::Connected) => "connected",
        Some(McpServerConnectionStatus::Starting) => "starting",
        Some(McpServerConnectionStatus::AuthenticationRequired) => "authentication required",
        Some(McpServerConnectionStatus::Failed) => "failed",
        Some(McpServerConnectionStatus::NotStarted) => "not started",
        Some(McpServerConnectionStatus::Disabled) => "disabled",
        Some(McpServerConnectionStatus::Cancelled) => "cancelled",
        None => if auth_status == McpAuthStatus::NotLoggedIn {
            "authentication required"
        } else {
            "unknown"
        },
    }
}

/// The state of a server's authentication, in words.
pub open spec fn auth_label(status: McpAuthStatus) -> Seq<char> {
    match status {
        McpAuthStatus::Unknown => "unknown"@,
        McpAuthStatus::Unsupported => "unsupported"@,
        McpAuthStatus::NotLoggedIn => "not logged in"@,
        McpAuthStatus::BearerToken => "bearer token"@,
        McpAuthStatus::OAuth => "OAuth"@,
    }
}

/// The state of a server's authentication, in words (`auth_label`).
pub fn mcp_auth_status_label(status: McpAuthStatus) -> (r: &'static str)
    ensures
        r@ == auth_label(status),
{
    match status {
        McpAuthStatus::Unknown => "unknown",
        McpAuthStatus::Unsupported => "unsupported",
        McpAuthStatus::NotLoggedIn => "not logged in",
        McpAuthStatus::BearerToken => "bearer token",
        McpAuthStatus::OAuth => "OAuth",
    }
}

/// How much of each server the inventory shows.
#[derive(Clone, Copy, Debug, PartialEq, Eq, Structural)]
pub enum McpServerStatusDetail {
    Full,
    ToolsAndAuthOnly,
}

/// A resource or resource template of a server: its title, name and
/// address.
pub struct McpResourceInfo {
    pub title: Option<String>,
    pub name: String,
    pub uri: String,
}

/// What the server reports of one MCP server.
pub struct McpServerStatus {
    pub name: String,
    pub runtime_status: Option<McpServerConnectionStatus>,
    pub auth_status: McpAuthStatus,
    /// The names of its tools.
    pub tools: Vec<String>,
    pub resources: Vec<McpResourceInfo>,
    pub resource_templates: Vec<McpResourceInfo>,
}

/// The labels of the inventory in the user's locale. `translations` turns
/// a connection or authentication state, in words, into the words shown
/// (a state it does not list is shown as it is); `tool_unit_one` follows a
/// count of one tool and `tool_unit_other` any other count.
pub struct McpInventoryLabels {
    pub title: String,
    pub no_servers: String,
    pub no_tools_available: String,
    pub auth_label: String,
    pub tools_label: String,
    pub resources_label: String,
    pub resource_templates_label: String,
    pub none: String,
    pub use_verbose: String,
    pub tool_unit_one: String,
    pub tool_unit_other: String,
    pub translations: Vec<(String, String)>,
}

/// How a line is drawn.
#[derive(Clone, Copy, Debug, PartialEq, Eq, Structural)]
pub enum LineStyle {
    Plain,
    Bold,
    Dim,
}

/// A line of text and how it is drawn.
pub struct StyledLine {
    pub text: String,
    pub style: LineStyle,
}

/// The plain values of a styled line.
pub open spec fn line_view(l: StyledLine) -> (Seq<char>, LineStyle) {
    (l.text@, l.style)
}

/// The words shown for a state: the first translation of it, else the
/// state itself.
pub open spec fn translated(ts: Seq<(String, String)>, key: Seq<char>) -> Seq<char>
    decreases ts.len(),
{
    if ts.len() == 0 {
        key
    } else if ts[0].0@ == key {
        ts[0].1@
    } else {
        translated(ts.drop_first(), key)
    }
}

/// The plain values of a list of styled lines.
pub open spec fn lines_view(v: Seq<StyledLine>) -> Seq<(Seq<char>, LineStyle)> {
    v.map_values(|l: StyledLine| line_view(l))
}

/// How many leading entries of `order` name a server whose name sorts no
/// later than that of server `k`.
pub open spec fn order_insert_point(s: Seq<McpServerStatus>, order: Seq<int>, k: int) -> nat
    decreases order.len(),
{
    if order.len() > 0 && !str_lt(s[k].name@, s[order[0]].name@) {
        1 + order_insert_point(s, order.drop_first(), k)
    } else {
        0
    }
}

/// The positions of the first `n` servers in stable order of name: each,
/// in turn, goes after every earlier one whose name sorts no later.
pub open spec fn name_order(s: Seq<McpServerStatus>, n: int) -> Seq<int>
    decreases n,
{
    if n <= 0 {
        Seq::empty()
    } else {
        let t = name_order(s, n - 1);
        t.insert(order_insert_point(s, t, n - 1) as int, n - 1)
    }
}

/// Whether server `a`'s name sorts no later than server `b`'s.
pub open spec fn name_le(s: Seq<McpServerStatus>, a: int, b: int) -> bool {
    !str_lt(s[b].name@, s[a].name@)
}

/// Whether the positions `order` list the servers in order of name.
pub open spec fn ordered_by_name(s: Seq<McpServerStatus>, order: Seq<int>) -> bool {
    forall|i: int, j: int| 0 <= i < j < order.len() ==> name_le(s, #[trigger] order[i], #[trigger] order[j])
}

proof fn lemma_name_le_transitive(s: Seq<McpServerStatus>, a: int, b: int, c: int)
    requires
        name_le(s, a, b),
        name_le(s, b, c),
    ensures
        name_le(s, a, c),
{
    let (la, lb, lc) = (s[a].name@, s[b].name@, s[c].name@);
    if str_lt(lc, la) {
        crate::multi_agents::lemma_str_lt_total(lb, lc);
        if str_lt(lb, lc) {
            crate::multi_agents::lemma_str_lt_transitive(lb, lc, la);
        }
    }
}

proof fn lemma_name_le_total(s: Seq<McpServerStatus>, a: int, b: int)
    ensures
        name_le(s, a, b) || name_le(s, b, a),
{
    let (la, lb) = (s[a].name@, s[b].name@);
    if str_lt(la, lb) && str_lt(lb, la) {
        crate::multi_agents::lemma_str_lt_transitive(la, lb, la);
        crate::multi_agents::lemma_str_lt_irreflexive(la);
    }
}

proof fn lemma_order_insert_point(s: Seq<McpServerStatus>, order: Seq<int>, k: int)
    ensures
        order_insert_point(s, order, k) <= order.len(),
        forall|q: int| 0 <= q < order_insert_point(s, order, k) ==> name_le(s, #[trigger] order[q], k),
        order_insert_point(s, order, k) < order.len() ==> !name_le(
            s,
            order[order_insert_point(s, order, k) as int],
            k,
        ),
    decreases order.len(),
{
    if order.len() > 0 && !str_lt(s[k].name@, s[order[0]].name@) {
        lemma_order_insert_point(s, order.drop_first(), k);
        assert forall|q: int| 0 <= q < order_insert_point(s, order, k) implies name_le(
            s,
            #[trigger] order[q],
            k,
        ) by {
            if q > 0 {
                assert(order[q] == order.drop_first()[q - 1]);
            }
        }
        if order_insert_point(s, order, k) < order.len() {
            assert(order[order_insert_point(s, order, k) as int] == order.drop_first()[order_insert_point(
                s,
                order.drop_first(),
                k,
            ) as int]);
        }
    }
}

/// The inventory lists the servers in order of name, each exactly once:
/// the order of the first `n` servers holds each of their positions once.
pub proof fn lemma_name_order(s: Seq<McpServerStatus>, n: int)
    requires
        0 <= n <= s.len(),
    ensures
        ordered_by_name(s, name_order(s, n)),
        name_order(s, n).to_multiset() == Seq::new(n as nat, |i: int| i).to_multiset(),
    decreases n,
{
    if n > 0 {
        let t = name_order(s, n - 1);
        let m = n - 1;
        lemma_name_order(s, n - 1);
        lemma_order_insert_point(s, t, m);
        let p = order_insert_point(s, t, m) as int;
        let r = t.insert(p, m);
        assert(r == name_order(s, n));
        assert forall|i: int, j: int| 0 <= i < j < r.len() implies name_le(s, #[trigger] r[i], #[trigger] r[j]) by {
            if p < t.len() {
                lemma_name_le_total(s, t[p], m);
            }
            if j < p {
                assert(r[i] == t[i] && r[j] == t[j]);
            } else if j == p {
                assert(r[i] == t[i]);
            } else if i == p {
                assert(r[j] == t[j - 1]);
                if j - 1 > p {
                    assert(name_le(s, t[p], t[j - 1]));
                    lemma_name_le_transitive(s, m, t[p], t[j - 1]);
                }
            } else if i < p {
                assert(r[i] == t[i] && r[j] == t[j - 1]);
            } else {
                assert(r[i] == t[i - 1] && r[j] == t[j - 1]);
            }
        }
        let all = Seq::new(n as nat, |i: int| i);
        assert(all.drop_last() =~= Seq::new((n - 1) as nat, |i: int| i));
        assert(all =~= all.drop_last() + seq![m]);
        assert(t =~= t.take(p) + t.skip(p));
        assert(r =~= t.take(p) + seq![m] + t.skip(p));
        vstd::seq_lib::lemma_multiset_commutative(t.take(p) + seq![m], t.skip(p));
        vstd::seq_lib::lemma_multiset_commutative(t.take(p), seq![m]);
        vstd::seq_lib::lemma_multiset_commutative(t.take(p), t.skip(p));
        vstd::seq_lib::lemma_multiset_commutative(all.drop_last(), seq![m]);
    } else {
        assert(Seq::new(0nat, |i: int| i) =~= name_order(s, n));
    }
}

/// How many leading texts of `s` sort no later than `x`.
pub open spec fn text_insert_point(s: Seq<Seq<char>>, x: Seq<char>) -> nat
    decreases s.len(),
{
    if s.len() > 0 && !str_lt(x, s[0]) {
        1 + text_insert_point(s.drop_first(), x)
    } else {
        0
    }
}

/// The texts in sorted order.
pub open spec fn sort_texts(s: Seq<Seq<char>>) -> Seq<Seq<char>>
    decreases s.len(),
{
    if s.len() == 0 {
        s
    } else {
        let t = sort_texts(s.drop_last());
        t.insert(text_insert_point(t, s.last()) as int, s.last())
    }
}

/// A resource as listed: its title (its name without one) and its address
/// in brackets.
pub open spec fn resource_text(r: McpResourceInfo) -> Seq<char> {
    (match r.title {
        Some(t) => t@,
        None => r.name@,
    }) + " ("@ + r.uri@ + ")"@
}

/// The line of a list of resources: `none` for an empty list.
pub open spec fn resources_line(label: Seq<char>, rs: Seq<McpResourceInfo>, none: Seq<char>) -> Seq<char> {
    "    • "@ + label + ": "@ + (if rs.len() == 0 {
        none
    } else {
        join_commas(rs.map_values(|r: McpResourceInfo| resource_text(r)))
    })
}

/// The lines of one server: its state and count of tools, and with full
/// detail its authentication, its tools by name, its resources, its
/// resource templates and a blank line.
pub open spec fn server_lines(
    st: McpServerStatus,
    detail: McpServerStatusDetail,
    labels: McpInventoryLabels,
) -> Seq<(Seq<char>, LineStyle)> {
    let ts = labels.translations@;
    let count = st.tools@.len();
    let head = "  • "@ + st.name@ + ": "@ + translated(
        ts,
        connection_label(st.runtime_status, st.auth_status),
    ) + " ("@ + dec(count) + " "@ + (if count == 1 {
        labels.tool_unit_one@
    } else {
        labels.tool_unit_other@
    }) + ")"@;
    if detail == McpServerStatusDetail::ToolsAndAuthOnly {
        seq![(head, LineStyle::Plain)]
    } else {
        let names = sort_texts(st.tools@.map_values(|t: String| t@));
        let tools = if names.len() == 0 {
            labels.none@
        } else {
            join_commas(names)
        };
        seq![
            (head, LineStyle::Plain),
            ("    • "@ + labels.auth_label@ + ": "@ + translated(ts, auth_label(st.auth_status)), LineStyle::Plain),
            ("    • "@ + labels.tools_label@ + ": "@ + tools, LineStyle::Plain),
            (resources_line(labels.resources_label@, st.resources@, labels.none@), LineStyle::Plain),
            (resources_line(labels.resource_templates_label@, st.resource_templates@, labels.none@), LineStyle::Plain),
            (Seq::empty(), LineStyle::Plain),
        ]
    }
}

/// The lines of the servers at the first `n` positions of `order`.
pub open spec fn servers_lines(
    ss: Seq<McpServerStatus>,
    order: Seq<int>,
    detail: McpServerStatusDetail,
    labels: McpInventoryLabels,
    n: int,
) -> Seq<(Seq<char>, LineStyle)>
    decreases n,
{
    if n <= 0 {
        Seq::empty()
    } else {
        servers_lines(ss, order, detail, labels, n - 1) + server_lines(ss[order[n - 1]], detail, labels)
    }
}

/// The MCP inventory as shown: the command and the bold title, then, with
/// no server, the empty notice; otherwise the servers in order of name
/// (after a notice when full detail finds no tool on any server), and with
/// the compact detail a dim hint to ask for more.
pub open spec fn inventory_spec(
    statuses: Seq<McpServerStatus>,
    detail: McpServerStatusDetail,
    labels: McpInventoryLabels,
) -> Seq<(Seq<char>, LineStyle)> {
    let head = seq![
        ("/mcp"@, LineStyle::Plain),
        (Seq::empty(), LineStyle::Plain),
        ("🔌  "@ + labels.title@, LineStyle::Bold),
        (Seq::empty(), LineStyle::Plain),
    ];
    if statuses.len() == 0 {
        head.push((labels.no_servers@, LineStyle::Plain))
    } else {
        let no_tools = detail == McpServerStatusDetail::Full && forall|i: int|
            0 <= i < statuses.len() ==> (#[trigger] statuses[i]).tools@.len() == 0;
        let notice = if no_tools {
            seq![(labels.no_tools_available@, LineStyle::Plain), (Seq::empty(), LineStyle::Plain)]
        } else {
            Seq::empty()
        };
        let tail = if detail == McpServerStatusDetail::ToolsAndAuthOnly {
            seq![(Seq::empty(), LineStyle::Plain), (labels.use_verbose@, LineStyle::Dim)]
        } else {
            Seq::empty()
        };
        let order = name_order(statuses, statuses.len() as int);
        head + notice + servers_lines(statuses, order, detail, labels, statuses.len() as int) + tail
    }
}

fn push_line(lines: &mut Vec<StyledLine>, text: String, style: LineStyle)
    ensures
        lines_view(final(lines)@) == lines_view(old(lines)@).push((text@, style)),
{
    let ghost before = lines@;
    lines.push(StyledLine { text, style });
    assert(lines_view(lines@) =~= lines_view(before).push((text@, style)));
}

/// Where server `k` goes among the servers at the positions `order`.
fn find_order_point(statuses: &Vec<McpServerStatus>, order: &Vec<usize>, k: usize) -> (r: usize)
    requires
        k < statuses.len(),
        forall|j: int| 0 <= j < order.len() ==> #[trigger] order@[j] < statuses.len(),
    ensures
        r == order_insert_point(statuses@, order@.map_values(|x: usize| x as int), k as int),
        r <= order.len(),
{
    let ghost o = order@.map_values(|x: usize| x as int);
    let mut p: usize = 0;
    assert(o.skip(0) =~= o);
    while p < order.len()
        invariant
            p <= order.len(),
            k < statuses.len(),
            forall|j: int| 0 <= j < order.len() ==> #[trigger] order@[j] < statuses.len(),
            o == order@.map_values(|x: usize| x as int),
            order_insert_point(statuses@, o, k as int) == p + order_insert_point(
                statuses@,
                o.skip(p as int),
                k as int,
            ),
        decreases order.len() - p,
    {
        let q = order[p];
        assert(o.skip(p as int)[0] == q as int);
        if text_less(statuses[k].name.as_str(), statuses[q].name.as_str()) {
            return p;
        }
        assert(o.skip(p as int).drop_first() =~= o.skip(p + 1));
        p = p + 1;
    }
    assert(o.skip(p as int).len() == 0);
    p
}

/// The positions of the servers in stable order of name.
fn server_order(statuses: &Vec<McpServerStatus>) -> (r: Vec<usize>)
    ensures
        r@.map_values(|x: usize| x as int) == name_order(statuses@, statuses.len() as int),
        r.len() == statuses.len(),
        forall|j: int| 0 <= j < r.len() ==> #[trigger] r@[j] < statuses.len(),
{
    let mut order: Vec<usize> = Vec::new();
    let mut i: usize = 0;
    assert(order@.map_values(|x: usize| x as int) =~= name_order(statuses@, 0));
    while i < statuses.len()
        invariant
            i <= statuses.len(),
            order.len() == i,
            order@.map_values(|x: usize| x as int) == name_order(statuses@, i as int),
            forall|j: int| 0 <= j < order.len() ==> #[trigger] order@[j] < i,
        decreases statuses.len() - i,
    {
        let ghost before = order@;
        let p = find_order_point(statuses, &order, i);
        order.insert(p, i);
        assert(order@.map_values(|x: usize| x as int) =~= before.map_values(|x: usize| x as int).insert(
            p as int,
            i as int,
        ));
        assert forall|j: int| 0 <= j < order.len() implies #[trigger] order@[j] < i + 1 by {
            if j < p {
                assert(order@[j] == before[j]);
            } else if j > p {
                assert(order@[j] == before[j - 1]);
            }
        }
        i = i + 1;
    }
    order
}

/// The words shown for a state (`translated`).
fn translate(ts: &Vec<(String, String)>, key: &str) -> (r: String)
    ensures
        r@ == translated(ts@, key@),
{
    let mut i: usize = 0;
    assert(ts@.skip(0) =~= ts@);
    while i < ts.len()
        invariant
            i <= ts.len(),
            translated(ts@, key@) == translated(ts@.skip(i as int), key@),
        decreases ts.len() - i,
    {
        assert(ts@.skip(i as int)[0] == ts@[i as int]);
        if str_eq(ts[i].0.as_str(), key) {
            return owned(ts[i].1.as_str());
        }
        assert(ts@.skip(i as int).drop_first() =~= ts@.skip(i + 1));
        i = i + 1;
    }
    assert(ts@.skip(i as int).len() == 0);
    owned(key)
}

/// Where `x` goes among the sorted `names`.
fn find_text_point(names: &Vec<String>, x: &str) -> (r: usize)
    ensures
        r == text_insert_point(names@.map_values(|t: String| t@), x@),
        r <= names.len(),
{
    let ghost v = names@.map_values(|t: String| t@);
    let mut p: usize = 0;
    assert(v.skip(0) =~= v);
    while p < names.len()
        invariant
            p <= names.len(),
            v == names@.map_values(|t: String| t@),
            text_insert_point(v, x@) == p + text_insert_point(v.skip(p as int), x@),
        decreases names.len() - p,
    {
        assert(v.skip(p as int)[0] == names@[p as int]@);
        if text_less(x, names[p].as_str()) {
            return p;
        }
        assert(v.skip(p as int).drop_first() =~= v.skip(p + 1));
        p = p + 1;
    }
    assert(v.skip(p as int).len() == 0);
    p
}

/// The names of the tools in sorted order (`sort_texts`).
fn sorted_names(tools: &Vec<String>) -> (r: Vec<String>)
    ensures
        r@.map_values(|t: String| t@) == sort_texts(tools@.map_values(|t: String| t@)),
{
    let ghost all = tools@.map_values(|t: String| t@);
    let mut names: Vec<String> = Vec::new();
    let mut i: usize = 0;
    assert(names@.map_values(|t: String| t@) =~= sort_texts(all.take(0)));
    while i < tools.len()
        invariant
            i <= tools.len(),
            all == tools@.map_values(|t: String| t@),
            names@.map_values(|t: String| t@) == sort_texts(all.take(i as int)),
        decreases tools.len() - i,
    {
        let ghost before = names@;
        let x = tools[i].as_str();
        let p = find_text_point(&names, x);
        names.insert(p, owned(x));
        assert(all.take(i + 1).drop_last() =~= all.take(i as int));
        assert(all.take(i + 1).last() == x@);
        assert(names@.map_values(|t: String| t@) =~= before.map_values(|t: String| t@).insert(
            p as int,
            x@,
        ));
        i = i + 1;
    }
    assert(all.take(i as int) =~= all);
    names
}

/// The line of a list of resources (`resources_line`).
fn resources_line_text(label: &str, rs: &Vec<McpResourceInfo>, none: &str) -> (r: String)
    ensures
        r@ == resources_line(label@, rs@, none@),
{
    let mut s = concat3("    • ", label, ": ");
    if rs.len() == 0 {
        s.append(none);
    } else {
        let mut parts: Vec<String> = Vec::new();
        let mut i: usize = 0;
        while i < rs.len()
            invariant
                i <= rs.len(),
                parts@.map_values(|a: String| a@) == rs@.take(i as int).map_values(
                    |r: McpResourceInfo| resource_text(r),
                ),
            decreases rs.len() - i,
        {
            let r = &rs[i];
            let shown = match &r.title {
                Some(t) => t.as_str(),
                None => r.name.as_str(),
            };
            let mut t = concat3(shown, " (", r.uri.as_str());
            t.append(")");
            let ghost before = parts@;
            parts.push(t);
            assert(rs@.take(i + 1) =~= rs@.take(i as int).push(rs@[i as int]));
            assert(parts@.map_values(|a: String| a@) =~= before.map_values(|a: String| a@).push(
                resource_text(rs@[i as int]),
            ));
            i = i + 1;
        }
        assert(rs@.take(i as int) =~= rs@);
        let joined = join_answers(&parts);
        s.append(joined.as_str());
    }
    s
}

/// The lines of one server (`server_lines`).
fn server_lines_of(
    st: &McpServerStatus,
    detail: McpServerStatusDetail,
    labels: &McpInventoryLabels,
) -> (r: Vec<StyledLine>)
    ensures
        lines_view(r@) == server_lines(*st, detail, *labels),
{
    let count = st.tools.len();
    let mut head = concat3("  • ", st.name.as_str(), ": ");
    let state = translate(
        &labels.translations,
        mcp_connection_status_label(st.runtime_status, st.auth_status),
    );
    head.append(state.as_str());
    head.append(" (");
    push_dec(&mut head, count as u64);
    head.append(" ");
    if count == 1 {
        head.append(labels.tool_unit_one.as_str());
    } else {
        head.append(labels.tool_unit_other.as_str());
    }
    head.append(")");
    let mut lines: Vec<StyledLine> = Vec::new();
    push_line(&mut lines, head, LineStyle::Plain);
    if detail == McpServerStatusDetail::ToolsAndAuthOnly {
        return lines;
    }
    let mut auth = concat3("    • ", labels.auth_label.as_str(), ": ");
    let shown_auth = translate(&labels.translations, mcp_auth_status_label(st.auth_status));
    auth.append(shown_auth.as_str());
    push_line(&mut lines, auth, LineStyle::Plain);
    let names = sorted_names(&st.tools);
    let mut tools = concat3("    • ", labels.tools_label.as_str(), ": ");
    if names.len() == 0 {
        tools.append(labels.none.as_str());
    } else {
        let joined = join_answers(&names);
        tools.append(joined.as_str());
    }
    push_line(&mut lines, tools, LineStyle::Plain);
    let res = resources_line_text(labels.resources_label.as_str(), &st.resources, labels.none.as_str());
    push_line(&mut lines, res, LineStyle::Plain);
    let templates = resources_line_text(
        labels.resource_templates_label.as_str(),
        &st.resource_templates,
        labels.none.as_str(),
    );
    push_line(&mut lines, templates, LineStyle::Plain);
    push_line(&mut lines, String::new(), LineStyle::Plain);
    lines
}

/// The MCP inventory as shown (`inventory_spec`).
pub fn mcp_inventory_lines(
    statuses: &Vec<McpServerStatus>,
    detail: McpServerStatusDetail,
    labels: &McpInventoryLabels,
) -> (r: Vec<StyledLine>)
    ensures
        lines_view(r@) == inventory_spec(statuses@, detail, *labels),
{
    let mut lines: Vec<StyledLine> = Vec::new();
    push_line(&mut lines, owned("/mcp"), LineStyle::Plain);
    push_line(&mut lines, String::new(), LineStyle::Plain);
    push_line(&mut lines, concat2("🔌  ", labels.title.as_str()), LineStyle::Bold);
    push_line(&mut lines, String::new(), LineStyle::Plain);
    if statuses.len() == 0 {
        push_line(&mut lines, owned(labels.no_servers.as_str()), LineStyle::Plain);
        return lines;
    }
    let ghost head = lines_view(lines@);
    let mut all_empty = true;
    let mut i: usize = 0;
    while i < statuses.len()
        invariant
            i <= statuses.len(),
            all_empty == forall|k: int| 0 <= k < i ==> (#[trigger] statuses@[k]).tools@.len() == 0,
        decreases statuses.len() - i,
    {
        if statuses[i].tools.len() != 0 {
            all_empty = false;
        }
        i = i + 1;
    }
    if detail == McpServerStatusDetail::Full && all_empty {
        push_line(&mut lines, owned(labels.no_tools_available.as_str()), LineStyle::Plain);
        push_line(&mut lines, String::new(), LineStyle::Plain);
    }
    let ghost prefix = lines_view(lines@);
    let order = server_order(statuses);
    let ghost o = order@.map_values(|x: usize| x as int);
    let mut j: usize = 0;
    while j < order.len()
        invariant
            j <= order.len(),
            order.len() == statuses.len(),
            o == order@.map_values(|x: usize| x as int),
            forall|q: int| 0 <= q < order.len() ==> #[trigger] order@[q] < statuses.len(),
            lines_view(lines@) == prefix + servers_lines(statuses@, o, detail, *labels, j as int),
        decreases order.len() - j,
    {
        let k = order[j];
        let mut part = server_lines_of(&statuses[k], detail, labels);
        let ghost before = lines@;
        let ghost added = part@;
        lines.append(&mut part);
        assert(o[j as int] == k as int);
        assert(lines_view(lines@) =~= lines_view(before) + lines_view(added));
        assert(prefix + servers_lines(statuses@, o, detail, *labels, j + 1) =~= prefix + servers_lines(
            statuses@,
            o,
            detail,
            *labels,
            j as int,
        ) + server_lines(statuses@[k as int], detail, *labels));
        j = j + 1;
    }
    let ghost body = lines_view(lines@);
    if detail == McpServerStatusDetail::ToolsAndAuthOnly {
        push_line(&mut lines, String::new(), LineStyle::Plain);
        push_line(&mut lines, owned(labels.use_verbose.as_str()), LineStyle::Dim);
    }
    proof {
        let tail: Seq<(Seq<char>, LineStyle)> = if detail == McpServerStatusDetail::ToolsAndAuthOnly {
            seq![(Seq::empty(), LineStyle::Plain), (labels.use_verbose@, LineStyle::Dim)]
        } else {
            Seq::empty()
        };
        assert(lines_view(lines@) =~= body + tail);
    }
    lines
}

} // verus!
