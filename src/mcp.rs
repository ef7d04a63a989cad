use vstd::prelude::*;

use crate::app_type::AppType;
use crate::document::Members;

verus! {

/// For each application, whether a server is enabled there.
#[derive(Clone, Copy, Debug, PartialEq, Eq, Structural)]
pub struct McpApps {
    pub claude: bool,
    pub codex: bool,
    pub gemini: bool,
}

impl McpApps {
    pub open spec fn enabled_for(self, app: AppType) -> bool {
        match app {
            AppType::Claude => self.claude,
            AppType::Codex => self.codex,
            AppType::Gemini => self.gemini,
        }
    }

    pub open spec fn with(self, app: AppType, on: bool) -> McpApps {
        match app {
            AppType::Claude => McpApps { claude: on, ..self },
            AppType::Codex => McpApps { codex: on, ..self },
            AppType::Gemini => McpApps { gemini: on, ..self },
        }
    }

    /// Enabled for `app` alone.
    pub fn only(app: AppType) -> (r: McpApps)
        ensures
            forall|a: AppType| r.enabled_for(a) == (a == app),
    {
        match app {
            AppType::Claude => McpApps { claude: true, codex: false, gemini: false },
            AppType::Codex => McpApps { claude: false, codex: true, gemini: false },
            AppType::Gemini => McpApps { claude: false, codex: false, gemini: true },
        }
    }

    pub fn is_enabled(&self, app: AppType) -> (r: bool)
        ensures
            r == self.enabled_for(app),
    {
        match app {
            AppType::Claude => self.claude,
            AppType::Codex => self.codex,
            AppType::Gemini => self.gemini,
        }
    }

    pub fn set(&mut self, app: AppType, on: bool)
        ensures
            *final(self) == old(self).with(app, on),
    {
        match app {
            AppType::Claude => self.claude = on,
            AppType::Codex => self.codex = on,
            AppType::Gemini => self.gemini = on,
        }
    }
}

/// What a server is, as values.
pub struct ServerModel {
    pub id: Seq<char>,
    pub name: Seq<char>,
    pub spec: Seq<char>,
    pub apps: McpApps,
    pub tags: Seq<Seq<char>>,
}

/// One MCP server of the unified store.
pub struct McpServer {
    pub id: String,
    pub name: String,
    /// The launch specification (command, arguments, environment) as JSON text,
    /// written verbatim into live files.
    pub spec: String,
    pub apps: McpApps,
    pub tags: Vec<String>,
}

impl View for McpServer {
    type V = ServerModel;

    open spec fn view(&self) -> ServerModel {
        ServerModel {
            id: self.id@,
            name: self.name@,
            spec: self.spec@,
            apps: self.apps,
            tags: self.tags@.map_values(|t: String| t@),
        }
    }
}

pub open spec fn servers_view(v: Seq<McpServer>) -> Seq<ServerModel> {
    v.map_values(|s: McpServer| s@)
}

pub open spec fn distinct_ids(s: Seq<ServerModel>) -> bool {
    forall|i: int, j: int| 0 <= i < j < s.len() ==> s[i].id != s[j].id
}

pub open spec fn has_server(s: Seq<ServerModel>, id: Seq<char>) -> bool {
    exists|i: int| 0 <= i < s.len() && s[i].id == id
}

pub open spec fn server_index(s: Seq<ServerModel>, id: Seq<char>) -> int {
    choose|i: int| 0 <= i < s.len() && s[i].id == id
}

/// The servers with the flag of `app` set to `on` for the server `id`.
pub open spec fn with_flag(s: Seq<ServerModel>, id: Seq<char>, app: AppType, on: bool) -> Seq<
    ServerModel,
> {
    s.map_values(
        |m: ServerModel|
            if m.id == id {
                ServerModel { apps: m.apps.with(app, on), ..m }
            } else {
                m
            },
    )
}

/// The servers without `id`.
pub open spec fn deleted(s: Seq<ServerModel>, id: Seq<char>) -> Seq<ServerModel> {
    if has_server(s, id) {
        s.remove(server_index(s, id))
    } else {
        s
    }
}

/// The server that an import creates: named after its id, enabled for `app` alone.
pub open spec fn imported_model(id: Seq<char>, spec: Seq<char>, app: AppType) -> ServerModel {
    ServerModel {
        id,
        name: id,
        spec,
        apps: McpApps {
            claude: app == AppType::Claude,
            codex: app == AppType::Codex,
            gemini: app == AppType::Gemini,
        },
        tags: Seq::empty(),
    }
}

/// The servers after importing the members `m` of a live MCP section of `app`: each id
/// not yet present is appended; an id already present is skipped.
pub open spec fn imported(s: Seq<ServerModel>, m: Members, app: AppType) -> Seq<ServerModel>
    decreases m.len(),
{
    if m.len() == 0 {
        s
    } else {
        let t = imported(s, m.drop_last(), app);
        if has_server(t, m.last().0) {
            t
        } else {
            t.push(imported_model(m.last().0, m.last().1, app))
        }
    }
}

/// The (id, launch specification) members of the servers enabled for `app`, in order.
pub open spec fn enabled_members(s: Seq<ServerModel>, app: AppType) -> Members
    decreases s.len(),
{
    if s.len() == 0 {
        Seq::empty()
    } else {
        let r = enabled_members(s.drop_last(), app);
        if s.last().apps.enabled_for(app) {
            r.push((s.last().id, s.last().spec))
        } else {
            r
        }
    }
}

pub proof fn lemma_servers_view_push(v: Seq<McpServer>, x: McpServer)
    ensures
        servers_view(v.push(x)) == servers_view(v).push(x@),
{
    assert(servers_view(v.push(x)) =~= servers_view(v).push(x@));
}

pub proof fn lemma_imported_contains(s: Seq<ServerModel>, m: Members, app: AppType)
    ensures
        forall|j: int| 0 <= j < m.len() ==> has_server(imported(s, m, app), #[trigger] m[j].0),
        forall|id: Seq<char>| has_server(s, id) ==> has_server(imported(s, m, app), id),
    decreases m.len(),
{
    if m.len() > 0 {
        let d = m.drop_last();
        lemma_imported_contains(s, d, app);
        let t = imported(s, d, app);
        let r = imported(s, m, app);
        assert forall|id: Seq<char>| has_server(t, id) implies has_server(r, id) by {
            let i = choose|i: int| 0 <= i < t.len() && t[i].id == id;
            assert(r[i] == t[i]);
        }
        assert forall|j: int| 0 <= j < m.len() implies has_server(r, #[trigger] m[j].0) by {
            if j < m.len() - 1 {
                assert(d[j] == m[j]);
            } else if !has_server(t, m.last().0) {
                assert(r[t.len() as int].id == m.last().0);
            }
        }
    }
}

pub proof fn lemma_imported_present(s: Seq<ServerModel>, m: Members, app: AppType)
    requires
        forall|j: int| 0 <= j < m.len() ==> has_server(s, #[trigger] m[j].0),
    ensures
        imported(s, m, app) == s,
    decreases m.len(),
{
    if m.len() > 0 {
        let d = m.drop_last();
        assert forall|j: int| 0 <= j < d.len() implies has_server(s, #[trigger] d[j].0) by {
            assert(d[j] == m[j]);
        }
        lemma_imported_present(s, d, app);
        assert(has_server(s, m[m.len() - 1].0));
    }
}

pub proof fn lemma_imported_distinct(s: Seq<ServerModel>, m: Members, app: AppType)
    requires
        distinct_ids(s),
    ensures
        distinct_ids(imported(s, m, app)),
        imported(s, m, app).len() >= s.len(),
        imported(s, m, app).subrange(0, s.len() as int) == s,
    decreases m.len(),
{
    if m.len() > 0 {
        let d = m.drop_last();
        lemma_imported_distinct(s, d, app);
        let t = imported(s, d, app);
        if !has_server(t, m.last().0) {
            let r = t.push(imported_model(m.last().0, m.last().1, app));
            assert(r.subrange(0, s.len() as int) =~= t.subrange(0, s.len() as int));
        }
    }
}

/// The ids among the members `m` that no server of `s` has.
pub open spec fn new_ids(s: Seq<ServerModel>, m: Members) -> Set<Seq<char>>
    decreases m.len(),
{
    if m.len() == 0 {
        Set::empty()
    } else {
        let r = new_ids(s, m.drop_last());
        if has_server(s, m.last().0) {
            r
        } else {
            r.insert(m.last().0)
        }
    }
}

/// After an import a server has an id iff it had it before or the members name it.
pub proof fn lemma_imported_has(s: Seq<ServerModel>, m: Members, app: AppType, id: Seq<char>)
    ensures
        has_server(imported(s, m, app), id) <==> (has_server(s, id) || exists|j: int|
            0 <= j < m.len() && m[j].0 == id),
    decreases m.len(),
{
    if m.len() > 0 {
        let d = m.drop_last();
        lemma_imported_has(s, d, app, id);
        let t = imported(s, d, app);
        let r = imported(s, m, app);
        if has_server(t, id) {
            let i = choose|i: int| 0 <= i < t.len() && t[i].id == id;
            assert(r[i] == t[i]);
        }
        if has_server(r, id) && !has_server(t, id) {
            assert(m[m.len() - 1].0 == id);
        }
        if exists|j: int| 0 <= j < d.len() && d[j].0 == id {
            let j = choose|j: int| 0 <= j < d.len() && d[j].0 == id;
            assert(m[j].0 == id);
        }
        if exists|j: int| 0 <= j < m.len() && m[j].0 == id {
            let j = choose|j: int| 0 <= j < m.len() && m[j].0 == id;
            if j < m.len() - 1 {
                assert(d[j].0 == id);
            } else if !has_server(t, id) {
                assert(r[t.len() as int].id == id);
            }
        }
    }
}

/// The new ids are those that the members name and no server of `s` has.
pub proof fn lemma_new_ids_members(s: Seq<ServerModel>, m: Members, id: Seq<char>)
    ensures
        new_ids(s, m).finite(),
        new_ids(s, m).contains(id) <==> (!has_server(s, id) && exists|j: int|
            0 <= j < m.len() && m[j].0 == id),
    decreases m.len(),
{
    if m.len() > 0 {
        let d = m.drop_last();
        lemma_new_ids_members(s, d, id);
        if exists|j: int| 0 <= j < d.len() && d[j].0 == id {
            let j = choose|j: int| 0 <= j < d.len() && d[j].0 == id;
            assert(m[j].0 == id);
        }
        if exists|j: int| 0 <= j < m.len() && m[j].0 == id {
            let j = choose|j: int| 0 <= j < m.len() && m[j].0 == id;
            if j < m.len() - 1 {
                assert(d[j].0 == id);
            }
        }
    }
}

/// An import adds exactly one server per id that the members name and the servers lack.
pub proof fn lemma_imported_count(s: Seq<ServerModel>, m: Members, app: AppType)
    ensures
        new_ids(s, m).finite(),
        imported(s, m, app).len() == s.len() + new_ids(s, m).len(),
    decreases m.len(),
{
    lemma_new_ids_members(s, m, Seq::empty());
    if m.len() > 0 {
        let d = m.drop_last();
        let k = m.last().0;
        lemma_imported_count(s, d, app);
        lemma_imported_has(s, d, app, k);
        lemma_new_ids_members(s, d, k);
        let r = new_ids(s, d);
        if !has_server(s, k) {
            if exists|j: int| 0 <= j < d.len() && d[j].0 == k {
                assert(r.insert(k) =~= r);
            }
        }
    }
}

} // verus!
