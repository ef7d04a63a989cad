use vstd::prelude::*;
use vstd::string::*;

use crate::app_type::AppType;
use crate::document::{
    assigned, compact_text, lemma_assigned_twice, lemma_lookup_assigned, lookup, Document, Members,
};
use crate::error::AppError;
use crate::json::{json_object_members, pairs_view};
use crate::mcp::{
    deleted, distinct_ids, enabled_members, has_server, imported, imported_model,
    lemma_imported_contains, lemma_imported_count, lemma_imported_distinct, lemma_imported_present, new_ids,
    lemma_servers_view_push, server_index, servers_view, with_flag, McpApps, McpServer,
    ServerModel,
};

verus! {

/// The live-file key that holds an application's MCP servers.
pub open spec fn mcp_key(app: AppType) -> Seq<char> {
    match app {
        AppType::Codex => "mcp_servers"@,
        _ => "mcpServers"@,
    }
}

/// The text of the MCP section that a sync writes for `app`.
pub open spec fn section_text(s: Seq<ServerModel>, app: AppType) -> Seq<char> {
    compact_text(enabled_members(s, app))
}

/// A live document after the MCP section of `app` is synced from the servers `s`: the
/// section is replaced whole, every other member stays.
pub open spec fn synced(d: Members, s: Seq<ServerModel>, app: AppType) -> Members {
    assigned(d, mcp_key(app), section_text(s, app))
}

/// The members of the MCP section of `app` in the live document `d`: none when the key
/// is absent, `None` when its value is not a JSON object.
pub open spec fn section_members(d: Members, app: AppType) -> Option<Members> {
    match lookup(d, mcp_key(app)) {
        None => Some(Seq::empty()),
        Some(t) => json_object_members(t),
    }
}

pub fn mcp_key_of(app: AppType) -> (r: String)
    ensures
        r@ == mcp_key(app),
{
    match app {
        AppType::Codex => String::from_str("mcp_servers"),
        _ => String::from_str("mcpServers"),
    }
}

/// The MCP servers of the unified store.
pub struct McpRegistry {
    pub servers: Vec<McpServer>,
}

impl View for McpRegistry {
    type V = Seq<ServerModel>;

    open spec fn view(&self) -> Seq<ServerModel> {
        servers_view(self.servers@)
    }
}

/// The three live documents, one per application.
pub struct LiveFiles {
    pub claude: Document,
    pub codex: Document,
    pub gemini: Document,
}

impl LiveFiles {
    pub open spec fn doc(&self, app: AppType) -> Document {
        match app {
            AppType::Claude => self.claude,
            AppType::Codex => self.codex,
            AppType::Gemini => self.gemini,
        }
    }

    pub open spec fn wf(&self) -> bool {
        self.claude.wf() && self.codex.wf() && self.gemini.wf()
    }
}

impl McpRegistry {
    /// Server ids are unique.
    pub open spec fn wf(&self) -> bool {
        distinct_ids(self@)
    }

    pub fn new() -> (r: McpRegistry)
        ensures
            r@ == Seq::<ServerModel>::empty(),
            r.wf(),
    {
        let r = McpRegistry { servers: Vec::new() };
        assert(r@ =~= Seq::<ServerModel>::empty());
        r
    }

    /// The index of the server `id`.
    pub fn position(&self, id: &str) -> (r: Option<usize>)
        requires
            self.wf(),
        ensures
            r is None <==> !has_server(self@, id@),
            r matches Some(i) ==> i < self@.len() && self@[i as int].id == id@ && i
                == server_index(self@, id@),
    {
        let wanted = String::from_str(id);
        let n = self.servers.len();
        let mut i: usize = 0;
        while i < n
            invariant
                n == self.servers.len(),
                0 <= i <= n,
                wanted@ == id@,
                self.wf(),
                forall|j: int| 0 <= j < i ==> self@[j].id != id@,
            decreases n - i,
        {
            if self.servers[i].id == wanted {
                assert(self@[i as int].id == id@);
                assert(has_server(self@, id@));
                let ghost j = server_index(self@, id@);
                assert(i == j) by {
                    if i < j {
                        assert(self@[i as int].id != self@[j].id);
                    } else if j < i {
                        assert(self@[j].id != self@[i as int].id);
                    }
                }
                return Some(i);
            }
            i += 1;
        }
        None
    }

    /// Whether the server `id` exists.
    pub fn contains(&self, id: &str) -> (r: bool)
        requires
            self.wf(),
        ensures
            r == has_server(self@, id@),
    {
        self.position(id).is_some()
    }

    /// The (id, launch specification) members of the servers enabled for `app`.
    pub fn enabled_for(&self, app: AppType) -> (r: Document)
        ensures
            r@ == enabled_members(self@, app),
    {
        let n = self.servers.len();
        let mut out: Vec<(String, String)> = Vec::new();
        let mut i: usize = 0;
        while i < n
            invariant
                n == self.servers.len(),
                0 <= i <= n,
                pairs_view(out@) == enabled_members(self@.subrange(0, i as int), app),
            decreases n - i,
        {
            proof {
                assert(self@.subrange(0, i + 1).drop_last() =~= self@.subrange(0, i as int));
            }
            if self.servers[i].apps.is_enabled(app) {
                let item = (self.servers[i].id.clone(), self.servers[i].spec.clone());
                proof {
                    crate::document::lemma_pairs_view_push(out@, item);
                }
                out.push(item);
            }
            i += 1;
        }
        assert(self@.subrange(0, n as int) =~= self@);
        Document { entries: out }
    }

    /// The text of the MCP section of `app`: an object from server id to launch
    /// specification, over the servers enabled for `app`.
    pub fn section_for(&self, app: AppType) -> (r: String)
        ensures
            r@ == section_text(self@, app),
    {
        self.enabled_for(app).render_compact()
    }

    /// Replaces the MCP section of `app` in `live` by the projection of this registry.
    pub fn sync_app(&self, app: AppType, live: &mut Document)
        requires
            old(live).wf(),
        ensures
            final(live).wf(),
            final(live)@ == synced(old(live)@, self@, app),
    {
        let section = self.section_for(app);
        live.set(mcp_key_of(app), section);
    }

    /// Syncs the MCP section of every application.
    pub fn sync_all_enabled(&self, live: &mut LiveFiles)
        requires
            old(live).wf(),
        ensures
            final(live).wf(),
            forall|a: AppType| #[trigger] final(live).doc(a)@ == synced(old(live).doc(a)@, self@, a),
    {
        self.sync_app(AppType::Claude, &mut live.claude);
        self.sync_app(AppType::Codex, &mut live.codex);
        self.sync_app(AppType::Gemini, &mut live.gemini);
    }

    /// Sets the flag of `app` on the server `id` to `enabled`, then syncs the MCP section of
    /// `app` in `live`. An unknown id is an error and changes nothing.
    pub fn toggle_app(&mut self, id: &str, app: AppType, enabled: bool, live: &mut Document) -> (r:
        Result<(), AppError>)
        requires
            old(self).wf(),
            old(live).wf(),
        ensures
            final(self).wf(),
            final(live).wf(),
            r is Ok <==> has_server(old(self)@, id@),
            r matches Err(e) ==> e is NotFound && final(self)@ == old(self)@ && final(live)@ == old(
                live,
            )@,
            r is Ok ==> final(self)@ == with_flag(old(self)@, id@, app, enabled) && final(live)@
                == synced(old(live)@, final(self)@, app),
    {
        match self.position(id) {
            None => Err(AppError::NotFound(String::from_str(id))),
            Some(i) => {
                let ghost before = self@;
                self.servers[i].apps.set(app, enabled);
                proof {
                    assert(self@ =~= with_flag(before, id@, app, enabled));
                }
                self.sync_app(app, live);
                Ok(())
            },
        }
    }

    /// Removes the server `id` and returns whether it existed; the applications it was
    /// enabled for are synced, so it leaves their live files too.
    pub fn delete_server(&mut self, id: &str, live: &mut LiveFiles) -> (r: bool)
        requires
            old(self).wf(),
            old(live).wf(),
        ensures
            final(self).wf(),
            final(live).wf(),
            r == has_server(old(self)@, id@),
            final(self)@ == deleted(old(self)@, id@),
            forall|a: AppType| #[trigger]
                final(live).doc(a)@ == if r && old(self)@[server_index(old(self)@, id@)].apps.enabled_for(
                    a,
                ) {
                    synced(old(live).doc(a)@, final(self)@, a)
                } else {
                    old(live).doc(a)@
                },
    {
        match self.position(id) {
            None => false,
            Some(i) => {
                let apps = self.servers[i].apps;
                let ghost before = self@;
                self.servers.remove(i);
                proof {
                    assert(self@ =~= before.remove(i as int));
                }
                if apps.claude {
                    self.sync_app(AppType::Claude, &mut live.claude);
                }
                if apps.codex {
                    self.sync_app(AppType::Codex, &mut live.codex);
                }
                if apps.gemini {
                    self.sync_app(AppType::Gemini, &mut live.gemini);
                }
                true
            },
        }
    }

    /// Imports the MCP section of `app`'s live document: each server id not yet present
    /// is added, enabled for `app` alone; ids already present are skipped. Returns the
    /// number of servers added. A section that is not a JSON object is a parse error and
    /// changes nothing; a missing section imports nothing.
    pub fn import_from(&mut self, app: AppType, live: &Document) -> (r: Result<usize, AppError>)
        requires
            old(self).wf(),
            live.wf(),
        ensures
            final(self).wf(),
            r is Ok <==> section_members(live@, app) is Some,
            r matches Err(e) ==> e is Parse && final(self)@ == old(self)@,
            r matches Ok(n) ==> final(self)@ == imported(
                old(self)@,
                section_members(live@, app)->Some_0,
                app,
            ) && n == final(self)@.len() - old(self)@.len(),
            r matches Ok(n) ==> n == new_ids(old(self)@, section_members(live@, app)->Some_0).len(),
    {
        let key = mcp_key_of(app);
        let section = match live.get(key.as_str()) {
            None => Document::new(),
            Some(t) => match Document::parse(t.as_str()) {
                Ok(d) => d,
                Err(e) => {
                    return Err(e);
                },
            },
        };
        let ghost m = section@;
        assert(section_members(live@, app) == Some(m));
        let ghost start = self@;
        let before = self.servers.len();
        let n = section.entries.len();
        let mut i: usize = 0;
        while i < n
            invariant
                n == section.entries.len(),
                m == section@,
                0 <= i <= n,
                self.wf(),
                self@ == imported(start, m.subrange(0, i as int), app),
                start.len() == before,
                start.len() <= self@.len(),
            decreases n - i,
        {
            proof {
                assert(m.subrange(0, i + 1).drop_last() =~= m.subrange(0, i as int));
                assert(m.subrange(0, i + 1).last() == m[i as int]);
            }
            if !self.contains(section.entries[i].0.as_str()) {
                let server = McpServer {
                    id: section.entries[i].0.clone(),
                    name: section.entries[i].0.clone(),
                    spec: section.entries[i].1.clone(),
                    apps: McpApps::only(app),
                    tags: Vec::new(),
                };
                proof {
                    let a = server.apps;
                    assert(a.enabled_for(AppType::Claude) == (app == AppType::Claude));
                    assert(a.enabled_for(AppType::Codex) == (app == AppType::Codex));
                    assert(a.enabled_for(AppType::Gemini) == (app == AppType::Gemini));
                    assert(server@.tags =~= Seq::<Seq<char>>::empty());
                    assert(server@ == imported_model(m[i as int].0, m[i as int].1, app));
                    lemma_servers_view_push(self.servers@, server);
                }
                self.servers.push(server);
            }
            i += 1;
        }
        assert(m.subrange(0, n as int) =~= m);
        proof {
            lemma_imported_count(start, m, app);
        }
        Ok(self.servers.len() - before)
    }
}

/// A second full sync with nothing changed in between leaves every live document, and so
/// the text written for it, as the first sync left it. Members keep their place (a new
/// key goes last), and parsing keeps a file's member order, so reading back what the
/// first sync wrote gives the document it wrote.
pub proof fn lemma_sync_idempotent(d: Members, s: Seq<ServerModel>, app: AppType)
    ensures
        synced(synced(d, s, app), s, app) == synced(d, s, app),
        crate::document::pretty_text(synced(synced(d, s, app), s, app))
            == crate::document::pretty_text(synced(d, s, app)),
{
    lemma_assigned_twice(d, mcp_key(app), section_text(s, app));
}

/// A sync of the MCP section (alone, as part of a full sync, after a toggle or after a
/// delete) leaves the value under every other key of the live document as it was.
pub proof fn lemma_sync_keeps_unrelated(d: Members, s: Seq<ServerModel>, app: AppType, k: Seq<char>)
    requires
        k != mcp_key(app),
    ensures
        lookup(synced(d, s, app), k) == lookup(d, k),
{
    lemma_lookup_assigned(d, mcp_key(app), section_text(s, app), k);
}

/// Enabling a server for an application and then disabling it again gives back the
/// servers as they were, and the live MCP section of that application as a sync of those
/// servers had left it.
pub proof fn lemma_toggle_round_trip(s: Seq<ServerModel>, id: Seq<char>, app: AppType, d: Members)
    requires
        forall|i: int| 0 <= i < s.len() && s[i].id == id ==> !s[i].apps.enabled_for(app),
        lookup(d, mcp_key(app)) == Some(section_text(s, app)),
    ensures
        with_flag(with_flag(s, id, app, true), id, app, false) == s,
        lookup(
            synced(
                synced(d, with_flag(s, id, app, true), app),
                with_flag(with_flag(s, id, app, true), id, app, false),
                app,
            ),
            mcp_key(app),
        ) == lookup(d, mcp_key(app)),
{
    let back = with_flag(with_flag(s, id, app, true), id, app, false);
    assert forall|i: int| 0 <= i < s.len() implies back[i] == s[i] by {
        if s[i].id == id {
            assert(s[i].apps.with(app, true).with(app, false) == s[i].apps);
        }
    }
    assert(back =~= s);
    let once = synced(d, with_flag(s, id, app, true), app);
    lemma_lookup_assigned(once, mcp_key(app), section_text(s, app), mcp_key(app));
}

/// Importing the same members twice adds nothing the second time (its count of new ids
/// is zero), and no server id is ever added twice.
pub proof fn lemma_import_idempotent(s: Seq<ServerModel>, m: Members, app: AppType)
    requires
        distinct_ids(s),
    ensures
        imported(imported(s, m, app), m, app) == imported(s, m, app),
        new_ids(imported(s, m, app), m).len() == 0,
        distinct_ids(imported(s, m, app)),
{
    lemma_imported_contains(s, m, app);
    lemma_imported_present(imported(s, m, app), m, app);
    lemma_imported_distinct(s, m, app);
    lemma_imported_count(imported(s, m, app), m, app);
}

} // verus!
