use vstd::prelude::*;

use crate::app_type::AppType;
use crate::document::Document;
use crate::error::AppError;
use crate::plugin::{
    provider_switched, switch_applies, sync_claude_plugin_on_provider_switch, IntegrationSettings,
};
use crate::provider::{has_provider, AppConfig};
use crate::sync::McpRegistry;

verus! {

/// The unified store: the providers of each application and the shared MCP servers.
pub struct UnifiedConfig {
    pub claude: AppConfig,
    pub codex: AppConfig,
    pub gemini: AppConfig,
    pub mcp: McpRegistry,
}

impl UnifiedConfig {
    pub open spec fn app_spec(&self, app: AppType) -> AppConfig {
        match app {
            AppType::Claude => self.claude,
            AppType::Codex => self.codex,
            AppType::Gemini => self.gemini,
        }
    }

    /// Server ids are unique; in each application provider ids are unique and the current
    /// provider exists.
    pub open spec fn wf(&self) -> bool {
        &&& self.mcp.wf()
        &&& self.claude.wf()
        &&& self.codex.wf()
        &&& self.gemini.wf()
    }

    /// The store a missing file stands for: no providers, no servers.
    pub fn empty() -> (r: UnifiedConfig)
        ensures
            r.wf(),
            r.mcp@.len() == 0,
            forall|a: AppType|
                #[trigger] r.app_spec(a).providers@.len() == 0 && r.app_spec(a).current_provider_id is None,
    {
        UnifiedConfig {
            claude: AppConfig { providers: Vec::new(), current_provider_id: None },
            codex: AppConfig { providers: Vec::new(), current_provider_id: None },
            gemini: AppConfig { providers: Vec::new(), current_provider_id: None },
            mcp: McpRegistry::new(),
        }
    }

    pub fn app(&self, app: AppType) -> (r: &AppConfig)
        ensures
            *r == self.app_spec(app),
    {
        match app {
            AppType::Claude => &self.claude,
            AppType::Codex => &self.codex,
            AppType::Gemini => &self.gemini,
        }
    }

    /// Makes `id` the current provider of `app`, then mirrors the switch into the live
    /// document that carries the integration marker. Returns whether that document changed
    /// hands (the switch applies); an unknown id is an error and changes nothing.
    pub fn switch_provider(
        &mut self,
        app: AppType,
        id: &str,
        settings: &IntegrationSettings,
        live: &mut Document,
    ) -> (r: Result<bool, AppError>)
        requires
            old(live).wf(),
        ensures
            final(live).wf(),
            old(self).wf() ==> final(self).wf(),
            r is Ok <==> has_provider(old(self).app_spec(app).providers@, id@),
            r matches Err(e) ==> e is NotFound && final(live)@ == old(live)@
                && final(self).app_spec(app).current_provider_id == old(self).app_spec(
                app,
            ).current_provider_id,
            forall|a: AppType| #[trigger]
                final(self).app_spec(a).providers@ == old(self).app_spec(a).providers@,
            forall|a: AppType|
                a != app ==> #[trigger] final(self).app_spec(a).current_provider_id == old(
                    self,
                ).app_spec(a).current_provider_id,
            r is Ok ==> (final(self).app_spec(app).current_provider_id matches Some(c) && c@
                == id@),
            r matches Ok(w) ==> w == switch_applies(settings.enable_claude_plugin_integration, app),
            r matches Ok(w) ==> exists|i: int|
                0 <= i < old(self).app_spec(app).providers@.len() && old(self).app_spec(
                    app,
                ).providers@[i].id@ == id@ && final(live)@ == if w {
                    provider_switched(old(live)@, old(self).app_spec(app).providers@[i].official())
                } else {
                    old(live)@
                },
    {
        let switched = match app {
            AppType::Claude => self.claude.switch_to(id),
            AppType::Codex => self.codex.switch_to(id),
            AppType::Gemini => self.gemini.switch_to(id),
        };
        match switched {
            Err(e) => Err(e),
            Ok(i) => {
                let provider = &self.app(app).providers[i];
                Ok(sync_claude_plugin_on_provider_switch(settings, &app, provider, live))
            },
        }
    }
}

} // verus!
