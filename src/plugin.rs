use vstd::prelude::*;
use vstd::string::*;

use crate::app_type::AppType;
use crate::document::{assigned, lemma_lookup_assigned, lemma_lookup_removed, lookup, removed, Document, Members};
use crate::provider::Provider;

verus! {

/// The live-file key that marks plugin integration.
pub open spec fn primary_key() -> Seq<char> {
    "primaryApiKey"@
}

/// The JSON text of the value written under that key: the string `any`.
pub open spec fn sentinel() -> Seq<char> {
    "\"any\""@
}

/// The live document after the integration setting is turned on or off.
pub open spec fn settings_toggled(d: Members, enabled: bool) -> Members {
    if enabled {
        assigned(d, primary_key(), sentinel())
    } else {
        removed(d, primary_key())
    }
}

/// Whether a provider switch touches the live document: only for the application that
/// has plugin integration, and only while integration is enabled.
pub open spec fn switch_applies(integration: bool, app: AppType) -> bool {
    integration && app == AppType::Claude
}

/// The live document after switching to a provider, when the switch applies: an official
/// provider clears the key, any other sets it.
pub open spec fn provider_switched(d: Members, official: bool) -> Members {
    settings_toggled(d, !official)
}

/// The process-wide integration setting, kept apart from the unified store.
#[derive(Clone, Copy, Debug, PartialEq, Eq, Structural)]
pub struct IntegrationSettings {
    pub enable_claude_plugin_integration: bool,
}

impl IntegrationSettings {
    pub fn set_enable_claude_plugin_integration(&mut self, enabled: bool)
        ensures
            final(self).enable_claude_plugin_integration == enabled,
    {
        self.enable_claude_plugin_integration = enabled;
    }
}

fn primary_key_of() -> (r: String)
    ensures
        r@ == primary_key(),
{
    String::from_str("primaryApiKey")
}

/// Sets the marker key in the live document when `enabled`, removes it otherwise.
pub fn sync_claude_plugin_on_settings_toggle(enabled: bool, live: &mut Document)
    requires
        old(live).wf(),
    ensures
        final(live).wf(),
        final(live)@ == settings_toggled(old(live)@, enabled),
{
    if enabled {
        live.set(primary_key_of(), String::from_str("\"any\""));
    } else {
        live.remove("primaryApiKey");
    }
}

/// Mirrors a provider switch into the live document of `app`. Returns whether the switch
/// applies (the application with plugin integration, integration enabled); when it does
/// not, `live` is left alone and nothing is to be written.
pub fn sync_claude_plugin_on_provider_switch(
    settings: &IntegrationSettings,
    app: &AppType,
    provider: &Provider,
    live: &mut Document,
) -> (r: bool)
    requires
        old(live).wf(),
    ensures
        final(live).wf(),
        r == switch_applies(settings.enable_claude_plugin_integration, *app),
        r ==> final(live)@ == provider_switched(old(live)@, provider.official()),
        !r ==> final(live)@ == old(live)@,
{
    if !settings.enable_claude_plugin_integration {
        return false;
    }
    match app {
        AppType::Claude => {
            let official = provider.is_official();
            sync_claude_plugin_on_settings_toggle(!official, live);
            true
        },
        _ => false,
    }
}

/// With integration on, switching to a third-party provider leaves the marker set
/// to `any`, switching to an official provider removes it, and turning the setting off
/// removes it whatever the provider; no other key of the live document changes.
pub proof fn lemma_integration_marker(d: Members, official: bool, k: Seq<char>)
    requires
        k != primary_key(),
    ensures
        lookup(provider_switched(d, false), primary_key()) == Some(sentinel()),
        lookup(provider_switched(d, true), primary_key()) is None,
        lookup(settings_toggled(d, false), primary_key()) is None,
        lookup(settings_toggled(d, true), primary_key()) == Some(sentinel()),
        lookup(provider_switched(d, official), k) == lookup(d, k),
        lookup(settings_toggled(d, official), k) == lookup(d, k),
{
    lemma_lookup_assigned(d, primary_key(), sentinel(), primary_key());
    lemma_lookup_removed(d, primary_key(), primary_key());
    lemma_lookup_assigned(d, primary_key(), sentinel(), k);
    lemma_lookup_removed(d, primary_key(), k);
}

} // verus!
