use vstd::prelude::*;
use crate::builder::ConfigurationBuilder;
use crate::configuration::Configuration;
use crate::key_material::{KeyError, KeyEvent, key_outcome, resolve_key_material};
use crate::layers::{ConfigLayer, DraftView, default_draft};
use crate::overrides::ConfigOverrider;

verus! {

/// The final draft: defaults, then the file's layer, then the environment's
/// layer, then the command-line overrides.
pub open spec fn final_draft<C: ConfigOverrider>(file: ConfigLayer, env: ConfigLayer, overrides: C) -> DraftView {
    overrides.overridden(env.applied_to(file.applied_to(default_draft())))
}

/// Resolves every settings layer, in ascending precedence, into the final
/// draft.
pub fn resolve_draft<C: ConfigOverrider>(file: &ConfigLayer, env: &ConfigLayer, overrides: &C) -> (r: ConfigurationBuilder)
    ensures
        r@ == final_draft(*file, *env, *overrides),
{
    let mut draft = ConfigurationBuilder::from_layers(file, env);
    overrides.override_config(&mut draft);
    draft
}

/// Finishes the configuration: resolves the key material once, from the
/// final draft's key file, and attaches it.
pub fn assemble(draft: ConfigurationBuilder, event: KeyEvent) -> (r: Result<Configuration, KeyError>)
    ensures
        match (r, key_outcome(draft.key_file@, event)) {
            (Ok(c), Ok((p, b))) => {
                &&& c.settings() == draft@
                &&& c.server_setup.source() == p
                &&& p == c.key_file@
                &&& c.server_setup.material() == b
            },
            (Err(e), Err((p, a))) => e.path@ == p && e.access == a,
            _ => false,
        },
{
    match resolve_key_material(&draft.key_file, event) {
        Ok(setup) => Ok(draft.build(setup)),
        Err(e) => Err(e),
    }
}

} // verus!
