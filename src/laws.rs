//! Properties of tweak resolution, proved over the model that
//! `App::flatten` is specified by.
use vstd::prelude::*;

use crate::app::{settings_over, App, TweakSettings};
use crate::system::{TweakLayer, GPU};

verus! {

/// Resolution is a function of its inputs: two flattenings of one application
/// for one vendor agree.
pub proof fn resolve_deterministic(app: App, gpu: GPU, first: TweakLayer, second: TweakLayer)
    requires
        first == app.resolved(gpu),
        second == app.resolved(gpu),
    ensures
        first == second,
{
}

/// On an unknown vendor only the global layer applies, exactly as the
/// application holds it.
pub proof fn unknown_vendor_is_base(app: App)
    ensures
        app.resolved(GPU::UNKNOWN) == app.tweaks.base(),
{
}

/// Without a layer for a vendor, resolving for it gives what resolving for an
/// unknown vendor gives.
pub proof fn absent_layer_is_base(app: App, gpu: GPU)
    requires
        app.tweaks.system.gpu_driver.layer_for(gpu) is None,
    ensures
        app.resolved(gpu) == app.resolved(GPU::UNKNOWN),
{
}

/// With a vendor layer, a variable that the layer sets takes the layer's value,
/// and every other variable keeps its global value.
pub proof fn layer_env_wins(app: App, gpu: GPU)
    requires
        app.tweaks.system.gpu_driver.layer_for(gpu) is Some,
    ensures
        ({
            let over = app.tweaks.system.gpu_driver.layer_for(gpu)->Some_0@.env;
            let base = app.tweaks.env@;
            let env = app.resolved(gpu).env;
            &&& env.dom() == base.dom().union(over.dom())
            &&& forall|k: Seq<char>| #[trigger]
                over.contains_key(k) ==> env[k] == over[k]
            &&& forall|k: Seq<char>|
                #[trigger] base.contains_key(k) && !over.contains_key(k) ==> env[k] == base[k]
        }),
{
    let over = app.tweaks.system.gpu_driver.layer_for(gpu)->Some_0@.env;
    let base = app.tweaks.env@;
    assert(app.resolved(gpu).env.dom() =~= base.dom().union(over.dom()));
}

/// With a vendor layer, the tricks and arguments are the global ones followed
/// by the layer's, in order and with repeats kept.
pub proof fn layer_lists_concatenate(app: App, gpu: GPU)
    requires
        app.tweaks.system.gpu_driver.layer_for(gpu) is Some,
    ensures
        ({
            let over = app.tweaks.system.gpu_driver.layer_for(gpu)->Some_0@;
            let r = app.resolved(gpu);
            &&& r.tricks == app.tweaks.tricks@ + over.tricks
            &&& r.args == app.tweaks.args@ + over.args
            &&& r.tricks.len() == app.tweaks.tricks@.len() + over.tricks.len()
        }),
{
}

/// A toggle that the vendor layer sets replaces the global one; a toggle that
/// it leaves unset keeps the global value, unset included.
pub proof fn layer_settings_override(base: TweakSettings, over: TweakSettings)
    ensures
        over.gamemode is Some ==> settings_over(base, over).gamemode == over.gamemode,
        over.gamemode is None ==> settings_over(base, over).gamemode == base.gamemode,
        over.mangohud is Some ==> settings_over(base, over).mangohud == over.mangohud,
        over.mangohud is None ==> settings_over(base, over).mangohud == base.mangohud,
{
}

/// The settings that flattening gives are the global ones with the vendor
/// layer's set toggles on top.
pub proof fn resolved_settings(app: App, gpu: GPU)
    ensures
        app.resolved(gpu).settings == match app.tweaks.system.gpu_driver.layer_for(gpu) {
            Some(t) => settings_over(app.tweaks.settings, t.settings),
            None => app.tweaks.settings,
        },
{
}

} // verus!
