use vstd::prelude::*;

use crate::env::EnvMap;
use crate::system::{System, SystemTweaks, TweakLayer, GPU};

verus! {

/// Feature toggles; `None` leaves a toggle unset.
#[derive(PartialEq, Eq, Structural, Debug)]
pub struct TweakSettings {
    pub gamemode: Option<bool>,
    pub mangohud: Option<bool>,
}

/// A known problem of an application, and how to work around it.
#[derive(Debug)]
pub struct Issue {
    pub description: String,
    pub solution: Option<String>,
}

/// The global tweaks of an application, and its vendor-specific layers.
#[derive(Debug)]
pub struct Tweaks {
    pub tricks: Vec<String>,
    pub env: EnvMap,
    pub args: Vec<String>,
    pub settings: TweakSettings,
    pub system: System,
}

/// One catalog entry.
#[derive(Debug)]
pub struct App {
    pub id: String,
    pub name: String,
    pub tweaks: Tweaks,
    pub issues: Vec<Issue>,
}

impl Clone for TweakSettings {
    fn clone(&self) -> (r: Self)
        ensures
            r == *self,
    {
        Self { gamemode: self.gamemode, mangohud: self.mangohud }
    }
}

/// `over` where it is set, else `base`.
pub open spec fn setting_over(base: Option<bool>, over: Option<bool>) -> Option<bool> {
    match over {
        Some(v) => Some(v),
        None => base,
    }
}

/// The settings of `over` laid on top of those of `base`, toggle by toggle.
pub open spec fn settings_over(base: TweakSettings, over: TweakSettings) -> TweakSettings {
    TweakSettings {
        gamemode: setting_over(base.gamemode, over.gamemode),
        mangohud: setting_over(base.mangohud, over.mangohud),
    }
}

/// The layer `over` laid on top of `base`: its variables win on a shared name,
/// its tricks and arguments come after those of `base`, and its settings
/// replace only the toggles that it sets.
pub open spec fn layer_over(base: TweakLayer, over: TweakLayer) -> TweakLayer {
    TweakLayer {
        tricks: base.tricks + over.tricks,
        env: base.env.union_prefer_right(over.env),
        args: base.args + over.args,
        settings: settings_over(base.settings, over.settings),
    }
}

/// `base` with the vendor layer laid on top, where there is one.
pub open spec fn resolve(base: TweakLayer, over: Option<TweakLayer>) -> TweakLayer {
    match over {
        Some(o) => layer_over(base, o),
        None => base,
    }
}

impl Tweaks {
    /// The global layer.
    pub open spec fn base(&self) -> TweakLayer {
        TweakLayer {
            tricks: self.tricks@,
            env: self.env@,
            args: self.args@,
            settings: self.settings,
        }
    }
}

impl App {
    /// The tweaks that apply to this application on a machine with `gpu`.
    pub open spec fn resolved(&self, gpu: GPU) -> TweakLayer {
        resolve(
            self.tweaks.base(),
            match self.tweaks.system.gpu_driver.layer_for(gpu) {
                Some(t) => Some(t@),
                None => None,
            },
        )
    }

    /// Flattens the application's tweaks into those that apply on a machine
    /// with `gpu`: the global layer, with the layer for `gpu` on top.
    pub fn flatten(&self, gpu: GPU) -> (r: SystemTweaks)
        ensures
            r@ == self.resolved(gpu),
    {
        let mut env = self.tweaks.env.copy();
        let mut tricks = copy_strings(&self.tweaks.tricks);
        let mut args = copy_strings(&self.tweaks.args);
        let mut settings = self.tweaks.settings.clone();

        if let Some(gpu_tweaks) = self.tweaks.system.gpu_driver.get_tweaks_for_gpu(gpu) {
            env.extend(&gpu_tweaks.env);
            append_strings(&mut tricks, &gpu_tweaks.tricks);
            append_strings(&mut args, &gpu_tweaks.args);

            if let Some(gamemode) = gpu_tweaks.settings.gamemode {
                settings.gamemode = Some(gamemode);
            }
            if let Some(mangohud) = gpu_tweaks.settings.mangohud {
                settings.mangohud = Some(mangohud);
            }
        }
        SystemTweaks { tricks, env, args, settings }
    }
}

/// Appends a copy of each string of `src` to `dst`, in order.
fn append_strings(dst: &mut Vec<String>, src: &Vec<String>)
    ensures
        final(dst)@ == old(dst)@ + src@,
{
    let mut i: usize = 0;
    while i < src.len()
        invariant
            i <= src@.len(),
            dst@ == old(dst)@ + src@.take(i as int),
        decreases src@.len() - i,
    {
        dst.push(src[i].clone());
        assert(src@.take(i as int + 1) =~= src@.take(i as int).push(src@[i as int]));
        i = i + 1;
    }
    assert(src@.take(i as int) =~= src@);
}

/// A copy of `src`.
fn copy_strings(src: &Vec<String>) -> (r: Vec<String>)
    ensures
        r@ == src@,
{
    let mut r: Vec<String> = Vec::new();
    append_strings(&mut r, src);
    assert(r@ =~= src@);
    r
}

} // verus!
