use vstd::prelude::*;

use crate::app::TweakSettings;
use crate::env::EnvMap;

verus! {

/// The vendor-specific layers of an application's tweaks.
#[derive(Debug)]
pub struct System {
    pub gpu_driver: GpuDriver,
}

/// One optional layer of tweaks for each supported graphics vendor.
#[derive(Debug)]
pub struct GpuDriver {
    pub amd: Option<SystemTweaks>,
    pub nvidia: Option<SystemTweaks>,
}

/// One layer of tweaks: tricks, environment, arguments and settings.
#[derive(PartialEq, Debug)]
pub struct SystemTweaks {
    pub tricks: Vec<String>,
    pub env: EnvMap,
    pub args: Vec<String>,
    pub settings: TweakSettings,
}

/// What a layer of tweaks holds, as values.
pub struct TweakLayer {
    pub tricks: Seq<String>,
    pub env: Map<Seq<char>, Seq<char>>,
    pub args: Seq<String>,
    pub settings: TweakSettings,
}

impl View for SystemTweaks {
    type V = TweakLayer;

    open spec fn view(&self) -> TweakLayer {
        TweakLayer {
            tricks: self.tricks@,
            env: self.env@,
            args: self.args@,
            settings: self.settings,
        }
    }
}

/// The graphics vendor of the machine.
#[derive(PartialEq, Eq, Structural, Debug, Clone, Copy)]
pub enum GPU {
    AMD,
    NVIDIA,
    UNKNOWN,
}

/// The vendor that a driver name stands for: only the exact names count.
pub open spec fn vendor_of_driver(driver: Seq<char>) -> GPU {
    if driver == "NVIDIA"@ {
        GPU::NVIDIA
    } else if driver == "AMD"@ {
        GPU::AMD
    } else {
        GPU::UNKNOWN
    }
}

impl GPU {
    /// The lower-case name of the vendor.
    pub fn as_str(&self) -> (r: &'static str)
        ensures
            r@ == match *self {
                GPU::AMD => "amd"@,
                GPU::NVIDIA => "nvidia"@,
                GPU::UNKNOWN => "unknown"@,
            },
    {
        match self {
            GPU::AMD => "amd",
            GPU::NVIDIA => "nvidia",
            GPU::UNKNOWN => "unknown",
        }
    }

    /// The vendor whose driver reports the name `driver`.
    pub fn from_driver(driver: &str) -> (r: GPU)
        ensures
            r == vendor_of_driver(driver@),
    {
        let name = driver.to_string();
        if name == "NVIDIA".to_string() {
            GPU::NVIDIA
        } else if name == "AMD".to_string() {
            GPU::AMD
        } else {
            GPU::UNKNOWN
        }
    }
}

/// The driver that the default graphics adapter reports, and its vendor.
#[derive(Debug)]
pub struct SystemInfo {
    pub driver: String,
    pub driver_type: GPU,
}

impl SystemInfo {
    /// The information for an adapter whose driver reports `driver`.
    pub fn from_driver(driver: String) -> (r: SystemInfo)
        ensures
            r.driver@ == driver@,
            r.driver_type == vendor_of_driver(driver@),
    {
        let driver_type = GPU::from_driver(driver.as_str());
        SystemInfo { driver, driver_type }
    }
}

/// The vendor found, or `UNKNOWN` where no adapter was found.
pub fn detected_gpu(info: &Option<SystemInfo>) -> (r: GPU)
    ensures
        r == match info {
            Some(i) => i.driver_type,
            None => GPU::UNKNOWN,
        },
{
    match info {
        Some(i) => i.driver_type,
        None => GPU::UNKNOWN,
    }
}

impl GpuDriver {
    /// The layer configured for `gpu`; none for an unknown vendor.
    pub open spec fn layer_for(&self, gpu: GPU) -> Option<SystemTweaks> {
        match gpu {
            GPU::AMD => self.amd,
            GPU::NVIDIA => self.nvidia,
            GPU::UNKNOWN => None,
        }
    }

    /// The layer of tweaks that applies to `gpu`.
    pub fn get_tweaks_for_gpu(&self, gpu: GPU) -> (r: &Option<SystemTweaks>)
        ensures
            *r == self.layer_for(gpu),
    {
        match gpu {
            GPU::AMD => &self.amd,
            GPU::NVIDIA => &self.nvidia,
            GPU::UNKNOWN => &None,
        }
    }
}

} // verus!
