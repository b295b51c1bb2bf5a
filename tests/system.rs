use protontweaks::app::TweakSettings;
use protontweaks::env::EnvMap;
use protontweaks::system::{detected_gpu, GpuDriver, SystemInfo, SystemTweaks, GPU};

fn unset() -> TweakSettings {
    TweakSettings {
        gamemode: None,
        mangohud: None,
    }
}

#[test]
fn get_tweaks() {
    let driver = GpuDriver {
        amd: None,
        nvidia: Some(SystemTweaks {
            env: EnvMap::new(),
            tricks: vec![],
            args: vec![],
            settings: unset(),
        }),
    };

    assert_eq!(driver.get_tweaks_for_gpu(GPU::AMD), &None);
    assert_eq!(driver.get_tweaks_for_gpu(GPU::NVIDIA), &driver.nvidia);
}

#[test]
fn unknown_vendor_has_no_layer() {
    let driver = GpuDriver {
        amd: Some(SystemTweaks {
            env: EnvMap::new(),
            tricks: vec!["a".to_string()],
            args: vec![],
            settings: unset(),
        }),
        nvidia: None,
    };
    assert_eq!(driver.get_tweaks_for_gpu(GPU::UNKNOWN), &None);
    assert_eq!(driver.get_tweaks_for_gpu(GPU::AMD), &driver.amd);
    assert_eq!(driver.get_tweaks_for_gpu(GPU::NVIDIA), &None);
}

#[test]
fn vendor_names() {
    assert_eq!(GPU::AMD.as_str(), "amd");
    assert_eq!(GPU::NVIDIA.as_str(), "nvidia");
    assert_eq!(GPU::UNKNOWN.as_str(), "unknown");
}

#[test]
fn driver_names_map_exactly() {
    assert_eq!(GPU::from_driver("NVIDIA"), GPU::NVIDIA);
    assert_eq!(GPU::from_driver("AMD"), GPU::AMD);
    assert_eq!(GPU::from_driver("GeForce"), GPU::UNKNOWN);
    assert_eq!(GPU::from_driver(""), GPU::UNKNOWN);
    assert_eq!(GPU::from_driver("nvidia"), GPU::UNKNOWN);
    assert_eq!(GPU::from_driver("AMD "), GPU::UNKNOWN);
}

#[test]
fn missing_adapter_is_unknown() {
    assert_eq!(detected_gpu(&None), GPU::UNKNOWN);
    let info = SystemInfo::from_driver("NVIDIA".to_string());
    assert_eq!(info.driver, "NVIDIA");
    assert_eq!(info.driver_type, GPU::NVIDIA);
    assert_eq!(detected_gpu(&Some(info)), GPU::NVIDIA);
    assert_eq!(detected_gpu(&Some(SystemInfo::from_driver("AMD".to_string()))), GPU::AMD);
    assert_eq!(detected_gpu(&Some(SystemInfo::from_driver("llvmpipe".to_string()))), GPU::UNKNOWN);
}

#[test]
fn env_map_insert_replaces() {
    let mut m = EnvMap::new();
    assert!(m.is_empty());
    m.insert("A".to_string(), "1".to_string());
    m.insert("B".to_string(), "2".to_string());
    m.insert("A".to_string(), "3".to_string());
    assert_eq!(m.len(), 2);
    assert_eq!(m.get("A"), Some(&"3".to_string()));
    assert_eq!(m.get("B"), Some(&"2".to_string()));
    assert_eq!(m.get("C"), None);
    assert!(m.contains_key("B"));
    assert!(!m.contains_key("C"));
    assert_eq!(
        m.pairs(),
        &vec![
            ("A".to_string(), "3".to_string()),
            ("B".to_string(), "2".to_string())
        ]
    );
}

#[test]
fn env_map_extend_prefers_other() {
    let mut m = EnvMap::new();
    m.insert("A".to_string(), "1".to_string());
    m.insert("C".to_string(), "5".to_string());
    let mut o = EnvMap::new();
    o.insert("A".to_string(), "2".to_string());
    o.insert("B".to_string(), "3".to_string());
    m.extend(&o);
    assert_eq!(m.len(), 3);
    assert_eq!(m.get("A"), Some(&"2".to_string()));
    assert_eq!(m.get("B"), Some(&"3".to_string()));
    assert_eq!(m.get("C"), Some(&"5".to_string()));
    let c = m.copy();
    assert_eq!(c, m);
}

#[test]
fn env_map_equality_ignores_order() {
    let mut a = EnvMap::new();
    a.insert("A".to_string(), "1".to_string());
    a.insert("B".to_string(), "2".to_string());
    let mut b = EnvMap::new();
    b.insert("B".to_string(), "2".to_string());
    b.insert("A".to_string(), "1".to_string());
    assert_eq!(a, b);
    b.insert("A".to_string(), "9".to_string());
    assert_ne!(a, b);
    b.insert("A".to_string(), "1".to_string());
    b.insert("C".to_string(), "3".to_string());
    assert_ne!(a, b);
}
