use scx_synse::ipc::SchedMode;
use scx_synse::recommend::{
    has_battery, has_discrete_gpu, is_battery_entry, is_card_node, recommend, DrmEntry, SystemProbe,
};

#[test]
fn battery_wins_over_other_signals() {
    let probe = SystemProbe { has_battery: true, has_dgpu: true, cpu_count: 32 };
    let rec = recommend(&probe);
    assert_eq!(rec.scheduler, "scx_bpfland");
    assert_eq!(rec.mode, SchedMode::Auto);
}

#[test]
fn dgpu_without_battery_picks_gaming() {
    let probe = SystemProbe { has_battery: false, has_dgpu: true, cpu_count: 8 };
    let rec = recommend(&probe);
    assert_eq!(rec.scheduler, "scx_bpfland");
    assert_eq!(rec.mode, SchedMode::Gaming);
}

#[test]
fn many_cores_picks_layered() {
    let probe = SystemProbe { has_battery: false, has_dgpu: false, cpu_count: 32 };
    let rec = recommend(&probe);
    assert_eq!(rec.scheduler, "scx_layered");
    assert_eq!(rec.mode, SchedMode::Server);
}

#[test]
fn default_falls_back_to_bpfland_auto() {
    let probe = SystemProbe::default();
    let rec = recommend(&probe);
    assert_eq!(rec.scheduler, "scx_bpfland");
    assert_eq!(rec.mode, SchedMode::Auto);
}

#[test]
fn sixteen_cores_is_the_threshold() {
    let at = recommend(&SystemProbe { has_battery: false, has_dgpu: false, cpu_count: 16 });
    assert_eq!(at.scheduler, "scx_layered");
    assert_eq!(at.reason, "Many-core system \u{2014} layered scheduling fits well.");
    let below = recommend(&SystemProbe { has_battery: false, has_dgpu: false, cpu_count: 15 });
    assert_eq!(below.scheduler, "scx_bpfland");
    assert_eq!(below.reason, "Safe default for desktops.");
}

#[test]
fn battery_names_ignore_ascii_case() {
    assert!(is_battery_entry("BAT0"));
    assert!(is_battery_entry("bat1"));
    assert!(is_battery_entry("Battery"));
    assert!(!is_battery_entry("AC"));
    assert!(!is_battery_entry("BA"));
    assert!(!is_battery_entry("xBAT"));
    assert!(has_battery(&vec!["AC".to_string(), "BAT0".to_string()]));
    assert!(!has_battery(&vec!["AC".to_string(), "ucsi-source-psy".to_string()]));
    assert!(!has_battery(&vec![]));
}

fn drm(name: &str, driver: Option<&str>) -> DrmEntry {
    DrmEntry { name: name.to_string(), driver: driver.map(|d| d.to_string()) }
}

#[test]
fn card_nodes_exclude_connectors() {
    assert!(is_card_node("card0"));
    assert!(is_card_node("card1"));
    assert!(!is_card_node("card0-DP-1"));
    assert!(!is_card_node("renderD128"));
    assert!(!is_card_node("version"));
}

#[test]
fn discrete_gpu_needs_a_real_driver_on_a_card_node() {
    assert!(has_discrete_gpu(&vec![drm("card0", Some("amdgpu"))]));
    assert!(!has_discrete_gpu(&vec![drm("card0", Some("simple-framebuffer"))]));
    assert!(!has_discrete_gpu(&vec![drm("card0", Some(""))]));
    assert!(!has_discrete_gpu(&vec![drm("card0", None)]));
    assert!(!has_discrete_gpu(&vec![drm("card0-HDMI-A-1", Some("amdgpu"))]));
    assert!(has_discrete_gpu(&vec![
        drm("card0", Some("simple-framebuffer")),
        drm("card1", Some("nvidia")),
    ]));
}

#[test]
fn detect_combines_the_signals() {
    let p = SystemProbe::detect(&vec!["BAT0".to_string()], &vec![drm("card0", Some("i915"))], 12);
    assert!(p.has_battery);
    assert!(p.has_dgpu);
    assert_eq!(p.cpu_count, 12);
    let q = SystemProbe::detect(&vec![], &vec![], 0);
    assert!(!q.has_battery && !q.has_dgpu && q.cpu_count == 0);
}
