use scx_synse::catalog::{describe, Badge};

#[test]
fn every_known_scheduler_has_non_empty_fields() {
    for name in [
        "scx_bpfland",
        "scx_lavd",
        "scx_rusty",
        "scx_p2dq",
        "scx_tickless",
        "scx_cosmos",
        "scx_cake",
        "scx_flash",
        "scx_flow",
        "scx_beerland",
        "scx_pandemonium",
        "scx_rustland",
        "scx_layered",
        "scx_chaos",
        "scx_mitosis",
        "scx_simple",
        "scx_central",
        "scx_userland",
        "scx_nest",
        "scx_pair",
        "scx_prev",
    ] {
        let info = describe(name);
        assert_eq!(info.display_title, name, "title for {name}");
        assert!(!info.blurb.is_empty(), "blurb for {name}");
        assert!(!info.icon_name.is_empty(), "icon for {name}");
        assert_ne!(info.badge, Badge::Other, "{name} should have a real badge");
    }
}

#[test]
fn unknown_scheduler_uses_its_own_name_as_title() {
    let info = describe("scx_nonsense");
    assert_eq!(info.display_title, "scx_nonsense");
    assert_eq!(info.badge, Badge::Other);
    assert!(!info.supports_profiles);
    assert!(!info.blurb.is_empty());
}

#[test]
fn badge_css_classes_are_unique() {
    let mut classes: Vec<&str> = Badge::ALL.iter().map(|b| b.css_class()).collect();
    let count = classes.len();
    classes.sort_unstable();
    classes.dedup();
    assert_eq!(classes.len(), count, "every badge needs a distinct css class");
}

#[test]
fn known_entries_carry_their_catalog_data() {
    let lavd = describe("scx_lavd");
    assert_eq!(lavd.badge, Badge::Gaming);
    assert_eq!(lavd.icon_name, "headphones-symbolic");
    assert!(lavd.supports_profiles);
    assert_eq!(
        lavd.blurb,
        "Latency-aware deadline scheduling. A favorite for gaming, esports, and real-time audio."
    );

    let p2dq = describe("scx_p2dq");
    assert_eq!(
        p2dq.blurb,
        "Versatile \u{201c}pick-two\u{201d} load balancer that adapts well to mixed workloads."
    );
    assert_eq!(p2dq.badge, Badge::Everyday);

    let simple = describe("scx_simple");
    assert_eq!(simple.badge, Badge::Baseline);
    assert!(!simple.supports_profiles);
}

#[test]
fn unknown_scheduler_gets_generic_descriptor() {
    let info = describe("");
    assert_eq!(info.display_title, "");
    assert_eq!(info.icon_name, "microchip-symbolic");
    assert_eq!(info.blurb, "Sched-ext scheduler. No description in the catalog yet.");

    // Close to a known name but not equal: still unknown.
    let near = describe("scx_bpfland ");
    assert_eq!(near.badge, Badge::Other);
    assert_eq!(near.display_title, "scx_bpfland ");
    let upper = describe("SCX_BPFLAND");
    assert_eq!(upper.badge, Badge::Other);
}

#[test]
fn badge_labels_match_their_badges() {
    assert_eq!(Badge::Everyday.label(), "Everyday");
    assert_eq!(Badge::LowLatency.label(), "Low latency");
    assert_eq!(Badge::Other.label(), "Other");
    assert_eq!(Badge::LowLatency.css_class(), "synse-badge-lowlatency");
    assert_eq!(Badge::ALL.len(), 7);
}
