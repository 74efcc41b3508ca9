use scx_synse::ipc::SchedMode;
use scx_synse::loader::{loader_scheduler, mode_from_upstream, to_upstream_mode};

#[test]
fn loader_knows_its_schedulers() {
    assert_eq!(loader_scheduler("scx_bpfland").unwrap(), scx_loader::SupportedSched::Bpfland);
    assert_eq!(loader_scheduler("scx_p2dq").unwrap(), scx_loader::SupportedSched::P2DQ);
    assert!(loader_scheduler("scx_forge").is_ok());
}

#[test]
fn loader_rejects_other_names() {
    let err = loader_scheduler("scx_layered").unwrap_err();
    assert_eq!(err.name, "scx_layered");
    assert!(err.cause.to_string().contains("scx_layered"));
    assert!(loader_scheduler("").is_err());
    assert!(loader_scheduler("SCX_BPFLAND").is_err());
}

#[test]
fn modes_convert_to_the_loader_and_back() {
    assert_eq!(to_upstream_mode(SchedMode::Auto), scx_loader::SchedMode::Auto);
    assert_eq!(to_upstream_mode(SchedMode::PowerSave), scx_loader::SchedMode::PowerSave);
    assert_eq!(to_upstream_mode(SchedMode::Server), scx_loader::SchedMode::Server);
    assert_eq!(mode_from_upstream(scx_loader::SchedMode::Gaming), SchedMode::Gaming);
    assert_eq!(mode_from_upstream(scx_loader::SchedMode::LowLatency), SchedMode::LowLatency);
    for m in [
        SchedMode::Auto,
        SchedMode::Gaming,
        SchedMode::PowerSave,
        SchedMode::LowLatency,
        SchedMode::Server,
    ] {
        assert_eq!(mode_from_upstream(to_upstream_mode(m)), m);
        assert_eq!(to_upstream_mode(m) as u32, m.as_raw());
    }
}
