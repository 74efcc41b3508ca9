use scx_synse::system_info::SysfsRoot;

#[test]
fn default_root_is_the_kernel_sched_ext_directory() {
    let root = SysfsRoot::default();
    assert_eq!(root.0, "/sys/kernel/sched_ext");
    assert_eq!(root.state_file(), "/sys/kernel/sched_ext/state");
}

#[test]
fn state_file_joins_like_a_path() {
    assert_eq!(SysfsRoot("/tmp/x/".to_string()).state_file(), "/tmp/x/state");
    assert_eq!(SysfsRoot("".to_string()).state_file(), "state");
    assert_eq!(SysfsRoot("rel".to_string()).state_file(), "rel/state");
}
