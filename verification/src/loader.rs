//! Scheduler names as scx_loader understands them.
use vstd::prelude::*;
use crate::catalog::{catalog_entry, is_cataloged};
use crate::ipc;
use scx_loader::SchedMode as LoaderMode;
use crate::text::str_eq;

verus! {

/// Declares scx_loader's scheduler enumeration, which the helper hands to the
/// loader and stores in its configuration.
#[verifier::external_type_specification]
#[verifier::external_body]
pub struct ExSupportedSched(scx_loader::SupportedSched);

/// Declares anyhow's error, in which scx_loader reports a name it rejects.
#[verifier::external_type_specification]
#[verifier::external_body]
pub struct ExAnyhowError(anyhow::Error);

/// The scheduler names that scx_loader can start.
pub open spec fn is_loader_scheduler(name: Seq<char>) -> bool {
    name == "scx_beerland"@ || name == "scx_bpfland"@ || name == "scx_cake"@ || name == "scx_cosmos"@
        || name == "scx_flash"@ || name == "scx_flow"@ || name == "scx_forge"@ || name == "scx_lavd"@
        || name == "scx_mlfq"@ || name == "scx_pandemonium"@ || name == "scx_p2dq"@ || name
        == "scx_tickless"@ || name == "scx_rustland"@ || name == "scx_rusty"@
}

/// The scheduler that scx_loader's parser gives for a name it accepts.
pub uninterp spec fn loader_sched_named(name: Seq<char>) -> scx_loader::SupportedSched;

/// Every scheduler that scx_loader can start has a catalog entry of its own,
/// but for scx_forge and scx_mlfq; and every scheduler for which the window
/// offers profiles is one that scx_loader can start.
pub proof fn lemma_loader_and_catalog_agree(name: Seq<char>)
    ensures
        is_loader_scheduler(name) ==> (is_cataloged(name) || name == "scx_forge"@ || name
            == "scx_mlfq"@),
        catalog_entry(name).supports_profiles ==> is_loader_scheduler(name),
{
}

/// `<scx_loader::SupportedSched as FromStr>::from_str`. Its source matches the
/// name against the fourteen names of `is_loader_scheduler` and fails on any
/// other; what it gives for a name depends on the name alone, and is named
/// `loader_sched_named`.
#[verifier::external_body]
fn parse_supported_sched(name: &str) -> (r: Result<scx_loader::SupportedSched, anyhow::Error>)
    ensures
        r is Ok <==> is_loader_scheduler(name@),
        r matches Ok(s) ==> s == loader_sched_named(name@),
{
    name.parse::<scx_loader::SupportedSched>()
}

/// Declares scx_loader's scheduler modes, which the loader takes and reports.
#[verifier::external_type_specification]
#[verifier::external_body]
pub struct ExUpstreamMode(LoaderMode);

/// The names scx_loader gives its modes.
pub open spec fn is_upstream_mode_name(name: Seq<char>) -> bool {
    name == "auto"@ || name == "gaming"@ || name == "powersave"@ || name == "lowlatency"@ || name
        == "server"@
}

/// scx_loader's name for the mode that corresponds to `mode`.
pub open spec fn upstream_key(mode: ipc::SchedMode) -> Seq<char> {
    match mode {
        ipc::SchedMode::Auto => "auto"@,
        ipc::SchedMode::Gaming => "gaming"@,
        ipc::SchedMode::PowerSave => "powersave"@,
        ipc::SchedMode::LowLatency => "lowlatency"@,
        ipc::SchedMode::Server => "server"@,
    }
}

/// Different modes have different loader names.
proof fn lemma_upstream_key_injective(a: ipc::SchedMode, b: ipc::SchedMode)
    ensures
        upstream_key(a) == upstream_key(b) ==> a == b,
{
    reveal_strlit("auto");
    reveal_strlit("gaming");
    reveal_strlit("powersave");
    reveal_strlit("lowlatency");
    reveal_strlit("server");
    if upstream_key(a) == upstream_key(b) && a != b {
        assert(upstream_key(a)[0] != upstream_key(b)[0] || upstream_key(a).len() != upstream_key(b).len());
    }
}

fn upstream_key_str(mode: ipc::SchedMode) -> (r: &'static str)
    ensures
        r@ == upstream_key(mode),
{
    match mode {
        ipc::SchedMode::Auto => "auto",
        ipc::SchedMode::Gaming => "gaming",
        ipc::SchedMode::PowerSave => "powersave",
        ipc::SchedMode::LowLatency => "lowlatency",
        ipc::SchedMode::Server => "server",
    }
}

/// The mode that scx_loader's mode parser gives for a name it accepts.
pub uninterp spec fn upstream_mode_named(name: Seq<char>) -> LoaderMode;

/// scx_loader's mode for `mode`: the one its parser gives for the mode's name.
pub open spec fn upstream_of(mode: ipc::SchedMode) -> LoaderMode {
    upstream_mode_named(upstream_key(mode))
}

/// `<LoaderMode as FromStr>::from_str`. Its source accepts exactly
/// the five names of `is_upstream_mode_name`; what it gives depends on the
/// name alone, and is named `upstream_mode_named`.
#[verifier::external_body]
fn parse_upstream_mode(name: &str) -> (r: Result<LoaderMode, anyhow::Error>)
    ensures
        r is Ok <==> is_upstream_mode_name(name@),
        r matches Ok(m) ==> m == upstream_mode_named(name@),
{
    name.parse::<LoaderMode>()
}

/// `<&str as From<LoaderMode>>::from`. Its source maps each mode to
/// one of the five names, the one that the mode parser maps back to that
/// same mode; the parser gives five different modes for the five names, so
/// no other name gives this mode.
#[verifier::external_body]
fn upstream_mode_name(mode: LoaderMode) -> (r: &'static str)
    ensures
        is_upstream_mode_name(r@),
        upstream_mode_named(r@) == mode,
        forall|k: Seq<char>| is_upstream_mode_name(k) && upstream_mode_named(k) == mode ==> k == r@,
{
    <&'static str>::from(mode)
}

/// The loader's mode for one of ours.
pub fn to_upstream_mode(mode: ipc::SchedMode) -> (r: LoaderMode)
    ensures
        r == upstream_of(mode),
{
    let parsed = parse_upstream_mode(upstream_key_str(mode));
    parsed.unwrap()
}

/// Our mode for one of the loader's: the only mode whose loader counterpart it is.
pub fn mode_from_upstream(m: LoaderMode) -> (r: ipc::SchedMode)
    ensures
        upstream_of(r) == m,
        forall|x: ipc::SchedMode| upstream_of(x) == m ==> x == r,
{
    let n = upstream_mode_name(m);
    let r = if str_eq(n, "auto") {
        ipc::SchedMode::Auto
    } else if str_eq(n, "gaming") {
        ipc::SchedMode::Gaming
    } else if str_eq(n, "powersave") {
        ipc::SchedMode::PowerSave
    } else if str_eq(n, "lowlatency") {
        ipc::SchedMode::LowLatency
    } else {
        ipc::SchedMode::Server
    };
    assert(upstream_key(r) == n@);
    assert forall|x: ipc::SchedMode| upstream_of(x) == m implies x == r by {
        assert(is_upstream_mode_name(upstream_key(x)));
        assert(upstream_key(x) == n@);
        lemma_upstream_key_injective(x, r);
    }
    r
}

/// A scheduler name that scx_loader does not know, with the loader's complaint.
#[derive(Debug)]
pub struct UnknownScheduler {
    pub name: String,
    pub cause: anyhow::Error,
}

/// The loader's scheduler for `name`; it exists exactly for the names that
/// scx_loader can start.
pub fn loader_scheduler(name: &str) -> (r: Result<scx_loader::SupportedSched, UnknownScheduler>)
    ensures
        r is Ok <==> is_loader_scheduler(name@),
        r matches Ok(s) ==> s == loader_sched_named(name@),
        r matches Err(e) ==> e.name@ == name@,
{
    match parse_supported_sched(name) {
        Ok(s) => Ok(s),
        Err(cause) => Err(UnknownScheduler { name: name.to_owned(), cause }),
    }
}

} // verus!
