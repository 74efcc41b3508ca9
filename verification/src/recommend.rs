//! A scheduler recommendation from a few hardware signals, and the reading of
//! those signals from the names that sysfs lists.
use vstd::prelude::*;
use crate::catalog::is_cataloged;
use crate::ipc::SchedMode;
use crate::text::{ascii_upper, has_prefix, has_upper_prefix, starts_with, starts_with_ignoring_ascii_case, contains_char, str_eq};

verus! {

/// The hardware signals a recommendation is based on.
#[derive(Debug, Clone)]
pub struct SystemProbe {
    pub has_battery: bool,
    pub has_dgpu: bool,
    pub cpu_count: usize,
}

impl Default for SystemProbe {
    /// No battery, no discrete GPU, no CPUs counted.
    fn default() -> (p: Self)
        ensures
            !p.has_battery,
            !p.has_dgpu,
            p.cpu_count == 0,
    {
        SystemProbe { has_battery: false, has_dgpu: false, cpu_count: 0 }
    }
}

/// The scheduler and mode suggested for a machine.
#[derive(Debug, Clone, PartialEq, Eq)]
pub struct Recommendation {
    pub scheduler: &'static str,
    pub mode: SchedMode,
    /// One-line rationale shown next to the "Recommended" badge.
    pub reason: &'static str,
}

/// A recommendation with its text taken as characters.
pub struct RecommendationView {
    pub scheduler: Seq<char>,
    pub mode: SchedMode,
    pub reason: Seq<char>,
}

impl View for Recommendation {
    type V = RecommendationView;

    open spec fn view(&self) -> RecommendationView {
        RecommendationView { scheduler: self.scheduler@, mode: self.mode, reason: self.reason@ }
    }
}

/// Rationale on battery-powered hardware.
pub const REASON_BATTERY: &'static str = "Balanced choice on battery-powered hardware.";

/// Rationale when a discrete GPU is present.
pub const REASON_DGPU: &'static str = "Discrete GPU detected \u{2014} favors input responsiveness.";

/// Rationale on machines with many cores.
pub const REASON_MANY_CORES: &'static str = "Many-core system \u{2014} layered scheduling fits well.";

/// Rationale when no signal stands out.
pub const REASON_DEFAULT: &'static str = "Safe default for desktops.";

/// The core count from which layered scheduling is suggested.
pub const MANY_CORES: usize = 16;

/// The recommendation for a machine: a battery decides first, then a discrete
/// GPU, then a count of at least sixteen CPUs; otherwise the desktop default.
pub open spec fn recommendation_for(p: SystemProbe) -> RecommendationView {
    if p.has_battery {
        RecommendationView { scheduler: "scx_bpfland"@, mode: SchedMode::Auto, reason: REASON_BATTERY@ }
    } else if p.has_dgpu {
        RecommendationView { scheduler: "scx_bpfland"@, mode: SchedMode::Gaming, reason: REASON_DGPU@ }
    } else if p.cpu_count >= MANY_CORES {
        RecommendationView { scheduler: "scx_layered"@, mode: SchedMode::Server, reason: REASON_MANY_CORES@ }
    } else {
        RecommendationView { scheduler: "scx_bpfland"@, mode: SchedMode::Auto, reason: REASON_DEFAULT@ }
    }
}

/// The scheduler and mode to suggest for the machine that `probe` describes.
pub fn recommend(probe: &SystemProbe) -> (r: Recommendation)
    ensures
        r@ == recommendation_for(*probe),
{
    if probe.has_battery {
        return Recommendation { scheduler: "scx_bpfland", mode: SchedMode::Auto, reason: REASON_BATTERY };
    }
    if probe.has_dgpu {
        return Recommendation { scheduler: "scx_bpfland", mode: SchedMode::Gaming, reason: REASON_DGPU };
    }
    if probe.cpu_count >= MANY_CORES {
        return Recommendation { scheduler: "scx_layered", mode: SchedMode::Server, reason: REASON_MANY_CORES };
    }
    Recommendation { scheduler: "scx_bpfland", mode: SchedMode::Auto, reason: REASON_DEFAULT }
}

/// On battery-powered hardware the other signals do not change the choice.
pub proof fn lemma_battery_wins(p: SystemProbe, q: SystemProbe)
    requires
        p.has_battery,
        q.has_battery,
    ensures
        recommendation_for(p) == recommendation_for(q),
        recommendation_for(p).mode == SchedMode::Auto,
        recommendation_for(p).scheduler == "scx_bpfland"@,
        recommendation_for(p).reason == REASON_BATTERY@,
{
}

/// Every recommended scheduler has an entry of its own in the catalog.
pub proof fn lemma_recommendation_is_cataloged(p: SystemProbe)
    ensures
        is_cataloged(recommendation_for(p).scheduler),
{
}

/// Without a battery, a discrete GPU decides: whatever the CPU count, the
/// suggestion is scx_bpfland in Gaming mode, for the GPU's reason.
pub proof fn lemma_dgpu_decides_without_battery(p: SystemProbe)
    requires
        !p.has_battery,
        p.has_dgpu,
    ensures
        recommendation_for(p).scheduler == "scx_bpfland"@,
        recommendation_for(p).mode == SchedMode::Gaming,
        recommendation_for(p).reason == REASON_DGPU@,
{
}

/// A battery or a discrete GPU makes the CPU count irrelevant: two machines
/// that differ only in their CPU count get the same suggestion.
pub proof fn lemma_signals_outrank_core_count(p: SystemProbe, q: SystemProbe)
    requires
        p.has_battery == q.has_battery,
        p.has_dgpu == q.has_dgpu,
        p.has_battery || p.has_dgpu,
    ensures
        recommendation_for(p) == recommendation_for(q),
{
}

/// Layered scheduling is suggested exactly on machines with neither a battery
/// nor a discrete GPU and at least sixteen CPUs, and then in Server mode.
pub proof fn lemma_layered_only_for_plain_many_core(p: SystemProbe)
    ensures
        (recommendation_for(p).scheduler == "scx_layered"@) == (!p.has_battery && !p.has_dgpu
            && p.cpu_count >= 16),
        recommendation_for(p).scheduler == "scx_layered"@ ==> recommendation_for(p).mode
            == SchedMode::Server,
        recommendation_for(p).scheduler != "scx_layered"@ ==> recommendation_for(p).scheduler
            == "scx_bpfland"@,
        recommendation_for(p).scheduler == "scx_layered"@ ==> recommendation_for(p).reason
            == REASON_MANY_CORES@,
        (!p.has_battery && !p.has_dgpu && p.cpu_count < 16) ==> recommendation_for(p).reason
            == REASON_DEFAULT@,
{
    reveal_strlit("scx_layered");
    reveal_strlit("scx_bpfland");
    assert("scx_layered"@[4] != "scx_bpfland"@[4]);
}

/// The Gaming mode is suggested exactly when a discrete GPU is the deciding
/// signal; in every other case but the many-core one the mode is Auto.
pub proof fn lemma_gaming_exactly_for_dgpu(p: SystemProbe)
    ensures
        (recommendation_for(p).mode == SchedMode::Gaming) == (!p.has_battery && p.has_dgpu),
        (recommendation_for(p).mode == SchedMode::Auto) == (p.has_battery || (!p.has_dgpu
            && p.cpu_count < 16)),
{
}

/// One entry of the DRM class directory: its name, and the name of the driver
/// its device links to, when the link could be read.
#[derive(Debug, Clone)]
pub struct DrmEntry {
    pub name: String,
    pub driver: Option<String>,
}

/// A power-supply entry whose name begins with "BAT", in any ASCII case, is a battery.
pub open spec fn is_battery_name(name: Seq<char>) -> bool {
    has_upper_prefix(name, "BAT"@)
}

/// A DRM entry is a card node when its name begins with "card" and holds no
/// '-' (which would make it a connector such as "card0-DP-1").
pub open spec fn is_card_node_name(name: Seq<char>) -> bool {
    has_prefix(name, "card"@) && !name.contains('-')
}

/// A driver counts as a GPU driver unless it is empty or the generic
/// "simple-framebuffer".
pub open spec fn is_gpu_driver(driver: Seq<char>) -> bool {
    driver.len() > 0 && driver != "simple-framebuffer"@
}

/// A DRM entry that shows a GPU driven by a real GPU driver.
pub open spec fn shows_gpu(e: DrmEntry) -> bool {
    is_card_node_name(e.name@) && match e.driver {
        Some(d) => is_gpu_driver(d@),
        None => false,
    }
}

/// Whether a power-supply entry name denotes a battery.
pub fn is_battery_entry(name: &str) -> (r: bool)
    ensures
        r == is_battery_name(name@),
{
    starts_with_ignoring_ascii_case(name, "BAT")
}

/// Whether a DRM entry name denotes a card node (whose driver is worth reading).
pub fn is_card_node(name: &str) -> (r: bool)
    ensures
        r == is_card_node_name(name@),
{
    starts_with(name, "card") && !contains_char(name, '-')
}

/// Whether any of the power-supply entry names denotes a battery.
pub fn has_battery(names: &Vec<String>) -> (r: bool)
    ensures
        r == exists|i: int| 0 <= i < names@.len() && #[trigger] is_battery_name(names@[i]@),
{
    let n = names.len();
    let mut i: usize = 0;
    while i < n
        invariant
            n == names@.len(),
            i <= n,
            forall|j: int| 0 <= j < i ==> !#[trigger] is_battery_name(names@[j]@),
        decreases n - i,
    {
        if is_battery_entry(names[i].as_str()) {
            return true;
        }
        i = i + 1;
    }
    false
}

/// Whether any DRM entry shows a GPU with a real GPU driver.
pub fn has_discrete_gpu(entries: &Vec<DrmEntry>) -> (r: bool)
    ensures
        r == exists|i: int| 0 <= i < entries@.len() && #[trigger] shows_gpu(entries@[i]),
{
    let n = entries.len();
    let mut i: usize = 0;
    while i < n
        invariant
            n == entries@.len(),
            i <= n,
            forall|j: int| 0 <= j < i ==> !#[trigger] shows_gpu(entries@[j]),
        decreases n - i,
    {
        let e = &entries[i];
        if is_card_node(e.name.as_str()) {
            match &e.driver {
                Some(d) => {
                    if !d.as_str().is_empty() && !str_eq(d.as_str(), "simple-framebuffer") {
                        assert(shows_gpu(entries@[i as int]));
                        return true;
                    }
                },
                None => {},
            }
        }
        i = i + 1;
    }
    false
}

/// Any non-empty driver other than the generic "simple-framebuffer" marks a
/// GPU (amdgpu, nouveau, nvidia, i915 and every other): a card node driven by
/// such a driver shows one.
pub proof fn lemma_real_driver_shows_gpu(e: DrmEntry, d: String)
    requires
        has_prefix(e.name@, "card"@),
        !e.name@.contains('-'),
        e.driver == Some(d),
        d@.len() > 0,
        d@ != "simple-framebuffer"@,
    ensures
        shows_gpu(e),
{
}

/// An entry shows no GPU when its driver is unknown, empty or the generic
/// framebuffer, or when it is not a card node: a connector (its name holds a
/// '-') or a name that does not begin with "card".
pub proof fn lemma_what_shows_no_gpu(e: DrmEntry)
    ensures
        e.driver is None ==> !shows_gpu(e),
        (e.driver matches Some(d) && (d@.len() == 0 || d@ == "simple-framebuffer"@)) ==> !shows_gpu(e),
        e.name@.contains('-') ==> !shows_gpu(e),
        !has_prefix(e.name@, "card"@) ==> !shows_gpu(e),
{
}

/// A machine has a discrete GPU exactly when one of its DRM entries is a card
/// node with a real driver: adding such an entry to any list makes the
/// signal true.
pub proof fn lemma_gpu_entry_sets_signal(entries: Seq<DrmEntry>, i: int, d: String)
    requires
        0 <= i < entries.len(),
        has_prefix(entries[i].name@, "card"@),
        !entries[i].name@.contains('-'),
        entries[i].driver == Some(d),
        d@.len() > 0,
        d@ != "simple-framebuffer"@,
    ensures
        exists|j: int| 0 <= j < entries.len() && #[trigger] shows_gpu(entries[j]),
{
    lemma_real_driver_shows_gpu(entries[i], d);
}

/// A power-supply entry is a battery exactly when its name begins with "BAT"
/// in any mix of ASCII cases ("BAT0", "bat1", "Battery").
pub proof fn lemma_battery_names(name: Seq<char>)
    ensures
        is_battery_name(name) == (name.len() >= 3 && (name[0] == 'B' || name[0] == 'b') && (name[1]
            == 'A' || name[1] == 'a') && (name[2] == 'T' || name[2] == 't')),
{
    reveal_strlit("BAT");
    if name.len() >= 3 {
        assert(is_battery_name(name) ==> ascii_upper(name[0]) == 'B' && ascii_upper(name[1]) == 'A'
            && ascii_upper(name[2]) == 'T');
    }
}

impl SystemProbe {
    /// The signals read from the names under the power-supply class, the DRM
    /// class entries and the number of CPUs available.
    pub fn detect(power_supplies: &Vec<String>, drm: &Vec<DrmEntry>, cpu_count: usize) -> (p: Self)
        ensures
            p.has_battery == exists|i: int| 0 <= i < power_supplies@.len() && #[trigger] is_battery_name(power_supplies@[i]@),
            p.has_dgpu == exists|i: int| 0 <= i < drm@.len() && #[trigger] shows_gpu(drm@[i]),
            p.cpu_count == cpu_count,
    {
        SystemProbe {
            has_battery: has_battery(power_supplies),
            has_dgpu: has_discrete_gpu(drm),
            cpu_count,
        }
    }
}

} // verus!
