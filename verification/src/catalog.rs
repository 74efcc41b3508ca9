//! The scheduler catalog: a plain-language descriptor for every scheduler
//! that scx_loader may report, with a fallback for names it does not know.
use vstd::prelude::*;
use crate::text::str_eq;

verus! {

/// A short use-case tag shown as a colored pill next to each scheduler, so a
/// newcomer can tell at a glance what a scheduler is *for* without parsing the
/// description.
#[derive(Debug, Clone, Copy, PartialEq, Eq, Structural)]
pub enum Badge {
    /// General-purpose, good for typical desktop use.
    Everyday,
    /// Optimized for games: responsiveness and frame pacing.
    Gaming,
    /// Tight, predictable timing for audio and real-time work.
    LowLatency,
    /// Throughput and isolation for servers / virtualization.
    Server,
    /// Research / unstable: interesting, but not a daily driver.
    Experimental,
    /// Minimal reference design, useful as a baseline.
    Baseline,
    /// Unknown scheduler with no catalog entry yet.
    Other,
}

/// The text shown on a badge's pill.
pub open spec fn badge_label(b: Badge) -> Seq<char> {
    match b {
        Badge::Everyday => "Everyday"@,
        Badge::Gaming => "Gaming"@,
        Badge::LowLatency => "Low latency"@,
        Badge::Server => "Server"@,
        Badge::Experimental => "Experimental"@,
        Badge::Baseline => "Baseline"@,
        Badge::Other => "Other"@,
    }
}

/// The CSS class that colors a badge's pill.
pub open spec fn badge_css_class(b: Badge) -> Seq<char> {
    match b {
        Badge::Everyday => "synse-badge-everyday"@,
        Badge::Gaming => "synse-badge-gaming"@,
        Badge::LowLatency => "synse-badge-lowlatency"@,
        Badge::Server => "synse-badge-server"@,
        Badge::Experimental => "synse-badge-experimental"@,
        Badge::Baseline => "synse-badge-baseline"@,
        Badge::Other => "synse-badge-other"@,
    }
}

impl Badge {
    /// Every badge, for clearing stale styling when a widget is reused (e.g.
    /// the hero card re-pointed at a different scheduler).
    pub const ALL: [Badge; 7] = [
        Badge::Everyday,
        Badge::Gaming,
        Badge::LowLatency,
        Badge::Server,
        Badge::Experimental,
        Badge::Baseline,
        Badge::Other,
    ];

    /// The text shown on this badge's pill.
    pub fn label(self) -> (r: &'static str)
        ensures
            r@ == badge_label(self),
    {
        match self {
            Badge::Everyday => "Everyday",
            Badge::Gaming => "Gaming",
            Badge::LowLatency => "Low latency",
            Badge::Server => "Server",
            Badge::Experimental => "Experimental",
            Badge::Baseline => "Baseline",
            Badge::Other => "Other",
        }
    }

    /// The CSS class that colors this badge's pill.
    pub fn css_class(self) -> (r: &'static str)
        ensures
            r@ == badge_css_class(self),
    {
        match self {
            Badge::Everyday => "synse-badge-everyday",
            Badge::Gaming => "synse-badge-gaming",
            Badge::LowLatency => "synse-badge-lowlatency",
            Badge::Server => "synse-badge-server",
            Badge::Experimental => "synse-badge-experimental",
            Badge::Baseline => "synse-badge-baseline",
            Badge::Other => "synse-badge-other",
        }
    }
}

/// What the window shows for one scheduler.
#[derive(Debug, Clone, PartialEq, Eq)]
pub struct SchedulerInfo {
    pub display_title: String,
    pub blurb: String,
    pub icon_name: &'static str,
    pub badge: Badge,
    pub supports_profiles: bool,
}

/// A catalog descriptor with its text taken as characters.
pub struct CatalogEntry {
    pub title: Seq<char>,
    pub blurb: Seq<char>,
    pub icon: Seq<char>,
    pub badge: Badge,
    pub supports_profiles: bool,
}

impl View for SchedulerInfo {
    type V = CatalogEntry;

    open spec fn view(&self) -> CatalogEntry {
        CatalogEntry {
            title: self.display_title@,
            blurb: self.blurb@,
            icon: self.icon_name@,
            badge: self.badge,
            supports_profiles: self.supports_profiles,
        }
    }
}
/// Description of scx_bpfland.
pub const BLURB_BPFLAND: &'static str = "All-rounder that keeps interactive apps snappy with low input lag. Great for everyday desktop use and gaming.";
/// Description of scx_lavd.
pub const BLURB_LAVD: &'static str = "Latency-aware deadline scheduling. A favorite for gaming, esports, and real-time audio.";
/// Description of scx_rusty.
pub const BLURB_RUSTY: &'static str = "Multi-domain scheduler that scales smoothly across large multi-core and NUMA systems.";
/// Description of scx_p2dq.
pub const BLURB_P2DQ: &'static str = "Versatile \u{201c}pick-two\u{201d} load balancer that adapts well to mixed workloads.";
/// Description of scx_tickless.
pub const BLURB_TICKLESS: &'static str = "Server and virtualization scheduler that cuts timer-tick noise for steadier, isolated performance.";
/// Description of scx_cosmos.
pub const BLURB_COSMOS: &'static str = "Lightweight scheduler that keeps tasks on warm CPUs to minimize overhead.";
/// Description of scx_cake.
pub const BLURB_CAKE: &'static str = "Borrows CAKE anti-bufferbloat ideas to keep the system responsive under heavy load.";
/// Description of scx_flash.
pub const BLURB_FLASH: &'static str = "Tuned for multimedia and real-time audio with consistently low latency.";
/// Description of scx_flow.
pub const BLURB_FLOW: &'static str = "Multi-lane, budget-based scheduler balancing snappy response with general throughput.";
/// Description of scx_beerland.
pub const BLURB_BEERLAND: &'static str = "Prioritizes cache locality and scalability \u{2014} handy on many-core machines and surprisingly good for gaming.";
/// Description of scx_pandemonium.
pub const BLURB_PANDEMONIUM: &'static str = "Adaptive scheduler that learns and classifies task behavior on the fly. Newer and still maturing.";
/// Description of scx_rustland.
pub const BLURB_RUSTLAND: &'static str = "Runs its scheduling policy in user-space Rust \u{2014} mainly a research and prototyping playground.";
/// Description of scx_layered.
pub const BLURB_LAYERED: &'static str = "Configurable layered scheduling tuned for specific server and workstation workloads.";
/// Description of scx_chaos.
pub const BLURB_CHAOS: &'static str = "Injects randomized scheduling delays to stress-test software and surface timing bugs.";
/// Description of scx_mitosis.
pub const BLURB_MITOSIS: &'static str = "Splits the machine into dynamic cells for isolated scheduling domains.";
/// Description of scx_simple.
pub const BLURB_SIMPLE: &'static str = "Minimal global vtime scheduler. A clean baseline rather than a daily driver.";
/// Description of scx_central.
pub const BLURB_CENTRAL: &'static str = "Routes all scheduling decisions through a single CPU \u{2014} a specialized baseline design.";
/// Description of scx_userland.
pub const BLURB_USERLAND: &'static str = "Example scheduler that runs entirely in user space. For experimentation, not daily use.";
/// Description of scx_nest.
pub const BLURB_NEST: &'static str = "Research scheduler that re-uses recently active (warm) cores to keep frequencies high.";
/// Description of scx_pair.
pub const BLURB_PAIR: &'static str = "Research scheduler that co-schedules tasks onto SMT sibling threads.";
/// Description of scx_prev.
pub const BLURB_PREV: &'static str = "Simple scheduler that favors a task's previous CPU to keep caches warm.";
/// Description of a scheduler that the catalog does not know.
pub const BLURB_UNKNOWN: &'static str = "Sched-ext scheduler. No description in the catalog yet.";
/// The descriptor of a cataloged scheduler: its title is its own name.
pub open spec fn entry(name: Seq<char>, blurb: &str, icon: &str, badge: Badge, supports_profiles: bool) -> CatalogEntry {
    CatalogEntry { title: name, blurb: blurb@, icon: icon@, badge, supports_profiles }
}

/// The descriptor the catalog gives for the scheduler `name`. Unknown names get
/// a generic descriptor titled with the name itself.
pub open spec fn catalog_entry(name: Seq<char>) -> CatalogEntry {
    if name == "scx_bpfland"@ {
        entry(name, BLURB_BPFLAND, "gamepad-symbolic", Badge::Everyday, true)
    } else if name == "scx_lavd"@ {
        entry(name, BLURB_LAVD, "headphones-symbolic", Badge::Gaming, true)
    } else if name == "scx_rusty"@ {
        entry(name, BLURB_RUSTY, "sitemap-symbolic", Badge::Everyday, false)
    } else if name == "scx_p2dq"@ {
        entry(name, BLURB_P2DQ, "scale-balanced-symbolic", Badge::Everyday, true)
    } else if name == "scx_tickless"@ {
        entry(name, BLURB_TICKLESS, "server-symbolic", Badge::Server, true)
    } else if name == "scx_cosmos"@ {
        entry(name, BLURB_COSMOS, "moon-symbolic", Badge::Everyday, true)
    } else if name == "scx_cake"@ {
        entry(name, BLURB_CAKE, "cake-candles-symbolic", Badge::LowLatency, true)
    } else if name == "scx_flash"@ {
        entry(name, BLURB_FLASH, "bolt-symbolic", Badge::LowLatency, true)
    } else if name == "scx_flow"@ {
        entry(name, BLURB_FLOW, "wind-symbolic", Badge::Everyday, false)
    } else if name == "scx_beerland"@ {
        entry(name, BLURB_BEERLAND, "beer-mug-empty-symbolic", Badge::Everyday, false)
    } else if name == "scx_pandemonium"@ {
        entry(name, BLURB_PANDEMONIUM, "brain-symbolic", Badge::Experimental, false)
    } else if name == "scx_rustland"@ {
        entry(name, BLURB_RUSTLAND, "flask-symbolic", Badge::Experimental, false)
    } else if name == "scx_layered"@ {
        entry(name, BLURB_LAYERED, "layer-group-symbolic", Badge::Server, false)
    } else if name == "scx_chaos"@ {
        entry(name, BLURB_CHAOS, "dice-symbolic", Badge::Experimental, false)
    } else if name == "scx_mitosis"@ {
        entry(name, BLURB_MITOSIS, "clone-symbolic", Badge::Experimental, false)
    } else if name == "scx_simple"@ {
        entry(name, BLURB_SIMPLE, "cube-symbolic", Badge::Baseline, false)
    } else if name == "scx_central"@ {
        entry(name, BLURB_CENTRAL, "bullseye-symbolic", Badge::Baseline, false)
    } else if name == "scx_userland"@ {
        entry(name, BLURB_USERLAND, "terminal-symbolic", Badge::Experimental, false)
    } else if name == "scx_nest"@ {
        entry(name, BLURB_NEST, "fire-symbolic", Badge::Experimental, false)
    } else if name == "scx_pair"@ {
        entry(name, BLURB_PAIR, "link-symbolic", Badge::Experimental, false)
    } else if name == "scx_prev"@ {
        entry(name, BLURB_PREV, "arrow-rotate-left-symbolic", Badge::Baseline, false)
    } else {
        entry(name, BLURB_UNKNOWN, "microchip-symbolic", Badge::Other, false)
    }
}

/// Whether the catalog has an entry of its own for `name`.
pub open spec fn is_cataloged(name: Seq<char>) -> bool {
    name == "scx_bpfland"@
    || name == "scx_lavd"@
    || name == "scx_rusty"@
    || name == "scx_p2dq"@
    || name == "scx_tickless"@
    || name == "scx_cosmos"@
    || name == "scx_cake"@
    || name == "scx_flash"@
    || name == "scx_flow"@
    || name == "scx_beerland"@
    || name == "scx_pandemonium"@
    || name == "scx_rustland"@
    || name == "scx_layered"@
    || name == "scx_chaos"@
    || name == "scx_mitosis"@
    || name == "scx_simple"@
    || name == "scx_central"@
    || name == "scx_userland"@
    || name == "scx_nest"@
    || name == "scx_pair"@
    || name == "scx_prev"@
}

/// A descriptor whose title is `name`.
fn make_info(name: &str, blurb: &str, icon_name: &'static str, badge: Badge, supports_profiles: bool) -> (info: SchedulerInfo)
    ensures
        info@ == entry(name@, blurb, icon_name, badge, supports_profiles),
{
    SchedulerInfo { display_title: name.to_owned(), blurb: blurb.to_owned(), icon_name, badge, supports_profiles }
}

/// Look up a descriptor for a scheduler name. Unknown schedulers fall back
/// to a descriptor that uses their own name as the title so the UI stays
/// useful when scx_loader reports something new.
pub fn describe(scheduler: &str) -> (info: SchedulerInfo)
    ensures
        info@ == catalog_entry(scheduler@),
{
    if str_eq(scheduler, "scx_bpfland") {
        return make_info(scheduler, BLURB_BPFLAND, "gamepad-symbolic", Badge::Everyday, true);
    }
    if str_eq(scheduler, "scx_lavd") {
        return make_info(scheduler, BLURB_LAVD, "headphones-symbolic", Badge::Gaming, true);
    }
    if str_eq(scheduler, "scx_rusty") {
        return make_info(scheduler, BLURB_RUSTY, "sitemap-symbolic", Badge::Everyday, false);
    }
    if str_eq(scheduler, "scx_p2dq") {
        return make_info(scheduler, BLURB_P2DQ, "scale-balanced-symbolic", Badge::Everyday, true);
    }
    if str_eq(scheduler, "scx_tickless") {
        return make_info(scheduler, BLURB_TICKLESS, "server-symbolic", Badge::Server, true);
    }
    if str_eq(scheduler, "scx_cosmos") {
        return make_info(scheduler, BLURB_COSMOS, "moon-symbolic", Badge::Everyday, true);
    }
    if str_eq(scheduler, "scx_cake") {
        return make_info(scheduler, BLURB_CAKE, "cake-candles-symbolic", Badge::LowLatency, true);
    }
    if str_eq(scheduler, "scx_flash") {
        return make_info(scheduler, BLURB_FLASH, "bolt-symbolic", Badge::LowLatency, true);
    }
    if str_eq(scheduler, "scx_flow") {
        return make_info(scheduler, BLURB_FLOW, "wind-symbolic", Badge::Everyday, false);
    }
    if str_eq(scheduler, "scx_beerland") {
        return make_info(scheduler, BLURB_BEERLAND, "beer-mug-empty-symbolic", Badge::Everyday, false);
    }
    if str_eq(scheduler, "scx_pandemonium") {
        return make_info(scheduler, BLURB_PANDEMONIUM, "brain-symbolic", Badge::Experimental, false);
    }
    if str_eq(scheduler, "scx_rustland") {
        return make_info(scheduler, BLURB_RUSTLAND, "flask-symbolic", Badge::Experimental, false);
    }
    if str_eq(scheduler, "scx_layered") {
        return make_info(scheduler, BLURB_LAYERED, "layer-group-symbolic", Badge::Server, false);
    }
    if str_eq(scheduler, "scx_chaos") {
        return make_info(scheduler, BLURB_CHAOS, "dice-symbolic", Badge::Experimental, false);
    }
    if str_eq(scheduler, "scx_mitosis") {
        return make_info(scheduler, BLURB_MITOSIS, "clone-symbolic", Badge::Experimental, false);
    }
    if str_eq(scheduler, "scx_simple") {
        return make_info(scheduler, BLURB_SIMPLE, "cube-symbolic", Badge::Baseline, false);
    }
    if str_eq(scheduler, "scx_central") {
        return make_info(scheduler, BLURB_CENTRAL, "bullseye-symbolic", Badge::Baseline, false);
    }
    if str_eq(scheduler, "scx_userland") {
        return make_info(scheduler, BLURB_USERLAND, "terminal-symbolic", Badge::Experimental, false);
    }
    if str_eq(scheduler, "scx_nest") {
        return make_info(scheduler, BLURB_NEST, "fire-symbolic", Badge::Experimental, false);
    }
    if str_eq(scheduler, "scx_pair") {
        return make_info(scheduler, BLURB_PAIR, "link-symbolic", Badge::Experimental, false);
    }
    if str_eq(scheduler, "scx_prev") {
        return make_info(scheduler, BLURB_PREV, "arrow-rotate-left-symbolic", Badge::Baseline, false);
    }
    make_info(scheduler, BLURB_UNKNOWN, "microchip-symbolic", Badge::Other, false)
}

/// Every descriptor is titled with the name it was asked for.
pub proof fn lemma_title_is_name(name: Seq<char>)
    ensures
        catalog_entry(name).title == name,
{
}

/// A scheduler gets a real badge exactly when the catalog knows it; only
/// cataloged schedulers offer profiles.
pub proof fn lemma_badge_marks_cataloged(name: Seq<char>)
    ensures
        (catalog_entry(name).badge != Badge::Other) == is_cataloged(name),
        catalog_entry(name).supports_profiles ==> is_cataloged(name),
{
}

/// ASCII lower-casing of one character; every other character is unchanged.
pub open spec fn ascii_lower(c: char) -> char {
    if 'A' <= c && c <= 'Z' {
        ((c as u32) + 32) as char
    } else {
        c
    }
}

/// A label lower-cased in ASCII, with its spaces taken out.
pub open spec fn class_suffix(label: Seq<char>) -> Seq<char>
    decreases label.len(),
{
    if label.len() == 0 {
        seq![]
    } else {
        (if label[0] == ' ' {
            seq![]
        } else {
            seq![ascii_lower(label[0])]
        }) + class_suffix(label.drop_first())
    }
}

/// Each badge's CSS class is "synse-badge-" followed by its label, lower-cased
/// and without spaces.
pub proof fn lemma_css_class_follows_label(b: Badge)
    ensures
        badge_css_class(b) == "synse-badge-"@ + class_suffix(badge_label(b)),
{
    reveal_strlit("synse-badge-");
    reveal_with_fuel(class_suffix, 13);
    match b {
        Badge::Everyday => {
            reveal_strlit("Everyday");
            reveal_strlit("synse-badge-everyday");
            assert(badge_css_class(b) =~= "synse-badge-"@ + class_suffix(badge_label(b)));
        },
        Badge::Gaming => {
            reveal_strlit("Gaming");
            reveal_strlit("synse-badge-gaming");
            assert(badge_css_class(b) =~= "synse-badge-"@ + class_suffix(badge_label(b)));
        },
        Badge::LowLatency => {
            reveal_strlit("Low latency");
            reveal_strlit("synse-badge-lowlatency");
            assert(badge_css_class(b) =~= "synse-badge-"@ + class_suffix(badge_label(b)));
        },
        Badge::Server => {
            reveal_strlit("Server");
            reveal_strlit("synse-badge-server");
            assert(badge_css_class(b) =~= "synse-badge-"@ + class_suffix(badge_label(b)));
        },
        Badge::Experimental => {
            reveal_strlit("Experimental");
            reveal_strlit("synse-badge-experimental");
            assert(badge_css_class(b) =~= "synse-badge-"@ + class_suffix(badge_label(b)));
        },
        Badge::Baseline => {
            reveal_strlit("Baseline");
            reveal_strlit("synse-badge-baseline");
            assert(badge_css_class(b) =~= "synse-badge-"@ + class_suffix(badge_label(b)));
        },
        Badge::Other => {
            reveal_strlit("Other");
            reveal_strlit("synse-badge-other");
            assert(badge_css_class(b) =~= "synse-badge-"@ + class_suffix(badge_label(b)));
        },
    }
}

/// The length and two characters of every cataloged name, which tell the
/// names apart.
proof fn lemma_cataloged_name_chars()
    ensures
        "scx_bpfland"@.len() == 11 && "scx_bpfland"@[4] == 'b' && "scx_bpfland"@[5] == 'p',
        "scx_lavd"@.len() == 8 && "scx_lavd"@[4] == 'l' && "scx_lavd"@[5] == 'a',
        "scx_rusty"@.len() == 9 && "scx_rusty"@[4] == 'r' && "scx_rusty"@[5] == 'u',
        "scx_p2dq"@.len() == 8 && "scx_p2dq"@[4] == 'p' && "scx_p2dq"@[5] == '2',
        "scx_tickless"@.len() == 12 && "scx_tickless"@[4] == 't' && "scx_tickless"@[5] == 'i',
        "scx_cosmos"@.len() == 10 && "scx_cosmos"@[4] == 'c' && "scx_cosmos"@[5] == 'o',
        "scx_cake"@.len() == 8 && "scx_cake"@[4] == 'c' && "scx_cake"@[5] == 'a',
        "scx_flash"@.len() == 9 && "scx_flash"@[4] == 'f' && "scx_flash"@[5] == 'l',
        "scx_flow"@.len() == 8 && "scx_flow"@[4] == 'f' && "scx_flow"@[5] == 'l',
        "scx_beerland"@.len() == 12 && "scx_beerland"@[4] == 'b' && "scx_beerland"@[5] == 'e',
        "scx_pandemonium"@.len() == 15 && "scx_pandemonium"@[4] == 'p' && "scx_pandemonium"@[5] == 'a',
        "scx_rustland"@.len() == 12 && "scx_rustland"@[4] == 'r' && "scx_rustland"@[5] == 'u',
        "scx_layered"@.len() == 11 && "scx_layered"@[4] == 'l' && "scx_layered"@[5] == 'a',
        "scx_chaos"@.len() == 9 && "scx_chaos"@[4] == 'c' && "scx_chaos"@[5] == 'h',
        "scx_mitosis"@.len() == 11 && "scx_mitosis"@[4] == 'm' && "scx_mitosis"@[5] == 'i',
        "scx_simple"@.len() == 10 && "scx_simple"@[4] == 's' && "scx_simple"@[5] == 'i',
        "scx_central"@.len() == 11 && "scx_central"@[4] == 'c' && "scx_central"@[5] == 'e',
        "scx_userland"@.len() == 12 && "scx_userland"@[4] == 'u' && "scx_userland"@[5] == 's',
        "scx_nest"@.len() == 8 && "scx_nest"@[4] == 'n' && "scx_nest"@[5] == 'e',
        "scx_pair"@.len() == 8 && "scx_pair"@[4] == 'p' && "scx_pair"@[5] == 'a',
        "scx_prev"@.len() == 8 && "scx_prev"@[4] == 'p' && "scx_prev"@[5] == 'r',
{
    reveal_strlit("scx_bpfland");
    reveal_strlit("scx_lavd");
    reveal_strlit("scx_rusty");
    reveal_strlit("scx_p2dq");
    reveal_strlit("scx_tickless");
    reveal_strlit("scx_cosmos");
    reveal_strlit("scx_cake");
    reveal_strlit("scx_flash");
    reveal_strlit("scx_flow");
    reveal_strlit("scx_beerland");
    reveal_strlit("scx_pandemonium");
    reveal_strlit("scx_rustland");
    reveal_strlit("scx_layered");
    reveal_strlit("scx_chaos");
    reveal_strlit("scx_mitosis");
    reveal_strlit("scx_simple");
    reveal_strlit("scx_central");
    reveal_strlit("scx_userland");
    reveal_strlit("scx_nest");
    reveal_strlit("scx_pair");
    reveal_strlit("scx_prev");
}

/// The mode picker is offered for exactly these schedulers, which take
/// scx_loader's profiles: scx_bpfland, scx_lavd, scx_p2dq, scx_tickless,
/// scx_cosmos, scx_cake and scx_flash.
pub proof fn lemma_profile_capable_schedulers(name: Seq<char>)
    ensures
        catalog_entry(name).supports_profiles == (name == "scx_bpfland"@ || name == "scx_lavd"@ || name == "scx_p2dq"@ || name == "scx_tickless"@ || name == "scx_cosmos"@ || name == "scx_cake"@ || name == "scx_flash"@),
{
    lemma_cataloged_name_chars();
}

/// Which schedulers carry which badge.
pub proof fn lemma_badge_groups(name: Seq<char>)
    ensures
        (catalog_entry(name).badge == Badge::Everyday) == (name == "scx_bpfland"@ || name == "scx_rusty"@ || name == "scx_p2dq"@ || name == "scx_cosmos"@ || name == "scx_flow"@ || name == "scx_beerland"@),
        (catalog_entry(name).badge == Badge::Gaming) == (name == "scx_lavd"@),
        (catalog_entry(name).badge == Badge::Server) == (name == "scx_tickless"@ || name == "scx_layered"@),
        (catalog_entry(name).badge == Badge::LowLatency) == (name == "scx_cake"@ || name == "scx_flash"@),
        (catalog_entry(name).badge == Badge::Experimental) == (name == "scx_pandemonium"@ || name == "scx_rustland"@ || name == "scx_chaos"@ || name == "scx_mitosis"@ || name == "scx_userland"@ || name == "scx_nest"@ || name == "scx_pair"@),
        (catalog_entry(name).badge == Badge::Baseline) == (name == "scx_simple"@ || name == "scx_central"@ || name == "scx_prev"@),
{
    lemma_cataloged_name_chars();
}

/// The length and first character of every catalog icon, which tell the icons apart.
proof fn lemma_icon_chars()
    ensures
        "gamepad-symbolic"@.len() == 16 && "gamepad-symbolic"@[0] == 'g',
        "headphones-symbolic"@.len() == 19 && "headphones-symbolic"@[0] == 'h',
        "sitemap-symbolic"@.len() == 16 && "sitemap-symbolic"@[0] == 's',
        "scale-balanced-symbolic"@.len() == 23 && "scale-balanced-symbolic"@[0] == 's',
        "server-symbolic"@.len() == 15 && "server-symbolic"@[0] == 's',
        "moon-symbolic"@.len() == 13 && "moon-symbolic"@[0] == 'm',
        "cake-candles-symbolic"@.len() == 21 && "cake-candles-symbolic"@[0] == 'c',
        "bolt-symbolic"@.len() == 13 && "bolt-symbolic"@[0] == 'b',
        "wind-symbolic"@.len() == 13 && "wind-symbolic"@[0] == 'w',
        "beer-mug-empty-symbolic"@.len() == 23 && "beer-mug-empty-symbolic"@[0] == 'b',
        "brain-symbolic"@.len() == 14 && "brain-symbolic"@[0] == 'b',
        "flask-symbolic"@.len() == 14 && "flask-symbolic"@[0] == 'f',
        "layer-group-symbolic"@.len() == 20 && "layer-group-symbolic"@[0] == 'l',
        "dice-symbolic"@.len() == 13 && "dice-symbolic"@[0] == 'd',
        "clone-symbolic"@.len() == 14 && "clone-symbolic"@[0] == 'c',
        "cube-symbolic"@.len() == 13 && "cube-symbolic"@[0] == 'c',
        "bullseye-symbolic"@.len() == 17 && "bullseye-symbolic"@[0] == 'b',
        "terminal-symbolic"@.len() == 17 && "terminal-symbolic"@[0] == 't',
        "fire-symbolic"@.len() == 13 && "fire-symbolic"@[0] == 'f',
        "link-symbolic"@.len() == 13 && "link-symbolic"@[0] == 'l',
        "arrow-rotate-left-symbolic"@.len() == 26 && "arrow-rotate-left-symbolic"@[0] == 'a',
        "microchip-symbolic"@.len() == 18 && "microchip-symbolic"@[0] == 'm',
{
    reveal_strlit("gamepad-symbolic");
    reveal_strlit("headphones-symbolic");
    reveal_strlit("sitemap-symbolic");
    reveal_strlit("scale-balanced-symbolic");
    reveal_strlit("server-symbolic");
    reveal_strlit("moon-symbolic");
    reveal_strlit("cake-candles-symbolic");
    reveal_strlit("bolt-symbolic");
    reveal_strlit("wind-symbolic");
    reveal_strlit("beer-mug-empty-symbolic");
    reveal_strlit("brain-symbolic");
    reveal_strlit("flask-symbolic");
    reveal_strlit("layer-group-symbolic");
    reveal_strlit("dice-symbolic");
    reveal_strlit("clone-symbolic");
    reveal_strlit("cube-symbolic");
    reveal_strlit("bullseye-symbolic");
    reveal_strlit("terminal-symbolic");
    reveal_strlit("fire-symbolic");
    reveal_strlit("link-symbolic");
    reveal_strlit("arrow-rotate-left-symbolic");
    reveal_strlit("microchip-symbolic");
}

/// The length and two characters of every catalog description, which tell
/// the descriptions apart.
proof fn lemma_blurb_chars()
    ensures
        BLURB_BPFLAND@.len() == 109 && BLURB_BPFLAND@[0] == 'A' && BLURB_BPFLAND@[6] == 'u',
        BLURB_LAVD@.len() == 87 && BLURB_LAVD@[0] == 'L' && BLURB_LAVD@[6] == 'y',
        BLURB_RUSTY@.len() == 85 && BLURB_RUSTY@[0] == 'M' && BLURB_RUSTY@[6] == 'd',
        BLURB_P2DQ@.len() == 71 && BLURB_P2DQ@[0] == 'V' && BLURB_P2DQ@[6] == 'i',
        BLURB_TICKLESS@.len() == 98 && BLURB_TICKLESS@[0] == 'S' && BLURB_TICKLESS@[6] == ' ',
        BLURB_COSMOS@.len() == 73 && BLURB_COSMOS@[0] == 'L' && BLURB_COSMOS@[6] == 'e',
        BLURB_CAKE@.len() == 83 && BLURB_CAKE@[0] == 'B' && BLURB_CAKE@[6] == 's',
        BLURB_FLASH@.len() == 71 && BLURB_FLASH@[0] == 'T' && BLURB_FLASH@[6] == 'f',
        BLURB_FLOW@.len() == 85 && BLURB_FLOW@[0] == 'M' && BLURB_FLOW@[6] == 'l',
        BLURB_BEERLAND@.len() == 106 && BLURB_BEERLAND@[0] == 'P' && BLURB_BEERLAND@[6] == 't',
        BLURB_PANDEMONIUM@.len() == 97 && BLURB_PANDEMONIUM@[0] == 'A' && BLURB_PANDEMONIUM@[6] == 'v',
        BLURB_RUSTLAND@.len() == 93 && BLURB_RUSTLAND@[0] == 'R' && BLURB_RUSTLAND@[6] == 't',
        BLURB_LAYERED@.len() == 84 && BLURB_LAYERED@[0] == 'C' && BLURB_LAYERED@[6] == 'u',
        BLURB_CHAOS@.len() == 85 && BLURB_CHAOS@[0] == 'I' && BLURB_CHAOS@[6] == 's',
        BLURB_MITOSIS@.len() == 70 && BLURB_MITOSIS@[0] == 'S' && BLURB_MITOSIS@[6] == ' ',
        BLURB_SIMPLE@.len() == 76 && BLURB_SIMPLE@[0] == 'M' && BLURB_SIMPLE@[6] == 'l',
        BLURB_CENTRAL@.len() == 85 && BLURB_CENTRAL@[0] == 'R' && BLURB_CENTRAL@[6] == ' ',
        BLURB_USERLAND@.len() == 87 && BLURB_USERLAND@[0] == 'E' && BLURB_USERLAND@[6] == 'e',
        BLURB_NEST@.len() == 86 && BLURB_NEST@[0] == 'R' && BLURB_NEST@[6] == 'c',
        BLURB_PAIR@.len() == 68 && BLURB_PAIR@[0] == 'R' && BLURB_PAIR@[6] == 'c',
        BLURB_PREV@.len() == 71 && BLURB_PREV@[0] == 'S' && BLURB_PREV@[6] == ' ',
        BLURB_UNKNOWN@.len() == 55 && BLURB_UNKNOWN@[0] == 'S' && BLURB_UNKNOWN@[6] == 'e',
{
    reveal_strlit("All-rounder that keeps interactive apps snappy with low input lag. Great for everyday desktop use and gaming.");
    reveal_strlit("Latency-aware deadline scheduling. A favorite for gaming, esports, and real-time audio.");
    reveal_strlit("Multi-domain scheduler that scales smoothly across large multi-core and NUMA systems.");
    reveal_strlit("Versatile \u{201c}pick-two\u{201d} load balancer that adapts well to mixed workloads.");
    reveal_strlit("Server and virtualization scheduler that cuts timer-tick noise for steadier, isolated performance.");
    reveal_strlit("Lightweight scheduler that keeps tasks on warm CPUs to minimize overhead.");
    reveal_strlit("Borrows CAKE anti-bufferbloat ideas to keep the system responsive under heavy load.");
    reveal_strlit("Tuned for multimedia and real-time audio with consistently low latency.");
    reveal_strlit("Multi-lane, budget-based scheduler balancing snappy response with general throughput.");
    reveal_strlit("Prioritizes cache locality and scalability \u{2014} handy on many-core machines and surprisingly good for gaming.");
    reveal_strlit("Adaptive scheduler that learns and classifies task behavior on the fly. Newer and still maturing.");
    reveal_strlit("Runs its scheduling policy in user-space Rust \u{2014} mainly a research and prototyping playground.");
    reveal_strlit("Configurable layered scheduling tuned for specific server and workstation workloads.");
    reveal_strlit("Injects randomized scheduling delays to stress-test software and surface timing bugs.");
    reveal_strlit("Splits the machine into dynamic cells for isolated scheduling domains.");
    reveal_strlit("Minimal global vtime scheduler. A clean baseline rather than a daily driver.");
    reveal_strlit("Routes all scheduling decisions through a single CPU \u{2014} a specialized baseline design.");
    reveal_strlit("Example scheduler that runs entirely in user space. For experimentation, not daily use.");
    reveal_strlit("Research scheduler that re-uses recently active (warm) cores to keep frequencies high.");
    reveal_strlit("Research scheduler that co-schedules tasks onto SMT sibling threads.");
    reveal_strlit("Simple scheduler that favors a task's previous CPU to keep caches warm.");
    reveal_strlit("Sched-ext scheduler. No description in the catalog yet.");
}

/// Every cataloged scheduler has an icon of its own, and the generic chip icon
/// marks exactly the schedulers the catalog does not know.
pub proof fn lemma_catalog_icons(name: Seq<char>)
    ensures
        (catalog_entry(name).icon == "gamepad-symbolic"@) == (name == "scx_bpfland"@),
        (catalog_entry(name).icon == "headphones-symbolic"@) == (name == "scx_lavd"@),
        (catalog_entry(name).icon == "sitemap-symbolic"@) == (name == "scx_rusty"@),
        (catalog_entry(name).icon == "scale-balanced-symbolic"@) == (name == "scx_p2dq"@),
        (catalog_entry(name).icon == "server-symbolic"@) == (name == "scx_tickless"@),
        (catalog_entry(name).icon == "moon-symbolic"@) == (name == "scx_cosmos"@),
        (catalog_entry(name).icon == "cake-candles-symbolic"@) == (name == "scx_cake"@),
        (catalog_entry(name).icon == "bolt-symbolic"@) == (name == "scx_flash"@),
        (catalog_entry(name).icon == "wind-symbolic"@) == (name == "scx_flow"@),
        (catalog_entry(name).icon == "beer-mug-empty-symbolic"@) == (name == "scx_beerland"@),
        (catalog_entry(name).icon == "brain-symbolic"@) == (name == "scx_pandemonium"@),
        (catalog_entry(name).icon == "flask-symbolic"@) == (name == "scx_rustland"@),
        (catalog_entry(name).icon == "layer-group-symbolic"@) == (name == "scx_layered"@),
        (catalog_entry(name).icon == "dice-symbolic"@) == (name == "scx_chaos"@),
        (catalog_entry(name).icon == "clone-symbolic"@) == (name == "scx_mitosis"@),
        (catalog_entry(name).icon == "cube-symbolic"@) == (name == "scx_simple"@),
        (catalog_entry(name).icon == "bullseye-symbolic"@) == (name == "scx_central"@),
        (catalog_entry(name).icon == "terminal-symbolic"@) == (name == "scx_userland"@),
        (catalog_entry(name).icon == "fire-symbolic"@) == (name == "scx_nest"@),
        (catalog_entry(name).icon == "link-symbolic"@) == (name == "scx_pair"@),
        (catalog_entry(name).icon == "arrow-rotate-left-symbolic"@) == (name == "scx_prev"@),
        (catalog_entry(name).icon == "microchip-symbolic"@) == !is_cataloged(name),
{
    lemma_cataloged_name_chars();
    lemma_icon_chars();
}

/// Every cataloged scheduler has a description of its own, and the generic
/// description marks exactly the schedulers the catalog does not know.
pub proof fn lemma_catalog_blurbs(name: Seq<char>)
    ensures
        (catalog_entry(name).blurb == BLURB_BPFLAND@) == (name == "scx_bpfland"@),
        (catalog_entry(name).blurb == BLURB_LAVD@) == (name == "scx_lavd"@),
        (catalog_entry(name).blurb == BLURB_RUSTY@) == (name == "scx_rusty"@),
        (catalog_entry(name).blurb == BLURB_P2DQ@) == (name == "scx_p2dq"@),
        (catalog_entry(name).blurb == BLURB_TICKLESS@) == (name == "scx_tickless"@),
        (catalog_entry(name).blurb == BLURB_COSMOS@) == (name == "scx_cosmos"@),
        (catalog_entry(name).blurb == BLURB_CAKE@) == (name == "scx_cake"@),
        (catalog_entry(name).blurb == BLURB_FLASH@) == (name == "scx_flash"@),
        (catalog_entry(name).blurb == BLURB_FLOW@) == (name == "scx_flow"@),
        (catalog_entry(name).blurb == BLURB_BEERLAND@) == (name == "scx_beerland"@),
        (catalog_entry(name).blurb == BLURB_PANDEMONIUM@) == (name == "scx_pandemonium"@),
        (catalog_entry(name).blurb == BLURB_RUSTLAND@) == (name == "scx_rustland"@),
        (catalog_entry(name).blurb == BLURB_LAYERED@) == (name == "scx_layered"@),
        (catalog_entry(name).blurb == BLURB_CHAOS@) == (name == "scx_chaos"@),
        (catalog_entry(name).blurb == BLURB_MITOSIS@) == (name == "scx_mitosis"@),
        (catalog_entry(name).blurb == BLURB_SIMPLE@) == (name == "scx_simple"@),
        (catalog_entry(name).blurb == BLURB_CENTRAL@) == (name == "scx_central"@),
        (catalog_entry(name).blurb == BLURB_USERLAND@) == (name == "scx_userland"@),
        (catalog_entry(name).blurb == BLURB_NEST@) == (name == "scx_nest"@),
        (catalog_entry(name).blurb == BLURB_PAIR@) == (name == "scx_pair"@),
        (catalog_entry(name).blurb == BLURB_PREV@) == (name == "scx_prev"@),
        (catalog_entry(name).blurb == BLURB_UNKNOWN@) == !is_cataloged(name),
{
    lemma_cataloged_name_chars();
    lemma_blurb_chars();
}

/// No two badges share a CSS class.
pub proof fn lemma_css_classes_distinct(a: Badge, b: Badge)
    ensures
        badge_css_class(a) == badge_css_class(b) ==> a == b,
{
    reveal_strlit("synse-badge-everyday");
    reveal_strlit("synse-badge-gaming");
    reveal_strlit("synse-badge-lowlatency");
    reveal_strlit("synse-badge-server");
    reveal_strlit("synse-badge-experimental");
    reveal_strlit("synse-badge-baseline");
    reveal_strlit("synse-badge-other");
    if badge_css_class(a) == badge_css_class(b) && a != b {
        assert(badge_css_class(a)[12] != badge_css_class(b)[12] || badge_css_class(a).len() != badge_css_class(b).len());
    }
}

} // verus!
