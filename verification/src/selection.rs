//! The decisions behind the main window: which scheduler and mode start out
//! selected, what the hero card shows, what its single button does, and how
//! the running state and the messages follow from the helper's answer.
use vstd::prelude::*;
use crate::catalog::{describe, catalog_entry, class_suffix, Badge};
use crate::loader::upstream_key;
use crate::ipc::{mode_number, Request, RequestView, Response, SchedMode};
use crate::recommend::Recommendation;
use crate::text::{concat, str_eq};

verus! {

/// The running scheduler and mode, with the name taken as characters.
pub open spec fn running_view(running: Option<(String, SchedMode)>) -> Option<(Seq<char>, SchedMode)> {
    match running {
        Some((n, m)) => Some((n@, m)),
        None => None,
    }
}

/// Whether `scheduler` in `mode` is exactly what is running.
pub open spec fn runs(running: Option<(Seq<char>, SchedMode)>, scheduler: Seq<char>, mode: SchedMode) -> bool {
    running == Some((scheduler, mode))
}

/// Whether `scheduler` in `mode` is exactly what scx_loader runs.
pub fn is_running_selection(running: &Option<(String, SchedMode)>, scheduler: &str, mode: SchedMode) -> (r: bool)
    ensures
        r == runs(running_view(*running), scheduler@, mode),
{
    match running {
        Some((n, m)) => str_eq(n.as_str(), scheduler) && *m == mode,
        None => false,
    }
}

/// What the hero card's button does for the current selection.
#[derive(Debug, Clone, Copy, PartialEq, Eq, Structural)]
pub enum HeroAction {
    /// Start the selected scheduler in the selected mode.
    Apply,
    /// Stop the scheduler, which already runs exactly as selected.
    TurnOff,
}

/// Applying the running selection would change nothing, so the button turns
/// the scheduler off instead.
pub open spec fn action_for(running: Option<(Seq<char>, SchedMode)>, scheduler: Seq<char>, mode: SchedMode) -> HeroAction {
    if runs(running, scheduler, mode) {
        HeroAction::TurnOff
    } else {
        HeroAction::Apply
    }
}

/// The button's text for an action.
pub open spec fn action_label(a: HeroAction) -> Seq<char> {
    match a {
        HeroAction::Apply => "Apply"@,
        HeroAction::TurnOff => "Turn off"@,
    }
}

impl HeroAction {
    /// The button's text.
    pub fn label(self) -> (r: &'static str)
        ensures
            r@ == action_label(self),
    {
        match self {
            HeroAction::Apply => "Apply",
            HeroAction::TurnOff => "Turn off",
        }
    }

    /// Whether the button is styled as the suggested action (only "Apply" is).
    pub fn is_suggested(self) -> (r: bool)
        ensures
            r == (self == HeroAction::Apply),
    {
        match self {
            HeroAction::Apply => true,
            HeroAction::TurnOff => false,
        }
    }
}

/// What the button does for `scheduler` in `mode`.
pub fn hero_action(running: &Option<(String, SchedMode)>, scheduler: &str, mode: SchedMode) -> (a: HeroAction)
    ensures
        a == action_for(running_view(*running), scheduler@, mode),
{
    if is_running_selection(running, scheduler, mode) {
        HeroAction::TurnOff
    } else {
        HeroAction::Apply
    }
}

/// The request the button sends: a disable request when it turns the
/// scheduler off, else a request to apply the selection.
pub open spec fn request_for(action: HeroAction, scheduler: Seq<char>, mode: SchedMode) -> RequestView {
    match action {
        HeroAction::TurnOff => RequestView::Disable,
        HeroAction::Apply => RequestView::Apply { scheduler, mode },
    }
}

/// The request to send for a click with `scheduler` and `mode` selected.
pub fn action_request(action: HeroAction, scheduler: &str, mode: SchedMode) -> (r: Request)
    ensures
        r@ == request_for(action, scheduler@, mode),
{
    match action {
        HeroAction::TurnOff => Request::Disable,
        HeroAction::Apply => Request::Apply { scheduler: scheduler.to_owned(), mode },
    }
}

/// What runs after the helper accepted a request: nothing after a disable
/// request, the applied selection after an apply request.
pub open spec fn running_after(running: Option<(Seq<char>, SchedMode)>, req: RequestView) -> Option<(Seq<char>, SchedMode)> {
    match req {
        RequestView::Disable => None,
        RequestView::Apply { scheduler, mode } => Some((scheduler, mode)),
        RequestView::Ping => running,
    }
}

/// The running state once the helper answered `req` with success.
pub fn record_success(running: Option<(String, SchedMode)>, req: &Request) -> (r: Option<(String, SchedMode)>)
    ensures
        running_view(r) == running_after(running_view(running), req@),
{
    match req {
        Request::Disable => None,
        Request::Apply { scheduler, mode } => Some((scheduler.clone(), *mode)),
        Request::Ping => running,
    }
}

/// After a click that the helper accepted, the button offers the opposite of
/// what was just done for the same selection: applying a selection makes the
/// button turn it off, and turning it off makes the button apply it again.
pub proof fn lemma_button_toggles(running: Option<(Seq<char>, SchedMode)>, scheduler: Seq<char>, mode: SchedMode)
    ensures
        ({
            let a = action_for(running, scheduler, mode);
            let after = running_after(running, request_for(a, scheduler, mode));
            action_for(after, scheduler, mode) != a
        }),
{
}

/// After turning a scheduler off, nothing is running, so every selection is
/// offered for applying.
pub proof fn lemma_after_turn_off_all_apply(running: Option<(Seq<char>, SchedMode)>, scheduler: Seq<char>, mode: SchedMode, other: Seq<char>, other_mode: SchedMode)
    requires
        action_for(running, scheduler, mode) == HeroAction::TurnOff,
    ensures
        action_for(running_after(running, request_for(HeroAction::TurnOff, scheduler, mode)), other, other_mode) == HeroAction::Apply,
{
}

/// The scheduler first selected in the window: the running one, else the
/// recommended one when scx_loader offers it, else the first one offered.
pub open spec fn initial_selection_for(running: Option<(Seq<char>, SchedMode)>, offered: Seq<Seq<char>>, recommended: Seq<char>) -> Seq<char>
    recommends
        offered.len() > 0,
{
    match running {
        Some((n, _)) => n,
        None => if offered.contains(recommended) {
            recommended
        } else {
            offered[0]
        },
    }
}

/// The scheduler first selected in the window.
pub fn initial_selection(running: &Option<(String, SchedMode)>, offered: &Vec<String>, rec: &Recommendation) -> (sel: String)
    requires
        offered@.len() > 0,
    ensures
        sel@ == initial_selection_for(running_view(*running), offered@.map_values(|s: String| s@), rec.scheduler@),
{
    let ghost names = offered@.map_values(|s: String| s@);
    match running {
        Some((n, _)) => {
            return n.clone();
        },
        None => {},
    }
    let k = offered.len();
    let mut i: usize = 0;
    while i < k
        invariant
            k == offered@.len(),
            i <= k,
            names == offered@.map_values(|s: String| s@),
            *running is None,
            forall|j: int| 0 <= j < i ==> names[j] != rec.scheduler@,
        decreases k - i,
    {
        if str_eq(offered[i].as_str(), rec.scheduler) {
            assert(names[i as int] == rec.scheduler@);
            assert(names.contains(rec.scheduler@));
            return offered[i].clone();
        }
        i = i + 1;
    }
    assert(!names.contains(rec.scheduler@));
    offered[0].clone()
}

/// The mode first selected: the running mode when the running scheduler is
/// the first selection, so the button reads "Turn off" on launch; otherwise
/// the recommended mode.
pub fn initial_mode(running: &Option<(String, SchedMode)>, selected: &str, rec: &Recommendation) -> (m: SchedMode)
    ensures
        m == match running_view(*running) {
            Some((n, rm)) => if n == selected@ { rm } else { rec.mode },
            None => rec.mode,
        },
{
    match running {
        Some((n, m)) => {
            if str_eq(n.as_str(), selected) {
                *m
            } else {
                rec.mode
            }
        },
        None => rec.mode,
    }
}

/// A first selection that is running is offered for turning off.
pub proof fn lemma_launch_offers_turn_off(running: Option<(Seq<char>, SchedMode)>, offered: Seq<Seq<char>>, recommended: Seq<char>, rec_mode: SchedMode)
    requires
        running is Some,
    ensures
        ({
            let sel = initial_selection_for(running, offered, recommended);
            let mode = match running {
                Some((n, rm)) => if n == sel { rm } else { rec_mode },
                None => rec_mode,
            };
            action_for(running, sel, mode) == HeroAction::TurnOff
        }),
{
}

/// What the hero card shows for a scheduler.
pub struct HeroCard {
    pub title: String,
    pub subtitle: String,
    pub icon_name: &'static str,
    pub badge: Badge,
    /// Whether the card carries the "Recommended" badge and accent.
    pub recommended: bool,
}

/// The hero card for `scheduler`: its catalog title, icon and badge; when it
/// is the recommended scheduler, the recommendation's rationale and the
/// "Recommended" mark, else its catalog description.
pub fn hero_card(scheduler: &str, rec: &Recommendation) -> (card: HeroCard)
    ensures
        card.title@ == catalog_entry(scheduler@).title,
        card.icon_name@ == catalog_entry(scheduler@).icon,
        card.badge == catalog_entry(scheduler@).badge,
        card.recommended == (scheduler@ == rec.scheduler@),
        card.recommended ==> card.subtitle@ == rec.reason@,
        !card.recommended ==> card.subtitle@ == catalog_entry(scheduler@).blurb,
{
    let info = describe(scheduler);
    let recommended = str_eq(scheduler, rec.scheduler);
    let subtitle = if recommended {
        rec.reason.to_owned()
    } else {
        info.blurb
    };
    HeroCard { title: info.display_title, subtitle, icon_name: info.icon_name, badge: info.badge, recommended }
}

/// The debug name of a mode, as messages print it.
pub open spec fn mode_name(mode: SchedMode) -> Seq<char> {
    match mode {
        SchedMode::Auto => "Auto"@,
        SchedMode::Gaming => "Gaming"@,
        SchedMode::PowerSave => "PowerSave"@,
        SchedMode::LowLatency => "LowLatency"@,
        SchedMode::Server => "Server"@,
    }
}

/// The modes' names, in scx_loader's numbering: 0 is Auto, 1 Gaming,
/// 2 PowerSave, 3 LowLatency, 4 Server. Distinct modes have distinct names.
pub proof fn lemma_mode_names_follow_numbering(m: SchedMode, other: SchedMode)
    ensures
        mode_name(m) == seq!["Auto"@, "Gaming"@, "PowerSave"@, "LowLatency"@, "Server"@][mode_number(m) as int],
        mode_name(m) == mode_name(other) ==> m == other,
{
    reveal_strlit("Auto");
    reveal_strlit("Gaming");
    reveal_strlit("PowerSave");
    reveal_strlit("LowLatency");
    reveal_strlit("Server");
    if mode_name(m) == mode_name(other) && m != other {
        assert(mode_name(m)[0] != mode_name(other)[0] || mode_name(m).len() != mode_name(other).len());
    }
}

/// Each mode's radio button is named after the mode: "profile_radio_" and the
/// mode's name lower-cased; scx_loader knows the mode by that lower-cased name.
pub proof fn lemma_radio_ids_name_their_modes(m: SchedMode)
    ensures
        radio_id(m) == "profile_radio_"@ + class_suffix(mode_name(m)),
        upstream_key(m) == class_suffix(mode_name(m)),
{
    reveal_strlit("profile_radio_");
    reveal_with_fuel(class_suffix, 11);
    match m {
        SchedMode::Auto => {
            reveal_strlit("Auto");
            reveal_strlit("auto");
            reveal_strlit("profile_radio_auto");
            assert(radio_id(m) =~= "profile_radio_"@ + class_suffix(mode_name(m)));
            assert(upstream_key(m) =~= class_suffix(mode_name(m)));
        },
        SchedMode::Gaming => {
            reveal_strlit("Gaming");
            reveal_strlit("gaming");
            reveal_strlit("profile_radio_gaming");
            assert(radio_id(m) =~= "profile_radio_"@ + class_suffix(mode_name(m)));
            assert(upstream_key(m) =~= class_suffix(mode_name(m)));
        },
        SchedMode::PowerSave => {
            reveal_strlit("PowerSave");
            reveal_strlit("powersave");
            reveal_strlit("profile_radio_powersave");
            assert(radio_id(m) =~= "profile_radio_"@ + class_suffix(mode_name(m)));
            assert(upstream_key(m) =~= class_suffix(mode_name(m)));
        },
        SchedMode::LowLatency => {
            reveal_strlit("LowLatency");
            reveal_strlit("lowlatency");
            reveal_strlit("profile_radio_lowlatency");
            assert(radio_id(m) =~= "profile_radio_"@ + class_suffix(mode_name(m)));
            assert(upstream_key(m) =~= class_suffix(mode_name(m)));
        },
        SchedMode::Server => {
            reveal_strlit("Server");
            reveal_strlit("server");
            reveal_strlit("profile_radio_server");
            assert(radio_id(m) =~= "profile_radio_"@ + class_suffix(mode_name(m)));
            assert(upstream_key(m) =~= class_suffix(mode_name(m)));
        },
    }
}

fn mode_name_str(mode: SchedMode) -> (r: &'static str)
    ensures
        r@ == mode_name(mode),
{
    match mode {
        SchedMode::Auto => "Auto",
        SchedMode::Gaming => "Gaming",
        SchedMode::PowerSave => "PowerSave",
        SchedMode::LowLatency => "LowLatency",
        SchedMode::Server => "Server",
    }
}

/// The message shown after turning the scheduler off.
pub const TURNED_OFF_MESSAGE: &'static str = "scx scheduler turned off.";

/// The text before the selection in the message shown after a switch.
pub const SWITCHED_PREFIX: &'static str = "Switched to ";

/// What goes between the scheduler and the mode in that message.
pub const SWITCHED_SEPARATOR: &'static str = " \u{b7} ";

/// The text before the helper's complaint in the message for a refused request.
pub const HELPER_ERROR_PREFIX: &'static str = "Helper error: ";

/// The message shown once the helper answered a click: for success, that the
/// scheduler was turned off or which selection now runs; for a failure, the
/// helper's complaint.
pub open spec fn toast_text(action: HeroAction, scheduler: Seq<char>, mode: SchedMode, resp: Response) -> Seq<char> {
    match resp {
        Response::Success => match action {
            HeroAction::TurnOff => TURNED_OFF_MESSAGE@,
            HeroAction::Apply => SWITCHED_PREFIX@ + scheduler + SWITCHED_SEPARATOR@ + mode_name(mode),
        },
        Response::Failure { message } => HELPER_ERROR_PREFIX@ + message@,
    }
}

/// The message for the helper's answer to a click.
pub fn response_toast(action: HeroAction, scheduler: &str, mode: SchedMode, resp: &Response) -> (t: String)
    ensures
        t@ == toast_text(action, scheduler@, mode, *resp),
{
    match resp {
        Response::Success => match action {
            HeroAction::TurnOff => TURNED_OFF_MESSAGE.to_owned(),
            HeroAction::Apply => {
                let a = concat(SWITCHED_PREFIX, scheduler);
                let b = concat(a.as_str(), SWITCHED_SEPARATOR);
                let c = concat(b.as_str(), mode_name_str(mode));
                c
            },
        },
        Response::Failure { message } => concat(HELPER_ERROR_PREFIX, message.as_str()),
    }
}

/// The message when the button is clicked with no scheduler selected.
pub const NO_SELECTION_MESSAGE: &'static str = "Select a scheduler first.";

/// What a click on the hero button does before anything is sent.
#[derive(Debug, Clone, PartialEq, Eq)]
pub enum ClickPlan {
    /// Nothing is sent; the message says why.
    Refuse { message: String },
    /// The request is sent for the selected scheduler.
    Send { action: HeroAction, scheduler: String, request: Request },
}

/// A click with no scheduler selected is refused with a message; otherwise
/// the button's action for the selection is taken and its request is sent.
pub fn plan_click(running: &Option<(String, SchedMode)>, selected: Option<String>, mode: SchedMode) -> (p: ClickPlan)
    ensures
        selected is None ==> (p matches ClickPlan::Refuse { message } && message@ == NO_SELECTION_MESSAGE@),
        selected matches Some(n) ==> (p matches ClickPlan::Send { action, scheduler, request } && action
            == action_for(running_view(*running), n@, mode) && scheduler@ == n@ && request@ == request_for(
            action,
            n@,
            mode,
        )),
{
    match selected {
        None => ClickPlan::Refuse { message: NO_SELECTION_MESSAGE.to_owned() },
        Some(name) => {
            let action = hero_action(running, name.as_str(), mode);
            let request = action_request(action, name.as_str(), mode);
            ClickPlan::Send { action, scheduler: name, request }
        },
    }
}

/// How the exchange for a click ended.
#[derive(Debug)]
pub enum ClickResult {
    /// The helper answered.
    Answered(Response),
    /// The password prompt was dismissed.
    AuthCanceled,
    /// The exchange failed; the text says how.
    Failed(String),
}

/// The message when the password prompt was dismissed.
pub const AUTH_CANCELED_MESSAGE: &'static str = "Authorization canceled.";

/// The text before the error in the message for a failed exchange.
pub const HELPER_FAILED_PREFIX: &'static str = "Helper failed: ";

/// The message shown once a click's exchange ended.
pub open spec fn click_message(action: HeroAction, scheduler: Seq<char>, mode: SchedMode, result: ClickResult) -> Seq<char> {
    match result {
        ClickResult::Answered(resp) => toast_text(action, scheduler, mode, resp),
        ClickResult::AuthCanceled => AUTH_CANCELED_MESSAGE@,
        ClickResult::Failed(text) => HELPER_FAILED_PREFIX@ + text@,
    }
}

/// The window's state after a click's exchange ended.
pub struct ClickOutcome {
    /// What now runs.
    pub running: Option<(String, SchedMode)>,
    /// The message to show.
    pub message: String,
    /// Whether the helper accepted the request (and the button must follow).
    pub accepted: bool,
}

/// The running state changes only when the helper answers with success, and
/// then as the request says; every ending has its message.
pub fn finish_click(
    running: Option<(String, SchedMode)>,
    action: HeroAction,
    scheduler: &str,
    mode: SchedMode,
    result: ClickResult,
) -> (o: ClickOutcome)
    ensures
        o.accepted == (result matches ClickResult::Answered(Response::Success)),
        o.accepted ==> running_view(o.running) == running_after(
            running_view(running),
            request_for(action, scheduler@, mode),
        ),
        !o.accepted ==> o.running == running,
        o.message@ == click_message(action, scheduler@, mode, result),
{
    match result {
        ClickResult::Answered(resp) => {
            let message = response_toast(action, scheduler, mode, &resp);
            match resp {
                Response::Success => {
                    let req = action_request(action, scheduler, mode);
                    let after = record_success(running, &req);
                    ClickOutcome { running: after, message, accepted: true }
                },
                Response::Failure { .. } => ClickOutcome { running, message, accepted: false },
            }
        },
        ClickResult::AuthCanceled => ClickOutcome {
            running,
            message: AUTH_CANCELED_MESSAGE.to_owned(),
            accepted: false,
        },
        ClickResult::Failed(text) => ClickOutcome {
            running,
            message: concat(HELPER_FAILED_PREFIX, text.as_str()),
            accepted: false,
        },
    }
}

/// The banner's text when no scheduler is running.
pub const IDLE_BANNER: &'static str = "sched_ext is supported but no scheduler is running.";

/// The text before the running scheduler's name in the banner.
pub const RUNNING_BANNER_PREFIX: &'static str = "\u{25cf} ";

/// The text after the running scheduler's name in the banner.
pub const RUNNING_BANNER_SUFFIX: &'static str = " is running.";

/// The status banner: which scheduler runs, or that none does.
pub fn banner_title(state: &Option<(String, SchedMode)>) -> (t: String)
    ensures
        t@ == match running_view(*state) {
            Some((n, _)) => RUNNING_BANNER_PREFIX@ + n + RUNNING_BANNER_SUFFIX@,
            None => IDLE_BANNER@,
        },
{
    match state {
        Some((n, _)) => {
            let a = concat(RUNNING_BANNER_PREFIX, n.as_str());
            concat(a.as_str(), RUNNING_BANNER_SUFFIX)
        },
        None => IDLE_BANNER.to_owned(),
    }
}

/// scx_loader names no scheduler ("" or "unknown") when none is loaded.
pub open spec fn is_idle_name(name: Seq<char>) -> bool {
    name == ""@ || name == "unknown"@
}

/// Whether the scheduler name scx_loader reports means that none is loaded.
pub fn reports_no_scheduler(name: &str) -> (r: bool)
    ensures
        r == is_idle_name(name@),
{
    str_eq(name, "") || str_eq(name, "unknown")
}

/// Whether picking `name` in the scheduler list changes the selection (and so
/// must be announced to the listeners).
pub fn selection_changes(selected: &Option<String>, name: &str) -> (r: bool)
    ensures
        r == match *selected {
            Some(s) => s@ != name@,
            None => true,
        },
{
    match selected {
        Some(s) => !str_eq(s.as_str(), name),
        None => true,
    }
}

/// The ids of the mode radio buttons in the profile picker's layout, one per mode.
pub open spec fn radio_id(mode: SchedMode) -> Seq<char> {
    match mode {
        SchedMode::Auto => "profile_radio_auto"@,
        SchedMode::Gaming => "profile_radio_gaming"@,
        SchedMode::PowerSave => "profile_radio_powersave"@,
        SchedMode::LowLatency => "profile_radio_lowlatency"@,
        SchedMode::Server => "profile_radio_server"@,
    }
}

/// Every mode with the id of its radio button, in the layout's order.
pub fn radio_ids() -> (ids: [(SchedMode, &'static str); 5])
    ensures
        ids@[0].0 == SchedMode::Auto,
        ids@[1].0 == SchedMode::Gaming,
        ids@[2].0 == SchedMode::PowerSave,
        ids@[3].0 == SchedMode::LowLatency,
        ids@[4].0 == SchedMode::Server,
        forall|i: int| 0 <= i < 5 ==> (#[trigger] ids@[i]).1@ == radio_id(ids@[i].0),
{
    let ids = [
        (SchedMode::Auto, "profile_radio_auto"),
        (SchedMode::Gaming, "profile_radio_gaming"),
        (SchedMode::PowerSave, "profile_radio_powersave"),
        (SchedMode::LowLatency, "profile_radio_lowlatency"),
        (SchedMode::Server, "profile_radio_server"),
    ];
    assert(forall|i: int| 0 <= i < 5 ==> (#[trigger] ids@[i]).1@ == radio_id(ids@[i].0));
    ids
}

} // verus!
