use scx_synse::catalog::{describe, Badge};
use scx_synse::ipc::{Request, Response, SchedMode};
use scx_synse::recommend::{recommend, SystemProbe};
use scx_synse::selection::{
    action_request, banner_title, hero_action, hero_card, initial_mode, initial_selection,
    is_running_selection, radio_ids, record_success, reports_no_scheduler, response_toast,
    selection_changes, finish_click, plan_click, ClickPlan, ClickResult, HeroAction,
};

fn running(name: &str, mode: SchedMode) -> Option<(String, SchedMode)> {
    Some((name.to_string(), mode))
}

#[test]
fn button_turns_off_exactly_the_running_selection() {
    let r = running("scx_lavd", SchedMode::Gaming);
    assert!(is_running_selection(&r, "scx_lavd", SchedMode::Gaming));
    assert_eq!(hero_action(&r, "scx_lavd", SchedMode::Gaming), HeroAction::TurnOff);
    assert_eq!(hero_action(&r, "scx_lavd", SchedMode::Auto), HeroAction::Apply);
    assert_eq!(hero_action(&r, "scx_bpfland", SchedMode::Gaming), HeroAction::Apply);
    assert_eq!(hero_action(&None, "scx_lavd", SchedMode::Gaming), HeroAction::Apply);
    assert_eq!(HeroAction::TurnOff.label(), "Turn off");
    assert_eq!(HeroAction::Apply.label(), "Apply");
    assert!(HeroAction::Apply.is_suggested());
    assert!(!HeroAction::TurnOff.is_suggested());
}

#[test]
fn accepted_click_toggles_the_button() {
    let mut state: Option<(String, SchedMode)> = None;
    let a = hero_action(&state, "scx_bpfland", SchedMode::Auto);
    let req = action_request(a, "scx_bpfland", SchedMode::Auto);
    assert_eq!(req, Request::Apply { scheduler: "scx_bpfland".into(), mode: SchedMode::Auto });
    state = record_success(state, &req);
    assert_eq!(state, running("scx_bpfland", SchedMode::Auto));
    let b = hero_action(&state, "scx_bpfland", SchedMode::Auto);
    assert_eq!(b, HeroAction::TurnOff);
    let req = action_request(b, "scx_bpfland", SchedMode::Auto);
    assert_eq!(req, Request::Disable);
    state = record_success(state, &req);
    assert_eq!(state, None);
    assert_eq!(hero_action(&state, "scx_bpfland", SchedMode::Auto), HeroAction::Apply);
}

#[test]
fn first_selection_prefers_running_then_recommended_then_first() {
    let rec = recommend(&SystemProbe::default());
    let offered = vec!["scx_lavd".to_string(), "scx_bpfland".to_string()];
    let r = running("scx_rusty", SchedMode::Server);
    assert_eq!(initial_selection(&r, &offered, &rec), "scx_rusty");
    assert_eq!(initial_selection(&None, &offered, &rec), "scx_bpfland");
    let others = vec!["scx_lavd".to_string(), "scx_cake".to_string()];
    assert_eq!(initial_selection(&None, &others, &rec), "scx_lavd");
}

#[test]
fn first_mode_follows_the_running_scheduler() {
    let rec = recommend(&SystemProbe::default());
    let r = running("scx_lavd", SchedMode::LowLatency);
    assert_eq!(initial_mode(&r, "scx_lavd", &rec), SchedMode::LowLatency);
    assert_eq!(initial_mode(&r, "scx_bpfland", &rec), SchedMode::Auto);
    assert_eq!(initial_mode(&None, "scx_lavd", &rec), SchedMode::Auto);
}

#[test]
fn hero_card_shows_reason_for_the_recommended_scheduler() {
    let rec = recommend(&SystemProbe { has_battery: false, has_dgpu: true, cpu_count: 4 });
    let card = hero_card("scx_bpfland", &rec);
    assert!(card.recommended);
    assert_eq!(card.subtitle, "Discrete GPU detected \u{2014} favors input responsiveness.");
    assert_eq!(card.title, "scx_bpfland");
    assert_eq!(card.badge, Badge::Everyday);
    assert_eq!(card.icon_name, "gamepad-symbolic");
    let other = hero_card("scx_lavd", &rec);
    assert!(!other.recommended);
    assert_eq!(other.subtitle, describe("scx_lavd").blurb);
}

#[test]
fn toasts_name_what_happened() {
    assert_eq!(
        response_toast(HeroAction::Apply, "scx_lavd", SchedMode::PowerSave, &Response::Success),
        "Switched to scx_lavd \u{b7} PowerSave"
    );
    assert_eq!(
        response_toast(HeroAction::TurnOff, "scx_lavd", SchedMode::PowerSave, &Response::Success),
        "scx scheduler turned off."
    );
    assert_eq!(
        response_toast(
            HeroAction::Apply,
            "scx_lavd",
            SchedMode::Auto,
            &Response::Failure { message: "boom".into() }
        ),
        "Helper error: boom"
    );
}

#[test]
fn banner_reports_the_running_scheduler() {
    assert_eq!(banner_title(&running("scx_lavd", SchedMode::Auto)), "\u{25cf} scx_lavd is running.");
    assert_eq!(banner_title(&None), "sched_ext is supported but no scheduler is running.");
}

#[test]
fn loader_reports_idle_with_empty_or_unknown() {
    assert!(reports_no_scheduler(""));
    assert!(reports_no_scheduler("unknown"));
    assert!(!reports_no_scheduler("scx_lavd"));
    assert!(!reports_no_scheduler("Unknown"));
}

#[test]
fn picking_the_selected_scheduler_changes_nothing() {
    assert!(!selection_changes(&Some("scx_lavd".to_string()), "scx_lavd"));
    assert!(selection_changes(&Some("scx_lavd".to_string()), "scx_cake"));
    assert!(selection_changes(&None, "scx_lavd"));
}

#[test]
fn every_mode_has_one_radio() {
    let ids = radio_ids();
    assert_eq!(ids[0], (SchedMode::Auto, "profile_radio_auto"));
    assert_eq!(ids[4], (SchedMode::Server, "profile_radio_server"));
    let mut names: Vec<&str> = ids.iter().map(|(_, id)| *id).collect();
    names.sort_unstable();
    names.dedup();
    assert_eq!(names.len(), 5);
}

#[test]
fn click_without_selection_is_refused() {
    assert_eq!(
        plan_click(&None, None, SchedMode::Auto),
        ClickPlan::Refuse { message: "Select a scheduler first.".into() }
    );
    let r = running("scx_lavd", SchedMode::Auto);
    assert_eq!(
        plan_click(&r, Some("scx_lavd".into()), SchedMode::Auto),
        ClickPlan::Send {
            action: HeroAction::TurnOff,
            scheduler: "scx_lavd".into(),
            request: Request::Disable
        }
    );
    assert_eq!(
        plan_click(&r, Some("scx_cake".into()), SchedMode::Auto),
        ClickPlan::Send {
            action: HeroAction::Apply,
            scheduler: "scx_cake".into(),
            request: Request::Apply { scheduler: "scx_cake".into(), mode: SchedMode::Auto }
        }
    );
}

#[test]
fn only_an_accepted_click_changes_what_runs() {
    let r = running("scx_lavd", SchedMode::Auto);
    let ok = finish_click(r.clone(), HeroAction::Apply, "scx_cake", SchedMode::Gaming,
        ClickResult::Answered(Response::Success));
    assert!(ok.accepted);
    assert_eq!(ok.running, running("scx_cake", SchedMode::Gaming));
    assert_eq!(ok.message, "Switched to scx_cake \u{b7} Gaming");

    let off = finish_click(r.clone(), HeroAction::TurnOff, "scx_lavd", SchedMode::Auto,
        ClickResult::Answered(Response::Success));
    assert_eq!(off.running, None);
    assert_eq!(off.message, "scx scheduler turned off.");

    let refused = finish_click(r.clone(), HeroAction::Apply, "scx_cake", SchedMode::Gaming,
        ClickResult::Answered(Response::Failure { message: "denied".into() }));
    assert!(!refused.accepted);
    assert_eq!(refused.running, r);
    assert_eq!(refused.message, "Helper error: denied");

    let canceled = finish_click(r.clone(), HeroAction::Apply, "scx_cake", SchedMode::Gaming,
        ClickResult::AuthCanceled);
    assert_eq!(canceled.running, r);
    assert_eq!(canceled.message, "Authorization canceled.");

    let failed = finish_click(r.clone(), HeroAction::Apply, "scx_cake", SchedMode::Gaming,
        ClickResult::Failed("helper crashed: oops".into()));
    assert!(!failed.accepted);
    assert_eq!(failed.running, r);
    assert_eq!(failed.message, "Helper failed: helper crashed: oops");
}
