use pomodoro_core::models::{SessionType, Theme, TimerState};
use pomodoro_core::state::{
    get_current_theme, set_break_theme, set_focus_theme, set_idle_theme, set_long_break_theme, update_current_theme,
    update_timer_state, AppState, ThemeSlot, TimerStateForUpdate,
};

fn theme(id: &str, name: &str) -> Theme {
    Theme { id: id.to_string(), name: name.to_string() }
}

fn fresh_state() -> AppState {
    AppState::new(
        theme("idle-1", "Paper"),
        theme("focus-1", "Deep Sea"),
        theme("break-1", "Meadow"),
        theme("long-break-1", "Dusk"),
    )
}

fn patch(session_type: Option<SessionType>, is_playing: Option<bool>) -> TimerStateForUpdate {
    TimerStateForUpdate { session_type, is_playing }
}

#[test]
fn starts_stopped_on_focus() {
    let state = fresh_state();
    assert_eq!(state.timer, TimerState { session_type: SessionType::Focus, is_playing: false });
}

#[test]
fn resolves_idle_for_every_kind_when_not_playing() {
    for kind in [SessionType::Focus, SessionType::Break, SessionType::LongBreak] {
        let mut state = fresh_state();
        update_timer_state(&mut state, patch(Some(kind), Some(false)), true);
        assert_eq!(get_current_theme(&state).id, "idle-1");
    }
}

#[test]
fn resolves_each_slot_while_playing() {
    let cases = [
        (SessionType::Focus, "focus-1"),
        (SessionType::Break, "break-1"),
        (SessionType::LongBreak, "long-break-1"),
    ];
    for (kind, expected) in cases {
        let mut state = fresh_state();
        update_timer_state(&mut state, patch(Some(kind), Some(true)), true);
        assert_eq!(get_current_theme(&state).id, expected);
    }
}

#[test]
fn playing_break_update_then_get_returns_break_theme() {
    let mut state = fresh_state();
    update_timer_state(&mut state, patch(Some(SessionType::Break), Some(true)), true);
    let current = get_current_theme(&state);
    assert_eq!(current.id, state.break_theme.id);
    assert_eq!(current.id, "break-1");
}

#[test]
fn set_focus_theme_while_playing_focus_resolves_and_persists_it() {
    let mut state = fresh_state();
    update_timer_state(&mut state, patch(Some(SessionType::Focus), Some(true)), true);
    let outcome = set_focus_theme(&mut state, theme("focus-2", "Lagoon"), true).unwrap();
    assert_eq!(outcome.persist.slot, ThemeSlot::Focus);
    assert_eq!(outcome.persist.theme_id, "focus-2");
    assert_eq!(outcome.event.id, "focus-2");
    assert_eq!(get_current_theme(&state).id, "focus-2");
}

#[test]
fn empty_update_changes_nothing_and_still_reports_once() {
    let mut state = fresh_state();
    update_timer_state(&mut state, patch(Some(SessionType::LongBreak), Some(true)), true);
    let event = update_timer_state(&mut state, patch(None, None), true);
    assert_eq!(state.timer, TimerState { session_type: SessionType::LongBreak, is_playing: true });
    assert_eq!(state.idle_theme.id, "idle-1");
    assert_eq!(state.focus_theme.id, "focus-1");
    assert_eq!(state.break_theme.id, "break-1");
    assert_eq!(state.long_break_theme.id, "long-break-1");
    assert_eq!(event.unwrap().id, "long-break-1");
}

#[test]
fn partial_update_keeps_absent_fields() {
    let mut state = fresh_state();
    update_timer_state(&mut state, patch(Some(SessionType::Break), None), true);
    assert_eq!(state.timer, TimerState { session_type: SessionType::Break, is_playing: false });
    update_timer_state(&mut state, patch(None, Some(true)), true);
    assert_eq!(state.timer, TimerState { session_type: SessionType::Break, is_playing: true });
}

#[test]
fn update_without_publisher_applies_but_reports_nothing() {
    let mut state = fresh_state();
    let event = update_timer_state(&mut state, patch(Some(SessionType::Break), Some(true)), false);
    assert!(event.is_none());
    assert_eq!(state.timer, TimerState { session_type: SessionType::Break, is_playing: true });
}

#[test]
fn set_theme_without_publisher_is_a_full_no_op() {
    let mut state = fresh_state();
    let outcome = set_break_theme(&mut state, theme("break-2", "Orchard"), false);
    assert!(outcome.is_none());
    assert_eq!(state.break_theme.id, "break-1");
    assert_eq!(state.break_theme.name, "Meadow");
}

#[test]
fn different_slots_never_leak_in_either_order() {
    let mut first = fresh_state();
    set_focus_theme(&mut first, theme("focus-9", "Ink"), true);
    set_break_theme(&mut first, theme("break-9", "Moss"), true);

    let mut second = fresh_state();
    set_break_theme(&mut second, theme("break-9", "Moss"), true);
    set_focus_theme(&mut second, theme("focus-9", "Ink"), true);

    for state in [&first, &second] {
        assert_eq!(state.focus_theme.id, "focus-9");
        assert_eq!(state.break_theme.id, "break-9");
        assert_eq!(state.idle_theme.id, "idle-1");
        assert_eq!(state.long_break_theme.id, "long-break-1");
    }
}

#[test]
fn each_setter_replaces_exactly_its_slot() {
    let mut state = fresh_state();
    let idle = set_idle_theme(&mut state, theme("idle-2", "Linen"), true).unwrap();
    let long_break = set_long_break_theme(&mut state, theme("long-break-2", "Night"), true).unwrap();
    assert_eq!(idle.persist.slot, ThemeSlot::Idle);
    assert_eq!(idle.persist.theme_id, "idle-2");
    assert_eq!(long_break.persist.slot, ThemeSlot::LongBreak);
    assert_eq!(long_break.persist.theme_id, "long-break-2");
    assert_eq!(state.idle_theme.id, "idle-2");
    assert_eq!(state.long_break_theme.id, "long-break-2");
    assert_eq!(state.focus_theme.id, "focus-1");
    assert_eq!(state.break_theme.id, "break-1");
}

#[test]
fn setter_event_carries_the_resolved_theme_not_always_the_new_one() {
    // while idle, replacing the focus slot publishes the idle theme
    let mut state = fresh_state();
    let outcome = set_focus_theme(&mut state, theme("focus-3", "Slate"), true).unwrap();
    assert_eq!(outcome.event.id, "idle-1");
    assert_eq!(update_current_theme(&state).id, "idle-1");
}
