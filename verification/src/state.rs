//! Shared application state and the state-update protocol.
//!
//! `AppState` is the single record the host process guards with one
//! exclusive lock: the live timer status and the four theme slots. Theme
//! resolution is a pure, total function of that record, re-evaluated after
//! every mutation so it can never drift from the state.
//!
//! Every mutating operation returns the effects the host must carry out
//! afterwards: which preference to persist and which payload to publish
//! under the `current_theme_updated` event. A caller that has no publishing
//! capability passes `publisher_available == false`; timer updates then
//! still apply but publish nothing, while slot replacements skip entirely,
//! matching the all-or-nothing short-circuit of the protocol.

use crate::models::{SessionType, Theme, TimerState};
use vstd::prelude::*;

verus! {

/// The process-wide mutable record: timer status plus the four
/// independently settable theme slots.
pub struct AppState {
    pub timer: TimerState,
    pub idle_theme: Theme,
    pub focus_theme: Theme,
    pub break_theme: Theme,
    pub long_break_theme: Theme,
}

/// Partial update of the timer: each field is independently optional and
/// an absent field leaves the current value unchanged.
#[derive(Clone, Copy, Debug)]
pub struct TimerStateForUpdate {
    pub session_type: Option<SessionType>,
    pub is_playing: Option<bool>,
}

/// Names one of the four theme slots of `AppState`.
#[derive(Clone, Copy, Debug, PartialEq, Eq, Structural)]
pub enum ThemeSlot {
    Idle,
    Focus,
    Break,
    LongBreak,
}

/// A preference write the host must persist: the slot's configuration key
/// now maps to this theme identifier.
pub struct ThemePersist {
    pub slot: ThemeSlot,
    pub theme_id: String,
}

/// Effects of a completed slot replacement: the preference to persist and
/// the payload to publish under `current_theme_updated`.
pub struct SetThemeOutcome {
    pub persist: ThemePersist,
    pub event: Theme,
}

/// The theme implied by the state: the idle slot while the timer is not
/// playing, else the slot of the selected session kind.
pub open spec fn resolved_theme(s: AppState) -> Theme {
    if !s.timer.is_playing {
        s.idle_theme
    } else {
        match s.timer.session_type {
            SessionType::Focus => s.focus_theme,
            SessionType::Break => s.break_theme,
            SessionType::LongBreak => s.long_break_theme,
        }
    }
}

/// The timer after a partial update: present fields overwrite, absent
/// fields keep the current value.
pub open spec fn apply_timer_update(t: TimerState, data: TimerStateForUpdate) -> TimerState {
    TimerState {
        session_type: match data.session_type {
            Some(session_type) => session_type,
            None => t.session_type,
        },
        is_playing: match data.is_playing {
            Some(is_playing) => is_playing,
            None => t.is_playing,
        },
    }
}

/// The state after a partial timer update; the theme slots are untouched.
pub open spec fn updated_timer_state(s: AppState, data: TimerStateForUpdate) -> AppState {
    AppState { timer: apply_timer_update(s.timer, data), ..s }
}

/// The theme currently held by a slot.
pub open spec fn slot_theme(s: AppState, slot: ThemeSlot) -> Theme {
    match slot {
        ThemeSlot::Idle => s.idle_theme,
        ThemeSlot::Focus => s.focus_theme,
        ThemeSlot::Break => s.break_theme,
        ThemeSlot::LongBreak => s.long_break_theme,
    }
}

/// The state after replacing exactly one slot; every other field is
/// untouched.
pub open spec fn with_slot_theme(s: AppState, slot: ThemeSlot, theme: Theme) -> AppState {
    match slot {
        ThemeSlot::Idle => AppState { idle_theme: theme, ..s },
        ThemeSlot::Focus => AppState { focus_theme: theme, ..s },
        ThemeSlot::Break => AppState { break_theme: theme, ..s },
        ThemeSlot::LongBreak => AppState { long_break_theme: theme, ..s },
    }
}

impl AppState {
    /// The state at startup: timer defaulted to a stopped focus interval,
    /// the four slots filled with the given themes.
    pub fn new(idle_theme: Theme, focus_theme: Theme, break_theme: Theme, long_break_theme: Theme) -> (s: AppState)
        ensures
            s.timer == (TimerState { session_type: SessionType::Focus, is_playing: false }),
            s.idle_theme == idle_theme,
            s.focus_theme == focus_theme,
            s.break_theme == break_theme,
            s.long_break_theme == long_break_theme,
    {
        AppState {
            timer: TimerState { session_type: SessionType::Focus, is_playing: false },
            idle_theme,
            focus_theme,
            break_theme,
            long_break_theme,
        }
    }
}

/// Read-only view of the resolved theme: no mutation, no persistence, no
/// publication.
pub fn get_current_theme(state: &AppState) -> (theme: Theme)
    ensures
        theme == resolved_theme(*state),
{
    if !state.timer.is_playing {
        state.idle_theme.clone()
    } else {
        match state.timer.session_type {
            SessionType::Focus => state.focus_theme.clone(),
            SessionType::Break => state.break_theme.clone(),
            SessionType::LongBreak => state.long_break_theme.clone(),
        }
    }
}

/// Re-evaluates theme resolution against the current state and returns the
/// payload the host publishes under `current_theme_updated`.
pub fn update_current_theme(state: &AppState) -> (event: Theme)
    ensures
        event == resolved_theme(*state),
{
    get_current_theme(state)
}

/// Applies a partial timer update. The mutation always applies; the
/// resolved theme is returned for publication exactly when the publishing
/// capability is available. An empty update leaves the state unchanged and
/// still yields the (unchanged) resolved theme once.
pub fn update_timer_state(state: &mut AppState, data: TimerStateForUpdate, publisher_available: bool) -> (event: Option<
    Theme,
>)
    ensures
        *final(state) == updated_timer_state(*old(state), data),
        data.session_type is None && data.is_playing is None ==> *final(state) == *old(state),
        publisher_available ==> event == Some(resolved_theme(*final(state))),
        !publisher_available ==> event is None,
{
    if let Some(session_type) = data.session_type {
        state.timer.session_type = session_type;
    }
    if let Some(is_playing) = data.is_playing {
        state.timer.is_playing = is_playing;
    }
    if publisher_available {
        Some(update_current_theme(state))
    } else {
        None
    }
}

/// Replaces one theme slot wholesale. With the publishing capability
/// available, the slot is replaced and the outcome carries the preference
/// write (the slot's key bound to the theme's id) and the event payload;
/// without it the whole operation is a no-op.
pub fn set_theme(state: &mut AppState, slot: ThemeSlot, data: Theme, publisher_available: bool) -> (outcome: Option<
    SetThemeOutcome,
>)
    ensures
        publisher_available ==> *final(state) == with_slot_theme(*old(state), slot, data),
        publisher_available ==> (outcome matches Some(o)
            && o.persist.slot == slot
            && o.persist.theme_id == data.id
            && o.event == resolved_theme(*final(state))),
        !publisher_available ==> *final(state) == *old(state) && outcome is None,
{
    if !publisher_available {
        return None;
    }
    let persist = ThemePersist { slot, theme_id: data.id.clone() };
    match slot {
        ThemeSlot::Idle => {
            state.idle_theme = data;
        },
        ThemeSlot::Focus => {
            state.focus_theme = data;
        },
        ThemeSlot::Break => {
            state.break_theme = data;
        },
        ThemeSlot::LongBreak => {
            state.long_break_theme = data;
        },
    }
    let event = update_current_theme(state);
    Some(SetThemeOutcome { persist, event })
}

/// Replaces the idle slot; see `set_theme`.
pub fn set_idle_theme(state: &mut AppState, data: Theme, publisher_available: bool) -> (outcome: Option<
    SetThemeOutcome,
>)
    ensures
        publisher_available ==> *final(state) == with_slot_theme(*old(state), ThemeSlot::Idle, data),
        publisher_available ==> (outcome matches Some(o)
            && o.persist.slot == ThemeSlot::Idle
            && o.persist.theme_id == data.id
            && o.event == resolved_theme(*final(state))),
        !publisher_available ==> *final(state) == *old(state) && outcome is None,
{
    set_theme(state, ThemeSlot::Idle, data, publisher_available)
}

/// Replaces the focus slot; see `set_theme`.
pub fn set_focus_theme(state: &mut AppState, data: Theme, publisher_available: bool) -> (outcome: Option<
    SetThemeOutcome,
>)
    ensures
        publisher_available ==> *final(state) == with_slot_theme(*old(state), ThemeSlot::Focus, data),
        publisher_available ==> (outcome matches Some(o)
            && o.persist.slot == ThemeSlot::Focus
            && o.persist.theme_id == data.id
            && o.event == resolved_theme(*final(state))),
        !publisher_available ==> *final(state) == *old(state) && outcome is None,
{
    set_theme(state, ThemeSlot::Focus, data, publisher_available)
}

/// Replaces the break slot; see `set_theme`.
pub fn set_break_theme(state: &mut AppState, data: Theme, publisher_available: bool) -> (outcome: Option<
    SetThemeOutcome,
>)
    ensures
        publisher_available ==> *final(state) == with_slot_theme(*old(state), ThemeSlot::Break, data),
        publisher_available ==> (outcome matches Some(o)
            && o.persist.slot == ThemeSlot::Break
            && o.persist.theme_id == data.id
            && o.event == resolved_theme(*final(state))),
        !publisher_available ==> *final(state) == *old(state) && outcome is None,
{
    set_theme(state, ThemeSlot::Break, data, publisher_available)
}

/// Replaces the long-break slot; see `set_theme`.
pub fn set_long_break_theme(state: &mut AppState, data: Theme, publisher_available: bool) -> (outcome: Option<
    SetThemeOutcome,
>)
    ensures
        publisher_available ==> *final(state) == with_slot_theme(*old(state), ThemeSlot::LongBreak, data),
        publisher_available ==> (outcome matches Some(o)
            && o.persist.slot == ThemeSlot::LongBreak
            && o.persist.theme_id == data.id
            && o.event == resolved_theme(*final(state))),
        !publisher_available ==> *final(state) == *old(state) && outcome is None,
{
    set_theme(state, ThemeSlot::LongBreak, data, publisher_available)
}

/// Law: theme resolution produces exactly the slot the state dictates —
/// the idle slot whenever the timer is not playing, else the slot of the
/// selected session kind, and never any other mapping.
pub proof fn lemma_theme_resolution_table(s: AppState)
    ensures
        !s.timer.is_playing ==> resolved_theme(s) == s.idle_theme,
        s.timer.is_playing && s.timer.session_type == SessionType::Focus ==> resolved_theme(s) == s.focus_theme,
        s.timer.is_playing && s.timer.session_type == SessionType::Break ==> resolved_theme(s) == s.break_theme,
        s.timer.is_playing && s.timer.session_type == SessionType::LongBreak ==> resolved_theme(s)
            == s.long_break_theme,
{
}

/// Law: after a timer update that selects a playing break, the resolved
/// theme is the break slot of the prior state, whatever that state was.
pub proof fn lemma_update_to_playing_break_resolves_break(s: AppState, data: TimerStateForUpdate)
    requires
        data.is_playing == Some(true),
        data.session_type == Some(SessionType::Break),
    ensures
        resolved_theme(updated_timer_state(s, data)) == s.break_theme,
{
}

/// Law: replacing the focus slot makes the new theme the resolved one in
/// every state whose timer is playing a focus interval.
pub proof fn lemma_set_focus_theme_resolves(s: AppState, theme: Theme)
    requires
        s.timer.is_playing,
        s.timer.session_type == SessionType::Focus,
    ensures
        resolved_theme(with_slot_theme(s, ThemeSlot::Focus, theme)) == theme,
{
}

/// Law: an empty timer update is the identity on the state.
pub proof fn lemma_empty_timer_update_is_identity(s: AppState, data: TimerStateForUpdate)
    requires
        data.session_type is None,
        data.is_playing is None,
    ensures
        updated_timer_state(s, data) == s,
{
}

/// Law: a slot replacement touches nothing but its slot, so replacements
/// of two different slots never leak across: after both, in either order,
/// each slot holds the theme of its own replacement and the timer is
/// untouched.
pub proof fn lemma_set_theme_slot_independence(s: AppState, a: ThemeSlot, b: ThemeSlot, ta: Theme, tb: Theme)
    requires
        a != b,
    ensures
        slot_theme(with_slot_theme(with_slot_theme(s, a, ta), b, tb), a) == ta,
        slot_theme(with_slot_theme(with_slot_theme(s, a, ta), b, tb), b) == tb,
        with_slot_theme(with_slot_theme(s, a, ta), b, tb).timer == s.timer,
        with_slot_theme(with_slot_theme(s, a, ta), b, tb) == with_slot_theme(with_slot_theme(s, b, tb), a, ta),
{
}

} // verus!
