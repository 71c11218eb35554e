//! The screen follows the controls.
use crate::controller::{event_index, ControllerState, Event, Phase, Request};
use crate::panel::Panel;
use crate::picture::{dashboard_shows, draw_button_updates, draw_cc_updates, shows};
use crate::run::{
    actions, round_looks_at_everything, state_after, value_after, whole_round, Readings,
};
use vstd::prelude::*;

verus! {

/// The panel after an action of the board.
pub open spec fn panel_after(panel: Panel, request: Request) -> Panel {
    match request {
        Request::Display(steps) => panel.run(steps),
        _ => panel,
    }
}

/// The panel after a sequence of actions.
pub open spec fn panel_after_all(panel: Panel, requests: Seq<Request>) -> Panel
    decreases requests.len(),
{
    if requests.len() == 0 {
        panel
    } else {
        panel_after(panel_after_all(panel, requests.drop_last()), requests.last())
    }
}

/// The value that the bar shows after the action of a state, if it showed `drawn` before.
pub open spec fn drawn_after(state: ControllerState, drawn: u8) -> u8 {
    match state.phase {
        Phase::ShowDashboard => state.controls.last_cc,
        Phase::ShowBar(cc) => cc,
        _ => drawn,
    }
}

/// While the controls are looked at, the screen shows the recorded button states and a bar
/// for `drawn`; only a tile that is about to be redrawn still shows the state before.
pub open spec fn on_screen(state: ControllerState, panel: Panel, drawn: u8) -> bool {
    let held = state.controls.held;
    match state.phase {
        Phase::ShowTile(event) => {
            let index = event_index(event) as int;
            shows(panel, held.update(index, !held[index]), drawn)
        },
        _ => state.polling() ==> shows(panel, held, drawn),
    }
}

/// While the controls are looked at, the bar shows the value for which it was last redrawn,
/// unless it is about to be redrawn.
pub open spec fn bar_in_step(state: ControllerState, drawn: u8) -> bool {
    state.polling() && !(state.phase is ShowBar) ==> drawn == state.controls.last_display_cc
}

/// Whatever the board answers, the screen follows: it shows the recorded button states, and
/// a bar for the value that was drawn last.
pub proof fn screen_follows(state: ControllerState, panel: Panel, drawn: u8, event: Event)
    requires
        state.valid(),
        state.answered_by(event),
        on_screen(state, panel, drawn),
    ensures
        on_screen(
            state.next(event),
            panel_after(panel, state.request()),
            drawn_after(state, drawn),
        ),
{
    let held = state.controls.held;
    match state.phase {
        Phase::ShowDashboard => {
            dashboard_shows(panel, held, state.controls.last_cc);
        },
        Phase::Sample(index) => {
            let now = event->Level_0;
            let i = index as int;
            assert(held.update(i, now).update(i, !now) =~= held.update(i, !now));
            if now == held[i] {
                assert(held.update(i, now) =~= held);
            } else {
                assert(held.update(i, !now) =~= held);
            }
        },
        Phase::ShowTile(change) => {
            let index = event_index(change);
            let i = index as int;
            draw_button_updates(panel, held.update(i, !held[i]), drawn, index, change is Pressed);
            assert(held.update(i, !held[i]).update(i, held[i]) =~= held);
        },
        Phase::ShowBar(cc) => {
            draw_cc_updates(panel, held, drawn, cc);
        },
        _ => {},
    }
}

/// Whatever the board answers, the bar stays in step. Where a dashboard is drawn for a new
/// host, its value must be the one for which the bar was last redrawn.
pub proof fn bar_follows(state: ControllerState, drawn: u8, event: Event)
    requires
        state.valid(),
        state.answered_by(event),
        bar_in_step(state, drawn),
        state.phase is ShowDashboard ==> state.controls.last_cc == state.controls.last_display_cc,
    ensures
        bar_in_step(state.next(event), drawn_after(state, drawn)),
{
}

/// Whenever the controller pauses, the screen shows the recorded button states and the
/// current value.
pub proof fn screen_is_current_at_rest(state: ControllerState, panel: Panel, drawn: u8)
    requires
        state.valid(),
        state.phase is Rest,
        on_screen(state, panel, drawn),
        bar_in_step(state, drawn),
    ensures
        shows(panel, state.controls.held, state.controls.last_cc),
{
}

/// While the controls are looked at, the bar shows the value for which it was last redrawn
/// as soon as that is another one than at the beginning.
spec fn bar_settles(state: ControllerState, drawn: u8, first_display_cc: u8) -> bool {
    state.controls.last_display_cc != first_display_cc ==> bar_in_step(state, drawn)
}

proof fn lemma_screen_run(
    state: ControllerState,
    readings: Readings,
    panel: Panel,
    drawn: u8,
    n: nat,
) -> (last: u8)
    requires
        state.valid(),
        state.polling(),
        on_screen(state, panel, drawn),
    ensures
        state_after(state, readings, n).valid(),
        state_after(state, readings, n).polling(),
        on_screen(
            state_after(state, readings, n),
            panel_after_all(panel, actions(state, readings, n)),
            last,
        ),
        bar_in_step(state, drawn) ==> bar_in_step(state_after(state, readings, n), last),
        bar_settles(state_after(state, readings, n), last, state.controls.last_display_cc),
    decreases n,
{
    if n == 0 {
        drawn
    } else {
        let k = (n - 1) as nat;
        let shown = lemma_screen_run(state, readings, panel, drawn, k);
        let before = state_after(state, readings, k);
        let event = readings.answer(before);
        let so_far = panel_after_all(panel, actions(state, readings, k));
        screen_follows(before, so_far, shown, event);
        assert(actions(state, readings, n).drop_last() =~= actions(state, readings, k));
        drawn_after(before, shown)
    }
}

/// A round in which every packet gets through leaves the screen with the states that the
/// buttons were found in and the value that the measurement gave. If the bar shows another
/// value than the one for which it was last redrawn, as after a dashboard for a new host,
/// the round must not come back to the latter.
pub proof fn round_leaves_screen_current(
    state: ControllerState,
    readings: Readings,
    panel: Panel,
    drawn: u8,
)
    requires
        state.valid(),
        state.phase == Phase::Sample(0),
        readings.levels.len() == 4,
        shows(panel, state.controls.held, drawn),
        value_after(state, readings.range) == state.controls.last_display_cc ==> drawn
            == state.controls.last_display_cc,
    ensures
        shows(
            panel_after_all(panel, whole_round(state, readings)),
            readings.levels,
            value_after(state, readings.range),
        ),
{
    round_looks_at_everything(state, readings);
    let last = lemma_screen_run(
        state,
        readings,
        panel,
        drawn,
        whole_round(state, readings).len(),
    );
}

} // verus!
