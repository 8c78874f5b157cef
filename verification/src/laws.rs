//! The general laws of the editing core, stated and proved once over the
//! mathematical model: vertical moves never leave the document, the clamped
//! column never leaves the current line, edge moves are no-ops, and mode
//! toggling is an exact round trip.

use vstd::prelude::*;
use crate::editor::Action;
use crate::editor::EditorModel;
use crate::editor::InputEvent;
use crate::editor::Key;
use crate::editor::KeyInput;
use crate::editor::Mode;
use crate::editor::spec_apply_action;
use crate::editor::spec_clamp;
use crate::editor::spec_emit;
use crate::editor::spec_step;

verus! {

/// The state after a run of actions, each applied and then clamped, exactly
/// as the event loop interleaves them.
pub open spec fn spec_run_clamped(m: EditorModel, actions: Seq<Action>) -> EditorModel
    decreases actions.len(),
{
    if actions.len() == 0 {
        m
    } else {
        spec_run_clamped(spec_clamp(spec_apply_action(m, actions[0])), actions.skip(1))
    }
}

/// The cursor names an existing document line.
pub open spec fn vertical_inv(m: EditorModel) -> bool {
    &&& m.lines.len() >= 1
    &&& 0 <= m.top + m.row < m.lines.len()
}

/// The column sits between 0 and the length of the current line, inclusive.
pub open spec fn column_inv(m: EditorModel) -> bool {
    0 <= m.col <= m.current_line_len()
}

/// A cursor move along the document's lines.
pub open spec fn is_vertical_move(a: Action) -> bool {
    a == Action::MoveUp || a == Action::MoveDown
}

/// A cursor move along the current line.
pub open spec fn is_horizontal_move(a: Action) -> bool {
    a == Action::MoveLeft || a == Action::MoveRight
}

/// Every action keeps the state well shaped: the window bounds stand and
/// the cursor row stays inside the text viewport.
pub proof fn lemma_apply_action_size_ok(m: EditorModel, a: Action)
    requires
        m.size_ok(),
    ensures
        spec_apply_action(m, a).size_ok(),
        spec_apply_action(m, a).lines == m.lines,
{
}

/// The clamping pass keeps the state well shaped and leaves the column
/// strictly inside the window.
pub proof fn lemma_clamp_size_ok(m: EditorModel)
    requires
        m.size_ok(),
    ensures
        spec_clamp(m).size_ok(),
        spec_clamp(m).col < m.width,
        spec_clamp(m).lines == m.lines,
{
}

/// One vertical move, followed by the clamping pass, keeps the cursor on an
/// existing document line.
pub proof fn lemma_vertical_move_step(m: EditorModel, a: Action)
    requires
        m.size_ok(),
        vertical_inv(m),
        is_vertical_move(a),
    ensures
        vertical_inv(spec_clamp(spec_apply_action(m, a))),
        spec_clamp(spec_apply_action(m, a)).size_ok(),
        spec_clamp(spec_apply_action(m, a)).lines == m.lines,
{
    lemma_apply_action_size_ok(m, a);
    lemma_clamp_size_ok(spec_apply_action(m, a));
}

/// For any run of vertical moves, each followed by the clamping pass,
/// `top_line + row` stays on an existing line of a non-empty document.
pub proof fn lemma_vertical_moves_stay_in_document(m: EditorModel, actions: Seq<Action>)
    requires
        m.size_ok(),
        vertical_inv(m),
        forall|i: int| 0 <= i < actions.len() ==> is_vertical_move(#[trigger] actions[i]),
    ensures
        vertical_inv(spec_run_clamped(m, actions)),
        spec_run_clamped(m, actions).size_ok(),
        0 <= spec_run_clamped(m, actions).top + spec_run_clamped(m, actions).row
            < m.lines.len(),
        spec_run_clamped(m, actions).lines == m.lines,
    decreases actions.len(),
{
    if actions.len() > 0 {
        assert(is_vertical_move(actions[0]));
        lemma_vertical_move_step(m, actions[0]);
        let m2 = spec_clamp(spec_apply_action(m, actions[0]));
        assert forall|i: int|
            0 <= i < actions.skip(1).len() implies is_vertical_move(
            #[trigger] actions.skip(1)[i],
        ) by {
            assert(actions.skip(1)[i] == actions[i + 1]);
        }
        lemma_vertical_moves_stay_in_document(m2, actions.skip(1));
    }
}

/// The clamping pass alone drives the column into `[0, len(current line)]`.
pub proof fn lemma_clamp_column(m: EditorModel)
    requires
        m.width >= 1,
        0 <= m.col,
        0 <= m.top,
        0 <= m.row,
    ensures
        column_inv(spec_clamp(m)),
{
}

/// One horizontal move, followed by the clamping pass, puts the column back
/// on the current line.
pub proof fn lemma_horizontal_move_step(m: EditorModel, a: Action)
    requires
        m.size_ok(),
        is_horizontal_move(a),
    ensures
        column_inv(spec_clamp(spec_apply_action(m, a))),
        spec_clamp(spec_apply_action(m, a)).size_ok(),
{
    lemma_apply_action_size_ok(m, a);
    lemma_clamp_column(spec_apply_action(m, a));
    lemma_clamp_size_ok(spec_apply_action(m, a));
}

/// For any non-empty run of horizontal moves, each followed by the clamping
/// pass, the column ends within `[0, len(current line)]`.
pub proof fn lemma_horizontal_moves_stay_on_line(m: EditorModel, actions: Seq<Action>)
    requires
        m.size_ok(),
        actions.len() > 0,
        forall|i: int| 0 <= i < actions.len() ==> is_horizontal_move(#[trigger] actions[i]),
    ensures
        column_inv(spec_run_clamped(m, actions)),
        spec_run_clamped(m, actions).size_ok(),
    decreases actions.len(),
{
    assert(is_horizontal_move(actions[0]));
    lemma_horizontal_move_step(m, actions[0]);
    let m2 = spec_clamp(spec_apply_action(m, actions[0]));
    if actions.len() > 1 {
        assert forall|i: int|
            0 <= i < actions.skip(1).len() implies is_horizontal_move(
            #[trigger] actions.skip(1)[i],
        ) by {
            assert(actions.skip(1)[i] == actions[i + 1]);
        }
        lemma_horizontal_moves_stay_on_line(m2, actions.skip(1));
    } else {
        assert(actions.skip(1).len() == 0);
    }
}

/// One full loop iteration after the clamping pass: dispatch the event,
/// apply the action it produced (the quit action ends the loop instead of
/// changing state), then run the next iteration's clamping pass.
pub open spec fn spec_iteration(m: EditorModel, e: InputEvent) -> EditorModel {
    let ms = spec_step(m, e);
    let after = match spec_emit(m, e) {
        Some(a) => if a == Action::Quit {
            ms
        } else {
            spec_apply_action(ms, a)
        },
        None => ms,
    };
    spec_clamp(after)
}

/// The state after a run of input events, each taken through a full loop
/// iteration.
pub open spec fn spec_run_events(m: EditorModel, events: Seq<InputEvent>) -> EditorModel
    decreases events.len(),
{
    if events.len() == 0 {
        m
    } else {
        spec_run_events(spec_iteration(m, events[0]), events.skip(1))
    }
}

/// Dispatching any input event keeps the state well shaped.
pub proof fn lemma_step_size_ok(m: EditorModel, e: InputEvent)
    requires
        m.size_ok(),
    ensures
        spec_step(m, e).size_ok(),
{
}

/// A full loop iteration leaves the column within the current line,
/// whatever the event was: this covers arbitrary runs of horizontal moves
/// and character inserts alike.
pub proof fn lemma_iteration_keeps_column(m: EditorModel, e: InputEvent)
    requires
        m.size_ok(),
    ensures
        spec_iteration(m, e).size_ok(),
        column_inv(spec_iteration(m, e)),
{
    lemma_step_size_ok(m, e);
    let ms = spec_step(m, e);
    match spec_emit(m, e) {
        Some(a) => {
            lemma_apply_action_size_ok(ms, a);
            lemma_clamp_column(spec_apply_action(ms, a));
            lemma_clamp_size_ok(spec_apply_action(ms, a));
            lemma_clamp_column(ms);
            lemma_clamp_size_ok(ms);
        },
        None => {
            lemma_clamp_column(ms);
            lemma_clamp_size_ok(ms);
        },
    }
}

/// After any non-empty run of input events, each taken through a full loop
/// iteration, the column sits within `[0, len(current line)]`.
pub proof fn lemma_event_run_keeps_column(m: EditorModel, events: Seq<InputEvent>)
    requires
        m.size_ok(),
        events.len() > 0,
    ensures
        spec_run_events(m, events).size_ok(),
        column_inv(spec_run_events(m, events)),
    decreases events.len(),
{
    lemma_iteration_keeps_column(m, events[0]);
    if events.len() > 1 {
        lemma_event_run_keeps_column(spec_iteration(m, events[0]), events.skip(1));
    } else {
        assert(events.skip(1).len() == 0);
    }
}

/// Inserting a character in Insert mode keeps the column within the current
/// line: the column follows the inserted character, which lengthened the
/// line by one.
pub proof fn lemma_insert_char_keeps_column(m: EditorModel, ch: char, ctrl: bool)
    requires
        m.mode == Mode::Insert,
        column_inv(m),
        0 <= m.top,
        0 <= m.row,
    ensures
        column_inv(spec_step(m, InputEvent::Key(KeyInput { key: Key::Char(ch), ctrl }))),
{
    let m2 = spec_step(m, InputEvent::Key(KeyInput { key: Key::Char(ch), ctrl }));
    let idx = m.line_index();
    if 0 <= idx < m.lines.len() && 0 <= m.col <= m.lines[idx].len() {
        assert(m2.lines[idx] == m.lines[idx].insert(m.col, ch));
        assert(m2.lines[idx].len() == m.lines[idx].len() + 1);
    }
}

/// A left move at column 0 leaves the state exactly unchanged.
pub proof fn lemma_move_left_at_start_unchanged(m: EditorModel)
    requires
        m.col == 0,
    ensures
        spec_apply_action(m, Action::MoveLeft) == m,
{
}

/// An upward move with no scroll offset and the cursor on the first screen
/// row leaves the state exactly unchanged.
pub proof fn lemma_move_up_at_top_unchanged(m: EditorModel)
    requires
        m.top == 0,
        m.row == 0,
    ensures
        spec_apply_action(m, Action::MoveUp) == m,
{
}

/// Mode toggling is a round trip: entering Insert mode and leaving it again
/// changes nothing but the mode, and restores a Normal-mode state exactly.
pub proof fn lemma_mode_toggle_round_trip(m: EditorModel)
    ensures
        spec_apply_action(
            spec_apply_action(m, Action::SetMode(Mode::Insert)),
            Action::SetMode(Mode::Normal),
        ) =~= (EditorModel { mode: Mode::Normal, ..m }),
        m.mode == Mode::Normal ==> (spec_apply_action(
            spec_apply_action(m, Action::SetMode(Mode::Insert)),
            Action::SetMode(Mode::Normal),
        ) =~= m),
{
}

} // verus!
