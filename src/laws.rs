use vstd::prelude::*;

use crate::action::{SelectData, UpdateModel, UserAction};
use crate::ffi::{
    spec_decode_result, spec_transition, ModeMode, ResultRequest, MENU_CUSTOM_ACTION,
    MENU_CUSTOM_COMMAND, MENU_OK,
};
use crate::generator::{activated, advanced, Engine, EngineModel, Script};
use crate::mode::Mode;

verus! {

/// The outcomes of activating an engine on a script in state `script` and
/// then feeding it `actions` one by one, with the final engine state.
pub open spec fn run<S: Script>(script: S::V, actions: Seq<UserAction>) -> (
    EngineModel<S::V>,
    Seq<Option<UpdateModel>>,
)
    decreases actions.len(),
{
    if actions.len() == 0 {
        let (e, out) = activated::<S>(script);
        (e, seq![out])
    } else {
        let (e, outs) = run::<S>(script, actions.drop_last());
        let (e2, out) = advanced::<S>(e, actions.last());
        (e2, outs.push(out))
    }
}

/// Determinism: the outcomes of `activate` followed by `advance` on each of
/// `actions` depend only on the script's state and on the actions. Two
/// scripts in the same state, fed the same actions, give the same outcomes
/// one for one and leave the engines in the same state.
pub proof fn lemma_run_deterministic<S: Script>(s1: S, s2: S, actions: Seq<UserAction>)
    requires
        s1@ == s2@,
    ensures
        run::<S>(s1@, actions) == run::<S>(s2@, actions),
        run::<S>(s1@, actions).1.len() == actions.len() + 1,
    decreases actions.len(),
{
    if actions.len() > 0 {
        lemma_run_deterministic::<S>(s1, s2, actions.drop_last());
    }
}

/// Index bound: on a running engine, a selection of any index below the
/// number of published entries is accepted by `advance` and handed to the
/// script unchanged.
pub proof fn lemma_select_in_bounds<S: Script>(e: EngineModel<S::V>, m: SelectData, i: usize)
    requires
        !e.completed,
        i < e.items.len(),
    ensures
        e.accepts(UserAction::SelectItem(m, i)),
        advanced::<S>(e, UserAction::SelectItem(m, i)).0.script == S::resumed(
            e.script,
            UserAction::SelectItem(m, i),
        ).0,
        advanced::<S>(e, UserAction::SelectItem(m, i)).1 == S::resumed(
            e.script,
            UserAction::SelectItem(m, i),
        ).1,
{
}

/// Index bound, the other side: no selection of an index at or beyond the
/// number of published entries is accepted, so on an empty list no
/// selection is accepted at all.
pub proof fn lemma_select_out_of_bounds<V>(e: EngineModel<V>, m: SelectData, i: usize)
    requires
        i >= e.items.len(),
    ensures
        !e.accepts(UserAction::SelectItem(m, i)),
{
}

/// Index bound at the adapter: a confirmed selection of line `line` becomes
/// a selection of index `line` and nothing else.
pub proof fn lemma_decoded_index(mretv: i32, line: u32)
    requires
        mretv & MENU_OK != 0,
    ensures
        spec_decode_result(mretv, line) matches ResultRequest::Select(
            UserAction::SelectItem(_, i),
        ) && i == line as usize,
{
}

/// Round trip: the message and the entries of an update that replaces the
/// items are exactly what the engine publishes after the step; an update
/// that keeps the menu leaves them as they were.
pub proof fn lemma_published_round_trip<S: Script>(e: EngineModel<S::V>, action: UserAction)
    ensures
        ({
            let (next, out) = advanced::<S>(e, action);
            &&& out matches Some(UpdateModel::Replace(m, items)) ==> next.message == m
                && next.items == items
            &&& out matches Some(UpdateModel::Keep) ==> next.message == e.message && next.items
                == e.items
        }),
{
}

/// Terminal absorption: once a step reports completion the engine is
/// completed, and every later step reports completion and changes nothing.
pub proof fn lemma_completed_absorbs<S: Script>(
    e: EngineModel<S::V>,
    action: UserAction,
    later: UserAction,
)
    ensures
        advanced::<S>(e, action).1 is None ==> advanced::<S>(e, action).0.completed,
        e.completed ==> advanced::<S>(e, later) == (e, None::<UpdateModel>),
{
}

/// Terminal absorption at the adapter: a step that completes the script is
/// reported to the host as an exit.
pub proof fn lemma_completion_exits<S: Script>(e: EngineModel<S::V>, action: UserAction)
    requires
        advanced::<S>(e, action).1 is None,
    ensures
        spec_transition(<Engine<S> as Mode>::acted(e, action).1) == ModeMode::ModeExit,
{
}

/// Modifier decoding: the two modifier bits beside the confirmation bit
/// give the two flags of the selection, each on its own.
pub proof fn lemma_modifier_decoding(mretv: i32, line: u32)
    requires
        mretv & MENU_OK != 0,
    ensures
        spec_decode_result(mretv, line) == ResultRequest::Select(
            UserAction::SelectItem(
                SelectData {
                    ctrl: mretv & MENU_CUSTOM_COMMAND != 0,
                    shift: mretv & MENU_CUSTOM_ACTION != 0,
                },
                line as usize,
            ),
        ),
        (mretv & MENU_CUSTOM_COMMAND != 0 && mretv & MENU_CUSTOM_ACTION != 0) ==> spec_decode_result(mretv, line)
            == ResultRequest::Select(
            UserAction::SelectItem(SelectData { ctrl: true, shift: true }, line as usize),
        ),
        (mretv & MENU_CUSTOM_COMMAND == 0 && mretv & MENU_CUSTOM_ACTION == 0) ==> spec_decode_result(mretv, line)
            == ResultRequest::Select(
            UserAction::SelectItem(SelectData { ctrl: false, shift: false }, line as usize),
        ),
{
}

} // verus!
