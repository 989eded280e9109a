use rofi_plugin::action::{ActionResult, GeneratorAction, SelectData, StepOutcome, UserAction};
use rofi_plugin::ffi::{
    decode_result, FfiMode, ModeMode, ResultRequest, MENU_CUSTOM_ACTION, MENU_CUSTOM_COMMAND,
    MENU_NEXT, MENU_OK, MENU_PREVIOUS,
};
use rofi_plugin::generator::Engine;
use rofi_plugin::macros::create_mode;
use rofi_plugin::mode::Mode;
use rofi_plugin::pages::{Gate, Page, PageScript};

fn strings(v: &[&str]) -> Vec<String> {
    v.iter().map(|s| s.to_string()).collect()
}

fn page(message: Option<&str>, items: &[&str], gate: Gate) -> Page {
    Page { message: message.map(|m| m.to_string()), items: strings(items), gate }
}

fn plain() -> SelectData {
    SelectData { ctrl: false, shift: false }
}

#[test]
fn scenario_single_page_completes_on_selection() {
    let script = PageScript::new(vec![page(None, &["Alpha", "Beta"], Gate::Always)]);
    let (mut e, out) = Engine::activate(script);
    assert_eq!(
        out,
        StepOutcome::Update(GeneratorAction::ReplaceItems(None, strings(&["Alpha", "Beta"])))
    );
    assert_eq!(e.current_items(), &strings(&["Alpha", "Beta"]));
    assert_eq!(e.current_message(), None);
    let out = e.advance(UserAction::SelectItem(plain(), 1));
    assert_eq!(out, StepOutcome::Completed);
    assert!(e.is_completed());
    let picks = e.script().picks();
    assert_eq!(picks, &vec![(plain(), 1usize)]);
    assert_eq!(e.current_items()[picks[0].1], "Beta");
}

#[test]
fn scenario_two_steps_with_modifier() {
    let script = PageScript::new(vec![
        page(Some("pick first"), &["A", "B"], Gate::Ctrl),
        page(Some("pick second"), &["A", "B"], Gate::Always),
    ]);
    let (mut e, out) = Engine::activate(script);
    assert_eq!(
        out,
        StepOutcome::Update(GeneratorAction::ReplaceItems(
            Some("pick first".to_string()),
            strings(&["A", "B"])
        ))
    );
    assert_eq!(e.current_message(), Some("pick first"));
    let out = e.advance(UserAction::SelectItem(SelectData { ctrl: true, shift: false }, 0));
    assert_eq!(
        out,
        StepOutcome::Update(GeneratorAction::ReplaceItems(
            Some("pick second".to_string()),
            strings(&["A", "B"])
        ))
    );
    assert_eq!(e.current_message(), Some("pick second"));
    assert_eq!(e.current_items(), &strings(&["A", "B"]));
    let out = e.advance(UserAction::SelectItem(plain(), 1));
    assert_eq!(out, StepOutcome::Completed);
    assert_eq!(e.script().shown(), 2);
    assert_eq!(
        e.script().picks(),
        &vec![(SelectData { ctrl: true, shift: false }, 0usize), (plain(), 1usize)]
    );
}

#[test]
fn modifier_gate_not_met_ends_script() {
    let script = PageScript::new(vec![
        page(Some("pick first"), &["A", "B"], Gate::Ctrl),
        page(Some("pick second"), &["A", "B"], Gate::Always),
    ]);
    let (mut e, _) = Engine::activate(script);
    let out = e.advance(UserAction::SelectItem(plain(), 0));
    assert_eq!(out, StepOutcome::Completed);
    assert_eq!(e.current_message(), Some("pick first"));
}

#[test]
fn scenario_empty_list() {
    let script = PageScript::new(vec![page(None, &[], Gate::Always)]);
    let mut record = create_mode::<Engine<PageScript>>("empty".to_string(), "Empty".to_string()).0;
    let (e, out) = Engine::activate(script);
    assert_eq!(out, StepOutcome::Update(GeneratorAction::ReplaceItems(None, vec![])));
    assert_eq!(record.init(e), 1);
    assert_eq!(record.num_entries(), 0);
    assert_eq!(record.message(), None);
}

#[test]
fn completed_engine_absorbs() {
    let script = PageScript::new(vec![page(None, &["x"], Gate::Always)]);
    let (mut e, _) = Engine::activate(script);
    assert_eq!(e.advance(UserAction::SelectItem(plain(), 0)), StepOutcome::Completed);
    assert_eq!(e.advance(UserAction::EnterMenu), StepOutcome::Completed);
    assert_eq!(e.advance(UserAction::SelectItem(plain(), 0)), StepOutcome::Completed);
    assert_eq!(e.script().picks().len(), 1);
    assert_eq!(e.current_items(), &strings(&["x"]));
}

#[test]
fn script_without_pages_completes_at_activation() {
    let (e, out) = Engine::activate(PageScript::new(vec![]));
    assert_eq!(out, StepOutcome::Completed);
    assert!(e.is_completed());
    assert!(e.current_items().is_empty());
    assert_eq!(e.current_message(), None);
}

#[test]
fn same_script_same_actions_same_outcomes() {
    let build = || {
        PageScript::new(vec![
            page(Some("one"), &["a", "b", "c"], Gate::Shift),
            page(Some("two"), &["d"], Gate::Always),
        ])
    };
    let actions = [
        UserAction::SelectItem(SelectData { ctrl: false, shift: true }, 2),
        UserAction::SelectItem(plain(), 0),
    ];
    let mut runs = Vec::new();
    for _ in 0..2 {
        let (mut e, first) = Engine::activate(build());
        let mut outs = vec![first];
        for a in actions.iter() {
            outs.push(e.advance(*a));
        }
        runs.push(outs);
    }
    assert_eq!(runs[0], runs[1]);
    assert_eq!(runs[0].len(), 3);
    assert_eq!(runs[0][2], StepOutcome::Completed);
}

#[test]
fn mode_action_maps_outcomes() {
    let script = PageScript::new(vec![
        page(None, &["a"], Gate::Always),
        page(Some("m"), &["b", "c"], Gate::Always),
    ]);
    let (mut e, _) = Engine::activate(script);
    assert_eq!(e.len(), 1);
    assert!(!e.is_empty());
    assert_eq!(e.name(0), "a");
    assert_eq!(e.action(UserAction::SelectItem(plain(), 0)), ActionResult::Reset);
    assert_eq!(e.len(), 2);
    assert_eq!(e.name(1), "c");
    assert_eq!(Mode::message(&e), Some("m"));
    assert_eq!(e.icon(0, 16), None);
    assert_eq!(e.preprocess("Query"), "Query");
    assert_eq!(e.action(UserAction::SelectItem(plain(), 1)), ActionResult::Exit);
}

#[test]
fn decode_both_modifiers() {
    let r = decode_result(MENU_OK | MENU_CUSTOM_COMMAND | MENU_CUSTOM_ACTION, 4);
    assert_eq!(
        r,
        ResultRequest::Select(UserAction::SelectItem(SelectData { ctrl: true, shift: true }, 4))
    );
}

#[test]
fn decode_no_modifiers() {
    let r = decode_result(MENU_OK, 0);
    assert_eq!(r, ResultRequest::Select(UserAction::SelectItem(plain(), 0)));
}

#[test]
fn decode_one_modifier_each() {
    assert_eq!(
        decode_result(MENU_OK | MENU_CUSTOM_COMMAND, 1),
        ResultRequest::Select(UserAction::SelectItem(SelectData { ctrl: true, shift: false }, 1))
    );
    assert_eq!(
        decode_result(MENU_OK | MENU_CUSTOM_ACTION, 1),
        ResultRequest::Select(UserAction::SelectItem(SelectData { ctrl: false, shift: true }, 1))
    );
}

#[test]
fn decode_mode_switches_and_exit() {
    assert_eq!(decode_result(MENU_NEXT, 3), ResultRequest::Next);
    assert_eq!(decode_result(MENU_PREVIOUS, 3), ResultRequest::Previous);
    assert_eq!(decode_result(0x00020000, 3), ResultRequest::Exit);
    assert_eq!(decode_result(0, 0), ResultRequest::Exit);
    assert_eq!(decode_result(MENU_OK | MENU_NEXT, 0), decode_result(MENU_OK, 0));
}

#[test]
fn codes_match_host_values() {
    assert_eq!(ModeMode::ModeExit.code(), 1000);
    assert_eq!(ModeMode::NextDialog.code(), 1001);
    assert_eq!(ModeMode::ReloadDialog.code(), 1002);
    assert_eq!(ModeMode::PreviousDialog.code(), 1003);
    assert_eq!(ModeMode::ResetDialog.code(), 1004);
    assert_eq!(rofi_plugin::ffi::MenuReturn::Confirmed.bits(), 0x00010000);
    assert_eq!(rofi_plugin::ffi::MenuReturn::CustomAction.bits(), 0x10000000);
    assert_eq!(rofi_plugin::ffi::State::Warning.code(), 1);
}

fn two_page_record() -> FfiMode<Engine<PageScript>> {
    let mut record = create_mode::<Engine<PageScript>>("demo".to_string(), "Demo".to_string()).0;
    let script = PageScript::new(vec![
        page(Some("first"), &["A", "B"], Gate::Shift),
        page(Some("second"), &["C"], Gate::Always),
    ]);
    let (e, _) = Engine::activate(script);
    assert_eq!(record.init(e), 1);
    record
}

#[test]
fn record_lifecycle() {
    let mut record = two_page_record();
    assert_eq!(record.abi_version, 6);
    assert_eq!(record.name, "demo");
    assert_eq!(record.plugin_display_name, "Demo");
    assert_eq!(record.num_entries(), 2);
    let mut style = 7;
    assert_eq!(record.display_name(1, &mut style), "B");
    assert_eq!(style, 0);
    assert_eq!(record.token_text(0), "A");
    assert_eq!(record.get_icon(0, 32), None);
    assert_eq!(record.message(), Some("first".to_string()));
    assert_eq!(record.preprocess("abc"), "abc");
    record.free();
    assert_eq!(record.result(MENU_NEXT, 0), ModeMode::NextDialog);
    assert_eq!(record.result(MENU_PREVIOUS, 0), ModeMode::PreviousDialog);
    assert_eq!(record.num_entries(), 2);
    assert_eq!(record.result(MENU_OK | MENU_CUSTOM_ACTION, 1), ModeMode::ResetDialog);
    assert_eq!(record.num_entries(), 1);
    assert_eq!(record.message(), Some("second".to_string()));
    assert_eq!(record.result(MENU_OK, 0), ModeMode::ModeExit);
    record.destroy();
    assert!(record.private_data.is_none());
}

#[test]
fn unrecognised_bitmask_exits_without_advancing() {
    let mut record = two_page_record();
    assert_eq!(record.result(0x00080000, 0), ModeMode::ModeExit);
    assert_eq!(record.num_entries(), 2);
    assert_eq!(record.message(), Some("first".to_string()));
}
