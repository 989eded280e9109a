use vstd::prelude::*;

use crate::action::{ActionResult, SelectData, UserAction};
use crate::mode::Mode;

verus! {

/// The host's instruction after a callback: which dialog to show next.
#[derive(Clone, Copy, PartialEq, Eq, Debug, Structural)]
pub enum ModeMode {
    /// Exit.
    ModeExit,
    /// Skip to the next cycle-able dialog.
    NextDialog,
    /// Reload the current dialog.
    ReloadDialog,
    /// Previous dialog.
    PreviousDialog,
    /// Reload the dialog and unset user input.
    ResetDialog,
}

pub const MODE_EXIT_CODE: i32 = 1000;
pub const NEXT_DIALOG_CODE: i32 = 1001;
pub const RELOAD_DIALOG_CODE: i32 = 1002;
pub const PREVIOUS_DIALOG_CODE: i32 = 1003;
pub const RESET_DIALOG_CODE: i32 = 1004;

impl ModeMode {
    pub open spec fn spec_code(self) -> i32 {
        match self {
            ModeMode::ModeExit => MODE_EXIT_CODE,
            ModeMode::NextDialog => NEXT_DIALOG_CODE,
            ModeMode::ReloadDialog => RELOAD_DIALOG_CODE,
            ModeMode::PreviousDialog => PREVIOUS_DIALOG_CODE,
            ModeMode::ResetDialog => RESET_DIALOG_CODE,
        }
    }

    /// The numeric code the host expects.
    pub fn code(self) -> (r: i32)
        ensures
            r == self.spec_code(),
    {
        match self {
            ModeMode::ModeExit => MODE_EXIT_CODE,
            ModeMode::NextDialog => NEXT_DIALOG_CODE,
            ModeMode::ReloadDialog => RELOAD_DIALOG_CODE,
            ModeMode::PreviousDialog => PREVIOUS_DIALOG_CODE,
            ModeMode::ResetDialog => RESET_DIALOG_CODE,
        }
    }
}

/// The bits of the result bitmask that the host hands to `result`.
#[derive(Clone, Copy, PartialEq, Eq, Debug, Structural)]
pub enum MenuReturn {
    /// Entry is selected.
    Confirmed,
    /// User canceled the operation (e.g. pressed escape).
    Cancelled,
    /// User requested a mode switch.
    Next,
    /// Go to the previous menu.
    Previous,
    /// Custom (non-matched) input was entered.
    CustomInput,
    /// User wanted to delete entry from history.
    EntryDelete,
    /// User wants to jump to another switcher.
    QuickSwitch,
    /// User wants to jump to custom command, i.e. +Ctrl.
    CustomCommand,
    /// Bindings specifics, i.e. +Shift.
    CustomAction,
    /// Mask of the low-order bits.
    LowerMask,
}

pub const MENU_OK: i32 = 0x00010000;
pub const MENU_CANCELLED: i32 = 0x00020000;
pub const MENU_NEXT: i32 = 0x00040000;
pub const MENU_PREVIOUS: i32 = 0x00400000;
pub const MENU_CUSTOM_INPUT: i32 = 0x00080000;
pub const MENU_ENTRY_DELETE: i32 = 0x00100000;
pub const MENU_QUICK_SWITCH: i32 = 0x00200000;
pub const MENU_CUSTOM_COMMAND: i32 = 0x00800000;
pub const MENU_CUSTOM_ACTION: i32 = 0x10000000;
pub const MENU_LOWER_MASK: i32 = 0x0000FFFF;

impl MenuReturn {
    pub open spec fn spec_bits(self) -> i32 {
        match self {
            MenuReturn::Confirmed => MENU_OK,
            MenuReturn::Cancelled => MENU_CANCELLED,
            MenuReturn::Next => MENU_NEXT,
            MenuReturn::Previous => MENU_PREVIOUS,
            MenuReturn::CustomInput => MENU_CUSTOM_INPUT,
            MenuReturn::EntryDelete => MENU_ENTRY_DELETE,
            MenuReturn::QuickSwitch => MENU_QUICK_SWITCH,
            MenuReturn::CustomCommand => MENU_CUSTOM_COMMAND,
            MenuReturn::CustomAction => MENU_CUSTOM_ACTION,
            MenuReturn::LowerMask => MENU_LOWER_MASK,
        }
    }

    /// The bit pattern the host uses.
    pub fn bits(self) -> (r: i32)
        ensures
            r == self.spec_bits(),
    {
        match self {
            MenuReturn::Confirmed => MENU_OK,
            MenuReturn::Cancelled => MENU_CANCELLED,
            MenuReturn::Next => MENU_NEXT,
            MenuReturn::Previous => MENU_PREVIOUS,
            MenuReturn::CustomInput => MENU_CUSTOM_INPUT,
            MenuReturn::EntryDelete => MENU_ENTRY_DELETE,
            MenuReturn::QuickSwitch => MENU_QUICK_SWITCH,
            MenuReturn::CustomCommand => MENU_CUSTOM_COMMAND,
            MenuReturn::CustomAction => MENU_CUSTOM_ACTION,
            MenuReturn::LowerMask => MENU_LOWER_MASK,
        }
    }
}

/// The style in which the host draws an entry.
#[derive(Clone, Copy, PartialEq, Eq, Debug, Structural)]
pub enum State {
    Default,
    Warning,
    Error,
    Default2,
}

impl State {
    pub open spec fn spec_code(self) -> i32 {
        match self {
            State::Default => 0,
            State::Warning => 1,
            State::Error => 2,
            State::Default2 => 3,
        }
    }

    /// The numeric style code the host expects.
    pub fn code(self) -> (r: i32)
        ensures
            r == self.spec_code(),
    {
        match self {
            State::Default => 0,
            State::Warning => 1,
            State::Error => 2,
            State::Default2 => 3,
        }
    }
}

/// The host's compiled match pattern, as the host lays it out.
#[derive(Clone, Copy, PartialEq, Eq, Debug, Structural)]
pub struct RofiIntMatcher {
    pub regex: usize,
    pub invert: bool,
}

/// What a result bitmask asks for.
#[derive(Clone, Copy, PartialEq, Eq, Debug, Structural)]
pub enum ResultRequest {
    /// An entry was chosen: hand this action to the mode.
    Select(UserAction),
    /// Switch to the next registered mode.
    Next,
    /// Switch to the previous registered mode.
    Previous,
    /// Anything else: close the plugin.
    Exit,
}

/// How a result bitmask and the selected line are read.
pub open spec fn spec_decode_result(mretv: i32, selected_line: u32) -> ResultRequest {
    if mretv & MENU_OK != 0 {
        ResultRequest::Select(
            UserAction::SelectItem(
                SelectData {
                    ctrl: mretv & MENU_CUSTOM_COMMAND != 0,
                    shift: mretv & MENU_CUSTOM_ACTION != 0,
                },
                selected_line as usize,
            ),
        )
    } else if mretv & MENU_NEXT != 0 {
        ResultRequest::Next
    } else if mretv & MENU_PREVIOUS != 0 {
        ResultRequest::Previous
    } else {
        ResultRequest::Exit
    }
}

/// Reads a result bitmask: a chosen entry with its two modifier flags, a
/// switch of mode, or, for any other combination, an exit.
pub fn decode_result(mretv: i32, selected_line: u32) -> (r: ResultRequest)
    ensures
        r == spec_decode_result(mretv, selected_line),
{
    if mretv & MENU_OK != 0 {
        ResultRequest::Select(
            UserAction::SelectItem(
                SelectData {
                    ctrl: mretv & MENU_CUSTOM_COMMAND != 0,
                    shift: mretv & MENU_CUSTOM_ACTION != 0,
                },
                selected_line as usize,
            ),
        )
    } else if mretv & MENU_NEXT != 0 {
        ResultRequest::Next
    } else if mretv & MENU_PREVIOUS != 0 {
        ResultRequest::Previous
    } else {
        ResultRequest::Exit
    }
}

/// The host's instruction for a mode's answer to an action.
pub open spec fn spec_transition(r: ActionResult) -> ModeMode {
    match r {
        ActionResult::Reset => ModeMode::ResetDialog,
        ActionResult::Exit => ModeMode::ModeExit,
    }
}

/// The plugin record the host holds: its identifiers and the one slot for
/// the mode's private state, which is filled between `init` and `destroy`.
pub struct FfiMode<T> {
    pub abi_version: i32,
    pub name: String,
    pub plugin_display_name: String,
    pub private_data: Option<T>,
}

impl<T: Mode> FfiMode<T> {
    /// Whether the private slot is filled.
    pub open spec fn live(&self) -> bool {
        self.private_data is Some
    }

    /// The state of the hosted mode.
    pub open spec fn data_view(&self) -> T::V
        recommends
            self.live(),
    {
        self.private_data->Some_0@
    }

    fn data(&self) -> (r: &T)
        requires
            self.live(),
        ensures
            r@ == self.data_view(),
    {
        self.private_data.as_ref().unwrap()
    }

    /// Fills the private slot with `data`, the freshly started mode, and
    /// reports success.
    pub fn init(&mut self, data: T) -> (r: i32)
        ensures
            final(self).private_data == Some(data),
            final(self).abi_version == old(self).abi_version,
            final(self).name == old(self).name,
            final(self).plugin_display_name == old(self).plugin_display_name,
            r == 1,
    {
        self.private_data = Some(data);
        1
    }

    /// The number of published entries.
    pub fn num_entries(&self) -> (r: u32)
        requires
            self.live(),
            T::entries(self.data_view()).len() <= u32::MAX,
        ensures
            r == T::entries(self.data_view()).len(),
    {
        self.data().len() as u32
    }

    /// The name of the icon the mode shows beside an entry, if any.
    pub fn get_icon(&self, line: u32, size: i32) -> (r: Option<String>)
        requires
            self.live(),
            line < T::entries(self.data_view()).len(),
        ensures
            r matches Some(n) ==> T::icon_name(self.data_view(), line as int, size as u32) == Some(n@),
            r is None ==> T::icon_name(self.data_view(), line as int, size as u32) is None,
    {
        self.data().icon(line as usize, size as u32)
    }

    /// A copy of an entry's text, drawn in the default style.
    pub fn display_name(&self, selected_line: u32, state: &mut i32) -> (r: String)
        requires
            self.live(),
            selected_line < T::entries(self.data_view()).len(),
        ensures
            *final(state) == State::Default.spec_code(),
            r@ == T::entries(self.data_view())[selected_line as int],
    {
        *state = State::Default.code();
        self.data().name(selected_line as usize).to_owned()
    }

    /// Hands a result bitmask to the mode and tells the host what to show next.
    pub fn result(&mut self, mretv: i32, selected_line: u32) -> (r: ModeMode)
        requires
            old(self).live(),
            mretv & MENU_OK != 0 ==> selected_line < T::entries(old(self).data_view()).len(),
        ensures
            final(self).live(),
            final(self).abi_version == old(self).abi_version,
            final(self).name == old(self).name,
            final(self).plugin_display_name == old(self).plugin_display_name,
            match spec_decode_result(mretv, selected_line) {
                ResultRequest::Select(action) => {
                    let (next, res) = T::acted(old(self).data_view(), action);
                    &&& final(self).data_view() == next
                    &&& r == spec_transition(res)
                },
                ResultRequest::Next => final(self).data_view() == old(self).data_view()
                    && r == ModeMode::NextDialog,
                ResultRequest::Previous => final(self).data_view() == old(self).data_view()
                    && r == ModeMode::PreviousDialog,
                ResultRequest::Exit => final(self).data_view() == old(self).data_view()
                    && r == ModeMode::ModeExit,
            },
    {
        match decode_result(mretv, selected_line) {
            ResultRequest::Select(action) => {
                let mut data = self.private_data.take().unwrap();
                let res = data.action(action);
                self.private_data = Some(data);
                match res {
                    ActionResult::Reset => ModeMode::ResetDialog,
                    ActionResult::Exit => ModeMode::ModeExit,
                }
            },
            ResultRequest::Next => ModeMode::NextDialog,
            ResultRequest::Previous => ModeMode::PreviousDialog,
            ResultRequest::Exit => ModeMode::ModeExit,
        }
    }

    /// A copy of the mode's message, if it has one.
    pub fn message(&self) -> (r: Option<String>)
        requires
            self.live(),
        ensures
            r matches Some(m) ==> T::status(self.data_view()) == Some(m@),
            r is None ==> T::status(self.data_view()) is None,
    {
        match self.data().message() {
            Some(m) => Some(m.to_owned()),
            None => None,
        }
    }

    /// Empties the private slot.
    pub fn destroy(&mut self)
        ensures
            final(self).private_data is None,
            final(self).abi_version == old(self).abi_version,
            final(self).name == old(self).name,
            final(self).plugin_display_name == old(self).plugin_display_name,
    {
        self.private_data = None;
    }

    /// The text of an entry, as handed to the host's matcher.
    pub fn token_text(&self, index: u32) -> (r: String)
        requires
            self.live(),
            index < T::entries(self.data_view()).len(),
        ensures
            r@ == T::entries(self.data_view())[index as int],
    {
        self.data().name(index as usize).to_owned()
    }

    /// A copy of the user's input as the mode rewrites it.
    pub fn preprocess(&self, input: &str) -> (r: String)
        requires
            self.live(),
        ensures
            r@ == T::preprocessed(self.data_view(), input@),
    {
        self.data().preprocess(input)
    }

    /// Releases nothing: the private state is released by `destroy`.
    pub fn free(&mut self)
        ensures
            *final(self) == *old(self),
    {
    }
}

} // verus!
