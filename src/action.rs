use vstd::prelude::*;

verus! {

/// The modifier keys that accompanied a selection.
#[derive(Clone, Copy, PartialEq, Eq, Debug, Structural)]
pub struct SelectData {
    pub ctrl: bool,
    pub shift: bool,
}

/// What the user did, handed to a script at each resumption.
#[derive(Clone, Copy, PartialEq, Eq, Debug, Structural)]
pub enum UserAction {
    /// The menu was opened; nothing has been selected yet.
    EnterMenu,
    /// An entry of the most recently published list was chosen.
    SelectItem(SelectData, usize),
}

/// What a script hands back when it suspends.
#[derive(Clone, PartialEq, Eq, Debug)]
pub enum GeneratorAction {
    /// Keep the published menu as it is.
    Default,
    /// Publish a new status message and a new ordered list of entries.
    ReplaceItems(Option<String>, Vec<String>),
}

/// What the host should do after an action was handled.
#[derive(Clone, Copy, PartialEq, Eq, Debug, Structural)]
pub enum ActionResult {
    /// Redraw the menu from the published state and keep running.
    Reset,
    /// Close the plugin.
    Exit,
}

/// The mathematical value of a [`GeneratorAction`].
pub enum UpdateModel {
    Keep,
    Replace(Option<Seq<char>>, Seq<Seq<char>>),
}

/// The characters of an optional string.
pub open spec fn opt_text(m: Option<String>) -> Option<Seq<char>> {
    match m {
        Some(s) => Some(s@),
        None => None,
    }
}

/// The characters of each string of a list.
pub open spec fn texts(v: Seq<String>) -> Seq<Seq<char>> {
    v.map_values(|s: String| s@)
}

impl View for GeneratorAction {
    type V = UpdateModel;

    open spec fn view(&self) -> UpdateModel {
        match self {
            GeneratorAction::Default => UpdateModel::Keep,
            GeneratorAction::ReplaceItems(m, items) => UpdateModel::Replace(
                opt_text(*m),
                texts(items@),
            ),
        }
    }
}

/// The result of advancing an engine by one step.
#[derive(Clone, PartialEq, Eq, Debug)]
pub enum StepOutcome {
    /// The script suspended again and handed back this update.
    Update(GeneratorAction),
    /// The script ran to its end; nothing more is meaningful.
    Completed,
}

impl View for StepOutcome {
    /// `None` stands for completion.
    type V = Option<UpdateModel>;

    open spec fn view(&self) -> Option<UpdateModel> {
        match self {
            StepOutcome::Update(u) => Some(u@),
            StepOutcome::Completed => None,
        }
    }
}

} // verus!
