use vstd::prelude::*;

use crate::action::{
    opt_text, texts, ActionResult, GeneratorAction, StepOutcome, UpdateModel, UserAction,
};
use crate::mode::Mode;

verus! {

/// A suspendable script written as an explicit state machine.
///
/// Each resumption takes the user's action and either suspends again,
/// handing back one update, or runs to its end (`None`).
pub trait Script: View + Sized {
    /// The state after resuming with `action`, and what was handed back.
    spec fn resumed(state: Self::V, action: UserAction) -> (Self::V, Option<UpdateModel>);

    fn resume(&mut self, action: UserAction) -> (r: Option<GeneratorAction>)
        ensures
            (final(self)@, yielded(r)) == Self::resumed(old(self)@, action),
    ;
}

/// The mathematical value of what a script hands back.
pub open spec fn yielded(r: Option<GeneratorAction>) -> Option<UpdateModel> {
    match r {
        Some(u) => Some(u@),
        None => None,
    }
}

/// The mathematical state of an [`Engine`].
pub struct EngineModel<V> {
    pub message: Option<Seq<char>>,
    pub items: Seq<Seq<char>>,
    pub script: V,
    pub completed: bool,
}

impl<V> EngineModel<V> {
    /// The state before the first resumption.
    pub open spec fn fresh(script: V) -> Self {
        EngineModel { message: None, items: Seq::empty(), script, completed: false }
    }

    /// Whether `action` refers to an entry of the published list.
    pub open spec fn accepts(self, action: UserAction) -> bool {
        action matches UserAction::SelectItem(_, i) ==> i < self.items.len()
    }
}

/// One step of an engine that runs the script `S`: the next state and the
/// outcome (`None` for completion).
pub open spec fn advanced<S: Script>(e: EngineModel<S::V>, action: UserAction) -> (
    EngineModel<S::V>,
    Option<UpdateModel>,
) {
    if e.completed {
        (e, None)
    } else {
        let (next, out) = S::resumed(e.script, action);
        match out {
            None => (EngineModel { script: next, completed: true, ..e }, None),
            Some(UpdateModel::Keep) => (
                EngineModel { script: next, ..e },
                Some(UpdateModel::Keep),
            ),
            Some(UpdateModel::Replace(m, items)) => (
                EngineModel { message: m, items, script: next, completed: false },
                Some(UpdateModel::Replace(m, items)),
            ),
        }
    }
}

/// The state and the outcome of activating an engine on `script`.
pub open spec fn activated<S: Script>(script: S::V) -> (EngineModel<S::V>, Option<UpdateModel>) {
    advanced::<S>(EngineModel::fresh(script), UserAction::EnterMenu)
}

/// Runs a script one suspension at a time and keeps what it last published.
pub struct Engine<S> {
    message: Option<String>,
    items: Vec<String>,
    script: S,
    completed: bool,
}

impl<S: Script> View for Engine<S> {
    type V = EngineModel<S::V>;

    closed spec fn view(&self) -> EngineModel<S::V> {
        EngineModel {
            message: opt_text(self.message),
            items: texts(self.items@),
            script: self.script@,
            completed: self.completed,
        }
    }
}

/// A copy of a list of strings.
fn copy_items(v: &Vec<String>) -> (r: Vec<String>)
    ensures
        r@ == v@,
{
    let mut r: Vec<String> = Vec::new();
    let mut i: usize = 0;
    while i < v.len()
        invariant
            i <= v.len(),
            r@ == v@.subrange(0, i as int),
        decreases v.len() - i,
    {
        r.push(v[i].clone());
        i = i + 1;
    }
    assert(r@ =~= v@);
    r
}

impl<S: Script> Engine<S> {
    /// Starts `script`: resumes it with `EnterMenu` and publishes what it hands back.
    pub fn activate(script: S) -> (r: (Self, StepOutcome))
        ensures
            (r.0@, r.1@) == activated::<S>(script@),
    {
        let mut e = Engine { message: None, items: Vec::new(), script, completed: false };
        assert(e@.items =~= Seq::empty());
        let out = e.advance(UserAction::EnterMenu);
        (e, out)
    }

    /// Resumes the script with `action` and publishes what it hands back.
    /// Once the script has completed, nothing is resumed and the outcome
    /// stays `Completed`.
    pub fn advance(&mut self, action: UserAction) -> (r: StepOutcome)
        requires
            old(self)@.accepts(action),
        ensures
            (final(self)@, r@) == advanced::<S>(old(self)@, action),
    {
        if self.completed {
            return StepOutcome::Completed;
        }
        match self.script.resume(action) {
            None => {
                self.completed = true;
                StepOutcome::Completed
            },
            Some(GeneratorAction::Default) => StepOutcome::Update(GeneratorAction::Default),
            Some(GeneratorAction::ReplaceItems(m, items)) => {
                let published = copy_items(&items);
                let shown = match &m {
                    Some(s) => Some(s.clone()),
                    None => None,
                };
                self.message = shown;
                self.items = published;
                StepOutcome::Update(GeneratorAction::ReplaceItems(m, items))
            },
        }
    }

    /// The entries published last.
    pub fn current_items(&self) -> (r: &Vec<String>)
        ensures
            texts(r@) == self@.items,
    {
        &self.items
    }

    /// The message published last.
    pub fn current_message(&self) -> (r: Option<&str>)
        ensures
            r matches Some(m) ==> self@.message == Some(m@),
            r is None ==> self@.message is None,
    {
        match &self.message {
            Some(m) => Some(m.as_str()),
            None => None,
        }
    }

    /// Whether the script has run to its end.
    pub fn is_completed(&self) -> (r: bool)
        ensures
            r == self@.completed,
    {
        self.completed
    }

    /// The script in its current state.
    pub fn script(&self) -> (r: &S)
        ensures
            r@ == self@.script,
    {
        &self.script
    }
}

impl<S: Script> Mode for Engine<S> {
    open spec fn entries(state: EngineModel<S::V>) -> Seq<Seq<char>> {
        state.items
    }

    open spec fn status(state: EngineModel<S::V>) -> Option<Seq<char>> {
        state.message
    }

    /// A new update keeps the plugin running; completion closes it.
    open spec fn acted(state: EngineModel<S::V>, action: UserAction) -> (
        EngineModel<S::V>,
        ActionResult,
    ) {
        let (next, out) = advanced::<S>(state, action);
        (next, if out is Some { ActionResult::Reset } else { ActionResult::Exit })
    }

    open spec fn icon_name(state: EngineModel<S::V>, line: int, size: u32) -> Option<Seq<char>> {
        None
    }

    open spec fn preprocessed(state: EngineModel<S::V>, input: Seq<char>) -> Seq<char> {
        input
    }

    fn len(&self) -> (r: usize) {
        self.items.len()
    }

    fn name(&self, line: usize) -> (r: &str) {
        self.items[line].as_str()
    }

    fn action(&mut self, action: UserAction) -> (r: ActionResult) {
        match self.advance(action) {
            StepOutcome::Update(_) => ActionResult::Reset,
            StepOutcome::Completed => ActionResult::Exit,
        }
    }

    fn message(&self) -> (r: Option<&str>) {
        self.current_message()
    }

    fn icon(&self, line: usize, size: u32) -> (r: Option<String>) {
        None
    }

    fn preprocess(&self, input: &str) -> (r: String) {
        input.to_owned()
    }
}

} // verus!
