use vstd::prelude::*;

use crate::action::{opt_text, texts, GeneratorAction, SelectData, UpdateModel, UserAction};
use crate::generator::Script;

verus! {

/// When a selection on a page leads on to the next page.
#[derive(Clone, Copy, PartialEq, Eq, Debug, Structural)]
pub enum Gate {
    /// Every selection leads on.
    Always,
    /// Only a selection made with the first modifier held.
    Ctrl,
    /// Only a selection made with the second modifier held.
    Shift,
}

impl Gate {
    pub open spec fn spec_passes(self, m: SelectData) -> bool {
        match self {
            Gate::Always => true,
            Gate::Ctrl => m.ctrl,
            Gate::Shift => m.shift,
        }
    }

    pub fn passes(&self, m: SelectData) -> (r: bool)
        ensures
            r == self.spec_passes(m),
    {
        match self {
            Gate::Always => true,
            Gate::Ctrl => m.ctrl,
            Gate::Shift => m.shift,
        }
    }
}

/// One menu shown by a [`PageScript`].
pub struct Page {
    pub message: Option<String>,
    pub items: Vec<String>,
    pub gate: Gate,
}

/// The mathematical value of a [`Page`].
pub struct PageModel {
    pub message: Option<Seq<char>>,
    pub items: Seq<Seq<char>>,
    pub gate: Gate,
}

impl View for Page {
    type V = PageModel;

    open spec fn view(&self) -> PageModel {
        PageModel { message: opt_text(self.message), items: texts(self.items@), gate: self.gate }
    }
}

/// A script that shows its pages one after the other.
///
/// Opening the menu shows the first page. A selection on a page shows the
/// next one when the page's gate lets it through, and otherwise ends the
/// script; a selection on the last page ends it too. Each selection is
/// recorded. An action the script does not expect (a selection before the
/// menu was opened, or opening it twice) ends it.
pub struct PageScript {
    pages: Vec<Page>,
    shown: usize,
    picks: Vec<(SelectData, usize)>,
}

/// The mathematical state of a [`PageScript`]: its pages, how many of them
/// have been shown, and the selections made so far.
pub struct PageScriptModel {
    pub pages: Seq<PageModel>,
    pub shown: nat,
    pub picks: Seq<(SelectData, usize)>,
}

impl View for PageScript {
    type V = PageScriptModel;

    closed spec fn view(&self) -> PageScriptModel {
        PageScriptModel {
            pages: self.pages@.map_values(|p: Page| p@),
            shown: self.shown as nat,
            picks: self.picks@,
        }
    }
}

/// The update that shows a page.
pub open spec fn show(p: PageModel) -> UpdateModel {
    UpdateModel::Replace(p.message, p.items)
}

impl PageScript {
    /// A script over `pages` that has not been started.
    pub fn new(pages: Vec<Page>) -> (r: Self)
        ensures
            r@.pages == pages@.map_values(|p: Page| p@),
            r@.shown == 0,
            r@.picks == Seq::<(SelectData, usize)>::empty(),
    {
        PageScript { pages, shown: 0, picks: Vec::new() }
    }

    /// The selections made so far, in order.
    pub fn picks(&self) -> (r: &Vec<(SelectData, usize)>)
        ensures
            r@ == self@.picks,
    {
        &self.picks
    }

    /// How many pages have been shown.
    pub fn shown(&self) -> (r: usize)
        ensures
            r == self@.shown,
    {
        self.shown
    }

    /// The update that shows page `k`.
    fn page_update(&self, k: usize) -> (r: GeneratorAction)
        requires
            k < self@.pages.len(),
        ensures
            r@ == show(self@.pages[k as int]),
    {
        let p = &self.pages[k];
        let message = match &p.message {
            Some(m) => Some(m.clone()),
            None => None,
        };
        let mut items: Vec<String> = Vec::new();
        let mut i: usize = 0;
        while i < p.items.len()
            invariant
                k < self@.pages.len(),
                *p == self.pages@[k as int],
                i <= p.items.len(),
                items@ == p.items@.subrange(0, i as int),
            decreases p.items.len() - i,
        {
            items.push(p.items[i].clone());
            i = i + 1;
        }
        assert(items@ =~= p.items@);
        GeneratorAction::ReplaceItems(message, items)
    }
}

impl Script for PageScript {
    open spec fn resumed(state: PageScriptModel, action: UserAction) -> (
        PageScriptModel,
        Option<UpdateModel>,
    ) {
        match action {
            UserAction::EnterMenu => {
                if state.shown == 0 && state.pages.len() > 0 {
                    (PageScriptModel { shown: 1, ..state }, Some(show(state.pages[0])))
                } else {
                    (state, None)
                }
            },
            UserAction::SelectItem(m, i) => {
                if state.shown == 0 {
                    (state, None)
                } else {
                    let picked = PageScriptModel { picks: state.picks.push((m, i)), ..state };
                    if state.shown < state.pages.len() && state.pages[state.shown - 1].gate.spec_passes(
                        m,
                    ) {
                        (
                            PageScriptModel { shown: state.shown + 1, ..picked },
                            Some(show(state.pages[state.shown as int])),
                        )
                    } else {
                        (picked, None)
                    }
                }
            },
        }
    }

    fn resume(&mut self, action: UserAction) -> (r: Option<GeneratorAction>) {
        match action {
            UserAction::EnterMenu => {
                if self.shown == 0 && self.pages.len() > 0 {
                    let u = self.page_update(0);
                    self.shown = 1;
                    Some(u)
                } else {
                    None
                }
            },
            UserAction::SelectItem(m, i) => {
                if self.shown == 0 {
                    None
                } else {
                    self.picks.push((m, i));
                    if self.shown < self.pages.len() && self.pages[self.shown - 1].gate.passes(m) {
                        let u = self.page_update(self.shown);
                        self.shown = self.shown + 1;
                        Some(u)
                    } else {
                        None
                    }
                }
            },
        }
    }
}

} // verus!
