use vstd::prelude::*;

use crate::action::{ActionResult, UserAction};

verus! {

/// A menu source that the plugin adapter can host.
///
/// Its state is described by its view; each method states its effect over
/// the spec functions below, which an implementation defines.
pub trait Mode: View + Sized {
    /// The entries currently published, in order.
    spec fn entries(state: Self::V) -> Seq<Seq<char>>;

    /// The status message currently published.
    spec fn status(state: Self::V) -> Option<Seq<char>>;

    /// The next state and the host instruction after handling `action`.
    spec fn acted(state: Self::V, action: UserAction) -> (Self::V, ActionResult);

    /// The name of the icon shown beside an entry at a pixel size, if any.
    spec fn icon_name(state: Self::V, line: int, size: u32) -> Option<Seq<char>>;

    /// How user input is rewritten before it is matched.
    spec fn preprocessed(state: Self::V, input: Seq<char>) -> Seq<char>;

    /// The number of published entries.
    fn len(&self) -> (r: usize)
        ensures
            r == Self::entries(self@).len(),
    ;

    fn is_empty(&self) -> (r: bool)
        ensures
            r == (Self::entries(self@).len() == 0),
    {
        self.len() == 0
    }

    /// The readable name of an entry.
    fn name(&self, line: usize) -> (r: &str)
        requires
            line < Self::entries(self@).len(),
        ensures
            r@ == Self::entries(self@)[line as int],
    ;

    /// Handles a user action.
    fn action(&mut self, action: UserAction) -> (r: ActionResult)
        requires
            action matches UserAction::SelectItem(_, i) ==> i < Self::entries(old(self)@).len(),
        ensures
            (final(self)@, r) == Self::acted(old(self)@, action),
    ;

    /// The message shown below the input field; may hold pango markup.
    fn message(&self) -> (r: Option<&str>)
        ensures
            r matches Some(m) ==> Self::status(self@) == Some(m@),
            r is None ==> Self::status(self@) is None,
    ;

    /// The icon name of an entry.
    fn icon(&self, line: usize, size: u32) -> (r: Option<String>)
        requires
            line < Self::entries(self@).len(),
        ensures
            r matches Some(n) ==> Self::icon_name(self@, line as int, size) == Some(n@),
            r is None ==> Self::icon_name(self@, line as int, size) is None,
    ;

    /// Transforms user input before it is handed to the matcher.
    fn preprocess(&self, input: &str) -> (r: String)
        ensures
            r@ == Self::preprocessed(self@, input@),
    ;
}

} // verus!
