//! The search window: an input field over a list of results.
//!
//! The window owns the registry of installed applications and the results
//! container. Every change of the input field runs a search: the container
//! is emptied and hidden, and then, if the text is not empty and some name
//! contains it, filled with the matching names and shown.

use vstd::prelude::*;

use crate::matching::{
    lemma_empty_query_matches_nothing, lemma_matching_names_membership, matching_names,
    name_matches,
};
use crate::registry::ApplicationRegistry;
use crate::results::{ResultsContainer, ResultsView};

verus! {

/// The width that the window asks for.
pub const WINDOW_WIDTH_REQUEST: i32 = 500;

/// The height that the window asks for.
pub const WINDOW_HEIGHT_REQUEST: i32 = 50;

/// Whether the user can resize the window.
pub const WINDOW_RESIZABLE: bool = false;

/// The space between the input field and the results container.
pub const CONTENT_SPACING: i32 = 5;

/// The least height of the results container when it is shown.
pub const RESULTS_MIN_CONTENT_HEIGHT: i32 = 200;

/// The name of the action that runs a search. Its parameter is a string.
pub const SEARCH_ACTION_NAME: &'static str = "search";

/// What a window is at one moment.
#[verifier::ext_equal]
pub struct WindowView {
    /// The names of the installed applications, in registry order.
    pub registry: Seq<Seq<char>>,
    /// What the results container shows.
    pub results: ResultsView,
    /// Whether the window has been put on screen.
    pub presented: bool,
    /// The text of the most recent search; empty before the first one.
    pub query: Seq<char>,
}

impl WindowView {
    /// A window that was just built over `registry`: nothing searched yet,
    /// the results container empty and hidden, the window not on screen.
    pub open spec fn initial(registry: Seq<Seq<char>>) -> WindowView {
        WindowView {
            registry,
            results: ResultsView::hidden_empty(),
            presented: false,
            query: Seq::empty(),
        }
    }

    /// The window after a search for `query`. Of the state before, only the
    /// registry and whether the window is on screen carry over.
    pub open spec fn searched(self, query: Seq<char>) -> WindowView {
        let rows = matching_names(self.registry, query);
        WindowView {
            registry: self.registry,
            results: ResultsView { rows, visible: rows.len() > 0 },
            presented: self.presented,
            query,
        }
    }

    /// The window after it was put on screen.
    pub open spec fn shown(self) -> WindowView {
        WindowView { presented: true, ..self }
    }

    /// The results container shows exactly the results of the most recent
    /// search, and is on screen exactly when there is one.
    pub open spec fn wf(self) -> bool {
        &&& self.results.rows == matching_names(self.registry, self.query)
        &&& self.results.settled()
    }
}

/// The text that a search action was invoked with. An action invoked
/// without a parameter searches for the empty text.
pub open spec fn payload_text(payload: Option<&str>) -> Seq<char> {
    match payload {
        Some(text) => text@,
        None => Seq::empty(),
    }
}

/// A search window over a fixed registry of installed applications.
pub struct SearchWindow {
    registry: ApplicationRegistry,
    results: ResultsContainer,
    presented: bool,
    query: Ghost<Seq<char>>,
}

impl View for SearchWindow {
    type V = WindowView;

    closed spec fn view(&self) -> WindowView {
        WindowView {
            registry: self.registry@,
            results: self.results@,
            presented: self.presented,
            query: self.query@,
        }
    }
}

impl SearchWindow {
    /// Builds a window over `registry`. The registry is kept as it is for
    /// the lifetime of the window. The search action can run from here on:
    /// there is no window without it.
    pub fn new(registry: ApplicationRegistry) -> (window: Self)
        ensures
            window@ == WindowView::initial(registry@),
            window@.wf(),
    {
        proof {
            lemma_initial_wf(registry@);
        }
        SearchWindow {
            registry,
            results: ResultsContainer::new(),
            presented: false,
            query: Ghost(Seq::empty()),
        }
    }

    /// Puts the window on screen. Nothing else changes.
    pub fn present(&mut self)
        ensures
            final(self)@ == old(self)@.shown(),
            old(self)@.wf() ==> final(self)@.wf(),
    {
        self.presented = true;
    }

    /// Handles a change of the input field: searches for `text`, the whole
    /// content of the field after the change.
    pub fn input_changed(&mut self, text: &str)
        ensures
            final(self)@ == old(self)@.searched(text@),
            final(self)@.wf(),
    {
        self.search(Some(text));
    }

    /// Runs the search action with `payload`.
    ///
    /// The results container is emptied and hidden first, whatever it held.
    /// If the text is empty or no name in the registry contains it, the
    /// container stays that way. Otherwise it gets one row for each name
    /// that contains the text, in registry order, and is shown.
    pub fn search(&mut self, payload: Option<&str>)
        ensures
            final(self)@ == old(self)@.searched(payload_text(payload)),
            final(self)@.wf(),
            final(self)@.registry == old(self)@.registry,
            final(self)@.presented == old(self)@.presented,
            final(self)@.results.rows == matching_names(
                old(self)@.registry,
                payload_text(payload),
            ),
            final(self)@.results.visible <==> final(self)@.results.rows.len() > 0,
            payload_text(payload).len() == 0 ==> final(self)@.results
                == ResultsView::hidden_empty(),
    {
        self.results.clear();
        self.results.set_visible(false);
        assert(self.results@ == ResultsView::hidden_empty());
        let text: &str = match payload {
            Some(text) => text,
            None => "",
        };
        proof {
            reveal_strlit("");
            assert(text@ =~= payload_text(payload));
        }
        self.query = Ghost(text@);
        if text.is_empty() {
            proof {
                assert(text@ =~= Seq::<char>::empty());
                lemma_empty_query_matches_nothing(self.registry@);
            }
            return;
        }
        let matched = self.registry.matching(text);
        if matched.is_empty() {
            assert(matched.deep_view() =~= Seq::<Seq<char>>::empty());
            return;
        }
        let mut i: usize = 0;
        while i < matched.len()
            invariant
                i <= matched@.len(),
                self.results@.rows == matched.deep_view().take(i as int),
                !self.results@.visible,
                self.registry == old(self).registry,
                self.presented == old(self).presented,
                self.query@ == payload_text(payload),
            decreases matched@.len() - i,
        {
            self.results.push(matched[i].clone());
            assert(matched.deep_view().take(i + 1) =~= matched.deep_view().take(i as int).push(
                matched[i as int]@,
            ));
            i += 1;
        }
        assert(matched.deep_view().take(i as int) =~= matched.deep_view());
        self.results.set_visible(true);
    }

    /// The registry that the window searches.
    pub fn registry(&self) -> (registry: &ApplicationRegistry)
        ensures
            registry@ == self@.registry,
    {
        &self.registry
    }

    /// The results container, to read what it shows.
    pub fn results(&self) -> (results: &ResultsContainer)
        ensures
            results@ == self@.results,
    {
        &self.results
    }

    /// Whether the window has been put on screen.
    pub fn is_presented(&self) -> (presented: bool)
        ensures
            presented == self@.presented,
    {
        self.presented
    }
}

/// A window that was just built is well formed.
pub proof fn lemma_initial_wf(registry: Seq<Seq<char>>)
    ensures
        WindowView::initial(registry).wf(),
        WindowView::initial(registry).results == ResultsView::hidden_empty(),
{
    lemma_empty_query_matches_nothing(registry);
}

/// After a search the results container shows exactly the names in the
/// registry that contain the text, in registry order, and it is on screen
/// exactly when the search found a name. This holds of every state before,
/// well formed or not.
pub proof fn lemma_search_shows_results(before: WindowView, query: Seq<char>)
    ensures
        before.searched(query).wf(),
        before.searched(query).results.rows == matching_names(before.registry, query),
        before.searched(query).results.visible <==> matching_names(before.registry, query).len()
            > 0,
        forall|name: Seq<char>|
            #[trigger] before.searched(query).results.rows.contains(name)
                <==> before.registry.contains(name) && name_matches(name, query),
{
    assert forall|name: Seq<char>|
        #[trigger] before.searched(query).results.rows.contains(name)
            <==> before.registry.contains(name) && name_matches(name, query) by {
        lemma_matching_names_membership(before.registry, query, name);
    }
}

/// A search for the same text twice in a row leaves the window as one
/// search for it does.
pub proof fn lemma_search_idempotent(before: WindowView, query: Seq<char>)
    ensures
        before.searched(query).searched(query) == before.searched(query),
{
}

/// A search for the empty text leaves the results container empty and
/// hidden, whatever it showed before.
pub proof fn lemma_empty_search_hides(before: WindowView)
    ensures
        before.searched(Seq::empty()).results == ResultsView::hidden_empty(),
{
    lemma_empty_query_matches_nothing(before.registry);
}

/// A search starts from an empty container: what the container shows after
/// it does not depend on what it showed before, and every row is a result
/// for the text of this search. Two windows over the same registry show the
/// same after the same search, whatever either searched for earlier.
pub proof fn lemma_search_forgets_earlier_rows(
    one: WindowView,
    other: WindowView,
    query: Seq<char>,
)
    requires
        one.registry == other.registry,
    ensures
        one.searched(query).results == other.searched(query).results,
        forall|i: int|
            0 <= i < one.searched(query).results.rows.len() ==> name_matches(
                #[trigger] one.searched(query).results.rows[i],
                query,
            ),
{
    let rows = one.searched(query).results.rows;
    assert forall|i: int| 0 <= i < rows.len() implies name_matches(#[trigger] rows[i], query) by {
        lemma_matching_names_membership(one.registry, query, rows[i]);
    }
}

/// In a well-formed window the results container is on screen exactly when
/// the most recent search found a name.
pub proof fn lemma_visible_iff_found(window: WindowView)
    requires
        window.wf(),
    ensures
        window.results.visible <==> matching_names(window.registry, window.query).len() > 0,
        window.results.visible <==> window.results.rows.len() > 0,
{
}

} // verus!
