//! The list of rendered result rows and its visibility.

use vstd::prelude::*;

verus! {

/// What a results container shows: its rows from top to bottom, and whether
/// the container is on screen.
#[verifier::ext_equal]
pub struct ResultsView {
    pub rows: Seq<Seq<char>>,
    pub visible: bool,
}

impl ResultsView {
    /// The state of a container that shows nothing: no rows, hidden.
    pub open spec fn hidden_empty() -> ResultsView {
        ResultsView { rows: Seq::empty(), visible: false }
    }

    /// The rest state of a container between two searches: shown exactly
    /// when it has a row.
    pub open spec fn settled(self) -> bool {
        self.visible <==> self.rows.len() > 0
    }
}

/// An ordered list of rendered name rows that can be shown or hidden.
#[derive(Debug)]
pub struct ResultsContainer {
    rows: Vec<String>,
    visible: bool,
}

impl View for ResultsContainer {
    type V = ResultsView;

    closed spec fn view(&self) -> ResultsView {
        ResultsView { rows: self.rows.deep_view(), visible: self.visible }
    }
}

impl ResultsContainer {
    /// A container with no rows, hidden.
    pub fn new() -> (container: Self)
        ensures
            container@ == ResultsView::hidden_empty(),
    {
        let container = ResultsContainer { rows: Vec::new(), visible: false };
        assert(container.rows.deep_view() =~= Seq::<Seq<char>>::empty());
        container
    }

    /// Discards every row. Visibility is left as it is.
    pub fn clear(&mut self)
        ensures
            final(self)@.rows == Seq::<Seq<char>>::empty(),
            final(self)@.visible == old(self)@.visible,
    {
        self.rows.clear();
        assert(self.rows.deep_view() =~= Seq::<Seq<char>>::empty());
    }

    /// Appends one row below the rows already there.
    pub fn push(&mut self, row: String)
        ensures
            final(self)@.rows == old(self)@.rows.push(row@),
            final(self)@.visible == old(self)@.visible,
    {
        self.rows.push(row);
        assert(self.rows.deep_view() =~= old(self).rows.deep_view().push(row@));
    }

    /// Puts the container on screen, or takes it off. The rows are left as
    /// they are.
    pub fn set_visible(&mut self, visible: bool)
        ensures
            final(self)@.rows == old(self)@.rows,
            final(self)@.visible == visible,
    {
        self.visible = visible;
    }

    /// Whether the container is on screen.
    pub fn is_visible(&self) -> (visible: bool)
        ensures
            visible == self@.visible,
    {
        self.visible
    }

    /// The number of rows.
    pub fn len(&self) -> (len: usize)
        ensures
            len == self@.rows.len(),
    {
        self.rows.len()
    }

    /// Whether the container has no row.
    pub fn is_empty(&self) -> (empty: bool)
        ensures
            empty == (self@.rows.len() == 0),
    {
        self.rows.len() == 0
    }

    /// The rows from top to bottom.
    pub fn rows(&self) -> (rows: &Vec<String>)
        ensures
            rows.deep_view() == self@.rows,
    {
        &self.rows
    }
}

} // verus!
