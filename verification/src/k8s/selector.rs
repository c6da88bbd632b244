//! Label selectors: the labels an object must carry to be chosen.

use crate::k8s::labels::{LabelPairs, Labels};
use crate::string_map::put;
use vstd::prelude::*;

verus! {

/// A selector that matches the objects carrying all of its labels.
#[derive(Debug)]
pub struct Selector {
    match_labels: Labels,
}

/// What a [`Selector`] holds.
pub struct SelectorView {
    pub match_labels: LabelPairs,
}

impl SelectorView {
    /// The selector that asks for no label.
    pub open spec fn any() -> SelectorView {
        SelectorView { match_labels: Seq::empty() }
    }

    /// The same selector, asking also for the label `key` with `value`.
    pub open spec fn with_match_label(self, key: Seq<char>, value: Seq<char>) -> SelectorView {
        SelectorView { match_labels: put(self.match_labels, key, value) }
    }

    /// Does the selector choose an object that carries `labels`?
    pub open spec fn selects(self, labels: LabelPairs) -> bool {
        forall|i: int|
            0 <= i < self.match_labels.len() ==> labels.contains(#[trigger] self.match_labels[i])
    }
}

impl View for Selector {
    type V = SelectorView;

    closed spec fn view(&self) -> SelectorView {
        SelectorView { match_labels: self.match_labels@ }
    }
}

impl Selector {
    /// Starts a selector that asks for no label.
    pub fn builder() -> (selector: Selector)
        ensures
            selector@ == SelectorView::any(),
    {
        Selector { match_labels: Labels::new() }
    }

    /// The labels asked for.
    pub fn match_labels(&self) -> (labels: &Labels)
        ensures
            labels@ == self@.match_labels,
    {
        &self.match_labels
    }
}

/// The steps by which a selector is built.
pub trait SelectorBuilder: View<V = SelectorView> + Sized {
    /// Asks also for the label `key` with `value`.
    fn with_match_label(self, key: &str, value: &str) -> (next: Self)
        ensures
            next@ == self@.with_match_label(key@, value@),
    ;

    /// The selector as built so far.
    fn build(self) -> (selector: Selector)
        ensures
            selector@ == self@,
    ;
}

impl SelectorBuilder for Selector {
    fn with_match_label(self, key: &str, value: &str) -> (next: Self) {
        let mut next = self;
        next.match_labels.insert(key, value);
        next
    }

    fn build(self) -> (selector: Selector) {
        self
    }
}

} // verus!
