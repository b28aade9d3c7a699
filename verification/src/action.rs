//! The normalized change that travels from the scheduler to every target.
use vstd::prelude::*;

verus! {

/// Mathematical value of a [`CompressorAction`]: the same variants over
/// sequences of characters.
pub enum ActionView {
    Create(Seq<char>),
    Remove(Seq<char>),
    Rename(Seq<char>, Seq<char>),
}

/// A change of the source tree. Every path is relative to the watched root.
#[derive(Debug, PartialEq, Eq)]
pub enum CompressorAction {
    /// A file now exists at the path and has to be encoded into every mirror.
    Create(String),
    /// The entry at the path is gone and has to leave every mirror.
    Remove(String),
    /// An entry moved; mirrors move theirs without encoding again.
    Rename(String, String),
}

impl View for CompressorAction {
    type V = ActionView;

    open spec fn view(&self) -> ActionView {
        match self {
            CompressorAction::Create(p) => ActionView::Create(p@),
            CompressorAction::Remove(p) => ActionView::Remove(p@),
            CompressorAction::Rename(from, to) => ActionView::Rename(from@, to@),
        }
    }
}

impl Clone for CompressorAction {
    /// An independent copy with the same variant and the same paths.
    fn clone(&self) -> (res: Self)
        ensures
            res@ == self@,
    {
        match self {
            CompressorAction::Create(p) => CompressorAction::Create(p.clone()),
            CompressorAction::Remove(p) => CompressorAction::Remove(p.clone()),
            CompressorAction::Rename(from, to) => CompressorAction::Rename(
                from.clone(),
                to.clone(),
            ),
        }
    }
}

} // verus!
