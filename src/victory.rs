use vstd::prelude::*;

verus! {

/// What a command asks of the front end once it has run.
#[derive(Debug, PartialEq)]
pub enum Victory {
    GameOver,
    Won,
    Quit,
    Save(String),
    Load(String),
    Continue,
}

/// An outcome as plain values.
pub enum VictoryView {
    GameOver,
    Won,
    Quit,
    Save(Seq<char>),
    Load(Seq<char>),
    Continue,
}

impl View for Victory {
    type V = VictoryView;

    open spec fn view(&self) -> VictoryView {
        match self {
            Victory::GameOver => VictoryView::GameOver,
            Victory::Won => VictoryView::Won,
            Victory::Quit => VictoryView::Quit,
            Victory::Save(f) => VictoryView::Save(f@),
            Victory::Load(f) => VictoryView::Load(f@),
            Victory::Continue => VictoryView::Continue,
        }
    }
}

} // verus!
