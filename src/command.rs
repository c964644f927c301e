use vstd::prelude::*;
use crate::direction::Direction;

verus! {

/// An instruction to the world: what a player typed, or a step of a scripted event.
#[derive(Debug)]
pub enum Command {
    Move(Direction),
    Look,
    Take(String),
    Drop(String),
    Examine(String),
    Save(String),
    Load(String),
    Quit,
    Inventory,
    AddItemToRoom(usize),
    Noop,
    DeActivateEvent(usize),
    ActivateEvent(usize),
    Use(String),
    RemoveActor(usize),
    Eat(String),
    Consume(usize),
    AddExit(Direction, usize),
    Craft(String),
    CraftHelp,
    Attack(String),
    GameOver,
    Won,
    Help(String),
}

/// A command as plain values.
pub enum CommandView {
    Move(Direction),
    Look,
    Take(Seq<char>),
    Drop(Seq<char>),
    Examine(Seq<char>),
    Save(Seq<char>),
    Load(Seq<char>),
    Quit,
    Inventory,
    AddItemToRoom(usize),
    Noop,
    DeActivateEvent(usize),
    ActivateEvent(usize),
    Use(Seq<char>),
    RemoveActor(usize),
    Eat(Seq<char>),
    Consume(usize),
    AddExit(Direction, usize),
    Craft(Seq<char>),
    CraftHelp,
    Attack(Seq<char>),
    GameOver,
    Won,
    Help(Seq<char>),
}

impl View for Command {
    type V = CommandView;

    open spec fn view(&self) -> CommandView {
        match self {
            Command::Move(a0) => CommandView::Move(*a0),
            Command::Look => CommandView::Look,
            Command::Take(a0) => CommandView::Take(a0@),
            Command::Drop(a0) => CommandView::Drop(a0@),
            Command::Examine(a0) => CommandView::Examine(a0@),
            Command::Save(a0) => CommandView::Save(a0@),
            Command::Load(a0) => CommandView::Load(a0@),
            Command::Quit => CommandView::Quit,
            Command::Inventory => CommandView::Inventory,
            Command::AddItemToRoom(a0) => CommandView::AddItemToRoom(*a0),
            Command::Noop => CommandView::Noop,
            Command::DeActivateEvent(a0) => CommandView::DeActivateEvent(*a0),
            Command::ActivateEvent(a0) => CommandView::ActivateEvent(*a0),
            Command::Use(a0) => CommandView::Use(a0@),
            Command::RemoveActor(a0) => CommandView::RemoveActor(*a0),
            Command::Eat(a0) => CommandView::Eat(a0@),
            Command::Consume(a0) => CommandView::Consume(*a0),
            Command::AddExit(a0, a1) => CommandView::AddExit(*a0, *a1),
            Command::Craft(a0) => CommandView::Craft(a0@),
            Command::CraftHelp => CommandView::CraftHelp,
            Command::Attack(a0) => CommandView::Attack(a0@),
            Command::GameOver => CommandView::GameOver,
            Command::Won => CommandView::Won,
            Command::Help(a0) => CommandView::Help(a0@),
        }
    }
}

/// The plain values of a list of commands.
pub open spec fn commands_view(s: Seq<Command>) -> Seq<CommandView> {
    s.map_values(|c: Command| c@)
}

impl PartialEq for Command {
    fn eq(&self, other: &Command) -> (r: bool) {
        match (self, other) {
            (Command::Move(a0), Command::Move(b0)) => *a0 == *b0,
            (Command::Look, Command::Look) => true,
            (Command::Take(a0), Command::Take(b0)) => *a0 == *b0,
            (Command::Drop(a0), Command::Drop(b0)) => *a0 == *b0,
            (Command::Examine(a0), Command::Examine(b0)) => *a0 == *b0,
            (Command::Save(a0), Command::Save(b0)) => *a0 == *b0,
            (Command::Load(a0), Command::Load(b0)) => *a0 == *b0,
            (Command::Quit, Command::Quit) => true,
            (Command::Inventory, Command::Inventory) => true,
            (Command::AddItemToRoom(a0), Command::AddItemToRoom(b0)) => *a0 == *b0,
            (Command::Noop, Command::Noop) => true,
            (Command::DeActivateEvent(a0), Command::DeActivateEvent(b0)) => *a0 == *b0,
            (Command::ActivateEvent(a0), Command::ActivateEvent(b0)) => *a0 == *b0,
            (Command::Use(a0), Command::Use(b0)) => *a0 == *b0,
            (Command::RemoveActor(a0), Command::RemoveActor(b0)) => *a0 == *b0,
            (Command::Eat(a0), Command::Eat(b0)) => *a0 == *b0,
            (Command::Consume(a0), Command::Consume(b0)) => *a0 == *b0,
            (Command::AddExit(a0, a1), Command::AddExit(b0, b1)) => *a0 == *b0 && *a1 == *b1,
            (Command::Craft(a0), Command::Craft(b0)) => *a0 == *b0,
            (Command::CraftHelp, Command::CraftHelp) => true,
            (Command::Attack(a0), Command::Attack(b0)) => *a0 == *b0,
            (Command::GameOver, Command::GameOver) => true,
            (Command::Won, Command::Won) => true,
            (Command::Help(a0), Command::Help(b0)) => *a0 == *b0,
            _ => false,
        }
    }
}

impl vstd::std_specs::cmp::PartialEqSpecImpl for Command {
    open spec fn obeys_eq_spec() -> bool {
        true
    }

    open spec fn eq_spec(&self, other: &Command) -> bool {
        self@ == other@
    }
}

impl Eq for Command {

}

impl Clone for Command {
    fn clone(&self) -> (r: Self)
        ensures
            r@ == self@,
    {
        match self {
            Command::Move(a0) => Command::Move(*a0),
            Command::Look => Command::Look,
            Command::Take(a0) => Command::Take(a0.clone()),
            Command::Drop(a0) => Command::Drop(a0.clone()),
            Command::Examine(a0) => Command::Examine(a0.clone()),
            Command::Save(a0) => Command::Save(a0.clone()),
            Command::Load(a0) => Command::Load(a0.clone()),
            Command::Quit => Command::Quit,
            Command::Inventory => Command::Inventory,
            Command::AddItemToRoom(a0) => Command::AddItemToRoom(*a0),
            Command::Noop => Command::Noop,
            Command::DeActivateEvent(a0) => Command::DeActivateEvent(*a0),
            Command::ActivateEvent(a0) => Command::ActivateEvent(*a0),
            Command::Use(a0) => Command::Use(a0.clone()),
            Command::RemoveActor(a0) => Command::RemoveActor(*a0),
            Command::Eat(a0) => Command::Eat(a0.clone()),
            Command::Consume(a0) => Command::Consume(*a0),
            Command::AddExit(a0, a1) => Command::AddExit(*a0, *a1),
            Command::Craft(a0) => Command::Craft(a0.clone()),
            Command::CraftHelp => Command::CraftHelp,
            Command::Attack(a0) => Command::Attack(a0.clone()),
            Command::GameOver => Command::GameOver,
            Command::Won => Command::Won,
            Command::Help(a0) => Command::Help(a0.clone()),
        }
    }
}

/// Copies a list of commands.
pub fn copy_commands(v: &Vec<Command>) -> (r: Vec<Command>)
    ensures
        commands_view(r@) == commands_view(v@),
{
    let mut r: Vec<Command> = Vec::new();
    let mut i: usize = 0;
    while i < v.len()
        invariant
            i <= v@.len(),
            r@.len() == i,
            forall|j: int| 0 <= j < i ==> (#[trigger] r@[j])@ == v@[j]@,
        decreases v.len() - i,
    {
        let c = v[i].clone();
        r.push(c);
        i = i + 1;
    }
    assert(commands_view(r@) =~= commands_view(v@));
    r
}

} // verus!
