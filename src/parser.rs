use vstd::prelude::*;
use crate::command::{Command, CommandView};
use crate::direction::{direction_of, Direction};
use crate::state::{State, WorldView, GAME_OVER};
use crate::text::{contains_str, first_word, has_infix, second_word, str_eq, word_from};

verus! {

/// The command for a word that names its object (`take coin`), or, when the object is
/// missing, nothing and the message that asks for it.
pub open spec fn with_object(
    object: Seq<char>,
    make: spec_fn(Seq<char>) -> CommandView,
    missing: Seq<char>,
) -> (CommandView, Option<Seq<char>>) {
    if object.len() == 0 {
        (CommandView::Noop, Some(missing))
    } else {
        (make(object), None)
    }
}

/// What a line of input means, and what is told while reading it. `dead` says whether the
/// player has died, in which case every line is refused.
pub open spec fn parsed(line: Seq<char>, dead: bool) -> (CommandView, Option<Seq<char>>) {
    let verb = first_word(line);
    let object = second_word(line);
    if dead {
        (CommandView::Noop, Some("\nYou can't do that, you are still dead!"@))
    } else if verb == "look"@ {
        (CommandView::Look, None)
    } else if verb == "quit"@ {
        (CommandView::Quit, Some("Goodbye!"@))
    } else if verb == "save"@ {
        (CommandView::Save(object), Some("Saving game..."@))
    } else if verb == "load"@ {
        (CommandView::Load(object), Some("Loading game..."@))
    } else if verb == "go"@ {
        if object.len() == 0 {
            (CommandView::Noop, Some("You need to specify a direction to go to."@))
        } else {
            match direction_of(object) {
                Some(d) => (CommandView::Move(d), None),
                None => (CommandView::Noop, Some("I don't know that direction."@)),
            }
        }
    } else if verb == "north"@ || verb == "n"@ {
        (CommandView::Move(Direction::North), None)
    } else if verb == "south"@ || verb == "s"@ {
        (CommandView::Move(Direction::South), None)
    } else if verb == "east"@ || verb == "e"@ {
        (CommandView::Move(Direction::East), None)
    } else if verb == "west"@ || verb == "w"@ {
        (CommandView::Move(Direction::West), None)
    } else if verb == "take"@ || verb == "t"@ {
        with_object(object, |o| CommandView::Take(o), "You need to specify an item to take."@)
    } else if verb == "drop"@ {
        with_object(object, |o| CommandView::Drop(o), "You need to specify an item to drop."@)
    } else if verb == "inventory"@ || verb == "inv"@ || verb == "i"@ {
        (CommandView::Inventory, None)
    } else if verb == "examine"@ {
        with_object(object, |o| CommandView::Examine(o), "You need to specify an item to examine."@)
    } else if verb == "use"@ {
        with_object(object, |o| CommandView::Use(o), "You need to specify an item to use."@)
    } else if verb == "attack"@ {
        with_object(object, |o| CommandView::Attack(o), "You need to specify an enemy to atack."@)
    } else if verb == "help"@ {
        if object.len() == 0 {
            (CommandView::Help("Default"@), None)
        } else {
            (CommandView::Help(object), None)
        }
    } else if verb == "craft"@ {
        if object.len() == 0 {
            (CommandView::Noop, Some("You cant craft with that"@))
        } else if has_infix(object, "help"@) {
            (CommandView::CraftHelp, None)
        } else {
            (CommandView::Craft(object), None)
        }
    } else {
        (CommandView::Noop, Some("I don't understand that command."@))
    }
}

/// The world after what reading a line tells is logged.
pub open spec fn told(w: WorldView, msg: Option<Seq<char>>) -> WorldView {
    match msg {
        Some(m) => w.logged(m),
        None => w,
    }
}

/// Reads one line of (already lower-cased) input as a command. Its first word picks the
/// command and its second word, if any, names the object. A missing object or an unknown
/// word is told in the log and gives `Command::Noop`; once the player has died every line is
/// refused that way.
pub fn parse(input: &str, state: &mut State) -> (r: Command)
    ensures
        r@ == parsed(input@, old(state)@.loc == GAME_OVER).0,
        final(state)@ == told(old(state)@, parsed(input@, old(state)@.loc == GAME_OVER).1),
{
    let n = input.unicode_len();
    let (verb, end) = word_from(input, n, 0);
    let (object, _) = word_from(input, n, end);
    let verb = verb.as_str();
    let has_object = object.as_str().unicode_len() > 0;
    if state.is_dead() {
        state.log("\nYou can't do that, you are still dead!");
        return Command::Noop;
    }
    if str_eq(verb, "look") {
        Command::Look
    } else if str_eq(verb, "quit") {
        state.log("Goodbye!");
        Command::Quit
    } else if str_eq(verb, "save") {
        state.log("Saving game...");
        Command::Save(object)
    } else if str_eq(verb, "load") {
        state.log("Loading game...");
        Command::Load(object)
    } else if str_eq(verb, "go") {
        if !has_object {
            state.log("You need to specify a direction to go to.");
            Command::Noop
        } else {
            match Direction::from_str(object.as_str()) {
                Some(d) => Command::Move(d),
                None => {
                    state.log("I don't know that direction.");
                    Command::Noop
                },
            }
        }
    } else if str_eq(verb, "north") || str_eq(verb, "n") {
        Command::Move(Direction::North)
    } else if str_eq(verb, "south") || str_eq(verb, "s") {
        Command::Move(Direction::South)
    } else if str_eq(verb, "east") || str_eq(verb, "e") {
        Command::Move(Direction::East)
    } else if str_eq(verb, "west") || str_eq(verb, "w") {
        Command::Move(Direction::West)
    } else if str_eq(verb, "take") || str_eq(verb, "t") {
        if has_object {
            Command::Take(object)
        } else {
            state.log("You need to specify an item to take.");
            Command::Noop
        }
    } else if str_eq(verb, "drop") {
        if has_object {
            Command::Drop(object)
        } else {
            state.log("You need to specify an item to drop.");
            Command::Noop
        }
    } else if str_eq(verb, "inventory") || str_eq(verb, "inv") || str_eq(verb, "i") {
        Command::Inventory
    } else if str_eq(verb, "examine") {
        if has_object {
            Command::Examine(object)
        } else {
            state.log("You need to specify an item to examine.");
            Command::Noop
        }
    } else if str_eq(verb, "use") {
        if has_object {
            Command::Use(object)
        } else {
            state.log("You need to specify an item to use.");
            Command::Noop
        }
    } else if str_eq(verb, "attack") {
        if has_object {
            Command::Attack(object)
        } else {
            state.log("You need to specify an enemy to atack.");
            Command::Noop
        }
    } else if str_eq(verb, "help") {
        if has_object {
            Command::Help(object)
        } else {
            Command::Help("Default".to_string())
        }
    } else if str_eq(verb, "craft") {
        if !has_object {
            state.log("You cant craft with that");
            Command::Noop
        } else if contains_str(object.as_str(), "help") {
            Command::CraftHelp
        } else {
            Command::Craft(object)
        }
    } else {
        state.log("I don't understand that command.");
        Command::Noop
    }
}

} // verus!
