use vstd::prelude::*;
use vstd::string::StringExecFns;
use crate::command::{Command, CommandView};
use crate::direction::{direction_name, Direction};
use crate::entity::EntityView;
use crate::ids::with_id;
use crate::room::{exit_toward, with_exit, RoomView};
use crate::state::{consumed, dropped, first_match, lemma_first_match, lemma_with_room_wf, taken, State, WorldView};
use crate::text::{first_word, str_eq, word_from};
use crate::victory::{Victory, VictoryView};

verus! {

/// Told when a command needs a room and the player, having died, is in none.
pub const NO_ROOM: &'static str = "\nYou can't do that, you are still dead!";

/// The exits' direction names, each followed by a space.
pub open spec fn exit_names(exits: Seq<(Direction, usize)>) -> Seq<char>
    decreases exits.len(),
{
    if exits.len() == 0 {
        Seq::empty()
    } else {
        exit_names(exits.drop_last()) + direction_name(exits.last().0) + " "@
    }
}

/// The text `p` after each registered actor in `ids` is told: each one puts a line break in
/// front of the text so far and its description after it.
pub open spec fn with_actors(p: Seq<char>, ids: Seq<usize>, reg: Map<usize, EntityView>) -> Seq<char>
    decreases ids.len(),
{
    if ids.len() == 0 {
        p
    } else {
        let q = with_actors(p, ids.drop_last(), reg);
        if reg.contains_key(ids.last()) {
            "\n"@ + q + reg[ids.last()].description
        } else {
            q
        }
    }
}

/// The name of each registered entity in `ids`, each after a line break.
pub open spec fn name_lines(ids: Seq<usize>, reg: Map<usize, EntityView>) -> Seq<char>
    decreases ids.len(),
{
    if ids.len() == 0 {
        Seq::empty()
    } else {
        name_lines(ids.drop_last(), reg) + if reg.contains_key(ids.last()) {
            "\n"@ + reg[ids.last()].name
        } else {
            Seq::empty()
        }
    }
}

/// What looking around the current room tells: its description, its exits, the actors in it,
/// and the names of the entities in it.
pub open spec fn look_text(w: WorldView) -> Seq<char> {
    let room = w.room();
    let base = room.description + if room.exits.len() == 0 {
        "\nThere seems to be no exit.\n"@
    } else {
        "\nExits:"@ + exit_names(room.exits) + "\n"@
    };
    let with_cast = if room.actors.len() == 0 {
        base
    } else {
        with_actors(base, room.actors, w.actors) + "\n"@
    };
    with_cast + if room.entities.len() == 0 {
        "\nThere is nothing here."@
    } else {
        "\nYou see:"@ + name_lines(room.entities, w.entities)
    }
}

/// What asking for help on `topic` tells, if the topic is known.
pub open spec fn help_text(topic: Seq<char>) -> Option<Seq<char>> {
    if topic == "look"@ {
        Some("With look you get a brief description of your surroundings"@)
    } else if topic == "save"@ {
        Some("Saves your game for you"@)
    } else if topic == "load"@ {
        Some("Loads a prior saved game file"@)
    } else if topic == "examine"@ {
        Some("Gives you a detailed description of specified Item/Object. Can also be applied on items in your inventory"@)
    } else if topic == "inventory"@ {
        Some("Shows all items you are currently carrying with you"@)
    } else if topic == "go"@ {
        Some("With go you can navigate into any direction you specify(north/south/east/west)"@)
    } else if topic == "use"@ {
        Some("With use you can perform specific actions that require a specific item. Make sure to specify said items when using 'use'"@)
    } else if topic == "attack"@ {
        Some("Doesn't the name speak for itself? Just keep in mind messing with the wrong people WILL get you in trouble"@)
    } else if topic == "craft"@ {
        Some("With craft you consume item(s) to create new ones, that are oftentimes from much higher quality and value than there components"@)
    } else if topic == "Default"@ {
        Some("look\nquit\nsave\ngo\ndrop\ninventory\nexamine\nuse\nattack\ncraft"@)
    } else {
        None
    }
}

/// The world after trying to go toward `d`: the player moves and looks around if the exit
/// leads to a room, and is told "You can't go that way." otherwise.
pub open spec fn moved(w: WorldView, d: Direction) -> WorldView {
    if !w.in_room() {
        w.logged(NO_ROOM@)
    } else {
        match exit_toward(w.room().exits, d) {
            Some(to) if (to as int) < w.rooms.len() => {
                let w2 = WorldView { loc: to, ..w };
                w2.logged(look_text(w2))
            },
            _ => w.logged("\nYou can't go that way."@),
        }
    }
}

/// The file a save or load goes to: the one named, or else the one last used.
pub open spec fn chosen_file(w: WorldView, name: Seq<char>) -> Seq<char> {
    if name.len() == 0 {
        w.file_name
    } else {
        name
    }
}

/// What running command `c` does to world `w`, and what it asks of the front end.
pub open spec fn outcome(w: WorldView, c: CommandView) -> (WorldView, VictoryView) {
    match c {
        CommandView::Quit => (w, VictoryView::Quit),
        CommandView::GameOver => (w, VictoryView::GameOver),
        CommandView::Won => (w, VictoryView::Won),
        CommandView::Save(n) => (
            WorldView { file_name: chosen_file(w, n), ..w },
            VictoryView::Save(chosen_file(w, n)),
        ),
        CommandView::Load(n) => (w, VictoryView::Load(chosen_file(w, n))),
        CommandView::Look => (
            if w.in_room() {
                w.logged(look_text(w))
            } else {
                w.logged(NO_ROOM@)
            },
            VictoryView::Continue,
        ),
        CommandView::Move(d) => (moved(w, d), VictoryView::Continue),
        CommandView::Take(t) => (
            if !w.in_room() {
                w.logged(NO_ROOM@)
            } else {
                match first_match(w.room().entities, w.entities, t) {
                    Some(id) => taken(w, id).logged("\nTaken."@),
                    None => w.logged("\nThere is no "@ + t + " here."@),
                }
            },
            VictoryView::Continue,
        ),
        CommandView::Drop(t) => (
            if !w.in_room() {
                w.logged(NO_ROOM@)
            } else {
                match first_match(w.inventory, w.entities, t) {
                    Some(id) => dropped(w, id).logged("\nYou drop the "@ + w.entities[id].name),
                    None => w.logged("\nYou don't have a "@ + t + " to drop."@),
                }
            },
            VictoryView::Continue,
        ),
        CommandView::Inventory => (
            if w.inventory.len() == 0 {
                w.logged("\nYou are empty handed."@)
            } else {
                w.logged("You have:"@ + name_lines(w.inventory, w.entities))
            },
            VictoryView::Continue,
        ),
        CommandView::Examine(t) => (
            match first_match(w.inventory, w.entities, t) {
                Some(id) => w.logged("\n"@ + w.entities[id].description),
                None => w.logged("\nYou need to have item in inventory!"@),
            },
            VictoryView::Continue,
        ),
        CommandView::Eat(t) => (
            match first_match(w.inventory, w.entities, t) {
                Some(id) => consumed(w, id).logged(Seq::empty()),
                None => w.logged("\nYou need to have item in inventory!"@),
            },
            VictoryView::Continue,
        ),
        CommandView::Consume(id) => (consumed(w, id), VictoryView::Continue),
        CommandView::Craft(t) => match first_match(w.inventory, w.entities, t) {
            Some(id) if w.recipes.contains_key(id) => {
                let w2 = consumed(w, id).logged(Seq::empty());
                (WorldView { inventory: with_id(w2.inventory, w.recipes[id]), ..w2 }, VictoryView::Won)
            },
            _ => (w, VictoryView::Continue),
        },
        CommandView::CraftHelp => (w.logged(crate::state::craft_note(w.inventory, w)), VictoryView::Continue),
        CommandView::AddItemToRoom(id) => (
            if w.in_room() {
                w.with_room(RoomView { entities: with_id(w.room().entities, id), ..w.room() })
            } else {
                w
            },
            VictoryView::Continue,
        ),
        CommandView::AddExit(d, to) => (
            if w.in_room() {
                w.with_room(RoomView { exits: with_exit(w.room().exits, d, to), ..w.room() })
            } else {
                w
            },
            VictoryView::Continue,
        ),
        CommandView::RemoveActor(a) => (
            if w.in_room() {
                w.with_room(RoomView { actors: w.room().actors.remove_value(a), ..w.room() })
            } else {
                w
            },
            VictoryView::Continue,
        ),
        CommandView::ActivateEvent(e) => (
            if (e as int) < w.events.len() {
                WorldView { active_events: with_id(w.active_events, e), ..w }
            } else {
                w
            },
            VictoryView::Continue,
        ),
        CommandView::DeActivateEvent(e) => (
            WorldView { active_events: w.active_events.remove_value(e), ..w },
            VictoryView::Continue,
        ),
        CommandView::Help(topic) => (
            match help_text(first_word(topic)) {
                Some(text) => w.logged(text),
                None => w,
            },
            VictoryView::Continue,
        ),
        CommandView::Use(_) => (w, VictoryView::Continue),
        CommandView::Attack(_) => (w, VictoryView::Continue),
        CommandView::Noop => (w, VictoryView::Continue),
    }
}

/// The help text for `topic`, if the topic is known.
fn help_for(topic: &str) -> (r: Option<&'static str>)
    ensures
        match r {
            Some(t) => help_text(topic@) == Some(t@),
            None => help_text(topic@) is None,
        },
{
    if str_eq(topic, "look") {
        Some("With look you get a brief description of your surroundings")
    } else if str_eq(topic, "save") {
        Some("Saves your game for you")
    } else if str_eq(topic, "load") {
        Some("Loads a prior saved game file")
    } else if str_eq(topic, "examine") {
        Some("Gives you a detailed description of specified Item/Object. Can also be applied on items in your inventory")
    } else if str_eq(topic, "inventory") {
        Some("Shows all items you are currently carrying with you")
    } else if str_eq(topic, "go") {
        Some("With go you can navigate into any direction you specify(north/south/east/west)")
    } else if str_eq(topic, "use") {
        Some("With use you can perform specific actions that require a specific item. Make sure to specify said items when using 'use'")
    } else if str_eq(topic, "attack") {
        Some("Doesn't the name speak for itself? Just keep in mind messing with the wrong people WILL get you in trouble")
    } else if str_eq(topic, "craft") {
        Some("With craft you consume item(s) to create new ones, that are oftentimes from much higher quality and value than there components")
    } else if str_eq(topic, "Default") {
        Some("look\nquit\nsave\ngo\ndrop\ninventory\nexamine\nuse\nattack\ncraft")
    } else {
        None
    }
}

/// Appends the names of the registered entities among `ids`, one per line.
fn append_names(state: &State, ids: &Vec<usize>, msg: &mut String)
    ensures
        final(msg)@ == old(msg)@ + name_lines(ids@, state@.entities),
{
    let n = ids.len();
    let mut i: usize = 0;
    while i < n
        invariant
            n == ids@.len(),
            i <= n,
            msg@ == old(msg)@ + name_lines(ids@.subrange(0, i as int), state@.entities),
        decreases n - i,
    {
        match state.get_entity(ids[i]) {
            Some(e) => {
                msg.append("\n");
                msg.append(e.get_name());
            },
            None => {},
        }
        proof {
            let sub = ids@.subrange(0, i as int + 1);
            assert(sub.drop_last() =~= ids@.subrange(0, i as int));
            assert(sub.last() == ids@[i as int]);
        }
        i = i + 1;
        assert(msg@ =~= old(msg)@ + name_lines(ids@.subrange(0, i as int), state@.entities));
    }
    assert(ids@.subrange(0, n as int) =~= ids@);
}

/// Tells the registered actors among `ids` around the text `msg` (see `with_actors`).
fn tell_actors(state: &State, ids: &Vec<usize>, msg: String) -> (r: String)
    ensures
        r@ == with_actors(msg@, ids@, state@.actors),
{
    let ghost p = msg@;
    let mut msg = msg;
    let n = ids.len();
    let mut i: usize = 0;
    while i < n
        invariant
            n == ids@.len(),
            i <= n,
            msg@ == with_actors(p, ids@.subrange(0, i as int), state@.actors),
        decreases n - i,
    {
        match state.get_actor(ids[i]) {
            Some(a) => {
                let mut m = String::new();
                m.append("\n");
                m.append(msg.as_str());
                m.append(a.description.as_str());
                msg = m;
            },
            None => {},
        }
        proof {
            let sub = ids@.subrange(0, i as int + 1);
            assert(sub.drop_last() =~= ids@.subrange(0, i as int));
            assert(sub.last() == ids@[i as int]);
        }
        i = i + 1;
        assert(msg@ =~= with_actors(p, ids@.subrange(0, i as int), state@.actors));
    }
    assert(ids@.subrange(0, n as int) =~= ids@);
    msg
}

/// Appends the names of the exits' directions, each followed by a space.
fn append_exits(exits: &Vec<(Direction, usize)>, msg: &mut String)
    ensures
        final(msg)@ == old(msg)@ + exit_names(exits@),
{
    let n = exits.len();
    let mut i: usize = 0;
    while i < n
        invariant
            n == exits@.len(),
            i <= n,
            msg@ == old(msg)@ + exit_names(exits@.subrange(0, i as int)),
        decreases n - i,
    {
        msg.append(exits[i].0.name());
        msg.append(" ");
        proof {
            let sub = exits@.subrange(0, i as int + 1);
            assert(sub.drop_last() =~= exits@.subrange(0, i as int));
            assert(sub.last() == exits@[i as int]);
        }
        i = i + 1;
        assert(msg@ =~= old(msg)@ + exit_names(exits@.subrange(0, i as int)));
    }
    assert(exits@.subrange(0, n as int) =~= exits@);
}

/// Tells what the current room holds.
fn look(state: &mut State)
    requires
        old(state).wf(),
    ensures
        final(state).wf(),
        final(state)@ == if old(state)@.in_room() {
            old(state)@.logged(look_text(old(state)@))
        } else {
            old(state)@.logged(NO_ROOM@)
        },
{
    if !state.in_room() {
        state.log(NO_ROOM);
        return;
    }
    let mut msg = String::new();
    {
        let room = state.get_room();
        msg.append(room.get_description());
        let exits = room.get_exits();
        if exits.len() == 0 {
            msg.append("\nThere seems to be no exit.\n");
        } else {
            msg.append("\nExits:");
            append_exits(exits, &mut msg);
            msg.append("\n");
        }
        let ghost w = state@;
        let ghost base = w.room().description + if w.room().exits.len() == 0 {
            "\nThere seems to be no exit.\n"@
        } else {
            "\nExits:"@ + exit_names(w.room().exits) + "\n"@
        };
        assert(msg@ =~= base);
        if room.get_actors().len() > 0 {
            msg = tell_actors(state, room.get_actors(), msg);
            msg.append("\n");
        }
        assert(msg@ =~= if w.room().actors.len() == 0 {
            base
        } else {
            with_actors(base, w.room().actors, w.actors) + "\n"@
        });
        let entities = room.get_entities();
        if entities.len() == 0 {
            msg.append("\nThere is nothing here.");
        } else {
            msg.append("\nYou see:");
            append_names(state, entities, &mut msg);
        }
    }
    assert(msg@ =~= look_text(state@));
    state.log(msg.as_str());
}

/// Goes toward `d` and looks around, if the exit leads to a room.
fn go(state: &mut State, d: Direction)
    requires
        old(state).wf(),
    ensures
        final(state).wf(),
        final(state)@ == moved(old(state)@, d),
{
    if !state.in_room() {
        state.log(NO_ROOM);
        return;
    }
    match state.get_exit(d) {
        Some(to) => {
            if state.in_room_number(to) {
                state.set_location(to);
                look(state);
            } else {
                state.log("\nYou can't go that way.");
            }
        },
        None => {
            state.log("\nYou can't go that way.");
        },
    }
}

/// Puts entity `id` into the current room, if the player is in one.
fn add_item(state: &mut State, id: usize)
    requires
        old(state).wf(),
    ensures
        final(state).wf(),
        final(state)@ == outcome(old(state)@, CommandView::AddItemToRoom(id)).0,
{
    if state.in_room() {
        let ghost w = state@;
        let ghost r2 = RoomView { entities: with_id(w.room().entities, id), ..w.room() };
        assert(w.rooms[w.loc as int].wf());
        state.get_room_mut().add_entity(id);
        proof {
            lemma_with_room_wf(w, r2);
            assert(state@ == w.with_room(r2));
        }
    }
}

/// Makes the current room's exit toward `d` lead to `to`, if the player is in a room.
fn add_exit(state: &mut State, d: Direction, to: usize)
    requires
        old(state).wf(),
    ensures
        final(state).wf(),
        final(state)@ == outcome(old(state)@, CommandView::AddExit(d, to)).0,
{
    if state.in_room() {
        let ghost w = state@;
        let ghost r2 = RoomView { exits: with_exit(w.room().exits, d, to), ..w.room() };
        assert(w.rooms[w.loc as int].wf());
        state.get_room_mut().add_exit(d, to);
        proof {
            lemma_with_room_wf(w, r2);
            assert(state@ == w.with_room(r2));
        }
    }
}

/// Takes actor `a` out of the current room, if the player is in one.
fn remove_actor(state: &mut State, a: usize)
    requires
        old(state).wf(),
    ensures
        final(state).wf(),
        final(state)@ == outcome(old(state)@, CommandView::RemoveActor(a)).0,
{
    if state.in_room() {
        let ghost w = state@;
        let ghost r2 = RoomView { actors: w.room().actors.remove_value(a), ..w.room() };
        assert(w.rooms[w.loc as int].wf());
        state.get_room_mut().remove_actor(a);
        proof {
            lemma_with_room_wf(w, r2);
            assert(state@ == w.with_room(r2));
        }
    }
}

impl Command {
    /// Runs the command on the world: changes it, adds what is told to its log, and says what
    /// the front end is to do next.
    pub fn execute(&self, state: &mut State) -> (r: Victory)
        requires
            old(state).wf(),
        ensures
            final(state).wf(),
            (final(state)@, r@) == outcome(old(state)@, self@),
    {
        match self {
            Command::Quit => Victory::Quit,
            Command::GameOver => Victory::GameOver,
            Command::Won => Victory::Won,
            Command::Save(name) => {
                let file = if name.as_str().unicode_len() == 0 {
                    state.get_file_name().to_string()
                } else {
                    name.clone()
                };
                state.set_file_name(file.as_str());
                Victory::Save(file)
            },
            Command::Load(name) => {
                let file = if name.as_str().unicode_len() == 0 {
                    state.get_file_name().to_string()
                } else {
                    name.clone()
                };
                Victory::Load(file)
            },
            Command::Look => {
                look(state);
                Victory::Continue
            },
            Command::Move(d) => {
                go(state, *d);
                Victory::Continue
            },
            Command::Take(thing) => {
                if !state.in_room() {
                    state.log(NO_ROOM);
                } else if state.take_entity_from_room(thing.as_str()) {
                    state.log("\nTaken.");
                } else {
                    let mut msg = String::new();
                    msg.append("\nThere is no ");
                    msg.append(thing.as_str());
                    msg.append(" here.");
                    state.log(msg.as_str());
                }
                Victory::Continue
            },
            Command::Drop(thing) => {
                if !state.in_room() {
                    state.log(NO_ROOM);
                } else {
                    let ghost w = state@;
                    let found = match state.get_from_inventory(thing.as_str()) {
                        Some((id, e)) => Some((id, e.get_name().to_string())),
                        None => None,
                    };
                    match found {
                        Some((id, name)) => {
                            add_item(state, id);
                            let mut msg = String::new();
                            msg.append("\nYou drop the ");
                            msg.append(name.as_str());
                            state.log(msg.as_str());
                            assert(state@ == dropped(w, id).logged("\nYou drop the "@ + w.entities[id].name));
                        },
                        None => {
                            let mut msg = String::new();
                            msg.append("\nYou don't have a ");
                            msg.append(thing.as_str());
                            msg.append(" to drop.");
                            state.log(msg.as_str());
                        },
                    }
                }
                Victory::Continue
            },
            Command::Inventory => {
                let mut msg = String::new();
                if state.get_inventory().len() == 0 {
                    msg.append("\nYou are empty handed.");
                } else {
                    msg.append("You have:");
                    append_names(state, state.get_inventory(), &mut msg);
                }
                state.log(msg.as_str());
                Victory::Continue
            },
            Command::Examine(thing) => {
                proof {
                    lemma_first_match(state@.inventory, state@.entities, thing@);
                }
                match state.find_inventory(thing.as_str()) {
                    Some(id) => {
                        match state.get_entity(id) {
                            Some(e) => {
                                let mut text = String::new();
                                text.append("\n");
                                text.append(e.get_description());
                                state.log(text.as_str());
                            },
                            None => {},
                        }
                    },
                    None => {
                        state.log("\nYou need to have item in inventory!");
                    },
                }
                Victory::Continue
            },
            Command::Eat(thing) => {
                match state.find_inventory(thing.as_str()) {
                    Some(id) => {
                        state.consume_from_inventory(&id);
                        let blank = String::new();
                        state.log(blank.as_str());
                    },
                    None => {
                        state.log("\nYou need to have item in inventory!");
                    },
                }
                Victory::Continue
            },
            Command::Consume(id) => {
                state.consume_from_inventory(id);
                Victory::Continue
            },
            Command::Craft(thing) => {
                match state.find_inventory(thing.as_str()) {
                    Some(id) => {
                        let product = match state.get_craft_inventory().get(&id) {
                            Some(p) => Some(*p),
                            None => None,
                        };
                        match product {
                            Some(p) => {
                                state.consume_from_inventory(&id);
                                let blank = String::new();
                                state.log(blank.as_str());
                                state.why_not_mutable(p);
                                Victory::Won
                            },
                            None => Victory::Continue,
                        }
                    },
                    None => Victory::Continue,
                }
            },
            Command::CraftHelp => {
                state.craft_help();
                Victory::Continue
            },
            Command::AddItemToRoom(id) => {
                add_item(state, *id);
                Victory::Continue
            },
            Command::AddExit(d, to) => {
                add_exit(state, *d, *to);
                Victory::Continue
            },
            Command::RemoveActor(a) => {
                remove_actor(state, *a);
                Victory::Continue
            },
            Command::ActivateEvent(e) => {
                state.activate_event(e);
                Victory::Continue
            },
            Command::DeActivateEvent(e) => {
                state.de_activate_event(e);
                Victory::Continue
            },
            Command::Help(topic) => {
                let n = topic.as_str().unicode_len();
                let (word, _) = word_from(topic.as_str(), n, 0);
                match help_for(word.as_str()) {
                    Some(text) => state.log(text),
                    None => {},
                }
                Victory::Continue
            },
            Command::Use(_) => Victory::Continue,
            Command::Attack(_) => Victory::Continue,
            Command::Noop => Victory::Continue,
        }
    }
}

} // verus!
