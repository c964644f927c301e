use vstd::prelude::*;
use vstd::string::StringExecFns;
use std::collections::HashMap;
use crate::actor::Actor;
use crate::command::{commands_view, copy_commands, Command, CommandView};
use crate::ids::{contains_id, insert_id, remove_id, with_id};
use crate::condition::{Condition, ConditionView};
use crate::direction::Direction;
use crate::entity::{Entity, EntityView};
use crate::event::{Event, EventView};
use crate::room::{exit_toward, with_exit, Room, RoomView};

verus! {

/// The file the game is saved to unless the player names another.
pub const SAVE_FILE: &'static str = "adventure_state.json";

/// The location that marks a player who has died; no room has this index.
pub const GAME_OVER: usize = 4294967295;

/// The whole world: where the player is, what they carry, the rooms, the registries of
/// entities and actors, the scripted events, and the log of what was told this turn.
#[derive(Debug)]
pub struct State {
    loc: usize,
    inventory: Vec<usize>,
    craft_inventory: HashMap<usize, usize>,
    rooms: Vec<Room>,
    entities: HashMap<usize, Entity>,
    actors: HashMap<usize, Actor>,
    active_events: Vec<usize>,
    events: Vec<Event>,
    conditions: Vec<Condition>,
    file_name: String,
    log: String,
}

/// The world as plain values.
pub struct WorldView {
    pub loc: usize,
    pub inventory: Seq<usize>,
    pub recipes: Map<usize, usize>,
    pub rooms: Seq<RoomView>,
    pub entities: Map<usize, EntityView>,
    pub actors: Map<usize, EntityView>,
    pub active_events: Seq<usize>,
    pub events: Seq<EventView>,
    pub conditions: Seq<ConditionView>,
    pub file_name: Seq<char>,
    pub log: Seq<char>,
}

impl WorldView {
    /// The invariant of a world: id lists hold each id once, armed events exist, every event's
    /// condition exists, and each condition node refers only to nodes before it. The last is
    /// how the table shows that it has no cycle: an acyclic table can always be numbered so,
    /// it lets evaluation be proved to end, and it needs nothing stored beside the table.
    pub open spec fn wf(self) -> bool {
        &&& self.inventory.no_duplicates()
        &&& self.active_events.no_duplicates()
        &&& forall|i: int| 0 <= i < self.active_events.len() ==> #[trigger] self.active_events[i] < self.events.len()
        &&& forall|i: int| 0 <= i < self.rooms.len() ==> (#[trigger] self.rooms[i]).wf()
        &&& forall|i: int| 0 <= i < self.events.len() ==> (#[trigger] self.events[i]).condition_id < self.conditions.len()
        &&& forall|i: int| 0 <= i < self.conditions.len() ==> (#[trigger] self.conditions[i]).refers_below(i)
    }

    /// Whether the player stands in a room (not so once they have died).
    pub open spec fn in_room(self) -> bool {
        self.loc < self.rooms.len()
    }

    /// The room the player stands in.
    pub open spec fn room(self) -> RoomView {
        self.rooms[self.loc as int]
    }

    /// The world with `msg` added to the log on a line of its own.
    pub open spec fn logged(self, msg: Seq<char>) -> WorldView {
        WorldView { log: self.log + "\n"@ + msg, ..self }
    }

    /// The world with the current room replaced.
    pub open spec fn with_room(self, r: RoomView) -> WorldView {
        WorldView { rooms: self.rooms.update(self.loc as int, r), ..self }
    }
}

/// Whether the table entry `a` holds, where only entries below `bound` may be consulted.
pub open spec fn entry_holds(w: WorldView, cmd: CommandView, a: usize, bound: int) -> bool
    decreases bound, 0int,
{
    if (a as int) < bound && (a as int) < w.conditions.len() {
        node_holds(w, cmd, w.conditions[a as int], a as int)
    } else {
        false
    }
}

/// Whether condition `node` holds in world `w` for the command `cmd` just given. The table
/// entries it refers to must lie below `bound`; one that does not counts as false.
pub open spec fn node_holds(w: WorldView, cmd: CommandView, node: ConditionView, bound: int) -> bool
    decreases bound, 1int,
{
    match node {
        ConditionView::CommandIs(c) => c == cmd,
        ConditionView::NotCommandIs(c) => c != cmd,
        ConditionView::Location(r) => w.loc == r,
        ConditionView::NotLocation(r) => w.loc != r,
        ConditionView::ObjectInInventory(e) => w.inventory.contains(e),
        ConditionView::NotObjectInInventory(e) => !w.inventory.contains(e),
        ConditionView::Actor(a) => w.actors.contains_key(a),
        ConditionView::And(a, b) => entry_holds(w, cmd, a, bound) && entry_holds(w, cmd, b, bound),
        ConditionView::Or(a, b) => entry_holds(w, cmd, a, bound) || entry_holds(w, cmd, b, bound),
        ConditionView::NotAnd(a, b) => !(entry_holds(w, cmd, a, bound) && entry_holds(w, cmd, b, bound)),
        ConditionView::NotOr(a, b) => !(entry_holds(w, cmd, a, bound) || entry_holds(w, cmd, b, bound)),
    }
}

/// Whether event `e` exists and its condition holds.
pub open spec fn event_fires(w: WorldView, cmd: CommandView, e: usize) -> bool {
    &&& (e as int) < w.events.len()
    &&& entry_holds(w, cmd, w.events[e as int].condition_id, w.conditions.len() as int)
}

/// The first armed event, from position `k` of the armed list on, whose condition holds.
pub open spec fn firing_from(w: WorldView, cmd: CommandView, k: int) -> Option<usize>
    decreases w.active_events.len() - k,
{
    if k < 0 || k >= w.active_events.len() {
        None
    } else if event_fires(w, cmd, w.active_events[k]) {
        Some(w.active_events[k])
    } else {
        firing_from(w, cmd, k + 1)
    }
}

/// The event that fires for `cmd`: the first armed one, in the order in which events were
/// armed, whose condition holds.
pub open spec fn first_firing(w: WorldView, cmd: CommandView) -> Option<usize> {
    firing_from(w, cmd, 0)
}

/// The first id in `ids` of a registered entity that `word` refers to. When several entities
/// answer to the word, the one listed first is chosen.
pub open spec fn first_match(ids: Seq<usize>, reg: Map<usize, EntityView>, word: Seq<char>) -> Option<usize>
    decreases ids.len(),
{
    if ids.len() == 0 {
        None
    } else if reg.contains_key(ids[0]) && reg[ids[0]].has_alias(word) {
        Some(ids[0])
    } else {
        first_match(ids.drop_first(), reg, word)
    }
}

/// An id that `first_match` finds is in the list, registered, and called `word`.
pub proof fn lemma_first_match(ids: Seq<usize>, reg: Map<usize, EntityView>, word: Seq<char>)
    ensures
        match first_match(ids, reg, word) {
            Some(x) => ids.contains(x) && reg.contains_key(x) && reg[x].has_alias(word),
            None => forall|i: int| 0 <= i < ids.len() ==> !(reg.contains_key(#[trigger] ids[i]) && reg[ids[i]].has_alias(word)),
        },
    decreases ids.len(),
{
    if ids.len() > 0 {
        lemma_first_match(ids.drop_first(), reg, word);
        if first_match(ids, reg, word) is Some && !(reg.contains_key(ids[0]) && reg[ids[0]].has_alias(word)) {
            let x = first_match(ids, reg, word).unwrap();
            let k = choose|k: int| 0 <= k < ids.drop_first().len() && ids.drop_first()[k] == x;
            assert(ids[k + 1] == x);
        }
        if first_match(ids, reg, word) is None {
            assert forall|i: int| 0 <= i < ids.len() implies !(reg.contains_key(#[trigger] ids[i]) && reg[ids[i]].has_alias(word)) by {
                if i > 0 {
                    assert(ids[i] == ids.drop_first()[i - 1]);
                }
            }
        }
    }
}

/// Replacing the current room by a well-formed one keeps the world well-formed.
pub proof fn lemma_with_room_wf(w: WorldView, r: RoomView)
    requires
        w.wf(),
        w.in_room(),
        r.wf(),
    ensures
        w.with_room(r).wf(),
{
    let w2 = w.with_room(r);
    assert forall|i: int| 0 <= i < w2.rooms.len() implies (#[trigger] w2.rooms[i]).wf() by {
        if i != w.loc as int {
            assert(w2.rooms[i] == w.rooms[i]);
        }
    }
}

/// The world after the player picks up entity `id` from the current room.
pub open spec fn taken(w: WorldView, id: usize) -> WorldView {
    WorldView {
        inventory: with_id(w.inventory, id),
        rooms: w.rooms.update(w.loc as int, RoomView { entities: w.room().entities.remove_value(id), ..w.room() }),
        ..w
    }
}

/// The world after the player puts entity `id` down in the current room.
pub open spec fn dropped(w: WorldView, id: usize) -> WorldView {
    WorldView {
        inventory: w.inventory.remove_value(id),
        rooms: w.rooms.update(w.loc as int, RoomView { entities: with_id(w.room().entities, id), ..w.room() }),
        ..w
    }
}

/// The world after entity `id` is used up: it leaves the inventory, and "Consumed" and its
/// name are told on a line of their own (an unknown id tells an empty line).
pub open spec fn consumed(w: WorldView, id: usize) -> WorldView {
    let w2 = WorldView { inventory: w.inventory.remove_value(id), ..w };
    if w.entities.contains_key(id) {
        w2.logged("\nConsumed "@ + w.entities[id].name)
    } else {
        w2.logged(Seq::empty())
    }
}

/// What the crafting help tells: for the last entity in `ids` that a recipe applies to, its
/// name, an arrow, and the product's name. A later such entity's line replaces an earlier
/// one's; an unknown name leaves what was there before.
pub open spec fn craft_note(ids: Seq<usize>, w: WorldView) -> Seq<char>
    decreases ids.len(),
{
    if ids.len() == 0 {
        Seq::empty()
    } else {
        let m = craft_note(ids.drop_last(), w);
        let e = ids.last();
        if w.recipes.contains_key(e) {
            let m1 = if w.entities.contains_key(e) {
                w.entities[e].name + " ---> "@
            } else {
                m
            };
            if w.entities.contains_key(w.recipes[e]) {
                m1 + w.entities[w.recipes[e]].name
            } else {
                m1
            }
        } else {
            m
        }
    }
}

impl View for State {
    type V = WorldView;

    closed spec fn view(&self) -> WorldView {
        WorldView {
            loc: self.loc,
            inventory: self.inventory@,
            recipes: self.craft_inventory@,
            rooms: self.rooms@.map_values(|r: Room| r@),
            entities: self.entities@.map_values(|e: Entity| e@),
            actors: self.actors@.map_values(|a: Actor| a@),
            active_events: self.active_events@,
            events: self.events@.map_values(|e: Event| e@),
            conditions: self.conditions@.map_values(|c: Condition| c@),
            file_name: self.file_name@,
            log: self.log@,
        }
    }
}

/// An entity or actor as plain text.
pub open spec fn thing(name: Seq<char>, description: Seq<char>, aliases: Seq<Seq<char>>) -> EntityView {
    EntityView { name, description, aliases }
}

/// A room as plain values.
pub open spec fn place(
    name: Seq<char>,
    description: Seq<char>,
    entities: Seq<usize>,
    actors: Seq<usize>,
    exits: Seq<(Direction, usize)>,
) -> RoomView {
    RoomView { name, description, entities, actors, exits }
}

/// An event as plain values.
pub open spec fn happening(condition_id: usize, message: Seq<char>, command_stack: Seq<CommandView>) -> EventView {
    EventView { condition_id, message, command_stack }
}

/// The world the game starts in: four rooms, six entities, a goblin, one recipe (gold into
/// armor), a table of nineteen conditions, and six scripted events of which three are armed.
pub open spec fn start_world() -> WorldView {
    WorldView {
        loc: 0,
        inventory: Seq::empty(),
        recipes: map![1usize => 5usize],
        rooms: seq![
            place("Entrance"@, "You are in the entrance of the dungeon."@, seq![3usize], Seq::empty(), seq![(Direction::North, 1usize)]),
            place("Corridor"@, "You are in a dark corridor."@, Seq::empty(), Seq::empty(), seq![(Direction::South, 0usize), (Direction::East, 2usize)]),
            place("Chamber"@, "There is a bed in the chamber. The pillows are soft."@, Seq::empty(), seq![1usize], seq![(Direction::West, 1usize)]),
            place("Treasure Room"@, "You found the treasure room!"@, seq![1usize], Seq::empty(), seq![(Direction::South, 2usize)]),
        ],
        entities: map![
            1usize => thing("A stack of gold"@, "It consists for roughly some hundred shiny gold coins."@, seq!["pile"@, "stack"@, "gold"@]),
            2usize => thing("A copper coin"@, "An old, dirty copper coin."@, seq!["copper"@, "coin"@]),
            3usize => thing("A vending machine"@, "The vending machine has a small slid for the coins. The display is too dirty to reveal what it sells."@, seq!["machine"@, "vending"@]),
            4usize => thing("Bag of chips"@, "The chips don't really look that bad, the smell however, suggests otherwise"@, seq!["chips"@]),
            5usize => thing("armor"@, "A really shiny, yet very powerful piece of armor"@, seq!["armor"@]),
            6usize => thing("Goblin corpse"@, "The corpse smells badly and is rotting slowly."@, seq!["goblin"@, "corpse"@]),
        ],
        actors: map![
            1usize => thing("Goblin"@, "A small red goblin leans against a door to the north."@, seq!["goblin"@]),
        ],
        active_events: seq![0usize, 2, 5],
        events: seq![
            happening(2, "The bed is made of soft wood and has a comfortable mattress. Below the pillow you find a copper coin"@,
                seq![CommandView::AddItemToRoom(2), CommandView::DeActivateEvent(0), CommandView::ActivateEvent(1)]),
            happening(2, "Now that you have taken the coin, you glance down at an empty bed"@, Seq::empty()),
            happening(7, "The vending machine makes some concerning noice... but it works!"@,
                seq![
                    CommandView::DeActivateEvent(2),
                    CommandView::ActivateEvent(3),
                    CommandView::AddItemToRoom(4),
                    CommandView::Consume(2),
                    CommandView::ActivateEvent(4),
                ]),
            happening(7, "You would sure like to get more loot, however your only coin is now gone"@, Seq::empty()),
            happening(11, "The goblin doesn't seem to take much interest in you, but he hungrily takes the chips.\nThe goblins face turns green, than grey.\nHe falls to the floow and doesn't move anymore."@,
                seq![CommandView::AddExit(Direction::North, 3), CommandView::RemoveActor(1), CommandView::AddItemToRoom(6)]),
            happening(15, "The Goblin's Fist hits (you) like a truck and lands you on the ground, where you get knocked out"@,
                seq![CommandView::GameOver]),
        ],
        conditions: seq![
            ConditionView::Location(2),
            ConditionView::CommandIs(CommandView::Examine("bed"@)),
            ConditionView::And(0, 1),
            ConditionView::ObjectInInventory(2),
            ConditionView::Location(0),
            ConditionView::CommandIs(CommandView::Use("coin"@)),
            ConditionView::And(3, 4),
            ConditionView::And(5, 6),
            ConditionView::ObjectInInventory(4),
            ConditionView::CommandIs(CommandView::Use("goblin"@)),
            ConditionView::And(9, 8),
            ConditionView::And(10, 0),
            ConditionView::CommandIs(CommandView::Attack("goblin"@)),
            ConditionView::Actor(1),
            ConditionView::And(12, 13),
            ConditionView::And(14, 0),
            ConditionView::ObjectInInventory(5),
            ConditionView::CommandIs(CommandView::Craft("gold"@)),
            ConditionView::And(16, 17),
        ],
        file_name: SAVE_FILE@,
        log: Seq::empty(),
    }
}

/// Builds a list of aliases from words.
fn words_list(words: &[&str]) -> (r: Vec<String>)
    ensures
        r@.len() == words@.len(),
        forall|i: int| 0 <= i < words@.len() ==> (#[trigger] r@[i])@ == words@[i]@,
{
    let mut r: Vec<String> = Vec::new();
    let mut i: usize = 0;
    while i < words.len()
        invariant
            i <= words@.len(),
            r@.len() == i,
            forall|j: int| 0 <= j < i ==> (#[trigger] r@[j])@ == words@[j]@,
        decreases words.len() - i,
    {
        r.push(words[i].to_string());
        i = i + 1;
    }
    r
}

impl State {
    /// The small world the game starts in.
    pub fn new() -> (r: State)
        ensures
            r.wf(),
            r@ == start_world(),
    {
        let treasure = Entity::new(
            "A stack of gold",
            "It consists for roughly some hundred shiny gold coins.",
            words_list(&["pile", "stack", "gold"]),
        );
        let coin = Entity::new(
            "A copper coin",
            "An old, dirty copper coin.",
            words_list(&["copper", "coin"]),
        );
        let vending_machine = Entity::new(
            "A vending machine",
            "The vending machine has a small slid for the coins. The display is too dirty to reveal what it sells.",
            words_list(&["machine", "vending"]),
        );
        let bag_of_chips = Entity::new(
            "Bag of chips",
            "The chips don't really look that bad, the smell however, suggests otherwise",
            words_list(&["chips"]),
        );
        let golden_armor = Entity::new(
            "armor",
            "A really shiny, yet very powerful piece of armor",
            words_list(&["armor"]),
        );
        let dead_goblin = Entity::new(
            "Goblin corpse",
            "The corpse smells badly and is rotting slowly.",
            words_list(&["goblin", "corpse"]),
        );
        let mut entities: HashMap<usize, Entity> = HashMap::new();
        entities.insert(1, treasure);
        entities.insert(2, coin);
        entities.insert(3, vending_machine);
        entities.insert(4, bag_of_chips);
        entities.insert(5, golden_armor);
        entities.insert(6, dead_goblin);

        let mut actors: HashMap<usize, Actor> = HashMap::new();
        actors.insert(
            1,
            Actor::new(
                "Goblin",
                "A small red goblin leans against a door to the north.",
                words_list(&["goblin"]),
            ),
        );

        let mut craft_inventory: HashMap<usize, usize> = HashMap::new();
        craft_inventory.insert(1, 5);

        let conditions = vec![
            Condition::Location(2),
            Condition::CommandIs(Command::Examine("bed".to_string())),
            Condition::And(0, 1),
            Condition::ObjectInInventory(2),
            Condition::Location(0),
            Condition::CommandIs(Command::Use("coin".to_string())),
            Condition::And(3, 4),
            Condition::And(5, 6),
            Condition::ObjectInInventory(4),
            Condition::CommandIs(Command::Use("goblin".to_string())),
            Condition::And(9, 8),
            Condition::And(10, 0),
            Condition::CommandIs(Command::Attack("goblin".to_string())),
            Condition::Actor(1),
            Condition::And(12, 13),
            Condition::And(14, 0),
            Condition::ObjectInInventory(5),
            Condition::CommandIs(Command::Craft("gold".to_string())),
            Condition::And(16, 17),
        ];

        let events = vec![
            Event::new(
                2,
                "The bed is made of soft wood and has a comfortable mattress. Below the pillow you find a copper coin".to_string(),
                vec![Command::AddItemToRoom(2), Command::DeActivateEvent(0), Command::ActivateEvent(1)],
            ),
            Event::new(
                2,
                "Now that you have taken the coin, you glance down at an empty bed".to_string(),
                vec![],
            ),
            Event::new(
                7,
                "The vending machine makes some concerning noice... but it works!".to_string(),
                vec![
                    Command::DeActivateEvent(2),
                    Command::ActivateEvent(3),
                    Command::AddItemToRoom(4),
                    Command::Consume(2),
                    Command::ActivateEvent(4),
                ],
            ),
            Event::new(
                7,
                "You would sure like to get more loot, however your only coin is now gone".to_string(),
                vec![],
            ),
            Event::new(
                11,
                "The goblin doesn't seem to take much interest in you, but he hungrily takes the chips.\nThe goblins face turns green, than grey.\nHe falls to the floow and doesn't move anymore.".to_string(),
                vec![Command::AddExit(Direction::North, 3), Command::RemoveActor(1), Command::AddItemToRoom(6)],
            ),
            Event::new(
                15,
                "The Goblin's Fist hits (you) like a truck and lands you on the ground, where you get knocked out".to_string(),
                vec![Command::GameOver],
            ),
        ];

        let rooms = vec![
            Room::new(
                "Entrance",
                "You are in the entrance of the dungeon.",
                vec![3],
                vec![],
                vec![(Direction::North, 1)],
            ),
            Room::new(
                "Corridor",
                "You are in a dark corridor.",
                vec![],
                vec![],
                vec![(Direction::South, 0), (Direction::East, 2)],
            ),
            Room::new(
                "Chamber",
                "There is a bed in the chamber. The pillows are soft.",
                vec![],
                vec![1],
                vec![(Direction::West, 1)],
            ),
            Room::new(
                "Treasure Room",
                "You found the treasure room!",
                vec![1],
                vec![],
                vec![(Direction::South, 2)],
            ),
        ];

        let state = State {
            loc: 0,
            inventory: Vec::new(),
            craft_inventory,
            rooms,
            entities,
            actors,
            active_events: vec![0, 2, 5],
            events,
            conditions,
            file_name: SAVE_FILE.to_string(),
            log: String::new(),
        };
        proof {
            let w = state@;
            let z = start_world();
            assert(w.inventory =~= z.inventory);
            assert(w.recipes =~= z.recipes);
            assert(w.active_events =~= z.active_events);
            assert(w.rooms[0].entities =~= z.rooms[0].entities);
            assert(w.rooms[0].actors =~= z.rooms[0].actors);
            assert(w.rooms[0].exits =~= z.rooms[0].exits);
            assert(w.rooms[0] == z.rooms[0]);
            assert(w.rooms[1].entities =~= z.rooms[1].entities);
            assert(w.rooms[1].actors =~= z.rooms[1].actors);
            assert(w.rooms[1].exits =~= z.rooms[1].exits);
            assert(w.rooms[1] == z.rooms[1]);
            assert(w.rooms[2].entities =~= z.rooms[2].entities);
            assert(w.rooms[2].actors =~= z.rooms[2].actors);
            assert(w.rooms[2].exits =~= z.rooms[2].exits);
            assert(w.rooms[2] == z.rooms[2]);
            assert(w.rooms[3].entities =~= z.rooms[3].entities);
            assert(w.rooms[3].actors =~= z.rooms[3].actors);
            assert(w.rooms[3].exits =~= z.rooms[3].exits);
            assert(w.rooms[3] == z.rooms[3]);
            assert(w.entities[1usize].aliases =~= z.entities[1usize].aliases);
            assert(w.entities[1usize] == z.entities[1usize]);
            assert(w.entities[2usize].aliases =~= z.entities[2usize].aliases);
            assert(w.entities[2usize] == z.entities[2usize]);
            assert(w.entities[3usize].aliases =~= z.entities[3usize].aliases);
            assert(w.entities[3usize] == z.entities[3usize]);
            assert(w.entities[4usize].aliases =~= z.entities[4usize].aliases);
            assert(w.entities[4usize] == z.entities[4usize]);
            assert(w.entities[5usize].aliases =~= z.entities[5usize].aliases);
            assert(w.entities[5usize] == z.entities[5usize]);
            assert(w.entities[6usize].aliases =~= z.entities[6usize].aliases);
            assert(w.entities[6usize] == z.entities[6usize]);
            assert(w.rooms =~= z.rooms);
            assert(w.entities =~= z.entities);
            assert(w.actors[1usize].aliases =~= z.actors[1usize].aliases);
            assert(w.actors[1usize] == z.actors[1usize]);
            assert(w.events[0].command_stack =~= z.events[0].command_stack);
            assert(w.events[0] == z.events[0]);
            assert(w.events[1].command_stack =~= z.events[1].command_stack);
            assert(w.events[1] == z.events[1]);
            assert(w.events[2].command_stack =~= z.events[2].command_stack);
            assert(w.events[2] == z.events[2]);
            assert(w.events[3].command_stack =~= z.events[3].command_stack);
            assert(w.events[3] == z.events[3]);
            assert(w.events[4].command_stack =~= z.events[4].command_stack);
            assert(w.events[4] == z.events[4]);
            assert(w.events[5].command_stack =~= z.events[5].command_stack);
            assert(w.events[5] == z.events[5]);
            assert(w.actors =~= z.actors);
            assert(w.events =~= z.events);
            assert(w.conditions =~~= z.conditions);
            assert(w.log =~= z.log);
        }
        state
    }
}

impl Default for State {
    fn default() -> (r: State)
        ensures
            r.wf(),
            r@ == start_world(),
    {
        State::new()
    }
}

impl State {
    pub open spec fn wf(&self) -> bool {
        self@.wf()
    }

    /// Whether the player has died.
    pub fn is_dead(&self) -> (r: bool)
        ensures
            r == (self@.loc == GAME_OVER),
    {
        self.loc == GAME_OVER
    }

    /// Whether the player stands in a room.
    pub fn in_room(&self) -> (r: bool)
        ensures
            r == self@.in_room(),
    {
        self.loc < self.rooms.len()
    }

    /// Whether `n` is the index of a room.
    pub fn in_room_number(&self, n: usize) -> (r: bool)
        ensures
            r == ((n as int) < self@.rooms.len()),
    {
        n < self.rooms.len()
    }

    pub fn get_room(&self) -> (r: &Room)
        requires
            self@.in_room(),
        ensures
            r@ == self@.room(),
    {
        &self.rooms[self.loc]
    }

    /// The current room, to be changed in place. The world's other parts stay as they were.
    pub fn get_room_mut(&mut self) -> (r: &mut Room)
        requires
            old(self)@.in_room(),
        ensures
            r@ == old(self)@.room(),
            final(self)@.rooms =~= old(self)@.rooms.update(old(self)@.loc as int, final(r)@),
            final(self)@ == (WorldView { rooms: final(self)@.rooms, ..old(self)@ }),
    {
        let loc = self.loc;
        &mut self.rooms[loc]
    }

    /// Where the exit toward `dir` from the current room leads (none once the player has died).
    pub fn get_exit(&self, dir: Direction) -> (r: Option<usize>)
        requires
            self.wf(),
        ensures
            r == if self@.in_room() { exit_toward(self@.room().exits, dir) } else { None },
    {
        if self.loc < self.rooms.len() {
            self.rooms[self.loc].get_exit(dir)
        } else {
            None
        }
    }

    pub fn set_location(&mut self, new_room: usize)
        ensures
            final(self)@ == (WorldView { loc: new_room, ..old(self)@ }),
    {
        self.loc = new_room;
    }

    pub fn get_inventory(&self) -> (r: &Vec<usize>)
        ensures
            r@ == self@.inventory,
    {
        &self.inventory
    }

    pub fn get_craft_inventory(&self) -> (r: &HashMap<usize, usize>)
        ensures
            r@ == self@.recipes,
    {
        &self.craft_inventory
    }

    pub fn get_entity(&self, entity_id: usize) -> (r: Option<&Entity>)
        ensures
            match r {
                Some(e) => self@.entities.contains_key(entity_id) && e@ == self@.entities[entity_id],
                None => !self@.entities.contains_key(entity_id),
            },
    {
        self.entities.get(&entity_id)
    }

    pub fn get_actor(&self, actor_id: usize) -> (r: Option<&Actor>)
        ensures
            match r {
                Some(a) => self@.actors.contains_key(actor_id) && a@ == self@.actors[actor_id],
                None => !self@.actors.contains_key(actor_id),
            },
    {
        self.actors.get(&actor_id)
    }

    pub fn set_file_name(&mut self, file_name: &str)
        ensures
            final(self)@ == (WorldView { file_name: file_name@, ..old(self)@ }),
    {
        self.file_name = file_name.to_string();
    }

    pub fn get_file_name(&self) -> (r: &str)
        ensures
            r@ == self@.file_name,
    {
        self.file_name.as_str()
    }

    /// Disarms an event.
    pub fn de_activate_event(&mut self, event_id: &usize)
        requires
            old(self).wf(),
        ensures
            final(self).wf(),
            final(self)@ == (WorldView { active_events: old(self)@.active_events.remove_value(*event_id), ..old(self)@ }),
    {
        remove_id(&mut self.active_events, *event_id);
        proof {
            let w = self@;
            assert forall|i: int| 0 <= i < w.active_events.len() implies #[trigger] w.active_events[i] < w.events.len() by {
                assert(w.active_events.to_set().contains(w.active_events[i]));
                assert(old(self)@.active_events.to_set().contains(w.active_events[i]));
            }
        }
    }

    /// Arms an event; an id with no event behind it is ignored.
    pub fn activate_event(&mut self, event_id: &usize)
        requires
            old(self).wf(),
        ensures
            final(self).wf(),
            final(self)@ == if (*event_id as int) < old(self)@.events.len() {
                WorldView { active_events: with_id(old(self)@.active_events, *event_id), ..old(self)@ }
            } else {
                old(self)@
            },
    {
        if *event_id < self.events.len() {
            insert_id(&mut self.active_events, *event_id);
        }
    }

    /// Finds, among `ids`, the first registered entity that `thing` refers to.
    fn find_alias(&self, ids: &Vec<usize>, thing: &str) -> (r: Option<usize>)
        ensures
            r == first_match(ids@, self@.entities, thing@),
    {
        let n = ids.len();
        let mut i: usize = 0;
        assert(ids@.subrange(0, n as int) =~= ids@);
        while i < n
            invariant
                n == ids@.len(),
                i <= n,
                first_match(ids@, self@.entities, thing@) == first_match(ids@.subrange(i as int, n as int), self@.entities, thing@),
            decreases n - i,
        {
            let id = ids[i];
            let ghost rest = ids@.subrange(i as int, n as int);
            assert(rest[0] == id);
            assert(rest.drop_first() =~= ids@.subrange(i as int + 1, n as int));
            match self.entities.get(&id) {
                Some(e) => {
                    if e.is_called(thing) {
                        return Some(id);
                    }
                },
                None => {},
            }
            i = i + 1;
        }
        None
    }

    /// The first carried entity that `thing` refers to.
    pub fn find_inventory(&self, thing: &str) -> (r: Option<usize>)
        ensures
            r == first_match(self@.inventory, self@.entities, thing@),
    {
        self.find_alias(&self.inventory, thing)
    }

    /// Moves the first entity of the current room that `thing` refers to into the inventory;
    /// says whether there was one.
    pub fn take_entity_from_room(&mut self, thing: &str) -> (r: bool)
        requires
            old(self).wf(),
            old(self)@.in_room(),
        ensures
            final(self).wf(),
            match first_match(old(self)@.room().entities, old(self)@.entities, thing@) {
                Some(id) => r && final(self)@ == taken(old(self)@, id),
                None => !r && final(self)@ == old(self)@,
            },
    {
        let loc = self.loc;
        let found = self.find_alias(&self.rooms[loc].entities, thing);
        match found {
            Some(id) => {
                proof {
                    lemma_first_match(old(self)@.room().entities, old(self)@.entities, thing@);
                }
                let mut room = self.rooms.remove(loc);
                room.remove_entity(id);
                self.rooms.insert(loc, room);
                insert_id(&mut self.inventory, id);
                proof {
                    assert(self@.rooms =~= taken(old(self)@, id).rooms);
                    assert(self@ == taken(old(self)@, id));
                }
                true
            },
            None => false,
        }
    }

    /// Takes the first carried entity that `thing` refers to out of the inventory, and gives
    /// its id and the entity.
    pub fn get_from_inventory(&mut self, thing: &str) -> (r: Option<(usize, &Entity)>)
        requires
            old(self).wf(),
        ensures
            final(self).wf(),
            match first_match(old(self)@.inventory, old(self)@.entities, thing@) {
                Some(id) => r is Some && r.unwrap().0 == id && r.unwrap().1@ == old(self)@.entities[id]
                    && final(self)@ == (WorldView { inventory: old(self)@.inventory.remove_value(id), ..old(self)@ }),
                None => r is None && final(self)@ == old(self)@,
            },
    {
        match self.find_alias(&self.inventory, thing) {
            Some(id) => {
                proof {
                    lemma_first_match(old(self)@.inventory, old(self)@.entities, thing@);
                }
                remove_id(&mut self.inventory, id);
                match self.entities.get(&id) {
                    Some(e) => Some((id, e)),
                    None => None,
                }
            },
            None => None,
        }
    }

    /// Uses up entity `id`: it leaves the inventory and its name is told.
    pub fn consume_from_inventory(&mut self, id: &usize)
        requires
            old(self).wf(),
        ensures
            final(self).wf(),
            final(self)@ == consumed(old(self)@, *id),
    {
        remove_id(&mut self.inventory, *id);
        assert(self@ == (WorldView { inventory: old(self)@.inventory.remove_value(*id), ..old(self)@ }));
        assert(self.wf());
        let mut msg = String::new();
        match self.entities.get(id) {
            Some(e) => {
                msg.append("\nConsumed ");
                msg.append(e.get_name());
                assert(msg@ =~= "\nConsumed "@ + old(self)@.entities[*id].name);
            },
            None => {},
        }
        self.log(msg.as_str());
    }

    /// Adds entity `mega_id` to the inventory directly (the product of a recipe).
    pub fn why_not_mutable(&mut self, mega_id: usize)
        requires
            old(self).wf(),
        ensures
            final(self).wf(),
            final(self)@ == (WorldView { inventory: with_id(old(self)@.inventory, mega_id), ..old(self)@ }),
    {
        insert_id(&mut self.inventory, mega_id);
    }

    /// Tells what a carried entity can be crafted into (see `craft_note`).
    pub fn craft_help(&mut self)
        ensures
            final(self)@ == old(self)@.logged(craft_note(old(self)@.inventory, old(self)@)),
    {
        let ghost w = self@;
        let mut msg = String::new();
        let n = self.inventory.len();
        let mut i: usize = 0;
        while i < n
            invariant
                self@ == w,
                n == w.inventory.len(),
                i <= n,
                msg@ == craft_note(w.inventory.subrange(0, i as int), w),
            decreases n - i,
        {
            let e = self.inventory[i];
            proof {
                assert(w.inventory.subrange(0, i as int + 1).drop_last() =~= w.inventory.subrange(0, i as int));
                assert(w.inventory.subrange(0, i as int + 1).last() == e);
            }
            match self.craft_inventory.get(&e) {
                Some(f) => {
                    match self.entities.get(&e) {
                        Some(entity) => {
                            msg = String::new();
                            msg.append(entity.get_name());
                            msg.append(" ---> ");
                        },
                        None => {},
                    }
                    match self.entities.get(f) {
                        Some(entity) => msg.append(entity.get_name()),
                        None => {},
                    }
                },
                None => {},
            }
            i = i + 1;
            assert(msg@ =~= craft_note(w.inventory.subrange(0, i as int), w));
        }
        assert(w.inventory.subrange(0, n as int) =~= w.inventory);
        self.log(msg.as_str());
    }

    /// Checks condition `node`, consulting only table entries below `bound`.
    fn check_below(&self, node: &Condition, command: &Command, bound: usize) -> (r: bool)
        requires
            bound <= self@.conditions.len(),
        ensures
            r == node_holds(self@, command@, node@, bound as int),
        decreases bound, 1int,
    {
        match node {
            Condition::CommandIs(c) => *c == *command,
            Condition::NotCommandIs(c) => !(*c == *command),
            Condition::Location(r) => self.loc == *r,
            Condition::NotLocation(r) => self.loc != *r,
            Condition::ObjectInInventory(e) => contains_id(&self.inventory, *e),
            Condition::NotObjectInInventory(e) => !contains_id(&self.inventory, *e),
            Condition::Actor(a) => self.actors.contains_key(a),
            Condition::And(a, b) => {
                let x = self.check_entry(*a, command, bound);
                let y = self.check_entry(*b, command, bound);
                x && y
            },
            Condition::Or(a, b) => {
                let x = self.check_entry(*a, command, bound);
                let y = self.check_entry(*b, command, bound);
                x || y
            },
            Condition::NotAnd(a, b) => {
                let x = self.check_entry(*a, command, bound);
                let y = self.check_entry(*b, command, bound);
                !(x && y)
            },
            Condition::NotOr(a, b) => {
                let x = self.check_entry(*a, command, bound);
                let y = self.check_entry(*b, command, bound);
                !(x || y)
            },
        }
    }

    /// Checks table entry `a`, which counts as false unless it lies below `bound`.
    fn check_entry(&self, a: usize, command: &Command, bound: usize) -> (r: bool)
        requires
            bound <= self@.conditions.len(),
        ensures
            r == entry_holds(self@, command@, a, bound as int),
        decreases bound, 0int,
    {
        if a < bound && a < self.conditions.len() {
            self.check_below(&self.conditions[a], command, a)
        } else {
            false
        }
    }

    /// Whether `condition` holds for the command just given. The table entries it names are
    /// evaluated in turn; both sides of a combinator are always evaluated.
    pub fn check_condition(&self, condition: &Condition, command: &Command) -> (r: bool)
        ensures
            r == node_holds(self@, command@, condition@, self@.conditions.len() as int),
    {
        self.check_below(condition, command, self.conditions.len())
    }

    /// Looks for the event that `command` sets off: the first armed event whose condition
    /// holds. If there is one, its message is logged (ending in a line break) and its commands
    /// are handed back, to be run instead of `command`; otherwise an empty line is logged. At
    /// most one event fires.
    pub fn special_event_triggered(&mut self, command: &Command) -> (r: Option<Vec<Command>>)
        requires
            old(self).wf(),
        ensures
            final(self).wf(),
            match first_firing(old(self)@, command@) {
                Some(e) => r is Some && commands_view(r.unwrap()@) == old(self)@.events[e as int].command_stack
                    && final(self)@ == old(self)@.logged(old(self)@.events[e as int].message + "\n"@),
                None => r is None && final(self)@ == old(self)@.logged(Seq::empty()),
            },
    {
        let n = self.active_events.len();
        let mut k: usize = 0;
        while k < n
            invariant
                self.wf(),
                self@ == old(self)@,
                n == self@.active_events.len(),
                k <= n,
                first_firing(self@, command@) == firing_from(self@, command@, k as int),
            decreases n - k,
        {
            let e = self.active_events[k];
            assert(self@.active_events[k as int] == e);
            assert((e as int) < self@.events.len());
            let cid = self.events[e].condition_id;
            assert(cid == self@.events[e as int].condition_id);
            let fired = self.check_entry(cid, command, self.conditions.len());
            assert(fired == event_fires(self@, command@, e));
            if fired {
                assert(firing_from(self@, command@, k as int) == Some(e));
                let stack = copy_commands(&self.events[e].command_stack);
                let mut msg = self.events[e].message.clone();
                msg.append("\n");
                self.log(msg.as_str());
                assert(commands_view(stack@) == old(self)@.events[e as int].command_stack);
                return Some(stack);
            }
            k = k + 1;
        }
        let blank = String::new();
        self.log(blank.as_str());
        None
    }

    /// Appends `msg` to the log, on a line of its own.
    pub fn log(&mut self, msg: &str)
        ensures
            final(self)@ == old(self)@.logged(msg@),
    {
        self.log.append("\n");
        self.log.append(msg);
        assert(self.log@ =~= old(self).log@ + "\n"@ + msg@);
    }

    /// Hands out the log and clears it.
    pub fn get_log(&mut self) -> (r: String)
        ensures
            r@ == old(self)@.log,
            final(self)@ == (WorldView { log: Seq::empty(), ..old(self)@ }),
    {
        let r = self.log.clone();
        self.log = String::new();
        r
    }
}

/// Everything a saved game holds: the world without its log, as plain fields.
#[derive(Debug)]
pub struct Snapshot {
    pub loc: usize,
    pub inventory: Vec<usize>,
    pub craft_inventory: HashMap<usize, usize>,
    pub rooms: Vec<Room>,
    pub entities: HashMap<usize, Entity>,
    pub actors: HashMap<usize, Actor>,
    pub active_events: Vec<usize>,
    pub events: Vec<Event>,
    pub conditions: Vec<Condition>,
    pub file_name: String,
}

/// Why a snapshot could not be restored.
#[derive(Debug, Clone, Copy, PartialEq, Eq, Structural)]
pub enum SnapshotError {
    /// The snapshot breaks the world's invariant: an id listed twice, an armed event or an
    /// event's condition that does not exist, or a condition that refers to itself or a later
    /// entry.
    Corrupt,
}

impl View for Snapshot {
    type V = WorldView;

    open spec fn view(&self) -> WorldView {
        WorldView {
            loc: self.loc,
            inventory: self.inventory@,
            recipes: self.craft_inventory@,
            rooms: self.rooms@.map_values(|r: Room| r@),
            entities: self.entities@.map_values(|e: Entity| e@),
            actors: self.actors@.map_values(|a: Actor| a@),
            active_events: self.active_events@,
            events: self.events@.map_values(|e: Event| e@),
            conditions: self.conditions@.map_values(|c: Condition| c@),
            file_name: self.file_name@,
            log: Seq::empty(),
        }
    }
}

impl WorldView {
    /// The world with an empty log.
    pub open spec fn without_log(self) -> WorldView {
        WorldView { log: Seq::empty(), ..self }
    }
}

/// The world a snapshot holds (by the contract of `State::snapshot`, the world without its
/// log) is well-formed whenever the world is, and keeps its location, inventory, rooms and
/// armed events. So, by the contract of `State::restore`, restoring a snapshot always
/// succeeds and gives back the same world with an empty log.
pub proof fn lemma_snapshot_round_trip(w: WorldView)
    requires
        w.wf(),
    ensures
        w.without_log().wf(),
        w.without_log().loc == w.loc,
        w.without_log().inventory == w.inventory,
        w.without_log().rooms == w.rooms,
        w.without_log().active_events == w.active_events,
{
}

/// Whether no id is listed twice.
fn ids_distinct(v: &Vec<usize>) -> (r: bool)
    ensures
        r == v@.no_duplicates(),
{
    let n = v.len();
    let mut i: usize = 0;
    while i < n
        invariant
            n == v@.len(),
            i <= n,
            forall|a: int, b: int| 0 <= a < i && 0 <= b < n && a != b ==> v@[a] != v@[b],
        decreases n - i,
    {
        let mut j: usize = 0;
        while j < n
            invariant
                n == v@.len(),
                i < n,
                j <= n,
                forall|a: int, b: int| 0 <= a < i && 0 <= b < n && a != b ==> v@[a] != v@[b],
                forall|b: int| 0 <= b < j && b != i ==> v@[i as int] != v@[b],
            decreases n - j,
        {
            if j != i && v[i] == v[j] {
                return false;
            }
            j = j + 1;
        }
        i = i + 1;
    }
    true
}

/// Whether no direction has two exits.
fn exits_valid(v: &Vec<(Direction, usize)>) -> (r: bool)
    ensures
        r == crate::room::exits_distinct(v@),
{
    let n = v.len();
    let mut i: usize = 0;
    while i < n
        invariant
            n == v@.len(),
            i <= n,
            forall|a: int, b: int| 0 <= a < i && 0 <= b < n && a != b ==> v@[a].0 != v@[b].0,
        decreases n - i,
    {
        let mut j: usize = 0;
        while j < n
            invariant
                n == v@.len(),
                i < n,
                j <= n,
                forall|a: int, b: int| 0 <= a < i && 0 <= b < n && a != b ==> v@[a].0 != v@[b].0,
                forall|b: int| 0 <= b < j && b != i ==> v@[i as int].0 != v@[b].0,
            decreases n - j,
        {
            if j != i && v[i].0 == v[j].0 {
                return false;
            }
            j = j + 1;
        }
        i = i + 1;
    }
    true
}

/// Whether a condition entry refers only to entries before index `i`.
fn refers_below(c: &Condition, i: usize) -> (r: bool)
    ensures
        r == c@.refers_below(i as int),
{
    match c {
        Condition::And(a, b) => *a < i && *b < i,
        Condition::Or(a, b) => *a < i && *b < i,
        Condition::NotAnd(a, b) => *a < i && *b < i,
        Condition::NotOr(a, b) => *a < i && *b < i,
        _ => true,
    }
}

/// Whether a snapshot describes a well-formed world.
fn snapshot_valid(s: &Snapshot) -> (r: bool)
    ensures
        r == s@.wf(),
{
    if !ids_distinct(&s.inventory) || !ids_distinct(&s.active_events) {
        return false;
    }
    let mut i: usize = 0;
    while i < s.active_events.len()
        invariant
            i <= s.active_events@.len(),
            forall|k: int| 0 <= k < i ==> #[trigger] s.active_events@[k] < s.events@.len(),
        decreases s.active_events.len() - i,
    {
        if s.active_events[i] >= s.events.len() {
            assert(s@.active_events[i as int] >= s@.events.len());
            return false;
        }
        i = i + 1;
    }
    let mut i: usize = 0;
    while i < s.rooms.len()
        invariant
            i <= s.rooms@.len(),
            forall|k: int| 0 <= k < i ==> (#[trigger] s.rooms@[k])@.wf(),
        decreases s.rooms.len() - i,
    {
        let room = &s.rooms[i];
        if !ids_distinct(&room.entities) || !ids_distinct(&room.actors) || !exits_valid(&room.exits) {
            assert(!s@.rooms[i as int].wf());
            return false;
        }
        i = i + 1;
    }
    let mut i: usize = 0;
    while i < s.events.len()
        invariant
            i <= s.events@.len(),
            forall|k: int| 0 <= k < i ==> (#[trigger] s.events@[k]).condition_id < s.conditions@.len(),
        decreases s.events.len() - i,
    {
        if s.events[i].condition_id >= s.conditions.len() {
            assert(s@.events[i as int].condition_id >= s@.conditions.len());
            return false;
        }
        i = i + 1;
    }
    let mut i: usize = 0;
    while i < s.conditions.len()
        invariant
            i <= s.conditions@.len(),
            forall|k: int| 0 <= k < i ==> (#[trigger] s.conditions@[k])@.refers_below(k),
        decreases s.conditions.len() - i,
    {
        if !refers_below(&s.conditions[i], i) {
            assert(!s@.conditions[i as int].refers_below(i as int));
            return false;
        }
        i = i + 1;
    }
    let ghost w = s@;
    assert(forall|k: int| 0 <= k < w.rooms.len() ==> (#[trigger] w.rooms[k]).wf()) by {
        assert(forall|k: int| 0 <= k < w.rooms.len() ==> w.rooms[k] == (#[trigger] s.rooms@[k])@);
    }
    assert(forall|k: int| 0 <= k < w.events.len() ==> (#[trigger] w.events[k]).condition_id < w.conditions.len()) by {
        assert(forall|k: int| 0 <= k < w.events.len() ==> w.events[k] == (#[trigger] s.events@[k])@);
    }
    assert(forall|k: int| 0 <= k < w.conditions.len() ==> (#[trigger] w.conditions[k]).refers_below(k)) by {
        assert(forall|k: int| 0 <= k < w.conditions.len() ==> w.conditions[k] == (#[trigger] s.conditions@[k])@);
    }
    true
}

/// Copies the rooms.
fn copy_rooms(v: &Vec<Room>) -> (r: Vec<Room>)
    ensures
        r@.map_values(|x: Room| x@) == v@.map_values(|x: Room| x@),
{
    let mut r: Vec<Room> = Vec::new();
    let mut i: usize = 0;
    while i < v.len()
        invariant
            i <= v@.len(),
            r@.len() == i,
            forall|j: int| 0 <= j < i ==> (#[trigger] r@[j])@ == v@[j]@,
        decreases v.len() - i,
    {
        r.push(v[i].clone());
        i = i + 1;
    }
    assert(r@.map_values(|x: Room| x@) =~= v@.map_values(|x: Room| x@));
    r
}

/// Copies the events.
fn copy_events(v: &Vec<Event>) -> (r: Vec<Event>)
    ensures
        r@.map_values(|x: Event| x@) == v@.map_values(|x: Event| x@),
{
    let mut r: Vec<Event> = Vec::new();
    let mut i: usize = 0;
    while i < v.len()
        invariant
            i <= v@.len(),
            r@.len() == i,
            forall|j: int| 0 <= j < i ==> (#[trigger] r@[j])@ == v@[j]@,
        decreases v.len() - i,
    {
        r.push(v[i].clone());
        i = i + 1;
    }
    assert(r@.map_values(|x: Event| x@) =~= v@.map_values(|x: Event| x@));
    r
}

/// Copies the condition table.
fn copy_conditions(v: &Vec<Condition>) -> (r: Vec<Condition>)
    ensures
        r@.map_values(|x: Condition| x@) == v@.map_values(|x: Condition| x@),
{
    let mut r: Vec<Condition> = Vec::new();
    let mut i: usize = 0;
    while i < v.len()
        invariant
            i <= v@.len(),
            r@.len() == i,
            forall|j: int| 0 <= j < i ==> (#[trigger] r@[j])@ == v@[j]@,
        decreases v.len() - i,
    {
        r.push(v[i].clone());
        i = i + 1;
    }
    assert(r@.map_values(|x: Condition| x@) =~= v@.map_values(|x: Condition| x@));
    r
}

impl State {
    /// Everything that is to be saved: the world without its log.
    pub fn snapshot(&self) -> (r: Snapshot)
        ensures
            r@ == self@.without_log(),
    {
        let inventory = self.inventory.clone();
        let active_events = self.active_events.clone();
        assert(inventory@ =~= self.inventory@);
        assert(active_events@ =~= self.active_events@);
        Snapshot {
            loc: self.loc,
            inventory,
            craft_inventory: self.craft_inventory.clone(),
            rooms: copy_rooms(&self.rooms),
            entities: self.entities.clone(),
            actors: self.actors.clone(),
            active_events,
            events: copy_events(&self.events),
            conditions: copy_conditions(&self.conditions),
            file_name: self.file_name.clone(),
        }
    }

    /// Rebuilds a world from a snapshot, with an empty log. A snapshot that breaks the
    /// world's invariant is refused, among them one whose condition table refers forward
    /// (see `WorldView::wf`).
    pub fn restore(s: Snapshot) -> (r: Result<State, SnapshotError>)
        ensures
            match r {
                Ok(state) => s@.wf() && state.wf() && state@ == s@,
                Err(e) => !s@.wf() && e == SnapshotError::Corrupt,
            },
    {
        if !snapshot_valid(&s) {
            return Err(SnapshotError::Corrupt);
        }
        let state = State {
            loc: s.loc,
            inventory: s.inventory,
            craft_inventory: s.craft_inventory,
            rooms: s.rooms,
            entities: s.entities,
            actors: s.actors,
            active_events: s.active_events,
            events: s.events,
            conditions: s.conditions,
            file_name: s.file_name,
            log: String::new(),
        };
        Ok(state)
    }
}

} // verus!
