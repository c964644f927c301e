use hraefnstead::actor::Actor;
use hraefnstead::command::Command;
use hraefnstead::condition::Condition;
use hraefnstead::direction::Direction;
use hraefnstead::entity::Entity;
use hraefnstead::event::Event;
use hraefnstead::parser::parse;
use hraefnstead::room::Room;
use hraefnstead::state::{Snapshot, SnapshotError, State, GAME_OVER, SAVE_FILE};
use hraefnstead::turn::process_victory;
use hraefnstead::victory::Victory;
use std::collections::HashMap;

fn holds(state: &State, id: usize) -> bool {
    state.get_inventory().contains(&id)
}

fn room_holds(state: &State, id: usize) -> bool {
    state.get_room().get_entities().contains(&id)
}

#[test]
pub fn it_works() {
    let mut state = State::new();
    state.why_not_mutable(1);
    Command::Craft("gold".to_string()).execute(&mut state);
    assert!(holds(&state, 5) && !holds(&state, 1))
}

#[test]
fn does_it_work() {
    let mut state = State::new();
    state.why_not_mutable(2);
    assert_eq!(Command::Inventory.execute(&mut state), Victory::Continue);
}

#[test]
fn look_in_fresh_world_describes_entrance() {
    let mut state = State::new();
    let (v, log) = state.play_turn("look");
    assert_eq!(v, Victory::Continue);
    assert!(log.contains("You are in the entrance of the dungeon."));
    assert!(log.contains("North"));
    assert!(log.contains("A vending machine"));
    assert_eq!(
        log,
        "\n\nYou are in the entrance of the dungeon.\nExits:North \n\nYou see:\nA vending machine"
    );
    assert_eq!(state.get_log(), "");
}

#[test]
fn take_machine_follows_fixture() {
    // The vending machine lies in the entrance and answers to "machine".
    let mut state = State::new();
    let (_, log) = state.play_turn("take machine");
    assert_eq!(log, "\n\n\nTaken.");
    assert!(holds(&state, 3));
    assert!(!room_holds(&state, 3));
}

#[test]
fn take_missing_thing_fails() {
    let mut state = State::new();
    let (_, log) = state.play_turn("take sword");
    assert_eq!(log, "\n\n\nThere is no sword here.");
    assert!(state.get_inventory().is_empty());
}

#[test]
fn bed_event_fires_and_coin_can_be_taken() {
    let mut state = State::new();
    state.play_turn("go north");
    assert!(!room_holds(&state, 2));
    state.play_turn("go east");
    let (v, log) = state.play_turn("examine bed");
    assert_eq!(v, Victory::Continue);
    assert!(log.contains("Below the pillow you find a copper coin"));
    assert!(!log.contains("You need to have item in inventory!"));
    assert!(room_holds(&state, 2));
    let (_, log) = state.play_turn("take coin");
    assert_eq!(log, "\n\n\nTaken.");
    assert!(holds(&state, 2));
    let (_, log) = state.play_turn("examine bed");
    assert!(log.contains("you glance down at an empty bed"));
}

#[test]
fn examine_bed_outside_chamber_fires_nothing() {
    let mut state = State::new();
    state.play_turn("go north");
    let (_, log) = state.play_turn("examine bed");
    assert_eq!(log, "\n\n\nYou need to have item in inventory!");
}

#[test]
fn blocked_move_changes_nothing() {
    let mut state = State::new();
    let before = state.snapshot();
    let (_, log) = state.play_turn("west");
    assert_eq!(log, "\n\n\nYou can't go that way.");
    let after = state.snapshot();
    assert_eq!(after.loc, before.loc);
    assert_eq!(after.inventory, before.inventory);
    assert_eq!(after.rooms.len(), before.rooms.len());
    for (a, b) in after.rooms.iter().zip(before.rooms.iter()) {
        assert_eq!(a.entities, b.entities);
        assert_eq!(a.actors, b.actors);
        assert_eq!(a.exits, b.exits);
    }
}

#[test]
fn move_then_look_logs_room() {
    let mut state = State::new();
    let (_, log) = state.play_turn("n");
    assert_eq!(log, "\n\nYou are in a dark corridor.\nExits:South East \n\nThere is nothing here.");
}

#[test]
fn exit_to_missing_room_is_refused() {
    let mut state = State::new();
    Command::AddExit(Direction::West, 9).execute(&mut state);
    let (_, log) = state.play_turn("w");
    assert_eq!(log, "\n\n\nYou can't go that way.");
}

#[test]
fn take_then_drop_returns_entity() {
    let mut state = State::new();
    state.play_turn("take vending");
    assert!(holds(&state, 3) && !room_holds(&state, 3));
    let (_, log) = state.play_turn("drop machine");
    assert_eq!(log, "\n\n\nYou drop the A vending machine");
    assert!(!holds(&state, 3) && room_holds(&state, 3));
}

#[test]
fn drop_missing_thing_fails() {
    let mut state = State::new();
    let (_, log) = state.play_turn("drop coin");
    assert_eq!(log, "\n\n\nYou don't have a coin to drop.");
}

#[test]
fn inventory_lists_names() {
    let mut state = State::new();
    let (_, log) = state.play_turn("i");
    assert_eq!(log, "\n\n\nYou are empty handed.");
    state.play_turn("take machine");
    let (_, log) = state.play_turn("inventory");
    assert_eq!(log, "\n\nYou have:\nA vending machine");
}

#[test]
fn craft_consumes_and_produces() {
    let mut state = State::new();
    state.why_not_mutable(1);
    let v = Command::Craft("gold".to_string()).execute(&mut state);
    assert_eq!(v, Victory::Won);
    assert!(holds(&state, 5));
    assert!(!holds(&state, 1));
    assert_eq!(state.get_log(), "\n\nConsumed A stack of gold\n");
}

#[test]
fn craft_without_recipe_changes_nothing() {
    let mut state = State::new();
    state.why_not_mutable(2);
    assert_eq!(Command::Craft("coin".to_string()).execute(&mut state), Victory::Continue);
    assert_eq!(Command::Craft("gold".to_string()).execute(&mut state), Victory::Continue);
    assert!(holds(&state, 2));
    assert_eq!(state.get_inventory().len(), 1);
    assert_eq!(state.get_log(), "");
}

#[test]
fn craft_help_lists_recipes() {
    let mut state = State::new();
    state.why_not_mutable(1);
    let (_, log) = state.play_turn("craft help");
    assert_eq!(log, "\n\nA stack of gold ---> armor");
}

#[test]
fn eat_and_consume_remove_items() {
    let mut state = State::new();
    state.why_not_mutable(4);
    state.why_not_mutable(2);
    Command::Eat("chips".to_string()).execute(&mut state);
    assert!(!holds(&state, 4));
    Command::Consume(2).execute(&mut state);
    assert!(!holds(&state, 2));
    assert_eq!(state.get_log(), "\n\nConsumed Bag of chips\n\n\nConsumed A copper coin");
    Command::Eat("chips".to_string()).execute(&mut state);
    assert_eq!(state.get_log(), "\n\nYou need to have item in inventory!");
}

#[test]
fn examine_needs_item_in_inventory() {
    let mut state = State::new();
    Command::Examine("machine".to_string()).execute(&mut state);
    assert_eq!(state.get_log(), "\n\nYou need to have item in inventory!");
    state.play_turn("take machine");
    Command::Examine("machine".to_string()).execute(&mut state);
    assert!(state.get_log().contains("The vending machine has a small slid"));
}

#[test]
fn save_and_load_name_files() {
    let mut state = State::new();
    assert_eq!(state.get_file_name(), SAVE_FILE);
    assert_eq!(
        Command::Save(String::new()).execute(&mut state),
        Victory::Save(SAVE_FILE.to_string())
    );
    assert_eq!(
        Command::Save("game.json".to_string()).execute(&mut state),
        Victory::Save("game.json".to_string())
    );
    assert_eq!(state.get_file_name(), "game.json");
    assert_eq!(
        Command::Load(String::new()).execute(&mut state),
        Victory::Load("game.json".to_string())
    );
    assert_eq!(
        Command::Load("other.json".to_string()).execute(&mut state),
        Victory::Load("other.json".to_string())
    );
    assert_eq!(state.get_file_name(), "game.json");
}

#[test]
fn help_topics() {
    let mut state = State::new();
    Command::Help("save".to_string()).execute(&mut state);
    assert_eq!(state.get_log(), "\nSaves your game for you");
    Command::Help("nothing".to_string()).execute(&mut state);
    assert_eq!(state.get_log(), "");
    let (_, log) = state.play_turn("help");
    assert_eq!(log, "\n\nlook\nquit\nsave\ngo\ndrop\ninventory\nexamine\nuse\nattack\ncraft");
}

#[test]
fn terminal_signals() {
    let mut state = State::new();
    assert_eq!(Command::Quit.execute(&mut state), Victory::Quit);
    assert_eq!(Command::GameOver.execute(&mut state), Victory::GameOver);
    assert_eq!(Command::Won.execute(&mut state), Victory::Won);
    assert_eq!(Command::Noop.execute(&mut state), Victory::Continue);
}

#[test]
fn parse_commands() {
    let mut state = State::new();
    assert_eq!(parse("go north", &mut state), Command::Move(Direction::North));
    assert_eq!(parse("  s ", &mut state), Command::Move(Direction::South));
    assert_eq!(parse("take\tcoin", &mut state), Command::Take("coin".to_string()));
    assert_eq!(parse("t coin extra", &mut state), Command::Take("coin".to_string()));
    assert_eq!(parse("inv", &mut state), Command::Inventory);
    assert_eq!(parse("craft gold", &mut state), Command::Craft("gold".to_string()));
    assert_eq!(parse("craft nohelp", &mut state), Command::CraftHelp);
    assert_eq!(parse("help go", &mut state), Command::Help("go".to_string()));
    assert_eq!(parse("help", &mut state), Command::Help("Default".to_string()));
    assert_eq!(parse("save", &mut state), Command::Save(String::new()));
    assert_eq!(parse("load x.json", &mut state), Command::Load("x.json".to_string()));
    assert_eq!(state.get_log(), "\nSaving game...\nLoading game...");
}

#[test]
fn parse_reports_usage_errors() {
    let mut state = State::new();
    assert_eq!(parse("go", &mut state), Command::Noop);
    assert_eq!(state.get_log(), "\nYou need to specify a direction to go to.");
    assert_eq!(parse("go up", &mut state), Command::Noop);
    assert_eq!(state.get_log(), "\nI don't know that direction.");
    assert_eq!(parse("take", &mut state), Command::Noop);
    assert_eq!(state.get_log(), "\nYou need to specify an item to take.");
    assert_eq!(parse("dance", &mut state), Command::Noop);
    assert_eq!(state.get_log(), "\nI don't understand that command.");
    assert_eq!(parse("   ", &mut state), Command::Noop);
    assert_eq!(state.get_log(), "\nI don't understand that command.");
    assert_eq!(parse("quit", &mut state), Command::Quit);
    assert_eq!(state.get_log(), "\nGoodbye!");
}

#[test]
fn dead_player_is_refused() {
    let mut state = State::new();
    state.set_location(GAME_OVER);
    assert!(state.is_dead());
    assert_eq!(parse("look", &mut state), Command::Noop);
    assert_eq!(state.get_log(), "\n\nYou can't do that, you are still dead!");
    Command::Look.execute(&mut state);
    assert_eq!(state.get_log(), "\n\nYou can't do that, you are still dead!");
}

#[test]
fn goblin_attack_ends_game() {
    let mut state = State::new();
    state.play_turn("n");
    state.play_turn("e");
    let (v, log) = state.play_turn("attack goblin");
    assert_eq!(v, Victory::GameOver);
    assert!(log.contains("The Goblin's Fist hits"));
}

#[test]
fn vending_machine_and_goblin_puzzle() {
    let mut state = State::new();
    state.play_turn("n");
    state.play_turn("e");
    state.play_turn("examine bed");
    state.play_turn("take coin");
    state.play_turn("w");
    state.play_turn("s");
    let (_, log) = state.play_turn("use coin");
    assert!(log.contains("but it works!"));
    assert!(!holds(&state, 2));
    state.play_turn("take chips");
    assert!(holds(&state, 4));
    state.play_turn("n");
    state.play_turn("e");
    let (_, log) = state.play_turn("use goblin");
    assert!(log.contains("He falls to the floow"));
    assert_eq!(state.get_exit(Direction::North), Some(3));
    assert!(state.get_room().get_actors().is_empty());
    assert!(room_holds(&state, 6));
}

#[test]
fn snapshot_round_trip() {
    let mut state = State::new();
    state.play_turn("take machine");
    state.play_turn("n");
    let restored = State::restore(state.snapshot()).unwrap();
    let a = state.snapshot();
    let b = restored.snapshot();
    assert_eq!(a.loc, b.loc);
    assert_eq!(a.inventory, b.inventory);
    assert_eq!(a.active_events, b.active_events);
    assert_eq!(a.craft_inventory, b.craft_inventory);
    assert_eq!(a.file_name, b.file_name);
    for (x, y) in a.rooms.iter().zip(b.rooms.iter()) {
        assert_eq!(x.name, y.name);
        assert_eq!(x.entities, y.entities);
        assert_eq!(x.actors, y.actors);
        assert_eq!(x.exits, y.exits);
    }
}

#[test]
fn corrupt_snapshot_is_refused() {
    let state = State::new();
    let mut s = state.snapshot();
    s.active_events.push(17);
    assert_eq!(State::restore(s).err(), Some(SnapshotError::Corrupt));
    let mut s = state.snapshot();
    s.conditions.push(Condition::And(0, 40));
    assert_eq!(State::restore(s).err(), Some(SnapshotError::Corrupt));
    let mut s = state.snapshot();
    s.inventory = vec![1, 1];
    assert_eq!(State::restore(s).err(), Some(SnapshotError::Corrupt));
}

fn two_event_world() -> State {
    let mut entities = HashMap::new();
    entities.insert(1, Entity::new("Lamp", "A brass lamp.", vec!["lamp".to_string()]));
    let mut actors = HashMap::new();
    actors.insert(7, Actor::new("Cat", "A cat sleeps here.", vec!["cat".to_string()]));
    State::restore(Snapshot {
        loc: 0,
        inventory: vec![],
        craft_inventory: HashMap::new(),
        rooms: vec![Room::new("Hall", "A hall.", vec![1], vec![7], vec![])],
        entities,
        actors,
        active_events: vec![1, 0],
        events: vec![
            Event::new(0, "first".to_string(), vec![Command::Won]),
            Event::new(1, "second".to_string(), vec![Command::GameOver]),
        ],
        conditions: vec![Condition::Location(0), Condition::CommandIs(Command::Look)],
        file_name: "hall.json".to_string(),
    })
    .unwrap()
}

#[test]
fn only_one_event_fires() {
    let mut state = two_event_world();
    let (v, log) = state.play_turn("look");
    let fired_first = log.contains("first");
    let fired_second = log.contains("second");
    assert!(fired_first != fired_second);
    assert_eq!(v, if fired_first { Victory::Won } else { Victory::GameOver });
}

#[test]
fn look_lists_actors() {
    let mut state = two_event_world();
    state.de_activate_event(&0);
    state.de_activate_event(&1);
    let (_, log) = state.play_turn("look");
    assert_eq!(log, "\n\n\nA hall.\nThere seems to be no exit.\nA cat sleeps here.\n\nYou see:\nLamp");
}

#[test]
fn conditions_evaluate() {
    let state = two_event_world();
    let look = Command::Look;
    assert!(state.check_condition(&Condition::And(0, 1), &look));
    assert!(!state.check_condition(&Condition::NotAnd(0, 1), &look));
    assert!(state.check_condition(&Condition::NotAnd(0, 1), &Command::Inventory));
    assert!(!state.check_condition(&Condition::NotOr(0, 1), &Command::Inventory));
    assert!(state.check_condition(&Condition::Or(0, 1), &Command::Inventory));
    assert!(state.check_condition(&Condition::Actor(7), &look));
    assert!(!state.check_condition(&Condition::Actor(8), &look));
    assert!(state.check_condition(&Condition::NotObjectInInventory(1), &look));
    assert!(state.check_condition(&Condition::NotCommandIs(Command::Take("x".to_string())), &look));
    assert!(!state.check_condition(&Condition::NotLocation(0), &look));
}

#[test]
fn events_arm_and_disarm() {
    let mut state = State::new();
    state.de_activate_event(&0);
    state.activate_event(&40);
    state.play_turn("n");
    state.play_turn("e");
    let (_, log) = state.play_turn("examine bed");
    assert_eq!(log, "\n\n\nYou need to have item in inventory!");
}

#[test]
fn direction_words() {
    assert_eq!(Direction::from_str("west"), Some(Direction::West));
    assert_eq!(Direction::from_str("up"), None);
    assert_eq!(Direction::East.name(), "East");
}

#[test]
fn room_and_entity_accessors() {
    let mut room = Room::new(
        "Hall",
        "A hall.",
        vec![1, 1, 2],
        vec![3],
        vec![(Direction::North, 1), (Direction::North, 2)],
    );
    assert_eq!(room.get_entities(), &vec![1, 2]);
    assert_eq!(room.get_exit(Direction::North), Some(2));
    assert!(room.remove_entity(1));
    assert!(!room.remove_entity(1));
    room.add_entity(5);
    assert_eq!(room.get_entities(), &vec![2, 5]);
    assert!(room.remove_actor(3));
    room.add_exit(Direction::South, 4);
    assert_eq!(room.get_exits().len(), 2);
    assert_eq!(room.get_description(), "A hall.");
    let e = Entity::new("Lamp", "A brass lamp.", vec!["lamp".to_string()]);
    assert_eq!(e.get_name(), "Lamp");
    assert_eq!(e.get_description(), "A brass lamp.");
    assert!(e.is_called("lamp"));
    assert!(!e.is_called("Lamp"));
}

#[test]
fn parse_splits_on_unicode_white_space() {
    let mut state = State::new();
    assert_eq!(parse("take\u{3000}coin", &mut state), Command::Take("coin".to_string()));
    assert_eq!(parse("drop\u{a0}gold\u{2003}now", &mut state), Command::Drop("gold".to_string()));
    assert_eq!(parse("take_coin", &mut state), Command::Noop);
}

#[test]
fn event_outcome_is_last_signal() {
    let mut state = State::restore(Snapshot {
        loc: 0,
        inventory: vec![],
        craft_inventory: HashMap::new(),
        rooms: vec![Room::new("Hall", "A hall.", vec![], vec![], vec![])],
        entities: HashMap::new(),
        actors: HashMap::new(),
        active_events: vec![0],
        events: vec![Event::new(
            0,
            "The floor gives way.".to_string(),
            vec![Command::Won, Command::Look, Command::Noop],
        )],
        conditions: vec![Condition::CommandIs(Command::Inventory)],
        file_name: String::new(),
    })
    .unwrap();
    let (v, log) = state.play_turn("i");
    assert_eq!(v, Victory::Won);
    assert!(log.starts_with("\nThe floor gives way."));
    assert!(!log.contains("empty handed"));
    let (v, _) = state.play_turn("look");
    assert_eq!(v, Victory::Continue);
}

#[test]
fn fired_event_ends_its_message_with_a_line_break() {
    let mut state = State::new();
    state.set_location(2);
    let stack = state.special_event_triggered(&Command::Examine("bed".to_string()));
    assert_eq!(
        stack,
        Some(vec![Command::AddItemToRoom(2), Command::DeActivateEvent(0), Command::ActivateEvent(1)])
    );
    assert_eq!(
        state.get_log(),
        "\nThe bed is made of soft wood and has a comfortable mattress. Below the pillow you find a copper coin\n"
    );
    assert_eq!(state.special_event_triggered(&Command::Look), None);
    assert_eq!(state.get_log(), "\n");
}

#[test]
fn craft_help_keeps_the_last_recipe_line() {
    let mut state = State::new();
    state.why_not_mutable(2);
    state.craft_help();
    assert_eq!(state.get_log(), "\n");
    state.why_not_mutable(1);
    state.craft_help();
    assert_eq!(state.get_log(), "\nA stack of gold ---> armor");
}

#[test]
fn outcomes_told_in_the_browser() {
    let mut state = State::new();
    process_victory(&mut state, &Victory::Won);
    assert_eq!(state.get_log(), "\n\n!!!Congratulations You won the Game!!!");
    process_victory(&mut state, &Victory::Save(String::new()));
    assert_eq!(state.get_log(), "\n\nPlease use the button below to save or load game states.");
    process_victory(&mut state, &Victory::Quit);
    assert_eq!(state.get_log(), "\n\nIf you want to quit, just close the window.");
    process_victory(&mut state, &Victory::Continue);
    assert_eq!(state.get_log(), "");
    assert!(!state.is_dead());
    process_victory(&mut state, &Victory::GameOver);
    assert!(state.is_dead());
    assert!(state.get_log().starts_with("\n\nYou are dead."));
}
