use vstd::prelude::*;
use crate::command::CommandView;
use crate::direction::Direction;
use crate::entity::EntityView;
use crate::ids::{lemma_remove_value, lemma_with_id, with_id};
use crate::room::exit_toward;
use crate::rules::outcome;
use crate::state::{event_fires, first_firing, firing_from, first_match, lemma_first_match, WorldView};

verus! {

/// Going in a direction with no exit to a room leaves the location, the inventory and every
/// room as they were, and adds exactly one message: "You can't go that way."
pub proof fn lemma_blocked_move(w: WorldView, d: Direction)
    requires
        w.wf(),
        w.in_room(),
        match exit_toward(w.room().exits, d) {
            Some(to) => (to as int) >= w.rooms.len(),
            None => true,
        },
    ensures
        outcome(w, CommandView::Move(d)).0.loc == w.loc,
        outcome(w, CommandView::Move(d)).0.inventory == w.inventory,
        outcome(w, CommandView::Move(d)).0.rooms == w.rooms,
        outcome(w, CommandView::Move(d)).0.log == w.log + "\n"@ + "\nYou can't go that way."@,
        outcome(w, CommandView::Move(d)).1 is Continue,
{
}

/// Taking an entity that lies in the current room moves it from the room's set to the
/// inventory: afterwards it is in the inventory and not in the room.
pub proof fn lemma_take(w: WorldView, thing: Seq<char>, id: usize)
    requires
        w.wf(),
        w.in_room(),
        first_match(w.room().entities, w.entities, thing) == Some(id),
    ensures
        outcome(w, CommandView::Take(thing)).0.wf(),
        outcome(w, CommandView::Take(thing)).0.loc == w.loc,
        outcome(w, CommandView::Take(thing)).0.inventory.contains(id),
        !outcome(w, CommandView::Take(thing)).0.room().entities.contains(id),
        outcome(w, CommandView::Take(thing)).0.inventory.to_set() == w.inventory.to_set().insert(id),
        outcome(w, CommandView::Take(thing)).0.room().entities.to_set() == w.room().entities.to_set().remove(id),
{
    let w2 = outcome(w, CommandView::Take(thing)).0;
    lemma_with_id(w.inventory, id);
    lemma_remove_value(w.room().entities, id);
    assert(w2.rooms[w.loc as int] == w2.room());
    assert forall|i: int| 0 <= i < w2.rooms.len() implies (#[trigger] w2.rooms[i]).wf() by {
        if i != w.loc as int {
            assert(w2.rooms[i] == w.rooms[i]);
        }
    }
}

/// Dropping a carried entity moves it from the inventory to the current room's set:
/// afterwards it is in the room and not in the inventory.
pub proof fn lemma_drop(w: WorldView, thing: Seq<char>, id: usize)
    requires
        w.wf(),
        w.in_room(),
        first_match(w.inventory, w.entities, thing) == Some(id),
    ensures
        outcome(w, CommandView::Drop(thing)).0.wf(),
        outcome(w, CommandView::Drop(thing)).0.loc == w.loc,
        !outcome(w, CommandView::Drop(thing)).0.inventory.contains(id),
        outcome(w, CommandView::Drop(thing)).0.room().entities.contains(id),
        outcome(w, CommandView::Drop(thing)).0.inventory.to_set() == w.inventory.to_set().remove(id),
        outcome(w, CommandView::Drop(thing)).0.room().entities.to_set() == w.room().entities.to_set().insert(id),
{
    let w2 = outcome(w, CommandView::Drop(thing)).0;
    lemma_remove_value(w.inventory, id);
    lemma_with_id(w.room().entities, id);
    assert forall|i: int| 0 <= i < w2.rooms.len() implies (#[trigger] w2.rooms[i]).wf() by {
        if i != w.loc as int {
            assert(w2.rooms[i] == w.rooms[i]);
        }
    }
}

/// An id found by `first_match` in a list is still the one found after another id is added
/// at the end; one found nowhere in the list is found once it is added.
proof fn lemma_first_match_push(ids: Seq<usize>, reg: Map<usize, EntityView>, word: Seq<char>, x: usize)
    requires
        first_match(ids, reg, word) is None,
        reg.contains_key(x),
        reg[x].has_alias(word),
    ensures
        first_match(ids.push(x), reg, word) == Some(x),
    decreases ids.len(),
{
    if ids.len() > 0 {
        assert(ids.push(x).drop_first() =~= ids.drop_first().push(x));
        lemma_first_match_push(ids.drop_first(), reg, word, x);
    } else {
        assert(ids.push(x)[0] == x);
    }
}

/// Taking an entity and then dropping it by the same word, when nothing carried before was
/// called so, puts it back: the room's set and the inventory are as they were.
pub proof fn lemma_take_then_drop(w: WorldView, thing: Seq<char>, id: usize)
    requires
        w.wf(),
        w.in_room(),
        first_match(w.room().entities, w.entities, thing) == Some(id),
        first_match(w.inventory, w.entities, thing) is None,
    ensures
        outcome(outcome(w, CommandView::Take(thing)).0, CommandView::Drop(thing)).0.inventory.to_set()
            == w.inventory.to_set(),
        outcome(outcome(w, CommandView::Take(thing)).0, CommandView::Drop(thing)).0.room().entities.to_set()
            == w.room().entities.to_set(),
{
    let w2 = outcome(w, CommandView::Take(thing)).0;
    lemma_take(w, thing, id);
    lemma_first_match(w.room().entities, w.entities, thing);
    lemma_first_match(w.inventory, w.entities, thing);
    assert(!w.inventory.contains(id)) by {
        if w.inventory.contains(id) {
            let k = choose|k: int| 0 <= k < w.inventory.len() && w.inventory[k] == id;
            assert(!(w.entities.contains_key(w.inventory[k]) && w.entities[w.inventory[k]].has_alias(thing)));
        }
    }
    assert(w2.inventory == w.inventory.push(id));
    lemma_first_match_push(w.inventory, w.entities, thing, id);
    lemma_drop(w2, thing, id);
    assert(w.room().entities.contains(id));
    assert(w.inventory.to_set().insert(id).remove(id) =~= w.inventory.to_set()) by {
        assert(!w.inventory.to_set().contains(id));
    }
    assert(w.room().entities.to_set().remove(id).insert(id) =~= w.room().entities.to_set()) by {
        assert(w.room().entities.to_set().contains(id));
    }
}

/// The event that fires, if any, is an armed event whose condition holds, and no armed event
/// before it in the armed list holds; when none fires, no armed event's condition holds.
/// So at most one event fires for a command, even when several hold: the one armed first.
proof fn lemma_firing_from(w: WorldView, cmd: CommandView, k: int)
    requires
        0 <= k <= w.active_events.len(),
    ensures
        match firing_from(w, cmd, k) {
            Some(e) => exists|j: int|
                k <= j < w.active_events.len() && w.active_events[j] == e && event_fires(w, cmd, e)
                    && forall|i: int| k <= i < j ==> !event_fires(w, cmd, #[trigger] w.active_events[i]),
            None => forall|i: int| k <= i < w.active_events.len() ==> !event_fires(w, cmd, #[trigger] w.active_events[i]),
        },
    decreases w.active_events.len() - k,
{
    if k < w.active_events.len() {
        lemma_firing_from(w, cmd, k + 1);
        if !event_fires(w, cmd, w.active_events[k]) {
            match firing_from(w, cmd, k + 1) {
                Some(e) => {
                    let j = choose|j: int|
                        k + 1 <= j < w.active_events.len() && w.active_events[j] == e && event_fires(w, cmd, e)
                            && forall|i: int| k + 1 <= i < j ==> !event_fires(w, cmd, #[trigger] w.active_events[i]);
                    assert forall|i: int| k <= i < j implies !event_fires(w, cmd, #[trigger] w.active_events[i]) by {
                        if i > k {
                        }
                    }
                },
                None => {},
            }
        } else {
            assert(forall|i: int| k <= i < k ==> !event_fires(w, cmd, #[trigger] w.active_events[i]));
        }
    }
}

/// At most one event fires per command. If any armed event's condition holds, exactly one
/// fires: the first in the order in which events were armed (which one that is depends on
/// that order alone). If none holds, none fires.
pub proof fn lemma_at_most_one_event(w: WorldView, cmd: CommandView)
    ensures
        first_firing(w, cmd) is Some <==> exists|i: int|
            0 <= i < w.active_events.len() && event_fires(w, cmd, #[trigger] w.active_events[i]),
        match first_firing(w, cmd) {
            Some(e) => w.active_events.contains(e) && event_fires(w, cmd, e),
            None => true,
        },
{
    lemma_firing_from(w, cmd, 0);
    match first_firing(w, cmd) {
        Some(e) => {
            let j = choose|j: int|
                0 <= j < w.active_events.len() && w.active_events[j] == e && event_fires(w, cmd, e)
                    && forall|i: int| 0 <= i < j ==> !event_fires(w, cmd, #[trigger] w.active_events[i]);
            assert(event_fires(w, cmd, w.active_events[j]));
        },
        None => {},
    }
}

/// Crafting a carried entity that a recipe applies to takes it out of the inventory, puts
/// the product in, and wins the game.
pub proof fn lemma_craft(w: WorldView, thing: Seq<char>, id: usize)
    requires
        w.wf(),
        first_match(w.inventory, w.entities, thing) == Some(id),
        w.recipes.contains_key(id),
    ensures
        outcome(w, CommandView::Craft(thing)).0.inventory.to_set() == w.inventory.to_set().remove(id).insert(w.recipes[id]),
        outcome(w, CommandView::Craft(thing)).0.inventory.contains(w.recipes[id]),
        w.recipes[id] != id ==> !outcome(w, CommandView::Craft(thing)).0.inventory.contains(id),
        outcome(w, CommandView::Craft(thing)).1 is Won,
{
    let w2 = outcome(w, CommandView::Craft(thing)).0;
    lemma_remove_value(w.inventory, id);
    let inv = w.inventory.remove_value(id);
    lemma_with_id(inv, w.recipes[id]);
    assert(w2.inventory == with_id(inv, w.recipes[id]));
    if w.recipes[id] != id {
        assert(!w2.inventory.to_set().contains(id));
    }
}

/// Crafting with a word that names no carried entity, or a carried entity that no recipe
/// applies to, leaves the world unchanged.
pub proof fn lemma_craft_fails(w: WorldView, thing: Seq<char>)
    requires
        match first_match(w.inventory, w.entities, thing) {
            Some(id) => !w.recipes.contains_key(id),
            None => true,
        },
    ensures
        outcome(w, CommandView::Craft(thing)).0 == w,
        outcome(w, CommandView::Craft(thing)).1 is Continue,
{
}

} // verus!
