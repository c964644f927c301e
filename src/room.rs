use vstd::prelude::*;
use crate::direction::Direction;
use crate::ids::{insert_id, remove_id, with_id};

verus! {

/// A location: its text, the entities and actors in it, and its exits.
#[derive(Debug)]
pub struct Room {
    pub name: String,
    pub description: String,
    pub entities: Vec<usize>,
    pub actors: Vec<usize>,
    pub exits: Vec<(Direction, usize)>,
}

/// A room as plain values.
pub struct RoomView {
    pub name: Seq<char>,
    pub description: Seq<char>,
    pub entities: Seq<usize>,
    pub actors: Seq<usize>,
    pub exits: Seq<(Direction, usize)>,
}

/// No direction is listed twice among the exits.
pub open spec fn exits_distinct(exits: Seq<(Direction, usize)>) -> bool {
    forall|i: int, j: int|
        0 <= i < exits.len() && 0 <= j < exits.len() && i != j ==> exits[i].0 != exits[j].0
}

/// Where the exit toward `d` leads, if there is one.
pub open spec fn exit_toward(exits: Seq<(Direction, usize)>, d: Direction) -> Option<usize> {
    if exists|i: int| 0 <= i < exits.len() && exits[i].0 == d {
        Some(exits[choose|i: int| 0 <= i < exits.len() && exits[i].0 == d].1)
    } else {
        None
    }
}

/// The exits after the exit toward `d` is set to lead to `to`.
pub open spec fn with_exit(exits: Seq<(Direction, usize)>, d: Direction, to: usize) -> Seq<(Direction, usize)> {
    if exists|i: int| 0 <= i < exits.len() && exits[i].0 == d {
        exits.update(choose|i: int| 0 <= i < exits.len() && exits[i].0 == d, (d, to))
    } else {
        exits.push((d, to))
    }
}

/// The id list built by adding the ids of `s` in order, each kept once.
pub open spec fn ids_from(s: Seq<usize>) -> Seq<usize>
    decreases s.len(),
{
    if s.len() == 0 {
        Seq::empty()
    } else {
        with_id(ids_from(s.drop_last()), s.last())
    }
}

/// The exits built by setting the exits of `s` in order, a later one replacing an earlier
/// one in the same direction.
pub open spec fn exits_from(s: Seq<(Direction, usize)>) -> Seq<(Direction, usize)>
    decreases s.len(),
{
    if s.len() == 0 {
        Seq::empty()
    } else {
        with_exit(exits_from(s.drop_last()), s.last().0, s.last().1)
    }
}

/// Ids given once each come out as given.
proof fn lemma_ids_from_distinct(s: Seq<usize>)
    requires
        s.no_duplicates(),
    ensures
        ids_from(s) == s,
    decreases s.len(),
{
    if s.len() > 0 {
        let p = s.drop_last();
        assert(p.no_duplicates());
        lemma_ids_from_distinct(p);
        assert(!p.contains(s.last()));
        assert(p.push(s.last()) =~= s);
    }
}

/// Exits given once per direction come out as given.
proof fn lemma_exits_from_distinct(s: Seq<(Direction, usize)>)
    requires
        exits_distinct(s),
    ensures
        exits_from(s) == s,
    decreases s.len(),
{
    if s.len() > 0 {
        let p = s.drop_last();
        assert(exits_distinct(p));
        lemma_exits_from_distinct(p);
        assert(!exists|i: int| 0 <= i < p.len() && p[i].0 == s.last().0) by {
            if exists|i: int| 0 <= i < p.len() && p[i].0 == s.last().0 {
                let i = choose|i: int| 0 <= i < p.len() && p[i].0 == s.last().0;
                assert(s[i].0 == s[s.len() - 1].0);
            }
        }
        assert(p.push(s.last()) =~= s);
    }
}

impl RoomView {
    pub open spec fn wf(self) -> bool {
        &&& self.entities.no_duplicates()
        &&& self.actors.no_duplicates()
        &&& exits_distinct(self.exits)
    }
}

impl View for Room {
    type V = RoomView;

    open spec fn view(&self) -> RoomView {
        RoomView {
            name: self.name@,
            description: self.description@,
            entities: self.entities@,
            actors: self.actors@,
            exits: self.exits@,
        }
    }
}

/// Where `d` stands among `exits`, if anywhere.
fn exit_position(exits: &Vec<(Direction, usize)>, d: Direction) -> (r: Option<usize>)
    requires
        exits_distinct(exits@),
    ensures
        match r {
            Some(i) => i < exits@.len() && exits@[i as int].0 == d && exit_toward(exits@, d) == Some(
                exits@[i as int].1,
            ) && (choose|k: int| 0 <= k < exits@.len() && exits@[k].0 == d) == i,
            None => exit_toward(exits@, d) is None,
        },
{
    let mut i: usize = 0;
    while i < exits.len()
        invariant
            i <= exits@.len(),
            exits_distinct(exits@),
            forall|j: int| 0 <= j < i ==> exits@[j].0 != d,
        decreases exits.len() - i,
    {
        if exits[i].0 == d {
            proof {
                assert(0 <= i < exits@.len() && exits@[i as int].0 == d);
                let k = choose|k: int| 0 <= k < exits@.len() && exits@[k].0 == d;
                if k != i {
                    assert(exits@[k].0 != exits@[i as int].0);
                }
            }
            return Some(i);
        }
        i = i + 1;
    }
    None
}

impl Room {
    /// Builds a room. An id listed twice is kept once; of two exits in one direction the later
    /// one is kept.
    pub fn new(
        name: &str,
        description: &str,
        entities: Vec<usize>,
        actors: Vec<usize>,
        exits: Vec<(Direction, usize)>,
    ) -> (r: Room)
        ensures
            r@.wf(),
            r@.name == name@,
            r@.description == description@,
            r@.entities == ids_from(entities@),
            r@.actors == ids_from(actors@),
            r@.exits == exits_from(exits@),
            entities@.no_duplicates() ==> r@.entities == entities@,
            actors@.no_duplicates() ==> r@.actors == actors@,
            exits_distinct(exits@) ==> r@.exits == exits@,
    {
        let mut room = Room {
            name: name.to_string(),
            description: description.to_string(),
            entities: Vec::new(),
            actors: Vec::new(),
            exits: Vec::new(),
        };
        let mut i: usize = 0;
        while i < entities.len()
            invariant
                i <= entities@.len(),
                room@.wf(),
                room@.name == name@,
                room@.description == description@,
                room@.actors.len() == 0,
                room@.exits.len() == 0,
                room@.entities == ids_from(entities@.subrange(0, i as int)),
            decreases entities.len() - i,
        {
            room.add_entity(entities[i]);
            assert(entities@.subrange(0, i as int + 1).drop_last() =~= entities@.subrange(0, i as int));
            i = i + 1;
        }
        assert(entities@.subrange(0, entities@.len() as int) =~= entities@);
        let mut i: usize = 0;
        while i < actors.len()
            invariant
                i <= actors@.len(),
                room@.wf(),
                room@.name == name@,
                room@.description == description@,
                room@.exits.len() == 0,
                room@.entities == ids_from(entities@),
                room@.actors == ids_from(actors@.subrange(0, i as int)),
            decreases actors.len() - i,
        {
            insert_id(&mut room.actors, actors[i]);
            assert(actors@.subrange(0, i as int + 1).drop_last() =~= actors@.subrange(0, i as int));
            i = i + 1;
        }
        assert(actors@.subrange(0, actors@.len() as int) =~= actors@);
        let mut i: usize = 0;
        while i < exits.len()
            invariant
                i <= exits@.len(),
                room@.wf(),
                room@.name == name@,
                room@.description == description@,
                room@.entities == ids_from(entities@),
                room@.actors == ids_from(actors@),
                room@.exits == exits_from(exits@.subrange(0, i as int)),
            decreases exits.len() - i,
        {
            let (d, to) = exits[i];
            room.add_exit(d, to);
            assert(exits@.subrange(0, i as int + 1).drop_last() =~= exits@.subrange(0, i as int));
            i = i + 1;
        }
        assert(exits@.subrange(0, exits@.len() as int) =~= exits@);
        proof {
            if entities@.no_duplicates() {
                lemma_ids_from_distinct(entities@);
            }
            if actors@.no_duplicates() {
                lemma_ids_from_distinct(actors@);
            }
            if exits_distinct(exits@) {
                lemma_exits_from_distinct(exits@);
            }
        }
        room
    }

    pub fn get_description(&self) -> (r: &str)
        ensures
            r@ == self.description@,
    {
        self.description.as_str()
    }

    pub fn get_exits(&self) -> (r: &Vec<(Direction, usize)>)
        ensures
            r@ == self.exits@,
    {
        &self.exits
    }

    /// Where the exit toward `dir` leads, if the room has one.
    pub fn get_exit(&self, dir: Direction) -> (r: Option<usize>)
        requires
            self@.wf(),
        ensures
            r == exit_toward(self@.exits, dir),
    {
        match exit_position(&self.exits, dir) {
            Some(i) => Some(self.exits[i].1),
            None => None,
        }
    }

    pub fn get_entities(&self) -> (r: &Vec<usize>)
        ensures
            r@ == self.entities@,
    {
        &self.entities
    }

    /// Takes an entity out of the room; says whether it was there.
    pub fn remove_entity(&mut self, entity_id: usize) -> (r: bool)
        requires
            old(self)@.wf(),
        ensures
            r == old(self)@.entities.contains(entity_id),
            final(self)@ == (RoomView { entities: old(self)@.entities.remove_value(entity_id), ..old(self)@ }),
            final(self)@.wf(),
            final(self)@.entities.to_set() == old(self)@.entities.to_set().remove(entity_id),
    {
        remove_id(&mut self.entities, entity_id)
    }

    /// Puts an entity into the room (nothing changes if it is there already).
    pub fn add_entity(&mut self, entity_id: usize)
        requires
            old(self)@.wf(),
        ensures
            final(self)@ == (RoomView { entities: with_id(old(self)@.entities, entity_id), ..old(self)@ }),
            final(self)@.wf(),
            final(self)@.entities.to_set() == old(self)@.entities.to_set().insert(entity_id),
    {
        insert_id(&mut self.entities, entity_id)
    }

    pub fn get_actors(&self) -> (r: &Vec<usize>)
        ensures
            r@ == self.actors@,
    {
        &self.actors
    }

    /// Takes an actor out of the room; says whether it was there.
    pub fn remove_actor(&mut self, actor_id: usize) -> (r: bool)
        requires
            old(self)@.wf(),
        ensures
            r == old(self)@.actors.contains(actor_id),
            final(self)@ == (RoomView { actors: old(self)@.actors.remove_value(actor_id), ..old(self)@ }),
            final(self)@.wf(),
    {
        remove_id(&mut self.actors, actor_id)
    }

    /// Makes the exit toward `direction` lead to `room_number`, adding it if needed.
    pub fn add_exit(&mut self, direction: Direction, room_number: usize)
        requires
            old(self)@.wf(),
        ensures
            final(self)@ == (RoomView { exits: with_exit(old(self)@.exits, direction, room_number), ..old(self)@ }),
            final(self)@.wf(),
            exit_toward(final(self)@.exits, direction) == Some(room_number),
            forall|d: Direction| d != direction ==> exit_toward(final(self)@.exits, d) == exit_toward(old(self)@.exits, d),
    {
        let ghost old_exits = self.exits@;
        match exit_position(&self.exits, direction) {
            Some(i) => {
                self.exits.set(i, (direction, room_number));
                proof {
                    let e = self.exits@;
                    assert(e[i as int].0 == direction);
                    assert forall|d: Direction| d != direction implies exit_toward(e, d) == exit_toward(old_exits, d) by {
                        if exists|k: int| 0 <= k < e.len() && e[k].0 == d {
                            let k = choose|k: int| 0 <= k < e.len() && e[k].0 == d;
                            assert(old_exits[k].0 == d);
                        }
                        if exists|k: int| 0 <= k < old_exits.len() && old_exits[k].0 == d {
                            let k = choose|k: int| 0 <= k < old_exits.len() && old_exits[k].0 == d;
                            assert(e[k].0 == d);
                        }
                    }
                    assert(exits_distinct(e));
                }
            },
            None => {
                self.exits.push((direction, room_number));
                proof {
                    let e = self.exits@;
                    assert(e[old_exits.len() as int].0 == direction);
                    assert forall|d: Direction| d != direction implies exit_toward(e, d) == exit_toward(old_exits, d) by {
                        if exists|k: int| 0 <= k < e.len() && e[k].0 == d {
                            let k = choose|k: int| 0 <= k < e.len() && e[k].0 == d;
                            assert(old_exits[k].0 == d);
                        }
                        if exists|k: int| 0 <= k < old_exits.len() && old_exits[k].0 == d {
                            let k = choose|k: int| 0 <= k < old_exits.len() && old_exits[k].0 == d;
                            assert(e[k].0 == d);
                        }
                    }
                }
            },
        }
    }
}

impl Clone for Room {
    fn clone(&self) -> (r: Self)
        ensures
            r@ == self@,
    {
        let entities = self.entities.clone();
        let actors = self.actors.clone();
        let mut exits: Vec<(Direction, usize)> = Vec::new();
        let mut i: usize = 0;
        while i < self.exits.len()
            invariant
                i <= self.exits@.len(),
                exits@ == self.exits@.subrange(0, i as int),
            decreases self.exits.len() - i,
        {
            exits.push(self.exits[i]);
            i = i + 1;
            assert(exits@ =~= self.exits@.subrange(0, i as int));
        }
        assert(entities@ =~= self.entities@);
        assert(actors@ =~= self.actors@);
        assert(exits@ =~= self.exits@);
        Room { name: self.name.clone(), description: self.description.clone(), entities, actors, exits }
    }
}

} // verus!
