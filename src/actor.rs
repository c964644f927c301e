use vstd::prelude::*;
use crate::entity::{alias_texts, copy_aliases, EntityView};

verus! {

/// A character that stands in a room; it cannot be picked up.
#[derive(Debug)]
pub struct Actor {
    pub name: String,
    pub description: String,
    pub aliases: Vec<String>,
}

impl View for Actor {
    type V = EntityView;

    open spec fn view(&self) -> EntityView {
        EntityView {
            name: self.name@,
            description: self.description@,
            aliases: alias_texts(self.aliases@),
        }
    }
}

impl Actor {
    pub fn new(name: &str, description: &str, aliases: Vec<String>) -> (r: Actor)
        ensures
            r.name@ == name@,
            r.description@ == description@,
            r.aliases@ == aliases@,
    {
        Actor { name: name.to_string(), description: description.to_string(), aliases }
    }
}

impl Clone for Actor {
    fn clone(&self) -> (r: Self)
        ensures
            r@ == self@,
    {
        Actor {
            name: self.name.clone(),
            description: self.description.clone(),
            aliases: copy_aliases(&self.aliases),
        }
    }
}

} // verus!
