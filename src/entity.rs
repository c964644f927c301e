use vstd::prelude::*;
use crate::text::str_eq;

verus! {

/// A thing that can lie in a room or be carried: a name, a description, and the words
/// that refer to it.
#[derive(Debug)]
pub struct Entity {
    pub name: String,
    pub description: String,
    pub aliases: Vec<String>,
}

/// Looks for `word` among `aliases`, comparing case-sensitively.
pub fn aliases_contain(aliases: &Vec<String>, word: &str) -> (r: bool)
    ensures
        r == alias_texts(aliases@).contains(word@),
{
    let mut i: usize = 0;
    while i < aliases.len()
        invariant
            i <= aliases.len(),
            forall|j: int| 0 <= j < i ==> (#[trigger] aliases@[j])@ != word@,
        decreases aliases.len() - i,
    {
        if str_eq(aliases[i].as_str(), word) {
            assert(alias_texts(aliases@)[i as int] == word@);
            return true;
        }
        i = i + 1;
    }
    assert(!alias_texts(aliases@).contains(word@)) by {
        if alias_texts(aliases@).contains(word@) {
            let k = choose|k: int| 0 <= k < alias_texts(aliases@).len() && alias_texts(aliases@)[k] == word@;
            assert(aliases@[k]@ == word@);
        }
    }
    false
}

/// Copies a list of aliases.
pub fn copy_aliases(aliases: &Vec<String>) -> (r: Vec<String>)
    ensures
        r@ == aliases@,
{
    let mut r: Vec<String> = Vec::new();
    let mut i: usize = 0;
    while i < aliases.len()
        invariant
            i <= aliases.len(),
            r@ == aliases@.subrange(0, i as int),
        decreases aliases.len() - i,
    {
        r.push(aliases[i].clone());
        i = i + 1;
        assert(r@ =~= aliases@.subrange(0, i as int));
    }
    assert(r@ =~= aliases@);
    r
}

/// What an entity or an actor is, as plain text.
pub struct EntityView {
    pub name: Seq<char>,
    pub description: Seq<char>,
    pub aliases: Seq<Seq<char>>,
}

impl EntityView {
    /// Whether `word` refers to this entity.
    pub open spec fn has_alias(self, word: Seq<char>) -> bool {
        self.aliases.contains(word)
    }
}

/// The text of each alias.
pub open spec fn alias_texts(aliases: Seq<String>) -> Seq<Seq<char>> {
    aliases.map_values(|a: String| a@)
}

impl View for Entity {
    type V = EntityView;

    open spec fn view(&self) -> EntityView {
        EntityView {
            name: self.name@,
            description: self.description@,
            aliases: alias_texts(self.aliases@),
        }
    }
}

impl Entity {

    pub fn new(name: &str, description: &str, aliases: Vec<String>) -> (r: Entity)
        ensures
            r.name@ == name@,
            r.description@ == description@,
            r.aliases@ == aliases@,
            r@.aliases == alias_texts(aliases@),
    {
        Entity { name: name.to_string(), description: description.to_string(), aliases }
    }

    pub fn get_description(&self) -> (r: &str)
        ensures
            r@ == self.description@,
    {
        self.description.as_str()
    }

    pub fn get_name(&self) -> (r: &str)
        ensures
            r@ == self.name@,
    {
        self.name.as_str()
    }

    /// Whether `word` is one of the entity's aliases.
    pub fn is_called(&self, word: &str) -> (r: bool)
        ensures
            r == self@.has_alias(word@),
    {
        aliases_contain(&self.aliases, word)
    }
}

impl Clone for Entity {
    fn clone(&self) -> (r: Self)
        ensures
            r@ == self@,
    {
        Entity {
            name: self.name.clone(),
            description: self.description.clone(),
            aliases: copy_aliases(&self.aliases),
        }
    }
}

} // verus!
