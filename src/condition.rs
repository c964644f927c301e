use vstd::prelude::*;
use crate::command::{Command, CommandView};

verus! {

/// A node of the condition table. Combinators name other nodes by their index in the table.
#[derive(Debug)]
pub enum Condition {
    CommandIs(Command),
    Location(usize),
    And(usize, usize),
    ObjectInInventory(usize),
    Or(usize, usize),
    NotCommandIs(Command),
    NotLocation(usize),
    NotAnd(usize, usize),
    NotObjectInInventory(usize),
    NotOr(usize, usize),
    Actor(usize),
}

/// A condition node as plain values.
pub enum ConditionView {
    CommandIs(CommandView),
    Location(usize),
    And(usize, usize),
    ObjectInInventory(usize),
    Or(usize, usize),
    NotCommandIs(CommandView),
    NotLocation(usize),
    NotAnd(usize, usize),
    NotObjectInInventory(usize),
    NotOr(usize, usize),
    Actor(usize),
}

impl View for Condition {
    type V = ConditionView;

    open spec fn view(&self) -> ConditionView {
        match self {
            Condition::CommandIs(c) => ConditionView::CommandIs(c@),
            Condition::Location(r) => ConditionView::Location(*r),
            Condition::And(a, b) => ConditionView::And(*a, *b),
            Condition::ObjectInInventory(e) => ConditionView::ObjectInInventory(*e),
            Condition::Or(a, b) => ConditionView::Or(*a, *b),
            Condition::NotCommandIs(c) => ConditionView::NotCommandIs(c@),
            Condition::NotLocation(r) => ConditionView::NotLocation(*r),
            Condition::NotAnd(a, b) => ConditionView::NotAnd(*a, *b),
            Condition::NotObjectInInventory(e) => ConditionView::NotObjectInInventory(*e),
            Condition::NotOr(a, b) => ConditionView::NotOr(*a, *b),
            Condition::Actor(a) => ConditionView::Actor(*a),
        }
    }
}

impl ConditionView {
    /// Every node this one refers to comes before index `i` in the table.
    pub open spec fn refers_below(self, i: int) -> bool {
        match self {
            ConditionView::And(a, b) => a < i && b < i,
            ConditionView::Or(a, b) => a < i && b < i,
            ConditionView::NotAnd(a, b) => a < i && b < i,
            ConditionView::NotOr(a, b) => a < i && b < i,
            _ => true,
        }
    }
}

impl Clone for Condition {
    fn clone(&self) -> (r: Self)
        ensures
            r@ == self@,
    {
        match self {
            Condition::CommandIs(c) => Condition::CommandIs(c.clone()),
            Condition::Location(r) => Condition::Location(*r),
            Condition::And(a, b) => Condition::And(*a, *b),
            Condition::ObjectInInventory(e) => Condition::ObjectInInventory(*e),
            Condition::Or(a, b) => Condition::Or(*a, *b),
            Condition::NotCommandIs(c) => Condition::NotCommandIs(c.clone()),
            Condition::NotLocation(r) => Condition::NotLocation(*r),
            Condition::NotAnd(a, b) => Condition::NotAnd(*a, *b),
            Condition::NotObjectInInventory(e) => Condition::NotObjectInInventory(*e),
            Condition::NotOr(a, b) => Condition::NotOr(*a, *b),
            Condition::Actor(a) => Condition::Actor(*a),
        }
    }
}

} // verus!
