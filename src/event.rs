use vstd::prelude::*;
use crate::command::{commands_view, copy_commands, Command, CommandView};

verus! {

/// A scripted reaction: when its condition holds, its message is told and its commands run
/// in place of the player's own.
#[derive(Debug)]
pub struct Event {
    pub condition_id: usize,
    pub message: String,
    pub command_stack: Vec<Command>,
}

/// An event as plain values.
pub struct EventView {
    pub condition_id: usize,
    pub message: Seq<char>,
    pub command_stack: Seq<CommandView>,
}

impl View for Event {
    type V = EventView;

    open spec fn view(&self) -> EventView {
        EventView {
            condition_id: self.condition_id,
            message: self.message@,
            command_stack: commands_view(self.command_stack@),
        }
    }
}

impl Event {
    pub fn new(condition_id: usize, message: String, command_stack: Vec<Command>) -> (r: Event)
        ensures
            r.condition_id == condition_id,
            r.message == message,
            r.command_stack == command_stack,
    {
        Event { condition_id, message, command_stack }
    }
}

impl Clone for Event {
    fn clone(&self) -> (r: Self)
        ensures
            r@ == self@,
    {
        Event {
            condition_id: self.condition_id,
            message: self.message.clone(),
            command_stack: copy_commands(&self.command_stack),
        }
    }
}

} // verus!
