use vstd::prelude::*;
use crate::command::{Command, CommandView, commands_view};
use crate::parser::{parse, parsed, told};
use crate::rules::outcome;
use crate::state::{first_firing, State, WorldView, GAME_OVER};
use crate::victory::{Victory, VictoryView};

verus! {

/// Runs `cmds` in order from world `w`. The outcome is the last one that is not `Continue`,
/// or `v` if there is none.
pub open spec fn run_stack(w: WorldView, cmds: Seq<CommandView>, v: VictoryView) -> (WorldView, VictoryView)
    decreases cmds.len(),
{
    if cmds.len() == 0 {
        (w, v)
    } else {
        let (w2, v2) = outcome(w, cmds[0]);
        run_stack(w2, cmds.drop_first(), if v2 is Continue { v } else { v2 })
    }
}

/// What one turn does: the line is read, and the command it gives either sets off an armed
/// event, whose commands then run in its place, or runs itself.
pub open spec fn turn(w: WorldView, line: Seq<char>) -> (WorldView, VictoryView) {
    let (c, msg) = parsed(line, w.loc == GAME_OVER);
    let w1 = told(w, msg);
    match first_firing(w1, c) {
        Some(e) => run_stack(
            w1.logged(w1.events[e as int].message + "\n"@),
            w1.events[e as int].command_stack,
            VictoryView::Continue,
        ),
        None => outcome(w1.logged(Seq::empty()), c),
    }
}

/// Runs the commands of a fired event in order; gives the last outcome that is not
/// `Continue`.
pub fn run_commands(state: &mut State, cmds: &Vec<Command>) -> (r: Victory)
    requires
        old(state).wf(),
    ensures
        final(state).wf(),
        (final(state)@, r@) == run_stack(old(state)@, commands_view(cmds@), VictoryView::Continue),
{
    let n = cmds.len();
    let mut v = Victory::Continue;
    let mut i: usize = 0;
    assert(commands_view(cmds@).subrange(0, n as int) =~= commands_view(cmds@));
    while i < n
        invariant
            state.wf(),
            n == cmds@.len(),
            i <= n,
            run_stack(old(state)@, commands_view(cmds@), VictoryView::Continue) == run_stack(
                state@,
                commands_view(cmds@).subrange(i as int, n as int),
                v@,
            ),
        decreases n - i,
    {
        let ghost rest = commands_view(cmds@).subrange(i as int, n as int);
        assert(rest[0] == cmds@[i as int]@);
        assert(rest.drop_first() =~= commands_view(cmds@).subrange(i as int + 1, n as int));
        let r = cmds[i].execute(state);
        match r {
            Victory::Continue => {},
            _ => {
                v = r;
            },
        }
        i = i + 1;
    }
    assert(commands_view(cmds@).subrange(n as int, n as int).len() == 0);
    v
}

impl State {
    /// Plays one turn on a line of (already lower-cased) input: reads it, runs the event it
    /// sets off or else the command itself, and hands back the outcome together with all
    /// that was told, which leaves the log empty.
    pub fn play_turn(&mut self, input: &str) -> (r: (Victory, String))
        requires
            old(self).wf(),
        ensures
            final(self).wf(),
            r.0@ == turn(old(self)@, input@).1,
            r.1@ == turn(old(self)@, input@).0.log,
            final(self)@ == (WorldView { log: Seq::empty(), ..turn(old(self)@, input@).0 }),
    {
        let command = parse(input, self);
        let v = match self.special_event_triggered(&command) {
            Some(stack) => run_commands(self, &stack),
            None => command.execute(self),
        };
        let text = self.get_log();
        (v, text)
    }
}

/// What the browser front end tells once a turn's outcome is known; a death also marks the
/// player as dead.
pub open spec fn after_outcome(w: WorldView, v: VictoryView) -> WorldView {
    match v {
        VictoryView::Won => w.logged("\n!!!Congratulations You won the Game!!!"@),
        VictoryView::GameOver => WorldView {
            loc: GAME_OVER,
            ..w.logged(
                "\nYou are dead.\nIf you want to try again, press the restart button or load a previously saved state."@,
            )
        },
        VictoryView::Load(_) => w.logged("\nPlease use the button below to save or load game states."@),
        VictoryView::Save(_) => w.logged("\nPlease use the button below to save or load game states."@),
        VictoryView::Quit => w.logged("\nIf you want to quit, just close the window."@),
        VictoryView::Continue => w,
    }
}

/// Tells what a turn's outcome means for a player in the browser, and marks a dead player.
pub fn process_victory(state: &mut State, victory: &Victory)
    requires
        old(state).wf(),
    ensures
        final(state).wf(),
        final(state)@ == after_outcome(old(state)@, victory@),
{
    match victory {
        Victory::Won => {
            state.log("\n!!!Congratulations You won the Game!!!");
        },
        Victory::GameOver => {
            state.log(
                "\nYou are dead.\nIf you want to try again, press the restart button or load a previously saved state.",
            );
            state.set_location(GAME_OVER);
        },
        Victory::Load(_) | Victory::Save(_) => {
            state.log("\nPlease use the button below to save or load game states.");
        },
        Victory::Quit => {
            state.log("\nIf you want to quit, just close the window.");
        },
        Victory::Continue => {},
    }
}

} // verus!
