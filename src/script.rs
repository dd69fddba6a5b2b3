use vstd::prelude::*;

use crate::geometry::Vec2;

verus! {

/// The enemies the script can bring in.
#[derive(Clone, Copy, Debug, PartialEq, Eq, Structural)]
pub enum Enemy {
    Boss,
    BlackSlime,
    RedSlime,
}

/// One step of the level script.
#[derive(Clone, Debug)]
pub enum ScriptEvent {
    /// Wait this long (µs).
    Wait(u64),
    WaitForSlimesDead,
    WaitForBossDead,
    Spawn(Enemy, Vec2),
    /// A line of dialogue: speaker and text. It stays until the player moves on.
    Dialogue(String, String),
    EndTheGame,
    /// The script is over: nothing after it runs.
    Halt,
}

/// The level script and how far it got. Events before `head` are done; `waited` is the
/// time already spent in the `Wait` at `head`.
#[derive(Clone, Debug)]
pub struct ScriptEventQueue {
    pub queue: Vec<ScriptEvent>,
    pub head: usize,
    pub waited: u64,
}

/// What running the script for one tick asks the game to do.
#[derive(Clone, Debug)]
pub struct ScriptOutput {
    /// Enemies to spawn, in script order.
    pub spawns: Vec<(Enemy, Vec2)>,
    /// The dialogue line at the head of the script is to be shown.
    pub show_dialogue: bool,
    /// The game is to end (the results screen opens).
    pub end_game: bool,
}

/// The script's state after running from `head` with `delta` time left to spend:
/// (head, time waited, spawns, dialogue shown, game ended).
pub open spec fn run_spec(
    q: Seq<ScriptEvent>,
    head: int,
    waited: int,
    delta: int,
    slimes_alive: bool,
    boss_alive: bool,
    spawns: Seq<(Enemy, Vec2)>,
    end: bool,
) -> (int, int, Seq<(Enemy, Vec2)>, bool, bool)
    decreases q.len() - head,
{
    if head < 0 || head >= q.len() {
        (head, waited, spawns, false, end)
    } else {
        match q[head] {
            ScriptEvent::Wait(d) => if d - waited > delta {
                (head, waited + delta, spawns, false, end)
            } else {
                run_spec(q, head + 1, 0, delta - (d - waited), slimes_alive, boss_alive, spawns, end)
            },
            ScriptEvent::Spawn(e, p) => run_spec(q, head + 1, 0, delta, slimes_alive, boss_alive, spawns.push((e, p)), end),
            ScriptEvent::WaitForSlimesDead => if slimes_alive {
                (head, waited, spawns, false, end)
            } else {
                run_spec(q, head + 1, 0, delta, slimes_alive, boss_alive, spawns, end)
            },
            ScriptEvent::WaitForBossDead => if boss_alive {
                (head, waited, spawns, false, end)
            } else {
                run_spec(q, head + 1, 0, delta, slimes_alive, boss_alive, spawns, end)
            },
            ScriptEvent::Dialogue(_, _) => (head, waited, spawns, true, end),
            ScriptEvent::EndTheGame => run_spec(q, head + 1, 0, delta, slimes_alive, boss_alive, spawns, true),
            ScriptEvent::Halt => (head, waited, spawns, false, end),
        }
    }
}

impl ScriptEventQueue {
    pub open spec fn wf(self) -> bool {
        &&& self.head <= self.queue.len()
        &&& (self.head < self.queue.len() ==> (self.queue@[self.head as int] matches ScriptEvent::Wait(d) ==> self.waited <= d))
        &&& (self.head < self.queue.len() ==> (!(self.queue@[self.head as int] is Wait) ==> self.waited == 0))
        &&& (self.head == self.queue.len() ==> self.waited == 0)
    }

    /// A script about to run its first event.
    pub fn new(queue: Vec<ScriptEvent>) -> (r: ScriptEventQueue)
        ensures
            r.wf(),
            r.queue@ == queue@,
            r.head == 0,
            r.waited == 0,
    {
        ScriptEventQueue { queue, head: 0, waited: 0 }
    }

    /// Runs the script for a tick of `dt`: waits spend the time (what one wait leaves
    /// over goes to the next), spawns and the game's end are handed out, and the script
    /// stops at a wait not yet over, at a wait for enemies still alive, at a dialogue
    /// line (to be shown), at its final `Halt`, or at its end.
    pub fn process_script_events(&mut self, dt: u64, slimes_alive: bool, boss_alive: bool) -> (r: ScriptOutput)
        requires
            old(self).wf(),
        ensures
            final(self).wf(),
            final(self).queue@ == old(self).queue@,
            ({
                let s = run_spec(old(self).queue@, old(self).head as int, old(self).waited as int, dt as int, slimes_alive, boss_alive, seq![], false);
                &&& final(self).head == s.0
                &&& final(self).waited == s.1
                &&& r.spawns@ == s.2
                &&& r.show_dialogue == s.3
                &&& r.end_game == s.4
            }),
    {
        let mut delta: u64 = dt;
        let mut spawns: Vec<(Enemy, Vec2)> = Vec::new();
        let mut end_game = false;
        let ghost q = self.queue@;
        while self.head < self.queue.len()
            invariant
                self.wf(),
                self.queue@ == q,
                q == old(self).queue@,
                run_spec(q, self.head as int, self.waited as int, delta as int, slimes_alive, boss_alive, spawns@, end_game)
                    == run_spec(q, old(self).head as int, old(self).waited as int, dt as int, slimes_alive, boss_alive, seq![], false),
            decreases q.len() - self.head,
        {
            match &self.queue[self.head] {
                ScriptEvent::Wait(d) => {
                    let left: u64 = *d - self.waited;
                    if left > delta {
                        self.waited = self.waited + delta;
                        return ScriptOutput { spawns, show_dialogue: false, end_game };
                    }
                    delta = delta - left;
                },
                ScriptEvent::Spawn(e, p) => {
                    spawns.push((*e, *p));
                },
                ScriptEvent::WaitForSlimesDead => {
                    if slimes_alive {
                        return ScriptOutput { spawns, show_dialogue: false, end_game };
                    }
                },
                ScriptEvent::WaitForBossDead => {
                    if boss_alive {
                        return ScriptOutput { spawns, show_dialogue: false, end_game };
                    }
                },
                ScriptEvent::Dialogue(_, _) => {
                    return ScriptOutput { spawns, show_dialogue: true, end_game };
                },
                ScriptEvent::EndTheGame => {
                    end_game = true;
                },
                ScriptEvent::Halt => {
                    return ScriptOutput { spawns, show_dialogue: false, end_game };
                },
            }
            self.head = self.head + 1;
            self.waited = 0;
        }
        ScriptOutput { spawns, show_dialogue: false, end_game }
    }

    /// The player moves the dialogue on: the line at the head is done. Returns
    /// `Some(hide)` when a line was done, `hide` telling whether the dialogue box is to
    /// close (the next event is no dialogue); `None` when the head is no dialogue.
    pub fn progress_dialogue(&mut self) -> (r: Option<bool>)
        requires
            old(self).wf(),
        ensures
            final(self).wf(),
            final(self).queue@ == old(self).queue@,
            final(self).waited == old(self).waited,
            ({
                let q = old(self).queue@;
                let h = old(self).head as int;
                if h < q.len() && q[h] is Dialogue {
                    &&& final(self).head == h + 1
                    &&& r == Some(!(h + 1 < q.len() && q[h + 1] is Dialogue))
                } else {
                    &&& final(self).head == h
                    &&& r is None
                }
            }),
    {
        if self.head >= self.queue.len() {
            return None;
        }
        match &self.queue[self.head] {
            ScriptEvent::Dialogue(_, _) => {},
            _ => {
                return None;
            },
        }
        self.head = self.head + 1;
        let next_is_dialogue = if self.head < self.queue.len() {
            match &self.queue[self.head] {
                ScriptEvent::Dialogue(_, _) => true,
                _ => false,
            }
        } else {
            false
        };
        Some(!next_is_dialogue)
    }
}

} // verus!
