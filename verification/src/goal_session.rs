//! The long-lived wrapper around a goal run: how it starts (a new game,
//! CONTINUE from the checkpoint, or the game as it stands) and how it
//! cycles with a restart (finish or fail → wait → soft reset → CONTINUE
//! → run the goal again, forever).
//!
//! The cycle logic ([`run`]) is pure: it drives a [`Runner`] and never
//! touches a device. A new game is only the menus (title, intro, names): from
//! the first overworld frame the goal loop plays, with the belief a new game is
//! known to start with ([`new_game_knowledge`]).

use vstd::prelude::*;

use crate::event::Pocket;
use crate::observe::PlayerPose;
use crate::state::{
    fact_of, find_fact, first_fact, Knowledge, KnowledgeSource, PartyMon, PokedexCounts,
    SavedKnowledge, WorldBelief, PC_BOXES,
};
use crate::text::{begins, cat3, decimal, decimal_of, same, starts_with};

verus! {

/// Where a cycle starts from.
#[derive(Debug, Clone, Copy, PartialEq, Eq, Structural)]
pub enum Start {
    /// Soft reset, new game, the opening milestones, then the goal.
    NewGame,
    /// Soft reset, CONTINUE the last save, restore its checkpoint, then the
    /// goal.
    Continue,
    /// The game as it stands on screen.
    AsIs,
}

/// How one cycle ended.
#[derive(Debug, Clone, PartialEq, Eq)]
pub enum CycleEnd {
    /// The goal holds (summary).
    Satisfied(String),
    /// The loop gave up (outcome; `fainted: …` when a Pokémon fainted, and
    /// the save is reloaded at once).
    Unsatisfied(String),
    /// The cycle broke off: a device error, a failed task (reason).
    Failed(String),
    /// Stopped by the user.
    Stopped,
}

/// What an end says.
pub enum CycleEndV {
    Satisfied(Seq<char>),
    Unsatisfied(Seq<char>),
    Failed(Seq<char>),
    Stopped,
}

impl View for CycleEnd {
    type V = CycleEndV;

    open spec fn view(&self) -> CycleEndV {
        match *self {
            CycleEnd::Satisfied(s) => CycleEndV::Satisfied(s@),
            CycleEnd::Unsatisfied(s) => CycleEndV::Unsatisfied(s@),
            CycleEnd::Failed(s) => CycleEndV::Failed(s@),
            CycleEnd::Stopped => CycleEndV::Stopped,
        }
    }
}

impl CycleEndV {
    pub open spec fn faint(self) -> bool {
        match self {
            CycleEndV::Unsatisfied(outcome) => begins(outcome, "fainted"@),
            _ => false,
        }
    }
}

impl CycleEnd {
    pub fn is_stopped(&self) -> (r: bool)
        ensures
            r == (self@ is Stopped),
    {
        matches!(self, CycleEnd::Stopped)
    }

    /// A faint: the goal loop's outcome `fainted: …`.
    pub fn is_faint(&self) -> (r: bool)
        ensures
            r == self@.faint(),
    {
        match self {
            CycleEnd::Unsatisfied(outcome) => starts_with(outcome.as_str(), "fainted"),
            _ => false,
        }
    }
}

/// Something a session did: a cycle and how it ended, or a pause, each with
/// whether a stop was wanted and a save to continue from was there afterwards;
/// or what it said.
pub enum Played {
    Cycle { start: Start, cycle: u64, end: CycleEndV, halted: bool, saved: bool },
    Wait { millis: u64, halted: bool, saved: bool },
    Log { text: Seq<char> },
}

/// What the session drives: one cycle at a time, the pause between them,
/// and whether there is a save to CONTINUE from. The contracts speak of the stop
/// flag and the save as they stand after a cycle or a pause: a runner whose flag
/// is set from elsewhere takes note of it there. (The specification functions
/// have bodies for runners outside of verified code; a verified runner gives its
/// own, with a record of what it played.)
pub trait Runner {
    /// What was played so far.
    open spec fn played(&self) -> Seq<Played> {
        Seq::empty()
    }

    /// A stop is wanted.
    open spec fn halted(&self) -> bool {
        false
    }

    /// There is a save to continue from.
    open spec fn saved(&self) -> bool {
        false
    }

    /// How many pauses there can be at most until a stop is wanted: a session
    /// that is never stopped does not come to an end.
    open spec fn patience(&self) -> nat {
        0
    }

    /// Plays one cycle from `start` (`cycle` counts from 1).
    fn cycle(&mut self, start: Start, cycle: u64) -> (end: CycleEnd)
        ensures
            final(self).played() == old(self).played().push(
                Played::Cycle {
                    start,
                    cycle,
                    end: end@,
                    halted: final(self).halted(),
                    saved: final(self).saved(),
                },
            ),
    ;

    /// Waits (watching the screen) between cycles, in milliseconds.
    fn wait(&mut self, millis: u64)
        ensures
            final(self).played() == old(self).played().push(
                Played::Wait {
                    millis,
                    halted: final(self).halted(),
                    saved: final(self).saved(),
                },
            ),
            final(self).halted() || final(self).patience() < old(self).patience(),
    ;

    /// The stop flag.
    fn stopped(&self) -> (r: bool)
        ensures
            r == self.halted(),
    ;

    /// A progress file exists to CONTINUE from.
    fn has_checkpoint(&self) -> (r: bool)
        ensures
            r == self.saved(),
    ;

    /// Says what comes next.
    fn log(&mut self, message: &str)
        ensures
            final(self).played() == old(self).played().push(Played::Log { text: message@ }),
            final(self).patience() == old(self).patience(),
    ;
}

#[derive(Debug, Clone, Copy, PartialEq, Eq, Structural)]
pub struct Session {
    pub start: Start,
    /// Never stop: the pause before each restart (soft reset, CONTINUE), in
    /// milliseconds.
    pub restart: Option<u64>,
}

#[derive(Debug, Clone, PartialEq, Eq)]
pub struct SessionReport {
    /// Cycles played.
    pub cycles: u64,
    /// How the last cycle ended.
    pub last: CycleEnd,
}

/// Where a session stands.
pub enum Stage {
    /// Cycle `cycle` is to be played from `start`.
    Playing { start: Start, cycle: u64 },
    /// Cycle `cycle` ended with a faint: that the next continues at once is to
    /// be said.
    Restarting { cycle: u64 },
    /// Cycle `cycle` ended; what follows the pause is to be said.
    Announcing { cycle: u64, end: CycleEndV, then_from: Option<Start> },
    /// Cycle `cycle` ended; a pause is to be made, and then the next cycle to
    /// start from `then_from`, or a save to be looked for again.
    Pausing { cycle: u64, end: CycleEndV, then_from: Option<Start> },
    /// Over, after so many cycles.
    Over { cycles: u64, last: CycleEndV },
}

impl Session {
    /// The next start: CONTINUE where there is a save; a new game that failed
    /// before its first save is started again.
    pub open spec fn next_start(self, saved: bool) -> Option<Start> {
        if saved {
            Some(Start::Continue)
        } else if self.start == Start::NewGame {
            Some(Start::NewGame)
        } else {
            None
        }
    }

    /// The pause before a restart, in whole seconds.
    pub open spec fn seconds(self) -> int {
        self.restart->0 as int / 1000
    }

    /// What follows the end of a cycle.
    pub open spec fn after_cycle(self, cycle: u64, end: CycleEndV, halted: bool, saved: bool)
        -> Stage {
        if self.restart is None || end is Stopped || halted || cycle == u64::MAX {
            Stage::Over { cycles: cycle, last: end }
        } else if end.faint() && saved {
            // A faint reloads the last save at once.
            Stage::Restarting { cycle }
        } else {
            Stage::Announcing { cycle, end, then_from: self.next_start(saved) }
        }
    }

    /// What follows a pause.
    pub open spec fn after_pause(
        self,
        cycle: u64,
        end: CycleEndV,
        then_from: Option<Start>,
        halted: bool,
        saved: bool,
    ) -> Stage {
        if halted {
            Stage::Over { cycles: cycle, last: end }
        } else {
            match then_from {
                Some(start) => Stage::Playing { start, cycle: (cycle + 1) as u64 },
                None => Stage::Announcing { cycle, end, then_from: self.next_start(saved) },
            }
        }
    }

    /// What was played is what the session's stage calls for.
    pub open spec fn calls_for(self, stage: Stage, p: Played) -> bool {
        match (stage, p) {
            (Stage::Playing { start, cycle }, Played::Cycle { start: s, cycle: c, .. }) => s
                == start && c == cycle,
            (Stage::Restarting { cycle }, Played::Log { text }) => text == now_text(cycle + 1),
            (Stage::Announcing { cycle, then_from, .. }, Played::Log { text }) => text
                == pause_text(then_from, cycle + 1, self.seconds()),
            (Stage::Pausing { .. }, Played::Wait { millis, .. }) => Some(millis) == self.restart,
            _ => false,
        }
    }

    /// The stage after something was played.
    pub open spec fn advanced(self, stage: Stage, p: Played) -> Stage {
        match (stage, p) {
            (Stage::Playing { .. }, Played::Cycle { cycle, end, halted, saved, .. }) =>
                self.after_cycle(cycle, end, halted, saved),
            (Stage::Restarting { cycle }, Played::Log { .. }) => Stage::Playing {
                start: Start::Continue,
                cycle: (cycle + 1) as u64,
            },
            (Stage::Announcing { cycle, end, then_from }, Played::Log { .. }) =>
                Stage::Pausing { cycle, end, then_from },
            (
                Stage::Pausing { cycle, end, then_from },
                Played::Wait { halted, saved, .. },
            ) => self.after_pause(cycle, end, then_from, halted, saved),
            _ => stage,
        }
    }

    /// The stage after the first `n` things that were played.
    pub open spec fn stage_after(self, played: Seq<Played>, n: nat) -> Stage
        decreases n,
    {
        if n == 0 {
            Stage::Playing { start: self.start, cycle: 1 }
        } else {
            self.advanced(self.stage_after(played, (n - 1) as nat), played[n - 1])
        }
    }

    /// Everything played was called for when it was.
    pub open spec fn lawful(self, played: Seq<Played>) -> bool {
        forall|i: int|
            0 <= i < played.len() ==> self.calls_for(
                self.stage_after(played, i as nat),
                #[trigger] played[i],
            )
    }
}

/// The stage depends on what was played until then only.
proof fn stages_agree(session: Session, a: Seq<Played>, b: Seq<Played>, n: nat)
    requires
        n <= a.len(),
        n <= b.len(),
        forall|i: int| 0 <= i < n ==> a[i] == b[i],
    ensures
        session.stage_after(a, n) == session.stage_after(b, n),
    decreases n,
{
    if n > 0 {
        stages_agree(session, a, b, (n - 1) as nat);
    }
}

/// One more thing was played that the stage called for.
proof fn one_more(session: Session, before: Seq<Played>, p: Played, stage: Stage)
    requires
        session.lawful(before),
        session.stage_after(before, before.len()) == stage,
        session.calls_for(stage, p),
    ensures
        session.lawful(before.push(p)),
        session.stage_after(before.push(p), before.push(p).len()) == session.advanced(stage, p),
{
    let after = before.push(p);
    stages_agree(session, before, after, before.len());
    assert forall|i: int| 0 <= i < after.len() implies session.calls_for(
        session.stage_after(after, i as nat),
        #[trigger] after[i],
    ) by {
        stages_agree(session, before, after, i as nat);
        if i < before.len() {
            assert(after[i] == before[i]);
        }
    }
}

/// What is said before a restart that does not wait.
pub open spec fn now_text(cycle: int) -> Seq<char> {
    "restart: cycle "@ + decimal_of(cycle as nat)
        + ": a Pokémon fainted; soft reset and CONTINUE the last save now"@
}

/// What is said before a pause.
pub open spec fn pause_text(next: Option<Start>, cycle: int, seconds: int) -> Seq<char> {
    match next {
        Some(Start::Continue) => "restart: cycle "@ + decimal_of(cycle as nat) + " in "@
            + decimal_of(seconds as nat)
            + " s: soft reset and CONTINUE the last save, then the goal again"@,
        Some(_) => "restart: cycle "@ + decimal_of(cycle as nat) + " in "@ + decimal_of(
            seconds as nat,
        ) + " s: no save yet, so a new game again"@,
        None => "restart: no progress file to continue from; looking again in "@ + decimal_of(
            seconds as nat,
        ) + " s"@,
    }
}

/// What is said before a restart that does not wait, of the cycle that comes.
pub fn restart_now_text(cycle: u64) -> (s: String)
    ensures
        s@ == now_text(cycle as int),
{
    cat3(
        "restart: cycle ",
        decimal(cycle).as_str(),
        ": a Pokémon fainted; soft reset and CONTINUE the last save now",
    )
}

/// What is said before a pause, of the cycle that comes.
pub fn restart_text(next: Option<Start>, cycle: u64, seconds: u64) -> (s: String)
    ensures
        s@ == pause_text(next, cycle as int, seconds as int),
{
    match next {
        Some(Start::Continue) => {
            let mut s = cat3("restart: cycle ", decimal(cycle).as_str(), " in ");
            s.append(decimal(seconds).as_str());
            s.append(" s: soft reset and CONTINUE the last save, then the goal again");
            s
        },
        Some(_) => {
            let mut s = cat3("restart: cycle ", decimal(cycle).as_str(), " in ");
            s.append(decimal(seconds).as_str());
            s.append(" s: no save yet, so a new game again");
            s
        },
        None => cat3(
            "restart: no progress file to continue from; looking again in ",
            decimal(seconds).as_str(),
            " s",
        ),
    }
}

impl Session {
    /// The next start, where there is one.
    pub fn choose_start(&self, saved: bool) -> (r: Option<Start>)
        ensures
            r == self.next_start(saved),
    {
        if saved {
            Some(Start::Continue)
        } else if self.start == Start::NewGame {
            Some(Start::NewGame)
        } else {
            None
        }
    }
}

/// Pauses until there is something to start the next cycle from: `None` where
/// a stop was wanted.
fn pause<R: Runner>(
    session: Session,
    wait: u64,
    cycle: u64,
    end: &CycleEnd,
    runner: &mut R,
    before: Ghost<Seq<Played>>,
) -> (next: Option<Start>)
    requires
        session.restart == Some(wait),
        cycle < u64::MAX,
        old(runner).played().len() >= before@.len(),
        old(runner).played().subrange(0, before@.len() as int) == before@,
        ({
            let done = old(runner).played().skip(before@.len() as int);
            &&& session.lawful(done)
            &&& session.stage_after(done, done.len()) == (Stage::Announcing {
                cycle,
                end: end@,
                then_from: session.next_start(old(runner).saved()),
            })
        }),
    ensures
        final(runner).played().len() >= before@.len(),
        final(runner).played().subrange(0, before@.len() as int) == before@,
        ({
            let done = final(runner).played().skip(before@.len() as int);
            &&& session.lawful(done)
            &&& session.stage_after(done, done.len()) == (match next {
                Some(start) => Stage::Playing { start, cycle: (cycle + 1) as u64 },
                None => Stage::Over { cycles: cycle, last: end@ },
            })
        }),
{
    let ghost b = before@;
    loop
        invariant
            b == before@,
            session.restart == Some(wait),
            cycle < u64::MAX,
            runner.played().len() >= b.len(),
            runner.played().subrange(0, b.len() as int) == b,
            session.lawful(runner.played().skip(b.len() as int)),
            session.stage_after(
                runner.played().skip(b.len() as int),
                runner.played().skip(b.len() as int).len(),
            ) == (Stage::Announcing {
                cycle,
                end: end@,
                then_from: session.next_start(runner.saved()),
            }),
        decreases runner.patience(),
    {
        let next = session.choose_start(runner.has_checkpoint());
        let ghost before_log = runner.played();
        runner.log(restart_text(next, cycle + 1, wait / 1000).as_str());
        proof {
            let done = before_log.skip(b.len() as int);
            let p = runner.played().last();
            assert(runner.played().skip(b.len() as int) =~= done.push(p));
            assert(runner.played().subrange(0, b.len() as int) =~= b);
            one_more(
                session,
                done,
                p,
                Stage::Announcing { cycle, end: end@, then_from: next },
            );
        }
        let ghost earlier = runner.played();
        runner.wait(wait);
        proof {
            let done = earlier.skip(b.len() as int);
            let p = runner.played().last();
            assert(runner.played().skip(b.len() as int) =~= done.push(p));
            assert(runner.played().subrange(0, b.len() as int) =~= b);
            one_more(
                session,
                done,
                p,
                Stage::Pausing { cycle, end: end@, then_from: next },
            );
        }
        if runner.stopped() {
            return None;
        }
        match next {
            Some(start) => {
                return Some(start);
            },
            None => {},
        }
    }
}

/// Runs cycles until stopped, or once without `restart`. Every end of a
/// cycle (satisfied, given up or failed) is followed by the pause and a
/// restart: soft reset → CONTINUE → the goal again, so the console never
/// idles. A faint reloads the last save at once (no Pokémon faints; the
/// whited-out game is not played on). A new game that failed before its first
/// save is started again; without any save to continue from, the session waits
/// and looks again. (A session also ends where its cycles can be counted no
/// further.)
pub fn run<R: Runner>(session: Session, runner: &mut R) -> (report: SessionReport)
    ensures
        final(runner).played().len() >= old(runner).played().len(),
        final(runner).played().subrange(0, old(runner).played().len() as int) == old(
            runner,
        ).played(),
        ({
            let done = final(runner).played().skip(old(runner).played().len() as int);
            &&& session.lawful(done)
            &&& session.stage_after(done, done.len()) == (Stage::Over {
                cycles: report.cycles,
                last: report.last@,
            })
            &&& numbered(session, cycles_in(done))
            &&& cycles_in(done).len() == report.cycles
            &&& report.cycles > 0
            &&& cycles_in(done).last()->Cycle_end == report.last@
            &&& rightly_over(session, done, report.last@)
        }),
{
    let ghost b = runner.played();
    let mut start = session.start;
    let mut cycle: u64 = 1;
    proof {
        assert(runner.played().subrange(0, b.len() as int) =~= b);
        assert(runner.played().skip(b.len() as int) =~= Seq::empty());
    }
    loop
        invariant
            b == old(runner).played(),
            runner.played().len() >= b.len(),
            runner.played().subrange(0, b.len() as int) == b,
            session.lawful(runner.played().skip(b.len() as int)),
            session.stage_after(
                runner.played().skip(b.len() as int),
                runner.played().skip(b.len() as int).len(),
            ) == (Stage::Playing { start, cycle }),
            1 <= cycle,
        decreases u64::MAX - cycle,
    {
        let ghost earlier = runner.played();
        let end = runner.cycle(start, cycle);
        proof {
            let done = earlier.skip(b.len() as int);
            let p = runner.played().last();
            assert(runner.played().skip(b.len() as int) =~= done.push(p));
            assert(runner.played().subrange(0, b.len() as int) =~= b);
            one_more(session, done, p, Stage::Playing { start, cycle });
        }
        let stopped = end.is_stopped() || runner.stopped();
        let wait: u64 = match session.restart {
            Some(wait) => wait,
            None => {
                proof {
                    stages_count_the_cycles(session, runner.played().skip(b.len() as int));
                }
                return SessionReport { cycles: cycle, last: end };
            },
        };
        if stopped || cycle == u64::MAX {
            proof {
                stages_count_the_cycles(session, runner.played().skip(b.len() as int));
            }
            return SessionReport { cycles: cycle, last: end };
        }
        if end.is_faint() && runner.has_checkpoint() {
            let ghost earlier = runner.played();
            runner.log(restart_now_text(cycle + 1).as_str());
            proof {
                let done = earlier.skip(b.len() as int);
                let p = runner.played().last();
                assert(runner.played().skip(b.len() as int) =~= done.push(p));
                assert(runner.played().subrange(0, b.len() as int) =~= b);
                one_more(session, done, p, Stage::Restarting { cycle });
            }
            start = Start::Continue;
            cycle += 1;
        } else {
            match pause(session, wait, cycle, &end, runner, Ghost(b)) {
                Some(next) => {
                    start = next;
                    cycle += 1;
                },
                None => {
                    proof {
                        stages_count_the_cycles(session, runner.played().skip(b.len() as int));
                    }
                    return SessionReport { cycles: cycle, last: end };
                },
            }
        }
    }
}

/// Without a restart exactly one cycle is played, from the session's start.
pub proof fn without_a_restart_one_cycle(session: Session, played: Seq<Played>)
    requires
        session.restart is None,
        session.lawful(played),
        played.len() > 0,
    ensures
        played.len() == 1,
        played[0] is Cycle,
        played[0]->Cycle_start == session.start,
        session.stage_after(played, 1) is Over,
{
    assert(session.stage_after(played, 0) == (Stage::Playing { start: session.start, cycle: 1 }));
    assert(session.calls_for(session.stage_after(played, 0), played[0]));
    assert(session.stage_after(played, 1) == session.advanced(
        session.stage_after(played, 0),
        played[0],
    ));
    if played.len() > 1 {
        assert(session.calls_for(session.stage_after(played, 1), played[1]));
    }
}

/// With a restart, an end that is neither a stop nor a faint with a save is
/// always followed by the pause, once that was said; a faint with a save is
/// followed at once by CONTINUE.
pub proof fn every_end_is_followed(
    session: Session,
    cycle: u64,
    end: CycleEndV,
    saved: bool,
)
    requires
        session.restart is Some,
        !(end is Stopped),
        cycle < u64::MAX,
    ensures
        ({
            let next = session.after_cycle(cycle, end, false, saved);
            if end.faint() && saved {
                next == (Stage::Restarting { cycle })
            } else {
                next is Announcing
            }
        }),
{
}

/// A new game is only played again where there is no save: once there is one,
/// every later cycle continues it.
pub proof fn a_saved_game_is_continued(
    session: Session,
    cycle: u64,
    end: CycleEndV,
    halted: bool,
    text: Seq<char>,
)
    ensures
        session.after_cycle(cycle, end, halted, true) matches Stage::Restarting { cycle: c }
            ==> session.advanced(Stage::Restarting { cycle: c }, Played::Log { text })
            matches Stage::Playing { start, .. } && start == Start::Continue,
        session.after_cycle(cycle, end, halted, true) matches Stage::Announcing { then_from, .. }
            ==> then_from == Some(Start::Continue),
        session.after_pause(cycle, end, None, halted, true) matches Stage::Announcing {
            then_from,
            ..
        } ==> then_from == Some(Start::Continue),
{
}

/// A stop ends the session, whatever else holds, without another pause or
/// cycle.
pub proof fn a_stop_ends_the_session(
    session: Session,
    cycle: u64,
    end: CycleEndV,
    then_from: Option<Start>,
    saved: bool,
)
    ensures
        session.after_cycle(cycle, end, true, saved) == (Stage::Over { cycles: cycle, last: end }),
        session.after_pause(cycle, end, then_from, true, saved) == (Stage::Over {
            cycles: cycle,
            last: end,
        }),
{
}

/// The cycles among what was played.
pub open spec fn cycles_in(played: Seq<Played>) -> Seq<Played>
    decreases played.len(),
{
    if played.len() == 0 {
        Seq::empty()
    } else {
        let before = cycles_in(played.drop_last());
        if played.last() is Cycle {
            before.push(played.last())
        } else {
            before
        }
    }
}

/// The cycles are numbered from 1 without a gap, the first from the session's
/// start.
pub open spec fn numbered(session: Session, cycles: Seq<Played>) -> bool {
    &&& forall|i: int|
        0 <= i < cycles.len() ==> (#[trigger] cycles[i]) is Cycle && cycles[i]->Cycle_cycle == i + 1
    &&& cycles.len() > 0 ==> cycles[0]->Cycle_start == session.start
}

/// How a session that is over came to its end: a stop, or cycles that can be
/// counted no further.
pub open spec fn rightly_over(session: Session, played: Seq<Played>, last: CycleEndV) -> bool {
    ||| session.restart is None
    ||| last is Stopped
    ||| match played.last() {
        Played::Cycle { halted, cycle, .. } => halted || cycle == u64::MAX,
        Played::Wait { halted, .. } => halted,
        Played::Log { .. } => false,
    }
}

/// Where a session stands agrees with the cycles it played.
proof fn stages_count_the_cycles(session: Session, played: Seq<Played>)
    requires
        session.lawful(played),
    ensures
        numbered(session, cycles_in(played)),
        ({
            let cycles = cycles_in(played);
            match session.stage_after(played, played.len()) {
                Stage::Playing { start, cycle } => cycle == cycles.len() + 1 && (cycles.len() == 0
                    ==> start == session.start),
                Stage::Restarting { cycle } => cycle == cycles.len() && cycle < u64::MAX
                    && cycles.len() > 0 && session.restart is Some,
                Stage::Announcing { cycle, end, .. } => cycle == cycles.len() && cycle < u64::MAX
                    && cycles.len() > 0 && end == cycles.last()->Cycle_end && session.restart
                    is Some,
                Stage::Pausing { cycle, end, .. } => cycle == cycles.len() && cycle < u64::MAX
                    && cycles.len() > 0 && end == cycles.last()->Cycle_end && session.restart
                    is Some,
                Stage::Over { cycles: n, last } => n == cycles.len() && n > 0 && last
                    == cycles.last()->Cycle_end && rightly_over(session, played, last)
                    && played.len() > 0,
            }
        }),
    decreases played.len(),
{
    if played.len() > 0 {
        let before = played.drop_last();
        let p = played.last();
        assert forall|i: int| 0 <= i < before.len() implies session.calls_for(
            session.stage_after(before, i as nat),
            #[trigger] before[i],
        ) by {
            assert(session.calls_for(session.stage_after(played, i as nat), played[i]));
            stages_agree(session, played, before, i as nat);
        }
        stages_count_the_cycles(session, before);
        stages_agree(session, played, before, before.len());
        assert(session.calls_for(
            session.stage_after(played, before.len()),
            played[before.len() as int],
        ));
        assert(session.stage_after(played, played.len()) == session.advanced(
            session.stage_after(before, before.len()),
            p,
        ));
        if p is Cycle {
            assert(cycles_in(played) =~= cycles_in(before).push(p));
        }
    }
}

/// Over all that a session played: its cycles are numbered 1, 2, … without a
/// gap, the first from the session's start; once it is over, the report counts
/// them all and tells the last one's end; without a restart there was that one
/// cycle alone, with no pause and nothing said; and with one it is over only by
/// a stop (or where the cycles can be counted no further).
pub proof fn cycles_are_numbered_and_counted(
    session: Session,
    played: Seq<Played>,
    cycles: u64,
    last: CycleEndV,
)
    requires
        session.lawful(played),
        session.stage_after(played, played.len()) == (Stage::Over { cycles, last }),
    ensures
        numbered(session, cycles_in(played)),
        cycles_in(played).len() == cycles,
        cycles > 0,
        cycles_in(played).last()->Cycle_end == last,
        session.restart is None ==> played.len() == 1,
        rightly_over(session, played, last),
{
    stages_count_the_cycles(session, played);
    if session.restart is None {
        without_a_restart_one_cycle(session, played);
    }
}

/// Every restart is announced: before each pause it was said what follows it,
/// with the number of the next cycle; and each cycle but the first comes after
/// a pause, or at once where it was just said that a faint continues the last
/// save.
pub proof fn every_restart_is_announced(session: Session, played: Seq<Played>, i: int)
    requires
        session.lawful(played),
        0 <= i < played.len(),
    ensures
        match played[i] {
            Played::Wait { .. } => i > 0 && exists|next: Option<Start>|
                played[i - 1] == (Played::Log {
                    text: #[trigger] pause_text(
                        next,
                        cycles_in(played.take(i)).len() as int + 1,
                        session.seconds(),
                    ),
                }),
            Played::Cycle { start, cycle, .. } => cycle > 1 ==> i > 0 && (played[i - 1] is Wait
                || (played[i - 1] == (Played::Log { text: now_text(cycle as int) }) && start
                == Start::Continue)),
            Played::Log { .. } => i > 0 && !(played[i - 1] is Log),
        },
{
    assert(session.calls_for(session.stage_after(played, i as nat), played[i]));
    if i > 0 {
        let n = (i - 1) as nat;
        assert(session.calls_for(session.stage_after(played, n), played[i - 1]));
        assert(session.stage_after(played, i as nat) == session.advanced(
            session.stage_after(played, n),
            played[i - 1],
        ));
        let before = played.take(i);
        assert forall|j: int| 0 <= j < before.len() implies session.calls_for(
            session.stage_after(before, j as nat),
            #[trigger] before[j],
        ) by {
            assert(session.calls_for(session.stage_after(played, j as nat), played[j]));
            stages_agree(session, played, before, j as nat);
        }
        stages_count_the_cycles(session, before);
        stages_agree(session, played, before, i as nat);
        if let Stage::Pausing { cycle, then_from, .. } = session.stage_after(played, i as nat) {
            assert(played[i - 1] == (Played::Log {
                text: pause_text(then_from, cycle + 1, session.seconds()),
            }));
        }
    }
}

// ---- A new game ----

/// Starting position after a new game: the bedroom, next to the bed.
pub fn bedroom() -> (p: PlayerPose)
    ensures
        p.map@ == "PalletTown_PlayersHouse_2F"@,
        p.x == 6,
        p.y == 6,
{
    PlayerPose { map: "PalletTown_PlayersHouse_2F".to_owned(), x: 6, y: 6 }
}

/// Money a new game starts with.
pub const NEW_GAME_MONEY: u32 = 3000;

/// The name of a flag or variable, and whether it belongs to a script alone.
#[derive(Debug, Clone)]
pub struct StoryName {
    pub text: String,
    pub local: bool,
}

/// What a script asks.
#[derive(Debug, Clone)]
pub enum Condition {
    Flag(StoryName),
    Var(StoryName),
    Other,
}

/// What a script does.
#[derive(Debug, Clone)]
pub enum Effect {
    SetFlag(StoryName),
    ClearFlag(StoryName),
    SetVar(StoryName),
    Other,
}

/// One way through a script.
#[derive(Debug, Clone)]
pub struct ScriptPath {
    pub asks: Vec<Condition>,
    pub does: Vec<Effect>,
}

/// The compiled events, as far as they name flags and variables.
#[derive(Debug, Clone)]
pub struct StoryEvents {
    /// Flags a new game starts with.
    pub initial: Vec<String>,
    /// The paths of all scripts.
    pub paths: Vec<ScriptPath>,
    /// What each trigger asks.
    pub triggers: Vec<Vec<Condition>>,
    /// The variables that map scripts run by.
    pub map_vars: Vec<StoryName>,
    /// The flag that hides each object, where one does.
    pub hidden_by: Vec<Option<StoryName>>,
}

/// A name of the save's own that begins as flags (or variables) do.
pub open spec fn name_set(n: StoryName, prefix: Seq<char>) -> Set<Seq<char>> {
    if !n.local && begins(n.text@, prefix) {
        set![n.text@]
    } else {
        Set::empty()
    }
}

pub open spec fn condition_flags(c: Condition) -> Set<Seq<char>> {
    match c {
        Condition::Flag(n) => name_set(n, "FLAG_"@),
        _ => Set::empty(),
    }
}

pub open spec fn condition_vars(c: Condition) -> Set<Seq<char>> {
    match c {
        Condition::Var(n) => name_set(n, "VAR_"@),
        _ => Set::empty(),
    }
}

pub open spec fn effect_flags(e: Effect) -> Set<Seq<char>> {
    match e {
        Effect::SetFlag(n) => name_set(n, "FLAG_"@),
        Effect::ClearFlag(n) => name_set(n, "FLAG_"@),
        _ => Set::empty(),
    }
}

pub open spec fn effect_vars(e: Effect) -> Set<Seq<char>> {
    match e {
        Effect::SetVar(n) => name_set(n, "VAR_"@),
        _ => Set::empty(),
    }
}

/// The flags named in a path.
pub open spec fn path_flags(p: ScriptPath) -> Set<Seq<char>> {
    Set::new(
        |s: Seq<char>|
            (exists|i: int|
                0 <= i < p.asks@.len() && condition_flags(#[trigger] p.asks@[i]).contains(s)) || (
            exists|i: int|
                0 <= i < p.does@.len() && effect_flags(#[trigger] p.does@[i]).contains(s)),
    )
}

/// The variables named in a path.
pub open spec fn path_vars(p: ScriptPath) -> Set<Seq<char>> {
    Set::new(
        |s: Seq<char>|
            (exists|i: int|
                0 <= i < p.asks@.len() && condition_vars(#[trigger] p.asks@[i]).contains(s)) || (
            exists|i: int|
                0 <= i < p.does@.len() && effect_vars(#[trigger] p.does@[i]).contains(s)),
    )
}

pub open spec fn hidden_flags(h: Option<StoryName>) -> Set<Seq<char>> {
    match h {
        Some(n) => name_set(n, "FLAG_"@),
        None => Set::empty(),
    }
}

pub open spec fn trigger_vars(asks: Vec<Condition>) -> Set<Seq<char>> {
    Set::new(
        |s: Seq<char>|
            exists|i: int|
                0 <= i < asks@.len() && condition_vars(#[trigger] asks@[i]).contains(s),
    )
}

/// The flags the events name: in the paths of scripts, and as what hides an
/// object.
pub open spec fn story_flags(e: StoryEvents) -> Set<Seq<char>> {
    Set::new(
        |s: Seq<char>|
            (exists|i: int|
                0 <= i < e.paths@.len() && path_flags(#[trigger] e.paths@[i]).contains(s)) || (
            exists|i: int|
                0 <= i < e.hidden_by@.len() && hidden_flags(#[trigger] e.hidden_by@[i]).contains(
                    s,
                )),
    )
}

/// The variables the events name: in the paths of scripts, in triggers, and as
/// what map scripts run by.
pub open spec fn story_vars(e: StoryEvents) -> Set<Seq<char>> {
    Set::new(
        |s: Seq<char>|
            (exists|i: int|
                0 <= i < e.paths@.len() && path_vars(#[trigger] e.paths@[i]).contains(s)) || (
            exists|i: int|
                0 <= i < e.triggers@.len() && trigger_vars(#[trigger] e.triggers@[i]).contains(s))
                || (exists|i: int|
                0 <= i < e.map_vars@.len() && name_set(
                    #[trigger] e.map_vars@[i],
                    "VAR_"@,
                ).contains(s)),
    )
}

pub open spec fn starts_on(initial: Seq<String>, name: Seq<char>) -> bool {
    exists|i: int| 0 <= i < initial.len() && (#[trigger] initial[i])@ == name
}

/// A fact of a new game.
pub open spec fn known_from_start<T>(value: T) -> Knowledge<T> {
    Knowledge { value: Some(value), source: KnowledgeSource::Derived, frame: Some(0) }
}

/// The names under which something is known.
pub open spec fn names_known<T>(facts: Seq<(String, Knowledge<T>)>) -> Set<Seq<char>> {
    Set::new(
        |s: Seq<char>| exists|i: int| 0 <= i < facts.len() && (#[trigger] facts[i]).0@ == s,
    )
}

/// Each fact is what `value` says of its name.
pub open spec fn facts_are<T>(
    facts: Seq<(String, Knowledge<T>)>,
    value: spec_fn(Seq<char>) -> T,
) -> bool {
    forall|i: int|
        0 <= i < facts.len() ==> (#[trigger] facts[i]).1 == known_from_start(
            value(facts[i].0@),
        )
}

/// Every flag at its new-game value.
pub open spec fn flag_start(initial: Seq<String>) -> spec_fn(Seq<char>) -> bool {
    |name: Seq<char>| starts_on(initial, name)
}

/// Every variable at its new-game value.
pub open spec fn var_start() -> spec_fn(Seq<char>) -> u16 {
    |name: Seq<char>| 0u16
}

proof fn facts_tell<T>(
    facts: Seq<(String, Knowledge<T>)>,
    value: spec_fn(Seq<char>) -> T,
    name: Seq<char>,
)
    requires
        facts_are(facts, value),
    ensures
        fact_of(facts, name) == (if names_known(facts).contains(name) {
            known_from_start(value(name))
        } else {
            Knowledge::<T> { value: None, source: KnowledgeSource::Unknown, frame: None }
        }),
{
    if names_known(facts).contains(name) {
        let i = choose|i: int| 0 <= i < facts.len() && (#[trigger] facts[i]).0@ == name;
        a_first_fact(facts, name, i);
        let c = choose|c: int| first_fact(facts, name, c);
        assert(facts[c].1 == known_from_start(value(facts[c].0@)));
    } else if exists|i: int| first_fact(facts, name, i) {
        let c = choose|c: int| first_fact(facts, name, c);
        assert(facts[c].0@ == name);
    }
}

proof fn a_first_fact<T>(facts: Seq<(String, Knowledge<T>)>, name: Seq<char>, i: int)
    requires
        0 <= i < facts.len(),
        facts[i].0@ == name,
    ensures
        exists|c: int| first_fact(facts, name, c),
    decreases i,
{
    if !first_fact(facts, name, i) {
        let j = choose|j: int| 0 <= j < i && (#[trigger] facts[j]).0@ == name;
        a_first_fact(facts, name, j);
    }
}

proof fn one_more_name<T>(
    facts: Seq<(String, Knowledge<T>)>,
    entry: (String, Knowledge<T>),
)
    ensures
        names_known(facts.push(entry)) == names_known(facts).insert(entry.0@),
{
    let more = facts.push(entry);
    assert forall|s: Seq<char>| names_known(more).contains(s) == names_known(facts).insert(
        entry.0@,
    ).contains(s) by {
        if names_known(facts).contains(s) {
            let i = choose|i: int| 0 <= i < facts.len() && (#[trigger] facts[i]).0@ == s;
            assert(more[i].0@ == s);
        }
        if s == entry.0@ {
            assert(more[facts.len() as int].0@ == s);
        }
        if names_known(more).contains(s) {
            let i = choose|i: int| 0 <= i < more.len() && (#[trigger] more[i]).0@ == s;
            if i < facts.len() {
                assert(facts[i].0@ == s);
            }
        }
    }
    assert(names_known(more) =~= names_known(facts).insert(entry.0@));
}

fn is_initial(initial: &Vec<String>, name: &str) -> (r: bool)
    ensures
        r == starts_on(initial@, name@),
{
    let mut i: usize = 0;
    while i < initial.len()
        invariant
            i <= initial@.len(),
            forall|j: int| 0 <= j < i ==> (#[trigger] initial@[j])@ != name@,
        decreases initial@.len() - i,
    {
        if same(initial[i].as_str(), name) {
            return true;
        }
        i += 1;
    }
    false
}

type Flags = Vec<(String, Knowledge<bool>)>;

type Vars = Vec<(String, Knowledge<u16>)>;

fn add_flag(flags: &mut Flags, name: &StoryName, initial: &Vec<String>)
    requires
        facts_are(old(flags)@, flag_start(initial@)),
    ensures
        facts_are(final(flags)@, flag_start(initial@)),
        names_known(final(flags)@) == names_known(old(flags)@).union(name_set(*name, "FLAG_"@)),
{
    let ghost start = names_known(flags@);
    if name.local || !starts_with(name.text.as_str(), "FLAG_") {
        assert(start.union(name_set(*name, "FLAG_"@)) =~= start);
        return;
    }
    match find_fact(flags, name.text.as_str()) {
        Some(i) => {
            assert(flags@[i as int].0@ == name.text@);
            assert(start.contains(name.text@));
            assert(start.union(name_set(*name, "FLAG_"@)) =~= start);
        },
        None => {
            let on = is_initial(initial, name.text.as_str());
            let entry = (name.text.clone(), Knowledge::derived(on, 0));
            proof {
                one_more_name(flags@, entry);
                assert(start.union(name_set(*name, "FLAG_"@)) =~= start.insert(name.text@));
            }
            flags.push(entry);
        },
    }
}

fn add_var(vars: &mut Vars, name: &StoryName)
    requires
        facts_are(old(vars)@, var_start()),
    ensures
        facts_are(final(vars)@, var_start()),
        names_known(final(vars)@) == names_known(old(vars)@).union(name_set(*name, "VAR_"@)),
{
    let ghost start = names_known(vars@);
    if name.local || !starts_with(name.text.as_str(), "VAR_") {
        assert(start.union(name_set(*name, "VAR_"@)) =~= start);
        return;
    }
    match find_fact(vars, name.text.as_str()) {
        Some(i) => {
            assert(vars@[i as int].0@ == name.text@);
            assert(start.contains(name.text@));
            assert(start.union(name_set(*name, "VAR_"@)) =~= start);
        },
        None => {
            let entry = (name.text.clone(), Knowledge::derived(0u16, 0));
            proof {
                one_more_name(vars@, entry);
                assert(start.union(name_set(*name, "VAR_"@)) =~= start.insert(name.text@));
            }
            vars.push(entry);
        },
    }
}

fn add_conditions(
    flags: &mut Flags,
    vars: &mut Vars,
    asks: &Vec<Condition>,
    with_flags: bool,
    initial: &Vec<String>,
)
    requires
        facts_are(old(flags)@, flag_start(initial@)),
        facts_are(old(vars)@, var_start()),
    ensures
        facts_are(final(flags)@, flag_start(initial@)),
        facts_are(final(vars)@, var_start()),
        forall|s: Seq<char>| #[trigger]
            names_known(final(flags)@).contains(s) == (names_known(old(flags)@).contains(s) || (
            with_flags && exists|i: int|
                0 <= i < asks@.len() && condition_flags(#[trigger] asks@[i]).contains(s))),
        forall|s: Seq<char>| #[trigger]
            names_known(final(vars)@).contains(s) == (names_known(old(vars)@).contains(s) || exists|
                i: int,
            |
                0 <= i < asks@.len() && condition_vars(#[trigger] asks@[i]).contains(s)),
{
    let ghost f0 = names_known(flags@);
    let ghost v0 = names_known(vars@);
    let mut i: usize = 0;
    while i < asks.len()
        invariant
            i <= asks@.len(),
            facts_are(flags@, flag_start(initial@)),
            facts_are(vars@, var_start()),
            forall|s: Seq<char>| #[trigger]
                names_known(flags@).contains(s) == (f0.contains(s) || (with_flags && exists|j: int|
                    0 <= j < i && condition_flags(#[trigger] asks@[j]).contains(s))),
            forall|s: Seq<char>| #[trigger]
                names_known(vars@).contains(s) == (v0.contains(s) || exists|j: int|
                    0 <= j < i && condition_vars(#[trigger] asks@[j]).contains(s)),
        decreases asks@.len() - i,
    {
        let c = &asks[i];
        match c {
            Condition::Flag(n) => {
                if with_flags {
                    add_flag(flags, n, initial);
                }
            },
            Condition::Var(n) => add_var(vars, n),
            Condition::Other => {},
        }
        assert(condition_flags(asks@[i as int]) == condition_flags(*c));
        i += 1;
    }
}

fn add_path(flags: &mut Flags, vars: &mut Vars, path: &ScriptPath, initial: &Vec<String>)
    requires
        facts_are(old(flags)@, flag_start(initial@)),
        facts_are(old(vars)@, var_start()),
    ensures
        facts_are(final(flags)@, flag_start(initial@)),
        facts_are(final(vars)@, var_start()),
        names_known(final(flags)@) == names_known(old(flags)@).union(path_flags(*path)),
        names_known(final(vars)@) == names_known(old(vars)@).union(path_vars(*path)),
{
    let ghost f_start = names_known(flags@);
    let ghost v_start = names_known(vars@);
    add_conditions(flags, vars, &path.asks, true, initial);
    let ghost f0 = names_known(flags@);
    let ghost v0 = names_known(vars@);
    let does = &path.does;
    let mut i: usize = 0;
    while i < does.len()
        invariant
            i <= does@.len(),
            facts_are(flags@, flag_start(initial@)),
            facts_are(vars@, var_start()),
            forall|s: Seq<char>| #[trigger]
                names_known(flags@).contains(s) == (f0.contains(s) || exists|j: int|
                    0 <= j < i && effect_flags(#[trigger] does@[j]).contains(s)),
            forall|s: Seq<char>| #[trigger]
                names_known(vars@).contains(s) == (v0.contains(s) || exists|j: int|
                    0 <= j < i && effect_vars(#[trigger] does@[j]).contains(s)),
        decreases does@.len() - i,
    {
        let e = &does[i];
        match e {
            Effect::SetFlag(n) => add_flag(flags, n, initial),
            Effect::ClearFlag(n) => add_flag(flags, n, initial),
            Effect::SetVar(n) => add_var(vars, n),
            Effect::Other => {},
        }
        assert(effect_flags(does@[i as int]) == effect_flags(*e));
        i += 1;
    }
    assert(names_known(flags@) =~= f_start.union(path_flags(*path)));
    assert(names_known(vars@) =~= v_start.union(path_vars(*path)));
}

/// Every story flag and var the compiled events name, at its new-game
/// value.
pub fn story_start(events: Option<&StoryEvents>) -> (w: WorldBelief)
    ensures
        forall|name: Seq<char>| #[trigger]
            fact_of(w.flags@, name) == (if events is Some && story_flags(*events->0).contains(
                name,
            ) {
                known_from_start(starts_on(events->0.initial@, name))
            } else {
                Knowledge::<bool> { value: None, source: KnowledgeSource::Unknown, frame: None }
            }),
        forall|name: Seq<char>| #[trigger]
            fact_of(w.vars@, name) == (if events is Some && story_vars(*events->0).contains(
                name,
            ) {
                known_from_start(0u16)
            } else {
                Knowledge::<u16> { value: None, source: KnowledgeSource::Unknown, frame: None }
            }),
        w.visited@.len() == 0,
        w.infeasible@.len() == 0,
{
    let mut flags: Flags = Vec::new();
    let mut vars: Vars = Vec::new();
    let events = match events {
        Some(e) => e,
        None => {
            return WorldBelief { flags, vars, visited: Vec::new(), infeasible: Vec::new() };
        },
    };
    let initial = &events.initial;
    assert(names_known(flags@) =~= Set::empty());
    assert(names_known(vars@) =~= Set::empty());
    let mut i: usize = 0;
    while i < events.paths.len()
        invariant
            i <= events.paths@.len(),
            initial == events.initial,
            facts_are(flags@, flag_start(initial@)),
            facts_are(vars@, var_start()),
            forall|s: Seq<char>| #[trigger]
                names_known(flags@).contains(s) == exists|j: int|
                    0 <= j < i && path_flags(#[trigger] events.paths@[j]).contains(s),
            forall|s: Seq<char>| #[trigger]
                names_known(vars@).contains(s) == exists|j: int|
                    0 <= j < i && path_vars(#[trigger] events.paths@[j]).contains(s),
        decreases events.paths@.len() - i,
    {
        let path = &events.paths[i];
        add_path(&mut flags, &mut vars, path, initial);
        assert(path_flags(events.paths@[i as int]) == path_flags(*path));
        i += 1;
    }
    let ghost f0 = names_known(flags@);
    let ghost v0 = names_known(vars@);
    let mut k: usize = 0;
    while k < events.triggers.len()
        invariant
            k <= events.triggers@.len(),
            initial == events.initial,
            facts_are(flags@, flag_start(initial@)),
            facts_are(vars@, var_start()),
            names_known(flags@) == f0,
            forall|s: Seq<char>| #[trigger]
                names_known(vars@).contains(s) == (v0.contains(s) || exists|j: int|
                    0 <= j < k && trigger_vars(#[trigger] events.triggers@[j]).contains(s)),
        decreases events.triggers@.len() - k,
    {
        let asks = &events.triggers[k];
        let ghost before = names_known(flags@);
        add_conditions(&mut flags, &mut vars, asks, false, initial);
        assert(names_known(flags@) =~= before);
        assert(trigger_vars(events.triggers@[k as int]) == trigger_vars(*asks));
        k += 1;
    }
    let ghost v1 = names_known(vars@);
    let mut m: usize = 0;
    while m < events.map_vars.len()
        invariant
            m <= events.map_vars@.len(),
            facts_are(vars@, var_start()),
            forall|s: Seq<char>| #[trigger]
                names_known(vars@).contains(s) == (v1.contains(s) || exists|j: int|
                    0 <= j < m && name_set(#[trigger] events.map_vars@[j], "VAR_"@).contains(s)),
        decreases events.map_vars@.len() - m,
    {
        let name = &events.map_vars[m];
        add_var(&mut vars, name);
        assert(name_set(events.map_vars@[m as int], "VAR_"@) == name_set(*name, "VAR_"@));
        m += 1;
    }
    let mut h: usize = 0;
    while h < events.hidden_by.len()
        invariant
            h <= events.hidden_by@.len(),
            initial == events.initial,
            facts_are(flags@, flag_start(initial@)),
            forall|s: Seq<char>| #[trigger]
                names_known(flags@).contains(s) == (f0.contains(s) || exists|j: int|
                    0 <= j < h && hidden_flags(#[trigger] events.hidden_by@[j]).contains(s)),
        decreases events.hidden_by@.len() - h,
    {
        let hidden = &events.hidden_by[h];
        match hidden {
            Some(name) => add_flag(&mut flags, name, initial),
            None => {},
        }
        assert(hidden_flags(events.hidden_by@[h as int]) == hidden_flags(*hidden));
        h += 1;
    }
    proof {
        assert(names_known(flags@) =~= story_flags(*events));
        assert(names_known(vars@) =~= story_vars(*events));
        assert forall|name: Seq<char>| #[trigger] fact_of(flags@, name) == (if story_flags(
            *events,
        ).contains(name) {
            known_from_start(starts_on(events.initial@, name))
        } else {
            Knowledge::<bool> { value: None, source: KnowledgeSource::Unknown, frame: None }
        }) by {
            facts_tell(flags@, flag_start(events.initial@), name);
        }
        assert forall|name: Seq<char>| #[trigger] fact_of(vars@, name) == (if story_vars(
            *events,
        ).contains(name) {
            known_from_start(0u16)
        } else {
            Knowledge::<u16> { value: None, source: KnowledgeSource::Unknown, frame: None }
        }) by {
            facts_tell(vars@, var_start(), name);
        }
    }
    WorldBelief { flags, vars, visited: Vec::new(), infeasible: Vec::new() }
}

/// A list known to be empty from the start.
pub open spec fn empty_from_start<T>(k: Knowledge<Vec<T>>) -> bool {
    k.value is Some && k.value->0@.len() == 0 && k.source == KnowledgeSource::Derived && k.frame
        == Some(0u64)
}

/// The five pockets.
pub open spec fn pocket_nth(i: int) -> Pocket {
    if i == 0 {
        Pocket::Items
    } else if i == 1 {
        Pocket::KeyItems
    } else if i == 2 {
        Pocket::PokeBalls
    } else if i == 3 {
        Pocket::TmCase
    } else {
        Pocket::BerryPouch
    }
}

/// What is known of a game just begun.
pub open spec fn just_begun(k: SavedKnowledge, events: Option<&StoryEvents>) -> bool {
    &&& empty_from_start(k.party)
    &&& k.money == known_from_start(NEW_GAME_MONEY)
    &&& k.pockets@.len() == 5
    &&& forall|i: int|
        0 <= i < 5 ==> (#[trigger] k.pockets@[i]).0 == pocket_nth(i) && empty_from_start(
            k.pockets@[i].1,
        )
    &&& k.boxes@.len() == PC_BOXES
    &&& forall|i: int| 0 <= i < PC_BOXES ==> empty_from_start(#[trigger] k.boxes@[i])
    &&& k.counts == known_from_start(PokedexCounts { seen: Some(0), caught: 0 })
    &&& k.caught@.len() == 0
    &&& forall|name: Seq<char>| #[trigger]
        fact_of(k.world.flags@, name) == (if events is Some && story_flags(
            *events->0,
        ).contains(name) {
            known_from_start(starts_on(events->0.initial@, name))
        } else {
            Knowledge::<bool> { value: None, source: KnowledgeSource::Unknown, frame: None }
        })
    &&& forall|name: Seq<char>| #[trigger]
        fact_of(k.world.vars@, name) == (if events is Some && story_vars(*events->0).contains(
            name,
        ) {
            known_from_start(0u16)
        } else {
            Knowledge::<u16> { value: None, source: KnowledgeSource::Unknown, frame: None }
        })
    &&& k.world.visited@.len() == 0
    &&& k.world.infeasible@.len() == 0
}

/// What a new game is known to hold, from the game's rules and the
/// compiled events alone: no Pokémon, an empty bag, empty PC boxes, ¥3000,
/// an empty Pokédex, and every story flag and var the scripts name at its
/// start value (the flags a new game sets on, every other flag off, every var
/// 0), as derived facts. What the scripts do next is followed as they run.
pub fn new_game_knowledge(events: Option<&StoryEvents>) -> (k: SavedKnowledge)
    ensures
        just_begun(k, events),
{
    let mut k = SavedKnowledge::default();
    k.party = Knowledge::derived(Vec::<PartyMon>::new(), 0);
    k.money = Knowledge::derived(NEW_GAME_MONEY, 0);
    let mut pockets: Vec<(Pocket, Knowledge<Vec<(String, u16)>>)> = Vec::new();
    pockets.push((Pocket::Items, Knowledge::derived(Vec::new(), 0)));
    pockets.push((Pocket::KeyItems, Knowledge::derived(Vec::new(), 0)));
    pockets.push((Pocket::PokeBalls, Knowledge::derived(Vec::new(), 0)));
    pockets.push((Pocket::TmCase, Knowledge::derived(Vec::new(), 0)));
    pockets.push((Pocket::BerryPouch, Knowledge::derived(Vec::new(), 0)));
    k.pockets = pockets;
    let mut boxes: Vec<Knowledge<Vec<String>>> = Vec::new();
    let mut i: usize = 0;
    while i < PC_BOXES
        invariant
            i <= PC_BOXES,
            boxes@.len() == i,
            forall|j: int| 0 <= j < i ==> empty_from_start(#[trigger] boxes@[j]),
        decreases PC_BOXES - i,
    {
        boxes.push(Knowledge::derived(Vec::new(), 0));
        i += 1;
    }
    k.boxes = boxes;
    k.counts = Knowledge::derived(PokedexCounts { seen: Some(0), caught: 0 }, 0);
    k.world = story_start(events);
    k
}

} // verus!
