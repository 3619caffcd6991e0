//! Moving and waiting: how far a hold goes, how long it lasts, and when an
//! action is over.

use vstd::prelude::*;

use crate::action::ExpectationV;
use crate::executor::Outcome;
use crate::input::Direction;
use crate::motion::syncer::{frames_in, Estimate, InputKind, Timing};
use crate::motion::walker::{TrackerV, WalkStepV, WalkerV};
use crate::nav::run_length;
use crate::observe::{Observation, PoseV, ScreenState};
use crate::pending::{elapsed, Moment, PendingV};
use crate::promises::gap;
use crate::promises::walk::{along, here, straight, straight_runs_are_measured};
use crate::world::Step;

verus! {

/// A walk along a path, with no hold under way: done where there is no step
/// left; a hold of two to four tiles straight on, to the tile that far along the
/// path, where no taps are to be made; else a turn where the player does not face
/// the way of the first step, and a tap where it does.
pub proof fn a_walk_follows_its_path(
    w: WalkerV,
    pose: PoseV,
    path: Seq<Step>,
    facing: Option<Direction>,
    timing: Timing,
    now: u64,
)
    requires
        w.hold is None,
    ensures
        ({
            let (next, s) = w.stepped(Some(pose), path, facing, timing, now);
            &&& path.len() == 0 <==> s is Arrived
            &&& match s {
                WalkStepV::Hold { dir, tiles, target, .. } => {
                    &&& w.single_steps == 0
                    &&& dir == path[0].dir
                    &&& 2 <= tiles <= 4
                    &&& tiles < path.len()
                    &&& straight(here(pose), path, tiles as int)
                    &&& target.map == pose.map
                    &&& here(target) == along(here(pose), dir, tiles as int)
                    &&& tiles < 4 && tiles + 1 < path.len() ==> !straight(
                        here(pose),
                        path,
                        tiles + 1,
                    )
                    &&& next.hold is Some && (next.hold->0).0.tiles == tiles && (next.hold->0).0.from
                        == pose && (next.hold->0).1 == now
                },
                WalkStepV::Tap { dir, to, .. } => {
                    &&& dir == path[0].dir && to == path[0].to
                    &&& facing == Some(dir)
                    &&& next.single_steps == if w.single_steps > 0 {
                        w.single_steps - 1
                    } else {
                        0
                    }
                },
                WalkStepV::Turn { dir, .. } => {
                    &&& dir == path[0].dir
                    &&& facing != Some(dir)
                    &&& next.pending is None && next.single_steps == w.single_steps
                },
                WalkStepV::Arrived => true,
                _ => false,
            }
            &&& w.single_steps == 0 && path.len() >= 3 && straight(here(pose), path, 2) ==> s is Hold
            &&& s is Hold || s is Tap ==> next.pending is Some && next.pending->0.from == pose
                && next.pending->0.dir == path[0].dir && next.pending->0.to == path[0].to
                && next.pending->0.facing == (facing == Some(path[0].dir))
        }),
{
    if path.len() > 0 {
        straight_runs_are_measured((pose.x, pose.y), path);
        let run = run_length((pose.x, pose.y), path);
        let tiles = if run < 4 {
            run
        } else {
            4
        };
        if run >= 2 {
            assert(path[tiles - 1].dir == path[0].dir);
            assert(straight(here(pose), path, tiles));
        }
        if path.len() >= 3 && straight(here(pose), path, 2) && run < 2 {
            assert(straight(here(pose), path, run + 1));
        }
    }
}

/// What comes of a step: nothing is in flight any more; a confirmed one leaves
/// nothing stalled; a hold that timed out or stalled is followed by two taps; a
/// tile is told to be blocked exactly where a tap toward it, which the player
/// faced or which missed for the second time, did not move the player.
pub proof fn what_comes_of_a_step(w: WalkerV, expect: ExpectationV, outcome: Outcome)
    requires
        w.pending is Some,
        w.stalled < u32::MAX,
    ensures
        ({
            let f = w.pending->0;
            let (next, done) = w.settled(expect, outcome);
            let missed = outcome == Outcome::TimedOut && expect is PlayerMovedFrom;
            &&& next.pending is None && next.hold is None && done is Some && done->0.dir == f.dir
            &&& done->0.blocked == if missed && (f.facing || w.stalled >= 1) {
                Some((f.from.map, f.to))
            } else {
                None
            }
            &&& outcome == Outcome::Confirmed ==> next.stalled == 0 && next.single_steps
                == w.single_steps
            &&& outcome != Outcome::Confirmed && expect is PlayerAt ==> next.single_steps == (if outcome
                == Outcome::TimedOut || outcome == Outcome::Stalled {
                2
            } else {
                w.single_steps
            }) && next.stalled == w.stalled
            &&& missed ==> next.stalled == if f.facing || w.stalled >= 1 {
                0
            } else {
                1int
            }
        }),
{
}

// ---- Prediction ----

/// A hold is predicted to have gone as many tiles as whole units have passed
/// since its latency, up to all its tiles.
pub proof fn tiles_are_predicted_by_the_clock(t: TrackerV, elapsed: u64)
    requires
        t.unit_ns > 0,
    ensures
        t.done(elapsed) <= t.tiles,
        elapsed <= t.latency_ns ==> t.done(elapsed) == 0,
        elapsed > t.latency_ns ==> t.done(elapsed) * t.unit_ns <= elapsed - t.latency_ns,
        elapsed > t.latency_ns && t.done(elapsed) < t.tiles ==> elapsed - t.latency_ns < (t.done(
            elapsed,
        ) + 1) * t.unit_ns,
{
    if elapsed > t.latency_ns {
        let a = elapsed - t.latency_ns;
        let u = t.unit_ns as int;
        let n = a / u;
        assert(n * u <= a < (n + 1) * u) by (nonlinear_arith)
            requires
                n == a / u,
                u > 0,
                a >= 0,
        ;
        assert(n >= 0) by (nonlinear_arith)
            requires
                n == a / u,
                u > 0,
                a >= 0,
        ;
        let d = t.done(elapsed) as int;
        assert(d * u <= n * u) by (nonlinear_arith)
            requires
                d <= n,
                u > 0,
        ;
    }
}

/// A hold stalls exactly where the player, seen on its map, is more than one tile
/// short of the prediction, and has been for the time that is allowed: what was
/// measured as the spread, and at least a tenth of a second. Seeing it on time
/// starts that time afresh; not seeing it says nothing.
pub proof fn when_a_hold_stalls(t: TrackerV, now: u64, pose: Option<PoseV>)
    requires
        t.unit_ns > 0,
    ensures
        ({
            let (next, track) = t.tracked_on(now, pose);
            let seen = pose is Some && pose->0.map == t.from.map;
            let went = gap(pose->0.x as int, t.from.x as int) + gap(
                pose->0.y as int,
                t.from.y as int,
            );
            let short = seen && t.done(now) > went + 1;
            &&& track is Stalled <==> short && (match t.lag_since_ns {
                Some(since) => now >= since + t.stall_after_ns,
                None => t.stall_after_ns == 0,
            })
            &&& short && t.lag_since_ns is None ==> next.lag_since_ns == Some(now)
            &&& short && t.lag_since_ns is Some ==> next.lag_since_ns == t.lag_since_ns
            &&& seen && !short ==> next.lag_since_ns is None
            &&& !seen ==> next == t
        }),
{
}

/// What a hold is predicted from: the measured latency (and the turn), the unit,
/// at least a millisecond of it, and a spread of at least a tenth of a second.
pub proof fn a_prediction_starts_from_the_model(from: PoseV, tiles: u64, e: Estimate, turn: u64)
    requires
        e.latency_ns + turn <= u64::MAX,
    ensures
        ({
            let t = TrackerV::of(from, tiles, e, turn);
            &&& t.from == from && t.tiles == tiles && t.lag_since_ns is None
            &&& t.latency_ns == e.latency_ns + turn
            &&& t.unit_ns >= 1_000_000 && t.unit_ns >= e.unit_ns && (t.unit_ns == 1_000_000
                || t.unit_ns == e.unit_ns)
            &&& t.stall_after_ns >= 100_000_000 && t.stall_after_ns >= e.spread_ns && (
            t.stall_after_ns == 100_000_000 || t.stall_after_ns == e.spread_ns)
        }),
{
}

// ---- Times ----

/// A hold lasts, to the nearest millisecond, for all its units but half of one
/// and two spreads more.
pub proof fn a_hold_ends_inside_its_last_unit(e: Estimate, units: int)
    requires
        units >= 1,
        e.hold_ms(units) < u64::MAX,
    ensures
        ({
            let wanted = 2 * (e.unit_ns * units) - e.unit_ns + 4 * e.spread_ns;
            &&& 2_000_000 * e.hold_ms(units) <= wanted + 1_000_000
            &&& wanted < 2_000_000 * e.hold_ms(units) + 1_000_000
        }),
{
    assert(e.unit_ns * units >= e.unit_ns) by (nonlinear_arith)
        requires
            units >= 1,
            e.unit_ns >= 0,
    ;
}

/// A time takes as many frames as it needs at 59.7275 of them a second, and one
/// less would be too few.
pub proof fn frames_cover_a_time(halves: int)
    requires
        halves > 0,
    ensures
        frames_in(halves) * 20_000_000_000_000 >= halves * 597_275,
        (frames_in(halves) - 1) * 20_000_000_000_000 < halves * 597_275,
{
    let x = halves * 597_275;
    let span: int = 20_000_000_000_000;
    let n = (x + span - 1) / span;
    assert(n * span >= x && (n - 1) * span < x) by (nonlinear_arith)
        requires
            n == (x + span - 1) / span,
            span == 20_000_000_000_000,
    ;
}

/// How long an action may take to show: never less than its default (30 frames
/// for a tile, 46 and two a tile for a hold, 6 for a turn, 30 for a menu, 180 for
/// a warp or a battle); and where the device was measured, never less than its
/// latency, the unit that follows (half of it after a hold), and two spreads.
pub proof fn actions_get_their_time(t: Timing, kind: InputKind, units: int)
    requires
        units >= 1,
    ensures
        ({
            let e = t.of(kind);
            let default: int = match kind {
                InputKind::WalkTile => if units >= 2 {
                    46 + 2 * units
                } else {
                    30
                },
                InputKind::Turn => 6,
                InputKind::MenuPress => 30,
                _ => 180,
            };
            let shown = 2 * e.latency_ns + (if units >= 2 {
                e.unit_ns as int
            } else {
                2 * e.unit_ns
            }) + 4 * e.spread_ns;
            &&& t.timeout(kind, units) >= default
            &&& e.samples == 0 ==> t.timeout(kind, units) == default
            &&& e.samples > 0 && shown > 0 ==> t.timeout(kind, units) * 20_000_000_000_000 >= shown
                * 597_275
            &&& t.timeout(kind, units) > default ==> (t.timeout(kind, units) - 1)
                * 20_000_000_000_000 < shown * 597_275
        }),
{
    let e = t.of(kind);
    let shown = e.shown_after(units);
    assert(shown >= 0);
    assert(frames_in(0) == 0) by {
        let span: int = 20_000_000_000_000;
        assert((span - 1) / span == 0) by (nonlinear_arith)
            requires
                span == 20_000_000_000_000,
        ;
    }
    if shown > 0 {
        frames_cover_a_time(shown);
    }
}

/// What a device adds to every action's time: its measured latency and two
/// spreads, and never less than what it is set to.
pub proof fn a_slow_device_gets_its_allowance(t: Timing, kind: InputKind)
    ensures
        ({
            let e = t.of(kind);
            let late = 2 * e.latency_ns + 4 * e.spread_ns;
            &&& t.allowance(None) == t.base_latency_frames
            &&& t.allowance(Some(kind)) >= t.base_latency_frames
            &&& e.samples == 0 ==> t.allowance(Some(kind)) == t.base_latency_frames
            &&& e.samples > 0 && late > 0 ==> t.allowance(Some(kind)) * 20_000_000_000_000 >= late
                * 597_275
        }),
{
    let e = t.of(kind);
    let late = 2 * e.latency_ns + 4 * e.spread_ns;
    if late > 0 {
        frames_cover_a_time(late);
        let m = frames_in(late);
        let r = t.allowance(Some(kind));
        assert(r >= m ==> r * 20_000_000_000_000 >= m * 20_000_000_000_000) by (nonlinear_arith);
    }
}

/// Time runs by the frames where the bot steps them, at 59.7275 a second, and
/// else by the clock; and never back.
pub proof fn time_is_measured(from: Moment, to: Moment)
    requires
        from.frame <= to.frame,
        to.frame - from.frame <= 1_000_000_000_000,
    ensures
        to.at_ns >= from.at_ns ==> elapsed(from, to, false) == to.at_ns - from.at_ns,
        to.at_ns < from.at_ns ==> elapsed(from, to, false) == 0,
        elapsed(from, to, true) * 597_275 <= (to.frame - from.frame) * 10_000_000_000_000,
        (elapsed(from, to, true) + 1) * 597_275 > (to.frame - from.frame) * 10_000_000_000_000,
{
    let x = (to.frame - from.frame) * 10_000_000_000_000;
    let n = x / 597_275;
    assert(n * 597_275 <= x < (n + 1) * 597_275) by (nonlinear_arith)
        requires
            n == x / 597_275,
    ;
    assert(0 <= n < u64::MAX) by (nonlinear_arith)
        requires
            n == x / 597_275,
            0 <= x <= 1_000_000_000_000 * 10_000_000_000_000,
    ;
}

// ---- The action in flight ----

/// What a frame makes of an action: cut short where it may be and something came
/// up while its inputs run; else stalled where its hold is; else confirmed from
/// the second frame in a row on which its inputs are done and its expectation
/// holds; else timed out after its frames, at least two, and the device's
/// allowance, counted from the frame its inputs were done; and else still in
/// flight. The buttons are let go where it is cut short or stalled, and where a
/// hold has arrived.
pub proof fn what_a_frame_makes_of_an_action(
    p: PendingV,
    now: Moment,
    o: Observation,
    idle: bool,
    frame_clock: bool,
    allowance: u64,
)
    requires
        p.confirmations < u32::MAX,
    ensures
        ({
            let (next, v) = p.judged(now, o, idle, frame_clock, allowance);
            let came_up = o.dialogue is Some || o.battle is Some || o.menu is Some || o.screen
                == ScreenState::Transition;
            let cut = p.action.interruptible && !idle && came_up;
            let stalled = v.track is Stalled;
            let met = p.action.expect.met(o);
            let since = match p.idle_since {
                Some(s) => s as int,
                None => now.frame as int,
            };
            let patience = if p.action.timeout_frames > 2 {
                p.action.timeout_frames as int
            } else {
                2
            };
            let late = (idle || p.idle_since is Some) && now.frame > since + patience + allowance;
            &&& v.outcome == if cut {
                Some(Outcome::Interrupted)
            } else if stalled {
                Some(Outcome::Stalled)
            } else if idle && met && p.confirmations >= 1 {
                Some(Outcome::Confirmed)
            } else if late {
                Some(Outcome::TimedOut)
            } else {
                None
            }
            &&& v.release <==> cut || stalled || (!idle && p.tracker is Some && met)
            &&& next.confirmations == if idle && met {
                p.confirmations + 1
            } else {
                0
            }
            &&& stalled ==> p.tracker is Some && !idle
            &&& next.action == p.action && next.issued == p.issued && next.issued_pose
                == p.issued_pose
            &&& next.idle_since == if p.idle_since is Some {
                p.idle_since
            } else if idle {
                Some(now.frame)
            } else {
                None
            }
        }),
{
}

/// What an action teaches: from its issue to the first frame on which it showed
/// (its expectation held, or the player had left its tile), and from there to
/// the first frame of those on which it held to the end.
pub proof fn effects_are_noted_when_they_show(
    p: PendingV,
    now: Moment,
    o: Observation,
    idle: bool,
    frame_clock: bool,
)
    ensures
        ({
            let next = p.noted(now, o, idle, frame_clock).0;
            let met = p.action.expect.met(o);
            let left = p.issued_pose is Some && o.player is Some && o.player->0@
                != p.issued_pose->0;
            &&& next.first_effect == if p.first_effect is Some {
                p.first_effect
            } else if met || left {
                Some(now)
            } else {
                None
            }
            &&& next.met_since == if !met {
                None
            } else if p.met_since is Some {
                p.met_since
            } else {
                Some(now)
            }
            &&& p.action.timing is Some && p.met_since is Some ==> p.sample(frame_clock) is Some
                && p.sample(frame_clock)->0.effect_to_done_ns == elapsed(
                match p.first_effect {
                    Some(m) => m,
                    None => p.met_since->0,
                },
                p.met_since->0,
                frame_clock,
            )
            &&& p.sample(frame_clock) is Some ==> {
                &&& p.sample(frame_clock)->0.kind == (p.action.timing->0).0
                &&& p.sample(frame_clock)->0.units == (p.action.timing->0).1
                &&& p.sample(frame_clock)->0.to_effect_ns == elapsed(
                    p.issued,
                    match p.first_effect {
                        Some(m) => m,
                        None => p.met_since->0,
                    },
                    frame_clock,
                )
            }
            &&& p.action.timing is None || p.met_since is None ==> p.sample(frame_clock) is None
        }),
{
}

/// A hold in the way the player faces lasts as long as its tiles need; one in
/// another way lasts longer by a turn, to the nearest millisecond.
pub proof fn a_hold_may_turn_first(
    w: WalkerV,
    pose: PoseV,
    path: Seq<Step>,
    facing: Option<Direction>,
    timing: Timing,
    now: u64,
)
    requires
        w.stepped(Some(pose), path, facing, timing, now).1 is Hold,
        w.hold is None,
    ensures
        ({
            let s = w.stepped(Some(pose), path, facing, timing, now).1;
            let held = timing.walk.hold_ms(s->Hold_tiles as int);
            let turn = s->millis - held;
            &&& facing == Some(s->Hold_dir) ==> turn == 0
            &&& facing != Some(s->Hold_dir) && s->millis < u64::MAX ==> 1_000_000 * turn <= timing.turn.unit_ns
                + 500_000 && timing.turn.unit_ns < 1_000_000 * turn + 500_000
        }),
{
}

/// A hold that is under way is watched, whatever the path says now: it is
/// cancelled where it stalls, with two taps after it, and else goes on.
pub proof fn a_hold_is_watched(
    w: WalkerV,
    pose: Option<PoseV>,
    path: Seq<Step>,
    facing: Option<Direction>,
    timing: Timing,
    now: u64,
)
    requires
        w.hold is Some,
        (w.hold->0).1 <= now,
    ensures
        ({
            let (next, s) = w.stepped(pose, path, facing, timing, now);
            let stalls = (w.hold->0).0.tracked_on((now - (w.hold->0).1) as u64, pose).1 is Stalled;
            &&& stalls ==> s is Cancel && next.hold is None && next.single_steps == 2
            &&& !stalls ==> s is Walking && next.hold is Some && (next.hold->0).1 == (w.hold->0).1
                && next.single_steps == w.single_steps
            &&& next.pending == w.pending
        }),
{
}

/// A prediction is made of a hold of two tiles or more that can be cut short,
/// from where the player was, where the device was measured; and of nothing else.
pub proof fn holds_are_predicted(p: PendingV, timing: Option<Timing>)
    ensures
        p.predictor(timing) is Some <==> p.action.timing is Some && (p.action.timing->0).0
            == InputKind::WalkTile && (p.action.timing->0).1 >= 2 && p.issued_pose is Some && timing
            is Some && p.action.interruptible,
        p.predictor(timing) is Some ==> p.predictor(timing)->0.from == p.issued_pose->0
            && p.predictor(timing)->0.tiles == (p.action.timing->0).1,
{
}

/// A device that was not measured: the emulator shows at once, any other is given
/// its frames; and a tile takes 268 milliseconds, a turn 8 frames.
pub proof fn a_new_device_is_taken_as_it_comes(t: Timing, profile: Seq<char>, kind: InputKind)
    requires
        t.is_new(profile),
    ensures
        profile == "emulator"@ ==> t.allowance(Some(kind)) == 0,
        profile != "emulator"@ ==> t.allowance(Some(kind)) == t.base_latency_frames
            && t.base_latency_frames > 0,
        t.walk.unit_ns == 268_000_000,
        t.of(kind).samples == 0 && t.of(kind).latency_ns == 0 && t.of(kind).spread_ns == 0,
        (t.turn.unit_ns - 1) * 597_275 < 8 * 10_000_000_000_000 < (t.turn.unit_ns + 1) * 597_275,
{
    assert(t.of(InputKind::WalkTile) == Estimate::unmeasured(InputKind::WalkTile));
    assert(t.of(InputKind::Turn) == Estimate::unmeasured(InputKind::Turn));
    assert(t.of(kind) == Estimate::unmeasured(kind));
}

} // verus!
