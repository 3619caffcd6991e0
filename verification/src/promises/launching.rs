//! The console: when it counts as off, when a launch is begun, and what it
//! presses.

use vstd::prelude::*;

use crate::console::{
    launch_steps, slot_tried, triple, ConsoleLink, ConsoleScreen, GuardV, ModeV, StepV,
};
use crate::input::{Button, CommandV};

verus! {

/// A launch unlocks first where it should, then goes home, moves right once for
/// each slot before the wanted one, and presses A twice.
pub proof fn a_launch_goes_to_its_slot(slot: u32, unlock: bool, n: int)
    ensures
        ({
            let steps = launch_steps(slot, unlock);
            let home = if unlock {
                1int
            } else {
                0
            };
            &&& steps.len() == home + slot + 3
            &&& unlock ==> steps[0].command == CommandV::Sequence(triple(Button::A))
            &&& steps[home].command == CommandV::Press(Button::Home)
            &&& home < n <= home + slot ==> steps[n].command == CommandV::Press(Button::Right)
            &&& steps[home + slot + 1].command == CommandV::Press(Button::A)
            &&& steps[home + slot + 2].command == CommandV::Press(Button::A)
        }),
{
}

/// The first slot is tried twice, then the second and the third, and then the
/// first again; every other attempt unlocks, and so does the first after waking.
pub proof fn slots_are_tried_in_turn(g: GuardV)
    ensures
        slot_tried(0) == 0,
        slot_tried(1) == 0,
        slot_tried(2) == 1,
        slot_tried(3) == 2,
        g.attempt < u32::MAX - 4 ==> slot_tried((g.attempt + 4) as u32) == slot_tried(g.attempt),
        slot_tried(g.attempt) <= 2,
        g.woke ==> g.unlocks(),
        !g.woke && g.attempt < u32::MAX ==> g.unlocks() != (GuardV {
            attempt: (g.attempt + 1) as u32,
            ..g
        }).unlocks(),
        !g.woke && g.attempt == 0 ==> !g.unlocks(),
{
}

/// The game counts as there once it was on the screen for three seconds, whatever
/// was going on, and no sooner.
pub proof fn the_game_is_there_once_it_stays(
    g: GuardV,
    now: u64,
    screen: ConsoleScreen,
    link: ConsoleLink,
)
    ensures
        g.stepped(now, screen, link).1.ready is Some <==> screen == ConsoleScreen::Game && g.screen
            is Some && (g.screen->0).0 == ConsoleScreen::Game && now >= (g.screen->0).1
            + 3_000_000_000,
        g.stepped(now, screen, link).0.screen is Some,
        (g.stepped(now, screen, link).0.screen->0).0 == screen,
        (g.stepped(now, screen, link).0.screen->0).1 == if g.screen is Some && (g.screen->0).0
            == screen {
            (g.screen->0).1
        } else {
            now
        },
{
}

/// Watching: a dark screen counts as the console being off once the link says so,
/// or once it stayed dark for ten seconds; a console screen that stays for two
/// starts a launch; else one watches on.
pub proof fn what_a_watch_comes_to(
    g: GuardV,
    now: u64,
    screen: ConsoleScreen,
    link: ConsoleLink,
)
    requires
        g.mode is Watch,
        screen != ConsoleScreen::Game,
        g.screen is Some,
        (g.screen->0).0 == screen,
    ensures
        ({
            let next = g.stepped(now, screen, link).0;
            let stayed = |t: u64| now >= (g.screen->0).1 && now - (g.screen->0).1 >= t;
            let off = screen == ConsoleScreen::Dark && (stayed(10_000_000_000) || link
                == ConsoleLink::Detached || link == ConsoleLink::Suspended);
            let begun = screen == ConsoleScreen::System && stayed(2_000_000_000);
            &&& next.mode is Off <==> off
            &&& next.mode is Launch <==> begun
            &&& begun && g.attempt < u32::MAX ==> next.attempt == g.attempt + 1 && !next.woke
                && next.mode->steps == launch_steps(slot_tried(g.attempt), g.unlocks())
                && next.mode->deadline is None && next.mode->next_at == now
            &&& !begun ==> next.attempt == g.attempt && next.woke == g.woke
            &&& g.stepped(now, screen, link).1.act is None
        }),
{
}

/// Off: any picture ends it, and is remembered as waking; a dark screen gets HOME
/// pressed where the link is suspended, and no more often than every thirty seconds.
pub proof fn what_comes_of_a_console_that_is_off(
    g: GuardV,
    now: u64,
    screen: ConsoleScreen,
    link: ConsoleLink,
)
    requires
        g.mode is Off,
        screen != ConsoleScreen::Game,
        now < 0x8000_0000_0000_0000,
    ensures
        ({
            let (next, tick) = g.stepped(now, screen, link);
            let due = screen == ConsoleScreen::Dark && link == ConsoleLink::Suspended && now
                >= g.mode->next_wake;
            &&& screen != ConsoleScreen::Dark ==> next.mode is Watch && next.woke && tick.act
                is None
            &&& screen == ConsoleScreen::Dark ==> next.mode is Off && next.woke == g.woke
            &&& tick.act is Some <==> due
            &&& due ==> (tick.act->0).1 == CommandV::Press(Button::Home) && next.mode->next_wake
                == now + 30_000_000_000
        }),
{
}

/// A launch takes its steps in order, each on a console screen and not before the
/// one before it had its time; after the last it waits for a minute.
pub proof fn a_launch_takes_its_steps_in_order(
    g: GuardV,
    now: u64,
    link: ConsoleLink,
    steps: Seq<StepV>,
    next_at: u64,
)
    requires
        g.mode == (ModeV::Launch { steps, next_at, deadline: None }),
        steps.len() > 0,
        steps[0].wait <= 60_000_000_000,
        now < 0x8000_0000_0000_0000,
    ensures
        ({
            let (next, tick) = g.stepped(now, ConsoleScreen::System, link);
            &&& now < next_at ==> tick.act is None && next.mode == g.mode
            &&& now >= next_at ==> {
                &&& tick.act is Some && (tick.act->0).1 == steps[0].command
                &&& next.mode is Launch && next.mode->steps == steps.drop_first()
                &&& next.mode->next_at == now + steps[0].wait
                &&& next.mode->deadline == if steps.len() == 1 {
                    Some((now + 60_000_000_000) as u64)
                } else {
                    None
                }
            }
            &&& next.attempt == g.attempt
        }),
{
}

/// A launch that shows nothing for a minute counts as off again; one whose minute
/// after its last step is over is begun anew on a console screen, and watched on
/// any other.
pub proof fn what_comes_of_a_launch_that_fails(
    g: GuardV,
    now: u64,
    screen: ConsoleScreen,
    link: ConsoleLink,
    next_at: u64,
    deadline: u64,
)
    requires
        g.mode == (ModeV::Launch { steps: Seq::empty(), next_at, deadline: Some(deadline) }),
        screen != ConsoleScreen::Game,
        g.screen is Some,
        (g.screen->0).0 == screen,
        (g.screen->0).1 <= now,
    ensures
        ({
            let (next, tick) = g.stepped(now, screen, link);
            let dark = screen == ConsoleScreen::Dark && now - (g.screen->0).1 >= 60_000_000_000;
            &&& dark ==> next.mode is Off
            &&& !dark && now < deadline ==> next.mode == g.mode
            &&& !dark && now >= deadline && screen == ConsoleScreen::System ==> next.mode is Launch
                && next.mode->steps == launch_steps(slot_tried(g.attempt), g.unlocks())
                && next.mode->deadline is None
            &&& !dark && now >= deadline && screen != ConsoleScreen::System ==> next.mode is Watch
            &&& tick.act is None
        }),
{
}

} // verus!
