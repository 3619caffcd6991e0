//! The decision to catch: which ball, how many of them, and whether the odds
//! are good enough.

use vstd::prelude::*;
use vstd::string::StringExecFns;

use crate::catch_odds::{odds_of, FoeStatus, Lead, Odds, OddsV};
use crate::event::{items_of, Pocket, Status};
use crate::gamedata::GameData;
use crate::state::GameState;
use crate::stock::{ball_count, ball_multiplier, balls_in, capped, multiplier, SHINY_RESERVE};
use crate::text::{
    before, cat, cat3, comes_before, decimal, decimal_of, different_texts_are_ordered,
    nothing_comes_before_itself, order_is_transitive,
};

verus! {

/// Share of max HP (per mille) the lead needs to try a non-shiny catch.
pub const CATCH_MIN_HP: u32 = 750;

/// The wild opponent as read from the HUD.
#[derive(Debug, Clone, PartialEq, Eq)]
pub struct Foe {
    pub species: String,
    pub level: u8,
    /// HP bar fill, 0–1000.
    pub hp_per_mille: u16,
    pub status: FoeStatus,
    pub shiny: bool,
    /// Pokédex caught flag; `None` when unknown.
    pub caught: Option<bool>,
}

/// What was read of the opponent.
pub struct FoeV {
    pub species: Seq<char>,
    pub level: u8,
    pub hp_per_mille: u16,
    pub status: FoeStatus,
    pub shiny: bool,
    pub caught: Option<bool>,
}

impl View for Foe {
    type V = FoeV;

    open spec fn view(&self) -> FoeV {
        FoeV {
            species: self.species@,
            level: self.level,
            hp_per_mille: self.hp_per_mille,
            status: self.status,
            shiny: self.shiny,
            caught: self.caught,
        }
    }
}

#[derive(Debug, Clone, PartialEq, Eq)]
pub struct CatchPlan {
    pub ball: String,
    /// The first action and the odds of the whole attempt.
    pub odds: Odds,
    pub shiny: bool,
    /// The species a hunt is after ([`plan_catch_wanted`]).
    pub wanted: bool,
}

pub struct PlanV {
    pub ball: Seq<char>,
    pub odds: OddsV,
    pub shiny: bool,
    pub wanted: bool,
}

impl View for CatchPlan {
    type V = PlanV;

    open spec fn view(&self) -> PlanV {
        PlanV { ball: self.ball@, odds: self.odds@, shiny: self.shiny, wanted: self.wanted }
    }
}

/// "first SLEEP_POWDER, P(catch) 0.95, P(KO) 0.03, ~1.3 balls, risk 0.0004".
pub open spec fn odds_summary(odds: OddsV) -> Seq<char> {
    "first "@ + odds.choice.text() + ", P(catch) "@ + odds.catch + ", P(KO) "@ + odds.foe_faints
        + ", ~"@ + odds.balls + " balls, risk "@ + odds.lead_faints
}

pub(crate) fn summarise(odds: &Odds) -> (s: String)
    ensures
        s@ == odds_summary(odds@),
{
    let mut s = cat3("first ", odds.choice.text().as_str(), ", P(catch) ");
    s.append(odds.outlook.catch.as_str());
    s.append(", P(KO) ");
    s.append(odds.outlook.foe_faints.as_str());
    s.append(", ~");
    s.append(odds.outlook.balls.as_str());
    s.append(" balls, risk ");
    s.append(odds.outlook.lead_faints.as_str());
    s
}

impl CatchPlan {
    /// "first SLEEP_POWDER, P(catch) 0.95, P(KO) 0.03, ~1.3 balls, risk 0.0004".
    pub fn summary(&self) -> (s: String)
        ensures
            s@ == odds_summary(self@.odds),
    {
        summarise(&self.odds)
    }

    pub fn copy(&self) -> (p: CatchPlan)
        ensures
            p@ == self@,
    {
        CatchPlan {
            ball: self.ball.clone(),
            odds: self.odds.copy(),
            shiny: self.shiny,
            wanted: self.wanted,
        }
    }
}

/// The Poké Balls pocket, `None` when unknown. A followed list (e.g. after a
/// throw) counts as known.
pub fn balls_held(state: &GameState) -> (r: Option<Vec<(String, u16)>>)
    ensures
        match r {
            Some(v) => state.saved.holds(Pocket::PokeBalls) == Some(items_of(v@)),
            None => state.saved.holds(Pocket::PokeBalls) is None,
        },
{
    match state.saved.pocket(Pocket::PokeBalls) {
        Some(items) => {
            let mut v: Vec<(String, u16)> = Vec::new();
            let mut i: usize = 0;
            while i < items.len()
                invariant
                    i <= items@.len(),
                    v@ == items@.take(i as int),
                decreases items@.len() - i,
            {
                v.push((items[i].0.clone(), items[i].1));
                i += 1;
            }
            assert(v@ =~= items@);
            Some(v)
        },
        None => None,
    }
}

/// Row `i` holds a ball that may be thrown.
pub open spec fn throwable(data: GameData, balls: Seq<(Seq<char>, u16)>, i: int) -> bool {
    0 <= i < balls.len() && balls[i].1 > 0 && multiplier(data, balls[i].0) is Some
}

/// What a ball costs; one without a price comes last.
pub open spec fn cost(data: GameData, item: Seq<char>) -> u32 {
    match data.item_of(item) {
        Some(i) => i.price,
        None => u32::MAX,
    }
}

/// One ball is picked over another: the higher multiplier, then the cheaper,
/// then by name.
pub open spec fn picked_over(data: GameData, a: Seq<char>, b: Seq<char>) -> bool {
    let ma = multiplier(data, a)->0;
    let mb = multiplier(data, b)->0;
    ma > mb || (ma == mb && (cost(data, a) < cost(data, b) || (cost(data, a) == cost(data, b)
        && before(a, b))))
}

/// `item` is a ball held that no other is picked over.
pub open spec fn is_best(data: GameData, balls: Seq<(Seq<char>, u16)>, item: Seq<char>) -> bool {
    &&& exists|i: int| #[trigger] throwable(data, balls, i) && balls[i].0 == item
    &&& forall|j: int|
        #[trigger] throwable(data, balls, j) ==> !picked_over(data, balls[j].0, item)
}

pub open spec fn no_ball(data: GameData, balls: Seq<(Seq<char>, u16)>) -> bool {
    forall|i: int| !throwable(data, balls, i)
}

/// The held ball with the highest multiplier; ties: cheapest, then name.
pub open spec fn best_of(data: GameData, balls: Seq<(Seq<char>, u16)>) -> Option<Seq<char>> {
    if no_ball(data, balls) {
        None
    } else {
        Some(choose|item: Seq<char>| is_best(data, balls, item))
    }
}

/// There is only one best ball.
pub proof fn the_best_ball_is_one(
    data: GameData,
    balls: Seq<(Seq<char>, u16)>,
    a: Seq<char>,
    b: Seq<char>,
)
    requires
        is_best(data, balls, a),
        is_best(data, balls, b),
    ensures
        a == b,
{
    let i = choose|i: int| #[trigger] throwable(data, balls, i) && balls[i].0 == a;
    let j = choose|j: int| #[trigger] throwable(data, balls, j) && balls[j].0 == b;
    assert(!picked_over(data, balls[i].0, b));
    assert(!picked_over(data, balls[j].0, a));
    if a != b {
        different_texts_are_ordered(a, b);
    }
}

/// Picking is an order: what is picked over a second ball is picked over what
/// that one is picked over.
pub proof fn picking_is_transitive(data: GameData, a: Seq<char>, b: Seq<char>, c: Seq<char>)
    requires
        picked_over(data, a, b),
        picked_over(data, b, c),
    ensures
        picked_over(data, a, c),
{
    if before(a, b) && before(b, c) {
        order_is_transitive(a, b, c);
    }
}

fn is_picked_over(data: &GameData, a: &str, ma: u32, b: &str, mb: u32) -> (r: bool)
    requires
        multiplier(*data, a@) == Some(ma),
        multiplier(*data, b@) == Some(mb),
    ensures
        r == picked_over(*data, a@, b@),
{
    let ca: u32 = match data.item(a) {
        Some(i) => i.price,
        None => u32::MAX,
    };
    let cb: u32 = match data.item(b) {
        Some(i) => i.price,
        None => u32::MAX,
    };
    ma > mb || (ma == mb && (ca < cb || (ca == cb && comes_before(a, b))))
}

/// The held ball with the highest multiplier; ties: cheapest, then name.
/// The Master Ball is never chosen.
pub fn best_ball(data: &GameData, balls: &Vec<(String, u16)>) -> (r: Option<String>)
    ensures
        crate::event::text_of(r) == best_of(*data, items_of(balls@)),
        match r {
            Some(item) => is_best(*data, items_of(balls@), item@),
            None => no_ball(*data, items_of(balls@)),
        },
{
    let ghost all = items_of(balls@);
    let mut best: Option<(usize, u32)> = None;
    let mut i: usize = 0;
    while i < balls.len()
        invariant
            i <= balls@.len(),
            all == items_of(balls@),
            match best {
                Some(b) => {
                    &&& b.0 < i
                    &&& throwable(*data, all, b.0 as int)
                    &&& multiplier(*data, all[b.0 as int].0) == Some(b.1)
                    &&& forall|j: int|
                        j < i && #[trigger] throwable(*data, all, j) ==> !picked_over(
                            *data,
                            all[j].0,
                            all[b.0 as int].0,
                        )
                },
                None => forall|j: int| j < i ==> !throwable(*data, all, j),
            },
        decreases balls@.len() - i,
    {
        if balls[i].1 > 0 {
            match ball_multiplier(data, &balls[i].0) {
                Some(m) => {
                    assert(throwable(*data, all, i as int));
                    match best {
                        Some(b) => {
                            if is_picked_over(data, &balls[i].0, m, &balls[b.0].0, b.1) {
                                proof {
                                    let old_best = all[b.0 as int].0;
                                    let new_best = all[i as int].0;
                                    assert forall|j: int|
                                        j < i + 1 && #[trigger] throwable(
                                            *data,
                                            all,
                                            j,
                                        ) implies !picked_over(
                                        *data,
                                        all[j].0,
                                        new_best,
                                    ) by {
                                        nothing_comes_before_itself(new_best);
                                        if j < i && picked_over(*data, all[j].0, new_best) {
                                            picking_is_transitive(
                                                *data,
                                                all[j].0,
                                                new_best,
                                                old_best,
                                            );
                                        }
                                    }
                                }
                                best = Some((i, m));
                            }
                        },
                        None => {
                            proof {
                                nothing_comes_before_itself(all[i as int].0);
                            }
                            best = Some((i, m));
                        },
                    }
                },
                None => {},
            }
        }
        i += 1;
    }
    match best {
        Some(b) => {
            proof {
                let item = all[b.0 as int].0;
                assert(is_best(*data, all, item));
                let c = choose|c: Seq<char>| is_best(*data, all, c);
                the_best_ball_is_one(*data, all, item, c);
                assert(!no_ball(*data, all)) by {
                    assert(throwable(*data, all, b.0 as int));
                }
            }
            Some(balls[b.0].0.clone())
        },
        None => {
            assert(no_ball(*data, all));
            None
        },
    }
}

/// Balls that an attempt may throw.
pub open spec fn budget(count: u16, shiny: bool) -> u16 {
    if shiny {
        count
    } else if count > SHINY_RESERVE {
        (count - SHINY_RESERVE) as u16
    } else {
        0
    }
}

/// Balls an attempt may throw out of `count` held: all for a shiny, those
/// above the shiny reserve otherwise.
pub fn ball_budget(count: u16, shiny: bool) -> (n: u16)
    ensures
        n == budget(count, shiny),
{
    if shiny {
        count
    } else if count > SHINY_RESERVE {
        count - SHINY_RESERVE
    } else {
        0
    }
}

/// Without a shiny the reserve stays in the bag.
pub proof fn the_reserve_is_kept(count: u16)
    ensures
        count - budget(count, false) >= SHINY_RESERVE || budget(count, false) == 0,
        budget(count, true) == count,
{
}

/// The lead's status as known in the game state (from battle text).
pub open spec fn lead_status(state: GameState) -> Option<Status> {
    match state.saved.party.value {
        Some(party) => if party@.len() > 0 {
            party@[0].status.value
        } else {
            None
        },
        None => None,
    }
}

fn status_of_lead(state: &GameState) -> (r: Option<Status>)
    ensures
        r == lead_status(*state),
{
    match &state.saved.party.value {
        Some(party) => if party.len() > 0 {
            party[0].status.value
        } else {
            None
        },
        None => None,
    }
}

/// What the odds of a catch are to be solved from.
#[derive(Debug, PartialEq, Eq)]
pub struct OddsQuestion {
    /// Our HP.
    pub hp: (u16, u16),
    pub species: String,
    pub level: u8,
    /// The foe's HP bar fill, 0–1000.
    pub hp_per_mille: u16,
    pub status: FoeStatus,
    /// Our actions since the foe was seen asleep.
    pub asleep_for: u8,
    pub shiny: bool,
    /// The species a hunt is after.
    pub wanted: bool,
    pub ball: String,
    /// Ten times the ball's multiplier.
    pub multiplier: u32,
    /// Balls that may be thrown.
    pub balls: u16,
    /// A status move may still be used.
    pub status_allowed: bool,
    /// A move the game refuses.
    pub disabled: Option<String>,
}

#[verifier::ext_equal]
pub struct QuestionV {
    pub hp: (u16, u16),
    pub species: Seq<char>,
    pub level: u8,
    pub hp_per_mille: u16,
    pub status: FoeStatus,
    pub asleep_for: u8,
    pub shiny: bool,
    pub wanted: bool,
    pub ball: Seq<char>,
    pub multiplier: u32,
    pub balls: u16,
    pub status_allowed: bool,
    pub disabled: Option<Seq<char>>,
}

impl View for OddsQuestion {
    type V = QuestionV;

    open spec fn view(&self) -> QuestionV {
        QuestionV {
            hp: self.hp,
            species: self.species@,
            level: self.level,
            hp_per_mille: self.hp_per_mille,
            status: self.status,
            asleep_for: self.asleep_for,
            shiny: self.shiny,
            wanted: self.wanted,
            ball: self.ball@,
            multiplier: self.multiplier,
            balls: self.balls,
            status_allowed: self.status_allowed,
            disabled: crate::event::text_of(self.disabled),
        }
    }
}

/// Ten times the multiplier that the odds count a ball with.
pub open spec fn odds_multiplier(data: GameData, ball: Seq<char>) -> u32 {
    match multiplier(data, ball) {
        Some(m) => m,
        None => 10,
    }
}

pub open spec fn flag_text(flag: Option<bool>) -> Seq<char> {
    match flag {
        Some(true) => "Some(true)"@,
        Some(false) => "Some(false)"@,
        None => "None"@,
    }
}

fn show_flag(flag: Option<bool>) -> (s: &'static str)
    ensures
        s@ == flag_text(flag),
{
    match flag {
        Some(true) => "Some(true)",
        Some(false) => "Some(false)",
        None => "None",
    }
}

/// The species is known to be uncaught; an unread icon on the wanted one is no
/// reason to let it go.
pub open spec fn may_be_caught(foe: FoeV, wanted: bool) -> bool {
    foe.caught == Some(false) || (wanted && foe.caught != Some(true))
}

/// The lead is fit for a catch: three quarters of its HP or more.
pub open spec fn fit(hp: (u16, u16)) -> bool {
    hp.0 * 1000 >= hp.1 * CATCH_MIN_HP
}

/// Balls counted for the budget: an unknown pocket (a shiny or the wanted
/// species) is planned with a reserve's worth.
pub open spec fn balls_counted(data: GameData, state: GameState) -> u16 {
    match state.saved.holds(Pocket::PokeBalls) {
        Some(items) => capped(balls_in(data, items)),
        None => SHINY_RESERVE,
    }
}

/// Why a catch is not tried, before its odds are known; `None` where they are
/// wanted.
pub open spec fn declined(
    data: GameData,
    state: GameState,
    hp: (u16, u16),
    foe: FoeV,
    trainer: bool,
    wanted: bool,
) -> Option<Seq<char>> {
    let any_ball = foe.shiny || wanted;
    let held = state.saved.holds(Pocket::PokeBalls);
    let sick = lead_status(state) is Some && lead_status(state)->0 != Status::Healthy;
    if trainer {
        Some("a trainer's Pokémon can't be caught"@)
    } else if !foe.shiny && !may_be_caught(foe, wanted) {
        Some(foe.species + ": caught flag "@ + flag_text(foe.caught))
    } else if !any_ball && !fit(hp) {
        Some(
            "the lead is at "@ + decimal_of(hp.0 as nat) + "/"@ + decimal_of(hp.1 as nat)
                + " HP, below 75 %"@,
        )
    } else if !any_ball && sick {
        Some("the lead is "@ + lead_status(state)->0.called())
    } else if held is Some && no_ball(data, held->0) {
        Some("no usable ball held"@)
    } else if held is None && !any_ball {
        Some("ball count unknown (pocket not audited)"@)
    } else if budget(balls_counted(data, state), any_ball) == 0 {
        if any_ball {
            Some("no ball held"@)
        } else {
            Some(
                decimal_of(balls_counted(data, state) as nat)
                    + " balls: none above the shiny reserve 5"@,
            )
        }
    } else {
        None
    }
}

/// The ball to plan with.
pub open spec fn planned_ball(data: GameData, state: GameState) -> Seq<char> {
    match state.saved.holds(Pocket::PokeBalls) {
        Some(items) => best_of(data, items)->0,
        None => "ITEM_POKE_BALL"@,
    }
}

/// What the odds of a catch that is not declined are solved from.
pub open spec fn asked(
    data: GameData,
    state: GameState,
    hp: (u16, u16),
    foe: FoeV,
    wanted: bool,
) -> QuestionV {
    let ball = planned_ball(data, state);
    QuestionV {
        hp,
        species: foe.species,
        level: foe.level,
        hp_per_mille: foe.hp_per_mille,
        status: foe.status,
        asleep_for: 0,
        shiny: foe.shiny,
        wanted,
        ball,
        multiplier: odds_multiplier(data, ball),
        balls: budget(balls_counted(data, state), foe.shiny || wanted),
        status_allowed: true,
        disabled: None,
    }
}

/// Whether a catch may be tried, and what its odds are to be solved from.
/// `Err` carries the reason not to.
pub fn catch_question(
    data: &GameData,
    state: &GameState,
    lead: &Lead,
    foe: &Foe,
    trainer: bool,
    wanted: bool,
) -> (r: Result<OddsQuestion, String>)
    ensures
        match r {
            Err(e) => declined(*data, *state, lead.hp, foe@, trainer, wanted) == Some(e@),
            Ok(q) => {
                &&& declined(*data, *state, lead.hp, foe@, trainer, wanted) is None
                &&& q@ == asked(*data, *state, lead.hp, foe@, wanted)
            },
        },
{
    if trainer {
        return Err("a trainer's Pokémon can't be caught".to_owned());
    }
    // The hunt ends once its species is marked caught: an unread icon on
    // the wanted one is not a reason to let it go.
    let caught_ok = match foe.caught {
        Some(c) => !c,
        None => wanted,
    };
    if !foe.shiny && !caught_ok {
        return Err(cat3(foe.species.as_str(), ": caught flag ", show_flag(foe.caught)));
    }
    // Throwing all balls (the reserve too): a shiny, or the hunt's species.
    let any_ball = foe.shiny || wanted;
    // A catch costs the lead HP (weakening turns, throws): only a healthy
    // lead tries for a non-shiny, so the story's battles aren't fought
    // worn down. The wanted species is the goal: the risk limit alone
    // guards the lead.
    if !any_ball {
        if (lead.hp.0 as u32) * 1000 < (lead.hp.1 as u32) * CATCH_MIN_HP {
            let mut e = cat3(
                "the lead is at ",
                decimal(lead.hp.0 as u64).as_str(),
                "/",
            );
            e.append(decimal(lead.hp.1 as u64).as_str());
            e.append(" HP, below 75 %");
            return Err(e);
        }
        match status_of_lead(state) {
            Some(status) => {
                if status != Status::Healthy {
                    return Err(cat("the lead is ", status.name()));
                }
            },
            None => {},
        }
    }
    let ball = match state.saved.pocket(Pocket::PokeBalls) {
        Some(items) => match best_ball(data, items) {
            Some(ball) => ball,
            None => {
                return Err("no usable ball held".to_owned());
            },
        },
        None => {
            if !any_ball {
                return Err("ball count unknown (pocket not audited)".to_owned());
            }
            "ITEM_POKE_BALL".to_owned()
        },
    };
    // An unknown pocket (a shiny or the wanted species): plan with a
    // reserve's worth.
    let count = match ball_count(data, state) {
        Some(n) => n,
        None => SHINY_RESERVE,
    };
    let balls = ball_budget(count, any_ball);
    if balls == 0 {
        return Err(
            if any_ball {
                "no ball held".to_owned()
            } else {
                cat(
                    decimal(count as u64).as_str(),
                    " balls: none above the shiny reserve 5",
                )
            },
        );
    }
    let multiplier = match ball_multiplier(data, ball.as_str()) {
        Some(m) => m,
        None => 10,
    };
    Ok(
        OddsQuestion {
            hp: lead.hp,
            species: foe.species.clone(),
            level: foe.level,
            hp_per_mille: foe.hp_per_mille,
            status: foe.status,
            asleep_for: 0,
            shiny: foe.shiny,
            wanted,
            ball,
            multiplier,
            balls,
            status_allowed: true,
            disabled: None,
        },
    )
}

/// Why odds decline a catch.
pub open spec fn odds_decline(q: QuestionV, odds: Option<OddsV>) -> Option<Seq<char>> {
    match odds {
        None => Some(q.species + " unknown to the game data"@),
        Some(o) => {
            let summary = odds_summary(o);
            if q.shiny {
                None
            } else if q.wanted && o.choice is Run {
                // Any chance at the wanted species beats running from it,
                // unless the odds say RUN: every attempt risks the lead more
                // than the catch is worth.
                Some(
                    "the odds say RUN: the lead's risk outweighs the catch ("@ + summary + ")"@,
                )
            } else if !q.wanted && (o.choice is Run || !o.likely) {
                Some(
                    "P(catch) "@ + o.catch + " with "@ + decimal_of(q.balls as nat)
                        + " balls, below 0.2 ("@ + summary + ")"@,
                )
            } else if o.risky {
                Some("risk "@ + o.lead_faints + " above 0.02 ("@ + summary + ")"@)
            } else {
                None
            }
        },
    }
}

/// Judges a catch by its odds, as solved from the question; `None` where
/// either side is unknown to the game data. `Err` carries the reason not to.
pub fn judge(q: OddsQuestion, odds: Option<Odds>) -> (r: Result<CatchPlan, String>)
    ensures
        ({
            let o = odds_of(odds);
            match r {
                Err(e) => odds_decline(q@, o) == Some(e@),
                Ok(plan) => {
                    &&& odds_decline(q@, o) is None
                    &&& plan@ == PlanV {
                        ball: q@.ball,
                        odds: o->0,
                        shiny: q@.shiny,
                        wanted: q@.wanted,
                    }
                },
            }
        }),
{
    let odds = match odds {
        Some(o) => o,
        None => {
            return Err(cat(q.species.as_str(), " unknown to the game data"));
        },
    };
    if !q.shiny {
        let run = matches!(odds.choice, crate::catch_odds::Choice::Run);
        if q.wanted && run {
            return Err(
                cat3(
                    "the odds say RUN: the lead's risk outweighs the catch (",
                    summarise(&odds).as_str(),
                    ")",
                ),
            );
        }
        if !q.wanted && (run || !odds.outlook.likely) {
            let mut e = cat3("P(catch) ", odds.outlook.catch.as_str(), " with ");
            e.append(decimal(q.balls as u64).as_str());
            e.append(" balls, below 0.2 (");
            e.append(summarise(&odds).as_str());
            e.append(")");
            return Err(e);
        }
        if odds.outlook.risky {
            let mut e = cat3("risk ", odds.outlook.lead_faints.as_str(), " above 0.02 (");
            e.append(summarise(&odds).as_str());
            e.append(")");
            return Err(e);
        }
    }
    Ok(CatchPlan { ball: q.ball, odds, shiny: q.shiny, wanted: q.wanted })
}

/// The plan for a catch, or the reason not to try it.
pub open spec fn planned(
    data: GameData,
    state: GameState,
    hp: (u16, u16),
    foe: FoeV,
    trainer: bool,
    wanted: bool,
    odds: Option<OddsV>,
) -> Result<PlanV, Seq<char>> {
    match declined(data, state, hp, foe, trainer, wanted) {
        Some(e) => Err(e),
        None => {
            let q = asked(data, state, hp, foe, wanted);
            match odds_decline(q, odds) {
                Some(e) => Err(e),
                None => Ok(PlanV { ball: q.ball, odds: odds->0, shiny: foe.shiny, wanted }),
            }
        },
    }
}

/// [`plan_catch`] for the species a hunt is after (`wanted`): declined
/// only when it is caught already, no ball is held, or the attempt puts
/// our lead's risk above the limit. `odds` are those of [`catch_question`].
pub fn plan_catch_wanted(
    data: &GameData,
    state: &GameState,
    lead: &Lead,
    foe: &Foe,
    trainer: bool,
    wanted: bool,
    odds: Option<Odds>,
) -> (r: Result<CatchPlan, String>)
    ensures
        ({
            let o = odds_of(odds);
            match r {
                Err(e) => planned(*data, *state, lead.hp, foe@, trainer, wanted, o) == Err::<
                    PlanV,
                    Seq<char>,
                >(e@),
                Ok(plan) => planned(*data, *state, lead.hp, foe@, trainer, wanted, o) == Ok::<
                    PlanV,
                    Seq<char>,
                >(plan@),
            }
        }),
{
    match catch_question(data, state, lead, foe, trainer, wanted) {
        Err(e) => Err(e),
        Ok(q) => judge(q, odds),
    }
}

/// Decide whether to catch `foe`, and how. `Err` carries the reason not to.
pub fn plan_catch(
    data: &GameData,
    state: &GameState,
    lead: &Lead,
    foe: &Foe,
    trainer: bool,
    odds: Option<Odds>,
) -> (r: Result<CatchPlan, String>)
    ensures
        ({
            let o = odds_of(odds);
            match r {
                Err(e) => planned(*data, *state, lead.hp, foe@, trainer, false, o) == Err::<
                    PlanV,
                    Seq<char>,
                >(e@),
                Ok(plan) => planned(*data, *state, lead.hp, foe@, trainer, false, o) == Ok::<
                    PlanV,
                    Seq<char>,
                >(plan@),
            }
        }),
{
    plan_catch_wanted(data, state, lead, foe, trainer, false, odds)
}

/// A trainer's Pokémon is never caught, shiny or wanted.
pub proof fn trainers_keep_their_pokemon(
    data: GameData,
    state: GameState,
    hp: (u16, u16),
    foe: FoeV,
    wanted: bool,
    odds: Option<OddsV>,
)
    ensures
        planned(data, state, hp, foe, true, wanted, odds) is Err,
{
}

/// Unknown facts decline an ordinary catch: an unread caught icon, or a pocket
/// that was not audited.
pub proof fn unknown_facts_decline(
    data: GameData,
    state: GameState,
    hp: (u16, u16),
    foe: FoeV,
    odds: Option<OddsV>,
)
    requires
        !foe.shiny,
        foe.caught is None || state.saved.holds(Pocket::PokeBalls) is None,
    ensures
        planned(data, state, hp, foe, false, false, odds) is Err,
{
}

/// An ordinary catch leaves the shiny reserve: what it may throw is what is
/// held above the reserve.
pub proof fn an_ordinary_catch_keeps_the_reserve(
    data: GameData,
    state: GameState,
    hp: (u16, u16),
    foe: FoeV,
    odds: Option<OddsV>,
)
    requires
        !foe.shiny,
        planned(data, state, hp, foe, false, false, odds) is Ok,
    ensures
        balls_counted(data, state) - asked(data, state, hp, foe, false).balls == SHINY_RESERVE,
        asked(data, state, hp, foe, false).balls > 0,
{
}

/// A shiny that is not a trainer's is caught whenever a ball is held and the
/// odds could be solved: no caught flag, worn lead or risk declines it.
pub proof fn a_shiny_is_caught(
    data: GameData,
    state: GameState,
    hp: (u16, u16),
    foe: FoeV,
    wanted: bool,
    odds: Option<OddsV>,
)
    requires
        foe.shiny,
        odds is Some,
        balls_counted(data, state) > 0,
        state.saved.holds(Pocket::PokeBalls) matches Some(items) ==> !no_ball(data, items),
    ensures
        planned(data, state, hp, foe, false, wanted, odds) is Ok,
{
}

/// The species a hunt is after is declined only for what puts the lead at risk:
/// not for the reserve, a worn or sick lead, an unread icon or a low chance.
pub proof fn the_hunted_species_is_declined_only_for_risk(
    data: GameData,
    state: GameState,
    hp: (u16, u16),
    foe: FoeV,
    odds: Option<OddsV>,
)
    requires
        foe.caught != Some(true),
        odds is Some,
        balls_counted(data, state) > 0,
        state.saved.holds(Pocket::PokeBalls) matches Some(items) ==> !no_ball(data, items),
        !foe.shiny,
    ensures
        planned(data, state, hp, foe, false, true, odds) is Ok <==> !(odds->0.choice is Run)
            && !odds->0.risky,
{
}

} // verus!
