//! The plain part of the odds of a catch: what may be done this turn, which HP
//! the foe's bar allows, how long a sleeping foe may sleep on, and the key of
//! a solved state. The probabilities over these are solved elsewhere; what
//! they come to is an [`Odds`].
//!
//! Each turn is one of our actions and then one foe attack. Sleep lasts 1–4 of
//! our actions (the game's 2–5 counter), paralysis for good.

use vstd::prelude::*;

use crate::event::text_of;
use crate::gamedata::GameData;
use crate::party::Member;
use crate::text::{cut_start, same, trim_start_matches};

verus! {

/// Turns looked ahead; past it the attempt counts as given up.
pub const MAX_TURNS: u8 = 20;

/// Balls looked at (P(catch) is saturated long before).
pub const MAX_BALLS: u16 = 15;

/// Foe HP is solved in at most this many units (exact up to this max HP).
pub const HP_UNITS: u32 = 96;

/// A foe put to sleep stays asleep for one to this many of our following
/// actions, all equally likely (the game's 2–5 counter, less the foe's turn
/// right after).
pub const SLEEP_ACTIONS: u8 = 4;

#[derive(Debug, Clone, Copy, PartialEq, Eq, Structural)]
pub enum FoeStatus {
    Healthy,
    Asleep,
    Paralyzed,
}

/// Our battling Pokémon and its current/maximum HP.
#[derive(Debug, Clone, Copy)]
pub struct Lead<'a> {
    pub member: &'a Member,
    pub hp: (u16, u16),
}

/// What to do this turn.
#[derive(Debug, Clone, PartialEq, Eq)]
pub enum Choice {
    Throw,
    /// A status move (slot, move).
    Status(u8, String),
    /// A damaging move (slot, move).
    Attack(u8, String),
    Run,
}

pub enum ChoiceV {
    Throw,
    Status(u8, Seq<char>),
    Attack(u8, Seq<char>),
    Run,
}

impl View for Choice {
    type V = ChoiceV;

    open spec fn view(&self) -> ChoiceV {
        match *self {
            Choice::Throw => ChoiceV::Throw,
            Choice::Status(slot, m) => ChoiceV::Status(slot, m@),
            Choice::Attack(slot, m) => ChoiceV::Attack(slot, m@),
            Choice::Run => ChoiceV::Run,
        }
    }
}

impl ChoiceV {
    /// The choice in words.
    pub open spec fn text(self) -> Seq<char> {
        match self {
            ChoiceV::Throw => "throw"@,
            ChoiceV::Status(_, m) => cut_start(m, "MOVE_"@),
            ChoiceV::Attack(_, m) => cut_start(m, "MOVE_"@),
            ChoiceV::Run => "run"@,
        }
    }
}

impl Choice {
    /// The choice in words.
    pub fn text(&self) -> (s: String)
        ensures
            s@ == self@.text(),
    {
        match self {
            Choice::Throw => "throw".to_owned(),
            Choice::Status(_, m) => trim_start_matches(m, "MOVE_").to_owned(),
            Choice::Attack(_, m) => trim_start_matches(m, "MOVE_").to_owned(),
            Choice::Run => "run".to_owned(),
        }
    }

    pub fn copy(&self) -> (c: Choice)
        ensures
            c@ == self@,
    {
        match self {
            Choice::Throw => Choice::Throw,
            Choice::Status(slot, m) => Choice::Status(*slot, m.clone()),
            Choice::Attack(slot, m) => Choice::Attack(*slot, m.clone()),
            Choice::Run => Choice::Run,
        }
    }
}

pub open spec fn choices_of(s: Seq<Choice>) -> Seq<ChoiceV> {
    s.map_values(|c: Choice| c@)
}

/// What is known of the foe for the odds.
#[derive(Debug, Clone)]
pub struct FoeView<'a> {
    pub species: &'a str,
    pub level: u8,
    /// HP bar fill, 0–1000.
    pub hp_per_mille: u16,
    pub status: FoeStatus,
    /// Our actions since it was seen asleep (narrows how long it sleeps on).
    pub asleep_for: u8,
}

/// What we may do.
#[derive(Debug, Clone)]
pub struct Means<'a> {
    /// The ball's multiplier (×10).
    pub ball: u32,
    /// Balls we may throw.
    pub balls: u16,
    /// A status move may still be used.
    pub status_allowed: bool,
    /// A move the game refuses (DISABLE).
    pub disabled: Option<&'a str>,
}

/// The foe's status in a scenario: asleep for this many more actions.
#[derive(Debug, Clone, Copy, PartialEq, Eq, Hash, Structural)]
pub enum State {
    Healthy,
    Paralyzed,
    Asleep(u8),
}

impl State {
    pub open spec fn x10(self) -> u32 {
        match self {
            State::Healthy => 10,
            State::Paralyzed => 15,
            State::Asleep(_) => 20,
        }
    }

    /// Ten times what the status multiplies the catch rate by.
    pub fn catch_x10(self) -> (n: u32)
        ensures
            n == self.x10(),
    {
        match self {
            State::Healthy => 10,
            State::Paralyzed => 15,
            State::Asleep(_) => 20,
        }
    }

    pub open spec fn next(self) -> State {
        match self {
            State::Asleep(n) => if n > 1 {
                State::Asleep((n - 1) as u8)
            } else {
                State::Healthy
            },
            s => s,
        }
    }

    /// After one of our actions and the foe's turn.
    pub fn after_turn(self) -> (s: State)
        ensures
            s == self.next(),
    {
        match self {
            State::Asleep(n) => if n > 1 {
                State::Asleep(n - 1)
            } else {
                State::Healthy
            },
            s => s,
        }
    }

    /// After a number of turns.
    pub open spec fn later(self, turns: nat) -> State
        decreases turns,
    {
        if turns == 0 {
            self
        } else {
            self.next().later((turns - 1) as nat)
        }
    }

    /// A foe asleep for `n` more actions sleeps for exactly those.
    pub proof fn sleep_runs_out(n: u8, turns: nat)
        requires
            n >= 1,
        ensures
            turns < n ==> State::Asleep(n).later(turns) == State::Asleep((n - turns) as u8),
            turns >= n ==> State::Asleep(n).later(turns) == State::Healthy,
        decreases turns,
    {
        if turns > 0 {
            if n > 1 {
                State::sleep_runs_out((n - 1) as u8, (turns - 1) as nat);
            } else {
                State::awake_stays_awake((turns - 1) as nat);
            }
        }
    }

    proof fn awake_stays_awake(turns: nat)
        ensures
            State::Healthy.later(turns) == State::Healthy,
        decreases turns,
    {
        if turns > 0 {
            State::awake_stays_awake((turns - 1) as nat);
        }
    }

    /// Paralysis is for good.
    pub proof fn paralysis_stays(turns: nat)
        ensures
            State::Paralyzed.later(turns) == State::Paralyzed,
        decreases turns,
    {
        if turns > 0 {
            State::paralysis_stays((turns - 1) as nat);
        }
    }

    /// The number that a status is packed as.
    pub open spec fn code(self) -> u64 {
        match self {
            State::Healthy => 0,
            State::Paralyzed => 1,
            State::Asleep(n) => (1 + n) as u64,
        }
    }
}

/// The packed key of a state: 8 bits of turn, 16 of balls, 8 of status, 32 of
/// HP.
pub open spec fn packed(turn: u8, balls: u16, hp: u32, state: State) -> u64 {
    (turn as u64) | ((balls as u64) << 8) | (state.code() << 24) | ((hp as u64) << 32)
}

/// The key of a solved state.
pub fn key(turn: u8, balls: u16, hp: u32, state: State) -> (k: u64)
    ensures
        k == packed(turn, balls, hp, state),
{
    let code: u64 = match state {
        State::Healthy => 0,
        State::Paralyzed => 1,
        State::Asleep(n) => 1 + n as u64,
    };
    turn as u64 | (balls as u64) << 8 | code << 24 | (hp as u64) << 32
}

proof fn packing_is_injective(
    t1: u64,
    b1: u64,
    h1: u64,
    c1: u64,
    t2: u64,
    b2: u64,
    h2: u64,
    c2: u64,
)
    by (bit_vector)
    requires
        t1 < 0x100,
        t2 < 0x100,
        b1 < 0x10000,
        b2 < 0x10000,
        c1 < 0x100,
        c2 < 0x100,
        h1 < 0x1_0000_0000,
        h2 < 0x1_0000_0000,
        t1 | (b1 << 8) | (c1 << 24) | (h1 << 32) == t2 | (b2 << 8) | (c2 << 24) | (h2 << 32),
    ensures
        t1 == t2,
        b1 == b2,
        c1 == c2,
        h1 == h2,
{
}

/// A status that a battle can be in: a sleeping foe sleeps on for at least one
/// action, and no longer than the key has room for.
pub open spec fn packable(state: State) -> bool {
    state matches State::Asleep(n) ==> 1 <= n < 255
}

/// Different states have different keys.
pub proof fn keys_tell_states_apart(
    turn: u8,
    balls: u16,
    hp: u32,
    state: State,
    turn2: u8,
    balls2: u16,
    hp2: u32,
    state2: State,
)
    requires
        packable(state),
        packable(state2),
        packed(turn, balls, hp, state) == packed(turn2, balls2, hp2, state2),
    ensures
        turn == turn2,
        balls == balls2,
        hp == hp2,
        state == state2,
{
    packing_is_injective(
        turn as u64,
        balls as u64,
        hp as u64,
        state.code(),
        turn2 as u64,
        balls2 as u64,
        hp2 as u64,
        state2.code(),
    );
}

/// Pixels of the foe's bar that are filled at this HP (at least one while
/// alive).
pub open spec fn pixels(hp: int, max: int) -> int {
    if hp * 48 / max > 1 {
        hp * 48 / max
    } else {
        1
    }
}

/// Pixels that a bar read at this fill shows.
pub open spec fn pixels_read(per_mille: u16) -> int {
    let n = (per_mille * 48 + 500) / 1000;
    if n < 1 {
        1
    } else if n > 48 {
        48
    } else {
        n
    }
}

/// The bar allows this HP.
pub open spec fn bar_allows(max: u32, per_mille: u16, hp: int) -> bool {
    1 <= hp <= max && pixels(hp, max as int) == pixels_read(per_mille)
}

/// The HP nearest to the fill, between 1 and the maximum.
pub open spec fn bar_guess(max: u32, per_mille: u16) -> int {
    let n = max * per_mille / 1000;
    if n < 1 {
        1
    } else if n > max {
        max as int
    } else {
        n
    }
}

/// The healths that a bar tells: those that it allows, in order, or the nearest to
/// its share where it allows none.
pub open spec fn bar_tells(max: u32, per_mille: u16, hps: Seq<u32>) -> bool {
    &&& (exists|hp: int| bar_allows(max, per_mille, hp)) ==> {
        &&& forall|hp: u32| hps.contains(hp) <==> #[trigger] bar_allows(max, per_mille, hp as int)
        &&& forall|i: int, j: int| 0 <= i < j < hps.len() ==> hps[i] < hps[j]
    }
    &&& !(exists|hp: int| bar_allows(max, per_mille, hp)) ==> hps == seq![
        bar_guess(max, per_mille) as u32,
    ]
    &&& hps.len() > 0
    &&& forall|i: int| 0 <= i < hps.len() ==> 1 <= #[trigger] hps[i] <= max
}

/// Every HP the bar allows: the bar has 48 pixels, `hp × 48 / max` of them
/// filled (at least one while alive). Where no HP shows that bar, the HP
/// nearest to its fill.
pub fn bar_hps(max: u32, per_mille: u16) -> (hps: Vec<u32>)
    requires
        max >= 1,
    ensures
        bar_tells(max, per_mille, hps@),
{
    let raw: u64 = (per_mille as u64 * 48 + 500) / 1000;
    let seen: u64 = if raw < 1 {
        1
    } else if raw > 48 {
        48
    } else {
        raw
    };
    let mut hps: Vec<u32> = Vec::new();
    let mut hp: u32 = 0;
    while hp < max
        invariant
            hp <= max,
            max >= 1,
            seen == pixels_read(per_mille),
            forall|x: u32|
                hps@.contains(x) <==> (x <= hp && #[trigger] bar_allows(max, per_mille, x as int)),
            forall|i: int, j: int| 0 <= i < j < hps@.len() ==> hps@[i] < hps@[j],
            forall|i: int| 0 <= i < hps@.len() ==> 1 <= #[trigger] hps@[i] <= hp,
        decreases max - hp,
    {
        hp += 1;
        let filled: u64 = hp as u64 * 48 / max as u64;
        let shown: u64 = if filled > 1 {
            filled
        } else {
            1
        };
        let ghost before = hps@;
        if shown == seen {
            hps.push(hp);
            assert(bar_allows(max, per_mille, hp as int));
            assert forall|x: u32|
                hps@.contains(x) <==> (x <= hp && #[trigger] bar_allows(
                    max,
                    per_mille,
                    x as int,
                )) by {
                if hps@.contains(x) {
                    let k = choose|k: int| 0 <= k < hps@.len() && hps@[k] == x;
                    if k < before.len() {
                        assert(before.contains(x));
                    }
                }
                if x <= hp && bar_allows(max, per_mille, x as int) {
                    if x == hp {
                        assert(hps@[before.len() as int] == x);
                    } else {
                        assert(before.contains(x));
                        let k = choose|k: int| 0 <= k < before.len() && before[k] == x;
                        assert(hps@[k] == x);
                    }
                }
            }
        } else {
            assert(!bar_allows(max, per_mille, hp as int));
        }
    }
    if hps.len() == 0 {
        assert forall|x: int| !bar_allows(max, per_mille, x) by {
            if bar_allows(max, per_mille, x) {
                assert(bar_allows(max, per_mille, (x as u32) as int));
                assert(hps@.contains(x as u32));
            }
        }
        assert(max * per_mille <= 0xffff_ffff * 65535) by (nonlinear_arith)
            requires
                max <= 0xffff_ffff,
                per_mille <= 65535,
        ;
        let guess: u64 = max as u64 * per_mille as u64 / 1000;
        let hp: u64 = if guess < 1 {
            1
        } else if guess > max as u64 {
            max as u64
        } else {
            guess
        };
        hps.push(hp as u32);
        assert(hps@ =~= seq![bar_guess(max, per_mille) as u32]);
    } else {
        assert(hps@.contains(hps@[0]));
        assert(bar_allows(max, per_mille, hps@[0] as int));
    }
    hps
}

/// How long a sleeping foe may sleep on; the known status otherwise.
pub open spec fn states_left(status: FoeStatus, asleep_for: u8) -> Seq<State> {
    match status {
        FoeStatus::Healthy => seq![State::Healthy],
        FoeStatus::Paralyzed => seq![State::Paralyzed],
        FoeStatus::Asleep => if asleep_for < SLEEP_ACTIONS {
            Seq::new((SLEEP_ACTIONS - asleep_for) as nat, |i: int| State::Asleep((i + 1) as u8))
        } else {
            seq![State::Asleep(1)]
        },
    }
}

/// The foe's status in the belief: how long a sleeping foe may sleep on.
pub fn states(foe: &FoeView) -> (v: Vec<State>)
    ensures
        v@ == states_left(foe.status, foe.asleep_for),
{
    let mut v: Vec<State> = Vec::new();
    match foe.status {
        FoeStatus::Healthy => v.push(State::Healthy),
        FoeStatus::Paralyzed => v.push(State::Paralyzed),
        FoeStatus::Asleep => {
            if foe.asleep_for < SLEEP_ACTIONS {
                let most: u8 = SLEEP_ACTIONS - foe.asleep_for;
                let mut n: u8 = 0;
                while n < most
                    invariant
                        n <= most <= SLEEP_ACTIONS,
                        v@ == Seq::new(n as nat, |i: int| State::Asleep((i + 1) as u8)),
                    decreases most - n,
                {
                    n += 1;
                    v.push(State::Asleep(n));
                    assert(v@ =~= Seq::new(n as nat, |i: int| State::Asleep((i + 1) as u8)));
                }
            } else {
                v.push(State::Asleep(1));
            }
        },
    }
    assert(v@ =~= states_left(foe.status, foe.asleep_for));
    v
}

/// The type that an ability powers up.
pub open spec fn ability_type(ability: Seq<char>) -> Option<Seq<char>> {
    if ability == "OVERGROW"@ {
        Some("TYPE_GRASS"@)
    } else if ability == "BLAZE"@ {
        Some("TYPE_FIRE"@)
    } else if ability == "TORRENT"@ {
        Some("TYPE_WATER"@)
    } else {
        None
    }
}

/// The type that an ability powers up at some HP.
pub open spec fn pinch_of(ability: Option<Seq<char>>, hp: (u16, u16)) -> Option<Seq<char>> {
    match ability {
        Some(a) => if hp.0 * 3 <= hp.1 {
            ability_type(a)
        } else {
            None
        },
        None => None,
    }
}

/// The type our ability powers up now: OVERGROW (grass), BLAZE (fire),
/// TORRENT (water) at a third of our HP or less.
pub fn pinch_type(lead: &Lead) -> (r: Option<String>)
    ensures
        text_of(r) == pinch_of(text_of(lead.member.ability), lead.hp),
{
    match &lead.member.ability {
        Some(a) => {
            if lead.hp.0 as u32 * 3 > lead.hp.1 as u32 {
                return None;
            }
            if same(a, "OVERGROW") {
                Some("TYPE_GRASS".to_owned())
            } else if same(a, "BLAZE") {
                Some("TYPE_FIRE".to_owned())
            } else if same(a, "TORRENT") {
                Some("TYPE_WATER".to_owned())
            } else {
                None
            }
        },
        None => None,
    }
}

/// A move that puts the foe to sleep or paralyses it.
pub open spec fn is_status(data: GameData, mv: Seq<char>) -> bool {
    match data.move_of(mv) {
        Some(m) => m.effect is Some && (m.effect->0@ == "EFFECT_SLEEP"@ || m.effect->0@
            == "EFFECT_PARALYZE"@),
        None => false,
    }
}

/// A move that does damage and is no status move.
pub open spec fn is_attack(data: GameData, mv: Seq<char>) -> bool {
    match data.move_of(mv) {
        Some(m) => !is_status(data, mv) && m.power > 0,
        None => false,
    }
}

/// The game lets our lead use this move.
pub open spec fn usable(data: GameData, member: Member, disabled: Option<Seq<char>>, mv: Seq<char>)
    -> bool {
    member.left(data, mv) > 0 && disabled != Some(mv)
}

/// The usable status moves among the first `n`, in slot order.
pub open spec fn status_choices(
    data: GameData,
    member: Member,
    disabled: Option<Seq<char>>,
    n: nat,
) -> Seq<ChoiceV>
    decreases n,
{
    if n == 0 {
        Seq::empty()
    } else {
        let rest = status_choices(data, member, disabled, (n - 1) as nat);
        let mv = member.moves@[n - 1]@;
        if usable(data, member, disabled, mv) && is_status(data, mv) {
            rest.push(ChoiceV::Status((n - 1) as u8, mv))
        } else {
            rest
        }
    }
}

/// The usable attacks among the first `n`, in slot order.
pub open spec fn attack_choices(
    data: GameData,
    member: Member,
    disabled: Option<Seq<char>>,
    n: nat,
) -> Seq<ChoiceV>
    decreases n,
{
    if n == 0 {
        Seq::empty()
    } else {
        let rest = attack_choices(data, member, disabled, (n - 1) as nat);
        let mv = member.moves@[n - 1]@;
        if usable(data, member, disabled, mv) && is_attack(data, mv) {
            rest.push(ChoiceV::Attack((n - 1) as u8, mv))
        } else {
            rest
        }
    }
}

/// Throw, the status moves, the damaging moves, RUN.
pub open spec fn all_choices(
    data: GameData,
    member: Member,
    status: FoeStatus,
    balls: u16,
    status_allowed: bool,
    disabled: Option<Seq<char>>,
) -> Seq<ChoiceV> {
    (if balls > 0 {
        seq![ChoiceV::Throw]
    } else {
        Seq::<ChoiceV>::empty()
    }) + (if status_allowed && status == FoeStatus::Healthy {
        status_choices(data, member, disabled, member.moves@.len())
    } else {
        Seq::<ChoiceV>::empty()
    }) + attack_choices(data, member, disabled, member.moves@.len()) + seq![ChoiceV::Run]
}

fn add_choice(v: &mut Vec<Choice>, c: Choice)
    ensures
        choices_of(final(v)@) == choices_of(old(v)@).push(c@),
{
    let ghost before = v@;
    v.push(c);
    assert(choices_of(v@) =~= choices_of(before).push(c@));
}

/// Throw, the status moves, the damaging moves, RUN (a move with PP left
/// and not disabled).
pub fn choices(data: &GameData, lead: &Lead, foe: &FoeView, means: &Means) -> (v: Vec<Choice>)
    ensures
        choices_of(v@) == all_choices(
            *data,
            *lead.member,
            foe.status,
            means.balls,
            means.status_allowed,
            match means.disabled {
                Some(d) => Some(d@),
                None => None,
            },
        ),
{
    let member = lead.member;
    let ghost disabled = match means.disabled {
        Some(d) => Some(d@),
        None => None,
    };
    let mut out: Vec<Choice> = Vec::new();
    if means.balls > 0 {
        add_choice(&mut out, Choice::Throw);
    }
    let ghost thrown = choices_of(out@);
    let allowed = means.status_allowed && foe.status == FoeStatus::Healthy;
    let mut attacks: Vec<Choice> = Vec::new();
    let mut i: usize = 0;
    assert(choices_of(out@) =~= thrown + Seq::<ChoiceV>::empty());
    assert(choices_of(attacks@) =~= Seq::empty());
    while i < member.moves.len()
        invariant
            i <= member.moves@.len(),
            member == lead.member,
            disabled == match means.disabled {
                Some(d) => Some(d@),
                None => None,
            },
            choices_of(out@) == thrown + if allowed {
                status_choices(*data, *member, disabled, i as nat)
            } else {
                Seq::<ChoiceV>::empty()
            },
            choices_of(attacks@) == attack_choices(*data, *member, disabled, i as nat),
        decreases member.moves@.len() - i,
    {
        let mv = &member.moves[i];
        let refused = match means.disabled {
            Some(d) => same(d, mv),
            None => false,
        };
        let ghost before = choices_of(out@);
        if member.pp_left(data, mv) > 0 && !refused {
            match data.move_(mv) {
                Some(m) => {
                    let status = match &m.effect {
                        Some(e) => same(e, "EFFECT_SLEEP") || same(e, "EFFECT_PARALYZE"),
                        None => false,
                    };
                    if status {
                        if allowed {
                            add_choice(&mut out, Choice::Status(i as u8, mv.clone()));
                        }
                    } else if m.power > 0 {
                        add_choice(&mut attacks, Choice::Attack(i as u8, mv.clone()));
                    }
                },
                None => {},
            }
        }
        i += 1;
        assert(choices_of(out@) =~= thrown + if allowed {
            status_choices(*data, *member, disabled, i as nat)
        } else {
            Seq::<ChoiceV>::empty()
        });
    }
    let ghost first = out@;
    let ghost hits = attacks@;
    out.append(&mut attacks);
    assert(choices_of(out@) =~= choices_of(first) + choices_of(hits));
    add_choice(&mut out, Choice::Run);
    assert(choices_of(out@) =~= all_choices(
        *data,
        *lead.member,
        foe.status,
        means.balls,
        means.status_allowed,
        disabled,
    ));
    out
}

/// Running is always possible, and a disabled move never is.
pub proof fn disabled_moves_are_never_chosen(
    data: GameData,
    member: Member,
    status: FoeStatus,
    balls: u16,
    status_allowed: bool,
    mv: Seq<char>,
    i: int,
)
    requires
        0 <= i < all_choices(data, member, status, balls, status_allowed, Some(mv)).len(),
    ensures
        ({
            let all = all_choices(data, member, status, balls, status_allowed, Some(mv));
            &&& all.last() == ChoiceV::Run
            &&& all[i] != ChoiceV::Status((all[i])->Status_0, mv)
            &&& all[i] != ChoiceV::Attack((all[i])->Attack_0, mv)
        }),
{
    let n = member.moves@.len();
    moves_listed_are_usable(data, member, Some(mv), n);
}

proof fn moves_listed_are_usable(data: GameData, member: Member, disabled: Option<Seq<char>>, n: nat)
    ensures
        forall|i: int|
            0 <= i < status_choices(data, member, disabled, n).len() ==> (
            #[trigger] status_choices(data, member, disabled, n)[i]) is Status && usable(
                data,
                member,
                disabled,
                status_choices(data, member, disabled, n)[i]->Status_1,
            ),
        forall|i: int|
            0 <= i < attack_choices(data, member, disabled, n).len() ==> (
            #[trigger] attack_choices(data, member, disabled, n)[i]) is Attack && usable(
                data,
                member,
                disabled,
                attack_choices(data, member, disabled, n)[i]->Attack_1,
            ),
    decreases n,
{
    if n > 0 {
        moves_listed_are_usable(data, member, disabled, (n - 1) as nat);
    }
}

/// What the rest of the attempt looks like under the chosen actions: the two
/// limits it is held to, and its figures as they are printed.
#[derive(Debug, Clone, PartialEq, Eq)]
pub struct Outlook {
    /// P(catch) is at least the smallest that an attempt starts with.
    pub likely: bool,
    /// P(our lead faints) is above the largest accepted.
    pub risky: bool,
    /// P(catch), to two places.
    pub catch: String,
    /// P(an attack of ours faints the foe), to two places.
    pub foe_faints: String,
    /// P(our lead faints), to four places.
    pub lead_faints: String,
    /// Expected balls thrown, to one place.
    pub balls: String,
}

/// The decision this turn and its outlook.
#[derive(Debug, Clone, PartialEq, Eq)]
pub struct Odds {
    pub choice: Choice,
    pub outlook: Outlook,
}

pub struct OddsV {
    pub choice: ChoiceV,
    pub likely: bool,
    pub risky: bool,
    pub catch: Seq<char>,
    pub foe_faints: Seq<char>,
    pub lead_faints: Seq<char>,
    pub balls: Seq<char>,
}

impl View for Odds {
    type V = OddsV;

    open spec fn view(&self) -> OddsV {
        OddsV {
            choice: self.choice@,
            likely: self.outlook.likely,
            risky: self.outlook.risky,
            catch: self.outlook.catch@,
            foe_faints: self.outlook.foe_faints@,
            lead_faints: self.outlook.lead_faints@,
            balls: self.outlook.balls@,
        }
    }
}

/// The odds, where there are any.
pub open spec fn odds_of(odds: Option<Odds>) -> Option<OddsV> {
    match odds {
        Some(o) => Some(o@),
        None => None,
    }
}

impl Odds {
    pub fn copy(&self) -> (o: Odds)
        ensures
            o@ == self@,
    {
        Odds {
            choice: self.choice.copy(),
            outlook: Outlook {
                likely: self.outlook.likely,
                risky: self.outlook.risky,
                catch: self.outlook.catch.clone(),
                foe_faints: self.outlook.foe_faints.clone(),
                lead_faints: self.outlook.lead_faints.clone(),
                balls: self.outlook.balls.clone(),
            },
        }
    }
}

// ---- Scenarios ----

/// HP per unit of the solved HP.
pub open spec fn unit_of(max_hp: int) -> int {
    let unit = (max_hp + HP_UNITS - 1) / (HP_UNITS as int);
    if unit > 1 {
        unit
    } else {
        1
    }
}

/// HP per unit of the solved HP (1 up to [`HP_UNITS`] max HP).
pub fn hp_unit(max_hp: u32) -> (unit: u32)
    ensures
        unit == unit_of(max_hp as int),
        unit >= 1,
{
    let unit: u32 = max_hp / HP_UNITS + if max_hp % HP_UNITS > 0 {
        1
    } else {
        0
    };
    if unit > 1 {
        unit
    } else {
        1
    }
}

/// The units that an amount of HP takes, the last one perhaps not full.
pub open spec fn units_of(hp: int, unit: int) -> int {
    (hp + unit - 1) / unit
}

pub fn in_units(hp: u32, unit: u32) -> (n: u32)
    requires
        unit >= 1,
    ensures
        n == units_of(hp as int, unit as int),
{
    let n: u64 = (hp as u64 + unit as u64 - 1) / unit as u64;
    assert(n <= u32::MAX) by (nonlinear_arith)
        requires
            hp <= u32::MAX,
            1 <= unit <= u32::MAX,
            n == (hp + unit - 1) / (unit as int),
    ;
    n as u32
}

/// The HP that some units stand for, at most all of it.
pub open spec fn hp_of_units(units: int, unit: int, max_hp: int) -> int {
    if units * unit < max_hp {
        units * unit
    } else {
        max_hp
    }
}

pub fn hp_in(units: u32, unit: u32, max_hp: u32) -> (hp: u32)
    ensures
        hp == hp_of_units(units as int, unit as int, max_hp as int),
{
    assert(units * unit <= u32::MAX * u32::MAX) by (nonlinear_arith)
        requires
            units <= u32::MAX,
            unit <= u32::MAX,
    ;
    let hp: u64 = units as u64 * unit as u64;
    if hp < max_hp as u64 {
        hp as u32
    } else {
        max_hp
    }
}

/// The damage in units, to the nearest.
pub open spec fn damage_in_units(damage: int, unit: int) -> int {
    (damage + unit / 2) / unit
}

pub fn damage_units(damage: u32, unit: u32) -> (n: u32)
    requires
        unit >= 1,
    ensures
        n == damage_in_units(damage as int, unit as int),
{
    let n: u64 = (damage as u64 + (unit / 2) as u64) / unit as u64;
    assert(n <= u32::MAX) by (nonlinear_arith)
        requires
            damage <= u32::MAX,
            1 <= unit <= u32::MAX,
            n == (damage + unit / 2) / (unit as int),
    ;
    n as u32
}

/// The damage of a move of the type that our ability powers up.
pub fn pinched(damage: u32) -> (d: u32)
    requires
        damage * 3 <= u32::MAX,
    ensures
        d == damage * 3 / 2,
{
    damage * 3 / 2
}

/// How a status move lands.
pub open spec fn lands(data: GameData, mv: Seq<char>) -> (u8, bool) {
    let m = data.move_of(mv);
    let accuracy = match m {
        Some(m) => m.accuracy,
        None => 0,
    };
    (
        if accuracy == 0 || accuracy > 100 {
            100
        } else {
            accuracy
        },
        m is Some && text_of(m->0.effect) == Some("EFFECT_SLEEP"@),
    )
}

/// How a status move lands: its chance in percent, and whether it puts to
/// sleep (else it paralyses).
pub fn status_effect(data: &GameData, mv: &str) -> (r: (u8, bool))
    ensures
        r == lands(*data, mv@),
{
    match data.move_(mv) {
        Some(m) => {
            let sleep = match &m.effect {
                Some(e) => same(e.as_str(), "EFFECT_SLEEP"),
                None => false,
            };
            (
                if m.accuracy == 0 || m.accuracy > 100 {
                    100
                } else {
                    m.accuracy
                },
                sleep,
            )
        },
        None => (100, false),
    }
}

/// (our iv, the foe's iv) of a scenario: the weakest hits on the sturdiest
/// foe, the middle, the strongest hits on the frailest foe. With our stats
/// known only the foe's iv varies.
pub open spec fn scenario_ivs(i: int, known: bool) -> (u32, u32) {
    let ours = if i == 0 {
        0
    } else if i == 1 {
        15
    } else {
        31
    };
    let foe = if i == 0 {
        31
    } else if i == 1 {
        15
    } else {
        0
    };
    (
        ours,
        if known {
            ours
        } else {
            foe
        },
    )
}

/// The three scenarios.
pub fn scenario(i: usize, known: bool) -> (r: (u32, u32))
    ensures
        r == scenario_ivs(i as int, known),
{
    let ours: u32 = if i == 0 {
        0
    } else if i == 1 {
        15
    } else {
        31
    };
    let foe: u32 = if i == 0 {
        31
    } else if i == 1 {
        15
    } else {
        0
    };
    (
        ours,
        if known {
            ours
        } else {
            foe
        },
    )
}

/// Foes of at most so much HP are solved exactly.
pub proof fn small_foes_are_solved_exactly(max_hp: int, hp: int)
    requires
        0 < max_hp <= HP_UNITS,
        0 <= hp <= max_hp,
    ensures
        unit_of(max_hp) == 1,
        units_of(hp, unit_of(max_hp)) == hp,
        damage_in_units(hp, unit_of(max_hp)) == hp,
{
}

/// However much HP a foe has, it is solved in a bounded number of units.
pub proof fn units_are_bounded(max_hp: int)
    requires
        0 < max_hp,
    ensures
        units_of(max_hp, unit_of(max_hp)) <= HP_UNITS,
{
    let unit = unit_of(max_hp);
    if unit > 1 {
        assert(max_hp <= unit * HP_UNITS) by (nonlinear_arith)
            requires
                unit == (max_hp + HP_UNITS - 1) / (HP_UNITS as int),
                HP_UNITS == 96u32,
        ;
        assert((max_hp + unit - 1) / unit <= HP_UNITS) by (nonlinear_arith)
            requires
                unit > 1,
                max_hp <= unit * HP_UNITS,
        ;
    }
}

} // verus!
