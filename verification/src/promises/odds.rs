//! What the odds are asked: the health that a bar shows, the turns that are left
//! asleep, and the choices there are.

use vstd::prelude::*;

use crate::catch_odds::{
    all_choices, attack_choices, bar_allows, bar_guess, bar_tells, damage_in_units, hp_of_units, is_attack,
    is_status, lands, pinch_of, pixels_read, scenario_ivs, states_left, status_choices, unit_of,
    units_of, usable, ChoiceV, FoeStatus, State,
};
use crate::gamedata::GameData;
use crate::party::Member;

verus! {

/// A bar of 48 pixels shows the nearest pixel to its share, and at least one.
pub proof fn a_bar_is_read_to_the_pixel(per_mille: u16)
    requires
        per_mille <= 1000,
    ensures
        1 <= pixels_read(per_mille) <= 48,
        pixels_read(per_mille) > 1 ==> 1000 * pixels_read(per_mille) - 500 <= 48 * per_mille
            < 1000 * pixels_read(per_mille) + 500,
        pixels_read(per_mille) == 1 ==> 48 * per_mille < 1500,
{
}

/// The health that a bar allows is what fills as many of its pixels: whole pixels
/// only, but for the first, which any health fills.
pub proof fn a_bar_allows_what_fills_it(max: u32, per_mille: u16, hp: int)
    requires
        1 <= hp <= max,
    ensures
        ({
            let p = pixels_read(per_mille);
            bar_allows(max, per_mille, hp) <==> (p == 1 || p * max <= 48 * hp) && 48 * hp < (p
                + 1) * max
        }),
{
    let p = pixels_read(per_mille);
    let m = max as int;
    let q = hp * 48 / m;
    assert(q * m <= hp * 48 < (q + 1) * m) by (nonlinear_arith)
        requires
            q == hp * 48 / m,
            m > 0,
    ;
    assert(q >= 0) by (nonlinear_arith)
        requires
            q == hp * 48 / m,
            m > 0,
            hp > 0,
    ;
    assert(p * m <= 48 * hp && 48 * hp < (p + 1) * m ==> q == p) by (nonlinear_arith)
        requires
            q * m <= hp * 48 < (q + 1) * m,
            m > 0,
    ;
    assert(p == 1 && 48 * hp < (p + 1) * m ==> q <= 1) by (nonlinear_arith)
        requires
            q * m <= hp * 48 < (q + 1) * m,
            m > 0,
    ;
    assert(q <= 1 ==> hp * 48 < 2 * m) by (nonlinear_arith)
        requires
            q * m <= hp * 48 < (q + 1) * m,
            m > 0,
    ;
}

/// A health taken from a share alone is that share, rounded down, and at least
/// one; a full bar is full health.
pub proof fn a_share_is_guessed(max: u32, per_mille: u16)
    requires
        max > 0,
        per_mille <= 1000,
    ensures
        1 <= bar_guess(max, per_mille) <= max,
        per_mille == 1000 ==> bar_guess(max, per_mille) == max,
        bar_guess(max, per_mille) > 1 ==> 1000 * bar_guess(max, per_mille) <= max * per_mille,
        max * per_mille < 1000 * (bar_guess(max, per_mille) + 1),
{
    let x = max * per_mille;
    assert(x <= max * 1000) by (nonlinear_arith)
        requires
            x == max * per_mille,
            per_mille <= 1000,
    ;
    assert(per_mille == 1000 ==> x == max * 1000) by (nonlinear_arith)
        requires
            x == max * per_mille,
    ;
}

/// A foe that has slept for some turns may have any number of turns left up to
/// the four there are, and one at least; a status that does not pass is itself.
pub proof fn the_turns_asleep_are_bounded(asleep_for: u8, left: u8)
    ensures
        states_left(FoeStatus::Healthy, asleep_for) == seq![State::Healthy],
        states_left(FoeStatus::Paralyzed, asleep_for) == seq![State::Paralyzed],
        states_left(FoeStatus::Asleep, asleep_for).contains(State::Asleep(left)) <==> left == 1 || (
        1 <= left && left + asleep_for <= 4),
        !states_left(FoeStatus::Asleep, asleep_for).contains(State::Healthy),
        asleep_for < 4 ==> states_left(FoeStatus::Asleep, asleep_for).len() == 4 - asleep_for,
        asleep_for >= 4 ==> states_left(FoeStatus::Asleep, asleep_for).len() == 1,
{
    let s = states_left(FoeStatus::Asleep, asleep_for);
    if left == 1 {
        assert(s[0] == State::Asleep(1));
    } else if 1 <= left && left + asleep_for <= 4 {
        assert(s[left - 1] == State::Asleep(left));
    }
}

proof fn a_status_choice_is_a_status_move(
    data: GameData,
    member: Member,
    disabled: Option<Seq<char>>,
    n: nat,
    c: ChoiceV,
)
    requires
        n <= member.moves@.len() <= 4,
    ensures
        status_choices(data, member, disabled, n).contains(c) <==> c is Status && c->Status_0 < n
            && c->Status_1 == member.moves@[c->Status_0 as int]@ && usable(
            data,
            member,
            disabled,
            c->Status_1,
        ) && is_status(data, c->Status_1),
    decreases n,
{
    if n > 0 {
        let rest = status_choices(data, member, disabled, (n - 1) as nat);
        let all = status_choices(data, member, disabled, n);
        a_status_choice_is_a_status_move(data, member, disabled, (n - 1) as nat, c);
        assert(rest.contains(c) ==> all.contains(c)) by {
            if rest.contains(c) {
                let i = choose|i: int| 0 <= i < rest.len() && rest[i] == c;
                assert(all[i] == c);
            }
        }
        assert(all.len() > rest.len() ==> all[rest.len() as int] == ChoiceV::Status(
            (n - 1) as u8,
            member.moves@[n - 1]@,
        ));
        assert(all.contains(c) && !rest.contains(c) ==> all.len() > rest.len() && c == all.last());
    }
}

proof fn an_attack_choice_is_an_attack(
    data: GameData,
    member: Member,
    disabled: Option<Seq<char>>,
    n: nat,
    c: ChoiceV,
)
    requires
        n <= member.moves@.len() <= 4,
    ensures
        attack_choices(data, member, disabled, n).contains(c) <==> c is Attack && c->Attack_0 < n
            && c->Attack_1 == member.moves@[c->Attack_0 as int]@ && usable(
            data,
            member,
            disabled,
            c->Attack_1,
        ) && is_attack(data, c->Attack_1),
    decreases n,
{
    if n > 0 {
        let rest = attack_choices(data, member, disabled, (n - 1) as nat);
        let all = attack_choices(data, member, disabled, n);
        an_attack_choice_is_an_attack(data, member, disabled, (n - 1) as nat, c);
        assert(rest.contains(c) ==> all.contains(c)) by {
            if rest.contains(c) {
                let i = choose|i: int| 0 <= i < rest.len() && rest[i] == c;
                assert(all[i] == c);
            }
        }
        assert(all.len() > rest.len() ==> all[rest.len() as int] == ChoiceV::Attack(
            (n - 1) as u8,
            member.moves@[n - 1]@,
        ));
        assert(all.contains(c) && !rest.contains(c) ==> all.len() > rest.len() && c == all.last());
    }
}

/// The choices of a turn: a throw exactly where there is a ball; a move of the
/// member by its own place, with PP left and not disabled, as a status move where
/// it puts to sleep or paralyzes and that may be tried on a healthy foe, and as an
/// attack where it has power and does neither; and last, and always, to run.
pub proof fn the_choices_there_are(
    data: GameData,
    member: Member,
    status: FoeStatus,
    balls: u16,
    status_allowed: bool,
    disabled: Option<Seq<char>>,
    place: u8,
)
    requires
        place < member.moves@.len() <= 4,
    ensures
        ({
            let all = all_choices(data, member, status, balls, status_allowed, disabled);
            let mv = member.moves@[place as int]@;
            let ready = member.left(data, mv) > 0 && disabled != Some(mv);
            let m = data.move_of(mv);
            let slows = m is Some && m->0.effect is Some && (m->0.effect->0@ == "EFFECT_SLEEP"@
                || m->0.effect->0@ == "EFFECT_PARALYZE"@);
            &&& all.contains(ChoiceV::Throw) <==> balls > 0
            &&& balls > 0 ==> all[0] == ChoiceV::Throw
            &&& all.contains(ChoiceV::Status(place, mv)) <==> ready && slows && status_allowed
                && status == FoeStatus::Healthy
            &&& all.contains(ChoiceV::Attack(place, mv)) <==> ready && !slows && m is Some
                && m->0.power > 0
            &&& all.len() > 0 && all.last() == ChoiceV::Run
        }),
{
    let all = all_choices(data, member, status, balls, status_allowed, disabled);
    let mv = member.moves@[place as int]@;
    let n = member.moves@.len();
    let a: Seq<ChoiceV> = if balls > 0 {
        seq![ChoiceV::Throw]
    } else {
        Seq::empty()
    };
    let b: Seq<ChoiceV> = if status_allowed && status == FoeStatus::Healthy {
        status_choices(data, member, disabled, n)
    } else {
        Seq::empty()
    };
    let c = attack_choices(data, member, disabled, n);
    let d = seq![ChoiceV::Run];
    assert(all == a + b + c + d);
    four_parts_hold(a, b, c, d, ChoiceV::Throw);
    four_parts_hold(a, b, c, d, ChoiceV::Status(place, mv));
    four_parts_hold(a, b, c, d, ChoiceV::Attack(place, mv));
    a_status_choice_is_a_status_move(data, member, disabled, n, ChoiceV::Throw);
    an_attack_choice_is_an_attack(data, member, disabled, n, ChoiceV::Throw);
    a_status_choice_is_a_status_move(data, member, disabled, n, ChoiceV::Status(place, mv));
    an_attack_choice_is_an_attack(data, member, disabled, n, ChoiceV::Status(place, mv));
    a_status_choice_is_a_status_move(data, member, disabled, n, ChoiceV::Attack(place, mv));
    an_attack_choice_is_an_attack(data, member, disabled, n, ChoiceV::Attack(place, mv));
    if balls > 0 {
        assert(a[0] == ChoiceV::Throw);
    }
}

proof fn four_parts_hold(
    a: Seq<ChoiceV>,
    b: Seq<ChoiceV>,
    c: Seq<ChoiceV>,
    d: Seq<ChoiceV>,
    x: ChoiceV,
)
    ensures
        (a + b + c + d).contains(x) <==> a.contains(x) || b.contains(x) || c.contains(x)
            || d.contains(x),
{
    let all = a + b + c + d;
    if a.contains(x) {
        let i = choose|i: int| 0 <= i < a.len() && a[i] == x;
        assert(all[i] == x);
    }
    if b.contains(x) {
        let i = choose|i: int| 0 <= i < b.len() && b[i] == x;
        assert(all[a.len() + i] == x);
    }
    if c.contains(x) {
        let i = choose|i: int| 0 <= i < c.len() && c[i] == x;
        assert(all[a.len() + b.len() + i] == x);
    }
    if d.contains(x) {
        let i = choose|i: int| 0 <= i < d.len() && d[i] == x;
        assert(all[a.len() + b.len() + c.len() + i] == x);
    }
    if all.contains(x) {
        let i = choose|i: int| 0 <= i < all.len() && all[i] == x;
        if i < a.len() {
            assert(a[i] == x);
        } else if i < a.len() + b.len() {
            assert(b[i - a.len()] == x);
        } else if i < a.len() + b.len() + c.len() {
            assert(c[i - a.len() - b.len()] == x);
        } else {
            assert(d[i - a.len() - b.len() - c.len()] == x);
        }
    }
}

/// Health is counted in the smallest unit of which no more than 96 are needed;
/// some health is never none, and damage is rounded to the nearest unit.
pub proof fn health_is_counted_in_units(max_hp: int, hp: int, damage: int)
    requires
        max_hp > 0,
        hp > 0,
        damage >= 0,
    ensures
        ({
            let u = unit_of(max_hp);
            let n = units_of(hp, u);
            let d = damage_in_units(damage, u);
            &&& u >= 1 && max_hp <= 96 * u
            &&& u > 1 ==> max_hp > 96 * (u - 1)
            &&& n >= 1 && (n - 1) * u < hp <= n * u
            &&& 2 * (d * u) <= 2 * damage + u && 2 * damage < 2 * (d * u) + u + 1
        }),
{
    let u = unit_of(max_hp);
    let n = (hp + u - 1) / u;
    assert(n >= 1 && (n - 1) * u < hp && hp <= n * u) by (nonlinear_arith)
        requires
            n == (hp + u - 1) / u,
            u >= 1,
            hp > 0,
    ;
    let d = (damage + u / 2) / u;
    assert(d * u <= damage + u / 2 < (d + 1) * u) by (nonlinear_arith)
        requires
            d == (damage + u / 2) / u,
            u >= 1,
    ;
    assert((d + 1) * u == d * u + u) by (nonlinear_arith);
}

/// Three cases are weighed: of what is not known of two Pokemon, the worst for
/// one goes with the best for the other; of what is known the same holds for
/// both.
pub proof fn the_unknown_is_weighed_both_ways(i: int)
    requires
        0 <= i <= 2,
    ensures
        scenario_ivs(i, false).0 == scenario_ivs(2 - i, false).1,
        scenario_ivs(i, true).0 == scenario_ivs(i, true).1,
        scenario_ivs(i, true).0 == scenario_ivs(i, false).0,
        scenario_ivs(0, false) == (0u32, 31u32),
        scenario_ivs(1, false) == (15u32, 15u32),
{
}

/// Sleep doubles the rate of a catch and paralysis makes it half as much again;
/// sleep wears off a turn at a time, and nothing else does.
pub proof fn a_status_helps_the_catch(turns: u8)
    ensures
        State::Healthy.x10() == 10,
        State::Asleep(turns).x10() == 2 * State::Healthy.x10(),
        2 * State::Paralyzed.x10() == 3 * State::Healthy.x10(),
        turns > 1 ==> State::Asleep(turns).next() == State::Asleep((turns - 1) as u8),
        turns <= 1 ==> State::Asleep(turns).next() == State::Healthy,
        State::Paralyzed.next() == State::Paralyzed,
        State::Healthy.next() == State::Healthy,
{
}

/// An ability powers its type up from a third of the health on down: grass, fire
/// and water for the three that do.
pub proof fn an_ability_helps_in_a_pinch(ability: Seq<char>, hp: u16, max: u16)
    ensures
        3 * hp > max ==> pinch_of(Some(ability), (hp, max)) is None,
        pinch_of(None, (hp, max)) is None,
        3 * hp <= max ==> pinch_of(Some("OVERGROW"@), (hp, max)) == Some("TYPE_GRASS"@),
        3 * hp <= max ==> pinch_of(Some("BLAZE"@), (hp, max)) == Some("TYPE_FIRE"@),
        3 * hp <= max ==> pinch_of(Some("TORRENT"@), (hp, max)) == Some("TYPE_WATER"@),
        ability != "OVERGROW"@ && ability != "BLAZE"@ && ability != "TORRENT"@ ==> pinch_of(
            Some(ability),
            (hp, max),
        ) is None,
{
    reveal_strlit("OVERGROW");
    reveal_strlit("BLAZE");
    reveal_strlit("TORRENT");
    assert("OVERGROW"@[0] == 'O');
    assert("BLAZE"@[0] == 'B');
    assert("TORRENT"@[0] == 'T');
}

/// A status move lands with its accuracy; one without, or one that is not known,
/// never misses. It puts to sleep where that is its effect.
pub proof fn how_a_status_move_lands(data: GameData, mv: Seq<char>)
    ensures
        1 <= lands(data, mv).0 <= 100,
        data.move_of(mv) is None ==> lands(data, mv) == (100u8, false),
        data.move_of(mv) is Some && 1 <= data.move_of(mv)->0.accuracy <= 100 ==> lands(data, mv).0
            == data.move_of(mv)->0.accuracy,
        data.move_of(mv) is Some && data.move_of(mv)->0.accuracy == 0 ==> lands(data, mv).0 == 100,
        lands(data, mv).1 <==> data.move_of(mv) is Some && data.move_of(mv)->0.effect is Some
            && data.move_of(mv)->0.effect->0@ == "EFFECT_SLEEP"@,
{
}

/// Health told in units and back is never less than it was, and never more than
/// there is.
pub proof fn units_stand_for_health(hp: int, unit: int, max_hp: int)
    requires
        0 < hp <= max_hp,
        unit >= 1,
    ensures
        hp <= hp_of_units(units_of(hp, unit), unit, max_hp) <= max_hp,
        hp_of_units(units_of(hp, unit), unit, max_hp) < hp + unit,
        hp_of_units(0, unit, max_hp) == 0,
        unit == 1 ==> hp_of_units(units_of(hp, unit), unit, max_hp) == hp,
{
    let n = units_of(hp, unit);
    assert(n >= 1 && (n - 1) * unit < hp && hp <= n * unit) by (nonlinear_arith)
        requires
            n == (hp + unit - 1) / unit,
            unit >= 1,
            hp > 0,
    ;
    assert((n - 1) * unit == n * unit - unit) by (nonlinear_arith);
    assert(0 * unit == 0);
}

/// The true health is among those that its bar tells: however many pixels it fills,
/// as long as the share was read to within half a pixel.
pub proof fn the_true_health_is_told(
    max: u32,
    per_mille: u16,
    hps: Seq<u32>,
    hp: u32,
    filled: int,
)
    requires
        bar_tells(max, per_mille, hps),
        1 <= hp <= max,
        1 <= filled <= 48,
        filled == 1 || filled * max <= 48 * hp,
        48 * hp < (filled + 1) * max,
        -500 <= 48 * per_mille - 1000 * filled < 500,
    ensures
        hps.contains(hp),
{
    assert(pixels_read(per_mille) == filled);
    a_bar_allows_what_fills_it(max, per_mille, hp as int);
    assert(bar_allows(max, per_mille, hp as int));
}

} // verus!
