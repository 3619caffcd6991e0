//! Learning a move: what the text says, what is answered, and what changes in
//! the party.

use vstd::prelude::*;

use crate::event::GameEventV;
use crate::executor::DecisionV;
use crate::gamedata::GameData;
use crate::input::Button;
use crate::learn::{
    choice_row, first_named, holds_at, list_moves, list_news, named_member, parsed, said,
    toward_row, with_moves, LearningV, OfferV, TextFactV,
};
use crate::moves::{best_choice, LearnChoice};
use crate::observe::{lines_of, MoveListObservation};
use crate::party::{displayed, max_pp, name_matches, Member, Party};
use crate::promises::{button_pressed, cursor_after, gap};
use crate::text::{first_at, last_word, occurs_at, trimmed, within};

verus! {

/// A name can be read off the end of a text where no space stands in it.
pub open spec fn one_word(name: Seq<char>) -> bool {
    name.len() > 0 && forall|i: int| 0 <= i < name.len() ==> #[trigger] name[i] != ' '
}

/// A sentence of the game: what comes before, the Pokemon's name, what happened,
/// what it happened with, and the end.
pub open spec fn sentence(
    before: Seq<char>,
    name: Seq<char>,
    happened: Seq<char>,
    what: Seq<char>,
    end: char,
) -> Seq<char> {
    before + name + happened + what + seq![end]
}

/// A sentence that says one thing once: the name is a word of its own, the text
/// between is bare, and the words for what happened stand in it nowhere earlier.
pub open spec fn plain_sentence(
    before: Seq<char>,
    name: Seq<char>,
    happened: Seq<char>,
    what: Seq<char>,
    end: char,
) -> bool {
    &&& before.len() == 0 || before.last() == ' '
    &&& one_word(name)
    &&& what.len() > 0 && trimmed(what) == what
    &&& forall|i: int| 0 <= i < what.len() ==> #[trigger] what[i] != end
    &&& forall|j: int|
        0 <= j < before.len() + name.len() ==> !occurs_at(
            sentence(before, name, happened, what, end),
            happened,
            j,
        )
}

proof fn the_last_word_is_the_name(before: Seq<char>, name: Seq<char>)
    requires
        before.len() == 0 || before.last() == ' ',
        forall|i: int| 0 <= i < name.len() ==> #[trigger] name[i] != ' ',
    ensures
        last_word(before + name) == name,
    decreases name.len(),
{
    if name.len() == 0 {
        assert(before + name =~= before);
        assert(last_word(before) =~= name);
    } else {
        let s = before + name;
        assert(s.last() == name[name.len() - 1]);
        assert(s.drop_last() =~= before + name.drop_last());
        assert(forall|i: int|
            0 <= i < name.len() - 1 ==> #[trigger] name.drop_last()[i] == name[i]);
        the_last_word_is_the_name(before, name.drop_last());
        assert(name.drop_last().push(name.last()) =~= name);
    }
}

proof fn a_sentence_is_understood(
    before: Seq<char>,
    name: Seq<char>,
    happened: Seq<char>,
    what: Seq<char>,
    end: char,
)
    requires
        plain_sentence(before, name, happened, what, end),
    ensures
        said(sentence(before, name, happened, what, end), happened, seq![end]) == Some(
            (name, what),
        ),
{
    let page = sentence(before, name, happened, what, end);
    let at = (before.len() + name.len()) as int;
    assert(page.subrange(at, at + happened.len()) =~= happened);
    assert(occurs_at(page, happened, at));
    assert(first_at(page, happened, at));
    let found = choose|a: int| first_at(page, happened, a);
    assert(found == at) by {
        assert(first_at(page, happened, found));
        if found < at {
            assert(occurs_at(page, happened, found));
        }
    }
    assert(page.subrange(0, at) =~= before + name);
    the_last_word_is_the_name(before, name);
    let rest = page.subrange(at + happened.len(), page.len() as int);
    assert(rest =~= what + seq![end]);
    let stop = seq![end];
    assert(rest.subrange(what.len() as int, what.len() as int + 1) =~= stop);
    assert(occurs_at(rest, stop, what.len() as int));
    assert forall|j: int| 0 <= j < what.len() implies !occurs_at(rest, stop, j) by {
        if occurs_at(rest, stop, j) {
            assert(rest.subrange(j, j + 1)[0] == stop[0]);
            assert(rest[j] == what[j]);
        }
    }
    assert(first_at(rest, stop, what.len() as int));
    let to = choose|t: int| first_at(rest, stop, t);
    assert(first_at(rest, stop, to));
    assert(to == what.len()) by {
        if to < what.len() {
            assert(!occurs_at(rest, stop, to));
        }
    }
    assert(rest.subrange(0, to) =~= what);
}

/// Each of the five sentences is taken for what it says, of the Pokemon and the
/// move or species that it names.
pub proof fn sentences_are_understood(before: Seq<char>, name: Seq<char>, what: Seq<char>)
    ensures
        plain_sentence(before, name, " is trying to learn "@, what, '.') ==> parsed(
            sentence(before, name, " is trying to learn "@, what, '.'),
        ).contains(TextFactV::Offered { pokemon: name, mv: what }),
        plain_sentence(before, name, " forgot "@, what, '.') ==> parsed(
            sentence(before, name, " forgot "@, what, '.'),
        ).contains(TextFactV::Forgot { pokemon: name, mv: what }),
        plain_sentence(before, name, " did not learn "@, what, '.') ==> parsed(
            sentence(before, name, " did not learn "@, what, '.'),
        ).contains(TextFactV::DidNotLearn { pokemon: name, mv: what }),
        plain_sentence(before, name, " learned "@, what, '!') ==> parsed(
            sentence(before, name, " learned "@, what, '!'),
        ).contains(TextFactV::Learned { pokemon: name, mv: what }),
        plain_sentence(before, name, " evolved into "@, what, '!') ==> parsed(
            sentence(before, name, " evolved into "@, what, '!'),
        ).contains(TextFactV::Evolved { pokemon: name, into: what }),
{
    reveal_strlit(".");
    reveal_strlit("!");
    assert("."@ =~= seq!['.']);
    assert("!"@ =~= seq!['!']);
    if plain_sentence(before, name, " is trying to learn "@, what, '.') {
        a_sentence_is_understood(before, name, " is trying to learn "@, what, '.');
        each_fact_is_told(sentence(before, name, " is trying to learn "@, what, '.'));
    }
    if plain_sentence(before, name, " forgot "@, what, '.') {
        a_sentence_is_understood(before, name, " forgot "@, what, '.');
        each_fact_is_told(sentence(before, name, " forgot "@, what, '.'));
    }
    if plain_sentence(before, name, " did not learn "@, what, '.') {
        a_sentence_is_understood(before, name, " did not learn "@, what, '.');
        each_fact_is_told(sentence(before, name, " did not learn "@, what, '.'));
    }
    if plain_sentence(before, name, " learned "@, what, '!') {
        a_sentence_is_understood(before, name, " learned "@, what, '!');
        each_fact_is_told(sentence(before, name, " learned "@, what, '!'));
    }
    if plain_sentence(before, name, " evolved into "@, what, '!') {
        a_sentence_is_understood(before, name, " evolved into "@, what, '!');
        each_fact_is_told(sentence(before, name, " evolved into "@, what, '!'));
    }
}

proof fn each_fact_is_told(page: Seq<char>)
    ensures
        said(page, " is trying to learn "@, "."@) matches Some(x) ==> parsed(page).contains(
            TextFactV::Offered { pokemon: x.0, mv: x.1 },
        ),
        said(page, " forgot "@, "."@) matches Some(x) ==> parsed(page).contains(
            TextFactV::Forgot { pokemon: x.0, mv: x.1 },
        ),
        said(page, " did not learn "@, "."@) matches Some(x) ==> parsed(page).contains(
            TextFactV::DidNotLearn { pokemon: x.0, mv: x.1 },
        ),
        said(page, " learned "@, "!"@) matches Some(x) ==> parsed(page).contains(
            TextFactV::Learned { pokemon: x.0, mv: x.1 },
        ),
        said(page, " evolved into "@, "!"@) matches Some(x) ==> parsed(page).contains(
            TextFactV::Evolved { pokemon: x.0, into: x.1 },
        ),
{
    let all = parsed(page);
    let a: int = if said(page, " is trying to learn "@, "."@) is Some {
        1
    } else {
        0
    };
    let b: int = if said(page, " forgot "@, "."@) is Some {
        a + 1
    } else {
        a
    };
    let c: int = if said(page, " did not learn "@, "."@) is Some {
        b + 1
    } else {
        b
    };
    let d: int = if said(page, " learned "@, "!"@) is Some {
        c + 1
    } else {
        c
    };
    if let Some(x) = said(page, " is trying to learn "@, "."@) {
        assert(all[0] == (TextFactV::Offered { pokemon: x.0, mv: x.1 }));
    }
    if let Some(x) = said(page, " forgot "@, "."@) {
        assert(all[a] == (TextFactV::Forgot { pokemon: x.0, mv: x.1 }));
    }
    if let Some(x) = said(page, " did not learn "@, "."@) {
        assert(all[b] == (TextFactV::DidNotLearn { pokemon: x.0, mv: x.1 }));
    }
    if let Some(x) = said(page, " learned "@, "!"@) {
        assert(all[c] == (TextFactV::Learned { pokemon: x.0, mv: x.1 }));
    }
    if let Some(x) = said(page, " evolved into "@, "!"@) {
        assert(all[d] == (TextFactV::Evolved { pokemon: x.0, into: x.1 }));
    }
}

proof fn the_first_of_the_name_is_meant(party: Party, pokemon: Seq<char>, who: int)
    requires
        first_named(party.members@, pokemon, who),
    ensures
        named_member(party, pokemon) == Some(party.members@[who]),
{
    let members = party.members@;
    let i = choose|i: int| first_named(members, pokemon, i);
    assert(first_named(members, pokemon, i));
    if i < who {
        assert(!name_matches(displayed(members[i].species@), pokemon));
    }
    if who < i {
        assert(!name_matches(displayed(members[who].species@), pokemon));
    }
}

/// A move that was forgotten and the one learned after it: the second stands
/// where the first stood, with its own PP, and the offer is over.
pub proof fn a_forgotten_move_is_replaced(
    l: LearningV,
    pokemon: Seq<char>,
    old_name: Seq<char>,
    new_name: Seq<char>,
    data: GameData,
    party: Party,
    wins: Seq<i64>,
    who: int,
    place: int,
)
    requires
        first_named(party.members@, pokemon, who),
        data.move_read(old_name) is Some,
        data.move_read(new_name) is Some,
        holds_at(party.members@[who].moves@, data.move_read(old_name)->0.key@, place),
        place < 4,
    ensures
        ({
            let forgot = l.told(
                TextFactV::Forgot { pokemon, mv: old_name },
                data,
                party,
                wins,
            );
            let learned = forgot.now.told(
                TextFactV::Learned { pokemon, mv: new_name },
                data,
                party,
                wins,
            );
            let new = data.move_read(new_name)->0.key@;
            &&& forgot.events.len() == 0 && forgot.now.offer == l.offer
            &&& learned.events == seq![
                GameEventV::MoveReplaced {
                    slot: party.members@[who].slot,
                    move_slot: place as u8,
                    old: data.move_read(old_name)->0.key@,
                    new,
                    max_pp: max_pp(data, new),
                },
            ]
            &&& learned.now.offer is None && learned.now.forgot_slot is None
        }),
{
    let m = party.members@[who];
    the_first_of_the_name_is_meant(party, pokemon, who);
    let key = data.move_read(old_name)->0.key@;
    let i = choose|i: int| holds_at(m.moves@, key, i);
    assert(holds_at(m.moves@, key, i));
    assert(i == place) by {
        if i < place {
            assert(m.moves@[i]@ != key);
        }
        if place < i {
            assert(m.moves@[place]@ != key);
        }
    }
}

/// A move learned with none forgotten goes behind those that are known, where
/// there is room and it is not known yet; where not, nothing changes. Either way
/// the offer is over.
pub proof fn a_learned_move_goes_behind(
    l: LearningV,
    pokemon: Seq<char>,
    name: Seq<char>,
    data: GameData,
    party: Party,
    wins: Seq<i64>,
    who: int,
)
    requires
        first_named(party.members@, pokemon, who),
        data.move_read(name) is Some,
        l.forgot_slot is None,
    ensures
        ({
            let t = l.told(TextFactV::Learned { pokemon, mv: name }, data, party, wins);
            let m = party.members@[who];
            let new = data.move_read(name)->0.key@;
            let known = exists|i: int| 0 <= i < m.moves@.len() && (#[trigger] m.moves@[i])@ == new;
            &&& t.now.offer is None && t.now.forgot_slot is None
            &&& m.moves@.len() < 4 && !known ==> t.events == seq![
                GameEventV::MoveLearned {
                    slot: m.slot,
                    move_slot: m.moves@.len() as u8,
                    mv: new,
                    max_pp: max_pp(data, new),
                },
            ]
            &&& m.moves@.len() >= 4 || known ==> t.events.len() == 0
        }),
{
    let m = party.members@[who];
    the_first_of_the_name_is_meant(party, pokemon, who);
    let new = data.move_read(name)->0.key@;
    if exists|i: int| 0 <= i < m.moves@.len() && (#[trigger] m.moves@[i])@ == new {
        let i = choose|i: int| 0 <= i < m.moves@.len() && (#[trigger] m.moves@[i])@ == new;
        a_held_move_has_a_first_place(m.moves@, new, i);
    }
}

proof fn a_held_move_has_a_first_place(moves: Seq<String>, key: Seq<char>, i: int)
    requires
        0 <= i < moves.len(),
        moves[i]@ == key,
    ensures
        exists|j: int| holds_at(moves, key, j),
    decreases i,
{
    if exists|j: int| 0 <= j < i && (#[trigger] moves[j])@ == key {
        let j = choose|j: int| 0 <= j < i && (#[trigger] moves[j])@ == key;
        a_held_move_has_a_first_place(moves, key, j);
    } else {
        assert(holds_at(moves, key, i));
    }
}

/// An offer is kept with what the moves' worth says of it; one that is refused
/// in the end is over, with nothing changed.
pub proof fn an_offer_is_weighed(
    l: LearningV,
    pokemon: Seq<char>,
    name: Seq<char>,
    data: GameData,
    party: Party,
    wins: Seq<i64>,
    who: int,
)
    requires
        first_named(party.members@, pokemon, who),
        data.move_read(name) is Some,
    ensures
        ({
            let offered = l.told(TextFactV::Offered { pokemon, mv: name }, data, party, wins);
            let refused = offered.now.told(
                TextFactV::DidNotLearn { pokemon, mv: name },
                data,
                party,
                wins,
            );
            let key = data.move_read(name)->0.key@;
            &&& offered.events.len() == 0 && refused.events.len() == 0
            &&& offered.now.forgot_slot is None
            &&& offered.now.offer == Some(
                OfferV {
                    pokemon,
                    mv: key,
                    choice: best_choice(data, party.members@[who], key, wins),
                },
            )
            &&& refused.now.offer is None && refused.now.forgot_slot is None
        }),
{
    let m = party.members@[who];
    the_first_of_the_name_is_meant(party, pokemon, who);
}

/// A question about an offer is answered with YES exactly where that leads to
/// what was chosen: to delete a move where one is to be forgotten, to stop where
/// none is. Without an offer, or on another page, nothing is answered.
pub proof fn questions_are_answered_as_chosen(l: LearningV, page: Seq<char>)
    ensures
        l.offer is None ==> l.answering(page) is None,
        l.offer is Some && within(page, "Delete a move to make room for"@) ==> l.answering(page)
            == Some(l.offer->0.choice != LearnChoice::Skip),
        l.offer is Some && !within(page, "Delete a move to make room for"@) && within(
            page,
            "Stop learning"@,
        ) ==> l.answering(page) == Some(l.offer->0.choice == LearnChoice::Skip),
        !within(page, "Delete a move to make room for"@) && !within(page, "Stop learning"@)
            ==> l.answering(page) is None,
{
}

/// On the list of moves A is pressed on the row of the move to forget, or on the
/// fifth where none is; on any other row the press brings the cursor one row
/// nearer to it.
pub proof fn the_chosen_row_is_picked(list: MoveListObservation, choice: LearnChoice)
    requires
        choice is Forget ==> choice->Forget_0 < 4,
        list.selected is Some,
    ensures
        ({
            let want: int = match choice {
                LearnChoice::Forget(slot) => slot as int,
                LearnChoice::Skip => 4,
            };
            let at = list.selected->0 as int;
            let b = button_pressed(toward_row(list, choice_row(choice)));
            &&& b is Some
            &&& b == Some(Button::A) <==> at == want
            &&& at != want ==> gap(cursor_after((0, at), b->0).1, want) == gap(at, want) - 1
        }),
{
}

/// Nothing is pressed on a list whose selection was not seen.
pub proof fn no_row_is_picked_unseen(list: MoveListObservation, choice: LearnChoice)
    requires
        list.selected is None,
    ensures
        toward_row(list, choice_row(choice)) is Wait,
{
}

/// A list that shows four moves, all of which can be read, is news where they are
/// not those that were known, and tells them in its order; else it is none.
pub proof fn a_list_of_moves_may_be_news(
    data: GameData,
    list: MoveListObservation,
    m: Member,
    i: int,
)
    requires
        0 <= i < 4,
    ensures
        ({
            let news = list_news(data, list, m);
            &&& list.moves@.len() < 4 ==> news is None
            &&& list.moves@.len() >= 4 && data.move_read(list.moves@[i]@) is None ==> news is None
            &&& news is Some ==> news->0.len() == 4 && data.move_read(list.moves@[i]@) is Some
                && news->0[i] == data.move_read(list.moves@[i]@)->0.key@ && news->0 != lines_of(
                m.moves@,
            )
            &&& list.moves@.len() >= 4 && m.moves@.len() == 4 && (forall|k: int|
                0 <= k < 4 ==> data.move_read((#[trigger] list.moves@[k])@) is Some)
                && data.move_read(list.moves@[i]@)->0.key@ != m.moves@[i]@ ==> news is Some
        }),
{
    let names = lines_of(list.moves@);
    if list.moves@.len() >= 4 {
        moves_are_read_in_order(data, names, 4);
        assert(names[i] == list.moves@[i]@);
        if forall|k: int| 0 <= k < 4 ==> data.move_read((#[trigger] list.moves@[k])@) is Some {
            assert forall|k: int| 0 <= k < 4 implies data.move_read(
                #[trigger] names[k],
            ) is Some by {
                assert(names[k] == list.moves@[k]@);
            }
            if m.moves@.len() == 4 && data.move_read(list.moves@[i]@)->0.key@ != m.moves@[i]@ {
                assert(lines_of(m.moves@)[i] == m.moves@[i]@);
            }
        }
    }
}

proof fn moves_are_read_in_order(data: GameData, names: Seq<Seq<char>>, n: nat)
    requires
        n <= names.len(),
    ensures
        list_moves(data, names, n) is Some <==> forall|k: int|
            0 <= k < n ==> data.move_read(#[trigger] names[k]) is Some,
        list_moves(data, names, n) is Some ==> list_moves(data, names, n)->0.len() == n && forall|
            k: int,
        |
            0 <= k < n ==> #[trigger] list_moves(data, names, n)->0[k] == data.move_read(
                names[k],
            )->0.key@,
    decreases n,
{
    if n > 0 {
        moves_are_read_in_order(data, names, (n - 1) as nat);
        if list_moves(data, names, n) is None {
            if list_moves(data, names, (n - 1) as nat) is Some {
                assert(data.move_read(names[n - 1]) is None);
            }
        }
    }
}

/// A page is read once: the same page again, or an empty one, says nothing more;
/// another is remembered, and says what its sentences say.
pub proof fn a_page_is_read_once(
    l: LearningV,
    page: Seq<char>,
    data: GameData,
    party: Party,
    wins: Seq<i64>,
)
    ensures
        ({
            let t = l.page_read(page, data, party, wins);
            &&& page.len() == 0 || page == l.last_page ==> t.now == l && t.events.len() == 0
                && t.log.len() == 0
            &&& page.len() > 0 && page != l.last_page && parsed(page).len() == 0 ==> t.now == (
            LearningV { last_page: page, ..l }) && t.events.len() == 0
            &&& page.len() > 0 && page != l.last_page && parsed(page).len() == 1 ==> ({
                let told = (LearningV { last_page: page, ..l }).told(
                    parsed(page)[0],
                    data,
                    party,
                    wins,
                );
                t.now == told.now && t.events == told.events
            })
        }),
{
    let facts = parsed(page);
    let next = LearningV { last_page: page, ..l };
    reveal_with_fuel(LearningV::told_all, 3);
    if facts.len() == 1 {
        assert(facts.drop_last().len() == 0);
        let told = next.told(facts[0], data, party, wins);
        assert(Seq::<GameEventV>::empty() + told.events =~= told.events);
    }
}

/// An evolution is told of who evolved, and changes nothing about a move that is
/// offered; of a species that cannot be read nothing is told. An offer, whoever it
/// is to, starts with nothing forgotten.
pub proof fn an_evolution_is_told(
    l: LearningV,
    pokemon: Seq<char>,
    into: Seq<char>,
    data: GameData,
    party: Party,
    wins: Seq<i64>,
    who: int,
)
    ensures
        ({
            let t = l.told(TextFactV::Evolved { pokemon, into }, data, party, wins);
            let species = data.species_read(into);
            &&& t.now == l
            &&& first_named(party.members@, pokemon, who) && species is Some ==> t.events == seq![
                GameEventV::Evolved { slot: party.members@[who].slot, species: species->0.key@ },
            ]
            &&& species is None ==> t.events.len() == 0
            &&& l.told(
                TextFactV::Offered { pokemon, mv: into },
                data,
                party,
                wins,
            ).now.forgot_slot is None
        }),
{
    if first_named(party.members@, pokemon, who) {
        the_first_of_the_name_is_meant(party, pokemon, who);
    }
}

/// The move list is answered by what was chosen: the row of the choice is gone to
/// and picked, one press nearer at a time. Moves that are not those known are told,
/// and the choice is made anew by them. Without an offer nothing is picked.
pub proof fn the_list_is_answered(
    l: LearningV,
    list: MoveListObservation,
    data: GameData,
    party: Party,
    wins: Seq<i64>,
    next: LearningV,
    d: DecisionV,
    events: Seq<GameEventV>,
    who: int,
    seen: Member,
)
    requires
        l.list_taken(list, data, party, wins, next, d, events),
    ensures
        l.offer is None ==> d is Fail && next == l,
        l.offer is Some && first_named(party.members@, l.offer->0.pokemon, who) ==> ({
            let m = party.members@[who];
            let news = list_news(data, list, m);
            &&& next.offer is Some && d == toward_row(list, choice_row(next.offer->0.choice))
            &&& next.offer->0.mv == l.offer->0.mv && next.offer->0.pokemon == l.offer->0.pokemon
            &&& news is None ==> next == l && events.len() == 0
            &&& news is Some ==> events == seq![
                GameEventV::MovesObserved { slot: m.slot, moves: news->0 },
            ]
            &&& news is Some && seen.species == m.species && lines_of(seen.moves@) == news->0
                ==> next.offer->0.choice == best_choice(data, seen, l.offer->0.mv, wins)
        }),
{
    if l.offer is Some && first_named(party.members@, l.offer->0.pokemon, who) {
        the_first_of_the_name_is_meant(party, l.offer->0.pokemon, who);
        let m = party.members@[who];
        let news = list_news(data, list, m);
        if news is Some && seen.species == m.species && lines_of(seen.moves@) == news->0 {
            assert(with_moves(m, seen, news->0));
        }
    }
}

} // verus!
