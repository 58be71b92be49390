//! Who won: the judge reads the contacts that began during a step and
//! decides the match when the ball has touched a goal.

use vstd::prelude::*;

verus! {

/// One of the two competitors.
#[derive(Clone, Copy, Debug, PartialEq, Eq, Structural)]
pub enum Slot {
    One,
    Two,
}

/// What a collider stands for.
#[derive(Clone, Copy, Debug, PartialEq, Eq, Structural)]
pub enum ObjectType {
    Any,
    Ball,
    Bot1Goal,
    Bot2Goal,
    Bot1,
    Bot2,
}

/// The outcome of a match, or that it has none yet.
#[derive(Clone, Copy, Debug, PartialEq, Eq, Structural)]
pub enum MatchResult {
    Ongoing,
    Winner(Slot),
    Draw,
}

/// Two colliders that began to touch, by the marks they carry.
#[derive(Clone, Copy, Debug, PartialEq, Eq, Structural)]
pub struct Contact {
    pub first: u128,
    pub second: u128,
}

/// The number of a slot: 1 or 2.
pub open spec fn spec_slot_number(slot: Slot) -> u8 {
    match slot {
        Slot::One => 1,
        Slot::Two => 2,
    }
}

/// The mark a collider of this type carries.
pub open spec fn spec_object_code(object: ObjectType) -> u128 {
    match object {
        ObjectType::Any => 0,
        ObjectType::Ball => 1,
        ObjectType::Bot1Goal => 2,
        ObjectType::Bot2Goal => 3,
        ObjectType::Bot1 => 4,
        ObjectType::Bot2 => 5,
    }
}

/// The type a mark stands for; an unknown mark is `Any`.
pub open spec fn spec_object_of(code: u128) -> ObjectType {
    if code == 1 {
        ObjectType::Ball
    } else if code == 2 {
        ObjectType::Bot1Goal
    } else if code == 3 {
        ObjectType::Bot2Goal
    } else if code == 4 {
        ObjectType::Bot1
    } else if code == 5 {
        ObjectType::Bot2
    } else {
        ObjectType::Any
    }
}

/// The winner that a single contact decides, if it decides one: the
/// ball in the first bot's goal is a win for the second bot, and the
/// other way round.  The order of the two sides does not matter.
pub open spec fn spec_contact_winner(first: ObjectType, second: ObjectType) -> Option<Slot> {
    if (first == ObjectType::Ball && second == ObjectType::Bot1Goal) || (first
        == ObjectType::Bot1Goal && second == ObjectType::Ball) {
        Some(Slot::Two)
    } else if (first == ObjectType::Ball && second == ObjectType::Bot2Goal) || (first
        == ObjectType::Bot2Goal && second == ObjectType::Ball) {
        Some(Slot::One)
    } else {
        None
    }
}

/// The judge's state after one more contact.  A decided match stays as
/// it is.
pub open spec fn spec_judge(state: MatchResult, contact: Contact) -> MatchResult {
    match state {
        MatchResult::Ongoing => match spec_contact_winner(
            spec_object_of(contact.first),
            spec_object_of(contact.second),
        ) {
            Some(slot) => MatchResult::Winner(slot),
            None => MatchResult::Ongoing,
        },
        _ => state,
    }
}

/// The judge's state after a sequence of contacts, taken in order.
pub open spec fn spec_judge_all(state: MatchResult, contacts: Seq<Contact>) -> MatchResult
    decreases contacts.len(),
{
    if contacts.len() == 0 {
        state
    } else {
        spec_judge(spec_judge_all(state, contacts.drop_last()), contacts.last())
    }
}

/// The numeric form of a result: 0 while there is no winner, else the
/// winner's slot number.
pub open spec fn spec_result_code(result: MatchResult) -> u8 {
    match result {
        MatchResult::Winner(slot) => spec_slot_number(slot),
        _ => 0,
    }
}

impl Slot {
    /// The slot's number: 1 or 2.
    pub fn number(&self) -> (n: u8)
        ensures
            n == spec_slot_number(*self),
    {
        match self {
            Slot::One => 1,
            Slot::Two => 2,
        }
    }

    /// The other competitor.
    pub open spec fn opponent_spec(self) -> Slot {
        match self {
            Slot::One => Slot::Two,
            Slot::Two => Slot::One,
        }
    }

    /// The type of the body that embodies the bot in this slot.
    pub open spec fn body_type_spec(self) -> ObjectType {
        match self {
            Slot::One => ObjectType::Bot1,
            Slot::Two => ObjectType::Bot2,
        }
    }

    /// The other competitor.
    pub fn opponent(&self) -> (other: Slot)
        ensures
            other == self.opponent_spec(),
            other != *self,
    {
        match self {
            Slot::One => Slot::Two,
            Slot::Two => Slot::One,
        }
    }

    /// The type of the body that embodies the bot in this slot.
    pub fn body_type(&self) -> (object: ObjectType)
        ensures
            object == self.body_type_spec(),
    {
        match self {
            Slot::One => ObjectType::Bot1,
            Slot::Two => ObjectType::Bot2,
        }
    }
}

impl ObjectType {
    /// The mark a collider of this type carries.
    pub fn code(&self) -> (code: u128)
        ensures
            code == spec_object_code(*self),
            spec_object_of(code) == *self,
    {
        match self {
            ObjectType::Any => 0,
            ObjectType::Ball => 1,
            ObjectType::Bot1Goal => 2,
            ObjectType::Bot2Goal => 3,
            ObjectType::Bot1 => 4,
            ObjectType::Bot2 => 5,
        }
    }

    /// The type a mark stands for; an unknown mark is `Any`.
    pub fn from_code(code: u128) -> (object: ObjectType)
        ensures
            object == spec_object_of(code),
    {
        if code == 1 {
            ObjectType::Ball
        } else if code == 2 {
            ObjectType::Bot1Goal
        } else if code == 3 {
            ObjectType::Bot2Goal
        } else if code == 4 {
            ObjectType::Bot1
        } else if code == 5 {
            ObjectType::Bot2
        } else {
            ObjectType::Any
        }
    }
}

impl MatchResult {
    /// 0 while there is no winner, else the winner's slot number.
    pub fn code(&self) -> (code: u8)
        ensures
            code == spec_result_code(*self),
    {
        match self {
            MatchResult::Winner(slot) => slot.number(),
            _ => 0,
        }
    }

    /// Whether the match has an outcome.
    pub fn is_final(&self) -> (decided: bool)
        ensures
            decided == (*self != MatchResult::Ongoing),
    {
        match self {
            MatchResult::Ongoing => false,
            _ => true,
        }
    }
}

/// The winner that a contact between two objects decides, if any.
pub fn contact_winner(first: ObjectType, second: ObjectType) -> (winner: Option<Slot>)
    ensures
        winner == spec_contact_winner(first, second),
{
    match (first, second) {
        (ObjectType::Ball, ObjectType::Bot1Goal) => Some(Slot::Two),
        (ObjectType::Bot1Goal, ObjectType::Ball) => Some(Slot::Two),
        (ObjectType::Ball, ObjectType::Bot2Goal) => Some(Slot::One),
        (ObjectType::Bot2Goal, ObjectType::Ball) => Some(Slot::One),
        _ => None,
    }
}

/// Feeds one contact to the judge.
pub fn handle_collision_event(state: MatchResult, contact: Contact) -> (next: MatchResult)
    ensures
        next == spec_judge(state, contact),
{
    match state {
        MatchResult::Ongoing => {
            let first = ObjectType::from_code(contact.first);
            let second = ObjectType::from_code(contact.second);
            match contact_winner(first, second) {
                Some(slot) => MatchResult::Winner(slot),
                None => MatchResult::Ongoing,
            }
        },
        _ => state,
    }
}

/// Feeds the contacts of one step to the judge, in order.
pub fn judge_contacts(state: MatchResult, contacts: &Vec<Contact>) -> (next: MatchResult)
    ensures
        next == spec_judge_all(state, contacts@),
        state != MatchResult::Ongoing ==> next == state,
        next != MatchResult::Draw || state == MatchResult::Draw,
{
    let mut current = state;
    let mut i: usize = 0;
    while i < contacts.len()
        invariant
            i <= contacts.len(),
            current == spec_judge_all(state, contacts@.take(i as int)),
        decreases contacts.len() - i,
    {
        proof {
            assert(contacts@.take(i + 1).drop_last() =~= contacts@.take(i as int));
        }
        current = handle_collision_event(current, contacts[i]);
        i += 1;
    }
    proof {
        assert(contacts@.take(i as int) =~= contacts@);
        lemma_decided_stays(state, contacts@);
        lemma_judge_never_draws(state, contacts@);
    }
    current
}

/// Once the match is decided, no further contact changes the outcome.
pub proof fn lemma_decided_stays(state: MatchResult, contacts: Seq<Contact>)
    ensures
        state != MatchResult::Ongoing ==> spec_judge_all(state, contacts) == state,
    decreases contacts.len(),
{
    if contacts.len() > 0 {
        lemma_decided_stays(state, contacts.drop_last());
    }
}

/// The judge never declares a draw: it leaves the match ongoing or
/// names a winner.
pub proof fn lemma_judge_never_draws(state: MatchResult, contacts: Seq<Contact>)
    ensures
        spec_judge_all(state, contacts) == MatchResult::Draw ==> state == MatchResult::Draw,
    decreases contacts.len(),
{
    if contacts.len() > 0 {
        lemma_judge_never_draws(state, contacts.drop_last());
    }
}

/// Judging two runs of contacts one after the other is judging them
/// joined: the first decisive contact wins, whatever follows.
pub proof fn lemma_judge_concat(state: MatchResult, earlier: Seq<Contact>, later: Seq<Contact>)
    ensures
        spec_judge_all(state, earlier + later) == spec_judge_all(
            spec_judge_all(state, earlier),
            later,
        ),
    decreases later.len(),
{
    if later.len() == 0 {
        assert(earlier + later =~= earlier);
    } else {
        lemma_judge_concat(state, earlier, later.drop_last());
        assert((earlier + later).drop_last() =~= earlier + later.drop_last());
        assert((earlier + later).last() == later.last());
    }
}

/// Win detection: a contact of the ball with the first bot's goal,
/// in either order, makes the second bot the winner; with the second
/// bot's goal, the first bot; with a bot's body, nobody.
pub proof fn lemma_win_detection()
    ensures
        forall|first: ObjectType, second: ObjectType|
            spec_contact_winner(first, second) == spec_contact_winner(second, first),
        spec_contact_winner(ObjectType::Ball, ObjectType::Bot1Goal) == Some(Slot::Two),
        spec_contact_winner(ObjectType::Ball, ObjectType::Bot2Goal) == Some(Slot::One),
        spec_contact_winner(ObjectType::Ball, ObjectType::Bot1) == None::<Slot>,
        spec_contact_winner(ObjectType::Ball, ObjectType::Bot2) == None::<Slot>,
        forall|first: ObjectType, second: ObjectType|
            first != ObjectType::Ball && second != ObjectType::Ball ==> spec_contact_winner(
                first,
                second,
            ) == None::<Slot>,
{
}

} // verus!
