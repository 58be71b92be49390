//! The battle: two bots, one arena, and the protocol that takes a
//! match from its setup through its ticks to a winner or a draw.

use vstd::prelude::*;
use vstd::multiset::Multiset;
use rapier3d::dynamics::RigidBodyHandle;
use crate::codec::{reconstruct_action, spec_decode};
use crate::error::EngineError;
use crate::guest::{
    create_bot_module, spec_arguments, spec_compiles, spec_is_guest, spec_is_spent, spec_load,
    BotModule,
};
use crate::judge::{judge_contacts, spec_judge_all, Contact, MatchResult, Slot};
use crate::metering::{MeteringPoints, COMPUTE_ACTIONS_GAS, INIT_GAS, MAX_NUM_UPDATES};
use crate::world::{
    action_impulse, kickoff, offset_bits, spec_arena_marks, spec_offset_bits, spec_spawn_point,
    spec_action_impulse, spec_arena_fixtures, spec_kickoff, Fixture, Offset, Position, Push,
    World,
};

verus! {

/// Where a battle stands.
#[derive(Clone, Copy, Debug, PartialEq, Eq, Structural)]
pub enum Phase {
    /// No bot has been added.
    Empty,
    /// The first bot has been added.
    OneBotAdded,
    /// Both bots have been added.
    Ready,
    /// Both bots have run their `init`; no tick has been played.
    Initialized,
    /// At least one tick has been played and the match is undecided.
    Running,
    /// The match is over, with this result.
    Finished(MatchResult),
    /// The match was aborted by a fatal error.
    Aborted,
}

/// What a battle grants its bots and itself.
#[derive(Clone, Copy, Debug, PartialEq, Eq, Structural)]
pub struct Limits {
    /// The budget of each bot's `init` call.
    pub init_gas: u64,
    /// The budget of each `compute_actions` call.
    pub compute_actions_gas: u64,
    /// The number of ticks after which an undecided match is a draw.
    pub max_num_updates: u64,
}

/// A match between two bots.
pub struct Battle {
    bot1: Option<BotModule>,
    bot2: Option<BotModule>,
    world: World,
    phase: Phase,
    ticks: u64,
    limits: Limits,
}

/// The seed that every bot's `init` is called with.
pub const INIT_SEED: u32 = 0;

/// The marks of the colliders of an arena with the first bot in it.
pub open spec fn spec_marks_with_one_bot() -> Multiset<u128> {
    spec_arena_marks().insert(4)
}

/// The marks of the colliders of an arena with both bots in it.
pub open spec fn spec_marks_with_both_bots() -> Multiset<u128> {
    spec_arena_marks().insert(4).insert(5)
}

/// The phase that follows when a bot has been added.
pub open spec fn spec_phase_after_add(phase: Phase) -> Phase {
    match phase {
        Phase::Empty => Phase::OneBotAdded,
        _ => Phase::Ready,
    }
}

/// Whether a bot can be added in this phase.
pub open spec fn spec_accepts_bot(phase: Phase) -> bool {
    phase == Phase::Empty || phase == Phase::OneBotAdded
}

/// Whether a tick can be played in this phase.
pub open spec fn spec_accepts_tick(phase: Phase) -> bool {
    phase == Phase::Initialized || phase == Phase::Running
}

/// The phase in which the bots' `init` leaves a battle: ready for its
/// first tick, or already drawn if it may play none.
pub open spec fn spec_phase_after_init(max_num_updates: u64) -> Phase {
    if max_num_updates == 0 {
        Phase::Finished(MatchResult::Draw)
    } else {
        Phase::Initialized
    }
}

/// The result of a tick: the judge's winner if it named one; else a
/// draw if this was the last tick allowed; else none yet.
pub open spec fn spec_conclude_tick(
    verdict: MatchResult,
    ticks_played: u64,
    max_num_updates: u64,
) -> MatchResult {
    match verdict {
        MatchResult::Winner(slot) => MatchResult::Winner(slot),
        _ => if ticks_played >= max_num_updates {
            MatchResult::Draw
        } else {
            MatchResult::Ongoing
        },
    }
}

/// The phase in which a tick with this result leaves a battle.
pub open spec fn spec_phase_after_tick(result: MatchResult) -> Phase {
    match result {
        MatchResult::Ongoing => Phase::Running,
        _ => Phase::Finished(result),
    }
}

/// The push that sets the bot of a slot moving when play starts.
pub open spec fn spec_kickoff_push(body: RigidBodyHandle, slot: Slot) -> Push {
    Push { body, impulse: spec_offset_bits(spec_kickoff(slot)) }
}

/// The push that an action word asks for.
pub open spec fn spec_action_push(body: RigidBodyHandle, word: u32) -> Push {
    Push { body, impulse: spec_action_impulse(spec_decode(word)) }
}

/// The arguments that the bot of a slot is handed in a tick: where it
/// is itself, where the ball is, and where its enemy is.
pub open spec fn spec_tick_arguments(
    first: Position,
    second: Position,
    ball: Position,
    slot: Slot,
) -> Seq<u32> {
    match slot {
        Slot::One => spec_arguments(first, ball, second),
        Slot::Two => spec_arguments(second, ball, first),
    }
}

/// Concludes a tick from the judge's verdict and the number of ticks
/// played so far, this one included.
pub fn conclude_tick(verdict: MatchResult, ticks_played: u64, max_num_updates: u64) -> (result:
    MatchResult)
    ensures
        result == spec_conclude_tick(verdict, ticks_played, max_num_updates),
{
    match verdict {
        MatchResult::Winner(slot) => MatchResult::Winner(slot),
        _ => if ticks_played >= max_num_updates {
            MatchResult::Draw
        } else {
            MatchResult::Ongoing
        },
    }
}

/// Termination: a tick that reaches the ceiling always ends the
/// match; a tick ends in a draw only at the ceiling and only if the
/// judge named no winner; and the judge's winner always stands.
pub proof fn lemma_ceiling_ends_match(verdict: MatchResult, ticks_played: u64, max_num_updates: u64)
    ensures
        ticks_played >= max_num_updates ==> spec_conclude_tick(
            verdict,
            ticks_played,
            max_num_updates,
        ) != MatchResult::Ongoing,
        spec_conclude_tick(verdict, ticks_played, max_num_updates) == MatchResult::Draw <==> !(verdict is Winner)
            && ticks_played >= max_num_updates,
        verdict is Winner ==> spec_conclude_tick(verdict, ticks_played, max_num_updates)
            == verdict,
{
}

impl Limits {
    /// The limits a battle has unless it is given others.
    pub fn standard() -> (limits: Limits)
        ensures
            limits == (Limits {
                init_gas: INIT_GAS,
                compute_actions_gas: COMPUTE_ACTIONS_GAS,
                max_num_updates: MAX_NUM_UPDATES,
            }),
    {
        Limits {
            init_gas: INIT_GAS,
            compute_actions_gas: COMPUTE_ACTIONS_GAS,
            max_num_updates: MAX_NUM_UPDATES,
        }
    }
}

impl Battle {
    /// The battle's phase.
    pub closed spec fn phase(&self) -> Phase {
        self.phase
    }

    /// The number of ticks played.
    pub closed spec fn ticks(&self) -> u64 {
        self.ticks
    }

    /// The battle's limits.
    pub closed spec fn limits(&self) -> Limits {
        self.limits
    }

    /// Whether the bot of a slot has been added.
    pub closed spec fn has_bot(&self, slot: Slot) -> bool {
        match slot {
            Slot::One => self.bot1.is_some(),
            Slot::Two => self.bot2.is_some(),
        }
    }

    /// Where the bot of a slot is, if it has been added.
    pub closed spec fn place_of(&self, slot: Slot) -> Option<Position> {
        let bot = match slot {
            Slot::One => self.bot1,
            Slot::Two => self.bot2,
        };
        match bot {
            Some(bot) => Some(self.world.places()[bot.body()]),
            None => None,
        }
    }

    /// Where the ball is.
    pub closed spec fn ball_place(&self) -> Position {
        self.world.places()[self.world.ball_handle()]
    }

    /// The numbers that the bot of a slot has printed so far, oldest
    /// first; none if the bot has not been added.
    pub closed spec fn record_of(&self, slot: Slot) -> Seq<u32> {
        let bot = match slot {
            Slot::One => self.bot1,
            Slot::Two => self.bot2,
        };
        match bot {
            Some(bot) => bot.record(),
            None => Seq::empty(),
        }
    }

    /// What the sandbox said when a call of the bot of a slot was last
    /// aborted with budget left; `None` if that has not happened, or
    /// if the bot has not been added.
    pub closed spec fn fault_of(&self, slot: Slot) -> Option<String> {
        let bot = match slot {
            Slot::One => self.bot1,
            Slot::Two => self.bot2,
        };
        match bot {
            Some(bot) => bot.fault_text(),
            None => None,
        }
    }

    /// The bot of a slot, if it has been added.
    pub closed spec fn bot(&self, slot: Slot) -> Option<BotModule> {
        match slot {
            Slot::One => self.bot1,
            Slot::Two => self.bot2,
        }
    }

    /// The body of the bot of a slot, if it has been added.
    pub open spec fn body_of(&self, slot: Slot) -> Option<RigidBodyHandle> {
        match self.bot(slot) {
            Some(bot) => Some(bot.body()),
            None => None,
        }
    }

    /// The bytes that the bot of a slot was loaded from.
    pub open spec fn source_of(&self, slot: Slot) -> Option<Seq<u8>> {
        match self.bot(slot) {
            Some(bot) => Some(bot.source()),
            None => None,
        }
    }

    /// What is left of the budget of the bot of a slot.
    pub open spec fn budget_of(&self, slot: Slot) -> Option<MeteringPoints> {
        match self.bot(slot) {
            Some(bot) => Some(bot.budget()),
            None => None,
        }
    }

    /// The budget that the bot of a slot was last given.
    pub open spec fn granted_of(&self, slot: Slot) -> Option<u64> {
        match self.bot(slot) {
            Some(bot) => Some(bot.granted()),
            None => None,
        }
    }

    /// The seed that the `init` of the bot of a slot was last called
    /// with.
    pub open spec fn seed_of(&self, slot: Slot) -> Option<u32> {
        match self.bot(slot) {
            Some(bot) => Some(bot.seed()),
            None => None,
        }
    }

    /// The arguments that the `compute_actions` of the bot of a slot
    /// was last called with.
    pub open spec fn asked_of(&self, slot: Slot) -> Option<Seq<u32>> {
        match self.bot(slot) {
            Some(bot) => Some(bot.asked()),
            None => None,
        }
    }

    /// The action word that the last `compute_actions` call of the bot
    /// of a slot came to.
    pub open spec fn answered_of(&self, slot: Slot) -> Option<u32> {
        match self.bot(slot) {
            Some(bot) => bot.answered(),
            None => None,
        }
    }

    /// The contacts that began during the last tick, in the order in
    /// which they were raised.
    pub closed spec fn raised(&self) -> Seq<Contact> {
        self.world.raised()
    }

    /// The pushes that wait for the next tick, oldest first.
    pub closed spec fn pending(&self) -> Seq<Push> {
        self.world.pending()
    }

    /// The pushes that the last tick gave, in the order in which it
    /// gave them.
    pub closed spec fn driven(&self) -> Seq<Push> {
        self.world.driven()
    }

    /// What each collider in the battle's arena is made of.
    pub closed spec fn fixtures(&self) -> Multiset<Fixture> {
        self.world.fixtures()
    }

    /// The marks of all colliders in the battle's arena.
    pub closed spec fn marks(&self) -> Multiset<u128> {
        self.world.marks()
    }

    /// What holds of every battle: the bots that the phase promises
    /// are there and embodied, the arena holds the ball and what the
    /// phase has put in it, and the tick count is within its ceiling.
    pub closed spec fn wf(&self) -> bool {
        &&& self.world.wf()
        &&& self.world.steps() == self.ticks
        &&& self.phase != Phase::Aborted ==> self.fault_of(Slot::One).is_none() && self.fault_of(
            Slot::Two,
        ).is_none()
        &&& self.world.bodies().contains(self.world.ball_handle())
        &&& self.bot1 matches Some(bot) ==> bot.wf() && self.world.bodies().contains(bot.body())
        &&& self.bot2 matches Some(bot) ==> bot.wf() && self.world.bodies().contains(bot.body())
        &&& self.ticks <= self.limits.max_num_updates
        &&& match self.phase {
            Phase::Empty => self.bot1.is_none() && self.bot2.is_none() && self.ticks == 0
                && self.world.marks() == spec_arena_marks(),
            Phase::OneBotAdded => self.bot1.is_some() && self.bot2.is_none() && self.ticks == 0
                && self.world.marks() == spec_marks_with_one_bot(),
            Phase::Ready => self.bot1.is_some() && self.bot2.is_some() && self.ticks == 0
                && self.world.marks() == spec_marks_with_both_bots(),
            Phase::Initialized => self.bot1.is_some() && self.bot2.is_some() && self.ticks == 0
                && self.limits.max_num_updates > 0 && self.world.marks()
                == spec_marks_with_both_bots(),
            Phase::Running => self.bot1.is_some() && self.bot2.is_some() && 0 < self.ticks
                < self.limits.max_num_updates && self.world.marks()
                == spec_marks_with_both_bots(),
            Phase::Finished(result) => self.bot1.is_some() && self.bot2.is_some() && result
                != MatchResult::Ongoing && (result == MatchResult::Draw ==> self.ticks
                == self.limits.max_num_updates) && self.world.marks()
                == spec_marks_with_both_bots(),
            Phase::Aborted => true,
        }
    }

    /// What the phase tells of the slots: before the first bot both
    /// are empty, after it the first is filled, and from `Ready` on,
    /// unless the match was aborted, both are.
    pub proof fn lemma_phase_fills_slots(&self)
        requires
            self.wf(),
        ensures
            self.phase() == Phase::Empty ==> !self.has_bot(Slot::One) && !self.has_bot(Slot::Two),
            self.phase() == Phase::OneBotAdded ==> self.has_bot(Slot::One) && !self.has_bot(
                Slot::Two,
            ),
            self.phase() != Phase::Empty && self.phase() != Phase::OneBotAdded && self.phase()
                != Phase::Aborted ==> self.has_bot(Slot::One) && self.has_bot(Slot::Two),
            self.has_bot(Slot::One) == self.bot(Slot::One).is_some(),
            self.has_bot(Slot::Two) == self.bot(Slot::Two).is_some(),
            self.steps_taken() == self.ticks(),
            self.phase() != Phase::Aborted ==> self.fault_of(Slot::One).is_none()
                && self.fault_of(Slot::Two).is_none(),
    {
    }

    /// The number of steps that the arena has taken.
    pub closed spec fn steps_taken(&self) -> u64 {
        self.world.steps()
    }

    /// A battle in an arena without bots, with the standard limits.
    pub fn new() -> (battle: Battle)
        ensures
            battle.wf(),
            battle.phase() == Phase::Empty,
            battle.ticks() == 0,
            battle.limits() == (Limits {
                init_gas: INIT_GAS,
                compute_actions_gas: COMPUTE_ACTIONS_GAS,
                max_num_updates: MAX_NUM_UPDATES,
            }),
            battle.marks() == spec_arena_marks(),
            battle.fixtures() == spec_arena_fixtures(),
            battle.pending() == Seq::<Push>::empty(),
            battle.driven() == Seq::<Push>::empty(),
            battle.raised() == Seq::<Contact>::empty(),
            !battle.has_bot(Slot::One),
            !battle.has_bot(Slot::Two),
            battle.ball_place() == spec_offset_bits(Offset { x: 0, y: 975, z: 0 }),
            battle.fault_of(Slot::One).is_none(),
            battle.fault_of(Slot::Two).is_none(),
            battle.record_of(Slot::One) == Seq::<u32>::empty(),
            battle.record_of(Slot::Two) == Seq::<u32>::empty(),
    {
        Battle::with_limits(Limits::standard())
    }

    /// A battle in an arena without bots, with the given limits.
    pub fn with_limits(limits: Limits) -> (battle: Battle)
        ensures
            battle.wf(),
            battle.phase() == Phase::Empty,
            battle.ticks() == 0,
            battle.limits() == limits,
            battle.marks() == spec_arena_marks(),
            battle.fixtures() == spec_arena_fixtures(),
            battle.pending() == Seq::<Push>::empty(),
            battle.driven() == Seq::<Push>::empty(),
            battle.raised() == Seq::<Contact>::empty(),
            !battle.has_bot(Slot::One),
            !battle.has_bot(Slot::Two),
            battle.ball_place() == spec_offset_bits(Offset { x: 0, y: 975, z: 0 }),
            battle.fault_of(Slot::One).is_none(),
            battle.fault_of(Slot::Two).is_none(),
            battle.record_of(Slot::One) == Seq::<u32>::empty(),
            battle.record_of(Slot::Two) == Seq::<u32>::empty(),
    {
        Battle { bot1: None, bot2: None, world: World::new(), phase: Phase::Empty, ticks: 0, limits }
    }

    /// The battle's phase.
    pub fn current_phase(&self) -> (phase: Phase)
        ensures
            phase == self.phase(),
    {
        self.phase
    }

    /// The number of ticks played.
    pub fn ticks_played(&self) -> (ticks: u64)
        ensures
            ticks == self.ticks(),
    {
        self.ticks
    }

    /// Where the first bot is, or `None` if it has not been added.
    pub fn get_bot1(&self) -> (place: Option<Position>)
        requires
            self.wf(),
        ensures
            place == self.place_of(Slot::One),
            place.is_some() == self.has_bot(Slot::One),
    {
        match &self.bot1 {
            Some(bot) => self.world.position_of(bot.handle()),
            None => None,
        }
    }

    /// Where the second bot is, or `None` if it has not been added.
    pub fn get_bot2(&self) -> (place: Option<Position>)
        requires
            self.wf(),
        ensures
            place == self.place_of(Slot::Two),
            place.is_some() == self.has_bot(Slot::Two),
    {
        match &self.bot2 {
            Some(bot) => self.world.position_of(bot.handle()),
            None => None,
        }
    }

    /// Where the ball is.
    pub fn get_ball(&self) -> (place: Position)
        requires
            self.wf(),
        ensures
            place == self.ball_place(),
    {
        self.world.position_of(self.world.ball()).unwrap()
    }

    /// The numbers that the bot of a slot has printed so far, oldest
    /// first; none if the bot has not been added.
    pub fn printed(&self, slot: Slot) -> (numbers: Vec<u32>)
        ensures
            numbers@ == self.record_of(slot),
            !self.has_bot(slot) ==> numbers@ == Seq::<u32>::empty(),
    {
        let bot = match slot {
            Slot::One => &self.bot1,
            Slot::Two => &self.bot2,
        };
        match bot {
            Some(bot) => bot.printed(),
            None => Vec::new(),
        }
    }

    /// What the sandbox said when a call of the bot of a slot was
    /// aborted with budget left; `None` if that has not happened.
    pub fn fault(&self, slot: Slot) -> (message: Option<String>)
        ensures
            message == self.fault_of(slot),
            !self.has_bot(slot) ==> message.is_none(),
    {
        let bot = match slot {
            Slot::One => &self.bot1,
            Slot::Two => &self.bot2,
        };
        match bot {
            Some(bot) => bot.fault(),
            None => None,
        }
    }

    /// Adds a bot: spawns its body at the spawn point of the next free
    /// slot and loads its program from `wasm_bytes`.
    ///
    /// With both slots taken the call is refused and nothing changes.
    /// Whether the bytes load is for the sandbox to say; if they do
    /// not, the match is aborted with the loader's error.
    pub fn add_bot(&mut self, wasm_bytes: &[u8]) -> (added: Result<(), EngineError>)
        requires
            old(self).wf(),
        ensures
            final(self).wf(),
            final(self).ticks() == old(self).ticks(),
            final(self).limits() == old(self).limits(),
            final(self).pending() == old(self).pending(),
            final(self).driven() == old(self).driven(),
            !spec_accepts_bot(old(self).phase()) ==> {
                &&& *final(self) == *old(self)
                &&& old(self).phase() == Phase::Aborted ==> added == Err::<(), EngineError>(
                    EngineError::InvalidStateTransition,
                )
                &&& old(self).phase() != Phase::Aborted ==> added == Err::<(), EngineError>(
                    EngineError::TooManyBots,
                )
            },
            spec_accepts_bot(old(self).phase()) ==> {
                &&& exists|links: bool| #[trigger] spec_load(wasm_bytes@, links) == added
                &&& added == Err::<(), EngineError>(EngineError::CompileError) <==> !spec_compiles(
                    wasm_bytes@,
                )
                &&& added.is_ok() ==> spec_is_guest(wasm_bytes@)
            },
            spec_accepts_bot(old(self).phase()) ==> match added {
                Ok(()) => {
                    &&& final(self).phase() == spec_phase_after_add(old(self).phase())
                    &&& final(self).has_bot(Slot::One)
                    &&& final(self).has_bot(Slot::Two) == (old(self).phase()
                        == Phase::OneBotAdded)
                    &&& old(self).phase() == Phase::Empty ==> final(self).source_of(Slot::One)
                        == Some(wasm_bytes@)
                    &&& old(self).phase() == Phase::OneBotAdded ==> {
                        &&& final(self).source_of(Slot::One) == old(self).source_of(Slot::One)
                        &&& final(self).source_of(Slot::Two) == Some(wasm_bytes@)
                    }
                    &&& final(self).fault_of(Slot::One) == old(self).fault_of(Slot::One)
                    &&& final(self).fault_of(Slot::Two) == old(self).fault_of(Slot::Two)
                    &&& final(self).ball_place() == old(self).ball_place()
                    &&& old(self).phase() == Phase::Empty ==> final(self).place_of(Slot::One)
                        == Some(spec_offset_bits(spec_spawn_point(Slot::One)))
                    &&& old(self).phase() == Phase::OneBotAdded ==> {
                        &&& final(self).place_of(Slot::One) == old(self).place_of(Slot::One)
                        &&& final(self).place_of(Slot::Two) == Some(
                            spec_offset_bits(spec_spawn_point(Slot::Two)),
                        )
                    }
                },
                Err(error) => {
                    &&& final(self).phase() == Phase::Aborted
                    &&& final(self).has_bot(Slot::One) == old(self).has_bot(Slot::One)
                    &&& final(self).has_bot(Slot::Two) == old(self).has_bot(Slot::Two)
                    &&& final(self).place_of(Slot::One) == old(self).place_of(Slot::One)
                    &&& final(self).ball_place() == old(self).ball_place()
                    &&& error == EngineError::CompileError || error
                        == EngineError::InstantiationError || error == EngineError::MissingExport
                        || error == EngineError::SignatureMismatch
                },
            },
    {
        let slot = match self.phase {
            Phase::Empty => Slot::One,
            Phase::OneBotAdded => Slot::Two,
            Phase::Aborted => {
                return Err(EngineError::InvalidStateTransition);
            },
            _ => {
                return Err(EngineError::TooManyBots);
            },
        };
        let handle = self.world.spawn_bot(slot);
        match create_bot_module(wasm_bytes, handle) {
            Ok(bot) => {
                match slot {
                    Slot::One => {
                        self.bot1 = Some(bot);
                        self.phase = Phase::OneBotAdded;
                    },
                    Slot::Two => {
                        self.bot2 = Some(bot);
                        self.phase = Phase::Ready;
                    },
                }
                Ok(())
            },
            Err(error) => {
                self.phase = Phase::Aborted;
                Err(error)
            },
        }
    }

    /// Starts play: gives each bot its `init` budget, calls the first
    /// bot's `init` and then the second's, and sets both bodies moving
    /// towards each other.
    ///
    /// Outside the `Ready` phase the call is refused and nothing
    /// changes.  A bot whose `init` is aborted with budget left aborts
    /// the match.
    pub fn init(&mut self) -> (started: Result<(), EngineError>)
        requires
            old(self).wf(),
        ensures
            final(self).wf(),
            final(self).ticks() == old(self).ticks(),
            final(self).limits() == old(self).limits(),
            old(self).phase() != Phase::Ready ==> {
                &&& *final(self) == *old(self)
                &&& started == Err::<(), EngineError>(EngineError::InvalidStateTransition)
            },
            final(self).has_bot(Slot::One) == old(self).has_bot(Slot::One),
            final(self).has_bot(Slot::Two) == old(self).has_bot(Slot::Two),
            old(self).phase() == Phase::Ready ==> old(self).has_bot(Slot::One) && old(
                self,
            ).has_bot(Slot::Two),
            final(self).body_of(Slot::One) == old(self).body_of(Slot::One),
            final(self).body_of(Slot::Two) == old(self).body_of(Slot::Two),
            final(self).source_of(Slot::One) == old(self).source_of(Slot::One),
            final(self).source_of(Slot::Two) == old(self).source_of(Slot::Two),
            final(self).driven() == old(self).driven(),
            old(self).phase() == Phase::Ready ==> {
                &&& final(self).granted_of(Slot::One) == Some(old(self).limits().init_gas)
                &&& final(self).granted_of(Slot::Two) == Some(old(self).limits().init_gas)
                &&& final(self).seed_of(Slot::One) == Some(INIT_SEED)
                &&& started.is_ok() ==> final(self).seed_of(Slot::Two) == Some(INIT_SEED)
                &&& started.is_ok() ==> final(self).pending() == old(self).pending().push(
                    spec_kickoff_push(old(self).body_of(Slot::One).unwrap(), Slot::One),
                ).push(spec_kickoff_push(old(self).body_of(Slot::Two).unwrap(), Slot::Two))
                &&& started.is_err() ==> final(self).pending() == old(self).pending()
            },
            old(self).phase() == Phase::Ready ==> match started {
                Ok(()) => {
                    &&& final(self).phase() == spec_phase_after_init(
                        old(self).limits().max_num_updates,
                    )
                    &&& final(self).ball_place() == old(self).ball_place()
                    &&& final(self).place_of(Slot::One) == old(self).place_of(Slot::One)
                    &&& final(self).place_of(Slot::Two) == old(self).place_of(Slot::Two)
                    &&& final(self).fault_of(Slot::One) == old(self).fault_of(Slot::One)
                    &&& final(self).fault_of(Slot::Two) == old(self).fault_of(Slot::Two)
                },
                Err(error) => {
                    &&& final(self).phase() == Phase::Aborted
                    &&& error == EngineError::GuestTrap
                    &&& final(self).fault_of(Slot::One).is_some() != final(self).fault_of(
                        Slot::Two,
                    ).is_some()
                    &&& final(self).fault_of(Slot::One).is_some() ==> final(self).record_of(
                        Slot::Two,
                    ) == old(self).record_of(Slot::Two)
                },
            },
            old(self).record_of(Slot::One).is_prefix_of(final(self).record_of(Slot::One)),
            old(self).record_of(Slot::Two).is_prefix_of(final(self).record_of(Slot::Two)),
    {
        match self.phase {
            Phase::Ready => {},
            _ => {
                return Err(EngineError::InvalidStateTransition);
            },
        }
        let mut bot1 = self.bot1.take().unwrap();
        let mut bot2 = self.bot2.take().unwrap();
        let first_body = bot1.handle();
        let second_body = bot2.handle();
        bot1.set_remaining_points(self.limits.init_gas);
        bot2.set_remaining_points(self.limits.init_gas);
        let first = bot1.init(INIT_SEED);
        let second = match first {
            Ok(()) => bot2.init(INIT_SEED),
            Err(error) => Err(error),
        };
        self.bot1 = Some(bot1);
        self.bot2 = Some(bot2);
        match second {
            Ok(()) => {
                self.world.apply_impulse(first_body, offset_bits(kickoff(Slot::One)));
                self.world.apply_impulse(second_body, offset_bits(kickoff(Slot::Two)));
                self.phase = if self.limits.max_num_updates == 0 {
                    Phase::Finished(MatchResult::Draw)
                } else {
                    Phase::Initialized
                };
                Ok(())
            },
            Err(error) => {
                self.phase = Phase::Aborted;
                Err(error)
            },
        }
    }

    /// Plays one tick: reads where the bots and the ball are, gives
    /// each bot its budget and asks the first bot and then the second
    /// for its action, pushes each body as its bot asked, advances the
    /// arena by one timestep, and lets the judge look at the contacts
    /// that began.
    ///
    /// Before `init` and after the end of the match the call is
    /// refused and nothing changes.  A bot whose call is aborted with
    /// budget left aborts the match.  Otherwise the tick is counted and
    /// its result is the judge's winner, if there is one; a draw, if
    /// this was the last tick allowed; else `Ongoing`.
    pub fn update(&mut self) -> (result: Result<MatchResult, EngineError>)
        requires
            old(self).wf(),
        ensures
            final(self).wf(),
            final(self).limits() == old(self).limits(),
            !spec_accepts_tick(old(self).phase()) ==> {
                &&& *final(self) == *old(self)
                &&& result == Err::<MatchResult, EngineError>(EngineError::InvalidStateTransition)
            },
            final(self).body_of(Slot::One) == old(self).body_of(Slot::One),
            final(self).body_of(Slot::Two) == old(self).body_of(Slot::Two),
            final(self).source_of(Slot::One) == old(self).source_of(Slot::One),
            final(self).source_of(Slot::Two) == old(self).source_of(Slot::Two),
            spec_accepts_tick(old(self).phase()) ==> {
                &&& final(self).granted_of(Slot::One) == Some(
                    old(self).limits().compute_actions_gas,
                )
                &&& final(self).granted_of(Slot::Two) == Some(
                    old(self).limits().compute_actions_gas,
                )
                &&& final(self).asked_of(Slot::One) == Some(
                    spec_tick_arguments(
                        old(self).place_of(Slot::One).unwrap(),
                        old(self).place_of(Slot::Two).unwrap(),
                        old(self).ball_place(),
                        Slot::One,
                    ),
                )
                &&& result.is_ok() ==> final(self).asked_of(Slot::Two) == Some(
                    spec_tick_arguments(
                        old(self).place_of(Slot::One).unwrap(),
                        old(self).place_of(Slot::Two).unwrap(),
                        old(self).ball_place(),
                        Slot::Two,
                    ),
                )
                &&& result.is_ok() ==> {
                    &&& final(self).answered_of(Slot::One).is_some()
                    &&& final(self).answered_of(Slot::Two).is_some()
                    &&& final(self).pending() == Seq::<Push>::empty()
                    &&& final(self).driven() == old(self).pending().push(
                        spec_action_push(
                            old(self).body_of(Slot::One).unwrap(),
                            final(self).answered_of(Slot::One).unwrap(),
                        ),
                    ).push(
                        spec_action_push(
                            old(self).body_of(Slot::Two).unwrap(),
                            final(self).answered_of(Slot::Two).unwrap(),
                        ),
                    )
                }
                &&& result.is_err() ==> {
                    &&& final(self).pending() == old(self).pending()
                    &&& final(self).driven() == old(self).driven()
                    &&& !spec_is_spent(final(self).budget_of(Slot::One).unwrap())
                        || !spec_is_spent(final(self).budget_of(Slot::Two).unwrap())
                }
            },
            spec_accepts_tick(old(self).phase()) ==> match result {
                Ok(outcome) => {
                    &&& final(self).ticks() == old(self).ticks() + 1
                    &&& final(self).phase() == spec_phase_after_tick(outcome)
                    &&& outcome == spec_conclude_tick(
                        spec_judge_all(MatchResult::Ongoing, final(self).raised()),
                        final(self).ticks(),
                        final(self).limits().max_num_updates,
                    )
                    &&& final(self).fault_of(Slot::One) == old(self).fault_of(Slot::One)
                    &&& final(self).fault_of(Slot::Two) == old(self).fault_of(Slot::Two)
                },
                Err(error) => {
                    &&& final(self).phase() == Phase::Aborted
                    &&& error == EngineError::GuestTrap
                    &&& final(self).ticks() == old(self).ticks()
                    &&& final(self).raised() == old(self).raised()
                    &&& final(self).fault_of(Slot::One).is_some() != final(self).fault_of(
                        Slot::Two,
                    ).is_some()
                    &&& final(self).fault_of(Slot::One).is_some() ==> {
                        &&& final(self).asked_of(Slot::Two) == old(self).asked_of(Slot::Two)
                        &&& final(self).record_of(Slot::Two) == old(self).record_of(Slot::Two)
                    }
                },
            },
            old(self).record_of(Slot::One).is_prefix_of(final(self).record_of(Slot::One)),
            old(self).record_of(Slot::Two).is_prefix_of(final(self).record_of(Slot::Two)),
    {
        match self.phase {
            Phase::Initialized => {},
            Phase::Running => {},
            _ => {
                return Err(EngineError::InvalidStateTransition);
            },
        }
        let ball_pos = self.get_ball();
        let mut bot1 = self.bot1.take().unwrap();
        let mut bot2 = self.bot2.take().unwrap();
        let first_body = bot1.handle();
        let second_body = bot2.handle();
        let bot1_pos = self.world.position_of(first_body).unwrap();
        let bot2_pos = self.world.position_of(second_body).unwrap();
        bot1.set_remaining_points(self.limits.compute_actions_gas);
        bot2.set_remaining_points(self.limits.compute_actions_gas);
        let first = bot1.compute_actions(bot1_pos, ball_pos, bot2_pos);
        let second = match first {
            Ok(_) => bot2.compute_actions(bot2_pos, ball_pos, bot1_pos),
            Err(error) => Err(error),
        };
        self.bot1 = Some(bot1);
        self.bot2 = Some(bot2);
        match (first, second) {
            (Ok(first_word), Ok(second_word)) => {
                let first_push = action_impulse(reconstruct_action(first_word));
                let second_push = action_impulse(reconstruct_action(second_word));
                self.world.apply_impulse(first_body, first_push);
                self.world.apply_impulse(second_body, second_push);
                let contacts = self.world.step();
                let verdict = judge_contacts(MatchResult::Ongoing, &contacts);
                self.ticks = self.ticks + 1;
                let outcome = conclude_tick(verdict, self.ticks, self.limits.max_num_updates);
                self.phase = match outcome {
                    MatchResult::Ongoing => Phase::Running,
                    _ => Phase::Finished(outcome),
                };
                Ok(outcome)
            },
            (Err(error), _) => {
                self.phase = Phase::Aborted;
                Err(error)
            },
            (_, Err(error)) => {
                self.phase = Phase::Aborted;
                Err(error)
            },
        }
    }

    /// Plays ticks until the match has a result.
    ///
    /// Before `init` and after the end of the match the call is
    /// refused and nothing changes.  Otherwise it plays at least one
    /// tick and never more than the ceiling allows; the result is a
    /// winner, or a draw when the ceiling was reached without one.  A
    /// bot whose call is aborted with budget left aborts the match.
    pub fn execute(&mut self) -> (result: Result<MatchResult, EngineError>)
        requires
            old(self).wf(),
        ensures
            final(self).wf(),
            final(self).limits() == old(self).limits(),
            final(self).body_of(Slot::One) == old(self).body_of(Slot::One),
            final(self).body_of(Slot::Two) == old(self).body_of(Slot::Two),
            final(self).source_of(Slot::One) == old(self).source_of(Slot::One),
            final(self).source_of(Slot::Two) == old(self).source_of(Slot::Two),
            spec_accepts_tick(old(self).phase()) ==> {
                &&& final(self).granted_of(Slot::One) == Some(
                    old(self).limits().compute_actions_gas,
                )
                &&& final(self).granted_of(Slot::Two) == Some(
                    old(self).limits().compute_actions_gas,
                )
                &&& result.is_ok() ==> final(self).pending() == Seq::<Push>::empty()
            },
            !spec_accepts_tick(old(self).phase()) ==> {
                &&& *final(self) == *old(self)
                &&& result == Err::<MatchResult, EngineError>(EngineError::InvalidStateTransition)
            },
            spec_accepts_tick(old(self).phase()) ==> match result {
                Ok(outcome) => {
                    &&& outcome != MatchResult::Ongoing
                    &&& outcome == spec_conclude_tick(
                        spec_judge_all(MatchResult::Ongoing, final(self).raised()),
                        final(self).ticks(),
                        final(self).limits().max_num_updates,
                    )
                    &&& final(self).phase() == Phase::Finished(outcome)
                    &&& old(self).ticks() < final(self).ticks()
                        <= final(self).limits().max_num_updates
                    &&& outcome == MatchResult::Draw ==> final(self).ticks()
                        == final(self).limits().max_num_updates
                    &&& final(self).fault_of(Slot::One) == old(self).fault_of(Slot::One)
                    &&& final(self).fault_of(Slot::Two) == old(self).fault_of(Slot::Two)
                },
                Err(error) => {
                    &&& final(self).phase() == Phase::Aborted
                    &&& error == EngineError::GuestTrap
                    &&& old(self).ticks() <= final(self).ticks()
                        < final(self).limits().max_num_updates
                    &&& final(self).fault_of(Slot::One).is_some() || final(self).fault_of(
                        Slot::Two,
                    ).is_some()
                },
            },
            old(self).record_of(Slot::One).is_prefix_of(final(self).record_of(Slot::One)),
            old(self).record_of(Slot::Two).is_prefix_of(final(self).record_of(Slot::Two)),
    {
        match self.phase {
            Phase::Initialized => {},
            Phase::Running => {},
            _ => {
                return Err(EngineError::InvalidStateTransition);
            },
        }
        let mut result = self.update();
        let mut ongoing = match result {
            Ok(MatchResult::Ongoing) => true,
            _ => false,
        };
        while ongoing
            invariant
                self.wf(),
                self.limits() == old(self).limits(),
                self.body_of(Slot::One) == old(self).body_of(Slot::One),
                self.body_of(Slot::Two) == old(self).body_of(Slot::Two),
                self.source_of(Slot::One) == old(self).source_of(Slot::One),
                self.source_of(Slot::Two) == old(self).source_of(Slot::Two),
                self.granted_of(Slot::One) == Some(old(self).limits().compute_actions_gas),
                self.granted_of(Slot::Two) == Some(old(self).limits().compute_actions_gas),
                result.is_ok() ==> self.pending() == Seq::<Push>::empty(),
                ongoing == (result == Ok::<MatchResult, EngineError>(MatchResult::Ongoing)),
                match result {
                    Ok(outcome) => self.phase() == spec_phase_after_tick(outcome) && outcome
                        == spec_conclude_tick(
                        spec_judge_all(MatchResult::Ongoing, self.raised()),
                        self.ticks(),
                        self.limits().max_num_updates,
                    ) && old(self).ticks() < self.ticks() && self.fault_of(Slot::One) == old(
                        self,
                    ).fault_of(
                        Slot::One,
                    ) && self.fault_of(Slot::Two) == old(self).fault_of(Slot::Two),
                    Err(error) => self.phase() == Phase::Aborted && error
                        == EngineError::GuestTrap && old(self).ticks() <= self.ticks()
                        < self.limits().max_num_updates && (self.fault_of(Slot::One).is_some()
                        || self.fault_of(Slot::Two).is_some()),
                },
                old(self).record_of(Slot::One).is_prefix_of(self.record_of(Slot::One)),
                old(self).record_of(Slot::Two).is_prefix_of(self.record_of(Slot::Two)),
            decreases self.limits().max_num_updates - self.ticks() + (if ongoing {
                    1int
                } else {
                    0int
                }),
        {
            result = self.update();
            ongoing = match result {
                Ok(MatchResult::Ongoing) => true,
                _ => false,
            };
        }
        result
    }
}

} // verus!
