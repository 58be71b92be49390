//! The computational budget of a guest: what each operation costs, how
//! much a phase may spend, and what a failed call means.

use vstd::prelude::*;
use crate::codec::NEUTRAL_ACTION;
use crate::error::EngineError;

verus! {

/// The budget a guest gets for its `init` call.
pub const INIT_GAS: u64 = 1_000;

/// The budget a guest gets for each `compute_actions` call.
pub const COMPUTE_ACTIONS_GAS: u64 = 1_000_000;

/// The number of ticks after which an undecided match is a draw.
pub const MAX_NUM_UPDATES: u64 = 1_000_000;

/// The budget a freshly compiled guest starts with, before any phase
/// has set its own.
pub const INITIAL_POINTS: u64 = 100;

/// What is left of a guest's budget.
#[derive(Clone, Copy, Debug, PartialEq, Eq, Structural)]
pub enum MeteringPoints {
    /// This many points are left.  With 0 all points are used up, but
    /// the execution was not cut short.
    Remaining(u64),
    /// The execution was cut short because the points ran out.
    Exhausted,
}

/// The kinds of guest operation that the cost table tells apart.
#[derive(Clone, Copy, Debug, PartialEq, Eq, Structural)]
pub enum OperatorKind {
    LocalGet,
    I32Const,
    I32Add,
    Other,
}

/// The cost table: what one operation of each kind takes from the
/// budget.  No operation is free, so that no guest can run on without
/// end on a finite budget.
pub open spec fn spec_operator_cost(kind: OperatorKind) -> u64 {
    match kind {
        OperatorKind::LocalGet => 1,
        OperatorKind::I32Const => 1,
        OperatorKind::I32Add => 2,
        OperatorKind::Other => 1,
    }
}

/// A model of how a budget is spent: the budget after one more
/// operation of the given cost.  The cost is taken off while it fits;
/// once it would take the budget below zero the budget is exhausted,
/// and it stays so.
///
/// This is the library's own account of metering, for callers who
/// reason about budgets.  The sandbox does the charging itself, and no
/// contract claims that it follows this model.
pub open spec fn spec_charge(points: MeteringPoints, cost: u64) -> MeteringPoints {
    match points {
        MeteringPoints::Remaining(left) => if cost <= left {
            MeteringPoints::Remaining((left - cost) as u64)
        } else {
            MeteringPoints::Exhausted
        },
        MeteringPoints::Exhausted => MeteringPoints::Exhausted,
    }
}

/// The budget after a run of operations, charged in order.
pub open spec fn spec_charge_all(points: MeteringPoints, costs: Seq<u64>) -> MeteringPoints
    decreases costs.len(),
{
    if costs.len() == 0 {
        points
    } else {
        spec_charge(spec_charge_all(points, costs.drop_last()), costs.last())
    }
}

/// The sum of a run of costs.
pub open spec fn spec_total(costs: Seq<u64>) -> int
    decreases costs.len(),
{
    if costs.len() == 0 {
        0
    } else {
        spec_total(costs.drop_last()) + costs.last()
    }
}

/// What a guest call that was made under a budget comes to, given what
/// it returned (`None` when it was aborted) and what the budget shows
/// afterwards:
/// a returned value stands; an abort with nothing left is expected and
/// yields no value; an abort with points left is a fault of the guest.
pub open spec fn spec_settle_call(returned: Option<u32>, points: MeteringPoints) -> Result<
    Option<u32>,
    EngineError,
> {
    match returned {
        Some(value) => Ok(Some(value)),
        None => match points {
            MeteringPoints::Exhausted => Ok(None),
            MeteringPoints::Remaining(left) => if left == 0 {
                Ok(None)
            } else {
                Err(EngineError::GuestTrap)
            },
        },
    }
}

/// The action word that a `compute_actions` call comes to: the word
/// the guest returned, or the neutral word when its budget ran out.
pub open spec fn spec_settle_action(returned: Option<u32>, points: MeteringPoints) -> Result<
    u32,
    EngineError,
> {
    match spec_settle_call(returned, points) {
        Ok(Some(word)) => Ok(word),
        Ok(None) => Ok(NEUTRAL_ACTION),
        Err(error) => Err(error),
    }
}

/// Looks an operation kind up in the cost table.
pub fn operator_cost(kind: OperatorKind) -> (cost: u64)
    ensures
        cost == spec_operator_cost(kind),
        1 <= cost <= 2,
{
    match kind {
        OperatorKind::LocalGet => 1,
        OperatorKind::I32Const => 1,
        OperatorKind::I32Add => 2,
        OperatorKind::Other => 1,
    }
}

impl MeteringPoints {
    /// Whether the budget has nothing left to spend.
    pub fn is_spent(&self) -> (spent: bool)
        ensures
            spent == (*self == MeteringPoints::Exhausted || *self == MeteringPoints::Remaining(
                0,
            )),
    {
        match self {
            MeteringPoints::Exhausted => true,
            MeteringPoints::Remaining(left) => *left == 0,
        }
    }

    /// The budget after one more operation of the given cost, by the
    /// library's model of metering; the sandbox is not asked.
    pub fn charge(&self, cost: u64) -> (after: MeteringPoints)
        ensures
            after == spec_charge(*self, cost),
    {
        match self {
            MeteringPoints::Remaining(left) => if cost <= *left {
                MeteringPoints::Remaining(*left - cost)
            } else {
                MeteringPoints::Exhausted
            },
            MeteringPoints::Exhausted => MeteringPoints::Exhausted,
        }
    }
}

/// Settles a guest call from what it returned and what is left of its
/// budget.
pub fn settle_call(returned: Option<u32>, points: MeteringPoints) -> (settled: Result<
    Option<u32>,
    EngineError,
>)
    ensures
        settled == spec_settle_call(returned, points),
{
    match returned {
        Some(value) => Ok(Some(value)),
        None => if points.is_spent() {
            Ok(None)
        } else {
            Err(EngineError::GuestTrap)
        },
    }
}

/// Settles a `compute_actions` call: the guest's word, the neutral
/// word when the budget ran out, or the guest's fault.
pub fn settle_action(returned: Option<u32>, points: MeteringPoints) -> (settled: Result<
    u32,
    EngineError,
>)
    ensures
        settled == spec_settle_action(returned, points),
{
    match settle_call(returned, points) {
        Ok(Some(word)) => Ok(word),
        Ok(None) => Ok(NEUTRAL_ACTION),
        Err(error) => Err(error),
    }
}

/// Gas monotonicity, of the model: after a run of operations the budget that is left
/// is the initial budget less the sum of their costs, as long as that
/// sum fits in it; it never grows; and once the sum exceeds the
/// initial budget the state is `Exhausted`.
pub proof fn lemma_gas_monotonic(initial: u64, costs: Seq<u64>)
    ensures
        spec_total(costs) >= 0,
        spec_total(costs) <= initial ==> spec_charge_all(
            MeteringPoints::Remaining(initial),
            costs,
        ) == MeteringPoints::Remaining((initial - spec_total(costs)) as u64),
        spec_total(costs) > initial ==> spec_charge_all(
            MeteringPoints::Remaining(initial),
            costs,
        ) == MeteringPoints::Exhausted,
    decreases costs.len(),
{
    if costs.len() > 0 {
        lemma_gas_monotonic(initial, costs.drop_last());
    }
}

/// An exhausted budget stays exhausted whatever is charged to it.
pub proof fn lemma_exhausted_stays(costs: Seq<u64>)
    ensures
        spec_charge_all(MeteringPoints::Exhausted, costs) == MeteringPoints::Exhausted,
    decreases costs.len(),
{
    if costs.len() > 0 {
        lemma_exhausted_stays(costs.drop_last());
    }
}

} // verus!
