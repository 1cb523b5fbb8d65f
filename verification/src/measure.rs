//! The plan of the measurement: so many rounds, every other one under the
//! scheduler, with so many visits each.
use vstd::prelude::*;

verus! {

/// How many rounds are measured.
pub const ROUNDS: u64 = 10;

/// How many directories are visited in each.
pub const VISITS: u64 = 20_000;

/// What the measurement has to do next.
#[derive(Copy, Clone, Debug, PartialEq, Eq, Structural)]
pub enum MeasureStep {
    /// Take the time: a round begins.
    BeginRound { use_ums: bool },
    /// Visit the next directory, on a worker thread if `use_ums` says so.
    Visit { use_ums: bool },
    /// Report the round, in which there were this many visits.
    EndRound { use_ums: bool, visits: u64 },
    /// Nothing: every round was measured.
    Done,
}

/// How far the measurement has come.
#[derive(Copy, Clone, Debug, PartialEq, Eq, Structural)]
pub struct Measurement {
    /// The rounds that have ended.
    pub round: u64,
    /// The visits in this round, once it has begun.
    pub visits: Option<u64>,
}

impl Measurement {
    /// Whether the measurement is one that the plan comes through.
    pub open spec fn valid(self) -> bool {
        &&& self.round <= ROUNDS
        &&& self.visits matches Some(visits) ==> self.round < ROUNDS && visits <= VISITS
    }

    /// How far the measurement comes and what it does next.
    pub open spec fn measured(self) -> (Self, MeasureStep) {
        let use_ums = self.round % 2 == 0;
        if self.round >= ROUNDS {
            (self, MeasureStep::Done)
        } else {
            match self.visits {
                None => (
                    Measurement { visits: Some(0), ..self },
                    MeasureStep::BeginRound { use_ums },
                ),
                Some(visits) => if visits < VISITS {
                    (
                        Measurement { visits: Some((visits + 1) as u64), ..self },
                        MeasureStep::Visit { use_ums },
                    )
                } else {
                    (
                        Measurement { round: (self.round + 1) as u64, visits: None },
                        MeasureStep::EndRound { use_ums, visits },
                    )
                },
            }
        }
    }

    /// A measurement of which nothing is done.
    pub fn new() -> (measurement: Self)
        ensures
            measurement == (Measurement { round: 0, visits: None }),
    {
        Measurement { round: 0, visits: None }
    }

    /// Says what to do next.
    pub fn next(&mut self) -> (step: MeasureStep)
        ensures
            (*final(self), step) == old(self).measured(),
    {
        let use_ums: bool = self.round % 2 == 0;
        if self.round >= ROUNDS {
            return MeasureStep::Done;
        }
        match self.visits {
            None => {
                self.visits = Some(0);
                MeasureStep::BeginRound { use_ums }
            },
            Some(visits) => if visits < VISITS {
                self.visits = Some(visits + 1);
                MeasureStep::Visit { use_ums }
            } else {
                self.round = self.round + 1;
                self.visits = None;
                MeasureStep::EndRound { use_ums, visits }
            },
        }
    }
}

/// The measurement after this many steps.
pub open spec fn after_steps(steps: nat) -> Measurement
    decreases steps,
{
    if steps == 0 {
        Measurement { round: 0, visits: None }
    } else {
        after_steps((steps - 1) as nat).measured().0
    }
}

/// How many steps a round takes: its visits, the beginning and the end.
pub open spec fn steps_per_round() -> nat {
    (VISITS + 2) as nat
}

proof fn lemma_after_steps(steps: nat)
    requires
        steps <= ROUNDS * steps_per_round(),
    ensures
        ({
            let m = after_steps(steps);
            &&& m.valid()
            &&& m.round == steps / steps_per_round()
            &&& m.visits == if steps % steps_per_round() == 0 {
                None::<u64>
            } else {
                Some((steps % steps_per_round() - 1) as u64)
            }
        }),
    decreases steps,
{
    if steps > 0 {
        lemma_after_steps((steps - 1) as nat);
    }
}

/// The plan: the rounds come one after the other, every other one with the
/// scheduler, beginning with the first. Each begins, has exactly its visits,
/// and ends with their number; and after the last one the measurement is done.
pub proof fn law_plan(steps: nat)
    ensures
        ({
            let round = steps / steps_per_round();
            let at = steps % steps_per_round();
            let use_ums = round % 2 == 0;
            steps < ROUNDS * steps_per_round() ==> after_steps(steps).measured().1 == if at == 0 {
                MeasureStep::BeginRound { use_ums }
            } else if at <= VISITS {
                MeasureStep::Visit { use_ums }
            } else {
                MeasureStep::EndRound { use_ums, visits: VISITS }
            }
        }),
        steps >= ROUNDS * steps_per_round() ==> after_steps(steps).measured().1 is Done,
    decreases steps,
{
    if steps <= ROUNDS * steps_per_round() {
        lemma_after_steps(steps);
    } else {
        law_plan((steps - 1) as nat);
    }
}

/// How long the measurement is: ten rounds of twenty thousand visits, each with
/// its beginning and its end.
pub proof fn law_length_of_the_plan()
    ensures
        ROUNDS == 10,
        VISITS == 20_000,
        steps_per_round() == 20_002,
        after_steps(0) == (Measurement { round: 0, visits: None }),
{
}

} // verus!
