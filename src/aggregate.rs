use vstd::prelude::*;
use crate::message::{Message, StopReport};
use crate::round::RoundOutcome;

verus! {

/// Running totals over all completed rounds.
#[derive(Debug, Clone, Copy, PartialEq, Eq, Structural)]
pub struct GameResult {
    pub ticks: u64,
    pub bullets_fired: u64,
    pub p1_won: u64,
    pub p2_won: u64,
}

/// 1 for a win, 0 otherwise.
pub open spec fn win_count(won: bool) -> int {
    if won { 1 } else { 0 }
}

impl GameResult {
    /// Totals after adding one player's `stop` report; `player` 1 is the
    /// first session of its round and 2 the second.
    pub open spec fn add_spec(self, s: StopReport, player: usize) -> GameResult {
        GameResult {
            ticks: (self.ticks + s.ticks) as u64,
            bullets_fired: (self.bullets_fired + s.bullets_fired) as u64,
            p1_won: (self.p1_won + win_count(s.won && player == 1)) as u64,
            p2_won: (self.p2_won + win_count(s.won && player == 2)) as u64,
        }
    }

    /// Whether adding a report leaves every counter within `u64`.
    pub open spec fn add_fits(self, s: StopReport) -> bool {
        &&& self.ticks + s.ticks <= u64::MAX
        &&& self.bullets_fired + s.bullets_fired <= u64::MAX
        &&& self.p1_won + 1 <= u64::MAX
        &&& self.p2_won + 1 <= u64::MAX
    }

    /// Totals after a round's outcome: a completed round adds both
    /// reports, the first as player one; a partial failure changes nothing.
    pub open spec fn record_spec(self, o: RoundOutcome) -> GameResult {
        match o {
            RoundOutcome::Completed { stop_a, stop_b } => self.add_spec(stop_a, 1).add_spec(stop_b, 2),
            RoundOutcome::PartialFailure { .. } => self,
        }
    }

    /// Whether recording `o` leaves every counter within `u64`.
    pub open spec fn record_fits(self, o: RoundOutcome) -> bool {
        match o {
            RoundOutcome::Completed { stop_a, stop_b } => {
                &&& self.ticks + stop_a.ticks + stop_b.ticks <= u64::MAX
                &&& self.bullets_fired + stop_a.bullets_fired + stop_b.bullets_fired <= u64::MAX
                &&& self.p1_won + 1 <= u64::MAX
                &&& self.p2_won + 1 <= u64::MAX
            },
            RoundOutcome::PartialFailure { .. } => true,
        }
    }

    /// All counters at zero.
    pub fn new() -> (r: GameResult)
        ensures
            r == (GameResult { ticks: 0, bullets_fired: 0, p1_won: 0, p2_won: 0 }),
    {
        GameResult { ticks: 0, bullets_fired: 0, p1_won: 0, p2_won: 0 }
    }

    /// Adds a `stop` message of `player` (1 or 2) to the totals: its ticks
    /// and bullets, and a win for that player when it says it won. Any
    /// other message changes nothing.
    pub fn add(&mut self, msg: Message, player: usize)
        requires
            msg.stop_report() is Some ==> old(self).add_fits(msg.stop_report().unwrap()),
        ensures
            *final(self) == match msg.stop_report() {
                Some(s) => old(self).add_spec(s, player),
                None => *old(self),
            },
    {
        if let Message::Stop { ticks, bullets_fired, won, error_msg: _ } = msg {
            self.ticks = self.ticks + ticks as u64;
            self.bullets_fired = self.bullets_fired + bullets_fired as u64;
            if won && player == 1 {
                self.p1_won = self.p1_won + 1;
            }
            if won && player == 2 {
                self.p2_won = self.p2_won + 1;
            }
        }
    }

    /// Tells whether `record` may take `o` without a counter overflowing.
    pub fn can_record(&self, o: &RoundOutcome) -> (r: bool)
        ensures
            r == self.record_fits(*o),
    {
        match o {
            RoundOutcome::Completed { stop_a, stop_b } => {
                self.ticks <= u64::MAX - stop_a.ticks as u64 - stop_b.ticks as u64
                    && self.bullets_fired <= u64::MAX - stop_a.bullets_fired as u64
                    - stop_b.bullets_fired as u64 && self.p1_won < u64::MAX && self.p2_won
                    < u64::MAX
            },
            RoundOutcome::PartialFailure { .. } => true,
        }
    }

    /// Adds both reports of a completed round: the sum of their ticks and
    /// of their bullets, a win for player one iff `stop_a` won and a win for
    /// player two iff `stop_b` won.
    pub fn record_completed(&mut self, stop_a: &StopReport, stop_b: &StopReport)
        requires
            old(self).ticks + stop_a.ticks + stop_b.ticks <= u64::MAX,
            old(self).bullets_fired + stop_a.bullets_fired + stop_b.bullets_fired <= u64::MAX,
            old(self).p1_won + 1 <= u64::MAX,
            old(self).p2_won + 1 <= u64::MAX,
        ensures
            final(self).ticks == old(self).ticks + stop_a.ticks + stop_b.ticks,
            final(self).bullets_fired == old(self).bullets_fired + stop_a.bullets_fired
                + stop_b.bullets_fired,
            final(self).p1_won == old(self).p1_won + win_count(stop_a.won),
            final(self).p2_won == old(self).p2_won + win_count(stop_b.won),
            *final(self) == old(self).add_spec(*stop_a, 1).add_spec(*stop_b, 2),
    {
        self.ticks = self.ticks + stop_a.ticks as u64 + stop_b.ticks as u64;
        self.bullets_fired = self.bullets_fired + stop_a.bullets_fired as u64
            + stop_b.bullets_fired as u64;
        if stop_a.won {
            self.p1_won = self.p1_won + 1;
        }
        if stop_b.won {
            self.p2_won = self.p2_won + 1;
        }
    }

    /// Records a round's outcome: a completed round is added, a partial
    /// failure leaves the totals alone.
    pub fn record(&mut self, o: &RoundOutcome)
        requires
            old(self).record_fits(*o),
        ensures
            *final(self) == old(self).record_spec(*o),
    {
        match o {
            RoundOutcome::Completed { stop_a, stop_b } => self.record_completed(stop_a, stop_b),
            RoundOutcome::PartialFailure { .. } => {},
        }
    }
}

/// Ticks that a round adds: both reports' ticks if it completed, else none.
pub open spec fn outcome_ticks(o: RoundOutcome) -> int {
    match o {
        RoundOutcome::Completed { stop_a, stop_b } => stop_a.ticks + stop_b.ticks,
        RoundOutcome::PartialFailure { .. } => 0,
    }
}

/// Bullets that a round adds: both reports' bullets if it completed.
pub open spec fn outcome_bullets(o: RoundOutcome) -> int {
    match o {
        RoundOutcome::Completed { stop_a, stop_b } => stop_a.bullets_fired + stop_b.bullets_fired,
        RoundOutcome::PartialFailure { .. } => 0,
    }
}

/// Wins that a round gives player one (`first`) or player two.
pub open spec fn outcome_wins(o: RoundOutcome, first: bool) -> int {
    match o {
        RoundOutcome::Completed { stop_a, stop_b } => if first {
            win_count(stop_a.won)
        } else {
            win_count(stop_b.won)
        },
        RoundOutcome::PartialFailure { .. } => 0,
    }
}

/// Sum of the ticks of the completed rounds among `outs`.
pub open spec fn total_ticks(outs: Seq<RoundOutcome>) -> int
    decreases outs.len(),
{
    if outs.len() == 0 { 0 } else { outcome_ticks(outs[0]) + total_ticks(outs.drop_first()) }
}

/// Sum of the bullets of the completed rounds among `outs`.
pub open spec fn total_bullets(outs: Seq<RoundOutcome>) -> int
    decreases outs.len(),
{
    if outs.len() == 0 { 0 } else { outcome_bullets(outs[0]) + total_bullets(outs.drop_first()) }
}

/// Number of completed rounds among `outs` won by player one (`first`) or two.
pub open spec fn total_wins(outs: Seq<RoundOutcome>, first: bool) -> int
    decreases outs.len(),
{
    if outs.len() == 0 {
        0
    } else {
        outcome_wins(outs[0], first) + total_wins(outs.drop_first(), first)
    }
}

/// The totals after recording each of `outs` in turn, starting from `g`.
pub open spec fn aggregate(g: GameResult, outs: Seq<RoundOutcome>) -> GameResult
    decreases outs.len(),
{
    if outs.len() == 0 { g } else { aggregate(g.record_spec(outs[0]), outs.drop_first()) }
}

/// The per-round sums are never negative, and no larger than the number
/// of rounds for the win counts.
pub proof fn lemma_totals_bounds(outs: Seq<RoundOutcome>)
    ensures
        total_ticks(outs) >= 0,
        total_bullets(outs) >= 0,
        0 <= total_wins(outs, true) <= outs.len(),
        0 <= total_wins(outs, false) <= outs.len(),
    decreases outs.len(),
{
    if outs.len() > 0 {
        lemma_totals_bounds(outs.drop_first());
    }
}

/// Recording a series of round outcomes adds exactly the sums of the
/// completed rounds' ticks and bullets, and one win per completed round
/// for each player whose report says it won; partial failures add nothing.
pub proof fn lemma_aggregate_totals(g: GameResult, outs: Seq<RoundOutcome>)
    requires
        g.ticks + total_ticks(outs) <= u64::MAX,
        g.bullets_fired + total_bullets(outs) <= u64::MAX,
        g.p1_won + outs.len() <= u64::MAX,
        g.p2_won + outs.len() <= u64::MAX,
    ensures
        aggregate(g, outs).ticks == g.ticks + total_ticks(outs),
        aggregate(g, outs).bullets_fired == g.bullets_fired + total_bullets(outs),
        aggregate(g, outs).p1_won == g.p1_won + total_wins(outs, true),
        aggregate(g, outs).p2_won == g.p2_won + total_wins(outs, false),
    decreases outs.len(),
{
    if outs.len() > 0 {
        let rest = outs.drop_first();
        lemma_totals_bounds(rest);
        lemma_aggregate_totals(g.record_spec(outs[0]), rest);
    }
}

/// The order in which two rounds are recorded does not change the totals.
pub proof fn lemma_record_commutes(g: GameResult, a: RoundOutcome, b: RoundOutcome)
    requires
        g.ticks + outcome_ticks(a) + outcome_ticks(b) <= u64::MAX,
        g.bullets_fired + outcome_bullets(a) + outcome_bullets(b) <= u64::MAX,
        g.p1_won + 2 <= u64::MAX,
        g.p2_won + 2 <= u64::MAX,
    ensures
        g.record_spec(a).record_spec(b) == g.record_spec(b).record_spec(a),
{
}

} // verus!
