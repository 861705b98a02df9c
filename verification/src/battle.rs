//! The battle engine's scoring core: a state machine that a driver steps
//! once per synchronized round, accumulating win and tie counts for a fixed
//! number of rounds. The driver reads each bot's move, records the pair
//! here, and relays each move to the opponent, using the end-of-battle
//! encoding exactly when the recorded round was the last.

use vstd::prelude::*;

use crate::codec::GameOutcome;
use crate::codec::Move;
use crate::codec::outcome_spec;

verus! {

/// How many rounds of a sequence resolved to the given outcome, seen from
/// the first player's side.
pub open spec fn count_outcome(rounds: Seq<(Move, Move)>, o: GameOutcome) -> nat
    decreases rounds.len(),
{
    if rounds.len() == 0 {
        0
    } else {
        count_outcome(rounds.drop_last(), o) + if outcome_spec(
            rounds.last().0,
            rounds.last().1,
        ) == o {
            1nat
        } else {
            0nat
        }
    }
}

/// No outcome occurs more often than there are rounds.
pub proof fn lemma_count_le_len(rounds: Seq<(Move, Move)>, o: GameOutcome)
    ensures
        count_outcome(rounds, o) <= rounds.len(),
    decreases rounds.len(),
{
    if rounds.len() > 0 {
        lemma_count_le_len(rounds.drop_last(), o);
    }
}

/// Law: every round resolves to exactly one outcome, so the three counts
/// partition the rounds.
pub proof fn lemma_counts_partition(rounds: Seq<(Move, Move)>)
    ensures
        count_outcome(rounds, GameOutcome::Win) + count_outcome(rounds, GameOutcome::Lose)
            + count_outcome(rounds, GameOutcome::Tie) == rounds.len(),
    decreases rounds.len(),
{
    if rounds.len() > 0 {
        lemma_counts_partition(rounds.drop_last());
    }
}

/// Law: a battle whose every round repeats the same pair of moves is scored
/// entirely by that pair's outcome: that outcome's count is the round
/// count, the other two counts are zero.
pub proof fn lemma_constant_battle(rounds: Seq<(Move, Move)>, a: Move, b: Move)
    requires
        forall|i: int| 0 <= i < rounds.len() ==> rounds[i] == (a, b),
    ensures
        count_outcome(rounds, outcome_spec(a, b)) == rounds.len(),
        forall|o: GameOutcome|
            o != outcome_spec(a, b) ==> #[trigger] count_outcome(rounds, o) == 0,
    decreases rounds.len(),
{
    if rounds.len() > 0 {
        let head = rounds.drop_last();
        assert(rounds[rounds.len() - 1] == (a, b));
        assert forall|i: int| 0 <= i < head.len() implies head[i] == (a, b) by {
            assert(head[i] == rounds[i]);
        }
        lemma_constant_battle(head, a, b);
        assert forall|o: GameOutcome|
            o != outcome_spec(a, b) implies #[trigger] count_outcome(rounds, o) == 0 by {
            assert(count_outcome(head, o) == 0);
        }
    } else {
        assert forall|o: GameOutcome|
            o != outcome_spec(a, b) implies #[trigger] count_outcome(rounds, o) == 0 by {
            assert(count_outcome(rounds, o) == 0);
        }
    }
}

/// The totals of a completed battle. The two significance estimates spec'd
/// alongside them are floating-point work for the caller; the counts here
/// determine them together with the round count.
#[derive(Clone, Copy, Debug, PartialEq, Eq, Structural)]
pub struct BattleResult {
    /// Rounds the first bot won.
    pub wins1: usize,
    /// Rounds the second bot won.
    pub wins2: usize,
    /// Rounds that tied.
    pub ties: usize,
}

/// The running state of one battle: the fixed round count, the rounds
/// played so far, and the accumulated counters, with a ghost log of the
/// recorded move pairs that ties the counters to the outcome relation.
pub struct BattleState {
    /// The fixed number of rounds this battle runs.
    pub steps: usize,
    /// Rounds recorded so far.
    pub round: usize,
    /// Rounds the first bot has won so far.
    pub wins1: usize,
    /// Rounds the second bot has won so far.
    pub wins2: usize,
    /// Rounds that have tied so far.
    pub ties: usize,
    /// The move pairs recorded so far, in order.
    pub rounds: Ghost<Seq<(Move, Move)>>,
}

impl BattleState {
    /// The counters agree with the recorded rounds, which number at most
    /// the battle's fixed length.
    pub open spec fn wf(self) -> bool {
        &&& self.rounds@.len() == self.round
        &&& self.round <= self.steps
        &&& self.wins1 == count_outcome(self.rounds@, GameOutcome::Win)
        &&& self.wins2 == count_outcome(self.rounds@, GameOutcome::Lose)
        &&& self.ties == count_outcome(self.rounds@, GameOutcome::Tie)
    }

    /// A battle about to play its first round.
    pub fn new(steps: usize) -> (s: Self)
        ensures
            s.wf(),
            s.steps == steps,
            s.round == 0,
            s.wins1 == 0,
            s.wins2 == 0,
            s.ties == 0,
            s.rounds@ == Seq::<(Move, Move)>::empty(),
    {
        BattleState { steps, round: 0, wins1: 0, wins2: 0, ties: 0, rounds: Ghost(Seq::empty()) }
    }

    /// Records one round's pair of moves, classifies it from the first
    /// bot's side, and reports whether the round just recorded was the
    /// final one, in which case the relay to each bot must use the
    /// end-of-battle encoding.
    pub fn record_round(&mut self, m1: Move, m2: Move) -> (fin: bool)
        requires
            old(self).wf(),
            old(self).round < old(self).steps,
        ensures
            final(self).wf(),
            final(self).steps == old(self).steps,
            final(self).round == old(self).round + 1,
            final(self).rounds@ == old(self).rounds@.push((m1, m2)),
            fin == (final(self).round == final(self).steps),
            final(self).wins1 == old(self).wins1 + if outcome_spec(m1, m2) == GameOutcome::Win {
                1int
            } else {
                0int
            },
            final(self).wins2 == old(self).wins2 + if outcome_spec(m1, m2) == GameOutcome::Lose {
                1int
            } else {
                0int
            },
            final(self).ties == old(self).ties + if outcome_spec(m1, m2) == GameOutcome::Tie {
                1int
            } else {
                0int
            },
    {
        proof {
            assert(old(self).rounds@.push((m1, m2)).drop_last() =~= old(self).rounds@);
            lemma_count_le_len(old(self).rounds@, GameOutcome::Win);
            lemma_count_le_len(old(self).rounds@, GameOutcome::Lose);
            lemma_count_le_len(old(self).rounds@, GameOutcome::Tie);
        }
        match m1.game_outcome(m2) {
            GameOutcome::Win => {
                self.wins1 += 1;
            },
            GameOutcome::Lose => {
                self.wins2 += 1;
            },
            GameOutcome::Tie => {
                self.ties += 1;
            },
        }
        self.round += 1;
        self.rounds = Ghost(self.rounds@.push((m1, m2)));
        self.round == self.steps
    }

    /// What a round's relay carries: each bot is sent its opponent's move,
    /// never its own back.
    pub fn relay_moves(m1: Move, m2: Move) -> (r: (Move, Move))
        ensures
            r.0 == m2,
            r.1 == m1,
    {
        (m2, m1)
    }

    /// Law: a well-formed battle is never partially scored: its three
    /// counters always account for every recorded round.
    pub proof fn lemma_counters_account_for_rounds(self)
        requires
            self.wf(),
        ensures
            self.wins1 + self.wins2 + self.ties == self.round,
    {
        lemma_counts_partition(self.rounds@);
    }

    /// Whether all rounds have been recorded.
    pub fn finished(&self) -> (r: bool)
        ensures
            r == (self.round == self.steps),
    {
        self.round == self.steps
    }

    /// The totals so far; the battle's summary once `finished`.
    pub fn result(&self) -> (r: BattleResult)
        ensures
            r.wins1 == self.wins1,
            r.wins2 == self.wins2,
            r.ties == self.ties,
    {
        BattleResult { wins1: self.wins1, wins2: self.wins2, ties: self.ties }
    }
}

} // verus!
