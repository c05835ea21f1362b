//! The scoring policy: points per lock by lines cleared and level, and the
//! level as a function of the lines cleared so far.

use vstd::prelude::*;

verus! {

/// The most lines that one lock can clear.
pub const MAX_LINES: u32 = 4;

/// The points that a lock earns at level one, indexed by the number of lines
/// it cleared.
pub const SCORES_PER_LINES: [u32; 5] = [0, 40, 100, 300, 1200];

/// The points that a lock earns at level one, by the number of lines it cleared.
pub open spec fn line_points(lines: int) -> int {
    SCORES_PER_LINES@[lines] as int
}

/// The level that is played once `total_lines` lines were cleared: it starts
/// at one and goes up by one with every ten lines.
pub open spec fn level_for(total_lines: int) -> int {
    total_lines / 10 + 1
}

/// The running totals of a session.
#[derive(Clone, Copy, Debug, PartialEq, Eq, Structural)]
pub struct Scoreboard {
    pub total_cleared_lines: u32,
    pub score: u32,
    pub level: u32,
}

impl Scoreboard {
    /// The level is the one that belongs to the lines cleared so far.
    pub open spec fn wf(&self) -> bool {
        self.level == level_for(self.total_cleared_lines as int)
    }

    /// Whether a lock that clears `lines` lines can be recorded without
    /// leaving the range of the counters.
    pub open spec fn can_record(&self, lines: int) -> bool {
        &&& 0 <= lines <= MAX_LINES
        &&& self.total_cleared_lines + lines <= u32::MAX
        &&& self.score + self.level * line_points(lines) <= u32::MAX
    }

    /// Whether any lock can be recorded, whatever it clears.
    pub open spec fn has_room(&self) -> bool {
        &&& self.total_cleared_lines + MAX_LINES <= u32::MAX
        &&& self.score + self.level * line_points(MAX_LINES as int) <= u32::MAX
    }

    /// The totals after a lock that cleared `lines` lines: the lines are
    /// added, the lock earns the level played so far times the points for
    /// that many lines, and the level follows from the new number of lines.
    pub open spec fn after(self, lines: int) -> Scoreboard {
        Scoreboard {
            total_cleared_lines: (self.total_cleared_lines + lines) as u32,
            score: (self.score + self.level * line_points(lines)) as u32,
            level: level_for(self.total_cleared_lines + lines) as u32,
        }
    }

    /// The totals at the start of a session: nothing cleared, no points, level one.
    pub fn new() -> (scores: Self)
        ensures
            scores.wf(),
            scores == (Scoreboard { total_cleared_lines: 0, score: 0, level: 1 }),
    {
        Scoreboard { total_cleared_lines: 0, score: 0, level: 1 }
    }

    /// Whether the counters have room for any lock.
    pub fn room(&self) -> (room: bool)
        ensures
            room == self.has_room(),
    {
        let top: u64 = SCORES_PER_LINES[MAX_LINES as usize] as u64;
        assert(self.level * top == self.level * 1200) by (nonlinear_arith)
            requires
                top == 1200,
        ;
        let most: u64 = self.score as u64 + self.level as u64 * top;
        self.total_cleared_lines <= u32::MAX - MAX_LINES && most <= u32::MAX as u64
    }

    /// Records a lock that cleared `lines` lines.
    pub fn record(&mut self, lines: u32)
        requires
            old(self).wf(),
            old(self).can_record(lines as int),
        ensures
            final(self).wf(),
            *final(self) == old(self).after(lines as int),
    {
        let points: u32 = SCORES_PER_LINES[lines as usize];
        assert(self.level * points <= u32::MAX) by (nonlinear_arith)
            requires
                self.score + self.level * points <= u32::MAX,
                self.score >= 0,
        ;
        self.total_cleared_lines = self.total_cleared_lines + lines;
        self.score = self.score + self.level * points;
        self.level = self.total_cleared_lines / 10 + 1;
    }
}

/// Room for any lock is room for each lock.
pub proof fn lemma_room_for_each(scores: Scoreboard, lines: int)
    requires
        scores.has_room(),
        0 <= lines <= MAX_LINES,
    ensures
        scores.can_record(lines),
{
    assert(scores.level * line_points(lines) <= scores.level * 1200) by (nonlinear_arith)
        requires
            0 <= line_points(lines) <= 1200,
            scores.level >= 0,
    ;
}

} // verus!
