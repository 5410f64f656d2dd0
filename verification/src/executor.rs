//! The command executor: the interpreter core.
//!
//! The executor owns the command characters, a cursor index, and a stack of
//! loop-start indices. One `step` dispatches on the character under the
//! cursor: `C`, `F`, `R` act on the painter (and, for `F`, the buffer), `S`
//! signals a pause, `[` opens a loop, `]` closes one iteration by jumping
//! back, and every other character is a no-op. A closing bracket rewrites
//! itself to `|` in place when it fires and back to `]` when passed again,
//! so every loop body runs exactly twice.
//!
//! The ghost type [`Machine`] models the executor's entire state; `step`'s
//! contract says the new state is exactly `Machine::step` of the old one,
//! and `run`'s that the final state is reached by iterating it.

use vstd::prelude::*;

use crate::buffer::{cell_index, CFRBuffer};
use crate::enums::{CFRColor, CFRDirection, CFRError};
use crate::painter::{moved_painter, CFRPainter};

verus! {

/// The mutable part of the executor that is not painter or buffer: the
/// command characters (with in-place bracket flips), the cursor, and the
/// stack of loop-start indices.
#[derive(Debug, Clone)]
pub struct CommandExecutorState {
    pub commands: Vec<char>,
    pub index: usize,
    pub block_starts: Vec<usize>,
}

/// Executes a command string against one buffer and one painter.
#[derive(Debug)]
pub struct CommandExecutor {
    pub state: CommandExecutorState,
    pub buffer: CFRBuffer,
    pub painter: CFRPainter,
}

/// The mathematical state of an execution: everything a step depends on
/// and everything a step may change.
pub ghost struct Machine {
    pub cmds: Seq<char>,
    pub index: int,
    pub stack: Seq<int>,
    pub painter: CFRPainter,
    pub width: u32,
    pub height: u32,
    pub data: Seq<CFRColor>,
}

impl Machine {
    /// Well-formedness: a nonempty grid whose cell count matches its
    /// dimensions and fits a `usize`, an in-bounds painter, a cursor within
    /// the command sequence, and stack entries within it too.
    pub open spec fn wf(self) -> bool {
        &&& 1 <= self.width
        &&& 1 <= self.height
        &&& self.width * self.height <= usize::MAX
        &&& self.data.len() == self.width * self.height
        &&& self.painter.x < self.width
        &&& self.painter.y < self.height
        &&& self.cmds.len() <= usize::MAX
        &&& 0 <= self.index <= self.cmds.len()
        &&& forall|i: int|
            0 <= i < self.stack.len() ==> 0 <= #[trigger] self.stack[i] <= self.cmds.len()
    }

    /// The cursor has passed the last command: the run is complete.
    pub open spec fn finished(self) -> bool {
        self.index >= self.cmds.len()
    }

    /// The cursor sits on a `]` with no open loop: the program is
    /// malformed and the run can make no further progress.
    pub open spec fn stuck(self) -> bool {
        !self.finished() && self.cmds[self.index] == ']' && self.stack.len() == 0
    }

    /// No further step changes the state.
    pub open spec fn stopped(self) -> bool {
        self.finished() || self.stuck()
    }

    /// What one `step` call returns from this state: `EndOfCommands` when
    /// finished, `UnmatchedCloseBracket` when stuck, and otherwise `Ok`
    /// with the pause flag, which is set exactly on `S`.
    pub open spec fn step_result(self) -> Result<bool, CFRError> {
        if self.finished() {
            Err(CFRError::EndOfCommands)
        } else if self.stuck() {
            Err(CFRError::UnmatchedCloseBracket)
        } else if self.cmds[self.index] == 'S' {
            Ok(true)
        } else {
            Ok(false)
        }
    }

    /// The state after one step: the transition table of the interpreter.
    /// A stopped state steps to itself.
    pub open spec fn step(self) -> Machine {
        if self.stopped() {
            self
        } else {
            let c = self.cmds[self.index];
            if c == 'C' {
                Machine {
                    painter: CFRPainter {
                        color: crate::enums::next_color(self.painter.color),
                        ..self.painter
                    },
                    index: self.index + 1,
                    ..self
                }
            } else if c == 'F' {
                let p = moved_painter(self.painter, self.width, self.height);
                Machine {
                    painter: p,
                    data: self.data.update(cell_index(p.x, p.y, self.width), p.color),
                    index: self.index + 1,
                    ..self
                }
            } else if c == 'R' {
                Machine {
                    painter: CFRPainter {
                        direction: crate::enums::next_direction(self.painter.direction),
                        ..self.painter
                    },
                    index: self.index + 1,
                    ..self
                }
            } else if c == '[' {
                Machine { stack: self.stack.push(self.index + 1), index: self.index + 1, ..self }
            } else if c == ']' {
                Machine {
                    cmds: self.cmds.update(self.index, '|'),
                    index: self.stack.last(),
                    stack: self.stack.drop_last(),
                    ..self
                }
            } else if c == '|' {
                Machine { cmds: self.cmds.update(self.index, ']'), index: self.index + 1, ..self }
            } else {
                // 'S' and every unknown character only advance the cursor.
                Machine { index: self.index + 1, ..self }
            }
        }
    }

    /// The state after `k` steps.
    pub open spec fn steps(self, k: nat) -> Machine
        decreases k,
    {
        if k == 0 {
            self
        } else {
            self.steps((k - 1) as nat).step()
        }
    }

    /// The state a full run ends in: `step` iterated until the machine
    /// stops. Well-defined on well-formed states because every step
    /// shrinks the measure `(phi, commands remaining)` lexicographically,
    /// so a run cannot go on forever.
    pub open spec fn run_spec(self) -> Machine
        decreases phi(self), self.cmds.len() - self.index,
        when self.wf()
        via Self::run_spec_decreases
    {
        if self.stopped() {
            self
        } else {
            self.step().run_spec()
        }
    }

    #[via_fn]
    proof fn run_spec_decreases(self) {
        if self.wf() && !self.stopped() {
            lemma_step_decreases(self);
            lemma_step_wf(self);
        }
    }

    /// The starting state for a command sequence on a fresh grid: cursor at
    /// 0, no open loops, and the painter white, facing up, at the grid's
    /// center `((width - 1) / 2, (height - 1) / 2)`.
    pub open spec fn initial(
        cmds: Seq<char>,
        width: u32,
        height: u32,
        data: Seq<CFRColor>,
    ) -> Machine {
        Machine {
            cmds: cmds,
            index: 0,
            stack: Seq::empty(),
            painter: CFRPainter {
                direction: CFRDirection::Up,
                color: CFRColor::White,
                x: ((width - 1) as u32) / 2,
                y: ((height - 1) as u32) / 2,
            },
            width: width,
            height: height,
            data: data,
        }
    }
}

/// Two to the power `e`.
pub open spec fn two_to(e: nat) -> nat
    decreases e,
{
    if e == 0 {
        1
    } else {
        2 * two_to((e - 1) as nat)
    }
}

/// The termination weight of position `p` of the command sequence, seen
/// from cursor position `index`. A `]` ahead of the cursor may still fire
/// and then rescan everything behind it, so it weighs `2^(p + 1)`; a `]`
/// behind the cursor, or a `|` ahead of it, may yet be worth one pass and
/// weighs `2^p`; everything else weighs nothing.
pub open spec fn pos_weight(cmds: Seq<char>, index: int, p: int) -> nat {
    if cmds[p] == ']' {
        if p >= index {
            two_to((p + 1) as nat)
        } else {
            two_to(p as nat)
        }
    } else if cmds[p] == '|' {
        if p >= index {
            two_to(p as nat)
        } else {
            0
        }
    } else {
        0
    }
}

/// The summed weight of positions `0 .. n`.
pub open spec fn phi_upto(cmds: Seq<char>, index: int, n: int) -> nat
    decreases n,
{
    if n <= 0 {
        0
    } else {
        phi_upto(cmds, index, n - 1) + pos_weight(cmds, index, n - 1)
    }
}

/// The termination measure of a state: the summed weight of its whole
/// command sequence. A firing `]` strictly shrinks it; every other step
/// keeps it and advances the cursor.
pub open spec fn phi(m: Machine) -> nat {
    phi_upto(m.cmds, m.index, m.cmds.len() as int)
}

/// The sum `2^a + ... + 2^(b - 1)`.
pub open spec fn range_sum(a: int, b: int) -> nat
    decreases b - a,
{
    if b <= a {
        0
    } else {
        range_sum(a, b - 1) + two_to((b - 1) as nat)
    }
}

proof fn lemma_two_to_pos(e: nat)
    ensures
        two_to(e) >= 1,
    decreases e,
{
    if e > 0 {
        lemma_two_to_pos((e - 1) as nat);
    }
}

/// A block of powers of two below `2^b` sums to less than `2^b`.
proof fn lemma_range_sum_below(a: int, b: int)
    requires
        0 <= a,
        0 <= b,
    ensures
        range_sum(a, b) < two_to(b as nat),
    decreases b,
{
    if b <= a {
        lemma_two_to_pos(b as nat);
    } else {
        lemma_range_sum_below(a, b - 1);
    }
}

/// Weight accounting for a firing `]` at position `r` with the cursor
/// jumping back to `s`: the rewritten sequence, seen from `s`, weighs at
/// least `2^r` less than the old one, up to the re-armed block between `s`
/// and `r`, which `lemma_range_sum_below` bounds.
proof fn lemma_phi_upto_fire(c: Seq<char>, r: int, s: int, n: int)
    requires
        0 <= r < c.len(),
        c[r] == ']',
        0 <= s,
        0 <= n <= c.len(),
    ensures
        phi_upto(c.update(r, '|'), s, n) + (if r < n {
            two_to(r as nat)
        } else {
            0
        }) <= phi_upto(c, r, n) + range_sum(s, if n <= r {
            n
        } else {
            r
        }),
    decreases n,
{
    if n > 0 {
        lemma_phi_upto_fire(c, r, s, n - 1);
        let p = n - 1;
        lemma_two_to_pos(p as nat);
        if p == r {
            assert(two_to((r + 1) as nat) == 2 * two_to(r as nat));
        } else {
            assert(c.update(r, '|')[p] == c[p]);
            if c[p] == ']' {
                assert(two_to((p + 1) as nat) == 2 * two_to(p as nat));
            }
        }
    }
}

/// Two cursor positions that give every position the same weight give the
/// whole sequence the same weight.
proof fn lemma_phi_upto_same(c1: Seq<char>, i1: int, c2: Seq<char>, i2: int, n: int)
    requires
        forall|p: int| 0 <= p < n ==> pos_weight(c1, i1, p) == pos_weight(c2, i2, p),
    ensures
        phi_upto(c1, i1, n) == phi_upto(c2, i2, n),
    decreases n,
{
    if n > 0 {
        lemma_phi_upto_same(c1, i1, c2, i2, n - 1);
    }
}

/// Every step from a well-formed, not-stopped state shrinks the measure
/// `(phi, commands remaining)` lexicographically: a firing `]` shrinks
/// `phi`, and every other step keeps `phi` and advances the cursor.
pub proof fn lemma_step_decreases(m: Machine)
    requires
        m.wf(),
        !m.stopped(),
    ensures
        m.step().cmds.len() == m.cmds.len(),
        phi(m.step()) < phi(m) || (phi(m.step()) == phi(m) && m.cmds.len() - m.step().index
            < m.cmds.len() - m.index),
    decreases m.cmds.len(),
{
    let c = m.cmds[m.index];
    let i = m.index;
    let n = m.cmds.len() as int;
    if c == ']' {
        let s = m.stack.last();
        lemma_phi_upto_fire(m.cmds, i, s, n);
        lemma_range_sum_below(s, i);
        lemma_two_to_pos(i as nat);
        assert(phi(m.step()) < phi(m));
    } else if c == '|' {
        let c2 = m.cmds.update(i, ']');
        assert forall|p: int| 0 <= p < n implies pos_weight(m.cmds, i, p) == pos_weight(
            c2,
            i + 1,
            p,
        ) by {
            if p != i {
                assert(c2[p] == m.cmds[p]);
            }
        }
        lemma_phi_upto_same(m.cmds, i, c2, i + 1, n);
    } else {
        assert forall|p: int| 0 <= p < n implies pos_weight(m.cmds, i, p) == pos_weight(
            m.cmds,
            i + 1,
            p,
        ) by {}
        lemma_phi_upto_same(m.cmds, i, m.cmds, i + 1, n);
    }
}

/// One step preserves well-formedness.
pub proof fn lemma_step_wf(m: Machine)
    requires
        m.wf(),
    ensures
        m.step().wf(),
{
    if !m.stopped() {
        let c = m.cmds[m.index];
        if c == 'F' {
            let p = moved_painter(m.painter, m.width, m.height);
            crate::buffer::lemma_cell_index_in_range(p.x, p.y, m.width, m.height);
        } else if c == ']' {
            assert(0 <= m.stack.last() <= m.cmds.len());
        }
    }
}

/// Any number of steps preserves well-formedness.
pub proof fn lemma_steps_wf(m: Machine, k: nat)
    requires
        m.wf(),
    ensures
        m.steps(k).wf(),
    decreases k,
{
    if k > 0 {
        lemma_steps_wf(m, (k - 1) as nat);
        lemma_step_wf(m.steps((k - 1) as nat));
    }
}

/// Stepping `a + b` times is stepping `a` times, then `b` times.
pub proof fn lemma_steps_add(m: Machine, a: nat, b: nat)
    ensures
        m.steps(a + b) == m.steps(a).steps(b),
    decreases b,
{
    if b > 0 {
        lemma_steps_add(m, a, (b - 1) as nat);
        assert(m.steps(a + b) == m.steps((a + b - 1) as nat).step());
    }
}

/// A stopped state never moves again, however many steps are taken.
pub proof fn lemma_stopped_stable(m: Machine, k: nat)
    requires
        m.stopped(),
    ensures
        m.steps(k) == m,
    decreases k,
{
    if k > 0 {
        lemma_stopped_stable(m, (k - 1) as nat);
    }
}

/// Execution is deterministic: from one starting state, any two stopped
/// states reached by stepping are the same state. In particular, running
/// the same command string twice against identical freshly built buffers
/// ends with identical buffers.
pub proof fn lemma_run_deterministic(m: Machine, k1: nat, k2: nat)
    requires
        m.steps(k1).stopped(),
        m.steps(k2).stopped(),
    ensures
        m.steps(k1) == m.steps(k2),
{
    if k1 <= k2 {
        lemma_steps_add(m, k1, (k2 - k1) as nat);
        lemma_stopped_stable(m.steps(k1), (k2 - k1) as nat);
    } else {
        lemma_steps_add(m, k2, (k1 - k2) as nat);
        lemma_stopped_stable(m.steps(k2), (k1 - k2) as nat);
    }
}

impl View for CommandExecutor {
    type V = Machine;

    open spec fn view(&self) -> Machine {
        Machine {
            cmds: self.state.commands@,
            index: self.state.index as int,
            stack: self.state.block_starts@.map_values(|u: usize| u as int),
            painter: self.painter,
            width: self.buffer.width,
            height: self.buffer.height,
            data: self.buffer.data@,
        }
    }
}

impl CommandExecutor {
    /// Well-formedness of the executor, as of its abstract state.
    pub open spec fn wf(&self) -> bool {
        self@.wf()
    }

    /// Creates an executor for `commands` that owns `buffer`, with a fresh
    /// painter at the buffer's center. The abstract state is exactly
    /// `Machine::initial` of the inputs.
    pub fn new(commands: String, buffer: CFRBuffer) -> (r: CommandExecutor)
        requires
            buffer.size_ok(),
            buffer.width >= 1,
            buffer.height >= 1,
        ensures
            r.wf(),
            r@ == Machine::initial(commands@, buffer.width, buffer.height, buffer.data@),
    {
        // Reading the length pins `width * height` within `usize::MAX`.
        let len: usize = buffer.data.len();
        let mut painter = CFRPainter::new();
        painter.x = (buffer.width - 1) / 2;
        painter.y = (buffer.height - 1) / 2;
        assert(painter.x < buffer.width);
        assert(painter.y < buffer.height);

        let s = commands.as_str();
        let n: usize = s.unicode_len();
        let mut cmds: Vec<char> = Vec::new();
        let mut i: usize = 0;
        while i < n
            invariant
                0 <= i <= n,
                n == s@.len(),
                s@ == commands@,
                cmds@.len() == i,
                forall|j: int| 0 <= j < i ==> cmds@[j] == s@[j],
            decreases n - i,
        {
            cmds.push(s.get_char(i));
            i = i + 1;
        }
        assert(cmds@ =~= commands@);

        let r = CommandExecutor {
            state: CommandExecutorState { commands: cmds, index: 0, block_starts: Vec::new() },
            buffer,
            painter,
        };
        assert(r@.stack =~= Seq::<int>::empty());
        r
    }

    /// The painter's current position, a pure read.
    pub fn position(&self) -> (r: (u32, u32))
        ensures
            r == (self.painter.x, self.painter.y),
    {
        (self.painter.x, self.painter.y)
    }

    /// Executes exactly one transition of the interpreter. Returns the
    /// pause flag (`true` exactly on `S`), `Err(EndOfCommands)` once the
    /// cursor has passed the last command, and `Err(UnmatchedCloseBracket)`
    /// on a `]` with no open loop. The new state is exactly
    /// `Machine::step` of the old one.
    pub fn step(&mut self) -> (r: Result<bool, CFRError>)
        requires
            old(self).wf(),
        ensures
            final(self).wf(),
            r == old(self)@.step_result(),
            final(self)@ == old(self)@.step(),
    {
        proof {
            lemma_step_wf(old(self)@);
        }
        if self.state.index >= self.state.commands.len() {
            return Err(CFRError::EndOfCommands);
        }

        let mut sleep = false;
        let c = self.state.commands[self.state.index];
        match c {
            'C' => {
                self.painter.change_color();
            },
            'F' => {
                self.painter.move_forward_and_draw(&mut self.buffer);
            },
            'R' => {
                self.painter.rotate();
            },
            'S' => {
                sleep = true;
            },
            '[' => {
                self.state.block_starts.push(self.state.index + 1);
            },
            ']' => {
                match self.state.block_starts.pop() {
                    Some(block_start) => {
                        self.state.commands[self.state.index] = '|';
                        self.state.index = block_start;
                        proof {
                            assert(self@.stack =~= old(self)@.stack.drop_last());
                        }
                        return Ok(false);
                    },
                    None => {
                        return Err(CFRError::UnmatchedCloseBracket);
                    },
                }
            },
            '|' => {
                self.state.commands[self.state.index] = ']';
            },
            _ => {},
        }

        self.state.index = self.state.index + 1;
        proof {
            if c == '[' {
                assert(self@.stack =~= old(self)@.stack.push(old(self)@.index + 1));
            }
        }
        Ok(sleep)
    }

    /// Drives `step` until the command sequence is exhausted (`Ok`) or a
    /// `]` with no open loop is hit (`Err(UnmatchedCloseBracket)`). The
    /// final state is exactly `Machine::run_spec` of the starting state:
    /// reached from it by stepping, stopped, and finished exactly when the
    /// result is `Ok`.
    pub fn run(&mut self) -> (r: Result<(), CFRError>)
        requires
            old(self).wf(),
        ensures
            final(self).wf(),
            final(self)@ == old(self)@.run_spec(),
            exists|k: nat| final(self)@ == old(self)@.steps(k),
            final(self)@.stopped(),
            r is Ok <==> final(self)@.finished(),
            r is Err ==> r == Err::<(), CFRError>(CFRError::UnmatchedCloseBracket)
                && final(self)@.stuck(),
    {
        proof {
            assert(self@ == old(self)@.steps(0));
        }
        loop
            invariant
                self.wf(),
                self@.run_spec() == old(self)@.run_spec(),
                exists|k: nat| self@ == old(self)@.steps(k),
            decreases phi(self@), self@.cmds.len() - self@.index,
        {
            let ghost k: nat = choose|k: nat| self@ == old(self)@.steps(k);
            let ghost pre = self@;
            match self.step() {
                Ok(_) => {
                    proof {
                        lemma_step_decreases(pre);
                        assert(self@ == old(self)@.steps(k + 1));
                    }
                },
                Err(e) => {
                    proof {
                        assert(self@ == old(self)@.steps(k));
                    }
                    match e {
                        CFRError::EndOfCommands => {
                            return Ok(());
                        },
                        _ => {
                            return Err(e);
                        },
                    }
                },
            }
        }
    }
}

} // verus!
