//! The execution engine: one fetch-dispatch-advance step of the machine.
//!
//! Dispatch never terminates the process itself.  Each step returns a
//! [`StepOutcome`] and the driver running the loop reacts to it: it keeps
//! stepping on `Continue`, writes a byte on `Output`, reads a byte and
//! hands it back through [`feed_input`] on `NeedInput`, exits successfully
//! on `Halt`, and reports the fatal condition of a `Fail` and exits with a
//! failing status.

use vstd::prelude::*;

use crate::grid::{cell_at, grid_wf, in_bounds};
use crate::state::{
    binop_applied, dup_applied, emptiness_applied, moved_col, moved_row, neg_flag, pos_flag,
    trunc_quot, unop_applied, wrap_diff, wrap_minus, wrap_prod, wrap_sum, zero_flag, Direction,
    State,
};

verus! {

/// A fatal condition met during dispatch.  Every one of these ends the
/// run: the driver reports it and exits with a failing status.
#[derive(Clone, Copy, Debug, PartialEq, Eq)]
pub enum ErrorKind {
    /// An operation needed more stack values than were present.
    StackUnderflow,
    /// The divisor operand of a division was zero.
    DivisionByZero,
    /// A grid cell held a character outside the instruction set.
    UnknownInstruction(char),
}

/// What one dispatch step asks of the driver running the loop.
#[derive(Clone, Copy, Debug, PartialEq, Eq)]
pub enum StepOutcome {
    /// The step is complete; keep stepping.
    Continue,
    /// Write the low byte of this value to the output, then keep stepping.
    Output(i32),
    /// Read one byte of input and hand it back through `feed_input`
    /// (as -1 at end of input); the step has not advanced yet.
    NeedInput,
    /// The run is over: terminate successfully.
    Halt,
    /// The run is over: report the condition and terminate with a failing
    /// status.
    Fail(ErrorKind),
}

/// Whether the character is a decimal digit instruction.
pub open spec fn is_digit(c: char) -> bool {
    48 <= c as int <= 57
}

/// The integer literal a digit instruction pushes.
pub open spec fn digit_val(c: char) -> i32
    recommends
        is_digit(c),
{
    (c as int - 48) as i32
}

/// How many stack values the instruction consumes before it can run.
pub open spec fn arity(c: char) -> nat {
    if c == '+' || c == '-' || c == '*' || c == '/' {
        2
    } else if c == 'p' || c == '@' || c == '|' || c == '_' || c == '!' || c == '~' || c == '.'
        || c == 'g' || c == 'l' {
        1
    } else {
        0
    }
}

/// The instruction set: any other character in a grid cell is a fatal
/// `UnknownInstruction` condition.
pub open spec fn is_instruction(c: char) -> bool {
    c == '>' || c == '<' || c == '^' || c == 'v' || is_digit(c) || c == 'p' || c == '@'
        || c == '+' || c == '-' || c == '*' || c == '/' || c == ';' || c == '|' || c == '_'
        || c == 'e' || c == '!' || c == '~' || c == '.' || c == ',' || c == 'g' || c == 'l'
        || c == ' '
}

/// The stack after the instruction's effect, for an instruction that runs
/// (known, enough operands, no division by zero; `;` and `,` do not reach
/// this).  Binary operators take the value pushed earlier as left operand.
pub open spec fn stack_after(c: char, s: Seq<i32>) -> Seq<i32>
    recommends
        s.len() >= arity(c),
{
    if is_digit(c) {
        s.push(digit_val(c))
    } else if c == 'p' || c == '.' || c == '|' || c == '_' {
        s.drop_last()
    } else if c == '@' {
        dup_applied(s)
    } else if c == '+' {
        binop_applied(s, |a: i32, b: i32| wrap_sum(a, b))
    } else if c == '-' {
        binop_applied(s, |a: i32, b: i32| wrap_diff(a, b))
    } else if c == '*' {
        binop_applied(s, |a: i32, b: i32| wrap_prod(a, b))
    } else if c == '/' {
        binop_applied(s, |a: i32, b: i32| trunc_quot(a, b))
    } else if c == 'e' {
        emptiness_applied(s)
    } else if c == '!' {
        unop_applied(s, |a: i32| zero_flag(a))
    } else if c == '~' {
        unop_applied(s, |a: i32| wrap_minus(a))
    } else if c == 'g' {
        unop_applied(s, |a: i32| pos_flag(a))
    } else if c == 'l' {
        unop_applied(s, |a: i32| neg_flag(a))
    } else {
        s
    }
}

/// The direction after the instruction's effect.  The four arrows set it
/// outright; the conditional branches pop the top of the stack and choose
/// by its value; every other instruction leaves it alone.
pub open spec fn dir_after(c: char, s: Seq<i32>, d: Direction) -> Direction
    recommends
        s.len() >= arity(c),
{
    if c == '>' {
        Direction::Right
    } else if c == '<' {
        Direction::Left
    } else if c == '^' {
        Direction::Up
    } else if c == 'v' {
        Direction::Down
    } else if c == '|' {
        if s.last() == 0 {
            Direction::Up
        } else {
            Direction::Down
        }
    } else if c == '_' {
        if s.last() == 0 {
            Direction::Left
        } else {
            Direction::Right
        }
    } else {
        d
    }
}

/// The outcome of an instruction that runs: the output instruction hands
/// the popped value to the driver, everything else just continues.
pub open spec fn step_output(c: char, s: Seq<i32>) -> StepOutcome
    recommends
        s.len() >= arity(c),
{
    if c == '.' {
        StepOutcome::Output(s.last())
    } else {
        StepOutcome::Continue
    }
}

/// The full transition relation of one dispatch step.
///
/// From an off-grid position the step halts successfully and changes
/// nothing (walking off the boundary ends the run).  Otherwise the fetched
/// character decides: `;` halts; `,` asks for input without touching the
/// state; an unknown character, a stack too short for the instruction, and
/// a zero divisor fail with their conditions, leaving the state unchanged.
/// An instruction that runs updates stack and direction per `stack_after`
/// and `dir_after`, then moves the position one cell in the new direction:
/// a direction set by this very instruction takes effect on this move.
/// Whether the new position is still on the grid is checked by the next
/// step, which halts if it is not.
pub open spec fn step_rel(
    g: Seq<(Vec<char>, i32)>,
    pre: State,
    post: State,
    o: StepOutcome,
) -> bool {
    let y = pre.ypos as int;
    let x = pre.xpos as int;
    if !in_bounds(g, y, x) {
        post == pre && o == StepOutcome::Halt
    } else {
        let c = cell_at(g, y, x);
        if c == ';' {
            post == pre && o == StepOutcome::Halt
        } else if c == ',' {
            post == pre && o == StepOutcome::NeedInput
        } else if !is_instruction(c) {
            post == pre && o == StepOutcome::Fail(ErrorKind::UnknownInstruction(c))
        } else if pre@.len() < arity(c) {
            post == pre && o == StepOutcome::Fail(ErrorKind::StackUnderflow)
        } else if c == '/' && pre@.last() == 0 {
            post == pre && o == StepOutcome::Fail(ErrorKind::DivisionByZero)
        } else {
            let d = dir_after(c, pre@, pre.dir);
            post@ == stack_after(c, pre@) && post.dir == d && post.ypos as int == moved_row(d, y)
                && post.xpos as int == moved_col(d, x) && o == step_output(c, pre@)
        }
    }
}

/// The transition relation of delivering one input byte after a step
/// returned `NeedInput`: the value read (or -1 at end of input) is pushed
/// and the pointer advances in the unchanged direction.
pub open spec fn feed_rel(
    g: Seq<(Vec<char>, i32)>,
    pre: State,
    post: State,
    val: i32,
    o: StepOutcome,
) -> bool {
    let y = pre.ypos as int;
    let x = pre.xpos as int;
    if !in_bounds(g, y, x) {
        post == pre && o == StepOutcome::Halt
    } else {
        post@ == pre@.push(val) && post.dir == pre.dir && post.ypos as int == moved_row(
            pre.dir,
            y,
        ) && post.xpos as int == moved_col(pre.dir, x) && o == StepOutcome::Continue
    }
}

/// Run one fetch-dispatch-advance step of the machine on a well-formed
/// grid.  The state moves exactly as `step_rel` says.
pub fn step(st: &mut State, grid: &Vec<(Vec<char>, i32)>) -> (o: StepOutcome)
    requires
        grid_wf(grid@),
    ensures
        step_rel(grid@, *old(st), *final(st), o),
{
    if st.ypos < 0 {
        return StepOutcome::Halt;
    }
    let y = st.ypos as usize;
    if y >= grid.len() {
        return StepOutcome::Halt;
    }
    proof {
        assert(grid@[st.ypos as int].1 == grid@[st.ypos as int].0@.len());
    }
    let row_len = grid[y].1;
    if st.xpos < 0 || st.xpos >= row_len {
        return StepOutcome::Halt;
    }
    let x = st.xpos as usize;
    let c = grid[y].0[x];
    let out: StepOutcome = match c {
        '>' => {
            st.dir = Direction::Right;
            StepOutcome::Continue
        },
        '<' => {
            st.dir = Direction::Left;
            StepOutcome::Continue
        },
        '^' => {
            st.dir = Direction::Up;
            StepOutcome::Continue
        },
        'v' => {
            st.dir = Direction::Down;
            StepOutcome::Continue
        },
        '0' => {
            st.push(0);
            StepOutcome::Continue
        },
        '1' => {
            st.push(1);
            StepOutcome::Continue
        },
        '2' => {
            st.push(2);
            StepOutcome::Continue
        },
        '3' => {
            st.push(3);
            StepOutcome::Continue
        },
        '4' => {
            st.push(4);
            StepOutcome::Continue
        },
        '5' => {
            st.push(5);
            StepOutcome::Continue
        },
        '6' => {
            st.push(6);
            StepOutcome::Continue
        },
        '7' => {
            st.push(7);
            StepOutcome::Continue
        },
        '8' => {
            st.push(8);
            StepOutcome::Continue
        },
        '9' => {
            st.push(9);
            StepOutcome::Continue
        },
        'p' => {
            if st.depth() < 1 {
                return StepOutcome::Fail(ErrorKind::StackUnderflow);
            }
            let _ = st.pop();
            StepOutcome::Continue
        },
        '@' => {
            if st.depth() < 1 {
                return StepOutcome::Fail(ErrorKind::StackUnderflow);
            }
            st.dup();
            StepOutcome::Continue
        },
        '+' => {
            if st.depth() < 2 {
                return StepOutcome::Fail(ErrorKind::StackUnderflow);
            }
            st.add();
            StepOutcome::Continue
        },
        '-' => {
            if st.depth() < 2 {
                return StepOutcome::Fail(ErrorKind::StackUnderflow);
            }
            st.sub();
            StepOutcome::Continue
        },
        '*' => {
            if st.depth() < 2 {
                return StepOutcome::Fail(ErrorKind::StackUnderflow);
            }
            st.mult();
            StepOutcome::Continue
        },
        '/' => {
            if st.depth() < 2 {
                return StepOutcome::Fail(ErrorKind::StackUnderflow);
            }
            if st.peek() == 0 {
                return StepOutcome::Fail(ErrorKind::DivisionByZero);
            }
            st.div();
            StepOutcome::Continue
        },
        ';' => {
            return StepOutcome::Halt;
        },
        '|' => {
            if st.depth() < 1 {
                return StepOutcome::Fail(ErrorKind::StackUnderflow);
            }
            if st.is_zero() {
                st.dir = Direction::Up;
            } else {
                st.dir = Direction::Down;
            }
            StepOutcome::Continue
        },
        '_' => {
            if st.depth() < 1 {
                return StepOutcome::Fail(ErrorKind::StackUnderflow);
            }
            if st.is_zero() {
                st.dir = Direction::Left;
            } else {
                st.dir = Direction::Right;
            }
            StepOutcome::Continue
        },
        'e' => {
            st.is_empty();
            StepOutcome::Continue
        },
        '!' => {
            if st.depth() < 1 {
                return StepOutcome::Fail(ErrorKind::StackUnderflow);
            }
            st.logical_neg();
            StepOutcome::Continue
        },
        '~' => {
            if st.depth() < 1 {
                return StepOutcome::Fail(ErrorKind::StackUnderflow);
            }
            st.negate();
            StepOutcome::Continue
        },
        '.' => {
            if st.depth() < 1 {
                return StepOutcome::Fail(ErrorKind::StackUnderflow);
            }
            let v = st.pop();
            StepOutcome::Output(v)
        },
        ',' => {
            return StepOutcome::NeedInput;
        },
        'g' => {
            if st.depth() < 1 {
                return StepOutcome::Fail(ErrorKind::StackUnderflow);
            }
            st.is_gt();
            StepOutcome::Continue
        },
        'l' => {
            if st.depth() < 1 {
                return StepOutcome::Fail(ErrorKind::StackUnderflow);
            }
            st.is_lt();
            StepOutcome::Continue
        },
        ' ' => StepOutcome::Continue,
        _ => {
            return StepOutcome::Fail(ErrorKind::UnknownInstruction(c));
        },
    };
    let _ = st.next_step();
    out
}

/// Deliver one input byte after `step` returned `NeedInput`: push the
/// value read (or -1 at end of input) and advance the pointer.  The state
/// moves exactly as `feed_rel` says.
pub fn feed_input(st: &mut State, grid: &Vec<(Vec<char>, i32)>, val: i32) -> (o: StepOutcome)
    requires
        grid_wf(grid@),
    ensures
        feed_rel(grid@, *old(st), *final(st), val, o),
{
    if st.ypos < 0 {
        return StepOutcome::Halt;
    }
    let y = st.ypos as usize;
    if y >= grid.len() {
        return StepOutcome::Halt;
    }
    proof {
        assert(grid@[st.ypos as int].1 == grid@[st.ypos as int].0@.len());
    }
    let row_len = grid[y].1;
    if st.xpos < 0 || st.xpos >= row_len {
        return StepOutcome::Halt;
    }
    st.push(val);
    let _ = st.next_step();
    StepOutcome::Continue
}

} // verus!
