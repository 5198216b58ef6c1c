//! Interpreter state: the integer stack plus position and direction registers.

use vstd::prelude::*;

verus! {

/// One of the four cardinal directions the instruction pointer can travel.
#[derive(Clone, Copy, Debug)]
pub enum Direction {
    Left,
    Right,
    Up,
    Down,
}

/// The mutable state of a running program: the position of the instruction
/// pointer, the direction it travels, and the value stack.
///
/// The view of a `State` is the stack contents as a sequence, oldest value
/// first; push and pop work at the tail of the sequence.
pub struct State {
    pub xpos: i32,
    pub ypos: i32,
    pub dir: Direction,
    pub stack: Vec<i32>,
}

impl View for State {
    type V = Seq<i32>;

    open spec fn view(&self) -> Seq<i32> {
        self.stack@
    }
}

/// Holds when two states agree on position and direction; the stack may
/// differ.  Stack operations leave everything but the stack alone.
pub open spec fn pos_dir_unchanged(pre: State, post: State) -> bool {
    post.xpos == pre.xpos && post.ypos == pre.ypos && post.dir == pre.dir
}

/// The row index after one move in direction `d`: Up decrements it, Down
/// increments it, Left and Right leave it alone.
pub open spec fn moved_row(d: Direction, y: int) -> int {
    match d {
        Direction::Up => y - 1,
        Direction::Down => y + 1,
        _ => y,
    }
}

/// The column index after one move in direction `d`: Left decrements it,
/// Right increments it, Up and Down leave it alone.
pub open spec fn moved_col(d: Direction, x: int) -> int {
    match d {
        Direction::Left => x - 1,
        Direction::Right => x + 1,
        _ => x,
    }
}

/// The sum of two stack values.  The stack holds 32-bit integers, so the
/// sum wraps around on overflow, as two's-complement addition does.
pub open spec fn wrap_sum(a: i32, b: i32) -> i32 {
    a.wrapping_add(b)
}

/// The difference `a - b` of two stack values, wrapping on overflow.
pub open spec fn wrap_diff(a: i32, b: i32) -> i32 {
    a.wrapping_sub(b)
}

/// The product of two stack values, wrapping on overflow.
pub open spec fn wrap_prod(a: i32, b: i32) -> i32 {
    a.wrapping_mul(b)
}

/// The quotient `a / b`, truncated toward zero.  The one pair whose exact
/// quotient does not fit in 32 bits, `i32::MIN / -1`, wraps back to
/// `i32::MIN`.  Division by zero is a fatal condition caught by the
/// dispatch loop, never evaluated.
pub open spec fn trunc_quot(a: i32, b: i32) -> i32
    recommends
        b != 0,
{
    if a == i32::MIN && b == -1 {
        i32::MIN
    } else {
        a.checked_div(b).unwrap()
    }
}

/// The arithmetic negation of a stack value; `i32::MIN` wraps to itself.
pub open spec fn wrap_minus(a: i32) -> i32 {
    a.wrapping_mul(-1i32)
}

/// 1 when the value is zero, 0 otherwise: the logical negation flag.
pub open spec fn zero_flag(a: i32) -> i32 {
    if a == 0 {
        1
    } else {
        0
    }
}

/// 1 when the value is strictly positive, 0 otherwise.
pub open spec fn pos_flag(a: i32) -> i32 {
    if a > 0 {
        1
    } else {
        0
    }
}

/// 1 when the value is strictly negative, 0 otherwise.
pub open spec fn neg_flag(a: i32) -> i32 {
    if a < 0 {
        1
    } else {
        0
    }
}

/// 1 when the stack is empty, 0 otherwise.
pub open spec fn empty_flag(s: Seq<i32>) -> i32 {
    if s.len() == 0 {
        1
    } else {
        0
    }
}

/// The stack after a binary operation: the two topmost values are replaced
/// by `op` applied to them, with the value pushed earlier as left operand.
pub open spec fn binop_applied(s: Seq<i32>, op: spec_fn(i32, i32) -> i32) -> Seq<i32>
    recommends
        s.len() >= 2,
{
    s.drop_last().drop_last().push(op(s[s.len() - 2], s[s.len() - 1]))
}

/// The stack after the top value is replaced by `op` applied to it.
pub open spec fn unop_applied(s: Seq<i32>, op: spec_fn(i32) -> i32) -> Seq<i32>
    recommends
        s.len() >= 1,
{
    s.drop_last().push(op(s.last()))
}

/// The stack after duplicating the top value.
pub open spec fn dup_applied(s: Seq<i32>) -> Seq<i32>
    recommends
        s.len() >= 1,
{
    s.push(s.last())
}

/// The stack after the emptiness test: the flag for the whole stack is
/// pushed on top, and every existing value stays where it was.
pub open spec fn emptiness_applied(s: Seq<i32>) -> Seq<i32> {
    s.push(empty_flag(s))
}

impl State {
    /// The initial state: position (0, 0), travelling right, empty stack.
    pub fn new() -> (st: State)
        ensures
            st.xpos == 0,
            st.ypos == 0,
            st.dir is Right,
            st@ == Seq::<i32>::empty(),
    {
        State { xpos: 0, ypos: 0, dir: Direction::Right, stack: Vec::new() }
    }

    /// Push `val` on top of the stack.
    pub fn push(&mut self, val: i32)
        ensures
            final(self)@ == old(self)@.push(val),
            pos_dir_unchanged(*old(self), *final(self)),
    {
        self.stack.push(val);
    }

    /// Pop the top of the stack and return it.  The caller must know the
    /// stack is not empty: popping an empty stack is a fatal condition that
    /// the dispatch loop reports before ever reaching this method.
    pub fn pop(&mut self) -> (r: i32)
        requires
            old(self)@.len() > 0,
        ensures
            r == old(self)@.last(),
            final(self)@ == old(self)@.drop_last(),
            pos_dir_unchanged(*old(self), *final(self)),
    {
        let r = self.stack.pop().unwrap();
        r
    }

    /// Pop the two topmost values and push their sum; the value pushed
    /// earlier is the left operand.  The sum wraps on overflow.
    pub fn add(&mut self)
        requires
            old(self)@.len() >= 2,
        ensures
            final(self)@ == binop_applied(old(self)@, |a: i32, b: i32| wrap_sum(a, b)),
            pos_dir_unchanged(*old(self), *final(self)),
    {
        let a1 = self.pop();
        let a2 = self.pop();
        self.push(a2.wrapping_add(a1));
    }

    /// Pop the two topmost values and push their difference.  The value
    /// pushed earlier is the left operand: after `push(a); push(b)` the
    /// difference is `a - b`, wrapping on overflow.
    pub fn sub(&mut self)
        requires
            old(self)@.len() >= 2,
        ensures
            final(self)@ == binop_applied(old(self)@, |a: i32, b: i32| wrap_diff(a, b)),
            pos_dir_unchanged(*old(self), *final(self)),
    {
        let a1 = self.pop();
        let a2 = self.pop();
        self.push(a2.wrapping_sub(a1));
    }

    /// Pop the two topmost values and push their product, wrapping on
    /// overflow.
    pub fn mult(&mut self)
        requires
            old(self)@.len() >= 2,
        ensures
            final(self)@ == binop_applied(old(self)@, |a: i32, b: i32| wrap_prod(a, b)),
            pos_dir_unchanged(*old(self), *final(self)),
    {
        let a1 = self.pop();
        let a2 = self.pop();
        self.push(a2.wrapping_mul(a1));
    }

    /// Pop the two topmost values and push their quotient, truncated
    /// toward zero; the value pushed earlier is the dividend.  The divisor
    /// must not be zero: the dispatch loop reports division by zero as a
    /// fatal condition before calling this method.  The one overflowing
    /// pair, `i32::MIN / -1`, wraps back to `i32::MIN`.
    pub fn div(&mut self)
        requires
            old(self)@.len() >= 2,
            old(self)@.last() != 0,
        ensures
            final(self)@ == binop_applied(old(self)@, |a: i32, b: i32| trunc_quot(a, b)),
            pos_dir_unchanged(*old(self), *final(self)),
    {
        let a1 = self.pop();
        let a2 = self.pop();
        let q = if a2 == i32::MIN && a1 == -1 {
            i32::MIN
        } else {
            proof {
                let x = a2 as int;
                let d = a1 as int;
                if x > 0 && d > 0 {
                    vstd::arithmetic::div_mod::lemma_div_pos_is_pos(x, d);
                    vstd::arithmetic::div_mod::lemma_div_nonincreasing(x, d);
                } else if x < 0 && d < 0 {
                    vstd::arithmetic::div_mod::lemma_div_pos_is_pos(-x, -d);
                    vstd::arithmetic::div_mod::lemma_div_nonincreasing(-x, -d);
                    if -d >= 2 && -x > 0 {
                        vstd::arithmetic::div_mod::lemma_div_decreases(-x, -d);
                    }
                } else if x < 0 && d > 0 {
                    vstd::arithmetic::div_mod::lemma_div_pos_is_pos(-x, d);
                    vstd::arithmetic::div_mod::lemma_div_nonincreasing(-x, d);
                } else if x > 0 && d < 0 {
                    vstd::arithmetic::div_mod::lemma_div_pos_is_pos(x, -d);
                    vstd::arithmetic::div_mod::lemma_div_nonincreasing(x, -d);
                }
            }
            a2.checked_div(a1).unwrap()
        };
        self.push(q);
    }

    /// Duplicate the top of the stack: pop it, then push it back twice.
    pub fn dup(&mut self)
        requires
            old(self)@.len() >= 1,
        ensures
            final(self)@ == dup_applied(old(self)@),
            pos_dir_unchanged(*old(self), *final(self)),
    {
        let top = self.pop();
        self.push(top);
        self.push(top);
        proof {
            assert(self@ =~= dup_applied(old(self)@));
        }
    }

    /// Pop the top of the stack and report whether it was zero.
    pub fn is_zero(&mut self) -> (r: bool)
        requires
            old(self)@.len() >= 1,
        ensures
            r == (old(self)@.last() == 0),
            final(self)@ == old(self)@.drop_last(),
            pos_dir_unchanged(*old(self), *final(self)),
    {
        let top = self.pop();
        top == 0
    }

    /// Pop the top of the stack and push 1 if it was strictly positive,
    /// 0 otherwise.
    pub fn is_gt(&mut self)
        requires
            old(self)@.len() >= 1,
        ensures
            final(self)@ == unop_applied(old(self)@, |a: i32| pos_flag(a)),
            pos_dir_unchanged(*old(self), *final(self)),
    {
        let top = self.pop();
        if top > 0 {
            self.push(1);
        } else {
            self.push(0);
        }
    }

    /// Pop the top of the stack and push 1 if it was strictly negative,
    /// 0 otherwise.
    pub fn is_lt(&mut self)
        requires
            old(self)@.len() >= 1,
        ensures
            final(self)@ == unop_applied(old(self)@, |a: i32| neg_flag(a)),
            pos_dir_unchanged(*old(self), *final(self)),
    {
        let top = self.pop();
        if top < 0 {
            self.push(1);
        } else {
            self.push(0);
        }
    }

    /// Pop the top of the stack and push its arithmetic negation;
    /// `i32::MIN` wraps to itself.
    pub fn negate(&mut self)
        requires
            old(self)@.len() >= 1,
        ensures
            final(self)@ == unop_applied(old(self)@, |a: i32| wrap_minus(a)),
            pos_dir_unchanged(*old(self), *final(self)),
    {
        let top = self.pop();
        self.push(top.wrapping_mul(-1));
    }

    /// Pop the top of the stack and push its logical negation: 1 if it
    /// was zero, 0 otherwise.
    pub fn logical_neg(&mut self)
        requires
            old(self)@.len() >= 1,
        ensures
            final(self)@ == unop_applied(old(self)@, |a: i32| zero_flag(a)),
            pos_dir_unchanged(*old(self), *final(self)),
    {
        let top = self.pop();
        if top != 0 {
            self.push(0);
        } else {
            self.push(1);
        }
    }

    /// Push 1 if the stack is empty, 0 otherwise.  The test itself pops
    /// nothing: every value already on the stack stays where it is.
    pub fn is_empty(&mut self)
        ensures
            final(self)@ == emptiness_applied(old(self)@),
            pos_dir_unchanged(*old(self), *final(self)),
    {
        if self.stack.is_empty() {
            self.push(1);
        } else {
            self.push(0);
        }
    }

    /// Move the position one cell in the current direction and return the
    /// new `(row, column)` pair.  The caller keeps the position far enough
    /// from the numeric limits that the move cannot overflow; the dispatch
    /// loop guarantees this by only stepping from in-bounds cells.
    pub fn next_step(&mut self) -> (p: (i32, i32))
        requires
            old(self).dir is Right ==> old(self).xpos < i32::MAX,
            old(self).dir is Left ==> old(self).xpos > i32::MIN,
            old(self).dir is Down ==> old(self).ypos < i32::MAX,
            old(self).dir is Up ==> old(self).ypos > i32::MIN,
        ensures
            final(self).ypos as int == moved_row(old(self).dir, old(self).ypos as int),
            final(self).xpos as int == moved_col(old(self).dir, old(self).xpos as int),
            final(self).dir == old(self).dir,
            final(self)@ == old(self)@,
            p == (final(self).ypos, final(self).xpos),
    {
        match self.dir {
            Direction::Up => {
                self.ypos = self.ypos - 1;
            },
            Direction::Down => {
                self.ypos = self.ypos + 1;
            },
            Direction::Left => {
                self.xpos = self.xpos - 1;
            },
            Direction::Right => {
                self.xpos = self.xpos + 1;
            },
        }
        (self.ypos, self.xpos)
    }

    /// The number of values on the stack.
    pub fn depth(&self) -> (n: usize)
        ensures
            n == self@.len(),
    {
        self.stack.len()
    }

    /// The top of the stack, without removing it.
    pub fn peek(&self) -> (r: i32)
        requires
            self@.len() > 0,
        ensures
            r == self@.last(),
    {
        self.stack[self.stack.len() - 1]
    }
}

} // verus!
