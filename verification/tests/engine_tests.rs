use symbol::engine::{feed_input, step, ErrorKind, StepOutcome};
use symbol::grid::lines;
use symbol::state::{Direction, State};

/// Drive the step loop like the interpreter binary does, with input served
/// from a queue instead of a console: collect written values until the run
/// halts or fails.
fn run_program(src: &[u8], input: &[i32]) -> (Vec<i32>, Option<ErrorKind>) {
    let grid = lines(src.to_vec());
    let mut st = State::new();
    let mut out: Vec<i32> = Vec::new();
    let mut next_input: usize = 0;
    loop {
        match step(&mut st, &grid) {
            StepOutcome::Continue => {}
            StepOutcome::Output(v) => out.push(v),
            StepOutcome::NeedInput => {
                let v = if next_input < input.len() {
                    let v = input[next_input];
                    next_input += 1;
                    v
                } else {
                    -1
                };
                if let StepOutcome::Halt = feed_input(&mut st, &grid, v) {
                    return (out, None);
                }
            }
            StepOutcome::Halt => return (out, None),
            StepOutcome::Fail(kind) => return (out, Some(kind)),
        }
    }
}

#[test]
fn test_program_write_and_terminate() {
    let (out, err) = run_program(b"1.;", &[]);
    assert_eq!(out, vec![1]);
    assert!(err.is_none());
}

#[test]
fn test_single_cell_boundary_exit() {
    let (out, err) = run_program(b">", &[]);
    assert!(out.is_empty());
    assert!(err.is_none());
}

#[test]
fn test_pop_empty_stack_fails() {
    let (out, err) = run_program(b"p", &[]);
    assert!(out.is_empty());
    assert_eq!(err, Some(ErrorKind::StackUnderflow));
}

#[test]
fn test_direction_takes_effect_next_step() {
    let grid = lines(b"v \n  ".to_vec());
    let mut st = State::new();
    let outcome = step(&mut st, &grid);
    assert!(matches!(outcome, StepOutcome::Continue));
    assert!(matches!(st.dir, Direction::Down));
    assert_eq!((st.ypos, st.xpos), (1, 0));
}

#[test]
fn test_branch_on_zero_goes_up() {
    let grid = lines(b"0|\n  ".to_vec());
    let mut st = State::new();
    assert!(matches!(step(&mut st, &grid), StepOutcome::Continue));
    assert!(matches!(step(&mut st, &grid), StepOutcome::Continue));
    assert!(matches!(st.dir, Direction::Up));
    assert_eq!((st.ypos, st.xpos), (-1, 1));
    assert!(st.stack.is_empty());
    assert!(matches!(step(&mut st, &grid), StepOutcome::Halt));
}

#[test]
fn test_branch_on_nonzero_goes_down() {
    let grid = lines(b"1|\n  ".to_vec());
    let mut st = State::new();
    assert!(matches!(step(&mut st, &grid), StepOutcome::Continue));
    assert!(matches!(step(&mut st, &grid), StepOutcome::Continue));
    assert!(matches!(st.dir, Direction::Down));
    assert_eq!((st.ypos, st.xpos), (1, 1));
}

#[test]
fn test_branch_horizontal() {
    let grid = lines(b"0_".to_vec());
    let mut st = State::new();
    assert!(matches!(step(&mut st, &grid), StepOutcome::Continue));
    assert!(matches!(step(&mut st, &grid), StepOutcome::Continue));
    assert!(matches!(st.dir, Direction::Left));
    assert_eq!((st.ypos, st.xpos), (0, 0));

    let grid = lines(b"1_ ".to_vec());
    let mut st = State::new();
    assert!(matches!(step(&mut st, &grid), StepOutcome::Continue));
    assert!(matches!(step(&mut st, &grid), StepOutcome::Continue));
    assert!(matches!(st.dir, Direction::Right));
    assert_eq!((st.ypos, st.xpos), (0, 2));
}

#[test]
fn test_emptiness_instruction() {
    let grid = lines(b"e".to_vec());
    let mut st = State::new();
    assert!(matches!(step(&mut st, &grid), StepOutcome::Continue));
    assert_eq!(st.stack, vec![1]);
}

#[test]
fn test_division_by_zero_fails() {
    let (out, err) = run_program(b"10/", &[]);
    assert!(out.is_empty());
    assert_eq!(err, Some(ErrorKind::DivisionByZero));
}

#[test]
fn test_unknown_instruction_fails() {
    let (out, err) = run_program(b"x", &[]);
    assert!(out.is_empty());
    assert_eq!(err, Some(ErrorKind::UnknownInstruction('x')));
}

#[test]
fn test_dollar_is_not_an_instruction() {
    let (_, err) = run_program(b"$", &[]);
    assert_eq!(err, Some(ErrorKind::UnknownInstruction('$')));
}

#[test]
fn test_input_pushes_byte() {
    let (out, err) = run_program(b",.", &[65]);
    assert_eq!(out, vec![65]);
    assert!(err.is_none());
}

#[test]
fn test_input_end_of_stream_pushes_minus_one() {
    let (out, err) = run_program(b",.", &[]);
    assert_eq!(out, vec![-1]);
    assert!(err.is_none());
}

#[test]
fn test_empty_program_exits_cleanly() {
    let (out, err) = run_program(b"", &[]);
    assert!(out.is_empty());
    assert!(err.is_none());
}

#[test]
fn test_lines_trailing_newline_keeps_empty_row() {
    let grid = lines(b"ab\n".to_vec());
    assert_eq!(grid.len(), 2);
    assert_eq!(grid[0].0, vec!['a', 'b']);
    assert_eq!(grid[0].1, 2);
    assert!(grid[1].0.is_empty());
    assert_eq!(grid[1].1, 0);
}

#[test]
fn test_lines_without_trailing_newline_keeps_last_row() {
    let grid = lines(b"ab".to_vec());
    assert_eq!(grid.len(), 1);
    assert_eq!(grid[0].0, vec!['a', 'b']);
    assert_eq!(grid[0].1, 2);
}

#[test]
fn test_lines_jagged_rows() {
    let grid = lines(b"abc\nz\n".to_vec());
    assert_eq!(grid.len(), 3);
    assert_eq!(grid[0].1, 3);
    assert_eq!(grid[1].0, vec!['z']);
    assert_eq!(grid[1].1, 1);
    assert_eq!(grid[2].1, 0);
}

#[test]
fn test_add_wraps_on_overflow() {
    let mut st = State::new();
    st.push(i32::MAX);
    st.push(1);
    st.add();
    assert_eq!(st.pop(), i32::MIN);
}

#[test]
fn test_sub_wraps_on_overflow() {
    let mut st = State::new();
    st.push(i32::MIN);
    st.push(1);
    st.sub();
    assert_eq!(st.pop(), i32::MAX);
}

#[test]
fn test_mult_wraps_on_overflow() {
    let mut st = State::new();
    st.push(1048576);
    st.push(1048576);
    st.mult();
    assert_eq!(st.pop(), 0);
}

#[test]
fn test_div_truncates_toward_zero() {
    let mut st = State::new();
    st.push(-7);
    st.push(2);
    st.div();
    assert_eq!(st.pop(), -3);
    st.push(7);
    st.push(-2);
    st.div();
    assert_eq!(st.pop(), -3);
}

#[test]
fn test_div_min_by_minus_one_wraps() {
    let mut st = State::new();
    st.push(i32::MIN);
    st.push(-1);
    st.div();
    assert_eq!(st.pop(), i32::MIN);
}

#[test]
fn test_negate_min_wraps() {
    let mut st = State::new();
    st.push(i32::MIN);
    st.negate();
    assert_eq!(st.pop(), i32::MIN);
}

#[test]
fn test_dup_both_values_equal_pushed() {
    let mut st = State::new();
    st.push(7);
    st.dup();
    assert_eq!(st.pop(), 7);
    assert_eq!(st.pop(), 7);
}

#[test]
fn test_is_empty_preserves_pushed_value() {
    let mut st = State::new();
    st.push(5);
    st.is_empty();
    assert_eq!(st.pop(), 0);
    assert_eq!(st.pop(), 5);
}

#[test]
fn test_logical_neg_twice_is_not_identity() {
    let mut st = State::new();
    st.push(5);
    st.logical_neg();
    st.logical_neg();
    assert_eq!(st.pop(), 1);
}

#[test]
fn test_terminate_stops_before_later_output() {
    let (out, err) = run_program(b"1.;2.", &[]);
    assert_eq!(out, vec![1]);
    assert!(err.is_none());
}
