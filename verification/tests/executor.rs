use cfrs::{CFRBuffer, CFRColor, CFRError, CommandExecutor};

fn count_non_black(buffer: &CFRBuffer) -> usize {
    buffer.data.iter().filter(|c| **c != CFRColor::Black).count()
}

#[test]
fn new_centers_painter() {
    let buffer = CFRBuffer::new(256, 256);
    let executor = CommandExecutor::new("[CFRS]".to_string(), buffer);
    assert_eq!(executor.position(), (127, 127));
}

#[test]
fn step_reports_end_of_commands() {
    let buffer = CFRBuffer::new(4, 4);
    let mut executor = CommandExecutor::new(String::new(), buffer);
    assert_eq!(executor.step(), Err(CFRError::EndOfCommands));
}

#[test]
fn unmatched_close_bracket_fails_and_draws_nothing() {
    let buffer = CFRBuffer::new(4, 4);
    let mut executor = CommandExecutor::new("]".to_string(), buffer);
    assert_eq!(executor.run(), Err(CFRError::UnmatchedCloseBracket));
    assert_eq!(count_non_black(&executor.buffer), 0);
}

#[test]
fn loop_body_runs_exactly_twice() {
    let buffer = CFRBuffer::new(16, 16);
    let mut executor = CommandExecutor::new("[F]".to_string(), buffer);
    assert_eq!(executor.run(), Ok(()));
    assert_eq!(count_non_black(&executor.buffer), 2);
}

#[test]
fn nested_loop_bodies_multiply() {
    let buffer = CFRBuffer::new(16, 16);
    let mut executor = CommandExecutor::new("[[F]]".to_string(), buffer);
    assert_eq!(executor.run(), Ok(()));
    // The inner body runs twice per outer pass, and the outer body twice.
    assert_eq!(count_non_black(&executor.buffer), 4);
}

#[test]
fn forward_from_center_draws_white_above() {
    let buffer = CFRBuffer::new(4, 4);
    let mut executor = CommandExecutor::new("F".to_string(), buffer);
    assert_eq!(executor.position(), (1, 1));
    assert_eq!(executor.run(), Ok(()));
    assert_eq!(executor.position(), (1, 0));
    assert_eq!(executor.buffer.data[1], CFRColor::White);
    assert_eq!(count_non_black(&executor.buffer), 1);
}

#[test]
fn color_then_forward_draws_black_cycle_successor() {
    let buffer = CFRBuffer::new(4, 4);
    let mut executor = CommandExecutor::new("C F".to_string(), buffer);
    assert_eq!(executor.run(), Ok(()));
    assert_eq!(executor.position(), (1, 0));
    // White's successor in the cycle is Black, drawn over the black fill.
    assert_eq!(executor.buffer.data[1], CFRColor::Black);
    assert_eq!(count_non_black(&executor.buffer), 0);
}

#[test]
fn pause_flag_set_exactly_on_sleep_command() {
    let buffer = CFRBuffer::new(4, 4);
    let mut executor = CommandExecutor::new("SF".to_string(), buffer);
    assert_eq!(executor.step(), Ok(true));
    assert_eq!(executor.step(), Ok(false));
    assert_eq!(executor.step(), Err(CFRError::EndOfCommands));
}

#[test]
fn unknown_characters_are_no_ops() {
    let buffer = CFRBuffer::new(8, 8);
    let mut executor = CommandExecutor::new("x F!z".to_string(), buffer);
    assert_eq!(executor.run(), Ok(()));
    assert_eq!(count_non_black(&executor.buffer), 1);
}

#[test]
fn rotate_then_forward_moves_diagonally() {
    let buffer = CFRBuffer::new(5, 5);
    let mut executor = CommandExecutor::new("RF".to_string(), buffer);
    assert_eq!(executor.run(), Ok(()));
    // Up rotated once is up-right: x + 1, y - 1 from the center (2, 2).
    assert_eq!(executor.position(), (3, 1));
    assert_eq!(executor.buffer.data[1 * 5 + 3], CFRColor::White);
}

#[test]
fn identical_runs_produce_identical_buffers() {
    let command = "[C[FR]S]FF[F]R";
    let first = {
        let buffer = CFRBuffer::new(32, 32);
        let mut executor = CommandExecutor::new(command.to_string(), buffer);
        assert_eq!(executor.run(), Ok(()));
        executor.buffer
    };
    let second = {
        let buffer = CFRBuffer::new(32, 32);
        let mut executor = CommandExecutor::new(command.to_string(), buffer);
        assert_eq!(executor.run(), Ok(()));
        executor.buffer
    };
    assert_eq!(first.data, second.data);
    assert_eq!(first.width, second.width);
    assert_eq!(first.height, second.height);
}

#[test]
fn run_stops_at_first_unmatched_close() {
    let buffer = CFRBuffer::new(8, 8);
    let mut executor = CommandExecutor::new("F]F".to_string(), buffer);
    assert_eq!(executor.run(), Err(CFRError::UnmatchedCloseBracket));
    // Only the command before the unmatched bracket has run.
    assert_eq!(count_non_black(&executor.buffer), 1);
}
