use platformer::jump::{JUMP_BUFFER_NANOS, WALL_JUMP_FORCE};
use platformer::{Countdown, Jump, JumpStage};

#[test]
fn a_new_jump_state_has_nothing_buffered() {
    let mut jump = Jump::default();
    assert_eq!(jump.jump_stage, JumpStage::Single);
    assert!(!jump.jump_buffered);
    assert_eq!(jump.input_timer, Countdown::new(JUMP_BUFFER_NANOS));
    assert_eq!(jump.get_jump_force(), None);
    assert_eq!(jump.jump_stage, JumpStage::Single);
}

#[test]
fn jump_stage_cycles_through_three_forces() {
    let mut jump = Jump::default();
    jump.buffer_jump();
    assert_eq!(jump.get_jump_force(), Some(10_000));
    assert_eq!(jump.jump_stage, JumpStage::Double);
    jump.buffer_jump();
    assert_eq!(jump.get_jump_force(), Some(15_000));
    assert_eq!(jump.jump_stage, JumpStage::Triple);
    jump.buffer_jump();
    assert_eq!(jump.get_jump_force(), Some(20_000));
    assert_eq!(jump.jump_stage, JumpStage::Single);
    jump.buffer_jump();
    assert_eq!(jump.get_jump_force(), Some(10_000));
}

#[test]
fn buffering_twice_makes_one_jump() {
    let mut jump = Jump::default();
    jump.buffer_jump();
    jump.update(50_000_000);
    jump.buffer_jump();
    assert_eq!(jump.input_timer.elapsed, 0);
    assert_eq!(jump.get_jump_force(), Some(10_000));
    assert_eq!(jump.get_jump_force(), None);
    assert_eq!(jump.jump_stage, JumpStage::Double);
}

#[test]
fn a_buffered_jump_expires_after_the_window() {
    let mut jump = Jump::default();
    jump.buffer_jump();
    jump.update(100_000_000);
    assert!(jump.jump_buffered);
    assert_eq!(jump.input_timer.elapsed, 100_000_000);
    jump.update(99_999_999);
    assert!(jump.jump_buffered);
    jump.update(1);
    assert!(!jump.jump_buffered);
    assert_eq!(jump.input_timer, Countdown::new(JUMP_BUFFER_NANOS));
    assert_eq!(jump.get_jump_force(), None);
}

#[test]
fn an_expired_jump_keeps_the_stage() {
    let mut jump = Jump::default();
    jump.buffer_jump();
    assert_eq!(jump.get_jump_force(), Some(10_000));
    jump.buffer_jump();
    jump.update(JUMP_BUFFER_NANOS);
    assert!(!jump.jump_buffered);
    assert_eq!(jump.jump_stage, JumpStage::Double);
    jump.buffer_jump();
    assert_eq!(jump.get_jump_force(), Some(15_000));
    jump.jump_stage = JumpStage::Triple;
    jump.buffer_jump();
    jump.update(JUMP_BUFFER_NANOS + 1);
    assert_eq!(jump.jump_stage, JumpStage::Triple);
    assert_eq!(jump.get_jump_force(), None);
}

#[test]
fn updates_without_a_buffered_jump_change_nothing() {
    let mut jump = Jump::default();
    jump.jump_stage = JumpStage::Triple;
    let before = jump;
    jump.update(1_000_000_000);
    assert_eq!(jump, before);
}

#[test]
fn the_wall_jump_force_drops_the_buffer() {
    let mut jump = Jump::default();
    jump.buffer_jump();
    jump.update(10);
    assert_eq!(jump.get_wall_jump_force(), WALL_JUMP_FORCE);
    assert_eq!(WALL_JUMP_FORCE, 15_000);
    assert!(!jump.jump_buffered);
    assert_eq!(jump.input_timer.elapsed, 0);
    assert_eq!(jump.jump_stage, JumpStage::Single);
}

#[test]
fn resets_touch_only_their_part() {
    let mut jump = Jump::default();
    jump.buffer_jump();
    let _ = jump.get_jump_force();
    jump.buffer_jump();
    jump.reset_jump_stage();
    assert_eq!(jump.jump_stage, JumpStage::Single);
    assert!(jump.jump_buffered);
    jump.jump_stage = JumpStage::Triple;
    jump.reset_input();
    assert!(!jump.jump_buffered);
    assert_eq!(jump.jump_stage, JumpStage::Triple);
    assert_eq!(JumpStage::Triple.next(), JumpStage::Single);
    assert_eq!(JumpStage::Double.force(), 15_000);
    assert_eq!(JumpStage::default(), JumpStage::Single);
}
