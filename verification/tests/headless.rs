use blocks_game::handler::{AnimationState, HostFailure, OFFSET_MAX};
use blocks_game::headless::{draw_frame, run_frames};
use blocks_game::scene::{Circle, Color, DrawCommand, DrawStage};
use blocks_game::time::{FrameDelta, Timing};

fn all_commands(x: u64) -> Vec<DrawCommand> {
    vec![
        DrawCommand::Clear(Color::black()),
        DrawCommand::BuildCircle(Circle::at(x)),
        DrawCommand::Submit,
        DrawCommand::Present,
    ]
}

#[test]
fn frame_without_failure() {
    let mut state = AnimationState::new();
    state.on_update(FrameDelta::from_nanos(40));
    let report = draw_frame(&mut state, None);
    assert_eq!(report.result, Ok(()));
    assert_eq!(report.commands, all_commands(40));
    assert_eq!(state.horizontal_offset(), 40);
}

#[test]
fn failed_clear_stops_before_the_move() {
    let mut state = AnimationState::new();
    state.on_update(FrameDelta::from_nanos(40));
    let report = draw_frame(&mut state, Some(DrawStage::Clear));
    assert_eq!(report.result, Err(HostFailure { stage: DrawStage::Clear }));
    assert_eq!(report.commands, vec![DrawCommand::Clear(Color::black())]);
    assert_eq!(state.horizontal_offset(), 0);
}

#[test]
fn failed_shape_stops_after_the_move() {
    let mut state = AnimationState::new();
    state.on_update(FrameDelta::from_nanos(40));
    let report = draw_frame(&mut state, Some(DrawStage::Shape));
    assert_eq!(report.result, Err(HostFailure { stage: DrawStage::Shape }));
    assert_eq!(report.commands, all_commands(40)[..2].to_vec());
    assert_eq!(state.horizontal_offset(), 40);
}

#[test]
fn failed_submit_stops_before_the_present() {
    let mut state = AnimationState::new();
    state.on_update(FrameDelta::from_nanos(40));
    let report = draw_frame(&mut state, Some(DrawStage::Submit));
    assert_eq!(report.result, Err(HostFailure { stage: DrawStage::Submit }));
    assert_eq!(report.commands, all_commands(40)[..3].to_vec());
    assert_eq!(state.horizontal_offset(), 40);
}

#[test]
fn failed_present_comes_last() {
    let mut state = AnimationState::new();
    state.on_update(FrameDelta::from_nanos(40));
    let report = draw_frame(&mut state, Some(DrawStage::Present));
    assert_eq!(report.result, Err(HostFailure { stage: DrawStage::Present }));
    assert_eq!(report.commands, all_commands(40));
    assert_eq!(state.horizontal_offset(), 40);
}

#[test]
fn frame_after_a_failed_one_goes_on_from_there() {
    let mut state = AnimationState::new();
    state.on_update(FrameDelta::from_nanos(40));
    draw_frame(&mut state, Some(DrawStage::Submit));
    let report = draw_frame(&mut state, None);
    assert_eq!(report.result, Ok(()));
    assert_eq!(report.commands, all_commands(80));
    assert_eq!(state.horizontal_offset(), 80);
}

#[test]
fn no_frames_no_positions() {
    let mut state = AnimationState::new();
    state.on_update(FrameDelta::from_nanos(40));
    let drawn = run_frames(&mut state, &Vec::new());
    assert_eq!(drawn, Vec::<u64>::new());
    assert_eq!(state.horizontal_offset(), 0);
    assert_eq!(state.last_frame_delta(), FrameDelta::from_nanos(40));
}

#[test]
fn positions_are_running_sums() {
    let mut state = AnimationState::new();
    let deltas = vec![
        FrameDelta::from_nanos(16_000_000),
        FrameDelta::from_nanos(17_000_000),
        FrameDelta::from_nanos(0),
        FrameDelta::new(1, 500_000_000),
        FrameDelta::new(2, 0),
        FrameDelta::from_nanos(1),
    ];
    let drawn = run_frames(&mut state, &deltas);
    assert_eq!(
        drawn,
        vec![16_000_000, 33_000_000, 33_000_000, 533_000_000, 533_000_000, 533_000_001]
    );
    assert_eq!(state.horizontal_offset(), 533_000_001);
    assert_eq!(state.last_frame_delta(), FrameDelta::from_nanos(1));
}

#[test]
fn positions_with_whole_timing() {
    let mut state = AnimationState::with_timing(Timing::Whole);
    let deltas = vec![
        FrameDelta::from_nanos(16_000_000),
        FrameDelta::new(1, 500_000_000),
        FrameDelta::new(2, 0),
    ];
    let drawn = run_frames(&mut state, &deltas);
    assert_eq!(drawn, vec![16_000_000, 1_516_000_000, 3_516_000_000]);
}

#[test]
fn positions_start_from_where_the_circle_is() {
    let mut state = AnimationState::new();
    state.on_update(FrameDelta::from_nanos(1_000));
    draw_frame(&mut state, None);
    let drawn = run_frames(&mut state, &vec![FrameDelta::from_nanos(1), FrameDelta::from_nanos(2)]);
    assert_eq!(drawn, vec![1_001, 1_003]);
}

#[test]
fn positions_never_decrease() {
    let mut state = AnimationState::new();
    let mut deltas = Vec::new();
    for i in 0..200u128 {
        deltas.push(FrameDelta::from_nanos(i * 123_456_789));
    }
    let drawn = run_frames(&mut state, &deltas);
    assert_eq!(drawn.len(), 200);
    let mut sum: u64 = 0;
    for i in 0..200usize {
        sum += (i as u64 * 123_456_789) % 1_000_000_000;
        assert_eq!(drawn[i], sum);
        if i > 0 {
            assert!(drawn[i] >= drawn[i - 1]);
        }
    }
}

#[test]
fn positions_stop_at_the_maximum() {
    let mut state = AnimationState::with_timing(Timing::Whole);
    let deltas = vec![
        FrameDelta::from_nanos(10),
        FrameDelta::from_nanos(OFFSET_MAX as u128),
        FrameDelta::from_nanos(10),
    ];
    let drawn = run_frames(&mut state, &deltas);
    assert_eq!(drawn, vec![10, OFFSET_MAX, OFFSET_MAX]);
}
