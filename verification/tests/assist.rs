use resonance_bhop::assist::{
    AssistConfig, AssistEngine, AssistPhase, Buttons, ControllerState, DpadDirection, JumpButton,
    NANOS_PER_MILLI, StickState, normalize_assist_config,
};

const BASE_NS: u64 = 5_000_000_000;

fn config(overlap: u64, release: u64, guard: u64) -> AssistConfig {
    AssistConfig {
        jump_button: JumpButton::Circle,
        jump_overlap_ms: overlap,
        movement_release_ms: release,
        retrigger_guard_ms: guard,
        only_assist_while_moving: true,
    }
}

fn at_ms(ms: u64) -> u64 {
    BASE_NS + ms * NANOS_PER_MILLI
}

fn moving_jump() -> ControllerState {
    ControllerState {
        left_stick: StickState::new(255, 128),
        buttons: Buttons {
            circle: true,
            ..Buttons::default()
        },
        ..ControllerState::default()
    }
}

#[test]
fn stick_conversion_matches_expected_extremes() {
    assert_eq!(StickState::new(128, 128).xinput_x(), 0);
    assert_eq!(StickState::new(128, 128).xinput_y(), 0);
    assert_eq!(StickState::new(0, 128).xinput_x(), i16::MIN);
    assert_eq!(StickState::new(255, 128).xinput_x(), i16::MAX);
    assert_eq!(StickState::new(128, 0).xinput_y(), i16::MAX);
    assert_eq!(StickState::new(128, 255).xinput_y(), -32_767);
}

#[test]
fn assist_sequence_neutralizes_then_presses_jump() {
    let config = config(10, 20, 10);
    let mut engine = AssistEngine::default();
    let moving_jump = moving_jump();

    let overlapped = engine.apply(moving_jump, config, true, at_ms(0));
    assert_eq!(overlapped.left_stick, moving_jump.left_stick);
    assert!(overlapped.buttons.circle);
    assert_eq!(engine.phase(), AssistPhase::JumpPressed);

    let neutralized = engine.apply(moving_jump, config, true, at_ms(12));
    assert_eq!(neutralized.left_stick, StickState::neutral());
    assert!(neutralized.buttons.circle);
    assert_eq!(engine.phase(), AssistPhase::Neutralizing);

    let restored = engine.apply(moving_jump, config, true, at_ms(35));
    assert_eq!(restored.left_stick, moving_jump.left_stick);
    assert!(restored.buttons.circle);
    assert_eq!(engine.phase(), AssistPhase::RestoringMovement);

    let idle = engine.apply(
        ControllerState {
            buttons: Buttons::default(),
            ..moving_jump
        },
        config,
        true,
        at_ms(45),
    );
    assert_eq!(idle.left_stick, moving_jump.left_stick);
    assert!(!idle.buttons.circle);
    assert_eq!(engine.phase(), AssistPhase::Idle);
}

#[test]
fn assist_waits_for_movement_when_restricted() {
    let mut engine = AssistEngine::default();
    let input = moving_jump();
    let output = engine.apply(input, config(10, 20, 10), false, at_ms(0));
    assert_eq!(output, input);
    assert_eq!(engine.phase(), AssistPhase::Idle);
    assert!(!engine.has_pending_sequence());
    assert_eq!(engine.jump_count(), 0);
}

#[test]
fn assist_runs_without_movement_when_unrestricted() {
    let mut engine = AssistEngine::default();
    let mut cfg = config(10, 20, 10);
    cfg.only_assist_while_moving = false;
    let input = moving_jump();
    engine.apply(input, cfg, false, at_ms(0));
    assert_eq!(engine.phase(), AssistPhase::JumpPressed);
    assert_eq!(engine.jump_count(), 1);
}

#[test]
fn held_jump_does_not_start_a_second_sequence() {
    let mut engine = AssistEngine::default();
    let cfg = config(10, 20, 10);
    let input = moving_jump();
    engine.apply(input, cfg, true, at_ms(0));
    engine.apply(input, cfg, true, at_ms(45));
    assert_eq!(engine.phase(), AssistPhase::Idle);
    assert_eq!(engine.jump_count(), 1);
    engine.apply(input, cfg, true, at_ms(60));
    assert_eq!(engine.jump_count(), 1);
    let released = ControllerState {
        buttons: Buttons::default(),
        ..input
    };
    engine.apply(released, cfg, true, at_ms(70));
    engine.apply(input, cfg, true, at_ms(80));
    assert_eq!(engine.jump_count(), 2);
    assert_eq!(engine.phase(), AssistPhase::JumpPressed);
}

#[test]
fn press_during_a_sequence_is_ignored() {
    let mut engine = AssistEngine::default();
    let cfg = config(10, 20, 10);
    let input = moving_jump();
    let released = ControllerState {
        buttons: Buttons::default(),
        ..input
    };
    engine.apply(input, cfg, true, at_ms(0));
    engine.apply(released, cfg, true, at_ms(5));
    let out = engine.apply(input, cfg, true, at_ms(15));
    assert_eq!(engine.jump_count(), 1);
    assert_eq!(engine.phase(), AssistPhase::Neutralizing);
    assert_eq!(out.left_stick, StickState::neutral());
    assert_eq!(engine.last_sequence_age_ms(), 15);
}

#[test]
fn output_keeps_everything_but_the_left_stick() {
    let mut engine = AssistEngine::default();
    let cfg = config(10, 20, 10);
    let input = ControllerState {
        right_stick: StickState::new(3, 250),
        l2: 17,
        r2: 200,
        dpad: DpadDirection::SouthWest,
        ..moving_jump()
    };
    engine.apply(input, cfg, true, at_ms(0));
    let out = engine.apply(input, cfg, true, at_ms(20));
    assert_eq!(out.right_stick, input.right_stick);
    assert_eq!(out.l2, 17);
    assert_eq!(out.r2, 200);
    assert_eq!(out.dpad, DpadDirection::SouthWest);
    assert_eq!(out.buttons, input.buttons);
    assert_eq!(out.left_stick, StickState::neutral());
}

#[test]
fn zero_length_sequence_finishes_at_once() {
    let mut engine = AssistEngine::default();
    let cfg = config(0, 0, 0);
    let input = moving_jump();
    let out = engine.apply(input, cfg, true, at_ms(0));
    assert_eq!(out, input);
    assert_eq!(engine.jump_count(), 1);
    assert_eq!(engine.phase(), AssistPhase::Idle);
    assert!(engine.has_pending_sequence());
}

#[test]
fn reset_returns_to_a_fresh_engine() {
    let mut engine = AssistEngine::default();
    engine.apply(moving_jump(), config(10, 20, 10), true, at_ms(0));
    assert_eq!(engine.jump_count(), 1);
    engine.reset();
    assert_eq!(engine.phase(), AssistPhase::Idle);
    assert_eq!(engine.jump_count(), 0);
    assert_eq!(engine.last_sequence_age_ms(), 0);
    assert!(!engine.has_pending_sequence());
}

#[test]
fn assist_config_defaults() {
    let cfg = AssistConfig::default();
    assert_eq!(cfg.jump_button, JumpButton::Circle);
    assert_eq!(cfg.jump_overlap_ms, 8);
    assert_eq!(cfg.movement_release_ms, 20);
    assert_eq!(cfg.retrigger_guard_ms, 8);
    assert!(cfg.only_assist_while_moving);
}

#[test]
fn normalizing_restricts_assist_to_movement() {
    let mut cfg = config(1, 2, 3);
    cfg.only_assist_while_moving = false;
    let normalized = normalize_assist_config(cfg);
    assert!(normalized.only_assist_while_moving);
    assert_eq!(normalized.jump_overlap_ms, 1);
    assert_eq!(normalized.movement_release_ms, 2);
    assert_eq!(normalized.retrigger_guard_ms, 3);
}

#[test]
fn capture_masks_round_trip() {
    for button in JumpButton::all() {
        let mask = button.capture_mask();
        assert_eq!(mask.count_ones(), 1);
        assert_eq!(JumpButton::from_capture_mask(mask), Some(button));
    }
    assert_eq!(JumpButton::from_capture_mask(0), None);
    assert_eq!(JumpButton::Circle.capture_mask(), 1);
    assert_eq!(JumpButton::Ps.capture_mask(), 1 << 13);
    assert_eq!(
        JumpButton::from_capture_mask(JumpButton::Cross.capture_mask() | JumpButton::L1.capture_mask()),
        Some(JumpButton::Cross)
    );
}

#[test]
fn pressed_buttons_give_their_capture_bits() {
    let buttons = Buttons {
        cross: true,
        ps: true,
        mute: true,
        ..Buttons::default()
    };
    assert_eq!(
        buttons.capture_mask(),
        JumpButton::Cross.capture_mask() | JumpButton::Ps.capture_mask()
    );
    assert!(buttons.pressed(JumpButton::Cross));
    assert!(buttons.pressed(JumpButton::Ps));
    assert!(!buttons.pressed(JumpButton::Circle));
    assert_eq!(Buttons::default().capture_mask(), 0);
}

#[test]
fn jump_button_labels() {
    assert_eq!(JumpButton::L2Button.label(), "L2 click");
    assert_eq!(JumpButton::Ps.label(), "PS");
    assert_eq!(JumpButton::Circle.label(), "Circle");
}

#[test]
fn hat_values_map_to_directions() {
    let expected = [
        DpadDirection::North,
        DpadDirection::NorthEast,
        DpadDirection::East,
        DpadDirection::SouthEast,
        DpadDirection::South,
        DpadDirection::SouthWest,
        DpadDirection::West,
        DpadDirection::NorthWest,
    ];
    for (value, direction) in expected.iter().enumerate() {
        assert_eq!(DpadDirection::from_hat(value as u8), *direction);
    }
    assert_eq!(DpadDirection::from_hat(8), DpadDirection::Neutral);
    assert_eq!(DpadDirection::from_hat(0x0f), DpadDirection::Neutral);
}

#[test]
fn diagonal_directions_decompose() {
    let d = DpadDirection::NorthEast;
    assert!(d.up() && d.right() && !d.down() && !d.left());
    let d = DpadDirection::SouthWest;
    assert!(d.down() && d.left() && !d.up() && !d.right());
    let d = DpadDirection::Neutral;
    assert!(!d.up() && !d.down() && !d.left() && !d.right());
}

#[test]
fn stick_axis_midpoints() {
    assert_eq!(StickState::new(192, 64).xinput_x(), 16_512);
    assert_eq!(StickState::new(192, 64).xinput_y(), 16_384);
    assert_eq!(StickState::neutral(), StickState::new(128, 128));
}

#[test]
fn capture_masks_ignore_high_bits_and_take_the_lowest_bit() {
    assert_eq!(JumpButton::from_capture_mask(1 << 14), None);
    assert_eq!(JumpButton::from_capture_mask(0xFFFF_C000), None);
    assert_eq!(
        JumpButton::from_capture_mask(0xFFFF_C000 | JumpButton::R3.capture_mask() | JumpButton::Ps.capture_mask()),
        Some(JumpButton::R3)
    );
}

#[test]
fn held_jump_neutralizes_only_in_the_release_window() {
    let cfg = config(10, 20, 10);
    let mut engine = AssistEngine::default();
    let input = moving_jump();
    for ms in 0..80u64 {
        let out = engine.apply(input, cfg, true, at_ms(ms));
        let in_window = (10..30).contains(&ms);
        if in_window {
            assert_eq!(out.left_stick, StickState::neutral(), "at {ms} ms");
        } else {
            assert_eq!(out.left_stick, input.left_stick, "at {ms} ms");
        }
    }
    assert_eq!(engine.jump_count(), 1);
}
