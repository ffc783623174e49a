use bevy_elan::camera::{
    cursor_update, look_routing, CameraCursorStatus, CursorGrab, CursorState, LookRouting,
};
use bevy_elan::gates::{
    ground_update, should_hover, should_jump, should_move, GroundUpdate, HoverConditions,
    JumpConditions, MovementConditions,
};
use bevy_elan::input::{keyboard_intent, KeyboardIntent, KeyboardSnapshot};
use bevy_elan::schedule::{
    CharacterController3dPlugin, ControllerSystem, Grouping, Registration, ScheduleSlot,
};

fn keys(forward: bool, back: bool, right: bool, left: bool, jump: bool) -> KeyboardSnapshot {
    KeyboardSnapshot { forward, back, right, left, jump }
}

#[test]
fn no_keys_give_no_intent() {
    let intent = keyboard_intent(&keys(false, false, false, false, false));
    assert_eq!(intent, KeyboardIntent { strafe: 0, forward: 0, jump: false });
}

#[test]
fn each_key_moves_one_unit() {
    assert_eq!(keyboard_intent(&keys(true, false, false, false, false)).forward, 1);
    assert_eq!(keyboard_intent(&keys(false, true, false, false, false)).forward, -1);
    assert_eq!(keyboard_intent(&keys(false, false, true, false, false)).strafe, 1);
    assert_eq!(keyboard_intent(&keys(false, false, false, true, false)).strafe, -1);
    assert!(keyboard_intent(&keys(false, false, false, false, true)).jump);
}

#[test]
fn diagonal_and_jump_together() {
    let intent = keyboard_intent(&keys(true, false, false, true, true));
    assert_eq!(intent, KeyboardIntent { strafe: -1, forward: 1, jump: true });
}

#[test]
fn opposite_keys_cancel_out() {
    let intent = keyboard_intent(&keys(true, true, true, true, false));
    assert_eq!(intent, KeyboardIntent { strafe: 0, forward: 0, jump: false });
    let intent = keyboard_intent(&keys(true, true, false, true, false));
    assert_eq!(intent, KeyboardIntent { strafe: -1, forward: 0, jump: false });
}

#[test]
fn swapping_keys_reverses_the_axis() {
    let a = keyboard_intent(&keys(true, false, false, true, true));
    let b = keyboard_intent(&keys(false, true, false, true, true));
    assert_eq!(b.forward, -a.forward);
    assert_eq!(b.strafe, a.strafe);
    let c = keyboard_intent(&keys(true, false, true, false, true));
    assert_eq!(c.strafe, -a.strafe);
    assert_eq!(c.forward, a.forward);
}

fn reg(slot: ScheduleSlot, systems: Vec<ControllerSystem>, grouping: Grouping) -> Registration {
    Registration { slot, systems, grouping }
}

#[test]
fn default_plugin_reads_keyboard_and_clock() {
    let plugin: CharacterController3dPlugin<u32> = CharacterController3dPlugin::default();
    assert!(plugin.gathers_keyboard());
    assert!(plugin.syncs_time());
    assert_eq!(plugin.schedule(), &None);
}

#[test]
fn default_plugin_plan() {
    let plugin: CharacterController3dPlugin<u32> = CharacterController3dPlugin::default();
    let plan = plugin.registrations();
    assert_eq!(
        plan,
        vec![
            reg(ScheduleSlot::FixedFirst, vec![ControllerSystem::SyncControllerTime], Grouping::Alone),
            reg(
                ScheduleSlot::FixedPreUpdate,
                vec![ControllerSystem::GatherKeyboardInput],
                Grouping::Alone
            ),
            reg(
                ScheduleSlot::FixedPreUpdate,
                vec![ControllerSystem::HandleGrounded, ControllerSystem::HandleFriction],
                Grouping::ChainedInControllerSet
            ),
            reg(
                ScheduleSlot::FixedUpdate,
                vec![
                    ControllerSystem::HandleHover,
                    ControllerSystem::HandleMovement,
                    ControllerSystem::HandleJump
                ],
                Grouping::ChainedInControllerSet
            ),
        ]
    );
}

#[test]
fn in_schedule_turns_helpers_off() {
    let plugin = CharacterController3dPlugin::in_schedule(7u32);
    assert!(!plugin.gathers_keyboard());
    assert!(!plugin.syncs_time());
    assert_eq!(plugin.schedule(), &Some(7u32));
}

#[test]
fn driven_plugin_plan_is_one_chain() {
    let plan = CharacterController3dPlugin::in_schedule(7u32).registrations();
    assert_eq!(
        plan,
        vec![reg(
            ScheduleSlot::Driven,
            vec![
                ControllerSystem::ApplyLook,
                ControllerSystem::HandleGrounded,
                ControllerSystem::HandleFriction,
                ControllerSystem::HandleHover,
                ControllerSystem::HandleMovement,
                ControllerSystem::HandleJump,
            ],
            Grouping::ChainedInControllerSet
        )]
    );
}

#[test]
fn driven_plugin_with_keyboard_and_clock() {
    let plugin = CharacterController3dPlugin::in_schedule("tick")
        .with_keyboard_input(true)
        .with_time_sync(true);
    assert_eq!(plugin.schedule(), &Some("tick"));
    let plan = plugin.registrations();
    assert_eq!(plan.len(), 3);
    assert_eq!(
        plan[0],
        reg(ScheduleSlot::FixedFirst, vec![ControllerSystem::SyncControllerTime], Grouping::Alone)
    );
    assert_eq!(
        plan[1],
        reg(
            ScheduleSlot::Driven,
            vec![ControllerSystem::GatherKeyboardInput],
            Grouping::BeforeControllerSet
        )
    );
    assert_eq!(plan[2].slot, ScheduleSlot::Driven);
    assert_eq!(plan[2].systems.len(), 6);
}

#[test]
fn default_plugin_without_helpers() {
    let plugin: CharacterController3dPlugin<u32> = CharacterController3dPlugin::default()
        .with_keyboard_input(false)
        .with_time_sync(false);
    let plan = plugin.registrations();
    assert_eq!(plan.len(), 2);
    assert_eq!(plan[0].slot, ScheduleSlot::FixedPreUpdate);
    assert_eq!(plan[1].slot, ScheduleSlot::FixedUpdate);
}

#[test]
fn toggles_touch_only_their_own_setting() {
    let plugin = CharacterController3dPlugin::in_schedule(3u8).with_time_sync(true);
    assert!(plugin.syncs_time());
    assert!(!plugin.gathers_keyboard());
    let plugin = plugin.with_keyboard_input(true).with_time_sync(false);
    assert!(plugin.gathers_keyboard());
    assert!(!plugin.syncs_time());
    assert_eq!(plugin.schedule(), &Some(3u8));
}

fn flatten(plan: &[Registration]) -> Vec<ControllerSystem> {
    plan.iter().flat_map(|r| r.systems.iter().copied()).collect()
}

#[test]
fn pipeline_order_is_the_same_in_every_mode() {
    let core = [
        ControllerSystem::HandleGrounded,
        ControllerSystem::HandleFriction,
        ControllerSystem::HandleHover,
        ControllerSystem::HandleMovement,
        ControllerSystem::HandleJump,
    ];
    for keyboard in [false, true] {
        for time in [false, true] {
            let default: CharacterController3dPlugin<u32> = CharacterController3dPlugin::default()
                .with_keyboard_input(keyboard)
                .with_time_sync(time);
            let driven = CharacterController3dPlugin::in_schedule(1u32)
                .with_keyboard_input(keyboard)
                .with_time_sync(time);
            for plugin in [default, driven] {
                let order: Vec<ControllerSystem> = flatten(&plugin.registrations())
                    .into_iter()
                    .filter(|s| core.contains(s))
                    .collect();
                assert_eq!(order, core.to_vec());
                let all = flatten(&plugin.registrations());
                assert_eq!(all.contains(&ControllerSystem::GatherKeyboardInput), keyboard);
                assert_eq!(all.contains(&ControllerSystem::SyncControllerTime), time);
            }
        }
    }
}

#[test]
fn active_camera_locks_and_hides_cursor() {
    let status = CameraCursorStatus { is_active: true, show_cursor: false };
    assert_eq!(
        cursor_update(true, &vec![status]),
        Some(CursorState { grab: CursorGrab::Locked, visible: false })
    );
}

#[test]
fn show_cursor_keeps_cursor_free() {
    let status = CameraCursorStatus { is_active: true, show_cursor: true };
    assert_eq!(
        cursor_update(true, &vec![status]),
        Some(CursorState { grab: CursorGrab::Unlocked, visible: true })
    );
}

#[test]
fn inactive_or_missing_camera_leaves_cursor_alone() {
    let inactive = CameraCursorStatus { is_active: false, show_cursor: false };
    assert_eq!(cursor_update(true, &vec![inactive]), None);
    assert_eq!(cursor_update(true, &vec![inactive, inactive]), None);
    assert_eq!(cursor_update(true, &Vec::new()), None);
    let active = CameraCursorStatus { is_active: true, show_cursor: false };
    assert_eq!(cursor_update(false, &vec![active]), None);
}

#[test]
fn active_camera_among_several_grabs_cursor() {
    let inactive = CameraCursorStatus { is_active: false, show_cursor: true };
    let active = CameraCursorStatus { is_active: true, show_cursor: false };
    let locked = Some(CursorState { grab: CursorGrab::Locked, visible: false });
    assert_eq!(cursor_update(true, &vec![inactive, active]), locked);
    assert_eq!(cursor_update(true, &vec![active, inactive]), locked);
    let showing = CameraCursorStatus { is_active: true, show_cursor: true };
    assert_eq!(
        cursor_update(true, &vec![inactive, showing, inactive]),
        Some(CursorState { grab: CursorGrab::Unlocked, visible: true })
    );
}

#[test]
fn several_active_cameras_leave_cursor_alone() {
    let active = CameraCursorStatus { is_active: true, show_cursor: false };
    let showing = CameraCursorStatus { is_active: true, show_cursor: true };
    let inactive = CameraCursorStatus { is_active: false, show_cursor: false };
    assert_eq!(cursor_update(true, &vec![active, showing]), None);
    assert_eq!(cursor_update(true, &vec![inactive, active, inactive, active]), None);
}

#[test]
fn cursor_is_hidden_exactly_when_locked() {
    for show in [false, true] {
        let state = cursor_update(true, &vec![CameraCursorStatus { is_active: true, show_cursor: show }])
            .unwrap();
        assert_eq!(state.visible, state.grab == CursorGrab::Unlocked);
        assert_eq!(state.visible, show);
    }
}

#[test]
fn look_routing_follows_parenting() {
    assert_eq!(look_routing(true, true), Some(LookRouting::PitchCameraYawParent));
    assert_eq!(look_routing(true, false), Some(LookRouting::PitchAndYawCamera));
    assert_eq!(look_routing(false, true), None);
    assert_eq!(look_routing(false, false), None);
}

fn jump(enabled: bool, expired: bool, cooling: bool, requested: bool) -> bool {
    should_jump(&JumpConditions {
        enabled,
        coyote_time_expired: expired,
        cooling_down: cooling,
        jump_requested: requested,
    })
}

#[test]
fn jump_fires_only_when_every_condition_holds() {
    assert!(jump(true, false, false, true));
    assert!(!jump(false, false, false, true));
    assert!(!jump(true, true, false, true));
    assert!(!jump(true, false, true, true));
    assert!(!jump(true, false, false, false));
}

#[test]
fn jump_vetoes_hold_on_every_input() {
    for bits in 0u8..16 {
        let (e, x, c, r) = (bits & 1 != 0, bits & 2 != 0, bits & 4 != 0, bits & 8 != 0);
        assert_eq!(jump(e, x, c, r), e && !x && !c && r);
    }
}

#[test]
fn spring_pushes_only_below_ride_height_and_not_after_a_jump() {
    let hover = |recently_jumped, at_or_above_ride_height| {
        should_hover(&HoverConditions { recently_jumped, at_or_above_ride_height })
    };
    assert!(hover(false, false));
    assert!(!hover(true, false));
    assert!(!hover(false, true));
    assert!(!hover(true, true));
}

#[test]
fn grounding_marks_and_stamps_only_below_ride_height() {
    assert_eq!(
        ground_update(true, 2.5f32),
        GroundUpdate { grounded: true, stamp_last_grounded: Some(2.5f32) }
    );
    assert_eq!(
        ground_update(false, 2.5f32),
        GroundUpdate { grounded: false, stamp_last_grounded: None }
    );
}

#[test]
fn last_grounded_persists_while_airborne() {
    let mut last_grounded: Option<u32> = None;
    for (step, below) in [(1u32, true), (2, false), (3, false), (4, true), (5, false)] {
        let update = ground_update(below, step);
        if let Some(now) = update.stamp_last_grounded {
            last_grounded = Some(now);
        }
        let expected = if step < 4 { Some(1) } else { Some(4) };
        assert_eq!(last_grounded, expected);
    }
}

#[test]
fn movement_applies_only_when_enabled_with_a_direction() {
    let moves = |enabled, has_direction| should_move(&MovementConditions { enabled, has_direction });
    assert!(moves(true, true));
    assert!(!moves(false, true));
    assert!(!moves(true, false));
    assert!(!moves(false, false));
}
