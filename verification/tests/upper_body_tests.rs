use shooter_core::layer::LayerPhase;
use shooter_core::player::upper_body::{
    tracks_to_apply, AnimationLengths, BoundTrack, CombatWeaponKind, TrackBinding, TrackValueKind,
    UpperBodyMachine, UpperBodyMachineInput, DYING_STATE, FRAMES_TO_DYING, GRAB_STATE,
    GRAB_WEAPON_SIGNAL,
    HIT_REACTION_STATE, IDLE_STATE, PUT_BACK_STATE, PUT_BACK_WEAPON_END_SIGNAL,
    TOSS_GRENADE_SIGNAL, WALK_STATE,
};
use shooter_core::pose::{PoseTerm, WEIGHT_ONE};

fn lengths(all: u64) -> AnimationLengths {
    AnimationLengths {
        hit_reaction_rifle: all,
        hit_reaction_pistol: all,
        aim_rifle: all,
        aim_pistol: all,
        toss_grenade: all,
        idle: all,
        idle_pistol: all,
        jump: all,
        falling: all,
        landing: all,
        put_back: all,
        grab: all,
        dying: all,
        walk: all,
        walk_pistol: all,
        run: all,
        run_pistol: all,
    }
}

fn standing() -> UpperBodyMachineInput {
    UpperBodyMachineInput {
        is_walking: false,
        is_jumping: false,
        run_factor: 0,
        has_ground_contact: true,
        is_aiming: false,
        toss_grenade: false,
        weapon_kind: CombatWeaponKind::Rifle,
        change_weapon: false,
        is_dead: false,
        should_be_stunned: false,
    }
}

fn at_rest(state: usize) -> LayerPhase {
    LayerPhase { active: state, transition: None, elapsed: 0 }
}

#[test]
fn machine_begins_at_rest_in_idle() {
    let machine = UpperBodyMachine::new(lengths(1_000_000));
    assert_eq!(machine.machine.phase, at_rest(IDLE_STATE));
    assert_eq!(machine.machine.states.len(), 11);
    assert_eq!(machine.machine.transitions.len(), 40);
    assert_eq!(machine.machine.graph.len(), 21);
    assert_eq!(machine.clips.len(), 17);
    assert_eq!(machine.machine.states[IDLE_STATE].name, "Idle");
    assert_eq!(machine.machine.states[DYING_STATE].name, "Dying");
    assert_eq!(machine.machine.transitions[0].name, "Walk->Idle");
    assert_eq!(machine.machine.transitions[0].duration, 300);
    assert_eq!(machine.machine.transitions[39].rule, "HitReactionToAim");
    assert_eq!(machine.signal_count(GRAB_WEAPON_SIGNAL), 0);
}

#[test]
fn clips_are_set_up_for_their_movements() {
    let mut all = lengths(1_000_000);
    all.put_back = 777;
    let machine = UpperBodyMachine::new(all);
    let jump = &machine.clips[machine.jump_animation];
    assert!(!jump.is_enabled() && !jump.is_loop());
    let land = &machine.clips[machine.land_animation];
    assert!(land.is_enabled() && !land.is_loop());
    let grab = &machine.clips[machine.grab_animation];
    assert!(!grab.is_enabled() && !grab.is_loop());
    assert_eq!(grab.speed(), 3000);
    assert_eq!(grab.signals[0].id, GRAB_WEAPON_SIGNAL);
    assert_eq!(grab.signals[0].time, 300_000);
    let put_back = &machine.clips[machine.put_back_animation];
    assert!(put_back.is_enabled() && !put_back.is_loop());
    assert_eq!(put_back.speed(), 3000);
    assert_eq!(put_back.signals[0].id, PUT_BACK_WEAPON_END_SIGNAL);
    assert_eq!(put_back.signals[0].time, 777);
    let toss = &machine.clips[machine.toss_grenade_animation];
    assert!(!toss.is_enabled() && !toss.is_loop());
    assert_eq!(toss.speed(), 1500);
    assert_eq!(toss.signals[0].id, TOSS_GRENADE_SIGNAL);
    assert_eq!(toss.signals[0].time, 1_700_000);
    let dying = &machine.clips[machine.dying_animation];
    assert!(!dying.is_enabled() && !dying.is_loop());
    assert_eq!(machine.clips[6].speed(), 250);
    assert!(machine.clips[machine.walk_animation].is_loop());
    assert!(!machine.clips[machine.hit_reaction_rifle_animation].is_loop());
    assert!(!machine.clips[machine.hit_reaction_pistol_animation].is_loop());
}

#[test]
fn hit_reaction_animations_are_rifle_then_pistol() {
    let machine = UpperBodyMachine::new(lengths(1_000_000));
    assert_eq!(machine.hit_reaction_animations(), [0, 1]);
}

#[test]
fn standing_still_stays_idle() {
    let mut machine = UpperBodyMachine::new(lengths(1_000_000));
    for _ in 0..200 {
        machine.apply(16, standing());
        assert_eq!(machine.machine.phase, at_rest(IDLE_STATE));
    }
}

#[test]
fn walking_for_the_time_of_the_transition_leads_to_walk() {
    let mut machine = UpperBodyMachine::new(lengths(1_000_000));
    let walking = UpperBodyMachineInput { is_walking: true, ..standing() };

    let pose = machine.apply(16, walking);
    assert_eq!(
        pose,
        vec![
            PoseTerm { clip: 5, time: 16_000, weight: WEIGHT_ONE },
            PoseTerm { clip: 13, time: 16_000, weight: 0 },
        ]
    );
    assert_eq!(
        machine.machine.phase,
        LayerPhase { active: IDLE_STATE, transition: Some(2), elapsed: 16 }
    );

    let pose = machine.apply(16, walking);
    assert_eq!(
        pose,
        vec![
            PoseTerm { clip: 5, time: 32_000, weight: 960_000 },
            PoseTerm { clip: 13, time: 32_000, weight: 40_000 },
        ]
    );
    assert_eq!(machine.active_state(), IDLE_STATE);

    for _ in 2..24 {
        machine.apply(16, walking);
        assert_eq!(machine.active_state(), IDLE_STATE);
    }
    machine.apply(16, walking);
    assert_eq!(machine.machine.phase, at_rest(WALK_STATE));

    let pose = machine.apply(16, walking);
    assert_eq!(pose, vec![PoseTerm { clip: 13, time: 416_000, weight: WEIGHT_ONE }]);
    assert_eq!(machine.machine.phase, at_rest(WALK_STATE));
}

#[test]
fn the_walk_state_reads_the_index_of_the_idle_state() {
    let mut machine = UpperBodyMachine::new(lengths(1_000_000));
    let running = UpperBodyMachineInput {
        is_walking: true,
        run_factor: 1000,
        weapon_kind: CombatWeaponKind::Pistol,
        ..standing()
    };
    for _ in 0..25 {
        machine.apply(16, running);
    }
    assert_eq!(machine.machine.phase, at_rest(WALK_STATE));
    let pose = machine.apply(16, running);
    assert_eq!(pose, vec![PoseTerm { clip: 14, time: 416_000, weight: WEIGHT_ONE }]);
}

#[test]
fn the_dead_reach_dying_and_stay_there() {
    let mut machine = UpperBodyMachine::new(lengths(1_000_000));
    let dead = UpperBodyMachineInput { is_dead: true, should_be_stunned: true, ..standing() };
    machine.apply(16, dead);
    assert_eq!(
        machine.machine.phase,
        LayerPhase { active: IDLE_STATE, transition: Some(26), elapsed: 16 }
    );
    for _ in 1..13 {
        machine.apply(16, dead);
    }
    assert_eq!(machine.machine.phase, at_rest(DYING_STATE));
    let lively = UpperBodyMachineInput {
        is_walking: true,
        is_jumping: true,
        is_aiming: true,
        toss_grenade: true,
        change_weapon: true,
        should_be_stunned: true,
        ..standing()
    };
    for _ in 0..100 {
        machine.apply(16, lively);
        assert_eq!(machine.machine.phase, at_rest(DYING_STATE));
        machine.apply(16, dead);
        assert_eq!(machine.machine.phase, at_rest(DYING_STATE));
    }
    assert!(machine.clips[machine.dying_animation].has_ended());
}

#[test]
fn a_hit_stuns_and_wears_off() {
    let mut machine = UpperBodyMachine::new(lengths(200_000));
    let stunned = UpperBodyMachineInput { should_be_stunned: true, ..standing() };
    machine.apply(100, stunned);
    assert_eq!(
        machine.machine.phase,
        LayerPhase { active: IDLE_STATE, transition: Some(33), elapsed: 100 }
    );
    machine.apply(100, standing());
    assert_eq!(machine.machine.phase, at_rest(HIT_REACTION_STATE));
    assert!(machine.clips[0].has_ended());
    machine.apply(100, standing());
    assert_eq!(
        machine.machine.phase,
        LayerPhase { active: HIT_REACTION_STATE, transition: Some(35), elapsed: 100 }
    );
    machine.apply(100, standing());
    assert_eq!(machine.machine.phase, at_rest(IDLE_STATE));
}

#[test]
fn changing_weapons_fires_each_signal_once() {
    let mut all = lengths(1_000_000);
    all.put_back = 300_000;
    all.grab = 900_000;
    let mut machine = UpperBodyMachine::new(all);
    let changing = UpperBodyMachineInput { change_weapon: true, ..standing() };

    machine.apply(50, changing);
    assert_eq!(
        machine.machine.phase,
        LayerPhase { active: IDLE_STATE, transition: Some(17), elapsed: 50 }
    );
    assert!(!machine.has_signal_fired(PUT_BACK_WEAPON_END_SIGNAL));

    machine.apply(50, changing);
    assert_eq!(machine.machine.phase, at_rest(PUT_BACK_STATE));
    assert_eq!(machine.signal_count(PUT_BACK_WEAPON_END_SIGNAL), 1);
    assert!(!machine.has_signal_fired(GRAB_WEAPON_SIGNAL));

    machine.apply(50, changing);
    assert_eq!(
        machine.machine.phase,
        LayerPhase { active: PUT_BACK_STATE, transition: Some(20), elapsed: 50 }
    );
    assert!(!machine.has_signal_fired(PUT_BACK_WEAPON_END_SIGNAL));
    assert!(!machine.has_signal_fired(GRAB_WEAPON_SIGNAL));

    machine.apply(50, changing);
    assert_eq!(machine.machine.phase, at_rest(GRAB_STATE));
    assert_eq!(machine.signal_count(GRAB_WEAPON_SIGNAL), 1);
    assert!(machine.has_signal_fired(GRAB_WEAPON_SIGNAL));

    machine.apply(50, changing);
    assert!(!machine.has_signal_fired(GRAB_WEAPON_SIGNAL));
    assert!(!machine.has_signal_fired(TOSS_GRENADE_SIGNAL));
    assert!(!machine.has_signal_fired(12345));
}

#[test]
fn only_scale_is_applied_to_the_hips() {
    let tracks = vec![
        BoundTrack { binding: TrackBinding::Position, value: TrackValueKind::Vector3 },
        BoundTrack { binding: TrackBinding::Rotation, value: TrackValueKind::UnitQuaternion },
        BoundTrack { binding: TrackBinding::Scale, value: TrackValueKind::Vector3 },
        BoundTrack { binding: TrackBinding::Scale, value: TrackValueKind::Real },
    ];
    assert_eq!(tracks_to_apply(5, 5, &tracks), vec![2]);
    assert_eq!(tracks_to_apply(4, 5, &tracks), vec![0, 1, 2, 3]);
    assert_eq!(tracks_to_apply(5, 5, &Vec::new()), Vec::<usize>::new());
}

fn frames_until_dying(machine: &mut UpperBodyMachine, dt: u32) -> usize {
    let dead = UpperBodyMachineInput { is_dead: true, ..standing() };
    let mut frames = 0;
    while machine.machine.phase != at_rest(DYING_STATE) {
        machine.apply(dt, dead);
        frames += 1;
        assert!(frames <= FRAMES_TO_DYING);
    }
    frames
}

#[test]
fn the_dead_and_still_reach_dying_from_every_state() {
    let mut idle = UpperBodyMachine::new(lengths(1_000_000));
    assert_eq!(frames_until_dying(&mut idle, 1), 200);

    let mut walking = UpperBodyMachine::new(lengths(1_000_000));
    for _ in 0..30 {
        walking.apply(16, UpperBodyMachineInput { is_walking: true, ..standing() });
    }
    assert_eq!(walking.active_state(), WALK_STATE);
    assert_eq!(frames_until_dying(&mut walking, 1), 500);

    let mut blending = UpperBodyMachine::new(lengths(1_000_000));
    blending.apply(16, UpperBodyMachineInput { is_walking: true, ..standing() });
    assert_eq!(blending.machine.phase.transition, Some(2));
    assert_eq!(frames_until_dying(&mut blending, 1), 384 + 300 + 200);

    let mut jumping = UpperBodyMachine::new(lengths(5_000_000));
    for _ in 0..20 {
        jumping.apply(16, UpperBodyMachineInput { is_jumping: true, ..standing() });
    }
    assert_eq!(jumping.machine.phase, at_rest(4));
    assert_eq!(frames_until_dying(&mut jumping, 1), 200);

    let mut aiming = UpperBodyMachine::new(lengths(1_000_000));
    for _ in 0..20 {
        aiming.apply(16, UpperBodyMachineInput { is_aiming: true, ..standing() });
    }
    assert_eq!(aiming.machine.phase, at_rest(1));
    let mut tossing = UpperBodyMachine::new(lengths(1_000_000));
    for _ in 0..40 {
        tossing.apply(
            16,
            UpperBodyMachineInput { is_aiming: true, toss_grenade: true, ..standing() },
        );
    }
    assert_eq!(tossing.machine.phase, at_rest(2));
    assert_eq!(frames_until_dying(&mut aiming, 7), 29 + 29);
    let frames = frames_until_dying(&mut tossing, 3);
    assert!(frames == 67 || frames == 67 + 67 + 67);

    let mut long_frames = UpperBodyMachine::new(lengths(1_000_000));
    assert_eq!(frames_until_dying(&mut long_frames, u32::MAX), 1);
    for _ in 0..10 {
        long_frames.apply(u32::MAX, standing());
        assert_eq!(long_frames.machine.phase, at_rest(DYING_STATE));
    }
}
