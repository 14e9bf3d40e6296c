use shooter_core::actor::{Actor, ActorKind};
use shooter_core::clip::Clip;
use shooter_core::geometry::Vec3;
use shooter_core::graph::{check_clips, BlendGraph, Fade, IndexedInput, PoseNode};
use shooter_core::layer::{Layer, LayerPhase};
use shooter_core::level::Level;
use shooter_core::player::upper_body::{
    check_node, state_line, transition_line, AnimationLengths, UpperBodyMachine, DYING_STATE,
    IDLE_STATE, WALK_STATE,
};
use shooter_core::pool::Pool;

fn machine() -> UpperBodyMachine {
    UpperBodyMachine::new(AnimationLengths::default())
}

#[test]
fn sound_pool_passes_and_broken_pools_fail() {
    let mut pool: Pool<u8> = Pool::new();
    assert!(pool.check());
    let a = pool.spawn(1);
    let b = pool.spawn(2);
    pool.spawn(3);
    pool.free(a);
    pool.free(b);
    assert!(pool.check());

    pool.free = vec![0, 0];
    assert!(!pool.check());
    pool.free = vec![2];
    assert!(!pool.check());
    pool.free = vec![3];
    assert!(!pool.check());
    pool.free = vec![1];
    assert!(pool.check());
    pool.records[1].generation = u32::MAX;
    assert!(!pool.check());
    pool.free = Vec::new();
    assert!(pool.check());
    pool.records[2].generation = 0;
    assert!(!pool.check());
}

#[test]
fn clip_beyond_its_end_is_not_sound() {
    let mut clip = Clip::new(10);
    assert!(clip.check());
    clip.time = 10;
    assert!(!clip.check());
    clip.looped = false;
    assert!(clip.check());
    clip.time = 11;
    assert!(!clip.check());
    assert!(!check_clips(&vec![Clip::new(1), clip]));
    assert!(check_clips(&vec![Clip::new(1), Clip::new(0)]));
}

#[test]
fn graph_with_a_node_that_looks_ahead_is_not_sound() {
    let mut graph = BlendGraph::new();
    graph.add_node(PoseNode::PlayClip { clip: 3 }, 4);
    let choices = vec![IndexedInput { blend_time: 1, child: 0 }];
    graph.add_node(PoseNode::BlendIndexed { parameter: String::from("i"), choices }, 4);
    assert!(graph.check());
    assert!(graph.check_clips(4));
    assert!(!graph.check_clips(3));
    graph.fades[1] = Fade { previous: Some(1), elapsed: 0 };
    assert!(!graph.check());
    graph.fades[1] = Fade { previous: Some(0), elapsed: 0 };
    assert!(graph.check());
    let choices = vec![IndexedInput { blend_time: 1, child: 2 }];
    graph.nodes.push(PoseNode::BlendIndexed { parameter: String::from("i"), choices });
    assert!(!graph.check());
    graph.fades.push(Fade { previous: None, elapsed: 0 });
    assert!(!graph.check());
}

#[test]
fn layer_that_stands_nowhere_is_not_sound() {
    let mut layer = Layer::new();
    assert!(layer.check());
    layer.add_node(PoseNode::PlayClip { clip: 0 }, 1);
    layer.add_state("A", 0);
    layer.add_state("B", 0);
    layer.add_transition("A->B", 0, 1, 100, "go");
    assert!(layer.check());
    layer.phase = LayerPhase { active: 0, transition: Some(0), elapsed: 99 };
    assert!(layer.check());
    layer.phase = LayerPhase { active: 0, transition: Some(0), elapsed: 100 };
    assert!(!layer.check());
    layer.phase = LayerPhase { active: 1, transition: Some(0), elapsed: 0 };
    assert!(!layer.check());
    layer.phase = LayerPhase { active: 2, transition: None, elapsed: 0 };
    assert!(!layer.check());
    layer.phase = LayerPhase { active: 1, transition: None, elapsed: 1 };
    assert!(!layer.check());
    layer.phase = LayerPhase { active: 1, transition: None, elapsed: 0 };
    assert!(layer.check());
    layer.transitions[0].target = 2;
    assert!(!layer.check());
    layer.transitions[0].target = 1;
    layer.states[1].root = 1;
    assert!(!layer.check());
}

#[test]
fn tables_of_the_machine() {
    assert_eq!(transition_line(0), ("Walk->Idle", WALK_STATE, IDLE_STATE, 300, "WalkToIdle"));
    assert_eq!(transition_line(26), ("Idle->Dying", IDLE_STATE, DYING_STATE, 200, "IdleToDying"));
    assert_eq!(transition_line(39).0, "HitReaction->Aim");
    assert_eq!(state_line(3), ("Idle", 9));
    assert_eq!(state_line(10), ("Walk", 20));
    for t in 0..40 {
        assert_ne!(transition_line(t).1, DYING_STATE);
    }
    let machine = machine();
    for i in 0..21 {
        assert!(check_node(&machine.machine.graph.nodes[i], i));
    }
    assert!(!check_node(&machine.machine.graph.nodes[1], 0));
    assert!(!check_node(&machine.machine.graph.nodes[9], 2));
    assert!(!check_node(&machine.machine.graph.nodes[5], 4));
}

#[test]
fn whole_machine_passes_and_changed_machines_fail() {
    assert!(machine().check());
    let mut stepped = machine();
    stepped.apply(16, Actor::new(ActorKind::Player, Vec3::zero(), None).animation_input());
    assert!(stepped.check());

    let mut renamed = machine();
    renamed.machine.transitions[7].rule = String::from("WalkToFal");
    assert!(!renamed.check());
    let mut rerouted = machine();
    rerouted.machine.transitions[26].target = IDLE_STATE;
    assert!(!rerouted.check());
    let mut replayed = machine();
    replayed.machine.graph.nodes[10] = PoseNode::PlayClip { clip: 8 };
    assert!(!replayed.check());
    let mut silent = machine();
    silent.clips[11].signals.clear();
    assert!(!silent.check());
    let mut short = machine();
    short.clips.pop();
    assert!(!short.check());
    let mut confused = machine();
    confused.jump_animation = 8;
    assert!(!confused.check());
    let mut misnamed = machine();
    misnamed.machine.states[0].name = String::from("Hit");
    assert!(!misnamed.check());
}

#[test]
fn level_with_a_broken_part_is_not_sound() {
    let mut level = Level::default();
    assert!(level.check());
    let player = level.spawn_player();
    level.update(16, &Vec::new());
    assert!(level.check());
    level.weapons.pool.free = vec![0];
    assert!(!level.check());
    level.weapons.pool.free = Vec::new();
    assert!(level.check());
    level.actors_mut().pool.try_borrow_mut(player).unwrap().animator.as_mut().unwrap().clips.pop();
    assert!(!level.check());
    assert!(!level.actors().check());
}
