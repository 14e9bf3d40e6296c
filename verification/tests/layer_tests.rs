use shooter_core::clip::Clip;
use shooter_core::graph::{BlendGraph, IndexedInput, PoseNode, WeightSource, WeightedInput};
use shooter_core::layer::{Layer, LayerPhase};
use shooter_core::parameter::{Parameter, ParameterTable};
use shooter_core::pose::{blend_weight, mix, run_on, PoseTerm, WEIGHT_ONE};

fn term(clip: usize, time: u64, weight: u32) -> PoseTerm {
    PoseTerm { clip, time, weight }
}

fn two_clips() -> Vec<Clip> {
    vec![Clip::new(1_000_000), Clip::new(1_000_000)]
}

fn two_states() -> Layer {
    let mut layer = Layer::new();
    assert_eq!(layer.add_node(PoseNode::PlayClip { clip: 0 }, 2), Some(0));
    assert_eq!(layer.add_node(PoseNode::PlayClip { clip: 1 }, 2), Some(1));
    assert_eq!(layer.add_state("A", 0), Some(0));
    assert_eq!(layer.add_state("B", 1), Some(1));
    assert_eq!(layer.add_transition("A->B", 0, 1, 400, "go"), Some(0));
    assert_eq!(layer.add_transition("B->A", 1, 0, 200, "back"), Some(1));
    layer
}

fn rules(list: &[(&str, bool)]) -> ParameterTable {
    let mut table = ParameterTable::new();
    for (name, value) in list {
        table.set(name, Parameter::Rule(*value));
    }
    table
}

#[test]
fn parameter_written_last_counts() {
    let mut table = ParameterTable::new();
    assert_eq!(table.get("a"), None);
    table.set("a", Parameter::Rule(true));
    table.set("b", Parameter::Index(3));
    table.set("a", Parameter::Weight(5));
    assert_eq!(table.get("a"), Some(Parameter::Weight(5)));
    assert_eq!(table.get("b"), Some(Parameter::Index(3)));
    assert!(!table.rule("a"));
    assert_eq!(table.weight("a"), 5);
    assert_eq!(table.weight("b"), 0);
    assert_eq!(table.index("b"), Some(3));
    assert_eq!(table.index("a"), None);
    assert_eq!(table.index("c"), None);
}

#[test]
fn blend_weight_runs_from_nothing_to_the_whole() {
    assert_eq!(blend_weight(0, 400), 0);
    assert_eq!(blend_weight(100, 400), 250_000);
    assert_eq!(blend_weight(399, 400), 997_500);
    assert_eq!(blend_weight(400, 400), WEIGHT_ONE);
    assert_eq!(blend_weight(900, 400), WEIGHT_ONE);
    assert_eq!(blend_weight(0, 0), WEIGHT_ONE);
    assert_eq!(blend_weight(1, 3), 333_333);
    assert_eq!(blend_weight(u32::MAX - 1, u32::MAX), 999_999);
}

#[test]
fn blend_time_does_not_run_beyond_the_duration() {
    assert_eq!(run_on(0, 100, 400), 100);
    assert_eq!(run_on(350, 100, 400), 400);
    assert_eq!(run_on(u32::MAX, u32::MAX, u32::MAX), u32::MAX);
    assert_eq!(run_on(5, 0, 400), 5);
}

#[test]
fn mixing_two_poses() {
    let first = vec![term(0, 10, WEIGHT_ONE)];
    let second = vec![term(1, 20, WEIGHT_ONE), term(2, 30, 500_000)];
    assert_eq!(
        mix(&first, &second, 250_000),
        vec![term(0, 10, 750_000), term(1, 20, 250_000), term(2, 30, 125_000)]
    );
    assert_eq!(
        mix(&first, &second, 7_000_000),
        vec![term(0, 10, 0), term(1, 20, WEIGHT_ONE), term(2, 30, 500_000)]
    );
}

#[test]
fn layer_at_rest_shows_its_active_state() {
    let mut layer = two_states();
    let mut clips = two_clips();
    assert_eq!(layer.active_state(), 0);
    let out = layer.step(&mut clips, &rules(&[]), 100);
    assert_eq!(out.pose, vec![term(0, 100_000, WEIGHT_ONE)]);
    assert_eq!(layer.phase, LayerPhase { active: 0, transition: None, elapsed: 0 });
}

#[test]
fn quiet_frames_leave_the_active_state_alone() {
    let mut layer = two_states();
    let mut clips = two_clips();
    for _ in 0..50 {
        layer.step(&mut clips, &rules(&[("go", false), ("back", true)]), 100);
        assert_eq!(layer.phase, LayerPhase { active: 0, transition: None, elapsed: 0 });
    }
}

#[test]
fn rule_of_the_wrong_kind_or_no_rule_lets_nothing_begin() {
    let mut layer = two_states();
    let mut clips = two_clips();
    let mut table = ParameterTable::new();
    table.set("go", Parameter::Index(1));
    layer.step(&mut clips, &table, 100);
    assert_eq!(layer.active_transition(), None);
    let mut table = ParameterTable::new();
    table.set("go", Parameter::Weight(WEIGHT_ONE));
    layer.step(&mut clips, &table, 100);
    assert_eq!(layer.active_transition(), None);
}

#[test]
fn transition_blends_for_exactly_its_duration() {
    let mut layer = two_states();
    let mut clips = two_clips();
    clips[1].advance(700);
    let go = rules(&[("go", true)]);

    let out = layer.step(&mut clips, &go, 100);
    assert_eq!(out.pose, vec![term(0, 100_000, WEIGHT_ONE), term(1, 100_000, 0)]);
    assert_eq!(layer.phase, LayerPhase { active: 0, transition: Some(0), elapsed: 100 });

    let out = layer.step(&mut clips, &go, 100);
    assert_eq!(out.pose, vec![term(0, 200_000, 750_000), term(1, 200_000, 250_000)]);
    assert_eq!(layer.phase, LayerPhase { active: 0, transition: Some(0), elapsed: 200 });

    let out = layer.step(&mut clips, &rules(&[]), 100);
    assert_eq!(out.pose, vec![term(0, 300_000, 500_000), term(1, 300_000, 500_000)]);
    assert_eq!(layer.phase, LayerPhase { active: 0, transition: Some(0), elapsed: 300 });

    let out = layer.step(&mut clips, &rules(&[]), 100);
    assert_eq!(out.pose, vec![term(0, 400_000, 250_000), term(1, 400_000, 750_000)]);
    assert_eq!(layer.phase, LayerPhase { active: 1, transition: None, elapsed: 0 });
    assert!(!clips[0].is_enabled());
    assert!(clips[1].is_enabled());

    let out = layer.step(&mut clips, &go, 100);
    assert_eq!(out.pose, vec![term(1, 500_000, WEIGHT_ONE)]);
    assert_eq!(clips[0].time_position(), 400_000);
    assert_eq!(layer.phase, LayerPhase { active: 1, transition: None, elapsed: 0 });
}

#[test]
fn long_frame_ends_a_transition_in_the_frame_it_begins() {
    let mut layer = two_states();
    let mut clips = two_clips();
    let out = layer.step(&mut clips, &rules(&[("go", true)]), 400);
    assert_eq!(out.pose, vec![term(0, 400_000, WEIGHT_ONE), term(1, 400_000, 0)]);
    assert_eq!(layer.phase, LayerPhase { active: 1, transition: None, elapsed: 0 });
}

#[test]
fn entering_a_state_starts_its_clips_anew() {
    let mut layer = two_states();
    let mut clips = two_clips();
    clips[1].set_loop(false);
    clips[1].set_enabled(false);
    clips[1].advance(5000);
    assert_eq!(clips[1].time_position(), 0);
    layer.step(&mut clips, &rules(&[]), 5000);
    assert_eq!(clips[1].time_position(), 0);
    layer.step(&mut clips, &rules(&[("go", true)]), 100);
    assert!(clips[1].is_enabled());
    assert_eq!(clips[1].time_position(), 100_000);
}

#[test]
fn the_first_transition_whose_rule_holds_begins() {
    let mut layer = Layer::new();
    layer.add_node(PoseNode::PlayClip { clip: 0 }, 1);
    layer.add_state("A", 0);
    layer.add_state("B", 0);
    layer.add_state("C", 0);
    layer.add_transition("A->C", 0, 2, 100, "second");
    layer.add_transition("A->B", 0, 1, 100, "first");
    layer.add_transition("B->C", 1, 2, 100, "second");
    let mut clips = vec![Clip::new(1_000_000)];
    let both = rules(&[("first", true), ("second", true)]);
    layer.step(&mut clips, &both, 50);
    assert_eq!(layer.phase, LayerPhase { active: 0, transition: Some(0), elapsed: 50 });
    layer.step(&mut clips, &both, 50);
    assert_eq!(layer.phase, LayerPhase { active: 2, transition: None, elapsed: 0 });
}

#[test]
fn rule_that_comes_to_hold_while_a_transition_blends_waits() {
    let mut layer = Layer::new();
    layer.add_node(PoseNode::PlayClip { clip: 0 }, 1);
    layer.add_state("A", 0);
    layer.add_state("B", 0);
    layer.add_state("C", 0);
    layer.add_transition("A->B", 0, 1, 300, "first");
    layer.add_transition("A->C", 0, 2, 100, "second");
    layer.add_transition("B->C", 1, 2, 100, "second");
    let mut clips = vec![Clip::new(1_000_000)];
    layer.step(&mut clips, &rules(&[("first", true)]), 100);
    assert_eq!(layer.phase, LayerPhase { active: 0, transition: Some(0), elapsed: 100 });
    let second = rules(&[("second", true)]);
    layer.step(&mut clips, &second, 100);
    assert_eq!(layer.phase, LayerPhase { active: 0, transition: Some(0), elapsed: 200 });
    layer.step(&mut clips, &second, 100);
    assert_eq!(layer.phase, LayerPhase { active: 1, transition: None, elapsed: 0 });
    layer.step(&mut clips, &second, 100);
    assert_eq!(layer.phase, LayerPhase { active: 2, transition: None, elapsed: 0 });
}

#[test]
fn nodes_states_and_transitions_that_name_what_is_not_there_are_refused() {
    let mut layer = two_states();
    assert_eq!(layer.add_node(PoseNode::PlayClip { clip: 2 }, 2), None);
    let inputs = vec![WeightedInput { weight: WeightSource::Constant(1), child: 2 }];
    assert_eq!(layer.add_node(PoseNode::BlendWeighted { inputs }, 2), None);
    let choices = vec![IndexedInput { blend_time: 1, child: 0 }, IndexedInput { blend_time: 1, child: 9 }];
    assert_eq!(
        layer.add_node(PoseNode::BlendIndexed { parameter: String::from("i"), choices }, 2),
        None
    );
    assert_eq!(layer.graph.len(), 2);
    assert_eq!(layer.add_state("C", 2), None);
    assert_eq!(layer.add_transition("A->C", 0, 2, 1, "x"), None);
    assert_eq!(layer.add_transition("C->A", 2, 0, 1, "x"), None);
    assert_eq!(layer.states.len(), 2);
    assert_eq!(layer.transitions.len(), 2);
    assert!(!layer.set_entry_state(2));
    assert!(layer.set_entry_state(1));
    assert_eq!(layer.active_state(), 1);
}

#[test]
fn layer_without_states_gives_an_empty_pose() {
    let mut layer = Layer::new();
    let mut clips: Vec<Clip> = Vec::new();
    let out = layer.step(&mut clips, &rules(&[("go", true)]), 100);
    assert!(out.pose.is_empty());
    assert!(out.nodes.is_empty());
}

fn chooser() -> (BlendGraph, Vec<Clip>) {
    let mut graph = BlendGraph::new();
    graph.add_node(PoseNode::PlayClip { clip: 0 }, 2);
    graph.add_node(PoseNode::PlayClip { clip: 1 }, 2);
    let choices = vec![IndexedInput { blend_time: 100, child: 0 }, IndexedInput { blend_time: 100, child: 1 }];
    assert_eq!(
        graph.add_node(PoseNode::BlendIndexed { parameter: String::from("i"), choices }, 2),
        Some(2)
    );
    (graph, two_clips())
}

fn index(value: u32) -> ParameterTable {
    let mut table = ParameterTable::new();
    table.set("i", Parameter::Index(value));
    table
}

#[test]
fn choosing_node_fades_from_the_old_choice_to_the_new() {
    let (mut graph, mut clips) = chooser();
    let out = graph.evaluate(&mut clips, &index(0), 50);
    assert_eq!(out[2].pose, vec![term(0, 50_000, WEIGHT_ONE)]);
    let out = graph.evaluate(&mut clips, &index(1), 50);
    assert_eq!(out[2].pose, vec![term(0, 100_000, 500_000), term(1, 100_000, 500_000)]);
    let out = graph.evaluate(&mut clips, &index(1), 50);
    assert_eq!(out[2].pose, vec![term(0, 150_000, 0), term(1, 150_000, WEIGHT_ONE)]);
    let out = graph.evaluate(&mut clips, &index(1), 50);
    assert_eq!(out[2].pose, vec![term(1, 200_000, WEIGHT_ONE)]);
}

#[test]
fn index_beyond_the_last_choice_chooses_the_last() {
    let (mut graph, mut clips) = chooser();
    let out = graph.evaluate(&mut clips, &index(7), 50);
    assert_eq!(out[2].pose, vec![term(1, 50_000, WEIGHT_ONE)]);
    let out = graph.evaluate(&mut clips, &index(u32::MAX), 50);
    assert_eq!(out[2].pose, vec![term(1, 100_000, WEIGHT_ONE)]);
}

#[test]
fn choosing_node_without_an_index_gives_an_empty_pose() {
    let (mut graph, mut clips) = chooser();
    let out = graph.evaluate(&mut clips, &ParameterTable::new(), 50);
    assert!(out[2].pose.is_empty());
    assert_eq!(out[0].pose, vec![term(0, 50_000, WEIGHT_ONE)]);
}

#[test]
fn weighted_node_mixes_by_constant_and_by_parameter() {
    let mut graph = BlendGraph::new();
    graph.add_node(PoseNode::PlayClip { clip: 0 }, 2);
    graph.add_node(PoseNode::PlayClip { clip: 1 }, 2);
    let inputs = vec![
        WeightedInput { weight: WeightSource::Constant(250_000), child: 0 },
        WeightedInput { weight: WeightSource::Parameter(String::from("w")), child: 1 },
    ];
    assert_eq!(graph.add_node(PoseNode::BlendWeighted { inputs }, 2), Some(2));
    let mut clips = two_clips();
    let mut table = ParameterTable::new();
    table.set("w", Parameter::Weight(2_000_000));
    let out = graph.evaluate(&mut clips, &table, 10);
    assert_eq!(out[2].pose, vec![term(0, 10_000, 250_000), term(1, 10_000, WEIGHT_ONE)]);
    let out = graph.evaluate(&mut clips, &ParameterTable::new(), 10);
    assert_eq!(out[2].pose, vec![term(0, 20_000, 250_000), term(1, 20_000, 0)]);
}

#[test]
fn node_that_plays_a_clip_tells_which_signals_fired() {
    let mut graph = BlendGraph::new();
    graph.add_node(PoseNode::PlayClip { clip: 1 }, 2);
    let mut clips = two_clips();
    clips[1].add_signal(shooter_core::clip::Signal { id: 5, name: String::from("s"), time: 30_000 });
    let out = graph.evaluate(&mut clips, &ParameterTable::new(), 50);
    assert_eq!(out[0].fired, vec![1]);
    assert_eq!(clips[0].time_position(), 0);
    let out = graph.evaluate(&mut clips, &ParameterTable::new(), 50);
    assert_eq!(out[0].fired, vec![0]);
}

#[test]
fn reach_of_a_state() {
    let (graph, _) = chooser();
    assert_eq!(graph.reach_marks(2), vec![true, true, true]);
    assert_eq!(graph.reach_marks(1), vec![false, true, false]);
    assert_eq!(graph.clip_marks(0, 2), vec![true, false]);
    assert_eq!(graph.clip_marks(2, 2), vec![true, true]);
}
