//! A layer: named states over a blend graph, and transitions between them
//! that begin when their rule holds and blend for a set time.
//!
//! At most one transition is under way at any time. While it blends, the
//! state it leaves stays the active one; when its time is over, the state it
//! leads to becomes active. Transitions are tried in the order in which they
//! were added, and the first whose rule holds begins.

use crate::clip::Clip;
use crate::graph::{
    clips_ok,
    entered,
    evaluated,
    left,
    lemma_entered_shape,
    lemma_evaluated_shape,
    lemma_left_shape,
    same_setup,
    same_setups,
    views,
    BlendGraph,
    Fade,
    NodeOutput,
    Output,
    PoseNode,
};
use crate::parameter::{rule_holds, Parameter, ParameterTable};
use crate::pose::{
    blend_weight,
    copy_pose,
    fade_weight,
    lemma_fade_weight_monotone,
    mix,
    mixed,
    run_on,
    PoseTerm,
};
use vstd::prelude::*;

verus! {

/// A state: a name and the node whose pose the state shows.
pub struct State {
    pub name: String,
    pub root: usize,
}

/// A transition from one state to another.
pub struct Transition {
    pub name: String,
    /// The state the transition leaves.
    pub source: usize,
    /// The state the transition leads to.
    pub target: usize,
    /// How long the blend takes, in milliseconds.
    pub duration: u32,
    /// The name of the rule that lets the transition begin.
    pub rule: String,
}

/// Where a layer stands: its active state and the transition under way.
#[derive(Copy, Clone, Debug, PartialEq, Eq, Structural)]
pub struct LayerPhase {
    /// The active state; while a transition blends, the state it leaves.
    pub active: usize,
    /// The transition under way, if there is one.
    pub transition: Option<usize>,
    /// How long the transition under way has blended, in milliseconds.
    pub elapsed: u32,
}

/// Whether transition `t` may begin from the state `active`.
pub open spec fn fires(
    transitions: Seq<Transition>,
    t: int,
    active: usize,
    values: Map<Seq<char>, Parameter>,
) -> bool {
    transitions[t].source == active && rule_holds(values, transitions[t].rule@)
}

/// The first of the transitions before `upto` that may begin from `active`.
pub open spec fn first_firing(
    transitions: Seq<Transition>,
    active: usize,
    values: Map<Seq<char>, Parameter>,
    upto: int,
) -> Option<usize>
    decreases upto,
{
    if upto <= 0 {
        None
    } else {
        match first_firing(transitions, active, values, upto - 1) {
            Some(t) => Some(t),
            None => if fires(transitions, upto - 1, active, values) {
                Some((upto - 1) as usize)
            } else {
                None
            },
        }
    }
}

/// The transition that begins in a frame: none while one is under way,
/// else the first that may begin from the active state.
pub open spec fn begun(
    transitions: Seq<Transition>,
    phase: LayerPhase,
    values: Map<Seq<char>, Parameter>,
) -> Option<usize> {
    if phase.transition.is_some() {
        None
    } else {
        first_firing(transitions, phase.active, values, transitions.len() as int)
    }
}

/// The transition that blends in a frame: the one under way, or the one
/// that begins.
pub open spec fn in_flight(
    transitions: Seq<Transition>,
    phase: LayerPhase,
    values: Map<Seq<char>, Parameter>,
) -> Option<usize> {
    if phase.transition.is_some() {
        phase.transition
    } else {
        begun(transitions, phase, values)
    }
}

/// How long the transition that blends in a frame has blended when the
/// frame begins.
pub open spec fn elapsed_before(phase: LayerPhase) -> u32 {
    if phase.transition.is_some() {
        phase.elapsed
    } else {
        0
    }
}

/// The transition whose time is over at the end of a frame of `dt`, if
/// there is one.
pub open spec fn completed(
    transitions: Seq<Transition>,
    phase: LayerPhase,
    values: Map<Seq<char>, Parameter>,
    dt: u32,
) -> Option<usize> {
    match in_flight(transitions, phase, values) {
        None => None,
        Some(t) => if elapsed_before(phase) + dt >= transitions[t as int].duration {
            Some(t)
        } else {
            None
        },
    }
}

/// Where a layer stands after a frame of `dt`.
pub open spec fn phase_after(
    transitions: Seq<Transition>,
    phase: LayerPhase,
    values: Map<Seq<char>, Parameter>,
    dt: u32,
) -> LayerPhase {
    match in_flight(transitions, phase, values) {
        None => phase,
        Some(t) => if elapsed_before(phase) + dt >= transitions[t as int].duration {
            LayerPhase { active: transitions[t as int].target, transition: None, elapsed: 0 }
        } else {
            LayerPhase {
                active: phase.active,
                transition: Some(t),
                elapsed: (elapsed_before(phase) + dt) as u32,
            }
        },
    }
}

/// The share of the target state in the pose of a frame: how far the blend
/// has come when the frame begins.
pub open spec fn target_weight(
    transitions: Seq<Transition>,
    phase: LayerPhase,
    values: Map<Seq<char>, Parameter>,
) -> u32 {
    match in_flight(transitions, phase, values) {
        None => 0,
        Some(t) => fade_weight(elapsed_before(phase), transitions[t as int].duration),
    }
}

/// Whether `phase` is a place a layer with these states and transitions can
/// stand at.
pub open spec fn phase_ok(transitions: Seq<Transition>, state_count: nat, phase: LayerPhase)
    -> bool {
    &&& state_count > 0 ==> phase.active < state_count
    &&& match phase.transition {
        None => phase.elapsed == 0,
        Some(t) => {
            &&& t < transitions.len()
            &&& transitions[t as int].source == phase.active
            &&& phase.elapsed < transitions[t as int].duration
        },
    }
}

/// Whether every transition joins two of `state_count` states.
pub open spec fn transitions_ok(transitions: Seq<Transition>, state_count: nat) -> bool {
    &&& transitions.len() <= usize::MAX
    &&& forall|t: int|
        0 <= t < transitions.len() ==> (#[trigger] transitions[t]).source < state_count
            && transitions[t].target < state_count
}

/// Where a layer stands after a row of frames, each with its own table and
/// its own length.
pub open spec fn phase_after_all(
    transitions: Seq<Transition>,
    phase: LayerPhase,
    values: Seq<Map<Seq<char>, Parameter>>,
    dts: Seq<u32>,
) -> LayerPhase
    decreases dts.len(),
{
    if dts.len() == 0 || values.len() != dts.len() {
        phase
    } else {
        phase_after(
            transitions,
            phase_after_all(transitions, phase, values.drop_last(), dts.drop_last()),
            values.last(),
            dts.last(),
        )
    }
}

/// The joint length of a row of frames.
pub open spec fn frames_total(dts: Seq<u32>) -> nat
    decreases dts.len(),
{
    if dts.len() == 0 {
        0
    } else {
        frames_total(dts.drop_last()) + dts.last() as nat
    }
}

/// The first transition that may begin does begin, and none before it may.
pub proof fn lemma_first_firing(
    transitions: Seq<Transition>,
    active: usize,
    values: Map<Seq<char>, Parameter>,
    upto: int,
)
    requires
        0 <= upto <= transitions.len(),
        upto <= usize::MAX,
    ensures
        match first_firing(transitions, active, values, upto) {
            Some(t) => {
                &&& t < upto
                &&& fires(transitions, t as int, active, values)
                &&& forall|k: int| 0 <= k < t ==> !fires(transitions, k, active, values)
            },
            None => forall|k: int| 0 <= k < upto ==> !fires(transitions, k, active, values),
        },
    decreases upto,
{
    if upto > 0 {
        lemma_first_firing(transitions, active, values, upto - 1);
    }
}

/// A frame keeps a layer at a place it can stand at.
pub proof fn lemma_phase_after_ok(
    transitions: Seq<Transition>,
    state_count: nat,
    phase: LayerPhase,
    values: Map<Seq<char>, Parameter>,
    dt: u32,
)
    requires
        transitions_ok(transitions, state_count),
        phase_ok(transitions, state_count, phase),
    ensures
        phase_ok(transitions, state_count, phase_after(transitions, phase, values, dt)),
{
    lemma_first_firing(transitions, phase.active, values, transitions.len() as int);
}

/// While a transition is under way no other begins: after a frame the same
/// transition is still under way, with the frame's length added to its
/// time and the state it leaves still active, or its time is over and the
/// state it leads to is active. Its time is over exactly when the time it
/// has blended reaches its duration.
pub proof fn lemma_one_transition_at_a_time(
    transitions: Seq<Transition>,
    phase: LayerPhase,
    values: Map<Seq<char>, Parameter>,
    dt: u32,
)
    requires
        phase.transition.is_some(),
    ensures
        begun(transitions, phase, values).is_none(),
        ({
            let t = phase.transition.unwrap();
            let after = phase_after(transitions, phase, values, dt);
            if phase.elapsed + dt >= transitions[t as int].duration {
                after == (LayerPhase {
                    active: transitions[t as int].target,
                    transition: None,
                    elapsed: 0,
                })
            } else {
                after == (LayerPhase {
                    active: phase.active,
                    transition: Some(t),
                    elapsed: (phase.elapsed + dt) as u32,
                })
            }
        }),
{
}

/// A blend runs for exactly its duration. A transition that has blended for
/// `phase.elapsed` is still under way after a row of frames that together
/// are shorter than the rest of its duration, whatever the rules say in
/// those frames, and has then blended for the sum. It is over after the
/// frame in which the sum reaches the duration, and the state it leads to
/// is then active with no transition under way.
pub proof fn lemma_blend_runs_its_duration(
    transitions: Seq<Transition>,
    phase: LayerPhase,
    values: Seq<Map<Seq<char>, Parameter>>,
    dts: Seq<u32>,
)
    requires
        phase.transition.is_some(),
        phase.elapsed < transitions[phase.transition.unwrap() as int].duration,
        values.len() == dts.len(),
    ensures
        ({
            let t = phase.transition.unwrap();
            let duration = transitions[t as int].duration;
            let after = phase_after_all(transitions, phase, values, dts);
            &&& phase.elapsed + frames_total(dts) < duration ==> after == (LayerPhase {
                active: phase.active,
                transition: Some(t),
                elapsed: (phase.elapsed + frames_total(dts)) as u32,
            })
            &&& dts.len() > 0 && phase.elapsed + frames_total(dts.drop_last()) < duration
                <= phase.elapsed + frames_total(dts) ==> after == (LayerPhase {
                active: transitions[t as int].target,
                transition: None,
                elapsed: 0,
            })
        }),
    decreases dts.len(),
{
    if dts.len() > 0 {
        lemma_blend_runs_its_duration(transitions, phase, values.drop_last(), dts.drop_last());
        let before = phase_after_all(transitions, phase, values.drop_last(), dts.drop_last());
        if phase.elapsed + frames_total(dts.drop_last())
            < transitions[phase.transition.unwrap() as int].duration {
            lemma_one_transition_at_a_time(transitions, before, values.last(), dts.last());
        }
    }
}

/// The share of the target state never falls while a transition blends: it
/// is nothing when the transition begins, and after more frames it is at
/// least what it was after fewer.
pub proof fn lemma_blend_weight_rises(
    transitions: Seq<Transition>,
    phase: LayerPhase,
    values: Seq<Map<Seq<char>, Parameter>>,
    dts: Seq<u32>,
    fewer: int,
    more: int,
    now: Map<Seq<char>, Parameter>,
)
    requires
        phase.transition.is_some(),
        phase.elapsed < transitions[phase.transition.unwrap() as int].duration,
        values.len() == dts.len(),
        0 <= fewer <= more <= dts.len(),
        phase.elapsed + frames_total(dts.take(more)) < transitions[phase.transition.unwrap() as int].duration,
    ensures
        target_weight(
            transitions,
            phase_after_all(transitions, phase, values.take(fewer), dts.take(fewer)),
            now,
        ) <= target_weight(
            transitions,
            phase_after_all(transitions, phase, values.take(more), dts.take(more)),
            now,
        ),
{
    lemma_frames_total_prefix(dts, fewer, more);
    lemma_blend_runs_its_duration(transitions, phase, values.take(fewer), dts.take(fewer));
    lemma_blend_runs_its_duration(transitions, phase, values.take(more), dts.take(more));
    let duration = transitions[phase.transition.unwrap() as int].duration;
    lemma_fade_weight_monotone(
        (phase.elapsed + frames_total(dts.take(fewer))) as u32,
        (phase.elapsed + frames_total(dts.take(more))) as u32,
        duration,
    );
}

/// A shorter row of frames is no longer than a longer one.
pub proof fn lemma_frames_total_prefix(dts: Seq<u32>, fewer: int, more: int)
    requires
        0 <= fewer <= more <= dts.len(),
    ensures
        frames_total(dts.take(fewer)) <= frames_total(dts.take(more)),
    decreases more - fewer,
{
    if fewer < more {
        lemma_frames_total_prefix(dts, fewer, more - 1);
        assert(dts.take(more).drop_last() =~= dts.take(more - 1));
    }
}

/// A layer at rest whose active state has no transition that may begin
/// stays as it is.
pub proof fn lemma_quiet_phase_is_kept(
    transitions: Seq<Transition>,
    phase: LayerPhase,
    values: Map<Seq<char>, Parameter>,
    dt: u32,
)
    requires
        transitions.len() <= usize::MAX,
        phase.transition.is_none(),
        forall|t: int|
            0 <= t < transitions.len() ==> !fires(transitions, t, phase.active, values),
    ensures
        phase_after(transitions, phase, values, dt) == phase,
        begun(transitions, phase, values).is_none(),
{
    lemma_first_firing(transitions, phase.active, values, transitions.len() as int);
}

/// Frame after frame in which no transition from the active state may
/// begin, a layer at rest stays as it is.
pub proof fn lemma_quiet_phase_is_kept_over_frames(
    transitions: Seq<Transition>,
    phase: LayerPhase,
    values: Seq<Map<Seq<char>, Parameter>>,
    dts: Seq<u32>,
)
    requires
        transitions.len() <= usize::MAX,
        phase.transition.is_none(),
        values.len() == dts.len(),
        forall|f: int, t: int|
            0 <= f < values.len() && 0 <= t < transitions.len() ==> !#[trigger] fires(
                transitions,
                t,
                phase.active,
                values[f],
            ),
    ensures
        phase_after_all(transitions, phase, values, dts) == phase,
    decreases dts.len(),
{
    if dts.len() > 0 {
        lemma_quiet_phase_is_kept_over_frames(transitions, phase, values.drop_last(), dts.drop_last());
        assert(values.last() == values[values.len() - 1]);
        lemma_quiet_phase_is_kept(transitions, phase, values.last(), dts.last());
    }
}

/// A state that no transition leaves is never left.
pub proof fn lemma_state_without_exit_is_kept(
    transitions: Seq<Transition>,
    phase: LayerPhase,
    values: Map<Seq<char>, Parameter>,
    dt: u32,
)
    requires
        transitions.len() <= usize::MAX,
        phase.transition.is_none(),
        forall|t: int| 0 <= t < transitions.len() ==> (#[trigger] transitions[t]).source != phase.active,
    ensures
        phase_after(transitions, phase, values, dt) == phase,
{
    lemma_quiet_phase_is_kept(transitions, phase, values, dt);
}

/// What a layer gives in one frame.
pub struct LayerOutput {
    /// The pose of the layer.
    pub pose: Vec<PoseTerm>,
    /// What each node of the graph gave.
    pub nodes: Vec<NodeOutput>,
}

/// A layer after a frame, as plain values.
pub ghost struct LayerStep {
    pub phase: LayerPhase,
    pub fades: Seq<Fade>,
    pub clips: Seq<Clip>,
    pub outputs: Seq<Output>,
    pub pose: Seq<PoseTerm>,
}

/// The layer.
pub struct Layer {
    pub graph: BlendGraph,
    pub states: Vec<State>,
    pub transitions: Vec<Transition>,
    /// The state in which the layer begins.
    pub entry: usize,
    pub phase: LayerPhase,
}

impl Layer {
    /// Whether the layer is sound: its graph is, its states show nodes of
    /// the graph, its transitions join its states, and it stands at a place
    /// it can stand at.
    pub open spec fn wf(&self) -> bool {
        &&& self.graph.wf()
        &&& forall|s: int|
            0 <= s < self.states@.len() ==> (#[trigger] self.states@[s]).root
                < self.graph.nodes@.len()
        &&& transitions_ok(self.transitions@, self.states@.len())
        &&& phase_ok(self.transitions@, self.states@.len(), self.phase)
        &&& self.states@.len() > 0 ==> self.entry < self.states@.len()
    }

    /// Whether every clip that the layer plays is among the first
    /// `clip_count` clips.
    pub open spec fn fits(&self, clip_count: nat) -> bool {
        self.graph.fits(clip_count)
    }

    /// The root node of state `s`.
    pub open spec fn root(&self, s: usize) -> int {
        self.states@[s as int].root as int
    }

    /// The layer and the clips after a frame of `dt` with the table
    /// `values`. In order: a transition may begin, and the clips of the
    /// state it leads to start anew; every node of the graph is evaluated,
    /// which moves the clips; the pose is the pose of the active state, or
    /// the mix of the two states of the transition that blends, weighted by
    /// how far the blend had come when the frame began; and where the
    /// transition's time is over, the clips that only the state left plays
    /// are disabled.
    pub open spec fn stepped(&self, clips: Seq<Clip>, values: Map<Seq<char>, Parameter>, dt: u32)
        -> LayerStep {
        let transitions = self.transitions@;
        let nodes = self.graph.nodes@;
        let started = match begun(transitions, self.phase, values) {
            Some(t) => entered(clips, nodes, self.root(transitions[t as int].target)),
            None => clips,
        };
        let e = evaluated(nodes, self.graph.fades@, started, values, dt, nodes.len() as int);
        let pose = match in_flight(transitions, self.phase, values) {
            Some(t) => mixed(
                e.outputs[self.root(transitions[t as int].source)].pose,
                e.outputs[self.root(transitions[t as int].target)].pose,
                target_weight(transitions, self.phase, values),
            ),
            None => if self.states@.len() == 0 {
                Seq::empty()
            } else {
                e.outputs[self.root(self.phase.active)].pose
            },
        };
        let finished = match completed(transitions, self.phase, values, dt) {
            Some(t) => left(
                e.clips,
                nodes,
                self.root(transitions[t as int].source),
                self.root(transitions[t as int].target),
            ),
            None => e.clips,
        };
        LayerStep {
            phase: phase_after(transitions, self.phase, values, dt),
            fades: e.fades,
            clips: finished,
            outputs: e.outputs,
            pose,
        }
    }

    /// A frame leaves the setup of every clip alone, gives one output for
    /// each node, and for a node that plays a clip one count for each signal
    /// of the clip.
    pub proof fn lemma_stepped_shape(&self, clips: Seq<Clip>, values: Map<Seq<char>, Parameter>, dt: u32)
        requires
            self.wf(),
            self.fits(clips.len()),
        ensures
            ({
                let s = self.stepped(clips, values, dt);
                &&& same_setups(clips, s.clips)
                &&& s.outputs.len() == self.graph.nodes@.len()
                &&& s.fades.len() == self.graph.fades@.len()
                &&& forall|i: int|
                    0 <= i < self.graph.nodes@.len() ==> ((
                    #[trigger] self.graph.nodes@[i]) matches PoseNode::PlayClip { clip }
                        ==> s.outputs[i].fired.len() == clips[clip as int].signals@.len())
            }),
    {
        let transitions = self.transitions@;
        let nodes = self.graph.nodes@;
        let started = match begun(transitions, self.phase, values) {
            Some(t) => entered(clips, nodes, self.root(transitions[t as int].target)),
            None => clips,
        };
        if let Some(t) = begun(transitions, self.phase, values) {
            lemma_entered_shape(clips, nodes, self.root(transitions[t as int].target));
        }
        lemma_evaluated_shape(nodes, self.graph.fades@, started, values, dt, nodes.len() as int);
        let e = evaluated(nodes, self.graph.fades@, started, values, dt, nodes.len() as int);
        if let Some(t) = completed(transitions, self.phase, values, dt) {
            lemma_left_shape(
                e.clips,
                nodes,
                self.root(transitions[t as int].source),
                self.root(transitions[t as int].target),
            );
        }
        let s = self.stepped(clips, values, dt);
        assert forall|c: int| 0 <= c < clips.len() implies same_setup(
            #[trigger] clips[c],
            s.clips[c],
        ) by {
            assert(same_setup(clips[c], started[c]));
            assert(same_setup(started[c], e.clips[c]));
            assert(same_setup(e.clips[c], s.clips[c]));
        }
        assert forall|i: int| 0 <= i < nodes.len() implies ((
        #[trigger] nodes[i]) matches PoseNode::PlayClip { clip } ==> s.outputs[i].fired.len()
            == clips[clip as int].signals@.len()) by {
            if let PoseNode::PlayClip { clip } = nodes[i] {
                assert(nodes[i].fits(clips.len() as int));
                assert(same_setup(clips[clip as int], started[clip as int]));
            }
        }
    }

    /// Tells whether the layer is sound.
    pub fn check(&self) -> (sound: bool)
        ensures
            sound == self.wf(),
    {
        if !self.graph.check() {
            return false;
        }
        let state_count = self.states.len();
        let mut s: usize = 0;
        while s < state_count
            invariant
                s <= state_count,
                state_count == self.states@.len(),
                forall|k: int|
                    0 <= k < s ==> (#[trigger] self.states@[k]).root < self.graph.nodes@.len(),
            decreases state_count - s,
        {
            if self.states[s].root >= self.graph.nodes.len() {
                return false;
            }
            s += 1;
        }
        let transition_count = self.transitions.len();
        let mut t: usize = 0;
        while t < transition_count
            invariant
                t <= transition_count,
                transition_count == self.transitions@.len(),
                state_count == self.states@.len(),
                forall|k: int|
                    0 <= k < t ==> (#[trigger] self.transitions@[k]).source < state_count
                        && self.transitions@[k].target < state_count,
            decreases transition_count - t,
        {
            if self.transitions[t].source >= state_count || self.transitions[t].target
                >= state_count {
                return false;
            }
            t += 1;
        }
        if state_count > 0 && (self.phase.active >= state_count || self.entry >= state_count) {
            return false;
        }
        match self.phase.transition {
            None => self.phase.elapsed == 0,
            Some(under_way) => under_way < transition_count && self.transitions[under_way].source
                == self.phase.active && self.phase.elapsed < self.transitions[under_way].duration,
        }
    }

    /// A layer without nodes, states or transitions, at rest, that begins
    /// in the first state it will be given.
    pub fn new() -> (layer: Layer)
        ensures
            layer.wf(),
            forall|n: nat| layer.fits(n),
            layer.graph.nodes@.len() == 0,
            layer.graph.fades@.len() == 0,
            layer.states@.len() == 0,
            layer.transitions@.len() == 0,
            layer.entry == 0,
            layer.phase == (LayerPhase { active: 0, transition: None, elapsed: 0 }),
    {
        Layer {
            graph: BlendGraph::new(),
            states: Vec::new(),
            transitions: Vec::new(),
            entry: 0,
            phase: LayerPhase { active: 0, transition: None, elapsed: 0 },
        }
    }

    /// Adds a node to the graph and tells its place; see
    /// [`BlendGraph::add_node`].
    pub fn add_node(&mut self, node: PoseNode, clip_count: usize) -> (place: Option<usize>)
        requires
            old(self).wf(),
        ensures
            final(self).wf(),
            forall|n: nat| old(self).fits(n) && clip_count <= n ==> final(self).fits(n),
            final(self).states == old(self).states,
            final(self).transitions == old(self).transitions,
            final(self).entry == old(self).entry,
            final(self).phase == old(self).phase,
            match place {
                Some(i) => {
                    &&& node.ok(old(self).graph.nodes@.len() as int)
                    &&& node.fits(clip_count as int)
                    &&& i == old(self).graph.nodes@.len()
                    &&& final(self).graph.nodes@ == old(self).graph.nodes@.push(node)
                    &&& final(self).graph.fades@ == old(self).graph.fades@.push(
                        Fade { previous: None, elapsed: 0 },
                    )
                },
                None => {
                    &&& !(node.ok(old(self).graph.nodes@.len() as int) && node.fits(
                        clip_count as int,
                    ))
                    &&& final(self).graph == old(self).graph
                },
            },
    {
        self.graph.add_node(node, clip_count)
    }

    /// Adds a state that shows the node `root` and tells its number. The
    /// first state added is the one in which the layer begins. A state whose
    /// node is not in the graph is refused.
    pub fn add_state(&mut self, name: &str, root: usize) -> (state: Option<usize>)
        requires
            old(self).wf(),
        ensures
            final(self).wf(),
            final(self).graph == old(self).graph,
            final(self).transitions == old(self).transitions,
            match state {
                Some(s) => {
                    &&& root < old(self).graph.nodes@.len()
                    &&& s == old(self).states@.len()
                    &&& final(self).states@.len() == s + 1
                    &&& final(self).states@.take(s as int) == old(self).states@
                    &&& final(self).states@[s as int].name@ == name@
                    &&& final(self).states@[s as int].root == root
                    &&& s > 0 ==> final(self).entry == old(self).entry && final(self).phase == old(
                        self,
                    ).phase
                    &&& s == 0 ==> final(self).entry == 0 && final(self).phase == (LayerPhase {
                        active: 0,
                        transition: None,
                        elapsed: 0,
                    })
                },
                None => root >= old(self).graph.nodes@.len() && *final(self) == *old(self),
            },
    {
        if root >= self.graph.nodes.len() {
            return None;
        }
        let s = self.states.len();
        self.states.push(State { name: String::from_str(name), root });
        if s == 0 {
            self.entry = 0;
            self.phase = LayerPhase { active: 0, transition: None, elapsed: 0 };
        }
        proof {
            assert(self.states@.take(s as int) =~= old(self).states@);
            assert forall|k: int| 0 <= k < self.states@.len() implies (#[trigger] self.states@[k]).root
                < self.graph.nodes@.len() by {
                if k < s {
                    assert(self.states@[k] == old(self).states@[k]);
                }
            }
            assert forall|t: int| 0 <= t < self.transitions@.len() implies (
            #[trigger] self.transitions@[t]).source < self.states@.len()
                && self.transitions@[t].target < self.states@.len() by {
                assert(old(self).transitions@[t].source < old(self).states@.len());
            }
        }
        Some(s)
    }

    /// Adds a transition after those that are there and tells its number. A
    /// transition that names a state the layer does not have is refused.
    pub fn add_transition(
        &mut self,
        name: &str,
        source: usize,
        target: usize,
        duration: u32,
        rule: &str,
    ) -> (transition: Option<usize>)
        requires
            old(self).wf(),
        ensures
            final(self).wf(),
            final(self).graph == old(self).graph,
            final(self).states == old(self).states,
            final(self).entry == old(self).entry,
            final(self).phase == old(self).phase,
            match transition {
                Some(t) => {
                    &&& source < old(self).states@.len()
                    &&& target < old(self).states@.len()
                    &&& t == old(self).transitions@.len()
                    &&& final(self).transitions@.len() == t + 1
                    &&& final(self).transitions@.take(t as int) == old(self).transitions@
                    &&& final(self).transitions@[t as int].name@ == name@
                    &&& final(self).transitions@[t as int].source == source
                    &&& final(self).transitions@[t as int].target == target
                    &&& final(self).transitions@[t as int].duration == duration
                    &&& final(self).transitions@[t as int].rule@ == rule@
                },
                None => (source >= old(self).states@.len() || target >= old(self).states@.len())
                    && *final(self) == *old(self),
            },
    {
        if source >= self.states.len() || target >= self.states.len() {
            return None;
        }
        let t = self.transitions.len();
        self.transitions.push(
            Transition {
                name: String::from_str(name),
                source,
                target,
                duration,
                rule: String::from_str(rule),
            },
        );
        let count = self.transitions.len();
        proof {
            assert(count == t + 1);
            assert(self.transitions@.take(t as int) =~= old(self).transitions@);
            assert forall|k: int| 0 <= k < self.transitions@.len() implies (
            #[trigger] self.transitions@[k]).source < self.states@.len()
                && self.transitions@[k].target < self.states@.len() by {
                if k < t {
                    assert(self.transitions@[k] == old(self).transitions@[k]);
                    assert(old(self).transitions@[k].source < old(self).states@.len());
                }
            }
            if let Some(u) = self.phase.transition {
                assert(self.transitions@[u as int] == old(self).transitions@[u as int]);
            }
        }
        Some(t)
    }

    /// Makes `state` the state in which the layer begins, and puts the layer
    /// into it at rest. Tells whether the layer has such a state; if not,
    /// nothing changes.
    pub fn set_entry_state(&mut self, state: usize) -> (done: bool)
        requires
            old(self).wf(),
        ensures
            final(self).wf(),
            done == (state < old(self).states@.len()),
            final(self).graph == old(self).graph,
            final(self).states == old(self).states,
            final(self).transitions == old(self).transitions,
            done ==> final(self).entry == state && final(self).phase == (LayerPhase {
                active: state,
                transition: None,
                elapsed: 0,
            }),
            !done ==> *final(self) == *old(self),
    {
        if state < self.states.len() {
            self.entry = state;
            self.phase = LayerPhase { active: state, transition: None, elapsed: 0 };
            true
        } else {
            false
        }
    }

    /// The active state; while a transition blends, the state it leaves.
    pub fn active_state(&self) -> (state: usize)
        ensures
            state == self.phase.active,
    {
        self.phase.active
    }

    /// The transition under way, if there is one.
    pub fn active_transition(&self) -> (transition: Option<usize>)
        ensures
            transition == self.phase.transition,
    {
        self.phase.transition
    }

    /// The first transition that may begin from the active state.
    fn find_transition(&self, params: &ParameterTable) -> (found: Option<usize>)
        ensures
            found == first_firing(
                self.transitions@,
                self.phase.active,
                params@,
                self.transitions@.len() as int,
            ),
    {
        let mut t: usize = 0;
        while t < self.transitions.len()
            invariant
                t <= self.transitions@.len(),
                first_firing(self.transitions@, self.phase.active, params@, t as int).is_none(),
            decreases self.transitions@.len() - t,
        {
            if self.transitions[t].source == self.phase.active && params.rule(
                self.transitions[t].rule.as_str(),
            ) {
                proof {
                    lemma_first_firing_found(
                        self.transitions@,
                        self.phase.active,
                        params@,
                        t as int,
                        self.transitions@.len() as int,
                    );
                }
                return Some(t);
            }
            t += 1;
        }
        None
    }

    /// Takes the layer through a frame of `dt` milliseconds with the table
    /// `params`, and gives its pose.
    pub fn step(&mut self, clips: &mut Vec<Clip>, params: &ParameterTable, dt: u32) -> (out:
        LayerOutput)
        requires
            old(self).wf(),
            old(self).fits(old(clips)@.len()),
            clips_ok(old(clips)@),
        ensures
            final(self).wf(),
            clips_ok(final(clips)@),
            final(clips)@.len() == old(clips)@.len(),
            final(self).graph.nodes == old(self).graph.nodes,
            final(self).states == old(self).states,
            final(self).transitions == old(self).transitions,
            final(self).entry == old(self).entry,
            ({
                let s = old(self).stepped(old(clips)@, params@, dt);
                &&& final(self).phase == s.phase
                &&& final(self).graph.fades@ == s.fades
                &&& final(clips)@ == s.clips
                &&& views(out.nodes@) == s.outputs
                &&& out.pose@ == s.pose
            }),
    {
        proof {
            lemma_first_firing(
                self.transitions@,
                self.phase.active,
                params@,
                self.transitions@.len() as int,
            );
            lemma_phase_after_ok(
                self.transitions@,
                self.states@.len(),
                self.phase,
                params@,
                dt,
            );
        }
        let starting: Option<usize> = if self.phase.transition.is_some() {
            None
        } else {
            self.find_transition(params)
        };
        let flight: Option<usize> = if self.phase.transition.is_some() {
            self.phase.transition
        } else {
            starting
        };
        let before: u32 = if self.phase.transition.is_some() {
            self.phase.elapsed
        } else {
            0
        };
        if let Some(t) = starting {
            assert(self.transitions@[t as int].target < self.states@.len());
            assert(self.states@[self.transitions@[t as int].target as int].root
                < self.graph.nodes@.len());
            let root = self.states[self.transitions[t].target].root;
            self.graph.enter_state(root, clips);
        }
        let nodes = self.graph.evaluate(clips, params, dt);
        let pose = match flight {
            Some(t) => {
                assert(self.transitions@[t as int].target < self.states@.len());
                assert(self.states@[self.transitions@[t as int].target as int].root
                    < self.graph.nodes@.len());
                assert(self.states@[self.transitions@[t as int].source as int].root
                    < self.graph.nodes@.len());
                let source = self.states[self.transitions[t].source].root;
                let target = self.states[self.transitions[t].target].root;
                let duration = self.transitions[t].duration;
                let weight = blend_weight(before, duration);
                assert(views(nodes@)[source as int].pose == nodes@[source as int].pose@);
                assert(views(nodes@)[target as int].pose == nodes@[target as int].pose@);
                let pose = mix(&nodes[source].pose, &nodes[target].pose, weight);
                let elapsed = run_on(before, dt, duration);
                if elapsed >= duration {
                    self.graph.leave_state(source, target, clips);
                    self.phase = LayerPhase {
                        active: self.transitions[t].target,
                        transition: None,
                        elapsed: 0,
                    };
                } else {
                    self.phase = LayerPhase {
                        active: self.phase.active,
                        transition: Some(t),
                        elapsed,
                    };
                }
                pose
            },
            None => {
                if self.states.len() == 0 {
                    Vec::new()
                } else {
                    assert(self.states@[self.phase.active as int].root < self.graph.nodes@.len());
                    let root = self.states[self.phase.active].root;
                    assert(views(nodes@)[root as int].pose == nodes@[root as int].pose@);
                    copy_pose(&nodes[root].pose)
                }
            },
        };
        LayerOutput { pose, nodes }
    }
}

/// A transition that may begin and has none before it that may is the
/// first that may begin.
pub proof fn lemma_first_firing_found(
    transitions: Seq<Transition>,
    active: usize,
    values: Map<Seq<char>, Parameter>,
    t: int,
    upto: int,
)
    requires
        0 <= t < upto <= transitions.len(),
        first_firing(transitions, active, values, t).is_none(),
        fires(transitions, t, active, values),
    ensures
        first_firing(transitions, active, values, upto) == Some(t as usize),
    decreases upto - t,
{
    if upto > t + 1 {
        lemma_first_firing_found(transitions, active, values, t, upto - 1);
    }
}

} // verus!
