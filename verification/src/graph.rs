//! The blend graph: nodes that play clips and nodes that mix the poses of
//! other nodes.
//!
//! Nodes stand in a list and a node takes its inputs only from nodes before
//! it, so the graph has no cycle and one pass from the front evaluates every
//! node once, each after all of its inputs.

use crate::clip::Clip;
use crate::parameter::{index_of, weight_of, Parameter, ParameterTable};
use crate::pose::{
    append_scaled,
    blend_weight,
    copy_pose,
    elapsed_after,
    fade_weight,
    mix,
    mixed,
    run_on,
    scaled,
    PoseTerm,
    WEIGHT_ONE,
};
use vstd::prelude::*;

verus! {

/// Where a weighted input takes its weight from.
pub enum WeightSource {
    /// A fixed weight in millionths.
    Constant(u32),
    /// The weight set under this name in the frame's table.
    Parameter(String),
}

/// One input of a node that mixes by weight.
pub struct WeightedInput {
    pub weight: WeightSource,
    /// The node whose pose is mixed in; it stands before the mixing node.
    pub child: usize,
}

/// One input of a node that chooses by index.
#[derive(Copy, Clone, Debug, PartialEq, Eq, Structural)]
pub struct IndexedInput {
    /// How long the cross-fade to this input takes, in milliseconds.
    pub blend_time: u32,
    /// The node whose pose is chosen; it stands before the choosing node.
    pub child: usize,
}

/// A node of the graph.
pub enum PoseNode {
    /// Plays a clip and gives its sample.
    PlayClip { clip: usize },
    /// Mixes its inputs, each with its own weight.
    BlendWeighted { inputs: Vec<WeightedInput> },
    /// Gives the input that the named index chooses, and cross-fades from
    /// the one chosen before when the index changes.
    BlendIndexed { parameter: String, choices: Vec<IndexedInput> },
}

/// What a choosing node remembers from frame to frame.
#[derive(Copy, Clone, Debug, PartialEq, Eq, Structural)]
pub struct Fade {
    /// The input the node gave last, or fades from.
    pub previous: Option<u32>,
    /// How long the running cross-fade has run, in milliseconds.
    pub elapsed: u32,
}

/// What a node gives in one frame.
pub struct NodeOutput {
    /// Its pose.
    pub pose: Vec<PoseTerm>,
    /// For a node that plays a clip: how often each signal of the clip fired.
    pub fired: Vec<u64>,
}

/// What a node gives in one frame, as plain sequences.
pub ghost struct Output {
    pub pose: Seq<PoseTerm>,
    pub fired: Seq<u64>,
}

impl View for NodeOutput {
    type V = Output;

    open spec fn view(&self) -> Output {
        Output { pose: self.pose@, fired: self.fired@ }
    }
}

/// The outputs of a list of nodes as plain sequences.
pub open spec fn views(outputs: Seq<NodeOutput>) -> Seq<Output> {
    Seq::new(outputs.len(), |i: int| outputs[i]@)
}

impl PoseNode {
    /// The nodes this node takes poses from.
    pub open spec fn children(&self) -> Seq<usize> {
        match self {
            PoseNode::PlayClip { .. } => Seq::empty(),
            PoseNode::BlendWeighted { inputs } => Seq::new(
                inputs@.len(),
                |j: int| inputs@[j].child,
            ),
            PoseNode::BlendIndexed { choices, .. } => Seq::new(
                choices@.len(),
                |j: int| choices@[j].child,
            ),
        }
    }

    /// Whether this node plays the clip `clip`.
    pub open spec fn plays(&self, clip: usize) -> bool {
        self matches PoseNode::PlayClip { clip: c } && c == clip
    }

    /// Whether this node can stand at place `index` of a graph: its inputs
    /// stand before it.
    pub open spec fn ok(&self, index: int) -> bool {
        forall|j: int| 0 <= j < self.children().len() ==> #[trigger] self.children()[j] < index
    }

    /// Whether the clip this node plays, if it plays one, is among the first
    /// `clip_count` clips.
    pub open spec fn fits(&self, clip_count: int) -> bool {
        self matches PoseNode::PlayClip { clip } ==> clip < clip_count
    }

    /// Whether `fade` is something this node can remember: an input that
    /// it has.
    pub open spec fn fade_ok(&self, fade: Fade) -> bool {
        self matches PoseNode::BlendIndexed { choices, .. } ==> (fade.previous matches Some(p) ==> p
            < choices@.len())
    }

    /// The number of inputs.
    pub fn child_count(&self) -> (count: usize)
        ensures
            count == self.children().len(),
    {
        match self {
            PoseNode::PlayClip { .. } => 0,
            PoseNode::BlendWeighted { inputs } => inputs.len(),
            PoseNode::BlendIndexed { choices, .. } => choices.len(),
        }
    }

    /// The node that input number `j` comes from.
    pub fn child_at(&self, j: usize) -> (child: usize)
        requires
            j < self.children().len(),
        ensures
            child == self.children()[j as int],
    {
        match self {
            PoseNode::PlayClip { .. } => 0,
            PoseNode::BlendWeighted { inputs } => inputs[j].child,
            PoseNode::BlendIndexed { choices, .. } => choices[j].child,
        }
    }

    /// Tells whether the clip this node plays, if it plays one, is among
    /// the first `clip_count` clips.
    pub fn check_clip(&self, clip_count: usize) -> (ok: bool)
        ensures
            ok == self.fits(clip_count as int),
    {
        match self {
            PoseNode::PlayClip { clip } => *clip < clip_count,
            _ => true,
        }
    }

    /// Tells whether `fade` is something this node can remember.
    pub fn check_fade(&self, fade: &Fade) -> (ok: bool)
        ensures
            ok == self.fade_ok(*fade),
    {
        match self {
            PoseNode::BlendIndexed { choices, .. } => match fade.previous {
                Some(p) => (p as usize) < choices.len(),
                None => true,
            },
            _ => true,
        }
    }

    /// Tells whether this node can stand at place `index` of a graph over
    /// `clip_count` clips.
    pub fn check(&self, index: usize, clip_count: usize) -> (ok: bool)
        ensures
            ok == (self.ok(index as int) && self.fits(clip_count as int)),
    {
        self.check_clip(clip_count) && self.check_inputs(index)
    }

    /// Tells whether this node can stand at place `index` of a graph.
    pub fn check_inputs(&self, index: usize) -> (ok: bool)
        ensures
            ok == self.ok(index as int),
    {
        let count = self.child_count();
        let mut j: usize = 0;
        while j < count
            invariant
                j <= count,
                count == self.children().len(),
                forall|k: int| 0 <= k < j ==> #[trigger] self.children()[k] < index,
            decreases count - j,
        {
            if self.child_at(j) >= index {
                return false;
            }
            j += 1;
        }
        true
    }
}

/// The weight that a source gives in a frame.
pub open spec fn source_weight(source: WeightSource, values: Map<Seq<char>, Parameter>) -> u32 {
    match source {
        WeightSource::Constant(w) => w,
        WeightSource::Parameter(name) => weight_of(values, name@),
    }
}

/// The mix of the first `upto` inputs of a node that mixes by weight: the
/// pose of each input, scaled by the input's weight, one after the other.
pub open spec fn weighted_pose(
    inputs: Seq<WeightedInput>,
    outputs: Seq<Output>,
    values: Map<Seq<char>, Parameter>,
    upto: int,
) -> Seq<PoseTerm>
    decreases upto,
{
    if upto <= 0 {
        Seq::empty()
    } else {
        weighted_pose(inputs, outputs, values, upto - 1) + scaled(
            outputs[inputs[upto - 1].child as int].pose,
            source_weight(inputs[upto - 1].weight, values),
        )
    }
}

/// The input that an index chooses among `count` inputs: an index beyond
/// the last input chooses the last.
pub open spec fn chosen_input(index: u32, count: nat) -> u32 {
    if index >= count {
        (count - 1) as u32
    } else {
        index
    }
}

/// What a choosing node remembers after a frame in which the index is
/// `index`.
pub open spec fn fade_step(fade: Fade, inputs: Seq<IndexedInput>, index: Option<u32>, dt: u32)
    -> Fade {
    match index {
        None => fade,
        Some(raw) => if inputs.len() == 0 {
            fade
        } else {
            let current = chosen_input(raw, inputs.len());
            match fade.previous {
                None => Fade { previous: Some(current), elapsed: 0 },
                Some(previous) => if previous == current {
                    Fade { previous: Some(current), elapsed: 0 }
                } else {
                    let duration = inputs[current as int].blend_time;
                    let elapsed = elapsed_after(fade.elapsed, dt, duration);
                    if elapsed >= duration {
                        Fade { previous: Some(current), elapsed: 0 }
                    } else {
                        Fade { previous: Some(previous), elapsed }
                    }
                },
            }
        },
    }
}

/// The pose of a choosing node in a frame in which the index is `index`:
/// the pose of the chosen input, or, while the index differs from the one
/// remembered, the cross-fade from the remembered input to the chosen one.
/// Without an index, or without inputs, the pose is empty.
pub open spec fn indexed_pose(
    fade: Fade,
    inputs: Seq<IndexedInput>,
    outputs: Seq<Output>,
    index: Option<u32>,
    dt: u32,
) -> Seq<PoseTerm> {
    match index {
        None => Seq::empty(),
        Some(raw) => if inputs.len() == 0 {
            Seq::empty()
        } else {
            let current = chosen_input(raw, inputs.len());
            let target = outputs[inputs[current as int].child as int].pose;
            match fade.previous {
                None => target,
                Some(previous) => if previous == current {
                    target
                } else {
                    let duration = inputs[current as int].blend_time;
                    let elapsed = elapsed_after(fade.elapsed, dt, duration);
                    mixed(
                        outputs[inputs[previous as int].child as int].pose,
                        target,
                        fade_weight(elapsed, duration),
                    )
                },
            }
        },
    }
}

/// The clip `clip` after a frame of `dt` milliseconds.
pub open spec fn advanced(clip: Clip, dt: u32) -> Clip {
    Clip { time: clip.spec_time_after(dt) as u64, ..clip }
}

/// How often each signal of `clip` fires in a frame of `dt` milliseconds.
pub open spec fn fired_counts(clip: Clip, dt: u32) -> Seq<u64> {
    Seq::new(clip.signals@.len(), |k: int| clip.spec_fires(k, dt) as u64)
}

/// The state of an evaluation: what the choosing nodes remember, the clips,
/// and the outputs of the nodes evaluated so far.
pub ghost struct Evaluation {
    pub fades: Seq<Fade>,
    pub clips: Seq<Clip>,
    pub outputs: Seq<Output>,
}

/// An evaluation after one more node: a node that plays a clip moves the
/// clip through the frame and gives its sample; a mixing node gives the mix
/// of outputs that are already there.
pub open spec fn evaluated_node(
    node: PoseNode,
    state: Evaluation,
    values: Map<Seq<char>, Parameter>,
    dt: u32,
) -> Evaluation {
    let i = state.outputs.len() as int;
    match node {
        PoseNode::PlayClip { clip } => {
            let after = advanced(state.clips[clip as int], dt);
            Evaluation {
                fades: state.fades,
                clips: state.clips.update(clip as int, after),
                outputs: state.outputs.push(
                    Output {
                        pose: seq![PoseTerm { clip, time: after.time, weight: WEIGHT_ONE }],
                        fired: fired_counts(state.clips[clip as int], dt),
                    },
                ),
            }
        },
        PoseNode::BlendWeighted { inputs } => Evaluation {
            fades: state.fades,
            clips: state.clips,
            outputs: state.outputs.push(
                Output {
                    pose: weighted_pose(inputs@, state.outputs, values, inputs@.len() as int),
                    fired: Seq::empty(),
                },
            ),
        },
        PoseNode::BlendIndexed { parameter, choices } => {
            let index = index_of(values, parameter@);
            Evaluation {
                fades: state.fades.update(i, fade_step(state.fades[i], choices@, index, dt)),
                clips: state.clips,
                outputs: state.outputs.push(
                    Output {
                        pose: indexed_pose(state.fades[i], choices@, state.outputs, index, dt),
                        fired: Seq::empty(),
                    },
                ),
            }
        },
    }
}

/// The evaluation of the first `upto` nodes of a graph in one frame, in
/// their order.
pub open spec fn evaluated(
    nodes: Seq<PoseNode>,
    fades: Seq<Fade>,
    clips: Seq<Clip>,
    values: Map<Seq<char>, Parameter>,
    dt: u32,
    upto: int,
) -> Evaluation
    decreases upto,
{
    if upto <= 0 {
        Evaluation { fades, clips, outputs: Seq::empty() }
    } else {
        evaluated_node(nodes[upto - 1], evaluated(nodes, fades, clips, values, dt, upto - 1), values, dt)
    }
}

/// Whether node `i` is reached from the node `root`: a node is reached if
/// it is the root or an input of a reached node.
pub open spec fn reached(nodes: Seq<PoseNode>, root: int, i: int) -> bool
    decreases root - i,
{
    i == root || (0 <= i < root && exists|p: int|
        i < p <= root && reached(nodes, root, p) && (#[trigger] nodes[p]).children().contains(
            i as usize,
        ))
}

/// Whether the clip `clip` is played by a node reached from `root`.
pub open spec fn plays_clip(nodes: Seq<PoseNode>, root: int, clip: usize) -> bool {
    played_below(nodes, root, nodes.len() as int, clip)
}

/// Whether the clip `clip` is played by a node before `upto` that is
/// reached from `root`.
pub open spec fn played_below(nodes: Seq<PoseNode>, root: int, upto: int, clip: usize) -> bool {
    exists|k: int| 0 <= k < upto && #[trigger] reached(nodes, root, k) && nodes[k].plays(clip)
}

/// The clip `clip` put back at its start and set going.
pub open spec fn restarted_clip(clip: Clip) -> Clip {
    Clip { time: 0, enabled: true, ..clip }
}

/// The clip `clip` held where it is.
pub open spec fn halted_clip(clip: Clip) -> Clip {
    Clip { enabled: false, ..clip }
}

/// The clips after the state with root `root` has been entered: every clip
/// that the state plays is at its start and enabled, the others are as
/// they were.
pub open spec fn entered(clips: Seq<Clip>, nodes: Seq<PoseNode>, root: int) -> Seq<Clip> {
    Seq::new(
        clips.len(),
        |c: int|
            if plays_clip(nodes, root, c as usize) {
                restarted_clip(clips[c])
            } else {
                clips[c]
            },
    )
}

/// The clips after the state with root `source` has been left for the state
/// with root `target`: every clip that the state left plays and the state
/// entered does not is disabled, the others are as they were.
pub open spec fn left(clips: Seq<Clip>, nodes: Seq<PoseNode>, source: int, target: int) -> Seq<
    Clip,
> {
    Seq::new(
        clips.len(),
        |c: int|
            if plays_clip(nodes, source, c as usize) && !plays_clip(nodes, target, c as usize) {
                halted_clip(clips[c])
            } else {
                clips[c]
            },
    )
}

/// A reached node that is not the root has a reached node after it that
/// takes it as an input.
pub proof fn lemma_reached_parent(nodes: Seq<PoseNode>, root: int, i: int) -> (parent: int)
    requires
        reached(nodes, root, i),
        i != root,
    ensures
        i < parent <= root,
        reached(nodes, root, parent),
        nodes[parent].children().contains(i as usize),
        0 <= i < root,
{
    choose|p: int|
        i < p <= root && reached(nodes, root, p) && (#[trigger] nodes[p]).children().contains(
            i as usize,
        )
}

/// An input of a reached node is reached.
pub proof fn lemma_reached_child(nodes: Seq<PoseNode>, root: int, parent: int, j: int)
    requires
        reached(nodes, root, parent),
        0 <= j < nodes[parent].children().len(),
        0 <= nodes[parent].children()[j] < parent <= root,
    ensures
        reached(nodes, root, nodes[parent].children()[j] as int),
{
    let child = nodes[parent].children()[j];
    assert(nodes[parent].children().contains(child));
    let c = child as int;
    assert(c < parent && parent <= root && reached(nodes, root, parent)
        && nodes[parent].children().contains(c as usize));
}

/// One more node is looked at: a clip is played below the next place if it
/// was played below this one or the node at this place is reached and
/// plays it.
pub proof fn lemma_played_below_step(nodes: Seq<PoseNode>, root: int, upto: int, clip: usize)
    requires
        0 <= upto,
    ensures
        played_below(nodes, root, upto + 1, clip) == (played_below(nodes, root, upto, clip) || (
        reached(nodes, root, upto) && nodes[upto].plays(clip))),
{
    if played_below(nodes, root, upto + 1, clip) {
        let k = choose|k: int|
            0 <= k < upto + 1 && #[trigger] reached(nodes, root, k) && nodes[k].plays(clip);
        if k < upto {
            assert(played_below(nodes, root, upto, clip));
        }
    }
    if played_below(nodes, root, upto, clip) {
        let k = choose|k: int|
            0 <= k < upto && #[trigger] reached(nodes, root, k) && nodes[k].plays(clip);
        assert(0 <= k < upto + 1 && reached(nodes, root, k) && nodes[k].plays(clip));
    }
    if reached(nodes, root, upto) && nodes[upto].plays(clip) {
        assert(0 <= upto < upto + 1 && reached(nodes, root, upto) && nodes[upto].plays(clip));
    }
}

/// Whether two clips are set up alike: they differ at most in where they
/// stand and in whether they move.
pub open spec fn same_setup(a: Clip, b: Clip) -> bool {
    &&& a.length == b.length
    &&& a.speed == b.speed
    &&& a.looped == b.looped
    &&& a.signals == b.signals
}

/// Whether the clips of `after` are the clips of `before`, set up alike.
pub open spec fn same_setups(before: Seq<Clip>, after: Seq<Clip>) -> bool {
    before.len() == after.len() && forall|c: int|
        0 <= c < before.len() ==> same_setup(#[trigger] before[c], after[c])
}

/// An evaluation leaves the setup of every clip alone, gives one output for
/// each node, and for a node that plays a clip one count for each signal of
/// the clip.
pub proof fn lemma_evaluated_shape(
    nodes: Seq<PoseNode>,
    fades: Seq<Fade>,
    clips: Seq<Clip>,
    values: Map<Seq<char>, Parameter>,
    dt: u32,
    upto: int,
)
    requires
        0 <= upto <= nodes.len(),
        fades.len() == nodes.len(),
        forall|i: int| 0 <= i < nodes.len() ==> (#[trigger] nodes[i]).fits(clips.len() as int),
    ensures
        ({
            let e = evaluated(nodes, fades, clips, values, dt, upto);
            &&& e.fades.len() == fades.len()
            &&& e.outputs.len() == upto
            &&& same_setups(clips, e.clips)
            &&& forall|c: int| 0 <= c < clips.len() ==> (#[trigger] e.clips[c]).enabled == clips[c].enabled
            &&& forall|i: int|
                0 <= i < upto ==> ((#[trigger] nodes[i]) matches PoseNode::PlayClip { clip }
                    ==> e.outputs[i].fired.len() == clips[clip as int].signals@.len())
        }),
    decreases upto,
{
    if upto > 0 {
        lemma_evaluated_shape(nodes, fades, clips, values, dt, upto - 1);
        let before = evaluated(nodes, fades, clips, values, dt, upto - 1);
        let e = evaluated(nodes, fades, clips, values, dt, upto);
        assert(nodes[upto - 1].fits(clips.len() as int));
        assert forall|c: int| 0 <= c < clips.len() implies same_setup(
            #[trigger] clips[c],
            e.clips[c],
        ) by {
            assert(same_setup(clips[c], before.clips[c]));
        }
        assert forall|c: int| 0 <= c < clips.len() implies (#[trigger] e.clips[c]).enabled
            == clips[c].enabled by {
            assert(before.clips[c].enabled == clips[c].enabled);
        }
        assert forall|i: int| 0 <= i < upto implies ((#[trigger] nodes[i]) matches PoseNode::PlayClip {
            clip,
        } ==> e.outputs[i].fired.len() == clips[clip as int].signals@.len()) by {
            if i < upto - 1 {
                assert(e.outputs[i] == before.outputs[i]);
            } else {
                if let PoseNode::PlayClip { clip } = nodes[i] {
                    assert(same_setup(clips[clip as int], before.clips[clip as int]));
                }
            }
        }
    }
}

/// Entering a state leaves the setup of every clip alone.
pub proof fn lemma_entered_shape(clips: Seq<Clip>, nodes: Seq<PoseNode>, root: int)
    ensures
        same_setups(clips, entered(clips, nodes, root)),
{
}

/// Leaving a state leaves the setup of every clip alone.
pub proof fn lemma_left_shape(clips: Seq<Clip>, nodes: Seq<PoseNode>, source: int, target: int)
    ensures
        same_setups(clips, left(clips, nodes, source, target)),
{
}

/// Whether every clip of a list is at a position it can be at.
pub open spec fn clips_ok(clips: Seq<Clip>) -> bool {
    forall|c: int| 0 <= c < clips.len() ==> (#[trigger] clips[c]).wf()
}

/// Tells whether every clip of a list is at a position it can be at.
pub fn check_clips(clips: &Vec<Clip>) -> (ok: bool)
    ensures
        ok == clips_ok(clips@),
{
    let mut c: usize = 0;
    while c < clips.len()
        invariant
            c <= clips@.len(),
            forall|k: int| 0 <= k < c ==> (#[trigger] clips@[k]).wf(),
        decreases clips@.len() - c,
    {
        if !clips[c].check() {
            return false;
        }
        c += 1;
    }
    true
}

/// The graph.
pub struct BlendGraph {
    /// The nodes, inputs before the nodes that use them.
    pub nodes: Vec<PoseNode>,
    /// What each node remembers; used by choosing nodes only.
    pub fades: Vec<Fade>,
}

fn weighted_output(
    inputs: &Vec<WeightedInput>,
    outputs: &Vec<NodeOutput>,
    params: &ParameterTable,
) -> (pose: Vec<PoseTerm>)
    requires
        forall|j: int| 0 <= j < inputs@.len() ==> (#[trigger] inputs@[j]).child < outputs@.len(),
    ensures
        pose@ == weighted_pose(inputs@, views(outputs@), params@, inputs@.len() as int),
{
    let mut pose: Vec<PoseTerm> = Vec::new();
    let mut j: usize = 0;
    while j < inputs.len()
        invariant
            j <= inputs@.len(),
            forall|k: int| 0 <= k < inputs@.len() ==> (#[trigger] inputs@[k]).child < outputs@.len(),
            pose@ == weighted_pose(inputs@, views(outputs@), params@, j as int),
        decreases inputs@.len() - j,
    {
        let weight = match &inputs[j].weight {
            WeightSource::Constant(w) => *w,
            WeightSource::Parameter(name) => params.weight(name.as_str()),
        };
        assert(inputs@[j as int].child < outputs@.len());
        append_scaled(&mut pose, &outputs[inputs[j].child].pose, weight);
        j += 1;
    }
    pose
}

fn indexed_output(
    inputs: &Vec<IndexedInput>,
    fade: Fade,
    outputs: &Vec<NodeOutput>,
    index: Option<u32>,
    dt: u32,
) -> (r: (Fade, Vec<PoseTerm>))
    requires
        forall|j: int| 0 <= j < inputs@.len() ==> (#[trigger] inputs@[j]).child < outputs@.len(),
        fade.previous matches Some(p) ==> p < inputs@.len(),
    ensures
        r.0 == fade_step(fade, inputs@, index, dt),
        r.1@ == indexed_pose(fade, inputs@, views(outputs@), index, dt),
        r.0.previous matches Some(p) ==> p < inputs@.len(),
{
    match index {
        None => (fade, Vec::new()),
        Some(raw) => {
            let count = inputs.len();
            if count == 0 {
                (fade, Vec::new())
            } else {
                let current: u32 = if raw as usize >= count {
                    (count - 1) as u32
                } else {
                    raw
                };
                assert(current == chosen_input(raw, inputs@.len()));
                assert(inputs@[current as int].child < outputs@.len());
                let target = &outputs[inputs[current as usize].child].pose;
                match fade.previous {
                    None => (Fade { previous: Some(current), elapsed: 0 }, copy_pose(target)),
                    Some(previous) => {
                        if previous == current {
                            (Fade { previous: Some(current), elapsed: 0 }, copy_pose(target))
                        } else {
                            let duration = inputs[current as usize].blend_time;
                            let elapsed = run_on(fade.elapsed, dt, duration);
                            let weight = blend_weight(elapsed, duration);
                            assert(inputs@[previous as int].child < outputs@.len());
                            let pose = mix(
                                &outputs[inputs[previous as usize].child].pose,
                                target,
                                weight,
                            );
                            if elapsed >= duration {
                                (Fade { previous: Some(current), elapsed: 0 }, pose)
                            } else {
                                (Fade { previous: Some(previous), elapsed }, pose)
                            }
                        }
                    },
                }
            }
        },
    }
}

impl BlendGraph {
    /// Whether the graph is sound: every node takes its inputs from nodes
    /// before it.
    pub open spec fn wf(&self) -> bool {
        &&& self.fades@.len() == self.nodes@.len()
        &&& forall|i: int| 0 <= i < self.nodes@.len() ==> (#[trigger] self.nodes@[i]).ok(i)
        &&& forall|i: int|
            0 <= i < self.nodes@.len() ==> (#[trigger] self.nodes@[i]).fade_ok(self.fades@[i])
    }

    /// Whether every clip that the graph plays is among the first
    /// `clip_count` clips.
    pub open spec fn fits(&self, clip_count: nat) -> bool {
        forall|i: int|
            0 <= i < self.nodes@.len() ==> (#[trigger] self.nodes@[i]).fits(clip_count as int)
    }

    /// Tells whether the graph is sound.
    pub fn check(&self) -> (sound: bool)
        ensures
            sound == self.wf(),
    {
        if self.fades.len() != self.nodes.len() {
            return false;
        }
        let mut i: usize = 0;
        while i < self.nodes.len()
            invariant
                i <= self.nodes@.len(),
                self.fades@.len() == self.nodes@.len(),
                forall|k: int| 0 <= k < i ==> (#[trigger] self.nodes@[k]).ok(k),
                forall|k: int| 0 <= k < i ==> (#[trigger] self.nodes@[k]).fade_ok(self.fades@[k]),
            decreases self.nodes@.len() - i,
        {
            if !self.nodes[i].check_inputs(i) || !self.nodes[i].check_fade(&self.fades[i]) {
                return false;
            }
            i += 1;
        }
        true
    }

    /// Tells whether every clip that the graph plays is among the first
    /// `clip_count` clips.
    pub fn check_clips(&self, clip_count: usize) -> (ok: bool)
        ensures
            ok == self.fits(clip_count as nat),
    {
        let mut i: usize = 0;
        while i < self.nodes.len()
            invariant
                i <= self.nodes@.len(),
                forall|k: int| 0 <= k < i ==> (#[trigger] self.nodes@[k]).fits(clip_count as int),
            decreases self.nodes@.len() - i,
        {
            if !self.nodes[i].check_clip(clip_count) {
                return false;
            }
            i += 1;
        }
        true
    }

    /// A graph without nodes.
    pub fn new() -> (graph: BlendGraph)
        ensures
            graph.nodes@.len() == 0,
            graph.wf(),
            forall|n: nat| graph.fits(n),
    {
        BlendGraph { nodes: Vec::new(), fades: Vec::new() }
    }

    /// The number of nodes.
    pub fn len(&self) -> (count: usize)
        ensures
            count == self.nodes@.len(),
    {
        self.nodes.len()
    }

    /// Adds a node at the end and tells its place. A node that names an
    /// input that is not before it, or a clip that is not among the first
    /// `clip_count`, is refused and the graph stays as it is.
    pub fn add_node(&mut self, node: PoseNode, clip_count: usize) -> (place: Option<usize>)
        requires
            old(self).wf(),
        ensures
            final(self).wf(),
            forall|n: nat| old(self).fits(n) && clip_count <= n ==> final(self).fits(n),
            match place {
                Some(i) => {
                    &&& node.ok(old(self).nodes@.len() as int)
                    &&& node.fits(clip_count as int)
                    &&& i == old(self).nodes@.len()
                    &&& final(self).nodes@ == old(self).nodes@.push(node)
                    &&& final(self).fades@ == old(self).fades@.push(
                        Fade { previous: None, elapsed: 0 },
                    )
                },
                None => {
                    &&& !(node.ok(old(self).nodes@.len() as int) && node.fits(clip_count as int))
                    &&& *final(self) == *old(self)
                },
            },
    {
        let place = self.nodes.len();
        if node.check(place, clip_count) {
            self.nodes.push(node);
            self.fades.push(Fade { previous: None, elapsed: 0 });
            proof {
                assert forall|n: nat| old(self).fits(n) && clip_count <= n implies self.fits(
                    n,
                ) by {
                    assert forall|i: int| 0 <= i < self.nodes@.len() implies (
                    #[trigger] self.nodes@[i]).fits(n as int) by {
                        if i < place {
                            assert(old(self).nodes@[i].fits(n as int));
                        }
                    }
                }
            }
            Some(place)
        } else {
            None
        }
    }

    /// Marks the nodes that are reached from `root`.
    pub fn reach_marks(&self, root: usize) -> (marks: Vec<bool>)
        requires
            self.wf(),
            root < self.nodes@.len(),
        ensures
            marks@.len() == self.nodes@.len(),
            forall|i: int|
                0 <= i < marks@.len() ==> marks@[i] == reached(self.nodes@, root as int, i),
    {
        let count = self.nodes.len();
        let mut marks: Vec<bool> = Vec::new();
        let mut i: usize = 0;
        while i < count
            invariant
                i <= count,
                marks@.len() == i,
                forall|k: int| 0 <= k < i ==> !marks@[k],
            decreases count - i,
        {
            marks.push(false);
            i += 1;
        }
        marks.set(root, true);
        let mut p: usize = root + 1;
        while p > 0
            invariant
                p <= root + 1,
                root < count,
                count == self.nodes@.len(),
                self.wf(),
                marks@.len() == count,
                marks@[root as int],
                forall|k: int|
                    0 <= k < count && marks@[k] ==> #[trigger] reached(
                        self.nodes@,
                        root as int,
                        k,
                    ),
                forall|k: int|
                    p <= k < count && #[trigger] reached(self.nodes@, root as int, k) ==> marks@[k],
                forall|q: int, j: int|
                    p <= q <= root && marks@[q] && 0 <= j < self.nodes@[q].children().len()
                        ==> marks@[#[trigger] self.nodes@[q].children()[j] as int],
            decreases p,
        {
            p -= 1;
            let node = &self.nodes[p];
            proof {
                if reached(self.nodes@, root as int, p as int) && p != root {
                    let parent = lemma_reached_parent(self.nodes@, root as int, p as int);
                    let j = choose|j: int|
                        0 <= j < self.nodes@[parent].children().len()
                            && self.nodes@[parent].children()[j] == p;
                    assert(marks@[parent]);
                    assert(marks@[self.nodes@[parent].children()[j] as int]);
                }
            }
            if marks[p] {
                let inputs = node.child_count();
                let mut j: usize = 0;
                while j < inputs
                    invariant
                        j <= inputs,
                        inputs == self.nodes@[p as int].children().len(),
                        p <= root < count,
                        count == self.nodes@.len(),
                        self.wf(),
                        *node == self.nodes@[p as int],
                        marks@.len() == count,
                        marks@[root as int],
                        marks@[p as int],
                        forall|k: int|
                            0 <= k < count && marks@[k] ==> #[trigger] reached(
                                self.nodes@,
                                root as int,
                                k,
                            ),
                        forall|k: int|
                            p <= k < count && #[trigger] reached(self.nodes@, root as int, k)
                                ==> marks@[k],
                        forall|q: int, j: int|
                            p < q <= root && marks@[q] && 0 <= j < self.nodes@[q].children().len()
                                ==> marks@[#[trigger] self.nodes@[q].children()[j] as int],
                        forall|k: int|
                            0 <= k < j ==> marks@[#[trigger] self.nodes@[p as int].children()[k] as int],
                    decreases inputs - j,
                {
                    let child = node.child_at(j);
                    proof {
                        assert(self.nodes@[p as int].ok(p as int));
                        assert(self.nodes@[p as int].children()[j as int] < p);
                        assert(reached(self.nodes@, root as int, p as int));
                        lemma_reached_child(self.nodes@, root as int, p as int, j as int);
                    }
                    marks.set(child, true);
                    j += 1;
                }
            }
        }
        proof {
            assert forall|i: int| 0 <= i < marks@.len() implies marks@[i] == reached(
                self.nodes@,
                root as int,
                i,
            ) by {
                if reached(self.nodes@, root as int, i) {
                    assert(marks@[i]);
                }
            }
        }
        marks
    }

    /// Marks the clips that are played by nodes reached from `root`.
    pub fn clip_marks(&self, root: usize, clip_count: usize) -> (marks: Vec<bool>)
        requires
            self.wf(),
            self.fits(clip_count as nat),
            root < self.nodes@.len(),
        ensures
            marks@.len() == clip_count,
            forall|c: usize|
                c < clip_count ==> marks@[c as int] == #[trigger] plays_clip(
                    self.nodes@,
                    root as int,
                    c,
                ),
    {
        let reach = self.reach_marks(root);
        let mut marks: Vec<bool> = Vec::new();
        let mut c: usize = 0;
        while c < clip_count
            invariant
                c <= clip_count,
                marks@.len() == c,
                forall|k: int| 0 <= k < c ==> !marks@[k],
            decreases clip_count - c,
        {
            marks.push(false);
            c += 1;
        }
        let count = self.nodes.len();
        let mut i: usize = 0;
        proof {
            assert forall|k: usize| k < clip_count implies marks@[k as int] == #[trigger] played_below(
                self.nodes@,
                root as int,
                0,
                k,
            ) by {}
        }
        while i < count
            invariant
                i <= count,
                count == self.nodes@.len(),
                self.fits(clip_count as nat),
                reach@.len() == count,
                forall|k: int| 0 <= k < count ==> reach@[k] == reached(self.nodes@, root as int, k),
                marks@.len() == clip_count,
                forall|k: usize|
                    k < clip_count ==> marks@[k as int] == #[trigger] played_below(
                        self.nodes@,
                        root as int,
                        i as int,
                        k,
                    ),
            decreases count - i,
        {
            proof {
                assert forall|k: usize| k < clip_count implies #[trigger] played_below(
                    self.nodes@,
                    root as int,
                    i + 1,
                    k,
                ) == (played_below(self.nodes@, root as int, i as int, k) || (reached(
                    self.nodes@,
                    root as int,
                    i as int,
                ) && self.nodes@[i as int].plays(k))) by {
                    lemma_played_below_step(self.nodes@, root as int, i as int, k);
                }
                assert(self.nodes@[i as int].fits(clip_count as int));
            }
            if reach[i] {
                if let PoseNode::PlayClip { clip } = &self.nodes[i] {
                    marks.set(*clip, true);
                }
            }
            i += 1;
        }
        marks
    }

    /// Enters the state with root `root`: puts every clip that the state plays
    /// at its start and enables it.
    pub fn enter_state(&self, root: usize, clips: &mut Vec<Clip>)
        requires
            self.wf(),
            self.fits(old(clips)@.len()),
            root < self.nodes@.len(),
            clips_ok(old(clips)@),
        ensures
            clips_ok(final(clips)@),
            final(clips)@ == entered(old(clips)@, self.nodes@, root as int),
    {
        let count = clips.len();
        let marks = self.clip_marks(root, count);
        let mut c: usize = 0;
        while c < count
            invariant
                c <= count,
                count == clips@.len(),
                count == old(clips)@.len(),
                clips_ok(clips@),
                marks@.len() == count,
                forall|k: usize|
                    k < count ==> marks@[k as int] == #[trigger] plays_clip(
                        self.nodes@,
                        root as int,
                        k,
                    ),
                forall|k: int|
                    0 <= k < c ==> clips@[k] == entered(old(clips)@, self.nodes@, root as int)[k],
                forall|k: int| c <= k < count ==> clips@[k] == old(clips)@[k],
            decreases count - c,
        {
            if marks[c] {
                assert(clips@[c as int].wf());
                clips[c].rewind();
                clips[c].set_enabled(true);
            }
            c += 1;
        }
        assert(clips@ =~= entered(old(clips)@, self.nodes@, root as int));
    }

    /// Leaves the state with root `source` for the state with root `target`:
    /// disables every clip that the state left plays and the state entered
    /// does not.
    pub fn leave_state(&self, source: usize, target: usize, clips: &mut Vec<Clip>)
        requires
            self.wf(),
            self.fits(old(clips)@.len()),
            source < self.nodes@.len(),
            target < self.nodes@.len(),
            clips_ok(old(clips)@),
        ensures
            clips_ok(final(clips)@),
            final(clips)@ == left(old(clips)@, self.nodes@, source as int, target as int),
    {
        let count = clips.len();
        let from = self.clip_marks(source, count);
        let to = self.clip_marks(target, count);
        let mut c: usize = 0;
        while c < count
            invariant
                c <= count,
                count == clips@.len(),
                count == old(clips)@.len(),
                clips_ok(clips@),
                from@.len() == count,
                to@.len() == count,
                forall|k: usize|
                    k < count ==> from@[k as int] == #[trigger] plays_clip(
                        self.nodes@,
                        source as int,
                        k,
                    ),
                forall|k: usize|
                    k < count ==> to@[k as int] == #[trigger] plays_clip(
                        self.nodes@,
                        target as int,
                        k,
                    ),
                forall|k: int|
                    0 <= k < c ==> clips@[k] == left(
                        old(clips)@,
                        self.nodes@,
                        source as int,
                        target as int,
                    )[k],
                forall|k: int| c <= k < count ==> clips@[k] == old(clips)@[k],
            decreases count - c,
        {
            if from[c] && !to[c] {
                assert(clips@[c as int].wf());
                clips[c].set_enabled(false);
            }
            c += 1;
        }
        assert(clips@ =~= left(old(clips)@, self.nodes@, source as int, target as int));
    }

    /// Evaluates every node once, in order, for a frame of `dt` milliseconds:
    /// clips that are played move through the frame, choosing nodes run
    /// their cross-fades on, and each node gives its pose.
    pub fn evaluate(&mut self, clips: &mut Vec<Clip>, params: &ParameterTable, dt: u32) -> (outputs:
        Vec<NodeOutput>)
        requires
            old(self).wf(),
            old(self).fits(old(clips)@.len()),
            clips_ok(old(clips)@),
        ensures
            final(self).wf(),
            clips_ok(final(clips)@),
            final(self).nodes == old(self).nodes,
            final(clips)@.len() == old(clips)@.len(),
            outputs@.len() == old(self).nodes@.len(),
            ({
                let e = evaluated(
                    old(self).nodes@,
                    old(self).fades@,
                    old(clips)@,
                    params@,
                    dt,
                    old(self).nodes@.len() as int,
                );
                &&& final(self).fades@ == e.fades
                &&& final(clips)@ == e.clips
                &&& views(outputs@) == e.outputs
            }),
    {
        let mut outputs: Vec<NodeOutput> = Vec::new();
        let count = self.nodes.len();
        let mut i: usize = 0;
        assert(views(outputs@) =~= Seq::<Output>::empty());
        while i < count
            invariant
                i <= count,
                count == self.nodes@.len(),
                self.nodes == old(self).nodes,
                self.wf(),
                self.fits(clips@.len()),
                clips_ok(clips@),
                clips@.len() == old(clips)@.len(),
                outputs@.len() == i,
                ({
                    let e = evaluated(
                        old(self).nodes@,
                        old(self).fades@,
                        old(clips)@,
                        params@,
                        dt,
                        i as int,
                    );
                    &&& self.fades@ == e.fades
                    &&& clips@ == e.clips
                    &&& views(outputs@) == e.outputs
                }),
            decreases count - i,
        {
            let ghost before = evaluated(
                old(self).nodes@,
                old(self).fades@,
                old(clips)@,
                params@,
                dt,
                i as int,
            );
            let ghost seen = outputs@;
            assert(self.nodes@[i as int].ok(i as int));
            assert(self.nodes@[i as int].fits(clips@.len() as int));
            assert(self.nodes@[i as int].fade_ok(self.fades@[i as int]));
            let output = match &self.nodes[i] {
                PoseNode::PlayClip { clip } => {
                    let c = *clip;
                    let ghost was = clips@[c as int];
                    assert(was.wf());
                    let fired = clips[c].advance(dt);
                    let term = PoseTerm { clip: c, time: clips[c].time, weight: WEIGHT_ONE };
                    let mut pose: Vec<PoseTerm> = Vec::new();
                    pose.push(term);
                    proof {
                        assert(clips@[c as int] == advanced(was, dt));
                        assert(clips@ =~= before.clips.update(c as int, advanced(was, dt)));
                        assert(fired@ =~= fired_counts(was, dt));
                        assert(pose@ =~= seq![term]);
                    }
                    NodeOutput { pose, fired }
                },
                PoseNode::BlendWeighted { inputs } => {
                    assert forall|j: int| 0 <= j < inputs@.len() implies (#[trigger] inputs@[j]).child
                        < outputs@.len() by {
                        assert(self.nodes@[i as int].children()[j] < i);
                    }
                    let pose = weighted_output(inputs, &outputs, params);
                    NodeOutput { pose, fired: Vec::new() }
                },
                PoseNode::BlendIndexed { parameter, choices } => {
                    assert forall|j: int| 0 <= j < choices@.len() implies (
                    #[trigger] choices@[j]).child < outputs@.len() by {
                        assert(self.nodes@[i as int].children()[j] < i);
                    }
                    let index = params.index(parameter.as_str());
                    let (fade, pose) = indexed_output(choices, self.fades[i], &outputs, index, dt);
                    self.fades.set(i, fade);
                    proof {
                        assert(self.fades@ =~= before.fades.update(i as int, fade));
                    }
                    NodeOutput { pose, fired: Vec::new() }
                },
            };
            outputs.push(output);
            proof {
                let after = evaluated_node(old(self).nodes@[i as int], before, params@, dt);
                assert(views(outputs@) =~= views(seen).push(output@));
                assert(views(outputs@) =~= after.outputs);
                assert(self.fades@ =~= after.fades);
                assert(clips@ =~= after.clips);
                assert forall|k: int| 0 <= k < self.nodes@.len() implies (
                #[trigger] self.nodes@[k]).fade_ok(self.fades@[k]) by {
                    if k != i {
                        assert(old(self).nodes@[k].fade_ok(before.fades[k]));
                    }
                }
            }
            i += 1;
        }
        outputs
    }
}

} // verus!
