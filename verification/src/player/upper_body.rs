//! The machine that animates the upper body of a fighter: standing,
//! walking, jumping, falling, aiming, throwing, changing weapons, being hit
//! and dying.
//!
//! The machine is one layer of eleven states over seventeen clips. In each
//! frame it is told what the fighter does; from that, and from which clips
//! had played to their end when the frame began, it writes the frame's
//! table of rules, weights and indices, and takes the layer through the
//! frame.

use crate::clip::{Clip, Signal, SPEED_UNIT};
use crate::graph::{
    check_clips,
    clips_ok,
    same_setup,
    views,
    Fade,
    IndexedInput,
    NodeOutput,
    PoseNode,
    WeightSource,
    WeightedInput,
};
use crate::layer::{
    fires,
    first_firing,
    lemma_first_firing,
    lemma_one_transition_at_a_time,
    lemma_phase_after_ok,
    lemma_quiet_phase_is_kept,
    lemma_state_without_exit_is_kept,
    phase_after,
    phase_ok,
    transitions_ok,
    Layer,
    LayerPhase,
    State,
    Transition,
};
use crate::parameter::{rule_holds, Parameter, ParameterTable};
use crate::pose::{PoseTerm, WEIGHT_ONE};
use vstd::prelude::*;

verus! {

/// The signal of the moment in which the hand closes on the new weapon.
pub const GRAB_WEAPON_SIGNAL: u128 = 0x4b80a4ac_b782_44c6_a6d6_cdead72f5369;

/// The signal of the moment in which the old weapon is stowed.
pub const PUT_BACK_WEAPON_END_SIGNAL: u128 = 0xa923cabd_da6a_43ca_85cc_861370b1669a;

/// The signal of the moment in which the grenade leaves the hand.
pub const TOSS_GRENADE_SIGNAL: u128 = 0xce07b80a_e099_4cc5_8361_43d6631f431c;

/// Where on its clip the hand closes on the new weapon, in microseconds.
pub const GRAB_WEAPON_TIME: u64 = 300_000;

/// Where on its clip the grenade leaves the hand, in microseconds.
pub const TOSS_GRENADE_TIME: u64 = 1_700_000;

/// The run factor, in thousandths, above which a walk is a run.
pub const RUN_THRESHOLD: u32 = 100;

/// The number of the state HitReaction.
pub const HIT_REACTION_STATE: usize = 0;

/// The number of the state Aim.
pub const AIM_STATE: usize = 1;

/// The number of the state TossGrenade.
pub const TOSS_GRENADE_STATE: usize = 2;

/// The number of the state Idle.
pub const IDLE_STATE: usize = 3;

/// The number of the state Jump.
pub const JUMP_STATE: usize = 4;

/// The number of the state Fall.
pub const FALL_STATE: usize = 5;

/// The number of the state Land.
pub const LAND_STATE: usize = 6;

/// The number of the state PutBack.
pub const PUT_BACK_STATE: usize = 7;

/// The number of the state Grab.
pub const GRAB_STATE: usize = 8;

/// The number of the state Dying.
pub const DYING_STATE: usize = 9;

/// The number of the state Walk.
pub const WALK_STATE: usize = 10;

/// The number of the clip of the hit, with a rifle.
pub const HIT_REACTION_RIFLE_CLIP: usize = 0;

/// The number of the clip of the hit, with a pistol.
pub const HIT_REACTION_PISTOL_CLIP: usize = 1;

/// The number of the clip of aiming a rifle.
pub const AIM_RIFLE_CLIP: usize = 2;

/// The number of the clip of aiming a pistol.
pub const AIM_PISTOL_CLIP: usize = 3;

/// The number of the clip of the throw of a grenade.
pub const TOSS_GRENADE_CLIP: usize = 4;

/// The number of the clip of standing.
pub const IDLE_CLIP: usize = 5;

/// The number of the clip of standing with a pistol.
pub const IDLE_PISTOL_CLIP: usize = 6;

/// The number of the clip of the jump.
pub const JUMP_CLIP: usize = 7;

/// The number of the clip of the fall.
pub const FALL_CLIP: usize = 8;

/// The number of the clip of the landing.
pub const LAND_CLIP: usize = 9;

/// The number of the clip of stowing the weapon.
pub const PUT_BACK_CLIP: usize = 10;

/// The number of the clip of taking the new weapon.
pub const GRAB_CLIP: usize = 11;

/// The number of the clip of dying.
pub const DYING_CLIP: usize = 12;

/// The number of the clip of the walk.
pub const WALK_CLIP: usize = 13;

/// The number of the clip of the walk with a pistol.
pub const WALK_PISTOL_CLIP: usize = 14;

/// The number of the clip of the run.
pub const RUN_CLIP: usize = 15;

/// The number of the clip of the run with a pistol.
pub const RUN_PISTOL_CLIP: usize = 16;

/// The number of states.
pub const STATE_COUNT: usize = 11;

/// The number of clips.
pub const CLIP_COUNT: usize = 17;

/// The number of nodes.
pub const NODE_COUNT: usize = 21;

/// The number of transitions.
pub const TRANSITION_COUNT: usize = 40;

/// The name of the rule IdleToWalk.
pub const IDLE_TO_WALK: &'static str = "IdleToWalk";

/// The name of the rule WalkToIdle.
pub const WALK_TO_IDLE: &'static str = "WalkToIdle";

/// The name of the rule WalkToJump.
pub const WALK_TO_JUMP: &'static str = "WalkToJump";

/// The name of the rule IdleToJump.
pub const IDLE_TO_JUMP: &'static str = "IdleToJump";

/// The name of the rule JumpToFall.
pub const JUMP_TO_FALL: &'static str = "JumpToFall";

/// The name of the rule WalkToFall.
pub const WALK_TO_FALL: &'static str = "WalkToFall";

/// The name of the rule IdleToFall.
pub const IDLE_TO_FALL: &'static str = "IdleToFall";

/// The name of the rule FallToLand.
pub const FALL_TO_LAND: &'static str = "FallToLand";

/// The name of the rule LandToIdle.
pub const LAND_TO_IDLE: &'static str = "LandToIdle";

/// The name of the rule IdleToAim.
pub const IDLE_TO_AIM: &'static str = "IdleToAim";

/// The name of the rule WalkToAim.
pub const WALK_TO_AIM: &'static str = "WalkToAim";

/// The name of the rule AimToIdle.
pub const AIM_TO_IDLE: &'static str = "AimToIdle";

/// The name of the rule AimToWalk.
pub const AIM_TO_WALK: &'static str = "AimToWalk";

/// The name of the rule AimToPutBack.
pub const AIM_TO_PUT_BACK: &'static str = "AimToPutBack";

/// The name of the rule WalkToPutBack.
pub const WALK_TO_PUT_BACK: &'static str = "WalkToPutBack";

/// The name of the rule IdleToPutBack.
pub const IDLE_TO_PUT_BACK: &'static str = "IdleToPutBack";

/// The name of the rule PutBackToIdle.
pub const PUT_BACK_TO_IDLE: &'static str = "PutBackToIdle";

/// The name of the rule PutBackToWalk.
pub const PUT_BACK_TO_WALK: &'static str = "PutBackToWalk";

/// The name of the rule PutBackToGrab.
pub const PUT_BACK_TO_GRAB: &'static str = "PutBackToGrab";

/// The name of the rule GrabToIdle.
pub const GRAB_TO_IDLE: &'static str = "GrabToIdle";

/// The name of the rule GrabToWalk.
pub const GRAB_TO_WALK: &'static str = "GrabToWalk";

/// The name of the rule GrabToAim.
pub const GRAB_TO_AIM: &'static str = "GrabToAim";

/// The name of the weight PistolAimFactor.
pub const PISTOL_AIM_FACTOR: &'static str = "PistolAimFactor";

/// The name of the weight RifleAimFactor.
pub const RIFLE_AIM_FACTOR: &'static str = "RifleAimFactor";

/// The name of the index HitReactionWeaponKind.
pub const HIT_REACTION_WEAPON_KIND: &'static str = "HitReactionWeaponKind";

/// The name of the rule IdleToHitReaction.
pub const IDLE_TO_HIT_REACTION: &'static str = "IdleToHitReaction";

/// The name of the rule WalkToHitReaction.
pub const WALK_TO_HIT_REACTION: &'static str = "WalkToHitReaction";

/// The name of the rule AimToHitReaction.
pub const AIM_TO_HIT_REACTION: &'static str = "AimToHitReaction";

/// The name of the rule HitReactionToIdle.
pub const HIT_REACTION_TO_IDLE: &'static str = "HitReactionToIdle";

/// The name of the rule HitReactionToWalk.
pub const HIT_REACTION_TO_WALK: &'static str = "HitReactionToWalk";

/// The name of the rule HitReactionToDying.
pub const HIT_REACTION_TO_DYING: &'static str = "HitReactionToDying";

/// The name of the rule HitReactionToAim.
pub const HIT_REACTION_TO_AIM: &'static str = "HitReactionToAim";

/// The name of the rule LandToDying.
pub const LAND_TO_DYING: &'static str = "LandToDying";

/// The name of the rule IdleToDying.
pub const IDLE_TO_DYING: &'static str = "IdleToDying";

/// The name of the rule FallToDying.
pub const FALL_TO_DYING: &'static str = "FallToDying";

/// The name of the rule WalkToDying.
pub const WALK_TO_DYING: &'static str = "WalkToDying";

/// The name of the rule JumpToDying.
pub const JUMP_TO_DYING: &'static str = "JumpToDying";

/// The name of the rule AimToDying.
pub const AIM_TO_DYING: &'static str = "AimToDying";

/// The name of the rule TossGrenadeToDying.
pub const TOSS_GRENADE_TO_DYING: &'static str = "TossGrenadeToDying";

/// The name of the rule GrabToDying.
pub const GRAB_TO_DYING: &'static str = "GrabToDying";

/// The name of the rule PutBackToDying.
pub const PUT_BACK_TO_DYING: &'static str = "PutBackToDying";

/// The name of the index WalkStateWeaponKind. The walk state reads its index
/// under the name that the idle state uses, so of the two values written in
/// a frame the one written last, the idle state's, is what both read.
pub const WALK_STATE_WEAPON_KIND: &'static str = "IdleStateWeaponKind";

/// The name of the rule TossGrenadeToAim.
pub const TOSS_GRENADE_TO_AIM: &'static str = "TossGrenadeToAim";

/// The name of the rule AimToTossGrenade.
pub const AIM_TO_TOSS_GRENADE: &'static str = "AimToTossGrenade";

/// The name of the index IdleStateWeaponKind.
pub const IDLE_STATE_WEAPON_KIND: &'static str = "IdleStateWeaponKind";

/// The kind of weapon a fighter holds, as far as the pose depends on it.
#[derive(Copy, Clone, Debug, PartialEq, Eq, Structural)]
pub enum CombatWeaponKind {
    Pistol,
    Rifle,
}

/// What the machine is told in each frame.
#[derive(Copy, Clone, Debug, PartialEq, Eq, Structural)]
pub struct UpperBodyMachineInput {
    pub is_walking: bool,
    pub is_jumping: bool,
    /// How much of a run the walk is, in thousandths.
    pub run_factor: u32,
    pub has_ground_contact: bool,
    pub is_aiming: bool,
    pub toss_grenade: bool,
    pub weapon_kind: CombatWeaponKind,
    pub change_weapon: bool,
    pub is_dead: bool,
    pub should_be_stunned: bool,
}

/// Which clips had played to their end when a frame began.
#[derive(Copy, Clone, Debug, PartialEq, Eq, Structural)]
pub struct CompletionFacts {
    pub jump_ended: bool,
    pub land_ended: bool,
    pub put_back_ended: bool,
    pub grab_ended: bool,
    pub toss_grenade_ended: bool,
    /// Whether the clip of the hit, for the weapon held, had ended.
    pub hit_reaction_ended: bool,
}

/// The lengths of the seventeen clips, in microseconds.
#[derive(Copy, Clone, Debug, PartialEq, Eq, Structural)]
pub struct AnimationLengths {
    pub hit_reaction_rifle: u64,
    pub hit_reaction_pistol: u64,
    pub aim_rifle: u64,
    pub aim_pistol: u64,
    pub toss_grenade: u64,
    pub idle: u64,
    pub idle_pistol: u64,
    pub jump: u64,
    pub falling: u64,
    pub landing: u64,
    pub put_back: u64,
    pub grab: u64,
    pub dying: u64,
    pub walk: u64,
    pub walk_pistol: u64,
    pub run: u64,
    pub run_pistol: u64,
}

impl AnimationLengths {
    /// Clips without length.
    pub open spec fn spec_zero() -> AnimationLengths {
        AnimationLengths {
            hit_reaction_rifle: 0,
            hit_reaction_pistol: 0,
            aim_rifle: 0,
            aim_pistol: 0,
            toss_grenade: 0,
            idle: 0,
            idle_pistol: 0,
            jump: 0,
            falling: 0,
            landing: 0,
            put_back: 0,
            grab: 0,
            dying: 0,
            walk: 0,
            walk_pistol: 0,
            run: 0,
            run_pistol: 0,
        }
    }
}

impl Default for AnimationLengths {
    fn default() -> (lengths: AnimationLengths)
        ensures
            lengths == AnimationLengths::spec_zero(),
    {
        AnimationLengths {
            hit_reaction_rifle: 0,
            hit_reaction_pistol: 0,
            aim_rifle: 0,
            aim_pistol: 0,
            toss_grenade: 0,
            idle: 0,
            idle_pistol: 0,
            jump: 0,
            falling: 0,
            landing: 0,
            put_back: 0,
            grab: 0,
            dying: 0,
            walk: 0,
            walk_pistol: 0,
            run: 0,
            run_pistol: 0,
        }
    }
}

/// The state Idle as it was added to a layer.
pub struct IdleStateDefinition {
    /// The number of the state.
    pub state: usize,
}

/// The state Walk as it was added to a layer.
pub struct WalkStateDefinition {
    /// The number of the state.
    pub state: usize,
    pub walk_animation: usize,
    pub run_animation: usize,
}

/// The state HitReaction as it was added to a layer.
pub struct HitReactionStateDefinition {
    /// The number of the state.
    pub state: usize,
    pub hit_reaction_rifle_animation: usize,
    pub hit_reaction_pistol_animation: usize,
}

/// One line of the table of transitions.
pub ghost struct TransitionRow {
    pub name: Seq<char>,
    pub source: usize,
    pub target: usize,
    pub duration: u32,
    pub rule: Seq<char>,
}

/// One line of the table of states.
pub ghost struct StateRow {
    pub name: Seq<char>,
    pub root: usize,
}

/// One signal of a clip as the machine sets it up.
pub ghost struct SignalRow {
    pub id: u128,
    pub name: Seq<char>,
    pub time: u64,
}

/// One clip as the machine sets it up.
pub ghost struct ClipRow {
    pub length: u64,
    pub speed: u32,
    pub looped: bool,
    pub enabled: bool,
    pub signals: Seq<SignalRow>,
}

/// One node as the machine sets it up.
pub ghost enum NodeRow {
    /// Plays the clip.
    Play(usize),
    /// Mixes the two nodes, each weighted by the parameter named with it.
    Mix(Seq<char>, usize, Seq<char>, usize),
    /// Chooses among the nodes by the index with this name; a change fades
    /// for the given time.
    Choose(Seq<char>, u32, Seq<usize>),
}

/// Whether `node` chooses among `choices` by the index named `parameter`.
pub open spec fn is_indexed(node: PoseNode, parameter: Seq<char>, choices: Seq<IndexedInput>)
    -> bool {
    node matches PoseNode::BlendIndexed { parameter: p, choices: c } && p@ == parameter && c@
        == choices
}

/// Whether `node` mixes two inputs, the node `first` weighted by the
/// parameter named `first_weight` and the node `second` weighted by the one
/// named `second_weight`.
pub open spec fn is_mix(
    node: PoseNode,
    first_weight: Seq<char>,
    first: usize,
    second_weight: Seq<char>,
    second: usize,
) -> bool {
    node matches PoseNode::BlendWeighted { inputs } && inputs@.len() == 2 && inputs@[0].child
        == first && inputs@[1].child == second && (inputs@[0].weight matches WeightSource::Parameter(
        a,
    ) && a@ == first_weight) && (inputs@[1].weight matches WeightSource::Parameter(b) && b@
        == second_weight)
}

/// The choices of a node that chooses among `children`, each with the same
/// fade time.
pub open spec fn choices_of(blend_time: u32, children: Seq<usize>) -> Seq<IndexedInput> {
    Seq::new(children.len(), |j: int| IndexedInput { blend_time, child: children[j] })
}

/// Whether `node` is the node that `row` describes.
pub open spec fn node_matches(node: PoseNode, row: NodeRow) -> bool {
    match row {
        NodeRow::Play(clip) => node.plays(clip) && node is PlayClip,
        NodeRow::Mix(first_weight, first, second_weight, second) => is_mix(
            node,
            first_weight,
            first,
            second_weight,
            second,
        ),
        NodeRow::Choose(parameter, blend_time, children) => is_indexed(
            node,
            parameter,
            choices_of(blend_time, children),
        ),
    }
}

/// Whether `clip` is set up as `row` says and stands at its start.
pub open spec fn clip_matches(clip: Clip, row: ClipRow) -> bool {
    &&& clip.length == row.length
    &&& clip.time == 0
    &&& clip.speed == row.speed
    &&& clip.looped == row.looped
    &&& clip.enabled == row.enabled
    &&& clip.signals@.len() == row.signals.len()
    &&& forall|j: int|
        0 <= j < row.signals.len() ==> (#[trigger] clip.signals@[j]).id == row.signals[j].id
            && clip.signals@[j].name@ == row.signals[j].name && clip.signals@[j].time
            == row.signals[j].time
}

/// Whether `transition` is the transition that `row` describes.
pub open spec fn transition_matches(transition: Transition, row: TransitionRow) -> bool {
    &&& transition.name@ == row.name
    &&& transition.source == row.source
    &&& transition.target == row.target
    &&& transition.duration == row.duration
    &&& transition.rule@ == row.rule
}

/// The table of states: the name of each state and the node it shows.
pub open spec fn state_row(s: int) -> StateRow {
    if s == HIT_REACTION_STATE {
        StateRow { name: "HitReaction"@, root: 2 }
    } else if s == AIM_STATE {
        StateRow { name: "Aim"@, root: 5 }
    } else if s == TOSS_GRENADE_STATE {
        StateRow { name: "TossGrenade"@, root: 6 }
    } else if s == IDLE_STATE {
        StateRow { name: "Idle"@, root: 9 }
    } else if s == JUMP_STATE {
        StateRow { name: "Jump"@, root: 10 }
    } else if s == FALL_STATE {
        StateRow { name: "Fall"@, root: 11 }
    } else if s == LAND_STATE {
        StateRow { name: "Land"@, root: 12 }
    } else if s == PUT_BACK_STATE {
        StateRow { name: "PutBack"@, root: 13 }
    } else if s == GRAB_STATE {
        StateRow { name: "Grab"@, root: 14 }
    } else if s == DYING_STATE {
        StateRow { name: "Dying"@, root: 15 }
    } else {
        StateRow { name: "Walk"@, root: 20 }
    }
}

/// The table of transitions, in the order in which they are tried: the
/// name of each transition, the states it joins, the time its blend takes
/// in milliseconds, and the rule that lets it begin.
pub open spec fn transition_row(t: int) -> TransitionRow {
    if t == 0 {
        TransitionRow {
            name: "Walk->Idle"@,
            source: WALK_STATE,
            target: IDLE_STATE,
            duration: 300,
            rule: WALK_TO_IDLE@,
        }
    } else if t == 1 {
        TransitionRow {
            name: "Walk->Jump"@,
            source: WALK_STATE,
            target: JUMP_STATE,
            duration: 200,
            rule: WALK_TO_JUMP@,
        }
    } else if t == 2 {
        TransitionRow {
            name: "Idle->Walk"@,
            source: IDLE_STATE,
            target: WALK_STATE,
            duration: 400,
            rule: IDLE_TO_WALK@,
        }
    } else if t == 3 {
        TransitionRow {
            name: "Idle->Jump"@,
            source: IDLE_STATE,
            target: JUMP_STATE,
            duration: 250,
            rule: IDLE_TO_JUMP@,
        }
    } else if t == 4 {
        TransitionRow {
            name: "Falling->Landing"@,
            source: FALL_STATE,
            target: LAND_STATE,
            duration: 200,
            rule: FALL_TO_LAND@,
        }
    } else if t == 5 {
        TransitionRow {
            name: "Landing->Idle"@,
            source: LAND_STATE,
            target: IDLE_STATE,
            duration: 200,
            rule: LAND_TO_IDLE@,
        }
    } else if t == 6 {
        TransitionRow {
            name: "Jump->Falling"@,
            source: JUMP_STATE,
            target: FALL_STATE,
            duration: 300,
            rule: JUMP_TO_FALL@,
        }
    } else if t == 7 {
        TransitionRow {
            name: "Walk->Falling"@,
            source: WALK_STATE,
            target: FALL_STATE,
            duration: 300,
            rule: WALK_TO_FALL@,
        }
    } else if t == 8 {
        TransitionRow {
            name: "Idle->Falling"@,
            source: IDLE_STATE,
            target: FALL_STATE,
            duration: 200,
            rule: IDLE_TO_FALL@,
        }
    } else if t == 9 {
        TransitionRow {
            name: "Idle->Aim"@,
            source: IDLE_STATE,
            target: AIM_STATE,
            duration: 200,
            rule: IDLE_TO_AIM@,
        }
    } else if t == 10 {
        TransitionRow {
            name: "Walk->Aim"@,
            source: WALK_STATE,
            target: AIM_STATE,
            duration: 200,
            rule: WALK_TO_AIM@,
        }
    } else if t == 11 {
        TransitionRow {
            name: "Aim->Idle"@,
            source: AIM_STATE,
            target: IDLE_STATE,
            duration: 200,
            rule: AIM_TO_IDLE@,
        }
    } else if t == 12 {
        TransitionRow {
            name: "Walk->Aim"@,
            source: AIM_STATE,
            target: WALK_STATE,
            duration: 200,
            rule: AIM_TO_WALK@,
        }
    } else if t == 13 {
        TransitionRow {
            name: "Aim->TossGrenade"@,
            source: AIM_STATE,
            target: TOSS_GRENADE_STATE,
            duration: 200,
            rule: AIM_TO_TOSS_GRENADE@,
        }
    } else if t == 14 {
        TransitionRow {
            name: "TossGrenade->Aim"@,
            source: TOSS_GRENADE_STATE,
            target: AIM_STATE,
            duration: 200,
            rule: TOSS_GRENADE_TO_AIM@,
        }
    } else if t == 15 {
        TransitionRow {
            name: "Aim->PutBack"@,
            source: AIM_STATE,
            target: PUT_BACK_STATE,
            duration: 100,
            rule: AIM_TO_PUT_BACK@,
        }
    } else if t == 16 {
        TransitionRow {
            name: "Walk->PutBack"@,
            source: WALK_STATE,
            target: PUT_BACK_STATE,
            duration: 100,
            rule: WALK_TO_PUT_BACK@,
        }
    } else if t == 17 {
        TransitionRow {
            name: "Idle->PutBack"@,
            source: IDLE_STATE,
            target: PUT_BACK_STATE,
            duration: 100,
            rule: IDLE_TO_PUT_BACK@,
        }
    } else if t == 18 {
        TransitionRow {
            name: "PutBack->Idle"@,
            source: PUT_BACK_STATE,
            target: IDLE_STATE,
            duration: 200,
            rule: PUT_BACK_TO_IDLE@,
        }
    } else if t == 19 {
        TransitionRow {
            name: "PutBack->Walk"@,
            source: PUT_BACK_STATE,
            target: WALK_STATE,
            duration: 200,
            rule: PUT_BACK_TO_WALK@,
        }
    } else if t == 20 {
        TransitionRow {
            name: "PutBack->Grab"@,
            source: PUT_BACK_STATE,
            target: GRAB_STATE,
            duration: 100,
            rule: PUT_BACK_TO_GRAB@,
        }
    } else if t == 21 {
        TransitionRow {
            name: "Grab->Idle"@,
            source: GRAB_STATE,
            target: IDLE_STATE,
            duration: 200,
            rule: GRAB_TO_IDLE@,
        }
    } else if t == 22 {
        TransitionRow {
            name: "Grab->Walk"@,
            source: GRAB_STATE,
            target: WALK_STATE,
            duration: 200,
            rule: GRAB_TO_WALK@,
        }
    } else if t == 23 {
        TransitionRow {
            name: "Grab->Aim"@,
            source: GRAB_STATE,
            target: AIM_STATE,
            duration: 200,
            rule: GRAB_TO_AIM@,
        }
    } else if t == 24 {
        TransitionRow {
            name: "Land->Dying"@,
            source: LAND_STATE,
            target: DYING_STATE,
            duration: 200,
            rule: LAND_TO_DYING@,
        }
    } else if t == 25 {
        TransitionRow {
            name: "Fall->Dying"@,
            source: FALL_STATE,
            target: DYING_STATE,
            duration: 200,
            rule: FALL_TO_DYING@,
        }
    } else if t == 26 {
        TransitionRow {
            name: "Idle->Dying"@,
            source: IDLE_STATE,
            target: DYING_STATE,
            duration: 200,
            rule: IDLE_TO_DYING@,
        }
    } else if t == 27 {
        TransitionRow {
            name: "Walk->Dying"@,
            source: WALK_STATE,
            target: DYING_STATE,
            duration: 200,
            rule: WALK_TO_DYING@,
        }
    } else if t == 28 {
        TransitionRow {
            name: "Jump->Dying"@,
            source: JUMP_STATE,
            target: DYING_STATE,
            duration: 200,
            rule: JUMP_TO_DYING@,
        }
    } else if t == 29 {
        TransitionRow {
            name: "Aim->Dying"@,
            source: AIM_STATE,
            target: DYING_STATE,
            duration: 200,
            rule: AIM_TO_DYING@,
        }
    } else if t == 30 {
        TransitionRow {
            name: "TossGrenade->Dying"@,
            source: TOSS_GRENADE_STATE,
            target: DYING_STATE,
            duration: 200,
            rule: TOSS_GRENADE_TO_DYING@,
        }
    } else if t == 31 {
        TransitionRow {
            name: "Grab->Dying"@,
            source: GRAB_STATE,
            target: DYING_STATE,
            duration: 200,
            rule: GRAB_TO_DYING@,
        }
    } else if t == 32 {
        TransitionRow {
            name: "PutBack->Dying"@,
            source: PUT_BACK_STATE,
            target: DYING_STATE,
            duration: 200,
            rule: PUT_BACK_TO_DYING@,
        }
    } else if t == 33 {
        TransitionRow {
            name: "Idle->HitReaction"@,
            source: IDLE_STATE,
            target: HIT_REACTION_STATE,
            duration: 200,
            rule: IDLE_TO_HIT_REACTION@,
        }
    } else if t == 34 {
        TransitionRow {
            name: "Walk->HitReaction"@,
            source: WALK_STATE,
            target: HIT_REACTION_STATE,
            duration: 200,
            rule: WALK_TO_HIT_REACTION@,
        }
    } else if t == 35 {
        TransitionRow {
            name: "HitReaction->Idle"@,
            source: HIT_REACTION_STATE,
            target: IDLE_STATE,
            duration: 200,
            rule: HIT_REACTION_TO_IDLE@,
        }
    } else if t == 36 {
        TransitionRow {
            name: "HitReaction->Walk"@,
            source: HIT_REACTION_STATE,
            target: WALK_STATE,
            duration: 200,
            rule: HIT_REACTION_TO_WALK@,
        }
    } else if t == 37 {
        TransitionRow {
            name: "HitReaction->Dying"@,
            source: HIT_REACTION_STATE,
            target: DYING_STATE,
            duration: 200,
            rule: HIT_REACTION_TO_DYING@,
        }
    } else if t == 38 {
        TransitionRow {
            name: "Aim->HitReaction"@,
            source: AIM_STATE,
            target: HIT_REACTION_STATE,
            duration: 200,
            rule: AIM_TO_HIT_REACTION@,
        }
    } else {
        TransitionRow {
            name: "HitReaction->Aim"@,
            source: HIT_REACTION_STATE,
            target: AIM_STATE,
            duration: 200,
            rule: HIT_REACTION_TO_AIM@,
        }
    }
}

/// The table of nodes.
pub open spec fn node_row(i: int) -> NodeRow {
    if i == 0 {
        NodeRow::Play(HIT_REACTION_RIFLE_CLIP)
    } else if i == 1 {
        NodeRow::Play(HIT_REACTION_PISTOL_CLIP)
    } else if i == 2 {
        NodeRow::Choose(HIT_REACTION_WEAPON_KIND@, 200, seq![0usize, 1usize])
    } else if i == 3 {
        NodeRow::Play(AIM_RIFLE_CLIP)
    } else if i == 4 {
        NodeRow::Play(AIM_PISTOL_CLIP)
    } else if i == 5 {
        NodeRow::Mix(RIFLE_AIM_FACTOR@, 3, PISTOL_AIM_FACTOR@, 4)
    } else if i == 6 {
        NodeRow::Play(TOSS_GRENADE_CLIP)
    } else if i == 7 {
        NodeRow::Play(IDLE_CLIP)
    } else if i == 8 {
        NodeRow::Play(IDLE_PISTOL_CLIP)
    } else if i == 9 {
        NodeRow::Choose(IDLE_STATE_WEAPON_KIND@, 100, seq![7usize, 8usize])
    } else if i == 10 {
        NodeRow::Play(JUMP_CLIP)
    } else if i == 11 {
        NodeRow::Play(FALL_CLIP)
    } else if i == 12 {
        NodeRow::Play(LAND_CLIP)
    } else if i == 13 {
        NodeRow::Play(PUT_BACK_CLIP)
    } else if i == 14 {
        NodeRow::Play(GRAB_CLIP)
    } else if i == 15 {
        NodeRow::Play(DYING_CLIP)
    } else if i == 16 {
        NodeRow::Play(WALK_CLIP)
    } else if i == 17 {
        NodeRow::Play(WALK_PISTOL_CLIP)
    } else if i == 18 {
        NodeRow::Play(RUN_CLIP)
    } else if i == 19 {
        NodeRow::Play(RUN_PISTOL_CLIP)
    } else {
        NodeRow::Choose(WALK_STATE_WEAPON_KIND@, 500, seq![16usize, 17usize, 18usize, 19usize])
    }
}

/// A clip as it is when it has just been made.
pub open spec fn plain_row(length: u64) -> ClipRow {
    ClipRow { length, speed: SPEED_UNIT, looped: true, enabled: true, signals: Seq::empty() }
}

/// The length of clip `k`.
pub open spec fn length_of(lengths: AnimationLengths, k: int) -> u64 {
    if k == HIT_REACTION_RIFLE_CLIP {
        lengths.hit_reaction_rifle
    } else if k == HIT_REACTION_PISTOL_CLIP {
        lengths.hit_reaction_pistol
    } else if k == AIM_RIFLE_CLIP {
        lengths.aim_rifle
    } else if k == AIM_PISTOL_CLIP {
        lengths.aim_pistol
    } else if k == TOSS_GRENADE_CLIP {
        lengths.toss_grenade
    } else if k == IDLE_CLIP {
        lengths.idle
    } else if k == IDLE_PISTOL_CLIP {
        lengths.idle_pistol
    } else if k == JUMP_CLIP {
        lengths.jump
    } else if k == FALL_CLIP {
        lengths.falling
    } else if k == LAND_CLIP {
        lengths.landing
    } else if k == PUT_BACK_CLIP {
        lengths.put_back
    } else if k == GRAB_CLIP {
        lengths.grab
    } else if k == DYING_CLIP {
        lengths.dying
    } else if k == WALK_CLIP {
        lengths.walk
    } else if k == WALK_PISTOL_CLIP {
        lengths.walk_pistol
    } else if k == RUN_CLIP {
        lengths.run
    } else {
        lengths.run_pistol
    }
}

/// The table of clips: how each clip is set up. The clips of a jump, of a
/// throw, of taking a weapon and of dying wait, disabled, for their state
/// to be entered; the clips that show one movement are not looped.
pub open spec fn clip_row(lengths: AnimationLengths, k: int) -> ClipRow {
    let plain = plain_row(length_of(lengths, k));
    if k == HIT_REACTION_RIFLE_CLIP || k == HIT_REACTION_PISTOL_CLIP || k == LAND_CLIP {
        ClipRow { looped: false, ..plain }
    } else if k == TOSS_GRENADE_CLIP {
        ClipRow {
            speed: 1500,
            looped: false,
            enabled: false,
            signals: seq![
                SignalRow { id: TOSS_GRENADE_SIGNAL, name: "TossGrenade"@, time: TOSS_GRENADE_TIME },
            ],
            ..plain
        }
    } else if k == IDLE_PISTOL_CLIP {
        ClipRow { speed: 250, ..plain }
    } else if k == JUMP_CLIP || k == DYING_CLIP {
        ClipRow { looped: false, enabled: false, ..plain }
    } else if k == PUT_BACK_CLIP {
        ClipRow {
            speed: 3000,
            looped: false,
            signals: seq![
                SignalRow {
                    id: PUT_BACK_WEAPON_END_SIGNAL,
                    name: "PutBackWeapon"@,
                    time: lengths.put_back,
                },
            ],
            ..plain
        }
    } else if k == GRAB_CLIP {
        ClipRow {
            speed: 3000,
            looped: false,
            enabled: false,
            signals: seq![
                SignalRow { id: GRAB_WEAPON_SIGNAL, name: "GrabWeapon"@, time: GRAB_WEAPON_TIME },
            ],
            ..plain
        }
    } else {
        plain
    }
}

/// The index that stands for a kind of weapon.
pub open spec fn weapon_index(kind: CombatWeaponKind) -> u32 {
    match kind {
        CombatWeaponKind::Rifle => 0,
        CombatWeaponKind::Pistol => 1,
    }
}

/// The clip of the hit for a kind of weapon.
pub open spec fn hit_reaction_clip(kind: CombatWeaponKind) -> usize {
    match kind {
        CombatWeaponKind::Rifle => HIT_REACTION_RIFLE_CLIP,
        CombatWeaponKind::Pistol => HIT_REACTION_PISTOL_CLIP,
    }
}

/// Whether a fighter who was hit is on its feet again: it is no longer to
/// be stunned and the clip of the hit has ended.
pub open spec fn recovered(input: UpperBodyMachineInput, facts: CompletionFacts) -> bool {
    !input.should_be_stunned && facts.hit_reaction_ended
}

/// The index under which the walk state's pose is written: the weapon's
/// index, and two more for a run.
pub open spec fn walk_index(input: UpperBodyMachineInput) -> u32 {
    if input.run_factor > RUN_THRESHOLD {
        (weapon_index(input.weapon_kind) + 2) as u32
    } else {
        weapon_index(input.weapon_kind)
    }
}

/// The whole weight for the kind of weapon held, none for the other.
pub open spec fn aim_factor(held: CombatWeaponKind, kind: CombatWeaponKind) -> u32 {
    if held == kind {
        WEIGHT_ONE
    } else {
        0
    }
}

/// The number of lines that are written into the table of a frame.
pub const LINE_COUNT: usize = 45;

/// The name of line `i` of the table of a frame.
pub open spec fn line_name(i: int) -> Seq<char> {
    if i == 0 {
        IDLE_TO_WALK@
    } else if i == 1 {
        WALK_TO_IDLE@
    } else if i == 2 {
        WALK_TO_JUMP@
    } else if i == 3 {
        IDLE_TO_JUMP@
    } else if i == 4 {
        JUMP_TO_FALL@
    } else if i == 5 {
        WALK_TO_FALL@
    } else if i == 6 {
        IDLE_TO_FALL@
    } else if i == 7 {
        FALL_TO_LAND@
    } else if i == 8 {
        LAND_TO_IDLE@
    } else if i == 9 {
        IDLE_TO_AIM@
    } else if i == 10 {
        WALK_TO_AIM@
    } else if i == 11 {
        AIM_TO_IDLE@
    } else if i == 12 {
        AIM_TO_WALK@
    } else if i == 13 {
        AIM_TO_PUT_BACK@
    } else if i == 14 {
        WALK_TO_PUT_BACK@
    } else if i == 15 {
        IDLE_TO_PUT_BACK@
    } else if i == 16 {
        PUT_BACK_TO_IDLE@
    } else if i == 17 {
        PUT_BACK_TO_WALK@
    } else if i == 18 {
        PUT_BACK_TO_GRAB@
    } else if i == 19 {
        GRAB_TO_IDLE@
    } else if i == 20 {
        GRAB_TO_WALK@
    } else if i == 21 {
        GRAB_TO_AIM@
    } else if i == 22 {
        PISTOL_AIM_FACTOR@
    } else if i == 23 {
        RIFLE_AIM_FACTOR@
    } else if i == 24 {
        HIT_REACTION_WEAPON_KIND@
    } else if i == 25 {
        IDLE_TO_HIT_REACTION@
    } else if i == 26 {
        WALK_TO_HIT_REACTION@
    } else if i == 27 {
        AIM_TO_HIT_REACTION@
    } else if i == 28 {
        HIT_REACTION_TO_IDLE@
    } else if i == 29 {
        HIT_REACTION_TO_WALK@
    } else if i == 30 {
        HIT_REACTION_TO_DYING@
    } else if i == 31 {
        HIT_REACTION_TO_AIM@
    } else if i == 32 {
        LAND_TO_DYING@
    } else if i == 33 {
        IDLE_TO_DYING@
    } else if i == 34 {
        FALL_TO_DYING@
    } else if i == 35 {
        WALK_TO_DYING@
    } else if i == 36 {
        JUMP_TO_DYING@
    } else if i == 37 {
        AIM_TO_DYING@
    } else if i == 38 {
        TOSS_GRENADE_TO_DYING@
    } else if i == 39 {
        GRAB_TO_DYING@
    } else if i == 40 {
        PUT_BACK_TO_DYING@
    } else if i == 41 {
        WALK_STATE_WEAPON_KIND@
    } else if i == 42 {
        TOSS_GRENADE_TO_AIM@
    } else if i == 43 {
        AIM_TO_TOSS_GRENADE@
    } else {
        IDLE_STATE_WEAPON_KIND@
    }
}

/// The value of line `i` of the table of a frame, as it follows from what
/// the machine is told and from the clips that had ended when the frame
/// began.
pub open spec fn line_value(input: UpperBodyMachineInput, facts: CompletionFacts, i: int)
    -> Parameter {
    if i == 0 {
        Parameter::Rule(input.is_walking)
    } else if i == 1 {
        Parameter::Rule(!input.is_walking)
    } else if i == 2 {
        Parameter::Rule(input.is_jumping)
    } else if i == 3 {
        Parameter::Rule(input.is_jumping)
    } else if i == 4 {
        Parameter::Rule(facts.jump_ended)
    } else if i == 5 {
        Parameter::Rule(!input.has_ground_contact)
    } else if i == 6 {
        Parameter::Rule(!input.has_ground_contact)
    } else if i == 7 {
        Parameter::Rule(input.has_ground_contact)
    } else if i == 8 {
        Parameter::Rule(facts.land_ended)
    } else if i == 9 {
        Parameter::Rule(input.is_aiming && input.has_ground_contact)
    } else if i == 10 {
        Parameter::Rule(input.is_aiming && input.has_ground_contact)
    } else if i == 11 {
        Parameter::Rule(!input.is_aiming || !input.has_ground_contact)
    } else if i == 12 {
        Parameter::Rule(!input.is_aiming || !input.has_ground_contact)
    } else if i == 13 {
        Parameter::Rule(input.is_aiming && input.change_weapon)
    } else if i == 14 {
        Parameter::Rule(input.change_weapon)
    } else if i == 15 {
        Parameter::Rule(input.change_weapon)
    } else if i == 16 {
        Parameter::Rule(!input.change_weapon && facts.put_back_ended)
    } else if i == 17 {
        Parameter::Rule(!input.change_weapon && input.is_walking && facts.put_back_ended)
    } else if i == 18 {
        Parameter::Rule(input.change_weapon && facts.put_back_ended)
    } else if i == 19 {
        Parameter::Rule(!input.change_weapon && !input.is_aiming && facts.grab_ended)
    } else if i == 20 {
        Parameter::Rule(!input.change_weapon && input.is_walking && !input.is_aiming && facts.grab_ended)
    } else if i == 21 {
        Parameter::Rule(input.is_aiming && facts.grab_ended)
    } else if i == 22 {
        Parameter::Weight(aim_factor(input.weapon_kind, CombatWeaponKind::Pistol))
    } else if i == 23 {
        Parameter::Weight(aim_factor(input.weapon_kind, CombatWeaponKind::Rifle))
    } else if i == 24 {
        Parameter::Index(weapon_index(input.weapon_kind))
    } else if i == 25 {
        Parameter::Rule(input.should_be_stunned)
    } else if i == 26 {
        Parameter::Rule(input.should_be_stunned)
    } else if i == 27 {
        Parameter::Rule(input.should_be_stunned)
    } else if i == 28 {
        Parameter::Rule(recovered(input, facts))
    } else if i == 29 {
        Parameter::Rule(recovered(input, facts))
    } else if i == 30 {
        Parameter::Rule(input.is_dead)
    } else if i == 31 {
        Parameter::Rule(recovered(input, facts) && input.is_aiming)
    } else if i == 32 {
        Parameter::Rule(input.is_dead)
    } else if i == 33 {
        Parameter::Rule(input.is_dead)
    } else if i == 34 {
        Parameter::Rule(input.is_dead)
    } else if i == 35 {
        Parameter::Rule(input.is_dead)
    } else if i == 36 {
        Parameter::Rule(input.is_dead)
    } else if i == 37 {
        Parameter::Rule(input.is_dead)
    } else if i == 38 {
        Parameter::Rule(input.is_dead)
    } else if i == 39 {
        Parameter::Rule(input.is_dead)
    } else if i == 40 {
        Parameter::Rule(input.is_dead)
    } else if i == 41 {
        Parameter::Index(walk_index(input))
    } else if i == 42 {
        Parameter::Rule(!input.toss_grenade && facts.toss_grenade_ended)
    } else if i == 43 {
        Parameter::Rule(input.toss_grenade && input.is_aiming)
    } else {
        Parameter::Index(weapon_index(input.weapon_kind))
    }
}

/// The table after the first `upto` lines were written, each in its turn.
pub open spec fn table_upto(input: UpperBodyMachineInput, facts: CompletionFacts, upto: int)
    -> Map<Seq<char>, Parameter>
    decreases upto,
{
    if upto <= 0 {
        Map::empty()
    } else {
        table_upto(input, facts, upto - 1).insert(
            line_name(upto - 1),
            line_value(input, facts, upto - 1),
        )
    }
}

/// What is written under `name` by the first `upto` lines: the value of
/// the last of them that has the name, or nothing if none has it.
pub open spec fn written_upto(
    input: UpperBodyMachineInput,
    facts: CompletionFacts,
    name: Seq<char>,
    upto: int,
) -> Option<Parameter>
    decreases upto,
{
    if upto <= 0 {
        None
    } else if name == line_name(upto - 1) {
        Some(line_value(input, facts, upto - 1))
    } else {
        written_upto(input, facts, name, upto - 1)
    }
}

/// The table of a frame: every line written in its turn. Where a name is
/// written twice the later line counts.
pub open spec fn parameters_of(input: UpperBodyMachineInput, facts: CompletionFacts) -> Map<
    Seq<char>,
    Parameter,
> {
    table_upto(input, facts, LINE_COUNT as int)
}

/// The machine.
pub struct UpperBodyMachine {
    /// The clips that the machine plays.
    pub clips: Vec<Clip>,
    /// The layer of states.
    pub machine: Layer,
    pub aim_state: usize,
    pub toss_grenade_state: usize,
    pub put_back_state: usize,
    pub jump_animation: usize,
    pub walk_animation: usize,
    pub run_animation: usize,
    pub land_animation: usize,
    pub toss_grenade_animation: usize,
    pub put_back_animation: usize,
    pub grab_animation: usize,
    pub dying_animation: usize,
    pub hit_reaction_pistol_animation: usize,
    pub hit_reaction_rifle_animation: usize,
    /// What each node gave in the last frame.
    pub last: Vec<NodeOutput>,
}

/// Whether the first `upto` nodes are the nodes of the table.
pub open spec fn nodes_match(nodes: Seq<PoseNode>, upto: int) -> bool {
    upto <= nodes.len() && forall|i: int|
        0 <= i < upto ==> node_matches(#[trigger] nodes[i], node_row(i))
}

/// Whether the first `upto` states are the states of the table.
pub open spec fn states_match(states: Seq<State>, upto: int) -> bool {
    upto <= states.len() && forall|s: int|
        0 <= s < upto ==> (#[trigger] states[s]).name@ == state_row(s).name && states[s].root
            == state_row(s).root
}

/// Whether the first `upto` transitions are the transitions of the table.
pub open spec fn rows_match(transitions: Seq<Transition>, upto: int) -> bool {
    upto <= transitions.len() && forall|t: int|
        0 <= t < upto ==> transition_matches(#[trigger] transitions[t], transition_row(t))
}

/// Whether `clip` is a clip of the given length as it is when it has just
/// been made: looped, enabled, at unit speed, at its start, without
/// signals.
pub open spec fn fresh_clip(clip: Clip, length: u64) -> bool {
    clip_matches(clip, plain_row(length))
}

/// Sets the speed of a clip, whether it is looped and whether it moves.
fn set_up_clip(clips: &mut Vec<Clip>, k: usize, speed: u32, looped: bool, enabled: bool)
    requires
        k < old(clips)@.len(),
        clips_ok(old(clips)@),
        old(clips)@[k as int].time == 0,
    ensures
        clips_ok(final(clips)@),
        final(clips)@ == old(clips)@.update(
            k as int,
            Clip { speed, looped, enabled, ..old(clips)@[k as int] },
        ),
{
    assert(clips@[k as int].wf());
    clips[k].set_speed(speed);
    clips[k].set_loop(looped);
    clips[k].set_enabled(enabled);
    assert(clips@ =~= old(clips)@.update(
        k as int,
        Clip { speed, looped, enabled, ..old(clips)@[k as int] },
    ));
}

/// Gives a clip that has no signal its one signal.
fn add_signal_to(clips: &mut Vec<Clip>, k: usize, id: u128, name: &str, time: u64)
    requires
        k < old(clips)@.len(),
        clips_ok(old(clips)@),
        old(clips)@[k as int].signals@.len() == 0,
    ensures
        clips_ok(final(clips)@),
        final(clips)@.len() == old(clips)@.len(),
        forall|j: int| 0 <= j < old(clips)@.len() && j != k ==> final(clips)@[j] == old(clips)@[j],
        final(clips)@[k as int].length == old(clips)@[k as int].length,
        final(clips)@[k as int].time == old(clips)@[k as int].time,
        final(clips)@[k as int].speed == old(clips)@[k as int].speed,
        final(clips)@[k as int].looped == old(clips)@[k as int].looped,
        final(clips)@[k as int].enabled == old(clips)@[k as int].enabled,
        final(clips)@[k as int].signals@.len() == 1,
        final(clips)@[k as int].signals@[0].id == id,
        final(clips)@[k as int].signals@[0].name@ == name@,
        final(clips)@[k as int].signals@[0].time == time,
{
    assert(clips@[k as int].wf());
    clips[k].add_signal(Signal { id, name: String::from_str(name), time });
}

/// Adds to a layer a state named `name` that plays the clip `clip`, and
/// tells the numbers of the clip and of the state.
pub fn create_play_animation_state(clip: usize, name: &str, layer: &mut Layer, clip_count: usize) -> (made:
    (usize, usize))
    requires
        old(layer).wf(),
        old(layer).fits(clip_count as nat),
        clip < clip_count,
    ensures
        final(layer).wf(),
        final(layer).fits(clip_count as nat),
        made.0 == clip,
        made.1 == old(layer).states@.len(),
        final(layer).graph.nodes@ == old(layer).graph.nodes@.push(PoseNode::PlayClip { clip }),
        final(layer).graph.fades@ == old(layer).graph.fades@.push(
            Fade { previous: None, elapsed: 0 },
        ),
        final(layer).states@.len() == made.1 + 1,
        final(layer).states@.take(made.1 as int) == old(layer).states@,
        final(layer).states@[made.1 as int].name@ == name@,
        final(layer).states@[made.1 as int].root == old(layer).graph.nodes@.len(),
        final(layer).transitions == old(layer).transitions,
        made.1 > 0 ==> final(layer).phase == old(layer).phase && final(layer).entry == old(
            layer,
        ).entry,
{
    let node = layer.add_node(PoseNode::PlayClip { clip }, clip_count);
    let state = layer.add_state(name, node.unwrap());
    (clip, state.unwrap())
}

/// Adds to a layer two nodes that play the clips `first` and `second`, a
/// node that chooses between them by the index named `index_parameter`, and
/// a state named `name` that shows the choice. Tells the number of the
/// state.
fn add_pair_state(
    layer: &mut Layer,
    clip_count: usize,
    name: &str,
    first: usize,
    second: usize,
    index_parameter: &str,
    blend_time: u32,
) -> (state: usize)
    requires
        old(layer).wf(),
        old(layer).fits(clip_count as nat),
        first < clip_count,
        second < clip_count,
    ensures
        final(layer).wf(),
        final(layer).fits(clip_count as nat),
        state == old(layer).states@.len(),
        final(layer).graph.nodes@.len() == old(layer).graph.nodes@.len() + 3,
        final(layer).graph.nodes@.take(old(layer).graph.nodes@.len() as int) == old(
            layer,
        ).graph.nodes@,
        final(layer).graph.fades@ == old(layer).graph.fades@ + seq![
            Fade { previous: None, elapsed: 0 },
            Fade { previous: None, elapsed: 0 },
            Fade { previous: None, elapsed: 0 },
        ],
        ({
            let n = old(layer).graph.nodes@.len() as int;
            &&& final(layer).graph.nodes@[n] == PoseNode::PlayClip { clip: first }
            &&& final(layer).graph.nodes@[n + 1] == PoseNode::PlayClip { clip: second }
            &&& is_indexed(
                final(layer).graph.nodes@[n + 2],
                index_parameter@,
                choices_of(blend_time, seq![n as usize, (n + 1) as usize]),
            )
            &&& final(layer).states@[state as int].root == n + 2
        }),
        final(layer).states@.len() == state + 1,
        final(layer).states@.take(state as int) == old(layer).states@,
        final(layer).states@[state as int].name@ == name@,
        final(layer).transitions == old(layer).transitions,
        state > 0 ==> final(layer).phase == old(layer).phase && final(layer).entry == old(
            layer,
        ).entry,
{
    let ghost nodes_before = old(layer).graph.nodes@;
    let first_node = layer.add_node(PoseNode::PlayClip { clip: first }, clip_count).unwrap();
    let second_node = layer.add_node(PoseNode::PlayClip { clip: second }, clip_count).unwrap();
    let mut choices: Vec<IndexedInput> = Vec::new();
    choices.push(IndexedInput { blend_time, child: first_node });
    choices.push(IndexedInput { blend_time, child: second_node });
    let node = PoseNode::BlendIndexed { parameter: String::from_str(index_parameter), choices };
    proof {
        assert(choices@ =~= choices_of(blend_time, seq![first_node, second_node]));
        assert(node.children() =~= seq![first_node, second_node]);
        assert(node.ok(layer.graph.nodes@.len() as int));
    }
    let chooser = layer.add_node(node, clip_count).unwrap();
    proof {
        assert(layer.graph.nodes@.take(nodes_before.len() as int) =~= nodes_before);
        assert(layer.graph.fades@ =~= old(layer).graph.fades@ + seq![
            Fade { previous: None, elapsed: 0 },
            Fade { previous: None, elapsed: 0 },
            Fade { previous: None, elapsed: 0 },
        ]);
    }
    layer.add_state(name, chooser).unwrap()
}

/// Adds the state HitReaction to a layer: it plays the clip of the hit for
/// the weapon held, chosen by the index named `index`. The two clips are
/// made to play once.
pub fn make_hit_reaction_state(
    layer: &mut Layer,
    clips: &mut Vec<Clip>,
    index: &str,
    hit_reaction_rifle_animation: usize,
    hit_reaction_pistol_animation: usize,
) -> (made: HitReactionStateDefinition)
    requires
        old(layer).wf(),
        old(layer).fits(old(clips)@.len()),
        clips_ok(old(clips)@),
        hit_reaction_rifle_animation < old(clips)@.len(),
        hit_reaction_pistol_animation < old(clips)@.len(),
    ensures
        final(layer).wf(),
        final(layer).fits(final(clips)@.len()),
        clips_ok(final(clips)@),
        final(clips)@.len() == old(clips)@.len(),
        forall|k: int|
            0 <= k < old(clips)@.len() ==> #[trigger] final(clips)@[k] == (if k
                == hit_reaction_rifle_animation || k == hit_reaction_pistol_animation {
                Clip {
                    looped: false,
                    ..old(clips)@[k]
                }
            } else {
                old(clips)@[k]
            }),
        made.state == old(layer).states@.len(),
        made.hit_reaction_rifle_animation == hit_reaction_rifle_animation,
        made.hit_reaction_pistol_animation == hit_reaction_pistol_animation,
        final(layer).graph.nodes@.len() == old(layer).graph.nodes@.len() + 3,
        final(layer).graph.nodes@.take(old(layer).graph.nodes@.len() as int) == old(
            layer,
        ).graph.nodes@,
        final(layer).graph.fades@ == old(layer).graph.fades@ + seq![
            Fade { previous: None, elapsed: 0 },
            Fade { previous: None, elapsed: 0 },
            Fade { previous: None, elapsed: 0 },
        ],
        ({
            let n = old(layer).graph.nodes@.len() as int;
            &&& final(layer).graph.nodes@[n] == PoseNode::PlayClip {
                clip: hit_reaction_rifle_animation,
            }
            &&& final(layer).graph.nodes@[n + 1] == PoseNode::PlayClip {
                clip: hit_reaction_pistol_animation,
            }
            &&& is_indexed(
                final(layer).graph.nodes@[n + 2],
                index@,
                choices_of(200, seq![n as usize, (n + 1) as usize]),
            )
            &&& final(layer).states@[made.state as int].root == n + 2
        }),
        final(layer).states@.len() == made.state + 1,
        final(layer).states@.take(made.state as int) == old(layer).states@,
        final(layer).states@[made.state as int].name@ == "HitReaction"@,
        final(layer).transitions == old(layer).transitions,
        made.state > 0 ==> final(layer).phase == old(layer).phase && final(layer).entry == old(
            layer,
        ).entry,
{
    assert(clips@[hit_reaction_rifle_animation as int].wf());
    clips[hit_reaction_rifle_animation].set_loop(false);
    assert(clips@[hit_reaction_pistol_animation as int].wf());
    clips[hit_reaction_pistol_animation].set_loop(false);
    let state = add_pair_state(
        layer,
        clips.len(),
        "HitReaction",
        hit_reaction_rifle_animation,
        hit_reaction_pistol_animation,
        index,
        200,
    );
    HitReactionStateDefinition { state, hit_reaction_rifle_animation, hit_reaction_pistol_animation }
}

impl IdleStateDefinition {
    /// Adds the state Idle to a layer: it plays the clip `idle_animation` or
    /// the clip `idle_pistol_animation`, chosen by the index named
    /// `index_parameter`. The clip for the pistol is slowed to a quarter.
    pub fn new(
        layer: &mut Layer,
        clips: &mut Vec<Clip>,
        idle_animation: usize,
        idle_pistol_animation: usize,
        index_parameter: &str,
    ) -> (made: IdleStateDefinition)
        requires
            old(layer).wf(),
            old(layer).fits(old(clips)@.len()),
            clips_ok(old(clips)@),
            idle_animation < old(clips)@.len(),
            idle_pistol_animation < old(clips)@.len(),
        ensures
            final(layer).wf(),
            final(layer).fits(final(clips)@.len()),
            clips_ok(final(clips)@),
            final(clips)@ == old(clips)@.update(
                idle_pistol_animation as int,
                Clip { speed: 250, ..old(clips)@[idle_pistol_animation as int] },
            ),
            made.state == old(layer).states@.len(),
            final(layer).graph.nodes@.len() == old(layer).graph.nodes@.len() + 3,
            final(layer).graph.nodes@.take(old(layer).graph.nodes@.len() as int) == old(
                layer,
            ).graph.nodes@,
            final(layer).graph.fades@ == old(layer).graph.fades@ + seq![
                Fade { previous: None, elapsed: 0 },
                Fade { previous: None, elapsed: 0 },
                Fade { previous: None, elapsed: 0 },
            ],
            ({
                let n = old(layer).graph.nodes@.len() as int;
                &&& final(layer).graph.nodes@[n] == PoseNode::PlayClip { clip: idle_animation }
                &&& final(layer).graph.nodes@[n + 1] == PoseNode::PlayClip {
                    clip: idle_pistol_animation,
                }
                &&& is_indexed(
                    final(layer).graph.nodes@[n + 2],
                    index_parameter@,
                    choices_of(100, seq![n as usize, (n + 1) as usize]),
                )
                &&& final(layer).states@[made.state as int].root == n + 2
            }),
            final(layer).states@.len() == made.state + 1,
            final(layer).states@.take(made.state as int) == old(layer).states@,
            final(layer).states@[made.state as int].name@ == "Idle"@,
            final(layer).transitions == old(layer).transitions,
            made.state > 0 ==> final(layer).phase == old(layer).phase && final(layer).entry
                == old(layer).entry,
    {
        clips[idle_pistol_animation].set_speed(250);
        proof {
            assert(clips@ =~= old(clips)@.update(
                idle_pistol_animation as int,
                Clip { speed: 250, ..old(clips)@[idle_pistol_animation as int] },
            ));
            assert forall|c: int| 0 <= c < clips@.len() implies (#[trigger] clips@[c]).wf() by {
                assert(old(clips)@[c].wf());
            }
        }
        let state = add_pair_state(
            layer,
            clips.len(),
            "Idle",
            idle_animation,
            idle_pistol_animation,
            index_parameter,
            100,
        );
        IdleStateDefinition { state }
    }
}

impl WalkStateDefinition {
    /// Adds the state Walk to a layer: it plays one of four clips, the walk
    /// and the run, each with a rifle and with a pistol, chosen by the
    /// index named `index`.
    pub fn new(
        layer: &mut Layer,
        clip_count: usize,
        walk_animation: usize,
        walk_pistol_animation: usize,
        run_animation: usize,
        run_pistol_animation: usize,
        index: &str,
    ) -> (made: WalkStateDefinition)
        requires
            old(layer).wf(),
            old(layer).fits(clip_count as nat),
            walk_animation < clip_count,
            walk_pistol_animation < clip_count,
            run_animation < clip_count,
            run_pistol_animation < clip_count,
        ensures
            final(layer).wf(),
            final(layer).fits(clip_count as nat),
            made.state == old(layer).states@.len(),
            made.walk_animation == walk_animation,
            made.run_animation == run_animation,
            final(layer).graph.nodes@.len() == old(layer).graph.nodes@.len() + 5,
            final(layer).graph.nodes@.take(old(layer).graph.nodes@.len() as int) == old(
                layer,
            ).graph.nodes@,
            final(layer).graph.fades@ == old(layer).graph.fades@ + seq![
                Fade { previous: None, elapsed: 0 },
                Fade { previous: None, elapsed: 0 },
                Fade { previous: None, elapsed: 0 },
                Fade { previous: None, elapsed: 0 },
                Fade { previous: None, elapsed: 0 },
            ],
            ({
                let n = old(layer).graph.nodes@.len() as int;
                &&& final(layer).graph.nodes@[n] == PoseNode::PlayClip { clip: walk_animation }
                &&& final(layer).graph.nodes@[n + 1] == PoseNode::PlayClip {
                    clip: walk_pistol_animation,
                }
                &&& final(layer).graph.nodes@[n + 2] == PoseNode::PlayClip { clip: run_animation }
                &&& final(layer).graph.nodes@[n + 3] == PoseNode::PlayClip {
                    clip: run_pistol_animation,
                }
                &&& is_indexed(
                    final(layer).graph.nodes@[n + 4],
                    index@,
                    choices_of(
                        500,
                        seq![n as usize, (n + 1) as usize, (n + 2) as usize, (n + 3) as usize],
                    ),
                )
                &&& final(layer).states@[made.state as int].root == n + 4
            }),
            final(layer).states@.len() == made.state + 1,
            final(layer).states@.take(made.state as int) == old(layer).states@,
            final(layer).states@[made.state as int].name@ == "Walk"@,
            final(layer).transitions == old(layer).transitions,
            made.state > 0 ==> final(layer).phase == old(layer).phase && final(layer).entry
                == old(layer).entry,
    {
        let ghost nodes_before = old(layer).graph.nodes@;
        let walk = layer.add_node(PoseNode::PlayClip { clip: walk_animation }, clip_count).unwrap();
        let walk_pistol = layer.add_node(
            PoseNode::PlayClip { clip: walk_pistol_animation },
            clip_count,
        ).unwrap();
        let run = layer.add_node(PoseNode::PlayClip { clip: run_animation }, clip_count).unwrap();
        let run_pistol = layer.add_node(
            PoseNode::PlayClip { clip: run_pistol_animation },
            clip_count,
        ).unwrap();
        let mut choices: Vec<IndexedInput> = Vec::new();
        choices.push(IndexedInput { blend_time: 500, child: walk });
        choices.push(IndexedInput { blend_time: 500, child: walk_pistol });
        choices.push(IndexedInput { blend_time: 500, child: run });
        choices.push(IndexedInput { blend_time: 500, child: run_pistol });
        let node = PoseNode::BlendIndexed { parameter: String::from_str(index), choices };
        proof {
            assert(choices@ =~= choices_of(500, seq![walk, walk_pistol, run, run_pistol]));
            assert(node.children() =~= seq![walk, walk_pistol, run, run_pistol]);
            assert(node.ok(layer.graph.nodes@.len() as int));
        }
        let chooser = layer.add_node(node, clip_count).unwrap();
        proof {
            assert(layer.graph.nodes@.take(nodes_before.len() as int) =~= nodes_before);
            assert(layer.graph.fades@ =~= old(layer).graph.fades@ + seq![
                Fade { previous: None, elapsed: 0 },
                Fade { previous: None, elapsed: 0 },
                Fade { previous: None, elapsed: 0 },
                Fade { previous: None, elapsed: 0 },
                Fade { previous: None, elapsed: 0 },
            ]);
        }
        let state = layer.add_state("Walk", chooser).unwrap();
        WalkStateDefinition { state, walk_animation, run_animation }
    }
}

/// Adds the state Aim to a layer: the mix of the clips of aiming a rifle
/// and of aiming a pistol, each weighted by its own parameter. Tells the
/// number of the state.
fn add_aim_state(layer: &mut Layer, clip_count: usize, aim_rifle: usize, aim_pistol: usize) -> (state:
    usize)
    requires
        old(layer).wf(),
        old(layer).fits(clip_count as nat),
        aim_rifle < clip_count,
        aim_pistol < clip_count,
    ensures
        final(layer).wf(),
        final(layer).fits(clip_count as nat),
        state == old(layer).states@.len(),
        final(layer).graph.nodes@.len() == old(layer).graph.nodes@.len() + 3,
        final(layer).graph.nodes@.take(old(layer).graph.nodes@.len() as int) == old(
            layer,
        ).graph.nodes@,
        final(layer).graph.fades@ == old(layer).graph.fades@ + seq![
            Fade { previous: None, elapsed: 0 },
            Fade { previous: None, elapsed: 0 },
            Fade { previous: None, elapsed: 0 },
        ],
        ({
            let n = old(layer).graph.nodes@.len() as int;
            &&& final(layer).graph.nodes@[n] == PoseNode::PlayClip { clip: aim_rifle }
            &&& final(layer).graph.nodes@[n + 1] == PoseNode::PlayClip { clip: aim_pistol }
            &&& is_mix(
                final(layer).graph.nodes@[n + 2],
                RIFLE_AIM_FACTOR@,
                n as usize,
                PISTOL_AIM_FACTOR@,
                (n + 1) as usize,
            )
            &&& final(layer).states@[state as int].root == n + 2
        }),
        final(layer).states@.len() == state + 1,
        final(layer).states@.take(state as int) == old(layer).states@,
        final(layer).states@[state as int].name@ == "Aim"@,
        final(layer).transitions == old(layer).transitions,
        state > 0 ==> final(layer).phase == old(layer).phase && final(layer).entry == old(
            layer,
        ).entry,
{
    let ghost nodes_before = old(layer).graph.nodes@;
    let rifle = layer.add_node(PoseNode::PlayClip { clip: aim_rifle }, clip_count).unwrap();
    let pistol = layer.add_node(PoseNode::PlayClip { clip: aim_pistol }, clip_count).unwrap();
    let mut inputs: Vec<WeightedInput> = Vec::new();
    inputs.push(
        WeightedInput {
            weight: WeightSource::Parameter(String::from_str(RIFLE_AIM_FACTOR)),
            child: rifle,
        },
    );
    inputs.push(
        WeightedInput {
            weight: WeightSource::Parameter(String::from_str(PISTOL_AIM_FACTOR)),
            child: pistol,
        },
    );
    let node = PoseNode::BlendWeighted { inputs };
    proof {
        assert(node.children() =~= seq![rifle, pistol]);
        assert(node.ok(layer.graph.nodes@.len() as int));
    }
    let mixer = layer.add_node(node, clip_count).unwrap();
    proof {
        assert(layer.graph.nodes@.take(nodes_before.len() as int) =~= nodes_before);
        assert(layer.graph.fades@ =~= old(layer).graph.fades@ + seq![
            Fade { previous: None, elapsed: 0 },
            Fade { previous: None, elapsed: 0 },
            Fade { previous: None, elapsed: 0 },
        ]);
    }
    layer.add_state("Aim", mixer).unwrap()
}

/// Makes the seventeen clips, each of its length and as yet plain.
fn make_clips(lengths: &AnimationLengths) -> (clips: Vec<Clip>)
    ensures
        clips_ok(clips@),
        clips@.len() == CLIP_COUNT,
        forall|k: int| 0 <= k < CLIP_COUNT ==> fresh_clip(#[trigger] clips@[k], length_of(*lengths, k)),
{
    let mut clips: Vec<Clip> = Vec::new();
    clips.push(Clip::new(lengths.hit_reaction_rifle));
    clips.push(Clip::new(lengths.hit_reaction_pistol));
    clips.push(Clip::new(lengths.aim_rifle));
    clips.push(Clip::new(lengths.aim_pistol));
    clips.push(Clip::new(lengths.toss_grenade));
    clips.push(Clip::new(lengths.idle));
    clips.push(Clip::new(lengths.idle_pistol));
    clips.push(Clip::new(lengths.jump));
    clips.push(Clip::new(lengths.falling));
    clips.push(Clip::new(lengths.landing));
    clips.push(Clip::new(lengths.put_back));
    clips.push(Clip::new(lengths.grab));
    clips.push(Clip::new(lengths.dying));
    clips.push(Clip::new(lengths.walk));
    clips.push(Clip::new(lengths.walk_pistol));
    clips.push(Clip::new(lengths.run));
    clips.push(Clip::new(lengths.run_pistol));
    clips
}

/// Adds transition number `t` of the table to a layer that has the
/// transitions before it.
fn add_row(
    layer: &mut Layer,
    Ghost(t): Ghost<int>,
    name: &str,
    source: usize,
    target: usize,
    duration: u32,
    rule: &str,
)
    requires
        old(layer).wf(),
        old(layer).states@.len() == STATE_COUNT,
        old(layer).transitions@.len() == t,
        rows_match(old(layer).transitions@, t),
        0 <= t < TRANSITION_COUNT,
        transition_row(t) == (TransitionRow { name: name@, source, target, duration, rule: rule@ }),
        source < STATE_COUNT,
        target < STATE_COUNT,
    ensures
        final(layer).wf(),
        final(layer).transitions@.len() == t + 1,
        rows_match(final(layer).transitions@, t + 1),
        final(layer).graph == old(layer).graph,
        final(layer).states == old(layer).states,
        final(layer).entry == old(layer).entry,
        final(layer).phase == old(layer).phase,
{
    let added = layer.add_transition(name, source, target, duration, rule);
    proof {
        assert forall|k: int| 0 <= k < t + 1 implies transition_matches(
            #[trigger] layer.transitions@[k],
            transition_row(k),
        ) by {
            if k < t {
                assert(layer.transitions@.take(t)[k] == old(layer).transitions@[k]);
            }
        }
    }
}

/// Adds the transitions of the table to a layer that has the states of the
/// table and no transition yet.
fn add_transitions(layer: &mut Layer)
    requires
        old(layer).wf(),
        old(layer).states@.len() == STATE_COUNT,
        old(layer).transitions@.len() == 0,
    ensures
        final(layer).wf(),
        final(layer).transitions@.len() == TRANSITION_COUNT,
        rows_match(final(layer).transitions@, TRANSITION_COUNT as int),
        final(layer).graph == old(layer).graph,
        final(layer).states == old(layer).states,
        final(layer).entry == old(layer).entry,
        final(layer).phase == old(layer).phase,
{
    let mut t: usize = 0;
    while t < TRANSITION_COUNT
        invariant
            t <= TRANSITION_COUNT,
            layer.wf(),
            layer.states@.len() == STATE_COUNT,
            layer.transitions@.len() == t,
            rows_match(layer.transitions@, t as int),
            layer.graph == old(layer).graph,
            layer.states == old(layer).states,
            layer.entry == old(layer).entry,
            layer.phase == old(layer).phase,
        decreases TRANSITION_COUNT - t,
    {
        let line = transition_line(t);
        add_row(layer, Ghost(t as int), line.0, line.1, line.2, line.3, line.4);
        t += 1;
    }
}

/// A list of nodes that begins with the first `n` nodes of the table and
/// goes on with the next is a list that begins with the first `m`.
proof fn lemma_nodes_extend(before: Seq<PoseNode>, after: Seq<PoseNode>, n: int, m: int)
    requires
        nodes_match(before, n),
        before.len() == n,
        after.take(n) == before,
        n <= m <= after.len(),
        forall|i: int| n <= i < m ==> node_matches(#[trigger] after[i], node_row(i)),
    ensures
        nodes_match(after, m),
{
    assert forall|i: int| 0 <= i < m implies node_matches(#[trigger] after[i], node_row(i)) by {
        if i < n {
            assert(after.take(n)[i] == after[i]);
        }
    }
}

/// A list of states that begins with the first `n` states of the table and
/// goes on with the next is a list that begins with the first `n + 1`.
proof fn lemma_states_extend(
    before: Seq<State>,
    after: Seq<State>,
    n: int,
)
    requires
        states_match(before, n),
        before.len() == n,
        after.take(n) == before,
        after.len() == n + 1,
        after[n].name@ == state_row(n).name,
        after[n].root == state_row(n).root,
    ensures
        states_match(after, n + 1),
{
    assert forall|s: int| 0 <= s < n + 1 implies (#[trigger] after[s]).name@ == state_row(s).name
        && after[s].root == state_row(s).root by {
        if s < n {
            assert(after.take(n)[s] == after[s]);
        }
    }
}

/// The node that plays the clip of taking the new weapon.
pub const GRAB_NODE: usize = 14;

/// The node that plays the clip of stowing the weapon.
pub const PUT_BACK_NODE: usize = 13;

/// The node that plays the clip of the throw.
pub const TOSS_GRENADE_NODE: usize = 6;

/// Writes line `i` into a table that holds the lines before it.
fn write_line(
    table: &mut ParameterTable,
    Ghost(i): Ghost<int>,
    name: &str,
    value: Parameter,
    Ghost(input): Ghost<UpperBodyMachineInput>,
    Ghost(facts): Ghost<CompletionFacts>,
)
    requires
        0 <= i < LINE_COUNT,
        old(table)@ == table_upto(input, facts, i),
        name@ == line_name(i),
        value == line_value(input, facts, i),
    ensures
        final(table)@ == table_upto(input, facts, i + 1),
{
    table.set(name, value);
}

/// Writes the lines 0 to 4 of the table of a frame.
fn write_lines_0(
    table: &mut ParameterTable,
    input: &UpperBodyMachineInput,
    facts: &CompletionFacts,
)
    requires
        old(table)@ == table_upto(*input, *facts, 0),
    ensures
        final(table)@ == table_upto(*input, *facts, 5),
{
    write_line(table, Ghost(0), IDLE_TO_WALK, Parameter::Rule(input.is_walking), Ghost(*input), Ghost(*facts));
    write_line(table, Ghost(1), WALK_TO_IDLE, Parameter::Rule(!input.is_walking), Ghost(*input), Ghost(*facts));
    write_line(table, Ghost(2), WALK_TO_JUMP, Parameter::Rule(input.is_jumping), Ghost(*input), Ghost(*facts));
    write_line(table, Ghost(3), IDLE_TO_JUMP, Parameter::Rule(input.is_jumping), Ghost(*input), Ghost(*facts));
    write_line(table, Ghost(4), JUMP_TO_FALL, Parameter::Rule(facts.jump_ended), Ghost(*input), Ghost(*facts));
}

/// Writes the lines 5 to 9 of the table of a frame.
fn write_lines_5(
    table: &mut ParameterTable,
    input: &UpperBodyMachineInput,
    facts: &CompletionFacts,
)
    requires
        old(table)@ == table_upto(*input, *facts, 5),
    ensures
        final(table)@ == table_upto(*input, *facts, 10),
{
    write_line(table, Ghost(5), WALK_TO_FALL, Parameter::Rule(!input.has_ground_contact), Ghost(*input), Ghost(*facts));
    write_line(table, Ghost(6), IDLE_TO_FALL, Parameter::Rule(!input.has_ground_contact), Ghost(*input), Ghost(*facts));
    write_line(table, Ghost(7), FALL_TO_LAND, Parameter::Rule(input.has_ground_contact), Ghost(*input), Ghost(*facts));
    write_line(table, Ghost(8), LAND_TO_IDLE, Parameter::Rule(facts.land_ended), Ghost(*input), Ghost(*facts));
    write_line(table, Ghost(9), IDLE_TO_AIM, Parameter::Rule(input.is_aiming && input.has_ground_contact), Ghost(*input), Ghost(*facts));
}

/// Writes the lines 10 to 14 of the table of a frame.
fn write_lines_10(
    table: &mut ParameterTable,
    input: &UpperBodyMachineInput,
    facts: &CompletionFacts,
)
    requires
        old(table)@ == table_upto(*input, *facts, 10),
    ensures
        final(table)@ == table_upto(*input, *facts, 15),
{
    write_line(table, Ghost(10), WALK_TO_AIM, Parameter::Rule(input.is_aiming && input.has_ground_contact), Ghost(*input), Ghost(*facts));
    write_line(table, Ghost(11), AIM_TO_IDLE, Parameter::Rule(!input.is_aiming || !input.has_ground_contact), Ghost(*input), Ghost(*facts));
    write_line(table, Ghost(12), AIM_TO_WALK, Parameter::Rule(!input.is_aiming || !input.has_ground_contact), Ghost(*input), Ghost(*facts));
    write_line(table, Ghost(13), AIM_TO_PUT_BACK, Parameter::Rule(input.is_aiming && input.change_weapon), Ghost(*input), Ghost(*facts));
    write_line(table, Ghost(14), WALK_TO_PUT_BACK, Parameter::Rule(input.change_weapon), Ghost(*input), Ghost(*facts));
}

/// Writes the lines 15 to 19 of the table of a frame.
fn write_lines_15(
    table: &mut ParameterTable,
    input: &UpperBodyMachineInput,
    facts: &CompletionFacts,
)
    requires
        old(table)@ == table_upto(*input, *facts, 15),
    ensures
        final(table)@ == table_upto(*input, *facts, 20),
{
    write_line(table, Ghost(15), IDLE_TO_PUT_BACK, Parameter::Rule(input.change_weapon), Ghost(*input), Ghost(*facts));
    write_line(table, Ghost(16), PUT_BACK_TO_IDLE, Parameter::Rule(!input.change_weapon && facts.put_back_ended), Ghost(*input), Ghost(*facts));
    write_line(table, Ghost(17), PUT_BACK_TO_WALK, Parameter::Rule(!input.change_weapon && input.is_walking && facts.put_back_ended), Ghost(*input), Ghost(*facts));
    write_line(table, Ghost(18), PUT_BACK_TO_GRAB, Parameter::Rule(input.change_weapon && facts.put_back_ended), Ghost(*input), Ghost(*facts));
    write_line(table, Ghost(19), GRAB_TO_IDLE, Parameter::Rule(!input.change_weapon && !input.is_aiming && facts.grab_ended), Ghost(*input), Ghost(*facts));
}

/// Writes the lines 20 to 24 of the table of a frame.
fn write_lines_20(
    table: &mut ParameterTable,
    input: &UpperBodyMachineInput,
    facts: &CompletionFacts,
)
    requires
        old(table)@ == table_upto(*input, *facts, 20),
    ensures
        final(table)@ == table_upto(*input, *facts, 25),
{
    let index: u32 = match input.weapon_kind {
        CombatWeaponKind::Rifle => 0,
        CombatWeaponKind::Pistol => 1,
    };
    let pistol: u32 = match input.weapon_kind {
        CombatWeaponKind::Pistol => WEIGHT_ONE,
        CombatWeaponKind::Rifle => 0,
    };
    let rifle: u32 = match input.weapon_kind {
        CombatWeaponKind::Rifle => WEIGHT_ONE,
        CombatWeaponKind::Pistol => 0,
    };
    write_line(table, Ghost(20), GRAB_TO_WALK, Parameter::Rule(!input.change_weapon && input.is_walking && !input.is_aiming && facts.grab_ended), Ghost(*input), Ghost(*facts));
    write_line(table, Ghost(21), GRAB_TO_AIM, Parameter::Rule(input.is_aiming && facts.grab_ended), Ghost(*input), Ghost(*facts));
    write_line(table, Ghost(22), PISTOL_AIM_FACTOR, Parameter::Weight(pistol), Ghost(*input), Ghost(*facts));
    write_line(table, Ghost(23), RIFLE_AIM_FACTOR, Parameter::Weight(rifle), Ghost(*input), Ghost(*facts));
    write_line(table, Ghost(24), HIT_REACTION_WEAPON_KIND, Parameter::Index(index), Ghost(*input), Ghost(*facts));
}

/// Writes the lines 25 to 29 of the table of a frame.
fn write_lines_25(
    table: &mut ParameterTable,
    input: &UpperBodyMachineInput,
    facts: &CompletionFacts,
)
    requires
        old(table)@ == table_upto(*input, *facts, 25),
    ensures
        final(table)@ == table_upto(*input, *facts, 30),
{
    let back: bool = !input.should_be_stunned && facts.hit_reaction_ended;
    write_line(table, Ghost(25), IDLE_TO_HIT_REACTION, Parameter::Rule(input.should_be_stunned), Ghost(*input), Ghost(*facts));
    write_line(table, Ghost(26), WALK_TO_HIT_REACTION, Parameter::Rule(input.should_be_stunned), Ghost(*input), Ghost(*facts));
    write_line(table, Ghost(27), AIM_TO_HIT_REACTION, Parameter::Rule(input.should_be_stunned), Ghost(*input), Ghost(*facts));
    write_line(table, Ghost(28), HIT_REACTION_TO_IDLE, Parameter::Rule(back), Ghost(*input), Ghost(*facts));
    write_line(table, Ghost(29), HIT_REACTION_TO_WALK, Parameter::Rule(back), Ghost(*input), Ghost(*facts));
}

/// Writes the lines 30 to 34 of the table of a frame.
fn write_lines_30(
    table: &mut ParameterTable,
    input: &UpperBodyMachineInput,
    facts: &CompletionFacts,
)
    requires
        old(table)@ == table_upto(*input, *facts, 30),
    ensures
        final(table)@ == table_upto(*input, *facts, 35),
{
    let back: bool = !input.should_be_stunned && facts.hit_reaction_ended;
    write_line(table, Ghost(30), HIT_REACTION_TO_DYING, Parameter::Rule(input.is_dead), Ghost(*input), Ghost(*facts));
    write_line(table, Ghost(31), HIT_REACTION_TO_AIM, Parameter::Rule(back && input.is_aiming), Ghost(*input), Ghost(*facts));
    write_line(table, Ghost(32), LAND_TO_DYING, Parameter::Rule(input.is_dead), Ghost(*input), Ghost(*facts));
    write_line(table, Ghost(33), IDLE_TO_DYING, Parameter::Rule(input.is_dead), Ghost(*input), Ghost(*facts));
    write_line(table, Ghost(34), FALL_TO_DYING, Parameter::Rule(input.is_dead), Ghost(*input), Ghost(*facts));
}

/// Writes the lines 35 to 39 of the table of a frame.
fn write_lines_35(
    table: &mut ParameterTable,
    input: &UpperBodyMachineInput,
    facts: &CompletionFacts,
)
    requires
        old(table)@ == table_upto(*input, *facts, 35),
    ensures
        final(table)@ == table_upto(*input, *facts, 40),
{
    write_line(table, Ghost(35), WALK_TO_DYING, Parameter::Rule(input.is_dead), Ghost(*input), Ghost(*facts));
    write_line(table, Ghost(36), JUMP_TO_DYING, Parameter::Rule(input.is_dead), Ghost(*input), Ghost(*facts));
    write_line(table, Ghost(37), AIM_TO_DYING, Parameter::Rule(input.is_dead), Ghost(*input), Ghost(*facts));
    write_line(table, Ghost(38), TOSS_GRENADE_TO_DYING, Parameter::Rule(input.is_dead), Ghost(*input), Ghost(*facts));
    write_line(table, Ghost(39), GRAB_TO_DYING, Parameter::Rule(input.is_dead), Ghost(*input), Ghost(*facts));
}

/// Writes the lines 40 to 44 of the table of a frame.
fn write_lines_40(
    table: &mut ParameterTable,
    input: &UpperBodyMachineInput,
    facts: &CompletionFacts,
)
    requires
        old(table)@ == table_upto(*input, *facts, 40),
    ensures
        final(table)@ == table_upto(*input, *facts, 45),
{
    let index: u32 = match input.weapon_kind {
        CombatWeaponKind::Rifle => 0,
        CombatWeaponKind::Pistol => 1,
    };
    let walk: u32 = if input.run_factor > RUN_THRESHOLD {
        index + 2
    } else {
        index
    };
    write_line(table, Ghost(40), PUT_BACK_TO_DYING, Parameter::Rule(input.is_dead), Ghost(*input), Ghost(*facts));
    write_line(table, Ghost(41), WALK_STATE_WEAPON_KIND, Parameter::Index(walk), Ghost(*input), Ghost(*facts));
    write_line(table, Ghost(42), TOSS_GRENADE_TO_AIM, Parameter::Rule(!input.toss_grenade && facts.toss_grenade_ended), Ghost(*input), Ghost(*facts));
    write_line(table, Ghost(43), AIM_TO_TOSS_GRENADE, Parameter::Rule(input.toss_grenade && input.is_aiming), Ghost(*input), Ghost(*facts));
    write_line(table, Ghost(44), IDLE_STATE_WEAPON_KIND, Parameter::Index(index), Ghost(*input), Ghost(*facts));
}

/// Writes the table of a frame.
fn write_parameters(input: &UpperBodyMachineInput, facts: &CompletionFacts) -> (table:
    ParameterTable)
    ensures
        table@ == parameters_of(*input, *facts),
{
    let mut table = ParameterTable::new();
    assert(table@ == table_upto(*input, *facts, 0));
    write_lines_0(&mut table, input, facts);
    write_lines_5(&mut table, input, facts);
    write_lines_10(&mut table, input, facts);
    write_lines_15(&mut table, input, facts);
    write_lines_20(&mut table, input, facts);
    write_lines_25(&mut table, input, facts);
    write_lines_30(&mut table, input, facts);
    write_lines_35(&mut table, input, facts);
    write_lines_40(&mut table, input, facts);
    table
}

impl UpperBodyMachine {
    /// Whether the machine is whole: its layer is sound and has the nodes,
    /// states and transitions of the tables, its seventeen clips are there,
    /// the three clips that carry a signal carry it, and what the machine
    /// remembers of the last frame fits its nodes.
    pub open spec fn wf(&self) -> bool {
        &&& self.machine.wf()
        &&& self.machine.fits(self.clips@.len())
        &&& clips_ok(self.clips@)
        &&& self.clips@.len() == CLIP_COUNT
        &&& self.machine.graph.nodes@.len() == NODE_COUNT
        &&& nodes_match(self.machine.graph.nodes@, NODE_COUNT as int)
        &&& self.machine.states@.len() == STATE_COUNT
        &&& states_match(self.machine.states@, STATE_COUNT as int)
        &&& self.machine.transitions@.len() == TRANSITION_COUNT
        &&& rows_match(self.machine.transitions@, TRANSITION_COUNT as int)
        &&& self.aim_state == AIM_STATE
        &&& self.toss_grenade_state == TOSS_GRENADE_STATE
        &&& self.put_back_state == PUT_BACK_STATE
        &&& self.jump_animation == JUMP_CLIP
        &&& self.walk_animation == WALK_CLIP
        &&& self.run_animation == RUN_CLIP
        &&& self.land_animation == LAND_CLIP
        &&& self.toss_grenade_animation == TOSS_GRENADE_CLIP
        &&& self.put_back_animation == PUT_BACK_CLIP
        &&& self.grab_animation == GRAB_CLIP
        &&& self.dying_animation == DYING_CLIP
        &&& self.hit_reaction_pistol_animation == HIT_REACTION_PISTOL_CLIP
        &&& self.hit_reaction_rifle_animation == HIT_REACTION_RIFLE_CLIP
        &&& self.clips@[GRAB_CLIP as int].signals@.len() == 1
        &&& self.clips@[GRAB_CLIP as int].signals@[0].id == GRAB_WEAPON_SIGNAL
        &&& self.clips@[PUT_BACK_CLIP as int].signals@.len() == 1
        &&& self.clips@[PUT_BACK_CLIP as int].signals@[0].id == PUT_BACK_WEAPON_END_SIGNAL
        &&& self.clips@[TOSS_GRENADE_CLIP as int].signals@.len() == 1
        &&& self.clips@[TOSS_GRENADE_CLIP as int].signals@[0].id == TOSS_GRENADE_SIGNAL
        &&& self.last@.len() == 0 || (self.last@.len() == NODE_COUNT && self.last@[GRAB_NODE as int].fired@.len()
            == 1 && self.last@[PUT_BACK_NODE as int].fired@.len() == 1
            && self.last@[TOSS_GRENADE_NODE as int].fired@.len() == 1)
    }

    /// Which clips have played to their end, as the rules of the next
    /// frame will see it.
    pub open spec fn facts(&self, input: UpperBodyMachineInput) -> CompletionFacts {
        CompletionFacts {
            jump_ended: self.clips@[JUMP_CLIP as int].spec_has_ended(),
            land_ended: self.clips@[LAND_CLIP as int].spec_has_ended(),
            put_back_ended: self.clips@[PUT_BACK_CLIP as int].spec_has_ended(),
            grab_ended: self.clips@[GRAB_CLIP as int].spec_has_ended(),
            toss_grenade_ended: self.clips@[TOSS_GRENADE_CLIP as int].spec_has_ended(),
            hit_reaction_ended: self.clips@[hit_reaction_clip(
                input.weapon_kind,
            ) as int].spec_has_ended(),
        }
    }

    /// Whether `after` and `pose` are this machine and its pose after a
    /// frame of `dt` milliseconds in which it is told `input`: the layer has
    /// gone through the frame with the table that follows from `input` and
    /// from the clips that had ended.
    pub open spec fn applied(
        &self,
        dt: u32,
        input: UpperBodyMachineInput,
        after: UpperBodyMachine,
        pose: Seq<PoseTerm>,
    ) -> bool {
        let values = parameters_of(input, self.facts(input));
        let s = self.machine.stepped(self.clips@, values, dt);
        &&& after.machine.graph.nodes == self.machine.graph.nodes
        &&& after.machine.states == self.machine.states
        &&& after.machine.transitions == self.machine.transitions
        &&& after.machine.entry == self.machine.entry
        &&& after.machine.phase == s.phase
        &&& after.machine.graph.fades@ == s.fades
        &&& after.clips@ == s.clips
        &&& views(after.last@) == s.outputs
        &&& pose == s.pose
    }

    /// Whether this is a machine as it is when it has just been built
    /// over clips of the given lengths: whole, at rest in the state Idle,
    /// every clip set up as the table says and at its start.
    pub open spec fn fresh(&self, lengths: AnimationLengths) -> bool {
        &&& self.wf()
        &&& self.machine.phase == (LayerPhase { active: IDLE_STATE, transition: None, elapsed: 0 })
        &&& self.machine.entry == IDLE_STATE
        &&& forall|k: int|
            0 <= k < CLIP_COUNT ==> clip_matches(#[trigger] self.clips@[k], clip_row(lengths, k))
        &&& forall|i: int|
            0 <= i < NODE_COUNT ==> #[trigger] self.machine.graph.fades@[i] == (Fade {
                previous: None,
                elapsed: 0,
            })
        &&& self.last@.len() == 0
    }

    /// How often the signal `id` fired in the last frame.
    pub open spec fn spec_signal_count(&self, id: u128) -> u64 {
        if self.last@.len() == 0 {
            0
        } else if id == GRAB_WEAPON_SIGNAL {
            self.last@[GRAB_NODE as int].fired@[0]
        } else if id == PUT_BACK_WEAPON_END_SIGNAL {
            self.last@[PUT_BACK_NODE as int].fired@[0]
        } else if id == TOSS_GRENADE_SIGNAL {
            self.last@[TOSS_GRENADE_NODE as int].fired@[0]
        } else {
            0
        }
    }

    /// Builds the machine over clips of the given lengths. The machine
    /// begins at rest in the state Idle, with every clip at its start.
    pub fn new(lengths: AnimationLengths) -> (m: UpperBodyMachine)
        ensures
            m.fresh(lengths),
    {
        let mut clips = make_clips(&lengths);
        let mut layer = Layer::new();
        assert(layer.fits(clips@.len()));
        let ghost mut nodes = layer.graph.nodes@;
        let ghost mut states = layer.states@;
        let hit = make_hit_reaction_state(
            &mut layer,
            &mut clips,
            HIT_REACTION_WEAPON_KIND,
            HIT_REACTION_RIFLE_CLIP,
            HIT_REACTION_PISTOL_CLIP,
        );
        proof {
            assert(layer.graph.nodes@.take(0) =~= nodes);
            lemma_nodes_extend(nodes, layer.graph.nodes@, 0, 3);
            lemma_states_extend(states, layer.states@, 0);
            nodes = layer.graph.nodes@;
            states = layer.states@;
        }
        let aim_state = add_aim_state(&mut layer, CLIP_COUNT, AIM_RIFLE_CLIP, AIM_PISTOL_CLIP);
        proof {
            assert(layer.graph.nodes@.take(3) =~= nodes);
            lemma_nodes_extend(nodes, layer.graph.nodes@, 3, 6);
            lemma_states_extend(states, layer.states@, 1);
            nodes = layer.graph.nodes@;
            states = layer.states@;
        }
        let (toss_grenade_animation, toss_grenade_state) = create_play_animation_state(
            TOSS_GRENADE_CLIP,
            "TossGrenade",
            &mut layer,
            CLIP_COUNT,
        );
        proof {
            assert(layer.graph.nodes@.take(6) =~= nodes);
            lemma_nodes_extend(nodes, layer.graph.nodes@, 6, 7);
            lemma_states_extend(states, layer.states@, 2);
            nodes = layer.graph.nodes@;
            states = layer.states@;
        }
        let idle = IdleStateDefinition::new(
            &mut layer,
            &mut clips,
            IDLE_CLIP,
            IDLE_PISTOL_CLIP,
            IDLE_STATE_WEAPON_KIND,
        );
        proof {
            assert(layer.graph.nodes@.take(7) =~= nodes);
            lemma_nodes_extend(nodes, layer.graph.nodes@, 7, 10);
            lemma_states_extend(states, layer.states@, 3);
            nodes = layer.graph.nodes@;
            states = layer.states@;
        }
        let (jump_animation, jump_state) = create_play_animation_state(
            JUMP_CLIP,
            "Jump",
            &mut layer,
            CLIP_COUNT,
        );
        proof {
            assert(layer.graph.nodes@.take(10) =~= nodes);
            lemma_nodes_extend(nodes, layer.graph.nodes@, 10, 11);
            lemma_states_extend(states, layer.states@, 4);
            nodes = layer.graph.nodes@;
            states = layer.states@;
        }
        let (fall_animation, fall_state) = create_play_animation_state(
            FALL_CLIP,
            "Fall",
            &mut layer,
            CLIP_COUNT,
        );
        proof {
            assert(layer.graph.nodes@.take(11) =~= nodes);
            lemma_nodes_extend(nodes, layer.graph.nodes@, 11, 12);
            lemma_states_extend(states, layer.states@, 5);
            nodes = layer.graph.nodes@;
            states = layer.states@;
        }
        let (land_animation, land_state) = create_play_animation_state(
            LAND_CLIP,
            "Land",
            &mut layer,
            CLIP_COUNT,
        );
        proof {
            assert(layer.graph.nodes@.take(12) =~= nodes);
            lemma_nodes_extend(nodes, layer.graph.nodes@, 12, 13);
            lemma_states_extend(states, layer.states@, 6);
            nodes = layer.graph.nodes@;
            states = layer.states@;
        }
        let (put_back_animation, put_back_state) = create_play_animation_state(
            PUT_BACK_CLIP,
            "PutBack",
            &mut layer,
            CLIP_COUNT,
        );
        proof {
            assert(layer.graph.nodes@.take(13) =~= nodes);
            lemma_nodes_extend(nodes, layer.graph.nodes@, 13, 14);
            lemma_states_extend(states, layer.states@, 7);
            nodes = layer.graph.nodes@;
            states = layer.states@;
        }
        let (grab_animation, grab_state) = create_play_animation_state(
            GRAB_CLIP,
            "Grab",
            &mut layer,
            CLIP_COUNT,
        );
        proof {
            assert(layer.graph.nodes@.take(14) =~= nodes);
            lemma_nodes_extend(nodes, layer.graph.nodes@, 14, 15);
            lemma_states_extend(states, layer.states@, 8);
            nodes = layer.graph.nodes@;
            states = layer.states@;
        }
        let (dying_animation, dying_state) = create_play_animation_state(
            DYING_CLIP,
            "Dying",
            &mut layer,
            CLIP_COUNT,
        );
        proof {
            assert(layer.graph.nodes@.take(15) =~= nodes);
            lemma_nodes_extend(nodes, layer.graph.nodes@, 15, 16);
            lemma_states_extend(states, layer.states@, 9);
            nodes = layer.graph.nodes@;
            states = layer.states@;
        }
        let walk = WalkStateDefinition::new(
            &mut layer,
            CLIP_COUNT,
            WALK_CLIP,
            WALK_PISTOL_CLIP,
            RUN_CLIP,
            RUN_PISTOL_CLIP,
            WALK_STATE_WEAPON_KIND,
        );
        proof {
            assert(layer.graph.nodes@.take(16) =~= nodes);
            lemma_nodes_extend(nodes, layer.graph.nodes@, 16, 21);
            lemma_states_extend(states, layer.states@, 10);
            nodes = layer.graph.nodes@;
            states = layer.states@;
        }
        assert forall|i: int| 0 <= i < NODE_COUNT implies #[trigger] layer.graph.fades@[i] == (Fade {
            previous: None,
            elapsed: 0,
        }) by {}

        // The clips that show one movement play once; those of a jump, of a
        // throw, of taking a weapon and of dying wait for their state.
        set_up_clip(&mut clips, JUMP_CLIP, SPEED_UNIT, false, false);
        set_up_clip(&mut clips, LAND_CLIP, SPEED_UNIT, false, true);
        set_up_clip(&mut clips, GRAB_CLIP, 3000, false, false);
        add_signal_to(&mut clips, GRAB_CLIP, GRAB_WEAPON_SIGNAL, "GrabWeapon", GRAB_WEAPON_TIME);
        let put_back_duration = clips[PUT_BACK_CLIP].length();
        set_up_clip(&mut clips, PUT_BACK_CLIP, 3000, false, true);
        add_signal_to(
            &mut clips,
            PUT_BACK_CLIP,
            PUT_BACK_WEAPON_END_SIGNAL,
            "PutBackWeapon",
            put_back_duration,
        );
        set_up_clip(&mut clips, TOSS_GRENADE_CLIP, 1500, false, false);
        add_signal_to(
            &mut clips,
            TOSS_GRENADE_CLIP,
            TOSS_GRENADE_SIGNAL,
            "TossGrenade",
            TOSS_GRENADE_TIME,
        );
        set_up_clip(&mut clips, DYING_CLIP, SPEED_UNIT, false, false);
        assert forall|k: int| 0 <= k < CLIP_COUNT implies clip_matches(
            #[trigger] clips@[k],
            clip_row(lengths, k),
        ) by {}

        add_transitions(&mut layer);
        layer.set_entry_state(idle.state);
        UpperBodyMachine {
            clips,
            machine: layer,
            aim_state,
            toss_grenade_state,
            put_back_state,
            jump_animation,
            walk_animation: walk.walk_animation,
            run_animation: walk.run_animation,
            land_animation,
            toss_grenade_animation,
            put_back_animation,
            grab_animation,
            dying_animation,
            hit_reaction_pistol_animation: hit.hit_reaction_pistol_animation,
            hit_reaction_rifle_animation: hit.hit_reaction_rifle_animation,
            last: Vec::new(),
        }
    }

    /// Reads which clips have played to their end.
    fn read_facts(&self, input: &UpperBodyMachineInput) -> (facts: CompletionFacts)
        requires
            self.wf(),
        ensures
            facts == self.facts(*input),
    {
        let current_hit_reaction_animation = match input.weapon_kind {
            CombatWeaponKind::Rifle => self.hit_reaction_rifle_animation,
            CombatWeaponKind::Pistol => self.hit_reaction_pistol_animation,
        };
        CompletionFacts {
            jump_ended: self.clips[self.jump_animation].has_ended(),
            land_ended: self.clips[self.land_animation].has_ended(),
            put_back_ended: self.clips[self.put_back_animation].has_ended(),
            grab_ended: self.clips[self.grab_animation].has_ended(),
            toss_grenade_ended: self.clips[self.toss_grenade_animation].has_ended(),
            hit_reaction_ended: self.clips[current_hit_reaction_animation].has_ended(),
        }
    }

    /// Takes the machine through a frame of `dt` milliseconds and gives the
    /// pose of the upper body. In order: the clips that have ended are
    /// noted; the frame's table is written from them and from `input`; a
    /// transition may begin; the clips move.
    pub fn apply(&mut self, dt: u32, input: UpperBodyMachineInput) -> (pose: Vec<PoseTerm>)
        requires
            old(self).wf(),
        ensures
            final(self).wf(),
            old(self).applied(dt, input, *final(self), pose@),
    {
        let facts = self.read_facts(&input);
        let table = write_parameters(&input, &facts);
        proof {
            self.machine.lemma_stepped_shape(self.clips@, table@, dt);
            let s = self.machine.stepped(self.clips@, table@, dt);
            assert(same_setup(self.clips@[GRAB_CLIP as int], s.clips[GRAB_CLIP as int]));
            assert(same_setup(
                self.clips@[PUT_BACK_CLIP as int],
                s.clips[PUT_BACK_CLIP as int],
            ));
            assert(same_setup(
                self.clips@[TOSS_GRENADE_CLIP as int],
                s.clips[TOSS_GRENADE_CLIP as int],
            ));
            assert(node_matches(self.machine.graph.nodes@[GRAB_NODE as int], node_row(GRAB_NODE as int)));
            assert(node_matches(
                self.machine.graph.nodes@[PUT_BACK_NODE as int],
                node_row(PUT_BACK_NODE as int),
            ));
            assert(node_matches(
                self.machine.graph.nodes@[TOSS_GRENADE_NODE as int],
                node_row(TOSS_GRENADE_NODE as int),
            ));
        }
        let out = self.machine.step(&mut self.clips, &table, dt);
        self.last = out.nodes;
        proof {
            let s = old(self).machine.stepped(old(self).clips@, table@, dt);
            assert(views(self.last@)[GRAB_NODE as int] == self.last@[GRAB_NODE as int]@);
            assert(views(self.last@)[PUT_BACK_NODE as int] == self.last@[PUT_BACK_NODE as int]@);
            assert(views(self.last@)[TOSS_GRENADE_NODE as int] == self.last@[TOSS_GRENADE_NODE as int]@);
            assert(views(self.last@).len() == self.last@.len());
        }
        out.pose
    }

    /// The clips of the hit, for the rifle and for the pistol.
    pub fn hit_reaction_animations(&self) -> (animations: [usize; 2])
        ensures
            animations@ == seq![
                self.hit_reaction_rifle_animation,
                self.hit_reaction_pistol_animation,
            ],
    {
        let animations = [self.hit_reaction_rifle_animation, self.hit_reaction_pistol_animation];
        assert(animations@ =~= seq![
            self.hit_reaction_rifle_animation,
            self.hit_reaction_pistol_animation,
        ]);
        animations
    }

    /// How often the signal `id` fired in the last frame; nothing for a
    /// signal the machine does not have, and before the first frame.
    pub fn signal_count(&self, id: u128) -> (count: u64)
        requires
            self.wf(),
        ensures
            count == self.spec_signal_count(id),
    {
        if self.last.len() == 0 {
            0
        } else if id == GRAB_WEAPON_SIGNAL {
            self.last[GRAB_NODE].fired[0]
        } else if id == PUT_BACK_WEAPON_END_SIGNAL {
            self.last[PUT_BACK_NODE].fired[0]
        } else if id == TOSS_GRENADE_SIGNAL {
            self.last[TOSS_GRENADE_NODE].fired[0]
        } else {
            0
        }
    }

    /// Tells whether the signal `id` fired in the last frame.
    pub fn has_signal_fired(&self, id: u128) -> (fired: bool)
        requires
            self.wf(),
        ensures
            fired == (self.spec_signal_count(id) > 0),
    {
        self.signal_count(id) > 0
    }

    /// The active state; while a transition blends, the state it leaves.
    pub fn active_state(&self) -> (state: usize)
        ensures
            state == self.machine.phase.active,
    {
        self.machine.active_state()
    }

    /// No transition leaves the state Dying.
    pub proof fn lemma_dying_has_no_exit(&self)
        requires
            self.wf(),
        ensures
            forall|t: int|
                0 <= t < self.machine.transitions@.len() ==> (
                #[trigger] self.machine.transitions@[t]).source != DYING_STATE,
    {
        assert forall|t: int| 0 <= t < self.machine.transitions@.len() implies (
        #[trigger] self.machine.transitions@[t]).source != DYING_STATE by {
            assert(transition_matches(self.machine.transitions@[t], transition_row(t)));
        }
    }

    /// Death is final: a machine at rest in the state Dying stays there,
    /// whatever it is told.
    pub proof fn lemma_dying_is_absorbing(&self, input: UpperBodyMachineInput, dt: u32)
        requires
            self.wf(),
            self.machine.phase == (LayerPhase { active: DYING_STATE, transition: None, elapsed: 0 }),
        ensures
            self.machine.stepped(
                self.clips@,
                parameters_of(input, self.facts(input)),
                dt,
            ).phase == self.machine.phase,
    {
        self.lemma_dying_has_no_exit();
        lemma_state_without_exit_is_kept(
            self.machine.transitions@,
            self.machine.phase,
            parameters_of(input, self.facts(input)),
            dt,
        );
    }

    /// A machine at rest stays in its state through a frame in which none
    /// of the rules that lead out of the state holds.
    pub proof fn lemma_quiet_frame_keeps_state(&self, input: UpperBodyMachineInput, dt: u32)
        requires
            self.wf(),
            self.machine.phase.transition.is_none(),
            forall|t: int|
                0 <= t < TRANSITION_COUNT ==> !fires(
                    self.machine.transitions@,
                    t,
                    self.machine.phase.active,
                    parameters_of(input, self.facts(input)),
                ),
        ensures
            self.machine.stepped(
                self.clips@,
                parameters_of(input, self.facts(input)),
                dt,
            ).phase == self.machine.phase,
    {
        lemma_quiet_phase_is_kept(
            self.machine.transitions@,
            self.machine.phase,
            parameters_of(input, self.facts(input)),
            dt,
        );
    }
}

/// What a track of a pose sets on a bone.
#[derive(Copy, Clone, Debug, PartialEq, Eq, Structural)]
pub enum TrackBinding {
    Position,
    Rotation,
    Scale,
    /// Some other property of the bone.
    Property,
}

/// The kind of value a track carries.
#[derive(Copy, Clone, Debug, PartialEq, Eq, Structural)]
pub enum TrackValueKind {
    Real,
    Vector2,
    Vector3,
    Vector4,
    UnitQuaternion,
}

/// A track of a pose, as far as the choice of what to apply depends on it.
#[derive(Copy, Clone, Debug, PartialEq, Eq, Structural)]
pub struct BoundTrack {
    pub binding: TrackBinding,
    pub value: TrackValueKind,
}

/// Whether a track is applied to a bone. Every track is applied to every
/// bone but the hips; to the hips only a scale that is a vector of three is
/// applied, so that clips cannot shift or turn the body as a whole.
pub open spec fn track_applies(is_hips: bool, track: BoundTrack) -> bool {
    !is_hips || (track.binding == TrackBinding::Scale && track.value == TrackValueKind::Vector3)
}

/// The first `upto` tracks of a bone that are applied, by number, in order.
pub open spec fn applied_tracks(is_hips: bool, tracks: Seq<BoundTrack>, upto: int) -> Seq<usize>
    decreases upto,
{
    if upto <= 0 {
        Seq::empty()
    } else if track_applies(is_hips, tracks[upto - 1]) {
        applied_tracks(is_hips, tracks, upto - 1).push((upto - 1) as usize)
    } else {
        applied_tracks(is_hips, tracks, upto - 1)
    }
}

/// Tells which tracks of the bone `node` are applied, by number, when the
/// hips are the bone `hips_handle`.
pub fn tracks_to_apply(node: u64, hips_handle: u64, tracks: &Vec<BoundTrack>) -> (applied: Vec<usize>)
    ensures
        applied@ == applied_tracks(node == hips_handle, tracks@, tracks@.len() as int),
{
    let is_hips = node == hips_handle;
    let mut applied: Vec<usize> = Vec::new();
    let mut i: usize = 0;
    while i < tracks.len()
        invariant
            i <= tracks@.len(),
            is_hips == (node == hips_handle),
            applied@ == applied_tracks(is_hips, tracks@, i as int),
        decreases tracks@.len() - i,
    {
        let track = tracks[i];
        let keep = !is_hips || (track.binding == TrackBinding::Scale && track.value
            == TrackValueKind::Vector3);
        if keep {
            applied.push(i);
        }
        i += 1;
    }
    applied
}

/// On the hips nothing but scale is applied, and on every other bone
/// everything is.
pub proof fn lemma_applied_tracks(is_hips: bool, tracks: Seq<BoundTrack>, upto: int)
    requires
        0 <= upto <= tracks.len(),
        upto <= usize::MAX,
    ensures
        forall|j: int|
            0 <= j < applied_tracks(is_hips, tracks, upto).len() ==> {
                let k = #[trigger] applied_tracks(is_hips, tracks, upto)[j];
                k < upto && track_applies(is_hips, tracks[k as int])
            },
        forall|k: int|
            0 <= k < upto && track_applies(is_hips, tracks[k]) ==> applied_tracks(
                is_hips,
                tracks,
                upto,
            ).contains(k as usize),
        !is_hips ==> applied_tracks(is_hips, tracks, upto).len() == upto,
    decreases upto,
{
    if upto > 0 {
        lemma_applied_tracks(is_hips, tracks, upto - 1);
        let before = applied_tracks(is_hips, tracks, upto - 1);
        let now = applied_tracks(is_hips, tracks, upto);
        assert forall|k: int| 0 <= k < upto && track_applies(is_hips, tracks[k]) implies now.contains(
            k as usize,
        ) by {
            if k < upto - 1 {
                assert(before.contains(k as usize));
                let j = choose|j: int| 0 <= j < before.len() && before[j] == k as usize;
                assert(now[j] == k as usize);
            } else {
                assert(now[now.len() - 1] == k as usize);
            }
        }
    }
}

/// Line `t` of the table of transitions: name, source, target, duration
/// and rule.
pub fn transition_line(t: usize) -> (line: (&'static str, usize, usize, u32, &'static str))
    requires
        t < TRANSITION_COUNT,
    ensures
        transition_row(t as int) == (TransitionRow {
            name: line.0@,
            source: line.1,
            target: line.2,
            duration: line.3,
            rule: line.4@,
        }),
        line.1 < STATE_COUNT,
        line.2 < STATE_COUNT,
{
    if t == 0 {
        ("Walk->Idle", WALK_STATE, IDLE_STATE, 300, WALK_TO_IDLE)
    } else if t == 1 {
        ("Walk->Jump", WALK_STATE, JUMP_STATE, 200, WALK_TO_JUMP)
    } else if t == 2 {
        ("Idle->Walk", IDLE_STATE, WALK_STATE, 400, IDLE_TO_WALK)
    } else if t == 3 {
        ("Idle->Jump", IDLE_STATE, JUMP_STATE, 250, IDLE_TO_JUMP)
    } else if t == 4 {
        ("Falling->Landing", FALL_STATE, LAND_STATE, 200, FALL_TO_LAND)
    } else if t == 5 {
        ("Landing->Idle", LAND_STATE, IDLE_STATE, 200, LAND_TO_IDLE)
    } else if t == 6 {
        ("Jump->Falling", JUMP_STATE, FALL_STATE, 300, JUMP_TO_FALL)
    } else if t == 7 {
        ("Walk->Falling", WALK_STATE, FALL_STATE, 300, WALK_TO_FALL)
    } else if t == 8 {
        ("Idle->Falling", IDLE_STATE, FALL_STATE, 200, IDLE_TO_FALL)
    } else if t == 9 {
        ("Idle->Aim", IDLE_STATE, AIM_STATE, 200, IDLE_TO_AIM)
    } else if t == 10 {
        ("Walk->Aim", WALK_STATE, AIM_STATE, 200, WALK_TO_AIM)
    } else if t == 11 {
        ("Aim->Idle", AIM_STATE, IDLE_STATE, 200, AIM_TO_IDLE)
    } else if t == 12 {
        ("Walk->Aim", AIM_STATE, WALK_STATE, 200, AIM_TO_WALK)
    } else if t == 13 {
        ("Aim->TossGrenade", AIM_STATE, TOSS_GRENADE_STATE, 200, AIM_TO_TOSS_GRENADE)
    } else if t == 14 {
        ("TossGrenade->Aim", TOSS_GRENADE_STATE, AIM_STATE, 200, TOSS_GRENADE_TO_AIM)
    } else if t == 15 {
        ("Aim->PutBack", AIM_STATE, PUT_BACK_STATE, 100, AIM_TO_PUT_BACK)
    } else if t == 16 {
        ("Walk->PutBack", WALK_STATE, PUT_BACK_STATE, 100, WALK_TO_PUT_BACK)
    } else if t == 17 {
        ("Idle->PutBack", IDLE_STATE, PUT_BACK_STATE, 100, IDLE_TO_PUT_BACK)
    } else if t == 18 {
        ("PutBack->Idle", PUT_BACK_STATE, IDLE_STATE, 200, PUT_BACK_TO_IDLE)
    } else if t == 19 {
        ("PutBack->Walk", PUT_BACK_STATE, WALK_STATE, 200, PUT_BACK_TO_WALK)
    } else if t == 20 {
        ("PutBack->Grab", PUT_BACK_STATE, GRAB_STATE, 100, PUT_BACK_TO_GRAB)
    } else if t == 21 {
        ("Grab->Idle", GRAB_STATE, IDLE_STATE, 200, GRAB_TO_IDLE)
    } else if t == 22 {
        ("Grab->Walk", GRAB_STATE, WALK_STATE, 200, GRAB_TO_WALK)
    } else if t == 23 {
        ("Grab->Aim", GRAB_STATE, AIM_STATE, 200, GRAB_TO_AIM)
    } else if t == 24 {
        ("Land->Dying", LAND_STATE, DYING_STATE, 200, LAND_TO_DYING)
    } else if t == 25 {
        ("Fall->Dying", FALL_STATE, DYING_STATE, 200, FALL_TO_DYING)
    } else if t == 26 {
        ("Idle->Dying", IDLE_STATE, DYING_STATE, 200, IDLE_TO_DYING)
    } else if t == 27 {
        ("Walk->Dying", WALK_STATE, DYING_STATE, 200, WALK_TO_DYING)
    } else if t == 28 {
        ("Jump->Dying", JUMP_STATE, DYING_STATE, 200, JUMP_TO_DYING)
    } else if t == 29 {
        ("Aim->Dying", AIM_STATE, DYING_STATE, 200, AIM_TO_DYING)
    } else if t == 30 {
        ("TossGrenade->Dying", TOSS_GRENADE_STATE, DYING_STATE, 200, TOSS_GRENADE_TO_DYING)
    } else if t == 31 {
        ("Grab->Dying", GRAB_STATE, DYING_STATE, 200, GRAB_TO_DYING)
    } else if t == 32 {
        ("PutBack->Dying", PUT_BACK_STATE, DYING_STATE, 200, PUT_BACK_TO_DYING)
    } else if t == 33 {
        ("Idle->HitReaction", IDLE_STATE, HIT_REACTION_STATE, 200, IDLE_TO_HIT_REACTION)
    } else if t == 34 {
        ("Walk->HitReaction", WALK_STATE, HIT_REACTION_STATE, 200, WALK_TO_HIT_REACTION)
    } else if t == 35 {
        ("HitReaction->Idle", HIT_REACTION_STATE, IDLE_STATE, 200, HIT_REACTION_TO_IDLE)
    } else if t == 36 {
        ("HitReaction->Walk", HIT_REACTION_STATE, WALK_STATE, 200, HIT_REACTION_TO_WALK)
    } else if t == 37 {
        ("HitReaction->Dying", HIT_REACTION_STATE, DYING_STATE, 200, HIT_REACTION_TO_DYING)
    } else if t == 38 {
        ("Aim->HitReaction", AIM_STATE, HIT_REACTION_STATE, 200, AIM_TO_HIT_REACTION)
    } else {
        ("HitReaction->Aim", HIT_REACTION_STATE, AIM_STATE, 200, HIT_REACTION_TO_AIM)
    }
}

/// Line `s` of the table of states: name and root.
pub fn state_line(s: usize) -> (line: (&'static str, usize))
    requires
        s < STATE_COUNT,
    ensures
        state_row(s as int) == (StateRow { name: line.0@, root: line.1 }),
{
    if s == HIT_REACTION_STATE {
        ("HitReaction", 2)
    } else if s == AIM_STATE {
        ("Aim", 5)
    } else if s == TOSS_GRENADE_STATE {
        ("TossGrenade", 6)
    } else if s == IDLE_STATE {
        ("Idle", 9)
    } else if s == JUMP_STATE {
        ("Jump", 10)
    } else if s == FALL_STATE {
        ("Fall", 11)
    } else if s == LAND_STATE {
        ("Land", 12)
    } else if s == PUT_BACK_STATE {
        ("PutBack", 13)
    } else if s == GRAB_STATE {
        ("Grab", 14)
    } else if s == DYING_STATE {
        ("Dying", 15)
    } else {
        ("Walk", 20)
    }
}

/// Tells whether two names are the same.
fn same_name(name: &String, wanted: &str) -> (same: bool)
    ensures
        same == (name@ == wanted@),
{
    let wanted = String::from_str(wanted);
    *name == wanted
}

/// Tells whether `choices` are the nodes `children`, each fading for
/// `blend_time`.
fn check_choices(choices: &Vec<IndexedInput>, blend_time: u32, children: &Vec<usize>) -> (ok: bool)
    ensures
        ok == (choices@ == choices_of(blend_time, children@)),
{
    if choices.len() != children.len() {
        assert(choices@.len() != choices_of(blend_time, children@).len());
        return false;
    }
    let mut j: usize = 0;
    while j < choices.len()
        invariant
            j <= choices@.len(),
            choices@.len() == children@.len(),
            forall|k: int|
                0 <= k < j ==> #[trigger] choices@[k] == (IndexedInput {
                    blend_time,
                    child: children@[k],
                }),
        decreases choices@.len() - j,
    {
        if choices[j].blend_time != blend_time || choices[j].child != children[j] {
            assert(choices@[j as int] != choices_of(blend_time, children@)[j as int]);
            return false;
        }
        j += 1;
    }
    assert(choices@ =~= choices_of(blend_time, children@));
    true
}

/// Tells whether `node` chooses among `children` by the index named
/// `parameter`, each choice fading for `blend_time`.
fn check_choice(node: &PoseNode, parameter: &str, blend_time: u32, children: &Vec<usize>) -> (ok:
    bool)
    ensures
        ok == is_indexed(*node, parameter@, choices_of(blend_time, children@)),
{
    match node {
        PoseNode::BlendIndexed { parameter: p, choices } => same_name(p, parameter)
            && check_choices(choices, blend_time, children),
        _ => false,
    }
}

/// Tells whether `node` mixes the node `first`, weighted by the parameter
/// named `first_weight`, with the node `second`, weighted by the one named
/// `second_weight`.
fn check_mix(
    node: &PoseNode,
    first_weight: &str,
    first: usize,
    second_weight: &str,
    second: usize,
) -> (ok: bool)
    ensures
        ok == is_mix(*node, first_weight@, first, second_weight@, second),
{
    match node {
        PoseNode::BlendWeighted { inputs } => {
            if inputs.len() != 2 || inputs[0].child != first || inputs[1].child != second {
                return false;
            }
            let first_named = match &inputs[0].weight {
                WeightSource::Parameter(name) => same_name(name, first_weight),
                WeightSource::Constant(_) => false,
            };
            let second_named = match &inputs[1].weight {
                WeightSource::Parameter(name) => same_name(name, second_weight),
                WeightSource::Constant(_) => false,
            };
            first_named && second_named
        },
        _ => false,
    }
}

/// Tells whether `node` plays the clip `clip`.
fn check_play(node: &PoseNode, clip: usize) -> (ok: bool)
    ensures
        ok == node_matches(*node, NodeRow::Play(clip)),
{
    match node {
        PoseNode::PlayClip { clip: played } => *played == clip,
        _ => false,
    }
}

/// Tells whether `node` is node `i` of the table of nodes.
pub fn check_node(node: &PoseNode, i: usize) -> (ok: bool)
    requires
        i < NODE_COUNT,
    ensures
        ok == node_matches(*node, node_row(i as int)),
{
    if i == 0 {
        check_play(node, HIT_REACTION_RIFLE_CLIP)
    } else if i == 1 {
        check_play(node, HIT_REACTION_PISTOL_CLIP)
    } else if i == 2 {
        let children: Vec<usize> = vec![0, 1];
        assert(children@ =~= seq![0usize, 1usize]);
        check_choice(node, HIT_REACTION_WEAPON_KIND, 200, &children)
    } else if i == 3 {
        check_play(node, AIM_RIFLE_CLIP)
    } else if i == 4 {
        check_play(node, AIM_PISTOL_CLIP)
    } else if i == 5 {
        check_mix(node, RIFLE_AIM_FACTOR, 3, PISTOL_AIM_FACTOR, 4)
    } else if i == 6 {
        check_play(node, TOSS_GRENADE_CLIP)
    } else if i == 7 {
        check_play(node, IDLE_CLIP)
    } else if i == 8 {
        check_play(node, IDLE_PISTOL_CLIP)
    } else if i == 9 {
        let children: Vec<usize> = vec![7, 8];
        assert(children@ =~= seq![7usize, 8usize]);
        check_choice(node, IDLE_STATE_WEAPON_KIND, 100, &children)
    } else if i == 10 {
        check_play(node, JUMP_CLIP)
    } else if i == 11 {
        check_play(node, FALL_CLIP)
    } else if i == 12 {
        check_play(node, LAND_CLIP)
    } else if i == 13 {
        check_play(node, PUT_BACK_CLIP)
    } else if i == 14 {
        check_play(node, GRAB_CLIP)
    } else if i == 15 {
        check_play(node, DYING_CLIP)
    } else if i == 16 {
        check_play(node, WALK_CLIP)
    } else if i == 17 {
        check_play(node, WALK_PISTOL_CLIP)
    } else if i == 18 {
        check_play(node, RUN_CLIP)
    } else if i == 19 {
        check_play(node, RUN_PISTOL_CLIP)
    } else {
        let children: Vec<usize> = vec![16, 17, 18, 19];
        assert(children@ =~= seq![16usize, 17usize, 18usize, 19usize]);
        check_choice(node, WALK_STATE_WEAPON_KIND, 500, &children)
    }
}

impl UpperBodyMachine {
    /// Tells whether the layer has the nodes, states and transitions of
    /// the tables.
    fn check_tables(&self) -> (ok: bool)
        ensures
            ok == ({
                &&& self.machine.graph.nodes@.len() == NODE_COUNT
                &&& nodes_match(self.machine.graph.nodes@, NODE_COUNT as int)
                &&& self.machine.states@.len() == STATE_COUNT
                &&& states_match(self.machine.states@, STATE_COUNT as int)
                &&& self.machine.transitions@.len() == TRANSITION_COUNT
                &&& rows_match(self.machine.transitions@, TRANSITION_COUNT as int)
            }),
    {
        if self.machine.graph.nodes.len() != NODE_COUNT || self.machine.states.len()
            != STATE_COUNT || self.machine.transitions.len() != TRANSITION_COUNT {
            return false;
        }
        let mut i: usize = 0;
        while i < NODE_COUNT
            invariant
                i <= NODE_COUNT,
                self.machine.graph.nodes@.len() == NODE_COUNT,
                nodes_match(self.machine.graph.nodes@, i as int),
            decreases NODE_COUNT - i,
        {
            if !check_node(&self.machine.graph.nodes[i], i) {
                return false;
            }
            i += 1;
        }
        let mut s: usize = 0;
        while s < STATE_COUNT
            invariant
                s <= STATE_COUNT,
                self.machine.states@.len() == STATE_COUNT,
                states_match(self.machine.states@, s as int),
            decreases STATE_COUNT - s,
        {
            let line = state_line(s);
            if !same_name(&self.machine.states[s].name, line.0) || self.machine.states[s].root
                != line.1 {
                return false;
            }
            s += 1;
        }
        let mut t: usize = 0;
        while t < TRANSITION_COUNT
            invariant
                t <= TRANSITION_COUNT,
                self.machine.transitions@.len() == TRANSITION_COUNT,
                rows_match(self.machine.transitions@, t as int),
            decreases TRANSITION_COUNT - t,
        {
            let line = transition_line(t);
            let transition = &self.machine.transitions[t];
            if !same_name(&transition.name, line.0) || transition.source != line.1
                || transition.target != line.2 || transition.duration != line.3 || !same_name(
                &transition.rule,
                line.4,
            ) {
                assert(!transition_matches(self.machine.transitions@[t as int], transition_row(t as int)));
                return false;
            }
            t += 1;
        }
        true
    }

    /// Tells whether the machine is whole.
    pub fn check(&self) -> (whole: bool)
        ensures
            whole == self.wf(),
    {
        if !self.machine.check() || !self.machine.graph.check_clips(self.clips.len())
            || !check_clips(&self.clips) || self.clips.len() != CLIP_COUNT {
            return false;
        }
        if !self.check_tables() {
            return false;
        }
        if !(self.aim_state == AIM_STATE && self.toss_grenade_state == TOSS_GRENADE_STATE
            && self.put_back_state == PUT_BACK_STATE && self.jump_animation == JUMP_CLIP
            && self.walk_animation == WALK_CLIP && self.run_animation == RUN_CLIP
            && self.land_animation == LAND_CLIP && self.toss_grenade_animation
            == TOSS_GRENADE_CLIP && self.put_back_animation == PUT_BACK_CLIP
            && self.grab_animation == GRAB_CLIP && self.dying_animation == DYING_CLIP
            && self.hit_reaction_pistol_animation == HIT_REACTION_PISTOL_CLIP
            && self.hit_reaction_rifle_animation == HIT_REACTION_RIFLE_CLIP) {
            return false;
        }
        if !(self.clips[GRAB_CLIP].signals.len() == 1 && self.clips[GRAB_CLIP].signals[0].id
            == GRAB_WEAPON_SIGNAL && self.clips[PUT_BACK_CLIP].signals.len() == 1
            && self.clips[PUT_BACK_CLIP].signals[0].id == PUT_BACK_WEAPON_END_SIGNAL
            && self.clips[TOSS_GRENADE_CLIP].signals.len() == 1
            && self.clips[TOSS_GRENADE_CLIP].signals[0].id == TOSS_GRENADE_SIGNAL) {
            return false;
        }
        self.last.len() == 0 || (self.last.len() == NODE_COUNT && self.last[GRAB_NODE].fired.len()
            == 1 && self.last[PUT_BACK_NODE].fired.len() == 1
            && self.last[TOSS_GRENADE_NODE].fired.len() == 1)
    }
}

/// What tells the names of the table apart: the length of each name and
/// four of its letters.
proof fn lemma_names()
    ensures
        IDLE_TO_WALK@.len() == 10,
        IDLE_TO_WALK@[0] == 'I',
        IDLE_TO_WALK@[5] == 'o',
        IDLE_TO_WALK@[9] == 'k',
        WALK_TO_IDLE@.len() == 10,
        WALK_TO_IDLE@[0] == 'W',
        WALK_TO_IDLE@[5] == 'o',
        WALK_TO_IDLE@[9] == 'e',
        WALK_TO_JUMP@.len() == 10,
        WALK_TO_JUMP@[0] == 'W',
        WALK_TO_JUMP@[5] == 'o',
        WALK_TO_JUMP@[9] == 'p',
        IDLE_TO_JUMP@.len() == 10,
        IDLE_TO_JUMP@[0] == 'I',
        IDLE_TO_JUMP@[5] == 'o',
        IDLE_TO_JUMP@[9] == 'p',
        JUMP_TO_FALL@.len() == 10,
        JUMP_TO_FALL@[0] == 'J',
        JUMP_TO_FALL@[5] == 'o',
        JUMP_TO_FALL@[9] == 'l',
        WALK_TO_FALL@.len() == 10,
        WALK_TO_FALL@[0] == 'W',
        WALK_TO_FALL@[5] == 'o',
        WALK_TO_FALL@[9] == 'l',
        IDLE_TO_FALL@.len() == 10,
        IDLE_TO_FALL@[0] == 'I',
        IDLE_TO_FALL@[5] == 'o',
        IDLE_TO_FALL@[9] == 'l',
        FALL_TO_LAND@.len() == 10,
        FALL_TO_LAND@[0] == 'F',
        FALL_TO_LAND@[5] == 'o',
        FALL_TO_LAND@[9] == 'd',
        LAND_TO_IDLE@.len() == 10,
        LAND_TO_IDLE@[0] == 'L',
        LAND_TO_IDLE@[5] == 'o',
        LAND_TO_IDLE@[9] == 'e',
        IDLE_TO_AIM@.len() == 9,
        IDLE_TO_AIM@[0] == 'I',
        IDLE_TO_AIM@[5] == 'o',
        WALK_TO_AIM@.len() == 9,
        WALK_TO_AIM@[0] == 'W',
        WALK_TO_AIM@[5] == 'o',
        AIM_TO_IDLE@.len() == 9,
        AIM_TO_IDLE@[0] == 'A',
        AIM_TO_IDLE@[5] == 'I',
        AIM_TO_WALK@.len() == 9,
        AIM_TO_WALK@[0] == 'A',
        AIM_TO_WALK@[5] == 'W',
        AIM_TO_PUT_BACK@.len() == 12,
        AIM_TO_PUT_BACK@[0] == 'A',
        AIM_TO_PUT_BACK@[5] == 'P',
        AIM_TO_PUT_BACK@[9] == 'a',
        WALK_TO_PUT_BACK@.len() == 13,
        WALK_TO_PUT_BACK@[0] == 'W',
        WALK_TO_PUT_BACK@[5] == 'o',
        WALK_TO_PUT_BACK@[9] == 'B',
        IDLE_TO_PUT_BACK@.len() == 13,
        IDLE_TO_PUT_BACK@[0] == 'I',
        IDLE_TO_PUT_BACK@[5] == 'o',
        IDLE_TO_PUT_BACK@[9] == 'B',
        PUT_BACK_TO_IDLE@.len() == 13,
        PUT_BACK_TO_IDLE@[0] == 'P',
        PUT_BACK_TO_IDLE@[5] == 'c',
        PUT_BACK_TO_IDLE@[9] == 'I',
        PUT_BACK_TO_WALK@.len() == 13,
        PUT_BACK_TO_WALK@[0] == 'P',
        PUT_BACK_TO_WALK@[5] == 'c',
        PUT_BACK_TO_WALK@[9] == 'W',
        PUT_BACK_TO_GRAB@.len() == 13,
        PUT_BACK_TO_GRAB@[0] == 'P',
        PUT_BACK_TO_GRAB@[5] == 'c',
        PUT_BACK_TO_GRAB@[9] == 'G',
        GRAB_TO_IDLE@.len() == 10,
        GRAB_TO_IDLE@[0] == 'G',
        GRAB_TO_IDLE@[5] == 'o',
        GRAB_TO_IDLE@[9] == 'e',
        GRAB_TO_WALK@.len() == 10,
        GRAB_TO_WALK@[0] == 'G',
        GRAB_TO_WALK@[5] == 'o',
        GRAB_TO_WALK@[9] == 'k',
        GRAB_TO_AIM@.len() == 9,
        GRAB_TO_AIM@[0] == 'G',
        GRAB_TO_AIM@[5] == 'o',
        PISTOL_AIM_FACTOR@.len() == 15,
        PISTOL_AIM_FACTOR@[0] == 'P',
        PISTOL_AIM_FACTOR@[5] == 'l',
        PISTOL_AIM_FACTOR@[9] == 'F',
        PISTOL_AIM_FACTOR@[13] == 'o',
        RIFLE_AIM_FACTOR@.len() == 14,
        RIFLE_AIM_FACTOR@[0] == 'R',
        RIFLE_AIM_FACTOR@[5] == 'A',
        RIFLE_AIM_FACTOR@[9] == 'a',
        RIFLE_AIM_FACTOR@[13] == 'r',
        HIT_REACTION_WEAPON_KIND@.len() == 21,
        HIT_REACTION_WEAPON_KIND@[0] == 'H',
        HIT_REACTION_WEAPON_KIND@[5] == 'a',
        HIT_REACTION_WEAPON_KIND@[9] == 'o',
        HIT_REACTION_WEAPON_KIND@[13] == 'a',
        IDLE_TO_HIT_REACTION@.len() == 17,
        IDLE_TO_HIT_REACTION@[0] == 'I',
        IDLE_TO_HIT_REACTION@[5] == 'o',
        IDLE_TO_HIT_REACTION@[9] == 'R',
        IDLE_TO_HIT_REACTION@[13] == 't',
        WALK_TO_HIT_REACTION@.len() == 17,
        WALK_TO_HIT_REACTION@[0] == 'W',
        WALK_TO_HIT_REACTION@[5] == 'o',
        WALK_TO_HIT_REACTION@[9] == 'R',
        WALK_TO_HIT_REACTION@[13] == 't',
        AIM_TO_HIT_REACTION@.len() == 16,
        AIM_TO_HIT_REACTION@[0] == 'A',
        AIM_TO_HIT_REACTION@[5] == 'H',
        AIM_TO_HIT_REACTION@[9] == 'e',
        AIM_TO_HIT_REACTION@[13] == 'i',
        HIT_REACTION_TO_IDLE@.len() == 17,
        HIT_REACTION_TO_IDLE@[0] == 'H',
        HIT_REACTION_TO_IDLE@[5] == 'a',
        HIT_REACTION_TO_IDLE@[9] == 'o',
        HIT_REACTION_TO_IDLE@[13] == 'I',
        HIT_REACTION_TO_WALK@.len() == 17,
        HIT_REACTION_TO_WALK@[0] == 'H',
        HIT_REACTION_TO_WALK@[5] == 'a',
        HIT_REACTION_TO_WALK@[9] == 'o',
        HIT_REACTION_TO_WALK@[13] == 'W',
        HIT_REACTION_TO_DYING@.len() == 18,
        HIT_REACTION_TO_DYING@[0] == 'H',
        HIT_REACTION_TO_DYING@[5] == 'a',
        HIT_REACTION_TO_DYING@[9] == 'o',
        HIT_REACTION_TO_DYING@[13] == 'D',
        HIT_REACTION_TO_AIM@.len() == 16,
        HIT_REACTION_TO_AIM@[0] == 'H',
        HIT_REACTION_TO_AIM@[5] == 'a',
        HIT_REACTION_TO_AIM@[9] == 'o',
        HIT_REACTION_TO_AIM@[13] == 'A',
        LAND_TO_DYING@.len() == 11,
        LAND_TO_DYING@[0] == 'L',
        LAND_TO_DYING@[5] == 'o',
        LAND_TO_DYING@[9] == 'n',
        IDLE_TO_DYING@.len() == 11,
        IDLE_TO_DYING@[0] == 'I',
        IDLE_TO_DYING@[5] == 'o',
        IDLE_TO_DYING@[9] == 'n',
        FALL_TO_DYING@.len() == 11,
        FALL_TO_DYING@[0] == 'F',
        FALL_TO_DYING@[5] == 'o',
        FALL_TO_DYING@[9] == 'n',
        WALK_TO_DYING@.len() == 11,
        WALK_TO_DYING@[0] == 'W',
        WALK_TO_DYING@[5] == 'o',
        WALK_TO_DYING@[9] == 'n',
        JUMP_TO_DYING@.len() == 11,
        JUMP_TO_DYING@[0] == 'J',
        JUMP_TO_DYING@[5] == 'o',
        JUMP_TO_DYING@[9] == 'n',
        AIM_TO_DYING@.len() == 10,
        AIM_TO_DYING@[0] == 'A',
        AIM_TO_DYING@[5] == 'D',
        AIM_TO_DYING@[9] == 'g',
        TOSS_GRENADE_TO_DYING@.len() == 18,
        TOSS_GRENADE_TO_DYING@[0] == 'T',
        TOSS_GRENADE_TO_DYING@[5] == 'r',
        TOSS_GRENADE_TO_DYING@[9] == 'd',
        TOSS_GRENADE_TO_DYING@[13] == 'D',
        GRAB_TO_DYING@.len() == 11,
        GRAB_TO_DYING@[0] == 'G',
        GRAB_TO_DYING@[5] == 'o',
        GRAB_TO_DYING@[9] == 'n',
        PUT_BACK_TO_DYING@.len() == 14,
        PUT_BACK_TO_DYING@[0] == 'P',
        PUT_BACK_TO_DYING@[5] == 'c',
        PUT_BACK_TO_DYING@[9] == 'D',
        PUT_BACK_TO_DYING@[13] == 'g',
        WALK_STATE_WEAPON_KIND@.len() == 19,
        WALK_STATE_WEAPON_KIND@[0] == 'I',
        WALK_STATE_WEAPON_KIND@[5] == 't',
        WALK_STATE_WEAPON_KIND@[9] == 'W',
        WALK_STATE_WEAPON_KIND@[13] == 'o',
        TOSS_GRENADE_TO_AIM@.len() == 16,
        TOSS_GRENADE_TO_AIM@[0] == 'T',
        TOSS_GRENADE_TO_AIM@[5] == 'r',
        TOSS_GRENADE_TO_AIM@[9] == 'd',
        TOSS_GRENADE_TO_AIM@[13] == 'A',
        AIM_TO_TOSS_GRENADE@.len() == 16,
        AIM_TO_TOSS_GRENADE@[0] == 'A',
        AIM_TO_TOSS_GRENADE@[5] == 'T',
        AIM_TO_TOSS_GRENADE@[9] == 'G',
        AIM_TO_TOSS_GRENADE@[13] == 'a',
{
    reveal_strlit("IdleToWalk");
    reveal_strlit("WalkToIdle");
    reveal_strlit("WalkToJump");
    reveal_strlit("IdleToJump");
    reveal_strlit("JumpToFall");
    reveal_strlit("WalkToFall");
    reveal_strlit("IdleToFall");
    reveal_strlit("FallToLand");
    reveal_strlit("LandToIdle");
    reveal_strlit("IdleToAim");
    reveal_strlit("WalkToAim");
    reveal_strlit("AimToIdle");
    reveal_strlit("AimToWalk");
    reveal_strlit("AimToPutBack");
    reveal_strlit("WalkToPutBack");
    reveal_strlit("IdleToPutBack");
    reveal_strlit("PutBackToIdle");
    reveal_strlit("PutBackToWalk");
    reveal_strlit("PutBackToGrab");
    reveal_strlit("GrabToIdle");
    reveal_strlit("GrabToWalk");
    reveal_strlit("GrabToAim");
    reveal_strlit("PistolAimFactor");
    reveal_strlit("RifleAimFactor");
    reveal_strlit("HitReactionWeaponKind");
    reveal_strlit("IdleToHitReaction");
    reveal_strlit("WalkToHitReaction");
    reveal_strlit("AimToHitReaction");
    reveal_strlit("HitReactionToIdle");
    reveal_strlit("HitReactionToWalk");
    reveal_strlit("HitReactionToDying");
    reveal_strlit("HitReactionToAim");
    reveal_strlit("LandToDying");
    reveal_strlit("IdleToDying");
    reveal_strlit("FallToDying");
    reveal_strlit("WalkToDying");
    reveal_strlit("JumpToDying");
    reveal_strlit("AimToDying");
    reveal_strlit("TossGrenadeToDying");
    reveal_strlit("GrabToDying");
    reveal_strlit("PutBackToDying");
    reveal_strlit("IdleStateWeaponKind");
    reveal_strlit("TossGrenadeToAim");
    reveal_strlit("AimToTossGrenade");
}

/// A table holds under every name what was written under it last, and
/// nothing under a name that was not written.
pub proof fn lemma_table_holds_what_was_written(
    input: UpperBodyMachineInput,
    facts: CompletionFacts,
    name: Seq<char>,
    upto: int,
)
    ensures
        table_upto(input, facts, upto).contains_key(name) == written_upto(
            input,
            facts,
            name,
            upto,
        ).is_some(),
        written_upto(input, facts, name, upto) matches Some(value) ==> table_upto(
            input,
            facts,
            upto,
        )[name] == value,
    decreases upto,
{
    if upto > 0 {
        lemma_table_holds_what_was_written(input, facts, name, upto - 1);
    }
}

/// What is written under a name is the value of the line that has the
/// name, if no later line has it.
proof fn lemma_written_last(
    input: UpperBodyMachineInput,
    facts: CompletionFacts,
    name: Seq<char>,
    at: int,
    upto: int,
)
    requires
        0 <= at < upto,
        line_name(at) == name,
        forall|i: int| at < i < upto ==> #[trigger] line_name(i) != name,
    ensures
        written_upto(input, facts, name, upto) == Some(line_value(input, facts, at)),
    decreases upto - at,
{
    if upto > at + 1 {
        lemma_written_last(input, facts, name, at, upto - 1);
    }
}

/// What the table of a frame holds under the name IdleToWalk.
pub proof fn lemma_value_idle_to_walk(input: UpperBodyMachineInput, facts: CompletionFacts)
    ensures
        parameters_of(input, facts).contains_key(IDLE_TO_WALK@),
        parameters_of(input, facts)[IDLE_TO_WALK@] == Parameter::Rule(input.is_walking),
{
    lemma_names();
    lemma_written_last(input, facts, IDLE_TO_WALK@, 0, LINE_COUNT as int);
    lemma_table_holds_what_was_written(input, facts, IDLE_TO_WALK@, LINE_COUNT as int);
}

/// What the table of a frame holds under the name WalkToIdle.
pub proof fn lemma_value_walk_to_idle(input: UpperBodyMachineInput, facts: CompletionFacts)
    ensures
        parameters_of(input, facts).contains_key(WALK_TO_IDLE@),
        parameters_of(input, facts)[WALK_TO_IDLE@] == Parameter::Rule(!input.is_walking),
{
    lemma_names();
    lemma_written_last(input, facts, WALK_TO_IDLE@, 1, LINE_COUNT as int);
    lemma_table_holds_what_was_written(input, facts, WALK_TO_IDLE@, LINE_COUNT as int);
}

/// What the table of a frame holds under the name WalkToJump.
pub proof fn lemma_value_walk_to_jump(input: UpperBodyMachineInput, facts: CompletionFacts)
    ensures
        parameters_of(input, facts).contains_key(WALK_TO_JUMP@),
        parameters_of(input, facts)[WALK_TO_JUMP@] == Parameter::Rule(input.is_jumping),
{
    lemma_names();
    lemma_written_last(input, facts, WALK_TO_JUMP@, 2, LINE_COUNT as int);
    lemma_table_holds_what_was_written(input, facts, WALK_TO_JUMP@, LINE_COUNT as int);
}

/// What the table of a frame holds under the name IdleToJump.
pub proof fn lemma_value_idle_to_jump(input: UpperBodyMachineInput, facts: CompletionFacts)
    ensures
        parameters_of(input, facts).contains_key(IDLE_TO_JUMP@),
        parameters_of(input, facts)[IDLE_TO_JUMP@] == Parameter::Rule(input.is_jumping),
{
    lemma_names();
    lemma_written_last(input, facts, IDLE_TO_JUMP@, 3, LINE_COUNT as int);
    lemma_table_holds_what_was_written(input, facts, IDLE_TO_JUMP@, LINE_COUNT as int);
}

/// What the table of a frame holds under the name JumpToFall.
pub proof fn lemma_value_jump_to_fall(input: UpperBodyMachineInput, facts: CompletionFacts)
    ensures
        parameters_of(input, facts).contains_key(JUMP_TO_FALL@),
        parameters_of(input, facts)[JUMP_TO_FALL@] == Parameter::Rule(facts.jump_ended),
{
    lemma_names();
    lemma_written_last(input, facts, JUMP_TO_FALL@, 4, LINE_COUNT as int);
    lemma_table_holds_what_was_written(input, facts, JUMP_TO_FALL@, LINE_COUNT as int);
}

/// What the table of a frame holds under the name WalkToFall.
pub proof fn lemma_value_walk_to_fall(input: UpperBodyMachineInput, facts: CompletionFacts)
    ensures
        parameters_of(input, facts).contains_key(WALK_TO_FALL@),
        parameters_of(input, facts)[WALK_TO_FALL@] == Parameter::Rule(!input.has_ground_contact),
{
    lemma_names();
    lemma_written_last(input, facts, WALK_TO_FALL@, 5, LINE_COUNT as int);
    lemma_table_holds_what_was_written(input, facts, WALK_TO_FALL@, LINE_COUNT as int);
}

/// What the table of a frame holds under the name IdleToFall.
pub proof fn lemma_value_idle_to_fall(input: UpperBodyMachineInput, facts: CompletionFacts)
    ensures
        parameters_of(input, facts).contains_key(IDLE_TO_FALL@),
        parameters_of(input, facts)[IDLE_TO_FALL@] == Parameter::Rule(!input.has_ground_contact),
{
    lemma_names();
    lemma_written_last(input, facts, IDLE_TO_FALL@, 6, LINE_COUNT as int);
    lemma_table_holds_what_was_written(input, facts, IDLE_TO_FALL@, LINE_COUNT as int);
}

/// What the table of a frame holds under the name FallToLand.
pub proof fn lemma_value_fall_to_land(input: UpperBodyMachineInput, facts: CompletionFacts)
    ensures
        parameters_of(input, facts).contains_key(FALL_TO_LAND@),
        parameters_of(input, facts)[FALL_TO_LAND@] == Parameter::Rule(input.has_ground_contact),
{
    lemma_names();
    lemma_written_last(input, facts, FALL_TO_LAND@, 7, LINE_COUNT as int);
    lemma_table_holds_what_was_written(input, facts, FALL_TO_LAND@, LINE_COUNT as int);
}

/// What the table of a frame holds under the name LandToIdle.
pub proof fn lemma_value_land_to_idle(input: UpperBodyMachineInput, facts: CompletionFacts)
    ensures
        parameters_of(input, facts).contains_key(LAND_TO_IDLE@),
        parameters_of(input, facts)[LAND_TO_IDLE@] == Parameter::Rule(facts.land_ended),
{
    lemma_names();
    lemma_written_last(input, facts, LAND_TO_IDLE@, 8, LINE_COUNT as int);
    lemma_table_holds_what_was_written(input, facts, LAND_TO_IDLE@, LINE_COUNT as int);
}

/// What the table of a frame holds under the name IdleToAim.
pub proof fn lemma_value_idle_to_aim(input: UpperBodyMachineInput, facts: CompletionFacts)
    ensures
        parameters_of(input, facts).contains_key(IDLE_TO_AIM@),
        parameters_of(input, facts)[IDLE_TO_AIM@] == Parameter::Rule(input.is_aiming && input.has_ground_contact),
{
    lemma_names();
    lemma_written_last(input, facts, IDLE_TO_AIM@, 9, LINE_COUNT as int);
    lemma_table_holds_what_was_written(input, facts, IDLE_TO_AIM@, LINE_COUNT as int);
}

/// What the table of a frame holds under the name WalkToAim.
pub proof fn lemma_value_walk_to_aim(input: UpperBodyMachineInput, facts: CompletionFacts)
    ensures
        parameters_of(input, facts).contains_key(WALK_TO_AIM@),
        parameters_of(input, facts)[WALK_TO_AIM@] == Parameter::Rule(input.is_aiming && input.has_ground_contact),
{
    lemma_names();
    lemma_written_last(input, facts, WALK_TO_AIM@, 10, LINE_COUNT as int);
    lemma_table_holds_what_was_written(input, facts, WALK_TO_AIM@, LINE_COUNT as int);
}

/// What the table of a frame holds under the name AimToIdle.
pub proof fn lemma_value_aim_to_idle(input: UpperBodyMachineInput, facts: CompletionFacts)
    ensures
        parameters_of(input, facts).contains_key(AIM_TO_IDLE@),
        parameters_of(input, facts)[AIM_TO_IDLE@] == Parameter::Rule(!input.is_aiming || !input.has_ground_contact),
{
    lemma_names();
    lemma_written_last(input, facts, AIM_TO_IDLE@, 11, LINE_COUNT as int);
    lemma_table_holds_what_was_written(input, facts, AIM_TO_IDLE@, LINE_COUNT as int);
}

/// What the table of a frame holds under the name AimToWalk.
pub proof fn lemma_value_aim_to_walk(input: UpperBodyMachineInput, facts: CompletionFacts)
    ensures
        parameters_of(input, facts).contains_key(AIM_TO_WALK@),
        parameters_of(input, facts)[AIM_TO_WALK@] == Parameter::Rule(!input.is_aiming || !input.has_ground_contact),
{
    lemma_names();
    lemma_written_last(input, facts, AIM_TO_WALK@, 12, LINE_COUNT as int);
    lemma_table_holds_what_was_written(input, facts, AIM_TO_WALK@, LINE_COUNT as int);
}

/// What the table of a frame holds under the name AimToPutBack.
pub proof fn lemma_value_aim_to_put_back(input: UpperBodyMachineInput, facts: CompletionFacts)
    ensures
        parameters_of(input, facts).contains_key(AIM_TO_PUT_BACK@),
        parameters_of(input, facts)[AIM_TO_PUT_BACK@] == Parameter::Rule(input.is_aiming && input.change_weapon),
{
    lemma_names();
    lemma_written_last(input, facts, AIM_TO_PUT_BACK@, 13, LINE_COUNT as int);
    lemma_table_holds_what_was_written(input, facts, AIM_TO_PUT_BACK@, LINE_COUNT as int);
}

/// What the table of a frame holds under the name WalkToPutBack.
pub proof fn lemma_value_walk_to_put_back(input: UpperBodyMachineInput, facts: CompletionFacts)
    ensures
        parameters_of(input, facts).contains_key(WALK_TO_PUT_BACK@),
        parameters_of(input, facts)[WALK_TO_PUT_BACK@] == Parameter::Rule(input.change_weapon),
{
    lemma_names();
    lemma_written_last(input, facts, WALK_TO_PUT_BACK@, 14, LINE_COUNT as int);
    lemma_table_holds_what_was_written(input, facts, WALK_TO_PUT_BACK@, LINE_COUNT as int);
}

/// What the table of a frame holds under the name IdleToPutBack.
pub proof fn lemma_value_idle_to_put_back(input: UpperBodyMachineInput, facts: CompletionFacts)
    ensures
        parameters_of(input, facts).contains_key(IDLE_TO_PUT_BACK@),
        parameters_of(input, facts)[IDLE_TO_PUT_BACK@] == Parameter::Rule(input.change_weapon),
{
    lemma_names();
    lemma_written_last(input, facts, IDLE_TO_PUT_BACK@, 15, LINE_COUNT as int);
    lemma_table_holds_what_was_written(input, facts, IDLE_TO_PUT_BACK@, LINE_COUNT as int);
}

/// What the table of a frame holds under the name PutBackToIdle.
pub proof fn lemma_value_put_back_to_idle(input: UpperBodyMachineInput, facts: CompletionFacts)
    ensures
        parameters_of(input, facts).contains_key(PUT_BACK_TO_IDLE@),
        parameters_of(input, facts)[PUT_BACK_TO_IDLE@] == Parameter::Rule(!input.change_weapon && facts.put_back_ended),
{
    lemma_names();
    lemma_written_last(input, facts, PUT_BACK_TO_IDLE@, 16, LINE_COUNT as int);
    lemma_table_holds_what_was_written(input, facts, PUT_BACK_TO_IDLE@, LINE_COUNT as int);
}

/// What the table of a frame holds under the name PutBackToWalk.
pub proof fn lemma_value_put_back_to_walk(input: UpperBodyMachineInput, facts: CompletionFacts)
    ensures
        parameters_of(input, facts).contains_key(PUT_BACK_TO_WALK@),
        parameters_of(input, facts)[PUT_BACK_TO_WALK@] == Parameter::Rule(!input.change_weapon && input.is_walking && facts.put_back_ended),
{
    lemma_names();
    lemma_written_last(input, facts, PUT_BACK_TO_WALK@, 17, LINE_COUNT as int);
    lemma_table_holds_what_was_written(input, facts, PUT_BACK_TO_WALK@, LINE_COUNT as int);
}

/// What the table of a frame holds under the name PutBackToGrab.
pub proof fn lemma_value_put_back_to_grab(input: UpperBodyMachineInput, facts: CompletionFacts)
    ensures
        parameters_of(input, facts).contains_key(PUT_BACK_TO_GRAB@),
        parameters_of(input, facts)[PUT_BACK_TO_GRAB@] == Parameter::Rule(input.change_weapon && facts.put_back_ended),
{
    lemma_names();
    lemma_written_last(input, facts, PUT_BACK_TO_GRAB@, 18, LINE_COUNT as int);
    lemma_table_holds_what_was_written(input, facts, PUT_BACK_TO_GRAB@, LINE_COUNT as int);
}

/// What the table of a frame holds under the name GrabToIdle.
pub proof fn lemma_value_grab_to_idle(input: UpperBodyMachineInput, facts: CompletionFacts)
    ensures
        parameters_of(input, facts).contains_key(GRAB_TO_IDLE@),
        parameters_of(input, facts)[GRAB_TO_IDLE@] == Parameter::Rule(!input.change_weapon && !input.is_aiming && facts.grab_ended),
{
    lemma_names();
    lemma_written_last(input, facts, GRAB_TO_IDLE@, 19, LINE_COUNT as int);
    lemma_table_holds_what_was_written(input, facts, GRAB_TO_IDLE@, LINE_COUNT as int);
}

/// What the table of a frame holds under the name GrabToWalk.
pub proof fn lemma_value_grab_to_walk(input: UpperBodyMachineInput, facts: CompletionFacts)
    ensures
        parameters_of(input, facts).contains_key(GRAB_TO_WALK@),
        parameters_of(input, facts)[GRAB_TO_WALK@] == Parameter::Rule(!input.change_weapon && input.is_walking && !input.is_aiming && facts.grab_ended),
{
    lemma_names();
    lemma_written_last(input, facts, GRAB_TO_WALK@, 20, LINE_COUNT as int);
    lemma_table_holds_what_was_written(input, facts, GRAB_TO_WALK@, LINE_COUNT as int);
}

/// What the table of a frame holds under the name GrabToAim.
pub proof fn lemma_value_grab_to_aim(input: UpperBodyMachineInput, facts: CompletionFacts)
    ensures
        parameters_of(input, facts).contains_key(GRAB_TO_AIM@),
        parameters_of(input, facts)[GRAB_TO_AIM@] == Parameter::Rule(input.is_aiming && facts.grab_ended),
{
    lemma_names();
    lemma_written_last(input, facts, GRAB_TO_AIM@, 21, LINE_COUNT as int);
    lemma_table_holds_what_was_written(input, facts, GRAB_TO_AIM@, LINE_COUNT as int);
}

/// What the table of a frame holds under the name PistolAimFactor.
pub proof fn lemma_value_pistol_aim_factor(input: UpperBodyMachineInput, facts: CompletionFacts)
    ensures
        parameters_of(input, facts).contains_key(PISTOL_AIM_FACTOR@),
        parameters_of(input, facts)[PISTOL_AIM_FACTOR@] == Parameter::Weight(aim_factor(input.weapon_kind, CombatWeaponKind::Pistol)),
{
    lemma_names();
    lemma_written_last(input, facts, PISTOL_AIM_FACTOR@, 22, LINE_COUNT as int);
    lemma_table_holds_what_was_written(input, facts, PISTOL_AIM_FACTOR@, LINE_COUNT as int);
}

/// What the table of a frame holds under the name RifleAimFactor.
pub proof fn lemma_value_rifle_aim_factor(input: UpperBodyMachineInput, facts: CompletionFacts)
    ensures
        parameters_of(input, facts).contains_key(RIFLE_AIM_FACTOR@),
        parameters_of(input, facts)[RIFLE_AIM_FACTOR@] == Parameter::Weight(aim_factor(input.weapon_kind, CombatWeaponKind::Rifle)),
{
    lemma_names();
    lemma_written_last(input, facts, RIFLE_AIM_FACTOR@, 23, LINE_COUNT as int);
    lemma_table_holds_what_was_written(input, facts, RIFLE_AIM_FACTOR@, LINE_COUNT as int);
}

/// What the table of a frame holds under the name HitReactionWeaponKind.
pub proof fn lemma_value_hit_reaction_weapon_kind(input: UpperBodyMachineInput, facts: CompletionFacts)
    ensures
        parameters_of(input, facts).contains_key(HIT_REACTION_WEAPON_KIND@),
        parameters_of(input, facts)[HIT_REACTION_WEAPON_KIND@] == Parameter::Index(weapon_index(input.weapon_kind)),
{
    lemma_names();
    lemma_written_last(input, facts, HIT_REACTION_WEAPON_KIND@, 24, LINE_COUNT as int);
    lemma_table_holds_what_was_written(input, facts, HIT_REACTION_WEAPON_KIND@, LINE_COUNT as int);
}

/// What the table of a frame holds under the name IdleToHitReaction.
pub proof fn lemma_value_idle_to_hit_reaction(input: UpperBodyMachineInput, facts: CompletionFacts)
    ensures
        parameters_of(input, facts).contains_key(IDLE_TO_HIT_REACTION@),
        parameters_of(input, facts)[IDLE_TO_HIT_REACTION@] == Parameter::Rule(input.should_be_stunned),
{
    lemma_names();
    lemma_written_last(input, facts, IDLE_TO_HIT_REACTION@, 25, LINE_COUNT as int);
    lemma_table_holds_what_was_written(input, facts, IDLE_TO_HIT_REACTION@, LINE_COUNT as int);
}

/// What the table of a frame holds under the name WalkToHitReaction.
pub proof fn lemma_value_walk_to_hit_reaction(input: UpperBodyMachineInput, facts: CompletionFacts)
    ensures
        parameters_of(input, facts).contains_key(WALK_TO_HIT_REACTION@),
        parameters_of(input, facts)[WALK_TO_HIT_REACTION@] == Parameter::Rule(input.should_be_stunned),
{
    lemma_names();
    lemma_written_last(input, facts, WALK_TO_HIT_REACTION@, 26, LINE_COUNT as int);
    lemma_table_holds_what_was_written(input, facts, WALK_TO_HIT_REACTION@, LINE_COUNT as int);
}

/// What the table of a frame holds under the name AimToHitReaction.
pub proof fn lemma_value_aim_to_hit_reaction(input: UpperBodyMachineInput, facts: CompletionFacts)
    ensures
        parameters_of(input, facts).contains_key(AIM_TO_HIT_REACTION@),
        parameters_of(input, facts)[AIM_TO_HIT_REACTION@] == Parameter::Rule(input.should_be_stunned),
{
    lemma_names();
    lemma_written_last(input, facts, AIM_TO_HIT_REACTION@, 27, LINE_COUNT as int);
    lemma_table_holds_what_was_written(input, facts, AIM_TO_HIT_REACTION@, LINE_COUNT as int);
}

/// What the table of a frame holds under the name HitReactionToIdle.
pub proof fn lemma_value_hit_reaction_to_idle(input: UpperBodyMachineInput, facts: CompletionFacts)
    ensures
        parameters_of(input, facts).contains_key(HIT_REACTION_TO_IDLE@),
        parameters_of(input, facts)[HIT_REACTION_TO_IDLE@] == Parameter::Rule(recovered(input, facts)),
{
    lemma_names();
    lemma_written_last(input, facts, HIT_REACTION_TO_IDLE@, 28, LINE_COUNT as int);
    lemma_table_holds_what_was_written(input, facts, HIT_REACTION_TO_IDLE@, LINE_COUNT as int);
}

/// What the table of a frame holds under the name HitReactionToWalk.
pub proof fn lemma_value_hit_reaction_to_walk(input: UpperBodyMachineInput, facts: CompletionFacts)
    ensures
        parameters_of(input, facts).contains_key(HIT_REACTION_TO_WALK@),
        parameters_of(input, facts)[HIT_REACTION_TO_WALK@] == Parameter::Rule(recovered(input, facts)),
{
    lemma_names();
    lemma_written_last(input, facts, HIT_REACTION_TO_WALK@, 29, LINE_COUNT as int);
    lemma_table_holds_what_was_written(input, facts, HIT_REACTION_TO_WALK@, LINE_COUNT as int);
}

/// What the table of a frame holds under the name HitReactionToDying.
pub proof fn lemma_value_hit_reaction_to_dying(input: UpperBodyMachineInput, facts: CompletionFacts)
    ensures
        parameters_of(input, facts).contains_key(HIT_REACTION_TO_DYING@),
        parameters_of(input, facts)[HIT_REACTION_TO_DYING@] == Parameter::Rule(input.is_dead),
{
    lemma_names();
    lemma_written_last(input, facts, HIT_REACTION_TO_DYING@, 30, LINE_COUNT as int);
    lemma_table_holds_what_was_written(input, facts, HIT_REACTION_TO_DYING@, LINE_COUNT as int);
}

/// What the table of a frame holds under the name HitReactionToAim.
pub proof fn lemma_value_hit_reaction_to_aim(input: UpperBodyMachineInput, facts: CompletionFacts)
    ensures
        parameters_of(input, facts).contains_key(HIT_REACTION_TO_AIM@),
        parameters_of(input, facts)[HIT_REACTION_TO_AIM@] == Parameter::Rule(recovered(input, facts) && input.is_aiming),
{
    lemma_names();
    lemma_written_last(input, facts, HIT_REACTION_TO_AIM@, 31, LINE_COUNT as int);
    lemma_table_holds_what_was_written(input, facts, HIT_REACTION_TO_AIM@, LINE_COUNT as int);
}

/// What the table of a frame holds under the name LandToDying.
pub proof fn lemma_value_land_to_dying(input: UpperBodyMachineInput, facts: CompletionFacts)
    ensures
        parameters_of(input, facts).contains_key(LAND_TO_DYING@),
        parameters_of(input, facts)[LAND_TO_DYING@] == Parameter::Rule(input.is_dead),
{
    lemma_names();
    lemma_written_last(input, facts, LAND_TO_DYING@, 32, LINE_COUNT as int);
    lemma_table_holds_what_was_written(input, facts, LAND_TO_DYING@, LINE_COUNT as int);
}

/// What the table of a frame holds under the name IdleToDying.
pub proof fn lemma_value_idle_to_dying(input: UpperBodyMachineInput, facts: CompletionFacts)
    ensures
        parameters_of(input, facts).contains_key(IDLE_TO_DYING@),
        parameters_of(input, facts)[IDLE_TO_DYING@] == Parameter::Rule(input.is_dead),
{
    lemma_names();
    lemma_written_last(input, facts, IDLE_TO_DYING@, 33, LINE_COUNT as int);
    lemma_table_holds_what_was_written(input, facts, IDLE_TO_DYING@, LINE_COUNT as int);
}

/// What the table of a frame holds under the name FallToDying.
pub proof fn lemma_value_fall_to_dying(input: UpperBodyMachineInput, facts: CompletionFacts)
    ensures
        parameters_of(input, facts).contains_key(FALL_TO_DYING@),
        parameters_of(input, facts)[FALL_TO_DYING@] == Parameter::Rule(input.is_dead),
{
    lemma_names();
    lemma_written_last(input, facts, FALL_TO_DYING@, 34, LINE_COUNT as int);
    lemma_table_holds_what_was_written(input, facts, FALL_TO_DYING@, LINE_COUNT as int);
}

/// What the table of a frame holds under the name WalkToDying.
pub proof fn lemma_value_walk_to_dying(input: UpperBodyMachineInput, facts: CompletionFacts)
    ensures
        parameters_of(input, facts).contains_key(WALK_TO_DYING@),
        parameters_of(input, facts)[WALK_TO_DYING@] == Parameter::Rule(input.is_dead),
{
    lemma_names();
    lemma_written_last(input, facts, WALK_TO_DYING@, 35, LINE_COUNT as int);
    lemma_table_holds_what_was_written(input, facts, WALK_TO_DYING@, LINE_COUNT as int);
}

/// What the table of a frame holds under the name JumpToDying.
pub proof fn lemma_value_jump_to_dying(input: UpperBodyMachineInput, facts: CompletionFacts)
    ensures
        parameters_of(input, facts).contains_key(JUMP_TO_DYING@),
        parameters_of(input, facts)[JUMP_TO_DYING@] == Parameter::Rule(input.is_dead),
{
    lemma_names();
    lemma_written_last(input, facts, JUMP_TO_DYING@, 36, LINE_COUNT as int);
    lemma_table_holds_what_was_written(input, facts, JUMP_TO_DYING@, LINE_COUNT as int);
}

/// What the table of a frame holds under the name AimToDying.
pub proof fn lemma_value_aim_to_dying(input: UpperBodyMachineInput, facts: CompletionFacts)
    ensures
        parameters_of(input, facts).contains_key(AIM_TO_DYING@),
        parameters_of(input, facts)[AIM_TO_DYING@] == Parameter::Rule(input.is_dead),
{
    lemma_names();
    lemma_written_last(input, facts, AIM_TO_DYING@, 37, LINE_COUNT as int);
    lemma_table_holds_what_was_written(input, facts, AIM_TO_DYING@, LINE_COUNT as int);
}

/// What the table of a frame holds under the name TossGrenadeToDying.
pub proof fn lemma_value_toss_grenade_to_dying(input: UpperBodyMachineInput, facts: CompletionFacts)
    ensures
        parameters_of(input, facts).contains_key(TOSS_GRENADE_TO_DYING@),
        parameters_of(input, facts)[TOSS_GRENADE_TO_DYING@] == Parameter::Rule(input.is_dead),
{
    lemma_names();
    lemma_written_last(input, facts, TOSS_GRENADE_TO_DYING@, 38, LINE_COUNT as int);
    lemma_table_holds_what_was_written(input, facts, TOSS_GRENADE_TO_DYING@, LINE_COUNT as int);
}

/// What the table of a frame holds under the name GrabToDying.
pub proof fn lemma_value_grab_to_dying(input: UpperBodyMachineInput, facts: CompletionFacts)
    ensures
        parameters_of(input, facts).contains_key(GRAB_TO_DYING@),
        parameters_of(input, facts)[GRAB_TO_DYING@] == Parameter::Rule(input.is_dead),
{
    lemma_names();
    lemma_written_last(input, facts, GRAB_TO_DYING@, 39, LINE_COUNT as int);
    lemma_table_holds_what_was_written(input, facts, GRAB_TO_DYING@, LINE_COUNT as int);
}

/// What the table of a frame holds under the name PutBackToDying.
pub proof fn lemma_value_put_back_to_dying(input: UpperBodyMachineInput, facts: CompletionFacts)
    ensures
        parameters_of(input, facts).contains_key(PUT_BACK_TO_DYING@),
        parameters_of(input, facts)[PUT_BACK_TO_DYING@] == Parameter::Rule(input.is_dead),
{
    lemma_names();
    lemma_written_last(input, facts, PUT_BACK_TO_DYING@, 40, LINE_COUNT as int);
    lemma_table_holds_what_was_written(input, facts, PUT_BACK_TO_DYING@, LINE_COUNT as int);
}

/// What the table of a frame holds under the name IdleStateWeaponKind.
pub proof fn lemma_value_walk_state_weapon_kind(input: UpperBodyMachineInput, facts: CompletionFacts)
    ensures
        parameters_of(input, facts).contains_key(WALK_STATE_WEAPON_KIND@),
        parameters_of(input, facts)[WALK_STATE_WEAPON_KIND@] == Parameter::Index(weapon_index(input.weapon_kind)),
{
    lemma_names();
    lemma_written_last(input, facts, WALK_STATE_WEAPON_KIND@, 44, LINE_COUNT as int);
    lemma_table_holds_what_was_written(input, facts, WALK_STATE_WEAPON_KIND@, LINE_COUNT as int);
}

/// What the table of a frame holds under the name TossGrenadeToAim.
pub proof fn lemma_value_toss_grenade_to_aim(input: UpperBodyMachineInput, facts: CompletionFacts)
    ensures
        parameters_of(input, facts).contains_key(TOSS_GRENADE_TO_AIM@),
        parameters_of(input, facts)[TOSS_GRENADE_TO_AIM@] == Parameter::Rule(!input.toss_grenade && facts.toss_grenade_ended),
{
    lemma_names();
    lemma_written_last(input, facts, TOSS_GRENADE_TO_AIM@, 42, LINE_COUNT as int);
    lemma_table_holds_what_was_written(input, facts, TOSS_GRENADE_TO_AIM@, LINE_COUNT as int);
}

/// What the table of a frame holds under the name AimToTossGrenade.
pub proof fn lemma_value_aim_to_toss_grenade(input: UpperBodyMachineInput, facts: CompletionFacts)
    ensures
        parameters_of(input, facts).contains_key(AIM_TO_TOSS_GRENADE@),
        parameters_of(input, facts)[AIM_TO_TOSS_GRENADE@] == Parameter::Rule(input.toss_grenade && input.is_aiming),
{
    lemma_names();
    lemma_written_last(input, facts, AIM_TO_TOSS_GRENADE@, 43, LINE_COUNT as int);
    lemma_table_holds_what_was_written(input, facts, AIM_TO_TOSS_GRENADE@, LINE_COUNT as int);
}

/// The frames after which a fighter that lies dead and still is at rest in
/// the state Dying at the latest, whatever state it was in.
pub const FRAMES_TO_DYING: usize = 2009;

/// Whether the machine is told that the fighter is dead and does nothing:
/// it stands on the ground, and walks, jumps, aims, throws, changes weapons
/// and is stunned no more.
pub open spec fn dead_and_still(input: UpperBodyMachineInput) -> bool {
    &&& input.is_dead
    &&& input.has_ground_contact
    &&& !input.is_walking
    &&& !input.is_jumping
    &&& !input.is_aiming
    &&& !input.toss_grenade
    &&& !input.change_weapon
    &&& !input.should_be_stunned
}

/// What a machine is told of a fighter that lies dead and still with a
/// rifle.
pub open spec fn lying_dead() -> UpperBodyMachineInput {
    UpperBodyMachineInput {
        is_dead: true,
        has_ground_contact: true,
        is_walking: false,
        is_jumping: false,
        is_aiming: false,
        toss_grenade: false,
        change_weapon: false,
        should_be_stunned: false,
        run_factor: 0,
        weapon_kind: CombatWeaponKind::Rifle,
    }
}

/// How many transitions a dead and still fighter in the state `state` is
/// from the state Dying at most.
pub open spec fn steps_from_dying(state: usize) -> nat {
    if state == DYING_STATE {
        0
    } else if state == IDLE_STATE {
        1
    } else if state == WALK_STATE || state == LAND_STATE || state == PUT_BACK_STATE || state
        == GRAB_STATE {
        2
    } else if state == AIM_STATE || state == HIT_REACTION_STATE || state == FALL_STATE {
        3
    } else {
        4
    }
}

/// The transition that leads from the state `state` to the state Dying.
pub open spec fn way_to_dying(state: usize) -> int {
    if state == LAND_STATE {
        24
    } else if state == FALL_STATE {
        25
    } else if state == IDLE_STATE {
        26
    } else if state == WALK_STATE {
        27
    } else if state == JUMP_STATE {
        28
    } else if state == AIM_STATE {
        29
    } else if state == TOSS_GRENADE_STATE {
        30
    } else if state == GRAB_STATE {
        31
    } else if state == PUT_BACK_STATE {
        32
    } else {
        37
    }
}

/// A bound on the frames that a dead and still fighter needs from `phase`
/// to be at rest in the state Dying: the frames that the transition under
/// way still blends, and a full blend for every transition that follows.
pub open spec fn frames_left(transitions: Seq<Transition>, phase: LayerPhase) -> nat {
    match phase.transition {
        None => steps_from_dying(phase.active) * 402,
        Some(t) => (steps_from_dying(transitions[t as int].target) * 402 + 1 + (
        transitions[t as int].duration - phase.elapsed)) as nat,
    }
}

/// At rest in the state Dying.
pub open spec fn dying_at_rest() -> LayerPhase {
    LayerPhase { active: DYING_STATE, transition: None, elapsed: 0 }
}

/// Whether `transitions` and `phase` are those of a machine that is whole.
pub open spec fn combat_layer(transitions: Seq<Transition>, phase: LayerPhase) -> bool {
    &&& transitions.len() == TRANSITION_COUNT
    &&& rows_match(transitions, TRANSITION_COUNT as int)
    &&& phase_ok(transitions, STATE_COUNT as nat, phase)
}

/// The rules of a frame in which the fighter is dead and still: a rule
/// that holds leads nearer to the state Dying, and from every other state
/// the rule that leads to Dying holds.
proof fn lemma_rules_of_the_dead(input: UpperBodyMachineInput, facts: CompletionFacts)
    requires
        dead_and_still(input),
    ensures
        forall|t: int|
            0 <= t < TRANSITION_COUNT && rule_holds(
                parameters_of(input, facts),
                #[trigger] transition_row(t).rule,
            ) ==> steps_from_dying(transition_row(t).target) < steps_from_dying(
                transition_row(t).source,
            ),
        forall|s: usize|
            s < STATE_COUNT && s != DYING_STATE ==> rule_holds(
                parameters_of(input, facts),
                transition_row(#[trigger] way_to_dying(s)).rule,
            ) && transition_row(way_to_dying(s)).source == s,
{
    lemma_value_walk_to_idle(input, facts);
    lemma_value_walk_to_jump(input, facts);
    lemma_value_idle_to_walk(input, facts);
    lemma_value_idle_to_jump(input, facts);
    lemma_value_fall_to_land(input, facts);
    lemma_value_land_to_idle(input, facts);
    lemma_value_jump_to_fall(input, facts);
    lemma_value_walk_to_fall(input, facts);
    lemma_value_idle_to_fall(input, facts);
    lemma_value_idle_to_aim(input, facts);
    lemma_value_walk_to_aim(input, facts);
    lemma_value_aim_to_idle(input, facts);
    lemma_value_aim_to_walk(input, facts);
    lemma_value_aim_to_toss_grenade(input, facts);
    lemma_value_toss_grenade_to_aim(input, facts);
    lemma_value_aim_to_put_back(input, facts);
    lemma_value_walk_to_put_back(input, facts);
    lemma_value_idle_to_put_back(input, facts);
    lemma_value_put_back_to_idle(input, facts);
    lemma_value_put_back_to_walk(input, facts);
    lemma_value_put_back_to_grab(input, facts);
    lemma_value_grab_to_idle(input, facts);
    lemma_value_grab_to_walk(input, facts);
    lemma_value_grab_to_aim(input, facts);
    lemma_value_land_to_dying(input, facts);
    lemma_value_fall_to_dying(input, facts);
    lemma_value_idle_to_dying(input, facts);
    lemma_value_walk_to_dying(input, facts);
    lemma_value_jump_to_dying(input, facts);
    lemma_value_aim_to_dying(input, facts);
    lemma_value_toss_grenade_to_dying(input, facts);
    lemma_value_grab_to_dying(input, facts);
    lemma_value_put_back_to_dying(input, facts);
    lemma_value_idle_to_hit_reaction(input, facts);
    lemma_value_walk_to_hit_reaction(input, facts);
    lemma_value_hit_reaction_to_idle(input, facts);
    lemma_value_hit_reaction_to_walk(input, facts);
    lemma_value_hit_reaction_to_dying(input, facts);
    lemma_value_aim_to_hit_reaction(input, facts);
    lemma_value_hit_reaction_to_aim(input, facts);
}

/// The rows of the table join states of the table and blend for 400
/// milliseconds at most.
proof fn lemma_rows_are_bounded(transitions: Seq<Transition>)
    requires
        transitions.len() == TRANSITION_COUNT,
        rows_match(transitions, TRANSITION_COUNT as int),
    ensures
        transitions_ok(transitions, STATE_COUNT as nat),
        forall|t: int|
            0 <= t < TRANSITION_COUNT ==> (#[trigger] transitions[t]).duration <= 400
                && transitions[t].source == transition_row(t).source && transitions[t].target
                == transition_row(t).target && transitions[t].rule@ == transition_row(t).rule,
{
    assert forall|t: int| 0 <= t < TRANSITION_COUNT implies (#[trigger] transitions[t]).duration
        <= 400 && transitions[t].source < STATE_COUNT && transitions[t].target < STATE_COUNT
        && transitions[t].source == transition_row(t).source && transitions[t].target
        == transition_row(t).target && transitions[t].rule@ == transition_row(t).rule by {
        assert(transition_matches(transitions[t], transition_row(t)));
    }
}

/// A frame in which the fighter is dead and still brings the machine
/// nearer to rest in the state Dying, and keeps it there once it is there.
pub proof fn lemma_dead_frame(
    transitions: Seq<Transition>,
    phase: LayerPhase,
    input: UpperBodyMachineInput,
    facts: CompletionFacts,
    dt: u32,
)
    requires
        combat_layer(transitions, phase),
        dead_and_still(input),
        dt > 0,
    ensures
        ({
            let after = phase_after(transitions, phase, parameters_of(input, facts), dt);
            &&& combat_layer(transitions, after)
            &&& frames_left(transitions, phase) <= FRAMES_TO_DYING
            &&& phase == dying_at_rest() ==> after == dying_at_rest()
            &&& phase != dying_at_rest() ==> frames_left(transitions, after) < frames_left(
                transitions,
                phase,
            )
            &&& frames_left(transitions, phase) == 0 ==> phase == dying_at_rest()
        }),
{
    let values = parameters_of(input, facts);
    lemma_rows_are_bounded(transitions);
    lemma_rules_of_the_dead(input, facts);
    lemma_phase_after_ok(transitions, STATE_COUNT as nat, phase, values, dt);
    match phase.transition {
        Some(t) => {
            lemma_one_transition_at_a_time(transitions, phase, values, dt);
        },
        None => {
            let s = phase.active;
            lemma_first_firing(transitions, s, values, transitions.len() as int);
            if s != DYING_STATE {
                let d = way_to_dying(s);
                assert(fires(transitions, d, s, values));
                let t = first_firing(transitions, s, values, transitions.len() as int).unwrap();
                assert(fires(transitions, t as int, s, values));
                assert(rule_holds(values, transition_row(t as int).rule));
            } else {
                assert forall|t: int| 0 <= t < transitions.len() implies !fires(
                    transitions,
                    t,
                    s,
                    values,
                ) by {
                    assert(transition_row(t).source != DYING_STATE);
                }
            }
        },
    }
}

/// Whether `machines` is a machine frame by frame while it is told that
/// the fighter is dead and still: each machine is the one before it after
/// a frame of a length that is not nothing.
pub open spec fn lies_dead(
    machines: Seq<UpperBodyMachine>,
    inputs: Seq<UpperBodyMachineInput>,
    dts: Seq<u32>,
    poses: Seq<Seq<PoseTerm>>,
) -> bool {
    &&& machines.len() == inputs.len() + 1
    &&& dts.len() == inputs.len()
    &&& poses.len() == inputs.len()
    &&& machines[0].wf()
    &&& forall|k: int|
        0 <= k < inputs.len() ==> dead_and_still(inputs[k]) && dts[k] > 0 && (
        #[trigger] machines[k]).applied(dts[k], inputs[k], machines[k + 1], poses[k])
}

/// While a fighter lies dead and still, its machine comes nearer to rest in
/// the state Dying with every frame, until it is there.
proof fn lemma_the_dead_come_nearer(
    machines: Seq<UpperBodyMachine>,
    inputs: Seq<UpperBodyMachineInput>,
    dts: Seq<u32>,
    poses: Seq<Seq<PoseTerm>>,
    frame: int,
)
    requires
        lies_dead(machines, inputs, dts, poses),
        0 <= frame <= inputs.len(),
    ensures
        machines[frame].machine.transitions@ == machines[0].machine.transitions@,
        combat_layer(machines[0].machine.transitions@, machines[frame].machine.phase),
        machines[frame].machine.phase == dying_at_rest() || frames_left(
            machines[0].machine.transitions@,
            machines[frame].machine.phase,
        ) + frame <= FRAMES_TO_DYING,
    decreases frame,
{
    let transitions = machines[0].machine.transitions@;
    if frame == 0 {
        let first = machines[0];
        lemma_dead_frame(
            transitions,
            first.machine.phase,
            lying_dead(),
            first.facts(lying_dead()),
            1,
        );
    } else {
        lemma_the_dead_come_nearer(machines, inputs, dts, poses, frame - 1);
        let before = machines[frame - 1];
        assert(before.applied(
            dts[frame - 1],
            inputs[frame - 1],
            machines[frame],
            poses[frame - 1],
        ));
        lemma_dead_frame(
            transitions,
            before.machine.phase,
            inputs[frame - 1],
            before.facts(inputs[frame - 1]),
            dts[frame - 1],
        );
    }
}

/// The dead reach the state Dying: a machine that is told, frame after
/// frame, that the fighter is dead and still is at rest in the state Dying
/// after finitely many frames, whatever state it was in, and stays there.
pub proof fn lemma_the_dead_reach_dying(
    machines: Seq<UpperBodyMachine>,
    inputs: Seq<UpperBodyMachineInput>,
    dts: Seq<u32>,
    poses: Seq<Seq<PoseTerm>>,
    frame: int,
)
    requires
        lies_dead(machines, inputs, dts, poses),
        FRAMES_TO_DYING <= frame <= inputs.len(),
    ensures
        machines[frame].machine.phase == dying_at_rest(),
{
    lemma_the_dead_come_nearer(machines, inputs, dts, poses, frame);
    let last = machines[frame];
    lemma_dead_frame(
        machines[0].machine.transitions@,
        last.machine.phase,
        lying_dead(),
        last.facts(lying_dead()),
        1,
    );
}

} // verus!
