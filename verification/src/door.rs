//! Doors that slide open when an actor comes close and close again behind it.

use crate::actor::ActorContainer;
use crate::geometry::Vec3;
use crate::pool::{Handle, Pool};
use crate::text::{decimal_digits, refusal};
use vstd::prelude::*;

verus! {

/// What a door is doing.
#[derive(Copy, Clone, Debug, PartialEq, Eq, Structural)]
pub enum DoorState {
    Opened,
    Opening,
    Closed,
    Closing,
    Locked,
    Broken,
}

impl DoorState {
    /// The number under which a state is stored.
    pub open spec fn spec_id(self) -> u32 {
        match self {
            DoorState::Opened => 0,
            DoorState::Opening => 1,
            DoorState::Closed => 2,
            DoorState::Closing => 3,
            DoorState::Locked => 4,
            DoorState::Broken => 5,
        }
    }

    /// The number under which this state is stored.
    pub fn id(self) -> (id: u32)
        ensures
            id == self.spec_id(),
    {
        match self {
            DoorState::Opened => 0,
            DoorState::Opening => 1,
            DoorState::Closed => 2,
            DoorState::Closing => 3,
            DoorState::Locked => 4,
            DoorState::Broken => 5,
        }
    }
}

impl DoorState {
    /// The state stored under `id`, if there is one.
    pub open spec fn spec_from_id(id: u32) -> Option<DoorState> {
        if id == 0 {
            Some(DoorState::Opened)
        } else if id == 1 {
            Some(DoorState::Opening)
        } else if id == 2 {
            Some(DoorState::Closed)
        } else if id == 3 {
            Some(DoorState::Closing)
        } else if id == 4 {
            Some(DoorState::Locked)
        } else if id == 5 {
            Some(DoorState::Broken)
        } else {
            None
        }
    }

    /// The complaint about a number that stands for no state.
    pub open spec fn invalid_id_text(id: u32) -> Seq<char> {
        "Invalid door state id "@ + decimal_digits(id as nat) + "!"@
    }

    /// Reads a state back from its number. Numbers above 5 stand for no
    /// state and are refused with a message that names the number.
    pub fn from_id(id: u32) -> (r: Result<DoorState, String>)
        ensures
            match r {
                Ok(state) => Self::spec_from_id(id) == Some(state),
                Err(text) => Self::spec_from_id(id).is_none() && text@ == Self::invalid_id_text(id),
            },
    {
        match id {
            0 => Ok(DoorState::Opened),
            1 => Ok(DoorState::Opening),
            2 => Ok(DoorState::Closed),
            3 => Ok(DoorState::Closing),
            4 => Ok(DoorState::Locked),
            5 => Ok(DoorState::Broken),
            _ => {
                Err(refusal("Invalid door state id ", id))
            },
        }
    }

    /// Every state is read back from its own number.
    pub proof fn lemma_id_round_trip(state: DoorState)
        ensures
            Self::spec_from_id(state.spec_id()) == Some(state),
    {
    }

    /// A number that stands for a state is the number of that state.
    pub proof fn lemma_from_id_is_inverse(id: u32)
        ensures
            Self::spec_from_id(id) matches Some(state) ==> state.spec_id() == id,
            Self::spec_from_id(id).is_some() <==> id <= 5,
    {
    }
}

impl Default for DoorState {
    fn default() -> (state: Self)
        ensures
            state == DoorState::Closed,
    {
        DoorState::Closed
    }
}

/// How far a door slides when it opens, in millimetres.
pub const OPEN_OFFSET: u32 = 750;

/// How near an actor must be for a door to open, in millimetres.
pub const OPEN_DISTANCE: u32 = 1250;

/// A colour.
#[derive(Copy, Clone, Debug, PartialEq, Eq, Structural)]
pub struct Color {
    pub r: u8,
    pub g: u8,
    pub b: u8,
    pub a: u8,
}

impl Color {
    /// A colour that lets nothing through.
    pub open spec fn spec_opaque(r: u8, g: u8, b: u8) -> Color {
        Color { r, g, b, a: 255 }
    }

    /// A colour that lets nothing through.
    pub fn opaque(r: u8, g: u8, b: u8) -> (color: Color)
        ensures
            color == Color::spec_opaque(r, g, b),
    {
        Color { r, g, b, a: 255 }
    }
}

/// What the lights of a door show.
#[derive(Copy, Clone, Debug, PartialEq, Eq, Structural)]
pub struct LightSetting {
    /// Whether the lights are lit.
    pub enabled: bool,
    /// The colour the lights are given, if they are given one.
    pub color: Option<Color>,
}

/// What is to be done to a door in the scene after a frame.
#[derive(Copy, Clone, Debug, PartialEq, Eq, Structural)]
pub struct DoorCommand {
    /// The node of the door.
    pub node: u64,
    /// What its lights show.
    pub lights: LightSetting,
    /// How far the door stands from where it is when closed, in
    /// millimetres along the way it slides.
    pub offset: u32,
    /// Where the body of the door is to be put.
    pub position: Vec3,
}

/// Where the body of a door stands that is `offset` millimetres open: that
/// far from where it is when closed, along the side it slides to. A door
/// whose side has no length slides along the third axis.
pub open spec fn body_position(initial_position: Vec3, side: Vec3, offset: u32) -> Vec3 {
    initial_position.spec_offset(side.spec_normalized().spec_scaled(offset as nat, 1000))
}

/// The state of a door once it has seen whether somebody is near: a closed
/// door begins to open when somebody is, an open door begins to close when
/// nobody is.
pub open spec fn state_after_look(state: DoorState, somebody_near: bool) -> DoorState {
    if somebody_near {
        if state == DoorState::Closed {
            DoorState::Opening
        } else {
            state
        }
    } else if state == DoorState::Opened {
        DoorState::Closing
    } else {
        state
    }
}

/// The state of a door after it has moved for `dt` milliseconds: an opening
/// door is open when it has slid all the way, a closing door is closed when
/// it is back.
pub open spec fn state_after_move(state: DoorState, offset: u32, dt: u32) -> DoorState {
    if state == DoorState::Opening && offset < OPEN_OFFSET && offset + dt >= OPEN_OFFSET {
        DoorState::Opened
    } else if state == DoorState::Closing && offset > 0 && offset <= dt {
        DoorState::Closed
    } else {
        state
    }
}

/// How far a door stands open after it has moved for `dt` milliseconds. A
/// door slides a millimetre in a millisecond.
pub open spec fn offset_after_move(state: DoorState, offset: u32, dt: u32) -> u32 {
    if state == DoorState::Opening && offset < OPEN_OFFSET {
        if offset + dt >= OPEN_OFFSET {
            OPEN_OFFSET
        } else {
            (offset + dt) as u32
        }
    } else if state == DoorState::Closing && offset > 0 {
        if offset <= dt {
            0
        } else {
            (offset - dt) as u32
        }
    } else {
        offset
    }
}

/// What the lights of a door show in a frame that the door begins in the
/// state `state`, once it has seen who is near: green when the door is
/// closed, red when it is locked, and nothing otherwise.
pub open spec fn lights_of(state: DoorState) -> LightSetting {
    match state {
        DoorState::Closed => LightSetting {
            enabled: true,
            color: Some(Color::spec_opaque(0, 255, 0)),
        },
        DoorState::Locked => LightSetting {
            enabled: true,
            color: Some(Color::spec_opaque(255, 0, 0)),
        },
        _ => LightSetting { enabled: false, color: None },
    }
}

/// A door does not slide further than all the way.
pub proof fn lemma_offset_stays_in_range(state: DoorState, offset: u32, dt: u32)
    requires
        offset <= OPEN_OFFSET,
    ensures
        offset_after_move(state, offset, dt) <= OPEN_OFFSET,
{
}

/// A door that is locked or broken stays so, whoever comes near.
pub proof fn lemma_locked_and_broken_stay(
    state: DoorState,
    offset: u32,
    somebody_near: bool,
    dt: u32,
)
    requires
        state == DoorState::Locked || state == DoorState::Broken,
    ensures
        state_after_move(state_after_look(state, somebody_near), offset, dt) == state,
        offset_after_move(state_after_look(state, somebody_near), offset, dt) == offset,
{
}

/// A door.
pub struct Door {
    /// The node of the door in the scene.
    pub node: u64,
    /// The nodes of the lights of the door.
    pub lights: Vec<u64>,
    pub state: DoorState,
    /// How far the door stands open, in millimetres.
    pub offset: u32,
    /// Where the door is when it is closed.
    pub initial_position: Vec3,
    /// The side to which the door slides when it opens.
    pub side: Vec3,
}

impl Default for Door {
    fn default() -> (door: Door)
        ensures
            door.node == 0,
            door.lights@.len() == 0,
            door.state == DoorState::Closed,
            door.offset == 0,
            door.initial_position == Vec3::spec_zero(),
            door.side == Vec3::spec_zero(),
    {
        Door {
            node: 0,
            lights: Vec::new(),
            state: DoorState::Closed,
            offset: 0,
            initial_position: Vec3::zero(),
            side: Vec3::zero(),
        }
    }
}

impl Door {
    /// Whether `after` and `command` are this door and what is to be done
    /// to it after a frame of `dt` milliseconds in which somebody is near
    /// or nobody is.
    pub open spec fn updated(
        &self,
        somebody_near: bool,
        dt: u32,
        after: &Door,
        command: DoorCommand,
    ) -> bool {
        let looked = state_after_look(self.state, somebody_near);
        &&& after.node == self.node
        &&& after.lights == self.lights
        &&& after.initial_position == self.initial_position
        &&& after.side == self.side
        &&& after.state == state_after_move(looked, self.offset, dt)
        &&& after.offset == offset_after_move(looked, self.offset, dt)
        &&& command == (DoorCommand {
            node: self.node,
            lights: lights_of(looked),
            offset: after.offset,
            position: body_position(self.initial_position, self.side, after.offset),
        })
    }

    /// A door at the node `node` with the given lights, closed all the way
    /// at `initial_position`, that slides to the side `side`.
    pub fn new(
        node: u64,
        lights: Vec<u64>,
        state: DoorState,
        initial_position: Vec3,
        side: Vec3,
    ) -> (door: Door)
        ensures
            door.node == node,
            door.lights == lights,
            door.state == state,
            door.offset == 0,
            door.initial_position == initial_position,
            door.side == side,
    {
        Door { node, lights, state, offset: 0, initial_position, side }
    }

    /// Says anew where the door is when it is closed.
    pub fn resolve(&mut self, position: Vec3)
        ensures
            final(self).initial_position == position,
            final(self).node == old(self).node,
            final(self).lights == old(self).lights,
            final(self).state == old(self).state,
            final(self).offset == old(self).offset,
            final(self).side == old(self).side,
    {
        self.initial_position = position;
    }

    /// Takes the door through a frame of `dt` milliseconds and tells what
    /// is to be done to it in the scene.
    pub fn update(&mut self, somebody_near: bool, dt: u32) -> (command: DoorCommand)
        ensures
            old(self).updated(somebody_near, dt, final(self), command),
    {
        if somebody_near {
            if self.state == DoorState::Closed {
                self.state = DoorState::Opening;
            }
        } else if self.state == DoorState::Opened {
            self.state = DoorState::Closing;
        }
        let lights = match self.state {
            DoorState::Opening => {
                if self.offset < OPEN_OFFSET {
                    if self.offset as u64 + dt as u64 >= OPEN_OFFSET as u64 {
                        self.state = DoorState::Opened;
                        self.offset = OPEN_OFFSET;
                    } else {
                        self.offset = self.offset + dt;
                    }
                }
                LightSetting { enabled: false, color: None }
            },
            DoorState::Closing => {
                if self.offset > 0 {
                    if self.offset <= dt {
                        self.state = DoorState::Closed;
                        self.offset = 0;
                    } else {
                        self.offset = self.offset - dt;
                    }
                }
                LightSetting { enabled: false, color: None }
            },
            DoorState::Closed => LightSetting {
                enabled: true,
                color: Some(Color::opaque(0, 255, 0)),
            },
            DoorState::Locked => LightSetting {
                enabled: true,
                color: Some(Color::opaque(255, 0, 0)),
            },
            DoorState::Broken | DoorState::Opened => LightSetting { enabled: false, color: None },
        };
        DoorCommand {
            node: self.node,
            lights,
            offset: self.offset,
            position: self.initial_position.offset(&self.side.normalized().scaled(self.offset, 1000)),
        }
    }
}

/// The doors of a level.
pub struct DoorContainer {
    pub doors: Pool<Door>,
}

impl Default for DoorContainer {
    fn default() -> (doors: DoorContainer)
        ensures
            doors.doors.wf(),
            doors.doors.records@.len() == 0,
            doors.doors.free@.len() == 0,
    {
        DoorContainer { doors: Pool::new() }
    }
}

impl DoorContainer {
    /// Whether `after` and `commands` are these doors and what is to be
    /// done to them after a frame of `dt` milliseconds among `actors`: each
    /// door has gone through the frame on its own, open to whoever stands
    /// nearer to its closed place than the opening distance, and
    /// `commands` holds, slot by slot, what is to be done to each.
    pub open spec fn updated(
        &self,
        actors: &ActorContainer,
        dt: u32,
        after: &DoorContainer,
        commands: Seq<Option<DoorCommand>>,
    ) -> bool {
        &&& after.doors.free == self.doors.free
        &&& after.doors.records@.len() == self.doors.records@.len()
        &&& commands.len() == self.doors.records@.len()
        &&& forall|i: int|
            0 <= i < self.doors.records@.len() ==> {
                &&& (#[trigger] after.doors.records@[i]).generation
                    == self.doors.records@[i].generation
                &&& match self.doors.records@[i].payload {
                    None => after.doors.records@[i].payload.is_none() && commands[i].is_none(),
                    Some(door) => after.doors.records@[i].payload.is_some()
                        && commands[i].is_some() && door.updated(
                        actors.spec_any_within(door.initial_position, OPEN_DISTANCE),
                        dt,
                        &after.doors.records@[i].payload.unwrap(),
                        commands[i].unwrap(),
                    ),
                }
            }
    }

    /// Whether `after` is these doors after each door for which
    /// `positions` holds a place, slot by slot, was told that place as the
    /// place where it is when closed.
    pub open spec fn resolved(&self, positions: Seq<Option<Vec3>>, after: &DoorContainer) -> bool {
        &&& after.doors.free == self.doors.free
        &&& after.doors.records@.len() == self.doors.records@.len()
        &&& forall|i: int|
            0 <= i < self.doors.records@.len() ==> {
                &&& (#[trigger] after.doors.records@[i]).generation
                    == self.doors.records@[i].generation
                &&& match self.doors.records@[i].payload {
                    None => after.doors.records@[i].payload.is_none(),
                    Some(door) => {
                        let now = after.doors.records@[i].payload;
                        &&& now.is_some()
                        &&& now.unwrap().node == door.node
                        &&& now.unwrap().lights == door.lights
                        &&& now.unwrap().state == door.state
                        &&& now.unwrap().offset == door.offset
                        &&& now.unwrap().side == door.side
                        &&& now.unwrap().initial_position == (if i < positions.len()
                            && positions[i].is_some() {
                            positions[i].unwrap()
                        } else {
                            door.initial_position
                        })
                    },
                }
            }
    }

    /// No doors.
    pub fn new() -> (doors: DoorContainer)
        ensures
            doors.doors.wf(),
            doors.doors.records@.len() == 0,
            doors.doors.free@.len() == 0,
    {
        DoorContainer { doors: Pool::new() }
    }

    /// Takes a door in and gives its handle.
    pub fn add(&mut self, door: Door) -> (handle: Handle)
        requires
            old(self).doors.wf(),
        ensures
            final(self).doors.wf(),
            handle == old(self).doors.next_handle(),
            old(self).doors.spawned(door, &final(self).doors),
    {
        self.doors.spawn(door)
    }

    /// Takes every door through a frame of `dt` milliseconds among
    /// `actors`, and tells, slot by slot, what is to be done to each door
    /// in the scene.
    pub fn update(&mut self, actors: &ActorContainer, dt: u32) -> (commands: Vec<Option<DoorCommand>>)
        requires
            old(self).doors.wf(),
        ensures
            final(self).doors.wf(),
            old(self).updated(actors, dt, final(self), commands@),
    {
        let mut commands: Vec<Option<DoorCommand>> = Vec::new();
        let count = self.doors.records.len();
        let mut i: usize = 0;
        while i < count
            invariant
                i <= count,
                count == old(self).doors.records@.len(),
                self.doors.records@.len() == count,
                self.doors.free == old(self).doors.free,
                self.doors.wf(),
                commands@.len() == i,
                forall|k: int| i <= k < count ==> #[trigger] self.doors.records@[k] == old(
                    self,
                ).doors.records@[k],
                forall|k: int|
                    0 <= k < i ==> {
                        &&& (#[trigger] self.doors.records@[k]).generation == old(
                            self,
                        ).doors.records@[k].generation
                        &&& match old(self).doors.records@[k].payload {
                            None => self.doors.records@[k].payload.is_none()
                                && commands@[k].is_none(),
                            Some(door) => self.doors.records@[k].payload.is_some()
                                && commands@[k].is_some() && door.updated(
                                actors.spec_any_within(door.initial_position, OPEN_DISTANCE),
                                dt,
                                &self.doors.records@[k].payload.unwrap(),
                                commands@[k].unwrap(),
                            ),
                        }
                    },
            decreases count - i,
        {
            let ghost before = self.doors;
            let command = match self.doors.handle_at(i) {
                Some(handle) => {
                    let command = match self.doors.try_borrow_mut(handle) {
                        Some(door) => {
                            let near = actors.any_within(&door.initial_position, OPEN_DISTANCE);
                            Some(door.update(near, dt))
                        },
                        None => None,
                    };
                    proof {
                        before.lemma_changed_in_place(
                            &self.doors,
                            handle,
                            self.doors.value(handle),
                        );
                    }
                    command
                },
                None => None,
            };
            commands.push(command);
            i += 1;
        }
        commands
    }

    /// Tells each door for which `positions` holds a place, slot by slot,
    /// that place as the place where it is when closed.
    pub fn resolve(&mut self, positions: &Vec<Option<Vec3>>)
        requires
            old(self).doors.wf(),
        ensures
            final(self).doors.wf(),
            old(self).resolved(positions@, final(self)),
    {
        let count = self.doors.records.len();
        let mut i: usize = 0;
        while i < count
            invariant
                i <= count,
                count == old(self).doors.records@.len(),
                self.doors.records@.len() == count,
                self.doors.free == old(self).doors.free,
                self.doors.wf(),
                forall|k: int| i <= k < count ==> #[trigger] self.doors.records@[k] == old(
                    self,
                ).doors.records@[k],
                forall|k: int|
                    0 <= k < i ==> {
                        &&& (#[trigger] self.doors.records@[k]).generation == old(
                            self,
                        ).doors.records@[k].generation
                        &&& match old(self).doors.records@[k].payload {
                            None => self.doors.records@[k].payload.is_none(),
                            Some(door) => {
                                let now = self.doors.records@[k].payload;
                                &&& now.is_some()
                                &&& now.unwrap().node == door.node
                                &&& now.unwrap().lights == door.lights
                                &&& now.unwrap().state == door.state
                                &&& now.unwrap().offset == door.offset
                                &&& now.unwrap().side == door.side
                                &&& now.unwrap().initial_position == (if k < positions@.len()
                                    && positions@[k].is_some() {
                                    positions@[k].unwrap()
                                } else {
                                    door.initial_position
                                })
                            },
                        }
                    },
            decreases count - i,
        {
            let ghost before = self.doors;
            let told: Option<Vec3> = if i < positions.len() {
                positions[i]
            } else {
                None
            };
            match (told, self.doors.handle_at(i)) {
                (Some(position), Some(handle)) => {
                    match self.doors.try_borrow_mut(handle) {
                        Some(door) => {
                            door.resolve(position);
                        },
                        None => {},
                    }
                    proof {
                        before.lemma_changed_in_place(
                            &self.doors,
                            handle,
                            self.doors.value(handle),
                        );
                    }
                },
                _ => {},
            }
            i += 1;
        }
    }
}

} // verus!
