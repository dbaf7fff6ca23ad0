use vstd::prelude::*;

verus! {

/// The two ways the cannon can be steered.
#[derive(Clone, Copy, Debug, PartialEq, Eq, Structural)]
pub enum ControllerDirection {
    Right,
    Left,
}

/// One steering request for this frame.
#[derive(Clone, Copy, Debug, PartialEq, Eq)]
pub struct ControllerEvent {
    pub direction: ControllerDirection,
}

/// The fire button went down this frame.
#[derive(Clone, Copy, Debug, PartialEq, Eq)]
pub struct Fired;

/// The keys that take part in play, as read for one frame.
#[derive(Clone, Copy, Debug, PartialEq, Eq)]
pub struct KeyState {
    pub left_held: bool,
    pub right_held: bool,
    pub space_just_pressed: bool,
}

/// The semantic events one frame of key states yields.
#[derive(Clone, Debug, PartialEq, Eq)]
pub struct InputEvents {
    pub controller: Vec<ControllerEvent>,
    pub fired: Vec<Fired>,
}

pub open spec fn controller_events_of(keys: KeyState) -> Seq<ControllerEvent> {
    let left: Seq<ControllerEvent> = if keys.left_held {
        seq![ControllerEvent { direction: ControllerDirection::Left }]
    } else {
        Seq::empty()
    };
    let right: Seq<ControllerEvent> = if keys.right_held {
        seq![ControllerEvent { direction: ControllerDirection::Right }]
    } else {
        Seq::empty()
    };
    left + right
}

/// Turns key states into events: Left while the left arrow is held, Right
/// while the right arrow is held, and one Fired on the frame the space bar
/// goes down.
pub fn player_input(keys: &KeyState) -> (events: InputEvents)
    ensures
        events.controller@ == controller_events_of(*keys),
        events.fired@.len() == (if keys.space_just_pressed {
            1int
        } else {
            0int
        }),
{
    let mut controller: Vec<ControllerEvent> = Vec::new();
    let mut fired: Vec<Fired> = Vec::new();
    if keys.left_held {
        controller.push(ControllerEvent { direction: ControllerDirection::Left });
    }
    if keys.right_held {
        controller.push(ControllerEvent { direction: ControllerDirection::Right });
    }
    if keys.space_just_pressed {
        fired.push(Fired);
    }
    assert(controller@ =~= controller_events_of(*keys));
    InputEvents { controller, fired }
}

/// +1 for a Right request, -1 for a Left one.
pub open spec fn unit_of(d: ControllerDirection) -> int {
    match d {
        ControllerDirection::Right => 1,
        ControllerDirection::Left => -1,
    }
}

/// The number of Right requests less the number of Left requests.
pub open spec fn direction_sum(s: Seq<ControllerEvent>) -> int
    decreases s.len(),
{
    if s.len() == 0 {
        0
    } else {
        direction_sum(s.drop_last()) + unit_of(s.last().direction)
    }
}

/// Sums the steering requests of a frame.
pub fn sum_directions(events: &Vec<ControllerEvent>) -> (r: i128)
    ensures
        r == direction_sum(events@),
        -(events@.len() as int) <= r <= events@.len(),
        events@.len() <= usize::MAX,
{
    let mut sum: i128 = 0;
    let n = events.len();
    for i in 0..n
        invariant
            n == events@.len(),
            sum == direction_sum(events@.subrange(0, i as int)),
            -(i as int) <= sum <= i,
    {
        assert(events@.subrange(0, i + 1).drop_last() =~= events@.subrange(0, i as int));
        match events[i].direction {
            ControllerDirection::Right => sum = sum + 1,
            ControllerDirection::Left => sum = sum - 1,
        }
    }
    assert(events@.subrange(0, n as int) =~= events@);
    sum
}

} // verus!
