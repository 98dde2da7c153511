//! The player in the world: how its actions change its movement state, and which animation
//! its state plays.
use vstd::prelude::*;

verus! {

/// How the player moves in the world.
#[derive(Clone, Copy, Debug, PartialEq, Eq, Structural, Hash)]
pub enum WorldPlayerState {
    Idle,
    Walking,
    Sprinting,
}

impl Default for WorldPlayerState {
    /// The player starts idle.
    fn default() -> (r: Self)
        ensures
            r == WorldPlayerState::Idle,
    {
        WorldPlayerState::Idle
    }
}

/// What an enemy in the world is doing.
#[derive(Clone, Copy, Debug, PartialEq, Eq, Structural, Hash)]
pub enum EnemyState {
    Idling,
    Observing,
    Walking,
    Alert,
    Attacking,
}

impl Default for EnemyState {
    /// An enemy starts idling.
    fn default() -> (r: Self)
        ensures
            r == EnemyState::Idling,
    {
        EnemyState::Idling
    }
}

/// The states of an enemy's behaviour.
#[derive(Clone, Copy, Debug, PartialEq, Eq, Structural, Hash)]
pub enum AiState {
    Idle,
    Walking,
    Observing,
    Alert,
    Aggressive,
    Attacking,
}

impl Default for AiState {
    /// An enemy's behaviour starts idle.
    fn default() -> (r: Self)
        ensures
            r == AiState::Idle,
    {
        AiState::Idle
    }
}

/// The elements damage and weaknesses come in.
#[derive(Clone, Copy, Debug, PartialEq, Eq, Structural, Hash)]
pub enum Elements {
    Fire,
    Water,
    Earth,
    Air,
    Lightning,
    Ice,
    Dark,
    Light,
}

/// An action of the player, as read from the input; `moving` tells whether its direction is
/// not zero.
#[derive(Clone, Copy, Debug, PartialEq, Eq, Structural)]
pub enum PlayerAction {
    Idle,
    Move { moving: bool },
    Sprinting { moving: bool },
    Attacking,
}

/// What an action does to the player's motion.
#[derive(Clone, Copy, Debug, PartialEq, Eq, Structural)]
pub enum Motion {
    /// Turn towards the direction and move at walking speed.
    Walk,
    /// Turn towards the direction and move at sprinting speed.
    Sprint,
    /// Stop moving.
    Stop,
    /// Nothing changes.
    Keep,
}

/// The state and motion an action leads to (see [`update_movement`]).
pub open spec fn movement_after(state: WorldPlayerState, action: PlayerAction) -> (WorldPlayerState, Motion) {
    match action {
        PlayerAction::Move { moving } => if moving {
            (WorldPlayerState::Walking, Motion::Walk)
        } else {
            (state, Motion::Keep)
        },
        PlayerAction::Sprinting { moving } => if moving {
            (WorldPlayerState::Sprinting, Motion::Sprint)
        } else {
            (state, Motion::Keep)
        },
        PlayerAction::Idle | PlayerAction::Attacking => (WorldPlayerState::Idle, Motion::Stop),
    }
}

/// Outside of battle, standing still or attacking stops the player and leaves it idle, whatever
/// it was doing; a move in some direction makes it walk and a sprint in some direction makes it
/// sprint, whatever it was doing; a move or sprint without direction keeps it as it is.
pub proof fn lemma_movement_follows_the_action(state: WorldPlayerState)
    ensures
        movement_after(state, PlayerAction::Idle) == (WorldPlayerState::Idle, Motion::Stop),
        movement_after(state, PlayerAction::Attacking) == (WorldPlayerState::Idle, Motion::Stop),
        movement_after(state, PlayerAction::Move { moving: true }) == (WorldPlayerState::Walking, Motion::Walk),
        movement_after(state, PlayerAction::Sprinting { moving: true }) == (WorldPlayerState::Sprinting, Motion::Sprint),
        movement_after(state, PlayerAction::Move { moving: false }) == (state, Motion::Keep),
        movement_after(state, PlayerAction::Sprinting { moving: false }) == (state, Motion::Keep),
{
}

/// An action read from the input moves the player, outside of battle: a move in some direction
/// walks, a sprint in some direction sprints, standing still or attacking stops; a move or
/// sprint without direction changes nothing. In battle the player's state is left alone.
pub fn update_movement(state: &mut WorldPlayerState, in_battle: bool, action: PlayerAction) -> (r: Motion)
    ensures
        in_battle ==> r == Motion::Keep && *final(state) == *old(state),
        !in_battle ==> (*final(state), r) == movement_after(*old(state), action),
        !in_battle && (action == PlayerAction::Idle || action == PlayerAction::Attacking) ==> r == Motion::Stop
            && *final(state) == WorldPlayerState::Idle,
{
    if in_battle {
        return Motion::Keep;
    }
    match action {
        PlayerAction::Move { moving } => {
            if moving {
                *state = WorldPlayerState::Walking;
                Motion::Walk
            } else {
                Motion::Keep
            }
        },
        PlayerAction::Sprinting { moving } => {
            if moving {
                *state = WorldPlayerState::Sprinting;
                Motion::Sprint
            } else {
                Motion::Keep
            }
        },
        PlayerAction::Idle | PlayerAction::Attacking => {
            *state = WorldPlayerState::Idle;
            Motion::Stop
        },
    }
}

/// The actions the keyboard gives in one frame (see [`fetch_keyboard_input`]).
#[derive(Clone, Copy, Debug, PartialEq, Eq, Structural)]
pub struct KeyboardActions {
    /// The first action: a move, or standing still.
    pub movement: PlayerAction,
    /// A sprint follows when the sprint key is held.
    pub sprint: Option<PlayerAction>,
}

/// The keyboard's actions: a move when a movement key is held and the keys' directions do not
/// cancel out, else standing still; and a sprint, in the same direction, while the sprint key
/// is held.
pub fn fetch_keyboard_input(movement_key_held: bool, direction_nonzero: bool, sprint_held: bool) -> (r: KeyboardActions)
    ensures
        r.movement == (if direction_nonzero && movement_key_held {
            PlayerAction::Move { moving: true }
        } else {
            PlayerAction::Idle
        }),
        r.sprint == (if sprint_held {
            Some(PlayerAction::Sprinting { moving: direction_nonzero })
        } else {
            None::<PlayerAction>
        }),
{
    let movement = if direction_nonzero && movement_key_held {
        PlayerAction::Move { moving: true }
    } else {
        PlayerAction::Idle
    };
    let sprint = if sprint_held {
        Some(PlayerAction::Sprinting { moving: direction_nonzero })
    } else {
        None
    };
    KeyboardActions { movement, sprint }
}

/// What the player's animation does in one frame.
#[derive(Clone, Copy, Debug, PartialEq, Eq, Structural)]
pub enum AnimationCommand {
    /// Play the animation at `slot` of the player's animations, blending over `blend_ms`
    /// milliseconds, repeating it when `repeat`; the idle timer is reset when `reset_timer`.
    Play { slot: usize, blend_ms: u64, repeat: bool, reset_timer: bool },
    /// Only reset the idle timer.
    ResetTimer,
    /// Leave the animation as it is.
    Keep,
    /// Stop updating animations for this frame.
    Stop,
}

/// What the animation in a frame shows of the player's state.
pub struct AnimationFrame {
    pub state: WorldPlayerState,
    /// The idle timer has run out.
    pub idle_timer_finished: bool,
    /// The plain idle animation (slot 0) is playing.
    pub playing_idle: bool,
    /// An unfinished animation on the graph's walking node is playing.
    pub walking_node_unfinished: bool,
    /// The walking animation (slot 2) is playing.
    pub playing_walk: bool,
    /// The sprinting animation (slot 3) is playing.
    pub playing_sprint: bool,
}

/// A random position among the `len` idle variations (`rand::random_range` over `0..len`):
/// any of them, by chance.
#[verifier::external_body]
fn random_index(len: usize) -> (r: usize)
    requires
        len > 0,
    ensures
        r < len,
{
    rand::random_range(0..len)
}

/// The player's animation follows its state. Idle: when the idle timer runs out, one of the
/// idle variations (all of them the animation at slot 1) plays once and the timer restarts;
/// otherwise the plain idle animation (slot 0) is brought back, unless an unfinished animation
/// on the walking node still plays, which stops this frame. Walking and sprinting play their
/// animations (slots 2 and 3) on repeat, and keep the idle timer reset.
pub fn update(frame: &AnimationFrame) -> (r: AnimationCommand)
    ensures
        r == (match frame.state {
            WorldPlayerState::Idle => if frame.idle_timer_finished {
                AnimationCommand::Play { slot: 1, blend_ms: 425, repeat: false, reset_timer: true }
            } else if frame.playing_idle {
                AnimationCommand::Keep
            } else if frame.walking_node_unfinished {
                AnimationCommand::Stop
            } else {
                AnimationCommand::Play { slot: 0, blend_ms: 425, repeat: true, reset_timer: false }
            },
            WorldPlayerState::Walking => if frame.playing_walk {
                AnimationCommand::ResetTimer
            } else {
                AnimationCommand::Play { slot: 2, blend_ms: 450, repeat: true, reset_timer: true }
            },
            WorldPlayerState::Sprinting => if frame.playing_sprint {
                AnimationCommand::ResetTimer
            } else {
                AnimationCommand::Play { slot: 3, blend_ms: 550, repeat: true, reset_timer: true }
            },
        }),
{
    match frame.state {
        WorldPlayerState::Idle => {
            if frame.idle_timer_finished {
                let idle_animation_entries: [usize; 3] = [1, 1, 1];
                let pick = random_index(3);
                let slot = idle_animation_entries[pick];
                AnimationCommand::Play { slot, blend_ms: 425, repeat: false, reset_timer: true }
            } else if frame.playing_idle {
                AnimationCommand::Keep
            } else if frame.walking_node_unfinished {
                AnimationCommand::Stop
            } else {
                AnimationCommand::Play { slot: 0, blend_ms: 425, repeat: true, reset_timer: false }
            }
        },
        WorldPlayerState::Walking => {
            if frame.playing_walk {
                AnimationCommand::ResetTimer
            } else {
                AnimationCommand::Play { slot: 2, blend_ms: 450, repeat: true, reset_timer: true }
            }
        },
        WorldPlayerState::Sprinting => {
            if frame.playing_sprint {
                AnimationCommand::ResetTimer
            } else {
                AnimationCommand::Play { slot: 3, blend_ms: 550, repeat: true, reset_timer: true }
            }
        },
    }
}

} // verus!
