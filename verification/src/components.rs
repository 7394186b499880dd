//! The sprite demo's entity components, as plain data: positions, sprites,
//! velocities and walking animations.  The component storage and rendering
//! around them belong to the engine; the library holds their shapes.

use vstd::prelude::*;

verus! {

/// Marks an entity as driven by the keyboard.
#[derive(Debug, Default, Clone, Copy, PartialEq, Eq, Structural)]
pub struct KeyboardControlled;

/// A facing or walking direction.
#[derive(Debug, Clone, Copy, PartialEq, Eq, Structural)]
pub enum Direction {
    Up,
    Down,
    Left,
    Right,
}

/// A command sent to the movement system.
#[derive(Debug, Clone, Copy, PartialEq, Eq, Structural)]
pub enum MovementCommand {
    Stop,
    Move(Direction),
}

/// An entity's current position, in screen pixels.
#[derive(Debug, Clone, Copy, PartialEq, Eq, Structural)]
pub struct Position {
    pub x: i32,
    pub y: i32,
}

/// A rectangular region of a sprite sheet, in pixels.
#[derive(Debug, Clone, Copy, PartialEq, Eq, Structural)]
pub struct Region {
    pub x: i32,
    pub y: i32,
    pub width: u32,
    pub height: u32,
}

/// Which sprite-sheet region an entity is drawn from.
#[derive(Debug, Clone, Copy, PartialEq, Eq, Structural)]
pub struct Sprite {
    /// The sprite sheet to render from.
    pub sprite_sheet: usize,
    /// The region of the sheet currently rendered.
    pub region: Region,
}

/// An entity's speed and heading.
#[derive(Debug, Clone, Copy, PartialEq, Eq, Structural)]
pub struct Velocity {
    pub speed: i32,
    pub direction: Direction,
}

/// The frames of an entity's walking animation, one list per direction.
#[derive(Debug, Clone)]
pub struct MoveAnimation {
    pub current_frame: usize,
    pub up_frames: Vec<Sprite>,
    pub down_frames: Vec<Sprite>,
    pub left_frames: Vec<Sprite>,
    pub right_frames: Vec<Sprite>,
}

} // verus!
