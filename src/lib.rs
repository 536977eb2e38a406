//! Input and scene rules of a first-person physics demo: when the cursor is
//! captured, which way the player walks for the keys held, and how the floor
//! grid is laid out and coloured. The engine calls live in the application
//! crate; this library holds the decisions they are driven by.
pub mod cursor;
pub mod controls;
pub mod grid;
