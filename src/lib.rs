//! Decision logic of a first-person player controller: which movement keys
//! give which raw direction, when a frame moves or looks at all, and how
//! window focus drives the cursor grab, and when the camera joins the player.
pub mod camera;
pub mod grab;
pub mod movement;
