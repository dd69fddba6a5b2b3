// The decision core of an action platformer: the player's attack timing state
// machine and its fury scaling, the grounded movement controller with coyote time and
// dashing, the enemies' decisions, and the level script. Positions and velocities are
// fixed-point (thousandths of a world unit), durations are microseconds.

pub mod animation;
pub mod attack;
pub mod boss;
pub mod camera;
pub mod fury;
pub mod geometry;
pub mod health;
pub mod input;
pub mod movement;
pub mod movement_proofs;
pub mod physics;
pub mod script;
pub mod slime;
pub mod sound;
pub mod timer;
