//! An interpreter core for the CHIP-8 virtual machine.
//!
//! The machine is verified against a mathematical model of itself:
//!
//! - [`model`] holds the model, [`model::MachineState`], and what each
//!   instruction, a step and a timer tick do to it;
//! - [`decode`] takes instruction words apart;
//! - [`machine`] holds the machine, [`machine::Chip8`], with its step
//!   ([`machine::Chip8::cycle`]) and its timer tick
//!   ([`machine::Chip8::tick`]);
//! - [`ops`] carries out the single instructions;
//! - [`screen`] and [`sprite`] hold the pixel grid and the drawing of
//!   sprites on it;
//! - [`keypad`] and [`random`] are what the host supplies: the state of the
//!   keys and a source of random bytes;
//! - [`laws`] proves what holds of the model whatever the program.
//!
//! A host loads a program, then calls `cycle` once per instruction and
//! `tick` once per timer period, and shows the display whenever it likes.

pub mod decode;
pub mod keypad;
pub mod laws;
pub mod machine;
pub mod model;
pub mod ops;
pub mod random;
pub mod screen;
pub mod sprite;
