//! Core of an Intel 8080 emulator for the Space Invaders arcade board: machine
//! state, the arithmetic/logic unit with its status flags, stack and control-flow
//! primitives, the opcode dispatcher, the board's I/O ports, and the step that
//! fetches and executes one instruction.
pub mod cpu;
pub mod hardware;
pub mod machine;
