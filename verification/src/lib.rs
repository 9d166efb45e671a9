//! An interpreter for the CHIP-8 virtual machine: instruction decoding, the
//! execute state transition, the XOR-blit framebuffer, the two countdown
//! timers and the press-then-release key wait, each with a proved contract.

pub mod audio;
pub mod graphic;
pub mod input;
pub mod keymap;
pub mod opcode;
pub mod state;
pub mod timer;
pub mod vm;

pub use audio::{Audio, AudioCommand, DeviceAction};
pub use graphic::{Graphic, HEIGHT, WIDTH};
pub use input::{key_index, poll, PollResult, ESCAPE};
pub use keymap::Keymap;
pub use opcode::{DecodeError, Opcode};
pub use state::{Fault, FONT, MEMORY_SIZE, PROGRAM_CAPACITY, PROGRAM_START};
pub use timer::{Timer, TimerTick, TICK_HZ};
pub use vm::{Chip8, FrameOutput, WaitingKeyStatus, VM};
