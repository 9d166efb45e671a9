//! The machine as a mathematical value, and what each instruction makes of
//! it.

use vstd::prelude::*;
use crate::audio::AudioCommand;
use crate::graphic::{
    blank, blitted, collides, is_screen, lemma_blank_is_dark, lemma_draw_twice, lit_points,
    sprite_at,
};
use crate::keymap::{first_released, lemma_first_released, merged, no_keys, released};
use crate::opcode::{decode_result, lemma_decoded_wf, DecodeError, Opcode};
use crate::timer::{tick_report, ticked, Timer, TimerTick};

verus! {

/// Bytes of memory.
pub const MEMORY_SIZE: usize = 4096;

/// Address at which the program image starts, and at which execution starts.
pub const PROGRAM_START: usize = 0x200;

/// The longest program image that fits into memory.
pub const PROGRAM_CAPACITY: usize = 0xE00;

/// The glyphs of the hexadecimal digits `0` to `F`, five rows each, one byte
/// per row with the pixels in the high nibble.
pub const FONT: [u8; 80] = [
    0xF0, 0x90, 0x90, 0x90, 0xF0,
    0x20, 0x60, 0x20, 0x20, 0x70,
    0xF0, 0x10, 0xF0, 0x80, 0xF0,
    0xF0, 0x10, 0xF0, 0x10, 0xF0,
    0x90, 0x90, 0xF0, 0x10, 0x10,
    0xF0, 0x80, 0xF0, 0x10, 0xF0,
    0xF0, 0x80, 0xF0, 0x90, 0xF0,
    0xF0, 0x10, 0x20, 0x40, 0x40,
    0xF0, 0x90, 0xF0, 0x90, 0xF0,
    0xF0, 0x90, 0xF0, 0x10, 0xF0,
    0xF0, 0x90, 0xF0, 0x90, 0x90,
    0xE0, 0x90, 0xE0, 0x90, 0xE0,
    0xF0, 0x80, 0x80, 0x80, 0xF0,
    0xE0, 0x90, 0x90, 0x90, 0xE0,
    0xF0, 0x80, 0xF0, 0x80, 0xF0,
    0xF0, 0x80, 0xF0, 0x80, 0x80,
];

/// A fatal error of the interpreter.
#[derive(Clone, Copy, Debug, PartialEq, Eq, Structural)]
pub enum Fault {
    /// The word at the program counter is no instruction.
    Decode(DecodeError),
    /// A fetch or an indexed access reaches beyond the 4096 bytes of memory.
    MemoryFault,
    /// A return with an empty call stack.
    StackUnderflow,
}

/// The state of the machine as plain mathematical values.
#[verifier::ext_equal]
pub struct VmState {
    /// The 4096 bytes of memory.
    pub memory: Seq<u8>,
    /// The registers `V0` to `VF`.
    pub v: Seq<u8>,
    /// The program counter.
    pub pc: u16,
    /// The index register `I`.
    pub i: u16,
    /// The return addresses, the most recent last.
    pub stack: Seq<u16>,
    /// The pixels, `screen[y][x]`.
    pub screen: Seq<Seq<bool>>,
    /// Whether the screen changed since it was last rendered.
    pub dirty: bool,
    /// The delay and sound counters.
    pub timer: Timer,
    /// The keys that are down in the current frame.
    pub keys: Seq<bool>,
    /// The pending key wait: target register and the keys seen down so far.
    pub wait: Option<(usize, Seq<bool>)>,
}

impl VmState {
    /// The parts have their sizes, and a pending wait names a register.
    pub open spec fn wf(self) -> bool {
        &&& self.memory.len() == 4096
        &&& self.v.len() == 16
        &&& is_screen(self.screen)
        &&& self.keys.len() == 16
        &&& self.wait matches Some((reg, held)) ==> reg < 16 && held.len() == 16
    }
}

/// The machine right after `image` is loaded: the font at address 0, the
/// image at 0x200, everything else zero, execution about to start at 0x200.
pub open spec fn booted(image: Seq<u8>) -> VmState {
    VmState {
        memory: Seq::new(
            4096,
            |a: int|
                if a < 80 {
                    FONT[a]
                } else if 0x200 <= a < 0x200 + image.len() {
                    image[a - 0x200]
                } else {
                    0u8
                },
        ),
        v: Seq::new(16, |k: int| 0u8),
        pc: 0x200,
        i: 0,
        stack: Seq::empty(),
        screen: blank(),
        dirty: false,
        timer: Timer { delay: 0, sound: 0 },
        keys: no_keys(),
        wait: None,
    }
}

/// The big-endian word at `addr` and `addr + 1`.
pub open spec fn word_at(memory: Seq<u8>, addr: int) -> u16 {
    (memory[addr] as int * 256 + memory[addr + 1] as int) as u16
}

/// What fetching at the program counter gives: a memory fault unless both
/// bytes lie in memory, else what the word there decodes to.
pub open spec fn fetched(s: VmState) -> Result<Opcode, Fault> {
    if s.pc as int + 1 >= 4096 {
        Err(Fault::MemoryFault)
    } else {
        match decode_result(word_at(s.memory, s.pc as int)) {
            Ok(op) => Ok(op),
            Err(e) => Err(Fault::Decode(e)),
        }
    }
}

/// `pc` moved on by one instruction, within 16 bits.
pub open spec fn next_pc(pc: u16) -> u16 {
    ((pc + 2) % 0x10000) as u16
}

/// The state with the program counter moved past one more instruction if
/// `cond` holds.
pub open spec fn skipped(s: VmState, cond: bool) -> VmState {
    if cond {
        VmState { pc: next_pc(s.pc), ..s }
    } else {
        s
    }
}

/// The state with register `x` set to `value`.
pub open spec fn with_reg(s: VmState, x: usize, value: int) -> VmState {
    VmState { v: s.v.update(x as int, value as u8), ..s }
}

/// The state with register `x` set to `value` and then `VF` set to `flag`.
pub open spec fn with_flag(s: VmState, x: usize, value: int, flag: int) -> VmState {
    VmState { v: s.v.update(x as int, value as u8).update(0xF, flag as u8), ..s }
}

/// `a - b` in 8-bit two's-complement arithmetic: where `b` is the greater, the
/// difference wraps to `256 - (b - a)`.
pub open spec fn difference(a: u8, b: u8) -> int {
    if a >= b {
        a - b
    } else {
        256 - (b - a)
    }
}

/// Bit `c` of a sprite row, counted from the most significant one, as 0 or 1.
pub open spec fn bit_of(byte: u8, c: int) -> u8 {
    if byte & (0x80u8 >> (c as u8)) != 0 {
        1
    } else {
        0
    }
}

/// The eight bits of a sprite row, the leftmost pixel first.
pub open spec fn bits_of(byte: u8) -> Seq<u8> {
    Seq::new(8, |c: int| bit_of(byte, c))
}

/// The sprite of `height` rows that memory holds from address `i` on.
pub open spec fn sprite_rows(memory: Seq<u8>, i: int, height: int) -> Seq<Seq<u8>> {
    Seq::new(height as nat, |r: int| bits_of(memory[i + r]))
}

/// Memory with the registers `V0..=Vx` stored from address `i` on.
pub open spec fn dumped(memory: Seq<u8>, v: Seq<u8>, i: int, x: int) -> Seq<u8> {
    Seq::new(
        4096,
        |a: int|
            if i <= a <= i + x {
                v[a - i]
            } else {
                memory[a]
            },
    )
}

/// The registers with `V0..=Vx` loaded from address `i` on.
pub open spec fn loaded(memory: Seq<u8>, v: Seq<u8>, i: int, x: int) -> Seq<u8> {
    Seq::new(
        16,
        |k: int|
            if k <= x {
                memory[i + k]
            } else {
                v[k]
            },
    )
}

/// The instruction can be carried out in state `s`: where it takes a key
/// number or a font digit from a register, that register holds less than 16.
pub open spec fn accepts(s: VmState, op: Opcode) -> bool {
    match op {
        Opcode::RegAssignFont { x }
        | Opcode::SkipIfPress { x }
        | Opcode::SkipIfNotPress { x } => s.v[x as int] < 16,
        _ => true,
    }
}

/// What instruction `op` makes of state `s`, in which the program counter
/// already points past the instruction: the next state, or the fault that
/// stops the machine.
pub open spec fn executed(s: VmState, op: Opcode) -> Result<VmState, Fault> {
    match op {
        Opcode::ClearScreen => Ok(VmState { screen: blank(), dirty: true, ..s }),
        Opcode::Return => if s.stack.len() == 0 {
            Err(Fault::StackUnderflow)
        } else {
            Ok(VmState { pc: s.stack.last(), stack: s.stack.drop_last(), ..s })
        },
        Opcode::Jump { addr } => Ok(VmState { pc: addr, ..s }),
        Opcode::CallSub { addr } => Ok(VmState { pc: addr, stack: s.stack.push(s.pc), ..s }),
        Opcode::SkipIfEqualConst { x, nn } => Ok(skipped(s, s.v[x as int] == nn)),
        Opcode::SkipIfNotEqualConst { x, nn } => Ok(skipped(s, s.v[x as int] != nn)),
        Opcode::SkipIfEqual { x, y } => Ok(skipped(s, s.v[x as int] == s.v[y as int])),
        Opcode::SkipIfNotEqual { x, y } => Ok(skipped(s, s.v[x as int] != s.v[y as int])),
        Opcode::SetConst { x, nn } => Ok(with_reg(s, x, nn as int)),
        Opcode::AddConst { x, nn } => Ok(with_reg(s, x, (s.v[x as int] + nn) % 256)),
        Opcode::Assign { x, y } => Ok(with_reg(s, x, s.v[y as int] as int)),
        Opcode::AssignOr { x, y } => Ok(with_reg(s, x, (s.v[x as int] | s.v[y as int]) as int)),
        Opcode::AssignAnd { x, y } => Ok(with_reg(s, x, (s.v[x as int] & s.v[y as int]) as int)),
        Opcode::AssignXor { x, y } => Ok(with_reg(s, x, (s.v[x as int] ^ s.v[y as int]) as int)),
        Opcode::AssignAdd { x, y } => {
            let sum = s.v[x as int] + s.v[y as int];
            Ok(with_flag(s, x, sum % 256, if sum > 255 { 1 } else { 0 }))
        },
        Opcode::AssignSub { x, y } => {
            let vx = s.v[x as int];
            let vy = s.v[y as int];
            Ok(with_flag(s, x, difference(vx, vy), if vx >= vy { 1 } else { 0 }))
        },
        Opcode::AssignRevSub { x, y } => {
            let vx = s.v[x as int];
            let vy = s.v[y as int];
            Ok(with_flag(s, x, difference(vy, vx), if vy >= vx { 1 } else { 0 }))
        },
        Opcode::AssignShift { x } => {
            let vx = s.v[x as int] as int;
            Ok(with_flag(s, x, vx / 2, vx % 2))
        },
        Opcode::AssignRevShift { x } => {
            let vx = s.v[x as int] as int;
            Ok(with_flag(s, x, (vx * 2) % 256, vx / 128))
        },
        Opcode::RegAssign { addr } => Ok(VmState { i: addr, ..s }),
        Opcode::Draw { x, y, height } => if height > 0 && s.i + height > 4096 {
            Err(Fault::MemoryFault)
        } else {
            let sprite = sprite_rows(s.memory, s.i as int, height as int);
            let vx = s.v[x as int] as int;
            let vy = s.v[y as int] as int;
            Ok(
                VmState {
                    screen: blitted(s.screen, sprite, vx, vy),
                    dirty: true,
                    v: s.v.update(0xF, if collides(s.screen, sprite, vx, vy) { 1u8 } else { 0u8 }),
                    ..s
                },
            )
        },
        Opcode::SkipIfPress { x } => Ok(skipped(s, s.keys[s.v[x as int] as int])),
        Opcode::SkipIfNotPress { x } => Ok(skipped(s, !s.keys[s.v[x as int] as int])),
        Opcode::AssignDelayTimer { x } => Ok(with_reg(s, x, s.timer.delay as int)),
        Opcode::AssignKey { x } => Ok(VmState { wait: Some((x, s.keys)), ..s }),
        Opcode::DelayTimerAssign { x } => Ok(
            VmState { timer: Timer { delay: s.v[x as int], ..s.timer }, ..s },
        ),
        Opcode::SoundTimerAssign { x } => Ok(
            VmState { timer: Timer { sound: s.v[x as int], ..s.timer }, ..s },
        ),
        Opcode::RegAssignAdd { x } => Ok(
            VmState { i: ((s.i + s.v[x as int]) % 0x10000) as u16, ..s },
        ),
        Opcode::RegAssignFont { x } => Ok(VmState { i: (s.v[x as int] * 5) as u16, ..s }),
        Opcode::BinaryCodedDecimal { x } => if s.i + 2 >= 4096 {
            Err(Fault::MemoryFault)
        } else {
            let vx = s.v[x as int];
            Ok(
                VmState {
                    memory: s.memory.update(s.i as int, vx / 100).update(
                        s.i + 1,
                        (vx / 10) % 10,
                    ).update(s.i + 2, vx % 10),
                    ..s
                },
            )
        },
        Opcode::RegDump { x } => if s.i + x >= 4096 {
            Err(Fault::MemoryFault)
        } else {
            Ok(
                VmState {
                    memory: dumped(s.memory, s.v, s.i as int, x as int),
                    i: (s.i + x + 1) as u16,
                    ..s
                },
            )
        },
        Opcode::RegLoad { x } => if s.i + x >= 4096 {
            Err(Fault::MemoryFault)
        } else {
            Ok(
                VmState {
                    v: loaded(s.memory, s.v, s.i as int, x as int),
                    i: (s.i + x + 1) as u16,
                    ..s
                },
            )
        },
    }
}

/// Result `res` and state `after` are what a transition with outcome
/// `outcome` leaves of state `before`: the next state, or the fault with the
/// state untouched.
pub open spec fn outcome_is(
    outcome: Result<VmState, Fault>,
    before: VmState,
    res: Result<(), Fault>,
    after: VmState,
) -> bool {
    match outcome {
        Ok(next) => res is Ok && after == next,
        Err(fault) => res == Err::<(), Fault>(fault) && after == before,
    }
}

/// What one fetch-decode-execute cycle makes of `s`.
pub open spec fn stepped(s: VmState) -> Result<VmState, Fault> {
    match fetched(s) {
        Ok(op) => executed(VmState { pc: next_pc(s.pc), ..s }, op),
        Err(fault) => Err(fault),
    }
}

/// The instruction at the program counter, if there is one, can be carried
/// out.
pub open spec fn can_execute(s: VmState) -> bool {
    fetched(s) matches Ok(op) ==> accepts(s, op)
}

/// What one frame of a pending key wait makes of `s`. The lowest key that
/// was seen down since the wait began and is up now ends the wait and goes to
/// the target register; if there is none, the keys that are down now are
/// added to those seen. Without a pending wait nothing changes.
pub open spec fn waited(s: VmState) -> VmState {
    match s.wait {
        None => s,
        Some((reg, held)) => match first_released(held, s.keys) {
            Some(key) => VmState { v: s.v.update(reg as int, key as u8), wait: None, ..s },
            None => VmState { wait: Some((reg, merged(held, s.keys))), ..s },
        },
    }
}

/// The instruction part of a frame: with a wait pending at its start the
/// frame only attends to the wait, else it runs one instruction.
pub open spec fn cycled(s: VmState) -> Result<VmState, Fault> {
    if s.wait is Some {
        Ok(waited(s))
    } else {
        stepped(s)
    }
}

/// A frame may start in `s`: with no wait pending, the instruction at the
/// program counter can be carried out.
pub open spec fn can_run_frame(s: VmState) -> bool {
    s.wait is None ==> can_execute(s)
}

/// The command for the tone generator in a frame whose tick finds the timers
/// at `t`: stop when this tick takes the sound counter to zero, play while
/// the counter is above zero after the tick, and nothing while it rests at
/// zero.
pub open spec fn sound_command(t: Timer) -> Option<AudioCommand> {
    if tick_report(t) == TimerTick::SoundTimerZero {
        Some(AudioCommand::TryPause)
    } else if ticked(t).sound > 0 {
        Some(AudioCommand::Resume)
    } else {
        None
    }
}

/// The state at the end of a frame whose instruction part left `s`: the
/// screen counts as rendered and the timers have ticked once.
pub open spec fn frame_closed(s: VmState) -> VmState {
    VmState { dirty: false, timer: ticked(s.timer), ..s }
}

/// What a whole frame with the keys `keys` down makes of `s`.
pub open spec fn framed(s: VmState, keys: Seq<bool>) -> Result<VmState, Fault> {
    match cycled(VmState { keys, ..s }) {
        Ok(next) => Ok(frame_closed(next)),
        Err(fault) => Err(fault),
    }
}

/// Whatever the image, loading leaves the memory below 0x200 to the
/// interpreter: the font in the first 80 bytes, zero in the rest.
pub proof fn lemma_boot_keeps_low_memory(image: Seq<u8>, a: int)
    requires
        0 <= a < 0x200,
    ensures
        booted(image).memory[a] == if a < 80 {
            FONT[a]
        } else {
            0u8
        },
{
}

/// The machine starts in a well-formed state.
pub proof fn lemma_booted_wf(image: Seq<u8>)
    ensures
        booted(image).wf(),
{
}

/// An instruction with its fields in range leads from a well-formed state to
/// a well-formed state.
pub proof fn lemma_executed_wf(s: VmState, op: Opcode)
    requires
        s.wf(),
        op.wf(),
    ensures
        executed(s, op) matches Ok(next) ==> next.wf(),
{
}

/// A frame leads from a well-formed state to a well-formed state.
pub proof fn lemma_framed_wf(s: VmState, keys: Seq<bool>)
    requires
        s.wf(),
        keys.len() == 16,
    ensures
        framed(s, keys) matches Ok(end) ==> end.wf(),
{
    let start = VmState { keys, ..s };
    if start.wait is None {
        match fetched(start) {
            Ok(op) => {
                lemma_decoded_wf(word_at(start.memory, start.pc as int));
                lemma_executed_wf(VmState { pc: next_pc(start.pc), ..start }, op);
            },
            Err(_) => {},
        }
    }
}

/// The clear-screen instruction, from any state, leaves a screen that is to
/// be rendered and on which rendering finds no pixel on.
pub proof fn lemma_clear_then_render(s: VmState)
    ensures
        ({
            let cleared = executed(s, Opcode::ClearScreen);
            &&& cleared is Ok
            &&& cleared.unwrap().dirty
            &&& cleared.unwrap().screen == blank()
            &&& lit_points(cleared.unwrap().screen) == Seq::<(usize, usize)>::empty()
        }),
{
    lemma_blank_is_dark();
}

/// Drawing the same sprite twice, with the same registers and index, leaves
/// the screen as it was; the second drawing sets `VF` to 1 exactly when the
/// first one turned a pixel on.
pub proof fn lemma_draw_twice_restores(s: VmState, x: usize, y: usize, height: u8)
    requires
        s.wf(),
        x < 15,
        y < 15,
        height < 16,
        s.i + height <= 4096,
    ensures
        ({
            let once = executed(s, Opcode::Draw { x, y, height });
            let twice = executed(once.unwrap(), Opcode::Draw { x, y, height });
            let sprite = sprite_rows(s.memory, s.i as int, height as int);
            &&& once is Ok
            &&& twice is Ok
            &&& twice.unwrap().screen == s.screen
            &&& twice.unwrap().v[0xF] == 1 <==> exists|px: int, py: int|
                0 <= px < 64 && 0 <= py < 32 && !s.screen[py][px] && #[trigger] sprite_at(
                    sprite,
                    s.v[x as int] as int % 64,
                    s.v[y as int] as int % 32,
                    px,
                    py,
                )
        }),
{
    let op = Opcode::Draw { x, y, height };
    let sprite = sprite_rows(s.memory, s.i as int, height as int);
    lemma_draw_twice(s.screen, sprite, s.v[x as int] as int, s.v[y as int] as int);
    let once = executed(s, op).unwrap();
    assert(once.v[x as int] == s.v[x as int]);
    assert(once.v[y as int] == s.v[y as int]);
}

/// Dumping `V0..=Vx` and loading them back from the same address restores
/// them, whatever the registers held in between, and leaves the registers
/// above `Vx` alone; each of the two moves `I` on by `x + 1`.
pub proof fn lemma_dump_load_round_trip(s: VmState, x: usize, between: Seq<u8>)
    requires
        s.wf(),
        x < 16,
        s.i + x < 4096,
        between.len() == 16,
    ensures
        ({
            let stored = executed(s, Opcode::RegDump { x });
            let back = executed(
                VmState { i: s.i, v: between, ..stored.unwrap() },
                Opcode::RegLoad { x },
            );
            &&& stored is Ok
            &&& stored.unwrap().i == s.i + x + 1
            &&& back is Ok
            &&& back.unwrap().i == s.i + x + 1
            &&& back.unwrap().memory == stored.unwrap().memory
            &&& forall|k: int|
                0 <= k < 16 ==> #[trigger] back.unwrap().v[k] == if k <= x {
                    s.v[k]
                } else {
                    between[k]
                }
        }),
{
}

/// A pending wait ends in a frame exactly when a key that was seen down
/// since the wait began is up in that frame; the target register then holds
/// such a key, the lowest one.
pub proof fn lemma_wait_ends_on_release(s: VmState)
    requires
        s.wf(),
        s.wait is Some,
    ensures
        ({
            let (reg, held) = s.wait.unwrap();
            let after = waited(s);
            &&& after.wait is None <==> exists|k: int| released(held, s.keys, k)
            &&& after.wait is None ==> released(held, s.keys, after.v[reg as int] as int)
                && forall|j: int| 0 <= j < after.v[reg as int] ==> !released(held, s.keys, j)
            &&& after.wait matches Some((r, seen)) ==> r == reg && seen == merged(held, s.keys)
                && after.v == s.v
        }),
{
    let (reg, held) = s.wait.unwrap();
    lemma_first_released(held, s.keys);
}

/// A frame that starts with a wait pending runs no instruction: it cannot
/// fault, and it leaves memory, program counter, index register, stack and
/// screen as they are, while the timers tick all the same.
pub proof fn lemma_waiting_frame_runs_nothing(s: VmState, keys: Seq<bool>)
    requires
        s.wait is Some,
    ensures
        ({
            let end = framed(s, keys);
            &&& end is Ok
            &&& end.unwrap().memory == s.memory
            &&& end.unwrap().pc == s.pc
            &&& end.unwrap().i == s.i
            &&& end.unwrap().stack == s.stack
            &&& end.unwrap().screen == s.screen
            &&& end.unwrap().timer == ticked(s.timer)
        }),
{
}

/// The tone is asked to stop exactly in the frame whose tick takes the sound
/// counter to zero, asked to play exactly in the frames whose tick leaves the
/// counter above zero, and left alone while the counter rests at zero.
pub proof fn lemma_sound_command(t: Timer)
    ensures
        sound_command(t) == Some(AudioCommand::TryPause) <==> tick_report(t)
            == TimerTick::SoundTimerZero,
        sound_command(t) == Some(AudioCommand::Resume) <==> ticked(t).sound > 0,
        sound_command(t) is None <==> t.sound == 0,
{
}

} // verus!
