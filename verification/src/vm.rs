//! The interpreter: memory, registers, stack, screen, timers and keys, and
//! the execution of instructions on them.

use vstd::prelude::*;
use crate::audio::AudioCommand;
use crate::graphic::{lemma_screen_shape, lit_points, rows_of, Graphic};
use crate::keymap::{lemma_keymap_len, Keymap};
use crate::opcode::Opcode;
use crate::state::{
    accepts, bit_of, bits_of, booted, can_execute, can_run_frame, cycled, dumped, executed,
    fetched, frame_closed, loaded, next_pc, outcome_is, skipped, sound_command, sprite_rows,
    stepped, waited, with_flag, with_reg, Fault, VmState, FONT, MEMORY_SIZE, PROGRAM_CAPACITY,
    PROGRAM_START,
};
use crate::timer::{tick_report, Timer, TimerTick};

verus! {

/// Whether the machine waits for a key.
#[derive(Clone, Copy, Debug)]
pub enum WaitingKeyStatus {
    /// No wait is pending.
    NoAction,
    /// A wait is pending: the key goes to register `reg_index`; `keymap`
    /// holds the keys seen down since the wait began.
    Waiting { reg_index: usize, keymap: Keymap },
}

/// What a frame leaves for the outside to do.
#[derive(Debug)]
pub struct FrameOutput {
    /// The coordinates `(x, y)` of the pixels that are on, if the screen
    /// changed and has to be rendered.
    pub points: Option<Vec<(usize, usize)>>,
    /// What the tick of the timers reported.
    pub tick: TimerTick,
    /// What the tone generator is to do, if anything.
    pub audio: Option<AudioCommand>,
}

/// The CHIP-8 machine.
pub struct VM {
    memory: [u8; 4096],
    v: [u8; 16],
    pc: u16,
    i: u16,
    gfx: Graphic,
    stack: Vec<u16>,
    timer: Timer,
    keymap: Keymap,
    waiting_key_status: WaitingKeyStatus,
}

impl View for VM {
    type V = VmState;

    closed spec fn view(&self) -> VmState {
        VmState {
            memory: self.memory@,
            v: self.v@,
            pc: self.pc,
            i: self.i,
            stack: self.stack@,
            screen: self.gfx@,
            dirty: self.gfx.dirty(),
            timer: self.timer,
            keys: self.keymap@,
            wait: match self.waiting_key_status {
                WaitingKeyStatus::NoAction => None,
                WaitingKeyStatus::Waiting { reg_index, keymap } => Some((reg_index, keymap@)),
            },
        }
    }
}

impl VM {
    /// A machine with `image` loaded at 0x200 and the font at 0.
    pub fn load(image: &[u8]) -> (vm: VM)
        requires
            image@.len() <= PROGRAM_CAPACITY,
        ensures
            vm@ == booted(image@),
            vm@.wf(),
    {
        let mut memory: [u8; 4096] = [0u8; 4096];
        let mut a: usize = 0;
        while a < 80
            invariant
                a <= 80,
                forall|k: int| 0 <= k < a ==> memory@[k] == FONT[k],
                forall|k: int| a <= k < 4096 ==> memory@[k] == 0,
            decreases 80 - a,
        {
            memory[a] = FONT[a];
            a += 1;
        }
        let mut k: usize = 0;
        while k < image.len()
            invariant
                k <= image@.len() <= 0xE00,
                forall|j: int| 0 <= j < 80 ==> memory@[j] == FONT[j],
                forall|j: int| 80 <= j < 0x200 ==> memory@[j] == 0,
                forall|j: int| 0x200 <= j < 0x200 + k ==> memory@[j] == image@[j - 0x200],
                forall|j: int| 0x200 + k <= j < 4096 ==> memory@[j] == 0,
            decreases image@.len() - k,
        {
            memory[PROGRAM_START + k] = image[k];
            k += 1;
        }
        let vm = VM {
            memory,
            v: [0u8; 16],
            pc: 0x200,
            i: 0,
            gfx: Graphic::default(),
            stack: Vec::with_capacity(16),
            timer: Timer::default(),
            keymap: Keymap::default(),
            waiting_key_status: WaitingKeyStatus::NoAction,
        };
        proof {
            assert(vm@.memory =~= booted(image@).memory);
            assert(vm@.v =~= booted(image@).v);
            assert(vm@.stack =~= booted(image@).stack);
        }
        vm
    }

    /// The word at the program counter, decoded; the machine is left as it
    /// is.
    pub fn peek_opcode(&self) -> (res: Result<Opcode, Fault>)
        ensures
            res == fetched(self@),
            res matches Ok(op) ==> op.wf(),
    {
        let pc: usize = self.pc as usize;
        if pc + 1 >= MEMORY_SIZE {
            return Err(Fault::MemoryFault);
        }
        let first: u16 = self.memory[pc] as u16;
        let second: u16 = self.memory[pc + 1] as u16;
        let raw: u16 = (first << 8) | second;
        assert((first << 8) | second == first * 256 + second) by (bit_vector)
            requires
                first < 256,
                second < 256,
        ;
        match Opcode::try_from(raw) {
            Ok(op) => Ok(op),
            Err(e) => Err(Fault::Decode(e)),
        }
    }

    /// Fetches and decodes the instruction at the program counter and moves
    /// the program counter past it. On an error nothing changes.
    pub fn fetch_opcode(&mut self) -> (res: Result<Opcode, Fault>)
        ensures
            res == fetched(old(self)@),
            res matches Ok(op) ==> op.wf(),
            final(self)@ == if res is Ok {
                VmState { pc: next_pc(old(self)@.pc), ..old(self)@ }
            } else {
                old(self)@
            },
    {
        let res = self.peek_opcode();
        if res.is_ok() {
            self.pc = self.pc + 2;
        }
        res
    }

    /// Moves the program counter past one more instruction if `cond` holds.
    fn skip_if(&mut self, cond: bool)
        ensures
            final(self)@ == skipped(old(self)@, cond),
    {
        if cond {
            self.pc = ((self.pc as u32 + 2) % 0x10000) as u16;
        }
    }

    /// Sets register `x` to `value`.
    fn set_reg(&mut self, x: usize, value: u8)
        requires
            x < 16,
        ensures
            final(self)@ == with_reg(old(self)@, x, value as int),
    {
        self.v[x] = value;
    }

    /// Sets register `x` to `value` and then `VF` to `flag`.
    fn set_with_flag(&mut self, x: usize, value: u8, flag: u8)
        requires
            x < 16,
        ensures
            final(self)@ == with_flag(old(self)@, x, value as int, flag as int),
    {
        self.v[x] = value;
        self.v[0xF] = flag;
    }

    /// The eight bits of a sprite row as a row of a bitmap.
    fn sprite_row(byte: u8) -> (row: [u8; 8])
        ensures
            row@ == bits_of(byte),
    {
        let mut row: [u8; 8] = [0u8; 8];
        let mut c: u8 = 0;
        while c < 8
            invariant
                c <= 8,
                forall|k: int| 0 <= k < c ==> row@[k] == bit_of(byte, k),
            decreases 8 - c,
        {
            row[c as usize] = if byte & (0x80u8 >> c) != 0 {
                1
            } else {
                0
            };
            c += 1;
        }
        assert(row@ =~= bits_of(byte));
        row
    }

    /// The sprite of `height` rows at address `I`.
    fn sprite(&self, height: u8) -> (rows: Vec<[u8; 8]>)
        requires
            self@.i + height <= 4096,
        ensures
            rows_of(rows@) == sprite_rows(self@.memory, self@.i as int, height as int),
    {
        let start: usize = self.i as usize;
        let mut rows: Vec<[u8; 8]> = Vec::new();
        let mut r: usize = 0;
        while r < height as usize
            invariant
                r <= height,
                start == self@.i,
                start + height <= 4096,
                rows@.len() == r,
                forall|j: int|
                    0 <= j < r ==> (#[trigger] rows@[j])@ == bits_of(self@.memory[start + j]),
            decreases height - r,
        {
            rows.push(Self::sprite_row(self.memory[start + r]));
            r += 1;
        }
        assert(rows_of(rows@) =~= sprite_rows(self@.memory, self@.i as int, height as int));
        rows
    }

    /// Stores `V0..=Vx` from address `I` on.
    fn dump_registers(&mut self, x: usize)
        requires
            x < 16,
            old(self)@.i + x < 4096,
        ensures
            final(self)@ == (VmState {
                memory: dumped(old(self)@.memory, old(self)@.v, old(self)@.i as int, x as int),
                ..old(self)@
            }),
    {
        let start: usize = self.i as usize;
        let mut offset: usize = 0;
        while offset <= x
            invariant
                x < 16,
                offset <= x + 1,
                start == old(self)@.i,
                start + x < 4096,
                self@ == (VmState { memory: self@.memory, ..old(self)@ }),
                forall|a: int|
                    0 <= a < 4096 ==> self@.memory[a] == if start <= a < start + offset {
                        old(self)@.v[a - start]
                    } else {
                        old(self)@.memory[a]
                    },
            decreases x + 1 - offset,
        {
            self.memory[start + offset] = self.v[offset];
            offset += 1;
        }
        assert(self@.memory =~= dumped(old(self)@.memory, old(self)@.v, start as int, x as int));
    }

    /// Loads `V0..=Vx` from address `I` on.
    fn load_registers(&mut self, x: usize)
        requires
            x < 16,
            old(self)@.i + x < 4096,
        ensures
            final(self)@ == (VmState {
                v: loaded(old(self)@.memory, old(self)@.v, old(self)@.i as int, x as int),
                ..old(self)@
            }),
    {
        let start: usize = self.i as usize;
        let mut offset: usize = 0;
        while offset <= x
            invariant
                x < 16,
                offset <= x + 1,
                start == old(self)@.i,
                start + x < 4096,
                self@ == (VmState { v: self@.v, ..old(self)@ }),
                forall|k: int|
                    0 <= k < 16 ==> self@.v[k] == if k < offset {
                        old(self)@.memory[start + k]
                    } else {
                        old(self)@.v[k]
                    },
            decreases x + 1 - offset,
        {
            self.v[offset] = self.memory[start + offset];
            offset += 1;
        }
        assert(self@.v =~= loaded(old(self)@.memory, old(self)@.v, start as int, x as int));
    }

    /// Whether `op` can be carried out now: a key number or font digit that
    /// it takes from a register is below 16.
    pub fn accepts(&self, op: Opcode) -> (ok: bool)
        requires
            op.wf(),
        ensures
            ok == accepts(self@, op),
    {
        match op {
            Opcode::RegAssignFont { x }
            | Opcode::SkipIfPress { x }
            | Opcode::SkipIfNotPress { x } => self.v[x] < 16,
            _ => true,
        }
    }

    /// Carries out one decoded instruction; the program counter already
    /// points past it. On a fault nothing changes.
    pub fn execute_opcode(&mut self, op: Opcode) -> (res: Result<(), Fault>)
        requires
            old(self)@.wf(),
            op.wf(),
            accepts(old(self)@, op),
        ensures
            outcome_is(executed(old(self)@, op), old(self)@, res, final(self)@),
            final(self)@.wf(),
    {
        match op {
            Opcode::Return => {
                match self.stack.pop() {
                    Some(addr) => {
                        self.pc = addr;
                    },
                    None => {
                        return Err(Fault::StackUnderflow);
                    },
                }
            },
            Opcode::Jump { addr } => {
                self.pc = addr;
            },
            Opcode::CallSub { addr } => {
                self.stack.push(self.pc);
                self.pc = addr;
            },
            Opcode::SkipIfEqualConst { x, nn } => {
                self.skip_if(self.v[x] == nn);
            },
            Opcode::SkipIfNotEqualConst { x, nn } => {
                self.skip_if(self.v[x] != nn);
            },
            Opcode::SkipIfEqual { x, y } => {
                self.skip_if(self.v[x] == self.v[y]);
            },
            Opcode::SkipIfNotEqual { x, y } => {
                self.skip_if(self.v[x] != self.v[y]);
            },
            Opcode::SetConst { x, nn } => {
                self.set_reg(x, nn);
            },
            Opcode::AddConst { x, nn } => {
                let sum: u16 = self.v[x] as u16 + nn as u16;
                self.set_reg(x, (sum % 256) as u8);
            },
            Opcode::Assign { x, y } => {
                self.set_reg(x, self.v[y]);
            },
            Opcode::AssignOr { x, y } => {
                self.set_reg(x, self.v[x] | self.v[y]);
            },
            Opcode::AssignAnd { x, y } => {
                self.set_reg(x, self.v[x] & self.v[y]);
            },
            Opcode::AssignXor { x, y } => {
                self.set_reg(x, self.v[x] ^ self.v[y]);
            },
            Opcode::AssignAdd { x, y } => {
                let sum: u16 = self.v[x] as u16 + self.v[y] as u16;
                self.set_with_flag(x, (sum % 256) as u8, if sum > 0xFF { 1 } else { 0 });
            },
            Opcode::AssignSub { x, y } => {
                let vx: u8 = self.v[x];
                let vy: u8 = self.v[y];
                if vx >= vy {
                    self.set_with_flag(x, vx - vy, 1);
                } else {
                    self.set_with_flag(x, 0xFF - (vy - vx - 1), 0);
                }
            },
            Opcode::AssignRevSub { x, y } => {
                let vx: u8 = self.v[x];
                let vy: u8 = self.v[y];
                if vy >= vx {
                    self.set_with_flag(x, vy - vx, 1);
                } else {
                    self.set_with_flag(x, 0xFF - (vx - vy - 1), 0);
                }
            },
            Opcode::AssignShift { x } => {
                let vx: u8 = self.v[x];
                assert(vx & 1 == vx % 2 && vx >> 1 == vx / 2) by (bit_vector);
                self.set_with_flag(x, vx >> 1, vx & 1);
            },
            Opcode::AssignRevShift { x } => {
                let vx: u8 = self.v[x];
                assert((vx & 0x80) >> 7 == vx / 128 && (vx << 1) == (vx * 2) % 256) by (bit_vector);
                self.set_with_flag(x, vx << 1, (vx & 0x80) >> 7);
            },
            Opcode::RegAssign { addr } => {
                self.i = addr;
            },
            Opcode::RegAssignAdd { x } => {
                self.i = ((self.i as u32 + self.v[x] as u32) % 0x10000) as u16;
            },
            Opcode::RegAssignFont { x } => {
                let vx: u8 = self.v[x];
                self.i = (vx * 5) as u16;
            },
            Opcode::BinaryCodedDecimal { x } => {
                let vx: u8 = self.v[x];
                let at: usize = self.i as usize;
                if at + 2 >= MEMORY_SIZE {
                    return Err(Fault::MemoryFault);
                }
                self.memory[at] = vx / 100;
                self.memory[at + 1] = (vx / 10) % 10;
                self.memory[at + 2] = vx % 10;
            },
            Opcode::RegDump { x } => {
                if self.i as usize + x >= MEMORY_SIZE {
                    return Err(Fault::MemoryFault);
                }
                self.dump_registers(x);
                self.i = self.i + x as u16 + 1;
            },
            Opcode::RegLoad { x } => {
                if self.i as usize + x >= MEMORY_SIZE {
                    return Err(Fault::MemoryFault);
                }
                self.load_registers(x);
                self.i = self.i + x as u16 + 1;
            },
            Opcode::ClearScreen => {
                self.gfx.clear();
            },
            Opcode::Draw { x, y, height } => {
                let vx: usize = self.v[x] as usize;
                let vy: usize = self.v[y] as usize;
                if height > 0 && self.i as usize + height as usize > MEMORY_SIZE {
                    return Err(Fault::MemoryFault);
                }
                let rows = if height > 0 {
                    self.sprite(height)
                } else {
                    Vec::new()
                };
                assert(rows_of(rows@) =~= sprite_rows(self@.memory, self@.i as int, height as int));
                let turn_off = self.gfx.draw(vx, vy, rows.as_slice());
                self.v[0xF] = if turn_off {
                    1
                } else {
                    0
                };
            },
            Opcode::SkipIfPress { x } => {
                let vx: u8 = self.v[x];
                self.skip_if(self.keymap.is_down(vx as usize));
            },
            Opcode::SkipIfNotPress { x } => {
                let vx: u8 = self.v[x];
                self.skip_if(!self.keymap.is_down(vx as usize));
            },
            Opcode::AssignKey { x } => {
                self.waiting_key_status = WaitingKeyStatus::Waiting {
                    reg_index: x,
                    keymap: self.keymap,
                };
            },
            Opcode::AssignDelayTimer { x } => {
                self.set_reg(x, self.timer.delay);
            },
            Opcode::DelayTimerAssign { x } => {
                self.timer.delay = self.v[x];
            },
            Opcode::SoundTimerAssign { x } => {
                self.timer.sound = self.v[x];
            },
        }
        proof {
            lemma_screen_shape(self.gfx);
            lemma_keymap_len(self.keymap);
            assert(self@ =~= executed(old(self)@, op).unwrap());
        }
        Ok(())
    }

    /// Whether the instruction at the program counter, if there is one, can
    /// be carried out.
    pub fn can_execute(&self) -> (ok: bool)
        ensures
            ok == can_execute(self@),
    {
        match self.peek_opcode() {
            Ok(op) => self.accepts(op),
            Err(_) => true,
        }
    }

    /// One fetch-decode-execute cycle. On a fault nothing changes.
    pub fn execute(&mut self) -> (res: Result<(), Fault>)
        requires
            old(self)@.wf(),
            can_execute(old(self)@),
        ensures
            outcome_is(stepped(old(self)@), old(self)@, res, final(self)@),
            final(self)@.wf(),
    {
        let saved: u16 = self.pc;
        let op = match self.fetch_opcode() {
            Ok(op) => op,
            Err(fault) => {
                return Err(fault);
            },
        };
        let res = self.execute_opcode(op);
        if res.is_err() {
            self.pc = saved;
        }
        res
    }

    /// Attends to a pending key wait for one frame; returns whether no wait
    /// is pending afterwards.
    pub fn wait_key(&mut self) -> (idle: bool)
        requires
            old(self)@.wf(),
        ensures
            final(self)@ == waited(old(self)@),
            idle == (final(self)@.wait is None),
            final(self)@.wf(),
    {
        match self.waiting_key_status {
            WaitingKeyStatus::NoAction => true,
            WaitingKeyStatus::Waiting { reg_index, keymap } => {
                match keymap.down_to_up(&self.keymap) {
                    Some(key_id) => {
                        self.v[reg_index] = key_id as u8;
                        self.waiting_key_status = WaitingKeyStatus::NoAction;
                        true
                    },
                    None => {
                        self.waiting_key_status = WaitingKeyStatus::Waiting {
                            reg_index,
                            keymap: keymap.or(&self.keymap),
                        };
                        proof {
                            lemma_screen_shape(self.gfx);
                        }
                        false
                    },
                }
            },
        }
    }

    /// Whether a frame may start: a wait is pending, or the instruction at
    /// the program counter, if there is one, can be carried out.
    pub fn can_run_frame(&self) -> (ok: bool)
        ensures
            ok == can_run_frame(self@),
    {
        match self.waiting_key_status {
            WaitingKeyStatus::NoAction => self.can_execute(),
            WaitingKeyStatus::Waiting { .. } => true,
        }
    }

    /// One frame with the keys `keys` down: attends to the pending key wait
    /// or, without one, runs one instruction; hands out the screen if it
    /// changed; ticks the timers; and says what the tone generator is to do:
    /// play while the sound counter is above zero, stop in the frame in which
    /// it reaches zero, nothing after that. On a fault only the keys have
    /// changed.
    pub fn frame(&mut self, keys: Keymap) -> (res: Result<FrameOutput, Fault>)
        requires
            old(self)@.wf(),
            can_run_frame(old(self)@),
        ensures
            final(self)@.wf(),
            match cycled(VmState { keys: keys@, ..old(self)@ }) {
                Ok(next) => {
                    &&& final(self)@ == frame_closed(next)
                    &&& res matches Ok(out)
                    &&& out.points is Some <==> next.dirty
                    &&& out.points matches Some(p) ==> p@ == lit_points(next.screen)
                    &&& out.tick == tick_report(next.timer)
                    &&& out.audio == sound_command(next.timer)
                },
                Err(fault) => {
                    &&& final(self)@ == (VmState { keys: keys@, ..old(self)@ })
                    &&& res matches Err(f)
                    &&& f == fault
                },
            },
    {
        self.keymap = keys;
        proof {
            lemma_keymap_len(keys);
        }
        let pending = match self.waiting_key_status {
            WaitingKeyStatus::NoAction => false,
            WaitingKeyStatus::Waiting { .. } => true,
        };
        if pending {
            self.wait_key();
        } else {
            match self.execute() {
                Ok(()) => {},
                Err(fault) => {
                    return Err(fault);
                },
            }
        }
        let points = self.gfx.render();
        let tick = self.timer.tick();
        let audio = match tick {
            TimerTick::SoundTimerZero => Some(AudioCommand::TryPause),
            TimerTick::Normal => if self.timer.sound > 0 {
                Some(AudioCommand::Resume)
            } else {
                None
            },
        };
        proof {
            lemma_screen_shape(self.gfx);
        }
        Ok(FrameOutput { points, tick, audio })
    }

    /// Register `Vx`.
    pub fn register(&self, x: usize) -> (value: u8)
        requires
            x < 16,
        ensures
            value == self@.v[x as int],
    {
        self.v[x]
    }

    /// The byte of memory at `addr`.
    pub fn memory(&self, addr: usize) -> (value: u8)
        requires
            addr < 4096,
        ensures
            value == self@.memory[addr as int],
    {
        self.memory[addr]
    }

    /// The program counter.
    pub fn program_counter(&self) -> (pc: u16)
        ensures
            pc == self@.pc,
    {
        self.pc
    }

    /// The index register `I`.
    pub fn index(&self) -> (i: u16)
        ensures
            i == self@.i,
    {
        self.i
    }

    /// How many return addresses the call stack holds.
    pub fn stack_depth(&self) -> (depth: usize)
        ensures
            depth == self@.stack.len(),
    {
        self.stack.len()
    }

    /// The delay and sound counters.
    pub fn timer(&self) -> (timer: Timer)
        ensures
            timer == self@.timer,
    {
        self.timer
    }

    /// Whether the pixel of column `x` in row `y` is on.
    pub fn pixel(&self, x: usize, y: usize) -> (on: bool)
        requires
            x < 64,
            y < 32,
        ensures
            on == self@.screen[y as int][x as int],
    {
        self.gfx.pixel(x, y)
    }

    /// Whether a key wait is pending.
    pub fn is_waiting(&self) -> (waiting: bool)
        ensures
            waiting == (self@.wait is Some),
    {
        match self.waiting_key_status {
            WaitingKeyStatus::NoAction => false,
            WaitingKeyStatus::Waiting { .. } => true,
        }
    }
}

/// The machine under the name of the whole emulator.
pub type Chip8 = VM;

} // verus!
