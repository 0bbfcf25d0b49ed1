//! The interpreter: machine state and the fetch-decode-execute cycle.
use vstd::prelude::*;
use crate::model::{
    SCREEN_WIDTH, SCREEN_HEIGHT, MEMORY_SIZE, PROGRAM_START, STACK_CAPACITY, FONT_LEN, FLAG, Status,
    Machine, font, initial_machine, with_font, load_program, set_key, tick_timers, op_x, op_y, op_n,
    op_kk, op_nnn, fetch_word, advance, with_reg, skip_if, clear_screen, ret, jump, call, add_imm,
    add_regs, sub_regs, subn_regs, shift_right, shift_left, set_index, jump_offset, col_offset,
    row_offset, sprite_covers, draw, lemma_sprite_pixel, highest_pressed, wait_key, add_index,
    font_char, store_bcd, store_regs, load_regs, is_random_op, execute_spec, execute_status,
    lemma_wrap_offset, step_spec, step_status,
};

verus! {

const FONTSET: [u8; 80] = [
    0xF0, 0x90, 0x90, 0x90, 0xF0, // 0
    0x20, 0x60, 0x20, 0x20, 0x70, // 1
    0xF0, 0x10, 0xF0, 0x80, 0xF0, // 2
    0xF0, 0x10, 0xF0, 0x10, 0xF0, // 3
    0x90, 0x90, 0xF0, 0x10, 0x10, // 4
    0xF0, 0x80, 0xF0, 0x10, 0xF0, // 5
    0xF0, 0x80, 0xF0, 0x90, 0xF0, // 6
    0xF0, 0x10, 0x20, 0x40, 0x40, // 7
    0xF0, 0x90, 0xF0, 0x90, 0xF0, // 8
    0xF0, 0x90, 0xF0, 0x10, 0xF0, // 9
    0xF0, 0x90, 0xF0, 0x90, 0x90, // A
    0xE0, 0x90, 0xE0, 0x90, 0xE0, // B
    0xF0, 0x80, 0x80, 0x80, 0xF0, // C
    0xE0, 0x90, 0x90, 0x90, 0xE0, // D
    0xF0, 0x80, 0xF0, 0x80, 0xF0, // E
    0xF0, 0x80, 0xF0, 0x80, 0x80, // F
];

/// The interpreter's whole state.
///
/// Addresses are taken modulo the memory size everywhere: the program
/// counter, the index register and every address computed from them wrap
/// around the 4096-byte space instead of leaving it.
pub struct Cpu {
    pc: u16,
    /// Number of live entries in `stack`.
    sp: u8,
    stack: [u16; 16],
    pub screen: [bool; 2048],
    /// The screen as it was before the latest instruction that changed it.
    pub prev_screen: [bool; 2048],
    keys: [bool; 16],
    v: [u8; 16],
    i: u16,
    pub st: u8,
    pub dt: u8,
    memory: [u8; 4096],
}

impl View for Cpu {
    type V = Machine;

    closed spec fn view(&self) -> Machine {
        Machine {
            pc: self.pc as int,
            stack: self.stack@.subrange(0, self.sp as int),
            v: self.v@,
            i: self.i as int,
            memory: self.memory@,
            screen: self.screen@,
            prev_screen: self.prev_screen@,
            keys: self.keys@,
            dt: self.dt,
            st: self.st,
        }
    }
}

fn reg_x(op: u16) -> (r: usize)
    ensures
        r == op_x(op),
        r < 16,
{
    ((op / 256) % 16) as usize
}

fn reg_y(op: u16) -> (r: usize)
    ensures
        r == op_y(op),
        r < 16,
{
    ((op / 16) % 16) as usize
}

fn imm_byte(op: u16) -> (r: u8)
    ensures
        r == op_kk(op),
{
    (op % 256) as u8
}

fn address(op: u16) -> (r: u16)
    ensures
        r == op_nnn(op),
        r < 4096,
{
    op % 4096
}

/// Whether the drawing loop, standing at row offset `yo` and column offset
/// `xo`, has already flipped pixel `p`.
spec fn drawn_before(m: Machine, vx: int, vy: int, n: int, p: int, yo: int, xo: int) -> bool {
    let dx = col_offset(p, vx);
    let dy = row_offset(p, vy);
    sprite_covers(m, vx, vy, n, p) && (dy < yo || (dy == yo && dx < xo))
}

/// Relies on rand::random: a byte from the thread-local generator. Any value
/// may come back, so nothing is promised of it.
#[verifier::external_body]
fn random_byte() -> (r: u8) {
    rand::random::<u8>()
}

impl Default for Cpu {
    fn default() -> (r: Cpu)
        ensures
            r.wf(),
            r@ == initial_machine(),
    {
        Cpu::new()
    }
}

impl Cpu {
    pub closed spec fn wf(&self) -> bool {
        &&& self.sp <= 16
        &&& self@.wf()
    }

    pub fn get_display(&self) -> (r: &[bool; 2048])
        ensures
            r@ == self@.screen,
    {
        &self.screen
    }

    pub fn get_last_buf(&self) -> (r: &[bool; 2048])
        ensures
            r@ == self@.prev_screen,
    {
        &self.prev_screen
    }

    /// Record whether key `key` is held down.
    pub fn keypress(&mut self, key: usize, pressed: bool)
        requires
            key < 16,
        ensures
            final(self)@ == set_key(old(self)@, key as int, pressed),
            final(self).wf() == old(self).wf(),
    {
        self.keys[key] = pressed;
    }

    /// A machine in its power-on state, with the font loaded.
    pub fn new() -> (r: Cpu)
        ensures
            r.wf(),
            r@ == initial_machine(),
    {
        let mut cpu = Cpu {
            pc: 0x200,
            sp: 0,
            stack: [0; 16],
            screen: [false; 2048],
            prev_screen: [false; 2048],
            keys: [false; 16],
            v: [0; 16],
            i: 0,
            st: 0,
            dt: 0,
            memory: [0; 4096],
        };
        cpu.load_font();
        assert(cpu@ =~= initial_machine());
        cpu
    }

    /// Copy the built-in glyphs to the bottom of memory.
    pub fn load_font(&mut self)
        ensures
            final(self)@ == with_font(old(self)@),
            final(self).wf() == old(self).wf(),
    {
        assert(FONTSET@ =~= font());
        let ghost m0 = self@;
        let mut k: usize = 0;
        while k < FONT_LEN
            invariant
                k <= 80,
                self.pc == old(self).pc,
                self.sp == old(self).sp,
                self.stack == old(self).stack,
                self.screen == old(self).screen,
                self.prev_screen == old(self).prev_screen,
                self.keys == old(self).keys,
                self.v == old(self).v,
                self.i == old(self).i,
                self.st == old(self).st,
                self.dt == old(self).dt,
                forall|a: int|
                    0 <= a < 4096 ==> self.memory@[a] == if a < k {
                        font()[a]
                    } else {
                        m0.memory[a]
                    },
            decreases 80 - k,
        {
            self.memory[k] = FONTSET[k];
            k += 1;
        }
        assert(self@ =~= with_font(old(self)@));
    }

    /// Put the machine back in its power-on state.
    pub fn reset(&mut self)
        ensures
            final(self).wf(),
            final(self)@ == initial_machine(),
    {
        *self = Cpu::new();
    }

    /// Copy a program image into memory from the start of the program area.
    pub fn load(&mut self, rom: &[u8])
        requires
            rom@.len() <= 4096 - 0x200,
        ensures
            final(self)@ == load_program(old(self)@, rom@),
            final(self).wf() == old(self).wf(),
    {
        let ghost m0 = self@;
        let mut k: usize = 0;
        while k < rom.len()
            invariant
                k <= rom@.len() <= 4096 - 0x200,
                self.pc == old(self).pc,
                self.sp == old(self).sp,
                self.stack == old(self).stack,
                self.screen == old(self).screen,
                self.prev_screen == old(self).prev_screen,
                self.keys == old(self).keys,
                self.v == old(self).v,
                self.i == old(self).i,
                self.st == old(self).st,
                self.dt == old(self).dt,
                forall|a: int|
                    0 <= a < 4096 ==> self.memory@[a] == if 0x200 <= a < 0x200 + k {
                        rom@[a - 0x200]
                    } else {
                        m0.memory[a]
                    },
            decreases rom@.len() - k,
        {
            self.memory[PROGRAM_START + k] = rom[k];
            k += 1;
        }
        assert(self@ =~= load_program(old(self)@, rom@));
    }

    /// Count both timers down by one, stopping at zero.
    pub fn timers(&mut self)
        ensures
            final(self)@ == tick_timers(old(self)@),
            final(self).wf() == old(self).wf(),
    {
        if self.dt > 0 {
            self.dt -= 1;
        }
        if self.st > 0 {
            self.st -= 1;
        }
    }

    /// The big-endian word at the program counter.
    fn peek_opcode(&self) -> (op: u16)
        requires
            self.wf(),
        ensures
            op == fetch_word(self@),
    {
        let pc = self.pc as usize;
        (self.memory[pc] as u16) * 256 + self.memory[(pc + 1) % MEMORY_SIZE] as u16
    }

    fn fetch_opcode(&mut self) -> (op: u16)
        requires
            old(self).wf(),
        ensures
            op == fetch_word(old(self)@),
            final(self)@ == advance(old(self)@),
            final(self).wf(),
    {
        let opcode = self.peek_opcode();
        self.pc = (self.pc + 2) % 4096;
        opcode
    }
    fn op_00e0(&mut self)
        requires
            old(self).wf(),
        ensures
            final(self).wf(),
            final(self)@ == clear_screen(old(self)@),
    {
        self.prev_screen = self.screen;
        self.screen = [false; 2048];
        assert(self@ =~= clear_screen(old(self)@));
    }

    fn op_00ee(&mut self) -> (r: Status)
        requires
            old(self).wf(),
        ensures
            final(self).wf(),
            final(self)@ == ret(old(self)@),
            r == (if old(self)@.stack.len() == 0 {
                Status::StackUnderflow
            } else {
                Status::Executed
            }),
    {
        if self.sp == 0 {
            return Status::StackUnderflow;
        }
        self.sp -= 1;
        self.pc = self.stack[self.sp as usize];
        assert(self@ =~= ret(old(self)@));
        Status::Executed
    }

    fn op_1nnn(&mut self, opcode: u16)
        requires
            old(self).wf(),
        ensures
            final(self).wf(),
            final(self)@ == jump(old(self)@, op_nnn(opcode)),
    {
        self.pc = address(opcode);
    }

    fn op_2nnn(&mut self, opcode: u16) -> (r: Status)
        requires
            old(self).wf(),
        ensures
            final(self).wf(),
            final(self)@ == call(old(self)@, op_nnn(opcode)),
            r == (if old(self)@.stack.len() >= 16 {
                Status::StackOverflow
            } else {
                Status::Executed
            }),
    {
        if self.sp as usize >= STACK_CAPACITY {
            return Status::StackOverflow;
        }
        self.stack[self.sp as usize] = self.pc;
        self.sp += 1;
        self.pc = address(opcode);
        assert(self@.stack =~= old(self)@.stack.push(old(self).pc));
        Status::Executed
    }

    fn op_3xkk(&mut self, opcode: u16)
        requires
            old(self).wf(),
        ensures
            final(self).wf(),
            final(self)@ == skip_if(old(self)@, old(self)@.v[op_x(opcode)] == op_kk(opcode)),
    {
        let x = reg_x(opcode);
        if self.v[x] == imm_byte(opcode) {
            self.pc = (self.pc + 2) % 4096;
        }
    }

    fn op_4xkk(&mut self, opcode: u16)
        requires
            old(self).wf(),
        ensures
            final(self).wf(),
            final(self)@ == skip_if(old(self)@, old(self)@.v[op_x(opcode)] != op_kk(opcode)),
    {
        let x = reg_x(opcode);
        if self.v[x] != imm_byte(opcode) {
            self.pc = (self.pc + 2) % 4096;
        }
    }

    fn op_5xy0(&mut self, opcode: u16)
        requires
            old(self).wf(),
        ensures
            final(self).wf(),
            final(self)@ == skip_if(
                old(self)@,
                old(self)@.v[op_x(opcode)] == old(self)@.v[op_y(opcode)],
            ),
    {
        let x = reg_x(opcode);
        let y = reg_y(opcode);
        if self.v[x] == self.v[y] {
            self.pc = (self.pc + 2) % 4096;
        }
    }

    fn op_6xkk(&mut self, opcode: u16)
        requires
            old(self).wf(),
        ensures
            final(self).wf(),
            final(self)@ == with_reg(old(self)@, op_x(opcode), op_kk(opcode)),
    {
        let x = reg_x(opcode);
        self.v[x] = imm_byte(opcode);
    }

    fn op_7xkk(&mut self, opcode: u16)
        requires
            old(self).wf(),
        ensures
            final(self).wf(),
            final(self)@ == add_imm(old(self)@, op_x(opcode), op_kk(opcode)),
    {
        let x = reg_x(opcode);
        self.v[x] = ((self.v[x] as u16 + imm_byte(opcode) as u16) % 256) as u8;
    }

    fn op_8xy0(&mut self, opcode: u16)
        requires
            old(self).wf(),
        ensures
            final(self).wf(),
            final(self)@ == with_reg(old(self)@, op_x(opcode), old(self)@.v[op_y(opcode)]),
    {
        let x = reg_x(opcode);
        let y = reg_y(opcode);
        self.v[x] = self.v[y];
    }

    fn op_8xy1(&mut self, opcode: u16)
        requires
            old(self).wf(),
        ensures
            final(self).wf(),
            final(self)@ == with_reg(
                old(self)@,
                op_x(opcode),
                old(self)@.v[op_x(opcode)] | old(self)@.v[op_y(opcode)],
            ),
    {
        let x = reg_x(opcode);
        let y = reg_y(opcode);
        self.v[x] = self.v[x] | self.v[y];
    }

    fn op_8xy2(&mut self, opcode: u16)
        requires
            old(self).wf(),
        ensures
            final(self).wf(),
            final(self)@ == with_reg(
                old(self)@,
                op_x(opcode),
                old(self)@.v[op_x(opcode)] & old(self)@.v[op_y(opcode)],
            ),
    {
        let x = reg_x(opcode);
        let y = reg_y(opcode);
        self.v[x] = self.v[x] & self.v[y];
    }

    fn op_8xy3(&mut self, opcode: u16)
        requires
            old(self).wf(),
        ensures
            final(self).wf(),
            final(self)@ == with_reg(
                old(self)@,
                op_x(opcode),
                old(self)@.v[op_x(opcode)] ^ old(self)@.v[op_y(opcode)],
            ),
    {
        let x = reg_x(opcode);
        let y = reg_y(opcode);
        self.v[x] = self.v[x] ^ self.v[y];
    }

    fn op_8xy4(&mut self, opcode: u16)
        requires
            old(self).wf(),
        ensures
            final(self).wf(),
            final(self)@ == add_regs(old(self)@, op_x(opcode), op_y(opcode)),
    {
        let x = reg_x(opcode);
        let y = reg_y(opcode);
        let sum = self.v[x] as u16 + self.v[y] as u16;
        self.v[x] = (sum % 256) as u8;
        self.v[FLAG] = if sum > 255 { 1 } else { 0 };
    }

    fn op_8xy5(&mut self, opcode: u16)
        requires
            old(self).wf(),
        ensures
            final(self).wf(),
            final(self)@ == sub_regs(old(self)@, op_x(opcode), op_y(opcode)),
    {
        let x = reg_x(opcode);
        let y = reg_y(opcode);
        let vx = self.v[x];
        let vy = self.v[y];
        let no_borrow = vx >= vy;
        self.v[x] = if no_borrow { vx - vy } else { (256 + vx as u16 - vy as u16) as u8 };
        self.v[FLAG] = if no_borrow { 1 } else { 0 };
    }

    fn op_8xy6(&mut self, opcode: u16)
        requires
            old(self).wf(),
        ensures
            final(self).wf(),
            final(self)@ == shift_right(old(self)@, op_x(opcode)),
    {
        let x = reg_x(opcode);
        let vx = self.v[x];
        self.v[x] = vx / 2;
        self.v[FLAG] = vx % 2;
    }

    fn op_8xy7(&mut self, opcode: u16)
        requires
            old(self).wf(),
        ensures
            final(self).wf(),
            final(self)@ == subn_regs(old(self)@, op_x(opcode), op_y(opcode)),
    {
        let x = reg_x(opcode);
        let y = reg_y(opcode);
        let vx = self.v[x];
        let vy = self.v[y];
        let no_borrow = vy >= vx;
        self.v[x] = if no_borrow { vy - vx } else { (256 + vy as u16 - vx as u16) as u8 };
        self.v[FLAG] = if no_borrow { 1 } else { 0 };
    }

    fn op_8xye(&mut self, opcode: u16)
        requires
            old(self).wf(),
        ensures
            final(self).wf(),
            final(self)@ == shift_left(old(self)@, op_x(opcode)),
    {
        let x = reg_x(opcode);
        let vx = self.v[x];
        self.v[x] = ((vx as u16 * 2) % 256) as u8;
        self.v[FLAG] = if vx >= 128 { 1 } else { 0 };
    }

    fn op_9xy0(&mut self, opcode: u16)
        requires
            old(self).wf(),
        ensures
            final(self).wf(),
            final(self)@ == skip_if(
                old(self)@,
                old(self)@.v[op_x(opcode)] != old(self)@.v[op_y(opcode)],
            ),
    {
        let x = reg_x(opcode);
        let y = reg_y(opcode);
        if self.v[x] != self.v[y] {
            self.pc = (self.pc + 2) % 4096;
        }
    }

    fn op_annn(&mut self, opcode: u16)
        requires
            old(self).wf(),
        ensures
            final(self).wf(),
            final(self)@ == set_index(old(self)@, op_nnn(opcode)),
    {
        self.i = address(opcode);
    }

    fn op_bnnn(&mut self, opcode: u16)
        requires
            old(self).wf(),
        ensures
            final(self).wf(),
            final(self)@ == jump_offset(old(self)@, op_nnn(opcode)),
    {
        self.pc = (address(opcode) + self.v[0] as u16) % 4096;
    }

    fn op_cxkk(&mut self, opcode: u16, random: u8)
        requires
            old(self).wf(),
        ensures
            final(self).wf(),
            final(self)@ == with_reg(old(self)@, op_x(opcode), random & op_kk(opcode)),
    {
        let x = reg_x(opcode);
        self.v[x] = random & imm_byte(opcode);
    }

    fn op_ex9e(&mut self, opcode: u16)
        requires
            old(self).wf(),
        ensures
            final(self).wf(),
            final(self)@ == skip_if(
                old(self)@,
                old(self)@.keys[old(self)@.v[op_x(opcode)] as int % 16],
            ),
    {
        let x = reg_x(opcode);
        let key = (self.v[x] % 16) as usize;
        if self.keys[key] {
            self.pc = (self.pc + 2) % 4096;
        }
    }

    fn op_exa1(&mut self, opcode: u16)
        requires
            old(self).wf(),
        ensures
            final(self).wf(),
            final(self)@ == skip_if(
                old(self)@,
                !old(self)@.keys[old(self)@.v[op_x(opcode)] as int % 16],
            ),
    {
        let x = reg_x(opcode);
        let key = (self.v[x] % 16) as usize;
        if !self.keys[key] {
            self.pc = (self.pc + 2) % 4096;
        }
    }

    fn op_fx07(&mut self, opcode: u16)
        requires
            old(self).wf(),
        ensures
            final(self).wf(),
            final(self)@ == with_reg(old(self)@, op_x(opcode), old(self).dt),
    {
        let x = reg_x(opcode);
        self.v[x] = self.dt;
    }

    fn op_fx15(&mut self, opcode: u16)
        requires
            old(self).wf(),
        ensures
            final(self).wf(),
            final(self)@ == (Machine { dt: old(self)@.v[op_x(opcode)], ..old(self)@ }),
    {
        let x = reg_x(opcode);
        self.dt = self.v[x];
    }

    fn op_fx18(&mut self, opcode: u16)
        requires
            old(self).wf(),
        ensures
            final(self).wf(),
            final(self)@ == (Machine { st: old(self)@.v[op_x(opcode)], ..old(self)@ }),
    {
        let x = reg_x(opcode);
        self.st = self.v[x];
    }

    fn op_fx1e(&mut self, opcode: u16)
        requires
            old(self).wf(),
        ensures
            final(self).wf(),
            final(self)@ == add_index(old(self)@, op_x(opcode)),
    {
        let x = reg_x(opcode);
        self.i = (self.i + self.v[x] as u16) % 4096;
    }

    fn op_fx29(&mut self, opcode: u16)
        requires
            old(self).wf(),
        ensures
            final(self).wf(),
            final(self)@ == font_char(old(self)@, op_x(opcode)),
    {
        let x = reg_x(opcode);
        self.i = self.v[x] as u16 * 5;
    }

    fn op_fx33(&mut self, opcode: u16)
        requires
            old(self).wf(),
        ensures
            final(self).wf(),
            final(self)@ == store_bcd(old(self)@, op_x(opcode)),
    {
        let x = reg_x(opcode);
        let vx = self.v[x];
        let i = self.i as usize;
        self.memory[i] = vx / 100;
        self.memory[(i + 1) % MEMORY_SIZE] = (vx / 10) % 10;
        self.memory[(i + 2) % MEMORY_SIZE] = vx % 10;
    }
    fn op_fx0a(&mut self, opcode: u16)
        requires
            old(self).wf(),
        ensures
            final(self).wf(),
            final(self)@ == wait_key(old(self)@, op_x(opcode)),
    {
        let x = reg_x(opcode);
        let mut key_pressed = false;
        let mut last: u8 = 0;
        let mut k: usize = 0;
        while k < 16
            invariant
                k <= 16,
                self.keys@.len() == 16,
                key_pressed == (highest_pressed(self.keys@, k as int) >= 0),
                key_pressed ==> last as int == highest_pressed(self.keys@, k as int),
                highest_pressed(self.keys@, k as int) < k,
            decreases 16 - k,
        {
            if self.keys[k] {
                last = k as u8;
                key_pressed = true;
            }
            k += 1;
        }
        if key_pressed {
            self.v[x] = last;
        } else {
            self.pc = (self.pc + 4094) % 4096;
        }
    }

    fn op_fx55(&mut self, opcode: u16)
        requires
            old(self).wf(),
        ensures
            final(self).wf(),
            final(self)@ == store_regs(old(self)@, op_x(opcode)),
    {
        let x = reg_x(opcode);
        let base = self.i as usize;
        let ghost m0 = self@;
        let mut k: usize = 0;
        while k <= x
            invariant
                x < 16,
                k <= x + 1,
                base == m0.i,
                m0 == old(self)@,
                m0.wf(),
                self.pc == old(self).pc,
                self.sp == old(self).sp,
                self.stack == old(self).stack,
                self.screen == old(self).screen,
                self.prev_screen == old(self).prev_screen,
                self.keys == old(self).keys,
                self.v == old(self).v,
                self.i == old(self).i,
                self.st == old(self).st,
                self.dt == old(self).dt,
                forall|a: int|
                    0 <= a < 4096 ==> self.memory@[a] == if (a - m0.i) % 4096 < k {
                        m0.v[(a - m0.i) % 4096]
                    } else {
                        m0.memory[a]
                    },
            decreases x + 1 - k,
        {
            let addr = (base + k) % MEMORY_SIZE;
            proof {
                lemma_wrap_offset(m0.i, k as int, addr as int);
            }
            self.memory[addr] = self.v[k];
            assert forall|a: int| 0 <= a < 4096 && a != addr implies #[trigger] ((a - m0.i) % 4096)
                != k by {
                lemma_wrap_offset(m0.i, k as int, a);
            }
            k += 1;
        }
        assert(self@ =~= store_regs(old(self)@, op_x(opcode)));
    }

    fn op_fx65(&mut self, opcode: u16)
        requires
            old(self).wf(),
        ensures
            final(self).wf(),
            final(self)@ == load_regs(old(self)@, op_x(opcode)),
    {
        let x = reg_x(opcode);
        let base = self.i as usize;
        let ghost m0 = self@;
        let mut k: usize = 0;
        while k <= x
            invariant
                x < 16,
                k <= x + 1,
                base == m0.i,
                m0 == old(self)@,
                m0.wf(),
                self.pc == old(self).pc,
                self.sp == old(self).sp,
                self.stack == old(self).stack,
                self.screen == old(self).screen,
                self.prev_screen == old(self).prev_screen,
                self.keys == old(self).keys,
                self.memory == old(self).memory,
                self.i == old(self).i,
                self.st == old(self).st,
                self.dt == old(self).dt,
                forall|j: int|
                    0 <= j < 16 ==> self.v@[j] == if j < k {
                        m0.memory[(m0.i + j) % 4096]
                    } else {
                        m0.v[j]
                    },
            decreases x + 1 - k,
        {
            self.v[k] = self.memory[(base + k) % MEMORY_SIZE];
            k += 1;
        }
        assert(self@ =~= load_regs(old(self)@, op_x(opcode)));
    }
    fn op_dxyn(&mut self, opcode: u16)
        requires
            old(self).wf(),
        ensures
            final(self).wf(),
            final(self)@ == draw(old(self)@, op_x(opcode), op_y(opcode), op_n(opcode)),
    {
        let x = reg_x(opcode);
        let y = reg_y(opcode);
        let n = (opcode % 16) as usize;
        let vx = self.v[x] as usize;
        let vy = self.v[y] as usize;
        let base = self.i as usize;
        let ghost m0 = self@;
        let mut screen = self.screen;
        let mut flipped = false;
        let mut y_offset: usize = 0;
        while y_offset < n
            invariant
                y_offset <= n,
                n == op_n(opcode),
                m0 == old(self)@,
                m0.wf(),
                *self == *old(self),
                vx == m0.v[op_x(opcode)],
                vy == m0.v[op_y(opcode)],
                base == m0.i,
                forall|p: int|
                    0 <= p < 2048 ==> screen@[p] == (m0.screen[p] != drawn_before(
                        m0,
                        vx as int,
                        vy as int,
                        n as int,
                        p,
                        y_offset as int,
                        0,
                    )),
                flipped == exists|p: int|
                    0 <= p < 2048 && #[trigger] drawn_before(
                        m0,
                        vx as int,
                        vy as int,
                        n as int,
                        p,
                        y_offset as int,
                        0,
                    ) && m0.screen[p],
            decreases n - y_offset,
        {
            let row = self.memory[(base + y_offset) % MEMORY_SIZE];
            let mut x_offset: usize = 0;
            while x_offset < 8
                invariant
                    x_offset <= 8,
                    y_offset < n,
                    n == op_n(opcode),
                    m0 == old(self)@,
                    m0.wf(),
                    *self == *old(self),
                    vx == m0.v[op_x(opcode)],
                    vy == m0.v[op_y(opcode)],
                    base == m0.i,
                    row == m0.memory[(m0.i + y_offset) % 4096],
                    forall|p: int|
                        0 <= p < 2048 ==> screen@[p] == (m0.screen[p] != drawn_before(
                            m0,
                            vx as int,
                            vy as int,
                            n as int,
                            p,
                            y_offset as int,
                            x_offset as int,
                        )),
                    flipped == exists|p: int|
                        0 <= p < 2048 && #[trigger] drawn_before(
                            m0,
                            vx as int,
                            vy as int,
                            n as int,
                            p,
                            y_offset as int,
                            x_offset as int,
                        ) && m0.screen[p],
                decreases 8 - x_offset,
            {
                let bit = row & (0x80u8 >> (x_offset as u8)) != 0;
                let p = (vx + x_offset) % SCREEN_WIDTH + ((vy + y_offset) % SCREEN_HEIGHT)
                    * SCREEN_WIDTH;
                proof {
                    lemma_sprite_pixel(vx as int, vy as int, x_offset as int, y_offset as int, 0);
                    assert forall|q: int| 0 <= q < 2048 implies #[trigger] drawn_before(
                        m0,
                        vx as int,
                        vy as int,
                        n as int,
                        q,
                        y_offset as int,
                        x_offset + 1,
                    ) == (drawn_before(
                        m0,
                        vx as int,
                        vy as int,
                        n as int,
                        q,
                        y_offset as int,
                        x_offset as int,
                    ) || (q == p && bit)) by {
                        lemma_sprite_pixel(
                            vx as int,
                            vy as int,
                            x_offset as int,
                            y_offset as int,
                            q,
                        );
                    }
                }
                let ghost before = screen@;
                let ghost was_flipped = flipped;
                if bit {
                    if screen[p] {
                        flipped = true;
                    }
                    screen[p] = !screen[p];
                }
                proof {
                    let s1 = x_offset + 1;
                    if flipped {
                        if was_flipped {
                            let q = choose|q: int|
                                0 <= q < 2048 && #[trigger] drawn_before(
                                    m0,
                                    vx as int,
                                    vy as int,
                                    n as int,
                                    q,
                                    y_offset as int,
                                    x_offset as int,
                                ) && m0.screen[q];
                            assert(drawn_before(
                                m0,
                                vx as int,
                                vy as int,
                                n as int,
                                q,
                                y_offset as int,
                                s1,
                            ));
                        } else {
                            assert(drawn_before(
                                m0,
                                vx as int,
                                vy as int,
                                n as int,
                                p as int,
                                y_offset as int,
                                s1,
                            ) && m0.screen[p as int]);
                        }
                    } else {
                        assert forall|q: int|
                            0 <= q < 2048 && #[trigger] drawn_before(
                                m0,
                                vx as int,
                                vy as int,
                                n as int,
                                q,
                                y_offset as int,
                                s1,
                            ) implies !m0.screen[q] by {
                            if drawn_before(
                                m0,
                                vx as int,
                                vy as int,
                                n as int,
                                q,
                                y_offset as int,
                                x_offset as int,
                            ) {
                                assert(!was_flipped);
                            }
                        }
                    }
                }
                x_offset += 1;
            }
            proof {
                assert forall|q: int| 0 <= q < 2048 implies #[trigger] drawn_before(
                    m0,
                    vx as int,
                    vy as int,
                    n as int,
                    q,
                    y_offset as int,
                    8,
                ) == drawn_before(m0, vx as int, vy as int, n as int, q, y_offset + 1, 0) by {}
            }
            y_offset += 1;
        }
        proof {
            assert forall|q: int| 0 <= q < 2048 implies #[trigger] drawn_before(
                m0,
                vx as int,
                vy as int,
                n as int,
                q,
                n as int,
                0,
            ) == sprite_covers(m0, vx as int, vy as int, n as int, q) by {}
        }
        self.prev_screen = self.screen;
        self.screen = screen;
        self.v[FLAG] = if flipped { 1 } else { 0 };
        assert(self@ =~= draw(old(self)@, op_x(opcode), op_y(opcode), op_n(opcode)));
    }
    /// Execute the instruction word `opcode`, the program counter having
    /// already moved past it. `random` is the byte the random instruction
    /// masks; no other instruction reads it.
    pub fn execute(&mut self, opcode: u16, random: u8) -> (r: Status)
        requires
            old(self).wf(),
        ensures
            final(self).wf(),
            final(self)@ == execute_spec(old(self)@, opcode, random),
            r == execute_status(old(self)@, opcode),
    {
        let kk = imm_byte(opcode);
        match opcode / 4096 {
            0x0 => {
                if opcode == 0x00E0 {
                    self.op_00e0();
                    Status::Executed
                } else if opcode == 0x00EE {
                    self.op_00ee()
                } else {
                    Status::UnknownOpcode(opcode)
                }
            },
            0x1 => {
                self.op_1nnn(opcode);
                Status::Executed
            },
            0x2 => self.op_2nnn(opcode),
            0x3 => {
                self.op_3xkk(opcode);
                Status::Executed
            },
            0x4 => {
                self.op_4xkk(opcode);
                Status::Executed
            },
            0x5 => {
                self.op_5xy0(opcode);
                Status::Executed
            },
            0x6 => {
                self.op_6xkk(opcode);
                Status::Executed
            },
            0x7 => {
                self.op_7xkk(opcode);
                Status::Executed
            },
            0x8 => {
                match opcode % 16 {
                    0x0 => self.op_8xy0(opcode),
                    0x1 => self.op_8xy1(opcode),
                    0x2 => self.op_8xy2(opcode),
                    0x3 => self.op_8xy3(opcode),
                    0x4 => self.op_8xy4(opcode),
                    0x5 => self.op_8xy5(opcode),
                    0x6 => self.op_8xy6(opcode),
                    0x7 => self.op_8xy7(opcode),
                    0xE => self.op_8xye(opcode),
                    _ => {
                        return Status::UnknownOpcode(opcode);
                    },
                }
                Status::Executed
            },
            0x9 => {
                self.op_9xy0(opcode);
                Status::Executed
            },
            0xA => {
                self.op_annn(opcode);
                Status::Executed
            },
            0xB => {
                self.op_bnnn(opcode);
                Status::Executed
            },
            0xC => {
                self.op_cxkk(opcode, random);
                Status::Executed
            },
            0xD => {
                self.op_dxyn(opcode);
                Status::Executed
            },
            0xE => {
                match kk {
                    0x9E => self.op_ex9e(opcode),
                    0xA1 => self.op_exa1(opcode),
                    _ => {
                        return Status::UnknownOpcode(opcode);
                    },
                }
                Status::Executed
            },
            _ => {
                match kk {
                    0x07 => self.op_fx07(opcode),
                    0x0A => self.op_fx0a(opcode),
                    0x15 => self.op_fx15(opcode),
                    0x18 => self.op_fx18(opcode),
                    0x1E => self.op_fx1e(opcode),
                    0x29 => self.op_fx29(opcode),
                    0x33 => self.op_fx33(opcode),
                    0x55 => self.op_fx55(opcode),
                    0x65 => self.op_fx65(opcode),
                    _ => {
                        return Status::UnknownOpcode(opcode);
                    },
                }
                Status::Executed
            },
        }
    }

    /// One fetch-decode-execute cycle, `random` standing for the byte that a
    /// random instruction would draw.
    pub fn step(&mut self, random: u8) -> (r: Status)
        requires
            old(self).wf(),
        ensures
            final(self).wf(),
            final(self)@ == step_spec(old(self)@, random),
            r == step_status(old(self)@),
    {
        let opcode = self.fetch_opcode();
        self.execute(opcode, random)
    }

    /// One fetch-decode-execute cycle. A random instruction draws its byte
    /// from the thread's generator; every other instruction is determined
    /// by the state alone.
    pub fn decode_opcode(&mut self) -> (r: Status)
        requires
            old(self).wf(),
        ensures
            final(self).wf(),
            r == step_status(old(self)@),
            exists|rnd: u8| final(self)@ == step_spec(old(self)@, rnd),
            !is_random_op(fetch_word(old(self)@)) ==> final(self)@ == step_spec(old(self)@, 0),
    {
        let random = if self.peek_opcode() / 4096 == 0xC {
            random_byte()
        } else {
            0
        };
        self.step(random)
    }

    /// One fetch-decode-execute cycle, then one timer count-down.
    pub fn tick(&mut self) -> (r: Status)
        requires
            old(self).wf(),
        ensures
            final(self).wf(),
            r == step_status(old(self)@),
            exists|rnd: u8| final(self)@ == tick_timers(step_spec(old(self)@, rnd)),
            !is_random_op(fetch_word(old(self)@)) ==> final(self)@ == tick_timers(
                step_spec(old(self)@, 0),
            ),
    {
        let r = self.decode_opcode();
        self.timers();
        r
    }
    pub fn delay_timer(&self) -> (r: u8)
        ensures
            r == self@.dt,
    {
        self.dt
    }

    pub fn sound_timer(&self) -> (r: u8)
        ensures
            r == self@.st,
    {
        self.st
    }

    pub fn program_counter(&self) -> (r: u16)
        ensures
            r == self@.pc,
    {
        self.pc
    }

    pub fn index_register(&self) -> (r: u16)
        ensures
            r == self@.i,
    {
        self.i
    }

    pub fn register(&self, x: usize) -> (r: u8)
        requires
            x < 16,
        ensures
            r == self@.v[x as int],
    {
        self.v[x]
    }

    pub fn read_memory(&self, addr: usize) -> (r: u8)
        requires
            addr < 4096,
        ensures
            r == self@.memory[addr as int],
    {
        self.memory[addr]
    }

    /// Number of return addresses on the call stack.
    pub fn stack_depth(&self) -> (r: usize)
        requires
            self.wf(),
        ensures
            r == self@.stack.len(),
    {
        self.sp as usize
    }
}

} // verus!
