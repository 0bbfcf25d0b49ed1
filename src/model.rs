//! The abstract machine: state as mathematical sequences, and the effect of
//! each instruction as a function from state to state.
use vstd::prelude::*;

verus! {

pub const SCREEN_WIDTH: usize = 64;

pub const SCREEN_HEIGHT: usize = 32;

pub const MEMORY_SIZE: usize = 4096;

pub const PROGRAM_START: usize = 0x200;

pub const STACK_CAPACITY: usize = 16;

pub const FONT_LEN: usize = 80;

/// Index of the flag register.
pub const FLAG: usize = 15;

/// What became of one executed instruction word.
#[derive(Clone, Copy, Debug, PartialEq, Eq, Structural)]
pub enum Status {
    Executed,
    /// The word matches no instruction; nothing but the program counter moved.
    UnknownOpcode(u16),
    /// A call found the stack full; the call was not made.
    StackOverflow,
    /// A return found the stack empty; nothing was popped.
    StackUnderflow,
}

/// Every part of the machine's state. The call stack holds the live return
/// addresses only, oldest first.
#[verifier::ext_equal]
pub ghost struct Machine {
    pub pc: int,
    pub stack: Seq<u16>,
    pub v: Seq<u8>,
    pub i: int,
    pub memory: Seq<u8>,
    pub screen: Seq<bool>,
    pub prev_screen: Seq<bool>,
    pub keys: Seq<bool>,
    pub dt: u8,
    pub st: u8,
}

/// The built-in glyphs for the digits 0 to F, five rows each.
pub open spec fn font() -> Seq<u8> {
    seq![
        0xF0u8, 0x90, 0x90, 0x90, 0xF0,
        0x20, 0x60, 0x20, 0x20, 0x70,
        0xF0, 0x10, 0xF0, 0x80, 0xF0,
        0xF0, 0x10, 0xF0, 0x10, 0xF0,
        0x90, 0x90, 0xF0, 0x10, 0x10,
        0xF0, 0x80, 0xF0, 0x10, 0xF0,
        0xF0, 0x80, 0xF0, 0x90, 0xF0,
        0xF0, 0x10, 0x20, 0x40, 0x40,
        0xF0, 0x90, 0xF0, 0x90, 0xF0,
        0xF0, 0x90, 0xF0, 0x10, 0xF0,
        0xF0, 0x90, 0xF0, 0x90, 0x90,
        0xE0, 0x90, 0xE0, 0x90, 0xE0,
        0xF0, 0x80, 0x80, 0x80, 0xF0,
        0xE0, 0x90, 0x90, 0x90, 0xE0,
        0xF0, 0x80, 0xF0, 0x80, 0xF0,
        0xF0, 0x80, 0xF0, 0x80, 0x80,
    ]
}

impl Machine {
    pub open spec fn wf(self) -> bool {
        &&& 0 <= self.pc < 4096
        &&& 0 <= self.i < 4096
        &&& self.stack.len() <= 16
        &&& forall|k: int| 0 <= k < self.stack.len() ==> self.stack[k] < 4096
        &&& self.v.len() == 16
        &&& self.memory.len() == 4096
        &&& self.screen.len() == 2048
        &&& self.prev_screen.len() == 2048
        &&& self.keys.len() == 16
    }
}

/// The state after power-on: font loaded, everything else zero, the program
/// counter at the start of the program area.
pub open spec fn initial_machine() -> Machine {
    Machine {
        pc: 0x200,
        stack: Seq::empty(),
        v: Seq::new(16, |k: int| 0u8),
        i: 0,
        memory: Seq::new(4096, |a: int| if a < 80 { font()[a] } else { 0u8 }),
        screen: Seq::new(2048, |p: int| false),
        prev_screen: Seq::new(2048, |p: int| false),
        keys: Seq::new(16, |k: int| false),
        dt: 0,
        st: 0,
    }
}

pub open spec fn with_font(m: Machine) -> Machine {
    Machine { memory: Seq::new(4096, |a: int| if a < 80 { font()[a] } else { m.memory[a] }), ..m }
}

/// A program image copied into memory from the start of the program area.
pub open spec fn load_program(m: Machine, rom: Seq<u8>) -> Machine {
    Machine {
        memory: Seq::new(
            4096,
            |a: int|
                if 0x200 <= a < 0x200 + rom.len() {
                    rom[a - 0x200]
                } else {
                    m.memory[a]
                },
        ),
        ..m
    }
}

pub open spec fn set_key(m: Machine, key: int, pressed: bool) -> Machine {
    Machine { keys: m.keys.update(key, pressed), ..m }
}

/// Both timers count down by one and stop at zero.
pub open spec fn count_down(t: u8) -> u8 {
    if t > 0 { (t - 1) as u8 } else { 0 }
}

pub open spec fn tick_timers(m: Machine) -> Machine {
    Machine { dt: count_down(m.dt), st: count_down(m.st), ..m }
}

// Fields of an instruction word.
pub open spec fn op_kind(op: u16) -> int {
    op as int / 4096
}

pub open spec fn op_x(op: u16) -> int {
    (op as int / 256) % 16
}

pub open spec fn op_y(op: u16) -> int {
    (op as int / 16) % 16
}

pub open spec fn op_n(op: u16) -> int {
    op as int % 16
}

pub open spec fn op_kk(op: u16) -> u8 {
    (op as int % 256) as u8
}

pub open spec fn op_nnn(op: u16) -> int {
    op as int % 4096
}

/// The big-endian word at the program counter.
pub open spec fn fetch_word(m: Machine) -> u16 {
    (m.memory[m.pc] as int * 256 + m.memory[(m.pc + 1) % 4096] as int) as u16
}

pub open spec fn advance(m: Machine) -> Machine {
    Machine { pc: (m.pc + 2) % 4096, ..m }
}

pub open spec fn with_reg(m: Machine, x: int, val: u8) -> Machine {
    Machine { v: m.v.update(x, val), ..m }
}

pub open spec fn with_flag(m: Machine, set: bool) -> Machine {
    with_reg(m, 15, if set { 1u8 } else { 0u8 })
}

/// Skip the next instruction when `cond` holds.
pub open spec fn skip_if(m: Machine, cond: bool) -> Machine {
    if cond { advance(m) } else { m }
}

pub open spec fn clear_screen(m: Machine) -> Machine {
    Machine { screen: Seq::new(2048, |p: int| false), prev_screen: m.screen, ..m }
}

pub open spec fn ret(m: Machine) -> Machine {
    if m.stack.len() == 0 {
        m
    } else {
        Machine { pc: m.stack.last() as int, stack: m.stack.drop_last(), ..m }
    }
}

pub open spec fn jump(m: Machine, nnn: int) -> Machine {
    Machine { pc: nnn, ..m }
}

pub open spec fn call(m: Machine, nnn: int) -> Machine {
    if m.stack.len() >= 16 {
        m
    } else {
        Machine { pc: nnn, stack: m.stack.push(m.pc as u16), ..m }
    }
}

pub open spec fn add_imm(m: Machine, x: int, kk: u8) -> Machine {
    with_reg(m, x, ((m.v[x] + kk) % 256) as u8)
}

/// Add with carry into the flag register.
pub open spec fn add_regs(m: Machine, x: int, y: int) -> Machine {
    let s = m.v[x] + m.v[y];
    with_flag(with_reg(m, x, (s % 256) as u8), s > 255)
}

/// `x := x - y`; the flag is set when there is no borrow.
pub open spec fn sub_regs(m: Machine, x: int, y: int) -> Machine {
    with_flag(with_reg(m, x, ((m.v[x] - m.v[y]) % 256) as u8), m.v[x] >= m.v[y])
}

/// `x := y - x`; the flag is set when there is no borrow.
pub open spec fn subn_regs(m: Machine, x: int, y: int) -> Machine {
    with_flag(with_reg(m, x, ((m.v[y] - m.v[x]) % 256) as u8), m.v[y] >= m.v[x])
}

/// Shift right; the flag gets the bit shifted out.
pub open spec fn shift_right(m: Machine, x: int) -> Machine {
    with_flag(with_reg(m, x, m.v[x] / 2), m.v[x] % 2 == 1)
}

/// Shift left; the flag gets the bit shifted out.
pub open spec fn shift_left(m: Machine, x: int) -> Machine {
    with_flag(with_reg(m, x, ((m.v[x] * 2) % 256) as u8), m.v[x] >= 128)
}

pub open spec fn set_index(m: Machine, nnn: int) -> Machine {
    Machine { i: nnn, ..m }
}

pub open spec fn jump_offset(m: Machine, nnn: int) -> Machine {
    Machine { pc: (nnn + m.v[0]) % 4096, ..m }
}

/// Whether the sprite row byte `row` has its pixel at column offset `dx`
/// set, the most significant bit being the leftmost pixel.
pub open spec fn sprite_bit(row: u8, dx: int) -> bool {
    row & (0x80u8 >> (dx as u8)) != 0
}

/// Column of pixel `p` relative to a sprite whose left edge is at `vx`,
/// counted around the screen's wrap.
pub open spec fn col_offset(p: int, vx: int) -> int {
    (p % 64 - vx) % 64
}

pub open spec fn row_offset(p: int, vy: int) -> int {
    (p / 64 - vy) % 32
}

/// The pixel at column offset `dx` and row offset `dy` of a sprite placed at
/// (`vx`, `vy`), wrapped around both screen edges.
pub open spec fn sprite_pixel(vx: int, vy: int, dx: int, dy: int) -> int {
    (vx + dx) % 64 + ((vy + dy) % 32) * 64
}

/// Whether pixel `p` lies under a set bit of the `n`-row sprite read from
/// memory at the index register and placed at (`vx`, `vy`).
pub open spec fn sprite_covers(m: Machine, vx: int, vy: int, n: int, p: int) -> bool {
    let dx = col_offset(p, vx);
    let dy = row_offset(p, vy);
    dx < 8 && dy < n && sprite_bit(m.memory[(m.i + dy) % 4096], dx)
}

/// XOR the sprite onto the screen; the flag tells whether a lit pixel went out.
pub open spec fn draw(m: Machine, x: int, y: int, n: int) -> Machine {
    let vx = m.v[x] as int;
    let vy = m.v[y] as int;
    let screen = Seq::new(2048, |p: int| m.screen[p] != sprite_covers(m, vx, vy, n, p));
    let hit = exists|p: int| 0 <= p < 2048 && sprite_covers(m, vx, vy, n, p) && m.screen[p];
    with_flag(Machine { screen: screen, prev_screen: m.screen, ..m }, hit)
}

/// The pixel at offsets (`dx`, `dy`) of a sprite placed at (`vx`, `vy`) has
/// exactly those offsets, and no other pixel has them.
pub proof fn lemma_sprite_pixel(vx: int, vy: int, dx: int, dy: int, p: int)
    requires
        0 <= vx < 256,
        0 <= vy < 256,
        0 <= dx < 64,
        0 <= dy < 32,
        0 <= p < 2048,
    ensures
        0 <= sprite_pixel(vx, vy, dx, dy) < 2048,
        col_offset(sprite_pixel(vx, vy, dx, dy), vx) == dx,
        row_offset(sprite_pixel(vx, vy, dx, dy), vy) == dy,
        col_offset(p, vx) == dx && row_offset(p, vy) == dy ==> p == sprite_pixel(vx, vy, dx, dy),
{
}

/// The highest index below `n` of a pressed key, or -1.
pub open spec fn highest_pressed(keys: Seq<bool>, n: int) -> int
    decreases n,
{
    if n <= 0 {
        -1
    } else if keys[n - 1] {
        n - 1
    } else {
        highest_pressed(keys, n - 1)
    }
}

/// Store the highest pressed key, or go back to run this instruction again.
pub open spec fn wait_key(m: Machine, x: int) -> Machine {
    let k = highest_pressed(m.keys, 16);
    if k < 0 {
        Machine { pc: (m.pc + 4094) % 4096, ..m }
    } else {
        with_reg(m, x, k as u8)
    }
}

pub open spec fn add_index(m: Machine, x: int) -> Machine {
    Machine { i: (m.i + m.v[x]) % 4096, ..m }
}

pub open spec fn font_char(m: Machine, x: int) -> Machine {
    Machine { i: m.v[x] * 5, ..m }
}

/// Hundreds, tens and units of a register at the index register onwards.
pub open spec fn store_bcd(m: Machine, x: int) -> Machine {
    let val = m.v[x];
    Machine {
        memory: m.memory.update(m.i, (val / 100) as u8).update(
            (m.i + 1) % 4096,
            ((val / 10) % 10) as u8,
        ).update((m.i + 2) % 4096, (val % 10) as u8),
        ..m
    }
}

/// Registers 0 to `x` stored from the index register on, addresses wrapping.
pub open spec fn store_regs(m: Machine, x: int) -> Machine {
    Machine {
        memory: Seq::new(
            4096,
            |a: int|
                if (a - m.i) % 4096 <= x {
                    m.v[(a - m.i) % 4096]
                } else {
                    m.memory[a]
                },
        ),
        ..m
    }
}

/// Registers 0 to `x` loaded from the index register on, addresses wrapping.
pub open spec fn load_regs(m: Machine, x: int) -> Machine {
    Machine {
        v: Seq::new(16, |k: int| if k <= x { m.memory[(m.i + k) % 4096] } else { m.v[k] }),
        ..m
    }
}

/// Whether the word is the random-byte instruction, the one instruction
/// whose effect depends on more than the state.
pub open spec fn is_random_op(op: u16) -> bool {
    op_kind(op) == 0xC
}

/// The effect of the instruction word `op`, the program counter having
/// already moved past it; `rnd` is the random byte it may draw.
pub open spec fn execute_spec(m: Machine, op: u16, rnd: u8) -> Machine {
    let kind = op_kind(op);
    let x = op_x(op);
    let y = op_y(op);
    let kk = op_kk(op);
    let nnn = op_nnn(op);
    if kind == 0 {
        if op == 0x00E0 {
            clear_screen(m)
        } else if op == 0x00EE {
            ret(m)
        } else {
            m
        }
    } else if kind == 1 {
        jump(m, nnn)
    } else if kind == 2 {
        call(m, nnn)
    } else if kind == 3 {
        skip_if(m, m.v[x] == kk)
    } else if kind == 4 {
        skip_if(m, m.v[x] != kk)
    } else if kind == 5 {
        skip_if(m, m.v[x] == m.v[y])
    } else if kind == 6 {
        with_reg(m, x, kk)
    } else if kind == 7 {
        add_imm(m, x, kk)
    } else if kind == 8 {
        let sub = op_n(op);
        if sub == 0 {
            with_reg(m, x, m.v[y])
        } else if sub == 1 {
            with_reg(m, x, m.v[x] | m.v[y])
        } else if sub == 2 {
            with_reg(m, x, m.v[x] & m.v[y])
        } else if sub == 3 {
            with_reg(m, x, m.v[x] ^ m.v[y])
        } else if sub == 4 {
            add_regs(m, x, y)
        } else if sub == 5 {
            sub_regs(m, x, y)
        } else if sub == 6 {
            shift_right(m, x)
        } else if sub == 7 {
            subn_regs(m, x, y)
        } else if sub == 0xE {
            shift_left(m, x)
        } else {
            m
        }
    } else if kind == 9 {
        skip_if(m, m.v[x] != m.v[y])
    } else if kind == 0xA {
        set_index(m, nnn)
    } else if kind == 0xB {
        jump_offset(m, nnn)
    } else if kind == 0xC {
        with_reg(m, x, rnd & kk)
    } else if kind == 0xD {
        draw(m, x, y, op_n(op))
    } else if kind == 0xE {
        if kk == 0x9E {
            skip_if(m, m.keys[m.v[x] as int % 16])
        } else if kk == 0xA1 {
            skip_if(m, !m.keys[m.v[x] as int % 16])
        } else {
            m
        }
    } else {
        if kk == 0x07 {
            with_reg(m, x, m.dt)
        } else if kk == 0x0A {
            wait_key(m, x)
        } else if kk == 0x15 {
            Machine { dt: m.v[x], ..m }
        } else if kk == 0x18 {
            Machine { st: m.v[x], ..m }
        } else if kk == 0x1E {
            add_index(m, x)
        } else if kk == 0x29 {
            font_char(m, x)
        } else if kk == 0x33 {
            store_bcd(m, x)
        } else if kk == 0x55 {
            store_regs(m, x)
        } else if kk == 0x65 {
            load_regs(m, x)
        } else {
            m
        }
    }
}

/// Whether the word decodes to an instruction.
pub open spec fn is_known_op(op: u16) -> bool {
    let kind = op_kind(op);
    let sub = op_n(op);
    let kk = op_kk(op);
    if kind == 0 {
        op == 0x00E0 || op == 0x00EE
    } else if kind == 8 {
        sub <= 7 || sub == 0xE
    } else if kind == 0xE {
        kk == 0x9E || kk == 0xA1
    } else if kind == 0xF {
        kk == 0x07 || kk == 0x0A || kk == 0x15 || kk == 0x18 || kk == 0x1E || kk == 0x29
            || kk == 0x33 || kk == 0x55 || kk == 0x65
    } else {
        true
    }
}

/// What executing `op` in state `m` reports.
pub open spec fn execute_status(m: Machine, op: u16) -> Status {
    if !is_known_op(op) {
        Status::UnknownOpcode(op)
    } else if op_kind(op) == 2 && m.stack.len() >= 16 {
        Status::StackOverflow
    } else if op == 0x00EE && m.stack.len() == 0 {
        Status::StackUnderflow
    } else {
        Status::Executed
    }
}

/// Going `k` bytes on from `base` around the address space and measuring
/// back gives `k`, and no other address is `k` bytes on.
pub proof fn lemma_wrap_offset(base: int, k: int, a: int)
    requires
        0 <= base < 4096,
        0 <= k < 4096,
        0 <= a < 4096,
    ensures
        ((base + k) % 4096 - base) % 4096 == k,
        (a - base) % 4096 == k ==> a == (base + k) % 4096,
{
}

/// One fetch-decode-execute cycle.
pub open spec fn step_spec(m: Machine, rnd: u8) -> Machine {
    execute_spec(advance(m), fetch_word(m), rnd)
}

pub open spec fn step_status(m: Machine) -> Status {
    execute_status(advance(m), fetch_word(m))
}

} // verus!
