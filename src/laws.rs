//! Properties of the instruction set that hold for every machine state.
use vstd::prelude::*;
use crate::model::{
    Machine, execute_spec, step_spec, fetch_word, advance, op_kind, op_x, op_y, op_n, draw, sprite_bit,
    sprite_covers, tick_timers,
};

verus! {

/// The instruction word `8xyS`.
pub open spec fn alu_word(x: int, y: int, sub: int) -> u16 {
    (0x8000 + x * 256 + y * 16 + sub) as u16
}

/// The instruction word `Dxyn`.
pub open spec fn draw_word(x: int, y: int, n: int) -> u16 {
    (0xD000 + x * 256 + y * 16 + n) as u16
}

proof fn lemma_draw_word(m: Machine, x: int, y: int, n: int, rnd: u8)
    requires
        m.wf(),
        0 <= x < 16,
        0 <= y < 16,
        0 <= n < 16,
    ensures
        execute_spec(m, draw_word(x, y, n), rnd) == draw(m, x, y, n),
{
    let op = draw_word(x, y, n);
    assert(op_kind(op) == 0xD && op_x(op) == x && op_y(op) == y && op_n(op) == n);
}

/// Adding register `y` into register `x` sets the flag register to 1 when
/// the sum exceeds 255 and to 0 otherwise, and leaves the sum modulo 256 in
/// register `x` unless `x` is the flag register itself.
pub proof fn law_add_carry(m: Machine, x: int, y: int, rnd: u8)
    requires
        m.wf(),
        0 <= x < 16,
        0 <= y < 16,
    ensures
        ({
            let r = execute_spec(m, alu_word(x, y, 4), rnd);
            &&& r.v[15] == (if m.v[x] + m.v[y] > 255 { 1u8 } else { 0u8 })
            &&& x != 15 ==> r.v[x] == (m.v[x] + m.v[y]) % 256
        }),
{
}

/// Subtracting register `y` from register `x` sets the flag register to 0
/// when the subtraction borrows (`a < b`) and to 1 otherwise, and leaves the
/// difference modulo 256 in register `x` unless `x` is the flag register.
pub proof fn law_sub_borrow(m: Machine, x: int, y: int, rnd: u8)
    requires
        m.wf(),
        0 <= x < 16,
        0 <= y < 16,
    ensures
        ({
            let r = execute_spec(m, alu_word(x, y, 5), rnd);
            &&& r.v[15] == (if m.v[x] < m.v[y] { 0u8 } else { 1u8 })
            &&& x != 15 ==> r.v[x] == (m.v[x] - m.v[y]) % 256
        }),
{
}

/// Drawing the same sprite twice at the same place gives back the screen as
/// it was, and the second draw reports a collision exactly when the first
/// one lit some pixel. The coordinates must not come from the flag
/// register, which the first draw overwrites.
pub proof fn law_draw_twice(m: Machine, x: int, y: int, n: int, rnd: u8)
    requires
        m.wf(),
        0 <= x < 15,
        0 <= y < 15,
        0 <= n < 16,
    ensures
        ({
            let m1 = execute_spec(m, draw_word(x, y, n), rnd);
            let m2 = execute_spec(m1, draw_word(x, y, n), rnd);
            &&& m2.screen == m.screen
            &&& (m2.v[15] == 1) == (exists|p: int|
                0 <= p < 2048 && #[trigger] m1.screen[p] && !m.screen[p])
        }),
{
    let op = draw_word(x, y, n);
    let m1 = execute_spec(m, op, rnd);
    let m2 = execute_spec(m1, op, rnd);
    lemma_draw_word(m, x, y, n, rnd);
    lemma_draw_word(m1, x, y, n, rnd);
    let vx = m.v[x] as int;
    let vy = m.v[y] as int;
    assert(m1.v[x] == m.v[x] && m1.v[y] == m.v[y]);
    assert forall|p: int| 0 <= p < 2048 implies #[trigger] sprite_covers(m1, vx, vy, n, p)
        == sprite_covers(m, vx, vy, n, p) by {}
    assert(m2.screen =~= m.screen);
    if m2.v[15] == 1 {
        let p = choose|p: int|
            0 <= p < 2048 && #[trigger] sprite_covers(m1, vx, vy, n, p) && m1.screen[p];
        assert(m1.screen[p] && !m.screen[p]);
    }
    if exists|p: int| 0 <= p < 2048 && #[trigger] m1.screen[p] && !m.screen[p] {
        let p = choose|p: int| 0 <= p < 2048 && #[trigger] m1.screen[p] && !m.screen[p];
        assert(sprite_covers(m1, vx, vy, n, p) && m1.screen[p]);
    }
}

/// A sprite bit at column offset `dx` and row offset `dy` lands on column
/// `(vx + dx) mod 64` and row `(vy + dy) mod 32`, wrapping around the
/// screen's edges rather than being clipped, and flips that pixel.
pub proof fn law_draw_wraps(m: Machine, x: int, y: int, n: int, dx: int, dy: int, rnd: u8)
    requires
        m.wf(),
        0 <= x < 16,
        0 <= y < 16,
        0 <= n < 16,
        0 <= dx < 8,
        0 <= dy < n,
        sprite_bit(m.memory[(m.i + dy) % 4096], dx),
    ensures
        ({
            let r = execute_spec(m, draw_word(x, y, n), rnd);
            let p = (m.v[x] + dx) % 64 + ((m.v[y] + dy) % 32) * 64;
            &&& 0 <= p < 2048
            &&& r.screen[p] == !m.screen[p]
        }),
{
    lemma_draw_word(m, x, y, n, rnd);
    crate::model::lemma_sprite_pixel(m.v[x] as int, m.v[y] as int, dx, dy, 0);
}

/// A call followed, at its target, by a return comes back to the
/// instruction right after the call, with the stack as it was, whenever the
/// stack had room for the call.
pub proof fn law_call_return(m: Machine, rnd1: u8, rnd2: u8)
    requires
        m.wf(),
        m.stack.len() < 16,
        op_kind(fetch_word(m)) == 2,
        fetch_word(step_spec(m, rnd1)) == 0x00EE,
    ensures
        step_spec(step_spec(m, rnd1), rnd2) == advance(m),
{
    let m1 = step_spec(m, rnd1);
    let m2 = step_spec(m1, rnd2);
    assert(m1.stack == m.stack.push(((m.pc + 2) % 4096) as u16));
    assert(m2.stack =~= m.stack);
    assert(m2 =~= advance(m));
}

/// The timers after `k` count-downs.
pub open spec fn timers_after(m: Machine, k: nat) -> Machine
    decreases k,
{
    if k == 0 {
        m
    } else {
        tick_timers(timers_after(m, (k - 1) as nat))
    }
}

/// However many times the timers count down, each one stops at zero rather
/// than going below it: after `k` count-downs a timer holds its start value
/// less `k`, or zero.
pub proof fn law_timer_floor(m: Machine, k: nat)
    ensures
        timers_after(m, k).dt == (if m.dt >= k { m.dt - k } else { 0 }),
        timers_after(m, k).st == (if m.st >= k { m.st - k } else { 0 }),
    decreases k,
{
    if k > 0 {
        law_timer_floor(m, (k - 1) as nat);
    }
}

} // verus!
