use vstd::prelude::*;

verus! {

/// Standard NES controller: eight buttons, a strobe latch and a serial shift position.
pub struct Gamepad {
    pub a: bool,
    pub b: bool,
    pub select: bool,
    pub start: bool,
    pub up: bool,
    pub down: bool,
    pub left: bool,
    pub right: bool,
    pub strobe: bool,
    pub index: u8,
    pub buttons: [u8; 2],
}

/// `1` when `b` holds, `0` otherwise.
pub open spec fn bit_of(b: bool) -> u8 {
    if b { 1 } else { 0 }
}

impl Gamepad {
    /// The serial report of the buttons as they stand: bit 0 = A, then B, Select,
    /// Start, Up, Down, Left and bit 7 = Right.
    pub open spec fn button_bits(&self) -> u8 {
        (bit_of(self.a) | bit_of(self.b) << 1u8 | bit_of(self.select) << 2u8 | bit_of(self.start) << 3u8
            | bit_of(self.up) << 4u8 | bit_of(self.down) << 5u8 | bit_of(self.left) << 6u8
            | bit_of(self.right) << 7u8) as u8
    }

    /// The report latched at the last strobe.
    pub open spec fn latched(&self) -> u8 {
        self.buttons[0]
    }

    /// How many bits have been shifted out since the last strobe.
    pub open spec fn position(&self) -> u8 {
        self.index
    }

    /// The button state (pressed flags and strobe), without the latch.
    pub open spec fn same_buttons(&self, other: &Gamepad) -> bool {
        &&& self.a == other.a
        &&& self.b == other.b
        &&& self.select == other.select
        &&& self.start == other.start
        &&& self.up == other.up
        &&& self.down == other.down
        &&& self.left == other.left
        &&& self.right == other.right
    }

    /// The bit that a read returns when the strobe is low.
    pub open spec fn shifted_bit(latched: u8, position: u8) -> u8 {
        if position < 8 { (latched >> position) & 1 } else { 1 }
    }

    /// The bit the next serial read returns: A while the strobe is high, otherwise
    /// the next latched bit, then 1 once all eight are out.
    pub open spec fn next_bit(&self) -> u8 {
        if self.strobe { bit_of(self.a) } else { Self::shifted_bit(self.latched(), self.position()) }
    }

    /// A controller with no button pressed and the strobe low.
    pub fn new() -> (r: Self)
        ensures
            !r.a && !r.b && !r.select && !r.start && !r.up && !r.down && !r.left && !r.right,
            !r.strobe,
            r.latched() == 0,
            r.position() == 0,
    {
        Gamepad {
            a: false,
            b: false,
            select: false,
            start: false,
            up: false,
            down: false,
            left: false,
            right: false,
            strobe: false,
            index: 0,
            buttons: [0; 2],
        }
    }

    fn latch(&mut self)
        ensures
            final(self).same_buttons(old(self)),
            final(self).strobe == old(self).strobe,
            final(self).latched() == old(self).button_bits(),
            final(self).position() == old(self).position(),
    {
        let a = self.a;
        let b = self.b;
        let se = self.select;
        let st = self.start;
        let u = self.up;
        let d = self.down;
        let l = self.left;
        let r = self.right;
        let v: u8 = (if a { 0x01u8 } else { 0u8 }) | (if b { 0x02u8 } else { 0u8 }) | (if se {
            0x04u8
        } else {
            0u8
        }) | (if st { 0x08u8 } else { 0u8 }) | (if u { 0x10u8 } else { 0u8 }) | (if d {
            0x20u8
        } else {
            0u8
        }) | (if l { 0x40u8 } else { 0u8 }) | (if r { 0x80u8 } else { 0u8 });
        assert(v == (bit_of(a) | bit_of(b) << 1u8 | bit_of(se) << 2u8 | bit_of(st) << 3u8 | bit_of(u)
            << 4u8 | bit_of(d) << 5u8 | bit_of(l) << 6u8 | bit_of(r) << 7u8) as u8) by (bit_vector)
            requires
                v == (if a { 0x01u8 } else { 0u8 }) | (if b { 0x02u8 } else { 0u8 }) | (if se {
                    0x04u8
                } else {
                    0u8
                }) | (if st { 0x08u8 } else { 0u8 }) | (if u { 0x10u8 } else { 0u8 }) | (if d {
                    0x20u8
                } else {
                    0u8
                }) | (if l { 0x40u8 } else { 0u8 }) | (if r { 0x80u8 } else { 0u8 }),
        ;
        self.buttons[0] = v;
        self.buttons[1] = 0;
    }

    /// Write to $4016: bit 0 drives the strobe; while it is high the buttons are
    /// latched and the shift position returns to the first bit.
    pub fn write(&mut self, val: u8)
        ensures
            after_write(*old(self), val, *final(self)),
    {
        self.strobe = val & 0x01 != 0;
        if self.strobe {
            self.index = 0;
            self.latch();
        }
    }

    /// Serial read: with the strobe high, the current A button; otherwise the next
    /// latched bit, then 1 once all eight bits have been shifted out.
    pub fn read(&mut self) -> (r: u8)
        ensures
            r == old(self).next_bit(),
            final(self).same_buttons(old(self)),
            final(self).strobe == old(self).strobe,
            old(self).strobe ==> r == bit_of(old(self).a) && final(self).latched()
                == old(self).button_bits() && final(self).position() == old(self).position(),
            !old(self).strobe ==> r == Self::shifted_bit(old(self).latched(), old(self).position())
                && final(self).latched() == old(self).latched() && final(self).position() == (
            (old(self).position() + 1) % 256) as u8,
            after_read(*old(self), *final(self)),
    {
        if self.strobe {
            self.latch();
            let v = self.buttons[0];
            let a = self.a;
            proof {
                lemma_report_bits(
                    self.a,
                    self.b,
                    self.select,
                    self.start,
                    self.up,
                    self.down,
                    self.left,
                    self.right,
                );
            }
            return v & 0x01;
        }
        let bit = if self.index < 8 {
            (self.buttons[0] >> self.index) & 0x01
        } else {
            0x01
        };
        self.index = self.index.wrapping_add(1);
        bit
    }
}

/// Bit k of the button report is the k-th button in serial order.
pub proof fn lemma_report_bits(a: bool, b: bool, se: bool, st: bool, u: bool, d: bool, l: bool, r: bool)
    ensures
        ({
            let v = (bit_of(a) | bit_of(b) << 1u8 | bit_of(se) << 2u8 | bit_of(st) << 3u8 | bit_of(u)
                << 4u8 | bit_of(d) << 5u8 | bit_of(l) << 6u8 | bit_of(r) << 7u8) as u8;
            &&& v & 1 == bit_of(a)
            &&& (v >> 1u8) & 1 == bit_of(b)
            &&& (v >> 2u8) & 1 == bit_of(se)
            &&& (v >> 3u8) & 1 == bit_of(st)
            &&& (v >> 4u8) & 1 == bit_of(u)
            &&& (v >> 5u8) & 1 == bit_of(d)
            &&& (v >> 6u8) & 1 == bit_of(l)
            &&& (v >> 7u8) & 1 == bit_of(r)
        }),
{
    let v = (bit_of(a) | bit_of(b) << 1u8 | bit_of(se) << 2u8 | bit_of(st) << 3u8 | bit_of(u) << 4u8
        | bit_of(d) << 5u8 | bit_of(l) << 6u8 | bit_of(r) << 7u8) as u8;
    assert(v & 1 == bit_of(a) && (v >> 1u8) & 1 == bit_of(b) && (v >> 2u8) & 1 == bit_of(se) && (v
        >> 3u8) & 1 == bit_of(st) && (v >> 4u8) & 1 == bit_of(u) && (v >> 5u8) & 1 == bit_of(d) && (v
        >> 6u8) & 1 == bit_of(l) && (v >> 7u8) & 1 == bit_of(r)) by (bit_vector)
        requires
            v == (bit_of(a) | bit_of(b) << 1u8 | bit_of(se) << 2u8 | bit_of(st) << 3u8 | bit_of(u)
                << 4u8 | bit_of(d) << 5u8 | bit_of(l) << 6u8 | bit_of(r) << 7u8) as u8,
    ;
}

/// `q` is controller `p` after a write of `val` to $4016: bit 0 drives the strobe;
/// while it is high the buttons are latched and the shift position returns to the
/// first bit.
/// `q` is `p` after a read of its port: the buttons and strobe stay; with the strobe
/// high the report is reloaded and its position kept, else it moves one step.
pub open spec fn after_read(p: Gamepad, q: Gamepad) -> bool {
    &&& q.same_buttons(&p)
    &&& q.strobe == p.strobe
    &&& p.strobe ==> q.latched() == p.button_bits() && q.position() == p.position()
    &&& !p.strobe ==> q.latched() == p.latched() && q.position() == ((p.position() + 1) % 256) as u8
}

pub open spec fn after_write(p: Gamepad, val: u8, q: Gamepad) -> bool {
    &&& q.same_buttons(&p)
    &&& q.strobe == (val & 1 != 0)
    &&& q.strobe ==> q.latched() == p.button_bits() && q.position() == 0
    &&& !q.strobe ==> q.latched() == p.latched() && q.position() == p.position()
}

/// The k-th button in serial order (A, B, Select, Start, Up, Down, Left, Right).
pub open spec fn button_in_order(p: Gamepad, k: u8) -> bool {
    if k == 0 {
        p.a
    } else if k == 1 {
        p.b
    } else if k == 2 {
        p.select
    } else if k == 3 {
        p.start
    } else if k == 4 {
        p.up
    } else if k == 5 {
        p.down
    } else if k == 6 {
        p.left
    } else {
        p.right
    }
}

/// Strobing the controller (writing 1, then 0) latches the buttons and rewinds the shift
/// position; a read at shift position k (the k-th read after the strobe, since each
/// read moves the position by one) then returns the k-th button in serial order, and
/// 1 once all eight have been shifted out.
pub proof fn lemma_strobe_then_reads(p: Gamepad, q1: Gamepad, q2: Gamepad, k: u8)
    requires
        after_write(p, 1, q1),
        after_write(q1, 0, q2),
    ensures
        q2.latched() == p.button_bits(),
        q2.position() == 0,
        !q2.strobe,
        k < 8 ==> Gamepad::shifted_bit(q2.latched(), k) == bit_of(button_in_order(p, k)),
        k >= 8 ==> Gamepad::shifted_bit(q2.latched(), k) == 1,
{
    crate::bits::lemma_byte_bits(1u8);
    crate::bits::lemma_byte_bits(0u8);
    lemma_report_bits(p.a, p.b, p.select, p.start, p.up, p.down, p.left, p.right);
    let v = p.button_bits();
    crate::bits::lemma_byte_bits(v);
    if k == 0 {
        assert(Gamepad::shifted_bit(v, k) == v >> 0u8 & 1);
    } else if k == 1 {
        assert(Gamepad::shifted_bit(v, k) == v >> 1u8 & 1);
    } else if k == 2 {
        assert(Gamepad::shifted_bit(v, k) == v >> 2u8 & 1);
    } else if k == 3 {
        assert(Gamepad::shifted_bit(v, k) == v >> 3u8 & 1);
    } else if k == 4 {
        assert(Gamepad::shifted_bit(v, k) == v >> 4u8 & 1);
    } else if k == 5 {
        assert(Gamepad::shifted_bit(v, k) == v >> 5u8 & 1);
    } else if k == 6 {
        assert(Gamepad::shifted_bit(v, k) == v >> 6u8 & 1);
    } else if k == 7 {
        assert(Gamepad::shifted_bit(v, k) == v >> 7u8 & 1);
    }
}

} // verus!
