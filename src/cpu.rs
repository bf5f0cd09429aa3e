use vstd::prelude::*;

pub mod dispatcher;
pub mod timing;

verus! {

/// One 8-bit register of the processor.
#[derive(Clone, Copy, Debug, PartialEq, Eq, Structural)]
pub struct Register {
    pub value: u8,
}

impl Register {
    pub fn new() -> (r: Self)
        ensures
            r.value == 0,
    {
        Self { value: 0x00 }
    }
}

impl Default for Register {
    fn default() -> (r: Self)
        ensures
            r.value == 0,
    {
        Self::new()
    }
}

/// A 16-bit address register: the program counter or the stack pointer.
#[derive(Clone, Copy, Debug, PartialEq, Eq, Structural)]
pub struct AddressPointer {
    pub address: u16,
}

impl AddressPointer {
    pub fn at(address: u16) -> (r: Self)
        ensures
            r.address == address,
    {
        Self { address }
    }
}

/// The five condition flags of the status register.
#[derive(Clone, Copy, Debug, PartialEq, Eq, Structural)]
pub enum Flag {
    S,
    Z,
    AC,
    P,
    CY,
}

/// The status register. Only five of its eight bits carry meaning; holding
/// them as named booleans keeps the three reserved bits zero by construction.
#[derive(Clone, Copy, Debug, PartialEq, Eq, Structural)]
pub struct Flags {
    pub sign: bool,
    pub zero: bool,
    pub aux_carry: bool,
    pub parity: bool,
    pub carry: bool,
}

pub open spec fn bit(b: bool) -> int {
    if b { 1 } else { 0 }
}

impl Flags {
    pub open spec fn get(self, flag: Flag) -> bool {
        match flag {
            Flag::S => self.sign,
            Flag::Z => self.zero,
            Flag::AC => self.aux_carry,
            Flag::P => self.parity,
            Flag::CY => self.carry,
        }
    }

    pub open spec fn with(self, flag: Flag, value: bool) -> Flags {
        match flag {
            Flag::S => Flags { sign: value, ..self },
            Flag::Z => Flags { zero: value, ..self },
            Flag::AC => Flags { aux_carry: value, ..self },
            Flag::P => Flags { parity: value, ..self },
            Flag::CY => Flags { carry: value, ..self },
        }
    }

    /// The register as the processor lays it out in a byte:
    /// S at bit 7, Z at bit 6, AC at bit 4, P at bit 2, CY at bit 0.
    pub open spec fn byte(self) -> int {
        128 * bit(self.sign) + 64 * bit(self.zero) + 16 * bit(self.aux_carry) + 4 * bit(
            self.parity,
        ) + bit(self.carry)
    }

    /// The flags that a status byte holds; its reserved bits 5, 3 and 1 are dropped.
    pub open spec fn from_byte_spec(b: u8) -> Flags {
        Flags {
            sign: (b / 128) % 2 == 1,
            zero: (b / 64) % 2 == 1,
            aux_carry: (b / 16) % 2 == 1,
            parity: (b / 4) % 2 == 1,
            carry: b % 2 == 1,
        }
    }

    pub open spec fn cleared() -> Flags {
        Flags { sign: false, zero: false, aux_carry: false, parity: false, carry: false }
    }

    pub fn new() -> (r: Self)
        ensures
            r == Flags::cleared(),
    {
        Self { sign: false, zero: false, aux_carry: false, parity: false, carry: false }
    }

    pub fn set_flag(&mut self, flag: Flag)
        ensures
            *final(self) == old(self).with(flag, true),
    {
        match flag {
            Flag::S => self.sign = true,
            Flag::Z => self.zero = true,
            Flag::AC => self.aux_carry = true,
            Flag::P => self.parity = true,
            Flag::CY => self.carry = true,
        }
    }

    pub fn clear_flag(&mut self, flag: Flag)
        ensures
            *final(self) == old(self).with(flag, false),
    {
        match flag {
            Flag::S => self.sign = false,
            Flag::Z => self.zero = false,
            Flag::AC => self.aux_carry = false,
            Flag::P => self.parity = false,
            Flag::CY => self.carry = false,
        }
    }

    /// 1 when the flag is set, 0 when it is clear.
    pub fn check_flag(&self, flag: Flag) -> (r: u8)
        ensures
            r == bit(self.get(flag)),
    {
        let set: bool = match flag {
            Flag::S => self.sign,
            Flag::Z => self.zero,
            Flag::AC => self.aux_carry,
            Flag::P => self.parity,
            Flag::CY => self.carry,
        };
        if set { 1 } else { 0 }
    }

    pub fn clear_flags(&mut self)
        ensures
            *final(self) == Flags::cleared(),
    {
        *self = Flags::new();
    }

    /// The status byte, as pushed by `PUSH PSW`; the reserved bits are zero.
    pub fn to_byte(&self) -> (r: u8)
        ensures
            r == self.byte(),
    {
        let mut r: u8 = 0;
        if self.sign { r = r + 128; }
        if self.zero { r = r + 64; }
        if self.aux_carry { r = r + 16; }
        if self.parity { r = r + 4; }
        if self.carry { r = r + 1; }
        r
    }

    /// The flags held in a status byte, as popped by `POP PSW`.
    pub fn from_byte(b: u8) -> (r: Self)
        ensures
            r == Flags::from_byte_spec(b),
    {
        Flags {
            sign: (b / 128) % 2 == 1,
            zero: (b / 64) % 2 == 1,
            aux_carry: (b / 16) % 2 == 1,
            parity: (b / 4) % 2 == 1,
            carry: b % 2 == 1,
        }
    }
}

impl Default for Flags {
    fn default() -> (r: Self)
        ensures
            r == Flags::cleared(),
    {
        Flags::new()
    }
}

/// The status byte of any flag register has its reserved bits 5, 3 and 1
/// clear, and reading it back gives the same flags.
pub proof fn lemma_flags_byte_round_trip(f: Flags)
    ensures
        0 <= f.byte() < 256,
        (f.byte() / 32) % 2 == 0,
        (f.byte() / 8) % 2 == 0,
        (f.byte() / 2) % 2 == 0,
        Flags::from_byte_spec(f.byte() as u8) == f,
{
}

/// Number of addressable bytes.
pub const MEMORY_SIZE: usize = 0x10000;
/// First address past the code region; a ROM must fit below it.
pub const RAM_START: u16 = 0x2000;
/// Lowest address the stack may reach before it runs out of working RAM.
pub const STACK_MIN: u16 = 0x2001;
/// First address of video memory; the stack grows downward from here.
pub const VRAM_START: u16 = 0x2400;
/// First address past video memory.
pub const VRAM_END: u16 = 0x4000;

/// The 64K address space as a flat byte array.
pub struct Memory {
    held_memory: [u8; MEMORY_SIZE],
}

impl View for Memory {
    type V = Seq<u8>;

    closed spec fn view(&self) -> Seq<u8> {
        self.held_memory@
    }
}

/// The content of memory at power-on.
pub open spec fn zeroed() -> Seq<u8> {
    Seq::new(MEMORY_SIZE as nat, |i: int| 0u8)
}

/// Every address of the 16-bit space has a byte.
pub broadcast proof fn lemma_memory_size(m: &Memory)
    ensures
        #[trigger] m@.len() == MEMORY_SIZE,
{
}

impl Memory {
    pub fn init() -> (r: Self)
        ensures
            r@ == zeroed(),
    {
        let r = Self { held_memory: [0x00u8; MEMORY_SIZE] };
        assert(r@ =~= zeroed());
        r
    }

    /// The bit-packed video memory, `0x2400..0x4000`.
    pub fn read_vram(&self) -> (r: &[u8])
        ensures
            r@ == self@.subrange(VRAM_START as int, VRAM_END as int),
    {
        let r = vstd::slice::slice_subrange(
            self.held_memory.as_slice(),
            VRAM_START as usize,
            VRAM_END as usize,
        );
        assert(r@ =~= self@.subrange(VRAM_START as int, VRAM_END as int));
        r
    }

    pub fn read_at(&self, addr: u16) -> (r: u8)
        ensures
            r == self@[addr as int],
    {
        self.held_memory[addr as usize]
    }

    pub fn write_at(&mut self, addr: u16, byte: u8)
        ensures
            final(self)@ == old(self)@.update(addr as int, byte),
    {
        self.held_memory[addr as usize] = byte;
        assert(self@ =~= old(self)@.update(addr as int, byte));
    }

    /// Copies `rom` into memory from `offset` on; it has to fit in the code region.
    pub fn load_rom(&mut self, rom: &[u8], offset: u16)
        requires
            offset + rom@.len() <= RAM_START,
        ensures
            forall|i: int|
                0 <= i < MEMORY_SIZE ==> #[trigger] final(self)@[i] == if offset <= i < offset
                    + rom@.len() {
                    rom@[i - offset]
                } else {
                    old(self)@[i]
                },
    {
        let mut index: usize = 0;
        while index < rom.len()
            invariant
                index <= rom@.len(),
                offset + rom@.len() <= RAM_START,
                forall|i: int|
                    0 <= i < MEMORY_SIZE ==> #[trigger] self@[i] == if offset <= i < offset
                        + index {
                        rom@[i - offset]
                    } else {
                        old(self)@[i]
                    },
            decreases rom@.len() - index,
        {
            self.write_at(offset + index as u16, rom[index]);
            index = index + 1;
        }
    }
}

/// Number of set bits.
pub open spec fn popcount(b: nat) -> nat
    decreases b,
{
    if b == 0 {
        0
    } else {
        b % 2 + popcount(b / 2)
    }
}

/// A byte has even parity when its number of set bits is even.
pub open spec fn even_parity(b: u8) -> bool {
    popcount(b as nat) % 2 == 0
}

proof fn lemma_popcount_bounded(n: nat)
    ensures
        popcount(n) <= n,
    decreases n,
{
    if n > 0 {
        lemma_popcount_bounded(n / 2);
    }
}

fn has_even_parity(b: u8) -> (r: bool)
    ensures
        r == even_parity(b),
{
    let mut rest: u8 = b;
    let mut ones: u8 = 0;
    proof {
        lemma_popcount_bounded(b as nat);
    }
    while rest > 0
        invariant
            popcount(b as nat) <= b,
            ones + popcount(rest as nat) == popcount(b as nat),
        decreases rest,
    {
        assert(popcount(rest as nat) == rest % 2 + popcount((rest / 2) as nat));
        ones = ones + rest % 2;
        rest = rest / 2;
    }
    ones % 2 == 0
}

/// The low byte of an integer, in two's complement for negative values.
pub open spec fn wrap8(x: int) -> u8 {
    (x % 256) as u8
}

/// An integer taken modulo the 16-bit address space.
pub open spec fn wrap16(x: int) -> u16 {
    (x % 65536) as u16
}

/// The flags that an arithmetic result sets, given as the exact (signed,
/// unwrapped) value of the operation: Zero and Parity look at the result byte,
/// Sign at the sign of the exact value, Carry at whether it leaves `0..=255`.
pub open spec fn flags_from(raw: int) -> Flags {
    Flags {
        sign: raw < 0,
        zero: wrap8(raw) == 0,
        aux_carry: false,
        parity: even_parity(wrap8(raw)),
        carry: raw < 0 || raw > 255,
    }
}

/// The flags that a logical operation sets: those of its result, except that
/// a result of exactly `0x80` also sets Sign.
pub open spec fn logic_flags(r: u8) -> Flags {
    Flags { sign: r == 0x80, ..flags_from(r as int) }
}

/// The high and the low byte of a 16-bit value.
pub open spec fn split(v: u16) -> (u8, u8) {
    ((v / 256) as u8, (v % 256) as u8)
}

/// The 16-bit value with high byte `hi` and low byte `lo`.
pub open spec fn pair(hi: u8, lo: u8) -> u16 {
    (hi * 256 + lo) as u16
}

/// Recomputes all flags from the exact result of an arithmetic operation;
/// the flags passed in are replaced as a whole.
pub fn set_flags_from_operation(result: i16, flags: Flags) -> (r: Flags)
    ensures
        r == flags_from(result as int),
{
    let mut return_flags: Flags = flags;
    return_flags.clear_flags();
    let wide: i32 = result as i32 + 65536;
    let low: u8 = (wide % 256) as u8;
    assert(low == wrap8(result as int));
    if low == 0 {
        return_flags.set_flag(Flag::Z);
    }
    if result < 0 {
        return_flags.set_flag(Flag::S);
    }
    if has_even_parity(low) {
        return_flags.set_flag(Flag::P);
    }
    if result > 255 || result < 0 {
        return_flags.set_flag(Flag::CY);
    }
    return_flags
}

/// `x + y`; all flags are recomputed from the sum.
pub fn add(reg_1: u8, reg_2: u8, flags: &mut Flags) -> (r: u8)
    ensures
        r == wrap8(reg_1 + reg_2),
        *final(flags) == flags_from(reg_1 + reg_2),
{
    let result: i16 = reg_1 as i16 + reg_2 as i16;
    *flags = set_flags_from_operation(result, *flags);
    (result % 256) as u8
}

/// `x + y + CY`; all flags are recomputed from the sum.
pub fn adc(reg_1: u8, reg_2: u8, flags: &mut Flags) -> (r: u8)
    ensures
        r == wrap8(reg_1 + reg_2 + bit(old(flags).carry)),
        *final(flags) == flags_from(reg_1 + reg_2 + bit(old(flags).carry)),
{
    let carry: u8 = flags.check_flag(Flag::CY);
    let result: i16 = reg_1 as i16 + reg_2 as i16 + carry as i16;
    *flags = set_flags_from_operation(result, *flags);
    (result % 256) as u8
}

/// `x - y`; all flags are recomputed from the difference, Carry standing for a borrow.
pub fn sub(reg_1: u8, reg_2: u8, flags: &mut Flags) -> (r: u8)
    ensures
        r == wrap8(reg_1 - reg_2),
        *final(flags) == flags_from(reg_1 - reg_2),
{
    let result: i16 = reg_1 as i16 - reg_2 as i16;
    *flags = set_flags_from_operation(result, *flags);
    ((result + 256) % 256) as u8
}

/// `x - y - CY`; all flags are recomputed from the difference.
pub fn sbb(reg_1: u8, reg_2: u8, flags: &mut Flags) -> (r: u8)
    ensures
        r == wrap8(reg_1 - reg_2 - bit(old(flags).carry)),
        *final(flags) == flags_from(reg_1 - reg_2 - bit(old(flags).carry)),
{
    let carry: u8 = flags.check_flag(Flag::CY);
    let result: i16 = reg_1 as i16 - reg_2 as i16 - carry as i16;
    *flags = set_flags_from_operation(result, *flags);
    ((result + 512) % 256) as u8
}

/// Bitwise and.
pub fn and(reg_1: u8, reg_2: u8, flags: &mut Flags) -> (r: u8)
    ensures
        r == reg_1 & reg_2,
        *final(flags) == logic_flags(r),
{
    let result: u8 = reg_1 & reg_2;
    *flags = set_flags_from_operation(result as i16, *flags);
    if result == 0b1000_0000 {
        flags.set_flag(Flag::S);
    }
    result
}

/// Bitwise exclusive or.
pub fn xor(reg_1: u8, reg_2: u8, flags: &mut Flags) -> (r: u8)
    ensures
        r == reg_1 ^ reg_2,
        *final(flags) == logic_flags(r),
{
    let result: u8 = reg_1 ^ reg_2;
    *flags = set_flags_from_operation(result as i16, *flags);
    if result == 0b1000_0000 {
        flags.set_flag(Flag::S);
    }
    result
}

/// Bitwise or.
pub fn or(reg_1: u8, reg_2: u8, flags: &mut Flags) -> (r: u8)
    ensures
        r == reg_1 | reg_2,
        *final(flags) == logic_flags(r),
{
    let result: u8 = reg_1 | reg_2;
    *flags = set_flags_from_operation(result as i16, *flags);
    if result == 0b1000_0000 {
        flags.set_flag(Flag::S);
    }
    result
}

/// Sets the flags as `x - y` would and discards the difference: Zero when the
/// operands are equal, Carry when `x < y`.
pub fn cmp(reg_1: u8, reg_2: u8, flags: &mut Flags)
    ensures
        *final(flags) == flags_from(reg_1 - reg_2),
        final(flags).zero == (reg_1 == reg_2),
        final(flags).carry == (reg_1 < reg_2),
{
    let result: i16 = reg_1 as i16 - reg_2 as i16;
    *flags = set_flags_from_operation(result, *flags);
}

/// Increments a register; Carry keeps its value, the other flags follow the sum.
pub fn inr(reg: u8, flags: &mut Flags) -> (r: u8)
    ensures
        r == wrap8(reg + 1),
        *final(flags) == flags_from(reg + 1).with(Flag::CY, old(flags).carry),
{
    let carry: u8 = flags.check_flag(Flag::CY);
    let result: u8 = crate::cpu::add(reg, 1, flags);
    if carry == 1 {
        flags.set_flag(Flag::CY);
    } else {
        flags.clear_flag(Flag::CY);
    }
    result
}

/// Decrements a register; Carry keeps its value, the other flags follow the difference.
pub fn dcr(reg: u8, flags: &mut Flags) -> (r: u8)
    ensures
        r == wrap8(reg - 1),
        *final(flags) == flags_from(reg - 1).with(Flag::CY, old(flags).carry),
{
    let carry: u8 = flags.check_flag(Flag::CY);
    let result: u8 = crate::cpu::sub(reg, 1, flags);
    if carry == 1 {
        flags.set_flag(Flag::CY);
    } else {
        flags.clear_flag(Flag::CY);
    }
    result
}

/// Increments a register pair, wrapping at 16 bits; returns its high and low byte.
pub fn inx(reg_pair: u16) -> (r: (u8, u8))
    ensures
        r == split(wrap16(reg_pair + 1)),
{
    let result: u16 = if reg_pair == 0xffff { 0 } else { reg_pair + 1 };
    split_register_pair(result)
}

/// Decrements a register pair, wrapping at 16 bits; returns its high and low byte.
pub fn dcx(reg_pair: u16) -> (r: (u8, u8))
    ensures
        r == split(wrap16(reg_pair - 1)),
{
    let result: u16 = if reg_pair == 0 { 0xffff } else { reg_pair - 1 };
    split_register_pair(result)
}

/// Adds a register pair to HL; only Carry changes, set when the sum passes 16 bits.
pub fn dad(hl_pair: u16, reg_pair: u16, flags: &mut Flags) -> (r: (u8, u8))
    ensures
        r == split(wrap16(hl_pair + reg_pair)),
        *final(flags) == old(flags).with(Flag::CY, hl_pair + reg_pair > 0xffff),
{
    let result: u32 = hl_pair as u32 + reg_pair as u32;
    if result > 0xffff {
        flags.set_flag(Flag::CY);
    } else {
        flags.clear_flag(Flag::CY);
    }
    split_register_pair((result % 0x10000) as u16)
}

/// Rotates one bit right. Bit 0 becomes Carry; bit 7 receives bit 0, or the
/// previous Carry when rotating through it.
pub fn rotate_right(reg: u8, through_carry: bool, flags: &mut Flags) -> (r: u8)
    ensures
        r == reg / 2 + 128 * (if through_carry {
            bit(old(flags).carry)
        } else {
            (reg % 2) as int
        }),
        *final(flags) == old(flags).with(Flag::CY, reg % 2 == 1),
{
    let high: u8 = if through_carry { flags.check_flag(Flag::CY) } else { reg % 2 };
    let result: u8 = reg / 2 + 128 * high;
    if reg % 2 == 1 {
        flags.set_flag(Flag::CY);
    } else {
        flags.clear_flag(Flag::CY);
    }
    result
}

/// Rotates one bit left. Bit 7 becomes Carry; bit 0 receives bit 7, or the
/// previous Carry when rotating through it.
pub fn rotate_left(reg: u8, through_carry: bool, flags: &mut Flags) -> (r: u8)
    ensures
        r == wrap8(2 * reg) + (if through_carry {
            bit(old(flags).carry)
        } else {
            (reg / 128) as int
        }),
        *final(flags) == old(flags).with(Flag::CY, reg >= 128),
{
    let low: u8 = if through_carry { flags.check_flag(Flag::CY) } else { reg / 128 };
    let result: u8 = (reg % 128) * 2 + low;
    if reg >= 128 {
        flags.set_flag(Flag::CY);
    } else {
        flags.clear_flag(Flag::CY);
    }
    result
}

/// Combines two registers into one 16-bit value, the first one high.
pub fn pair_registers(reg_1: u8, reg_2: u8) -> (r: u16)
    ensures
        r == pair(reg_1, reg_2),
        r == reg_1 * 256 + reg_2,
{
    reg_1 as u16 * 256 + reg_2 as u16
}

/// Splits a 16-bit value into its high and low byte.
pub fn split_register_pair(reg_pair: u16) -> (r: (u8, u8))
    ensures
        r == split(reg_pair),
        pair(r.0, r.1) == reg_pair,
{
    ((reg_pair / 256) as u8, (reg_pair % 256) as u8)
}

/// The address held in a pair of registers, the first one high.
pub fn construct_address(h: Register, l: Register) -> (r: u16)
    ensures
        r == pair(h.value, l.value),
{
    pair_registers(h.value, l.value)
}

pub fn swap_registers(reg_1: u8, reg_2: u8) -> (r: (u8, u8))
    ensures
        r == (reg_2, reg_1),
{
    (reg_2, reg_1)
}

/// Memory after pushing `data` at `sp`: its first byte goes to `sp - 1`, its
/// second to `sp - 2`, addresses wrapping around the 16-bit space.
pub open spec fn pushed(mem: Seq<u8>, sp: u16, data: (u8, u8)) -> Seq<u8> {
    mem.update(wrap16(sp - 1) as int, data.0).update(wrap16(sp - 2) as int, data.1)
}

/// The pair on top of the stack: the byte at `sp + 1`, then the byte at `sp`.
pub open spec fn popped_pair(mem: Seq<u8>, sp: u16) -> (u8, u8) {
    (mem[wrap16(sp + 1) as int], mem[sp as int])
}

/// Memory after a pop at `sp`: the two vacated bytes are zeroed.
pub open spec fn popped(mem: Seq<u8>, sp: u16) -> Seq<u8> {
    mem.update(wrap16(sp + 1) as int, 0).update(sp as int, 0)
}

/// A branch with no condition, or a condition that holds, is taken.
pub open spec fn taken(condition: Option<bool>) -> bool {
    condition != Some(false)
}

/// Pushes a pair onto the stack, first byte at the higher address, and moves
/// the stack pointer down by two.
pub fn push(data_bytes: (u8, u8), stack_pointer: &mut AddressPointer, memory: &mut Memory)
    ensures
        final(stack_pointer).address == wrap16(old(stack_pointer).address - 2),
        final(memory)@ == pushed(old(memory)@, old(stack_pointer).address, data_bytes),
{
    let sp: u16 = stack_pointer.address;
    let above: u16 = if sp >= 1 { sp - 1 } else { 0xffff };
    let top: u16 = if sp >= 2 { sp - 2 } else { sp + 0xfffe };
    memory.write_at(above, data_bytes.0);
    memory.write_at(top, data_bytes.1);
    stack_pointer.address = top;
}

/// Takes the pair off the top of the stack, zeroing its bytes, and moves the
/// stack pointer up by two.
pub fn pop(stack_pointer: &mut AddressPointer, memory: &mut Memory) -> (r: (u8, u8))
    ensures
        r == popped_pair(old(memory)@, old(stack_pointer).address),
        final(stack_pointer).address == wrap16(old(stack_pointer).address + 2),
        final(memory)@ == popped(old(memory)@, old(stack_pointer).address),
{
    let sp: u16 = stack_pointer.address;
    let above: u16 = if sp < 0xffff { sp + 1 } else { 0 };
    let byte_1: u8 = memory.read_at(above);
    let byte_2: u8 = memory.read_at(sp);
    memory.write_at(above, 0x00);
    memory.write_at(sp, 0x00);
    stack_pointer.address = if sp < 0xfffe { sp + 2 } else { sp - 0xfffe };
    (byte_1, byte_2)
}

/// The target of a jump whose operand bytes come low byte first, when the
/// condition is absent or holds; `None` when the jump is not taken.
pub fn jmp(address_bytes: (u8, u8), condition: Option<bool>) -> (r: Option<u16>)
    ensures
        r == if taken(condition) {
            Some(pair(address_bytes.1, address_bytes.0))
        } else {
            None::<u16>
        },
{
    let go: bool = match condition {
        Some(c) => c,
        None => true,
    };
    if go {
        Some(pair_registers(address_bytes.1, address_bytes.0))
    } else {
        None
    }
}

/// A conditional jump that, when taken, first pushes `return_address` (high
/// byte at the higher address). Nothing changes when it is not taken.
pub fn call(
    address_bytes: (u8, u8),
    condition: Option<bool>,
    stack_pointer: &mut AddressPointer,
    memory: &mut Memory,
    return_address: u16,
) -> (r: Option<u16>)
    ensures
        r == if taken(condition) {
            Some(pair(address_bytes.1, address_bytes.0))
        } else {
            None::<u16>
        },
        taken(condition) ==> final(stack_pointer).address == wrap16(
            old(stack_pointer).address - 2,
        ) && final(memory)@ == pushed(
            old(memory)@,
            old(stack_pointer).address,
            split(return_address),
        ),
        !taken(condition) ==> *final(stack_pointer) == *old(stack_pointer) && final(memory)@
            == old(memory)@,
{
    let jmp_address: Option<u16> = jmp(address_bytes, condition);
    match jmp_address {
        Some(_) => {
            let return_address_bytes: (u8, u8) = split_register_pair(return_address);
            push(return_address_bytes, stack_pointer, memory);
        },
        None => {},
    }
    jmp_address
}

/// When the condition is absent or holds, pops the return address off the
/// stack and gives it back; otherwise changes nothing and gives `None`.
pub fn ret(condition: Option<bool>, stack_pointer: &mut AddressPointer, memory: &mut Memory) -> (r:
    Option<u16>)
    ensures
        r == if taken(condition) {
            Some(
                pair(
                    popped_pair(old(memory)@, old(stack_pointer).address).0,
                    popped_pair(old(memory)@, old(stack_pointer).address).1,
                ),
            )
        } else {
            None::<u16>
        },
        taken(condition) ==> final(stack_pointer).address == wrap16(
            old(stack_pointer).address + 2,
        ) && final(memory)@ == popped(old(memory)@, old(stack_pointer).address),
        !taken(condition) ==> *final(stack_pointer) == *old(stack_pointer) && final(memory)@
            == old(memory)@,
{
    let go: bool = match condition {
        Some(c) => c,
        None => true,
    };
    if go {
        let return_address_bytes: (u8, u8) = pop(stack_pointer, memory);
        Some(pair_registers(return_address_bytes.0, return_address_bytes.1))
    } else {
        None
    }
}

/// Popping right after a push gives back the pushed pair and restores the
/// stack pointer, for every pair, stack pointer and memory content.
pub proof fn lemma_push_pop_round_trip(data: (u8, u8), sp: u16, mem: Seq<u8>)
    requires
        mem.len() == MEMORY_SIZE,
    ensures
        popped_pair(pushed(mem, sp, data), wrap16(sp - 2)) == data,
        wrap16(wrap16(sp - 2) + 2) == sp,
{
}

/// An unconditional return right after an unconditional call gives back the
/// return address the call pushed and restores the stack pointer.
pub proof fn lemma_call_ret_symmetry(return_address: u16, sp: u16, mem: Seq<u8>)
    requires
        mem.len() == MEMORY_SIZE,
    ensures
        ({
            let (hi, lo) = popped_pair(pushed(mem, sp, split(return_address)), wrap16(sp - 2));
            pair(hi, lo) == return_address
        }),
        wrap16(wrap16(sp - 2) + 2) == sp,
{
    lemma_push_pop_round_trip(split(return_address), sp, mem);
}

/// The whole machine state of the processor.
pub struct Cpu {
    pub a: Register,
    pub b: Register,
    pub c: Register,
    pub d: Register,
    pub e: Register,
    pub h: Register,
    pub l: Register,
    pub sp: AddressPointer,
    pub pc: AddressPointer,
    pub memory: Memory,
    pub flags: Flags,
    pub interrupt_enabled: bool,
}

/// The processor state as plain values.
pub struct CpuView {
    pub a: u8,
    pub b: u8,
    pub c: u8,
    pub d: u8,
    pub e: u8,
    pub h: u8,
    pub l: u8,
    pub sp: u16,
    pub pc: u16,
    pub memory: Seq<u8>,
    pub flags: Flags,
    pub interrupt_enabled: bool,
}

impl View for Cpu {
    type V = CpuView;

    open spec fn view(&self) -> CpuView {
        CpuView {
            a: self.a.value,
            b: self.b.value,
            c: self.c.value,
            d: self.d.value,
            e: self.e.value,
            h: self.h.value,
            l: self.l.value,
            sp: self.sp.address,
            pc: self.pc.address,
            memory: self.memory@,
            flags: self.flags,
            interrupt_enabled: self.interrupt_enabled,
        }
    }
}

/// The state at power-on: registers and memory zero, the stack pointer at the
/// top of working RAM, execution from address 0, interrupts enabled.
pub open spec fn power_on() -> CpuView {
    CpuView {
        a: 0,
        b: 0,
        c: 0,
        d: 0,
        e: 0,
        h: 0,
        l: 0,
        sp: VRAM_START,
        pc: 0,
        memory: zeroed(),
        flags: Flags::cleared(),
        interrupt_enabled: true,
    }
}

impl Cpu {
    pub fn init() -> (r: Self)
        ensures
            r@ == power_on(),
    {
        Self {
            a: Register::default(),
            b: Register::default(),
            c: Register::default(),
            d: Register::default(),
            e: Register::default(),
            h: Register::default(),
            l: Register::default(),
            sp: AddressPointer::at(VRAM_START),
            pc: AddressPointer::at(0x0000),
            memory: Memory::init(),
            flags: Flags::default(),
            interrupt_enabled: true,
        }
    }

    pub fn reset(&mut self)
        ensures
            final(self)@ == power_on(),
    {
        *self = Cpu::init();
    }

    /// Whether the stack has grown below working RAM. This is not fatal:
    /// addresses wrap, so every access stays in range.
    pub fn check_stack_overflow(&self) -> (r: bool)
        ensures
            r == (self.sp.address < STACK_MIN),
    {
        self.sp.address < STACK_MIN
    }

    pub fn debug_stack_pointer(&self) -> (r: u16)
        ensures
            r == self.sp.address,
    {
        self.sp.address
    }

    pub fn debug_program_counter(&self) -> (r: u16)
        ensures
            r == self.pc.address,
    {
        self.pc.address
    }

    pub fn debug_c(&self) -> (r: u8)
        ensures
            r == self.c.value,
    {
        self.c.value
    }

    pub fn debug_d(&self) -> (r: u8)
        ensures
            r == self.d.value,
    {
        self.d.value
    }

    pub fn debug_e(&self) -> (r: u8)
        ensures
            r == self.e.value,
    {
        self.e.value
    }
}

/// When interrupts are enabled, executes `op_code` (normally one of the `RST`
/// instructions) as if it had been fetched; otherwise does nothing.
pub fn generate_interrupt(op_code: u8, cpu: &mut Cpu)
    ensures
        old(cpu).interrupt_enabled ==> final(cpu)@ == dispatcher::execute(op_code, old(cpu)@).1,
        !old(cpu).interrupt_enabled ==> final(cpu)@ == old(cpu)@,
{
    if cpu.interrupt_enabled {
        let _ = dispatcher::handle_op_code(op_code, cpu);
    }
}

} // verus!
