use vstd::prelude::*;

verus! {

/// The board's I/O ports, named as the Space Invaders hardware documents them.
#[allow(non_camel_case_types)]
#[derive(Clone, Copy, Debug, PartialEq, Eq, Structural)]
pub enum Port {
    /// Read: coin, start buttons, player one's controls.
    INP1,
    /// Read: dip switches and player two's controls.
    INP2,
    /// Read: the window of the shift register.
    SHFTIN,
    /// Write: the offset of the window read through `SHFTIN`.
    SHFTAMNT,
    /// Write: sound effects.
    SOUND1,
    /// Write: a byte shifted into the shift register.
    SHFTDATA,
    /// Write: more sound effects.
    SOUND2,
    /// Write: the watchdog.
    WATCHDOG,
}

/// The byte registers behind the ports.
#[derive(Clone, Copy, Debug, PartialEq, Eq, Structural)]
pub struct Ports {
    pub input_1: u8,
    pub input_2: u8,
    pub shift_result: u8,
    pub shift_amount: u8,
    pub sound_1: u8,
    pub shift_data: u8,
    pub sound_2: u8,
    pub watchdog: u8,
}

impl Ports {
    pub open spec fn zeroed() -> Ports {
        Ports {
            input_1: 0,
            input_2: 0,
            shift_result: 0,
            shift_amount: 0,
            sound_1: 0,
            shift_data: 0,
            sound_2: 0,
            watchdog: 0,
        }
    }

    pub fn new() -> (r: Self)
        ensures
            r == Ports::zeroed(),
    {
        Self {
            input_1: 0x00,
            input_2: 0x00,
            shift_result: 0x00,
            shift_amount: 0x00,
            sound_1: 0x00,
            shift_data: 0x00,
            sound_2: 0x00,
            watchdog: 0x00,
        }
    }
}

impl Default for Ports {
    fn default() -> (r: Self)
        ensures
            r == Ports::zeroed(),
    {
        Self::new()
    }
}

/// The I/O devices of the board: the port registers and the 16-bit shift
/// register used to position sprites.
#[derive(Clone, Copy, Debug, PartialEq, Eq, Structural)]
pub struct Hardware {
    pub shift_register: u16,
    pub ports: Ports,
}

impl Hardware {
    pub open spec fn powered_on() -> Hardware {
        Hardware { shift_register: 0, ports: Ports::zeroed() }
    }

    pub fn init() -> (r: Self)
        ensures
            r == Hardware::powered_on(),
    {
        Self { shift_register: 0x0000, ports: Ports::default() }
    }

    pub fn reset(&mut self)
        ensures
            *final(self) == Hardware::powered_on(),
    {
        *self = Hardware::default();
    }

    pub fn debug_input1(&self) -> (r: u8)
        ensures
            r == self.ports.input_1,
    {
        self.ports.input_1
    }

    pub fn debug_input2(&self) -> (r: u8)
        ensures
            r == self.ports.input_2,
    {
        self.ports.input_2
    }
}

impl Default for Hardware {
    fn default() -> (r: Self)
        ensures
            r == Hardware::powered_on(),
    {
        Self::init()
    }
}

/// An input port byte with bit `bit` set while its control is held, and
/// cleared otherwise; the other bits are kept.
pub fn with_input_bit(port_value: u8, bit: u8, pressed: bool) -> (r: u8)
    requires
        bit < 8,
    ensures
        r == if pressed {
            port_value | (1u8 << bit)
        } else {
            port_value & !(1u8 << bit)
        },
{
    if pressed {
        port_value | (1u8 << bit)
    } else {
        port_value & !(1u8 << bit)
    }
}

/// `OUT` opcode.
pub const OUT: u8 = 0xd3;
/// `IN` opcode.
pub const IN: u8 = 0xdb;

pub open spec fn is_read_port(port: Port) -> bool {
    port == Port::INP1 || port == Port::INP2 || port == Port::SHFTIN
}

pub open spec fn is_write_port(port: Port) -> bool {
    !is_read_port(port)
}

/// The port that `OUT n` writes.
pub open spec fn out_port(port_byte: u8) -> Option<Port> {
    if port_byte == 2 {
        Some(Port::SHFTAMNT)
    } else if port_byte == 3 {
        Some(Port::SOUND1)
    } else if port_byte == 4 {
        Some(Port::SHFTDATA)
    } else if port_byte == 5 {
        Some(Port::SOUND2)
    } else if port_byte == 6 {
        Some(Port::WATCHDOG)
    } else {
        None
    }
}

/// The port that `IN n` reads.
pub open spec fn in_port(port_byte: u8) -> Option<Port> {
    if port_byte == 1 {
        Some(Port::INP1)
    } else if port_byte == 2 {
        Some(Port::INP2)
    } else if port_byte == 3 {
        Some(Port::SHFTIN)
    } else {
        None
    }
}

/// The instructions this board answers: `OUT` to ports 2 to 6, `IN` from ports 1 to 3.
pub open spec fn io_supported(op_code: u8, port_byte: u8) -> bool {
    ||| op_code == OUT && out_port(port_byte) is Some
    ||| op_code == IN && in_port(port_byte) is Some
}

/// Whether the board answers `op_code` with the port byte `port_byte`.
pub fn is_supported_io(op_code: u8, port_byte: u8) -> (r: bool)
    ensures
        r == io_supported(op_code, port_byte),
{
    (op_code == OUT && 2 <= port_byte && port_byte <= 6) || (op_code == IN && 1 <= port_byte
        && port_byte <= 3)
}

/// The shift register after `v` is shifted in: `v` becomes the high byte and
/// the previous high byte becomes the low byte.
pub open spec fn shifted_in(register: u16, v: u8) -> u16 {
    ((v as u16) << 8u16) | (register >> 8u16)
}

/// The 8-bit window of the shift register at the 3-bit offset `amount`.
pub open spec fn shift_window(register: u16, amount: u8) -> u8 {
    ((register >> (8 - (amount & 7)) as u16) & 0xff) as u8
}

/// Two writes to the shift-data port leave exactly those two bytes in the
/// register, the later one high, whatever it held before.
pub proof fn lemma_two_writes_fill_register(register: u16, first: u8, second: u8)
    ensures
        shifted_in(shifted_in(register, first), second) == second * 256 + first,
{
    assert(shifted_in(shifted_in(register, first), second) == (second as u16) * 256 + (
    first as u16)) by (bit_vector);
}

/// The window read through the shift-result port is the top byte of the
/// register once it is aligned left by the 3-bit shift amount.
pub proof fn lemma_window_is_left_aligned_top_byte(register: u16, amount: u8)
    ensures
        shift_window(register, amount) == (((register as u32) << (amount & 7) as u32) >> 8u32)
            & 0xff,
{
    assert(shift_window(register, amount) == (((register as u32) << (amount & 7) as u32)
        >> 8u32) & 0xff) by (bit_vector);
}

/// The devices after `v` is written to the write port `port`.
pub open spec fn written(h: Hardware, port: Port, v: u8) -> Hardware {
    match port {
        Port::SHFTAMNT => Hardware { ports: Ports { shift_amount: v, ..h.ports }, ..h },
        Port::SOUND1 => Hardware { ports: Ports { sound_1: v, ..h.ports }, ..h },
        Port::SHFTDATA => Hardware { shift_register: shifted_in(h.shift_register, v), ..h },
        Port::SOUND2 => Hardware { ports: Ports { sound_2: v, ..h.ports }, ..h },
        Port::WATCHDOG => Hardware { ports: Ports { watchdog: v, ..h.ports }, ..h },
        _ => h,
    }
}

/// What reading the read port `port` gives.
pub open spec fn port_value(h: Hardware, port: Port) -> u8 {
    match port {
        Port::INP1 => h.ports.input_1,
        Port::INP2 => h.ports.input_2,
        _ => shift_window(h.shift_register, h.ports.shift_amount),
    }
}

/// Executes `OUT port_byte` (giving `None`) or `IN port_byte` (giving the value
/// that the caller loads into the accumulator).
pub fn handle_io(op_code: u8, hardware: &mut Hardware, port_byte: u8, reg_a: u8) -> (r: Option<
    u8,
>)
    requires
        io_supported(op_code, port_byte),
    ensures
        op_code == OUT ==> r is None && *final(hardware) == written(
            *old(hardware),
            out_port(port_byte)->0,
            reg_a,
        ),
        op_code == IN ==> r == Some(port_value(*old(hardware), in_port(port_byte)->0))
            && *final(hardware) == *old(hardware),
{
    if op_code == OUT {
        let port: Port = match port_byte {
            2 => Port::SHFTAMNT,
            3 => Port::SOUND1,
            4 => Port::SHFTDATA,
            5 => Port::SOUND2,
            _ => Port::WATCHDOG,
        };
        write_port(reg_a, port, hardware);
        None
    } else {
        let port: Port = match port_byte {
            1 => Port::INP1,
            2 => Port::INP2,
            _ => Port::SHFTIN,
        };
        Some(read_port(port, hardware))
    }
}

/// Writes `write_value` to one of the write ports.
pub fn write_port(write_value: u8, port: Port, hardware: &mut Hardware)
    requires
        is_write_port(port),
    ensures
        *final(hardware) == written(*old(hardware), port, write_value),
{
    match port {
        Port::SHFTAMNT => hardware.ports.shift_amount = write_value,
        Port::SOUND1 => hardware.ports.sound_1 = write_value,
        Port::SHFTDATA => hardware.shift_register = ((write_value as u16) << 8u16) | (
        hardware.shift_register >> 8u16),
        Port::SOUND2 => hardware.ports.sound_2 = write_value,
        Port::WATCHDOG => hardware.ports.watchdog = write_value,
        _ => {},
    }
}

/// Reads one of the read ports.
pub fn read_port(port: Port, hardware: &Hardware) -> (r: u8)
    requires
        is_read_port(port),
    ensures
        r == port_value(*hardware, port),
{
    match port {
        Port::INP1 => hardware.ports.input_1,
        Port::INP2 => hardware.ports.input_2,
        _ => {
            let written_amount: u8 = hardware.ports.shift_amount;
            let register: u16 = hardware.shift_register;
            let amount: u8 = written_amount & 7;
            assert(written_amount & 7 <= 7) by (bit_vector);
            let window: u16 = (register >> (8 - amount) as u16) & 0xff;
            assert(window <= 0xff) by (bit_vector)
                requires
                    window == (register >> (8 - amount) as u16) & 0xff,
            ;
            window as u8
        },
    }
}

} // verus!
