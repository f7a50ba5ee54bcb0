//! The 16550 serial port: its set-up sequence and the transmitter, which
//! polls the line status until the holding register is empty before it
//! writes a byte.
//!
//! Port input and output is done by the caller: the port says which
//! register to read or write, the caller hands back what it read.

use vstd::prelude::*;

verus! {

/// Data register (transmit holding register; divisor low byte with DLAB).
pub const UART_DATA: u16 = 0;
/// Interrupt enable register (divisor high byte with DLAB).
pub const UART_INTERRUPT_ENABLE: u16 = 1;
/// Line control register.
pub const UART_LINE_CONTROL: u16 = 3;
/// Line status register.
pub const UART_LINE_STATUS: u16 = 5;
/// Line status bit: the transmit holding register is empty.
pub const LSR_TRANSMIT_EMPTY: u8 = 0x20;

/// A byte to be written to an I/O port.
#[derive(Debug, Clone, Copy, PartialEq, Eq)]
pub struct PortWrite {
    pub port: u16,
    pub value: u8,
}

/// The port access the transmitter asks for.
#[derive(Debug, Clone, Copy, PartialEq, Eq)]
pub enum SerialAction {
    /// Read the line status register at this port and hand the value to
    /// `on_line_status`.
    ReadLineStatus(u16),
    /// Write the byte to this port; the byte is then sent.
    Write(PortWrite),
}

/// Whether a line status value reports an empty transmit holding register
/// (bit 5 is set).
pub open spec fn spec_transmit_empty(lsr: u8) -> bool {
    (lsr / 32) % 2 == 1
}

/// Whether a line status value reports an empty transmit holding register.
pub fn transmit_empty(lsr: u8) -> (r: bool)
    ensures
        r == spec_transmit_empty(lsr),
{
    let r = lsr & LSR_TRANSMIT_EMPTY != 0;
    assert(r == ((lsr / 32) % 2 == 1)) by (bit_vector)
        requires
            r == (lsr & 0x20u8 != 0),
    ;
    r
}

/// The register writes that set up the port at `base`: interrupts off,
/// divisor latch on, divisor 1 (115200 baud), then 8 data bits with the
/// divisor latch off.
pub open spec fn spec_init_writes(base: u16) -> Seq<PortWrite> {
    seq![
        PortWrite { port: (base + UART_INTERRUPT_ENABLE) as u16, value: 0x00 },
        PortWrite { port: (base + UART_LINE_CONTROL) as u16, value: 0x80 },
        PortWrite { port: (base + UART_DATA) as u16, value: 0x01 },
        PortWrite { port: (base + UART_INTERRUPT_ENABLE) as u16, value: 0x00 },
        PortWrite { port: (base + UART_LINE_CONTROL) as u16, value: 0x03 },
    ]
}

/// The set-up of a port touches only that port's registers, in this order:
/// interrupts off (register 1), divisor latch on (register 3, bit 7),
/// divisor 1 into the latch (registers 0 and 1), then 8 data bits with the
/// latch off (register 3).
pub proof fn lemma_init_writes_target_the_port(base: u16)
    requires
        base + UART_LINE_CONTROL <= u16::MAX,
    ensures
        spec_init_writes(base).len() == 5,
        forall|i: int|
            0 <= i < 5 ==> base <= (#[trigger] spec_init_writes(base)[i]).port <= base + 3,
        spec_init_writes(base)[0].port - base == 1 && spec_init_writes(base)[0].value == 0x00,
        spec_init_writes(base)[1].port - base == 3 && spec_init_writes(base)[1].value == 0x80,
        spec_init_writes(base)[2].port - base == 0 && spec_init_writes(base)[2].value == 0x01,
        spec_init_writes(base)[3].port - base == 1 && spec_init_writes(base)[3].value == 0x00,
        spec_init_writes(base)[4].port - base == 3 && spec_init_writes(base)[4].value == 0x03,
{
}

/// A serial port at a base I/O port, with the byte it is sending, if any.
#[derive(Debug, Clone, Copy, PartialEq, Eq)]
pub struct SerialPort {
    /// Base I/O port.
    pub port: u16,
    /// The byte waiting for the transmit holding register to empty.
    pub pending: Option<u8>,
}

impl SerialPort {
    /// A port at `port`, and the register writes that set it up, in order.
    pub fn new(port: u16) -> (r: (SerialPort, Vec<PortWrite>))
        requires
            port + UART_LINE_CONTROL <= u16::MAX,
        ensures
            r.0.port == port,
            r.0.pending is None,
            r.1@ == spec_init_writes(port),
            r.1@.len() == 5,
            forall|i: int| 0 <= i < 5 ==> port <= (#[trigger] r.1@[i]).port <= port + UART_LINE_CONTROL,
            r.1@[0] == (PortWrite { port: (port + 1) as u16, value: 0x00 }),
            r.1@[1] == (PortWrite { port: (port + 3) as u16, value: 0x80 }),
            r.1@[2] == (PortWrite { port: port, value: 0x01 }),
            r.1@[3] == (PortWrite { port: (port + 1) as u16, value: 0x00 }),
            r.1@[4] == (PortWrite { port: (port + 3) as u16, value: 0x03 }),
    {
        let serial = SerialPort { port, pending: None };
        let mut writes: Vec<PortWrite> = Vec::new();
        writes.push(serial.register_write(UART_INTERRUPT_ENABLE, 0x00));
        writes.push(serial.register_write(UART_LINE_CONTROL, 0x80));
        writes.push(serial.register_write(UART_DATA, 0x01));
        writes.push(serial.register_write(UART_INTERRUPT_ENABLE, 0x00));
        writes.push(serial.register_write(UART_LINE_CONTROL, 0x03));
        (serial, writes)
    }

    /// The write of `value` into register `reg` of this port.
    pub fn register_write(&self, reg: u16, value: u8) -> (r: PortWrite)
        requires
            self.port + reg <= u16::MAX,
        ensures
            r == (PortWrite { port: (self.port + reg) as u16, value }),
    {
        PortWrite { port: self.port + reg, value }
    }

    /// Starts sending `data`: the byte waits, and the line status is read.
    pub fn send(&mut self, data: u8) -> (action: SerialAction)
        requires
            old(self).port + UART_LINE_STATUS <= u16::MAX,
        ensures
            final(self).port == old(self).port,
            final(self).pending == Some(data),
            action == SerialAction::ReadLineStatus((old(self).port + UART_LINE_STATUS) as u16),
    {
        self.pending = Some(data);
        SerialAction::ReadLineStatus(self.port + UART_LINE_STATUS)
    }

    /// The port after a line status is read, and the access it asks for.
    pub open spec fn spec_on_line_status(self, lsr: u8) -> (SerialPort, SerialAction) {
        if spec_transmit_empty(lsr) {
            (
                SerialPort { pending: None, ..self },
                SerialAction::Write(PortWrite { port: self.port, value: self.pending->0 }),
            )
        } else {
            (self, SerialAction::ReadLineStatus((self.port + UART_LINE_STATUS) as u16))
        }
    }

    /// Takes the line status that was read. While the transmit holding
    /// register is not empty the status is read again; once it is empty the
    /// waiting byte is written to the data register and nothing waits any
    /// more.
    pub fn on_line_status(&mut self, lsr: u8) -> (action: SerialAction)
        requires
            old(self).port + UART_LINE_STATUS <= u16::MAX,
            old(self).pending is Some,
        ensures
            (*final(self), action) == old(self).spec_on_line_status(lsr),
            final(self).port == old(self).port,
            spec_transmit_empty(lsr) ==> {
                &&& final(self).pending is None
                &&& action == SerialAction::Write(
                    PortWrite { port: old(self).port, value: old(self).pending->0 },
                )
            },
            !spec_transmit_empty(lsr) ==> {
                &&& final(self).pending == old(self).pending
                &&& action == SerialAction::ReadLineStatus(
                    (old(self).port + UART_LINE_STATUS) as u16,
                )
            },
    {
        if transmit_empty(lsr) {
            let data = self.pending.unwrap();
            self.pending = None;
            SerialAction::Write(self.register_write(UART_DATA, data))
        } else {
            SerialAction::ReadLineStatus(self.port + UART_LINE_STATUS)
        }
    }
}


/// The accesses the port asks for while a byte waits, given the line status
/// values read one after the other.
pub open spec fn spec_transmit_run(p: SerialPort, statuses: Seq<u8>) -> Seq<SerialAction>
    decreases statuses.len(),
{
    if statuses.len() == 0 || p.pending is None {
        Seq::empty()
    } else {
        let (next, action) = p.spec_on_line_status(statuses[0]);
        seq![action] + spec_transmit_run(next, statuses.drop_first())
    }
}

/// The access is a write.
pub open spec fn is_write(a: SerialAction) -> bool {
    a is Write
}

/// Sending a byte: whatever the line status reads, the byte is written at
/// most once, only to the data register, only right after a status that
/// reports the transmit holding register empty, and never later than the
/// first such status.
pub proof fn lemma_byte_written_once_when_empty(p: SerialPort, data: u8, statuses: Seq<u8>)
    ensures
        ({
            let run = spec_transmit_run(SerialPort { pending: Some(data), ..p }, statuses);
            &&& run.len() <= statuses.len()
            &&& forall|i: int|
                0 <= i < run.len() && is_write(#[trigger] run[i]) ==> {
                    &&& run[i] == SerialAction::Write(PortWrite { port: p.port, value: data })
                    &&& spec_transmit_empty(statuses[i])
                    &&& i == run.len() - 1
                }
            &&& forall|i: int|
                0 <= i < run.len() && !is_write(#[trigger] run[i]) ==> !spec_transmit_empty(
                    statuses[i],
                )
            &&& (exists|i: int| 0 <= i < statuses.len() && spec_transmit_empty(#[trigger] statuses[i]))
                ==> run.len() >= 1 && is_write(run[run.len() - 1])
        }),
    decreases statuses.len(),
{
    let q = SerialPort { pending: Some(data), ..p };
    let run = spec_transmit_run(q, statuses);
    if statuses.len() > 0 {
        let (next, action) = q.spec_on_line_status(statuses[0]);
        let rest = statuses.drop_first();
        if spec_transmit_empty(statuses[0]) {
            assert(spec_transmit_run(next, rest) =~= Seq::empty());
            assert(run =~= seq![action]);
        } else {
            lemma_byte_written_once_when_empty(p, data, rest);
            assert(next == q);
            let tail = spec_transmit_run(q, rest);
            assert(run =~= seq![action] + tail);
            assert forall|i: int| 0 <= i < run.len() && is_write(#[trigger] run[i]) implies {
                &&& run[i] == SerialAction::Write(PortWrite { port: p.port, value: data })
                &&& spec_transmit_empty(statuses[i])
                &&& i == run.len() - 1
            } by {
                assert(run[i] == tail[i - 1]);
                assert(statuses[i] == rest[i - 1]);
            }
            assert forall|i: int| 0 <= i < run.len() && !is_write(#[trigger] run[i]) implies !spec_transmit_empty(
                statuses[i],
            ) by {
                if i > 0 {
                    assert(run[i] == tail[i - 1]);
                    assert(statuses[i] == rest[i - 1]);
                }
            }
            if exists|i: int| 0 <= i < statuses.len() && spec_transmit_empty(#[trigger] statuses[i]) {
                let i = choose|i: int| 0 <= i < statuses.len() && spec_transmit_empty(#[trigger] statuses[i]);
                assert(rest[i - 1] == statuses[i]);
                assert(tail.len() >= 1);
                assert(run[run.len() - 1] == tail[tail.len() - 1]);
            }
        }
    }
}

} // verus!
