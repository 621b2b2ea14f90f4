use vstd::prelude::*;

verus! {

/// A UART 16550 serial interface at I/O port `base`: data at `base`,
/// interrupt enable at `base + 1`, FIFO control at `base + 2`, line control
/// at `base + 3` and line status at `base + 5`.
pub struct SerialPort {
    base: u16,
}

/// A byte to write to an I/O port.
#[derive(PartialEq, Eq, Structural, Debug, Clone, Copy)]
pub struct PortWrite {
    pub port: u16,
    pub value: u8,
}

/// The line-status bit that says the transmit buffer is empty.
pub const LINE_STATUS_TX_EMPTY: u8 = 0x20;
/// The line-status bit that says a received byte is ready.
pub const LINE_STATUS_DATA_READY: u8 = 0x01;

/// The writes that initialise the port at `base`: interrupts off, divisor
/// latch on, divisor 3 (38400 baud), 8 data bits without parity and one
/// stop bit, FIFO on and cleared with a 14-byte threshold, and the
/// received-data interrupt on.
pub open spec fn init_writes_of(base: u16) -> Seq<PortWrite> {
    seq![
        PortWrite { port: (base + 1) as u16, value: 0x00 },
        PortWrite { port: (base + 3) as u16, value: 0x80 },
        PortWrite { port: base, value: 0x03 },
        PortWrite { port: (base + 1) as u16, value: 0x00 },
        PortWrite { port: (base + 3) as u16, value: 0x03 },
        PortWrite { port: (base + 2) as u16, value: 0xC7 },
        PortWrite { port: (base + 1) as u16, value: 0x01 },
    ]
}

impl SerialPort {
    /// The first port of the interface.
    pub closed spec fn base_port(&self) -> u16 {
        self.base
    }

    /// The interface whose first port is `port`.
    pub fn new(port: u16) -> (s: Self)
        requires
            port + 5 <= u16::MAX,
        ensures
            s.base_port() == port,
    {
        SerialPort { base: port }
    }

    /// The data port.
    pub fn data_port(&self) -> (p: u16)
        ensures
            p == self.base_port(),
    {
        self.base
    }

    /// The line-status port.
    pub fn line_status_port(&self) -> (p: u16)
        requires
            self.base_port() + 5 <= u16::MAX,
        ensures
            p == self.base_port() + 5,
    {
        self.base + 5
    }

    /// The port writes of `init`, in order.
    pub fn init_writes(&self) -> (w: Vec<PortWrite>)
        requires
            self.base_port() + 5 <= u16::MAX,
        ensures
            w@ == init_writes_of(self.base_port()),
    {
        let b = self.base;
        let mut w: Vec<PortWrite> = Vec::new();
        w.push(PortWrite { port: b + 1, value: 0x00 });
        w.push(PortWrite { port: b + 3, value: 0x80 });
        w.push(PortWrite { port: b, value: 0x03 });
        w.push(PortWrite { port: b + 1, value: 0x00 });
        w.push(PortWrite { port: b + 3, value: 0x03 });
        w.push(PortWrite { port: b + 2, value: 0xC7 });
        w.push(PortWrite { port: b + 1, value: 0x01 });
        assert(w@ =~= init_writes_of(b));
        w
    }

    /// Whether a byte can be sent, given the line status: the transmit
    /// buffer is empty. `send` waits until it is.
    pub fn can_send(line_status: u8) -> (r: bool)
        ensures
            r == (line_status & LINE_STATUS_TX_EMPTY != 0),
    {
        line_status & LINE_STATUS_TX_EMPTY != 0
    }

    /// Whether a received byte is waiting, given the line status. `receive`
    /// reads the data port then, and reports nothing otherwise.
    pub fn has_data(line_status: u8) -> (r: bool)
        ensures
            r == (line_status & LINE_STATUS_DATA_READY != 0),
    {
        line_status & LINE_STATUS_DATA_READY != 0
    }

    /// The bytes that erase the last character on the terminal: back,
    /// space, back.
    pub fn backspace_bytes() -> (b: Vec<u8>)
        ensures
            b@ == seq![0x08u8, 0x20u8, 0x08u8],
    {
        let mut b: Vec<u8> = Vec::new();
        b.push(0x08);
        b.push(0x20);
        b.push(0x08);
        assert(b@ =~= seq![0x08u8, 0x20u8, 0x08u8]);
        b
    }
}

} // verus!
