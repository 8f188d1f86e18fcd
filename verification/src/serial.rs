//! Buffered serial port: the byte queues and drain decisions between the
//! runtime and a memory-mapped UART.
//!
//! The hardware itself (register reads and writes, FIFO access, interrupt
//! enables) is a collaborator outside this crate.  The logic here decides,
//! from plain values the surrounding driver reads off the hardware, which
//! bytes move between the software queues and the device FIFO and when the
//! transmitter-empty interrupt is switched on or off; the driver performs
//! those effects.

use std::collections::VecDeque;
use vstd::prelude::*;

verus! {

/// Most bytes the software transmit queue holds; a further write would
/// block.
pub const DEFAULT_TX_BUFFER_SIZE: usize = 1000;

/// Capacity hint for the software receive queue, which grows as needed.
pub const DEFAULT_RX_BUFFER_SIZE: usize = 1000;

/// How many bytes fit in the device FIFO: at most this many move per drain.
pub const FIFO_DEPTH: usize = 16;

/// How many serial ports the board wires up.
pub const SERIAL_NUM: usize = 4;

/// Where the first port's registers are mapped.
pub const SERIAL_BASE_ADDRESS: usize = 0x1000_2000;

/// How far apart consecutive ports' register banks lie.
pub const SERIAL_ADDRESS_STRIDE: usize = 0x1000;

/// Which port an interrupt line belongs to; an unknown line maps to the
/// first port.
pub fn irq_to_serial_id(irq: u16) -> (id: usize)
    ensures
        irq == 12 ==> id == 0,
        irq == 13 ==> id == 1,
        irq == 14 ==> id == 2,
        irq == 15 ==> id == 3,
        irq != 12 && irq != 13 && irq != 14 && irq != 15 ==> id == 0,
        id < SERIAL_NUM,
{
    match irq {
        12 => 0,
        13 => 1,
        14 => 2,
        15 => 3,
        _ => 0,
    }
}

/// The register base of the port an interrupt line belongs to.
pub fn get_base_addr_from_irq(irq: u16) -> (addr: usize)
    ensures
        irq == 12 ==> addr == SERIAL_BASE_ADDRESS,
        irq == 13 ==> addr == SERIAL_BASE_ADDRESS + SERIAL_ADDRESS_STRIDE,
        irq == 14 ==> addr == SERIAL_BASE_ADDRESS + 2 * SERIAL_ADDRESS_STRIDE,
        irq == 15 ==> addr == SERIAL_BASE_ADDRESS + 3 * SERIAL_ADDRESS_STRIDE,
{
    SERIAL_BASE_ADDRESS + irq_to_serial_id(irq) * SERIAL_ADDRESS_STRIDE
}

/// Why the UART raised its interrupt line, as the driver reads it off the
/// interrupt-identification register.
#[derive(Clone, Copy, Debug, PartialEq, Eq, Structural)]
pub enum SerialInterrupt {
    /// Bytes are waiting in the device receive FIFO.
    ReceivedDataAvailable,
    /// Bytes have been waiting in the device receive FIFO for a while.
    Timeout,
    /// The transmitter holding register is empty and can take more bytes.
    TransmitterHoldingRegisterEmpty,
    /// A modem-status change, only logged.
    ModemStatus,
}

/// The software side of one serial port: receive and transmit byte queues
/// in first-in-first-out order, with diagnostic counters of bytes moved and
/// interrupts taken (the counters wrap around at the type's limit).
pub struct BufferedSerial {
    pub rx_buffer: VecDeque<u8>,
    pub tx_buffer: VecDeque<u8>,
    pub rx_count: usize,
    pub tx_count: usize,
    pub intr_count: usize,
}

impl BufferedSerial {
    /// The received bytes not yet consumed, oldest first.
    pub open spec fn rx(&self) -> Seq<u8> {
        self.rx_buffer@
    }

    /// The bytes awaiting transmission, oldest first.
    pub open spec fn tx(&self) -> Seq<u8> {
        self.tx_buffer@
    }

    /// A port with empty queues and zeroed counters; the driver initialises
    /// the hardware at its register base separately.
    pub fn new() -> (s: BufferedSerial)
        ensures
            s.rx() == Seq::<u8>::empty(),
            s.tx() == Seq::<u8>::empty(),
            s.rx_count == 0,
            s.tx_count == 0,
            s.intr_count == 0,
    {
        BufferedSerial {
            rx_buffer: VecDeque::with_capacity(DEFAULT_RX_BUFFER_SIZE),
            tx_buffer: VecDeque::with_capacity(DEFAULT_TX_BUFFER_SIZE),
            rx_count: 0,
            tx_count: 0,
            intr_count: 0,
        }
    }

    /// Takes up to `FIFO_DEPTH` of the oldest pending transmit bytes out of
    /// the queue, for the driver to write into the device FIFO.
    fn drain_tx(&mut self) -> (to_hw: Vec<u8>)
        ensures
            ({
                let w = if old(self).tx().len() < FIFO_DEPTH {
                    old(self).tx().len() as int
                } else {
                    FIFO_DEPTH as int
                };
                &&& to_hw@ == old(self).tx().subrange(0, w)
                &&& final(self).tx() == old(self).tx().subrange(w, old(self).tx().len() as int)
                &&& final(self).rx() == old(self).rx()
                &&& final(self).rx_count == old(self).rx_count
                &&& final(self).tx_count == vstd::wrapping::usize_specs::wrapping_add(
                    old(self).tx_count,
                    to_hw@.len() as usize,
                )
                &&& final(self).intr_count == old(self).intr_count
            }),
    {
        let pending = self.tx_buffer.len();
        let w: usize = if pending < FIFO_DEPTH {
            pending
        } else {
            FIFO_DEPTH
        };
        let mut to_hw: Vec<u8> = Vec::new();
        let mut i: usize = 0;
        while i < w
            invariant
                i <= w,
                w <= old(self).tx().len(),
                to_hw@ == old(self).tx().subrange(0, i as int),
                self.tx_buffer@ == old(self).tx().subrange(i as int, old(self).tx().len() as int),
                self.rx_buffer@ == old(self).rx(),
                self.rx_count == old(self).rx_count,
                self.tx_count == old(self).tx_count,
                self.intr_count == old(self).intr_count,
            decreases w - i,
        {
            match self.tx_buffer.pop_front() {
                Some(ch) => {
                    to_hw.push(ch);
                    proof {
                        assert(to_hw@ =~= old(self).tx().subrange(0, i + 1 as int));
                        assert(self.tx_buffer@ =~= old(self).tx().subrange(
                            i + 1 as int,
                            old(self).tx().len() as int,
                        ));
                    }
                },
                None => {
                    proof {
                        assert(false);
                    }
                },
            }
            i = i + 1;
        }
        self.tx_count = self.tx_count.wrapping_add(w);
        to_hw
    }

    /// Appends the bytes the driver read out of the device FIFO to the
    /// receive queue.
    fn fill_rx(&mut self, received: &Vec<u8>)
        ensures
            final(self).rx() == old(self).rx() + received@,
            final(self).tx() == old(self).tx(),
            final(self).rx_count == vstd::wrapping::usize_specs::wrapping_add(
                old(self).rx_count,
                received@.len() as usize,
            ),
            final(self).tx_count == old(self).tx_count,
            final(self).intr_count == old(self).intr_count,
    {
        let mut i: usize = 0;
        while i < received.len()
            invariant
                i <= received@.len(),
                self.rx_buffer@ == old(self).rx() + received@.subrange(0, i as int),
                self.tx_buffer@ == old(self).tx(),
                self.rx_count == old(self).rx_count,
                self.tx_count == old(self).tx_count,
                self.intr_count == old(self).intr_count,
            decreases received@.len() - i,
        {
            self.rx_buffer.push_back(received[i]);
            proof {
                assert(self.rx_buffer@ =~= old(self).rx() + received@.subrange(0, i + 1 as int));
            }
            i = i + 1;
        }
        proof {
            assert(self.rx_buffer@ =~= old(self).rx() + received@);
        }
        self.rx_count = self.rx_count.wrapping_add(received.len());
    }

    /// Handles one UART interrupt.  `received` holds whatever the driver
    /// drained from the device receive FIFO for this interrupt (consulted
    /// only for the receive causes).  Returns the bytes to write into the
    /// device FIFO and whether the driver must switch the transmitter-empty
    /// interrupt off, which it must when the transmit queue ran out before
    /// the FIFO was full.
    pub fn interrupt_handler(&mut self, int_type: SerialInterrupt, received: &Vec<u8>) -> (r: (
        Vec<u8>,
        bool,
    ))
        ensures
            final(self).intr_count == vstd::wrapping::usize_specs::wrapping_add(
                old(self).intr_count,
                1,
            ),
            int_type == SerialInterrupt::ReceivedDataAvailable || int_type
                == SerialInterrupt::Timeout ==> {
                &&& final(self).rx() == old(self).rx() + received@
                &&& final(self).tx() == old(self).tx()
                &&& final(self).rx_count == vstd::wrapping::usize_specs::wrapping_add(
                    old(self).rx_count,
                    received@.len() as usize,
                )
                &&& final(self).tx_count == old(self).tx_count
                &&& r.0@ == Seq::<u8>::empty()
                &&& r.1 == false
            },
            int_type == SerialInterrupt::TransmitterHoldingRegisterEmpty ==> {
                let w = if old(self).tx().len() < FIFO_DEPTH {
                    old(self).tx().len() as int
                } else {
                    FIFO_DEPTH as int
                };
                &&& r.0@ == old(self).tx().subrange(0, w)
                &&& r.1 == (old(self).tx().len() < FIFO_DEPTH)
                &&& final(self).tx() == old(self).tx().subrange(w, old(self).tx().len() as int)
                &&& final(self).rx() == old(self).rx()
                &&& final(self).rx_count == old(self).rx_count
                &&& final(self).tx_count == vstd::wrapping::usize_specs::wrapping_add(
                    old(self).tx_count,
                    r.0@.len() as usize,
                )
            },
            int_type == SerialInterrupt::ModemStatus ==> {
                &&& final(self).rx() == old(self).rx()
                &&& final(self).tx() == old(self).tx()
                &&& final(self).rx_count == old(self).rx_count
                &&& final(self).tx_count == old(self).tx_count
                &&& r.0@ == Seq::<u8>::empty()
                &&& r.1 == false
            },
    {
        self.intr_count = self.intr_count.wrapping_add(1);
        match int_type {
            SerialInterrupt::ReceivedDataAvailable | SerialInterrupt::Timeout => {
                self.fill_rx(received);
                (Vec::new(), false)
            },
            SerialInterrupt::TransmitterHoldingRegisterEmpty => {
                let disable = self.tx_buffer.len() < FIFO_DEPTH;
                let to_hw = self.drain_tx();
                (to_hw, disable)
            },
            SerialInterrupt::ModemStatus => (Vec::new(), false),
        }
    }

    /// Queues one byte for transmission.  `thr_empty` and `thre_int_enabled`
    /// are what the driver read off the line-status and interrupt-enable
    /// registers: an empty holding register is refilled from the queue
    /// first, and the transmitter-empty interrupt is switched on if it was
    /// off.  Returns the bytes to write into the device FIFO, whether to
    /// switch that interrupt on, and whether the byte was accepted — a
    /// transmit queue at its bound refuses it, and the caller would block.
    pub fn try_write(&mut self, word: u8, thr_empty: bool, thre_int_enabled: bool) -> (r: (
        Vec<u8>,
        bool,
        bool,
    ))
        ensures
            ({
                let drained = if thr_empty {
                    if old(self).tx().len() < FIFO_DEPTH {
                        old(self).tx().len() as int
                    } else {
                        FIFO_DEPTH as int
                    }
                } else {
                    0
                };
                let queue_after = old(self).tx().subrange(drained, old(self).tx().len() as int);
                &&& r.0@ == old(self).tx().subrange(0, drained)
                &&& r.1 == !thre_int_enabled
                &&& r.2 == (queue_after.len() < DEFAULT_TX_BUFFER_SIZE)
                &&& final(self).tx() == (if queue_after.len() < DEFAULT_TX_BUFFER_SIZE {
                    queue_after.push(word)
                } else {
                    queue_after
                })
                &&& final(self).rx() == old(self).rx()
                &&& final(self).rx_count == old(self).rx_count
                &&& final(self).tx_count == vstd::wrapping::usize_specs::wrapping_add(
                    old(self).tx_count,
                    r.0@.len() as usize,
                )
                &&& final(self).intr_count == old(self).intr_count
            }),
    {
        let to_hw: Vec<u8> = if thr_empty {
            self.drain_tx()
        } else {
            Vec::new()
        };
        let enable = !thre_int_enabled;
        let accepted = self.tx_buffer.len() < DEFAULT_TX_BUFFER_SIZE;
        if accepted {
            self.tx_buffer.push_back(word);
        }
        (to_hw, enable, accepted)
    }

    /// Takes the oldest received byte.  The receive queue is consulted
    /// first; only when it is empty is `received`, whatever the driver
    /// could drain from the device FIFO, folded in before one byte is
    /// taken.  `None` means nothing is available and the caller would
    /// block.
    pub fn try_read(&mut self, received: &Vec<u8>) -> (r: Option<u8>)
        ensures
            old(self).rx().len() > 0 ==> {
                &&& r == Some(old(self).rx()[0])
                &&& final(self).rx() == old(self).rx().subrange(1, old(self).rx().len() as int)
                &&& final(self).rx_count == old(self).rx_count
            },
            old(self).rx().len() == 0 && received@.len() > 0 ==> {
                &&& r == Some(received@[0])
                &&& final(self).rx() == received@.subrange(1, received@.len() as int)
                &&& final(self).rx_count == vstd::wrapping::usize_specs::wrapping_add(
                    old(self).rx_count,
                    received@.len() as usize,
                )
            },
            old(self).rx().len() == 0 && received@.len() == 0 ==> {
                &&& r is None
                &&& final(self).rx() == old(self).rx()
                &&& final(self).rx_count == vstd::wrapping::usize_specs::wrapping_add(
                    old(self).rx_count,
                    0,
                )
            },
            final(self).tx() == old(self).tx(),
            final(self).tx_count == old(self).tx_count,
            final(self).intr_count == old(self).intr_count,
    {
        match self.rx_buffer.pop_front() {
            Some(ch) => Some(ch),
            None => {
                self.fill_rx(received);
                let r = self.rx_buffer.pop_front();
                proof {
                    if received@.len() > 0 {
                        assert(old(self).rx() + received@ =~= received@);
                        assert(self.rx_buffer@ =~= received@.subrange(1, received@.len() as int));
                    }
                }
                r
            },
        }
    }
}

} // verus!
