//! The serial port: a transfer shifts the data register out, most significant bit
//! first, one bit every 512 T-cycles.
use vstd::prelude::*;

verus! {

/// The serial port registers SB (`data`) and SC (`control`) with the transfer's progress.
#[derive(Clone, Copy, Debug, PartialEq, Eq, Structural)]
pub struct Serial {
    pub data: u8,
    pub control: u8,
    pub t_cycles: u16,
    pub bits_transferred: u8,
    pub transmitted: u8,
}

/// The serial port after a reset: nothing transferred, control with only bit 0 set.
pub open spec fn initial_serial() -> Serial {
    Serial { data: 0, control: 0b0000_0001, t_cycles: 0, bits_transferred: 0, transmitted: 0 }
}

impl Serial {
    /// The bounds the port keeps: fewer than 512 cycles into a bit and fewer than 8 bits sent.
    pub open spec fn inv(self) -> bool {
        self.t_cycles < 512 && self.bits_transferred < 8
    }

    /// Whether a transfer runs (bit 0 of SC).
    pub open spec fn spec_running(self) -> bool {
        self.control % 2 == 1
    }

    /// One T-cycle: while a transfer runs, every 512th cycle shifts the top bit of SB
    /// into the byte being sent and a 1 into SB; after the eighth bit the byte is
    /// reported and the port resets.
    pub open spec fn spec_step(self) -> (Serial, Option<u8>) {
        if !self.spec_running() {
            (self, None)
        } else if self.t_cycles + 1 == 512 {
            let bits = (self.bits_transferred + 1) as u8;
            let transmitted = ((self.transmitted * 2) % 256 + self.data / 128) as u8;
            let data = ((self.data * 2) % 256 + 1) as u8;
            if bits == 8 {
                (initial_serial(), Some(transmitted))
            } else {
                (
                    Serial { t_cycles: 0, bits_transferred: bits, transmitted, data, ..self },
                    None,
                )
            }
        } else {
            (Serial { t_cycles: (self.t_cycles + 1) as u16, ..self }, None)
        }
    }

    pub fn new() -> (serial: Self)
        ensures
            serial == initial_serial(),
    {
        Serial { data: 0, control: 0b0000_0001, t_cycles: 0, bits_transferred: 0, transmitted: 0 }
    }

    pub fn reset(&mut self)
        ensures
            *final(self) == initial_serial(),
    {
        self.data = 0;
        self.control = 0b0000_0001;
        self.t_cycles = 0;
        self.bits_transferred = 0;
        self.transmitted = 0;
    }

    pub fn step(&mut self) -> (sent: Option<u8>)
        requires
            old(self).inv(),
        ensures
            (*final(self), sent) == old(self).spec_step(),
            final(self).inv(),
    {
        let control = self.control;
        assert((control & 1 == 0) == (control % 2 == 0)) by (bit_vector);
        if self.control & 0b0000_0001 == 0 {
            return None;
        }
        self.t_cycles += 1;
        if self.t_cycles == 512 {
            self.t_cycles = 0;
            self.bits_transferred += 1;
            let t = self.transmitted;
            let d = self.data;
            assert(((t << 1) | ((d & 0x80) >> 7)) == (t * 2) % 256 + d / 128 && ((d << 1) | 1)
                == (d * 2) % 256 + 1) by (bit_vector);
            self.transmitted = (self.transmitted << 1) | ((self.data & 0b1000_0000) >> 7);
            self.data = (self.data << 1) | 1;
            if self.bits_transferred == 8 {
                let transmitted = self.transmitted;
                self.reset();
                return Some(transmitted);
            }
        }
        None
    }
}

/// A step keeps the port's bounds.
pub proof fn lemma_serial_step_inv(serial: Serial)
    requires
        serial.inv(),
    ensures
        serial.spec_step().0.inv(),
{
}

/// The port after `n` T-cycles, with the bytes sent on the way, in order.
pub open spec fn run_serial(serial: Serial, n: nat) -> (Serial, Seq<u8>)
    decreases n,
{
    if n == 0 {
        (serial, Seq::empty())
    } else {
        let (next, sent) = serial.spec_step();
        let (last, rest) = run_serial(next, (n - 1) as nat);
        match sent {
            Some(byte) => (last, seq![byte] + rest),
            None => (last, rest),
        }
    }
}

/// Running `a` cycles and then `b` more is running `a + b` cycles.
proof fn lemma_run_serial_split(serial: Serial, a: nat, b: nat)
    ensures
        run_serial(serial, a + b) == (
            run_serial(run_serial(serial, a).0, b).0,
            run_serial(serial, a).1 + run_serial(run_serial(serial, a).0, b).1,
        ),
    decreases a,
{
    if a > 0 {
        let next = serial.spec_step().0;
        lemma_run_serial_split(next, (a - 1) as nat, b);
        assert((a + b - 1) as nat == (a - 1) as nat + b);
        let first = run_serial(next, (a - 1) as nat);
        let second = run_serial(first.0, b);
        match serial.spec_step().1 {
            Some(byte) => {
                assert(seq![byte] + first.1 + second.1 =~= seq![byte] + (first.1 + second.1));
            },
            None => {},
        }
    }
}

/// Within a bit, a cycle only counts.
proof fn lemma_run_serial_counts(serial: Serial, n: nat)
    requires
        serial.spec_running(),
        serial.t_cycles + n < 512,
    ensures
        run_serial(serial, n) == (Serial { t_cycles: (serial.t_cycles + n) as u16, ..serial }, Seq::<
            u8,
        >::empty()),
    decreases n,
{
    if n > 0 {
        let next = Serial { t_cycles: (serial.t_cycles + 1) as u16, ..serial };
        assert(serial.spec_step() == (next, None::<u8>));
        lemma_run_serial_counts(next, (n - 1) as nat);
    }
}

/// A bit of a running transfer takes 512 cycles; after the eighth the byte is sent.
proof fn lemma_run_serial_bit(serial: Serial)
    requires
        serial.inv(),
        serial.spec_running(),
        serial.t_cycles == 0,
    ensures
        run_serial(serial, 512) == (if serial.bits_transferred == 7 {
            (
                initial_serial(),
                seq![((serial.transmitted * 2) % 256 + serial.data / 128) as u8],
            )
        } else {
            (
                Serial {
                    t_cycles: 0,
                    bits_transferred: (serial.bits_transferred + 1) as u8,
                    transmitted: ((serial.transmitted * 2) % 256 + serial.data / 128) as u8,
                    data: ((serial.data * 2) % 256 + 1) as u8,
                    ..serial
                },
                Seq::empty(),
            )
        }),
{
    lemma_run_serial_counts(serial, 511);
    lemma_run_serial_split(serial, 511, 1);
    let almost = Serial { t_cycles: 511, ..serial };
    assert(run_serial(almost, 1) == (almost.spec_step().0, match almost.spec_step().1 {
        Some(byte) => seq![byte],
        None => Seq::<u8>::empty(),
    })) by {
        assert(run_serial(almost.spec_step().0, 0).1 =~= Seq::<u8>::empty());
        match almost.spec_step().1 {
            Some(byte) => {
                assert(seq![byte] + Seq::<u8>::empty() =~= seq![byte]);
            },
            None => {},
        }
    }
    assert(Seq::<u8>::empty() + run_serial(almost, 1).1 =~= run_serial(almost, 1).1);
}

/// A transfer started on a byte sends exactly that byte, after 4096 T-cycles (eight bits
/// of 512 cycles each), and leaves the port as after a reset.
pub proof fn lemma_serial_sends_written_byte(serial: Serial)
    requires
        serial.spec_running(),
        serial.t_cycles == 0,
        serial.bits_transferred == 0,
    ensures
        run_serial(serial, 4096) == (initial_serial(), seq![serial.data]),
{
    let s0 = serial;
    lemma_run_serial_bit(s0);
    let s1 = run_serial(s0, 512).0;
    lemma_run_serial_bit(s1);
    let s2 = run_serial(s1, 512).0;
    lemma_run_serial_bit(s2);
    let s3 = run_serial(s2, 512).0;
    lemma_run_serial_bit(s3);
    let s4 = run_serial(s3, 512).0;
    lemma_run_serial_bit(s4);
    let s5 = run_serial(s4, 512).0;
    lemma_run_serial_bit(s5);
    let s6 = run_serial(s5, 512).0;
    lemma_run_serial_bit(s6);
    let s7 = run_serial(s6, 512).0;
    lemma_run_serial_bit(s7);
    lemma_run_serial_split(s0, 512, 512);
    lemma_run_serial_split(s0, 1024, 512);
    lemma_run_serial_split(s0, 1536, 512);
    lemma_run_serial_split(s0, 2048, 512);
    lemma_run_serial_split(s0, 2560, 512);
    lemma_run_serial_split(s0, 3072, 512);
    lemma_run_serial_split(s0, 3584, 512);
    let d0 = s0.data;
    let t0 = s0.transmitted;
    let t1 = s1.transmitted;
    let t2 = s2.transmitted;
    let t3 = s3.transmitted;
    let t4 = s4.transmitted;
    let t5 = s5.transmitted;
    let t6 = s6.transmitted;
    let t7 = s7.transmitted;
    let d1 = s1.data;
    let d2 = s2.data;
    let d3 = s3.data;
    let d4 = s4.data;
    let d5 = s5.data;
    let d6 = s6.data;
    let d7 = s7.data;
    let last = ((t7 * 2) % 256 + d7 / 128) as u8;
    assert(last == d0) by (bit_vector)
        requires
            t1 == ((t0 * 2) % 256 + d0 / 128) as u8,
            d1 == ((d0 * 2) % 256 + 1) as u8,
            t2 == ((t1 * 2) % 256 + d1 / 128) as u8,
            d2 == ((d1 * 2) % 256 + 1) as u8,
            t3 == ((t2 * 2) % 256 + d2 / 128) as u8,
            d3 == ((d2 * 2) % 256 + 1) as u8,
            t4 == ((t3 * 2) % 256 + d3 / 128) as u8,
            d4 == ((d3 * 2) % 256 + 1) as u8,
            t5 == ((t4 * 2) % 256 + d4 / 128) as u8,
            d5 == ((d4 * 2) % 256 + 1) as u8,
            t6 == ((t5 * 2) % 256 + d5 / 128) as u8,
            d6 == ((d5 * 2) % 256 + 1) as u8,
            t7 == ((t6 * 2) % 256 + d6 / 128) as u8,
            d7 == ((d6 * 2) % 256 + 1) as u8,
            last == ((t7 * 2) % 256 + d7 / 128) as u8,
    ;
    let e = Seq::<u8>::empty();
    assert(e + e + e + e + e + e + e + seq![last] =~= seq![d0]);
}

} // verus!
