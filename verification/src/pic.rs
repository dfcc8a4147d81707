//! The bridge to the two chained legacy interrupt controllers.
//!
//! The pair is modelled by its configured vector offsets; what the bridge
//! does to the hardware is given as the exact sequence of byte writes to
//! the legacy command and data ports, so the platform boundary only has to
//! replay them.  `initialize` yields the documented reprogramming
//! sequence; `notify_end_of_interrupt` yields the acknowledgment writes a
//! handler owes for its vector: the master alone for a master-range
//! vector, the slave first and then the master for a slave-range vector.
use vstd::prelude::*;

verus! {

/// Command port of the master controller.
pub const PIC_1_COMMAND: u16 = 0x20;
/// Data port of the master controller.
pub const PIC_1_DATA: u16 = 0x21;
/// Command port of the slave controller.
pub const PIC_2_COMMAND: u16 = 0xA0;
/// Data port of the slave controller.
pub const PIC_2_DATA: u16 = 0xA1;
/// An unused port; a write to it paces the controller between commands.
pub const WAIT_PORT: u16 = 0x80;

/// The begin-initialization command.
pub const CMD_INIT: u8 = 0x11;
/// The end-of-interrupt command.
pub const CMD_END_OF_INTERRUPT: u8 = 0x20;
/// The mode word selecting 8086 operation.
pub const MODE_8086: u8 = 0x01;

/// Lines each controller serves.
pub const LINES_PER_PIC: u8 = 8;
/// Vectors the CPU reserves for exceptions; no controller offset may lie
/// below them.
pub const RESERVED_VECTORS: u8 = 32;

/// One byte written to one port.
#[derive(Clone, Copy, PartialEq, Eq, Structural, Debug)]
pub struct PortWrite {
    pub port: u16,
    pub value: u8,
}

/// The chained controller pair, by its configured vector offsets.
#[derive(Clone, Copy, PartialEq, Eq, Structural, Debug)]
pub struct ChainedPics {
    pub master_offset: u8,
    pub slave_offset: u8,
}

/// The reprogramming sequence for the pair: begin initialization on both,
/// hand each its vector offset, wire the chain (the slave on line 2 of the
/// master), select 8086 mode, and restore the saved line masks.  Every
/// command but the mask restore is paced by a write to the wait port.
pub open spec fn init_sequence_spec(
    master_offset: u8,
    slave_offset: u8,
    saved_mask_master: u8,
    saved_mask_slave: u8,
) -> Seq<PortWrite> {
    seq![
        PortWrite { port: PIC_1_COMMAND, value: CMD_INIT },
        PortWrite { port: WAIT_PORT, value: 0 },
        PortWrite { port: PIC_2_COMMAND, value: CMD_INIT },
        PortWrite { port: WAIT_PORT, value: 0 },
        PortWrite { port: PIC_1_DATA, value: master_offset },
        PortWrite { port: WAIT_PORT, value: 0 },
        PortWrite { port: PIC_2_DATA, value: slave_offset },
        PortWrite { port: WAIT_PORT, value: 0 },
        PortWrite { port: PIC_1_DATA, value: 4 },
        PortWrite { port: WAIT_PORT, value: 0 },
        PortWrite { port: PIC_2_DATA, value: 2 },
        PortWrite { port: WAIT_PORT, value: 0 },
        PortWrite { port: PIC_1_DATA, value: MODE_8086 },
        PortWrite { port: WAIT_PORT, value: 0 },
        PortWrite { port: PIC_2_DATA, value: MODE_8086 },
        PortWrite { port: WAIT_PORT, value: 0 },
        PortWrite { port: PIC_1_DATA, value: saved_mask_master },
        PortWrite { port: PIC_2_DATA, value: saved_mask_slave },
    ]
}

impl ChainedPics {
    /// Well formed: both offsets clear the reserved exception vectors,
    /// neither range runs past the vector space, and the ranges do not
    /// overlap.
    pub open spec fn wf(self) -> bool {
        &&& self.master_offset >= RESERVED_VECTORS
        &&& self.slave_offset >= RESERVED_VECTORS
        &&& self.master_offset + LINES_PER_PIC <= 256
        &&& self.slave_offset + LINES_PER_PIC <= 256
        &&& (self.slave_offset >= self.master_offset + LINES_PER_PIC || self.master_offset
            >= self.slave_offset + LINES_PER_PIC)
    }

    /// A pair configured with the given offsets.
    pub fn new(master_offset: u8, slave_offset: u8) -> (r: Self)
        requires
            master_offset >= RESERVED_VECTORS,
            slave_offset >= RESERVED_VECTORS,
            master_offset + LINES_PER_PIC <= 256,
            slave_offset + LINES_PER_PIC <= 256,
            slave_offset >= master_offset + LINES_PER_PIC || master_offset >= slave_offset
                + LINES_PER_PIC,
        ensures
            r == (ChainedPics { master_offset, slave_offset }),
            r.wf(),
    {
        ChainedPics { master_offset, slave_offset }
    }

    /// Whether the master serves this vector.
    pub open spec fn master_handles(self, vector: u8) -> bool {
        self.master_offset <= vector < self.master_offset + LINES_PER_PIC
    }

    /// Whether the slave serves this vector.
    pub open spec fn slave_handles(self, vector: u8) -> bool {
        self.slave_offset <= vector < self.slave_offset + LINES_PER_PIC
    }

    /// Whether the pair serves this vector at all.
    pub open spec fn handles_interrupt_spec(self, vector: u8) -> bool {
        self.master_handles(vector) || self.slave_handles(vector)
    }

    /// Whether the pair serves this vector, executable.
    pub fn handles_interrupt(&self, vector: u8) -> (r: bool)
        ensures
            r == self.handles_interrupt_spec(vector),
    {
        let m = self.master_offset;
        let s = self.slave_offset;
        (m <= vector && (vector as u16) < (m as u16) + (LINES_PER_PIC as u16)) || (s <= vector
            && (vector as u16) < (s as u16) + (LINES_PER_PIC as u16))
    }

    /// The port writes that reprogram the pair to these offsets, given the
    /// line masks read back before reprogramming.
    pub fn initialize(&self, saved_mask_master: u8, saved_mask_slave: u8) -> (r: Vec<PortWrite>)
        ensures
            r@ == init_sequence_spec(
                self.master_offset,
                self.slave_offset,
                saved_mask_master,
                saved_mask_slave,
            ),
    {
        let mut w: Vec<PortWrite> = Vec::new();
        w.push(PortWrite { port: PIC_1_COMMAND, value: CMD_INIT });
        w.push(PortWrite { port: WAIT_PORT, value: 0 });
        w.push(PortWrite { port: PIC_2_COMMAND, value: CMD_INIT });
        w.push(PortWrite { port: WAIT_PORT, value: 0 });
        w.push(PortWrite { port: PIC_1_DATA, value: self.master_offset });
        w.push(PortWrite { port: WAIT_PORT, value: 0 });
        w.push(PortWrite { port: PIC_2_DATA, value: self.slave_offset });
        w.push(PortWrite { port: WAIT_PORT, value: 0 });
        w.push(PortWrite { port: PIC_1_DATA, value: 4 });
        w.push(PortWrite { port: WAIT_PORT, value: 0 });
        w.push(PortWrite { port: PIC_2_DATA, value: 2 });
        w.push(PortWrite { port: WAIT_PORT, value: 0 });
        w.push(PortWrite { port: PIC_1_DATA, value: MODE_8086 });
        w.push(PortWrite { port: WAIT_PORT, value: 0 });
        w.push(PortWrite { port: PIC_2_DATA, value: MODE_8086 });
        w.push(PortWrite { port: WAIT_PORT, value: 0 });
        w.push(PortWrite { port: PIC_1_DATA, value: saved_mask_master });
        w.push(PortWrite { port: PIC_2_DATA, value: saved_mask_slave });
        proof {
            assert(w@ =~= init_sequence_spec(
                self.master_offset,
                self.slave_offset,
                saved_mask_master,
                saved_mask_slave,
            ));
        }
        w
    }

    /// The acknowledgment writes owed for a vector: for a slave-range
    /// vector the slave first and then the master, for a master-range
    /// vector the master alone, for a vector the pair does not serve
    /// nothing.
    pub open spec fn eoi_sequence(self, vector: u8) -> Seq<PortWrite> {
        if self.slave_handles(vector) {
            seq![
                PortWrite { port: PIC_2_COMMAND, value: CMD_END_OF_INTERRUPT },
                PortWrite { port: PIC_1_COMMAND, value: CMD_END_OF_INTERRUPT },
            ]
        } else if self.master_handles(vector) {
            seq![PortWrite { port: PIC_1_COMMAND, value: CMD_END_OF_INTERRUPT }]
        } else {
            Seq::empty()
        }
    }

    /// The end-of-interrupt writes the owning handler must replay exactly
    /// once before it returns.
    pub fn notify_end_of_interrupt(&self, vector: u8) -> (r: Vec<PortWrite>)
        ensures
            r@ == self.eoi_sequence(vector),
    {
        let mut w: Vec<PortWrite> = Vec::new();
        let s = self.slave_offset;
        let m = self.master_offset;
        if s <= vector && (vector as u16) < (s as u16) + (LINES_PER_PIC as u16) {
            w.push(PortWrite { port: PIC_2_COMMAND, value: CMD_END_OF_INTERRUPT });
            w.push(PortWrite { port: PIC_1_COMMAND, value: CMD_END_OF_INTERRUPT });
        } else if m <= vector && (vector as u16) < (m as u16) + (LINES_PER_PIC as u16) {
            w.push(PortWrite { port: PIC_1_COMMAND, value: CMD_END_OF_INTERRUPT });
        }
        proof {
            assert(w@ =~= self.eoi_sequence(vector));
        }
        w
    }
}

/// How many acknowledgments a write sequence carries: every
/// acknowledgment, master-range or slave-range, ends with exactly one
/// end-of-interrupt to the master command port.
pub open spec fn ack_count(writes: Seq<PortWrite>) -> int
    decreases writes.len(),
{
    if writes.len() == 0 {
        0
    } else {
        (if writes[0] == (PortWrite { port: PIC_1_COMMAND, value: CMD_END_OF_INTERRUPT }) {
            1int
        } else {
            0int
        }) + ack_count(writes.drop_first())
    }
}

/// Law: for every vector the pair serves, the end-of-interrupt sequence
/// carries exactly one acknowledgment; for every other vector, none.
pub proof fn lemma_eoi_acknowledges_once(pics: ChainedPics, vector: u8)
    ensures
        pics.handles_interrupt_spec(vector) ==> ack_count(pics.eoi_sequence(vector)) == 1,
        !pics.handles_interrupt_spec(vector) ==> ack_count(pics.eoi_sequence(vector)) == 0,
{
    let s = pics.eoi_sequence(vector);
    reveal_with_fuel(ack_count, 4);
    if pics.slave_handles(vector) {
        assert(s.len() == 2);
        assert(s.drop_first()[0] == s[1]);
        assert(s.drop_first().drop_first().len() == 0);
        assert(ack_count(s) == 1);
    } else if pics.master_handles(vector) {
        assert(s.len() == 1);
        assert(s.drop_first().len() == 0);
        assert(ack_count(s) == 1);
    }
}

} // verus!
