//! The interrupt vector table, the exception and device handlers, and the
//! kernel context that ties them to the console, the decoder and the
//! controller bridge.
//!
//! The table is built once at boot and never mutated after it is handed to
//! the platform boundary for loading.  Dispatch looks the vector up and
//! runs the tagged handler: the breakpoint exception logs a diagnostic and
//! resumes; the double fault, and every vector without a handler, logs and
//! halts for good; the timer and keyboard handlers write through the
//! console and hand back the end-of-interrupt port writes their vector
//! owes, to be replayed exactly once before the handler returns.
use vstd::prelude::*;

use crate::keyboard::DecodedKey;
use crate::keyboard::EXTENDED_PREFIX;
use crate::keyboard::Keyboard;
use crate::keyboard::add_byte_spec;
use crate::keyboard::key_name;
use crate::keyboard::key_name_spec;
use crate::keyboard::process_event_spec;
use crate::pic::ChainedPics;
use crate::pic::PortWrite;
use crate::pic::ack_count;
use crate::pic::lemma_eoi_acknowledges_once;
use crate::vga_buffer::Color;
use crate::vga_buffer::VgaBufferWriter;
use crate::vga_buffer::write_bytes_spec;

verus! {

/// The vector the breakpoint exception traps to.
pub const BREAKPOINT_VECTOR: u8 = 3;
/// The vector the double fault traps to.
pub const DOUBLE_FAULT_VECTOR: u8 = 8;
/// Hardware interrupts start right after the reserved exception vectors.
pub const PIC_1_OFFSET: u8 = 32;
/// The slave controller's lines follow the master's.
pub const PIC_2_OFFSET: u8 = PIC_1_OFFSET + 8;
/// Slots of the vector table.
pub const IDT_SLOTS: usize = 256;

/// The device interrupt lines the table serves, by name.
#[derive(Clone, Copy, PartialEq, Eq, Structural, Debug)]
pub enum InterruptIndex {
    Timer,
    Keyboard,
}

impl InterruptIndex {
    /// The vector assigned to this line: the master controller offset plus
    /// the line number.
    pub open spec fn as_u8_spec(self) -> u8 {
        match self {
            InterruptIndex::Timer => PIC_1_OFFSET,
            InterruptIndex::Keyboard => (PIC_1_OFFSET + 1) as u8,
        }
    }

    /// The assigned vector, executable.
    pub fn as_u8(self) -> (r: u8)
        ensures
            r == self.as_u8_spec(),
    {
        match self {
            InterruptIndex::Timer => PIC_1_OFFSET,
            InterruptIndex::Keyboard => PIC_1_OFFSET + 1,
        }
    }

    /// The assigned vector as a table index.
    pub fn as_usize(self) -> (r: usize)
        ensures
            r == self.as_u8_spec() as usize,
    {
        self.as_u8() as usize
    }
}

/// The handlers a populated gate can be bound to.
#[derive(Clone, Copy, PartialEq, Eq, Structural, Debug)]
pub enum HandlerKind {
    /// Recoverable: logs and resumes.
    Breakpoint,
    /// Fatal: logs and halts for good.
    DoubleFault,
    /// Device: the timer tick.
    Timer,
    /// Device: the keyboard byte.
    Keyboard,
}

/// One populated vector-table entry: the handler tag and, where a fault
/// must run on its own stack, the dedicated stack index.
#[derive(Clone, Copy, Debug)]
pub struct GateEntry {
    pub handler: HandlerKind,
    pub stack_index: Option<u8>,
}

/// What a handler run ends in: the interrupted code resumes, or the
/// system halts permanently.
#[derive(Clone, Copy, PartialEq, Eq, Structural, Debug)]
pub enum HandlerOutcome {
    Resumed,
    Halted,
}

/// The snapshot of the interrupted context a trap hands its handler.
#[derive(Clone, Copy, PartialEq, Eq, Structural, Debug)]
pub struct InterruptStackFrame {
    pub instruction_pointer: u64,
    pub code_segment: u64,
    pub cpu_flags: u64,
    pub stack_pointer: u64,
    pub stack_segment: u64,
}

/// The vector table: one optional gate per vector, built once at boot.
pub struct InterruptDescriptorTable {
    entries: Vec<Option<GateEntry>>,
}

impl View for InterruptDescriptorTable {
    type V = Seq<Option<GateEntry>>;

    closed spec fn view(&self) -> Seq<Option<GateEntry>> {
        self.entries@
    }
}

/// The table the boot code builds: breakpoint and double fault (the
/// latter on the dedicated stack), the timer and keyboard vectors, every
/// other slot unpopulated.
pub open spec fn idt_layout(double_fault_stack_index: u8) -> Seq<Option<GateEntry>> {
    Seq::new(
        IDT_SLOTS as nat,
        |v: int|
            if v == BREAKPOINT_VECTOR {
                Some(GateEntry { handler: HandlerKind::Breakpoint, stack_index: None })
            } else if v == DOUBLE_FAULT_VECTOR {
                Some(
                    GateEntry {
                        handler: HandlerKind::DoubleFault,
                        stack_index: Some(double_fault_stack_index),
                    },
                )
            } else if v == PIC_1_OFFSET {
                Some(GateEntry { handler: HandlerKind::Timer, stack_index: None })
            } else if v == PIC_1_OFFSET + 1 {
                Some(GateEntry { handler: HandlerKind::Keyboard, stack_index: None })
            } else {
                None
            },
    )
}

impl InterruptDescriptorTable {
    /// Well formed: one slot per vector.
    pub open spec fn wf(self) -> bool {
        self@.len() == IDT_SLOTS
    }

    /// Reads the table slot for a vector.
    pub fn get(&self, vector: u8) -> (r: Option<GateEntry>)
        requires
            self.wf(),
        ensures
            r == self@[vector as int],
    {
        self.entries[vector as usize]
    }
}

/// Builds the vector table: breakpoint, double fault bound to the
/// dedicated stack index the segment setup supplies, and the two device
/// vectors.
pub fn init_idt(double_fault_stack_index: u8) -> (idt: InterruptDescriptorTable)
    ensures
        idt.wf(),
        idt@ == idt_layout(double_fault_stack_index),
{
    let mut entries: Vec<Option<GateEntry>> = Vec::new();
    let mut i: usize = 0;
    while i < IDT_SLOTS
        invariant
            i == entries@.len(),
            i <= IDT_SLOTS,
            forall|j: int| 0 <= j < i ==> entries@[j] is None,
        decreases IDT_SLOTS - i,
    {
        entries.push(None);
        i = i + 1;
    }
    entries.set(
        BREAKPOINT_VECTOR as usize,
        Some(GateEntry { handler: HandlerKind::Breakpoint, stack_index: None }),
    );
    entries.set(
        DOUBLE_FAULT_VECTOR as usize,
        Some(
            GateEntry {
                handler: HandlerKind::DoubleFault,
                stack_index: Some(double_fault_stack_index),
            },
        ),
    );
    entries.set(
        PIC_1_OFFSET as usize,
        Some(GateEntry { handler: HandlerKind::Timer, stack_index: None }),
    );
    entries.set(
        PIC_1_OFFSET as usize + 1,
        Some(GateEntry { handler: HandlerKind::Keyboard, stack_index: None }),
    );
    proof {
        assert(entries@ =~= idt_layout(double_fault_stack_index));
    }
    InterruptDescriptorTable { entries }
}

/// The low quadword of an interrupt-gate descriptor: handler address bits
/// 0..16, the code-segment selector, the dedicated-stack index (0 for
/// none), the options byte — gate type 1110, the privilege level, the
/// present bit — and handler address bits 16..32.
pub open spec fn gate_low_spec(addr: u64, selector: u64, ist_index: u64, dpl: u64) -> u64 {
    (addr & 0xFFFF) | (selector << 16) | (ist_index << 32) | ((0x8Eu64 | (dpl << 5)) << 40) | ((
    (addr >> 16) & 0xFFFF) << 48)
}

/// The high quadword of an interrupt-gate descriptor: handler address
/// bits 32..64.
pub open spec fn gate_high_spec(addr: u64) -> u64 {
    addr >> 32
}

/// Encodes one interrupt-gate descriptor for the platform boundary to
/// place in the loaded table.
pub fn encode_gate(addr: u64, selector: u16, ist_index: u8, dpl: u8) -> (r: (u64, u64))
    requires
        ist_index < 8,
        dpl < 4,
    ensures
        r.0 == gate_low_spec(addr, selector as u64, ist_index as u64, dpl as u64),
        r.1 == gate_high_spec(addr),
{
    let low = (addr & 0xFFFF) | ((selector as u64) << 16) | ((ist_index as u64) << 32) | ((
    0x8Eu64 | ((dpl as u64) << 5)) << 40) | (((addr >> 16) & 0xFFFF) << 48);
    (low, addr >> 32)
}

/// Law: the descriptor encoding loses nothing — the handler address, the
/// selector, the stack index and the privilege level can all be read back
/// from the two quadwords, and the present bit is set.
pub proof fn lemma_gate_encoding_recovers(addr: u64, selector: u64, ist_index: u64, dpl: u64)
    requires
        selector < 0x10000,
        ist_index < 8,
        dpl < 4,
    ensures
        gate_low_spec(addr, selector, ist_index, dpl) & 0xFFFF == addr & 0xFFFF,
        (gate_low_spec(addr, selector, ist_index, dpl) >> 48) & 0xFFFF == (addr >> 16) & 0xFFFF,
        (gate_low_spec(addr, selector, ist_index, dpl) >> 16) & 0xFFFF == selector,
        (gate_low_spec(addr, selector, ist_index, dpl) >> 32) & 0x7 == ist_index,
        (gate_low_spec(addr, selector, ist_index, dpl) >> 45) & 0x3 == dpl,
        (gate_low_spec(addr, selector, ist_index, dpl) >> 47) & 0x1 == 1,
{
    assert((selector < 0x10000 && ist_index < 8 && dpl < 4) ==> {
        &&& ((addr & 0xFFFF) | (selector << 16) | (ist_index << 32) | ((0x8Eu64 | (dpl << 5))
            << 40) | (((addr >> 16) & 0xFFFF) << 48)) & 0xFFFF == addr & 0xFFFF
        &&& (((addr & 0xFFFF) | (selector << 16) | (ist_index << 32) | ((0x8Eu64 | (dpl << 5))
            << 40) | (((addr >> 16) & 0xFFFF) << 48)) >> 48) & 0xFFFF == (addr >> 16) & 0xFFFF
        &&& (((addr & 0xFFFF) | (selector << 16) | (ist_index << 32) | ((0x8Eu64 | (dpl << 5))
            << 40) | (((addr >> 16) & 0xFFFF) << 48)) >> 16) & 0xFFFF == selector
        &&& (((addr & 0xFFFF) | (selector << 16) | (ist_index << 32) | ((0x8Eu64 | (dpl << 5))
            << 40) | (((addr >> 16) & 0xFFFF) << 48)) >> 32) & 0x7 == ist_index
        &&& (((addr & 0xFFFF) | (selector << 16) | (ist_index << 32) | ((0x8Eu64 | (dpl << 5))
            << 40) | (((addr >> 16) & 0xFFFF) << 48)) >> 45) & 0x3 == dpl
        &&& (((addr & 0xFFFF) | (selector << 16) | (ist_index << 32) | ((0x8Eu64 | (dpl << 5))
            << 40) | (((addr >> 16) & 0xFFFF) << 48)) >> 47) & 0x1 == 1
    }) by (bit_vector);
}

/// One hexadecimal digit as its ASCII byte.
pub open spec fn hex_digit(n: u8) -> u8 {
    if n < 10 {
        (0x30 + n) as u8
    } else {
        (0x57 + n) as u8
    }
}

/// The hexadecimal digits of a number, most significant first, no leading
/// zeros except for zero itself.
pub open spec fn hex_seq(n: u64) -> Seq<u8>
    decreases n,
{
    if n < 16 {
        seq![hex_digit(n as u8)]
    } else {
        hex_seq(n / 16) + seq![hex_digit((n % 16) as u8)]
    }
}

/// One hexadecimal digit, executable.
pub fn hex_digit_exec(n: u8) -> (r: u8)
    requires
        n < 16,
    ensures
        r == hex_digit(n),
{
    if n < 10 {
        0x30 + n
    } else {
        0x57 + n
    }
}

/// The hexadecimal digits of a number, executable.
pub fn u64_to_hex(n: u64) -> (r: Vec<u8>)
    ensures
        r@ == hex_seq(n),
    decreases n,
{
    if n < 16 {
        let mut v: Vec<u8> = Vec::new();
        v.push(hex_digit_exec(n as u8));
        proof {
            assert(v@ =~= hex_seq(n));
        }
        v
    } else {
        let mut v = u64_to_hex(n / 16);
        v.push(hex_digit_exec((n % 16) as u8));
        proof {
            assert(v@ =~= hex_seq(n));
        }
        v
    }
}

/// `"EXCEPTION: BREAKPOINT ip=0x"`.
pub open spec fn breakpoint_tag() -> Seq<u8> {
    seq![
        0x45u8, 0x58, 0x43, 0x45, 0x50, 0x54, 0x49, 0x4F, 0x4E, 0x3A, 0x20, 0x42, 0x52, 0x45,
        0x41, 0x4B, 0x50, 0x4F, 0x49, 0x4E, 0x54, 0x20, 0x69, 0x70, 0x3D, 0x30, 0x78,
    ]
}

/// `"EXCEPTION: DOUBLE FAULT ip=0x"`.
pub open spec fn double_fault_tag() -> Seq<u8> {
    seq![
        0x45u8, 0x58, 0x43, 0x45, 0x50, 0x54, 0x49, 0x4F, 0x4E, 0x3A, 0x20, 0x44, 0x4F, 0x55,
        0x42, 0x4C, 0x45, 0x20, 0x46, 0x41, 0x55, 0x4C, 0x54, 0x20, 0x69, 0x70, 0x3D, 0x30,
        0x78,
    ]
}

/// `"EXCEPTION: UNHANDLED VECTOR 0x"`.
pub open spec fn unhandled_tag() -> Seq<u8> {
    seq![
        0x45u8, 0x58, 0x43, 0x45, 0x50, 0x54, 0x49, 0x4F, 0x4E, 0x3A, 0x20, 0x55, 0x4E, 0x48,
        0x41, 0x4E, 0x44, 0x4C, 0x45, 0x44, 0x20, 0x56, 0x45, 0x43, 0x54, 0x4F, 0x52, 0x20,
        0x30, 0x78,
    ]
}

/// The breakpoint diagnostic: the tag, the trapping instruction pointer
/// in hexadecimal, a newline.
pub open spec fn breakpoint_message(frame: InterruptStackFrame) -> Seq<u8> {
    breakpoint_tag() + hex_seq(frame.instruction_pointer) + seq![10u8]
}

/// The double-fault diagnostic.
pub open spec fn double_fault_message(frame: InterruptStackFrame) -> Seq<u8> {
    double_fault_tag() + hex_seq(frame.instruction_pointer) + seq![10u8]
}

/// The diagnostic for a vector without a handler.
pub open spec fn unhandled_message(vector: u8) -> Seq<u8> {
    unhandled_tag() + hex_seq(vector as u64) + seq![10u8]
}

/// The decoder state after one keyboard interrupt fed it one byte.
pub open spec fn keyboard_after(st: Keyboard, scancode: u8) -> Keyboard {
    let st1 = add_byte_spec(st, scancode).0;
    match add_byte_spec(st, scancode).1 {
        None => st1,
        Some(ev) => process_event_spec(st1, ev).0,
    }
}

/// What one keyboard interrupt puts on the console: the decoded
/// character's byte, a raw key's name, or nothing while the sequence is
/// incomplete, dropped, or the event decodes to nothing.
pub open spec fn keyboard_output(st: Keyboard, scancode: u8) -> Seq<u8> {
    let st1 = add_byte_spec(st, scancode).0;
    match add_byte_spec(st, scancode).1 {
        None => Seq::empty(),
        Some(ev) => match process_event_spec(st1, ev).1 {
            None => Seq::empty(),
            Some(DecodedKey::Unicode(c)) => seq![(c as u32) as u8],
            Some(DecodedKey::RawKey(k)) => key_name_spec(k),
        },
    }
}

/// The process-wide kernel context, assembled once at boot and referenced
/// by every handler.
pub struct Kernel {
    pub idt: InterruptDescriptorTable,
    pub pics: ChainedPics,
    pub keyboard: Keyboard,
    pub writer: VgaBufferWriter,
    pub initialized: bool,
    pub interrupts_enabled: bool,
}

impl Kernel {
    /// Well formed: the table has its slots, the console is intact, and
    /// the controller pair carries the canonical offsets, clear of the
    /// reserved exception vectors.
    pub open spec fn wf(self) -> bool {
        &&& self.idt.wf()
        &&& self.writer.wf()
        &&& self.pics == (ChainedPics {
            master_offset: PIC_1_OFFSET,
            slave_offset: PIC_2_OFFSET,
        })
    }

    /// Assembles the boot context: the table built around the dedicated
    /// double-fault stack index, the controller pair at the canonical
    /// offsets, a fresh decoder, a cleared console, nothing initialized
    /// yet.
    pub fn new(double_fault_stack_index: u8) -> (r: Self)
        ensures
            r.wf(),
            !r.initialized,
            r.idt@ == idt_layout(double_fault_stack_index),
            r.writer@.cleared(),
            r.writer@.color == Color::White,
            !r.keyboard.extended,
            !r.keyboard.lshift,
            !r.keyboard.rshift,
            !r.interrupts_enabled,
    {
        Kernel {
            idt: init_idt(double_fault_stack_index),
            pics: ChainedPics::new(PIC_1_OFFSET, PIC_2_OFFSET),
            keyboard: Keyboard::new(),
            writer: VgaBufferWriter::new(),
            initialized: false,
            interrupts_enabled: false,
        }
    }

    /// The one-time initialization: the first call marks the context live
    /// and yields the controller reprogramming sequence for the platform
    /// boundary to replay; every later call changes nothing and yields
    /// nothing.  Hardware interrupts must not be enabled before this ran.
    pub fn init(&mut self, saved_mask_master: u8, saved_mask_slave: u8) -> (r: Vec<PortWrite>)
        requires
            old(self).wf(),
        ensures
            final(self).wf(),
            final(self).initialized,
            final(self).interrupts_enabled == old(self).interrupts_enabled,
            final(self).idt@ == old(self).idt@,
            final(self).pics == old(self).pics,
            final(self).keyboard == old(self).keyboard,
            final(self).writer == old(self).writer,
            !old(self).initialized ==> r@ == crate::pic::init_sequence_spec(
                PIC_1_OFFSET,
                PIC_2_OFFSET,
                saved_mask_master,
                saved_mask_slave,
            ),
            old(self).initialized ==> r@ == Seq::<PortWrite>::empty(),
    {
        if !self.initialized {
            self.initialized = true;
            self.pics.initialize(saved_mask_master, saved_mask_slave)
        } else {
            let r: Vec<PortWrite> = Vec::new();
            proof {
                assert(r@ =~= Seq::<PortWrite>::empty());
            }
            r
        }
    }

    /// Marks hardware interrupts enabled.  The table must be fully built
    /// and loaded first — hence the demand for an initialized context;
    /// enabling earlier is undefined CPU behaviour.
    pub fn enable_interrupts(&mut self)
        requires
            old(self).wf(),
            old(self).initialized,
        ensures
            final(self).wf(),
            final(self).interrupts_enabled,
            final(self).idt@ == old(self).idt@,
            final(self).pics == old(self).pics,
            final(self).keyboard == old(self).keyboard,
            final(self).writer == old(self).writer,
            final(self).initialized == old(self).initialized,
    {
        self.interrupts_enabled = true;
    }

    /// The critical-section discipline every normal-context write path
    /// owes: hardware interrupts are masked before the console is taken
    /// and for the whole write, and the prior mask state — whatever it
    /// was — is restored on exit.  A device handler that preempted the
    /// write and tried the same console would otherwise deadlock.
    pub fn console_print(&mut self, color: Color, s: &[u8])
        requires
            old(self).wf(),
        ensures
            final(self).wf(),
            final(self).interrupts_enabled == old(self).interrupts_enabled,
            final(self).writer@ == write_bytes_spec(old(self).writer@.with_color(color), s@),
            final(self).idt@ == old(self).idt@,
            final(self).pics == old(self).pics,
            final(self).keyboard == old(self).keyboard,
            final(self).initialized == old(self).initialized,
    {
        let saved = self.interrupts_enabled;
        self.interrupts_enabled = false;
        self.writer.print(color, s);
        self.interrupts_enabled = saved;
    }

    /// The breakpoint handler: logs the context snapshot and resumes at
    /// the trapping instruction's successor.
    pub fn breakpoint_handler(&mut self, stack_frame: InterruptStackFrame) -> (r: HandlerOutcome)
        requires
            old(self).wf(),
        ensures
            final(self).wf(),
            r == HandlerOutcome::Resumed,
            final(self).writer@ == write_bytes_spec(
                old(self).writer@.with_color(Color::White),
                breakpoint_message(stack_frame),
            ),
            final(self).idt@ == old(self).idt@,
            final(self).pics == old(self).pics,
            final(self).keyboard == old(self).keyboard,
            final(self).initialized == old(self).initialized,
            final(self).interrupts_enabled == old(self).interrupts_enabled,
    {
        let mut msg: Vec<u8> = vec![
            0x45, 0x58, 0x43, 0x45, 0x50, 0x54, 0x49, 0x4F, 0x4E, 0x3A, 0x20, 0x42, 0x52, 0x45,
            0x41, 0x4B, 0x50, 0x4F, 0x49, 0x4E, 0x54, 0x20, 0x69, 0x70, 0x3D, 0x30, 0x78,
        ];
        proof {
            assert(msg@ =~= breakpoint_tag());
        }
        let mut digits = u64_to_hex(stack_frame.instruction_pointer);
        msg.append(&mut digits);
        msg.push(10);
        proof {
            assert(msg@ =~= breakpoint_message(stack_frame));
        }
        self.writer.print(Color::White, msg.as_slice());
        HandlerOutcome::Resumed
    }

    /// The double-fault handler: logs the snapshot and never hands
    /// control back — the system halts for good, on the dedicated stack
    /// its gate names.
    pub fn double_fault_handler(
        &mut self,
        stack_frame: InterruptStackFrame,
        _error_code: u64,
    ) -> (r: HandlerOutcome)
        requires
            old(self).wf(),
        ensures
            final(self).wf(),
            r == HandlerOutcome::Halted,
            final(self).writer@ == write_bytes_spec(
                old(self).writer@.with_color(Color::White),
                double_fault_message(stack_frame),
            ),
            final(self).idt@ == old(self).idt@,
            final(self).pics == old(self).pics,
            final(self).keyboard == old(self).keyboard,
            final(self).initialized == old(self).initialized,
            final(self).interrupts_enabled == old(self).interrupts_enabled,
    {
        let mut msg: Vec<u8> = vec![
            0x45, 0x58, 0x43, 0x45, 0x50, 0x54, 0x49, 0x4F, 0x4E, 0x3A, 0x20, 0x44, 0x4F, 0x55,
            0x42, 0x4C, 0x45, 0x20, 0x46, 0x41, 0x55, 0x4C, 0x54, 0x20, 0x69, 0x70, 0x3D, 0x30,
            0x78,
        ];
        proof {
            assert(msg@ =~= double_fault_tag());
        }
        let mut digits = u64_to_hex(stack_frame.instruction_pointer);
        msg.append(&mut digits);
        msg.push(10);
        proof {
            assert(msg@ =~= double_fault_message(stack_frame));
        }
        self.writer.print(Color::White, msg.as_slice());
        HandlerOutcome::Halted
    }

    /// The timer handler: emits the tick marker, then hands back the
    /// end-of-interrupt writes its vector owes.
    pub fn timer_interrupt_handler(&mut self) -> (acks: Vec<PortWrite>)
        requires
            old(self).wf(),
        ensures
            final(self).wf(),
            final(self).writer@ == write_bytes_spec(
                old(self).writer@.with_color(Color::White),
                seq![0x2Eu8],
            ),
            acks@ == old(self).pics.eoi_sequence(InterruptIndex::Timer.as_u8_spec()),
            final(self).idt@ == old(self).idt@,
            final(self).pics == old(self).pics,
            final(self).keyboard == old(self).keyboard,
            final(self).initialized == old(self).initialized,
            final(self).interrupts_enabled == old(self).interrupts_enabled,
    {
        let dot: Vec<u8> = vec![0x2E];
        proof {
            assert(dot@ =~= seq![0x2Eu8]);
        }
        self.writer.print(Color::White, dot.as_slice());
        self.pics.notify_end_of_interrupt(InterruptIndex::Timer.as_u8())
    }

    /// The keyboard handler: feeds the port byte to the decoder, writes
    /// the decoded character or the raw key's name if one completes, and
    /// hands back the end-of-interrupt writes its vector owes whether or
    /// not an event was produced.
    pub fn keyboard_interrupt_handler(&mut self, scancode: u8) -> (acks: Vec<PortWrite>)
        requires
            old(self).wf(),
        ensures
            final(self).wf(),
            final(self).keyboard == keyboard_after(old(self).keyboard, scancode),
            keyboard_output(old(self).keyboard, scancode).len() == 0 ==> final(self).writer
                == old(self).writer,
            keyboard_output(old(self).keyboard, scancode).len() > 0 ==> final(self).writer@
                == write_bytes_spec(
                old(self).writer@.with_color(Color::White),
                keyboard_output(old(self).keyboard, scancode),
            ),
            acks@ == old(self).pics.eoi_sequence(InterruptIndex::Keyboard.as_u8_spec()),
            final(self).idt@ == old(self).idt@,
            final(self).pics == old(self).pics,
            final(self).initialized == old(self).initialized,
            final(self).interrupts_enabled == old(self).interrupts_enabled,
    {
        let ev = self.keyboard.add_byte(scancode);
        match ev {
            Some(e) => {
                let dk = self.keyboard.process_keyevent(e);
                match dk {
                    Some(DecodedKey::Unicode(c)) => {
                        let u = c as u32;
                        let b = u as u8;
                        let mut one: Vec<u8> = Vec::new();
                        one.push(b);
                        proof {
                            assert(one@ =~= keyboard_output(old(self).keyboard, scancode));
                        }
                        self.writer.print(Color::White, one.as_slice());
                    },
                    Some(DecodedKey::RawKey(k)) => {
                        let name = key_name(k);
                        if name.len() > 0 {
                            self.writer.print(Color::White, name.as_slice());
                        }
                    },
                    None => {},
                }
            },
            None => {},
        }
        self.pics.notify_end_of_interrupt(InterruptIndex::Keyboard.as_u8())
    }

    /// The dispatcher the platform boundary trampolines every trap into:
    /// looks the vector up and runs its tagged handler.  A populated
    /// recoverable gate resumes; the double fault and every unpopulated
    /// vector halt for good.  The writes in the second result are the
    /// end-of-interrupt acknowledgments the dispatched vector owes.
    pub fn dispatch(
        &mut self,
        vector: u8,
        frame: InterruptStackFrame,
        error_code: u64,
        data: u8,
    ) -> (r: (HandlerOutcome, Vec<PortWrite>))
        requires
            old(self).wf(),
            old(self).initialized,
        ensures
            final(self).wf(),
            final(self).initialized,
            final(self).interrupts_enabled == old(self).interrupts_enabled,
            final(self).idt@ == old(self).idt@,
            final(self).pics == old(self).pics,
            old(self).idt@[vector as int] is None ==> (r.0 == HandlerOutcome::Halted && r.1@
                == Seq::<PortWrite>::empty() && final(self).writer@ == write_bytes_spec(
                old(self).writer@.with_color(Color::White),
                unhandled_message(vector),
            ) && final(self).keyboard == old(self).keyboard),
            (old(self).idt@[vector as int] matches Some(e) && e.handler
                == HandlerKind::Breakpoint) ==> (r.0 == HandlerOutcome::Resumed && r.1@
                == Seq::<PortWrite>::empty() && final(self).writer@ == write_bytes_spec(
                old(self).writer@.with_color(Color::White),
                breakpoint_message(frame),
            ) && final(self).keyboard == old(self).keyboard),
            (old(self).idt@[vector as int] matches Some(e) && e.handler
                == HandlerKind::DoubleFault) ==> (r.0 == HandlerOutcome::Halted && r.1@
                == Seq::<PortWrite>::empty() && final(self).writer@ == write_bytes_spec(
                old(self).writer@.with_color(Color::White),
                double_fault_message(frame),
            ) && final(self).keyboard == old(self).keyboard),
            (old(self).idt@[vector as int] matches Some(e) && e.handler == HandlerKind::Timer)
                ==> (r.0 == HandlerOutcome::Resumed && r.1@ == old(self).pics.eoi_sequence(
                InterruptIndex::Timer.as_u8_spec(),
            ) && final(self).writer@ == write_bytes_spec(
                old(self).writer@.with_color(Color::White),
                seq![0x2Eu8],
            ) && final(self).keyboard == old(self).keyboard),
            (old(self).idt@[vector as int] matches Some(e) && e.handler == HandlerKind::Keyboard)
                ==> (r.0 == HandlerOutcome::Resumed && r.1@ == old(self).pics.eoi_sequence(
                InterruptIndex::Keyboard.as_u8_spec(),
            ) && final(self).keyboard == keyboard_after(old(self).keyboard, data) && (
            keyboard_output(old(self).keyboard, data).len() == 0 ==> final(self).writer
                == old(self).writer) && (keyboard_output(old(self).keyboard, data).len() > 0
                ==> final(self).writer@ == write_bytes_spec(
                old(self).writer@.with_color(Color::White),
                keyboard_output(old(self).keyboard, data),
            ))),
    {
        let entry = self.idt.get(vector);
        match entry {
            None => {
                let mut msg: Vec<u8> = vec![
                    0x45, 0x58, 0x43, 0x45, 0x50, 0x54, 0x49, 0x4F, 0x4E, 0x3A, 0x20, 0x55, 0x4E,
                    0x48, 0x41, 0x4E, 0x44, 0x4C, 0x45, 0x44, 0x20, 0x56, 0x45, 0x43, 0x54, 0x4F,
                    0x52, 0x20, 0x30, 0x78,
                ];
                proof {
                    assert(msg@ =~= unhandled_tag());
                }
                let mut digits = u64_to_hex(vector as u64);
                msg.append(&mut digits);
                msg.push(10);
                proof {
                    assert(msg@ =~= unhandled_message(vector));
                }
                self.writer.print(Color::White, msg.as_slice());
                let acks: Vec<PortWrite> = Vec::new();
                proof {
                    assert(acks@ =~= Seq::<PortWrite>::empty());
                }
                (HandlerOutcome::Halted, acks)
            },
            Some(e) => match e.handler {
                HandlerKind::Breakpoint => {
                    let o = self.breakpoint_handler(frame);
                    let acks: Vec<PortWrite> = Vec::new();
                    proof {
                        assert(acks@ =~= Seq::<PortWrite>::empty());
                    }
                    (o, acks)
                },
                HandlerKind::DoubleFault => {
                    let o = self.double_fault_handler(frame, error_code);
                    let acks: Vec<PortWrite> = Vec::new();
                    proof {
                        assert(acks@ =~= Seq::<PortWrite>::empty());
                    }
                    (o, acks)
                },
                HandlerKind::Timer => {
                    let acks = self.timer_interrupt_handler();
                    (HandlerOutcome::Resumed, acks)
                },
                HandlerKind::Keyboard => {
                    let acks = self.keyboard_interrupt_handler(data);
                    (HandlerOutcome::Resumed, acks)
                },
            },
        }
    }
}

/// Law: in a well-formed kernel, the acknowledgment sequence either
/// device handler hands back carries exactly one end-of-interrupt — one
/// per dispatched hardware interrupt, keyboard events complete or not —
/// and a keyboard interrupt carrying only the incomplete extended prefix,
/// while still owing that acknowledgment, puts nothing on the console.
pub proof fn lemma_device_dispatch_acknowledges_once(k: Kernel, kb: Keyboard)
    requires
        k.wf(),
    ensures
        ack_count(k.pics.eoi_sequence(InterruptIndex::Timer.as_u8_spec())) == 1,
        ack_count(k.pics.eoi_sequence(InterruptIndex::Keyboard.as_u8_spec())) == 1,
        keyboard_output(kb, EXTENDED_PREFIX) == Seq::<u8>::empty(),
{
    lemma_eoi_acknowledges_once(k.pics, InterruptIndex::Timer.as_u8_spec());
    lemma_eoi_acknowledges_once(k.pics, InterruptIndex::Keyboard.as_u8_spec());
}

} // verus!
