use oscore::interrupts::{
    encode_gate, init_idt, u64_to_hex, HandlerKind, HandlerOutcome, InterruptIndex,
    InterruptStackFrame, Kernel, BREAKPOINT_VECTOR, DOUBLE_FAULT_VECTOR, PIC_1_OFFSET,
    PIC_2_OFFSET,
};
use oscore::pic::{ChainedPics, PortWrite, CMD_END_OF_INTERRUPT, PIC_1_COMMAND, PIC_2_COMMAND};
use oscore::vga_buffer::{Color, BUFFER_HEIGHT};

fn frame() -> InterruptStackFrame {
    InterruptStackFrame {
        instruction_pointer: 0xDEADBEEF,
        code_segment: 8,
        cpu_flags: 0x202,
        stack_pointer: 0x8000,
        stack_segment: 0,
    }
}

#[test]
fn interrupt_lines_map_past_the_reserved_vectors() {
    assert_eq!(InterruptIndex::Timer.as_u8(), 32);
    assert_eq!(InterruptIndex::Keyboard.as_u8(), 33);
    assert_eq!(InterruptIndex::Timer.as_usize(), 32);
    assert_eq!(InterruptIndex::Keyboard.as_usize(), 33);
    assert_eq!(PIC_1_OFFSET, 32);
    assert_eq!(PIC_2_OFFSET, 40);
}

#[test]
fn the_table_populates_exactly_four_vectors() {
    let idt = init_idt(1);
    let bp = idt.get(BREAKPOINT_VECTOR).unwrap();
    assert_eq!(bp.handler, HandlerKind::Breakpoint);
    assert_eq!(bp.stack_index, None);
    let df = idt.get(DOUBLE_FAULT_VECTOR).unwrap();
    assert_eq!(df.handler, HandlerKind::DoubleFault);
    assert_eq!(df.stack_index, Some(1));
    assert_eq!(idt.get(32).unwrap().handler, HandlerKind::Timer);
    assert_eq!(idt.get(33).unwrap().handler, HandlerKind::Keyboard);
    for v in 0..=255u8 {
        if v != 3 && v != 8 && v != 32 && v != 33 {
            assert!(idt.get(v).is_none(), "vector {v} must stay unpopulated");
        }
    }
}

#[test]
fn remap_then_timer_acknowledges_only_the_master() {
    let mut k = Kernel::new(1);
    let writes = k.init(0xFC, 0xFF);
    assert_eq!(writes.len(), 18);
    assert_eq!(writes[0], PortWrite { port: 0x20, value: 0x11 });
    assert_eq!(writes[2], PortWrite { port: 0xA0, value: 0x11 });
    assert_eq!(writes[4], PortWrite { port: 0x21, value: 32 });
    assert_eq!(writes[6], PortWrite { port: 0xA1, value: 40 });
    assert_eq!(writes[16], PortWrite { port: 0x21, value: 0xFC });
    assert_eq!(writes[17], PortWrite { port: 0xA1, value: 0xFF });

    let (outcome, acks) = k.dispatch(32, frame(), 0, 0);
    assert_eq!(outcome, HandlerOutcome::Resumed);
    assert_eq!(
        acks,
        vec![PortWrite { port: PIC_1_COMMAND, value: CMD_END_OF_INTERRUPT }]
    );
    assert_eq!(k.writer.char_at(BUFFER_HEIGHT - 1, 0).ascii_character, b'.');
}

#[test]
fn initialization_runs_once() {
    let mut k = Kernel::new(1);
    let first = k.init(0, 0);
    assert_eq!(first.len(), 18);
    let second = k.init(0, 0);
    assert!(second.is_empty());
}

#[test]
fn keyboard_line_writes_the_decoded_character() {
    let mut k = Kernel::new(1);
    k.init(0, 0);
    let (outcome, acks) = k.dispatch(33, frame(), 0, 0x1E);
    assert_eq!(outcome, HandlerOutcome::Resumed);
    assert_eq!(
        acks,
        vec![PortWrite { port: PIC_1_COMMAND, value: CMD_END_OF_INTERRUPT }]
    );
    assert_eq!(k.writer.char_at(BUFFER_HEIGHT - 1, 0).ascii_character, b'a');
    assert_eq!(k.writer.cursor_col(), 1);
}

#[test]
fn incomplete_sequence_still_acknowledges_but_writes_nothing() {
    let mut k = Kernel::new(1);
    k.init(0, 0);
    let (outcome, acks) = k.dispatch(33, frame(), 0, 0xE0);
    assert_eq!(outcome, HandlerOutcome::Resumed);
    assert_eq!(acks.len(), 1);
    assert_eq!(
        acks[0],
        PortWrite { port: PIC_1_COMMAND, value: CMD_END_OF_INTERRUPT }
    );
    assert_eq!(k.writer.cursor_col(), 0);
    assert_eq!(k.writer.char_at(BUFFER_HEIGHT - 1, 0).ascii_character, 0);
}

#[test]
fn breakpoint_resumes_and_logs() {
    let mut k = Kernel::new(1);
    k.init(0, 0);
    let (outcome, acks) = k.dispatch(BREAKPOINT_VECTOR, frame(), 0, 0);
    assert_eq!(outcome, HandlerOutcome::Resumed);
    assert!(acks.is_empty());
    let expected = b"EXCEPTION: BREAKPOINT ip=0xdeadbeef";
    for (i, &b) in expected.iter().enumerate() {
        assert_eq!(k.writer.char_at(BUFFER_HEIGHT - 2, i).ascii_character, b);
    }
}

#[test]
fn double_fault_halts() {
    let mut k = Kernel::new(1);
    k.init(0, 0);
    let (outcome, acks) = k.dispatch(DOUBLE_FAULT_VECTOR, frame(), 0, 0);
    assert_eq!(outcome, HandlerOutcome::Halted);
    assert!(acks.is_empty());
    let expected = b"EXCEPTION: DOUBLE FAULT ip=0xdeadbeef";
    for (i, &b) in expected.iter().enumerate() {
        assert_eq!(k.writer.char_at(BUFFER_HEIGHT - 2, i).ascii_character, b);
    }
}

#[test]
fn unpopulated_vector_halts() {
    let mut k = Kernel::new(1);
    k.init(0, 0);
    let (outcome, acks) = k.dispatch(100, frame(), 0, 0);
    assert_eq!(outcome, HandlerOutcome::Halted);
    assert!(acks.is_empty());
    let expected = b"EXCEPTION: UNHANDLED VECTOR 0x64";
    for (i, &b) in expected.iter().enumerate() {
        assert_eq!(k.writer.char_at(BUFFER_HEIGHT - 2, i).ascii_character, b);
    }
}

#[test]
fn slave_range_vector_acknowledges_slave_then_master() {
    let pics = ChainedPics::new(32, 40);
    assert!(pics.handles_interrupt(44));
    assert!(!pics.handles_interrupt(48));
    let acks = pics.notify_end_of_interrupt(44);
    assert_eq!(
        acks,
        vec![
            PortWrite { port: PIC_2_COMMAND, value: CMD_END_OF_INTERRUPT },
            PortWrite { port: PIC_1_COMMAND, value: CMD_END_OF_INTERRUPT },
        ]
    );
    assert!(pics.notify_end_of_interrupt(10).is_empty());
}

#[test]
fn gate_encoding_matches_the_documented_layout() {
    let (low, high) = encode_gate(0x0000_0000_8000_1234, 0x08, 1, 0);
    assert_eq!(low, 0x80008E0100081234);
    assert_eq!(high, 0);
    let (low, high) = encode_gate(0xFFFF_8000_0010_ABCD, 0x08, 0, 0);
    assert_eq!(low, 0x00108E000008ABCD);
    assert_eq!(high, 0xFFFF8000);
}

#[test]
fn hexadecimal_rendering_is_exact() {
    assert_eq!(u64_to_hex(0), b"0".to_vec());
    assert_eq!(u64_to_hex(255), b"ff".to_vec());
    assert_eq!(u64_to_hex(0xDEADBEEF), b"deadbeef".to_vec());
    assert_eq!(u64_to_hex(16), b"10".to_vec());
}

#[test]
fn masked_console_write_restores_the_interrupt_flag() {
    let mut k = Kernel::new(1);
    k.init(0, 0);
    assert!(!k.interrupts_enabled);
    k.console_print(Color::White, b"x");
    assert!(!k.interrupts_enabled);
    k.enable_interrupts();
    k.console_print(Color::White, b"y");
    assert!(k.interrupts_enabled);
    assert_eq!(k.writer.char_at(BUFFER_HEIGHT - 1, 0).ascii_character, b'x');
    assert_eq!(k.writer.char_at(BUFFER_HEIGHT - 1, 1).ascii_character, b'y');
}
