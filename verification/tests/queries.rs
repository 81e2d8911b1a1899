use debugger_core::queries::{
    build_callstack_result, build_disassembly_result, build_memory_read_emit,
    build_memory_regions_result, build_memory_write_emit, build_symbols_result, CallFrame,
    Instruction, MemoryReadEmit, MemoryRegionInfo, MemoryWriteEmit, ResolvedSymbol, SymbolInfo,
};

#[test]
fn disassembly_payload_formats_instructions() {
    let instructions = vec![
        Instruction {
            address: 0x401000,
            bytes: vec![0x90],
            mnemonic: "nop".to_string(),
            op_str: "".to_string(),
            symbolized_op_str: None,
            symbol_info: None,
        },
        Instruction {
            address: 0x401001,
            bytes: vec![0x48, 0x8B, 0x05],
            mnemonic: "mov".to_string(),
            op_str: "rax, [rip+0x10]".to_string(),
            symbolized_op_str: Some("rax, [ntdll!Thing]".to_string()),
            symbol_info: Some(SymbolInfo {
                module_name: "target".to_string(),
                symbol_name: "main".to_string(),
                offset: 0x1A,
            }),
        },
    ];
    let r = build_disassembly_result("session_1".to_string(), 0x401000, &instructions);
    assert_eq!(r.session_id, "session_1");
    assert_eq!(r.address, 0x401000);
    assert_eq!(r.instructions.len(), 2);

    assert_eq!(r.instructions[0].address, "0x401000");
    assert_eq!(r.instructions[0].symbol, "0x401000");
    assert_eq!(r.instructions[0].bytes, "90");
    assert_eq!(r.instructions[0].mnemonic, "nop");
    assert_eq!(r.instructions[0].op_str, "");

    assert_eq!(r.instructions[1].symbol, "target!main+0x1a");
    assert_eq!(r.instructions[1].bytes, "48 8B 05");
    assert_eq!(r.instructions[1].op_str, "rax, [ntdll!Thing]");
}

#[test]
fn callstack_payload_numbers_frames() {
    let frames = vec![
        CallFrame {
            instruction_pointer: 0x401000,
            stack_pointer: 0x7FFE0000,
            frame_pointer: 0x7FFE0040,
            symbol: Some(SymbolInfo {
                module_name: "ntdll".to_string(),
                symbol_name: "NtCreateFile".to_string(),
                offset: 0x2B,
            }),
        },
        CallFrame {
            instruction_pointer: 0x400500,
            stack_pointer: 0x7FFE0100,
            frame_pointer: 0x7FFE0140,
            symbol: None,
        },
    ];
    let r = build_callstack_result("session_1".to_string(), &frames);
    assert_eq!(r.frames.len(), 2);
    assert_eq!(r.frames[0].frame_number, 0);
    assert_eq!(r.frames[0].instruction_pointer, "0x0000000000401000");
    assert_eq!(r.frames[0].stack_pointer, "0x000000007ffe0000");
    assert_eq!(r.frames[0].frame_pointer, "0x000000007ffe0040");
    assert_eq!(r.frames[0].symbol_info.as_deref(), Some("ntdll!NtCreateFile+0x2b"));
    assert_eq!(r.frames[1].frame_number, 1);
    assert!(r.frames[1].symbol_info.is_none());
}

#[test]
fn symbols_payload_extracts_names() {
    let symbols = vec![
        ResolvedSymbol {
            name: "ntdll!NtCreateFile".to_string(),
            module_name: "ntdll".to_string(),
            rva: 0x1234,
            va: 0x7FFF1234,
        },
        ResolvedSymbol {
            name: "bare_symbol".to_string(),
            module_name: "target".to_string(),
            rva: 1,
            va: 0x400001,
        },
    ];
    let r = build_symbols_result("session_1".to_string(), "Create*".to_string(), &symbols);
    assert_eq!(r.pattern, "Create*");
    assert_eq!(r.symbols.len(), 2);
    assert_eq!(r.symbols[0].name, "NtCreateFile");
    assert_eq!(r.symbols[0].display_name, "ntdll!NtCreateFile");
    assert_eq!(r.symbols[0].module_name, "ntdll");
    assert_eq!(r.symbols[0].rva, 0x1234);
    assert_eq!(r.symbols[0].va, "0x7FFF1234");
    assert_eq!(r.symbols[1].name, "bare_symbol");
    assert_eq!(r.symbols[1].display_name, "bare_symbol");
}

#[test]
fn partial_memory_read_is_reported() {
    // K of N bytes came back: the payload keeps the requested size and
    // carries exactly the K bytes.
    let r = build_memory_read_emit("s".to_string(), 0x1000, 64, Ok(vec![1, 2, 3]));
    match r {
        MemoryReadEmit::Updated(u) => {
            assert_eq!(u.requested_size, 64);
            assert_eq!(u.data.len(), 3);
            assert_eq!(u.address, 0x1000);
        },
        MemoryReadEmit::Failed(_) => panic!("a partial read is still a read"),
    }
}

#[test]
fn empty_memory_read_is_an_error() {
    let r = build_memory_read_emit("s".to_string(), 0x1000, 64, Ok(vec![]));
    match r {
        MemoryReadEmit::Failed(f) => {
            assert_eq!(f.error, "Read returned no data");
            assert_eq!(f.address, 0x1000);
        },
        MemoryReadEmit::Updated(_) => panic!("an empty read must be an error"),
    }
    let r = build_memory_read_emit("s".to_string(), 0x1000, 64, Err("fault".to_string()));
    match r {
        MemoryReadEmit::Failed(f) => assert_eq!(f.error, "fault"),
        MemoryReadEmit::Updated(_) => panic!("a failed read must be an error"),
    }
}

#[test]
fn memory_write_outcomes() {
    let r = build_memory_write_emit("s".to_string(), 0x2000, Ok(3));
    match r {
        MemoryWriteEmit::Written(w) => {
            assert!(w.success);
            assert_eq!(w.bytes_written, 3);
            assert_eq!(w.address, 0x2000);
        },
        MemoryWriteEmit::Failed(_) => panic!("an acknowledged write succeeded"),
    }
    let r = build_memory_write_emit("s".to_string(), 0x2000, Err("protected".to_string()));
    assert!(matches!(r, MemoryWriteEmit::Failed(f) if f.error == "protected"));
}

#[test]
fn memory_regions_are_rendered() {
    let regions = vec![MemoryRegionInfo {
        base_address: 0x400000,
        allocation_base: 0x400000,
        region_size: 0x200000,
        state: 0x1000,
        protect: 0x20,
        region_type: 0x1000000,
    }];
    let r = build_memory_regions_result("s".to_string(), &regions);
    assert_eq!(r.regions.len(), 1);
    let rg = &r.regions[0];
    assert_eq!(rg.base_address, "0x0000000000400000");
    assert_eq!(rg.allocation_base, "0x0000000000400000");
    assert_eq!(rg.region_size, 0x200000);
    assert_eq!(rg.region_size_formatted, "2.0 MB");
    assert_eq!(rg.state, "MEM_COMMIT");
    assert_eq!(rg.state_raw, 0x1000);
    assert_eq!(rg.protect, "PAGE_EXECUTE_READ");
    assert_eq!(rg.protect_raw, 0x20);
    assert_eq!(rg.region_type, "MEM_IMAGE");
    assert_eq!(rg.type_raw, 0x1000000);

    let odd = vec![MemoryRegionInfo {
        base_address: 0,
        allocation_base: 0,
        region_size: 100,
        state: 0x2000,
        protect: 0x104,
        region_type: 0x999,
    }];
    let r = build_memory_regions_result("s".to_string(), &odd);
    assert_eq!(r.regions[0].state, "MEM_RESERVE");
    // Modifier bits are ignored for the protection name.
    assert_eq!(r.regions[0].protect, "PAGE_READWRITE");
    assert_eq!(r.regions[0].region_type, "UNKNOWN");
    assert_eq!(r.regions[0].region_size_formatted, "100 B");
}
