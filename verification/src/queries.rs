//! Payloads for the paused-time queries: disassembly, call stack, symbol
//! search, memory read/write, and memory regions. Each builder turns the
//! plain values a query returned into the exact serializable record the
//! front-end receives; the session id rides along in every payload.

use vstd::prelude::*;
use crate::fmtnum::{
    hex_seq_upper, hex_upper, hex_seq_lower, hex_lower, hex_seq_fixed_lower, hex_fixed_lower,
    hex_seq_fixed_upper, hex_fixed_upper, hex_char_upper, spec_format_bytes, format_bytes,
};

verus! {

/// One disassembled instruction as the server reports it.
#[derive(Debug)]
pub struct Instruction {
    pub address: u64,
    pub bytes: Vec<u8>,
    pub mnemonic: String,
    pub op_str: String,
    pub symbolized_op_str: Option<String>,
    pub symbol_info: Option<SymbolInfo>,
}

/// A resolved symbol attached to an address: module, name, offset into the
/// symbol.
#[derive(Debug)]
pub struct SymbolInfo {
    pub module_name: String,
    pub symbol_name: String,
    pub offset: u64,
}

/// One frame of a call stack.
#[derive(Debug)]
pub struct CallFrame {
    pub instruction_pointer: u64,
    pub stack_pointer: u64,
    pub frame_pointer: u64,
    pub symbol: Option<SymbolInfo>,
}

/// One hit of a symbol search; `name` is the `module!symbol` display form.
#[derive(Debug)]
pub struct ResolvedSymbol {
    pub name: String,
    pub module_name: String,
    pub rva: u32,
    pub va: u64,
}

/// One region of the debuggee's address space.
#[derive(Debug, Clone, Copy, PartialEq, Eq, Structural)]
pub struct MemoryRegionInfo {
    pub base_address: u64,
    pub allocation_base: u64,
    pub region_size: u64,
    pub state: u32,
    pub protect: u32,
    pub region_type: u32,
}

/// One instruction rendered for the front-end.
#[derive(Debug)]
pub struct SerializableInstruction {
    pub address: String,
    pub symbol: String,
    pub bytes: String,
    pub mnemonic: String,
    pub op_str: String,
}

/// One call-stack frame rendered for the front-end.
#[derive(Debug)]
pub struct CallStackData {
    pub frame_number: usize,
    pub instruction_pointer: String,
    pub stack_pointer: String,
    pub frame_pointer: String,
    pub symbol_info: Option<String>,
}

/// One symbol-search hit rendered for the front-end.
#[derive(Debug)]
pub struct SymbolData {
    pub name: String,
    pub module_name: String,
    pub rva: u32,
    pub va: String,
    pub display_name: String,
}

/// Payload of `disassembly-updated`.
#[derive(Debug)]
pub struct DisassemblyResult {
    pub session_id: String,
    pub address: u64,
    pub instructions: Vec<SerializableInstruction>,
}

/// Payload of `disassembly-error`.
#[derive(Debug)]
pub struct DisassemblyError {
    pub session_id: String,
    pub address: u64,
    pub error: String,
}

/// Payload of `callstack-updated`.
#[derive(Debug)]
pub struct CallStackResult {
    pub session_id: String,
    pub frames: Vec<CallStackData>,
}

/// Payload of `callstack-error`.
#[derive(Debug)]
pub struct CallStackError {
    pub session_id: String,
    pub error: String,
}

/// Payload of `symbols-updated`.
#[derive(Debug)]
pub struct SymbolSearchResult {
    pub session_id: String,
    pub pattern: String,
    pub symbols: Vec<SymbolData>,
}

/// Payload of `symbols-error`.
#[derive(Debug)]
pub struct SymbolSearchError {
    pub session_id: String,
    pub pattern: String,
    pub error: String,
}

/// Payload of `memory-read-updated`; the read may be partial.
#[derive(Debug)]
pub struct MemoryReadResult {
    pub session_id: String,
    pub address: u64,
    pub requested_size: usize,
    pub data: Vec<u8>,
}

/// Payload of `memory-read-error`.
#[derive(Debug)]
pub struct MemoryReadError {
    pub session_id: String,
    pub address: u64,
    pub error: String,
}

/// Payload of `memory-write-result`.
#[derive(Debug)]
pub struct MemoryWriteResult {
    pub session_id: String,
    pub address: u64,
    pub success: bool,
    pub bytes_written: usize,
}

/// Payload of `memory-write-error`.
#[derive(Debug)]
pub struct MemoryWriteError {
    pub session_id: String,
    pub address: u64,
    pub error: String,
}

/// Payload of `memory-regions-updated`.
#[derive(Debug)]
pub struct MemoryRegionsResult {
    pub session_id: String,
    pub regions: Vec<SerializableMemoryRegion>,
}

/// One memory region rendered for the front-end.
#[derive(Debug)]
pub struct SerializableMemoryRegion {
    pub base_address: String,
    pub allocation_base: String,
    pub region_size: u64,
    pub region_size_formatted: String,
    pub state: String,
    pub state_raw: u32,
    pub protect: String,
    pub protect_raw: u32,
    pub region_type: String,
    pub type_raw: u32,
}

/// Payload of `memory-regions-error`.
#[derive(Debug)]
pub struct MemoryRegionsError {
    pub session_id: String,
    pub error: String,
}

/// A value as `0x` plus upper-case hex without leading zeroes.
pub open spec fn spec_hex_upper_pref(v: u64) -> Seq<char> {
    "0x"@ + hex_seq_upper(v as nat)
}

fn hex_upper_pref(v: u64) -> (r: String)
    ensures
        r@ == spec_hex_upper_pref(v),
{
    proof { reveal_strlit("0x"); }
    let mut r = String::from_str("0x");
    let digits = hex_upper(v);
    r.append(digits.as_str());
    proof { assert(r@ =~= spec_hex_upper_pref(v)); }
    r
}

/// A value as `0x` plus sixteen lower-case hex digits.
pub open spec fn spec_hex_fixed16_pref(v: u64) -> Seq<char> {
    "0x"@ + hex_seq_fixed_lower(v as nat, 16)
}

fn hex_fixed16_pref(v: u64) -> (r: String)
    ensures
        r@ == spec_hex_fixed16_pref(v),
{
    proof { reveal_strlit("0x"); }
    let mut r = String::from_str("0x");
    let digits = hex_fixed_lower(v, 16);
    r.append(digits.as_str());
    proof { assert(r@ =~= spec_hex_fixed16_pref(v)); }
    r
}

/// A value as `0x` plus sixteen upper-case hex digits.
pub open spec fn spec_hex_fixed16_upper_pref(v: u64) -> Seq<char> {
    "0x"@ + hex_seq_fixed_upper(v as nat, 16)
}

fn hex_fixed16_upper_pref(v: u64) -> (r: String)
    ensures
        r@ == spec_hex_fixed16_upper_pref(v),
{
    proof { reveal_strlit("0x"); }
    let mut r = String::from_str("0x");
    let digits = hex_fixed_upper(v, 16);
    r.append(digits.as_str());
    proof { assert(r@ =~= spec_hex_fixed16_upper_pref(v)); }
    r
}

/// The `module!symbol+0x<offset>` display of a resolved location.
pub open spec fn spec_symbol_display(s: SymbolInfo) -> Seq<char> {
    s.module_name@ + "!"@ + s.symbol_name@ + "+0x"@ + hex_seq_lower(s.offset as nat)
}

fn symbol_display(s: &SymbolInfo) -> (r: String)
    ensures
        r@ == spec_symbol_display(*s),
{
    proof {
        reveal_strlit("!");
        reveal_strlit("+0x");
    }
    let mut r = s.module_name.clone();
    r.append("!");
    r.append(s.symbol_name.as_str());
    r.append("+0x");
    let digits = hex_lower(s.offset);
    r.append(digits.as_str());
    proof { assert(r@ =~= spec_symbol_display(*s)); }
    r
}

/// Bytes as upper-case two-digit pairs joined by single spaces.
pub open spec fn spec_bytes_hex(s: Seq<u8>) -> Seq<char>
    decreases s.len(),
{
    if s.len() == 0 {
        Seq::<char>::empty()
    } else if s.len() == 1 {
        spec_byte_pair(s[0])
    } else {
        spec_bytes_hex(s.drop_last()) + " "@ + spec_byte_pair(s.last())
    }
}

/// One byte as exactly two upper-case hex digits.
pub open spec fn spec_byte_pair(b: u8) -> Seq<char> {
    seq![hex_char_upper(b as int / 16), hex_char_upper(b as int % 16)]
}

fn append_byte_pair(out: &mut String, b: u8)
    ensures
        final(out)@ == old(out)@ + spec_byte_pair(b),
{
    let hi: u64 = (b / 16) as u64;
    let lo: u64 = (b % 16) as u64;
    let hi_s = hex_upper(hi);
    let lo_s = hex_upper(lo);
    out.append(hi_s.as_str());
    out.append(lo_s.as_str());
    proof {
        assert(final(out)@ =~= old(out)@ + spec_byte_pair(b));
    }
}

/// Render a byte string for the front-end: `90 CC 48`.
pub fn bytes_to_hex(bytes: &Vec<u8>) -> (r: String)
    ensures
        r@ == spec_bytes_hex(bytes@),
{
    let n = bytes.len();
    let mut out = String::new();
    let mut i: usize = 0;
    while i < n
        invariant
            0 <= i <= n,
            n == bytes@.len(),
            out@ == spec_bytes_hex(bytes@.subrange(0, i as int)),
        decreases n - i,
    {
        if i > 0 {
            proof { reveal_strlit(" "); }
            out.append(" ");
        }
        append_byte_pair(&mut out, bytes[i]);
        proof {
            let prev = bytes@.subrange(0, i as int);
            let cur = bytes@.subrange(0, i + 1);
            assert(cur.drop_last() =~= prev);
            assert(cur.last() == bytes@[i as int]);
            if i == 0 {
                assert(cur.len() == 1);
                assert(cur[0] == bytes@[0]);
            }
            assert(out@ =~= spec_bytes_hex(cur));
        }
        i = i + 1;
    }
    proof {
        assert(bytes@.subrange(0, n as int) =~= bytes@);
    }
    out
}

/// Whether `r` is `s` shorn of everything up to and including its first
/// `!`; a display without `!` is passed through whole.
pub open spec fn spec_extracted_name(s: Seq<char>, r: Seq<char>) -> bool {
    if forall|i: int| 0 <= i < s.len() ==> s[i] != '!' {
        r == s
    } else {
        exists|i: int|
            {
                &&& 0 <= i < s.len()
                &&& #[trigger] s[i] == '!'
                &&& forall|j: int| 0 <= j < i ==> s[j] != '!'
                &&& r == s.subrange(i + 1, s.len() as int)
            }
    }
}

/// The bare symbol name of a `module!symbol` display: everything after the
/// first `!`, or the whole display when it has none.
pub fn extract_symbol_name(display: &str) -> (r: String)
    ensures
        spec_extracted_name(display@, r@),
{
    let n = display.unicode_len();
    let mut i: usize = 0;
    while i < n
        invariant
            0 <= i <= n,
            n == display@.len(),
            forall|j: int| 0 <= j < i ==> display@[j] != '!',
        decreases n - i,
    {
        if display.get_char(i) == '!' {
            let tail = display.substring_char(i + 1, n);
            let r = tail.to_owned();
            proof {
                assert(display@[i as int] == '!');
                assert(spec_extracted_name(display@, r@));
            }
            return r;
        }
        i = i + 1;
    }
    display.to_owned()
}

/// What one rendered instruction shows: the raw address in upper-case hex;
/// the symbol column as `module!symbol+0x<offset>` when resolved, else the
/// address again; the bytes as spaced pairs; the symbolized operand text
/// when present, else the plain one.
pub open spec fn spec_instruction_rendered(inst: Instruction, s: SerializableInstruction) -> bool {
    &&& s.address@ == spec_hex_upper_pref(inst.address)
    &&& s.symbol@ == match inst.symbol_info {
        Some(sym) => spec_symbol_display(sym),
        None => spec_hex_upper_pref(inst.address),
    }
    &&& s.bytes@ == spec_bytes_hex(inst.bytes@)
    &&& s.mnemonic@ == inst.mnemonic@
    &&& s.op_str@ == match inst.symbolized_op_str {
        Some(sop) => sop@,
        None => inst.op_str@,
    }
}

fn render_instruction(inst: &Instruction) -> (s: SerializableInstruction)
    ensures
        spec_instruction_rendered(*inst, s),
{
    let symbol = match &inst.symbol_info {
        Some(sym) => symbol_display(sym),
        None => hex_upper_pref(inst.address),
    };
    let op_str = match &inst.symbolized_op_str {
        Some(sop) => sop.clone(),
        None => inst.op_str.clone(),
    };
    SerializableInstruction {
        address: hex_upper_pref(inst.address),
        symbol,
        bytes: bytes_to_hex(&inst.bytes),
        mnemonic: inst.mnemonic.clone(),
        op_str,
    }
}

/// Render a disassembly answer for the front-end.
pub fn build_disassembly_result(
    session_id: String,
    address: u64,
    instructions: &Vec<Instruction>,
) -> (r: DisassemblyResult)
    ensures
        r.session_id == session_id,
        r.address == address,
        r.instructions@.len() == instructions@.len(),
        forall|i: int|
            0 <= i < instructions@.len()
                ==> spec_instruction_rendered(instructions@[i], #[trigger] r.instructions@[i]),
{
    let n = instructions.len();
    let mut out: Vec<SerializableInstruction> = Vec::new();
    let mut i: usize = 0;
    while i < n
        invariant
            0 <= i <= n,
            n == instructions@.len(),
            out@.len() == i,
            forall|k: int|
                0 <= k < i ==> spec_instruction_rendered(instructions@[k], #[trigger] out@[k]),
        decreases n - i,
    {
        let s = render_instruction(&instructions[i]);
        out.push(s);
        i = i + 1;
    }
    DisassemblyResult { session_id, address, instructions: out }
}

/// What one rendered frame shows: its position, the three pointers as
/// fixed-width lower-case hex, and the resolved symbol display if any.
pub open spec fn spec_frame_rendered(n: int, f: CallFrame, d: CallStackData) -> bool {
    &&& d.frame_number == n
    &&& d.instruction_pointer@ == spec_hex_fixed16_pref(f.instruction_pointer)
    &&& d.stack_pointer@ == spec_hex_fixed16_pref(f.stack_pointer)
    &&& d.frame_pointer@ == spec_hex_fixed16_pref(f.frame_pointer)
    &&& match f.symbol {
        Some(sym) => d.symbol_info matches Some(t) && t@ == spec_symbol_display(sym),
        None => d.symbol_info is None,
    }
}

/// Render a call-stack answer for the front-end; frames keep their order
/// and are numbered from zero.
pub fn build_callstack_result(session_id: String, frames: &Vec<CallFrame>) -> (r: CallStackResult)
    ensures
        r.session_id == session_id,
        r.frames@.len() == frames@.len(),
        forall|i: int|
            0 <= i < frames@.len() ==> spec_frame_rendered(i, frames@[i], #[trigger] r.frames@[i]),
{
    let n = frames.len();
    let mut out: Vec<CallStackData> = Vec::new();
    let mut i: usize = 0;
    while i < n
        invariant
            0 <= i <= n,
            n == frames@.len(),
            out@.len() == i,
            forall|k: int| 0 <= k < i ==> spec_frame_rendered(k, frames@[k], #[trigger] out@[k]),
        decreases n - i,
    {
        let f = &frames[i];
        let symbol_info = match &f.symbol {
            Some(sym) => Some(symbol_display(sym)),
            None => None,
        };
        out.push(CallStackData {
            frame_number: i,
            instruction_pointer: hex_fixed16_pref(f.instruction_pointer),
            stack_pointer: hex_fixed16_pref(f.stack_pointer),
            frame_pointer: hex_fixed16_pref(f.frame_pointer),
            symbol_info,
        });
        i = i + 1;
    }
    CallStackResult { session_id, frames: out }
}

/// What one rendered symbol hit shows: the bare name cut after the first
/// `!` of the display, the module, the raw rva, the virtual address in
/// upper-case hex, and the display form unchanged.
pub open spec fn spec_symbol_rendered(sym: ResolvedSymbol, d: SymbolData) -> bool {
    &&& spec_extracted_name(sym.name@, d.name@)
    &&& d.module_name@ == sym.module_name@
    &&& d.rva == sym.rva
    &&& d.va@ == spec_hex_upper_pref(sym.va)
    &&& d.display_name@ == sym.name@
}

/// Render a symbol-search answer for the front-end.
pub fn build_symbols_result(
    session_id: String,
    pattern: String,
    symbols: &Vec<ResolvedSymbol>,
) -> (r: SymbolSearchResult)
    ensures
        r.session_id == session_id,
        r.pattern == pattern,
        r.symbols@.len() == symbols@.len(),
        forall|i: int|
            0 <= i < symbols@.len() ==> spec_symbol_rendered(symbols@[i], #[trigger] r.symbols@[i]),
{
    let n = symbols.len();
    let mut out: Vec<SymbolData> = Vec::new();
    let mut i: usize = 0;
    while i < n
        invariant
            0 <= i <= n,
            n == symbols@.len(),
            out@.len() == i,
            forall|k: int| 0 <= k < i ==> spec_symbol_rendered(symbols@[k], #[trigger] out@[k]),
        decreases n - i,
    {
        let sym = &symbols[i];
        out.push(SymbolData {
            name: extract_symbol_name(sym.name.as_str()),
            module_name: sym.module_name.clone(),
            rva: sym.rva,
            va: hex_upper_pref(sym.va),
            display_name: sym.name.clone(),
        });
        i = i + 1;
    }
    SymbolSearchResult { session_id, pattern, symbols: out }
}

/// The outcome of a memory read, ready to emit.
#[derive(Debug)]
pub enum MemoryReadEmit {
    Updated(MemoryReadResult),
    Failed(MemoryReadError),
}

/// Turn a memory-read answer into its event payload: any bytes at all,
/// including a partial read, give `memory-read-updated` with the requested
/// size and the bytes as returned; an empty read or a failed one gives
/// `memory-read-error`.
pub fn build_memory_read_emit(
    session_id: String,
    address: u64,
    requested_size: usize,
    outcome: Result<Vec<u8>, String>,
) -> (r: MemoryReadEmit)
    ensures
        match outcome {
            Ok(data) => {
                if data@.len() > 0 {
                    r matches MemoryReadEmit::Updated(u)
                        && u.session_id == session_id
                        && u.address == address
                        && u.requested_size == requested_size
                        && u.data == data
                } else {
                    r matches MemoryReadEmit::Failed(f)
                        && f.session_id == session_id
                        && f.address == address
                        && f.error@ == "Read returned no data"@
                }
            },
            Err(e) => r matches MemoryReadEmit::Failed(f)
                && f.session_id == session_id
                && f.address == address
                && f.error == e,
        },
{
    match outcome {
        Ok(data) => {
            if data.len() > 0 {
                MemoryReadEmit::Updated(MemoryReadResult {
                    session_id,
                    address,
                    requested_size,
                    data,
                })
            } else {
                proof { reveal_strlit("Read returned no data"); }
                MemoryReadEmit::Failed(MemoryReadError {
                    session_id,
                    address,
                    error: String::from_str("Read returned no data"),
                })
            }
        },
        Err(e) => MemoryReadEmit::Failed(MemoryReadError { session_id, address, error: e }),
    }
}

/// The outcome of a memory write, ready to emit.
#[derive(Debug)]
pub enum MemoryWriteEmit {
    Written(MemoryWriteResult),
    Failed(MemoryWriteError),
}

/// Turn a memory-write answer into its event payload: an acknowledged
/// write reports success with the acknowledged byte count, a failure
/// carries the error text.
pub fn build_memory_write_emit(
    session_id: String,
    address: u64,
    outcome: Result<usize, String>,
) -> (r: MemoryWriteEmit)
    ensures
        match outcome {
            Ok(written) => r matches MemoryWriteEmit::Written(w)
                && w.session_id == session_id
                && w.address == address
                && w.success
                && w.bytes_written == written,
            Err(e) => r matches MemoryWriteEmit::Failed(f)
                && f.session_id == session_id
                && f.address == address
                && f.error == e,
        },
{
    match outcome {
        Ok(written) => MemoryWriteEmit::Written(MemoryWriteResult {
            session_id,
            address,
            success: true,
            bytes_written: written,
        }),
        Err(e) => MemoryWriteEmit::Failed(MemoryWriteError { session_id, address, error: e }),
    }
}

/// The Win32 name of a region state value.
pub open spec fn spec_mem_state_name(v: u32) -> Seq<char> {
    if v == 0x1000 { "MEM_COMMIT"@ }
    else if v == 0x2000 { "MEM_RESERVE"@ }
    else if v == 0x10000 { "MEM_FREE"@ }
    else { "UNKNOWN"@ }
}

/// The Win32 name of a region type value.
pub open spec fn spec_mem_type_name(v: u32) -> Seq<char> {
    if v == 0x20000 { "MEM_PRIVATE"@ }
    else if v == 0x40000 { "MEM_MAPPED"@ }
    else if v == 0x1000000 { "MEM_IMAGE"@ }
    else { "UNKNOWN"@ }
}

/// The Win32 name of a page-protection value (modifier bits ignored).
pub open spec fn spec_mem_protect_name(v: u32) -> Seq<char> {
    let base = v & 0xFF;
    if base == 0x01 { "PAGE_NOACCESS"@ }
    else if base == 0x02 { "PAGE_READONLY"@ }
    else if base == 0x04 { "PAGE_READWRITE"@ }
    else if base == 0x08 { "PAGE_WRITECOPY"@ }
    else if base == 0x10 { "PAGE_EXECUTE"@ }
    else if base == 0x20 { "PAGE_EXECUTE_READ"@ }
    else if base == 0x40 { "PAGE_EXECUTE_READWRITE"@ }
    else if base == 0x80 { "PAGE_EXECUTE_WRITECOPY"@ }
    else { "UNKNOWN"@ }
}

/// Name a region state value after its Win32 constant.
pub fn mem_state_name(v: u32) -> (r: String)
    ensures
        r@ == spec_mem_state_name(v),
{
    proof {
        reveal_strlit("MEM_COMMIT");
        reveal_strlit("MEM_RESERVE");
        reveal_strlit("MEM_FREE");
        reveal_strlit("UNKNOWN");
    }
    if v == 0x1000 { String::from_str("MEM_COMMIT") }
    else if v == 0x2000 { String::from_str("MEM_RESERVE") }
    else if v == 0x10000 { String::from_str("MEM_FREE") }
    else { String::from_str("UNKNOWN") }
}

/// Name a region type value after its Win32 constant.
pub fn mem_type_name(v: u32) -> (r: String)
    ensures
        r@ == spec_mem_type_name(v),
{
    proof {
        reveal_strlit("MEM_PRIVATE");
        reveal_strlit("MEM_MAPPED");
        reveal_strlit("MEM_IMAGE");
        reveal_strlit("UNKNOWN");
    }
    if v == 0x20000 { String::from_str("MEM_PRIVATE") }
    else if v == 0x40000 { String::from_str("MEM_MAPPED") }
    else if v == 0x1000000 { String::from_str("MEM_IMAGE") }
    else { String::from_str("UNKNOWN") }
}

/// Name a page-protection value after its Win32 constant.
pub fn mem_protect_name(v: u32) -> (r: String)
    ensures
        r@ == spec_mem_protect_name(v),
{
    proof {
        reveal_strlit("PAGE_NOACCESS");
        reveal_strlit("PAGE_READONLY");
        reveal_strlit("PAGE_READWRITE");
        reveal_strlit("PAGE_WRITECOPY");
        reveal_strlit("PAGE_EXECUTE");
        reveal_strlit("PAGE_EXECUTE_READ");
        reveal_strlit("PAGE_EXECUTE_READWRITE");
        reveal_strlit("PAGE_EXECUTE_WRITECOPY");
        reveal_strlit("UNKNOWN");
    }
    let base = v & 0xFF;
    if base == 0x01 { String::from_str("PAGE_NOACCESS") }
    else if base == 0x02 { String::from_str("PAGE_READONLY") }
    else if base == 0x04 { String::from_str("PAGE_READWRITE") }
    else if base == 0x08 { String::from_str("PAGE_WRITECOPY") }
    else if base == 0x10 { String::from_str("PAGE_EXECUTE") }
    else if base == 0x20 { String::from_str("PAGE_EXECUTE_READ") }
    else if base == 0x40 { String::from_str("PAGE_EXECUTE_READWRITE") }
    else if base == 0x80 { String::from_str("PAGE_EXECUTE_WRITECOPY") }
    else { String::from_str("UNKNOWN") }
}

/// What one rendered region shows: both base addresses as fixed-width
/// upper-case hex, the raw size beside its human-readable form, and each
/// raw attribute beside its Win32 name.
pub open spec fn spec_region_rendered(r: MemoryRegionInfo, s: SerializableMemoryRegion) -> bool {
    &&& s.base_address@ == spec_hex_fixed16_upper_pref(r.base_address)
    &&& s.allocation_base@ == spec_hex_fixed16_upper_pref(r.allocation_base)
    &&& s.region_size == r.region_size
    &&& s.region_size_formatted@ == spec_format_bytes(r.region_size as nat)
    &&& s.state@ == spec_mem_state_name(r.state)
    &&& s.state_raw == r.state
    &&& s.protect@ == spec_mem_protect_name(r.protect)
    &&& s.protect_raw == r.protect
    &&& s.region_type@ == spec_mem_type_name(r.region_type)
    &&& s.type_raw == r.region_type
}

/// Render a memory-regions answer for the front-end.
pub fn build_memory_regions_result(
    session_id: String,
    regions: &Vec<MemoryRegionInfo>,
) -> (r: MemoryRegionsResult)
    ensures
        r.session_id == session_id,
        r.regions@.len() == regions@.len(),
        forall|i: int|
            0 <= i < regions@.len() ==> spec_region_rendered(regions@[i], #[trigger] r.regions@[i]),
{
    let n = regions.len();
    let mut out: Vec<SerializableMemoryRegion> = Vec::new();
    let mut i: usize = 0;
    while i < n
        invariant
            0 <= i <= n,
            n == regions@.len(),
            out@.len() == i,
            forall|k: int| 0 <= k < i ==> spec_region_rendered(regions@[k], #[trigger] out@[k]),
        decreases n - i,
    {
        let rg = regions[i];
        out.push(SerializableMemoryRegion {
            base_address: hex_fixed16_upper_pref(rg.base_address),
            allocation_base: hex_fixed16_upper_pref(rg.allocation_base),
            region_size: rg.region_size,
            region_size_formatted: format_bytes(rg.region_size),
            state: mem_state_name(rg.state),
            state_raw: rg.state,
            protect: mem_protect_name(rg.protect),
            protect_raw: rg.protect,
            region_type: mem_type_name(rg.region_type),
            type_raw: rg.region_type,
        });
        i = i + 1;
    }
    MemoryRegionsResult { session_id, regions: out }
}

} // verus!
