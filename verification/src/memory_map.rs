//! The memory map that the console prints for the kernel and for a
//! process, one region at a time.

use vstd::prelude::*;
use crate::format::{text, hex_word, decimal, push_str, push_hex_word, push_decimal};

verus! {

/// The region of the memory map being printed next.
#[derive(Clone, Copy, Debug, PartialEq, Eq, Structural)]
pub enum WriterState {
    Empty,
    KernelStart,
    KernelBss,
    KernelInit,
    KernelStack,
    KernelRoData,
    KernelText,
    ProcessStart,
    ProcessGrant,
    ProcessHeap,
    ProcessHeapUnused,
    ProcessData,
    ProcessStack,
    ProcessStackUnused,
    ProcessFlash,
    ProcessProtected,
}

impl Default for WriterState {
    fn default() -> (s: Self)
        ensures
            s == WriterState::Empty,
    {
        WriterState::Empty
    }
}

/// The region printed after `state`: the kernel from its bss down to its
/// text, a process from its grants down to its protected flash, then none.
pub open spec fn spec_next_state(state: WriterState) -> WriterState {
    match state {
        WriterState::KernelStart => WriterState::KernelBss,
        WriterState::KernelBss => WriterState::KernelInit,
        WriterState::KernelInit => WriterState::KernelStack,
        WriterState::KernelStack => WriterState::KernelRoData,
        WriterState::KernelRoData => WriterState::KernelText,
        WriterState::KernelText => WriterState::Empty,
        WriterState::ProcessStart => WriterState::ProcessGrant,
        WriterState::ProcessGrant => WriterState::ProcessHeapUnused,
        WriterState::ProcessHeapUnused => WriterState::ProcessHeap,
        WriterState::ProcessHeap => WriterState::ProcessData,
        WriterState::ProcessData => WriterState::ProcessStack,
        WriterState::ProcessStack => WriterState::ProcessStackUnused,
        WriterState::ProcessStackUnused => WriterState::ProcessFlash,
        WriterState::ProcessFlash => WriterState::ProcessProtected,
        WriterState::ProcessProtected => WriterState::Empty,
        WriterState::Empty => WriterState::Empty,
    }
}

/// How many more regions follow `state` before nothing is left to print.
pub open spec fn regions_left(state: WriterState) -> nat {
    match state {
        WriterState::Empty => 0,
        WriterState::KernelText => 1,
        WriterState::KernelRoData => 2,
        WriterState::KernelStack => 3,
        WriterState::KernelInit => 4,
        WriterState::KernelBss => 5,
        WriterState::KernelStart => 6,
        WriterState::ProcessProtected => 1,
        WriterState::ProcessFlash => 2,
        WriterState::ProcessStackUnused => 3,
        WriterState::ProcessStack => 4,
        WriterState::ProcessData => 5,
        WriterState::ProcessHeap => 6,
        WriterState::ProcessHeapUnused => 7,
        WriterState::ProcessGrant => 8,
        WriterState::ProcessStart => 9,
    }
}

/// The region printed after `state`.
pub fn next_state(state: WriterState) -> (n: WriterState)
    ensures
        n == spec_next_state(state),
{
    match state {
        WriterState::KernelStart => WriterState::KernelBss,
        WriterState::KernelBss => WriterState::KernelInit,
        WriterState::KernelInit => WriterState::KernelStack,
        WriterState::KernelStack => WriterState::KernelRoData,
        WriterState::KernelRoData => WriterState::KernelText,
        WriterState::KernelText => WriterState::Empty,
        WriterState::ProcessStart => WriterState::ProcessGrant,
        WriterState::ProcessGrant => WriterState::ProcessHeapUnused,
        WriterState::ProcessHeapUnused => WriterState::ProcessHeap,
        WriterState::ProcessHeap => WriterState::ProcessData,
        WriterState::ProcessData => WriterState::ProcessStack,
        WriterState::ProcessStack => WriterState::ProcessStackUnused,
        WriterState::ProcessStackUnused => WriterState::ProcessFlash,
        WriterState::ProcessFlash => WriterState::ProcessProtected,
        WriterState::ProcessProtected => WriterState::Empty,
        WriterState::Empty => WriterState::Empty,
    }
}

/// Addresses of the kernel's memory regions.
#[derive(Clone, Copy, Debug)]
pub struct KernelMemory {
    pub init_end: usize,
    pub bss_end: usize,
    pub stack_start: usize,
    pub stack_end: usize,
    pub rodata_start: usize,
    pub rodata_end: usize,
    pub text_start: usize,
}

/// Addresses of a process's memory regions, and the size of its protected
/// flash.
#[derive(Clone, Copy, Debug)]
pub struct ProcessMemory {
    pub mem_start: usize,
    pub mem_end: usize,
    pub kernel_memory_break: usize,
    pub app_memory_break: usize,
    pub heap_start: Option<usize>,
    pub stack_start: Option<usize>,
    pub stack_end: Option<usize>,
    pub flash_start: usize,
    pub flash_end: usize,
    pub flash_non_protected_start: usize,
    pub flash_protected: usize,
}

/// The marker printed after a size and its allocation.
pub open spec fn exceeded_text(size: int, allocated: int) -> Seq<u8> {
    if size > allocated {
        text(" EXCEEDED!")
    } else {
        text("          ")
    }
}

/// " EXCEEDED!" when a region uses more than it was given, else as many
/// spaces.
pub fn exceeded_check(size: usize, allocated: usize) -> (s: &'static str)
    ensures
        text(s) == exceeded_text(size as int, allocated as int),
{
    if size > allocated {
        " EXCEEDED!"
    } else {
        "          "
    }
}

/// The bottom of a process's stack, or 0 when unknown.
pub open spec fn stack_end_or_zero(p: ProcessMemory) -> usize {
    match p.stack_end {
        Some(e) => e,
        None => 0,
    }
}

/// The text for a region of the kernel (none for the other states).
#[verifier::opaque]
pub open spec fn kernel_state_text(state: WriterState, k: KernelMemory) -> Seq<u8> {
    match state {
        WriterState::KernelBss => {
            text("\r\n ╔═══════════╤══════════════════════════════╗\r\n ║  Address  │ Region Name    Used (bytes)  ║\r\n ╚")
            + hex_word(k.bss_end as nat)
            + text("═╪══════════════════════════════╝\r\n             │   Bss        ")
            + decimal((k.bss_end - k.init_end) as nat, 6)
        },
        WriterState::KernelInit => {
            text("\r\n  ")
            + hex_word(k.init_end as nat)
            + text(" ┼─────────────────────────────── S\r\n             │   Init       ")
            + decimal((k.init_end - k.stack_end) as nat, 6)
            + text("            R")
        },
        WriterState::KernelStack => {
            text("\r\n  ")
            + hex_word(k.stack_end as nat)
            + text(" ┼─────────────────────────────── A\r\n             │ ▼ Stack      ")
            + decimal((k.stack_end - k.stack_start) as nat, 6)
            + text("            M\r\n  ")
            + hex_word(k.stack_start as nat)
            + text(" ┼───────────────────────────────")
        },
        WriterState::KernelRoData => {
            text("\r\n             .....\r\n  ")
            + hex_word(k.rodata_end as nat)
            + text(" ┼─────────────────────────────── F\r\n             │   RoData     ")
            + decimal((k.rodata_end - k.rodata_start) as nat, 6)
            + text("            L")
        },
        WriterState::KernelText => {
            text("\r\n  ")
            + hex_word(k.rodata_start as nat)
            + text(" ┼─────────────────────────────── A\r\n             │   Text       ")
            + decimal((k.rodata_start - k.text_start) as nat, 6)
            + text("            S\r\n  ")
            + hex_word(k.text_start as nat)
            + text(" ┼─────────────────────────────── H\r\n")
        },
        _ => Seq::empty(),
    }
}

/// The text for a region of a process (none for the other states).
#[verifier::opaque]
pub open spec fn process_state_text(state: WriterState, p: ProcessMemory) -> Seq<u8> {
    match state {
        WriterState::ProcessGrant => {
            text("\r\n ╔═══════════╤══════════════════════════════════════════╗\r\n ║  Address  │ Region Name    Used | Allocated (bytes)  ║\r\n ╚")
            + hex_word(p.mem_end as nat)
            + text("═╪══════════════════════════════════════════╝\r\n             │ ▼ Grant      ")
            + decimal((p.mem_end - p.kernel_memory_break) as nat, 6)
            + text(" | ")
            + decimal((p.mem_end - p.kernel_memory_break) as nat, 6)
            + exceeded_text(p.mem_end - p.kernel_memory_break, p.mem_end - p.kernel_memory_break)
        },
        WriterState::ProcessHeapUnused => {
            text("\r\n  ")
            + hex_word(p.kernel_memory_break as nat)
            + text(" ┼───────────────────────────────────────────\r\n             │ Unused\r\n  ")
            + hex_word(p.app_memory_break as nat)
            + text(" ┼───────────────────────────────────────────")
        },
        WriterState::ProcessHeap => match p.heap_start {
            Some(h) => {
            text("\r\n             │ ▲ Heap       ")
            + decimal((p.app_memory_break - h) as nat, 6)
            + text(" | ")
            + decimal((p.kernel_memory_break - h) as nat, 6)
            + exceeded_text(p.app_memory_break - h, p.kernel_memory_break - h)
            + text("     S\r\n  ")
            + hex_word(h as nat)
            + text(" ┼─────────────────────────────────────────── R")
        },
            None => {
            text("\r\n             │ ▲ Heap            ? |      ?               S\r\n  ?????????? ┼─────────────────────────────────────────── R")
        },
        },
        WriterState::ProcessData => match (p.heap_start, p.stack_start) {
            (Some(h), Some(st)) => {
            text("\r\n             │ Data         ")
            + decimal((h - st) as nat, 6)
            + text(" | ")
            + decimal((h - st) as nat, 6)
            + text("               A")
        },
            _ => {
            text("\r\n             │ Data              ? |      ?               A")
        },
        },
        WriterState::ProcessStack => match (p.stack_start, p.stack_end) {
            (Some(st), Some(sb)) => {
            text("\r\n  ")
            + hex_word(st as nat)
            + text(" ┼─────────────────────────────────────────── M\r\n             │ ▼ Stack      ")
            + decimal((st - sb) as nat, 6)
            + text(" | ")
            + decimal((st - p.mem_start) as nat, 6)
            + exceeded_text(st - sb, st - p.mem_start)
        },
            _ => {
            text("\r\n  ?????????? ┼─────────────────────────────────────────── M\r\n             │ ▼ Stack           ? |      ?")
        },
        },
        WriterState::ProcessStackUnused => {
            text("\r\n  ")
            + hex_word(stack_end_or_zero(p) as nat)
            + text(" ┼───────────────────────────────────────────\r\n             │ Unused\r\n  ")
            + hex_word(p.mem_start as nat)
            + text(" ┴───────────────────────────────────────────\r\n             .....")
        },
        WriterState::ProcessFlash => {
            text("\r\n  ")
            + hex_word(p.flash_end as nat)
            + text(" ┬─────────────────────────────────────────── F\r\n             │ App Flash    ")
            + decimal((p.flash_end - p.flash_non_protected_start) as nat, 6)
            + text("                        L")
        },
        WriterState::ProcessProtected => {
            text("\r\n  ")
            + hex_word(p.flash_non_protected_start as nat)
            + text(" ┼─────────────────────────────────────────── A\r\n             │ Protected    ")
            + decimal(p.flash_protected as nat, 6)
            + text("                        S\r\n  ")
            + hex_word(p.flash_start as nat)
            + text(" ┴─────────────────────────────────────────── H\r\n")
        },
        _ => Seq::empty(),
    }
}

/// The text printed for `state`: a kernel region from the kernel's
/// addresses, a process region from the process's addresses when the
/// process is known, nothing otherwise.
pub open spec fn state_text(state: WriterState, k: KernelMemory, process: Option<ProcessMemory>) -> Seq<u8> {
    match state {
        WriterState::KernelBss | WriterState::KernelInit | WriterState::KernelStack
        | WriterState::KernelRoData | WriterState::KernelText => kernel_state_text(state, k),
        _ => match process {
            Some(p) => process_state_text(state, p),
            None => Seq::empty(),
        },
    }
}

/// The sizes printed for `state` are not negative.
pub open spec fn state_text_defined(state: WriterState, k: KernelMemory, process: Option<ProcessMemory>) -> bool {
    match state {
        WriterState::KernelBss => k.bss_end >= k.init_end,
        WriterState::KernelInit => k.init_end >= k.stack_end,
        WriterState::KernelStack => k.stack_end >= k.stack_start,
        WriterState::KernelRoData => k.rodata_end >= k.rodata_start,
        WriterState::KernelText => k.rodata_start >= k.text_start,
        _ => match process {
            Some(p) => match state {
                WriterState::ProcessGrant => p.mem_end >= p.kernel_memory_break,
                WriterState::ProcessHeap => p.heap_start matches Some(h) ==> (p.app_memory_break >= h
                    && p.kernel_memory_break >= h),
                WriterState::ProcessData => (p.heap_start, p.stack_start) matches (Some(h), Some(st)) ==> h >= st,
                WriterState::ProcessStack => (p.stack_start, p.stack_end) matches (Some(st), Some(sb)) ==> (st >= sb
                    && st >= p.mem_start),
                WriterState::ProcessFlash => p.flash_end >= p.flash_non_protected_start,
                _ => true,
            },
            None => true,
        },
    }
}

/// The kernel's bss, under the table header.
fn print_kernel_bss(kernel: &KernelMemory) -> (out: Vec<u8>)
    requires
        kernel.bss_end >= kernel.init_end,
    ensures
        out@ == kernel_state_text(WriterState::KernelBss, *kernel),
{
    let mut out: Vec<u8> = Vec::new();
    push_str(&mut out, "\r\n ╔═══════════╤══════════════════════════════╗\r\n ║  Address  │ Region Name    Used (bytes)  ║\r\n ╚");
    push_hex_word(&mut out, kernel.bss_end);
    push_str(&mut out, "═╪══════════════════════════════╝\r\n             │   Bss        ");
    push_decimal(&mut out, kernel.bss_end - kernel.init_end, 6);
    reveal(kernel_state_text);
    assert(out@ =~= kernel_state_text(WriterState::KernelBss, *kernel));
    out
}

/// The kernel's init region.
fn print_kernel_init(kernel: &KernelMemory) -> (out: Vec<u8>)
    requires
        kernel.init_end >= kernel.stack_end,
    ensures
        out@ == kernel_state_text(WriterState::KernelInit, *kernel),
{
    let mut out: Vec<u8> = Vec::new();
    push_str(&mut out, "\r\n  ");
    push_hex_word(&mut out, kernel.init_end);
    push_str(&mut out, " ┼─────────────────────────────── S\r\n             │   Init       ");
    push_decimal(&mut out, kernel.init_end - kernel.stack_end, 6);
    push_str(&mut out, "            R");
    reveal(kernel_state_text);
    assert(out@ =~= kernel_state_text(WriterState::KernelInit, *kernel));
    out
}

/// The kernel's stack.
fn print_kernel_stack(kernel: &KernelMemory) -> (out: Vec<u8>)
    requires
        kernel.stack_end >= kernel.stack_start,
    ensures
        out@ == kernel_state_text(WriterState::KernelStack, *kernel),
{
    let mut out: Vec<u8> = Vec::new();
    push_str(&mut out, "\r\n  ");
    push_hex_word(&mut out, kernel.stack_end);
    push_str(&mut out, " ┼─────────────────────────────── A\r\n             │ ▼ Stack      ");
    push_decimal(&mut out, kernel.stack_end - kernel.stack_start, 6);
    push_str(&mut out, "            M\r\n  ");
    push_hex_word(&mut out, kernel.stack_start);
    push_str(&mut out, " ┼───────────────────────────────");
    reveal(kernel_state_text);
    assert(out@ =~= kernel_state_text(WriterState::KernelStack, *kernel));
    out
}

/// The kernel's read-only data.
fn print_kernel_rodata(kernel: &KernelMemory) -> (out: Vec<u8>)
    requires
        kernel.rodata_end >= kernel.rodata_start,
    ensures
        out@ == kernel_state_text(WriterState::KernelRoData, *kernel),
{
    let mut out: Vec<u8> = Vec::new();
    push_str(&mut out, "\r\n             .....\r\n  ");
    push_hex_word(&mut out, kernel.rodata_end);
    push_str(&mut out, " ┼─────────────────────────────── F\r\n             │   RoData     ");
    push_decimal(&mut out, kernel.rodata_end - kernel.rodata_start, 6);
    push_str(&mut out, "            L");
    reveal(kernel_state_text);
    assert(out@ =~= kernel_state_text(WriterState::KernelRoData, *kernel));
    out
}

/// The kernel's text.
fn print_kernel_text(kernel: &KernelMemory) -> (out: Vec<u8>)
    requires
        kernel.rodata_start >= kernel.text_start,
    ensures
        out@ == kernel_state_text(WriterState::KernelText, *kernel),
{
    let mut out: Vec<u8> = Vec::new();
    push_str(&mut out, "\r\n  ");
    push_hex_word(&mut out, kernel.rodata_start);
    push_str(&mut out, " ┼─────────────────────────────── A\r\n             │   Text       ");
    push_decimal(&mut out, kernel.rodata_start - kernel.text_start, 6);
    push_str(&mut out, "            S\r\n  ");
    push_hex_word(&mut out, kernel.text_start);
    push_str(&mut out, " ┼─────────────────────────────── H\r\n");
    reveal(kernel_state_text);
    assert(out@ =~= kernel_state_text(WriterState::KernelText, *kernel));
    out
}

/// A process's grant region, under the table header.
fn print_process_grant(p: &ProcessMemory) -> (out: Vec<u8>)
    requires
        p.mem_end >= p.kernel_memory_break,
    ensures
        out@ == process_state_text(WriterState::ProcessGrant, *p),
{
    let mut out: Vec<u8> = Vec::new();
    let grant_size = p.mem_end - p.kernel_memory_break;
    let grant_allocated = p.mem_end - p.kernel_memory_break;
    push_str(&mut out, "\r\n ╔═══════════╤══════════════════════════════════════════╗\r\n ║  Address  │ Region Name    Used | Allocated (bytes)  ║\r\n ╚");
    push_hex_word(&mut out, p.mem_end);
    push_str(&mut out, "═╪══════════════════════════════════════════╝\r\n             │ ▼ Grant      ");
    push_decimal(&mut out, grant_size, 6);
    push_str(&mut out, " | ");
    push_decimal(&mut out, grant_allocated, 6);
    push_str(&mut out, exceeded_check(grant_size, grant_allocated));
    reveal(process_state_text);
    assert(out@ =~= process_state_text(WriterState::ProcessGrant, *p));
    out
}

/// The unused memory between a process's heap and its grants.
fn print_process_heap_unused(p: &ProcessMemory) -> (out: Vec<u8>)
    ensures
        out@ == process_state_text(WriterState::ProcessHeapUnused, *p),
{
    let mut out: Vec<u8> = Vec::new();
    push_str(&mut out, "\r\n  ");
    push_hex_word(&mut out, p.kernel_memory_break);
    push_str(&mut out, " ┼───────────────────────────────────────────\r\n             │ Unused\r\n  ");
    push_hex_word(&mut out, p.app_memory_break);
    push_str(&mut out, " ┼───────────────────────────────────────────");
    reveal(process_state_text);
    assert(out@ =~= process_state_text(WriterState::ProcessHeapUnused, *p));
    out
}

/// A process's heap; question marks when its start is unknown.
fn print_process_heap(p: &ProcessMemory) -> (out: Vec<u8>)
    requires
        p.heap_start matches Some(h) ==> (p.app_memory_break >= h && p.kernel_memory_break >= h),
    ensures
        out@ == process_state_text(WriterState::ProcessHeap, *p),
{
    let mut out: Vec<u8> = Vec::new();
    match p.heap_start {
        Some(h) => {
            let heap_size = p.app_memory_break - h;
            let heap_allocated = p.kernel_memory_break - h;
            push_str(&mut out, "\r\n             │ ▲ Heap       ");
            push_decimal(&mut out, heap_size, 6);
            push_str(&mut out, " | ");
            push_decimal(&mut out, heap_allocated, 6);
            push_str(&mut out, exceeded_check(heap_size, heap_allocated));
            push_str(&mut out, "     S\r\n  ");
            push_hex_word(&mut out, h);
            push_str(&mut out, " ┼─────────────────────────────────────────── R");
        },
        None => {
            push_str(&mut out, "\r\n             │ ▲ Heap            ? |      ?               S\r\n  ?????????? ┼─────────────────────────────────────────── R");
        },
    }
    reveal(process_state_text);
    assert(out@ =~= process_state_text(WriterState::ProcessHeap, *p));
    out
}

/// A process's data region; question marks when its bounds are unknown.
fn print_process_data(p: &ProcessMemory) -> (out: Vec<u8>)
    requires
        (p.heap_start, p.stack_start) matches (Some(h), Some(st)) ==> h >= st,
    ensures
        out@ == process_state_text(WriterState::ProcessData, *p),
{
    let mut out: Vec<u8> = Vec::new();
    match (p.heap_start, p.stack_start) {
        (Some(h), Some(st)) => {
            let data_size = h - st;
            push_str(&mut out, "\r\n             │ Data         ");
            push_decimal(&mut out, data_size, 6);
            push_str(&mut out, " | ");
            push_decimal(&mut out, data_size, 6);
            push_str(&mut out, "               A");
        },
        _ => {
            push_str(&mut out, "\r\n             │ Data              ? |      ?               A");
        },
    }
    reveal(process_state_text);
    assert(out@ =~= process_state_text(WriterState::ProcessData, *p));
    out
}

/// A process's stack; question marks when its bounds are unknown.
fn print_process_stack(p: &ProcessMemory) -> (out: Vec<u8>)
    requires
        (p.stack_start, p.stack_end) matches (Some(st), Some(sb)) ==> (st >= sb && st >= p.mem_start),
    ensures
        out@ == process_state_text(WriterState::ProcessStack, *p),
{
    let mut out: Vec<u8> = Vec::new();
    match (p.stack_start, p.stack_end) {
        (Some(st), Some(sb)) => {
            let stack_size = st - sb;
            let stack_allocated = st - p.mem_start;
            push_str(&mut out, "\r\n  ");
            push_hex_word(&mut out, st);
            push_str(&mut out, " ┼─────────────────────────────────────────── M\r\n             │ ▼ Stack      ");
            push_decimal(&mut out, stack_size, 6);
            push_str(&mut out, " | ");
            push_decimal(&mut out, stack_allocated, 6);
            push_str(&mut out, exceeded_check(stack_size, stack_allocated));
        },
        _ => {
            push_str(&mut out, "\r\n  ?????????? ┼─────────────────────────────────────────── M\r\n             │ ▼ Stack           ? |      ?");
        },
    }
    reveal(process_state_text);
    assert(out@ =~= process_state_text(WriterState::ProcessStack, *p));
    out
}

/// The unused memory below a process's stack.
fn print_process_stack_unused(p: &ProcessMemory) -> (out: Vec<u8>)
    ensures
        out@ == process_state_text(WriterState::ProcessStackUnused, *p),
{
    let mut out: Vec<u8> = Vec::new();
    let stack_end = match p.stack_end {
        Some(e) => e,
        None => 0,
    };
    push_str(&mut out, "\r\n  ");
    push_hex_word(&mut out, stack_end);
    push_str(&mut out, " ┼───────────────────────────────────────────\r\n             │ Unused\r\n  ");
    push_hex_word(&mut out, p.mem_start);
    push_str(&mut out, " ┴───────────────────────────────────────────\r\n             .....");
    reveal(process_state_text);
    assert(out@ =~= process_state_text(WriterState::ProcessStackUnused, *p));
    out
}

/// A process's application flash.
fn print_process_flash(p: &ProcessMemory) -> (out: Vec<u8>)
    requires
        p.flash_end >= p.flash_non_protected_start,
    ensures
        out@ == process_state_text(WriterState::ProcessFlash, *p),
{
    let mut out: Vec<u8> = Vec::new();
    push_str(&mut out, "\r\n  ");
    push_hex_word(&mut out, p.flash_end);
    push_str(&mut out, " ┬─────────────────────────────────────────── F\r\n             │ App Flash    ");
    push_decimal(&mut out, p.flash_end - p.flash_non_protected_start, 6);
    push_str(&mut out, "                        L");
    reveal(process_state_text);
    assert(out@ =~= process_state_text(WriterState::ProcessFlash, *p));
    out
}

/// A process's protected flash.
fn print_process_protected(p: &ProcessMemory) -> (out: Vec<u8>)
    ensures
        out@ == process_state_text(WriterState::ProcessProtected, *p),
{
    let mut out: Vec<u8> = Vec::new();
    push_str(&mut out, "\r\n  ");
    push_hex_word(&mut out, p.flash_non_protected_start);
    push_str(&mut out, " ┼─────────────────────────────────────────── A\r\n             │ Protected    ");
    push_decimal(&mut out, p.flash_protected, 6);
    push_str(&mut out, "                        S\r\n  ");
    push_hex_word(&mut out, p.flash_start);
    push_str(&mut out, " ┴─────────────────────────────────────────── H\r\n");
    reveal(process_state_text);
    assert(out@ =~= process_state_text(WriterState::ProcessProtected, *p));
    out
}

/// The text printed for a region of the memory map: kernel regions from
/// the kernel's addresses, process regions from the addresses of the
/// process being shown when it is known.
pub fn create_state_buffer(
    state: WriterState,
    kernel: &KernelMemory,
    process: Option<ProcessMemory>,
) -> (out: Vec<u8>)
    requires
        state_text_defined(state, *kernel, process),
    ensures
        out@ == state_text(state, *kernel, process),
{
    reveal(process_state_text);
    match state {
        WriterState::KernelBss => print_kernel_bss(kernel),
        WriterState::KernelInit => print_kernel_init(kernel),
        WriterState::KernelStack => print_kernel_stack(kernel),
        WriterState::KernelRoData => print_kernel_rodata(kernel),
        WriterState::KernelText => print_kernel_text(kernel),
        _ => match process {
            Some(p) => match state {
                WriterState::ProcessGrant => print_process_grant(&p),
                WriterState::ProcessHeapUnused => print_process_heap_unused(&p),
                WriterState::ProcessHeap => print_process_heap(&p),
                WriterState::ProcessData => print_process_data(&p),
                WriterState::ProcessStack => print_process_stack(&p),
                WriterState::ProcessStackUnused => print_process_stack_unused(&p),
                WriterState::ProcessFlash => print_process_flash(&p),
                WriterState::ProcessProtected => print_process_protected(&p),
                _ => Vec::new(),
            },
            None => Vec::new(),
        },
    }
}

/// Whether the sizes printed for `state` are not negative.
pub fn region_defined(state: WriterState, k: &KernelMemory, process: &Option<ProcessMemory>) -> (r: bool)
    ensures
        r == state_text_defined(state, *k, *process),
{
    match state {
        WriterState::KernelBss => k.bss_end >= k.init_end,
        WriterState::KernelInit => k.init_end >= k.stack_end,
        WriterState::KernelStack => k.stack_end >= k.stack_start,
        WriterState::KernelRoData => k.rodata_end >= k.rodata_start,
        WriterState::KernelText => k.rodata_start >= k.text_start,
        _ => match process {
            Some(p) => match state {
                WriterState::ProcessGrant => p.mem_end >= p.kernel_memory_break,
                WriterState::ProcessHeap => match p.heap_start {
                    Some(h) => p.app_memory_break >= h && p.kernel_memory_break >= h,
                    None => true,
                },
                WriterState::ProcessData => match (p.heap_start, p.stack_start) {
                    (Some(h), Some(st)) => h >= st,
                    _ => true,
                },
                WriterState::ProcessStack => match (p.stack_start, p.stack_end) {
                    (Some(st), Some(sb)) => st >= sb && st >= p.mem_start,
                    _ => true,
                },
                WriterState::ProcessFlash => p.flash_end >= p.flash_non_protected_start,
                _ => true,
            },
            None => true,
        },
    }
}

/// The region reached from `state` after `n` more regions have been printed.
pub open spec fn state_after(state: WriterState, n: nat) -> WriterState
    decreases n,
{
    if n == 0 {
        state
    } else {
        state_after(spec_next_state(state), (n - 1) as nat)
    }
}

/// Every printing of a memory map comes to an end: from any region, at most
/// ten regions later nothing is left to print, and once nothing is left,
/// nothing more is printed.
pub proof fn lemma_printing_ends(state: WriterState)
    ensures
        state_after(state, 10) == WriterState::Empty,
        spec_next_state(WriterState::Empty) == WriterState::Empty,
{
    reveal_with_fuel(state_after, 11);
}

} // verus!
