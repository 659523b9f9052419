use lib::memory_map::{
    create_state_buffer, exceeded_check, next_state, region_defined, KernelMemory, ProcessMemory, WriterState,
};

fn kernel() -> KernelMemory {
    KernelMemory {
        init_end: 0x2000_1800,
        bss_end: 0x2000_2000,
        stack_start: 0x2000_0000,
        stack_end: 0x2000_1000,
        rodata_start: 0x0004_0000,
        rodata_end: 0x0004_1000,
        text_start: 0x0003_0000,
    }
}

fn process() -> ProcessMemory {
    ProcessMemory {
        mem_start: 0x2000_8000,
        mem_end: 0x2001_0000,
        kernel_memory_break: 0x2000_f000,
        app_memory_break: 0x2000_c000,
        heap_start: Some(0x2000_a000),
        stack_start: Some(0x2000_9000),
        stack_end: Some(0x2000_8800),
        flash_start: 0x0004_0000,
        flash_end: 0x0004_8000,
        flash_non_protected_start: 0x0004_0400,
        flash_protected: 0x400,
    }
}

fn printed(state: WriterState, k: &KernelMemory, p: Option<ProcessMemory>) -> String {
    assert!(region_defined(state, k, &p));
    String::from_utf8(create_state_buffer(state, k, p)).unwrap()
}

#[test]
fn kernel_regions_print_as_the_table() {
    let k = kernel();
    let bss_size = k.bss_end - k.init_end;
    assert_eq!(printed(WriterState::KernelBss, &k, None), format!(
        "\r\n ╔═══════════╤══════════════════════════════╗\
        \r\n ║  Address  │ Region Name    Used (bytes)  ║\
        \r\n ╚{:#010X}═╪══════════════════════════════╝\
        \r\n             │   Bss        {:6}",
        k.bss_end, bss_size
    ));
    assert_eq!(printed(WriterState::KernelInit, &k, None), format!(
        "\
        \r\n  {:#010X} ┼─────────────────────────────── S\
        \r\n             │   Init       {:6}            R",
        k.init_end, k.init_end - k.stack_end
    ));
    assert_eq!(printed(WriterState::KernelStack, &k, None), format!(
        "\
        \r\n  {:#010X} ┼─────────────────────────────── A\
        \r\n             │ ▼ Stack      {:6}            M\
        \r\n  {:#010X} ┼───────────────────────────────",
        k.stack_end, k.stack_end - k.stack_start, k.stack_start
    ));
    assert_eq!(printed(WriterState::KernelRoData, &k, None), format!(
        "\
        \r\n             .....\
        \r\n  {:#010X} ┼─────────────────────────────── F\
        \r\n             │   RoData     {:6}            L",
        k.rodata_end, k.rodata_end - k.rodata_start
    ));
    assert_eq!(printed(WriterState::KernelText, &k, None), format!(
        "\
        \r\n  {:#010X} ┼─────────────────────────────── A\
        \r\n             │   Text       {:6}            S\
        \r\n  {:#010X} ┼─────────────────────────────── H\
        \r\n",
        k.rodata_start, k.rodata_start - k.text_start, k.text_start
    ));
}

#[test]
fn process_regions_print_as_the_table() {
    let k = kernel();
    let p = process();
    let grant = p.mem_end - p.kernel_memory_break;
    assert_eq!(printed(WriterState::ProcessGrant, &k, Some(p)), format!(
        "\r\n ╔═══════════╤══════════════════════════════════════════╗\
        \r\n ║  Address  │ Region Name    Used | Allocated (bytes)  ║\
        \r\n ╚{:#010X}═╪══════════════════════════════════════════╝\
        \r\n             │ ▼ Grant      {:6} | {:6}{}",
        p.mem_end, grant, grant, exceeded_check(grant, grant)
    ));
    assert_eq!(printed(WriterState::ProcessHeapUnused, &k, Some(p)), format!(
        "\
        \r\n  {:#010X} ┼───────────────────────────────────────────\
        \r\n             │ Unused\
        \r\n  {:#010X} ┼───────────────────────────────────────────",
        p.kernel_memory_break, p.app_memory_break
    ));
    let heap_start = p.heap_start.unwrap();
    let heap_size = p.app_memory_break - heap_start;
    let heap_allocated = p.kernel_memory_break - heap_start;
    assert_eq!(printed(WriterState::ProcessHeap, &k, Some(p)), format!(
        "\
        \r\n             │ ▲ Heap       {:6} | {:6}{}     S\
        \r\n  {:#010X} ┼─────────────────────────────────────────── R",
        heap_size, heap_allocated, exceeded_check(heap_size, heap_allocated), heap_start
    ));
    let data = heap_start - p.stack_start.unwrap();
    assert_eq!(printed(WriterState::ProcessData, &k, Some(p)), format!(
        "\
        \r\n             │ Data         {:6} | {:6}               A",
        data, data
    ));
    let stack_start = p.stack_start.unwrap();
    let stack_size = stack_start - p.stack_end.unwrap();
    let stack_allocated = stack_start - p.mem_start;
    assert_eq!(printed(WriterState::ProcessStack, &k, Some(p)), format!(
        "\
        \r\n  {:#010X} ┼─────────────────────────────────────────── M\
        \r\n             │ ▼ Stack      {:6} | {:6}{}",
        stack_start, stack_size, stack_allocated, exceeded_check(stack_size, stack_allocated)
    ));
    assert_eq!(printed(WriterState::ProcessStackUnused, &k, Some(p)), format!(
        "\
        \r\n  {:#010X} ┼───────────────────────────────────────────\
        \r\n             │ Unused\
        \r\n  {:#010X} ┴───────────────────────────────────────────\
        \r\n             .....",
        p.stack_end.unwrap_or(0), p.mem_start
    ));
    assert_eq!(printed(WriterState::ProcessFlash, &k, Some(p)), format!(
        "\
        \r\n  {:#010X} ┬─────────────────────────────────────────── F\
        \r\n             │ App Flash    {:6}                        L",
        p.flash_end, p.flash_end - p.flash_non_protected_start
    ));
    assert_eq!(printed(WriterState::ProcessProtected, &k, Some(p)), format!(
        "\
        \r\n  {:#010X} ┼─────────────────────────────────────────── A\
        \r\n             │ Protected    {:6}                        S\
        \r\n  {:#010X} ┴─────────────────────────────────────────── H\
        \r\n",
        p.flash_non_protected_start, p.flash_protected, p.flash_start
    ));
}

#[test]
fn unknown_heap_and_stack_print_question_marks() {
    let k = kernel();
    let mut p = process();
    p.heap_start = None;
    p.stack_start = None;
    p.stack_end = None;
    assert_eq!(printed(WriterState::ProcessHeap, &k, Some(p)), format!("\
        \r\n             │ ▲ Heap            ? |      ?               S\
        \r\n  ?????????? ┼─────────────────────────────────────────── R"));
    assert_eq!(printed(WriterState::ProcessData, &k, Some(p)), format!("\
        \r\n             │ Data              ? |      ?               A"));
    assert_eq!(printed(WriterState::ProcessStack, &k, Some(p)), format!("\
        \r\n  ?????????? ┼─────────────────────────────────────────── M\
        \r\n             │ ▼ Stack           ? |      ?"));
    assert_eq!(printed(WriterState::ProcessStackUnused, &k, Some(p)), format!(
        "\
        \r\n  {:#010X} ┼───────────────────────────────────────────\
        \r\n             │ Unused\
        \r\n  {:#010X} ┴───────────────────────────────────────────\
        \r\n             .....",
        0, p.mem_start
    ));
}

#[test]
fn exceeded_regions_are_marked() {
    assert_eq!(exceeded_check(10, 5), " EXCEEDED!");
    assert_eq!(exceeded_check(5, 5), "          ");
    assert_eq!(exceeded_check(0, 5), "          ");
    let k = kernel();
    let mut p = process();
    // A heap grown past the grant break.
    p.app_memory_break = 0x2000_f800;
    let text = printed(WriterState::ProcessHeap, &k, Some(p));
    assert!(text.contains(" EXCEEDED!"));
}

#[test]
fn no_process_prints_nothing() {
    let k = kernel();
    assert_eq!(printed(WriterState::ProcessGrant, &k, None), "");
    assert_eq!(printed(WriterState::Empty, &k, None), "");
    assert_eq!(printed(WriterState::KernelStart, &k, None), "");
}

#[test]
fn negative_sizes_are_refused() {
    let mut k = kernel();
    k.bss_end = k.init_end - 1;
    assert!(!region_defined(WriterState::KernelBss, &k, &None));
    assert!(region_defined(WriterState::KernelInit, &k, &None));
}

#[test]
fn kernel_map_runs_from_bss_to_text() {
    let mut state = WriterState::KernelStart;
    let mut seen = Vec::new();
    for _ in 0..6 {
        state = next_state(state);
        seen.push(state);
    }
    assert_eq!(seen, vec![
        WriterState::KernelBss,
        WriterState::KernelInit,
        WriterState::KernelStack,
        WriterState::KernelRoData,
        WriterState::KernelText,
        WriterState::Empty,
    ]);
}

#[test]
fn process_map_runs_from_grant_to_protected_flash() {
    let mut state = WriterState::ProcessStart;
    let mut seen = Vec::new();
    for _ in 0..10 {
        state = next_state(state);
        seen.push(state);
    }
    assert_eq!(seen, vec![
        WriterState::ProcessGrant,
        WriterState::ProcessHeapUnused,
        WriterState::ProcessHeap,
        WriterState::ProcessData,
        WriterState::ProcessStack,
        WriterState::ProcessStackUnused,
        WriterState::ProcessFlash,
        WriterState::ProcessProtected,
        WriterState::Empty,
        WriterState::Empty,
    ]);
}

#[test]
fn every_printing_ends_within_ten_regions() {
    let all = [
        WriterState::Empty, WriterState::KernelStart, WriterState::KernelBss, WriterState::KernelInit,
        WriterState::KernelStack, WriterState::KernelRoData, WriterState::KernelText,
        WriterState::ProcessStart, WriterState::ProcessGrant, WriterState::ProcessHeap,
        WriterState::ProcessHeapUnused, WriterState::ProcessData, WriterState::ProcessStack,
        WriterState::ProcessStackUnused, WriterState::ProcessFlash, WriterState::ProcessProtected,
    ];
    for s in all {
        let mut state = s;
        for _ in 0..10 {
            state = next_state(state);
        }
        assert_eq!(state, WriterState::Empty, "from {:?}", s);
    }
}

#[test]
fn default_state_is_empty() {
    assert_eq!(WriterState::default(), WriterState::Empty);
}
