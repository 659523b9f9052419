//! The rows of the console's process list, and the choice of the
//! processes that a command acts on by the name it gives.

use vstd::prelude::*;
use crate::command_line::{ConsoleCommand, CommandView};
use crate::console_writer::CONSOLE_WRITER_SIZE;
use crate::format::{text, digits, decimal, pad_left, push_str, push_bytes, push_decimal, push_padded, digits_of};

verus! {

/// A name left-aligned in a column of 20 characters.
pub open spec fn name_column(name: &str) -> Seq<u8> {
    if name@.len() >= 20 {
        text(name)
    } else {
        text(name) + pad_left(Seq::empty(), (20 - name@.len()) as nat, 0x20)
    }
}

/// The row of the process list for one process: its identifier and state
/// as the kernel renders them, its name in a column of 20, its timeslice
/// expirations (6 wide), system calls (10 wide), dropped upcalls (19 wide),
/// restarts (10 wide), and grants used (5 wide) out of the total.
pub open spec fn list_row_text(
    id: &str,
    name: &str,
    quanta: usize,
    syscalls: usize,
    dropped: usize,
    restarts: usize,
    state: &str,
    grants_used: usize,
    grants_total: usize,
) -> Seq<u8> {
    text("  ") + text(id) + text("\t") + name_column(name) + decimal(quanta as nat, 6) + decimal(
        syscalls as nat,
        10,
    ) + decimal(dropped as nat, 19) + decimal(restarts as nat, 10) + text("  ") + text(state) + decimal(
        grants_used as nat,
        5,
    ) + text("/") + digits(grants_total as nat, 10) + text("\n")
}

fn build_list_row(
    id: &str,
    name: &str,
    quanta: usize,
    syscalls: usize,
    dropped: usize,
    restarts: usize,
    state: &str,
    grants_used: usize,
    grants_total: usize,
) -> (out: Vec<u8>)
    ensures
        out@ == list_row_text(id, name, quanta, syscalls, dropped, restarts, state, grants_used, grants_total),
{
    let mut out: Vec<u8> = Vec::new();
    push_str(&mut out, "  ");
    push_str(&mut out, id);
    push_str(&mut out, "\t");
    push_str(&mut out, name);
    let n = name.unicode_len();
    if n < 20 {
        push_padded(&mut out, &[], 20 - n, 0x20);
    }
    push_decimal(&mut out, quanta, 6);
    push_decimal(&mut out, syscalls, 10);
    push_decimal(&mut out, dropped, 19);
    push_decimal(&mut out, restarts, 10);
    push_str(&mut out, "  ");
    push_str(&mut out, state);
    push_decimal(&mut out, grants_used, 5);
    push_str(&mut out, "/");
    let d = digits_of(grants_total, 10);
    push_bytes(&mut out, d.as_slice());
    push_str(&mut out, "\n");
    proof {
        let empty: &[u8] = &[];
        assert(empty@ =~= Seq::<u8>::empty());
    }
    assert(out@ =~= list_row_text(id, name, quanta, syscalls, dropped, restarts, state, grants_used, grants_total));
    out
}

/// The row of the process list for one process; it must fit the 500 bytes
/// the console formats text in.
pub fn list_row(
    id: &str,
    name: &str,
    quanta: usize,
    syscalls: usize,
    dropped: usize,
    restarts: usize,
    state: &str,
    grants_used: usize,
    grants_total: usize,
) -> (out: Vec<u8>)
    requires
        list_row_text(id, name, quanta, syscalls, dropped, restarts, state, grants_used, grants_total).len()
            <= CONSOLE_WRITER_SIZE,
    ensures
        out@ == list_row_text(id, name, quanta, syscalls, dropped, restarts, state, grants_used, grants_total),
{
    build_list_row(id, name, quanta, syscalls, dropped, restarts, state, grants_used, grants_total)
}

/// Whether the row of the process list for one process fits the 500 bytes
/// the console formats text in.
pub fn list_row_fits(
    id: &str,
    name: &str,
    quanta: usize,
    syscalls: usize,
    dropped: usize,
    restarts: usize,
    state: &str,
    grants_used: usize,
    grants_total: usize,
) -> (r: bool)
    ensures
        r == (list_row_text(id, name, quanta, syscalls, dropped, restarts, state, grants_used, grants_total).len()
            <= CONSOLE_WRITER_SIZE),
{
    let row = build_list_row(id, name, quanta, syscalls, dropped, restarts, state, grants_used, grants_total);
    row.len() <= CONSOLE_WRITER_SIZE
}

/// Whether a process named `name` is the one a command names.
pub fn name_matches(name: &str, wanted: &Vec<char>) -> (r: bool)
    ensures
        r == (name@ == wanted@),
{
    let n = name.unicode_len();
    if n != wanted.len() {
        return false;
    }
    let mut i: usize = 0;
    while i < n
        invariant
            i <= n,
            n == name@.len(),
            n == wanted@.len(),
            forall|k: int| 0 <= k < i ==> name@[k] == wanted@[k],
        decreases n - i,
    {
        if name.get_char(i) != wanted[i] {
            return false;
        }
        i = i + 1;
    }
    assert(name@ =~= wanted@);
    true
}

/// The names as character sequences.
pub open spec fn names_view(names: Seq<String>) -> Seq<Seq<char>> {
    names.map_values(|n: String| n@)
}

/// The indices, in order, of those of the first `n` names that are `wanted`.
pub open spec fn matching_indices(names: Seq<Seq<char>>, wanted: Seq<char>, n: int) -> Seq<usize>
    decreases n,
{
    if n <= 0 {
        Seq::empty()
    } else {
        let here = if names[n - 1] == wanted {
            seq![(n - 1) as usize]
        } else {
            Seq::empty()
        };
        matching_indices(names, wanted, n - 1) + here
    }
}

/// The processes, by their index among `names`, that a command acts on one
/// by one: for `start`, `stop`, `fault` and `process` with a name, every
/// process with that name, in order; none otherwise.
pub open spec fn command_targets_spec(cmd: CommandView, names: Seq<Seq<char>>) -> Seq<usize> {
    match cmd {
        CommandView::Start(Some(w)) => matching_indices(names, w, names.len() as int),
        CommandView::Stop(Some(w)) => matching_indices(names, w, names.len() as int),
        CommandView::Fault(Some(w)) => matching_indices(names, w, names.len() as int),
        CommandView::Process(Some(w)) => matching_indices(names, w, names.len() as int),
        _ => Seq::empty(),
    }
}

/// The processes a name picks are exactly those with that name, each once,
/// in the order they come: an index is picked if and only if its name is
/// the one wanted, and the indices picked increase.
pub proof fn lemma_named_processes_each_once(names: Seq<Seq<char>>, wanted: Seq<char>, n: int)
    requires
        0 <= n <= names.len(),
        names.len() <= usize::MAX,
    ensures
        ({
            let m = matching_indices(names, wanted, n);
            &&& forall|i: int| 0 <= i < n ==> (m.contains(i as usize) <==> names[i] == wanted)
            &&& forall|k: int| 0 <= k < m.len() ==> m[k] < n
            &&& forall|j: int, k: int| 0 <= j < k < m.len() ==> m[j] < m[k]
        }),
    decreases n,
{
    if n > 0 {
        lemma_named_processes_each_once(names, wanted, n - 1);
        let prev = matching_indices(names, wanted, n - 1);
        let m = matching_indices(names, wanted, n);
        assert forall|i: int| 0 <= i < n implies (m.contains(i as usize) <==> names[i] == wanted) by {
            if m.contains(i as usize) {
                let k = choose|k: int| 0 <= k < m.len() && m[k] == i as usize;
                if k < prev.len() {
                    assert(prev[k] == m[k]);
                    assert(prev.contains(i as usize));
                }
            }
            if names[i] == wanted {
                if i < n - 1 {
                    let k = choose|k: int| 0 <= k < prev.len() && prev[k] == i as usize;
                    assert(m[k] == prev[k]);
                } else {
                    assert(m[prev.len() as int] == i as usize);
                }
            }
        }
    }
}

/// The indices of the names that are `wanted`, in order.
pub fn named_indices(names: &Vec<String>, wanted: &Vec<char>) -> (r: Vec<usize>)
    ensures
        r@ == matching_indices(names_view(names@), wanted@, names@.len() as int),
{
    let mut r: Vec<usize> = Vec::new();
    let mut i: usize = 0;
    while i < names.len()
        invariant
            i <= names@.len(),
            r@ == matching_indices(names_view(names@), wanted@, i as int),
        decreases names@.len() - i,
    {
        let here = name_matches(names[i].as_str(), wanted);
        proof {
            assert(names_view(names@)[i as int] == names@[i as int]@);
        }
        if here {
            r.push(i);
        }
        proof {
            let m = matching_indices(names_view(names@), wanted@, i + 1);
            assert(r@ =~= m);
        }
        i = i + 1;
    }
    r
}

/// The processes, by their index among `names`, that a command acts on
/// one by one.
pub fn command_targets(cmd: &ConsoleCommand, names: &Vec<String>) -> (r: Vec<usize>)
    ensures
        r@ == command_targets_spec(cmd@, names_view(names@)),
{
    match cmd {
        ConsoleCommand::Start(Some(w)) => named_indices(names, w),
        ConsoleCommand::Stop(Some(w)) => named_indices(names, w),
        ConsoleCommand::Fault(Some(w)) => named_indices(names, w),
        ConsoleCommand::Process(Some(w)) => named_indices(names, w),
        _ => Vec::new(),
    }
}

} // verus!
