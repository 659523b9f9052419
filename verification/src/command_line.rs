//! Parsing of the commands typed at the process console.

use vstd::prelude::*;
use vstd::utf8::{valid_utf8, decode_utf8};

verus! {

/// A failure to read bytes as UTF-8.
#[verifier::external_type_specification]
#[verifier::external_body]
pub struct ExUtf8Error(core::str::Utf8Error);

/// `core::str::from_utf8`: the bytes as a string slice when they are valid
/// UTF-8, else an error; the string holds the characters the bytes encode.
pub assume_specification[ core::str::from_utf8 ](v: &[u8]) -> (r: Result<&str, core::str::Utf8Error>)
    ensures
        r is Ok <==> valid_utf8(v@),
        r matches Ok(s) ==> s@ == decode_utf8(v@),
;

/// Unicode's White_Space property.
pub open spec fn is_whitespace(c: char) -> bool {
    let u = c as u32;
    ||| 0x09 <= u <= 0x0d
    ||| u == 0x20
    ||| u == 0x85
    ||| u == 0xa0
    ||| u == 0x1680
    ||| 0x2000 <= u <= 0x200a
    ||| u == 0x2028
    ||| u == 0x2029
    ||| u == 0x202f
    ||| u == 0x205f
    ||| u == 0x3000
}

/// `s` without its leading whitespace.
pub open spec fn trim_start(s: Seq<char>) -> Seq<char>
    decreases s.len(),
{
    if s.len() > 0 && is_whitespace(s[0]) {
        trim_start(s.drop_first())
    } else {
        s
    }
}

/// `s` without its trailing whitespace.
pub open spec fn trim_end(s: Seq<char>) -> Seq<char>
    decreases s.len(),
{
    if s.len() > 0 && is_whitespace(s.last()) {
        trim_end(s.drop_last())
    } else {
        s
    }
}

/// `s` without leading and trailing whitespace.
pub open spec fn trim(s: Seq<char>) -> Seq<char> {
    trim_end(trim_start(s))
}

/// `s` begins with `p`.
pub open spec fn starts_with(s: Seq<char>, p: Seq<char>) -> bool {
    p.len() <= s.len() && s.subrange(0, p.len() as int) == p
}

/// The characters of `s` up to its first whitespace.
pub open spec fn take_word(s: Seq<char>) -> Seq<char>
    decreases s.len(),
{
    if s.len() > 0 && !is_whitespace(s[0]) {
        seq![s[0]] + take_word(s.drop_first())
    } else {
        Seq::empty()
    }
}

/// The word at index `n` of `s`, words being the maximal runs of
/// non-whitespace characters.
pub open spec fn nth_word(s: Seq<char>, n: nat) -> Option<Seq<char>>
    decreases s.len(), n,
{
    let t = trim_start(s);
    if t.len() == 0 {
        None
    } else {
        let w = take_word(t);
        if n == 0 {
            Some(w)
        } else {
            proof {
                lemma_trim_start_len(s);
                lemma_take_word_nonempty(t);
            }
            nth_word(t.skip(w.len() as int), (n - 1) as nat)
        }
    }
}

pub proof fn lemma_take_word_nonempty(t: Seq<char>)
    requires
        t.len() > 0 ==> !is_whitespace(t[0]),
    ensures
        t.len() > 0 ==> take_word(t).len() > 0,
        take_word(t).len() <= t.len(),
    decreases t.len(),
{
    if t.len() > 0 {
        if t.len() > 1 && !is_whitespace(t[1]) {
            lemma_take_word_nonempty(t.drop_first());
        } else {
            lemma_take_word_len(t.drop_first());
        }
    }
}

pub proof fn lemma_take_word_len(t: Seq<char>)
    ensures
        take_word(t).len() <= t.len(),
    decreases t.len(),
{
    if t.len() > 0 && !is_whitespace(t[0]) {
        lemma_take_word_len(t.drop_first());
    }
}

pub proof fn lemma_trim_start_len(s: Seq<char>)
    ensures
        trim_start(s).len() <= s.len(),
        trim_start(s).len() > 0 ==> !is_whitespace(trim_start(s)[0]),
    decreases s.len(),
{
    if s.len() > 0 && is_whitespace(s[0]) {
        lemma_trim_start_len(s.drop_first());
    }
}

/// Index of the first zero byte, or 0 when there is none.
pub open spec fn terminator(c: Seq<u8>) -> int {
    first_zero_from(c, 0)
}

/// Index of the first zero byte at or after `i`, or 0 when there is none.
pub open spec fn first_zero_from(c: Seq<u8>, i: int) -> int
    decreases c.len() - i,
{
    if i < 0 || i >= c.len() {
        0
    } else if c[i] == 0 {
        i
    } else {
        first_zero_from(c, i + 1)
    }
}

/// What a typed line asks for.
pub enum ConsoleCommand {
    /// The line is empty.
    Nothing,
    /// The line is not valid UTF-8.
    Invalid,
    Help,
    /// Resume the named process.
    Start(Option<Vec<char>>),
    /// Stop the named process.
    Stop(Option<Vec<char>>),
    /// Put the named process in a fault state.
    Fault(Option<Vec<char>>),
    /// List the processes.
    List,
    /// Print the system status.
    Status,
    /// Print the memory map of the named process.
    Process(Option<Vec<char>>),
    /// Print the kernel version, drivers and memory map.
    Kernel,
    /// Run the kernel's panic handler.
    Panic,
    /// Anything else.
    Unknown,
}

/// A [`ConsoleCommand`] with its names seen as character sequences.
pub enum CommandView {
    Nothing,
    Invalid,
    Help,
    Start(Option<Seq<char>>),
    Stop(Option<Seq<char>>),
    Fault(Option<Seq<char>>),
    List,
    Status,
    Process(Option<Seq<char>>),
    Kernel,
    Panic,
    Unknown,
}

/// The characters of an optional name.
pub open spec fn name_view(n: Option<Vec<char>>) -> Option<Seq<char>> {
    match n {
        Some(v) => Some(v@),
        None => None,
    }
}

impl View for ConsoleCommand {
    type V = CommandView;

    open spec fn view(&self) -> CommandView {
        match self {
            ConsoleCommand::Nothing => CommandView::Nothing,
            ConsoleCommand::Invalid => CommandView::Invalid,
            ConsoleCommand::Help => CommandView::Help,
            ConsoleCommand::Start(n) => CommandView::Start(name_view(*n)),
            ConsoleCommand::Stop(n) => CommandView::Stop(name_view(*n)),
            ConsoleCommand::Fault(n) => CommandView::Fault(name_view(*n)),
            ConsoleCommand::List => CommandView::List,
            ConsoleCommand::Status => CommandView::Status,
            ConsoleCommand::Process(n) => CommandView::Process(name_view(*n)),
            ConsoleCommand::Kernel => CommandView::Kernel,
            ConsoleCommand::Panic => CommandView::Panic,
            ConsoleCommand::Unknown => CommandView::Unknown,
        }
    }
}

/// What the line stored in a command buffer asks for: the bytes before the
/// first zero (nothing when that is at index 0 or there is none), read as
/// UTF-8, trimmed, and recognized by their first word's prefix; the second
/// word names a process.
pub open spec fn parse_command(command: Seq<u8>) -> CommandView {
    let t = terminator(command);
    if t == 0 {
        CommandView::Nothing
    } else {
        let bytes = command.subrange(0, t);
        if !valid_utf8(bytes) {
            CommandView::Invalid
        } else {
            let clean = trim(decode_utf8(bytes));
            let argument = nth_word(clean, 1);
            if starts_with(clean, "help"@) {
                CommandView::Help
            } else if starts_with(clean, "start"@) {
                CommandView::Start(argument)
            } else if starts_with(clean, "stop"@) {
                CommandView::Stop(argument)
            } else if starts_with(clean, "fault"@) {
                CommandView::Fault(argument)
            } else if starts_with(clean, "list"@) {
                CommandView::List
            } else if starts_with(clean, "status"@) {
                CommandView::Status
            } else if starts_with(clean, "process"@) {
                CommandView::Process(argument)
            } else if starts_with(clean, "kernel"@) {
                CommandView::Kernel
            } else if starts_with(clean, "panic"@) {
                CommandView::Panic
            } else {
                CommandView::Unknown
            }
        }
    }
}

pub proof fn lemma_trim_start_skip(s: Seq<char>, i: int)
    requires
        0 <= i <= s.len(),
        forall|k: int| 0 <= k < i ==> is_whitespace(#[trigger] s[k]),
    ensures
        trim_start(s) == trim_start(s.skip(i)),
    decreases i,
{
    if i > 0 {
        assert(s.drop_first().skip(i - 1) =~= s.skip(i));
        lemma_trim_start_skip(s.drop_first(), i - 1);
    } else {
        assert(s.skip(0) =~= s);
    }
}

pub proof fn lemma_trim_end_take(s: Seq<char>, j: int)
    requires
        0 <= j <= s.len(),
        forall|k: int| j <= k < s.len() ==> is_whitespace(#[trigger] s[k]),
    ensures
        trim_end(s) == trim_end(s.take(j)),
    decreases s.len() - j,
{
    if j < s.len() {
        assert(s.drop_last().take(j) =~= s.take(j));
        lemma_trim_end_take(s.drop_last(), j);
    } else {
        assert(s.take(j) =~= s);
    }
}

pub proof fn lemma_take_word_prefix(t: Seq<char>, j: int)
    requires
        0 <= j <= t.len(),
        forall|k: int| 0 <= k < j ==> !is_whitespace(#[trigger] t[k]),
        j == t.len() || is_whitespace(t[j]),
    ensures
        take_word(t) == t.take(j),
    decreases j,
{
    if j > 0 {
        lemma_take_word_prefix(t.drop_first(), j - 1);
        assert(seq![t[0]] + t.drop_first().take(j - 1) =~= t.take(j));
    } else {
        assert(t.take(0) =~= Seq::<char>::empty());
    }
}

/// Unicode's White_Space property.
pub fn char_is_whitespace(c: char) -> (r: bool)
    ensures
        r == is_whitespace(c),
{
    let u = c as u32;
    (0x09 <= u && u <= 0x0d) || u == 0x20 || u == 0x85 || u == 0xa0 || u == 0x1680 || (0x2000 <= u
        && u <= 0x200a) || u == 0x2028 || u == 0x2029 || u == 0x202f || u == 0x205f || u == 0x3000
}

fn find_terminator(c: &[u8]) -> (t: usize)
    ensures
        t == terminator(c@),
        t <= c@.len(),
{
    let mut i: usize = 0;
    while i < c.len()
        invariant
            i <= c@.len(),
            first_zero_from(c@, 0) == first_zero_from(c@, i as int),
        decreases c@.len() - i,
    {
        if c[i] == 0 {
            return i;
        }
        i = i + 1;
    }
    0
}

fn chars_of(s: &str) -> (v: Vec<char>)
    ensures
        v@ == s@,
{
    let n = s.unicode_len();
    let mut v: Vec<char> = Vec::new();
    let mut i: usize = 0;
    while i < n
        invariant
            i <= n,
            n == s@.len(),
            v@ == s@.subrange(0, i as int),
        decreases n - i,
    {
        v.push(s.get_char(i));
        i = i + 1;
        assert(v@ =~= s@.subrange(0, i as int));
    }
    assert(s@.subrange(0, n as int) =~= s@);
    v
}

fn sub_chars(s: &Vec<char>, from: usize, to: usize) -> (v: Vec<char>)
    requires
        from <= to <= s@.len(),
    ensures
        v@ == s@.subrange(from as int, to as int),
{
    let mut v: Vec<char> = Vec::new();
    let mut i: usize = from;
    while i < to
        invariant
            from <= i <= to,
            to <= s@.len(),
            v@ == s@.subrange(from as int, i as int),
        decreases to - i,
    {
        v.push(s[i]);
        i = i + 1;
        assert(v@ =~= s@.subrange(from as int, i as int));
    }
    v
}

/// The first index at or after `from` whose character is (or, when
/// `whitespace` is false, is not) whitespace; the length when there is none.
fn scan(s: &Vec<char>, from: usize, whitespace: bool) -> (i: usize)
    requires
        from <= s@.len(),
    ensures
        from <= i <= s@.len(),
        forall|k: int| from <= k < i ==> is_whitespace(#[trigger] s@[k]) != whitespace,
        i < s@.len() ==> is_whitespace(s@[i as int]) == whitespace,
{
    let mut i = from;
    while i < s.len() && char_is_whitespace(s[i]) != whitespace
        invariant
            from <= i <= s@.len(),
            forall|k: int| from <= k < i ==> is_whitespace(#[trigger] s@[k]) != whitespace,
        decreases s@.len() - i,
    {
        i = i + 1;
    }
    i
}

/// The characters without leading and trailing whitespace.
pub fn trim_chars(s: &Vec<char>) -> (r: Vec<char>)
    ensures
        r@ == trim(s@),
{
    let start = scan(s, 0, false);
    proof {
        lemma_trim_start_skip(s@, start as int);
    }
    let mut end = s.len();
    while end > start && char_is_whitespace(s[end - 1])
        invariant
            start <= end <= s@.len(),
            forall|k: int| end <= k < s@.len() ==> is_whitespace(#[trigger] s@[k]),
        decreases end,
    {
        end = end - 1;
    }
    let r = sub_chars(s, start, end);
    proof {
        let t = s@.skip(start as int);
        assert(trim_start(t) == t);
        assert forall|k: int| end - start <= k < t.len() implies is_whitespace(#[trigger] t[k]) by {
            assert(t[k] == s@[k + start]);
        }
        lemma_trim_end_take(t, end - start);
        assert(t.take(end - start) =~= r@);
        if end > start {
            assert(r@.last() == s@[end - 1]);
        }
        assert(trim_end(r@) == r@);
    }
    r
}

/// Whether the characters begin with those of `p`.
pub fn chars_start_with(s: &Vec<char>, p: &str) -> (r: bool)
    ensures
        r == starts_with(s@, p@),
{
    let n = p.unicode_len();
    if n > s.len() {
        return false;
    }
    let mut i: usize = 0;
    while i < n
        invariant
            i <= n,
            n == p@.len(),
            n <= s@.len(),
            forall|k: int| 0 <= k < i ==> s@[k] == p@[k],
        decreases n - i,
    {
        if s[i] != p.get_char(i) {
            assert(s@.subrange(0, n as int)[i as int] != p@[i as int]);
            return false;
        }
        i = i + 1;
    }
    assert(s@.subrange(0, n as int) =~= p@);
    true
}

/// The second word, when there is one.
pub fn second_word(s: &Vec<char>) -> (r: Option<Vec<char>>)
    ensures
        name_view(r) == nth_word(s@, 1),
{
    let a = scan(s, 0, false);
    proof {
        lemma_trim_start_skip(s@, a as int);
    }
    if a == s.len() {
        assert(s@.skip(a as int).len() == 0);
        return None;
    }
    let b = scan(s, a, true);
    let c = scan(s, b, false);
    let ghost t = s@.skip(a as int);
    proof {
        assert(trim_start(t) == t);
        assert forall|k: int| 0 <= k < b - a implies !is_whitespace(#[trigger] t[k]) by {
            assert(t[k] == s@[k + a]);
        }
        lemma_take_word_prefix(t, b - a);
        assert(t.take(b - a).len() == b - a);
        let rest = t.skip(b - a);
        assert(rest =~= s@.skip(b as int));
        lemma_trim_start_skip(s@.skip(b as int), c - b);
        assert(s@.skip(b as int).skip(c - b) =~= s@.skip(c as int));
        assert(take_word(t).len() == b - a);
        assert(nth_word(s@, 1) == nth_word(s@.skip(b as int), 0));
    }
    if c == s.len() {
        assert(s@.skip(c as int).len() == 0);
        assert(trim_start(s@.skip(b as int)).len() == 0);
        return None;
    }
    let d = scan(s, c, true);
    proof {
        let u = s@.skip(c as int);
        assert(trim_start(u) == u);
        assert forall|k: int| 0 <= k < d - c implies !is_whitespace(#[trigger] u[k]) by {
            assert(u[k] == s@[k + c]);
        }
        lemma_take_word_prefix(u, d - c);
        assert(u.take(d - c) =~= s@.subrange(c as int, d as int));
        assert(trim_start(s@.skip(b as int)) == u);
        assert(nth_word(s@.skip(b as int), 0) == Some(take_word(u)));
    }
    Some(sub_chars(s, c, d))
}

/// What the line stored in a command buffer asks for.
pub fn read_command_line(command: &[u8]) -> (r: ConsoleCommand)
    ensures
        r@ == parse_command(command@),
{
    let t = find_terminator(command);
    if t == 0 {
        return ConsoleCommand::Nothing;
    }
    let mut bytes: Vec<u8> = Vec::new();
    let mut i: usize = 0;
    while i < t
        invariant
            i <= t,
            t <= command@.len(),
            bytes@ == command@.subrange(0, i as int),
        decreases t - i,
    {
        bytes.push(command[i]);
        i = i + 1;
        assert(bytes@ =~= command@.subrange(0, i as int));
    }
    match core::str::from_utf8(bytes.as_slice()) {
        Err(_) => ConsoleCommand::Invalid,
        Ok(s) => {
            let chars = chars_of(s);
            let clean = trim_chars(&chars);
            if chars_start_with(&clean, "help") {
                ConsoleCommand::Help
            } else if chars_start_with(&clean, "start") {
                ConsoleCommand::Start(second_word(&clean))
            } else if chars_start_with(&clean, "stop") {
                ConsoleCommand::Stop(second_word(&clean))
            } else if chars_start_with(&clean, "fault") {
                ConsoleCommand::Fault(second_word(&clean))
            } else if chars_start_with(&clean, "list") {
                ConsoleCommand::List
            } else if chars_start_with(&clean, "status") {
                ConsoleCommand::Status
            } else if chars_start_with(&clean, "process") {
                ConsoleCommand::Process(second_word(&clean))
            } else if chars_start_with(&clean, "kernel") {
                ConsoleCommand::Kernel
            } else if chars_start_with(&clean, "panic") {
                ConsoleCommand::Panic
            } else {
                ConsoleCommand::Unknown
            }
        },
    }
}

} // verus!
