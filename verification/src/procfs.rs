//! Names and contents of the per-process control files.
//!
//! The soft-dirty state of a process is cleared by writing to its
//! `clear_refs` file. Which processes there are is read off the entries of
//! the process directory: an entry whose name is a number stands for the
//! process with that id.

use vstd::prelude::*;
use vstd::string::*;

verus! {

/// The value of the decimal digit `d`.
pub open spec fn digit_char(d: nat) -> char
    recommends
        d < 10,
{
    (0x30 + d) as char
}

/// The decimal numeral of `n`, without sign or leading zeros.
pub open spec fn decimal(n: nat) -> Seq<char>
    decreases n,
{
    if n < 10 {
        seq![digit_char(n)]
    } else {
        decimal(n / 10).push(digit_char(n % 10))
    }
}

/// The path of the control file of process `pid`.
pub open spec fn clear_refs_path_of(pid: u32) -> Seq<char> {
    "/proc/"@ + decimal(pid as nat) + "/clear_refs"@
}

/// What is written to a control file to clear the soft-dirty state: the
/// digit 4 and a line feed.
pub open spec fn clear_soft_dirty_command() -> Seq<u8> {
    seq![0x34u8, 0x0au8]
}

/// `byte` is one of the ASCII digits.
pub open spec fn is_digit(byte: u8) -> bool {
    0x30 <= byte <= 0x39
}

/// Every byte of `bytes` is an ASCII digit.
pub open spec fn all_digits(bytes: Seq<u8>) -> bool {
    forall|i: int| 0 <= i < bytes.len() ==> is_digit(#[trigger] bytes[i])
}

/// The number that the decimal digits `digits` spell.
pub open spec fn digits_value(digits: Seq<u8>) -> nat
    decreases digits.len(),
{
    if digits.len() == 0 {
        0
    } else {
        digits_value(digits.drop_last()) * 10 + (digits.last() - 0x30) as nat
    }
}

/// The part of a name that has to be digits: all of it but a plus sign in
/// front.
pub open spec fn digits_of_name(name: Seq<u8>) -> Seq<u8> {
    if name.len() > 0 && name[0] == 0x2b {
        name.skip(1)
    } else {
        name
    }
}

/// The process id that a directory entry named `name` stands for.
///
/// A name stands for a process if it is a decimal number that fits 32 bits:
/// one digit or more, with nothing before them but at most one plus sign and
/// nothing behind.
pub open spec fn pid_of_name(name: Seq<u8>) -> Option<u32> {
    let digits = digits_of_name(name);
    if digits.len() > 0 && all_digits(digits) && digits_value(digits) <= u32::MAX {
        Some(digits_value(digits) as u32)
    } else {
        None
    }
}

/// The process ids that the entries `names` stand for, in the order of the
/// entries.
pub open spec fn pids_of_names(names: Seq<Vec<u8>>) -> Seq<u32>
    decreases names.len(),
{
    if names.len() == 0 {
        Seq::empty()
    } else {
        let earlier = pids_of_names(names.drop_last());
        match pid_of_name(names.last()@) {
            Some(pid) => earlier.push(pid),
            None => earlier,
        }
    }
}

/// The decimal numeral of `n` as the bytes of an entry name.
pub open spec fn decimal_name(n: nat) -> Seq<u8> {
    Seq::new(decimal(n).len(), |i: int| decimal(n)[i] as u8)
}

/// A number does not get smaller when digits are put behind it.
proof fn lemma_digits_value_grows(digits: Seq<u8>, shorter: int)
    requires
        0 <= shorter <= digits.len(),
        all_digits(digits),
    ensures
        digits_value(digits.take(shorter)) <= digits_value(digits),
    decreases digits.len() - shorter,
{
    if shorter < digits.len() {
        lemma_digits_value_grows(digits, shorter + 1);
        assert(digits.take(shorter + 1).drop_last() == digits.take(shorter));
    } else {
        assert(digits.take(shorter) == digits);
    }
}

/// Reads the process id off the name of a directory entry.
///
/// Gives the id for a name that is a decimal number fitting 32 bits, with at
/// most a plus sign in front, and `None` for every other name.
pub fn parse_pid(name: &[u8]) -> (pid: Option<u32>)
    ensures
        pid == pid_of_name(name@),
{
    let len = name.len();
    let start: usize = if len > 0 && name[0] == 0x2b {
        1
    } else {
        0
    };
    let ghost digits = digits_of_name(name@);
    if start == len {
        return None;
    }
    let mut value: u64 = 0;
    let mut at: usize = start;
    while at < len
        invariant
            start <= at <= len,
            len == name@.len(),
            digits == name@.skip(start as int),
            digits == digits_of_name(name@),
            all_digits(digits.take(at - start)),
            value == digits_value(digits.take(at - start)),
            value <= u32::MAX,
        decreases len - at,
    {
        let byte = name[at];
        if byte < 0x30 || byte > 0x39 {
            assert(!is_digit(digits[at - start]));
            return None;
        }
        proof {
            assert(digits.take(at - start + 1).drop_last() == digits.take(at - start));
        }
        value = value * 10 + (byte - 0x30) as u64;
        at = at + 1;
        if value > u32::MAX as u64 {
            proof {
                if all_digits(digits) {
                    lemma_digits_value_grows(digits, at - start);
                }
            }
            return None;
        }
    }
    assert(digits.take(at - start) == digits);
    Some(value as u32)
}

/// Picks the process ids out of the names of the entries of the process
/// directory, keeping their order. Entries that do not stand for a process
/// are passed over.
pub fn listed_pids(names: &Vec<Vec<u8>>) -> (pids: Vec<u32>)
    ensures
        pids@ == pids_of_names(names@),
{
    let mut pids: Vec<u32> = Vec::new();
    let mut at: usize = 0;
    while at < names.len()
        invariant
            at <= names.len(),
            pids@ == pids_of_names(names@.take(at as int)),
        decreases names.len() - at,
    {
        assert(names@.take(at + 1).drop_last() == names@.take(at as int));
        match parse_pid(names[at].as_slice()) {
            Some(pid) => pids.push(pid),
            None => {},
        }
        at = at + 1;
    }
    assert(names@.take(at as int) == names@);
    pids
}

/// The one-character string of the decimal digit `d`.
fn digit_str(d: u32) -> (s: &'static str)
    requires
        d < 10,
    ensures
        s@ == seq![digit_char(d as nat)],
{
    proof {
        reveal_strlit("0");
        reveal_strlit("1");
        reveal_strlit("2");
        reveal_strlit("3");
        reveal_strlit("4");
        reveal_strlit("5");
        reveal_strlit("6");
        reveal_strlit("7");
        reveal_strlit("8");
        reveal_strlit("9");
    }
    let s = match d {
        0 => "0",
        1 => "1",
        2 => "2",
        3 => "3",
        4 => "4",
        5 => "5",
        6 => "6",
        7 => "7",
        8 => "8",
        _ => "9",
    };
    s
}

/// Appends the decimal numeral of `n` to `text`.
fn append_decimal(text: &mut String, n: u32)
    ensures
        final(text)@ == old(text)@ + decimal(n as nat),
    decreases n,
{
    if n >= 10 {
        append_decimal(text, n / 10);
    }
    text.append(digit_str(n % 10));
}

/// The path of the file through which the soft-dirty state of process `pid`
/// is cleared: `/proc/<pid>/clear_refs`.
pub fn clear_refs_path(pid: u32) -> (path: String)
    ensures
        path@ == clear_refs_path_of(pid),
{
    let mut path = String::from_str("/proc/");
    append_decimal(&mut path, pid);
    path.append("/clear_refs");
    path
}

/// The bytes that, written to a control file, clear the soft-dirty state of
/// its process.
pub fn clear_soft_dirty() -> (command: Vec<u8>)
    ensures
        command@ == clear_soft_dirty_command(),
{
    let mut command: Vec<u8> = Vec::new();
    command.push(0x34);
    command.push(0x0a);
    command
}

/// The numeral of a number is made of digits that spell the number.
proof fn lemma_decimal_spells_its_number(n: nat)
    ensures
        decimal_name(n).len() > 0,
        all_digits(decimal_name(n)),
        digits_value(decimal_name(n)) == n,
    decreases n,
{
    let name = decimal_name(n);
    if n < 10 {
        assert(digits_value(name.drop_last()) == 0);
    } else {
        lemma_decimal_spells_its_number(n / 10);
        assert(name == decimal_name(n / 10).push((0x30 + n % 10) as u8));
        assert(name.drop_last() == decimal_name(n / 10));
    }
}

/// The numeral under which a process is cleared is a name that stands for
/// that very process: what is listed can be cleared, and what is cleared is
/// what was listed.
pub proof fn lemma_numeral_names_its_process(pid: u32)
    ensures
        pid_of_name(decimal_name(pid as nat)) == Some(pid),
{
    lemma_decimal_spells_its_number(pid as nat);
}

} // verus!
