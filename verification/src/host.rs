//! Host identification: serial-number parsing and host-info assembly.
//!
//! Each platform reports the machine's serial number through a shell query;
//! the application runs the query and hands the raw output here. The parsing
//! — picking the serial out of the query's line-oriented output — is stated
//! and proved exactly. Whitespace here is ASCII whitespace (space, tab,
//! carriage return, line feed), and lines are separated by line feeds.

use vstd::prelude::*;
use crate::platform;
use crate::text::{contains_seq, matches_at, str_contains, str_matches_at};
use crate::types::HostInfo;

verus! {

/// ASCII whitespace.
pub open spec fn is_space(c: char) -> bool {
    c == ' ' || c == '\t' || c == '\r' || c == '\n'
}

/// Decide `is_space`.
pub fn is_space_exec(c: char) -> (r: bool)
    ensures
        r == is_space(c),
{
    c == ' ' || c == '\t' || c == '\r' || c == '\n'
}

/// The index of the first occurrence of `c` at or after `from`; the string's
/// length when there is none.
pub open spec fn first_index_of(s: Seq<char>, c: char, from: int) -> int
    decreases s.len() - from,
    when 0 <= from <= s.len()
{
    if from >= s.len() {
        s.len() as int
    } else if s[from] == c {
        from
    } else {
        first_index_of(s, c, from + 1)
    }
}

/// `first_index_of` stays within the string.
pub broadcast proof fn lemma_first_index_of_bounds(s: Seq<char>, c: char, from: int)
    requires
        0 <= from <= s.len(),
    ensures
        from <= #[trigger] first_index_of(s, c, from) <= s.len(),
    decreases s.len() - from,
{
    if from < s.len() && s[from] != c {
        lemma_first_index_of_bounds(s, c, from + 1);
    }
}

/// `first_index_of` is the scan's answer: if everything in `[from, i)`
/// differs from `c` and position `i` holds `c` (or is the end), the first
/// occurrence is `i`.
proof fn lemma_first_index_of_is(s: Seq<char>, c: char, from: int, i: int)
    requires
        0 <= from <= i <= s.len(),
        forall|k: int| from <= k < i ==> s[k] != c,
        i < s.len() ==> s[i] == c,
    ensures
        first_index_of(s, c, from) == i,
    decreases i - from,
{
    if from < i {
        lemma_first_index_of_is(s, c, from + 1, i);
    }
}

/// Find the first occurrence of `c` at or after `from`.
pub fn find_char(s: &str, c: char, from: usize) -> (r: usize)
    requires
        from <= s@.len(),
    ensures
        r == first_index_of(s@, c, from as int),
        from <= r <= s@.len(),
{
    let len: usize = s.unicode_len();
    let mut i: usize = from;
    while i < len
        invariant
            from <= i <= len,
            len == s@.len(),
            forall|k: int| from <= k < i ==> s@[k] != c,
        decreases len - i,
    {
        if s.get_char(i) == c {
            proof {
                lemma_first_index_of_is(s@, c, from as int, i as int);
            }
            return i;
        }
        i = i + 1;
    }
    proof {
        lemma_first_index_of_is(s@, c, from as int, len as int);
    }
    len
}

/// The index of the first non-whitespace character at or after `from`; the
/// string's length when there is none.
pub open spec fn first_non_space(s: Seq<char>, from: int) -> int
    decreases s.len() - from,
    when 0 <= from <= s.len()
{
    if from >= s.len() {
        s.len() as int
    } else if !is_space(s[from]) {
        from
    } else {
        first_non_space(s, from + 1)
    }
}

/// `first_non_space` stays within the string.
pub broadcast proof fn lemma_first_non_space_bounds(s: Seq<char>, from: int)
    requires
        0 <= from <= s.len(),
    ensures
        from <= #[trigger] first_non_space(s, from) <= s.len(),
    decreases s.len() - from,
{
    if from < s.len() && is_space(s[from]) {
        lemma_first_non_space_bounds(s, from + 1);
    }
}

proof fn lemma_first_non_space_is(s: Seq<char>, from: int, i: int)
    requires
        0 <= from <= i <= s.len(),
        forall|k: int| from <= k < i ==> is_space(s[k]),
        i < s.len() ==> !is_space(s[i]),
    ensures
        first_non_space(s, from) == i,
    decreases i - from,
{
    if from < i {
        lemma_first_non_space_is(s, from + 1, i);
    }
}

/// Find the first non-whitespace character at or after `from`.
pub fn find_non_space(s: &str, from: usize) -> (r: usize)
    requires
        from <= s@.len(),
    ensures
        r == first_non_space(s@, from as int),
        from <= r <= s@.len(),
{
    let len: usize = s.unicode_len();
    let mut i: usize = from;
    while i < len
        invariant
            from <= i <= len,
            len == s@.len(),
            forall|k: int| from <= k < i ==> is_space(s@[k]),
        decreases len - i,
    {
        if !is_space_exec(s.get_char(i)) {
            proof {
                lemma_first_non_space_is(s@, from as int, i as int);
            }
            return i;
        }
        i = i + 1;
    }
    proof {
        lemma_first_non_space_is(s@, from as int, len as int);
    }
    len
}

/// One past the last non-whitespace character before `to`; zero when all of
/// the prefix is whitespace.
pub open spec fn end_non_space(s: Seq<char>, to: int) -> int
    decreases to,
    when 0 <= to <= s.len()
{
    if to <= 0 {
        0
    } else if is_space(s[to - 1]) {
        end_non_space(s, to - 1)
    } else {
        to
    }
}

proof fn lemma_end_non_space_is(s: Seq<char>, b: int, to: int)
    requires
        0 <= b <= to <= s.len(),
        forall|k: int| b <= k < to ==> is_space(s[k]),
        b > 0 ==> !is_space(s[b - 1]),
    ensures
        end_non_space(s, to) == b,
    decreases to - b,
{
    if b < to {
        lemma_end_non_space_is(s, b, to - 1);
    }
}

/// A string stripped of leading and trailing ASCII whitespace.
pub open spec fn spec_trim(s: Seq<char>) -> Seq<char> {
    let a = first_non_space(s, 0);
    let b = end_non_space(s, s.len() as int);
    if a < b {
        s.subrange(a, b)
    } else {
        Seq::empty()
    }
}

/// One past the last non-whitespace character of the string.
fn find_end_non_space(s: &str) -> (r: usize)
    ensures
        r == end_non_space(s@, s@.len() as int),
        r <= s@.len(),
{
    let len: usize = s.unicode_len();
    let mut b: usize = len;
    while b > 0
        invariant
            b <= len,
            len == s@.len(),
            forall|k: int| b <= k < len ==> is_space(s@[k]),
        decreases b,
    {
        if !is_space_exec(s.get_char(b - 1)) {
            proof {
                lemma_end_non_space_is(s@, b as int, len as int);
            }
            return b;
        }
        b = b - 1;
    }
    proof {
        lemma_end_non_space_is(s@, 0, len as int);
    }
    0
}

/// Strip leading and trailing ASCII whitespace.
pub fn trim_spaces(s: &str) -> (r: String)
    ensures
        r@ == spec_trim(s@),
{
    let a = find_non_space(s, 0);
    let b = find_end_non_space(s);
    if a < b {
        s.substring_char(a, b).to_owned()
    } else {
        assert(spec_trim(s@) =~= Seq::<char>::empty());
        String::new()
    }
}

// ---------------------------------------------------------------------------
// Serial-number parsers
// ---------------------------------------------------------------------------
/// A line of the BIOS serial query's output that carries the serial: its
/// trimmed form is non-empty and it is not the column header naming
/// `SerialNumber`.
pub open spec fn win_serial_line(line: Seq<char>) -> bool {
    spec_trim(line).len() > 0 && !contains_seq(line, "SerialNumber"@)
}

/// The serial in the BIOS query's output from position `from` on: the
/// trimmed form of the first line that carries one.
pub open spec fn spec_windows_serial_from(s: Seq<char>, from: int) -> Option<Seq<char>>
    decreases s.len() - from
    when 0 <= from <= s.len()
    via spec_windows_serial_from_decreases
{
    if from >= s.len() {
        None
    } else {
        let i = first_index_of(s, '\n', from);
        let line = s.subrange(from, i);
        if win_serial_line(line) {
            Some(spec_trim(line))
        } else if i >= s.len() {
            None
        } else {
            spec_windows_serial_from(s, i + 1)
        }
    }
}

#[via_fn]
proof fn spec_windows_serial_from_decreases(s: Seq<char>, from: int) {
    broadcast use lemma_first_index_of_bounds;
}

/// Parse the BIOS serial query's output: the trimmed form of the first line
/// that is non-empty after trimming and is not the `SerialNumber` header.
pub fn get_windows_serial(output: &str) -> (r: Option<String>)
    ensures
        r matches Some(x) ==> spec_windows_serial_from(output@, 0) == Some(x@),
        r is None ==> spec_windows_serial_from(output@, 0) is None,
{
    broadcast use lemma_first_index_of_bounds;

    let len: usize = output.unicode_len();
    let mut from: usize = 0;
    while from < len
        invariant
            0 <= from <= len,
            len == output@.len(),
            spec_windows_serial_from(output@, 0) == spec_windows_serial_from(
                output@,
                from as int,
            ),
        decreases len - from,
    {
        let i = find_char(output, '\n', from);
        let line = output.substring_char(from, i);
        let trimmed = trim_spaces(line);
        if !trimmed.as_str().is_empty() && !str_contains(line, "SerialNumber") {
            return Some(trimmed);
        }
        if i >= len {
            return None;
        }
        from = i + 1;
    }
    None
}

/// A line of the hardware-profile output that names the serial: after its
/// leading whitespace it starts with `Serial Number`.
pub open spec fn mac_serial_line(line: Seq<char>) -> bool {
    matches_at(line, "Serial Number"@, first_non_space(line, 0))
}

/// What the hardware-profile parser takes from the naming line: the piece
/// between the first and second colon (or the end), trimmed; nothing when
/// the line has no colon at all.
pub open spec fn spec_mac_serial_of_line(line: Seq<char>) -> Option<Seq<char>> {
    let c1 = first_index_of(line, ':', 0);
    if c1 >= line.len() {
        None
    } else {
        let c2 = first_index_of(line, ':', c1 + 1);
        Some(spec_trim(line.subrange(c1 + 1, c2)))
    }
}

/// The serial in the hardware-profile output from position `from` on: what
/// the first line naming `Serial Number` yields — nothing if that line has
/// no colon, and nothing if no line names it.
pub open spec fn spec_mac_serial_from(s: Seq<char>, from: int) -> Option<Seq<char>>
    decreases s.len() - from
    when 0 <= from <= s.len()
    via spec_mac_serial_from_decreases
{
    if from >= s.len() {
        None
    } else {
        let i = first_index_of(s, '\n', from);
        let line = s.subrange(from, i);
        if mac_serial_line(line) {
            spec_mac_serial_of_line(line)
        } else if i >= s.len() {
            None
        } else {
            spec_mac_serial_from(s, i + 1)
        }
    }
}

#[via_fn]
proof fn spec_mac_serial_from_decreases(s: Seq<char>, from: int) {
    broadcast use lemma_first_index_of_bounds;
}

/// Parse the hardware-profile output: on the first line that (after leading
/// whitespace) starts with `Serial Number`, the value between the first and
/// second colon, trimmed.
pub fn get_macos_serial(output: &str) -> (r: Option<String>)
    ensures
        r matches Some(x) ==> spec_mac_serial_from(output@, 0) == Some(x@),
        r is None ==> spec_mac_serial_from(output@, 0) is None,
{
    broadcast use lemma_first_index_of_bounds;
    broadcast use lemma_first_non_space_bounds;

    let len: usize = output.unicode_len();
    let mut from: usize = 0;
    while from < len
        invariant
            0 <= from <= len,
            len == output@.len(),
            spec_mac_serial_from(output@, 0) == spec_mac_serial_from(output@, from as int),
        decreases len - from,
    {
        let i = find_char(output, '\n', from);
        let line = output.substring_char(from, i);
        let line_len = line.unicode_len();
        let a = find_non_space(line, 0);
        proof {
            reveal_strlit("Serial Number");
        }
        let is_naming_line = if line_len >= 13 && a <= line_len - 13 {
            str_matches_at(line, "Serial Number", a)
        } else {
            false
        };
        if is_naming_line {
            let c1 = find_char(line, ':', 0);
            if c1 >= line_len {
                return None;
            }
            let c2 = find_char(line, ':', c1 + 1);
            let piece = line.substring_char(c1 + 1, c2);
            return Some(trim_spaces(piece));
        }
        if i >= len {
            return None;
        }
        from = i + 1;
    }
    None
}

/// A line of the device-tree serial file that carries the serial: its
/// trimmed form is non-empty.
pub open spec fn linux_serial_line(line: Seq<char>) -> bool {
    spec_trim(line).len() > 0
}

/// The serial in the device-tree serial file from position `from` on: the
/// trimmed form of the first line whose trimmed form is non-empty.
pub open spec fn spec_linux_serial_from(s: Seq<char>, from: int) -> Option<Seq<char>>
    decreases s.len() - from
    when 0 <= from <= s.len()
    via spec_linux_serial_from_decreases
{
    if from >= s.len() {
        None
    } else {
        let i = first_index_of(s, '\n', from);
        let line = s.subrange(from, i);
        if linux_serial_line(line) {
            Some(spec_trim(line))
        } else if i >= s.len() {
            None
        } else {
            spec_linux_serial_from(s, i + 1)
        }
    }
}

#[via_fn]
proof fn spec_linux_serial_from_decreases(s: Seq<char>, from: int) {
    broadcast use lemma_first_index_of_bounds;
}

/// Parse the device-tree serial file: the trimmed form of its first
/// non-blank line.
pub fn get_linux_serial(output: &str) -> (r: Option<String>)
    ensures
        r matches Some(x) ==> spec_linux_serial_from(output@, 0) == Some(x@),
        r is None ==> spec_linux_serial_from(output@, 0) is None,
{
    broadcast use lemma_first_index_of_bounds;

    let len: usize = output.unicode_len();
    let mut from: usize = 0;
    while from < len
        invariant
            0 <= from <= len,
            len == output@.len(),
            spec_linux_serial_from(output@, 0) == spec_linux_serial_from(output@, from as int),
        decreases len - from,
    {
        let i = find_char(output, '\n', from);
        let line = output.substring_char(from, i);
        let trimmed = trim_spaces(line);
        if !trimmed.as_str().is_empty() {
            return Some(trimmed);
        }
        if i >= len {
            return None;
        }
        from = i + 1;
    }
    None
}

/// Assemble the host identification. The operating system name, the
/// architecture, the process identifier and the parsed serial come from the
/// caller; the hardware address is read here and depends on the machine, so
/// nothing is promised of it.
pub fn get_host_info(os: String, arch: String, processor_id: String, serial_number: Option<String>) -> (h: HostInfo)
    ensures
        h.os == os,
        h.arch == arch,
        h.processor_id == Some(processor_id),
        h.serial_number == serial_number,
{
    let mac_address = platform::query_mac_address();
    HostInfo { os, arch, mac_address, serial_number, processor_id: Some(processor_id) }
}

} // verus!
