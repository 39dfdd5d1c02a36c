//! The reading of `lsof -i` output: one line of it describes one open port.

use crate::ports::{PortEntry, PortInfo};
use crate::text::same_text;
use vstd::prelude::*;
use vstd::string::StrSliceExecFns;
use vstd::string::StringExecFns;

verus! {

/// The column that holds the process id, counted from 0.
pub const PID_COLUMN: usize = 1;

/// The column that holds the address and port, counted from 0.
pub const NAME_COLUMN: usize = 8;

/// A character that separates the columns of a line: one with the Unicode
/// property White_Space.
pub open spec fn is_space(c: char) -> bool {
    let code = c as u32;
    ||| 0x09 <= code <= 0x0D
    ||| code == 0x20
    ||| code == 0x85
    ||| code == 0xA0
    ||| code == 0x1680
    ||| 0x2000 <= code <= 0x200A
    ||| code == 0x2028
    ||| code == 0x2029
    ||| code == 0x202F
    ||| code == 0x205F
    ||| code == 0x3000
}

/// Whether `c` separates columns.
pub fn separates(c: char) -> (r: bool)
    ensures
        r == is_space(c),
{
    let code = c as u32;
    (0x09 <= code && code <= 0x0D) || code == 0x20 || code == 0x85 || code == 0xA0 || code
        == 0x1680 || (0x2000 <= code && code <= 0x200A) || code == 0x2028 || code == 0x2029 || code
        == 0x202F || code == 0x205F || code == 0x3000
}

/// `current`, as a column, if it holds anything.
pub open spec fn closed_column(current: Seq<char>) -> Seq<Seq<char>> {
    if current.len() > 0 {
        seq![current]
    } else {
        Seq::empty()
    }
}

/// The columns of `line` from position `from` on, where `current` holds the
/// characters of the column that is being read.
pub open spec fn columns_from(line: Seq<char>, from: int, current: Seq<char>) -> Seq<Seq<char>>
    decreases line.len() - from,
{
    if from < 0 || from >= line.len() {
        closed_column(current)
    } else if is_space(line[from]) {
        closed_column(current) + columns_from(line, from + 1, Seq::empty())
    } else {
        columns_from(line, from + 1, current.push(line[from]))
    }
}

/// The columns of a line: its longest runs of characters that are not white
/// space, from left to right.
pub open spec fn columns(line: Seq<char>) -> Seq<Seq<char>> {
    columns_from(line, 0, Seq::empty())
}

/// The mathematical values of a list of texts.
pub open spec fn texts(items: Seq<String>) -> Seq<Seq<char>> {
    items.map_values(|item: String| item@)
}

/// Splits a line into its columns.
pub fn split_columns(line: &str) -> (parts: Vec<String>)
    ensures
        texts(parts@) == columns(line@),
{
    let length = line.unicode_len();
    let mut parts: Vec<String> = Vec::new();
    let mut start: usize = 0;
    let mut at: usize = 0;
    proof {
        assert(line@.subrange(0, 0) =~= Seq::empty());
        assert(texts(parts@) + columns(line@) =~= columns(line@));
    }
    while at < length
        invariant
            length == line@.len(),
            start <= at <= length,
            columns(line@) == texts(parts@) + columns_from(
                line@,
                at as int,
                line@.subrange(start as int, at as int),
            ),
        decreases length - at,
    {
        let ghost current = line@.subrange(start as int, at as int);
        let ghost before = texts(parts@);
        if separates(line.get_char(at)) {
            if start < at {
                let part = String::from_str(line.substring_char(start, at));
                parts.push(part);
                assert(texts(parts@) =~= before + closed_column(current));
            }
            start = at + 1;
            assert(line@.subrange(start as int, at + 1) =~= Seq::empty());
            assert(columns(line@) =~= texts(parts@) + columns_from(
                line@,
                at + 1,
                Seq::empty(),
            ));
        } else {
            assert(line@.subrange(start as int, at + 1) =~= current.push(line@[at as int]));
        }
        at += 1;
    }
    if start < at {
        let ghost before = texts(parts@);
        let part = String::from_str(line.substring_char(start, at));
        parts.push(part);
        assert(texts(parts@) =~= before + closed_column(line@.subrange(start as int, at as int)));
    }
    assert(columns(line@) =~= texts(parts@));
    parts
}

/// A decimal digit.
pub open spec fn is_digit(c: char) -> bool {
    '0' <= c <= '9'
}

/// The value of a digit.
pub open spec fn digit_value(c: char) -> nat {
    (c as u32 - '0' as u32) as nat
}

/// The number that a run of digits denotes.
pub open spec fn digits_value(digits: Seq<char>) -> nat
    decreases digits.len(),
{
    if digits.len() == 0 {
        0
    } else {
        digits_value(digits.drop_last()) * 10 + digit_value(digits.last())
    }
}

/// The digits of a numeral: the text without the plus sign that may lead it.
pub open spec fn numeral_digits(text: Seq<char>) -> Seq<char> {
    if text.len() > 0 && text[0] == '+' {
        text.drop_first()
    } else {
        text
    }
}

/// The number that `text` denotes if it is a numeral no greater than `max`:
/// an optional plus sign, then one or more decimal digits.
pub open spec fn numeral(text: Seq<char>, max: nat) -> Option<nat> {
    let digits = numeral_digits(text);
    if digits.len() > 0 && (forall|i: int| 0 <= i < digits.len() ==> is_digit(#[trigger] digits[i]))
        && digits_value(digits) <= max {
        Some(digits_value(digits))
    } else {
        None
    }
}

/// The value of a run of digits grows with its length.
proof fn lemma_digits_value_monotonic(digits: Seq<char>, n: int)
    requires
        0 <= n <= digits.len(),
    ensures
        digits_value(digits.take(n)) <= digits_value(digits),
    decreases digits.len() - n,
{
    if n < digits.len() {
        lemma_digits_value_monotonic(digits, n + 1);
        assert(digits.take(n + 1).drop_last() =~= digits.take(n));
    } else {
        assert(digits.take(n) =~= digits);
    }
}

/// Reads `text` as a numeral no greater than `max`.
pub fn parse_unsigned(text: &str, max: u32) -> (r: Option<u32>)
    ensures
        match r {
            Some(value) => numeral(text@, max as nat) == Some(value as nat),
            None => numeral(text@, max as nat) is None,
        },
{
    let length = text.unicode_len();
    let first: usize = if length > 0 && text.get_char(0) == '+' {
        1
    } else {
        0
    };
    let ghost digits = numeral_digits(text@);
    if first == length {
        return None;
    }
    let mut value: u64 = 0;
    let mut at: usize = first;
    while at < length
        invariant
            length == text@.len(),
            first <= at <= length,
            first <= 1,
            digits == numeral_digits(text@),
            digits.len() == length - first,
            forall|i: int| 0 <= i < digits.len() ==> digits[i] == text@[i + first],
            forall|i: int| 0 <= i < at - first ==> is_digit(#[trigger] digits[i]),
            value == digits_value(digits.take(at - first)),
            value <= max,
        decreases length - at,
    {
        let c = text.get_char(at);
        if !('0' <= c && c <= '9') {
            assert(!is_digit(digits[at - first]));
            return None;
        }
        let digit: u64 = (c as u32 - '0' as u32) as u64;
        proof {
            assert(digits.take(at - first + 1).drop_last() =~= digits.take(at - first));
            assert(digits.take(at - first + 1).last() == c);
        }
        value = value * 10 + digit;
        if value > max as u64 {
            proof {
                lemma_digits_value_monotonic(digits, at - first + 1);
            }
            return None;
        }
        at += 1;
    }
    assert(digits.take(at - first) =~= digits);
    Some(value as u32)
}

/// The position of the first colon of `text`, or its length where it has
/// none.
pub open spec fn first_colon(text: Seq<char>) -> int
    decreases text.len(),
{
    if text.len() == 0 {
        0
    } else if text[0] == ':' {
        0
    } else {
        1 + first_colon(text.drop_first())
    }
}

/// What an address column says: "*" alone stands for every address and port
/// 0; otherwise the column must hold exactly one colon, with the address
/// before it and, behind it, the port as a numeral of at most 65535.
pub open spec fn address_port(column: Seq<char>) -> Option<(Seq<char>, u16)> {
    let colon = first_colon(column);
    if column == seq!['*'] {
        Some((column, 0u16))
    } else if colon < column.len() && first_colon(column.skip(colon + 1)) == column.len() - colon
        - 1 {
        match numeral(column.skip(colon + 1), u16::MAX as nat) {
            Some(port) => Some((column.take(colon), port as u16)),
            None => None,
        }
    } else {
        None
    }
}

/// The position of the first colon of `text` at or behind `from`, or the
/// length of `text` where there is none.
fn find_colon(text: &str, from: usize) -> (at: usize)
    requires
        from <= text@.len(),
    ensures
        at == from + first_colon(text@.skip(from as int)),
        from <= at <= text@.len(),
{
    let length = text.unicode_len();
    let mut at: usize = from;
    while at < length
        invariant
            length == text@.len(),
            from <= at <= length,
            first_colon(text@.skip(from as int)) == (at - from) + first_colon(
                text@.skip(at as int),
            ),
        decreases length - at,
    {
        proof {
            assert(text@.skip(at as int).drop_first() =~= text@.skip(at + 1));
            assert(text@.skip(at as int)[0] == text@[at as int]);
        }
        if text.get_char(at) == ':' {
            return at;
        }
        at += 1;
    }
    at
}

/// Reads an address column such as "127.0.0.1:8080" or "*:53".
pub fn parse_address_port(addr_port: &str) -> (r: Option<(String, u16)>)
    ensures
        match r {
            Some((address, port)) => address_port(addr_port@) == Some((address@, port)),
            None => address_port(addr_port@) is None,
        },
{
    proof {
        reveal_strlit("*");
        assert("*"@ =~= seq!['*']);
    }
    if same_text(addr_port, "*") {
        return Some((String::from_str("*"), 0));
    }
    let length = addr_port.unicode_len();
    let colon = find_colon(addr_port, 0);
    proof {
        assert(addr_port@.skip(0) =~= addr_port@);
    }
    if colon >= length {
        return None;
    }
    let second = find_colon(addr_port, colon + 1);
    if second < length {
        return None;
    }
    let tail = addr_port.substring_char(colon + 1, length);
    proof {
        assert(tail@ =~= addr_port@.skip(colon + 1));
        assert(addr_port@.subrange(0, colon as int) =~= addr_port@.take(colon as int));
    }
    match parse_unsigned(tail, 65535) {
        Some(port) => Some((String::from_str(addr_port.substring_char(0, colon)), port as u16)),
        None => None,
    }
}

/// The port that a line of `lsof -i` output describes, if it describes one:
/// the line has at least nine columns, the second is the process id, and the
/// ninth is an address column. The first column is the name of the process.
/// A TCP port is taken to be listening.
pub open spec fn lsof_entry(line: Seq<char>, protocol: Seq<char>) -> Option<PortEntry> {
    let parts = columns(line);
    if parts.len() < 9 {
        None
    } else {
        match (numeral(parts[1], u32::MAX as nat), address_port(parts[8])) {
            (Some(pid), Some((address, port))) => Some(
                PortEntry {
                    protocol,
                    local_address: address,
                    local_port: port,
                    remote_address: None,
                    remote_port: None,
                    state: if protocol == "TCP"@ {
                        Some("LISTEN"@)
                    } else {
                        None
                    },
                    pid: Some(pid as u32),
                    process_name: Some(parts[0]),
                },
            ),
            _ => None,
        }
    }
}

/// Reads one line of `lsof -i` output.
pub fn parse_lsof_line(line: &str, protocol: &str) -> (r: Option<PortInfo>)
    ensures
        match r {
            Some(port) => lsof_entry(line@, protocol@) == Some(port@),
            None => lsof_entry(line@, protocol@) is None,
        },
{
    let parts = split_columns(line);
    if parts.len() < 9 {
        return None;
    }
    proof {
        assert(texts(parts@)[0] == parts[0]@);
        assert(texts(parts@)[1] == parts[1]@);
        assert(texts(parts@)[8] == parts[8]@);
    }
    let pid = match parse_unsigned(parts[PID_COLUMN].as_str(), u32::MAX) {
        Some(pid) => pid,
        None => {
            return None;
        },
    };
    let (address, port) = match parse_address_port(parts[NAME_COLUMN].as_str()) {
        Some(found) => found,
        None => {
            return None;
        },
    };
    let state = if same_text(protocol, "TCP") {
        Some(String::from_str("LISTEN"))
    } else {
        None
    };
    Some(
        PortInfo {
            protocol: String::from_str(protocol),
            local_address: address,
            local_port: port,
            remote_address: None,
            remote_port: None,
            state,
            pid: Some(pid),
            process_name: Some(parts[0].clone()),
        },
    )
}

/// The ports that the lines of an `lsof -i` listing describe, in the order
/// of the lines. The first line is the heading and is left out, as is every
/// line that describes no port.
pub open spec fn lsof_entries(lines: Seq<Seq<char>>, protocol: Seq<char>) -> Seq<PortEntry> {
    if lines.len() <= 1 {
        Seq::empty()
    } else {
        lines.skip(1).filter_map(|line: Seq<char>| lsof_entry(line, protocol))
    }
}

/// Reads the lines of an `lsof -i` listing.
pub fn parse_lsof_lines(lines: &[String], protocol: &str) -> (ports: Vec<PortInfo>)
    ensures
        crate::ports::entries(ports@) == lsof_entries(texts(lines@), protocol@),
{
    let ghost body = texts(lines@).skip(1);
    let ghost read = |line: Seq<char>| lsof_entry(line, protocol@);
    let mut ports: Vec<PortInfo> = Vec::new();
    if lines.len() <= 1 {
        assert(crate::ports::entries(ports@) =~= Seq::empty());
        return ports;
    }
    let mut i: usize = 1;
    proof {
        assert(body.take(0) =~= Seq::empty());
        assert(crate::ports::entries(ports@) =~= Seq::empty());
    }
    while i < lines.len()
        invariant
            1 <= i <= lines.len(),
            body == texts(lines@).skip(1),
            read == |line: Seq<char>| lsof_entry(line, protocol@),
            crate::ports::entries(ports@) == body.take(i - 1).filter_map(read),
        decreases lines.len() - i,
    {
        proof {
            body.lemma_filter_map_take_succ(read, i - 1);
            assert(body[i - 1] == lines[i as int]@);
        }
        match parse_lsof_line(lines[i].as_str(), protocol) {
            Some(port) => {
                let ghost before = ports@;
                ports.push(port);
                assert(crate::ports::entries(ports@) =~= crate::ports::entries(before) + seq![
                    port@,
                ]);
            },
            None => {},
        }
        i += 1;
    }
    assert(body.take(i - 1) =~= body);
    ports
}

} // verus!
