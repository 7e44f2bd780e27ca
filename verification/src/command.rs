//! What a line of input asks of a session that has no peer yet.

use crate::address::Address;
use vstd::prelude::*;
use vstd::string::{is_ascii_spec_bytes, StringExecFns, StringSliceAdditionalSpecFns};
use vstd::utf8::{char_u32_cast, encode_utf8_decode_utf8};

verus! {

/// What the user asks for.
#[derive(Debug, Clone, Copy, PartialEq, Eq, Structural)]
pub enum Command {
    /// Wait for a connection request.
    Listen,
    /// Connect to this address: the port that the line names, on the
    /// session's own host.
    Connect(Address),
    /// Connect to the address that the line spells out in full. To read it is
    /// the driver's part.
    Resolve,
}

/// The byte of the character `+`.
const PLUS: u8 = 43;

/// The byte of the character `0`.
const ZERO: u8 = 48;

/// The byte of the character `9`.
const NINE: u8 = 57;

/// Whether `c` is a decimal digit.
pub open spec fn is_digit(c: char) -> bool {
    '0' <= c && c <= '9'
}

/// The number that the digit `c` stands for.
pub open spec fn digit(c: char) -> nat {
    (c as u32 - '0' as u32) as nat
}

/// Whether `text` holds decimal digits only.
pub open spec fn all_digits(text: Seq<char>) -> bool {
    forall|i: int| 0 <= i < text.len() ==> is_digit(#[trigger] text[i])
}

/// The number that the digits `digits` spell.
pub open spec fn number(digits: Seq<char>) -> nat
    decreases digits.len(),
{
    if digits.len() == 0 {
        0
    } else {
        10 * number(digits.drop_last()) + digit(digits.last())
    }
}

/// `text` without the one `+` that may stand in front of a number.
pub open spec fn unsigned(text: Seq<char>) -> Seq<char> {
    if text.len() > 0 && text[0] == '+' {
        text.drop_first()
    } else {
        text
    }
}

/// The port that `text` names: it is a decimal number of one digit at least,
/// with any number of leading zeros and perhaps one `+` in front, and no
/// greater than the greatest port.
pub open spec fn port_of(text: Seq<char>) -> Option<u16> {
    let digits = unsigned(text);
    if digits.len() > 0 && all_digits(digits) && number(digits) <= u16::MAX {
        Some(number(digits) as u16)
    } else {
        None
    }
}

/// What the line `input` asks of the session bound to `local`.
pub open spec fn command_of(input: Seq<char>, local: Address) -> Command {
    if input == "listen"@ {
        Command::Listen
    } else {
        match port_of(input) {
            Some(port) => Command::Connect(local.with_port(port)),
            None => Command::Resolve,
        }
    }
}

/// Where a session binds its socket, given the line in which the user named
/// a port: that port on the loopback interface, and any free port there
/// where the line is empty.
pub open spec fn bind_target_of(line: Seq<char>) -> Seq<char> {
    if line.len() == 0 {
        "127.0.0.1:0"@
    } else {
        "127.0.0.1:"@ + line
    }
}

/// Where a session binds its socket, given the line in which the user named
/// a port.
pub fn bind_target(line: &str) -> (target: String)
    ensures
        target@ == bind_target_of(line@),
{
    if line.is_empty() {
        "127.0.0.1:0".to_owned()
    } else {
        "127.0.0.1:".to_owned().concat(line)
    }
}

/// A longer run of digits spells no smaller a number.
proof fn lemma_number_grows(digits: Seq<char>, k: int)
    requires
        0 <= k <= digits.len(),
    ensures
        number(digits.take(k)) <= number(digits),
    decreases digits.len() - k,
{
    if k < digits.len() {
        lemma_number_grows(digits, k + 1);
        assert(digits.take(k + 1).drop_last() =~= digits.take(k));
    } else {
        assert(digits.take(k) =~= digits);
    }
}

/// An ASCII character is known by its byte.
proof fn lemma_ascii_byte(c: char, d: char)
    requires
        c <= '\u{7f}',
        d <= '\u{7f}',
        c as u8 == d as u8,
    ensures
        c == d,
{
    assert(c as u32 == d as u32);
    char_u32_cast(c, c as u32);
    char_u32_cast(d, d as u32);
}

/// The port that `input` names, if it names one.
pub fn parse_port(input: &str) -> (port: Option<u16>)
    ensures
        port == port_of(input@),
{
    if !input.is_ascii() {
        proof {
            let digits = unsigned(input@);
            if all_digits(digits) {
                assert forall|i: int| 0 <= i < input@.len() implies '\0' <= #[trigger] input@[i]
                    <= '\u{7f}' by {
                    if digits.len() < input@.len() {
                        if i > 0 {
                            assert(is_digit(digits[i - 1]));
                        }
                    } else {
                        assert(is_digit(digits[i]));
                    }
                }
            }
        }
        return None;
    }
    proof {
        is_ascii_spec_bytes(input);
    }
    let bytes: &[u8] = input.as_bytes();
    let len: usize = bytes.len();
    let start: usize = if len > 0 && bytes[0] == PLUS {
        1
    } else {
        0
    };
    let ghost digits = unsigned(input@);
    assert(digits =~= input@.skip(start as int)) by {
        if len > 0 {
            assert(bytes@[0] == input@[0] as u8);
            if bytes@[0] == PLUS {
                lemma_ascii_byte(input@[0], '+');
            }
        }
    }
    if start == len {
        return None;
    }
    let mut value: u32 = 0;
    let mut i: usize = start;
    while i < len
        invariant
            start <= i <= len,
            len == input@.len(),
            len == bytes@.len(),
            digits == unsigned(input@),
            digits == input@.skip(start as int),
            forall|j: int| 0 <= j < len ==> bytes@[j] == input@[j] as u8,
            forall|j: int| 0 <= j < len ==> '\0' <= #[trigger] input@[j] <= '\u{7f}',
            all_digits(digits.take(i - start)),
            value == number(digits.take(i - start)),
            value <= u16::MAX,
        decreases len - i,
    {
        let byte: u8 = bytes[i];
        let ghost c = digits[i - start];
        assert(byte == c as u8);
        if byte < ZERO || byte > NINE {
            assert(!is_digit(c));
            return None;
        }
        let ghost longer = digits.take(i - start + 1);
        assert(longer.drop_last() =~= digits.take(i - start));
        assert(all_digits(longer)) by {
            lemma_ascii_byte(c, (byte as u32) as char);
            assert forall|j: int| 0 <= j < longer.len() implies is_digit(#[trigger] longer[j]) by {
                if j < i - start {
                    assert(longer[j] == digits.take(i - start)[j]);
                }
            }
        }
        value = value * 10 + (byte - ZERO) as u32;
        if value > u16::MAX as u32 {
            proof {
                lemma_number_grows(digits, i - start + 1);
            }
            return None;
        }
        i += 1;
    }
    assert(digits.take(i - start) =~= digits);
    Some(value as u16)
}

impl Command {
    /// Reads a line of input: `listen`, a port on the session's own host, or
    /// else an address in full.
    pub fn parse(input: &str, local: Address) -> (command: Command)
        ensures
            command == command_of(input@, local),
    {
        if same_text(input, "listen") {
            Command::Listen
        } else {
            match parse_port(input) {
                Some(port) => Command::Connect(local.with_port(port)),
                None => Command::Resolve,
            }
        }
    }
}

/// Whether two strings hold the same text. They do where their bytes agree,
/// since an encoding belongs to one text only.
fn same_text(one: &str, other: &str) -> (same: bool)
    ensures
        same == (one@ == other@),
{
    proof {
        encode_utf8_decode_utf8(one@);
        encode_utf8_decode_utf8(other@);
    }
    let mine: &[u8] = one.as_bytes();
    let theirs: &[u8] = other.as_bytes();
    if mine.len() != theirs.len() {
        return false;
    }
    let mut i: usize = 0;
    while i < mine.len()
        invariant
            i <= mine@.len(),
            mine@ == one.spec_bytes(),
            theirs@ == other.spec_bytes(),
            mine@.len() == theirs@.len(),
            forall|j: int| 0 <= j < i ==> mine@[j] == theirs@[j],
        decreases mine@.len() - i,
    {
        if mine[i] != theirs[i] {
            return false;
        }
        i += 1;
    }
    assert(mine@ =~= theirs@);
    true
}

} // verus!
