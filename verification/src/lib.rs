//! The core of a screen recorder: what to ask of the graphics stack, in which
//! order, and what to make of its answers.
//!
//! The crate holds no handle and calls nothing. Its state machines name the
//! next request ([`protocol::Request`]) and take the reply
//! ([`protocol::Reply`]); a host carries the requests out. [`dx12`] acquires
//! the device and the output duplication, [`recorder`] runs the capture loop
//! of a session.

use vstd::prelude::*;
use vstd::std_specs::iter::IteratorSpec;

pub mod dx12;
pub mod protocol;
pub mod recorder;

verus! {

/// Where the captured frames are to be served.
pub struct Config {
    pub host: String,
    pub port: String,
}

/// Whether `c` is a decimal digit.
pub open spec fn is_digit(c: char) -> bool {
    '0' <= c <= '9'
}

/// The number that the decimal digits `digits` denote.
pub open spec fn decimal(digits: Seq<char>) -> nat
    decreases digits.len(),
{
    if digits.len() == 0 {
        0
    } else {
        10 * decimal(digits.drop_last()) + (digits.last() as nat - '0' as nat) as nat
    }
}

/// Whether `digits` is made of decimal digits alone.
pub open spec fn all_digits(digits: Seq<char>) -> bool {
    forall|i: int| 0 <= i < digits.len() ==> is_digit(#[trigger] digits[i])
}

/// The number below 65536 that `digits` denotes: `digits` is one or more
/// decimal digits whose number fits 16 bits.
pub open spec fn short_number(digits: Seq<char>) -> Option<nat> {
    if digits.len() > 0 && all_digits(digits) && decimal(digits) <= u16::MAX {
        Some(decimal(digits))
    } else {
        None
    }
}

/// The port that `text` denotes: `text` is one or more decimal digits, with
/// or without a `+` in front, and their number fits 16 bits.
pub open spec fn port_number(text: Seq<char>) -> Option<nat> {
    if text.len() > 0 && text[0] == '+' {
        short_number(text.drop_first())
    } else {
        short_number(text)
    }
}

/// Whether `text` will do as the port of a [`Config`]: it denotes a port and
/// is at least four characters long.
pub open spec fn port_accepted(text: Seq<char>) -> bool {
    port_number(text) is Some && text.len() >= 4
}

proof fn lemma_port_is_ascii(text: Seq<char>)
    requires
        port_number(text) is Some,
    ensures
        vstd::utf8::is_ascii_chars(text),
{
    assert forall|i: int| 0 <= i < text.len() implies '\0' <= #[trigger] text[i] <= '\u{7f}' by {
        if text[0] == '+' {
            if i > 0 {
                assert(text[i] == text.drop_first()[i - 1]);
                assert(is_digit(text.drop_first()[i - 1]));
            }
        } else {
            assert(is_digit(text[i]));
        }
    }
}

proof fn lemma_decimal_grows(digits: Seq<char>, shorter: int)
    requires
        0 <= shorter <= digits.len(),
        all_digits(digits),
    ensures
        decimal(digits.subrange(0, shorter)) <= decimal(digits),
    decreases digits.len(),
{
    if shorter == digits.len() {
        assert(digits.subrange(0, shorter) =~= digits);
    } else {
        let front = digits.drop_last();
        assert(is_digit(digits.last()));
        assert(front.subrange(0, shorter) =~= digits.subrange(0, shorter));
        assert forall|i: int| 0 <= i < front.len() implies is_digit(#[trigger] front[i]) by {
            assert(front[i] == digits[i]);
        }
        lemma_decimal_grows(front, shorter);
    }
}

/// Reads the bytes of `text`, which is ASCII, from the one at `start` on as
/// a number below 65536.
fn parse_digits(text: &str, start: usize) -> (number: Option<u16>)
    requires
        text.is_ascii(),
        start <= text@.len(),
    ensures
        match number {
            Some(n) => short_number(text@.subrange(start as int, text@.len() as int)) == Some(
                n as nat,
            ),
            None => short_number(text@.subrange(start as int, text@.len() as int)) is None,
        },
{
    proof {
        vstd::string::is_ascii_spec_bytes(text);
    }
    let bytes = text.as_bytes();
    let end: usize = bytes.len();
    let ghost digits = text@.subrange(start as int, end as int);
    if start == end {
        return None;
    }
    let mut at: usize = start;
    let mut value: u32 = 0;
    while at < end
        invariant
            text.is_ascii(),
            end == text@.len(),
            bytes@.len() == end,
            forall|i: int| 0 <= i < end ==> text@[i] as u8 == #[trigger] bytes@[i],
            start <= at <= end,
            digits == text@.subrange(start as int, end as int),
            all_digits(digits.subrange(0, at - start)),
            value == decimal(digits.subrange(0, at - start)),
            value <= u16::MAX,
        decreases end - at,
    {
        let byte: u8 = bytes[at];
        let ghost c = text@[at as int];
        assert(digits[at - start] == c);
        assert('\0' <= c <= '\u{7f}');
        assert(c as u8 == byte);
        if byte < 48u8 || byte > 57u8 {
            assert(!is_digit(c));
            return None;
        }
        assert(is_digit(c));
        let ghost longer = digits.subrange(0, at - start + 1);
        assert(longer.drop_last() =~= digits.subrange(0, at - start));
        assert(longer.last() == c);
        assert forall|i: int| 0 <= i < longer.len() implies is_digit(#[trigger] longer[i]) by {
            if i < at - start {
                assert(longer[i] == digits.subrange(0, at - start)[i]);
            }
        }
        value = value * 10 + (byte - 48u8) as u32;
        assert(value == decimal(longer));
        if value > 65535u32 {
            proof {
                if all_digits(digits) {
                    lemma_decimal_grows(digits, at - start + 1);
                }
            }
            return None;
        }
        at = at + 1;
    }
    assert(digits.subrange(0, at - start) =~= digits);
    Some(value as u16)
}

/// Reads `text` as a port.
pub fn parse_port(text: &str) -> (port: Option<u16>)
    ensures
        match port {
            Some(number) => port_number(text@) == Some(number as nat),
            None => port_number(text@) is None,
        },
{
    if !text.is_ascii() {
        proof {
            if port_number(text@) is Some {
                lemma_port_is_ascii(text@);
            }
        }
        return None;
    }
    proof {
        vstd::string::is_ascii_spec_bytes(text);
    }
    let bytes = text.as_bytes();
    if bytes.len() > 0 && bytes[0] == 43u8 {
        assert(text@[0] as u8 == bytes@[0]);
        assert(text@[0] == '+');
        assert(text@.drop_first() =~= text@.subrange(1, text@.len() as int));
        parse_digits(text, 1)
    } else {
        assert(text@.len() > 0 ==> text@[0] as u8 == bytes@[0]);
        assert(text@.len() > 0 ==> text@[0] != '+');
        assert(text@ =~= text@.subrange(0, text@.len() as int));
        parse_digits(text, 0)
    }
}

impl Config {
    /// Takes the host and then the port from the front of `args`.
    pub fn build(mut args: impl Iterator<Item = String>) -> (res: Result<Config, &'static str>)
        ensures
            args.obeys_prophetic_iter_laws() ==> match res {
                Ok(config) => {
                    &&& args.remaining().len() >= 2
                    &&& config.host == args.remaining()[0]
                    &&& config.port == args.remaining()[1]
                },
                Err(message) => {
                    &&& args.remaining().len() < 2
                    &&& args.remaining().len() == 0 ==> message@ == "Host not provided"@
                    &&& args.remaining().len() == 1 ==> message@ == "Port not provided"@
                },
            },
    {
        let host = match args.next() {
            Some(host) => host,
            None => {
                return Err("Host not provided");
            },
        };
        let port = match args.next() {
            Some(port) => port,
            None => {
                return Err("Port not provided");
            },
        };
        Ok(Config { host, port })
    }

    /// Takes the host and the port from a command line, whose first word is
    /// the name of the program.
    pub fn from_args(args: &[String]) -> (res: Result<Config, &'static str>)
        ensures
            match res {
                Ok(config) => {
                    &&& args@.len() >= 3
                    &&& config.host == args@[1]
                    &&& config.port == args@[2]
                },
                Err(message) => {
                    &&& args@.len() < 3
                    &&& message@ == "Not enough arguments"@
                },
            },
    {
        if args.len() < 3 {
            return Err("Not enough arguments");
        }
        let host = args[1].clone();
        let port = args[2].clone();
        Ok(Config { host, port })
    }
}

/// Decides whether a recording may be run with `config`: its port must be
/// accepted.
pub fn run(config: Config) -> (res: Result<(), &'static str>)
    ensures
        res is Ok <==> port_accepted(config.port@),
        res matches Err(message) ==> message@ == "Port is not a number or is too short"@,
{
    let port = config.port.as_str();
    match parse_port(port) {
        Some(_) => {
            proof {
                lemma_port_is_ascii(port@);
                vstd::string::is_ascii_spec_bytes(port);
            }
            if port.as_bytes().len() < 4 {
                Err("Port is not a number or is too short")
            } else {
                Ok(())
            }
        },
        None => Err("Port is not a number or is too short"),
    }
}

} // verus!
