//! Subscribe to operating-system power transitions (sleep query, sleep, sleep
//! vetoed, wake) and answer them through a small handler interface.
//!
//! The library holds the logic of a power-event listener: decoding the
//! notification codes, dispatching each decoded message to the handler and
//! choosing the acknowledgement owed to the system, and the owner-side
//! decisions of the startup handshake and of teardown.
use vstd::prelude::*;

pub mod message;
pub mod dispatch;
pub mod lifecycle;

verus! {

use vstd::string::StringExecFns;

/// The answer of a handler to the question whether the system may sleep.
#[derive(Debug, Clone, Copy, PartialEq, Eq, Structural)]
pub enum SleepQueryResponse {
    Allow,
    Deny,
}

/// What a client implements to hear of power transitions. Every method has a
/// default, so a client overrides only those it cares about. The methods are
/// called one at a time, from the worker that drives the event loop.
pub trait EventHandler: Send + 'static {
    /// The system asks whether it may sleep; `Deny` vetoes the sleep.
    fn sleep_query(&mut self) -> (r: SleepQueryResponse)
        default_ensures
            r == SleepQueryResponse::Allow,
    {
        SleepQueryResponse::Allow
    }

    /// A sleep was vetoed, by this listener or by another one.
    fn sleep_failed(&mut self) {
    }

    /// The system has committed to sleeping.
    fn sleep(&mut self) {
    }

    /// The system has woken up.
    fn wake(&mut self) {
    }
}

/// The error of construction: a message in words.
#[derive(Debug)]
pub struct Error(String);

/// The characters of one lower-case hexadecimal digit.
pub open spec fn hex_char(d: nat) -> char {
    if d == 0 { '0' } else if d == 1 { '1' } else if d == 2 { '2' } else if d == 3 { '3' }
    else if d == 4 { '4' } else if d == 5 { '5' } else if d == 6 { '6' } else if d == 7 { '7' }
    else if d == 8 { '8' } else if d == 9 { '9' } else if d == 10 { 'a' } else if d == 11 { 'b' }
    else if d == 12 { 'c' } else if d == 13 { 'd' } else if d == 14 { 'e' } else { 'f' }
}

/// The last `count` lower-case hexadecimal digits of `n`, zero-padded.
pub open spec fn hex_digits(n: nat, count: nat) -> Seq<char>
    decreases count,
{
    if count == 0 {
        seq![]
    } else {
        hex_digits(n / 16, (count - 1) as nat).push(hex_char(n % 16))
    }
}

/// The text of the error reported when registration for power notifications
/// fails with the status `code`.
pub open spec fn registration_failure_text(code: u32) -> Seq<char> {
    "IORegisterForSystemPower failed. code="@ + hex_digits(code as nat, 8)
}

/// The text of the hexadecimal digit `d`.
fn hex_digit_text(d: u32) -> (r: &'static str)
    requires
        d < 16,
    ensures
        r@ == seq![hex_char(d as nat)],
{
    if d == 0 {
        proof {
            reveal_strlit("0");
        }
        assert("0"@ =~= seq!['0']);
        "0"
    } else if d == 1 {
        proof {
            reveal_strlit("1");
        }
        assert("1"@ =~= seq!['1']);
        "1"
    } else if d == 2 {
        proof {
            reveal_strlit("2");
        }
        assert("2"@ =~= seq!['2']);
        "2"
    } else if d == 3 {
        proof {
            reveal_strlit("3");
        }
        assert("3"@ =~= seq!['3']);
        "3"
    } else if d == 4 {
        proof {
            reveal_strlit("4");
        }
        assert("4"@ =~= seq!['4']);
        "4"
    } else if d == 5 {
        proof {
            reveal_strlit("5");
        }
        assert("5"@ =~= seq!['5']);
        "5"
    } else if d == 6 {
        proof {
            reveal_strlit("6");
        }
        assert("6"@ =~= seq!['6']);
        "6"
    } else if d == 7 {
        proof {
            reveal_strlit("7");
        }
        assert("7"@ =~= seq!['7']);
        "7"
    } else if d == 8 {
        proof {
            reveal_strlit("8");
        }
        assert("8"@ =~= seq!['8']);
        "8"
    } else if d == 9 {
        proof {
            reveal_strlit("9");
        }
        assert("9"@ =~= seq!['9']);
        "9"
    } else if d == 10 {
        proof {
            reveal_strlit("a");
        }
        assert("a"@ =~= seq!['a']);
        "a"
    } else if d == 11 {
        proof {
            reveal_strlit("b");
        }
        assert("b"@ =~= seq!['b']);
        "b"
    } else if d == 12 {
        proof {
            reveal_strlit("c");
        }
        assert("c"@ =~= seq!['c']);
        "c"
    } else if d == 13 {
        proof {
            reveal_strlit("d");
        }
        assert("d"@ =~= seq!['d']);
        "d"
    } else if d == 14 {
        proof {
            reveal_strlit("e");
        }
        assert("e"@ =~= seq!['e']);
        "e"
    } else {
        proof {
            reveal_strlit("f");
        }
        assert("f"@ =~= seq!['f']);
        "f"
    }
}

/// The eight lower-case hexadecimal digits of `code`, zero-padded.
fn hex8(code: u32) -> (r: String)
    ensures
        r@ == hex_digits(code as nat, 8),
{
    let c0 = code;
    let c1 = c0 >> 4u32;
    let c2 = c1 >> 4u32;
    let c3 = c2 >> 4u32;
    let c4 = c3 >> 4u32;
    let c5 = c4 >> 4u32;
    let c6 = c5 >> 4u32;
    let c7 = c6 >> 4u32;
    assert(forall|x: u32| #[trigger] (x >> 4u32) == x / 16) by (bit_vector);
    assert(forall|x: u32| #[trigger] (x & 0xfu32) == x % 16) by (bit_vector);
    let mut text = String::new();
    text.append(hex_digit_text(c7 & 0xf));
    text.append(hex_digit_text(c6 & 0xf));
    text.append(hex_digit_text(c5 & 0xf));
    text.append(hex_digit_text(c4 & 0xf));
    text.append(hex_digit_text(c3 & 0xf));
    text.append(hex_digit_text(c2 & 0xf));
    text.append(hex_digit_text(c1 & 0xf));
    text.append(hex_digit_text(c0 & 0xf));
    proof {
        reveal_with_fuel(hex_digits, 9);
        assert(hex_digits(c7 as nat / 16, 0) =~= Seq::<char>::empty());
        assert(text@ =~= hex_digits(code as nat, 8));
    }
    text
}

impl Error {
    /// The message of the error.
    pub closed spec fn view_message(&self) -> Seq<char> {
        self.0@
    }

    /// An error that carries `message`.
    pub fn new(message: String) -> (r: Error)
        ensures
            r.view_message() == message@,
    {
        Error(message)
    }

    /// The error of a failed registration for power notifications.
    pub fn registration_failed(code: u32) -> (r: Error)
        ensures
            r.view_message() == registration_failure_text(code),
    {
        let digits = hex8(code);
        let text = String::from_str("IORegisterForSystemPower failed. code=");
        let text = text.concat(digits.as_str());
        Error(text)
    }

    /// The message of the error, as text.
    pub fn message(&self) -> (r: String)
        ensures
            r@ == self.view_message(),
    {
        self.0.clone()
    }
}

} // verus!
