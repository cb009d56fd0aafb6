//! The texts that the demonstration programs exchange.

use vstd::prelude::*;

use crate::packet::UdpPayload;

verus! {

/// The digit for a number below ten.
pub open spec fn digit(n: nat) -> char {
    if n == 0 {
        '0'
    } else if n == 1 {
        '1'
    } else if n == 2 {
        '2'
    } else if n == 3 {
        '3'
    } else if n == 4 {
        '4'
    } else if n == 5 {
        '5'
    } else if n == 6 {
        '6'
    } else if n == 7 {
        '7'
    } else if n == 8 {
        '8'
    } else {
        '9'
    }
}

/// A number in decimal notation.
pub open spec fn decimal(n: nat) -> Seq<char>
    decreases n,
{
    if n < 10 {
        seq![digit(n)]
    } else {
        decimal(n / 10).push(digit(n % 10))
    }
}

/// The digit for a number below ten, as a text.
fn digit_text(n: u32) -> (text: &'static str)
    requires
        n < 10,
    ensures
        text@ == seq![digit(n as nat)],
{
    proof {
        reveal_strlit("0");
        reveal_strlit("1");
        reveal_strlit("2");
        reveal_strlit("3");
        reveal_strlit("4");
        reveal_strlit("5");
        reveal_strlit("6");
        reveal_strlit("7");
        reveal_strlit("8");
        reveal_strlit("9");
    }
    match n {
        0 => "0",
        1 => "1",
        2 => "2",
        3 => "3",
        4 => "4",
        5 => "5",
        6 => "6",
        7 => "7",
        8 => "8",
        _ => "9",
    }
}

/// `prefix`, followed by a number in decimal notation.
fn numbered(prefix: &str, n: u32) -> (text: String)
    ensures
        text@ == prefix@ + decimal(n as nat),
    decreases n,
{
    let mut text = if n < 10 {
        prefix.to_owned()
    } else {
        numbered(prefix, n / 10)
    };
    text.append(digit_text(n % 10));
    text
}

/// `prefix`, followed by `rest`.
fn joined(prefix: &str, rest: &str) -> (text: String)
    ensures
        text@ == prefix@ + rest@,
{
    let mut text = prefix.to_owned();
    text.append(rest);
    text
}

/// The `i`th request of the client.
pub fn greeting(i: u32) -> (text: String)
    ensures
        text@ == "howdy "@ + decimal(i as nat),
{
    numbered("howdy ", i)
}

/// The server's response to a request.
pub fn reply(request: &str) -> (text: String)
    ensures
        text@ == "resp: "@ + request@,
{
    joined("resp: ", request)
}

/// The `i`th request of the echo client.
pub fn echo_greeting(i: u32) -> (text: String)
    ensures
        text@ == "hey hey hey hey "@ + decimal(i as nat),
{
    numbered("hey hey hey hey ", i)
}

/// The echo server's response to a request.
pub fn echo_reply(request: &str) -> (text: String)
    ensures
        text@ == "client says: "@ + request@,
{
    joined("client says: ", request)
}

/// How many requests the client makes.
pub const ROUNDS: u32 = 1000;

/// How many requests the echo client makes.
pub const ECHO_ROUNDS: u32 = 100;

/// The request, by its number, that a client makes after `done` requests when it is to make
/// `rounds` of them, whatever came of those before; none if it has made them all.
pub open spec fn round_after(done: u32, rounds: u32) -> Option<u32> {
    if done < rounds {
        Some(done)
    } else {
        None
    }
}

/// The number of a client's next request after `done` of `rounds` requests, if there is one.
pub fn next_round(done: u32, rounds: u32) -> (next: Option<u32>)
    ensures
        next == round_after(done, rounds),
{
    if done < rounds {
        Some(done)
    } else {
        None
    }
}

/// The text of a response; a request counts as an empty one.
pub fn response_text(message: UdpPayload<String, String>) -> (text: String)
    ensures
        text@ == match message {
            UdpPayload::Request(_) => Seq::<char>::empty(),
            UdpPayload::Response(response) => response@,
        },
{
    match message {
        UdpPayload::Request(_) => String::new(),
        UdpPayload::Response(response) => response,
    }
}

/// What the program is asked to be.
#[derive(Clone, Copy, Debug, PartialEq, Eq, Structural)]
pub enum Mode {
    /// A client.
    Client,
    /// A server.
    Server,
}

impl Mode {
    /// The mode with a given name.
    pub fn from_name(name: &String) -> (mode: Option<Mode>)
        ensures
            mode == if name@ == "client"@ {
                Some(Mode::Client)
            } else if name@ == "server"@ {
                Some(Mode::Server)
            } else {
                None
            },
    {
        if *name == "client".to_owned() {
            Some(Mode::Client)
        } else if *name == "server".to_owned() {
            Some(Mode::Server)
        } else {
            None
        }
    }
}

} // verus!
