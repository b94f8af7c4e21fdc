//! Texts: which of them can be handed to the native client, and how the
//! texts of errors are put together.

use vstd::prelude::*;
use vstd::string::*;

verus! {

/// Whether a text can cross into the native layer as a C string: it holds no
/// NUL character, so nothing of it would be cut off.
pub open spec fn nul_free(text: Seq<char>) -> bool {
    forall|i: int| 0 <= i < text.len() ==> text[i] != '\0'
}

/// Tests whether `text` holds no NUL character.
pub fn is_nul_free(text: &str) -> (free: bool)
    ensures
        free == nul_free(text@),
{
    broadcast use vstd::string::group_string_axioms;

    let mut free: bool = true;
    for c in chars: text.chars()
        invariant
            chars.seq() == text@,
            free == (forall|i: int| 0 <= i < chars.index() ==> text@[i] != '\0'),
    {
        if c == '\0' {
            free = false;
        }
    }
    free
}

/// The character that stands for a decimal digit.
pub open spec fn digit(d: nat) -> char
    recommends
        d < 10,
{
    "0123456789"@[d as int]
}

/// A number in decimal notation, without sign or leading zeros.
pub open spec fn decimal(n: nat) -> Seq<char>
    decreases n,
{
    if n < 10 {
        seq![digit(n)]
    } else {
        decimal(n / 10).push(digit(n % 10))
    }
}

fn digit_text(d: u16) -> (text: &'static str)
    requires
        d < 10,
    ensures
        text@ == seq![digit(d as nat)],
{
    proof {
        reveal_strlit("0123456789");
        reveal_strlit("0");
        reveal_strlit("1");
        reveal_strlit("2");
        reveal_strlit("3");
        reveal_strlit("4");
        reveal_strlit("5");
        reveal_strlit("6");
        reveal_strlit("7");
        reveal_strlit("8");
        reveal_strlit("9");
    }
    let text = if d == 0 {
        "0"
    } else if d == 1 {
        "1"
    } else if d == 2 {
        "2"
    } else if d == 3 {
        "3"
    } else if d == 4 {
        "4"
    } else if d == 5 {
        "5"
    } else if d == 6 {
        "6"
    } else if d == 7 {
        "7"
    } else if d == 8 {
        "8"
    } else {
        "9"
    };
    assert(text@ =~= seq![digit(d as nat)]);
    text
}

/// Writes a port number in decimal notation.
pub fn port_text(port: u16) -> (text: String)
    ensures
        text@ == decimal(port as nat),
    decreases port,
{
    if port < 10 {
        String::from_str(digit_text(port))
    } else {
        let text = port_text(port / 10).concat(digit_text(port % 10));
        assert(text@ =~= decimal(port as nat));
        text
    }
}

/// The address of a name node as it is reported: host, a colon, the port.
pub open spec fn address(host: Seq<char>, port: u16) -> Seq<char> {
    host + ":"@ + decimal(port as nat)
}

/// Writes the address of a name node: host, a colon, the port.
pub fn address_text(host: &str, port: u16) -> (text: String)
    ensures
        text@ == address(host@, port),
{
    let number = port_text(port);
    String::from_str(host).concat(":").concat(number.as_str())
}

/// Puts a subject behind the words that introduce it.
pub fn phrase(words: &str, subject: &str) -> (text: String)
    ensures
        text@ == words@ + subject@,
{
    String::from_str(words).concat(subject)
}

} // verus!
