//! Journal entries put into words.

use vstd::prelude::*;
use vstd::string::*;
use crate::monitor::{Entry, Liveness};

verus! {

/// The character for a decimal digit.
pub open spec fn digit(d: nat) -> char {
    if d == 0 {
        '0'
    } else if d == 1 {
        '1'
    } else if d == 2 {
        '2'
    } else if d == 3 {
        '3'
    } else if d == 4 {
        '4'
    } else if d == 5 {
        '5'
    } else if d == 6 {
        '6'
    } else if d == 7 {
        '7'
    } else if d == 8 {
        '8'
    } else {
        '9'
    }
}

/// `n` in decimal notation, without sign or leading zeros.
pub open spec fn decimal(n: nat) -> Seq<char>
    decreases n,
{
    if n < 10 {
        seq![digit(n)]
    } else {
        decimal(n / 10).push(digit(n % 10))
    }
}

/// The number that a decimal digit stands for.
pub open spec fn digit_value(c: char) -> nat {
    if c == '1' {
        1
    } else if c == '2' {
        2
    } else if c == '3' {
        3
    } else if c == '4' {
        4
    } else if c == '5' {
        5
    } else if c == '6' {
        6
    } else if c == '7' {
        7
    } else if c == '8' {
        8
    } else if c == '9' {
        9
    } else {
        0
    }
}

/// The number that `text` denotes when it is read as decimal notation.
pub open spec fn decimal_value(text: Seq<char>) -> nat
    decreases text.len(),
{
    if text.len() == 0 {
        0
    } else {
        10 * decimal_value(text.drop_last()) + digit_value(text.last())
    }
}

/// `decimal(n)` is the decimal notation of `n`: it is made of digits, it
/// reads back as `n`, and it starts with a zero only where `n` is zero.
pub proof fn lemma_decimal_reads_back(n: nat)
    ensures
        decimal(n).len() >= 1,
        forall|i: int| 0 <= i < decimal(n).len() ==> '0' <= #[trigger] decimal(n)[i] <= '9',
        decimal_value(decimal(n)) == n,
        decimal(n)[0] == '0' <==> n == 0,
    decreases n,
{
    if n < 10 {
        assert(decimal(n).drop_last() =~= Seq::<char>::empty());
        assert(decimal_value(decimal(n).drop_last()) == 0);
    } else {
        let front = decimal(n / 10);
        lemma_decimal_reads_back(n / 10);
        assert(decimal(n).drop_last() =~= front);
        assert(decimal(n)[0] == front[0]);
    }
}

/// The word by which the journal names a state.
pub open spec fn state_word(state: Liveness) -> Seq<char> {
    match state {
        Liveness::Offline => "offline"@,
        Liveness::Online => "online"@,
    }
}

/// The message of a journal entry for the target at `address`.
pub open spec fn entry_text(entry: Entry, address: Seq<char>) -> Seq<char> {
    match entry {
        Entry::Started => "Starting ping monitor to "@ + address + " as offline status"@,
        Entry::Exited { state, elapsed_secs } => "Exited "@ + state_word(state)
            + " status, elapsed "@ + decimal(elapsed_secs as nat) + " seconds"@,
        Entry::Entered { state } => "Entering "@ + state_word(state) + " status"@,
        Entry::Terminated => "Ping monitor terminated"@,
    }
}

/// A journal line: the timestamp in square brackets, a space, the message.
pub open spec fn line_text(timestamp: Seq<char>, message: Seq<char>) -> Seq<char> {
    "["@ + timestamp + "] "@ + message
}

fn digit_str(d: u64) -> (s: &'static str)
    requires
        d < 10,
    ensures
        s@ == seq![digit(d as nat)],
{
    proof {
        reveal_strlit("0");
        reveal_strlit("1");
        reveal_strlit("2");
        reveal_strlit("3");
        reveal_strlit("4");
        reveal_strlit("5");
        reveal_strlit("6");
        reveal_strlit("7");
        reveal_strlit("8");
        reveal_strlit("9");
    }
    if d == 0 {
        "0"
    } else if d == 1 {
        "1"
    } else if d == 2 {
        "2"
    } else if d == 3 {
        "3"
    } else if d == 4 {
        "4"
    } else if d == 5 {
        "5"
    } else if d == 6 {
        "6"
    } else if d == 7 {
        "7"
    } else if d == 8 {
        "8"
    } else {
        "9"
    }
}

/// Writes `n` in decimal notation.
pub fn decimal_text(n: u64) -> (text: String)
    ensures
        text@ == decimal(n as nat),
    decreases n,
{
    if n < 10 {
        String::from_str(digit_str(n))
    } else {
        let mut text = decimal_text(n / 10);
        text.append(digit_str(n % 10));
        text
    }
}

fn state_str(state: Liveness) -> (word: &'static str)
    ensures
        word@ == state_word(state),
{
    match state {
        Liveness::Offline => "offline",
        Liveness::Online => "online",
    }
}

/// Puts a journal entry of the target at `address` into words.
pub fn render(entry: Entry, address: &str) -> (text: String)
    ensures
        text@ == entry_text(entry, address@),
{
    match entry {
        Entry::Started => {
            let mut text = String::from_str("Starting ping monitor to ");
            text.append(address);
            text.append(" as offline status");
            text
        },
        Entry::Exited { state, elapsed_secs } => {
            let seconds = decimal_text(elapsed_secs);
            let mut text = String::from_str("Exited ");
            text.append(state_str(state));
            text.append(" status, elapsed ");
            text.append(seconds.as_str());
            text.append(" seconds");
            text
        },
        Entry::Entered { state } => {
            let mut text = String::from_str("Entering ");
            text.append(state_str(state));
            text.append(" status");
            text
        },
        Entry::Terminated => String::from_str("Ping monitor terminated"),
    }
}

/// Puts a timestamp and a message together into one journal line.
pub fn log_line(timestamp: &str, message: &str) -> (line: String)
    ensures
        line@ == line_text(timestamp@, message@),
{
    let mut line = String::from_str("[");
    line.append(timestamp);
    line.append("] ");
    line.append(message);
    line
}

} // verus!
