//! The line the terminal log shows after a command was sent to a port.

use vstd::prelude::*;
use vstd::string::*;
use crate::baud::{decimal, decimal_digit};

verus! {

/// What `format!("{:?}", s)` gives for a string slice whose characters are
/// `s`: the text in double quotes with Rust's debug escapes applied.
pub uninterp spec fn debug_quoted(s: Seq<char>) -> Seq<char>;

/// `format!("{:?}", s)` of std on a `&str`. Its contract names the result
/// after the characters of `s` alone; how quotes, control characters and
/// other characters are escaped is left unsaid.
#[verifier::external_body]
fn debug_str(s: &str) -> (quoted: String)
    ensures
        quoted@ == debug_quoted(s@),
{
    format!("{:?}", s)
}

/// The one-character text of the decimal digit `d`.
fn digit_str(d: u32) -> (digit: &'static str)
    requires
        d < 10,
    ensures
        digit@ == seq![decimal_digit(d as nat)],
{
    match d {
        0 => {
            proof { reveal_strlit("0"); }
            "0"
        },
        1 => {
            proof { reveal_strlit("1"); }
            "1"
        },
        2 => {
            proof { reveal_strlit("2"); }
            "2"
        },
        3 => {
            proof { reveal_strlit("3"); }
            "3"
        },
        4 => {
            proof { reveal_strlit("4"); }
            "4"
        },
        5 => {
            proof { reveal_strlit("5"); }
            "5"
        },
        6 => {
            proof { reveal_strlit("6"); }
            "6"
        },
        7 => {
            proof { reveal_strlit("7"); }
            "7"
        },
        8 => {
            proof { reveal_strlit("8"); }
            "8"
        },
        _ => {
            proof { reveal_strlit("9"); }
            "9"
        },
    }
}

/// The decimal notation of `n`.
pub fn decimal_string(n: u32) -> (text: String)
    ensures
        text@ == decimal(n as nat),
    decreases n,
{
    if n < 10 {
        String::from_str(digit_str(n))
    } else {
        decimal_string(n / 10).concat(digit_str(n % 10))
    }
}

/// The log line for a command whose debug rendering is `quoted_command`,
/// sent at `baud_rate` to the port named `port_name`.
pub open spec fn sent_report_from(quoted_command: Seq<char>, baud_rate: u32, port_name: Seq<char>) -> Seq<char> {
    "📨 Sent command \x1b[32;3m"@ + quoted_command + "\x1b[0m with a baudrate of \x1b[33;1m"@
        + decimal(baud_rate as nat) + "\x1b[0m to \x1b[30;44;1m"@ + port_name + "\x1b[0m"@
}

/// The log line for `command` sent at `baud_rate` to the port named `port_name`.
pub open spec fn sent_report_of(command: Seq<char>, baud_rate: u32, port_name: Seq<char>) -> Seq<char> {
    sent_report_from(debug_quoted(command), baud_rate, port_name)
}

/// The coloured log line for a command already rendered in debug form as
/// `quoted_command`, sent at `baud_rate` to the port named `port_name`.
pub fn format_sent_report(quoted_command: &str, baud_rate: u32, port_name: &str) -> (line: String)
    ensures
        line@ == sent_report_from(quoted_command@, baud_rate, port_name@),
{
    let rate = decimal_string(baud_rate);
    String::from_str("📨 Sent command \x1b[32;3m")
        .concat(quoted_command)
        .concat("\x1b[0m with a baudrate of \x1b[33;1m")
        .concat(rate.as_str())
        .concat("\x1b[0m to \x1b[30;44;1m")
        .concat(port_name)
        .concat("\x1b[0m")
}

/// The coloured log line that reports `command` as sent at `baud_rate` to
/// the port named `port_name`.
pub fn sent_command_report(command: &str, baud_rate: u32, port_name: &str) -> (line: String)
    ensures
        line@ == sent_report_of(command@, baud_rate, port_name@),
{
    let quoted = debug_str(command);
    format_sent_report(quoted.as_str(), baud_rate, port_name)
}

/// The value of a text of decimal digits, read most significant first.
pub open spec fn digits_value(s: Seq<char>) -> int
    decreases s.len(),
{
    if s.len() == 0 {
        0
    } else {
        digits_value(s.drop_last()) * 10 + (s.last() as int - '0' as int)
    }
}

/// Whether every character of `s` is one of `0` to `9`.
pub open spec fn all_decimal_digits(s: Seq<char>) -> bool {
    forall|k: int| 0 <= k < s.len() ==> '0' <= #[trigger] s[k] <= '9'
}

/// The decimal notation of `n` is a non-empty run of digits, without a
/// leading zero unless `n` is zero, that reads back as `n`.
pub proof fn decimal_reads_back(n: nat)
    ensures
        decimal(n).len() > 0,
        all_decimal_digits(decimal(n)),
        digits_value(decimal(n)) == n,
        n > 0 ==> decimal(n)[0] != '0',
    decreases n,
{
    let d = n % 10;
    assert(decimal_digit(d) as int - '0' as int == d && '0' <= decimal_digit(d) <= '9') by {
        if d == 0 {} else if d == 1 {} else if d == 2 {} else if d == 3 {} else if d == 4 {}
        else if d == 5 {} else if d == 6 {} else if d == 7 {} else if d == 8 {} else {}
    }
    if n < 10 {
        assert(decimal(n) =~= seq![decimal_digit(n)]);
        assert(decimal(n).drop_last() =~= Seq::<char>::empty());
        assert(n % 10 == n);
        assert(digits_value(Seq::<char>::empty()) == 0);
        assert(decimal(n).last() == decimal_digit(d));
        assert('0' <= decimal(n)[0] <= '9');
    } else {
        decimal_reads_back(n / 10);
        assert(decimal(n).drop_last() =~= decimal(n / 10));
        assert(decimal(n).last() == decimal_digit(d));
        assert(n == (n / 10) * 10 + d);
        assert(decimal(n)[0] == decimal(n / 10)[0]);
        assert forall|k: int| 0 <= k < decimal(n).len() implies '0' <= #[trigger] decimal(n)[k] <= '9' by {
            if k < decimal(n).len() - 1 {
                assert(decimal(n)[k] == decimal(n / 10)[k]);
            }
        }
    }
}

/// The log line starts with its fixed opening and the whole quoted command,
/// and ends with the whole port name and the colour reset.
pub proof fn report_shows_whole_command_and_port(quoted_command: Seq<char>, baud_rate: u32, port_name: Seq<char>)
    ensures
        sent_report_from(quoted_command, baud_rate, port_name).len() >= "📨 Sent command \x1b[32;3m"@.len()
            + quoted_command.len() + port_name.len() + 4,
        sent_report_from(quoted_command, baud_rate, port_name).take(
            ("📨 Sent command \x1b[32;3m"@.len() + quoted_command.len()) as int,
        ) == "📨 Sent command \x1b[32;3m"@ + quoted_command,
        sent_report_from(quoted_command, baud_rate, port_name).skip(
            sent_report_from(quoted_command, baud_rate, port_name).len() - port_name.len() - 4,
        ) == port_name + "\x1b[0m"@,
{
    reveal_strlit("\x1b[0m");
    let head = "📨 Sent command \x1b[32;3m"@;
    let r = sent_report_from(quoted_command, baud_rate, port_name);
    assert(r.take((head.len() + quoted_command.len()) as int) =~= head + quoted_command);
    assert(r.skip(r.len() - port_name.len() - 4) =~= port_name + "\x1b[0m"@);
}

/// Between the quoted command and the port name the log line holds the
/// same text for every command and port: fixed words around the decimal
/// notation of the baud rate.
pub proof fn report_middle_depends_only_on_rate(
    q1: Seq<char>,
    q2: Seq<char>,
    baud_rate: u32,
    p1: Seq<char>,
    p2: Seq<char>,
)
    ensures
        sent_report_from(q1, baud_rate, p1).subrange(
            ("📨 Sent command \x1b[32;3m"@.len() + q1.len()) as int,
            sent_report_from(q1, baud_rate, p1).len() - p1.len() - 4,
        ) == sent_report_from(q2, baud_rate, p2).subrange(
            ("📨 Sent command \x1b[32;3m"@.len() + q2.len()) as int,
            sent_report_from(q2, baud_rate, p2).len() - p2.len() - 4,
        ),
        sent_report_from(q1, baud_rate, p1).subrange(
            ("📨 Sent command \x1b[32;3m"@.len() + q1.len()) as int,
            sent_report_from(q1, baud_rate, p1).len() - p1.len() - 4,
        ) == "\x1b[0m with a baudrate of \x1b[33;1m"@ + decimal(baud_rate as nat) + "\x1b[0m to \x1b[30;44;1m"@,
{
    reveal_strlit("\x1b[0m");
    let head = "📨 Sent command \x1b[32;3m"@;
    let mid = "\x1b[0m with a baudrate of \x1b[33;1m"@ + decimal(baud_rate as nat) + "\x1b[0m to \x1b[30;44;1m"@;
    let r1 = sent_report_from(q1, baud_rate, p1);
    let r2 = sent_report_from(q2, baud_rate, p2);
    assert(r1.subrange((head.len() + q1.len()) as int, r1.len() - p1.len() - 4) =~= mid);
    assert(r2.subrange((head.len() + q2.len()) as int, r2.len() - p2.len() - 4) =~= mid);
}

/// The report of a sent command quotes the debug rendering of the whole
/// command, with nothing cut off before quoting.
pub proof fn report_quotes_whole_command(command: Seq<char>, baud_rate: u32, port_name: Seq<char>)
    ensures
        sent_report_of(command, baud_rate, port_name) == sent_report_from(debug_quoted(command), baud_rate, port_name),
        sent_report_of(command, baud_rate, port_name).take(
            ("📨 Sent command \x1b[32;3m"@.len() + debug_quoted(command).len()) as int,
        ) == "📨 Sent command \x1b[32;3m"@ + debug_quoted(command),
{
    report_shows_whole_command_and_port(debug_quoted(command), baud_rate, port_name);
}

} // verus!
