//! Baud rates offered in the main window and how a selection maps to one.

use vstd::prelude::*;

verus! {

/// The rates of `serial2::COMMON_BAUD_RATES`, in the order that crate lists them.
pub open spec fn common_baud_rates_spec() -> Seq<u32> {
    seq![
        4800u32, 9600u32, 19200u32, 38400u32, 57600u32, 115200u32, 230400u32, 460800u32,
        500000u32, 576000u32, 921600u32, 1000000u32, 1500000u32, 2000000u32,
    ]
}

/// The table `serial2::COMMON_BAUD_RATES`. Its contract restates the
/// fourteen rates that the constant holds in the serial2 source.
#[verifier::external_body]
fn common_baud_rates() -> (rates: &'static [u32])
    ensures
        rates@ == common_baud_rates_spec(),
{
    serial2::COMMON_BAUD_RATES
}

/// The labels of the baud-rate selection row, one per offered rate.
pub open spec fn baud_rate_labels_spec() -> Seq<Seq<char>> {
    seq![
        "4800"@, "9600"@, "19200"@, "38400"@, "57600"@, "115200"@, "230400"@, "460800"@,
        "500000"@, "576000"@, "921600"@, "1000000"@, "1500000"@, "2000000"@,
    ]
}

/// The decimal digit character for `d`, which is below ten.
pub open spec fn decimal_digit(d: nat) -> char {
    seq!['0', '1', '2', '3', '4', '5', '6', '7', '8', '9'][d as int]
}

/// The decimal notation of `n`, without sign or leading zeros.
pub open spec fn decimal(n: nat) -> Seq<char>
    decreases n,
{
    if n < 10 {
        seq![decimal_digit(n)]
    } else {
        decimal(n / 10).push(decimal_digit(n % 10))
    }
}

/// The labels shown in the baud-rate selection row, in display order.
pub fn baud_rate_labels() -> (labels: Vec<&'static str>)
    ensures
        labels@.map_values(|l: &str| l@) == baud_rate_labels_spec(),
{
    let mut labels: Vec<&'static str> = Vec::new();
    labels.push("4800");
    labels.push("9600");
    labels.push("19200");
    labels.push("38400");
    labels.push("57600");
    labels.push("115200");
    labels.push("230400");
    labels.push("460800");
    labels.push("500000");
    labels.push("576000");
    labels.push("921600");
    labels.push("1000000");
    labels.push("1500000");
    labels.push("2000000");
    assert(labels@.map_values(|l: &str| l@) =~= baud_rate_labels_spec());
    labels
}

/// The rate a port is opened with before any selection is made: the first
/// of the common rates.
pub fn initial_baud_rate() -> (rate: u32)
    ensures
        rate == common_baud_rates_spec()[0],
{
    let rates = common_baud_rates();
    rates[0]
}

/// The rate chosen by selecting the row entry at position `selected`.
pub fn baud_rate_at(selected: u32) -> (rate: u32)
    requires
        selected < common_baud_rates_spec().len(),
    ensures
        rate == common_baud_rates_spec()[selected as int],
{
    let rates = common_baud_rates();
    rates[selected as usize]
}

/// Each label of the selection row is the decimal notation of the rate
/// that selecting it chooses, and there is one label per rate.
pub proof fn baud_labels_name_their_rates()
    ensures
        baud_rate_labels_spec().len() == common_baud_rates_spec().len(),
        forall|i: int|
            0 <= i < baud_rate_labels_spec().len() ==> #[trigger] baud_rate_labels_spec()[i]
                == decimal(common_baud_rates_spec()[i] as nat),
{
    reveal_strlit("4800");
    reveal_strlit("9600");
    reveal_strlit("19200");
    reveal_strlit("38400");
    reveal_strlit("57600");
    reveal_strlit("115200");
    reveal_strlit("230400");
    reveal_strlit("460800");
    reveal_strlit("500000");
    reveal_strlit("576000");
    reveal_strlit("921600");
    reveal_strlit("1000000");
    reveal_strlit("1500000");
    reveal_strlit("2000000");
    reveal_with_fuel(decimal, 8);
    let labels = baud_rate_labels_spec();
    let rates = common_baud_rates_spec();
    assert forall|i: int| 0 <= i < labels.len() implies #[trigger] labels[i] == decimal(rates[i] as nat) by {
        assert(labels[i] =~= decimal(rates[i] as nat));
    }
}

} // verus!
