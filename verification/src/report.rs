//! The line that is logged for a log that could not be processed.

use vstd::prelude::*;
use crate::event::Event;

verus! {

/// The lower-case hexadecimal digit of a value below sixteen.
pub open spec fn hex_digit(n: int) -> char
    recommends
        0 <= n < 16,
{
    if n < 10 {
        ('0' as int + n) as char
    } else {
        ('a' as int + n - 10) as char
    }
}

/// The two hexadecimal digits of a byte, the high one first.
pub open spec fn hex_pair(byte: u8) -> Seq<char> {
    seq![hex_digit(byte as int / 16), hex_digit(byte as int % 16)]
}

/// The short form in which an address is shown: `0x`, the first two bytes
/// in hexadecimal, an ellipsis, the last two bytes.
pub open spec fn address_text(address: Seq<u8>) -> Seq<char>
    recommends
        address.len() == 20,
{
    seq!['0', 'x'] + hex_pair(address[0]) + hex_pair(address[1]) + seq!['\u{2026}'] + hex_pair(
        address[18],
    ) + hex_pair(address[19])
}

/// The report on a log from `address` that failed for `cause`.
pub open spec fn report_text(address: Seq<u8>, cause: Seq<char>) -> Seq<char> {
    "could not process event "@ + address_text(address) + ": "@ + cause
}

/// Formats `address` as `ethers::types::H160` displays it. The contract
/// states that display in full: `0x`, bytes 0 and 1 as two lower-case
/// hexadecimal digits each, the character U+2026, then bytes 18 and 19 in
/// the same way.
#[verifier::external_body]
fn display_address(address: &[u8; 20]) -> (text: String)
    ensures
        text@ == address_text(address@),
{
    format!("{}", ethers::types::H160(*address))
}

/// The line to log when the processing of `event` has failed for good:
/// it names the address that emitted the log and the cause of the failure.
pub fn failure_report(event: &Event, cause: &str) -> (report: String)
    ensures
        report@ == report_text(event.address@, cause@),
{
    let mut report = String::from_str("could not process event ");
    let address = display_address(&event.address);
    report.append(address.as_str());
    report.append(": ");
    report.append(cause);
    report
}

} // verus!
