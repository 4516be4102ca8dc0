//! Reading the lines that the worker prints: the trimmed text of a line and
//! the port that a handshake line announces.

use vstd::prelude::*;

verus! {

/// What `str::trim` leaves of a line: the line without leading and trailing
/// white space.
pub uninterp spec fn trimmed(s: Seq<char>) -> Seq<char>;

/// The unsigned integer held by the `port` field of the JSON object that
/// `text` parses as, if `text` parses as a JSON object with such a field.
pub uninterp spec fn json_port_field(text: Seq<char>) -> Option<u64>;

/// Relies on `str::trim`: the line without leading and trailing white space.
#[verifier::external_body]
fn trim_text(s: &str) -> (r: String)
    ensures
        r@ == trimmed(s@),
{
    s.trim().to_string()
}

/// Relies on `serde_json::from_str` into a `serde_json::Value`, then
/// `Value::get("port")` and `Value::as_u64`: the `port` field of a JSON
/// object when it holds an integer that fits in a `u64`.
#[verifier::external_body]
fn parse_port_field(text: &str) -> (r: Option<u64>)
    ensures
        r == json_port_field(text@),
{
    let value: serde_json::Value = serde_json::from_str(text).ok()?;
    value.get("port")?.as_u64()
}

/// The port that a handshake field value stands for: the low sixteen bits
/// of the announced number.
pub open spec fn port_of_field(p: u64) -> u16 {
    (p % 0x10000) as u16
}

/// The port that a line of the worker's standard output announces, if it is
/// a handshake line: once trimmed, a JSON object with an unsigned integer
/// `port` field.
pub open spec fn announced_port(line: Seq<char>) -> Option<u16> {
    match json_port_field(trimmed(line)) {
        Some(p) => Some(port_of_field(p)),
        None => None,
    }
}

/// A line of output as the worker printed it and as it is logged.
pub struct ReadLine {
    /// The line without leading and trailing white space.
    pub text: String,
    /// The port that the line announces, if it is a handshake line.
    pub port: Option<u16>,
}

/// Trims a line of standard output and reads the port it announces.
pub fn read_stdout_line(line: &str) -> (r: ReadLine)
    ensures
        r.text@ == trimmed(line@),
        r.port == announced_port(line@),
{
    let text = trim_text(line);
    let port = port_from_trimmed(&text);
    ReadLine { text, port }
}

/// The port that an already trimmed line announces, given what the JSON
/// reading of it found.
pub fn port_from_field(field: Option<u64>) -> (r: Option<u16>)
    ensures
        r == match field {
            Some(p) => Some(port_of_field(p)),
            None => None::<u16>,
        },
{
    match field {
        Some(p) => Some((p % 0x10000) as u16),
        None => None,
    }
}

fn port_from_trimmed(text: &String) -> (r: Option<u16>)
    ensures
        r == match json_port_field(text@) {
            Some(p) => Some(port_of_field(p)),
            None => None::<u16>,
        },
{
    port_from_field(parse_port_field(text.as_str()))
}

/// Trims a line of standard error for the log.
pub fn read_stderr_line(line: &str) -> (r: String)
    ensures
        r@ == trimmed(line@),
{
    trim_text(line)
}

} // verus!
