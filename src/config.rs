//! Where the configuration lives, and the record written to it.

use vstd::prelude::*;
use vstd::string::StringExecFns;

verus! {

/// The two root directories that transfers start from and go to.
pub struct Config {
    /// Directory on the device, ending with its separator (`/`).
    pub phone_path: String,
    /// Directory on the PC, ending with its separator.
    pub pc_path: String,
}

/// The configuration directory under the user's home directory.
pub fn config_dir(home: &str) -> (r: String)
    ensures
        r@ == home@ + "/.config/savswapds/"@,
{
    String::from_str(home).concat("/.config/savswapds/")
}

/// The configuration file under the user's home directory.
pub fn config_file(home: &str) -> (r: String)
    ensures
        r@ == home@ + "/.config/savswapds/config.json"@,
{
    String::from_str(home).concat("/.config/savswapds/config.json")
}

/// A hexadecimal digit, in lower case.
pub open spec fn hex_digit(n: int) -> char {
    seq!['0', '1', '2', '3', '4', '5', '6', '7', '8', '9', 'a', 'b', 'c', 'd', 'e', 'f'][n]
}

/// How one character stands inside a JSON string literal: `"` and `\` behind
/// a backslash, the five control characters that have a short escape by it,
/// the other control characters as `\u00xx`, and all else as it is.
pub open spec fn json_escape(c: char) -> Seq<char> {
    if c == '"' {
        seq!['\\', '"']
    } else if c == '\\' {
        seq!['\\', '\\']
    } else if c == '\u{8}' {
        seq!['\\', 'b']
    } else if c == '\t' {
        seq!['\\', 't']
    } else if c == '\n' {
        seq!['\\', 'n']
    } else if c == '\u{c}' {
        seq!['\\', 'f']
    } else if c == '\r' {
        seq!['\\', 'r']
    } else if (c as int) < 0x20 {
        seq!['\\', 'u', '0', '0', hex_digit(c as int / 16), hex_digit(c as int % 16)]
    } else {
        seq![c]
    }
}

/// The characters of `s`, each escaped for a JSON string literal.
pub open spec fn json_escaped(s: Seq<char>) -> Seq<char>
    decreases s.len(),
{
    if s.len() == 0 {
        Seq::empty()
    } else {
        json_escaped(s.drop_last()) + json_escape(s.last())
    }
}

/// The JSON string literal for `s`: its escaped characters between quotes.
pub open spec fn json_literal(s: Seq<char>) -> Seq<char> {
    seq!['"'] + json_escaped(s) + seq!['"']
}

/// Relies on `serde_json::to_string` applied to a `str`: it writes into a
/// `Vec`, which cannot fail, and gives the text between quotes with `"`, `\`
/// and the control characters escaped, as `json_literal` states.
#[verifier::external_body]
fn json_quote(s: &str) -> (r: Option<String>)
    ensures
        r is Some,
        r matches Some(t) ==> t@ == json_literal(s@),
{
    serde_json::to_string(s).ok()
}

/// The configuration record, from the JSON literals of its two paths.
pub open spec fn record_text(phone_json: Seq<char>, pc_json: Seq<char>) -> Seq<char> {
    "{\"phone_path\": "@ + phone_json + ",\"pc_path\": "@ + pc_json + "}"@
}

/// Frames the configuration record around two JSON string literals.
pub fn record_from_literals(phone_json: &str, pc_json: &str) -> (r: String)
    ensures
        r@ == record_text(phone_json@, pc_json@),
{
    let r = String::from_str("{\"phone_path\": ").concat(phone_json).concat(",\"pc_path\": ").concat(
        pc_json,
    ).concat("}");
    assert(r@ =~= record_text(phone_json@, pc_json@));
    r
}

/// The text of the configuration file for `config`, each path written as a
/// JSON string literal.
pub fn config_record(config: &Config) -> (r: String)
    ensures
        r@ == record_text(json_literal(config.phone_path@), json_literal(config.pc_path@)),
{
    let phone = json_quote(config.phone_path.as_str()).unwrap();
    let pc = json_quote(config.pc_path.as_str()).unwrap();
    record_from_literals(phone.as_str(), pc.as_str())
}

} // verus!
