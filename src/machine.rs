use vstd::prelude::*;

verus! {

/// The uppercase hexadecimal digits, by value.
pub open spec fn hex_upper() -> Seq<char> {
    seq!['0', '1', '2', '3', '4', '5', '6', '7', '8', '9', 'A', 'B', 'C', 'D', 'E', 'F']
}

/// One byte as two uppercase hexadecimal digits, high nibble first.
pub open spec fn byte_text(b: u8) -> Seq<char> {
    seq![hex_upper()[(b / 16) as int], hex_upper()[(b % 16) as int]]
}

/// A hardware address as six two-digit groups joined by colons.
pub open spec fn mac_text_of(b: Seq<u8>) -> Seq<char> {
    byte_text(b[0]) + seq![':'] + byte_text(b[1]) + seq![':'] + byte_text(b[2]) + seq![':']
        + byte_text(b[3]) + seq![':'] + byte_text(b[4]) + seq![':'] + byte_text(b[5])
}

/// Relies on `mac_address::MacAddress`'s `Display`, which writes each byte
/// with `{:<02X}` and separates them with `:`.
#[verifier::external_body]
fn mac_text(bytes: [u8; 6]) -> (r: String)
    ensures
        r@ == mac_text_of(bytes@),
{
    mac_address::MacAddress::new(bytes).to_string()
}

/// The reply to a request for this machine's hardware address, given what the
/// lookup found: the address as text, or a diagnostic.
pub fn mac_reply(lookup: Result<Option<[u8; 6]>, String>) -> (r: Result<String, String>)
    ensures
        match lookup {
            Ok(Some(b)) => r matches Ok(s) && s@ == mac_text_of(b@),
            Ok(None) => r matches Err(m) && m@ == "MAC address not found"@,
            Err(e) => r matches Err(m) && m@ == "Failed to get MAC address: "@ + e@,
        },
{
    match lookup {
        Ok(Some(b)) => Ok(mac_text(b)),
        Ok(None) => Err(String::from_str("MAC address not found")),
        Err(e) => Err(String::from_str("Failed to get MAC address: ").concat(e.as_str())),
    }
}

/// The greeting sent back for `name`.
pub fn greet(name: &str) -> (r: String)
    ensures
        r@ == "Hello, "@ + name@ + "! You've been greeted from Rust!"@,
{
    String::from_str("Hello, ").concat(name).concat("! You've been greeted from Rust!")
}

/// The window flags that screen protection asks for.
#[derive(Clone, Copy, Debug, PartialEq, Eq)]
pub struct WindowChrome {
    pub decorations: bool,
    pub always_on_top: bool,
    pub content_protected: bool,
}

/// The flags to apply when protection is switched on or off: while it is on,
/// the window has no decorations, stays on top, and its content is protected
/// from capture; switching it off restores each flag.
pub fn protection_chrome(enabled: bool) -> (r: WindowChrome)
    ensures
        r.decorations == !enabled,
        r.always_on_top == enabled,
        r.content_protected == enabled,
{
    WindowChrome { decorations: !enabled, always_on_top: enabled, content_protected: enabled }
}

} // verus!
