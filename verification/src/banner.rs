//! The `banner` subcommand: the ports it tries, the probe that makes an HTTP
//! server answer, and the lines it prints.
use vstd::prelude::*;
use crate::http::{trim_chars, trimmed};
use crate::text::{chars_of, decimal, pad_right, push_padded, push_str, string_of, decimal_string};

verus! {

/// The ports that are tried for a banner, in order.
pub open spec fn banner_ports_spec() -> Seq<u16> {
    seq![21u16, 22, 23, 25, 80, 443, 8080]
}

/// The ports that are tried for a banner (see `banner_ports_spec`).
pub fn banner_ports() -> (v: Vec<u16>)
    ensures
        v@ == banner_ports_spec(),
{
    let v = vec![21u16, 22, 23, 25, 80, 443, 8080];
    assert(v@ =~= banner_ports_spec());
    v
}

/// HTTP and HTTPS only answer a request: these ports are sent a `HEAD` probe
/// before the banner is read.
pub open spec fn needs_probe(port: u16) -> bool {
    port == 80 || port == 443 || port == 8080
}

/// The bytes of `HEAD / HTTP/1.0` followed by an empty line.
pub open spec fn head_probe() -> Seq<u8> {
    seq![
        72u8, 69, 65, 68, 32, 47, 32, 72, 84, 84, 80, 47, 49, 46, 48, 13, 10, 13, 10
    ]
}

/// What is sent to `port` before its banner is read: the `HEAD` probe for the
/// HTTP ports, nothing for the others.
pub fn banner_probe(port: u16) -> (r: Option<Vec<u8>>)
    ensures
        needs_probe(port) ==> (r matches Some(b) && b@ == head_probe()),
        !needs_probe(port) ==> r is None,
        // The web ports, HTTP on 80 and 8080 and HTTPS on 443, are sent
        // `HEAD / HTTP/1.0` and an empty line, byte for byte; no other port is
        // sent anything.
        port == 80 || port == 443 || port == 8080 ==> (r matches Some(b) && b@ == seq![
            'H' as u8, 'E' as u8, 'A' as u8, 'D' as u8, ' ' as u8, '/' as u8, ' ' as u8,
            'H' as u8, 'T' as u8, 'T' as u8, 'P' as u8, '/' as u8, '1' as u8, '.' as u8, '0' as u8,
            '\r' as u8, '\n' as u8, '\r' as u8, '\n' as u8,
        ]),
        port != 80 && port != 443 && port != 8080 ==> r is None,
{
    if port == 80 || port == 443 || port == 8080 {
        let b: Vec<u8> = vec![72u8, 69, 65, 68, 32, 47, 32, 72, 84, 84, 80, 47, 49, 46, 48, 13, 10, 13, 10];
        assert(b@ =~= head_probe());
        Some(b)
    } else {
        None
    }
}

/// The text of bytes read as UTF-8, an invalid sequence standing as the
/// replacement character, as `String::from_utf8_lossy` gives it.
pub uninterp spec fn utf8_lossy_spec(bytes: Seq<u8>) -> Seq<char>;

/// `String::from_utf8_lossy`: the bytes as text. It is taken as the function
/// `utf8_lossy_spec` of the bytes; nothing more of its value is stated here.
#[verifier::external_body]
fn utf8_lossy(bytes: &[u8]) -> (s: String)
    ensures
        s@ == utf8_lossy_spec(bytes@),
{
    String::from_utf8_lossy(bytes).into_owned()
}

/// The banner a server sent: the bytes read as text, without white space at
/// either end.
pub fn banner_text(bytes: &[u8]) -> (s: String)
    ensures
        s@ == trimmed(utf8_lossy_spec(bytes@)),
{
    let text = utf8_lossy(bytes);
    string_of(&trim_chars(&chars_of(text.as_str())))
}

/// The line printed for a port: the port padded to five characters, then the
/// banner, or `No banner found.` when there is none.
pub open spec fn banner_line_text(port: u16, banner: Option<Seq<char>>) -> Seq<char> {
    pad_right(decimal(port as nat), 5) + ": "@ + match banner {
        Some(b) => b,
        None => "No banner found."@,
    }
}

/// Builds the line printed for a port (see `banner_line_text`).
pub fn banner_line(port: u16, banner: Option<&str>) -> (s: String)
    ensures
        s@ == banner_line_text(
            port,
            match banner {
                Some(b) => Some(b@),
                None => None,
            },
        ),
{
    let mut s = String::new();
    let p = decimal_string(port as u64);
    push_padded(&mut s, p.as_str(), 5);
    push_str(&mut s, ": ");
    match banner {
        Some(b) => push_str(&mut s, b),
        None => push_str(&mut s, "No banner found."),
    }
    proof {
        assert(s@ =~= banner_line_text(
            port,
            match banner {
                Some(b) => Some(b@),
                None => None,
            },
        ));
    }
    s
}

} // verus!
