//! The fixed reply and the bytes it is made of.

use vstd::prelude::*;

verus! {

/// The status line, without its line break.
pub const STATUS_LINE: &'static str = "HTTP/1.1 200 OK";

/// The name of the length header, up to and including the separating blank.
pub const LENGTH_HEADER_NAME: &'static str = "Content-Length: ";

/// The HTML body that every reply carries.
pub const BODY: &'static str = "<h1>Hello from your Rust server!</h1>";

/// The bytes of a text whose characters are all ASCII: one byte per character.
pub open spec fn ascii_bytes(text: Seq<char>) -> Seq<u8> {
    Seq::new(text.len(), |i: int| text[i] as u8)
}

/// The decimal digits of `n` as ASCII bytes, most significant first, without
/// leading zeros (`0` is the single digit `0`).
pub open spec fn decimal_digits(n: nat) -> Seq<u8>
    decreases n,
{
    if n < 10 {
        seq![(48 + n) as u8]
    } else {
        decimal_digits(n / 10).push((48 + n % 10) as u8)
    }
}

/// The number that a sequence of ASCII decimal digits denotes.
pub open spec fn decimal_value(digits: Seq<u8>) -> int
    decreases digits.len(),
{
    if digits.len() == 0 {
        0
    } else {
        decimal_value(digits.drop_last()) * 10 + (digits.last() - 48)
    }
}

/// Carriage return and line feed.
pub open spec fn line_break() -> Seq<u8> {
    seq![13u8, 10u8]
}

/// The status line as bytes.
pub open spec fn status_line() -> Seq<u8> {
    ascii_bytes(STATUS_LINE@)
}

/// The body as bytes.
pub open spec fn body() -> Seq<u8> {
    ascii_bytes(BODY@)
}

/// The length header: its name followed by the body's byte length in decimal.
pub open spec fn length_header() -> Seq<u8> {
    ascii_bytes(LENGTH_HEADER_NAME@) + decimal_digits(body().len())
}

/// The whole reply as it goes on the wire: status line, length header, an
/// empty line, then the body with no line break after it.
pub open spec fn response_bytes() -> Seq<u8> {
    status_line() + line_break() + length_header() + line_break() + line_break() + body()
}

/// Renders `n` in decimal.
pub fn render_decimal(n: usize) -> (digits: Vec<u8>)
    ensures
        digits@ == decimal_digits(n as nat),
    decreases n,
{
    if n < 10 {
        let d: u8 = 48 + n as u8;
        let digits = vec![d];
        assert(digits@ =~= decimal_digits(n as nat));
        digits
    } else {
        let mut digits = render_decimal(n / 10);
        let d: u8 = 48 + (n % 10) as u8;
        digits.push(d);
        digits
    }
}

/// Appends `bytes` to `out`.
pub fn append_bytes(out: &mut Vec<u8>, bytes: &[u8])
    ensures
        final(out)@ == old(out)@ + bytes@,
{
    let mut i: usize = 0;
    while i < bytes.len()
        invariant
            i <= bytes@.len(),
            out@ == old(out)@ + bytes@.take(i as int),
        decreases bytes@.len() - i,
    {
        out.push(bytes[i]);
        i += 1;
        assert(out@ =~= old(out)@ + bytes@.take(i as int));
    }
    assert(bytes@.take(i as int) =~= bytes@);
}

/// The bytes of a text that holds ASCII characters only.
fn bytes_of_ascii(text: &str) -> (bytes: &[u8])
    requires
        vstd::string::is_ascii(text),
    ensures
        bytes@ == ascii_bytes(text@),
{
    broadcast use vstd::string::is_ascii_spec_bytes;

    let bytes = text.as_bytes();
    assert(bytes@ =~= ascii_bytes(text@));
    bytes
}

/// The status line as bytes.
pub fn status_line_bytes() -> (bytes: &'static [u8])
    ensures
        bytes@ == status_line(),
{
    proof {
        reveal_strlit("HTTP/1.1 200 OK");
    }
    bytes_of_ascii(STATUS_LINE)
}

/// The fixed body as bytes.
pub fn body_bytes() -> (bytes: &'static [u8])
    ensures
        bytes@ == body(),
{
    proof {
        reveal_strlit("<h1>Hello from your Rust server!</h1>");
    }
    bytes_of_ascii(BODY)
}

/// The length header for a body of `body_len` bytes, without its line break.
pub fn length_header_bytes(body_len: usize) -> (bytes: Vec<u8>)
    ensures
        bytes@ == ascii_bytes(LENGTH_HEADER_NAME@) + decimal_digits(body_len as nat),
{
    proof {
        reveal_strlit("Content-Length: ");
    }
    let mut bytes: Vec<u8> = Vec::new();
    append_bytes(&mut bytes, bytes_of_ascii(LENGTH_HEADER_NAME));
    let digits = render_decimal(body_len);
    append_bytes(&mut bytes, digits.as_slice());
    bytes
}

/// Builds the fixed reply. The length header is computed from the body that
/// is sent, so the two cannot disagree.
pub fn build_response() -> (response: Vec<u8>)
    ensures
        response@ == response_bytes(),
{
    let body = body_bytes();
    let header = length_header_bytes(body.len());
    let line_end: [u8; 2] = [13, 10];
    assert(line_end@ =~= line_break());
    let mut response: Vec<u8> = Vec::new();
    append_bytes(&mut response, status_line_bytes());
    append_bytes(&mut response, line_end.as_slice());
    append_bytes(&mut response, header.as_slice());
    append_bytes(&mut response, line_end.as_slice());
    append_bytes(&mut response, line_end.as_slice());
    append_bytes(&mut response, body);
    assert(response@ =~= response_bytes());
    response
}

/// Every byte of a decimal rendering is an ASCII digit, and a rendering of
/// more than one digit does not start with `0`.
pub proof fn decimal_digits_well_formed(n: nat)
    ensures
        decimal_digits(n).len() >= 1,
        forall|i: int| 0 <= i < decimal_digits(n).len() ==> 48 <= #[trigger] decimal_digits(n)[i] <= 57,
        decimal_digits(n).len() > 1 ==> decimal_digits(n)[0] != 48,
        n < 10 <==> decimal_digits(n).len() == 1,
    decreases n,
{
    if n >= 10 {
        decimal_digits_well_formed(n / 10);
    }
}

/// Reading a decimal rendering back gives the number that was rendered.
pub proof fn decimal_round_trip(n: nat)
    ensures
        decimal_value(decimal_digits(n)) == n,
    decreases n,
{
    if n < 10 {
        assert(decimal_digits(n).drop_last() =~= Seq::<u8>::empty());
        assert(decimal_value(decimal_digits(n).drop_last()) == 0);
    } else {
        decimal_round_trip(n / 10);
        assert(decimal_digits(n).drop_last() =~= decimal_digits(n / 10));
    }
}

/// The body is 37 bytes long.
pub proof fn body_length()
    ensures
        body().len() == 37,
{
    reveal_strlit("<h1>Hello from your Rust server!</h1>");
}

/// The number written in the reply's length header is the byte length of the
/// body that follows the empty line.
pub proof fn response_declares_body_length()
    ensures
        response_bytes() == status_line() + line_break() + ascii_bytes(LENGTH_HEADER_NAME@)
            + decimal_digits(body().len()) + line_break() + line_break() + body(),
        decimal_value(decimal_digits(body().len())) == body().len(),
{
    decimal_round_trip(body().len());
    assert(response_bytes() =~= status_line() + line_break() + ascii_bytes(LENGTH_HEADER_NAME@)
        + decimal_digits(body().len()) + line_break() + line_break() + body());
}

/// The reply, byte for byte.
pub proof fn response_wire_image()
    ensures
        response_bytes() == ascii_bytes(
            "HTTP/1.1 200 OK\r\nContent-Length: 37\r\n\r\n<h1>Hello from your Rust server!</h1>"@,
        ),
        response_bytes().len() == 76,
{
    reveal_strlit("HTTP/1.1 200 OK");
    reveal_strlit("Content-Length: ");
    reveal_strlit("<h1>Hello from your Rust server!</h1>");
    reveal_strlit(
        "HTTP/1.1 200 OK\r\nContent-Length: 37\r\n\r\n<h1>Hello from your Rust server!</h1>",
    );
    reveal_with_fuel(decimal_digits, 3);
    assert(decimal_digits(37) =~= seq![51u8, 55u8]);
    assert(response_bytes() =~= ascii_bytes(
        "HTTP/1.1 200 OK\r\nContent-Length: 37\r\n\r\n<h1>Hello from your Rust server!</h1>"@,
    ));
}

} // verus!
