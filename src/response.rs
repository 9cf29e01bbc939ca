use vstd::prelude::*;
use vstd::slice::slice_to_vec;
use vstd::utf8::encode_utf8;

use crate::status::{decimal, reason_phrase, three_digits, StatusCode};

verus! {

/// The bytes of ASCII characters.
pub open spec fn ascii_bytes(s: Seq<char>) -> Seq<u8> {
    s.map_values(|c: char| c as u8)
}

/// `HTTP/1.1 `
pub open spec fn version_prefix() -> Seq<u8> {
    seq![72u8, 84, 84, 80, 47, 49, 46, 49, 32]
}

/// A line terminator followed by `Content-Length: `.
pub open spec fn length_field() -> Seq<u8> {
    seq![13u8, 10, 67, 111, 110, 116, 101, 110, 116, 45, 76, 101, 110, 103, 116, 104, 58, 32]
}

/// The bytes sent for a response: the status line, a `Content-Length`
/// header giving the body's length, an empty line, and the body itself.
pub open spec fn response_bytes(code: u16, body: Seq<u8>) -> Seq<u8> {
    version_prefix() + ascii_bytes(three_digits(code as nat)) + seq![32u8] + encode_utf8(
        reason_phrase(code)@,
    ) + length_field() + ascii_bytes(decimal(body.len())) + seq![13u8, 10, 13, 10] + body
}

/// A response: a status code and a body.
pub struct HttpResponse {
    status_code: StatusCode,
    body: Vec<u8>,
}

impl HttpResponse {
    pub closed spec fn spec_status(self) -> u16 {
        self.status_code.value()
    }

    pub closed spec fn spec_body(self) -> Seq<u8> {
        self.body@
    }

    /// A response with the given status and body.
    pub fn new(status_code: StatusCode, body: &[u8]) -> (r: HttpResponse)
        ensures
            r.spec_status() == status_code.value(),
            r.spec_body() == body@,
    {
        HttpResponse { status_code, body: slice_to_vec(body) }
    }

    /// A response with the given status and an empty body.
    pub fn status_code(status_code: StatusCode) -> (r: HttpResponse)
        ensures
            r.spec_status() == status_code.value(),
            r.spec_body() == Seq::<u8>::empty(),
    {
        HttpResponse { status_code, body: Vec::new() }
    }

    pub fn get_status_code(&self) -> (r: &StatusCode)
        ensures
            r.value() == self.spec_status(),
    {
        &self.status_code
    }

    pub fn get_body(&self) -> (r: &[u8])
        ensures
            r@ == self.spec_body(),
    {
        self.body.as_slice()
    }

    /// The bytes to write back to the client.
    pub fn to_bytes(&self) -> (r: Vec<u8>)
        ensures
            r@ == response_bytes(self.spec_status(), self.spec_body()),
    {
        let c = self.status_code.as_u16();
        let mut out: Vec<u8> = Vec::new();
        let prefix: [u8; 9] = [72u8, 84, 84, 80, 47, 49, 46, 49, 32];
        assert(prefix@ =~= version_prefix());
        append(&mut out, &prefix);
        let digits: [u8; 4] = [(c / 100) as u8 + 48, ((c / 10) % 10) as u8 + 48, (c % 10) as u8 + 48, 32];
        assert(digits@ =~= ascii_bytes(three_digits(c as nat)) + seq![32u8]);
        append(&mut out, &digits);
        append(&mut out, self.status_code.canonical_reason().as_bytes());
        let field: [u8; 18] = [13u8, 10, 67, 111, 110, 116, 101, 110, 116, 45, 76, 101, 110, 103, 116, 104, 58, 32];
        assert(field@ =~= length_field());
        append(&mut out, &field);
        let len = decimal_bytes(self.body.len());
        append(&mut out, len.as_slice());
        let end: [u8; 4] = [13u8, 10, 13, 10];
        append(&mut out, &end);
        append(&mut out, self.body.as_slice());
        assert(out@ =~= response_bytes(c, self.body@));
        out
    }
}

/// Appends `src` to `out`.
fn append(out: &mut Vec<u8>, src: &[u8])
    ensures
        final(out)@ == old(out)@ + src@,
{
    let mut i: usize = 0;
    while i < src.len()
        invariant
            i <= src@.len(),
            out@ == old(out)@ + src@.subrange(0, i as int),
        decreases src@.len() - i,
    {
        out.push(src[i]);
        i += 1;
        assert(out@ =~= old(out)@ + src@.subrange(0, i as int));
    }
    assert(src@.subrange(0, i as int) =~= src@);
}

/// The decimal digits of `n`, as ASCII bytes.
pub fn decimal_bytes(n: usize) -> (r: Vec<u8>)
    ensures
        r@ == ascii_bytes(decimal(n as nat)),
    decreases n,
{
    if n < 10 {
        let r = vec![n as u8 + 48];
        assert(r@ =~= ascii_bytes(decimal(n as nat)));
        r
    } else {
        let mut r = decimal_bytes(n / 10);
        r.push((n % 10) as u8 + 48);
        assert(r@ =~= ascii_bytes(decimal(n as nat)));
        r
    }
}

} // verus!
