use vstd::prelude::*;
use vstd::utf8::is_ascii_chars;

use crate::text::{lemma_ascii_bytes_decode, text_of};

verus! {

/// The standard reason phrase of `code`, or the empty string for a code
/// outside the catalog.
pub open spec fn reason_phrase(code: u16) -> &'static str {
    match code {
        100 => "Continue",
        101 => "Switching Protocols",
        102 => "Processing",
        200 => "OK",
        201 => "Created",
        202 => "Accepted",
        203 => "Non Authoritative Information",
        204 => "No Content",
        205 => "Reset Content",
        206 => "Partial Content",
        207 => "Multi-Status",
        208 => "Already Reported",
        226 => "IM Used",
        300 => "Multiple Choices",
        301 => "Moved Permanently",
        302 => "Found",
        303 => "See Other",
        304 => "Not Modified",
        305 => "Use Proxy",
        307 => "Temporary Redirect",
        308 => "Permanent Redirect",
        400 => "Bad Request",
        401 => "Unauthorized",
        402 => "Payment Required",
        403 => "Forbidden",
        404 => "Not Found",
        405 => "Method Not Allowed",
        406 => "Not Acceptable",
        407 => "Proxy Authentication Required",
        408 => "Request Timeout",
        409 => "Conflict",
        410 => "Gone",
        411 => "Length Required",
        412 => "Precondition Failed",
        413 => "Payload Too Large",
        414 => "URI Too Long",
        415 => "Unsupported Media Type",
        416 => "Range Not Satisfiable",
        417 => "Expectation Failed",
        418 => "I'm a teapot",
        421 => "Misdirected Request",
        422 => "Unprocessable Entity",
        423 => "Locked",
        424 => "Failed Dependency",
        426 => "Upgrade Required",
        428 => "Precondition Required",
        429 => "Too Many Requests",
        431 => "Request Header Fields Too Large",
        451 => "Unavailable For Legal Reasons",
        500 => "Internal Server Error",
        501 => "Not Implemented",
        502 => "Bad Gateway",
        503 => "Service Unavailable",
        504 => "Gateway Timeout",
        505 => "HTTP Version Not Supported",
        506 => "Variant Also Negotiates",
        507 => "Insufficient Storage",
        508 => "Loop Detected",
        510 => "Not Extended",
        511 => "Network Authentication Required",
        _ => "",
    }
}

/// The ASCII character of a decimal digit.
pub open spec fn digit_char(d: nat) -> char {
    ((d % 10) + 48) as char
}

/// The decimal form of `n`, without leading zeros.
pub open spec fn decimal(n: nat) -> Seq<char>
    decreases n,
{
    if n < 10 {
        seq![digit_char(n)]
    } else {
        decimal(n / 10).push(digit_char(n % 10))
    }
}

/// The three digits of a status code, hundreds first.
pub open spec fn three_digits(code: nat) -> Seq<char> {
    seq![digit_char(code / 100), digit_char(code / 10), digit_char(code)]
}

/// For every code in `100..=999` the three digits are the decimal form of
/// the code.
pub proof fn lemma_three_digits_are_decimal(code: nat)
    requires
        100 <= code <= 999,
    ensures
        three_digits(code) == decimal(code),
{
    vstd::arithmetic::div_mod::lemma_div_denominator(code as int, 10, 10);
    assert(decimal(code / 10) == decimal(code / 100).push(digit_char((code / 10) % 10)));
    assert(digit_char(code / 10) == digit_char((code / 10) % 10));
    assert(decimal(code) =~= three_digits(code));
}

/// The byte at position `i` of the digit table: the table holds the three
/// digits of every code from 100 to 999, in order.
pub open spec fn table_byte(i: int) -> u8 {
    let c = 100 + i / 3;
    let d = if i % 3 == 0 {
        c / 100
    } else if i % 3 == 1 {
        c / 10 % 10
    } else {
        c % 10
    };
    (d + 48) as u8
}

/// Position `3 * k + j` of the table holds digit `j` of code `100 + k`.
proof fn lemma_table_position(k: int, j: int)
    requires
        0 <= k < 900,
        0 <= j < 3,
    ensures
        (3 * k + j) / 3 == k,
        (3 * k + j) % 3 == j,
{
    vstd::arithmetic::div_mod::lemma_fundamental_div_mod_converse(3 * k + j, 3, k, j);
}

/// The digits of every status code, three bytes per code, built once so that
/// a code's digits are found by indexing.
pub struct DigitTable {
    bytes: Vec<u8>,
}

impl DigitTable {
    #[verifier::type_invariant]
    spec fn complete(self) -> bool {
        &&& self.bytes@.len() == 2700
        &&& forall|i: int| 0 <= i < 2700 ==> #[trigger] self.bytes@[i] == table_byte(i)
    }

    /// Builds the table.
    pub fn new() -> (r: DigitTable) {
        let mut bytes: Vec<u8> = Vec::with_capacity(2700);
        let mut c: u16 = 100;
        while c < 1000
            invariant
                100 <= c <= 1000,
                bytes@.len() == 3 * (c - 100),
                forall|i: int| 0 <= i < bytes@.len() ==> #[trigger] bytes@[i] == table_byte(i),
            decreases 1000 - c,
        {
            let ghost k = c - 100;
            proof {
                lemma_table_position(k, 0);
                lemma_table_position(k, 1);
                lemma_table_position(k, 2);
            }
            bytes.push((c / 100) as u8 + 48);
            bytes.push((c / 10 % 10) as u8 + 48);
            bytes.push((c % 10) as u8 + 48);
            c += 1;
        }
        DigitTable { bytes }
    }
}

/// An HTTP status code, always within `100..=999`.
#[derive(Clone, Copy, Debug, PartialEq, Eq, Structural)]
pub struct StatusCode {
    code: u16,
}

impl StatusCode {
    #[verifier::type_invariant]
    spec fn in_range(self) -> bool {
        100 <= self.code <= 999
    }

    /// The numeric value.
    pub closed spec fn value(self) -> u16 {
        self.code
    }

    /// Makes a status code; `None` unless `code` lies in `100..=999`.
    pub fn from_u16(code: u16) -> (r: Option<StatusCode>)
        ensures
            r is Some <==> 100 <= code <= 999,
            r matches Some(s) ==> s.value() == code,
    {
        if 100 <= code && code <= 999 {
            Some(StatusCode { code })
        } else {
            None
        }
    }

    /// `200 OK`.
    pub fn ok() -> (r: StatusCode)
        ensures
            r.value() == 200,
    {
        StatusCode { code: 200 }
    }

    /// `400 Bad Request`.
    pub fn bad_request() -> (r: StatusCode)
        ensures
            r.value() == 400,
    {
        StatusCode { code: 400 }
    }

    /// `404 Not Found`.
    pub fn not_found() -> (r: StatusCode)
        ensures
            r.value() == 404,
    {
        StatusCode { code: 404 }
    }

    /// The numeric value of the code.
    pub fn as_u16(&self) -> (r: u16)
        ensures
            r == self.value(),
            100 <= r <= 999,
    {
        proof {
            use_type_invariant(self);
        }
        self.code
    }

    /// The three ASCII digits of the code.
    pub fn as_str(&self) -> (r: String)
        ensures
            r@ == three_digits(self.value() as nat),
    {
        let c = self.as_u16();
        let bytes: [u8; 3] = [(c / 100) as u8 + 48, ((c / 10) % 10) as u8 + 48, (c % 10) as u8 + 48];
        proof {
            let chars = three_digits(c as nat);
            assert(is_ascii_chars(chars));
            lemma_ascii_bytes_decode(bytes@, chars);
        }
        text_of(&bytes)
    }

    /// The three ASCII digits of the code, read from the table.
    pub fn digits<'a>(&self, table: &'a DigitTable) -> (r: &'a [u8])
        ensures
            r@.len() == 3,
            forall|j: int| 0 <= j < 3 ==> #[trigger] r@[j] as char == three_digits(self.value() as nat)[j],
    {
        proof {
            use_type_invariant(self);
            use_type_invariant(table);
        }
        let offset: usize = (self.code - 100) as usize * 3;
        proof {
            let k = self.code - 100;
            lemma_table_position(k, 0);
            lemma_table_position(k, 1);
            lemma_table_position(k, 2);
            assert(table.bytes@[offset as int] == table_byte(3 * k));
            assert(table.bytes@[offset + 1] == table_byte(3 * k + 1));
            assert(table.bytes@[offset + 2] == table_byte(3 * k + 2));
        }
        &table.bytes[offset..offset + 3]
    }

    /// The standard reason phrase, or `""` for a code outside the catalog.
    pub fn canonical_reason(&self) -> (r: &'static str)
        ensures
            r@ == reason_phrase(self.value())@,
    {
        match self.code {
            100 => "Continue",
            101 => "Switching Protocols",
            102 => "Processing",
            200 => "OK",
            201 => "Created",
            202 => "Accepted",
            203 => "Non Authoritative Information",
            204 => "No Content",
            205 => "Reset Content",
            206 => "Partial Content",
            207 => "Multi-Status",
            208 => "Already Reported",
            226 => "IM Used",
            300 => "Multiple Choices",
            301 => "Moved Permanently",
            302 => "Found",
            303 => "See Other",
            304 => "Not Modified",
            305 => "Use Proxy",
            307 => "Temporary Redirect",
            308 => "Permanent Redirect",
            400 => "Bad Request",
            401 => "Unauthorized",
            402 => "Payment Required",
            403 => "Forbidden",
            404 => "Not Found",
            405 => "Method Not Allowed",
            406 => "Not Acceptable",
            407 => "Proxy Authentication Required",
            408 => "Request Timeout",
            409 => "Conflict",
            410 => "Gone",
            411 => "Length Required",
            412 => "Precondition Failed",
            413 => "Payload Too Large",
            414 => "URI Too Long",
            415 => "Unsupported Media Type",
            416 => "Range Not Satisfiable",
            417 => "Expectation Failed",
            418 => "I'm a teapot",
            421 => "Misdirected Request",
            422 => "Unprocessable Entity",
            423 => "Locked",
            424 => "Failed Dependency",
            426 => "Upgrade Required",
            428 => "Precondition Required",
            429 => "Too Many Requests",
            431 => "Request Header Fields Too Large",
            451 => "Unavailable For Legal Reasons",
            500 => "Internal Server Error",
            501 => "Not Implemented",
            502 => "Bad Gateway",
            503 => "Service Unavailable",
            504 => "Gateway Timeout",
            505 => "HTTP Version Not Supported",
            506 => "Variant Also Negotiates",
            507 => "Insufficient Storage",
            508 => "Loop Detected",
            510 => "Not Extended",
            511 => "Network Authentication Required",
            _ => "",
        }
    }
}

} // verus!
