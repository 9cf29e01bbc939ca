use vstd::prelude::*;
use vstd::slice::slice_to_vec;

use crate::bytes::{find_from, find_from_exec, lemma_find_from};
use crate::headers::HeaderMap;
use crate::router::HttpMethod;
use crate::text::{lossy_text, text_of};

verus! {

/// A line terminator.
pub open spec fn crlf() -> Seq<u8> {
    seq![13u8, 10]
}

/// The empty line that closes the header section.
pub open spec fn blank_line() -> Seq<u8> {
    seq![13u8, 10, 13, 10]
}

/// The separator of the start line's tokens.
pub open spec fn space() -> Seq<u8> {
    seq![32u8]
}

/// What ends a header line; a carriage return before it is dropped.
pub open spec fn line_feed() -> Seq<u8> {
    seq![10u8]
}

/// What stands between a header's name and its value.
pub open spec fn field_separator() -> Seq<u8> {
    seq![58u8, 32]
}

/// Why a request could not be read.
#[derive(Clone, Copy, Debug, PartialEq, Eq, Structural)]
pub enum ParseError {
    /// No empty line ends the header section.
    MissingHeaderEnd,
    /// The start line is not three tokens separated by single spaces.
    MalformedStartLine,
    /// The method token names none of the known methods.
    UnknownMethod,
}

/// The method, path and version tokens of a start line that splits on single
/// spaces into exactly three tokens.
pub open spec fn start_tokens(line: Seq<u8>) -> Option<(Seq<u8>, Seq<u8>, Seq<u8>)> {
    match find_from(line, space(), 0) {
        None => None,
        Some(a) => match find_from(line, space(), a + 1) {
            None => None,
            Some(b) => if find_from(line, space(), b + 1) is Some {
                None
            } else {
                Some(
                    (
                        line.subrange(0, a as int),
                        line.subrange(a + 1 as int, b as int),
                        line.subrange(b + 1 as int, line.len() as int),
                    ),
                )
            },
        },
    }
}

/// A line without the carriage return that may end it.
pub open spec fn strip_cr(line: Seq<u8>) -> Seq<u8> {
    if line.len() > 0 && line.last() == 13u8 {
        line.drop_last()
    } else {
        line
    }
}

/// A header line split at its first `": "` into name and value; `None` for a
/// line without one.
pub open spec fn split_field(line: Seq<u8>) -> Option<(Seq<u8>, Seq<u8>)> {
    match find_from(line, field_separator(), 0) {
        Some(c) => Some((line.subrange(0, c as int), line.subrange(c + 2 as int, line.len() as int))),
        None => None,
    }
}

/// The field of one header line, as a sequence of none or one.
pub open spec fn field_seq(line: Seq<u8>) -> Seq<(Seq<u8>, Seq<u8>)> {
    match split_field(strip_cr(line)) {
        Some(f) => seq![f],
        None => Seq::empty(),
    }
}

/// The name/value pairs of the header lines of `block` from position `i` on,
/// in order; lines are split at line feeds and those without `": "` are
/// left out.
pub open spec fn header_fields_from(block: Seq<u8>, i: nat) -> Seq<(Seq<u8>, Seq<u8>)>
    decreases block.len() + 1 - i via header_fields_from_decreases
{
    if i > block.len() {
        Seq::empty()
    } else {
        match find_from(block, line_feed(), i) {
            None => field_seq(block.subrange(i as int, block.len() as int)),
            Some(k) => field_seq(block.subrange(i as int, k as int)) + header_fields_from(
                block,
                k + 1,
            ),
        }
    }
}

#[via_fn]
proof fn header_fields_from_decreases(block: Seq<u8>, i: nat) {
    lemma_find_from(block, line_feed(), i);
}

/// The name/value pairs of all header lines of `block`.
pub open spec fn header_fields(block: Seq<u8>) -> Seq<(Seq<u8>, Seq<u8>)> {
    header_fields_from(block, 0)
}

/// The header map that the fields make when inserted in order, a later value
/// for a name replacing an earlier one.
pub open spec fn header_map(fields: Seq<(Seq<u8>, Seq<u8>)>) -> Map<Seq<char>, Seq<char>>
    decreases fields.len(),
{
    if fields.len() == 0 {
        Map::empty()
    } else {
        header_map(fields.drop_last()).insert(
            lossy_text(fields.last().0),
            lossy_text(fields.last().1),
        )
    }
}

/// No two of the fields name the same header.
pub open spec fn distinct_names(fields: Seq<(Seq<u8>, Seq<u8>)>) -> bool {
    forall|i: int, j: int|
        0 <= i < j < fields.len() ==> lossy_text(fields[i].0) != lossy_text(fields[j].0)
}

/// With distinct names, the map holds exactly one entry per field, under
/// the field's name and with its value.
pub proof fn lemma_header_map_of_distinct(fields: Seq<(Seq<u8>, Seq<u8>)>)
    requires
        distinct_names(fields),
    ensures
        header_map(fields).dom().finite(),
        header_map(fields).len() == fields.len(),
        forall|i: int|
            0 <= i < fields.len() ==> #[trigger] header_map(fields).contains_key(
                lossy_text(fields[i].0),
            ) && header_map(fields)[lossy_text(fields[i].0)] == lossy_text(fields[i].1),
        forall|k: Seq<char>|
            #[trigger] header_map(fields).contains_key(k) ==> exists|i: int|
                0 <= i < fields.len() && lossy_text(fields[i].0) == k,
    decreases fields.len(),
{
    if fields.len() > 0 {
        let init = fields.drop_last();
        let n = fields.len() - 1;
        assert forall|i: int, j: int| 0 <= i < j < init.len() implies lossy_text(init[i].0)
            != lossy_text(init[j].0) by {
            assert(init[i] == fields[i] && init[j] == fields[j]);
        }
        lemma_header_map_of_distinct(init);
        let k = lossy_text(fields[n].0);
        if header_map(init).contains_key(k) {
            let i = choose|i: int| 0 <= i < init.len() && lossy_text(init[i].0) == k;
            assert(init[i] == fields[i]);
        }
        assert(header_map(init).dom().insert(k).len() == header_map(init).dom().len() + 1);
        assert forall|i: int| 0 <= i < fields.len() implies #[trigger] header_map(
            fields,
        ).contains_key(lossy_text(fields[i].0)) && header_map(fields)[lossy_text(fields[i].0)]
            == lossy_text(fields[i].1) by {
            if i < n {
                assert(init[i] == fields[i]);
            }
        }
        assert forall|k2: Seq<char>| #[trigger] header_map(fields).contains_key(k2) implies exists|
            i: int,
        |
            0 <= i < fields.len() && lossy_text(fields[i].0) == k2 by {
            if k2 != k {
                let i = choose|i: int| 0 <= i < init.len() && lossy_text(init[i].0) == k2;
                assert(init[i] == fields[i]);
            }
        }
    }
}

/// Every `name: value` line of a header block reaches the map: when no two
/// lines name the same header, the map has as many entries as the block
/// has such lines, each holding its line's value.
pub proof fn lemma_every_header_line_kept(block: Seq<u8>)
    requires
        distinct_names(header_fields(block)),
    ensures
        header_map(header_fields(block)).len() == header_fields(block).len(),
        forall|i: int|
            0 <= i < header_fields(block).len() ==> header_map(header_fields(block))[lossy_text(
                #[trigger] header_fields(block)[i].0,
            )] == lossy_text(header_fields(block)[i].1),
{
    let fields = header_fields(block);
    lemma_header_map_of_distinct(fields);
    assert forall|i: int| 0 <= i < fields.len() implies header_map(fields)[lossy_text(
        #[trigger] fields[i].0,
    )] == lossy_text(fields[i].1) by {
        assert(header_map(fields).contains_key(lossy_text(fields[i].0)));
    }
}

/// The parts of a raw request: method, path, version, header block and body.
/// The start line ends at the first line terminator, the header block at the
/// first empty line.
pub open spec fn request_parts(raw: Seq<u8>) -> Result<
    (HttpMethod, Seq<u8>, Seq<u8>, Seq<u8>, Seq<u8>),
    ParseError,
> {
    match find_from(raw, blank_line(), 0) {
        None => Err(ParseError::MissingHeaderEnd),
        Some(q) => match find_from(raw, crlf(), 0) {
            None => Err(ParseError::MissingHeaderEnd),
            Some(p) => match start_tokens(raw.subrange(0, p as int)) {
                None => Err(ParseError::MalformedStartLine),
                Some(t) => match HttpMethod::of_token(t.0) {
                    None => Err(ParseError::UnknownMethod),
                    Some(method) => Ok(
                        (
                            method,
                            t.1,
                            t.2,
                            if q >= p + 2 {
                                raw.subrange(p + 2 as int, q as int)
                            } else {
                                Seq::empty()
                            },
                            raw.subrange(q + 4 as int, raw.len() as int),
                        ),
                    ),
                },
            },
        },
    }
}

/// A parsed request.
pub struct HttpRequest {
    method: HttpMethod,
    path: String,
    version: String,
    headers: HeaderMap,
    body: Vec<u8>,
}

impl HttpRequest {
    pub closed spec fn wf(self) -> bool {
        self.headers.wf()
    }

    pub closed spec fn spec_method(self) -> HttpMethod {
        self.method
    }

    pub closed spec fn spec_path(self) -> Seq<char> {
        self.path@
    }

    pub closed spec fn spec_version(self) -> Seq<char> {
        self.version@
    }

    pub closed spec fn spec_headers(self) -> Map<Seq<char>, Seq<char>> {
        self.headers@
    }

    pub closed spec fn spec_body(self) -> Seq<u8> {
        self.body@
    }

    /// The request is the one that the parts of a raw request describe.
    pub open spec fn made_of(self, parts: (HttpMethod, Seq<u8>, Seq<u8>, Seq<u8>, Seq<u8>)) -> bool {
        &&& self.wf()
        &&& self.spec_method() == parts.0
        &&& self.spec_path() == lossy_text(parts.1)
        &&& self.spec_version() == lossy_text(parts.2)
        &&& self.spec_headers() == header_map(header_fields(parts.3))
        &&& self.spec_body() == parts.4
    }

    pub fn method(&self) -> (r: HttpMethod)
        ensures
            r == self.spec_method(),
    {
        self.method
    }

    pub fn path(&self) -> (r: &str)
        ensures
            r@ == self.spec_path(),
    {
        self.path.as_str()
    }

    pub fn version(&self) -> (r: &str)
        ensures
            r@ == self.spec_version(),
    {
        self.version.as_str()
    }

    pub fn headers(&self) -> (r: &HeaderMap)
        ensures
            r@ == self.spec_headers(),
            self.wf() ==> r.wf(),
    {
        &self.headers
    }

    pub fn body(&self) -> (r: &[u8])
        ensures
            r@ == self.spec_body(),
    {
        self.body.as_slice()
    }

    /// Reads a request from the bytes received on a connection.
    pub fn parse(raw: &[u8]) -> (r: Result<HttpRequest, ParseError>)
        ensures
            match request_parts(raw@) {
                Ok(parts) => r matches Ok(req) && req.made_of(parts),
                Err(e) => r == Err::<HttpRequest, ParseError>(e),
            },
    {
        let n: usize = raw.len();
        let blank: [u8; 4] = [13u8, 10, 13, 10];
        assert(blank@ =~= blank_line());
        let q = match find_from_exec(raw, &blank, 0) {
            None => return Err(ParseError::MissingHeaderEnd),
            Some(q) => q,
        };
        let eol: [u8; 2] = [13u8, 10];
        assert(eol@ =~= crlf());
        let p = match find_from_exec(raw, &eol, 0) {
            None => return Err(ParseError::MissingHeaderEnd),
            Some(p) => p,
        };
        proof {
            lemma_find_from(raw@, blank_line(), 0);
            lemma_find_from(raw@, crlf(), 0);
        }
        let (m, path, version) = match split_start_line(&raw[0..p]) {
            None => return Err(ParseError::MalformedStartLine),
            Some(t) => t,
        };
        let method = match HttpMethod::from_token(m) {
            None => return Err(ParseError::UnknownMethod),
            Some(x) => x,
        };
        let block: &[u8] = if q >= p + 2 {
            &raw[p + 2..q]
        } else {
            &raw[q..q]
        };
        assert(block@ =~= request_parts(raw@)->Ok_0.3);
        let headers = parse_headers(block);
        let body = slice_to_vec(&raw[q + 4..raw.len()]);
        let path = text_of(path);
        let version = text_of(version);
        Ok(HttpRequest { method, path, version, headers, body })
    }
}

/// Splits a start line into its three tokens.
fn split_start_line(line: &[u8]) -> (r: Option<(&[u8], &[u8], &[u8])>)
    ensures
        match start_tokens(line@) {
            Some(t) => r matches Some(x) && x.0@ == t.0 && x.1@ == t.1 && x.2@ == t.2,
            None => r is None,
        },
{
    let n: usize = line.len();
    let sp: [u8; 1] = [32u8];
    assert(sp@ =~= space());
    let a = match find_from_exec(line, &sp, 0) {
        None => return None,
        Some(a) => a,
    };
    proof {
        lemma_find_from(line@, space(), 0);
    }
    let b = match find_from_exec(line, &sp, a + 1) {
        None => return None,
        Some(b) => b,
    };
    proof {
        lemma_find_from(line@, space(), (a + 1) as nat);
    }
    if find_from_exec(line, &sp, b + 1).is_some() {
        return None;
    }
    Some((&line[0..a], &line[a + 1..b], &line[b + 1..line.len()]))
}

/// A line without the carriage return that may end it.
fn strip_cr_exec(line: &[u8]) -> (r: &[u8])
    ensures
        r@ == strip_cr(line@),
{
    let n = line.len();
    if n > 0 && line[n - 1] == 13u8 {
        &line[0..n - 1]
    } else {
        line
    }
}

/// Splits a header line at its first `": "`.
fn split_field_exec(line: &[u8]) -> (r: Option<(&[u8], &[u8])>)
    ensures
        match split_field(line@) {
            Some(f) => r matches Some(x) && x.0@ == f.0 && x.1@ == f.1,
            None => r is None,
        },
{
    let n: usize = line.len();
    let sep: [u8; 2] = [58u8, 32];
    assert(sep@ =~= field_separator());
    match find_from_exec(line, &sep, 0) {
        None => None,
        Some(c) => {
            proof {
                lemma_find_from(line@, field_separator(), 0);
            }
            Some((&line[0..c], &line[c + 2..line.len()]))
        },
    }
}

/// Reads every header line of the header block into a map.
fn parse_headers(block: &[u8]) -> (h: HeaderMap)
    ensures
        h.wf(),
        h@ == header_map(header_fields(block@)),
{
    let lf: [u8; 1] = [10u8];
    assert(lf@ =~= line_feed());
    let n: usize = block.len();
    let mut h = HeaderMap::new();
    let mut pos: usize = 0;
    let ghost mut done: Seq<(Seq<u8>, Seq<u8>)> = Seq::empty();
    assert(header_fields(block@) =~= done + header_fields_from(block@, 0));
    loop
        invariant_except_break
            pos <= block@.len(),
            header_fields(block@) == done + header_fields_from(block@, pos as nat),
        invariant
            h.wf(),
            h@ == header_map(done),
            lf@ == line_feed(),
            n == block@.len(),
        ensures
            header_fields(block@) == done,
        decreases block@.len() + 1 - pos,
    {
        let next = find_from_exec(block, &lf, pos);
        proof {
            lemma_find_from(block@, line_feed(), pos as nat);
        }
        let end = match next {
            Some(k) => k,
            None => block.len(),
        };
        let line = strip_cr_exec(&block[pos..end]);
        let ghost fs = field_seq(block@.subrange(pos as int, end as int));
        let ghost before = done;
        match split_field_exec(line) {
            Some((name, value)) => {
                let ghost f = (name@, value@);
                h.insert(text_of(name), text_of(value));
                proof {
                    done = done.push(f);
                    assert(done.drop_last() =~= before);
                    assert(fs =~= seq![f]);
                }
            },
            None => {
                assert(fs =~= Seq::<(Seq<u8>, Seq<u8>)>::empty());
            },
        }
        assert(done =~= before + fs);
        match next {
            None => {
                assert(header_fields_from(block@, pos as nat) == fs);
                assert(before + fs =~= done);
                break ;
            },
            Some(k) => {
                assert(header_fields_from(block@, pos as nat) == fs + header_fields_from(
                    block@,
                    (k + 1) as nat,
                ));
                assert(before + (fs + header_fields_from(block@, (k + 1) as nat)) =~= done
                    + header_fields_from(block@, (k + 1) as nat));
                pos = k + 1;
            },
        }
    }
    h
}

} // verus!
