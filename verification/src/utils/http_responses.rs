use vstd::prelude::*;
use vstd::string::StringSliceAdditionalSpecFns;

use super::parsing::{lemma_parse_number_reads_decimal, spec_parse_number};

verus! {

/// The decimal digits of `n`, most significant first.
pub open spec fn decimal(n: nat) -> Seq<u8>
    decreases n,
{
    if n < 10 {
        seq![(0x30 + n) as u8]
    } else {
        decimal(n / 10) + seq![(0x30 + n % 10) as u8]
    }
}

/// The digits of `n` in decimal.
pub fn format_decimal(n: usize) -> (r: Vec<u8>)
    ensures
        r@ == decimal(n as nat),
    decreases n,
{
    if n < 10 {
        let mut r: Vec<u8> = Vec::new();
        r.push(0x30 + n as u8);
        r
    } else {
        let mut r = format_decimal(n / 10);
        r.push(0x30 + (n % 10) as u8);
        r
    }
}

fn append_bytes(out: &mut Vec<u8>, src: &[u8])
    ensures
        final(out)@ == old(out)@ + src@,
{
    let ghost start = out@;
    let n = src.len();
    let mut i: usize = 0;
    while i < n
        invariant
            n == src@.len(),
            i <= n,
            out@ == start + src@.take(i as int),
        decreases n - i,
    {
        out.push(src[i]);
        i += 1;
        assert(src@.take(i as int) == src@.take(i - 1) + seq![src@[i - 1]]);
    }
    assert(src@.take(n as int) == src@);
}

/// A complete plain-text response: the head up to the `Content-Length`
/// value, that value, the end of the head, then the body.
pub open spec fn response(head: Seq<u8>, body: Seq<u8>) -> Seq<u8> {
    head + decimal(body.len()) + "\r\n\r\n".spec_bytes() + body
}

/// The name of the server with its version, as it appears in responses.
pub open spec fn server_ver(version: Seq<u8>) -> Seq<u8> {
    "Neogrok/".spec_bytes() + version
}

pub open spec fn not_found_body(version: Seq<u8>) -> Seq<u8> {
    "Not found\r\n".spec_bytes() + server_ver(version)
}

pub open spec fn not_found_head(version: Seq<u8>) -> Seq<u8> {
    "HTTP/1.1 404 Not Found\r\nConnection: close\r\nContent-Type: text/plain\r\nServer: ".spec_bytes()
        + server_ver(version) + "\r\nContent-Length: ".spec_bytes()
}

pub open spec fn bad_request_body(version: Seq<u8>) -> Seq<u8> {
    "Bad request\n".spec_bytes() + server_ver(version)
}

pub open spec fn bad_request_head(version: Seq<u8>) -> Seq<u8> {
    "HTTP/1.1 400 Bad Request\r\nConnection: close\r\nContent-Type: text/plain\r\nServer: Neogrok/".spec_bytes()
        + version + "\r\nContent-Length: ".spec_bytes()
}

fn complete_response(head: Vec<u8>, body: Vec<u8>) -> (r: Vec<u8>)
    ensures
        r@ == response(head@, body@),
{
    let mut out = head;
    let len = format_decimal(body.len());
    append_bytes(&mut out, len.as_slice());
    append_bytes(&mut out, "\r\n\r\n".as_bytes());
    append_bytes(&mut out, body.as_slice());
    out
}

/// The response to a request for an unknown endpoint, for server version
/// `version`; its `Content-Length` is the length of its body.
pub fn http_not_found(version: &[u8]) -> (r: Vec<u8>)
    ensures
        r@ == response(not_found_head(version@), not_found_body(version@)),
{
    let mut body: Vec<u8> = Vec::new();
    append_bytes(&mut body, "Not found\r\n".as_bytes());
    append_bytes(&mut body, "Neogrok/".as_bytes());
    append_bytes(&mut body, version);
    let mut head: Vec<u8> = Vec::new();
    append_bytes(
        &mut head,
        "HTTP/1.1 404 Not Found\r\nConnection: close\r\nContent-Type: text/plain\r\nServer: ".as_bytes(),
    );
    append_bytes(&mut head, "Neogrok/".as_bytes());
    append_bytes(&mut head, version);
    append_bytes(&mut head, "\r\nContent-Length: ".as_bytes());
    complete_response(head, body)
}

/// The response to a malformed request, for server version `version`; its
/// `Content-Length` is the length of its body.
pub fn http_bad_request(version: &[u8]) -> (r: Vec<u8>)
    ensures
        r@ == response(bad_request_head(version@), bad_request_body(version@)),
{
    let mut body: Vec<u8> = Vec::new();
    append_bytes(&mut body, "Bad request\n".as_bytes());
    append_bytes(&mut body, "Neogrok/".as_bytes());
    append_bytes(&mut body, version);
    let mut head: Vec<u8> = Vec::new();
    append_bytes(
        &mut head,
        "HTTP/1.1 400 Bad Request\r\nConnection: close\r\nContent-Type: text/plain\r\nServer: Neogrok/".as_bytes(),
    );
    append_bytes(&mut head, version);
    append_bytes(&mut head, "\r\nContent-Length: ".as_bytes());
    complete_response(head, body)
}


/// The `Content-Length` value of a response reads back, with
/// `parse_number`, as the length of the body that follows the head.
pub proof fn lemma_content_length_reads_back(head: Seq<u8>, body: Seq<u8>)
    requires
        body.len() <= u64::MAX,
    ensures
        response(head, body).take((head.len() + decimal(body.len()).len()) as int).skip(head.len() as int)
            == decimal(body.len()),
        spec_parse_number(decimal(body.len())) == Some(body.len() as u64),
        response(head, body).skip(response(head, body).len() - body.len()) == body,
{
    lemma_parse_number_reads_decimal(body.len() as u64);
    let r = response(head, body);
    let d = decimal(body.len());
    assert(r.take((head.len() + d.len()) as int).skip(head.len() as int) =~= d);
    assert(r.skip(r.len() - body.len()) =~= body);
}

} // verus!
