//! What is said to the inference daemon: its local addresses, the manifest
//! that registers a weights file, the functional probe's request body, the
//! command lines that create and delete a tag, and how its listing is read.

use vstd::prelude::*;
use crate::digest::hex_digit;
use crate::text::{chars_of, contains_seq, contains_str, decimal_seq, push_char, push_decimal};

verus! {

/// `127.0.0.1:<port>`, the daemon's host setting.
pub open spec fn host_address_spec(port: u16) -> Seq<char> {
    "127.0.0.1:"@ + decimal_seq(port as nat)
}

/// `127.0.0.1:<port>`, the value of the daemon's host variable.
pub fn host_address(port: u16) -> (r: String)
    ensures
        r@ == host_address_spec(port),
{
    let mut s = String::from_str("127.0.0.1:");
    push_decimal(&mut s, port as u64);
    s
}

/// `http://127.0.0.1:<port><path>`.
pub open spec fn local_url_spec(port: u16, path: Seq<char>) -> Seq<char> {
    "http://127.0.0.1:"@ + decimal_seq(port as nat) + path
}

/// The URL of `path` on the local service listening on `port`.
pub fn local_url(port: u16, path: &str) -> (r: String)
    ensures
        r@ == local_url_spec(port, path@),
{
    let mut s = String::from_str("http://127.0.0.1:");
    push_decimal(&mut s, port as u64);
    s.append(path);
    s
}

/// The daemon's listing of tags.
pub fn tags_url(port: u16) -> (r: String)
    ensures
        r@ == local_url_spec(port, "/api/tags"@),
{
    local_url(port, "/api/tags")
}

/// The daemon's chat endpoint, used by the functional probe.
pub fn chat_url(port: u16) -> (r: String)
    ensures
        r@ == local_url_spec(port, "/api/chat"@),
{
    local_url(port, "/api/chat")
}

/// The tag between double quotes, as it appears in the listing.
pub open spec fn quoted(tag: Seq<char>) -> Seq<char> {
    seq!['"'] + tag + seq!['"']
}

/// Whether the raw listing mentions the tag: the quoted tag occurs in it.
pub fn listing_mentions_tag(body: &str, tag: &str) -> (r: bool)
    ensures
        r == contains_seq(body@, quoted(tag@)),
{
    let mut q = String::new();
    push_char(&mut q, '"');
    q.append(tag);
    push_char(&mut q, '"');
    assert(q@ =~= quoted(tag@));
    contains_str(body, q.as_str())
}

/// `s` with a backslash put before each double quote.
pub open spec fn escape_quotes(s: Seq<char>) -> Seq<char>
    decreases s.len(),
{
    if s.len() == 0 {
        Seq::empty()
    } else if s.last() == '"' {
        escape_quotes(s.drop_last()) + seq!['\\', '"']
    } else {
        escape_quotes(s.drop_last()).push(s.last())
    }
}

/// The manifest line that registers a weights file.
pub open spec fn manifest_spec(weights: Seq<char>) -> Seq<char> {
    "FROM \""@ + escape_quotes(weights) + "\"\n"@
}

/// The manifest that registers the weights file at `weights`, with the
/// quotes inside the path escaped.
pub fn manifest_text(weights: &str) -> (r: String)
    ensures
        r@ == manifest_spec(weights@),
{
    let cs = chars_of(weights);
    let mut out = String::from_str("FROM \"");
    let ghost head = out@;
    let mut i: usize = 0;
    while i < cs.len()
        invariant
            cs@ == weights@,
            i <= cs@.len(),
            head == "FROM \""@,
            out@ == head + escape_quotes(cs@.subrange(0, i as int)),
        decreases cs@.len() - i,
    {
        let c = cs[i];
        proof {
            assert(cs@.subrange(0, i + 1).drop_last() =~= cs@.subrange(0, i as int));
        }
        if c == '"' {
            push_char(&mut out, '\\');
            push_char(&mut out, '"');
        } else {
            push_char(&mut out, c);
        }
        i = i + 1;
        assert(out@ =~= head + escape_quotes(cs@.subrange(0, i as int)));
    }
    assert(cs@.subrange(0, cs@.len() as int) =~= weights@);
    out.append("\"\n");
    assert(out@ =~= manifest_spec(weights@));
    out
}

/// How serde_json writes one character inside a string literal: quote and
/// backslash behind a backslash, the five common controls by their short
/// escapes, other controls below U+0020 as `\u00` and two lowercase hex
/// digits, and everything else as it is.
pub open spec fn json_escape(c: char) -> Seq<char> {
    if c == '"' {
        seq!['\\', '"']
    } else if c == '\\' {
        seq!['\\', '\\']
    } else if c == '\u{08}' {
        seq!['\\', 'b']
    } else if c == '\t' {
        seq!['\\', 't']
    } else if c == '\n' {
        seq!['\\', 'n']
    } else if c == '\u{0C}' {
        seq!['\\', 'f']
    } else if c == '\r' {
        seq!['\\', 'r']
    } else if (c as u32) < 0x20 {
        seq!['\\', 'u', '0', '0', hex_digit((c as u32) as nat / 16), hex_digit((c as u32) as nat % 16)]
    } else {
        seq![c]
    }
}

/// The escaped characters of `s`, in order.
pub open spec fn json_escaped(s: Seq<char>) -> Seq<char>
    decreases s.len(),
{
    if s.len() == 0 {
        Seq::empty()
    } else {
        json_escaped(s.drop_last()) + json_escape(s.last())
    }
}

/// What serde_json writes for a string: its escaped characters between
/// double quotes.
pub open spec fn json_string_of(s: Seq<char>) -> Seq<char> {
    seq!['"'] + json_escaped(s) + seq!['"']
}

/// Relies on `serde_json::to_string` on a string slice: the JSON string
/// literal of the text, quotes included. It writes into a `Vec`, and
/// serializing a string fails only on a write error, which a `Vec` never
/// gives, so it always succeeds.
#[verifier::external_body]
fn json_quote(s: &str) -> (r: Option<String>)
    ensures
        r is Some,
        r matches Some(q) ==> q@ == json_string_of(s@),
{
    serde_json::to_string(s).ok()
}

/// The probe's request body around the model's JSON string literal: one
/// user message, no streaming, keys in serde_json's sorted order.
pub open spec fn probe_body_spec(model_json: Seq<char>) -> Seq<char> {
    "{\"messages\":[{\"content\":\"hola\",\"role\":\"user\"}],\"model\":"@ + model_json
        + ",\"stream\":false}"@
}

/// The probe's request body, given the model tag already written as a JSON
/// string literal.
pub fn probe_body_with(model_json: &str) -> (r: String)
    ensures
        r@ == probe_body_spec(model_json@),
{
    let mut s = String::from_str("{\"messages\":[{\"content\":\"hola\",\"role\":\"user\"}],\"model\":");
    s.append(model_json);
    s.append(",\"stream\":false}");
    s
}

/// The functional probe's request body for `tag`.
pub fn probe_body(tag: &str) -> (r: String)
    ensures
        r@ == probe_body_spec(json_string_of(tag@)),
{
    match json_quote(tag) {
        Some(q) => probe_body_with(q.as_str()),
        None => String::new(),
    }
}

/// `rm <tag>`: the arguments that delete a tag.
pub fn remove_args(tag: &str) -> (r: Vec<String>)
    ensures
        r@.len() == 2,
        r@[0]@ == "rm"@,
        r@[1]@ == tag@,
{
    let mut v: Vec<String> = Vec::new();
    v.push(String::from_str("rm"));
    v.push(String::from_str(tag));
    v
}

/// `create <tag> -f <manifest>`: the arguments that create a tag from a
/// manifest file.
pub fn create_args(tag: &str, manifest: &str) -> (r: Vec<String>)
    ensures
        r@.len() == 4,
        r@[0]@ == "create"@,
        r@[1]@ == tag@,
        r@[2]@ == "-f"@,
        r@[3]@ == manifest@,
{
    let mut v: Vec<String> = Vec::new();
    v.push(String::from_str("create"));
    v.push(String::from_str(tag));
    v.push(String::from_str("-f"));
    v.push(String::from_str(manifest));
    v
}

} // verus!
