//! The instrument's line protocol: the byte forms written to it, how a line
//! read from it is trimmed, and how its port is recognised.
use vstd::prelude::*;
use vstd::string::*;
use vstd::utf8::encode_utf8;

verus! {

/// A payload of this many bytes or more is sent in the delimited form.
pub const CHUNK_LIMIT: usize = 64;

/// The USB product string that the instrument reports.
pub const DEVICE_ID: &'static str = "crow: telephone line";

/// The serial line speed of the instrument.
pub const BAUD_RATE: u32 = 115200;

pub const NEWLINE: u8 = 10;

pub const BACKTICK: u8 = 96;

pub const CARET: u8 = 94;

pub const LETTER_S: u8 = 115;

pub const LETTER_E: u8 = 101;

/// The fence around a delimited block: three backticks.
pub open spec fn fence() -> Seq<u8> {
    seq![BACKTICK, BACKTICK, BACKTICK]
}

/// The marker that opens a script upload: `^^s`.
pub open spec fn script_start() -> Seq<u8> {
    seq![CARET, CARET, LETTER_S]
}

/// The marker that runs an uploaded script: `^^e`.
pub open spec fn script_end() -> Seq<u8> {
    seq![CARET, CARET, LETTER_E]
}

/// A plain line: the text, then a newline.
pub open spec fn plain_form(text: Seq<u8>) -> Seq<u8> {
    text + seq![NEWLINE]
}

/// A delimited block: the text fenced by backticks, then a newline.
pub open spec fn delimited_form(text: Seq<u8>) -> Seq<u8> {
    fence() + text + fence() + seq![NEWLINE]
}

/// A script upload: the start marker, the script, the run marker, a newline.
pub open spec fn script_form(script: Seq<u8>) -> Seq<u8> {
    script_start() + script + script_end() + seq![NEWLINE]
}

/// The form in which a payload is forwarded: delimited from `CHUNK_LIMIT`
/// bytes on, a plain line below that.
pub open spec fn chunk_form(text: Seq<u8>) -> Seq<u8> {
    if text.len() >= CHUNK_LIMIT {
        delimited_form(text)
    } else {
        plain_form(text)
    }
}

fn push_all(writer: &mut Vec<u8>, bytes: &[u8])
    ensures
        final(writer)@ == old(writer)@ + bytes@,
{
    let ghost start = writer@;
    let mut i: usize = 0;
    while i < bytes.len()
        invariant
            i <= bytes@.len(),
            writer@ == start + bytes@.subrange(0, i as int),
        decreases bytes@.len() - i,
    {
        writer.push(bytes[i]);
        i = i + 1;
        assert(writer@ =~= start + bytes@.subrange(0, i as int));
    }
    assert(bytes@.subrange(0, bytes@.len() as int) =~= bytes@);
}

fn push_three(writer: &mut Vec<u8>, a: u8, b: u8, c: u8)
    ensures
        final(writer)@ == old(writer)@ + seq![a, b, c],
{
    writer.push(a);
    writer.push(b);
    writer.push(c);
    assert(writer@ =~= old(writer)@ + seq![a, b, c]);
}

/// Appends `chunk` as a plain line.
pub fn write_all(writer: &mut Vec<u8>, chunk: &[u8])
    ensures
        final(writer)@ == old(writer)@ + plain_form(chunk@),
{
    push_all(writer, chunk);
    writer.push(NEWLINE);
    assert(writer@ =~= old(writer)@ + plain_form(chunk@));
}

/// Appends `chunk` as a delimited block.
pub fn write_delimited(writer: &mut Vec<u8>, chunk: &[u8])
    ensures
        final(writer)@ == old(writer)@ + delimited_form(chunk@),
{
    push_three(writer, BACKTICK, BACKTICK, BACKTICK);
    push_all(writer, chunk);
    push_three(writer, BACKTICK, BACKTICK, BACKTICK);
    writer.push(NEWLINE);
    assert(writer@ =~= old(writer)@ + delimited_form(chunk@));
}

/// Appends `script` as a script upload, with no change to its text.
pub fn write_script(writer: &mut Vec<u8>, script: &[u8])
    ensures
        final(writer)@ == old(writer)@ + script_form(script@),
{
    push_three(writer, CARET, CARET, LETTER_S);
    push_all(writer, script);
    push_three(writer, CARET, CARET, LETTER_E);
    writer.push(NEWLINE);
    assert(writer@ =~= old(writer)@ + script_form(script@));
}

/// Appends `chunk` in the form that its length calls for.
pub fn write_chunk(writer: &mut Vec<u8>, chunk: &[u8])
    ensures
        final(writer)@ == old(writer)@ + chunk_form(chunk@),
{
    if chunk.len() >= CHUNK_LIMIT {
        write_delimited(writer, chunk);
    } else {
        write_all(writer, chunk);
    }
}

/// A payload of `CHUNK_LIMIT` bytes or more goes out fenced, a shorter one
/// as a plain line, and the two forms of one payload never coincide.
pub proof fn lemma_delimiter_threshold(text: Seq<u8>)
    ensures
        text.len() >= CHUNK_LIMIT ==> chunk_form(text) == delimited_form(text),
        text.len() < CHUNK_LIMIT ==> chunk_form(text) == plain_form(text),
        delimited_form(text) != plain_form(text),
        delimited_form(text).len() == text.len() + 7,
        plain_form(text).len() == text.len() + 1,
{
    assert(delimited_form(text).len() != plain_form(text).len());
}

/// Whether a line typed at the prompt ends the prompt session.
pub open spec fn is_exit(line: Seq<char>) -> bool {
    line == "exit"@
}

/// Takes one line typed at the prompt: `exit` ends the session and writes
/// nothing; any other line is appended in the form that its length calls
/// for. Returns whether the session goes on.
pub fn submit_line(writer: &mut Vec<u8>, line: &str) -> (go_on: bool)
    ensures
        go_on == !is_exit(line@),
        go_on ==> final(writer)@ == old(writer)@ + chunk_form(encode_utf8(line@)),
        !go_on ==> final(writer)@ == old(writer)@,
{
    if same_text(line, "exit") {
        false
    } else {
        write_chunk(writer, line.as_bytes());
        true
    }
}

/// The bytes that forward `chunk` to the instrument.
pub fn chunk_bytes(chunk: &[u8]) -> (r: Vec<u8>)
    ensures
        r@ == chunk_form(chunk@),
{
    let mut r: Vec<u8> = Vec::new();
    write_chunk(&mut r, chunk);
    assert(r@ =~= chunk_form(chunk@));
    r
}

/// A line as read from the instrument, with its terminator taken off: a
/// final newline, and a carriage return just before it.
pub open spec fn line_body(raw: Seq<char>) -> Seq<char> {
    if raw.len() >= 2 && raw.last() == '\n' && raw[raw.len() - 2] == '\r' {
        raw.subrange(0, raw.len() - 2)
    } else if raw.len() >= 1 && raw.last() == '\n' {
        raw.subrange(0, raw.len() - 1)
    } else {
        raw
    }
}

/// The text of a line read from the instrument, without its terminator.
pub fn strip_line_end(raw: &str) -> (r: String)
    ensures
        r@ == line_body(raw@),
{
    let n = raw.unicode_len();
    let mut end = n;
    if n >= 1 && raw.get_char(n - 1) == '\n' {
        end = n - 1;
        if n >= 2 && raw.get_char(n - 2) == '\r' {
            end = n - 2;
        }
    }
    let body = raw.substring_char(0, end);
    let r = body.to_owned();
    assert(r@ =~= line_body(raw@));
    r
}

/// Whether two texts hold the same characters.
pub fn same_text(a: &str, b: &str) -> (r: bool)
    ensures
        r == (a@ == b@),
{
    let n = a.unicode_len();
    if n != b.unicode_len() {
        return false;
    }
    let mut i: usize = 0;
    while i < n
        invariant
            i <= n,
            n == a@.len(),
            n == b@.len(),
            a@.subrange(0, i as int) == b@.subrange(0, i as int),
        decreases n - i,
    {
        if a.get_char(i) != b.get_char(i) {
            assert(a@[i as int] != b@[i as int]);
            return false;
        }
        assert(a@.subrange(0, i + 1) =~= a@.subrange(0, i as int).push(a@[i as int]));
        assert(b@.subrange(0, i + 1) =~= b@.subrange(0, i as int).push(b@[i as int]));
        i = i + 1;
    }
    assert(a@ =~= a@.subrange(0, n as int));
    assert(b@ =~= b@.subrange(0, n as int));
    true
}

/// A serial port as the system lists it: its path, and the product string
/// that a USB port reports.
#[derive(Debug, Clone, PartialEq, Eq)]
pub struct PortInfo {
    pub port_name: String,
    pub product: Option<String>,
}

/// Whether `port` is the instrument.
pub open spec fn is_device(port: PortInfo) -> bool {
    port.product matches Some(p) && p@ == DEVICE_ID@
}

/// The first listed port that is the instrument, if any.
pub fn find_device(ports: &Vec<PortInfo>) -> (r: Option<usize>)
    ensures
        r matches Some(i) ==> i < ports@.len() && is_device(ports@[i as int]) && forall|j: int|
            0 <= j < i ==> !is_device(#[trigger] ports@[j]),
        r is None ==> forall|j: int| 0 <= j < ports@.len() ==> !is_device(#[trigger] ports@[j]),
{
    let mut i: usize = 0;
    while i < ports.len()
        invariant
            i <= ports@.len(),
            forall|j: int| 0 <= j < i ==> !is_device(#[trigger] ports@[j]),
        decreases ports@.len() - i,
    {
        let found = match &ports[i].product {
            Some(p) => same_text(p.as_str(), DEVICE_ID),
            None => false,
        };
        if found {
            return Some(i);
        }
        i = i + 1;
    }
    None
}

} // verus!
