//! The frames of the streaming protocol.
//!
//! A text frame is a block of `Key: Value` lines joined by CRLF, a blank
//! line, and a body. An audio frame is a binary frame: the byte length of a
//! text header as a big-endian `u16`, the header's UTF-8 bytes, then the raw
//! audio bytes.

use crate::text::{chars_of, contains, find_in, first_at, first_index, is_space, lemma_first_index, occurs_at, trim, trim_range, trim_start};
use vstd::prelude::*;
use vstd::string::*;
use vstd::utf8::encode_utf8;
use crate::ident::{is_hex_id, is_timestamp};

verus! {

/// Why a frame could not be read or built.
#[derive(Clone, Copy, Debug, PartialEq, Eq, Structural)]
pub enum FrameError {
    /// The text holds no blank line between header and body.
    MissingSeparator,
    /// A header line holds no colon.
    MalformedHeader,
    /// The header of a binary frame is longer than a `u16` can count.
    HeaderTooLong,
}

/// One `Key: Value` line of a frame header.
#[derive(Clone, Debug)]
pub struct HeaderField {
    pub key: String,
    pub value: String,
}

impl View for HeaderField {
    type V = (Seq<char>, Seq<char>);

    open spec fn view(&self) -> (Seq<char>, Seq<char>) {
        (self.key@, self.value@)
    }
}

/// A decoded text frame: its header fields in order, and its body.
#[derive(Clone, Debug)]
pub struct TextFrame {
    pub headers: Vec<HeaderField>,
    pub body: String,
}

/// The pairs that a sequence of header fields holds.
pub open spec fn fields_view(hs: Seq<HeaderField>) -> Seq<(Seq<char>, Seq<char>)> {
    hs.map_values(|h: HeaderField| h@)
}

impl View for TextFrame {
    type V = (Seq<(Seq<char>, Seq<char>)>, Seq<char>);

    open spec fn view(&self) -> (Seq<(Seq<char>, Seq<char>)>, Seq<char>) {
        (fields_view(self.headers@), self.body@)
    }
}

pub open spec fn crlf() -> Seq<char> {
    seq!['\r', '\n']
}

pub open spec fn blank_line() -> Seq<char> {
    seq!['\r', '\n', '\r', '\n']
}

pub open spec fn colon() -> Seq<char> {
    seq![':']
}

/// The line `Key: Value` of one field.
pub open spec fn field_line(f: (Seq<char>, Seq<char>)) -> Seq<char> {
    f.0 + seq![':', ' '] + f.1
}

/// The field lines joined by CRLF.
pub open spec fn join_lines(fs: Seq<(Seq<char>, Seq<char>)>) -> Seq<char>
    decreases fs.len(),
{
    if fs.len() == 0 {
        Seq::empty()
    } else if fs.len() == 1 {
        field_line(fs[0])
    } else {
        field_line(fs[0]) + crlf() + join_lines(fs.drop_first())
    }
}

/// The text of the frame with header fields `fs` and body `body`.
pub open spec fn encode_text(fs: Seq<(Seq<char>, Seq<char>)>, body: Seq<char>) -> Seq<char> {
    join_lines(fs) + blank_line() + body
}

/// A header line split at its first colon, both sides trimmed.
pub open spec fn parse_field(line: Seq<char>) -> Option<(Seq<char>, Seq<char>)> {
    if contains(line, colon()) {
        let c = first_index(line, colon());
        Some((trim(line.subrange(0, c)), trim(line.subrange(c + 1, line.len() as int))))
    } else {
        None
    }
}

/// `Some(front + rest)` where `r` is `Some(rest)`.
pub open spec fn prepend(
    front: Seq<(Seq<char>, Seq<char>)>,
    r: Option<Seq<(Seq<char>, Seq<char>)>>,
) -> Option<Seq<(Seq<char>, Seq<char>)>> {
    match r {
        Some(rest) => Some(front + rest),
        None => None,
    }
}

/// The fields of a header block: its lines split at each CRLF, each line
/// parsed; `None` when a line holds no colon.
pub open spec fn parse_fields(h: Seq<char>) -> Option<Seq<(Seq<char>, Seq<char>)>>
    decreases h.len(),
{
    if contains(h, crlf()) {
        let i = first_index(h, crlf());
        match parse_field(h.subrange(0, i)) {
            Some(f) => prepend(seq![f], parse_fields(h.subrange(i + 2, h.len() as int))),
            None => None,
        }
    } else {
        match parse_field(h) {
            Some(f) => Some(seq![f]),
            None => None,
        }
    }
}

/// A text split at its first blank line: the fields of the part before, and
/// the whole part after as body.
pub open spec fn decode_text(t: Seq<char>) -> Result<
    (Seq<(Seq<char>, Seq<char>)>, Seq<char>),
    FrameError,
> {
    if contains(t, blank_line()) {
        let h = first_index(t, blank_line());
        match parse_fields(t.subrange(0, h)) {
            Some(fs) => Ok((fs, t.subrange(h + 4, t.len() as int))),
            None => Err(FrameError::MalformedHeader),
        }
    } else {
        Err(FrameError::MissingSeparator)
    }
}

/// Reads the header line `v[from..to]`, where `v` holds the characters of `text`.
fn read_field(v: &Vec<char>, text: &str, from: usize, to: usize) -> (r: Option<HeaderField>)
    requires
        from <= to <= v.len(),
        v@ == text@,
    ensures
        match r {
            Some(f) => parse_field(v@.subrange(from as int, to as int)) == Some(f@),
            None => parse_field(v@.subrange(from as int, to as int)) is None,
        },
{
    let ghost line = v@.subrange(from as int, to as int);
    let sep: Vec<char> = vec![':'];
    assert(sep@ =~= colon());
    match find_in(v, from, to, &sep) {
        None => None,
        Some(c) => {
            proof {
                lemma_first_index(line, colon(), c - from);
                assert(line.subrange(0, c - from) =~= v@.subrange(from as int, c as int));
                assert(line.subrange(c - from + 1, line.len() as int) =~= v@.subrange(
                    c + 1,
                    to as int,
                ));
            }
            let (ka, kb) = trim_range(v, from, c);
            let (va, vb) = trim_range(v, c + 1, to);
            let key = String::from_str(text.substring_char(ka, kb));
            let value = String::from_str(text.substring_char(va, vb));
            Some(HeaderField { key, value })
        },
    }
}

/// Reads the header block `v[0..end]`, where `v` holds the characters of `text`.
fn read_fields(v: &Vec<char>, text: &str, end: usize) -> (r: Option<Vec<HeaderField>>)
    requires
        end <= v.len(),
        v@ == text@,
    ensures
        match r {
            Some(fs) => parse_fields(v@.subrange(0, end as int)) == Some(fields_view(fs@)),
            None => parse_fields(v@.subrange(0, end as int)) is None,
        },
{
    let ghost whole = v@.subrange(0, end as int);
    let sep: Vec<char> = vec!['\r', '\n'];
    assert(sep@ =~= crlf());
    let mut acc: Vec<HeaderField> = Vec::new();
    let mut start: usize = 0;
    assert(fields_view(acc@) + fields_view(acc@) =~= fields_view(acc@));
    loop
        invariant
            start <= end <= v.len(),
            v@ == text@,
            sep@ == crlf(),
            whole == v@.subrange(0, end as int),
            parse_fields(whole) == prepend(
                fields_view(acc@),
                parse_fields(v@.subrange(start as int, end as int)),
            ),
        decreases end - start,
    {
        let ghost rest = v@.subrange(start as int, end as int);
        match find_in(v, start, end, &sep) {
            Some(i) => {
                proof {
                    lemma_first_index(rest, crlf(), i - start);
                    assert(rest.subrange(0, i - start) =~= v@.subrange(start as int, i as int));
                    assert(rest.subrange(i - start + 2, rest.len() as int) =~= v@.subrange(
                        i + 2,
                        end as int,
                    ));
                }
                match read_field(v, text, start, i) {
                    None => {
                        return None;
                    },
                    Some(f) => {
                        let ghost before = acc@;
                        acc.push(f);
                        proof {
                            assert(fields_view(acc@) =~= fields_view(before) + seq![f@]);
                            let tail = parse_fields(v@.subrange(i + 2, end as int));
                            if tail is Some {
                                assert(fields_view(before) + (seq![f@] + tail->0) =~= fields_view(
                                    acc@,
                                ) + tail->0);
                            }
                        }
                        start = i + 2;
                    },
                }
            },
            None => {
                match read_field(v, text, start, end) {
                    None => {
                        return None;
                    },
                    Some(f) => {
                        let ghost before = acc@;
                        acc.push(f);
                        assert(fields_view(acc@) =~= fields_view(before) + seq![f@]);
                        return Some(acc);
                    },
                }
            },
        }
    }
}

/// Splits a text frame into its header fields and body.
///
/// The header ends at the first blank line (`\r\n\r\n`); its lines are split
/// at each CRLF, and each line at its first colon into a key and a value,
/// both trimmed of white space. Everything after the blank line is the body.
pub fn decode_text_frame(text: &str) -> (r: Result<TextFrame, FrameError>)
    ensures
        match r {
            Ok(f) => decode_text(text@) == Ok::<_, FrameError>(f@),
            Err(e) => decode_text(text@) == Err::<(Seq<(Seq<char>, Seq<char>)>, Seq<char>), _>(e),
        },
{
    let v = chars_of(text);
    let n = v.len();
    let blank: Vec<char> = vec!['\r', '\n', '\r', '\n'];
    assert(blank@ =~= blank_line());
    assert(v@.subrange(0, n as int) =~= v@);
    match find_in(&v, 0, n, &blank) {
        None => Err(FrameError::MissingSeparator),
        Some(h) => {
            proof {
                lemma_first_index(v@, blank_line(), h as int);
            }
            match read_fields(&v, text, h) {
                None => Err(FrameError::MalformedHeader),
                Some(headers) => {
                    let body = String::from_str(text.substring_char(h + 4, n));
                    Ok(TextFrame { headers, body })
                },
            }
        },
    }
}

/// Joining one more line onto a non-empty block adds a CRLF and that line.
proof fn lemma_join_push(fs: Seq<(Seq<char>, Seq<char>)>, f: (Seq<char>, Seq<char>))
    requires
        fs.len() > 0,
    ensures
        join_lines(fs.push(f)) == join_lines(fs) + crlf() + field_line(f),
    decreases fs.len(),
{
    assert(fs.push(f)[0] == fs[0]);
    if fs.len() == 1 {
        assert(fs.push(f).drop_first() =~= seq![f]);
        assert(join_lines(seq![f]) == field_line(f));
    } else {
        assert(fs.push(f).drop_first() =~= fs.drop_first().push(f));
        lemma_join_push(fs.drop_first(), f);
        assert(join_lines(fs.push(f)) =~= join_lines(fs) + crlf() + field_line(f));
    }
}

/// Writes a text frame: the header fields as `Key: Value` lines joined by
/// CRLF, a blank line, then the body.
pub fn encode_text_frame(headers: &Vec<HeaderField>, body: &str) -> (r: String)
    ensures
        r@ == encode_text(fields_view(headers@), body@),
{
    proof {
        reveal_strlit("\r\n");
        reveal_strlit(": ");
        reveal_strlit("\r\n\r\n");
        assert("\r\n"@ =~= crlf());
        assert(": "@ =~= seq![':', ' ']);
        assert("\r\n\r\n"@ =~= blank_line());
    }
    let mut out = String::new();
    let mut i: usize = 0;
    while i < headers.len()
        invariant
            i <= headers.len(),
            "\r\n"@ == crlf(),
            ": "@ == seq![':', ' '],
            out@ == join_lines(fields_view(headers@.subrange(0, i as int))),
        decreases headers.len() - i,
    {
        let ghost before = out@;
        let ghost prefix = fields_view(headers@.subrange(0, i as int));
        let f = &headers[i];
        if i > 0 {
            out.append("\r\n");
        }
        out.append(f.key.as_str());
        out.append(": ");
        out.append(f.value.as_str());
        proof {
            assert(fields_view(headers@.subrange(0, i + 1)) =~= prefix.push(f@));
            if i == 0 {
                assert(out@ =~= field_line(f@));
            } else {
                lemma_join_push(prefix, f@);
                assert(out@ =~= before + crlf() + field_line(f@));
            }
        }
        i += 1;
    }
    assert(headers@.subrange(0, headers.len() as int) =~= headers@);
    out.append("\r\n\r\n");
    out.append(body);
    assert(out@ =~= encode_text(fields_view(headers@), body@));
    out
}

/// `s` holds neither CR nor LF.
pub open spec fn single_line(s: Seq<char>) -> bool {
    forall|i: int| 0 <= i < s.len() ==> s[i] != '\r' && s[i] != '\n'
}

/// A field that a header line carries unchanged: key and value on one line,
/// no colon in the key, no white space at either end of either.
pub open spec fn well_formed_field(f: (Seq<char>, Seq<char>)) -> bool {
    &&& single_line(f.0)
    &&& single_line(f.1)
    &&& forall|i: int| 0 <= i < f.0.len() ==> f.0[i] != ':'
    &&& trim(f.0) == f.0
    &&& trim(f.1) == f.1
}

/// A non-empty list of well-formed fields.
pub open spec fn well_formed_fields(fs: Seq<(Seq<char>, Seq<char>)>) -> bool {
    &&& fs.len() > 0
    &&& forall|i: int| 0 <= i < fs.len() ==> well_formed_field(#[trigger] fs[i])
}

/// Every CR of `s` starts a CRLF that a character other than CR follows.
spec fn lone_line_breaks(s: Seq<char>) -> bool {
    forall|p: int|
        0 <= p < s.len() && #[trigger] s[p] == '\r' ==> p + 2 < s.len() && s[p + 1] == '\n' && s[p + 2]
            != '\r'
}

/// The line of a well-formed field reads back as that field.
proof fn lemma_field_line(f: (Seq<char>, Seq<char>))
    requires
        well_formed_field(f),
    ensures
        parse_field(field_line(f)) == Some(f),
        single_line(field_line(f)),
        field_line(f).len() >= 2,
        field_line(f)[0] != '\r',
{
    let line = field_line(f);
    let k = f.0.len() as int;
    assert(line[k] == ':');
    assert(line.subrange(k, k + 1) =~= colon());
    assert forall|j: int| 0 <= j < k implies !occurs_at(line, colon(), j) by {
        assert(line.subrange(j, j + 1)[0] == f.0[j]);
    }
    lemma_first_index(line, colon(), k);
    assert(line.subrange(0, k) =~= f.0);
    let rest = line.subrange(k + 1, line.len() as int);
    assert(rest[0] == ' ');
    assert(rest.drop_first() =~= f.1);
    assert(is_space(' '));
    assert(trim_start(rest) == trim_start(f.1));
}

/// A block of well-formed lines starts with a character other than CR and
/// holds CR only in CRLF line breaks between non-empty lines.
proof fn lemma_join_shape(fs: Seq<(Seq<char>, Seq<char>)>)
    requires
        well_formed_fields(fs),
    ensures
        join_lines(fs).len() > 0,
        join_lines(fs)[0] != '\r',
        lone_line_breaks(join_lines(fs)),
        parse_fields(join_lines(fs)) == Some(fs),
    decreases fs.len(),
{
    let line = field_line(fs[0]);
    lemma_field_line(fs[0]);
    let j = join_lines(fs);
    if fs.len() == 1 {
        assert(j == line);
        assert forall|i: int| !first_at(j, crlf(), i) by {
            if first_at(j, crlf(), i) {
                assert(j.subrange(i, i + 2)[0] == j[i]);
            }
        }
        assert(fs =~= seq![fs[0]]);
    } else {
        let rest = fs.drop_first();
        assert(well_formed_fields(rest)) by {
            assert forall|i: int| 0 <= i < rest.len() implies well_formed_field(#[trigger] rest[i]) by {
                assert(rest[i] == fs[i + 1]);
            }
        }
        lemma_join_shape(rest);
        let jr = join_lines(rest);
        let n = line.len() as int;
        assert(j == line + crlf() + jr);
        assert(j[0] == line[0]);
        assert forall|p: int|
            0 <= p < j.len() && #[trigger] j[p] == '\r' implies p + 2 < j.len() && j[p + 1] == '\n' && j[p
            + 2] != '\r' by {
            if p < n {
                assert(j[p] == line[p]);
            } else if p == n {
                assert(j[p + 2] == jr[0]);
            } else if p > n + 1 {
                assert(j[p] == jr[p - n - 2]);
                assert(j[p + 1] == jr[p - n - 1]);
                assert(j[p + 2] == jr[p - n]);
            }
        }
        assert(j.subrange(n, n + 2) =~= crlf());
        assert forall|i: int| 0 <= i < n implies !occurs_at(j, crlf(), i) by {
            assert(j.subrange(i, i + 2)[0] == j[i]);
            assert(j[i] == line[i]);
        }
        lemma_first_index(j, crlf(), n);
        assert(j.subrange(0, n) =~= line);
        assert(j.subrange(n + 2, j.len() as int) =~= jr);
        assert(seq![fs[0]] + rest =~= fs);
    }
}

/// Round trip of text frames: reading the frame written from well-formed
/// header fields and any body gives back exactly those fields and that
/// body, and writing what was read gives back the same text.
pub proof fn lemma_text_frame_round_trip(fs: Seq<(Seq<char>, Seq<char>)>, body: Seq<char>)
    requires
        well_formed_fields(fs),
    ensures
        decode_text(encode_text(fs, body)) == Ok::<_, FrameError>((fs, body)),
        encode_text(decode_text(encode_text(fs, body))->Ok_0.0, decode_text(encode_text(fs, body))->Ok_0.1)
            == encode_text(fs, body),
{
    lemma_join_shape(fs);
    let j = join_lines(fs);
    let t = encode_text(fs, body);
    let n = j.len() as int;
    assert(t.subrange(n, n + 4) =~= blank_line());
    assert forall|i: int| 0 <= i < n implies !occurs_at(t, blank_line(), i) by {
        if occurs_at(t, blank_line(), i) {
            let w = t.subrange(i, i + 4);
            assert(w[0] == t[i] && w[1] == t[i + 1] && w[2] == t[i + 2]);
            assert(t[i] == j[i]);
            if i + 2 < n {
                assert(t[i + 2] == j[i + 2]);
            }
            if i + 1 < n {
                assert(t[i + 1] == j[i + 1]);
            }
        }
    }
    lemma_first_index(t, blank_line(), n);
    assert(t.subrange(0, n) =~= j);
    assert(t.subrange(n + 4, t.len() as int) =~= body);
}

/// The binary frame that carries header bytes `h` and payload `a`: the
/// length of `h` as a big-endian `u16`, then `h`, then `a`.
pub open spec fn binary_frame(h: Seq<u8>, a: Seq<u8>) -> Seq<u8> {
    seq![(h.len() / 256) as u8, (h.len() % 256) as u8] + h + a
}

/// Appends `src` to `dst`.
pub(crate) fn push_all(dst: &mut Vec<u8>, src: &[u8])
    ensures
        final(dst)@ == old(dst)@ + src@,
{
    let ghost start = dst@;
    let mut i: usize = 0;
    while i < src.len()
        invariant
            i <= src.len(),
            dst@ == start + src@.subrange(0, i as int),
        decreases src.len() - i,
    {
        dst.push(src[i]);
        assert(src@.subrange(0, i + 1) =~= src@.subrange(0, i as int).push(src@[i as int]));
        i += 1;
    }
    assert(src@.subrange(0, src.len() as int) =~= src@);
}

/// Writes a binary frame: the UTF-8 length of `header` in two big-endian
/// bytes, the header's bytes, then `payload`. A header of 65536 bytes or more
/// cannot be counted in two bytes and is refused.
pub fn encode_binary_frame(header: &str, payload: &[u8]) -> (r: Result<Vec<u8>, FrameError>)
    ensures
        match r {
            Ok(v) => header.spec_bytes().len() < 65536 && v@ == binary_frame(
                header.spec_bytes(),
                payload@,
            ),
            Err(e) => header.spec_bytes().len() >= 65536 && e == FrameError::HeaderTooLong,
        },
{
    let bytes = header.as_bytes();
    let n = bytes.len();
    if n >= 65536 {
        return Err(FrameError::HeaderTooLong);
    }
    let ghost hb = header.spec_bytes();
    assert(n == hb.len());
    let mut out: Vec<u8> = Vec::new();
    out.push((n / 256) as u8);
    out.push((n % 256) as u8);
    assert(out@ =~= seq![(hb.len() / 256) as u8, (hb.len() % 256) as u8]);
    push_all(&mut out, bytes);
    push_all(&mut out, payload);
    assert(out@ =~= binary_frame(header.spec_bytes(), payload@));
    Ok(out)
}

/// Reading the length prefix of a binary frame gives back the header's
/// length exactly, and the header and payload follow it in order.
pub proof fn lemma_binary_frame_layout(h: Seq<u8>, a: Seq<u8>)
    requires
        h.len() < 65536,
    ensures
        binary_frame(h, a).len() == 2 + h.len() + a.len(),
        binary_frame(h, a)[0] as int * 256 + binary_frame(h, a)[1] as int == h.len(),
        binary_frame(h, a).subrange(2, 2 + h.len() as int) == h,
        binary_frame(h, a).subrange(2 + h.len() as int, binary_frame(h, a).len() as int) == a,
{
    let f = binary_frame(h, a);
    let n = h.len() as int;
    assert(n / 256 < 256 && (n / 256) * 256 + n % 256 == n) by (nonlinear_arith)
        requires
            0 <= n < 65536,
    ;
    assert(f.subrange(2, 2 + n) =~= h);
    assert(f.subrange(2 + n, f.len() as int) =~= a);
}

/// The header fields of a configuration frame.
pub open spec fn config_fields(request_id: Seq<char>, timestamp: Seq<char>) -> Seq<
    (Seq<char>, Seq<char>),
> {
    seq![
        ("Path"@, "speech.config"@),
        ("X-RequestId"@, request_id),
        ("X-Timestamp"@, timestamp),
        ("Content-Type"@, "application/json; charset=utf-8"@),
    ]
}

/// The header fields of an audio frame.
pub open spec fn audio_fields(request_id: Seq<char>, timestamp: Seq<char>) -> Seq<
    (Seq<char>, Seq<char>),
> {
    seq![
        ("Path"@, "audio"@),
        ("X-RequestId"@, request_id),
        ("X-Timestamp"@, timestamp),
        ("Content-Type"@, "audio/x-wav"@),
    ]
}

/// The UTF-8 bytes of the header text of an audio frame.
pub open spec fn audio_header_bytes(request_id: Seq<char>, timestamp: Seq<char>) -> Seq<u8> {
    encode_utf8(encode_text(audio_fields(request_id, timestamp), Seq::empty()))
}

pub(crate) fn field(key: &str, value: &str) -> (r: HeaderField)
    ensures
        r@ == (key@, value@),
{
    HeaderField { key: String::from_str(key), value: String::from_str(value) }
}

fn four_fields(path: &str, request_id: &str, timestamp: &str, content_type: &str) -> (r: Vec<
    HeaderField,
>)
    ensures
        fields_view(r@) == seq![
            ("Path"@, path@),
            ("X-RequestId"@, request_id@),
            ("X-Timestamp"@, timestamp@),
            ("Content-Type"@, content_type@),
        ],
{
    let mut v: Vec<HeaderField> = Vec::new();
    v.push(field("Path", path));
    v.push(field("X-RequestId", request_id));
    v.push(field("X-Timestamp", timestamp));
    v.push(field("Content-Type", content_type));
    assert(fields_view(v@) =~= seq![
        ("Path"@, path@),
        ("X-RequestId"@, request_id@),
        ("X-Timestamp"@, timestamp@),
        ("Content-Type"@, content_type@),
    ]);
    v
}

/// The `speech.config` text frame that carries the JSON text `config_json`.
pub fn config_frame(request_id: &str, timestamp: &str, config_json: &str) -> (r: String)
    ensures
        r@ == encode_text(config_fields(request_id@, timestamp@), config_json@),
{
    let fields = four_fields("speech.config", request_id, timestamp, "application/json; charset=utf-8");
    encode_text_frame(&fields, config_json)
}

/// The binary frame that carries one chunk of audio under the correlation id
/// `request_id`.
pub fn audio_frame(request_id: &str, timestamp: &str, audio: &[u8]) -> (r: Result<
    Vec<u8>,
    FrameError,
>)
    ensures
        match r {
            Ok(v) => audio_header_bytes(request_id@, timestamp@).len() < 65536 && v@ == binary_frame(
                audio_header_bytes(request_id@, timestamp@),
                audio@,
            ),
            Err(e) => audio_header_bytes(request_id@, timestamp@).len() >= 65536 && e
                == FrameError::HeaderTooLong,
        },
{
    let fields = four_fields("audio", request_id, timestamp, "audio/x-wav");
    let header = encode_text_frame(&fields, "");
    proof {
        reveal_strlit("");
        assert(""@ =~= Seq::<char>::empty());
    }
    encode_binary_frame(header.as_str(), audio)
}

/// A UTF-8 encoding takes at most four bytes a character.
proof fn lemma_utf8_length(s: Seq<char>)
    ensures
        encode_utf8(s).len() <= 4 * s.len(),
    decreases s.len(),
{
    if s.len() > 0 {
        lemma_utf8_length(s.drop_first());
    }
}

/// The header text of an audio frame is 72 characters besides its id and
/// time stamp.
proof fn lemma_audio_header_length(request_id: Seq<char>, timestamp: Seq<char>)
    ensures
        encode_text(audio_fields(request_id, timestamp), Seq::empty()).len() == 72
            + request_id.len() + timestamp.len(),
{
    reveal_strlit("Path");
    reveal_strlit("audio");
    reveal_strlit("X-RequestId");
    reveal_strlit("X-Timestamp");
    reveal_strlit("Content-Type");
    reveal_strlit("audio/x-wav");
    let fs = audio_fields(request_id, timestamp);
    let f1 = fs.drop_first();
    let f2 = f1.drop_first();
    let f3 = f2.drop_first();
    assert(f3 =~= seq![("Content-Type"@, "audio/x-wav"@)]);
    assert(join_lines(f3).len() == 25);
    assert(join_lines(f2).len() == 13 + timestamp.len() + 2 + 25);
    assert(join_lines(f1).len() == 13 + request_id.len() + 2 + join_lines(f2).len());
    assert(join_lines(fs).len() == 11 + 2 + join_lines(f1).len());
}

/// An audio frame whose id and time stamp are at most a thousand characters
/// each has a header that two bytes can count.
pub proof fn lemma_audio_header_fits(request_id: Seq<char>, timestamp: Seq<char>)
    requires
        request_id.len() <= 1000,
        timestamp.len() <= 1000,
    ensures
        audio_header_bytes(request_id, timestamp).len() < 65536,
{
    lemma_audio_header_length(request_id, timestamp);
    lemma_utf8_length(encode_text(audio_fields(request_id, timestamp), Seq::empty()));
}

/// A one-line text with no white space at either end is its own trim.
proof fn lemma_trimmed(s: Seq<char>)
    requires
        s.len() > 0 ==> !is_space(s[0]) && !is_space(s.last()),
    ensures
        trim(s) == s,
{
}

/// A text without white space (CR and LF included) is one line and its own
/// trim.
proof fn lemma_no_space(s: Seq<char>)
    requires
        forall|i: int| 0 <= i < s.len() ==> !is_space(#[trigger] s[i]),
    ensures
        single_line(s),
        trim(s) == s,
{
    assert forall|i: int| 0 <= i < s.len() implies s[i] != '\r' && s[i] != '\n' by {
        assert(!is_space(s[i]));
    }
    if s.len() > 0 {
        assert(!is_space(s[0]) && !is_space(s[s.len() - 1]));
    }
    lemma_trimmed(s);
}

/// Round trip of configuration frames: with a 32-hex-digit request id and
/// an RFC 3339 time stamp, reading the configuration frame gives back its
/// four header fields and its JSON body unchanged.
pub proof fn lemma_config_frame_round_trip(
    request_id: Seq<char>,
    timestamp: Seq<char>,
    body: Seq<char>,
)
    requires
        is_hex_id(request_id),
        is_timestamp(timestamp),
    ensures
        decode_text(encode_text(config_fields(request_id, timestamp), body)) == Ok::<_, FrameError>(
            (config_fields(request_id, timestamp), body),
        ),
{
    reveal_strlit("Path");
    reveal_strlit("X-RequestId");
    reveal_strlit("X-Timestamp");
    reveal_strlit("Content-Type");
    reveal_strlit("speech.config");
    reveal_strlit("application/json; charset=utf-8");
    assert("Path"@ =~= seq!['P', 'a', 't', 'h']);
    assert("X-RequestId"@ =~= seq!['X', '-', 'R', 'e', 'q', 'u', 'e', 's', 't', 'I', 'd']);
    assert("X-Timestamp"@ =~= seq!['X', '-', 'T', 'i', 'm', 'e', 's', 't', 'a', 'm', 'p']);
    assert("Content-Type"@ =~= seq!['C', 'o', 'n', 't', 'e', 'n', 't', '-', 'T', 'y', 'p', 'e']);
    assert("speech.config"@ =~= seq!['s', 'p', 'e', 'e', 'c', 'h', '.', 'c', 'o', 'n', 'f', 'i', 'g']);
    assert("application/json; charset=utf-8"@ =~= seq!['a', 'p', 'p', 'l', 'i', 'c', 'a', 't', 'i', 'o', 'n', '/', 'j', 's', 'o', 'n', ';', ' ', 'c', 'h', 'a', 'r', 's', 'e', 't', '=', 'u', 't', 'f', '-', '8']);
    let fs = config_fields(request_id, timestamp);
    lemma_no_space("Path"@);
    lemma_no_space("X-RequestId"@);
    lemma_no_space("X-Timestamp"@);
    lemma_no_space("Content-Type"@);
    lemma_no_space("speech.config"@);
    lemma_no_space(request_id);
    lemma_no_space(timestamp);
    let ct = "application/json; charset=utf-8"@;
    assert(single_line(ct));
    lemma_trimmed(ct);
    assert forall|i: int| 0 <= i < fs.len() implies well_formed_field(#[trigger] fs[i]) by {
        if i == 0 {
            assert(fs[0] == ("Path"@, "speech.config"@));
        } else if i == 1 {
            assert(fs[1] == ("X-RequestId"@, request_id));
        } else if i == 2 {
            assert(fs[2] == ("X-Timestamp"@, timestamp));
        } else {
            assert(fs[3] == ("Content-Type"@, ct));
        }
    }
    lemma_text_frame_round_trip(fs, body);
}

} // verus!
