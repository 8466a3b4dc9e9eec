//! The multipart/form-data framing that carries a block or a session upload.

use vstd::prelude::*;
use vstd::string::{is_ascii, StringSliceAdditionalSpecFns};

verus! {

broadcast use vstd::string::is_ascii_spec_bytes;

/// The bytes of an ASCII text, one per character.
pub open spec fn ascii_bytes(s: Seq<char>) -> Seq<u8> {
    Seq::new(s.len(), |i: int| s[i] as u8)
}

/// The boundary announced in the Content-Type header.
pub open spec fn header_boundary() -> Seq<char> {
    "-----SAFEDRIVEBINARY"@
}

/// Everything before the file name: two blank line ends, the opening
/// delimiter and the start of the content disposition.
pub open spec fn multipart_head() -> Seq<char> {
    "\r\n\r\n-------SAFEDRIVEBINARY\r\ncontent-disposition: form-data; name=file; filename="@
}

/// Everything between the file name and the payload.
pub open spec fn multipart_middle() -> Seq<char> {
    "\r\nContent-Type: application/octet-stream\r\nContent-Transfer-Encoding: binary\r\n\r\n"@
}

/// Everything after the payload: the closing delimiter.
pub open spec fn multipart_tail() -> Seq<char> {
    "\r\n-------SAFEDRIVEBINARY--\r\n\r\n"@
}

/// Where the payload starts in the body for a file called `name`.
pub open spec fn payload_offset(name: &str) -> int {
    (ascii_bytes(multipart_head()).len() + name.spec_bytes().len() + ascii_bytes(multipart_middle()).len()) as int
}

/// The body that carries `data` under the file name `name`.
pub open spec fn multipart_body(data: Seq<u8>, name: &str) -> Seq<u8> {
    ascii_bytes(multipart_head()) + name.spec_bytes() + ascii_bytes(multipart_middle()) + data
        + ascii_bytes(multipart_tail())
}

fn append_ascii(body: &mut Vec<u8>, text: &str)
    requires
        is_ascii(text),
    ensures
        final(body)@ == old(body)@ + ascii_bytes(text@),
{
    let bytes = text.as_bytes();
    let mut i: usize = 0;
    while i < bytes.len()
        invariant
            i <= bytes@.len(),
            bytes@ == ascii_bytes(text@),
            body@ == old(body)@ + bytes@.subrange(0, i as int),
        decreases bytes@.len() - i,
    {
        body.push(bytes[i]);
        assert(bytes@.subrange(0, i + 1) == bytes@.subrange(0, i as int).push(bytes@[i as int]));
        i = i + 1;
    }
    assert(bytes@.subrange(0, bytes@.len() as int) == bytes@);
}

pub(crate) fn append_bytes(body: &mut Vec<u8>, data: &[u8])
    ensures
        final(body)@ == old(body)@ + data@,
{
    let mut i: usize = 0;
    while i < data.len()
        invariant
            i <= data@.len(),
            body@ == old(body)@ + data@.subrange(0, i as int),
        decreases data@.len() - i,
    {
        body.push(data[i]);
        assert(data@.subrange(0, i + 1) == data@.subrange(0, i as int).push(data@[i as int]));
        i = i + 1;
    }
    assert(data@.subrange(0, data@.len() as int) == data@);
}

/// Frames `chunk_data` as a multipart/form-data body under the file name
/// `name`; returns the body, its length and the boundary to announce.
pub fn multipart_for_bytes(chunk_data: &[u8], name: &str) -> (r: (Vec<u8>, usize, &'static str))
    requires
        framing_fits(chunk_data@.len(), name),
    ensures
        r.0@ == multipart_body(chunk_data@, name),
        r.1 == r.0@.len(),
        r.2@ == header_boundary(),
{
    let head = "\r\n\r\n-------SAFEDRIVEBINARY\r\ncontent-disposition: form-data; name=file; filename=";
    let middle = "\r\nContent-Type: application/octet-stream\r\nContent-Transfer-Encoding: binary\r\n\r\n";
    let tail = "\r\n-------SAFEDRIVEBINARY--\r\n\r\n";
    proof {
        reveal_strlit("\r\n\r\n-------SAFEDRIVEBINARY\r\ncontent-disposition: form-data; name=file; filename=");
        reveal_strlit("\r\nContent-Type: application/octet-stream\r\nContent-Transfer-Encoding: binary\r\n\r\n");
        reveal_strlit("\r\n-------SAFEDRIVEBINARY--\r\n\r\n");
    }
    let mut body: Vec<u8> = Vec::new();
    append_ascii(&mut body, head);
    append_bytes(&mut body, name.as_bytes());
    append_ascii(&mut body, middle);
    append_bytes(&mut body, chunk_data);
    append_ascii(&mut body, tail);
    let content_length = body.len();
    (body, content_length, "-----SAFEDRIVEBINARY")
}

/// Whether the body that frames `data_len` bytes under the file name `name`
/// has a length that a `usize` holds.
pub open spec fn framing_fits(data_len: nat, name: &str) -> bool {
    ascii_bytes(multipart_head()).len() + name.spec_bytes().len()
        + ascii_bytes(multipart_middle()).len() + data_len
        + ascii_bytes(multipart_tail()).len() <= usize::MAX
}

/// Whether `data` can be framed under the file name `name`: the framed body
/// must have a length that a `usize` holds.
pub fn multipart_fits(data: &[u8], name: &str) -> (ok: bool)
    ensures
        ok == framing_fits(data@.len(), name),
        ok <==> 189 + name.spec_bytes().len() + data@.len() <= usize::MAX,
{
    proof {
        reveal_strlit("\r\n\r\n-------SAFEDRIVEBINARY\r\ncontent-disposition: form-data; name=file; filename=");
        reveal_strlit("\r\nContent-Type: application/octet-stream\r\nContent-Transfer-Encoding: binary\r\n\r\n");
        reveal_strlit("\r\n-------SAFEDRIVEBINARY--\r\n\r\n");
        assert(ascii_bytes(multipart_head()).len() == 80);
        assert(ascii_bytes(multipart_middle()).len() == 79);
        assert(ascii_bytes(multipart_tail()).len() == 30);
    }
    let framing: usize = 189;
    let name_len = name.as_bytes().len();
    framing <= usize::MAX - name_len && data.len() <= usize::MAX - framing - name_len
}

/// The upload that goes with a block write: the framed block where it is to
/// be uploaded, nothing where the server already holds it.
pub fn block_upload_body(block_data: &[u8], name: &str, should_upload: bool) -> (r: Option<(Vec<u8>, usize, &'static str)>)
    requires
        should_upload ==> framing_fits(block_data@.len(), name),
    ensures
        r is Some <==> should_upload,
        r matches Some(u) ==> u.0@ == multipart_body(block_data@, name) && u.1 == u.0@.len()
            && u.2@ == header_boundary(),
{
    if should_upload {
        Some(multipart_for_bytes(block_data, name))
    } else {
        None
    }
}

/// The Content-Type header value that announces `boundary`.
pub fn multipart_content_type(boundary: &str) -> (s: String)
    ensures
        s@ == "multipart/form-data; boundary="@ + boundary@,
{
    String::from_str("multipart/form-data; boundary=").concat(boundary)
}

/// The payload can be read back from the framed body: it stands verbatim
/// at `payload_offset(name)`, and the body is exactly the framing around it.
pub proof fn lemma_payload_recoverable(data: Seq<u8>, name: &str)
    ensures
        multipart_body(data, name).subrange(payload_offset(name), payload_offset(name) + data.len())
            == data,
        multipart_body(data, name).len() == payload_offset(name) + data.len()
            + ascii_bytes(multipart_tail()).len(),
{
    let body = multipart_body(data, name);
    let off = payload_offset(name);
    assert(body.subrange(off, off + data.len()) =~= data);
}

/// The delimiters in the body are those that the announced boundary makes
/// under RFC 2046: the opening one is `--` and the boundary, on a line of its
/// own; the closing one is `--`, the boundary and `--`.
pub proof fn lemma_delimiters_follow_boundary(data: Seq<u8>, name: &str)
    ensures
        multipart_body(data, name).subrange(4, 6 + header_boundary().len() as int)
            == ascii_bytes("--"@ + header_boundary()),
        multipart_body(data, name).subrange(
            payload_offset(name) + data.len() + 2,
            payload_offset(name) + data.len() + 2 + 2 + header_boundary().len() + 2,
        ) == ascii_bytes("--"@ + header_boundary() + "--"@),
{
    reveal_strlit("\r\n\r\n-------SAFEDRIVEBINARY\r\ncontent-disposition: form-data; name=file; filename=");
    reveal_strlit("\r\nContent-Type: application/octet-stream\r\nContent-Transfer-Encoding: binary\r\n\r\n");
    reveal_strlit("\r\n-------SAFEDRIVEBINARY--\r\n\r\n");
    reveal_strlit("-----SAFEDRIVEBINARY");
    reveal_strlit("--");
    let body = multipart_body(data, name);
    let off = payload_offset(name) + data.len();
    assert(body.subrange(4, 6 + header_boundary().len() as int) =~= ascii_bytes("--"@ + header_boundary()));
    assert(body.subrange(off + 2, off + 2 + 2 + header_boundary().len() + 2)
        =~= ascii_bytes("--"@ + header_boundary() + "--"@));
}

/// The framing before the payload depends on the file name alone, and the
/// payload stands verbatim between it and the 30 bytes of the closing
/// delimiter; the payload starts 159 bytes plus the name's length in.
pub proof fn lemma_framing_independent_of_payload(d: Seq<u8>, d2: Seq<u8>, name: &str)
    ensures
        payload_offset(name) == 159 + name.spec_bytes().len(),
        ascii_bytes(multipart_tail()).len() == 30,
        multipart_body(d, name).subrange(0, payload_offset(name))
            == multipart_body(d2, name).subrange(0, payload_offset(name)),
        multipart_body(d, name).subrange(payload_offset(name), multipart_body(d, name).len() - 30) == d,
{
    reveal_strlit("\r\n\r\n-------SAFEDRIVEBINARY\r\ncontent-disposition: form-data; name=file; filename=");
    reveal_strlit("\r\nContent-Type: application/octet-stream\r\nContent-Transfer-Encoding: binary\r\n\r\n");
    reveal_strlit("\r\n-------SAFEDRIVEBINARY--\r\n\r\n");
    let off = payload_offset(name);
    let b1 = multipart_body(d, name);
    let b2 = multipart_body(d2, name);
    let head = ascii_bytes(multipart_head()) + name.spec_bytes() + ascii_bytes(multipart_middle());
    assert(b1.subrange(0, off) =~= head);
    assert(b2.subrange(0, off) =~= head);
    assert(b1.subrange(off, b1.len() - 30) =~= d);
}

/// The framing around a payload is 189 bytes besides the file name, so a
/// payload can be framed exactly when those bytes, the name's and its own
/// fit in a `usize`.
pub proof fn lemma_framing_fits_exactly(data_len: nat, name: &str)
    ensures
        framing_fits(data_len, name) <==> 189 + name.spec_bytes().len() + data_len <= usize::MAX,
{
    reveal_strlit("\r\n\r\n-------SAFEDRIVEBINARY\r\ncontent-disposition: form-data; name=file; filename=");
    reveal_strlit("\r\nContent-Type: application/octet-stream\r\nContent-Transfer-Encoding: binary\r\n\r\n");
    reveal_strlit("\r\n-------SAFEDRIVEBINARY--\r\n\r\n");
    assert(ascii_bytes(multipart_head()).len() == 80);
    assert(ascii_bytes(multipart_middle()).len() == 79);
    assert(ascii_bytes(multipart_tail()).len() == 30);
}

} // verus!
