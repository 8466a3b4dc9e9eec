//! The wrapped key set of an account and the body that uploads it.

use vstd::prelude::*;
use rustc_serialize::hex::{FromHex, ToHex};

verus! {

/// The character of the hex digit `d` (0 through 15), lower case.
pub open spec fn hex_digit(d: nat) -> char {
    if d < 10 {
        crate::text::digit_char(d)
    } else if d == 10 { 'a' }
    else if d == 11 { 'b' }
    else if d == 12 { 'c' }
    else if d == 13 { 'd' }
    else if d == 14 { 'e' }
    else { 'f' }
}

/// Two lower-case hex digits per byte, the high half first.
pub open spec fn hex_encoding(bytes: Seq<u8>) -> Seq<char>
    decreases bytes.len(),
{
    if bytes.len() == 0 {
        Seq::empty()
    } else {
        let b = bytes.last();
        hex_encoding(bytes.drop_last()) + seq![hex_digit((b / 16) as nat), hex_digit((b % 16) as nat)]
    }
}

/// Calls `rustc_serialize::hex::ToHex::to_hex` on a byte slice, which writes
/// each byte as two characters of "0123456789abcdef", the high half first.
#[verifier::external_body]
fn to_hex(bytes: &[u8]) -> (s: String)
    ensures
        s@ == hex_encoding(bytes@),
{
    bytes.to_hex()
}

/// The value of a hex digit in either case, or `None` for any other character.
pub open spec fn hex_value(c: char) -> Option<u8> {
    if '0' <= c && c <= '9' {
        Some((c as int - '0' as int) as u8)
    } else if 'a' <= c && c <= 'f' {
        Some((c as int - 'a' as int + 10) as u8)
    } else if 'A' <= c && c <= 'F' {
        Some((c as int - 'A' as int + 10) as u8)
    } else {
        None
    }
}

/// The white space that hex text may hold anywhere: space, CR, LF and tab.
pub open spec fn is_hex_space(c: char) -> bool {
    c == ' ' || c == '\r' || c == '\n' || c == '\t'
}

/// The digit values of `text` in order, white space dropped, or `None` where
/// it holds any other character.
pub open spec fn hex_digits(text: Seq<char>) -> Option<Seq<u8>>
    decreases text.len(),
{
    if text.len() == 0 {
        Some(Seq::empty())
    } else {
        match hex_digits(text.drop_last()) {
            None => None,
            Some(ds) => if is_hex_space(text.last()) {
                Some(ds)
            } else {
                match hex_value(text.last()) {
                    Some(d) => Some(ds.push(d)),
                    None => None,
                }
            },
        }
    }
}

/// The bytes that digit values make two by two, the high half first.
pub open spec fn pair_digits(ds: Seq<u8>) -> Seq<u8>
    decreases ds.len(),
{
    if ds.len() < 2 {
        Seq::empty()
    } else {
        pair_digits(ds.subrange(0, ds.len() - 2)).push((ds[ds.len() - 2] * 16 + ds[ds.len() - 1]) as u8)
    }
}

/// What hex text decodes to: its digits paired into bytes, where it holds
/// only digits and white space and an even number of digits.
pub open spec fn hex_decoding(text: Seq<char>) -> Option<Seq<u8>> {
    match hex_digits(text) {
        Some(ds) => if ds.len() % 2 == 0 { Some(pair_digits(ds)) } else { None },
        None => None,
    }
}

/// Calls `rustc_serialize::hex::FromHex::from_hex` on a string, which skips
/// white space, takes digits in either case, refuses any other character and
/// an odd number of digits, and pairs the digits into bytes, the high half
/// first; a refused text becomes `None`.
#[verifier::external_body]
fn from_hex(text: &str) -> (r: Option<Vec<u8>>)
    ensures
        match r {
            Some(v) => hex_decoding(text@) == Some(v@),
            None => hex_decoding(text@) is None,
        },
{
    text.from_hex().ok()
}

/// The digit values that `hex_encoding` writes: two per byte, high half first.
pub open spec fn nibbles(bytes: Seq<u8>) -> Seq<u8>
    decreases bytes.len(),
{
    if bytes.len() == 0 {
        Seq::empty()
    } else {
        nibbles(bytes.drop_last()).push(bytes.last() / 16).push(bytes.last() % 16)
    }
}

proof fn lemma_hex_digit_value(d: nat)
    requires
        d < 16,
    ensures
        hex_value(hex_digit(d)) == Some(d as u8),
        !is_hex_space(hex_digit(d)),
{
}

proof fn lemma_nibbles_len(bytes: Seq<u8>)
    ensures
        nibbles(bytes).len() == 2 * bytes.len(),
    decreases bytes.len(),
{
    if bytes.len() > 0 {
        lemma_nibbles_len(bytes.drop_last());
    }
}

proof fn lemma_digits_of_encoding(bytes: Seq<u8>)
    ensures
        hex_digits(hex_encoding(bytes)) == Some(nibbles(bytes)),
    decreases bytes.len(),
{
    if bytes.len() > 0 {
        let init = bytes.drop_last();
        let b = bytes.last();
        lemma_digits_of_encoding(init);
        let x = hex_encoding(init);
        let h = hex_digit((b / 16) as nat);
        let l = hex_digit((b % 16) as nat);
        lemma_hex_digit_value((b / 16) as nat);
        lemma_hex_digit_value((b % 16) as nat);
        let e = hex_encoding(bytes);
        assert(e == x + seq![h, l]);
        assert(e.drop_last() =~= x + seq![h]);
        assert((x + seq![h]).drop_last() =~= x);
        assert(e.last() == l);
        assert((x + seq![h]).last() == h);
        assert(hex_digits(x + seq![h]) == Some(nibbles(init).push(b / 16)));
        assert(hex_digits(e) == Some(nibbles(init).push(b / 16).push(b % 16)));
    }
}

proof fn lemma_pair_nibbles(bytes: Seq<u8>)
    ensures
        pair_digits(nibbles(bytes)) == bytes,
    decreases bytes.len(),
{
    if bytes.len() > 0 {
        let init = bytes.drop_last();
        let b = bytes.last();
        lemma_pair_nibbles(init);
        lemma_nibbles_len(init);
        let n = nibbles(bytes);
        assert(n.subrange(0, n.len() - 2) =~= nibbles(init));
        assert(n[n.len() - 2] == b / 16);
        assert(n[n.len() - 1] == b % 16);
        assert((b / 16) * 16 + b % 16 == b);
        assert(pair_digits(n) =~= bytes);
    }
}

/// Decoding the hex of any bytes gives the bytes back.
pub proof fn lemma_hex_roundtrip(bytes: Seq<u8>)
    ensures
        hex_decoding(hex_encoding(bytes)) == Some(bytes),
{
    lemma_digits_of_encoding(bytes);
    lemma_nibbles_len(bytes);
    lemma_pair_nibbles(bytes);
}

/// The four keys of an account, each wrapped (encrypted) by the user's secret.
pub struct WrappedKeyset {
    pub master: Vec<u8>,
    pub main: Vec<u8>,
    pub hmac: Vec<u8>,
    pub tweak: Vec<u8>,
}

/// The body that registers a wrapped key set: each key in hex.
pub struct AccountKeyBody {
    pub master: String,
    pub main: String,
    pub hmac: String,
    pub tweak: String,
}

/// `body` carries each key of `keyset` in hex.
pub open spec fn body_encodes(body: AccountKeyBody, keyset: WrappedKeyset) -> bool {
    &&& body.master@ == hex_encoding(keyset.master@)
    &&& body.main@ == hex_encoding(keyset.main@)
    &&& body.hmac@ == hex_encoding(keyset.hmac@)
    &&& body.tweak@ == hex_encoding(keyset.tweak@)
}

/// `r` is what decoding the four texts of `body` gives: a key set exactly
/// where all four decode, each key the bytes its text decodes to.
pub open spec fn decodes_to(body: AccountKeyBody, r: Option<WrappedKeyset>) -> bool {
    &&& r is Some <==> (hex_decoding(body.master@) is Some && hex_decoding(body.main@) is Some
        && hex_decoding(body.hmac@) is Some && hex_decoding(body.tweak@) is Some)
    &&& r matches Some(k) ==> {
        &&& hex_decoding(body.master@) == Some(k.master@)
        &&& hex_decoding(body.main@) == Some(k.main@)
        &&& hex_decoding(body.hmac@) == Some(k.hmac@)
        &&& hex_decoding(body.tweak@) == Some(k.tweak@)
    }
}

impl AccountKeyBody {
    /// The body that uploads `keyset`.
    pub fn from_keyset(keyset: &WrappedKeyset) -> (b: AccountKeyBody)
        ensures
            body_encodes(b, *keyset),
    {
        AccountKeyBody {
            master: to_hex(keyset.master.as_slice()),
            main: to_hex(keyset.main.as_slice()),
            hmac: to_hex(keyset.hmac.as_slice()),
            tweak: to_hex(keyset.tweak.as_slice()),
        }
    }
}

impl WrappedKeyset {
    /// The key set that a body carries, where each of its four texts is hex.
    pub fn from_body(body: &AccountKeyBody) -> (r: Option<WrappedKeyset>)
        ensures
            decodes_to(*body, r),
    {
        let master = from_hex(body.master.as_str());
        let main = from_hex(body.main.as_str());
        let hmac = from_hex(body.hmac.as_str());
        let tweak = from_hex(body.tweak.as_str());
        match (master, main, hmac, tweak) {
            (Some(master), Some(main), Some(hmac), Some(tweak)) => Some(WrappedKeyset { master, main, hmac, tweak }),
            _ => None,
        }
    }
}

/// Reading back a key set from the body that uploads it gives the same four
/// keys: decoding undoes `from_keyset`.
pub proof fn lemma_key_body_roundtrip(keyset: WrappedKeyset, body: AccountKeyBody, decoded: Option<WrappedKeyset>)
    requires
        body_encodes(body, keyset),
        decodes_to(body, decoded),
    ensures
        decoded matches Some(k) && k.master@ == keyset.master@ && k.main@ == keyset.main@
            && k.hmac@ == keyset.hmac@ && k.tweak@ == keyset.tweak@,
{
    lemma_hex_roundtrip(keyset.master@);
    lemma_hex_roundtrip(keyset.main@);
    lemma_hex_roundtrip(keyset.hmac@);
    lemma_hex_roundtrip(keyset.tweak@);
}

} // verus!
