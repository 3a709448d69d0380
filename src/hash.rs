use vstd::prelude::*;
use vstd::utf8::encode_utf8;

verus! {

/// Hash algorithm used for content hashes.
#[derive(Clone, Copy, Debug, PartialEq, Eq, Structural)]
pub enum HashFunction {
    Xxhash64,
    Md4,
}

/// How content hashes are computed and shown.
#[derive(Clone, Debug)]
pub struct HashOptions {
    pub function: HashFunction,
    /// fed to the hash before anything else
    pub salt: Option<String>,
    /// how many hex digits of a digest a filename shows
    pub digest_length: usize,
}

pub uninterp spec fn xxh64_of(data: Seq<u8>) -> u64;

pub uninterp spec fn md4_of(data: Seq<u8>) -> Seq<u8>;

/// Relies on `xxhash_rust::xxh64::xxh64` with seed 0: the digest depends on
/// the bytes alone.
#[verifier::external_body]
fn xxh64(data: &Vec<u8>) -> (r: u64)
    ensures
        r == xxh64_of(data@),
{
    xxhash_rust::xxh64::xxh64(data.as_slice(), 0)
}

/// Relies on `md4::Md4` through `Digest::digest`: sixteen bytes that depend
/// on the input alone.
#[verifier::external_body]
fn md4(data: &Vec<u8>) -> (r: Vec<u8>)
    ensures
        r@ == md4_of(data@),
        r@.len() == 16,
{
    <md4::Md4 as md4::Digest>::digest(data.as_slice()).to_vec()
}

pub open spec fn hex_digit(n: u8) -> char {
    if n < 10 {
        (('0' as u8) + n) as char
    } else {
        (('a' as u8) + n - 10) as char
    }
}

/// Two lowercase hex digits per byte, high nibble first.
pub open spec fn hex_of(b: Seq<u8>) -> Seq<char>
    decreases b.len(),
{
    if b.len() == 0 {
        Seq::empty()
    } else {
        seq![hex_digit(b[0] / 16), hex_digit(b[0] % 16)] + hex_of(b.drop_first())
    }
}

/// Relies on `hex::encode`: two lowercase hex digits per byte, high nibble
/// first.
#[verifier::external_body]
fn to_hex(b: &Vec<u8>) -> (r: String)
    ensures
        r@ == hex_of(b@),
{
    hex::encode(b)
}

/// The eight bytes of `x`, least significant first.
pub open spec fn le_bytes(x: u64) -> Seq<u8> {
    seq![
        x as u8,
        (x >> 8) as u8,
        (x >> 16) as u8,
        (x >> 24) as u8,
        (x >> 32) as u8,
        (x >> 40) as u8,
        (x >> 48) as u8,
        (x >> 56) as u8,
    ]
}

pub fn push_le_bytes(out: &mut Vec<u8>, x: u64)
    ensures
        final(out)@ == old(out)@ + le_bytes(x),
{
    out.push(x as u8);
    out.push((x >> 8) as u8);
    out.push((x >> 16) as u8);
    out.push((x >> 24) as u8);
    out.push((x >> 32) as u8);
    out.push((x >> 40) as u8);
    out.push((x >> 48) as u8);
    out.push((x >> 56) as u8);
    assert(final(out)@ =~= old(out)@ + le_bytes(x));
}

pub fn push_bytes(out: &mut Vec<u8>, b: &[u8])
    ensures
        final(out)@ == old(out)@ + b@,
{
    let ghost start = out@;
    let mut i: usize = 0;
    while i < b.len()
        invariant
            i <= b@.len(),
            out@ == start + b@.subrange(0, i as int),
        decreases b.len() - i,
    {
        out.push(b[i]);
        i += 1;
        assert(out@ =~= start + b@.subrange(0, i as int));
    }
    assert(b@.subrange(0, b@.len() as int) =~= b@);
}

/// What hashing a string feeds: its UTF-8 bytes, then the terminator 0xff.
pub open spec fn str_feed(s: Seq<char>) -> Seq<u8> {
    encode_utf8(s) + seq![0xffu8]
}

pub fn push_str(out: &mut Vec<u8>, s: &str)
    ensures
        final(out)@ == old(out)@ + str_feed(s@),
{
    push_bytes(out, s.as_bytes());
    out.push(0xffu8);
    assert(final(out)@ =~= old(out)@ + str_feed(s@));
}

/// The digest of `data` under `function`.
pub open spec fn digest_bytes(function: HashFunction, data: Seq<u8>) -> Seq<u8> {
    match function {
        HashFunction::Xxhash64 => le_bytes(xxh64_of(data)),
        HashFunction::Md4 => md4_of(data),
    }
}

/// A digest with its hex encoding.
#[derive(Clone, Debug, PartialEq, Eq)]
pub struct ContentDigest {
    pub inner: Vec<u8>,
    pub encoded: String,
}

impl ContentDigest {
    pub open spec fn well_formed(&self) -> bool {
        self.encoded@ == hex_of(self.inner@)
    }

    pub fn new(inner: Vec<u8>) -> (r: ContentDigest)
        ensures
            r.inner@ == inner@,
            r.well_formed(),
    {
        let encoded = to_hex(&inner);
        ContentDigest { inner, encoded }
    }

    /// The first `length` hex digits, or all of them when there are fewer.
    pub fn rendered(&self, length: usize) -> (r: String)
        ensures
            r@ == self.encoded@.subrange(
                0,
                if length < self.encoded@.len() {
                    length as int
                } else {
                    self.encoded@.len() as int
                },
            ),
    {
        let n = self.encoded.as_str().unicode_len();
        let end = if length < n {
            length
        } else {
            n
        };
        String::from_str(self.encoded.as_str().substring_char(0, end))
    }
}

/// The digest of `data` under `function`.
pub fn digest(function: HashFunction, data: &Vec<u8>) -> (r: ContentDigest)
    ensures
        r.inner@ == digest_bytes(function, data@),
        r.well_formed(),
{
    match function {
        HashFunction::Xxhash64 => {
            let h = xxh64(data);
            let mut bytes: Vec<u8> = Vec::new();
            push_le_bytes(&mut bytes, h);
            assert(bytes@ =~= le_bytes(h));
            ContentDigest::new(bytes)
        },
        HashFunction::Md4 => ContentDigest::new(md4(data)),
    }
}

} // verus!
