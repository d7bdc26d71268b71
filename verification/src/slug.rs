//! Slugs: the names of pools, and their fixed-width encoding.

use vstd::prelude::*;
use vstd::string::*;
use vstd::utf8::*;

verus! {

/// Width of an encoded slug, in bytes; a slug is no longer than this.
pub const SLUG_LENGTH: usize = 32;

/// A letter of the Latin alphabet, a decimal digit or a hyphen.
pub open spec fn is_slug_char(c: char) -> bool {
    ('a' <= c && c <= 'z') || ('A' <= c && c <= 'Z') || ('0' <= c && c <= '9') || c == '-'
}

/// A slug is one to `SLUG_LENGTH` letters, digits and hyphens.
pub open spec fn valid_slug(slug: Seq<char>) -> bool {
    &&& 1 <= slug.len() <= SLUG_LENGTH
    &&& forall|i: int| 0 <= i < slug.len() ==> is_slug_char(#[trigger] slug[i])
}

/// The bytes of a slug, one for each character.
pub open spec fn slug_bytes(slug: Seq<char>) -> Seq<u8> {
    Seq::new(slug.len(), |i: int| slug[i] as u8)
}

/// `bytes` followed by zeros up to `SLUG_LENGTH` bytes.
pub open spec fn zero_padded(bytes: Seq<u8>) -> Seq<u8> {
    Seq::new(SLUG_LENGTH as nat, |i: int| if i < bytes.len() { bytes[i] } else { 0u8 })
}

/// The array whose first `k` bytes are those of `bytes`, and whose other
/// bytes are zero.
spec fn filled(bytes: Seq<u8>, k: nat) -> [u8; SLUG_LENGTH]
    decreases k,
{
    if k == 0 {
        [0u8; SLUG_LENGTH]
    } else {
        vstd::array::spec_array_update(filled(bytes, (k - 1) as nat), k - 1, bytes[k - 1])
    }
}

/// `filled` holds the first `k` bytes of `bytes`.
proof fn filled_view(bytes: Seq<u8>, k: nat)
    requires
        k <= SLUG_LENGTH,
    ensures
        forall|j: int| 0 <= j < k ==> filled(bytes, k)@[j] == bytes[j],
    decreases k,
{
    if k > 0 {
        filled_view(bytes, (k - 1) as nat);
    }
}

/// The fixed-width encoding of `bytes`, as the array that a pool keeps.
pub closed spec fn encoded(bytes: Seq<u8>) -> [u8; SLUG_LENGTH] {
    filled(zero_padded(bytes), SLUG_LENGTH as nat)
}

/// The encoding holds `bytes`, then zeros.
pub broadcast proof fn encoded_view(bytes: Seq<u8>)
    ensures
        (#[trigger] encoded(bytes))@ == zero_padded(bytes),
{
    filled_view(zero_padded(bytes), SLUG_LENGTH as nat);
}

/// The encoding of a slug is well formed: a slug, then zeros.
pub open spec fn is_encoded_slug(data: Seq<u8>) -> bool {
    exists|slug: Seq<char>| valid_slug(slug) && data == #[trigger] zero_padded(slug_bytes(slug))
}

/// A valid slug is made of one-byte characters, so its bytes are its characters.
pub proof fn valid_slug_bytes(slug: &str)
    requires
        valid_slug(slug@),
    ensures
        is_ascii(slug),
        slug.spec_bytes() == slug_bytes(slug@),
{
    is_ascii_spec_bytes(slug);
}

/// Whether `b` is the code of a letter, a digit or a hyphen.
fn is_slug_byte(b: u8) -> (r: bool)
    ensures
        r == ((97 <= b && b <= 122) || (65 <= b && b <= 90) || (48 <= b && b <= 57) || b == 45),
{
    (97 <= b && b <= 122) || (65 <= b && b <= 90) || (48 <= b && b <= 57) || b == 45
}

/// Whether `slug` can name a pool.
pub fn is_valid_slug(slug: &str) -> (r: bool)
    ensures
        r == valid_slug(slug@),
{
    if !slug.is_ascii() {
        return false;
    }
    proof {
        is_ascii_spec_bytes(slug);
    }
    let bytes = slug.as_bytes();
    let n = bytes.len();
    if n == 0 || n > SLUG_LENGTH {
        return false;
    }
    let mut i: usize = 0;
    while i < n
        invariant
            i <= n,
            n == slug@.len(),
            bytes@ == slug_bytes(slug@),
            is_ascii(slug),
            forall|j: int| 0 <= j < i ==> is_slug_char(#[trigger] slug@[j]),
        decreases n - i,
    {
        if !is_slug_byte(bytes[i]) {
            return false;
        }
        i += 1;
    }
    true
}

/// Encodes a slug at fixed width: its bytes, then zeros. The bytes must fit
/// in the width.
pub fn str_to_slug(slug: &str) -> (data: [u8; SLUG_LENGTH])
    requires
        slug.spec_bytes().len() <= SLUG_LENGTH,
    ensures
        data == encoded(slug.spec_bytes()),
{
    let src = slug.as_bytes();
    let mut data = [0u8; SLUG_LENGTH];
    let mut i: usize = 0;
    while i < src.len()
        invariant
            i <= src.len() <= SLUG_LENGTH,
            src@ == slug.spec_bytes(),
            forall|j: int| 0 <= j < i ==> data@[j] == src@[j],
            forall|j: int| i <= j < SLUG_LENGTH ==> data@[j] == 0u8,
        decreases src.len() - i,
    {
        data[i] = src[i];
        i += 1;
    }
    proof {
        encoded_view(slug.spec_bytes());
    }
    data
}

/// Whether `data` is the encoding of `slug`, and `slug` a valid slug.
pub fn is_slug_of(data: &[u8; SLUG_LENGTH], slug: &str) -> (r: bool)
    ensures
        r == (valid_slug(slug@) && *data == encoded(slug_bytes(slug@))),
{
    if !is_valid_slug(slug) {
        return false;
    }
    proof {
        valid_slug_bytes(slug);
    }
    let expected = str_to_slug(slug);
    let mut i: usize = 0;
    while i < SLUG_LENGTH
        invariant
            i <= SLUG_LENGTH,
            valid_slug(slug@),
            expected == encoded(slug_bytes(slug@)),
            forall|j: int| 0 <= j < i ==> data[j] == expected[j],
        decreases SLUG_LENGTH - i,
    {
        if data[i] != expected[i] {
            return false;
        }
        i += 1;
    }
    assert(*data =~= expected);
    true
}

} // verus!
