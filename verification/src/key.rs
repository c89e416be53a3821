//! Cache keys: the name of a stored entry, derived from the consuming build
//! unit, the URL and the encoding.

use crate::encoding::EncodingKind;
use crate::hex::{hex_lower, is_hex_digit, lemma_hex_lower_injective, lemma_hex_lower_shape, to_hex_lower};
use sha2::Digest;
use vstd::prelude::*;
use vstd::string::*;
use vstd::utf8::*;

verus! {

/// The SHA-256 digest of a message.
pub uninterp spec fn sha256(message: Seq<u8>) -> Seq<u8>;

/// Hashes `message` with `sha2::Sha256::digest`.
///
/// Trusted: the result is the SHA-256 digest of the message, which is a
/// function of the message alone and thirty-two bytes long.
#[verifier::external_body]
fn sha256_digest(message: &[u8]) -> (digest: Vec<u8>)
    ensures
        digest@ == sha256(message@),
        digest@.len() == 32,
{
    sha2::Sha256::digest(message).to_vec()
}

/// The byte that separates the parts of a hashed message.
pub const SEPARATOR: u8 = 0;

/// The message that is hashed for a request: the namespace in UTF-8, a
/// separator, the URL in UTF-8, a separator, and the tag of the encoding.
pub open spec fn key_material(namespace: Seq<char>, url: Seq<char>, encoding: EncodingKind) -> Seq<
    u8,
> {
    encode_utf8(namespace) + seq![SEPARATOR] + encode_utf8(url) + seq![SEPARATOR] + encoding.tag()
}

/// The key of a request: the digest of its message in lower-case hexadecimal.
pub open spec fn cache_key(namespace: Seq<char>, url: Seq<char>, encoding: EncodingKind) -> Seq<
    char,
> {
    hex_lower(sha256(key_material(namespace, url, encoding)))
}

/// Whether SHA-256 maps two different messages to one digest.
pub open spec fn sha256_collision(a: Seq<u8>, b: Seq<u8>) -> bool {
    a != b && sha256(a) == sha256(b)
}

/// Appends `bytes` to `out`.
fn append_bytes(out: &mut Vec<u8>, bytes: &[u8])
    ensures
        final(out)@ == old(out)@ + bytes@,
{
    let mut i: usize = 0;
    while i < bytes.len()
        invariant
            i <= bytes.len(),
            out@ == old(out)@ + bytes@.take(i as int),
        decreases bytes.len() - i,
    {
        out.push(bytes[i]);
        assert(bytes@.take(i as int + 1) =~= bytes@.take(i as int).push(bytes@[i as int]));
        i = i + 1;
    }
    assert(bytes@.take(i as int) =~= bytes@);
}

/// The name of a cache entry: sixty-four lower-case hexadecimal digits.
pub struct CacheKey {
    text: String,
}

impl View for CacheKey {
    type V = Seq<char>;

    closed spec fn view(&self) -> Seq<char> {
        self.text@
    }
}

impl CacheKey {
    #[verifier::type_invariant]
    spec fn well_formed(self) -> bool {
        &&& self.text@.len() == 64
        &&& forall|i: int| 0 <= i < self.text@.len() ==> is_hex_digit(#[trigger] self.text@[i])
    }

    /// Derives the key of a request.
    pub fn derive(namespace: &str, url: &str, encoding: EncodingKind) -> (key: CacheKey)
        ensures
            key@ == cache_key(namespace@, url@, encoding),
            key@.len() == 64,
    {
        let mut message: Vec<u8> = Vec::new();
        append_bytes(&mut message, namespace.as_bytes());
        message.push(SEPARATOR);
        append_bytes(&mut message, url.as_bytes());
        message.push(SEPARATOR);
        encoding.write_tag(&mut message);
        assert(message@ =~= key_material(namespace@, url@, encoding));
        let digest = sha256_digest(message.as_slice());
        let text = to_hex_lower(digest.as_slice());
        proof {
            lemma_hex_lower_shape(digest@);
        }
        CacheKey { text }
    }

    /// The key as text, which is the file name of the entry.
    pub fn as_str(&self) -> (text: &str)
        ensures
            text@ == self@,
            text@.len() == 64,
            forall|i: int| 0 <= i < text@.len() ==> is_hex_digit(#[trigger] text@[i]),
    {
        proof {
            use_type_invariant(self);
        }
        self.text.as_str()
    }
}

/// The message of a request changes whenever its encoding does.
pub proof fn lemma_material_fixes_encoding(
    namespace: Seq<char>,
    url: Seq<char>,
    a: EncodingKind,
    b: EncodingKind,
)
    ensures
        key_material(namespace, url, a) == key_material(namespace, url, b) <==> a == b,
{
    if a != b {
        assert(a.tag().len() != b.tag().len());
        assert(key_material(namespace, url, a).len() != key_material(namespace, url, b).len());
    }
}

/// Byte sequences that agree once the same suffix is appended agree.
proof fn lemma_cancel_suffix(a: Seq<u8>, b: Seq<u8>, suffix: Seq<u8>)
    requires
        a + suffix == b + suffix,
    ensures
        a == b,
{
    assert((a + suffix).len() == a.len() + suffix.len());
    assert((b + suffix).len() == b.len() + suffix.len());
    assert forall|i: int| 0 <= i < a.len() implies a[i] == b[i] by {
        assert((a + suffix)[i] == a[i]);
        assert((b + suffix)[i] == b[i]);
    }
    assert(a =~= b);
}

/// Byte sequences that agree once the same prefix is put in front agree.
proof fn lemma_cancel_prefix(prefix: Seq<u8>, a: Seq<u8>, b: Seq<u8>)
    requires
        prefix + a == prefix + b,
    ensures
        a == b,
{
    assert((prefix + a).len() == prefix.len() + a.len());
    assert((prefix + b).len() == prefix.len() + b.len());
    assert forall|i: int| 0 <= i < a.len() implies a[i] == b[i] by {
        assert((prefix + a)[prefix.len() + i] == a[i]);
        assert((prefix + b)[prefix.len() + i] == b[i]);
    }
    assert(a =~= b);
}

/// Texts with the same UTF-8 encoding are the same.
proof fn lemma_utf8_injective(a: Seq<char>, b: Seq<char>)
    requires
        encode_utf8(a) == encode_utf8(b),
    ensures
        a == b,
{
    encode_utf8_decode_utf8(a);
    encode_utf8_decode_utf8(b);
}

/// The message of a request changes whenever its namespace does.
pub proof fn lemma_material_fixes_namespace(
    a: Seq<char>,
    b: Seq<char>,
    url: Seq<char>,
    encoding: EncodingKind,
)
    ensures
        key_material(a, url, encoding) == key_material(b, url, encoding) <==> a == b,
{
    let suffix = seq![SEPARATOR] + encode_utf8(url) + seq![SEPARATOR] + encoding.tag();
    assert(key_material(a, url, encoding) =~= encode_utf8(a) + suffix);
    assert(key_material(b, url, encoding) =~= encode_utf8(b) + suffix);
    if key_material(a, url, encoding) == key_material(b, url, encoding) {
        lemma_cancel_suffix(encode_utf8(a), encode_utf8(b), suffix);
        lemma_utf8_injective(a, b);
    }
}

/// The message of a request changes whenever its URL does.
pub proof fn lemma_material_fixes_url(
    namespace: Seq<char>,
    a: Seq<char>,
    b: Seq<char>,
    encoding: EncodingKind,
)
    ensures
        key_material(namespace, a, encoding) == key_material(namespace, b, encoding) <==> a == b,
{
    let prefix = encode_utf8(namespace) + seq![SEPARATOR];
    let suffix = seq![SEPARATOR] + encoding.tag();
    assert(key_material(namespace, a, encoding) =~= prefix + (encode_utf8(a) + suffix));
    assert(key_material(namespace, b, encoding) =~= prefix + (encode_utf8(b) + suffix));
    if key_material(namespace, a, encoding) == key_material(namespace, b, encoding) {
        lemma_cancel_prefix(prefix, encode_utf8(a) + suffix, encode_utf8(b) + suffix);
        lemma_cancel_suffix(encode_utf8(a), encode_utf8(b), suffix);
        lemma_utf8_injective(a, b);
    }
}

/// Whether no character of `text` is NUL, the character whose UTF-8
/// encoding is the separator.
pub open spec fn nul_free(text: Seq<char>) -> bool {
    forall|i: int| 0 <= i < text.len() ==> #[trigger] text[i] as u32 != 0
}

/// Whether no byte of `bytes` is the separator.
pub open spec fn separator_free(bytes: Seq<u8>) -> bool {
    forall|i: int| 0 <= i < bytes.len() ==> #[trigger] bytes[i] != SEPARATOR
}

/// Only NUL has a UTF-8 encoding that holds the separator.
proof fn lemma_scalar_separator_free(scalar: u32)
    requires
        scalar != 0,
    ensures
        separator_free(encode_scalar(scalar)),
{
    assert(0 < scalar <= 0x7F ==> (scalar & 0x7F) as u8 != 0) by (bit_vector);
    assert(0xC0u8 | ((scalar >> 6) & 0x1F) as u8 != 0) by (bit_vector);
    assert(0xE0u8 | ((scalar >> 12) & 0x0F) as u8 != 0) by (bit_vector);
    assert(0xF0u8 | ((scalar >> 18) & 0x7) as u8 != 0) by (bit_vector);
    assert(0x80u8 | (scalar & 0x3F) as u8 != 0) by (bit_vector);
    assert(0x80u8 | ((scalar >> 6) & 0x3F) as u8 != 0) by (bit_vector);
    assert(0x80u8 | ((scalar >> 12) & 0x3F) as u8 != 0) by (bit_vector);
}

/// A text without NUL has a UTF-8 encoding without the separator.
proof fn lemma_utf8_separator_free(text: Seq<char>)
    requires
        nul_free(text),
    ensures
        separator_free(encode_utf8(text)),
    decreases text.len(),
{
    if text.len() > 0 {
        let head = encode_scalar(text[0] as u32);
        let tail = encode_utf8(text.drop_first());
        lemma_scalar_separator_free(text[0] as u32);
        assert forall|i: int| 0 <= i < text.drop_first().len() implies #[trigger] text.drop_first()[i] as u32
            != 0 by {
            assert(text.drop_first()[i] == text[i + 1]);
        }
        lemma_utf8_separator_free(text.drop_first());
        assert forall|i: int| 0 <= i < (head + tail).len() implies #[trigger] (head + tail)[i]
            != SEPARATOR by {
            if i < head.len() {
                assert((head + tail)[i] == head[i]);
            } else {
                assert((head + tail)[i] == tail[i - head.len()]);
            }
        }
    }
}

/// Two byte sequences that agree, each made of a part without the
/// separator, the separator, and a rest, agree part by part.
proof fn lemma_split_at_separator(a: Seq<u8>, rest_a: Seq<u8>, b: Seq<u8>, rest_b: Seq<u8>)
    requires
        a + seq![SEPARATOR] + rest_a == b + seq![SEPARATOR] + rest_b,
        separator_free(a),
        separator_free(b),
    ensures
        a == b,
        rest_a == rest_b,
{
    let left = a + seq![SEPARATOR] + rest_a;
    let right = b + seq![SEPARATOR] + rest_b;
    assert(left[a.len() as int] == SEPARATOR);
    assert(right[b.len() as int] == SEPARATOR);
    if a.len() < b.len() {
        assert(right[a.len() as int] == b[a.len() as int]);
    }
    if b.len() < a.len() {
        assert(left[b.len() as int] == a[b.len() as int]);
    }
    assert forall|i: int| 0 <= i < a.len() implies a[i] == b[i] by {
        assert(left[i] == a[i]);
        assert(right[i] == b[i]);
    }
    assert(a =~= b);
    assert(left.len() == a.len() + 1 + rest_a.len());
    assert(right.len() == b.len() + 1 + rest_b.len());
    assert forall|i: int| 0 <= i < rest_a.len() implies rest_a[i] == rest_b[i] by {
        assert(left[a.len() + 1 + i] == rest_a[i]);
        assert(right[b.len() + 1 + i] == rest_b[i]);
    }
    assert(rest_a =~= rest_b);
}

/// What the separators are for: as long as neither namespace nor URL holds
/// NUL, requests that differ in anything hash different messages.
pub proof fn lemma_material_fixes_request(
    namespace_a: Seq<char>,
    url_a: Seq<char>,
    encoding_a: EncodingKind,
    namespace_b: Seq<char>,
    url_b: Seq<char>,
    encoding_b: EncodingKind,
)
    requires
        nul_free(namespace_a),
        nul_free(url_a),
        nul_free(namespace_b),
        nul_free(url_b),
    ensures
        key_material(namespace_a, url_a, encoding_a) == key_material(
            namespace_b,
            url_b,
            encoding_b,
        ) <==> namespace_a == namespace_b && url_a == url_b && encoding_a == encoding_b,
{
    let a = key_material(namespace_a, url_a, encoding_a);
    let b = key_material(namespace_b, url_b, encoding_b);
    if a == b {
        let rest_a = encode_utf8(url_a) + seq![SEPARATOR] + encoding_a.tag();
        let rest_b = encode_utf8(url_b) + seq![SEPARATOR] + encoding_b.tag();
        assert(a =~= encode_utf8(namespace_a) + seq![SEPARATOR] + rest_a);
        assert(b =~= encode_utf8(namespace_b) + seq![SEPARATOR] + rest_b);
        lemma_utf8_separator_free(namespace_a);
        lemma_utf8_separator_free(namespace_b);
        lemma_split_at_separator(
            encode_utf8(namespace_a),
            rest_a,
            encode_utf8(namespace_b),
            rest_b,
        );
        lemma_utf8_separator_free(url_a);
        lemma_utf8_separator_free(url_b);
        lemma_split_at_separator(
            encode_utf8(url_a),
            encoding_a.tag(),
            encode_utf8(url_b),
            encoding_b.tag(),
        );
        lemma_utf8_injective(namespace_a, namespace_b);
        lemma_utf8_injective(url_a, url_b);
        EncodingKind::lemma_tag_distinguishes(encoding_a, encoding_b);
    }
}

/// Two requests share a key only if they hash the same message or SHA-256
/// collides on their messages.
pub proof fn lemma_shared_key(
    namespace_a: Seq<char>,
    url_a: Seq<char>,
    encoding_a: EncodingKind,
    namespace_b: Seq<char>,
    url_b: Seq<char>,
    encoding_b: EncodingKind,
)
    ensures
        cache_key(namespace_a, url_a, encoding_a) == cache_key(namespace_b, url_b, encoding_b) <==> {
            ||| key_material(namespace_a, url_a, encoding_a) == key_material(
                namespace_b,
                url_b,
                encoding_b,
            )
            ||| sha256_collision(
                key_material(namespace_a, url_a, encoding_a),
                key_material(namespace_b, url_b, encoding_b),
            )
        },
{
    let a = key_material(namespace_a, url_a, encoding_a);
    let b = key_material(namespace_b, url_b, encoding_b);
    if hex_lower(sha256(a)) == hex_lower(sha256(b)) {
        lemma_hex_lower_injective(sha256(a), sha256(b));
    }
}

/// Changing only the encoding of a request changes its key, unless SHA-256
/// collides on the two messages.
pub proof fn lemma_encoding_changes_key(
    namespace: Seq<char>,
    url: Seq<char>,
    a: EncodingKind,
    b: EncodingKind,
)
    requires
        a != b,
    ensures
        cache_key(namespace, url, a) != cache_key(namespace, url, b) || sha256_collision(
            key_material(namespace, url, a),
            key_material(namespace, url, b),
        ),
{
    lemma_material_fixes_encoding(namespace, url, a, b);
    lemma_shared_key(namespace, url, a, namespace, url, b);
}

/// Changing only the namespace of a request changes its key, unless SHA-256
/// collides on the two messages.
pub proof fn lemma_namespace_changes_key(
    a: Seq<char>,
    b: Seq<char>,
    url: Seq<char>,
    encoding: EncodingKind,
)
    requires
        a != b,
    ensures
        cache_key(a, url, encoding) != cache_key(b, url, encoding) || sha256_collision(
            key_material(a, url, encoding),
            key_material(b, url, encoding),
        ),
{
    lemma_material_fixes_namespace(a, b, url, encoding);
    lemma_shared_key(a, url, encoding, b, url, encoding);
}

/// Changing only the URL of a request changes its key, unless SHA-256
/// collides on the two messages.
pub proof fn lemma_url_changes_key(
    namespace: Seq<char>,
    a: Seq<char>,
    b: Seq<char>,
    encoding: EncodingKind,
)
    requires
        a != b,
    ensures
        cache_key(namespace, a, encoding) != cache_key(namespace, b, encoding) || sha256_collision(
            key_material(namespace, a, encoding),
            key_material(namespace, b, encoding),
        ),
{
    lemma_material_fixes_url(namespace, a, b, encoding);
    lemma_shared_key(namespace, a, encoding, namespace, b, encoding);
}

/// As long as neither namespace nor URL holds NUL, two requests that differ
/// in anything have different keys, unless SHA-256 collides on their
/// messages.
pub proof fn lemma_request_changes_key(
    namespace_a: Seq<char>,
    url_a: Seq<char>,
    encoding_a: EncodingKind,
    namespace_b: Seq<char>,
    url_b: Seq<char>,
    encoding_b: EncodingKind,
)
    requires
        nul_free(namespace_a),
        nul_free(url_a),
        nul_free(namespace_b),
        nul_free(url_b),
        namespace_a != namespace_b || url_a != url_b || encoding_a != encoding_b,
    ensures
        cache_key(namespace_a, url_a, encoding_a) != cache_key(namespace_b, url_b, encoding_b)
            || sha256_collision(
            key_material(namespace_a, url_a, encoding_a),
            key_material(namespace_b, url_b, encoding_b),
        ),
{
    lemma_material_fixes_request(namespace_a, url_a, encoding_a, namespace_b, url_b, encoding_b);
    lemma_shared_key(namespace_a, url_a, encoding_a, namespace_b, url_b, encoding_b);
}

} // verus!
