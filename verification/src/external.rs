//! Data carried to and from the external NFT registries, modelled as plain
//! values, and the account-name check that the host library provides.

use vstd::prelude::*;

verus! {

/// Descriptive metadata for a token, in the shape the NFT registries take it.
/// The two hash fields hold the raw digest bytes; the host layer carries them
/// base64-encoded on the wire.
#[derive(Debug)]
pub struct NFTTokenMetadata {
    /// The title for this token.
    pub title: Option<String>,
    /// Free-form description of this token.
    pub description: Option<String>,
    /// URL to associated media, preferably on content-addressed storage.
    pub media: Option<String>,
    /// sha256 hash of the content referenced by the `media` field.
    pub media_hash: Option<Vec<u8>>,
    /// Number of copies of this set of metadata in existence when minted.
    pub copies: Option<u16>,
    /// ISO 8601 datetime when the token expires.
    pub expires_at: Option<String>,
    /// ISO 8601 datetime when the token starts being valid.
    pub starts_at: Option<String>,
    /// When the token was last updated, Unix epoch in milliseconds.
    pub extra: Option<String>,
    /// URL to an off-chain JSON file with more info.
    pub reference: Option<String>,
    /// sha256 hash of the JSON pointed at by the `reference` field.
    pub reference_hash: Option<Vec<u8>>,
}

/// The mathematical value of a [`NFTTokenMetadata`]: every text field as a
/// sequence of characters, every byte field as a sequence of bytes.
pub struct NFTTokenMetadataView {
    pub title: Option<Seq<char>>,
    pub description: Option<Seq<char>>,
    pub media: Option<Seq<char>>,
    pub media_hash: Option<Seq<u8>>,
    pub copies: Option<u16>,
    pub expires_at: Option<Seq<char>>,
    pub starts_at: Option<Seq<char>>,
    pub extra: Option<Seq<char>>,
    pub reference: Option<Seq<char>>,
    pub reference_hash: Option<Seq<u8>>,
}

impl View for NFTTokenMetadata {
    type V = NFTTokenMetadataView;

    open spec fn view(&self) -> NFTTokenMetadataView {
        NFTTokenMetadataView {
            title: self.title.deep_view(),
            description: self.description.deep_view(),
            media: self.media.deep_view(),
            media_hash: self.media_hash.deep_view(),
            copies: self.copies,
            expires_at: self.expires_at.deep_view(),
            starts_at: self.starts_at.deep_view(),
            extra: self.extra.deep_view(),
            reference: self.reference.deep_view(),
            reference_hash: self.reference_hash.deep_view(),
        }
    }
}

impl Clone for NFTTokenMetadata {
    /// A clone carries the same mathematical value.
    fn clone(&self) -> (res: Self)
        ensures
            res@ == self@,
    {
        let res = NFTTokenMetadata {
            title: self.title.clone(),
            description: self.description.clone(),
            media: self.media.clone(),
            media_hash: self.media_hash.clone(),
            copies: self.copies,
            expires_at: self.expires_at.clone(),
            starts_at: self.starts_at.clone(),
            extra: self.extra.clone(),
            reference: self.reference.clone(),
            reference_hash: self.reference_hash.clone(),
        };
        proof {
            lemma_option_string_clone(self.title, res.title);
            lemma_option_string_clone(self.description, res.description);
            lemma_option_string_clone(self.media, res.media);
            lemma_option_string_clone(self.expires_at, res.expires_at);
            lemma_option_string_clone(self.starts_at, res.starts_at);
            lemma_option_string_clone(self.extra, res.extra);
            lemma_option_string_clone(self.reference, res.reference);
            lemma_option_bytes_clone(self.media_hash, res.media_hash);
            lemma_option_bytes_clone(self.reference_hash, res.reference_hash);
        }
        res
    }
}

/// A cloned optional string reads as the same optional character sequence.
proof fn lemma_option_string_clone(a: Option<String>, b: Option<String>)
    requires
        a is Some <==> b is Some,
        a is Some ==> cloned::<String>(a.unwrap(), b.unwrap()),
    ensures
        a.deep_view() == b.deep_view(),
{
}

/// A cloned optional byte vector reads as the same optional byte sequence.
proof fn lemma_option_bytes_clone(a: Option<Vec<u8>>, b: Option<Vec<u8>>)
    requires
        a is Some <==> b is Some,
        a is Some ==> cloned::<Vec<u8>>(a.unwrap(), b.unwrap()),
    ensures
        a.deep_view() == b.deep_view(),
{
    if a is Some {
        let va = a.unwrap();
        let vb = b.unwrap();
        assert(va@ =~= vb@);
        assert(a.deep_view() =~= b.deep_view());
    } else {
        assert(a.deep_view() =~= b.deep_view());
    }
}

/// One token descriptor as an external registry reports it: the token's id on
/// its own store.
pub struct TokenCompliant {
    /// The id of this token on its store; not unique across stores.
    pub token_id: String,
}

impl View for TokenCompliant {
    type V = Seq<char>;

    open spec fn view(&self) -> Seq<char> {
        self.token_id@
    }
}

impl DeepView for TokenCompliant {
    type V = Seq<char>;

    open spec fn deep_view(&self) -> Seq<char> {
        self.token_id@
    }
}

/// How a minting royalty is split between accounts, keyed by account name.
pub type SplitBetweenUnparsed = Vec<(String, u32)>;

/// Unparsed pre-image of a royalty split, as handed to a registry's mint call.
pub struct RoyaltyArgs {
    pub split_between: SplitBetweenUnparsed,
    pub percentage: u32,
}

/// Whether the byte `b` separates the parts of an account name.
pub open spec fn account_byte_is_separator(b: u8) -> bool {
    b == 45 || b == 95 || b == 46
}

/// Whether the byte `b` may occur in an account name at all: a lower-case
/// ASCII letter, a digit, or a separator.
pub open spec fn account_byte_is_valid(b: u8) -> bool {
    (97 <= b && b <= 122) || (48 <= b && b <= 57) || account_byte_is_separator(b)
}

/// A well-formed account name, over its UTF-8 bytes: 2 to 64 bytes, each a
/// lower-case ASCII letter, a digit or one of the separators `-`, `_` and
/// `.`, with no separator at either end and no two separators adjacent.
pub open spec fn valid_account_id(s: Seq<u8>) -> bool {
    &&& 2 <= s.len() <= 64
    &&& forall|i: int| 0 <= i < s.len() ==> account_byte_is_valid(#[trigger] s[i])
    &&& !account_byte_is_separator(s[0])
    &&& !account_byte_is_separator(s[s.len() - 1])
    &&& forall|i: int|
        1 <= i < s.len() ==> !(account_byte_is_separator(#[trigger] s[i])
            && account_byte_is_separator(s[i - 1]))
}

/// Relies on `near_sdk::env::is_valid_account_id`: a pure function of the
/// name's bytes. It rejects a name shorter than 2 or longer than 64 bytes and
/// any byte outside lower-case ASCII letters, digits and the separators `-`,
/// `_` and `.`; walking the bytes with "the last byte was a separator" state
/// (initially true, and checked once more after the loop), it also rejects a
/// separator at either end and two adjacent separators. That is
/// [`valid_account_id`] of the string's UTF-8 bytes.
#[verifier::external_body]
pub(crate) fn is_valid_account_id(s: &str) -> (r: bool)
    ensures
        r == valid_account_name(s@),
{
    near_sdk::env::is_valid_account_id(s.as_bytes())
}

/// A well-formed account name, as a predicate on the name's characters:
/// [`valid_account_id`] of their UTF-8 encoding.
pub open spec fn valid_account_name(s: Seq<char>) -> bool {
    valid_account_id(vstd::utf8::encode_utf8(s))
}

} // verus!
