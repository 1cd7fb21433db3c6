//! Identifiers: of topics, of versions and of producers.

use vstd::prelude::*;

verus! {

/// An identifier of sixteen bytes.
#[derive(Clone, Copy, Debug, PartialEq, Eq)]
pub struct Uuid {
    pub bytes: [u8; 16],
}

impl DeepView for Uuid {
    type V = Seq<u8>;

    open spec fn deep_view(&self) -> Seq<u8> {
        self.bytes@
    }
}

/// The identifier whose bytes are all zero.
pub open spec fn nil_uuid() -> Seq<u8> {
    Seq::new(16, |i: int| 0u8)
}

/// A digit of the hexadecimal notation, in lower case.
pub open spec fn hex_digit(n: int) -> char {
    if n < 10 {
        ('0' as int + n) as char
    } else {
        ('a' as int + n - 10) as char
    }
}

/// Bytes in hexadecimal notation, the high half of each byte first.
pub open spec fn hex(bytes: Seq<u8>) -> Seq<char> {
    Seq::new(
        2 * bytes.len(),
        |i: int|
            hex_digit(
                if i % 2 == 0 {
                    bytes[i / 2] as int / 16
                } else {
                    bytes[i / 2] as int % 16
                },
            ),
    )
}

/// The text of an identifier: its bytes in hexadecimal notation, in groups of four, two, two, two
/// and six bytes with a hyphen between them.
pub open spec fn uuid_text(bytes: Seq<u8>) -> Seq<char> {
    hex(bytes.subrange(0, 4)) + seq!['-'] + hex(bytes.subrange(4, 6)) + seq!['-'] + hex(
        bytes.subrange(6, 8),
    ) + seq!['-'] + hex(bytes.subrange(8, 10)) + seq!['-'] + hex(bytes.subrange(10, 16))
}

/// Whether an identifier is one of version four: the version and the variant stand in their bits.
pub open spec fn is_v4(bytes: Seq<u8>) -> bool {
    bytes.len() == 16 && bytes[6] / 16 == 4 && bytes[8] / 64 == 2
}

/// The identifier that a text stands for, in any of the notations that `uuid::Uuid::parse_str`
/// takes.
pub uninterp spec fn uuid_of_text(text: Seq<char>) -> Option<Seq<u8>>;

/// `uuid::Uuid::new_v4`: random bytes, but for the bits that give the version and the variant.
#[verifier::external_body]
fn random_uuid() -> (id: Uuid)
    ensures
        is_v4(id.deep_view()),
{
    Uuid { bytes: uuid::Uuid::new_v4().into_bytes() }
}

/// `uuid::Uuid`'s `Display`: the hyphenated text in lower case, which `uuid::Uuid::parse_str` reads
/// back as the same identifier.
#[verifier::external_body]
fn format_uuid(id: &Uuid) -> (text: String)
    ensures
        text@ == uuid_text(id.deep_view()),
        uuid_of_text(text@) == Some(id.deep_view()),
{
    uuid::Uuid::from_bytes(id.bytes).to_string()
}

/// `uuid::Uuid::parse_str`, whose result is [`uuid_of_text`].
#[verifier::external_body]
fn parse_uuid(text: &str) -> (id: Option<Uuid>)
    ensures
        id.deep_view() == uuid_of_text(text@),
{
    uuid::Uuid::parse_str(text).ok().map(|id| Uuid { bytes: id.into_bytes() })
}

/// `rand::rng().random::<i64>()`: any number.
#[verifier::external_body]
pub(crate) fn random_i64() -> (n: i64) {
    rand::Rng::random(&mut rand::rng())
}

impl Uuid {
    /// The identifier whose bytes are all zero.
    pub fn nil() -> (id: Uuid)
        ensures
            id.deep_view() == nil_uuid(),
    {
        let bytes: [u8; 16] = [0, 0, 0, 0, 0, 0, 0, 0, 0, 0, 0, 0, 0, 0, 0, 0];
        assert(bytes@ =~= nil_uuid());
        Uuid { bytes }
    }

    /// A random identifier of version four.
    pub fn new_v4() -> (id: Uuid)
        ensures
            is_v4(id.deep_view()),
    {
        random_uuid()
    }

    /// The text of the identifier, from which [`Uuid::parse_str`] gets it back.
    pub fn text(&self) -> (text: String)
        ensures
            text@ == uuid_text(self.deep_view()),
            uuid_of_text(text@) == Some(self.deep_view()),
    {
        format_uuid(self)
    }

    /// The identifier that a text stands for.
    pub fn parse_str(text: &str) -> (id: Option<Uuid>)
        ensures
            id.deep_view() == uuid_of_text(text@),
    {
        parse_uuid(text)
    }

    /// The identifier that a text stands for, or the nil identifier where it stands for none.
    pub fn parse_or_nil(text: &str) -> (id: Uuid)
        ensures
            id.deep_view() == uuid_or_nil(uuid_of_text(text@)),
    {
        match parse_uuid(text) {
            Some(id) => id,
            None => Uuid::nil(),
        }
    }
}

/// An identifier that was parsed, or the nil identifier.
pub open spec fn uuid_or_nil(parsed: Option<Seq<u8>>) -> Seq<u8> {
    match parsed {
        Some(id) => id,
        None => nil_uuid(),
    }
}

/// The nil identifier is made of sixteen bytes that are zero. It takes the place of what could not
/// be parsed, and of nothing else; a random identifier is never nil.
pub proof fn the_nil_identifier_stands_for_none(parsed: Option<Seq<u8>>, bytes: Seq<u8>)
    ensures
        nil_uuid().len() == 16,
        forall|i: int| 0 <= i < 16 ==> #[trigger] nil_uuid()[i] == 0,
        parsed matches Some(id) ==> uuid_or_nil(parsed) == id,
        parsed is None ==> uuid_or_nil(parsed) == nil_uuid(),
        is_v4(bytes) ==> bytes.len() == 16 && 0x40 <= bytes[6] <= 0x4f && 0x80 <= bytes[8] <= 0xbf
            && bytes != nil_uuid(),
{
    assert(nil_uuid()[6] == 0);
}

/// The number that a digit of the hexadecimal notation stands for.
pub open spec fn digit_value(digit: char) -> int {
    if '0' <= digit && digit <= '9' {
        digit as int - '0' as int
    } else {
        digit as int - 'a' as int + 10
    }
}

/// The text of an identifier has thirty-six characters, with hyphens after the digits of the
/// fourth, the sixth, the eighth and the tenth byte. Each byte is what its two digits say.
pub proof fn an_identifier_is_written_byte_by_byte(bytes: Seq<u8>, k: int)
    requires
        bytes.len() == 16,
        0 <= k < 16,
    ensures
        uuid_text(bytes).len() == 36,
        uuid_text(bytes)[8] == '-',
        uuid_text(bytes)[13] == '-',
        uuid_text(bytes)[18] == '-',
        uuid_text(bytes)[23] == '-',
        ({
            let hyphens: int = if k < 4 {
                0
            } else if k < 6 {
                1
            } else if k < 8 {
                2
            } else if k < 10 {
                3
            } else {
                4
            };
            let high = uuid_text(bytes)[2 * k + hyphens];
            let low = uuid_text(bytes)[2 * k + hyphens + 1];
            digit_value(high) * 16 + digit_value(low) == bytes[k]
        }),
{
    let n: int = bytes[k] as int;
    assert(0 <= n / 16 < 16 && 0 <= n % 16 < 16 && n / 16 * 16 + n % 16 == n);
    assert(digit_value(hex_digit(n / 16)) == n / 16);
    assert(digit_value(hex_digit(n % 16)) == n % 16);
}

} // verus!
