use vstd::prelude::*;

verus! {

/// Bit position of the four version bits inside a UUID read as a big-endian 128-bit value.
pub open spec fn version_shift() -> nat {
    76
}

/// The UUID version nibble of a 128-bit UUID value.
pub open spec fn uuid_version(value: u128) -> int {
    (value as int / (vstd::arithmetic::power2::pow2(version_shift()) as int)) % 16
}

/// The two RFC 9562 variant bits of a 128-bit UUID value.
pub open spec fn uuid_variant(value: u128) -> int {
    (value as int / (vstd::arithmetic::power2::pow2(62) as int)) % 4
}

/// `uuid::Uuid::new_v4`, read back as its big-endian 128-bit value.
/// The crate masks random bits and then sets the version nibble to 4 and the
/// variant bits to `10`; which random value comes back is not stated.
#[verifier::external_body]
fn random_v4_uuid() -> (value: u128)
    ensures
        uuid_version(value) == 4,
        uuid_variant(value) == 2,
{
    uuid::Uuid::new_v4().as_u128()
}

/// A fresh random (version 4) UUID, as its 128-bit value.
pub fn new_v4_uuid() -> (value: u128)
    ensures
        uuid_version(value) == 4,
        uuid_variant(value) == 2,
{
    random_v4_uuid()
}

/// Lowercase hexadecimal digit of a nibble.
pub open spec fn lower_hex_digit(nibble: int) -> char {
    if nibble < 10 {
        (48 + nibble) as char
    } else {
        (87 + nibble) as char
    }
}

/// The `i`-th hexadecimal digit (0 is the most significant of 32) of a 128-bit value.
pub open spec fn uuid_nibble(value: u128, i: int) -> int {
    (value as int / (vstd::arithmetic::power2::pow2((4 * (31 - i)) as nat) as int)) % 16
}

pub open spec fn uuid_digits(value: u128, from: int, to: int) -> Seq<char> {
    Seq::new((to - from) as nat, |k: int| lower_hex_digit(uuid_nibble(value, from + k)))
}

/// The hyphenated lowercase form of a UUID: 8-4-4-4-12 hexadecimal digits, most significant first.
pub open spec fn hyphenated(value: u128) -> Seq<char> {
    uuid_digits(value, 0, 8) + seq!['-'] + uuid_digits(value, 8, 12) + seq!['-'] + uuid_digits(value, 12, 16)
        + seq!['-'] + uuid_digits(value, 16, 20) + seq!['-'] + uuid_digits(value, 20, 32)
}

/// `Uuid::from_u128(value).to_string()`: the crate's `Display` writes the hyphenated
/// lowercase form of the big-endian bytes.
#[verifier::external_body]
fn uuid_to_string(value: u128) -> (text: String)
    ensures
        text@ == hyphenated(value),
{
    uuid::Uuid::from_u128(value).to_string()
}

/// The hyphenated lowercase text of a UUID held as its 128-bit value.
pub fn uuid_hyphenated(value: u128) -> (text: String)
    ensures
        text@ == hyphenated(value),
{
    uuid_to_string(value)
}

/// What `uuid::Uuid::parse_str` accepts and the value it reads (simple, hyphenated, braced
/// and URN forms); the grammar is not restated here.
pub uninterp spec fn uuid_parse(text: Seq<char>) -> Option<u128>;

/// `uuid::Uuid::parse_str`, read back as its big-endian 128-bit value. The crate documents
/// that every format it writes, the hyphenated one among them, is read back.
#[verifier::external_body]
fn parse_uuid(text: &str) -> (value: Option<u128>)
    ensures
        value == uuid_parse(text@),
        forall|written: u128| text@ == hyphenated(written) ==> value == Some(written),
{
    match uuid::Uuid::parse_str(text) {
        Ok(uuid) => Some(uuid.as_u128()),
        Err(_) => None,
    }
}

/// Text that is not a UUID.
#[derive(Clone, Copy, Debug, PartialEq, Eq)]
pub struct InvalidUserAccountId;

/// Identifier of a user account: a UUID held as its big-endian 128-bit value.
#[derive(Clone, Copy, Debug, PartialEq, Eq, Hash, Structural)]
pub struct UserAccountId {
    value: u128,
}

impl UserAccountId {
    pub closed spec fn uuid(self) -> u128 {
        self.value
    }

    /// A fresh random (version 4) identifier.
    pub fn new() -> (id: Self)
        ensures
            uuid_version(id.uuid()) == 4,
            uuid_variant(id.uuid()) == 2,
    {
        UserAccountId { value: new_v4_uuid() }
    }

    pub fn from_uuid(value: u128) -> (id: Self)
        ensures
            id.uuid() == value,
    {
        UserAccountId { value }
    }

    pub fn as_uuid(&self) -> (value: u128)
        ensures
            value == self.uuid(),
    {
        self.value
    }

    /// The hyphenated lowercase text of the identifier.
    pub fn to_hyphenated(&self) -> (text: String)
        ensures
            text@ == hyphenated(self.uuid()),
    {
        uuid_to_string(self.value)
    }

    /// Reads an identifier from any UUID text form; the hyphenated text of an identifier reads
    /// back as that identifier.
    pub fn parse(text: &str) -> (id: Result<UserAccountId, InvalidUserAccountId>)
        ensures
            match id {
                Ok(id) => uuid_parse(text@) == Some(id.uuid()),
                Err(_) => uuid_parse(text@) is None,
            },
            forall|written: u128| text@ == hyphenated(written) ==> (id matches Ok(read) && read.uuid() == written),
    {
        match parse_uuid(text) {
            Some(value) => Ok(UserAccountId { value }),
            None => Err(InvalidUserAccountId),
        }
    }
}

impl Default for UserAccountId {
    /// A fresh random (version 4) identifier.
    fn default() -> (id: Self)
        ensures
            uuid_version(id.uuid()) == 4,
            uuid_variant(id.uuid()) == 2,
    {
        UserAccountId::new()
    }
}

} // verus!
