//! Email addresses accepted for registration.
use vstd::prelude::*;
use crate::text::{contains_char, to_lowercase, trim, trim_spec, unicode_lowercase};

verus! {

/// Whether `email_address` accepts `address` as a bare mailbox: no display
/// text and no domain literal (`EmailAddress::parse_with_options` with
/// `Options::default().without_display_text().without_domain_literal()`).
pub uninterp spec fn mailbox_accepted(address: Seq<char>) -> bool;

/// `email_address::EmailAddress::parse_with_options` with display text and
/// domain literals turned off. The crate keeps the parsed text unchanged
/// (`as_str` returns the input), so whether it succeeds is all the caller needs.
/// It splits the address at its last `@` and fails when there is none.
#[verifier::external_body]
fn parse_mailbox(address: &str) -> (accepted: bool)
    ensures
        accepted == mailbox_accepted(address@),
        accepted ==> address@.contains('@'),
{
    email_address::EmailAddress::parse_with_options(
        address,
        email_address::Options::default().without_display_text().without_domain_literal(),
    ).is_ok()
}

/// The canonical spelling of a submitted address: trimmed, then lowercased.
pub open spec fn normalized_email(input: Seq<char>) -> Seq<char> {
    unicode_lowercase(trim_spec(input))
}

/// What `Email::parse` gives for `input`: quoted local parts are refused,
/// and the canonical spelling must be a bare mailbox.
pub open spec fn email_parse_spec(input: Seq<char>) -> Option<Seq<char>> {
    if input.contains('"') {
        None
    } else if mailbox_accepted(normalized_email(input)) {
        Some(normalized_email(input))
    } else {
        None
    }
}

/// Only a quote is refused up front: any other address is parsed exactly when the mailbox
/// parser accepts its canonical spelling (trimmed, then lowercased), and then to that spelling.
pub proof fn lemma_parse_accepts_every_canonical_mailbox(input: Seq<char>)
    ensures
        input.contains('"') ==> email_parse_spec(input) is None,
        !input.contains('"') ==> (email_parse_spec(input) is Some <==> mailbox_accepted(normalized_email(input))),
        !input.contains('"') && mailbox_accepted(normalized_email(input)) ==> email_parse_spec(input) == Some(
            normalized_email(input),
        ),
{
}

#[derive(Clone, Copy, Debug, PartialEq, Eq)]
pub struct InvalidEmail;

/// Index of the last occurrence of `c` in `s`, or -1.
pub open spec fn last_index_of(s: Seq<char>, c: char) -> int
    decreases s.len(),
{
    if s.len() == 0 {
        -1
    } else if s.last() == c {
        s.len() - 1
    } else {
        last_index_of(s.drop_last(), c)
    }
}

pub open spec fn ascii_lower(c: char) -> char {
    if 'A' <= c && c <= 'Z' {
        ((c as u32) + 32) as char
    } else {
        c
    }
}

pub open spec fn eq_ignore_ascii_case(a: Seq<char>, b: Seq<char>) -> bool {
    a.len() == b.len() && forall|i: int| 0 <= i < a.len() ==> ascii_lower(#[trigger] a[i]) == ascii_lower(b[i])
}

/// Mailbox equality of `email_address`: equal local parts, and domains equal up to ASCII case,
/// where the local part ends at the last `@`.
pub open spec fn same_mailbox(a: Seq<char>, b: Seq<char>) -> bool {
    let i = last_index_of(a, '@');
    let j = last_index_of(b, '@');
    a.subrange(0, i) == b.subrange(0, j) && eq_ignore_ascii_case(
        a.subrange(i + 1, a.len() as int),
        b.subrange(j + 1, b.len() as int),
    )
}

/// `PartialEq` of `email_address::EmailAddress`: it splits both addresses at their last `@`
/// (unwrapping, so each must hold one), compares the local parts exactly and the domains
/// with `eq_ignore_ascii_case`.
#[verifier::external_body]
fn mailbox_eq(a: &str, b: &str) -> (equal: bool)
    requires
        a@.contains('@'),
        b@.contains('@'),
    ensures
        equal == same_mailbox(a@, b@),
{
    email_address::EmailAddress::new_unchecked(a) == email_address::EmailAddress::new_unchecked(b)
}

/// A mailbox in canonical spelling.
#[derive(Debug, PartialEq, Eq, Hash)]
pub struct Email {
    value: String,
}

impl View for Email {
    type V = Seq<char>;

    closed spec fn view(&self) -> Seq<char> {
        self.value@
    }
}

impl Email {
    #[verifier::type_invariant]
    spec fn holds_mailbox(self) -> bool {
        &&& mailbox_accepted(self.value@)
        &&& self.value@.contains('@')
    }

    pub fn parse(value: &str) -> (parsed: Result<Email, InvalidEmail>)
        ensures
            match parsed {
                Ok(email) => email_parse_spec(value@) == Some(email@),
                Err(_) => email_parse_spec(value@) is None,
            },
            !value@.contains('"') && mailbox_accepted(normalized_email(value@)) ==> (parsed matches Ok(email)
                && email@ == normalized_email(value@)),
            parsed is Ok ==> !value@.contains('"') && mailbox_accepted(normalized_email(value@)),
    {
        // Quoted local parts introduce alternate spellings of the same mailbox.
        // The registration contract accepts an unquoted mailbox and a DNS domain.
        if contains_char(value, '"') {
            return Err(InvalidEmail);
        }
        let canonical = to_lowercase(trim(value));
        if parse_mailbox(canonical.as_str()) {
            Ok(Email { value: canonical })
        } else {
            Err(InvalidEmail)
        }
    }

    pub fn as_str(&self) -> (text: &str)
        ensures
            text@ == self@,
            mailbox_accepted(self@),
            self@.contains('@'),
    {
        proof {
            use_type_invariant(self);
        }
        self.value.as_str()
    }

    /// A second handle on the same address.
    pub fn duplicate(&self) -> (copy: Email)
        ensures
            copy@ == self@,
    {
        proof {
            use_type_invariant(self);
        }
        Email { value: self.value.clone() }
    }

    /// Whether both name the same mailbox.
    pub fn same_address(&self, other: &Email) -> (same: bool)
        ensures
            same == same_mailbox(self@, other@),
    {
        proof {
            use_type_invariant(self);
            use_type_invariant(other);
        }
        mailbox_eq(self.value.as_str(), other.value.as_str())
    }
}

impl Clone for Email {
    fn clone(&self) -> (copy: Self)
        ensures
            copy@ == self@,
    {
        self.duplicate()
    }
}

} // verus!
