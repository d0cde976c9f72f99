//! Object identifiers: twenty bytes, written as hexadecimal text.

use crate::config::{Backend, COMMIT_REF};
use crate::failure::{Failure, FailureKind, FailureView};
use std::str::FromStr;
use vstd::prelude::*;

verus! {

/// The value of the hexadecimal digit `c`, in either case; `None` for any
/// other character.
pub open spec fn hex_digit(c: char) -> Option<nat> {
    if '0' <= c <= '9' {
        Some((c as int - '0' as int) as nat)
    } else if 'a' <= c <= 'f' {
        Some((c as int - 'a' as int + 10) as nat)
    } else if 'A' <= c <= 'F' {
        Some((c as int - 'A' as int + 10) as nat)
    } else {
        None
    }
}

/// Whether every character of `s` is a hexadecimal digit.
pub open spec fn is_hex(s: Seq<char>) -> bool {
    forall|k: int| 0 <= k < s.len() ==> (#[trigger] hex_digit(s[k])) is Some
}

/// The four bits that position `p` of the text `s` gives: the value of the
/// digit there, and zero past the end of the text.
pub open spec fn nibble(s: Seq<char>, p: int) -> nat {
    if 0 <= p < s.len() && hex_digit(s[p]) is Some {
        hex_digit(s[p])->0
    } else {
        0
    }
}

/// The twenty bytes that hexadecimal text stands for: two digits to a byte,
/// the first digit of each pair in the high four bits, and zeros where the
/// text is shorter than forty digits.
pub open spec fn hex_bytes(s: Seq<char>) -> Seq<u8> {
    Seq::new(20, |k: int| (nibble(s, 2 * k) * 16 + nibble(s, 2 * k + 1)) as u8)
}

/// The texts that the backend `Gix` takes for an identifier: exactly forty
/// hexadecimal digits.
pub open spec fn is_full_hex(s: Seq<char>) -> bool {
    s.len() == 40 && is_hex(s)
}

/// The texts that the backend `Git2` takes for an identifier: one to forty
/// hexadecimal digits. A shorter text stands for the identifier that it
/// begins.
pub open spec fn is_short_hex(s: Seq<char>) -> bool {
    1 <= s.len() <= 40 && is_hex(s)
}

/// Whether `backend` takes the text `s` for an identifier.
pub open spec fn accepts(backend: Backend, s: Seq<char>) -> bool {
    match backend {
        Backend::Gix => is_full_hex(s),
        Backend::Git2 => is_short_hex(s),
    }
}

/// The failure of reading an identifier from the text `s`.
pub open spec fn invalid_identifier(s: Seq<char>) -> FailureView {
    FailureView { kind: FailureKind::InvalidIdentifier, cause: s }
}

/// Trusted: `gix::Error`, the error of the gix crates. Nothing is known of
/// what a value holds.
#[verifier::external_type_specification]
#[verifier::external_body]
pub struct ExGixError(gix::Error);

/// Trusted: `git2::Error`, the error of the git2 crate. Nothing is known of
/// what a value holds.
#[verifier::external_type_specification]
#[verifier::external_body]
pub struct ExGit2Error(git2::Error);

/// Trusted: `gix::ObjectId::from_str`. It succeeds exactly on texts of forty
/// hexadecimal digits, upper or lower case, and then gives the twenty bytes
/// that the digits write, two digits to a byte, high four bits first. (The
/// crate is built for SHA-1 identifiers only, so no other length is taken.)
#[verifier::external_body]
fn gix_object_id(text: &str) -> (r: Result<[u8; 20], gix::Error>)
    ensures
        r is Ok <==> is_full_hex(text@),
        r matches Ok(bytes) ==> bytes@ == hex_bytes(text@),
{
    let id = gix::ObjectId::from_str(text)?;
    let mut bytes = [0u8; 20];
    bytes.copy_from_slice(id.as_bytes());
    Ok(bytes)
}

/// Trusted: `git2::Oid::from_str`. It succeeds exactly on texts of one to
/// forty hexadecimal digits, upper or lower case, and then gives twenty
/// bytes: those that the digits write, two digits to a byte, high four bits
/// first, and zero bits where the text has ended.
#[verifier::external_body]
fn git2_object_id(text: &str) -> (r: Result<[u8; 20], git2::Error>)
    ensures
        r is Ok <==> is_short_hex(text@),
        r matches Ok(bytes) ==> bytes@ == hex_bytes(text@),
{
    let id = git2::Oid::from_str(text)?;
    let mut bytes = [0u8; 20];
    bytes.copy_from_slice(id.as_bytes());
    Ok(bytes)
}

/// The identifier of an object in the store.
#[derive(Clone, Copy, Debug)]
pub struct ObjectId {
    pub bytes: [u8; 20],
}

impl View for ObjectId {
    type V = Seq<u8>;

    open spec fn view(&self) -> Seq<u8> {
        self.bytes@
    }
}

impl ObjectId {
    /// The identifier with the given bytes.
    pub fn from_bytes(bytes: [u8; 20]) -> (id: ObjectId)
        ensures
            id@ == bytes@,
    {
        ObjectId { bytes }
    }

    /// Reads an identifier from text as the given backend does. The text is
    /// taken exactly where the backend accepts it; any other text is an
    /// invalid identifier, and the failure names the text.
    pub fn parse(backend: Backend, text: &str) -> (r: Result<ObjectId, Failure>)
        ensures
            r is Ok <==> accepts(backend, text@),
            r matches Ok(id) ==> id@ == hex_bytes(text@),
            r matches Err(f) ==> f@ == invalid_identifier(text@),
    {
        match backend {
            Backend::Gix => match gix_object_id(text) {
                Ok(bytes) => Ok(ObjectId { bytes }),
                Err(_) => Err(Failure::new(FailureKind::InvalidIdentifier, text.to_owned())),
            },
            Backend::Git2 => match git2_object_id(text) {
                Ok(bytes) => Ok(ObjectId { bytes }),
                Err(_) => Err(Failure::new(FailureKind::InvalidIdentifier, text.to_owned())),
            },
        }
    }

    /// Whether two identifiers hold the same bytes.
    pub fn same(&self, other: &ObjectId) -> (b: bool)
        ensures
            b == (self@ == other@),
    {
        let mut k: usize = 0;
        while k < 20
            invariant
                k <= 20,
                forall|j: int| 0 <= j < k ==> self.bytes@[j] == other.bytes@[j],
            decreases 20 - k,
        {
            if self.bytes[k] != other.bytes[k] {
                return false;
            }
            k = k + 1;
        }
        assert(self.bytes@ =~= other.bytes@);
        true
    }
}

/// The identifier that a run is modelled on by default is one that both
/// backends take, and both read the same twenty bytes from it.
pub proof fn lemma_built_in_identifier(backend: Backend)
    ensures
        is_full_hex(COMMIT_REF@),
        accepts(backend, COMMIT_REF@),
        hex_bytes(COMMIT_REF@) == seq![
            0x8du8,
            0x83u8,
            0x13u8,
            0x9au8,
            0xb7u8,
            0xfdu8,
            0x7bu8,
            0xdbu8,
            0x56u8,
            0x94u8,
            0x17u8,
            0xdcu8,
            0x17u8,
            0x49u8,
            0x4fu8,
            0x97u8,
            0x30u8,
            0xb1u8,
            0xb6u8,
            0xecu8,
        ],
{
    reveal_strlit("8d83139ab7fd7bdb569417dc17494f9730b1b6ec");
    let s = COMMIT_REF@;
    assert(s.len() == 40);
    assert(is_hex(s)) by {
        assert forall|k: int| 0 <= k < s.len() implies (#[trigger] hex_digit(s[k])) is Some by {
            if k < 10 {
            } else if k < 20 {
            } else if k < 30 {
            } else {
            }
        }
    }
    assert(hex_bytes(s) =~= seq![
        0x8du8,
        0x83u8,
        0x13u8,
        0x9au8,
        0xb7u8,
        0xfdu8,
        0x7bu8,
        0xdbu8,
        0x56u8,
        0x94u8,
        0x17u8,
        0xdcu8,
        0x17u8,
        0x49u8,
        0x4fu8,
        0x97u8,
        0x30u8,
        0xb1u8,
        0xb6u8,
        0xecu8,
    ]);
}

} // verus!
