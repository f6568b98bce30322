//! Document identifiers and their hexadecimal text form.

use vstd::prelude::*;

verus! {

/// The identifier a document store assigns to a stored event: twelve raw bytes.
#[derive(Clone, Copy, Debug)]
pub struct DocId {
    pub bytes: [u8; 12],
}

impl View for DocId {
    type V = Seq<u8>;

    open spec fn view(&self) -> Seq<u8> {
        self.bytes@
    }
}

/// Whether `c` is a hexadecimal digit, in either case.
pub open spec fn is_hex_digit(c: char) -> bool {
    ('0' <= c && c <= '9') || ('a' <= c && c <= 'f') || ('A' <= c && c <= 'F')
}

/// The value of a hexadecimal digit.
pub open spec fn hex_value(c: char) -> int {
    if '0' <= c && c <= '9' {
        c as int - '0' as int
    } else if 'a' <= c && c <= 'f' {
        c as int - 'a' as int + 10
    } else {
        c as int - 'A' as int + 10
    }
}

/// Whether `s` is the text form of an identifier: 24 hexadecimal digits.
pub open spec fn is_id_text(s: Seq<char>) -> bool {
    s.len() == 24 && forall|i: int| 0 <= i < 24 ==> is_hex_digit(#[trigger] s[i])
}

/// The bytes written by the text form `s`, two digits per byte, high digit first.
pub open spec fn id_bytes_of_text(s: Seq<char>) -> Seq<u8> {
    Seq::new(12, |i: int| (hex_value(s[2 * i]) * 16 + hex_value(s[2 * i + 1])) as u8)
}

/// Relies on bson's `ObjectId::parse_str`, which succeeds exactly on 24
/// hexadecimal digits and decodes them two by two.
#[verifier::external_body]
pub(crate) fn parse_doc_id(s: &str) -> (r: Option<DocId>)
    ensures
        r is Some <==> is_id_text(s@),
        r matches Some(id) ==> id@ == id_bytes_of_text(s@),
{
    match bson::oid::ObjectId::parse_str(s) {
        Ok(oid) => Some(DocId { bytes: oid.bytes() }),
        Err(_) => None,
    }
}

/// Relies on bson's `ObjectId::new`, which draws a fresh identifier from the
/// clock, the process and a counter; nothing is known of its bytes.
#[verifier::external_body]
pub(crate) fn fresh_doc_id() -> (r: DocId) {
    DocId { bytes: bson::oid::ObjectId::new().bytes() }
}

impl DocId {
    /// The identifier written `text`, if `text` is 24 hexadecimal digits.
    pub fn parse(text: &str) -> (r: Option<DocId>)
        ensures
            r is Some <==> is_id_text(text@),
            r matches Some(id) ==> id@ == id_bytes_of_text(text@),
    {
        parse_doc_id(text)
    }

    /// Whether two identifiers hold the same bytes.
    pub fn same(&self, other: &DocId) -> (r: bool)
        ensures
            r == (self@ == other@),
    {
        let mut i: usize = 0;
        while i < 12
            invariant
                0 <= i <= 12,
                self@.len() == 12,
                other@.len() == 12,
                forall|j: int| 0 <= j < i ==> self@[j] == other@[j],
            decreases 12 - i,
        {
            if self.bytes[i] != other.bytes[i] {
                return false;
            }
            i = i + 1;
        }
        assert(self@ =~= other@);
        true
    }
}

} // verus!
