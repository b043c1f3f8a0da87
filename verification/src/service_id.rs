//! Onion service ids as the library holds them: the 56 character base32 text
//! of a version 3 onion service id.
use vstd::prelude::*;

use crate::text::str_eq;

verus! {

/// Whether `tor_interface` accepts a text as a v3 onion service id (length,
/// base32 alphabet, version byte and checksum, per the tor address spec).
pub uninterp spec fn is_valid_service_id(text: Seq<char>) -> bool;

/// Trusted: calls `tor_interface::tor_crypto::V3OnionServiceId::is_valid`,
/// whose result is named `is_valid_service_id`; a function of the text alone.
#[verifier::external_body]
fn v3_onion_service_id_is_valid(text: &str) -> (r: bool)
    ensures
        r == is_valid_service_id(text@),
{
    tor_interface::tor_crypto::V3OnionServiceId::is_valid(text)
}

/// Text that is not a v3 onion service id.
#[derive(Debug, Clone, Copy, PartialEq, Eq, Structural)]
pub struct InvalidServiceId;

#[derive(Debug)]
pub struct ServiceId {
    text: String,
}

impl View for ServiceId {
    type V = Seq<char>;

    closed spec fn view(&self) -> Seq<char> {
        self.text@
    }
}

impl ServiceId {
    /// Whether a text is a valid service id.
    pub fn is_valid(text: &str) -> (r: bool)
        ensures
            r == is_valid_service_id(text@),
    {
        v3_onion_service_id_is_valid(text)
    }

    /// Reads a service id, refusing text that is not one.
    pub fn from_string(text: &str) -> (r: Result<ServiceId, InvalidServiceId>)
        ensures
            r is Ok <==> is_valid_service_id(text@),
            r matches Ok(id) ==> id@ == text@,
    {
        if v3_onion_service_id_is_valid(text) {
            Ok(ServiceId { text: String::from_str(text) })
        } else {
            Err(InvalidServiceId)
        }
    }

    /// The id's text.
    pub fn as_str(&self) -> (s: &str)
        ensures
            s@ == self@,
    {
        self.text.as_str()
    }

    /// Whether two ids are the same.
    pub fn same(&self, other: &ServiceId) -> (r: bool)
        ensures
            r == (self@ == other@),
    {
        str_eq(self.text.as_str(), other.text.as_str())
    }

    pub fn copy(&self) -> (r: ServiceId)
        ensures
            r@ == self@,
    {
        ServiceId { text: self.text.clone() }
    }
}

impl Clone for ServiceId {
    fn clone(&self) -> (r: Self)
        ensures
            r@ == self@,
    {
        self.copy()
    }
}

} // verus!
