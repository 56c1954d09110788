//! Monero addresses, as the wallet and the daemon write them.

use vstd::prelude::*;

verus! {

/// What `monero::Address` makes of a text: the address it reads from the
/// base58 text, written out again, or `None` where the text is no address.
pub uninterp spec fn address_wire_form(text: Seq<char>) -> Option<Seq<char>>;

/// `monero::Address::from_str` followed by the address's `to_string`: the
/// result is the named function of the text, `None` where parsing fails.
#[verifier::external_body]
fn canonical_address(text: &str) -> (r: Option<String>)
    ensures
        match r {
            Some(wire) => address_wire_form(text@) == Some(wire@),
            None => address_wire_form(text@) is None,
        },
{
    text.parse::<monero::Address>().ok().map(|address| address.to_string())
}

/// Whether the text is the wire form of some address.
pub open spec fn is_wire_form(wire: Seq<char>) -> bool {
    exists|text: Seq<char>| address_wire_form(text) == Some(wire)
}

/// A Monero address, held in its wire form.
#[derive(Debug, PartialEq, Eq, Hash)]
pub struct Address {
    wire: String,
}

impl View for Address {
    type V = Seq<char>;

    closed spec fn view(&self) -> Seq<char> {
        self.wire@
    }
}

impl Clone for Address {
    fn clone(&self) -> (copy: Address)
        ensures
            copy@ == self@,
    {
        proof {
            use_type_invariant(self);
        }
        Address { wire: self.wire.clone() }
    }
}

impl Address {
    #[verifier::type_invariant]
    spec fn well_formed(self) -> bool {
        is_wire_form(self.wire@)
    }

    /// Reads an address; a text that is none gives `None`.
    pub fn parse(text: &str) -> (r: Option<Address>)
        ensures
            match r {
                Some(address) => address_wire_form(text@) == Some(address@),
                None => address_wire_form(text@) is None,
            },
    {
        match canonical_address(text) {
            Some(wire) => Some(Address { wire }),
            None => None,
        }
    }

    /// The wire form of the address.
    pub fn as_str(&self) -> (wire: &str)
        ensures
            wire@ == self@,
            is_wire_form(self@),
    {
        proof {
            use_type_invariant(self);
        }
        self.wire.as_str()
    }

    /// Whether two addresses have the same wire form.
    pub fn same(&self, other: &Address) -> (r: bool)
        ensures
            r == (self@ == other@),
    {
        self.wire == other.wire
    }
}

} // verus!
