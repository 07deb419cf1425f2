//! Addresses, told apart by their textual form.
use vstd::prelude::*;

verus! {

/// The account or contract behind a role, named by its textual key.
///
/// Two addresses are the same exactly when their texts are.
#[derive(Debug)]
pub struct Address {
    /// The textual key, such as `GA...` for an account or `CA...` for a contract.
    pub strkey: String,
}

/// The text of the address that stands for nobody.
pub open spec fn zero_address_text() -> Seq<char> {
    "GAAAAAAAAAAAAAAAAAAAAAAAAAAAAAAAAAAAAAAAAAAAAAAAAAAAAWHF"@
}

/// Whether an address names somebody: it is neither empty nor the zero address.
pub open spec fn names_somebody(address: Seq<char>) -> bool {
    address.len() != 0 && address != zero_address_text()
}

impl View for Address {
    type V = Seq<char>;

    open spec fn view(&self) -> Seq<char> {
        self.strkey@
    }
}

impl Address {
    /// The address with the given text.
    pub fn from_string(strkey: String) -> (r: Address)
        ensures
            r@ == strkey@,
    {
        Address { strkey }
    }

    /// The text of the address.
    pub fn to_string(&self) -> (r: String)
        ensures
            r@ == self@,
    {
        self.strkey.clone()
    }

    /// Whether the address is neither empty nor the zero address.
    pub fn is_valid(&self) -> (r: bool)
        ensures
            r == names_somebody(self@),
    {
        let empty = String::new();
        let zero = "GAAAAAAAAAAAAAAAAAAAAAAAAAAAAAAAAAAAAAAAAAAAAAAAAAAAAWHF".to_owned();
        assert(self@.len() == 0 <==> self@ == empty@) by {
            assert(self@.len() == 0 ==> self@ =~= empty@);
        }
        !(self.strkey == empty) && !(self.strkey == zero)
    }
}

impl Clone for Address {
    fn clone(&self) -> (r: Address)
        ensures
            r == *self,
    {
        Address { strkey: self.strkey.clone() }
    }
}

impl PartialEq for Address {
    fn eq(&self, other: &Address) -> (r: bool) {
        self.strkey == other.strkey
    }
}

impl vstd::std_specs::cmp::PartialEqSpecImpl for Address {
    open spec fn obeys_eq_spec() -> bool {
        true
    }

    open spec fn eq_spec(&self, other: &Address) -> bool {
        self@ == other@
    }
}

impl Eq for Address {

}

} // verus!
