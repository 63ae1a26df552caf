//! The currencies that money can be held in.

use vstd::prelude::*;

verus! {

/// A currency tag. Two currencies are equal exactly when they are the same variant.
#[derive(Copy, Clone, Debug, PartialEq, Eq, Hash, Structural)]
pub enum Currency {
    Dollar,
    Franc,
}

impl Currency {
    /// The three-letter code of the currency, as a sequence of characters.
    pub open spec fn code(self) -> Seq<char> {
        match self {
            Currency::Dollar => seq!['U', 'S', 'D'],
            Currency::Franc => seq!['C', 'H', 'F'],
        }
    }

    /// The three-letter code of the currency: "USD" for dollars, "CHF" for francs.
    pub fn to_string(&self) -> (s: String)
        ensures
            s@ == self.code(),
    {
        proof {
            reveal_strlit("USD");
            reveal_strlit("CHF");
        }
        match *self {
            Currency::Dollar => {
                assert("USD"@ =~= Currency::Dollar.code());
                String::from_str("USD")
            },
            Currency::Franc => {
                assert("CHF"@ =~= Currency::Franc.code());
                String::from_str("CHF")
            },
        }
    }
}

} // verus!
