use vstd::prelude::*;

verus! {

/// Storage keys of the vault's configuration.
#[derive(Clone, Copy, Debug, PartialEq, Eq, Structural)]
pub enum DataKey {
    Admin,
    Token,
    MinTopup,
}

/// The name under which each configuration key is stored.
pub open spec fn key_name(k: DataKey) -> Seq<char> {
    match k {
        DataKey::Admin => "admin"@,
        DataKey::Token => "token"@,
        DataKey::MinTopup => "min_topup"@,
    }
}

impl DataKey {
    /// The symbol text of this key.
    pub fn to_symbol(&self) -> (s: &'static str)
        ensures
            s@ == key_name(*self),
            *self == DataKey::Admin ==> s@ == "admin"@,
            *self == DataKey::Token ==> s@ == "token"@,
            *self == DataKey::MinTopup ==> s@ == "min_topup"@,
    {
        match self {
            DataKey::Admin => "admin",
            DataKey::Token => "token",
            DataKey::MinTopup => "min_topup",
        }
    }
}

} // verus!
