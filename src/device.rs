use vstd::prelude::*;

verus! {

/// Ledger device model.
#[derive(Debug, Clone, Copy, PartialEq, Eq, Structural)]
pub enum DeviceModel {
    /// Ledger Nano S.
    Nanos,
    /// Ledger Nano X.
    Nanox,
    /// Ledger Nano S Plus.
    Nanosp,
    /// Ledger Blue.
    Blue,
    /// Ledger Stax.
    Stax,
    /// Ledger Flex.
    Flex,
}

/// The identifier the emulator expects on its command line for each model.
pub open spec fn slug_of(model: DeviceModel) -> Seq<char> {
    match model {
        DeviceModel::Nanos => "nanos"@,
        DeviceModel::Nanox => "nanox"@,
        DeviceModel::Nanosp => "nanosp"@,
        DeviceModel::Blue => "blue"@,
        DeviceModel::Stax => "stax"@,
        DeviceModel::Flex => "flex"@,
    }
}

impl DeviceModel {
    /// Gets the model slug to be used on Speculos.
    pub fn slug(&self) -> (r: &'static str)
        ensures
            r@ == slug_of(*self),
    {
        match self {
            DeviceModel::Nanos => "nanos",
            DeviceModel::Nanox => "nanox",
            DeviceModel::Nanosp => "nanosp",
            DeviceModel::Blue => "blue",
            DeviceModel::Stax => "stax",
            DeviceModel::Flex => "flex",
        }
    }
}

/// Every model has a non-empty slug, and two different models never share one.
pub proof fn lemma_slug_distinct(a: DeviceModel, b: DeviceModel)
    ensures
        slug_of(a).len() > 0,
        a != b ==> slug_of(a) != slug_of(b),
{
    reveal_strlit("nanos");
    reveal_strlit("nanox");
    reveal_strlit("nanosp");
    reveal_strlit("blue");
    reveal_strlit("stax");
    reveal_strlit("flex");
    if a != b {
        let (sa, sb) = (slug_of(a), slug_of(b));
        if sa.len() == sb.len() {
            assert(sa[0] != sb[0] || sa[4] != sb[4]);
        }
    }
}

} // verus!
