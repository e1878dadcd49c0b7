//! The type of an asset, as the mint proof sees it: the identifier that names
//! it on the wire and among the public inputs.

use vstd::prelude::*;

verus! {

/// The length of an asset identifier, the same for every asset.
pub const ASSET_IDENTIFIER_LENGTH: usize = 32;

/// The bytes that name an asset type.
pub type AssetIdentifier = [u8; ASSET_IDENTIFIER_LENGTH];

/// The type of an asset. How an identifier is derived from an asset's
/// description, which generator belongs to it, and which identifiers name an
/// asset at all is the asset layer's business; here the type is an identifier
/// that the asset layer has recognized.
#[derive(Debug, Clone, Copy)]
pub struct AssetType {
    identifier: AssetIdentifier,
}

impl View for AssetType {
    type V = Seq<u8>;

    /// The identifier.
    closed spec fn view(&self) -> Seq<u8> {
        self.identifier@
    }
}

impl AssetType {
    /// The asset type that `identifier` names, where the asset layer
    /// recognizes the identifier: `recognized` is its answer for these bytes.
    /// An identifier that it does not recognize names no asset type.
    pub fn from_identifier(identifier: &AssetIdentifier, recognized: bool) -> (r: Option<AssetType>)
        ensures
            r is Some <==> recognized,
            r matches Some(a) ==> a@ == identifier@,
    {
        if recognized {
            Some(AssetType { identifier: *identifier })
        } else {
            None
        }
    }

    /// The identifier of this asset type.
    pub fn get_identifier(&self) -> (identifier: &AssetIdentifier)
        ensures
            identifier@ == self@,
            identifier@.len() == ASSET_IDENTIFIER_LENGTH,
    {
        &self.identifier
    }

    /// An identifier has `ASSET_IDENTIFIER_LENGTH` bytes.
    pub proof fn lemma_identifier_len(self)
        ensures
            self@.len() == ASSET_IDENTIFIER_LENGTH,
    {
    }

    /// Two asset types with one identifier are one asset type.
    pub proof fn lemma_ext(a: AssetType, b: AssetType)
        requires
            a@ == b@,
        ensures
            a == b,
    {
        assert(a.identifier =~= b.identifier);
    }
}

} // verus!
