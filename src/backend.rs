//! Choice of cryptographic provider behind the xmlsec engine.
use vstd::prelude::*;

verus! {

/// The two ways the engine can reach its cryptographic provider.
///
/// Exactly one of them is chosen when a program is built; the library
/// takes the choice as a value so that both are checked by the same proofs.
#[derive(Clone, Copy, Debug, PartialEq, Eq, Structural, Hash)]
pub enum Flavor {
    /// OpenSSL provider linked into the program.
    Static,
    /// Provider loaded at run time through the engine's default search.
    Dynamic,
}

/// Name prefix of the native transform getters of a flavor.
pub open spec fn transform_prefix(f: Flavor) -> Seq<char> {
    match f {
        Flavor::Static => "xmlSecOpenSSLTransform"@,
        Flavor::Dynamic => "xmlSecTransform"@,
    }
}

impl Flavor {
    /// Prefix of the native functions that return transform klasses.
    pub fn transform_prefix(&self) -> (r: &'static str)
        ensures
            r@ == transform_prefix(*self),
    {
        match self {
            Flavor::Static => "xmlSecOpenSSLTransform",
            Flavor::Dynamic => "xmlSecTransform",
        }
    }
}

} // verus!
