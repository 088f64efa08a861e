//! Identifiers of the signature, digest and encryption methods, and their
//! resolution to the provider's native transform getters.
use vstd::prelude::*;

use crate::backend::{transform_prefix, Flavor};
use crate::xmlsec::XmlSecContext;

verus! {

/// Supported digesting and signing methods as specified by the XML standard.
#[derive(Clone, Copy, Debug, PartialEq, Eq, Structural, Hash)]
pub enum XmlSecSignatureMethod {
    Aes128Cbc,
    Aes192Cbc,
    Aes256Cbc,
    KWAes128,
    KWAes192,
    KWAes256,
    Des3Cbc,
    KWDes3,
    DsaSha1,
    DsaSha256,
    EcdsaSha1,
    EcdsaSha224,
    EcdsaSha256,
    EcdsaSha384,
    EcdsaSha512,
    HmacMd5,
    HmacRipemd160,
    HmacSha1,
    HmacSha224,
    HmacSha256,
    HmacSha384,
    HmacSha512,
    Md5,
    Ripemd160,
    RsaMd5,
    RsaRipemd160,
    RsaSha1,
    RsaSha224,
    RsaSha256,
    RsaSha384,
    RsaSha512,
    RsaPkcs1,
    RsaOaep,
    Sha1,
    Sha224,
    Sha256,
    Sha384,
    Sha512,
}

/// The part of a transform getter's name that names the method; it is the
/// same for every flavor.
pub open spec fn method_stem(m: XmlSecSignatureMethod) -> Seq<char> {
    match m {
        XmlSecSignatureMethod::Aes128Cbc => "Aes128Cbc"@,
        XmlSecSignatureMethod::Aes192Cbc => "Aes192Cbc"@,
        XmlSecSignatureMethod::Aes256Cbc => "Aes256Cbc"@,
        XmlSecSignatureMethod::KWAes128 => "KWAes128"@,
        XmlSecSignatureMethod::KWAes192 => "KWAes192"@,
        XmlSecSignatureMethod::KWAes256 => "KWAes256"@,
        XmlSecSignatureMethod::Des3Cbc => "Des3Cbc"@,
        XmlSecSignatureMethod::KWDes3 => "KWDes3"@,
        XmlSecSignatureMethod::DsaSha1 => "DsaSha1"@,
        XmlSecSignatureMethod::DsaSha256 => "DsaSha256"@,
        XmlSecSignatureMethod::EcdsaSha1 => "EcdsaSha1"@,
        XmlSecSignatureMethod::EcdsaSha224 => "EcdsaSha224"@,
        XmlSecSignatureMethod::EcdsaSha256 => "EcdsaSha256"@,
        XmlSecSignatureMethod::EcdsaSha384 => "EcdsaSha384"@,
        XmlSecSignatureMethod::EcdsaSha512 => "EcdsaSha512"@,
        XmlSecSignatureMethod::HmacMd5 => "HmacMd5"@,
        XmlSecSignatureMethod::HmacRipemd160 => "HmacRipemd160"@,
        XmlSecSignatureMethod::HmacSha1 => "HmacSha1"@,
        XmlSecSignatureMethod::HmacSha224 => "HmacSha224"@,
        XmlSecSignatureMethod::HmacSha256 => "HmacSha256"@,
        XmlSecSignatureMethod::HmacSha384 => "HmacSha384"@,
        XmlSecSignatureMethod::HmacSha512 => "HmacSha512"@,
        XmlSecSignatureMethod::Md5 => "Md5"@,
        XmlSecSignatureMethod::Ripemd160 => "Ripemd160"@,
        XmlSecSignatureMethod::RsaMd5 => "RsaMd5"@,
        XmlSecSignatureMethod::RsaRipemd160 => "RsaRipemd160"@,
        XmlSecSignatureMethod::RsaSha1 => "RsaSha1"@,
        XmlSecSignatureMethod::RsaSha224 => "RsaSha224"@,
        XmlSecSignatureMethod::RsaSha256 => "RsaSha256"@,
        XmlSecSignatureMethod::RsaSha384 => "RsaSha384"@,
        XmlSecSignatureMethod::RsaSha512 => "RsaSha512"@,
        XmlSecSignatureMethod::RsaPkcs1 => "RsaPkcs1"@,
        XmlSecSignatureMethod::RsaOaep => "RsaOaep"@,
        XmlSecSignatureMethod::Sha1 => "Sha1"@,
        XmlSecSignatureMethod::Sha224 => "Sha224"@,
        XmlSecSignatureMethod::Sha256 => "Sha256"@,
        XmlSecSignatureMethod::Sha384 => "Sha384"@,
        XmlSecSignatureMethod::Sha512 => "Sha512"@,
    }
}

/// Name of the native function that returns the transform klass of `m`
/// under flavor `f`.
pub open spec fn getter_symbol(f: Flavor, m: XmlSecSignatureMethod) -> Seq<char> {
    transform_prefix(f) + method_stem(m) + "GetKlass"@
}

impl XmlSecSignatureMethod {
    /// The flavor-independent part of this method's getter name.
    pub fn stem(&self) -> (r: &'static str)
        ensures
            r@ == method_stem(*self),
    {
        match self {
            XmlSecSignatureMethod::Aes128Cbc => "Aes128Cbc",
            XmlSecSignatureMethod::Aes192Cbc => "Aes192Cbc",
            XmlSecSignatureMethod::Aes256Cbc => "Aes256Cbc",
            XmlSecSignatureMethod::KWAes128 => "KWAes128",
            XmlSecSignatureMethod::KWAes192 => "KWAes192",
            XmlSecSignatureMethod::KWAes256 => "KWAes256",
            XmlSecSignatureMethod::Des3Cbc => "Des3Cbc",
            XmlSecSignatureMethod::KWDes3 => "KWDes3",
            XmlSecSignatureMethod::DsaSha1 => "DsaSha1",
            XmlSecSignatureMethod::DsaSha256 => "DsaSha256",
            XmlSecSignatureMethod::EcdsaSha1 => "EcdsaSha1",
            XmlSecSignatureMethod::EcdsaSha224 => "EcdsaSha224",
            XmlSecSignatureMethod::EcdsaSha256 => "EcdsaSha256",
            XmlSecSignatureMethod::EcdsaSha384 => "EcdsaSha384",
            XmlSecSignatureMethod::EcdsaSha512 => "EcdsaSha512",
            XmlSecSignatureMethod::HmacMd5 => "HmacMd5",
            XmlSecSignatureMethod::HmacRipemd160 => "HmacRipemd160",
            XmlSecSignatureMethod::HmacSha1 => "HmacSha1",
            XmlSecSignatureMethod::HmacSha224 => "HmacSha224",
            XmlSecSignatureMethod::HmacSha256 => "HmacSha256",
            XmlSecSignatureMethod::HmacSha384 => "HmacSha384",
            XmlSecSignatureMethod::HmacSha512 => "HmacSha512",
            XmlSecSignatureMethod::Md5 => "Md5",
            XmlSecSignatureMethod::Ripemd160 => "Ripemd160",
            XmlSecSignatureMethod::RsaMd5 => "RsaMd5",
            XmlSecSignatureMethod::RsaRipemd160 => "RsaRipemd160",
            XmlSecSignatureMethod::RsaSha1 => "RsaSha1",
            XmlSecSignatureMethod::RsaSha224 => "RsaSha224",
            XmlSecSignatureMethod::RsaSha256 => "RsaSha256",
            XmlSecSignatureMethod::RsaSha384 => "RsaSha384",
            XmlSecSignatureMethod::RsaSha512 => "RsaSha512",
            XmlSecSignatureMethod::RsaPkcs1 => "RsaPkcs1",
            XmlSecSignatureMethod::RsaOaep => "RsaOaep",
            XmlSecSignatureMethod::Sha1 => "Sha1",
            XmlSecSignatureMethod::Sha224 => "Sha224",
            XmlSecSignatureMethod::Sha256 => "Sha256",
            XmlSecSignatureMethod::Sha384 => "Sha384",
            XmlSecSignatureMethod::Sha512 => "Sha512",
        }
    }

    /// Returns the native getter that yields this method's transform klass
    /// under the provider of the initialized context `ctx`.
    ///
    /// A context can only be had from a completed initialization, so no
    /// getter is handed out while the engine is down.
    pub fn to_method(&self, ctx: &XmlSecContext) -> (r: String)
        ensures
            r@ == getter_symbol(ctx.spec_flavor(), *self),
    {
        let mut s = String::from_str(ctx.flavor().transform_prefix());
        s.append(self.stem());
        s.append("GetKlass");
        s
    }
}

/// The identifiers that resolve to a native getter under flavor `f`.
pub open spec fn resolvable(f: Flavor) -> Set<XmlSecSignatureMethod> {
    Set::new(|m: XmlSecSignatureMethod| getter_symbol(f, m).len() > 0)
}

/// Every identifier resolves, under either flavor, to a getter with a name.
pub proof fn lemma_every_method_resolves(f: Flavor, m: XmlSecSignatureMethod)
    ensures
        getter_symbol(f, m).len() > 0,
{
    reveal_strlit("GetKlass");
}

/// Both flavors resolve the same identifiers, each to the getter of the same
/// method name behind the flavor's prefix.
pub proof fn lemma_flavors_resolve_same_methods(m: XmlSecSignatureMethod)
    ensures
        resolvable(Flavor::Static) == resolvable(Flavor::Dynamic),
        resolvable(Flavor::Static) == Set::<XmlSecSignatureMethod>::full(),
        getter_symbol(Flavor::Static, m).skip(transform_prefix(Flavor::Static).len() as int)
            == getter_symbol(Flavor::Dynamic, m).skip(
            transform_prefix(Flavor::Dynamic).len() as int,
        ),
{
    reveal_strlit("GetKlass");
    assert(resolvable(Flavor::Static) =~= Set::<XmlSecSignatureMethod>::full());
    assert(resolvable(Flavor::Dynamic) =~= Set::<XmlSecSignatureMethod>::full());
    assert(getter_symbol(Flavor::Static, m).skip(transform_prefix(Flavor::Static).len() as int)
        =~= method_stem(m) + "GetKlass"@);
    assert(getter_symbol(Flavor::Dynamic, m).skip(transform_prefix(Flavor::Dynamic).len() as int)
        =~= method_stem(m) + "GetKlass"@);
}

} // verus!
