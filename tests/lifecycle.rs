use std::sync::Mutex;

use xmlsec::backend::Flavor;
use xmlsec::method::XmlSecSignatureMethod;
use xmlsec::xmlsec::{
    guarantee_xmlsec_init, ContextSlot, InitError, NativeCall, Version, XmlSecContext,
};

const ALL_METHODS: [XmlSecSignatureMethod; 38] = [
    XmlSecSignatureMethod::Aes128Cbc,
    XmlSecSignatureMethod::Aes192Cbc,
    XmlSecSignatureMethod::Aes256Cbc,
    XmlSecSignatureMethod::KWAes128,
    XmlSecSignatureMethod::KWAes192,
    XmlSecSignatureMethod::KWAes256,
    XmlSecSignatureMethod::Des3Cbc,
    XmlSecSignatureMethod::KWDes3,
    XmlSecSignatureMethod::DsaSha1,
    XmlSecSignatureMethod::DsaSha256,
    XmlSecSignatureMethod::EcdsaSha1,
    XmlSecSignatureMethod::EcdsaSha224,
    XmlSecSignatureMethod::EcdsaSha256,
    XmlSecSignatureMethod::EcdsaSha384,
    XmlSecSignatureMethod::EcdsaSha512,
    XmlSecSignatureMethod::HmacMd5,
    XmlSecSignatureMethod::HmacRipemd160,
    XmlSecSignatureMethod::HmacSha1,
    XmlSecSignatureMethod::HmacSha224,
    XmlSecSignatureMethod::HmacSha256,
    XmlSecSignatureMethod::HmacSha384,
    XmlSecSignatureMethod::HmacSha512,
    XmlSecSignatureMethod::Md5,
    XmlSecSignatureMethod::Ripemd160,
    XmlSecSignatureMethod::RsaMd5,
    XmlSecSignatureMethod::RsaRipemd160,
    XmlSecSignatureMethod::RsaSha1,
    XmlSecSignatureMethod::RsaSha224,
    XmlSecSignatureMethod::RsaSha256,
    XmlSecSignatureMethod::RsaSha384,
    XmlSecSignatureMethod::RsaSha512,
    XmlSecSignatureMethod::RsaPkcs1,
    XmlSecSignatureMethod::RsaOaep,
    XmlSecSignatureMethod::Sha1,
    XmlSecSignatureMethod::Sha224,
    XmlSecSignatureMethod::Sha256,
    XmlSecSignatureMethod::Sha384,
    XmlSecSignatureMethod::Sha512,
];

fn built() -> Version {
    Version::new(1, 2, 30)
}

/// A native engine that logs each call and answers with chosen statuses.
struct StubEngine {
    log: Vec<NativeCall>,
    fail_at: Option<usize>,
    linked: Version,
}

impl StubEngine {
    fn new() -> StubEngine {
        StubEngine { log: Vec::new(), fail_at: None, linked: built() }
    }

    fn call(&mut self, c: NativeCall) -> i32 {
        let i = self.log.len();
        self.log.push(c);
        if self.fail_at == Some(i) {
            return -1;
        }
        match c {
            NativeCall::CheckVersion(required) => {
                if required.is_abi_compatible_with(&self.linked) {
                    1
                } else {
                    0
                }
            }
            _ => 0,
        }
    }
}

fn ensure(slot: &mut ContextSlot, engine: &mut StubEngine, flavor: Flavor) -> Result<(), InitError> {
    if let Some(mut init) = guarantee_xmlsec_init(slot, flavor, built()) {
        while let Some(c) = init.next_call() {
            let rc = engine.call(c);
            init = init.record(rc)?;
        }
        slot.install(XmlSecContext::new(init));
    }
    Ok(())
}

fn init_sequence(flavor: Flavor) -> Vec<NativeCall> {
    match flavor {
        Flavor::Static => vec![
            NativeCall::EngineInit,
            NativeCall::CheckVersion(built()),
            NativeCall::AppInit,
            NativeCall::CryptoInit,
        ],
        Flavor::Dynamic => vec![
            NativeCall::EngineInit,
            NativeCall::CheckVersion(built()),
            NativeCall::LoadProvider,
            NativeCall::AppInit,
            NativeCall::CryptoInit,
        ],
    }
}

#[test]
fn first_call_runs_the_whole_sequence_in_order() {
    for flavor in [Flavor::Static, Flavor::Dynamic] {
        let mut slot = ContextSlot::new();
        let mut engine = StubEngine::new();
        assert!(!slot.is_initialized());
        assert_eq!(ensure(&mut slot, &mut engine, flavor), Ok(()));
        assert!(slot.is_initialized());
        assert_eq!(engine.log, init_sequence(flavor));
    }
}

#[test]
fn serialized_callers_initialize_once() {
    let mut slot = ContextSlot::new();
    let mut engine = StubEngine::new();
    for _ in 0..16 {
        assert_eq!(ensure(&mut slot, &mut engine, Flavor::Dynamic), Ok(()));
        assert!(slot.is_initialized());
    }
    assert_eq!(engine.log, init_sequence(Flavor::Dynamic));
}

#[test]
fn callers_sharing_the_lock_initialize_once() {
    let shared = Mutex::new((ContextSlot::new(), StubEngine::new()));
    let flavors = [Flavor::Static; 8];
    for flavor in flavors {
        let mut guard = shared.lock().unwrap();
        let (slot, engine) = &mut *guard;
        assert_eq!(ensure(slot, engine, flavor), Ok(()));
        assert!(slot.is_initialized());
    }
    let guard = shared.lock().unwrap();
    assert!(guard.0.is_initialized());
    assert_eq!(guard.1.log, init_sequence(Flavor::Static));
}

#[test]
fn initialized_slot_needs_no_native_call() {
    let mut slot = ContextSlot::new();
    let mut engine = StubEngine::new();
    ensure(&mut slot, &mut engine, Flavor::Static).unwrap();
    let calls = engine.log.len();
    assert!(guarantee_xmlsec_init(&slot, Flavor::Static, built()).is_none());
    ensure(&mut slot, &mut engine, Flavor::Static).unwrap();
    ensure(&mut slot, &mut engine, Flavor::Static).unwrap();
    assert_eq!(engine.log.len(), calls);
}

#[test]
fn teardown_reverses_initialization() {
    for flavor in [Flavor::Static, Flavor::Dynamic] {
        let mut slot = ContextSlot::new();
        let mut engine = StubEngine::new();
        ensure(&mut slot, &mut engine, flavor).unwrap();
        let ctx = slot.release().unwrap();
        assert!(!slot.is_initialized());
        for c in ctx.teardown_calls() {
            engine.call(c);
        }
        let mut expected = init_sequence(flavor);
        expected.extend([
            NativeCall::CryptoShutdown,
            NativeCall::AppShutdown,
            NativeCall::EngineShutdown,
        ]);
        assert_eq!(engine.log, expected);
    }
}

#[test]
fn failed_step_stops_the_sequence() {
    for flavor in [Flavor::Static, Flavor::Dynamic] {
        let steps = init_sequence(flavor);
        for k in 0..steps.len() {
            let mut slot = ContextSlot::new();
            let mut engine = StubEngine::new();
            engine.fail_at = Some(k);
            let expected = match steps[k] {
                NativeCall::EngineInit => InitError::EngineInit(-1),
                NativeCall::CheckVersion(_) => InitError::VersionCheck(-1),
                NativeCall::LoadProvider => InitError::ProviderLoad(-1),
                NativeCall::AppInit => InitError::AppInit(-1),
                _ => InitError::CryptoInit(-1),
            };
            assert_eq!(ensure(&mut slot, &mut engine, flavor), Err(expected));
            assert_eq!(engine.log, steps[..k + 1].to_vec());
            assert!(!slot.is_initialized());
            assert!(slot.context().is_none());
        }
    }
}

#[test]
fn zero_status_passes_init_but_fails_version_check() {
    let mut slot = ContextSlot::new();
    let init = guarantee_xmlsec_init(&slot, Flavor::Static, built()).unwrap();
    assert_eq!(init.next_call(), Some(NativeCall::EngineInit));
    let init = init.record(0).unwrap();
    assert_eq!(init.next_call(), Some(NativeCall::CheckVersion(built())));
    assert_eq!(init.record(0).err(), Some(InitError::VersionCheck(0)));
    assert!(!slot.is_initialized());
    let mut engine = StubEngine::new();
    ensure(&mut slot, &mut engine, Flavor::Static).unwrap();
    assert!(slot.is_initialized());
}

#[test]
fn compatible_minor_version_is_accepted() {
    let mut slot = ContextSlot::new();
    let mut engine = StubEngine::new();
    engine.linked = Version::new(1, 3, 0);
    assert_eq!(ensure(&mut slot, &mut engine, Flavor::Dynamic), Ok(()));
    assert!(slot.is_initialized());
}

#[test]
fn incompatible_major_version_is_rejected() {
    let mut slot = ContextSlot::new();
    let mut engine = StubEngine::new();
    engine.linked = Version::new(2, 2, 30);
    assert_eq!(ensure(&mut slot, &mut engine, Flavor::Dynamic), Err(InitError::VersionCheck(0)));
    assert_eq!(engine.log, vec![NativeCall::EngineInit, NativeCall::CheckVersion(built())]);
    assert!(!slot.is_initialized());
}

#[test]
fn abi_compatibility_rule() {
    let req = Version::new(1, 2, 30);
    assert!(req.is_abi_compatible_with(&Version::new(1, 2, 30)));
    assert!(req.is_abi_compatible_with(&Version::new(1, 2, 31)));
    assert!(req.is_abi_compatible_with(&Version::new(1, 3, 0)));
    assert!(!req.is_abi_compatible_with(&Version::new(1, 2, 29)));
    assert!(!req.is_abi_compatible_with(&Version::new(1, 1, 40)));
    assert!(!req.is_abi_compatible_with(&Version::new(0, 2, 30)));
    assert!(!req.is_abi_compatible_with(&Version::new(2, 0, 0)));
}

fn context(flavor: Flavor) -> ContextSlot {
    let mut slot = ContextSlot::new();
    let mut engine = StubEngine::new();
    ensure(&mut slot, &mut engine, flavor).unwrap();
    slot
}

#[test]
fn every_method_resolves() {
    for flavor in [Flavor::Static, Flavor::Dynamic] {
        let slot = context(flavor);
        let ctx = slot.context().unwrap();
        for m in ALL_METHODS {
            let symbol = m.to_method(ctx);
            assert!(symbol.starts_with(flavor.transform_prefix()));
            assert!(symbol.ends_with("GetKlass"));
            assert!(symbol.len() > flavor.transform_prefix().len() + "GetKlass".len());
        }
    }
}

#[test]
fn resolution_names_the_native_getter() {
    let dynamic = context(Flavor::Dynamic);
    let stat = context(Flavor::Static);
    let d = dynamic.context().unwrap();
    let s = stat.context().unwrap();
    assert_eq!(XmlSecSignatureMethod::Aes128Cbc.to_method(d), "xmlSecTransformAes128CbcGetKlass");
    assert_eq!(XmlSecSignatureMethod::KWDes3.to_method(d), "xmlSecTransformKWDes3GetKlass");
    assert_eq!(XmlSecSignatureMethod::RsaSha256.to_method(d), "xmlSecTransformRsaSha256GetKlass");
    assert_eq!(XmlSecSignatureMethod::Sha512.to_method(s), "xmlSecOpenSSLTransformSha512GetKlass");
    assert_eq!(
        XmlSecSignatureMethod::HmacRipemd160.to_method(s),
        "xmlSecOpenSSLTransformHmacRipemd160GetKlass"
    );
}

#[test]
fn distinct_methods_resolve_to_distinct_getters() {
    let slot = context(Flavor::Dynamic);
    let ctx = slot.context().unwrap();
    let mut seen: Vec<String> = ALL_METHODS.iter().map(|m| m.to_method(ctx)).collect();
    seen.sort();
    seen.dedup();
    assert_eq!(seen.len(), ALL_METHODS.len());
}

#[test]
fn both_flavors_resolve_the_same_methods() {
    let dynamic = context(Flavor::Dynamic);
    let stat = context(Flavor::Static);
    let d = dynamic.context().unwrap();
    let s = stat.context().unwrap();
    for m in ALL_METHODS {
        let ds = m.to_method(d);
        let ss = m.to_method(s);
        assert_eq!(
            &ds[Flavor::Dynamic.transform_prefix().len()..],
            &ss[Flavor::Static.transform_prefix().len()..]
        );
    }
}

#[test]
fn native_call_symbols_follow_the_flavor() {
    assert_eq!(NativeCall::EngineInit.symbol(Flavor::Static), "xmlSecInit");
    assert_eq!(NativeCall::CheckVersion(built()).symbol(Flavor::Dynamic), "xmlSecCheckVersionExt");
    assert_eq!(NativeCall::LoadProvider.symbol(Flavor::Dynamic), "xmlSecCryptoDLLoadLibrary");
    assert_eq!(NativeCall::AppInit.symbol(Flavor::Static), "xmlSecOpenSSLAppInit");
    assert_eq!(NativeCall::AppInit.symbol(Flavor::Dynamic), "xmlSecCryptoAppInit");
    assert_eq!(NativeCall::CryptoInit.symbol(Flavor::Static), "xmlSecOpenSSLInit");
    assert_eq!(NativeCall::CryptoInit.symbol(Flavor::Dynamic), "xmlSecCryptoInit");
    assert_eq!(NativeCall::CryptoShutdown.symbol(Flavor::Static), "xmlSecOpenSSLShutdown");
    assert_eq!(NativeCall::CryptoShutdown.symbol(Flavor::Dynamic), "xmlSecCryptoShutdown");
    assert_eq!(NativeCall::AppShutdown.symbol(Flavor::Static), "xmlSecOpenSSLAppShutdown");
    assert_eq!(NativeCall::AppShutdown.symbol(Flavor::Dynamic), "xmlSecCryptoAppShutdown");
    assert_eq!(NativeCall::EngineShutdown.symbol(Flavor::Dynamic), "xmlSecShutdown");
}

#[test]
fn errors_name_the_failed_step() {
    assert_eq!(InitError::EngineInit(-1).message(), "XmlSec failed initialization");
    assert_eq!(InitError::VersionCheck(0).message(), "XmlSec version check failed");
    assert!(InitError::ProviderLoad(-1).message().contains("loading default crypto backend"));
    assert_eq!(InitError::AppInit(-2).message(), "XmlSec failed to init crypto backend");
    assert_eq!(InitError::CryptoInit(-1).message(), "XmlSec failed to init crypto library");
}

#[test]
fn fresh_initializer_is_not_complete() {
    let slot = ContextSlot::new();
    let mut init = guarantee_xmlsec_init(&slot, Flavor::Dynamic, built()).unwrap();
    let mut n = 0;
    while !init.is_complete() {
        init = init.record(1).unwrap();
        n += 1;
    }
    assert_eq!(n, 5);
    assert_eq!(init.next_call(), None);
    let ctx = XmlSecContext::new(init);
    assert_eq!(ctx.flavor(), Flavor::Dynamic);
    assert_eq!(
        ctx.teardown_calls(),
        vec![NativeCall::CryptoShutdown, NativeCall::AppShutdown, NativeCall::EngineShutdown]
    );
}
