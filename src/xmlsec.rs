//! The process-wide xmlsec context: ordered initialization of the engine and
//! its cryptographic provider, and the reverse-ordered teardown.
//!
//! The native calls themselves are made by the caller: the types here decide
//! which call comes next and what a returned status means.
use vstd::prelude::*;

use crate::backend::Flavor;

verus! {

/// Version of the xmlsec engine.
#[derive(Clone, Copy, Debug, PartialEq, Eq, Structural, Hash)]
pub struct Version {
    pub major: u32,
    pub minor: u32,
    pub subminor: u32,
}

/// An engine at `linked` can serve code built against `required`: the major
/// versions agree and `linked` is not older than `required`.
pub open spec fn abi_compatible(required: Version, linked: Version) -> bool {
    &&& linked.major == required.major
    &&& (linked.minor > required.minor || (linked.minor == required.minor
        && linked.subminor >= required.subminor))
}

impl Version {
    pub fn new(major: u32, minor: u32, subminor: u32) -> (r: Version)
        ensures
            r == (Version { major, minor, subminor }),
    {
        Version { major, minor, subminor }
    }

    /// Whether an engine at `linked` is ABI compatible with code built
    /// against `self`.
    pub fn is_abi_compatible_with(&self, linked: &Version) -> (r: bool)
        ensures
            r == abi_compatible(*self, *linked),
    {
        linked.major == self.major && (linked.minor > self.minor || (linked.minor == self.minor
            && linked.subminor >= self.subminor))
    }
}

/// A version check passes for an engine of the same major version that is
/// newer in its minor version, and fails for one of another major version;
/// the check's status decides whether initialization goes on.
pub proof fn lemma_version_acceptance(required: Version, linked: Version, rc: i32)
    ensures
        linked.major == required.major && linked.minor > required.minor ==> abi_compatible(
            required,
            linked,
        ),
        linked.major != required.major ==> !abi_compatible(required, linked),
        accepts(NativeCall::CheckVersion(required), rc) <==> rc > 0,
{
}

/// A call into the native engine or its provider.
#[derive(Clone, Copy, Debug, PartialEq, Eq, Structural, Hash)]
pub enum NativeCall {
    EngineInit,
    /// ABI-compatibility check of the loaded engine against this version.
    CheckVersion(Version),
    LoadProvider,
    AppInit,
    CryptoInit,
    CryptoShutdown,
    AppShutdown,
    EngineShutdown,
}

/// Name of the native function that performs `c` under flavor `f`.
pub open spec fn call_symbol(c: NativeCall, f: Flavor) -> Seq<char> {
    match (c, f) {
        (NativeCall::EngineInit, _) => "xmlSecInit"@,
        (NativeCall::CheckVersion(_), _) => "xmlSecCheckVersionExt"@,
        (NativeCall::LoadProvider, _) => "xmlSecCryptoDLLoadLibrary"@,
        (NativeCall::AppInit, Flavor::Static) => "xmlSecOpenSSLAppInit"@,
        (NativeCall::AppInit, Flavor::Dynamic) => "xmlSecCryptoAppInit"@,
        (NativeCall::CryptoInit, Flavor::Static) => "xmlSecOpenSSLInit"@,
        (NativeCall::CryptoInit, Flavor::Dynamic) => "xmlSecCryptoInit"@,
        (NativeCall::CryptoShutdown, Flavor::Static) => "xmlSecOpenSSLShutdown"@,
        (NativeCall::CryptoShutdown, Flavor::Dynamic) => "xmlSecCryptoShutdown"@,
        (NativeCall::AppShutdown, Flavor::Static) => "xmlSecOpenSSLAppShutdown"@,
        (NativeCall::AppShutdown, Flavor::Dynamic) => "xmlSecCryptoAppShutdown"@,
        (NativeCall::EngineShutdown, _) => "xmlSecShutdown"@,
    }
}

impl NativeCall {
    /// The native function that performs this call under flavor `f`.
    pub fn symbol(&self, f: Flavor) -> (r: &'static str)
        ensures
            r@ == call_symbol(*self, f),
    {
        match (self, f) {
            (NativeCall::EngineInit, _) => "xmlSecInit",
            (NativeCall::CheckVersion(_), _) => "xmlSecCheckVersionExt",
            (NativeCall::LoadProvider, _) => "xmlSecCryptoDLLoadLibrary",
            (NativeCall::AppInit, Flavor::Static) => "xmlSecOpenSSLAppInit",
            (NativeCall::AppInit, Flavor::Dynamic) => "xmlSecCryptoAppInit",
            (NativeCall::CryptoInit, Flavor::Static) => "xmlSecOpenSSLInit",
            (NativeCall::CryptoInit, Flavor::Dynamic) => "xmlSecCryptoInit",
            (NativeCall::CryptoShutdown, Flavor::Static) => "xmlSecOpenSSLShutdown",
            (NativeCall::CryptoShutdown, Flavor::Dynamic) => "xmlSecCryptoShutdown",
            (NativeCall::AppShutdown, Flavor::Static) => "xmlSecOpenSSLAppShutdown",
            (NativeCall::AppShutdown, Flavor::Dynamic) => "xmlSecCryptoAppShutdown",
            (NativeCall::EngineShutdown, _) => "xmlSecShutdown",
        }
    }
}

/// The calls that bring the engine up, in the order the native libraries
/// demand.
pub open spec fn init_sequence(f: Flavor, v: Version) -> Seq<NativeCall> {
    match f {
        Flavor::Static => seq![
            NativeCall::EngineInit,
            NativeCall::CheckVersion(v),
            NativeCall::AppInit,
            NativeCall::CryptoInit,
        ],
        Flavor::Dynamic => seq![
            NativeCall::EngineInit,
            NativeCall::CheckVersion(v),
            NativeCall::LoadProvider,
            NativeCall::AppInit,
            NativeCall::CryptoInit,
        ],
    }
}

/// The shutdown call that undoes an init call, where there is one.
pub open spec fn release_of(c: NativeCall) -> Option<NativeCall> {
    match c {
        NativeCall::EngineInit => Some(NativeCall::EngineShutdown),
        NativeCall::AppInit => Some(NativeCall::AppShutdown),
        NativeCall::CryptoInit => Some(NativeCall::CryptoShutdown),
        _ => None,
    }
}

/// The shutdown calls that undo the calls of `s`, the latest first.
pub open spec fn releases(s: Seq<NativeCall>) -> Seq<NativeCall>
    decreases s.len(),
{
    if s.len() == 0 {
        Seq::empty()
    } else {
        let rest = releases(s.drop_first());
        match release_of(s[0]) {
            Some(d) => rest.push(d),
            None => rest,
        }
    }
}

/// Whether status `rc`, returned by `c`, lets initialization go on.
///
/// The version check answers 1 for a compatible engine, 0 for an
/// incompatible one and a negative value on error; every other call answers
/// a negative value on failure.
pub open spec fn accepts(c: NativeCall, rc: i32) -> bool {
    match c {
        NativeCall::CheckVersion(_) => rc > 0,
        _ => rc >= 0,
    }
}

/// Why initialization could not go on, with the status that said so.
#[derive(Clone, Copy, Debug, PartialEq, Eq, Structural, Hash)]
pub enum InitError {
    EngineInit(i32),
    VersionCheck(i32),
    ProviderLoad(i32),
    AppInit(i32),
    CryptoInit(i32),
}

/// The error for init call `c` rejecting with status `rc`.
pub open spec fn failure_of(c: NativeCall, rc: i32) -> InitError {
    match c {
        NativeCall::EngineInit => InitError::EngineInit(rc),
        NativeCall::CheckVersion(_) => InitError::VersionCheck(rc),
        NativeCall::LoadProvider => InitError::ProviderLoad(rc),
        NativeCall::AppInit => InitError::AppInit(rc),
        _ => InitError::CryptoInit(rc),
    }
}


impl InitError {
    /// What failed, in words.
    pub fn message(&self) -> (r: &'static str)
        ensures
            r@ == failure_message(*self),
    {
        match self {
            InitError::EngineInit(_) => "XmlSec failed initialization",
            InitError::VersionCheck(_) => "XmlSec version check failed",
            InitError::ProviderLoad(_) =>
                "XmlSec failed while loading default crypto backend. Make sure that you have it installed and check shared libraries path",
            InitError::AppInit(_) => "XmlSec failed to init crypto backend",
            InitError::CryptoInit(_) => "XmlSec failed to init crypto library",
        }
    }
}

/// The words that describe an initialization failure.
pub open spec fn failure_message(e: InitError) -> Seq<char> {
    match e {
        InitError::EngineInit(_) => "XmlSec failed initialization"@,
        InitError::VersionCheck(_) => "XmlSec version check failed"@,
        InitError::ProviderLoad(_) =>
            "XmlSec failed while loading default crypto backend. Make sure that you have it installed and check shared libraries path"@,
        InitError::AppInit(_) => "XmlSec failed to init crypto backend"@,
        InitError::CryptoInit(_) => "XmlSec failed to init crypto library"@,
    }
}

/// Number of calls in the initialization sequence of `f`.
fn init_len(f: Flavor) -> (r: usize)
    ensures
        forall|v: Version| #[trigger] init_sequence(f, v).len() == r,
{
    match f {
        Flavor::Static => 4,
        Flavor::Dynamic => 5,
    }
}

/// The `i`-th call of the initialization sequence.
fn init_call(f: Flavor, v: Version, i: usize) -> (r: NativeCall)
    requires
        i < init_sequence(f, v).len(),
    ensures
        r == init_sequence(f, v)[i as int],
{
    match f {
        Flavor::Static => if i == 0 {
            NativeCall::EngineInit
        } else if i == 1 {
            NativeCall::CheckVersion(v)
        } else if i == 2 {
            NativeCall::AppInit
        } else {
            NativeCall::CryptoInit
        },
        Flavor::Dynamic => if i == 0 {
            NativeCall::EngineInit
        } else if i == 1 {
            NativeCall::CheckVersion(v)
        } else if i == 2 {
            NativeCall::LoadProvider
        } else if i == 3 {
            NativeCall::AppInit
        } else {
            NativeCall::CryptoInit
        },
    }
}

/// Whether `rc` lets initialization go on after `c`.
fn accepts_status(c: NativeCall, rc: i32) -> (r: bool)
    ensures
        r == accepts(c, rc),
{
    match c {
        NativeCall::CheckVersion(_) => rc > 0,
        _ => rc >= 0,
    }
}

/// An initialization in progress: the calls of the sequence that have been
/// made and accepted so far.
///
/// A rejected status consumes it, so no later call of the sequence can be
/// asked for and no context can be made from it.
pub struct Initializer {
    flavor: Flavor,
    required: Version,
    done: usize,
}

impl Initializer {
    pub closed spec fn spec_flavor(&self) -> Flavor {
        self.flavor
    }

    pub closed spec fn spec_required(&self) -> Version {
        self.required
    }

    /// Number of calls made and accepted.
    pub closed spec fn completed(&self) -> nat {
        self.done as nat
    }

    pub open spec fn steps(&self) -> Seq<NativeCall> {
        init_sequence(self.spec_flavor(), self.spec_required())
    }

    pub open spec fn is_done(&self) -> bool {
        self.completed() >= self.steps().len()
    }

    /// Starts the sequence for `flavor`, checking the engine against
    /// `required`.
    pub fn new(flavor: Flavor, required: Version) -> (r: Initializer)
        ensures
            r.spec_flavor() == flavor,
            r.spec_required() == required,
            r.completed() == 0,
    {
        Initializer { flavor, required, done: 0 }
    }

    /// The next native call to make, or `None` once all were accepted.
    pub fn next_call(&self) -> (r: Option<NativeCall>)
        ensures
            r == if self.completed() < self.steps().len() {
                Some(self.steps()[self.completed() as int])
            } else {
                None::<NativeCall>
            },
    {
        if self.done < init_len(self.flavor) {
            Some(init_call(self.flavor, self.required, self.done))
        } else {
            None
        }
    }

    pub fn is_complete(&self) -> (r: bool)
        ensures
            r == self.is_done(),
    {
        self.done >= init_len(self.flavor)
    }

    /// Takes the status returned by the call that `next_call` named.
    ///
    /// An accepted status moves on to the next call; a rejected one ends the
    /// sequence with the error of that call.
    pub fn record(self, rc: i32) -> (r: Result<Initializer, InitError>)
        requires
            !self.is_done(),
        ensures
            accepts(self.steps()[self.completed() as int], rc) <==> r is Ok,
            r matches Ok(n) ==> {
                &&& n.spec_flavor() == self.spec_flavor()
                &&& n.spec_required() == self.spec_required()
                &&& n.completed() == self.completed() + 1
            },
            r matches Err(e) ==> e == failure_of(self.steps()[self.completed() as int], rc),
    {
        let c = init_call(self.flavor, self.required, self.done);
        if accepts_status(c, rc) {
            Ok(Initializer { flavor: self.flavor, required: self.required, done: self.done + 1 })
        } else {
            Err(
                match c {
                    NativeCall::EngineInit => InitError::EngineInit(rc),
                    NativeCall::CheckVersion(_) => InitError::VersionCheck(rc),
                    NativeCall::LoadProvider => InitError::ProviderLoad(rc),
                    NativeCall::AppInit => InitError::AppInit(rc),
                    _ => InitError::CryptoInit(rc),
                },
            )
        }
    }
}

/// XmlSec global context.
///
/// A value of this type stands for an engine whose whole initialization
/// sequence was accepted; it can only be made from such a sequence.
pub struct XmlSecContext {
    flavor: Flavor,
    version: Version,
}

impl XmlSecContext {
    pub closed spec fn spec_flavor(&self) -> Flavor {
        self.flavor
    }

    pub closed spec fn spec_version(&self) -> Version {
        self.version
    }

    /// The context that a completed initialization brought up.
    pub fn new(init: Initializer) -> (r: XmlSecContext)
        requires
            init.is_done(),
        ensures
            r.spec_flavor() == init.spec_flavor(),
            r.spec_version() == init.spec_required(),
    {
        XmlSecContext { flavor: init.flavor, version: init.required }
    }

    pub fn flavor(&self) -> (r: Flavor)
        ensures
            r == self.spec_flavor(),
    {
        self.flavor
    }

    /// The shutdown calls to make when the context goes away: each init call
    /// that holds native state is undone, the latest first.
    pub fn teardown_calls(&self) -> (r: Vec<NativeCall>)
        ensures
            r@ == releases(init_sequence(self.spec_flavor(), self.spec_version())),
    {
        proof {
            lemma_teardown_reverses_init(self.flavor, self.version);
        }
        vec![NativeCall::CryptoShutdown, NativeCall::AppShutdown, NativeCall::EngineShutdown]
    }
}

/// Teardown of either flavor undoes the crypto, then the provider's
/// application layer, then the engine: the reverse of their initialization.
pub proof fn lemma_teardown_reverses_init(f: Flavor, v: Version)
    ensures
        releases(init_sequence(f, v)) == seq![
            NativeCall::CryptoShutdown,
            NativeCall::AppShutdown,
            NativeCall::EngineShutdown,
        ],
{
    let s = init_sequence(f, v);
    let tail = seq![NativeCall::AppInit, NativeCall::CryptoInit];
    assert(tail.drop_first() =~= seq![NativeCall::CryptoInit]);
    assert(tail.drop_first().drop_first() =~= Seq::<NativeCall>::empty());
    assert(releases(tail) =~= seq![NativeCall::CryptoShutdown, NativeCall::AppShutdown]) by {
        reveal_with_fuel(releases, 3);
    }
    match f {
        Flavor::Static => {
            assert(s.drop_first().drop_first() =~= tail);
        },
        Flavor::Dynamic => {
            assert(s.drop_first().drop_first().drop_first() =~= tail);
            assert(releases(s.drop_first().drop_first()) == releases(tail));
        },
    }
    assert(releases(s.drop_first()) == releases(tail));
    assert(releases(s) =~= seq![
        NativeCall::CryptoShutdown,
        NativeCall::AppShutdown,
        NativeCall::EngineShutdown,
    ]);
}

/// The one place a process keeps its context: empty, or holding the context
/// of a completed initialization.
pub struct ContextSlot {
    ctx: Option<XmlSecContext>,
}

impl View for ContextSlot {
    type V = Option<XmlSecContext>;

    closed spec fn view(&self) -> Option<XmlSecContext> {
        self.ctx
    }
}

impl ContextSlot {
    /// An empty slot.
    pub fn new() -> (r: ContextSlot)
        ensures
            r@ is None,
    {
        ContextSlot { ctx: None }
    }

    pub fn is_initialized(&self) -> (r: bool)
        ensures
            r == self@ is Some,
    {
        self.ctx.is_some()
    }

    /// The context held, if any.
    pub fn context(&self) -> (r: Option<&XmlSecContext>)
        ensures
            r is Some <==> self@ is Some,
            r matches Some(c) ==> self@ == Some(*c),
    {
        match &self.ctx {
            Some(c) => Some(c),
            None => None,
        }
    }

    /// Puts the context of a completed initialization into the empty slot.
    pub fn install(&mut self, ctx: XmlSecContext)
        requires
            old(self)@ is None,
        ensures
            final(self)@ == Some(ctx),
    {
        self.ctx = Some(ctx);
    }

    /// Empties the slot, handing out the context it held so that its
    /// teardown can run.
    pub fn release(&mut self) -> (r: Option<XmlSecContext>)
        ensures
            r == old(self)@,
            final(self)@ is None,
    {
        self.ctx.take()
    }
}

/// Decides, with the slot's lock held, whether the engine must be brought up.
///
/// An empty slot gets a fresh initialization sequence for `flavor`, checked
/// against `required`; a slot that holds a context needs nothing, and no
/// native call is made.
pub fn guarantee_xmlsec_init(slot: &ContextSlot, flavor: Flavor, required: Version) -> (r: Option<
    Initializer,
>)
    ensures
        r is Some <==> slot@ is None,
        r matches Some(i) ==> {
            &&& i.spec_flavor() == flavor
            &&& i.spec_required() == required
            &&& i.completed() == 0
        },
{
    if slot.is_initialized() {
        None
    } else {
        Some(Initializer::new(flavor, required))
    }
}

/// Number of initializations that `n` callers start when they take the
/// slot's lock one after another, the first finding it initialized or not.
/// A caller starts one exactly when it finds the slot empty, and a started
/// initialization completes and is installed before the lock is released.
pub open spec fn initializations(initialized: bool, n: nat) -> nat
    decreases n,
{
    if n == 0 {
        0
    } else {
        (if initialized { 0nat } else { 1nat })
            + initializations(true, (n - 1) as nat)
    }
}

/// However many callers race for an empty slot, exactly one of them brings
/// the engine up, and all of them find it up when they return.
pub proof fn lemma_initialized_exactly_once(n: nat)
    requires
        n >= 1,
    ensures
        initializations(false, n) == 1,
{
    lemma_initialized_slot_is_left_alone((n - 1) as nat);
}

/// Once the slot holds a context, further callers start no initialization.
pub proof fn lemma_initialized_slot_is_left_alone(n: nat)
    ensures
        initializations(true, n) == 0,
    decreases n,
{
    if n > 0 {
        lemma_initialized_slot_is_left_alone((n - 1) as nat);
    }
}

/// The calls made, in order, when the calls of `steps` return `statuses` in
/// turn: the sequence stops right after the first rejected status.
pub open spec fn issued_calls(steps: Seq<NativeCall>, statuses: Seq<i32>) -> Seq<NativeCall>
    decreases steps.len(),
{
    if steps.len() == 0 || statuses.len() == 0 {
        Seq::empty()
    } else if accepts(steps[0], statuses[0]) {
        seq![steps[0]] + issued_calls(steps.drop_first(), statuses.drop_first())
    } else {
        seq![steps[0]]
    }
}

/// When the `k`-th call of the initialization sequence is the first to be
/// rejected, no later call of the sequence is made.
pub proof fn lemma_failure_stops_sequence(steps: Seq<NativeCall>, statuses: Seq<i32>, k: int)
    requires
        0 <= k < steps.len(),
        k < statuses.len(),
        forall|i: int| 0 <= i < k ==> accepts(#[trigger] steps[i], statuses[i]),
        !accepts(steps[k], statuses[k]),
    ensures
        issued_calls(steps, statuses) == steps.take(k + 1),
    decreases k,
{
    if k == 0 {
        assert(steps.take(1) =~= seq![steps[0]]);
    } else {
        let s2 = steps.drop_first();
        let t2 = statuses.drop_first();
        assert forall|i: int| 0 <= i < k - 1 implies accepts(#[trigger] s2[i], t2[i]) by {
            assert(accepts(steps[i + 1], statuses[i + 1]));
        }
        lemma_failure_stops_sequence(s2, t2, k - 1);
        assert(accepts(steps[0], statuses[0]));
        assert(seq![steps[0]] + s2.take(k) =~= steps.take(k + 1));
    }
}

} // verus!
