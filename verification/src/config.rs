//! The TLS configuration that every connection of a server shares, and the
//! steps by which the back end builds one.

use std::sync::Arc;
use vstd::prelude::*;

verus! {

/// A version of the TLS protocol.
#[derive(Clone, Copy, Debug, PartialEq, Eq)]
pub enum TlsVersion {
    Tls1,
    Tls1_1,
    Tls1_2,
    Tls1_3,
}

/// The protocols that the server answers a peer's offer from, the preferred
/// one first: each name behind a byte that holds its length.
pub const ALPN_PROTOCOLS: [u8; 12] = [2, 104, 50, 8, 104, 116, 116, 112, 47, 49, 46, 49];

/// The name "h2" in bytes.
pub open spec fn h2() -> Seq<u8> {
    seq![104u8, 50u8]
}

/// The name "http/1.1" in bytes.
pub open spec fn http11() -> Seq<u8> {
    seq![104u8, 116u8, 116u8, 112u8, 47u8, 49u8, 46u8, 49u8]
}

/// A list of protocol names as it goes over the wire: each name behind one
/// byte that holds its length.
pub open spec fn alpn_wire(names: Seq<Seq<u8>>) -> Seq<u8>
    decreases names.len(),
{
    if names.len() == 0 {
        Seq::empty()
    } else {
        alpn_wire(names.drop_last()) + seq![names.last().len() as u8] + names.last()
    }
}

/// [`ALPN_PROTOCOLS`] is the list of "h2" and "http/1.1", in this order.
pub proof fn law_alpn_prefers_h2()
    ensures
        ALPN_PROTOCOLS@ == alpn_wire(seq![h2(), http11()]),
{
    let names = seq![h2(), http11()];
    assert(names.drop_last() =~= seq![h2()]);
    assert(names.drop_last().drop_last() =~= Seq::<Seq<u8>>::empty());
    reveal_with_fuel(alpn_wire, 3);
    assert(ALPN_PROTOCOLS@ =~= alpn_wire(names));
}

/// One thing to ask of the TLS back end while it builds a server context.
/// `P` is the type of a path to a file.
#[derive(Debug, PartialEq, Eq)]
pub enum ConfigStep<P> {
    /// Start from the back end's intermediate profile for servers, for any TLS version.
    IntermediateProfile,
    /// Answer a peer's protocol offer with the first of [`ALPN_PROTOCOLS`]
    /// that the peer offers too, and with a fatal alert if there is none.
    SelectAlpn,
    /// Switch on the back end's whole set of workarounds for faulty peers.
    AllWorkarounds,
    /// Accept no version below this one.
    MinProtoVersion(TlsVersion),
    /// Accept no version above this one.
    MaxProtoVersion(TlsVersion),
    /// Send the extensions in an order that changes from one connection to the next.
    PermuteExtensions(bool),
    /// Load the certificate from this PEM file.
    CertificateFile(P),
    /// Load the certificate and the chain behind it from this PEM file.
    CertificateChainFile(P),
    /// Load the private key from this PEM file.
    PrivateKeyFile(P),
    /// Check that the private key belongs to the certificate.
    CheckPrivateKey,
}

/// The policy that every configuration built from files starts with: the
/// intermediate profile, "h2" before "http/1.1", all workarounds, TLS 1.0 to
/// TLS 1.3, and shuffled extensions.
pub open spec fn baseline<P>() -> Seq<ConfigStep<P>> {
    seq![
        ConfigStep::IntermediateProfile,
        ConfigStep::SelectAlpn,
        ConfigStep::AllWorkarounds,
        ConfigStep::MinProtoVersion(TlsVersion::Tls1),
        ConfigStep::MaxProtoVersion(TlsVersion::Tls1_3),
        ConfigStep::PermuteExtensions(true),
    ]
}

/// The steps of a configuration from a certificate file and a key file.
pub open spec fn pem_file_steps<P>(cert: P, key: P) -> Seq<ConfigStep<P>> {
    baseline().push(ConfigStep::CertificateFile(cert)).push(ConfigStep::PrivateKeyFile(key)).push(
        ConfigStep::CheckPrivateKey,
    )
}

/// The steps of a configuration from a certificate chain file and a key file.
pub open spec fn pem_chain_file_steps<P>(chain: P, key: P) -> Seq<ConfigStep<P>> {
    baseline().push(ConfigStep::CertificateChainFile(chain)).push(
        ConfigStep::PrivateKeyFile(key),
    ).push(ConfigStep::CheckPrivateKey)
}

/// The steps of a configuration from a builder that the caller has set up in full.
pub open spec fn builder_steps<P>() -> Seq<ConfigStep<P>> {
    seq![ConfigStep::CheckPrivateKey]
}

/// How far the building of a configuration has come, as contracts see it.
pub struct ConfigProgress<P> {
    /// All the steps, in the order in which they are to be made.
    pub steps: Seq<ConfigStep<P>>,
    /// How many of them the back end has made.
    pub done: nat,
    /// Whether the back end has failed at the step after those.
    pub failed: bool,
}

impl<P> ConfigProgress<P> {
    /// The progress before the first of `steps`.
    pub open spec fn start(steps: Seq<ConfigStep<P>>) -> Self {
        ConfigProgress { steps, done: 0, failed: false }
    }

    /// The step that the back end is to make now, if any is left and none has failed.
    pub open spec fn pending(self) -> Option<ConfigStep<P>> {
        if !self.failed && self.done < self.steps.len() {
            Some(self.steps[self.done as int])
        } else {
            None
        }
    }

    /// The progress once the back end has reported on the pending step. With
    /// no step pending there is nothing to report on, and nothing changes.
    pub open spec fn record(self, succeeded: bool) -> Self {
        if self.pending() is None {
            self
        } else if succeeded {
            ConfigProgress { done: self.done + 1, ..self }
        } else {
            ConfigProgress { failed: true, ..self }
        }
    }

    /// Whether every step has been made.
    pub open spec fn complete(self) -> bool {
        !self.failed && self.done == self.steps.len()
    }

    /// The progress once the back end has reported `outcomes`, one after the other.
    pub open spec fn record_all(self, outcomes: Seq<bool>) -> Self
        decreases outcomes.len(),
    {
        if outcomes.len() == 0 {
            self
        } else {
            self.record_all(outcomes.drop_last()).record(outcomes.last())
        }
    }
}

/// The building of a configuration in progress: the steps to ask of the back
/// end, and how many of them it has made.
pub struct ConfigBuilder<P> {
    steps: Vec<ConfigStep<P>>,
    done: usize,
    failed: bool,
}

impl<P> View for ConfigBuilder<P> {
    type V = ConfigProgress<P>;

    closed spec fn view(&self) -> ConfigProgress<P> {
        ConfigProgress { steps: self.steps@, done: self.done as nat, failed: self.failed }
    }
}

/// The steps of the policy that every configuration built from files starts with.
pub fn default_acceptor_builder<P>() -> (steps: Vec<ConfigStep<P>>)
    ensures
        steps@ == baseline::<P>(),
{
    let mut steps: Vec<ConfigStep<P>> = Vec::new();
    steps.push(ConfigStep::IntermediateProfile);
    steps.push(ConfigStep::SelectAlpn);
    steps.push(ConfigStep::AllWorkarounds);
    steps.push(ConfigStep::MinProtoVersion(TlsVersion::Tls1));
    steps.push(ConfigStep::MaxProtoVersion(TlsVersion::Tls1_3));
    steps.push(ConfigStep::PermuteExtensions(true));
    assert(steps@ =~= baseline::<P>());
    steps
}

impl<P> ConfigBuilder<P> {
    #[verifier::type_invariant]
    spec fn inv(self) -> bool {
        self.done <= self.steps.len()
    }

    fn start(steps: Vec<ConfigStep<P>>) -> (builder: Self)
        ensures
            builder@ == ConfigProgress::start(steps@),
    {
        ConfigBuilder { steps, done: 0, failed: false }
    }

    /// The step to ask of the back end now. There is none once a step has
    /// failed, or once all are made.
    pub fn next_step(&self) -> (step: Option<&ConfigStep<P>>)
        ensures
            step is Some == self@.pending() is Some,
            step matches Some(s) ==> *s == self@.pending()->0,
    {
        if !self.failed && self.done < self.steps.len() {
            Some(&self.steps[self.done])
        } else {
            None
        }
    }

    /// Takes the back end's report on the step that [`Self::next_step`] gave.
    pub fn record(&mut self, succeeded: bool)
        ensures
            final(self)@ == old(self)@.record(succeeded),
    {
        proof {
            use_type_invariant(&*self);
        }
        if !self.failed && self.done < self.steps.len() {
            if succeeded {
                self.done = self.done + 1;
            } else {
                self.failed = true;
            }
        }
    }

    /// Whether every step has been made, so that the context can be built.
    pub fn is_complete(&self) -> (complete: bool)
        ensures
            complete == self@.complete(),
    {
        !self.failed && self.done == self.steps.len()
    }

    /// Wraps the context that the back end has built into a configuration.
    /// Unless every step has been made there is no configuration.
    pub fn build<C>(self, context: C) -> (config: Option<BoringSSLConfig<C>>)
        ensures
            config is Some <==> self@.complete(),
            config matches Some(c) ==> c@ == context,
    {
        if self.is_complete() {
            Some(BoringSSLConfig { acceptor: Arc::new(context) })
        } else {
            None
        }
    }
}

/// A finished TLS server context of type `C`, shared by reference count.
///
/// The context is never changed once it stands here, and a clone is one more
/// handle to the same context.
#[derive(Debug, PartialEq, Eq)]
pub struct BoringSSLConfig<C> {
    acceptor: Arc<C>,
}

impl<C> View for BoringSSLConfig<C> {
    type V = C;

    /// The context that the configuration shares.
    closed spec fn view(&self) -> C {
        *self.acceptor
    }
}

impl<C> BoringSSLConfig<C> {
    /// Begins a configuration that holds strong cipher suites, from a PEM
    /// certificate and its key.
    pub fn from_pem_file<P>(cert: P, key: P) -> (builder: ConfigBuilder<P>)
        ensures
            builder@ == ConfigProgress::start(pem_file_steps(cert, key)),
    {
        let mut steps = default_acceptor_builder();
        steps.push(ConfigStep::CertificateFile(cert));
        steps.push(ConfigStep::PrivateKeyFile(key));
        steps.push(ConfigStep::CheckPrivateKey);
        ConfigBuilder::start(steps)
    }

    /// Begins a configuration that holds strong cipher suites, from a PEM
    /// certificate chain and the key of its first certificate.
    pub fn from_pem_chain_file<P>(chain: P, key: P) -> (builder: ConfigBuilder<P>)
        ensures
            builder@ == ConfigProgress::start(pem_chain_file_steps(chain, key)),
    {
        let mut steps = default_acceptor_builder();
        steps.push(ConfigStep::CertificateChainFile(chain));
        steps.push(ConfigStep::PrivateKeyFile(key));
        steps.push(ConfigStep::CheckPrivateKey);
        ConfigBuilder::start(steps)
    }

    /// Begins a configuration from a builder of the back end that the caller
    /// has set up in full. Its key is checked all the same.
    pub fn try_from<P>() -> (builder: ConfigBuilder<P>)
        ensures
            builder@ == ConfigProgress::start(builder_steps::<P>()),
    {
        let mut steps: Vec<ConfigStep<P>> = Vec::new();
        steps.push(ConfigStep::CheckPrivateKey);
        assert(steps@ =~= builder_steps::<P>());
        ConfigBuilder::start(steps)
    }

    /// The shared context, for opening a session on a connection.
    pub fn acceptor(&self) -> (context: &C)
        ensures
            *context == self@,
    {
        &*self.acceptor
    }
}

impl<C> Clone for BoringSSLConfig<C> {
    /// One more handle to the same context.
    fn clone(&self) -> (shared: Self)
        ensures
            shared == *self,
    {
        BoringSSLConfig { acceptor: self.acceptor.clone() }
    }
}

/// On each of the three ways to a configuration the last step is the check
/// of the private key against the certificate.
pub proof fn law_key_check_comes_last<P>(cert: P, key: P)
    ensures
        pem_file_steps(cert, key).last() == ConfigStep::<P>::CheckPrivateKey,
        pem_chain_file_steps(cert, key).last() == ConfigStep::<P>::CheckPrivateKey,
        builder_steps::<P>().last() == ConfigStep::<P>::CheckPrivateKey,
{
}

/// `n` reports of success.
pub open spec fn successes(n: nat) -> Seq<bool> {
    Seq::new(n, |i: int| true)
}

/// What the reports of the back end lead to: the steps made are those up to
/// the first failure, and nothing is made after one.
pub proof fn lemma_record_all<P>(steps: Seq<ConfigStep<P>>, outcomes: Seq<bool>)
    ensures
        ({
            let progress = ConfigProgress::start(steps).record_all(outcomes);
            &&& progress.steps == steps
            &&& progress.done <= steps.len()
            &&& progress.done <= outcomes.len()
            &&& forall|i: int| 0 <= i < progress.done ==> outcomes[i]
            &&& progress.failed ==> progress.done < steps.len() && progress.done < outcomes.len()
                && !outcomes[progress.done as int]
            &&& !progress.failed ==> progress.done == steps.len() || progress.done
                == outcomes.len()
        }),
    decreases outcomes.len(),
{
    if outcomes.len() > 0 {
        let earlier = outcomes.drop_last();
        lemma_record_all(steps, earlier);
        assert(forall|i: int| 0 <= i < earlier.len() ==> earlier[i] == outcomes[i]);
    }
}

/// A configuration can be built when the back end has made every step, the
/// key check among them, and in no other case: not after a step that failed,
/// and not while a step is still to be made.
pub proof fn law_complete_iff_every_step_succeeded<P>(
    steps: Seq<ConfigStep<P>>,
    outcomes: Seq<bool>,
)
    ensures
        ConfigProgress::start(steps).record_all(outcomes).complete() <==> (steps.len()
            <= outcomes.len() && forall|i: int| 0 <= i < steps.len() ==> outcomes[i]),
{
    lemma_record_all(steps, outcomes);
}

/// With a certificate and a key that belong together, and files that the
/// back end can read, every step succeeds, and the configuration can be built.
pub proof fn law_valid_pair_gives_configuration<P>(steps: Seq<ConfigStep<P>>)
    ensures
        ConfigProgress::start(steps).record_all(successes(steps.len())).complete(),
{
    law_complete_iff_every_step_succeeded(steps, successes(steps.len()));
}

/// When the private key does not belong to the certificate, no configuration
/// can be built: on each way to one the key check comes last, and once it
/// has failed, nothing that the back end reports `later` makes up for it.
pub proof fn law_mismatched_key_gives_no_configuration<P>(
    steps: Seq<ConfigStep<P>>,
    later: Seq<bool>,
)
    requires
        steps.len() > 0,
        steps.last() == ConfigStep::<P>::CheckPrivateKey,
    ensures
        !ConfigProgress::start(steps).record_all(
            successes((steps.len() - 1) as nat).push(false) + later,
        ).complete(),
{
    let outcomes = successes((steps.len() - 1) as nat).push(false) + later;
    law_complete_iff_every_step_succeeded(steps, outcomes);
    assert(!outcomes[steps.len() - 1]);
}

} // verus!
