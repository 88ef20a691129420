//! The authorities that upstream certificates may come from.
use crate::error::{CertificateError, DnsProxyError, DnsProxyResult, ErrorView};
use crate::octets;
use crate::text;
use crate::tls_utils::certificates;
use std::sync::Arc;
use vstd::prelude::*;

verus! {

/// `RootCertStore` of the `rustls` crate, a list of trust anchors.
#[verifier::external_type_specification]
#[verifier::external_body]
pub struct ExRootCertStore(rustls::RootCertStore);

/// The trust anchors in a store, in their order: subject, public key and name
/// constraints.
pub uninterp spec fn trust_anchors(store: rustls::RootCertStore) -> Seq<
    (Seq<u8>, Seq<u8>, Option<Seq<u8>>),
>;

/// A trust anchor.
#[derive(Debug, Clone)]
pub struct Anchor {
    pub subject: Vec<u8>,
    pub public_key: Vec<u8>,
    pub name_constraints: Option<Vec<u8>>,
}

impl View for Anchor {
    type V = (Seq<u8>, Seq<u8>, Option<Seq<u8>>);

    open spec fn view(&self) -> (Seq<u8>, Seq<u8>, Option<Seq<u8>>) {
        (
            self.subject@,
            self.public_key@,
            match self.name_constraints {
                Some(constraints) => Some(constraints@),
                None => None,
            },
        )
    }
}

/// The bytes of trust anchors.
pub open spec fn anchors_view(anchors: Seq<Anchor>) -> Seq<(Seq<u8>, Seq<u8>, Option<Seq<u8>>)> {
    Seq::new(anchors.len(), |i: int| anchors[i]@)
}

/// Calls `RootCertStore::empty` of the `rustls` crate: a store without anchors.
#[verifier::external_body]
fn empty_store() -> (r: rustls::RootCertStore)
    ensures
        trust_anchors(r) == Seq::<(Seq<u8>, Seq<u8>, Option<Seq<u8>>)>::empty(),
{
    rustls::RootCertStore::empty()
}

/// Calls `extend` on a `RootCertStore` of the `rustls` crate: the anchors are put behind
/// those that are there.
#[verifier::external_body]
fn extend_store(store: &mut rustls::RootCertStore, anchors: &Vec<Anchor>)
    ensures
        trust_anchors(*final(store)) == trust_anchors(*old(store)) + anchors_view(anchors@),
{
    store.extend(
        anchors.iter().map(|anchor| rustls::pki_types::TrustAnchor {
            subject: anchor.subject.clone().into(),
            subject_public_key_info: anchor.public_key.clone().into(),
            name_constraints: anchor.name_constraints.clone().map(Into::into),
        }),
    );
}

/// The trust anchor that a certificate in DER stands for, or what the `rustls` crate
/// says of one that stands for none.
pub uninterp spec fn anchor_of(der: Seq<u8>) -> Result<
    (Seq<u8>, Seq<u8>, Option<Seq<u8>>),
    Seq<char>,
>;

/// Whether a certificate was added as it should be: its anchor is put behind those that
/// are there, or it has none and nothing changes.
pub open spec fn is_added(
    r: Result<(), String>,
    anchor: Result<(Seq<u8>, Seq<u8>, Option<Seq<u8>>), Seq<char>>,
    before: Seq<(Seq<u8>, Seq<u8>, Option<Seq<u8>>)>,
    after: Seq<(Seq<u8>, Seq<u8>, Option<Seq<u8>>)>,
) -> bool {
    match anchor {
        Ok(added) => r is Ok && after == before.push(added),
        Err(fault) => r matches Err(error) && error@ == fault && after == before,
    }
}

/// Calls `RootCertStore::add` of the `rustls` crate: the anchor of a certificate is put
/// behind those that are there. Which anchor that is, or what is said where there is
/// none, is a function of the certificate.
#[verifier::external_body]
fn add_certificate(store: &mut rustls::RootCertStore, der: &[u8]) -> (r: Result<(), String>)
    ensures
        is_added(r, anchor_of(der@), trust_anchors(*old(store)), trust_anchors(*final(store))),
{
    match store.add(rustls::pki_types::CertificateDer::from(der)) {
        Ok(()) => Ok(()),
        Err(fault) => Err(fault.to_string()),
    }
}

/// The trust anchor at a position of `TLS_SERVER_ROOTS` of the `webpki_roots` crate, or
/// nothing behind its end.
pub uninterp spec fn webpki_root(position: int) -> Option<(Seq<u8>, Seq<u8>, Option<Seq<u8>>)>;

/// Lists the constant `TLS_SERVER_ROOTS` of the `webpki_roots` crate, from its first
/// anchor to its last. Which authorities these are is up to the release of that crate,
/// and nothing is said of them here.
#[verifier::external_body]
fn webpki_anchors() -> (r: Vec<Anchor>)
    ensures
        forall|i: int| 0 <= i < r@.len() ==> webpki_root(i) == Some((#[trigger] r@[i])@),
        webpki_root(r@.len() as int) is None,
{
    webpki_roots::TLS_SERVER_ROOTS.iter().map(|anchor| Anchor {
        subject: anchor.subject.to_vec(),
        public_key: anchor.subject_public_key_info.to_vec(),
        name_constraints: anchor.name_constraints.as_ref().map(|der| der.to_vec()),
    }).collect()
}

/// Whether anchors are the public ones, all of them and in their order.
pub open spec fn are_webpki_roots(anchors: Seq<(Seq<u8>, Seq<u8>, Option<Seq<u8>>)>) -> bool {
    &&& forall|i: int| 0 <= i < anchors.len() ==> webpki_root(i) == Some(#[trigger] anchors[i])
    &&& webpki_root(anchors.len() as int) is None
}

/// What was read of the bundle of private authorities.
#[derive(Debug)]
pub struct AuthorityFile {
    pub path: String,
    pub contents: Result<Vec<u8>, String>,
}

/// The anchors after certificates have been added one by one, or what is said of the
/// first that stands for none.
pub open spec fn with_certificates(
    anchors: Seq<(Seq<u8>, Seq<u8>, Option<Seq<u8>>)>,
    ders: Seq<Seq<u8>>,
) -> Result<Seq<(Seq<u8>, Seq<u8>, Option<Seq<u8>>)>, Seq<char>>
    decreases ders.len(),
{
    if ders.len() == 0 {
        Ok(anchors)
    } else {
        match anchor_of(ders[0]) {
            Ok(anchor) => with_certificates(anchors.push(anchor), ders.skip(1)),
            Err(fault) => Err(fault),
        }
    }
}

/// The certificates in a bundle of private authorities, or why it cannot be used.
pub open spec fn bundle(authorities: AuthorityFile) -> Result<Seq<Seq<u8>>, ErrorView> {
    match authorities.contents {
        Err(reason) => Err(
            ErrorView::LoadFailed { path: authorities.path@, reason: reason@ },
        ),
        Ok(pem) => match certificates::pem_certificates(pem@) {
            Err(fault) => Err(
                ErrorView::InvalidFormat {
                    reason: "Failed to parse upstream CA bundle: "@ + fault,
                },
            ),
            Ok(ders) => if ders.len() == 0 {
                Err(
                    ErrorView::InvalidFormat {
                        reason: "Upstream CA bundle contains no certificates"@,
                    },
                )
            } else {
                Ok(ders)
            },
        },
    }
}

/// The anchors that upstream certificates may come from: the public ones, those of the
/// platform and those of a private bundle, in this order; or why there are none.
pub open spec fn upstream_anchors(
    public: Seq<(Seq<u8>, Seq<u8>, Option<Seq<u8>>)>,
    native: Seq<Seq<u8>>,
    authorities: Option<&AuthorityFile>,
) -> Result<Seq<(Seq<u8>, Seq<u8>, Option<Seq<u8>>)>, ErrorView> {
    match with_certificates(public, native) {
        Err(fault) => Err(
            ErrorView::InvalidFormat {
                reason: "Failed to add native upstream CA certificate: "@ + fault,
            },
        ),
        Ok(anchors) => match authorities {
            None => Ok(anchors),
            Some(file) => match bundle(*file) {
                Err(error) => Err(error),
                Ok(ders) => match with_certificates(anchors, ders) {
                    Err(fault) => Err(
                        ErrorView::InvalidFormat {
                            reason: "Failed to add upstream CA certificate: "@ + fault,
                        },
                    ),
                    Ok(all) => Ok(all),
                },
            },
        },
    }
}

/// The anchors that a standalone DoT listener takes from the platform alone.
pub open spec fn platform_anchors(native: Seq<Seq<u8>>) -> Result<
    Seq<(Seq<u8>, Seq<u8>, Option<Seq<u8>>)>,
    ErrorView,
> {
    match with_certificates(Seq::empty(), native) {
        Err(fault) => Err(
            ErrorView::LoadFailed {
                path: "system"@,
                reason: "Failed to add root certificate: "@ + fault,
            },
        ),
        Ok(anchors) => Ok(anchors),
    }
}

/// Whether a store has the given anchors, or an error is the given one.
pub open spec fn is_store(
    r: DnsProxyResult<rustls::RootCertStore>,
    wanted: Result<Seq<(Seq<u8>, Seq<u8>, Option<Seq<u8>>)>, ErrorView>,
) -> bool {
    match wanted {
        Ok(anchors) => r matches Ok(store) && trust_anchors(store) == anchors,
        Err(fault) => r matches Err(error) && error@ == fault,
    }
}

/// Adds certificates one by one.
fn add_certificates(given: rustls::RootCertStore, ders: &Vec<Vec<u8>>) -> (r: Result<
    rustls::RootCertStore,
    String,
>)
    ensures
        match with_certificates(trust_anchors(given), octets::all(ders@)) {
            Ok(anchors) => r matches Ok(store) && trust_anchors(store) == anchors,
            Err(fault) => r matches Err(error) && error@ == fault,
        },
{
    let mut store = given;
    let ghost all = octets::all(ders@);
    let mut i: usize = 0;
    assert(all.skip(0) == all);
    while i < ders.len()
        invariant
            i <= ders@.len(),
            all == octets::all(ders@),
            with_certificates(trust_anchors(given), all) == with_certificates(
                trust_anchors(store),
                all.skip(i as int),
            ),
        decreases ders@.len() - i,
    {
        proof {
            assert(all.skip(i as int)[0] == ders@[i as int]@);
            assert(all.skip(i as int).skip(1) == all.skip(i + 1));
        }
        match add_certificate(&mut store, ders[i].as_slice()) {
            Ok(()) => {},
            Err(fault) => return Err(fault),
        }
        i += 1;
    }
    Ok(store)
}

fn invalid_format(complaint: &str, fault: &str) -> (r: DnsProxyError)
    ensures
        r@ == (ErrorView::InvalidFormat { reason: complaint@ + fault@ }),
{
    DnsProxyError::Certificate(
        CertificateError::InvalidFormat { reason: text::join(complaint, fault) },
    )
}

/// The certificates in a bundle of private authorities.
fn read_bundle(authorities: &AuthorityFile) -> (r: DnsProxyResult<Vec<Vec<u8>>>)
    ensures
        match bundle(*authorities) {
            Ok(ders) => r matches Ok(found) && octets::all(found@) == ders,
            Err(fault) => r matches Err(error) && error@ == fault,
        },
{
    match &authorities.contents {
        Err(reason) => Err(
            DnsProxyError::Certificate(
                CertificateError::LoadFailed {
                    path: authorities.path.as_str().to_owned(),
                    reason: reason.as_str().to_owned(),
                },
            ),
        ),
        Ok(pem) => match certificates::read_certificates(pem.as_slice()) {
            Err(fault) => Err(
                invalid_format("Failed to parse upstream CA bundle: ", fault.as_str()),
            ),
            Ok(ders) => {
                if ders.is_empty() {
                    return Err(
                        DnsProxyError::Certificate(
                            CertificateError::InvalidFormat {
                                reason: "Upstream CA bundle contains no certificates".to_owned(),
                            },
                        ),
                    );
                }
                Ok(ders)
            },
        },
    }
}

/// Builds the trust store of a standalone DoT listener from the certificates of the
/// platform.
pub fn create_client_root_store(native: &Vec<Vec<u8>>) -> (r: DnsProxyResult<
    rustls::RootCertStore,
>)
    ensures
        is_store(r, platform_anchors(octets::all(native@))),
{
    match add_certificates(empty_store(), native) {
        Ok(store) => Ok(store),
        Err(fault) => Err(
            DnsProxyError::Certificate(
                CertificateError::LoadFailed {
                    path: "system".to_owned(),
                    reason: text::join("Failed to add root certificate: ", fault.as_str()),
                },
            ),
        ),
    }
}

/// Builds the trust store for upstreams on top of the given public anchors.
pub fn build_upstream_root_store(
    public: &Vec<Anchor>,
    native: &Vec<Vec<u8>>,
    authorities: Option<&AuthorityFile>,
) -> (r: DnsProxyResult<rustls::RootCertStore>)
    ensures
        is_store(
            r,
            upstream_anchors(
                anchors_view(public@),
                octets::all(native@),
                authorities,
            ),
        ),
{
    let mut store = empty_store();
    extend_store(&mut store, public);
    assert(trust_anchors(store) == anchors_view(public@));
    match add_certificates(store, native) {
        Err(fault) => Err(
            invalid_format("Failed to add native upstream CA certificate: ", fault.as_str()),
        ),
        Ok(store) => match authorities {
            None => Ok(store),
            Some(file) => match read_bundle(file) {
                Err(error) => Err(error),
                Ok(ders) => match add_certificates(store, &ders) {
                    Err(fault) => Err(
                        invalid_format("Failed to add upstream CA certificate: ", fault.as_str()),
                    ),
                    Ok(store) => Ok(store),
                },
            },
        },
    }
}

/// Builds the trust store for upstreams. The public authorities are kept, as are those
/// that are installed on the platform, and a private bundle can be added for upstreams
/// that the operator runs. A certificate of the platform that stands for no anchor makes
/// the whole store fail, as one of the bundle does.
pub fn create_upstream_root_store(
    native: &Vec<Vec<u8>>,
    authorities: Option<&AuthorityFile>,
) -> (r: DnsProxyResult<rustls::RootCertStore>)
    ensures
        exists|public: Seq<(Seq<u8>, Seq<u8>, Option<Seq<u8>>)>|
            are_webpki_roots(public) && is_store(
                r,
                #[trigger] upstream_anchors(
                    public,
                    octets::all(native@),
                    authorities,
                ),
            ),
{
    let public = webpki_anchors();
    assert(are_webpki_roots(anchors_view(public@)));
    build_upstream_root_store(&public, native, authorities)
}

/// Whether a result is the trust store for upstreams, on top of the public anchors.
pub open spec fn is_loaded(
    r: DnsProxyResult<Arc<rustls::RootCertStore>>,
    native: Seq<Vec<u8>>,
    authorities: Option<&AuthorityFile>,
) -> bool {
    exists|public: Seq<(Seq<u8>, Seq<u8>, Option<Seq<u8>>)>| ({
        let wanted = #[trigger] upstream_anchors(public, octets::all(native), authorities);
        are_webpki_roots(public) && match wanted {
            Ok(anchors) => r matches Ok(store) && trust_anchors(*store) == anchors,
            Err(fault) => r matches Err(error) && error@ == fault,
        }
    })
}

/// Builds the trust store of one application instance. It is not shared by the whole
/// process: an instance that is built after a bundle was replaced sees the new one.
pub fn load_upstream_root_store(
    native: &Vec<Vec<u8>>,
    authorities: Option<&AuthorityFile>,
) -> (r: DnsProxyResult<Arc<rustls::RootCertStore>>)
    ensures
        is_loaded(r, native@, authorities),
{
    match create_upstream_root_store(native, authorities) {
        Ok(store) => Ok(Arc::new(store)),
        Err(error) => Err(error),
    }
}

/// There is one list of public anchors, so that the trust store for upstreams depends on
/// the certificates of the platform and the private bundle alone.
pub proof fn public_authorities_are_fixed(
    a: Seq<(Seq<u8>, Seq<u8>, Option<Seq<u8>>)>,
    b: Seq<(Seq<u8>, Seq<u8>, Option<Seq<u8>>)>,
)
    requires
        are_webpki_roots(a),
        are_webpki_roots(b),
    ensures
        a == b,
{
    if a.len() < b.len() {
        assert(webpki_root(a.len() as int) == Some(b[a.len() as int]));
    }
    if b.len() < a.len() {
        assert(webpki_root(b.len() as int) == Some(a[b.len() as int]));
    }
    assert forall|i: int| 0 <= i < a.len() implies a[i] == b[i] by {
        assert(webpki_root(i) == Some(a[i]));
        assert(webpki_root(i) == Some(b[i]));
    }
}

/// A private bundle adds authorities and takes none away.
pub proof fn private_authorities_are_additional(
    public: Seq<(Seq<u8>, Seq<u8>, Option<Seq<u8>>)>,
    native: Seq<Seq<u8>>,
    authorities: AuthorityFile,
)
    ensures
        upstream_anchors(public, native, Some(&authorities)) matches Ok(anchors) ==> {
            &&& upstream_anchors(public, native, None) is Ok
            &&& upstream_anchors(public, native, None)->Ok_0.is_prefix_of(anchors)
            &&& public.is_prefix_of(anchors)
        },
{
    lemma_only_added(public, native);
    if let Ok(anchors) = upstream_anchors(public, native, None) {
        if let Ok(ders) = bundle(authorities) {
            lemma_only_added(anchors, ders);
        }
    }
}

/// Adding certificates keeps the anchors that are there.
proof fn lemma_only_added(
    anchors: Seq<(Seq<u8>, Seq<u8>, Option<Seq<u8>>)>,
    ders: Seq<Seq<u8>>,
)
    ensures
        with_certificates(anchors, ders) matches Ok(after) ==> anchors.is_prefix_of(
            after,
        ),
    decreases ders.len(),
{
    if ders.len() > 0 {
        if let Ok(anchor) = anchor_of(ders[0]) {
            lemma_only_added(anchors.push(anchor), ders.skip(1));
            if let Ok(after) = with_certificates(anchors, ders) {
                assert forall|i: int| 0 <= i < anchors.len() implies anchors[i] == after[i] by {
                    assert(anchors.push(anchor)[i] == anchors[i]);
                }
            }
        }
    }
}

/// Certificates that all stand for anchors add these, each once and in their order, behind
/// the anchors that are there; of others, the first that stands for none is reported.
pub proof fn certificates_add_their_anchors(
    anchors: Seq<(Seq<u8>, Seq<u8>, Option<Seq<u8>>)>,
    ders: Seq<Seq<u8>>,
)
    ensures
        match with_certificates(anchors, ders) {
            Ok(after) => {
                &&& after.len() == anchors.len() + ders.len()
                &&& forall|i: int|
                    0 <= i < anchors.len() ==> (#[trigger] after[i]) == anchors[i]
                &&& forall|i: int|
                    0 <= i < ders.len() ==> anchor_of(#[trigger] ders[i]) == Ok::<
                        (Seq<u8>, Seq<u8>, Option<Seq<u8>>),
                        Seq<char>,
                    >(after[anchors.len() + i])
            },
            Err(fault) => exists|k: int|
                0 <= k < ders.len() && anchor_of(#[trigger] ders[k]) == Err::<
                    (Seq<u8>, Seq<u8>, Option<Seq<u8>>),
                    Seq<char>,
                >(fault) && forall|i: int| 0 <= i < k ==> anchor_of(#[trigger] ders[i]) is Ok,
        },
    decreases ders.len(),
{
    if ders.len() > 0 {
        let rest = ders.skip(1);
        match anchor_of(ders[0]) {
            Err(fault) => {
                assert(anchor_of(ders[0]) is Err);
            },
            Ok(anchor) => {
                let more = anchors.push(anchor);
                certificates_add_their_anchors(more, rest);
                match with_certificates(more, rest) {
                    Ok(after) => {
                        assert forall|i: int| 0 <= i < anchors.len() implies (#[trigger] after[i])
                            == anchors[i] by {
                            assert(more[i] == anchors[i]);
                        }
                        assert forall|i: int| 0 <= i < ders.len() implies anchor_of(
                            #[trigger] ders[i],
                        ) == Ok::<(Seq<u8>, Seq<u8>, Option<Seq<u8>>), Seq<char>>(
                            after[anchors.len() + i],
                        ) by {
                            if i == 0 {
                                assert(more[anchors.len() as int] == anchor);
                            } else {
                                assert(rest[i - 1] == ders[i]);
                            }
                        }
                    },
                    Err(fault) => {
                        let k = choose|k: int|
                            0 <= k < rest.len() && anchor_of(#[trigger] rest[k]) == Err::<
                                (Seq<u8>, Seq<u8>, Option<Seq<u8>>),
                                Seq<char>,
                            >(fault) && forall|i: int|
                                0 <= i < k ==> anchor_of(#[trigger] rest[i]) is Ok;
                        assert(ders[k + 1] == rest[k]);
                        assert forall|i: int| 0 <= i < k + 1 implies anchor_of(
                            #[trigger] ders[i],
                        ) is Ok by {
                            if i > 0 {
                                assert(rest[i - 1] == ders[i]);
                            }
                        }
                    },
                }
            },
        }
    }
}

/// The trust store for upstreams holds the public anchors, then one for each certificate of
/// the platform, then one for each of a private bundle, and nothing else.
pub proof fn trust_is_public_platform_and_private(
    public: Seq<(Seq<u8>, Seq<u8>, Option<Seq<u8>>)>,
    native: Seq<Seq<u8>>,
    authorities: AuthorityFile,
)
    ensures
        upstream_anchors(public, native, None) matches Ok(anchors) ==> anchors.len() == public.len()
            + native.len() && anchors.take(public.len() as int) == public,
        (forall|i: int| 0 <= i < native.len() ==> anchor_of(#[trigger] native[i]) is Ok)
            ==> upstream_anchors(public, native, None) is Ok,
        upstream_anchors(public, native, Some(&authorities)) matches Ok(anchors) ==> {
            &&& authorities.contents matches Ok(pem) && certificates::pem_certificates(
                pem@,
            ) matches Ok(ders) && ders.len() > 0 && anchors.len() == public.len() + native.len()
                + ders.len()
            &&& anchors.take(public.len() as int) == public
        },
        (forall|i: int| 0 <= i < native.len() ==> anchor_of(#[trigger] native[i]) is Ok) && (
        authorities.contents matches Ok(pem) && certificates::pem_certificates(pem@) matches Ok(ders)
            && ders.len() > 0 && forall|i: int|
            0 <= i < ders.len() ==> anchor_of(#[trigger] ders[i]) is Ok) ==> upstream_anchors(
            public,
            native,
            Some(&authorities),
        ) is Ok,
        platform_anchors(native) matches Ok(anchors) ==> anchors.len() == native.len(),
        (forall|i: int| 0 <= i < native.len() ==> anchor_of(#[trigger] native[i]) is Ok)
            ==> platform_anchors(native) is Ok,
{
    certificates_add_their_anchors(public, native);
    certificates_add_their_anchors(Seq::empty(), native);
    if let Ok(anchors) = with_certificates(public, native) {
        assert(anchors.take(public.len() as int) == public);
        if let Ok(ders) = bundle(authorities) {
            certificates_add_their_anchors(anchors, ders);
            if let Ok(all) = with_certificates(anchors, ders) {
                assert forall|i: int| 0 <= i < public.len() implies #[trigger] all.take(
                    public.len() as int,
                )[i] == public[i] by {
                    assert(all[i] == anchors[i]);
                    assert(anchors[i] == public[i]);
                }
                assert(all.take(public.len() as int) == public);
            }
        }
    }
}

/// A store is the wanted one where it has just the wanted anchors, and an error where it is
/// the wanted error.
pub proof fn stores_hold_the_wanted_anchors(
    r: DnsProxyResult<rustls::RootCertStore>,
    anchors: Seq<(Seq<u8>, Seq<u8>, Option<Seq<u8>>)>,
    fault: ErrorView,
)
    ensures
        is_store(r, Ok(anchors)) <==> (r matches Ok(store) && trust_anchors(store) == anchors),
        is_store(r, Err(fault)) <==> (r matches Err(error) && error@ == fault),
{
}

/// A trust store that was loaded has the public anchors first, and then those of the
/// platform and of the bundle; an error says why there is none.
pub proof fn loaded_stores_begin_with_the_public_anchors(
    store: Arc<rustls::RootCertStore>,
    native: Seq<Vec<u8>>,
    authorities: Option<&AuthorityFile>,
    public: Seq<(Seq<u8>, Seq<u8>, Option<Seq<u8>>)>,
)
    requires
        is_loaded(Ok(store), native, authorities),
        are_webpki_roots(public),
    ensures
        upstream_anchors(public, octets::all(native), authorities) == Ok::<
            Seq<(Seq<u8>, Seq<u8>, Option<Seq<u8>>)>,
            ErrorView,
        >(trust_anchors(*store)),
        public.is_prefix_of(trust_anchors(*store)),
{
    let found = choose|found: Seq<(Seq<u8>, Seq<u8>, Option<Seq<u8>>)>| ({
        let wanted = #[trigger] upstream_anchors(found, octets::all(native), authorities);
        are_webpki_roots(found) && (wanted matches Ok(anchors) && trust_anchors(*store) == anchors)
    });
    public_authorities_are_fixed(public, found);
    match authorities {
        None => lemma_only_added(public, octets::all(native)),
        Some(file) => private_authorities_are_additional(public, octets::all(native), *file),
    }
}

/// The bytes of an anchor are those of its own fields, and those of anchors keep their order.
pub proof fn anchors_show_their_own_bytes(anchors: Seq<Anchor>, i: int)
    requires
        0 <= i < anchors.len(),
    ensures
        anchors_view(anchors).len() == anchors.len(),
        anchors_view(anchors)[i].0 == anchors[i].subject@,
        anchors_view(anchors)[i].1 == anchors[i].public_key@,
        anchors_view(anchors)[i].2 is None <==> anchors[i].name_constraints is None,
        anchors[i].name_constraints matches Some(constraints) ==> anchors_view(anchors)[i].2
            == Some(constraints@),
{
}

/// A bundle of private authorities gives its certificates where it could be read, is PEM and
/// holds any; a bundle that could not be read is reported by its path.
pub proof fn bundles_give_their_certificates(authorities: AuthorityFile)
    ensures
        bundle(authorities) matches Ok(ders) ==> ders.len() > 0 && (authorities.contents matches Ok(
            pem,
        ) && certificates::pem_certificates(pem@) == Ok::<Seq<Seq<u8>>, Seq<char>>(ders)),
        (authorities.contents matches Ok(pem) && certificates::pem_certificates(pem@) matches Ok(ders)
            && ders.len() > 0) ==> bundle(authorities) is Ok,
        authorities.contents matches Err(reason) ==> (bundle(authorities) matches Err(
            ErrorView::LoadFailed { path, reason: told },
        ) && path == authorities.path@ && told == reason@),
{
}

} // verus!
