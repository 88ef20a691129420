//! Which certificate a TLS client is shown.
use crate::config::{AppConfig, CertificateConfig};
use crate::error::{CertificateError, DnsProxyError, DnsProxyResult, ErrorView};
use crate::rewriters::base;
use crate::text;
use crate::text_map;
use crate::text_map::TextMap;
use crate::tls_utils::certificates;
use crate::tls_utils::certificates::{CertificateFiles, LoadedCertificate, LoadedView};
use std::sync::Arc;
use vstd::prelude::*;

verus! {

/// The certificates by their names, in bytes.
pub open spec fn certs_view(entries: Seq<(Seq<char>, LoadedCertificate)>) -> Seq<
    (Seq<char>, LoadedView),
> {
    Seq::new(entries.len(), |i: int| (entries[i].0, entries[i].1@))
}

/// The first `n` configured certificates by their names in small letters, or why one
/// cannot be used.
pub open spec fn load_all(
    configured: Seq<(Seq<char>, CertificateConfig)>,
    files: Seq<CertificateFiles>,
    n: nat,
) -> Result<Seq<(Seq<char>, LoadedView)>, ErrorView>
    decreases n,
{
    if n == 0 {
        Ok(Seq::empty())
    } else {
        match load_all(configured, files, (n - 1) as nat) {
            Err(error) => Err(error),
            Ok(before) => match certificates::loaded(
                configured[n - 1].1@,
                files[n - 1],
            ) {
                Err(error) => Err(error),
                Ok(certificate) => Ok(
                    text_map::filed(before, text::lower(configured[n - 1].0), certificate),
                ),
            },
        }
    }
}

/// What a configuration without a default certificate, or with one, loads by default.
pub open spec fn load_default(
    configured: Option<CertificateConfig>,
    files: Option<CertificateFiles>,
) -> Result<Option<LoadedView>, ErrorView> {
    match (configured, files) {
        (Some(config), Some(read)) => match certificates::loaded(config@, read) {
            Ok(certificate) => Ok(Some(certificate)),
            Err(error) => Err(error),
        },
        _ => Ok(None),
    }
}

/// Whether a certificate for `name` also covers `domain`, which lies below it.
pub open spec fn covers(name: Seq<char>, domain: Seq<char>) -> bool {
    &&& text::ends_with(domain, name)
    &&& domain.len() > name.len()
    &&& domain[domain.len() - name.len() - 1] == '.'
}

/// Whether the name at a position is the longest of those that cover a domain.
pub open spec fn is_closest<V>(
    entries: Seq<(Seq<char>, V)>,
    domain: Seq<char>,
    i: int,
) -> bool {
    &&& 0 <= i < entries.len()
    &&& covers(entries[i].0, domain)
    &&& forall|j: int|
        0 <= j < entries.len() && covers((#[trigger] entries[j]).0, domain) ==> entries[j].0.len()
            <= entries[i].0.len()
}

/// A choice among the certificates of a resolver.
#[derive(Debug, Clone, Copy, PartialEq, Eq, Structural)]
pub enum CertificateChoice {
    /// The certificate at a position.
    Named(usize),
    Default,
}

/// Whether a choice is the right one for a domain in canonical form: the certificate
/// of that very name, else the closest that covers it, else the default.
pub open spec fn is_right<V>(
    entries: Seq<(Seq<char>, V)>,
    has_default: bool,
    domain: Seq<char>,
    choice: Option<CertificateChoice>,
) -> bool {
    if text_map::has_key(entries, domain) {
        choice matches Some(CertificateChoice::Named(i)) && i == text_map::position(
            entries,
            domain,
        )
    } else if exists|i: int| is_closest(entries, domain, i) {
        choice matches Some(CertificateChoice::Named(i)) && is_closest(entries, domain, i as int)
    } else if has_default {
        choice == Some(CertificateChoice::Default)
    } else {
        choice is None
    }
}

/// All configured certificates, loaded before any traffic is accepted: a handshake does
/// not wait for a disk.
#[derive(Debug)]
pub struct CertificateResolver {
    certs: TextMap<LoadedCertificate>,
    default: Option<LoadedCertificate>,
}

/// Positions do not depend on the values.
proof fn lemma_same_position(entries: Seq<(Seq<char>, LoadedCertificate)>, key: Seq<char>)
    ensures
        text_map::position(certs_view(entries), key) == text_map::position(entries, key),
    decreases entries.len(),
{
    text_map::lemma_position(entries, key);
    let at = text_map::position(entries, key);
    assert forall|k: int| 0 <= k < at implies (#[trigger] certs_view(entries)[k]).0 != key by {
        assert(entries[k].0 != key);
    }
    text_map::lemma_position_is(certs_view(entries), key, at);
}

/// Filing a certificate files its bytes.
proof fn lemma_filed(
    entries: Seq<(Seq<char>, LoadedCertificate)>,
    key: Seq<char>,
    certificate: LoadedCertificate,
)
    ensures
        certs_view(text_map::filed(entries, key, certificate)) == text_map::filed(
            certs_view(entries),
            key,
            certificate@,
        ),
{
    lemma_same_position(entries, key);
    text_map::lemma_position(entries, key);
}

impl CertificateResolver {
    /// The certificates by their names.
    pub closed spec fn certs(&self) -> Seq<(Seq<char>, LoadedView)> {
        certs_view(self.certs@)
    }

    /// The certificate for names that no other one covers.
    pub closed spec fn default_cert(&self) -> Option<LoadedView> {
        match self.default {
            Some(certificate) => Some(certificate@),
            None => None,
        }
    }

    /// Loads every configured certificate from what was read of the files: first the
    /// default one, and then the others in their order. The first that cannot be used
    /// is reported.
    pub fn new(
        config: &AppConfig,
        default_files: Option<&CertificateFiles>,
        files: &Vec<CertificateFiles>,
    ) -> (r: DnsProxyResult<Self>)
        requires
            default_files is Some <==> config.tls.default is Some,
            files@.len() == config.tls.certs@.len(),
        ensures
            match load_default(
                config.tls.default,
                match default_files {
                    Some(read) => Some(*read),
                    None => None,
                },
            ) {
                Err(fault) => r matches Err(error) && error@ == fault,
                Ok(default_cert) => match load_all(config.tls.certs@, files@, files@.len()) {
                    Err(fault) => r matches Err(error) && error@ == fault,
                    Ok(certs) => r matches Ok(resolver) && resolver.certs() == certs
                        && resolver.default_cert() == default_cert,
                },
            },
    {
        let default = match (&config.tls.default, default_files) {
            (Some(configured), Some(read)) => {
                match certificates::load_certificate(configured, read) {
                    Ok(certificate) => Some(certificate),
                    Err(error) => return Err(error),
                }
            },
            _ => None,
        };
        let mut certs: TextMap<LoadedCertificate> = TextMap::new();
        let mut i: usize = 0;
        let ghost configured = config.tls.certs@;
        assert(certs_view(certs@) == Seq::<(Seq<char>, LoadedView)>::empty());
        while i < files.len()
            invariant
                i <= files@.len(),
                configured == config.tls.certs@,
                files@.len() == configured.len(),
                load_all(configured, files@, i as nat) == Ok::<
                    Seq<(Seq<char>, LoadedView)>,
                    ErrorView,
                >(certs_view(certs@)),
                load_default(
                    config.tls.default,
                    match default_files {
                        Some(read) => Some(*read),
                        None => None,
                    },
                ) == Ok::<Option<LoadedView>, ErrorView>(
                    match default {
                        Some(certificate) => Some(certificate@),
                        None => None,
                    },
                ),
            decreases files@.len() - i,
        {
            match certificates::load_certificate(config.tls.certs.value(i), &files[i]) {
                Ok(certificate) => {
                    let name = text::to_lower(config.tls.certs.key(i).as_str());
                    proof {
                        lemma_filed(certs@, name@, certificate);
                    }
                    certs.insert(name, certificate);
                    proof {
                        assert(load_all(configured, files@, (i + 1) as nat) is Ok);
                    }
                },
                Err(error) => {
                    proof {
                        assert(load_all(configured, files@, (i + 1) as nat) == Err::<
                            Seq<(Seq<char>, LoadedView)>,
                            ErrorView,
                        >(error@));
                        lemma_first_error(configured, files@, (i + 1) as nat, files@.len());
                    }
                    return Err(error);
                },
            }
            i += 1;
        }
        Ok(CertificateResolver { certs, default })
    }

    /// Loads a configured certificate from what was read of its files.
    pub fn load_certificate(cert_config: &CertificateConfig, files: &CertificateFiles) -> (r:
        DnsProxyResult<LoadedCertificate>)
        ensures
            certificates::load_view(r) == certificates::loaded(cert_config@, *files),
    {
        certificates::load_certificate(cert_config, files)
    }

    /// The number of certificates besides the default one.
    pub fn len(&self) -> (r: usize)
        ensures
            r == self.certs().len(),
    {
        self.certs.len()
    }

    /// The certificate that a choice stands for.
    pub fn certificate(&self, choice: CertificateChoice) -> (r: Option<&LoadedCertificate>)
        ensures
            match choice {
                CertificateChoice::Named(i) => if i < self.certs().len() {
                    r matches Some(certificate) && certificate@ == self.certs()[i as int].1
                } else {
                    r is None
                },
                CertificateChoice::Default => match self.default_cert() {
                    Some(wanted) => r matches Some(certificate) && certificate@ == wanted,
                    None => r is None,
                },
            },
    {
        match choice {
            CertificateChoice::Named(i) => if i < self.certs.len() {
                Some(self.certs.value(i))
            } else {
                None
            },
            CertificateChoice::Default => self.default.as_ref(),
        }
    }

    /// The certificate for a domain, whatever its case and the dots at its end.
    pub fn choose_certificate(&self, domain: &str) -> (r: DnsProxyResult<CertificateChoice>)
        ensures
            match r {
                Ok(choice) => is_right(
                    self.certs(),
                    self.default_cert() is Some,
                    base::canonical(domain@),
                    Some(choice),
                ),
                Err(error) => is_right(
                    self.certs(),
                    self.default_cert() is Some,
                    base::canonical(domain@),
                    None,
                ) && error@ == (ErrorView::NotConfigured { domain: base::canonical(domain@) }),
            },
    {
        let trimmed = text::without_end_dots(domain);
        let wanted = text::to_lower(trimmed.as_str());
        let ghost name = base::canonical(domain@);
        let ghost entries = self.certs();
        let mut same: usize = 0;
        while same < self.certs.len() && !text::same(
            self.certs.key(same).as_str(),
            wanted.as_str(),
        )
            invariant
                same <= entries.len(),
                entries == certs_view(self.certs@),
                wanted@ == name,
                forall|k: int| 0 <= k < same ==> (#[trigger] entries[k]).0 != name,
            decreases entries.len() - same,
        {
            assert(entries[same as int].0 == self.certs@[same as int].0);
            same += 1;
        }
        proof {
            if same < entries.len() {
                assert(entries[same as int].0 == self.certs@[same as int].0);
            }
            text_map::lemma_position_is(entries, name, same as int);
        }
        if same < self.certs.len() {
            return Ok(CertificateChoice::Named(same));
        }
        let chars = text::chars_of(wanted.as_str());
        let mut best: Option<(usize, usize)> = None;
        let mut i: usize = 0;
        while i < self.certs.len()
            invariant
                i <= entries.len(),
                entries == certs_view(self.certs@),
                wanted@ == name,
                chars@ == name,
                match best {
                    Some((at, length)) => {
                        &&& at < i
                        &&& covers(entries[at as int].0, name)
                        &&& entries[at as int].0.len() == length
                        &&& forall|j: int|
                            0 <= j < i && covers((#[trigger] entries[j]).0, name)
                                ==> entries[j].0.len() <= length
                    },
                    None => forall|j: int|
                        0 <= j < i ==> !covers((#[trigger] entries[j]).0, name),
                },
            decreases entries.len() - i,
        {
            let key = self.certs.key(i);
            assert(entries[i as int].0 == key@);
            if text::ends_with_text(wanted.as_str(), key.as_str()) {
                let length: usize = text::chars_of(key.as_str()).len();
                if chars.len() > length && chars[chars.len() - length - 1] == '.' {
                    assert(covers(key@, name));
                    let better = match best {
                        Some((_, longest)) => length >= longest,
                        None => true,
                    };
                    if better {
                        best = Some((i, length));
                    }
                }
            }
            i += 1;
        }
        match best {
            Some((at, _)) => {
                assert(is_closest(entries, name, at as int));
                Ok(CertificateChoice::Named(at))
            },
            None => {
                assert(forall|k: int| !is_closest(entries, name, k));
                if self.default.is_some() {
                    Ok(CertificateChoice::Default)
                } else {
                    Err(
                        DnsProxyError::Certificate(
                            CertificateError::NotConfigured { domain: wanted },
                        ),
                    )
                }
            },
        }
    }

    /// The certificate for a domain. A certificate for a base domain applies to its
    /// subdomains; of several, the one with the longest name does.
    pub fn get_cert_for_domain(&self, domain: &str) -> (r: DnsProxyResult<&LoadedCertificate>)
        ensures
            ({
                let name = base::canonical(domain@);
                match r {
                    Ok(certificate) => exists|choice: CertificateChoice|
                        is_right(self.certs(), self.default_cert() is Some, name, Some(choice))
                            && certificate@ == match choice {
                            CertificateChoice::Named(i) => self.certs()[i as int].1,
                            CertificateChoice::Default => self.default_cert()->0,
                        },
                    Err(error) => is_right(
                        self.certs(),
                        self.default_cert() is Some,
                        name,
                        None,
                    ) && error@ == (ErrorView::NotConfigured { domain: name }),
                }
            }),
    {
        match self.choose_certificate(domain) {
            Err(error) => Err(error),
            Ok(choice) => match choice {
                CertificateChoice::Named(i) => {
                    proof {
                        text_map::lemma_position(self.certs(), base::canonical(domain@));
                        assert(self.certs()[i as int].1 == self.certs@[i as int].1@);
                    }
                    Ok(self.certs.value(i))
                },
                CertificateChoice::Default => match &self.default {
                    Some(certificate) => Ok(certificate),
                    None => Err(
                        DnsProxyError::Certificate(
                            CertificateError::NotConfigured { domain: domain.to_owned() },
                        ),
                    ),
                },
            },
        }
    }
}

/// The first certificate that cannot be used decides.
proof fn lemma_first_error(
    configured: Seq<(Seq<char>, CertificateConfig)>,
    files: Seq<CertificateFiles>,
    n: nat,
    m: nat,
)
    requires
        n <= m,
        load_all(configured, files, n) is Err,
    ensures
        load_all(configured, files, m) == load_all(configured, files, n),
    decreases m,
{
    if n < m {
        lemma_first_error(configured, files, n, (m - 1) as nat);
    }
}

/// A resolver for TLS handshakes.
#[derive(Debug)]
pub struct DynamicCertResolver {
    pub resolver: Arc<CertificateResolver>,
}

impl DynamicCertResolver {
    pub fn new(resolver: Arc<CertificateResolver>) -> (r: Self)
        ensures
            r.resolver == resolver,
    {
        DynamicCertResolver { resolver }
    }

    /// The certificate for the server name that a client sends, if it sends one and
    /// there is a certificate for it.
    pub fn resolve(&self, server_name: Option<&str>) -> (r: Option<CertificateChoice>)
        ensures
            match server_name {
                None => r is None,
                Some(name) => is_right(
                    self.resolver.certs(),
                    self.resolver.default_cert() is Some,
                    base::canonical(name@),
                    r,
                ),
            },
    {
        match server_name {
            None => None,
            Some(name) => match self.resolver.choose_certificate(name) {
                Ok(choice) => Some(choice),
                Err(_) => None,
            },
        }
    }
}

/// Of two names that cover a domain, the longer one decides; two right choices are the
/// same, so that overlapping base domains leave nothing open.
pub proof fn choices_are_unique<V>(
    entries: Seq<(Seq<char>, V)>,
    has_default: bool,
    domain: Seq<char>,
    a: Option<CertificateChoice>,
    b: Option<CertificateChoice>,
)
    requires
        text_map::distinct_keys(entries),
        is_right(entries, has_default, domain, a),
        is_right(entries, has_default, domain, b),
    ensures
        a == b,
{
    if !text_map::has_key(entries, domain) && exists|i: int| is_closest(entries, domain, i) {
        let i = a->0->Named_0 as int;
        let j = b->0->Named_0 as int;
        assert(is_closest(entries, domain, i));
        assert(is_closest(entries, domain, j));
        assert(entries[i].0 == domain.skip(domain.len() - entries[i].0.len()));
        assert(entries[j].0 == domain.skip(domain.len() - entries[j].0.len()));
        if i < j {
            assert(entries[i].0 != entries[j].0);
        } else if j < i {
            assert(entries[j].0 != entries[i].0);
        }
    }
}

/// The names of loaded certificates are distinct.
pub proof fn loaded_names_are_distinct(
    configured: Seq<(Seq<char>, CertificateConfig)>,
    files: Seq<CertificateFiles>,
    n: nat,
)
    ensures
        load_all(configured, files, n) matches Ok(certs) ==> text_map::distinct_keys(certs),
    decreases n,
{
    if n > 0 {
        loaded_names_are_distinct(configured, files, (n - 1) as nat);
        if let Ok(before) = load_all(configured, files, (n - 1) as nat) {
            if let Ok(certificate) = certificates::loaded(configured[n - 1].1@, files[n - 1]) {
                let name = text::lower(configured[n - 1].0);
                text_map::filing_changes_one_key(before, name, certificate, name);
            }
        }
    }
}

/// The case of a domain and the dots at its end do not matter: a certificate is right
/// for a domain exactly where it is right for its canonical form.
pub proof fn certificates_ignore_spelling<V>(
    entries: Seq<(Seq<char>, V)>,
    has_default: bool,
    domain: Seq<char>,
    choice: Option<CertificateChoice>,
)
    ensures
        is_right(entries, has_default, base::canonical(domain), choice) <==> is_right(
            entries,
            has_default,
            base::canonical(base::canonical(domain)),
            choice,
        ),
{
    base::canonical_is_stable(domain);
}

/// A name covers every domain that is something, of any number of labels, a dot and the
/// name; it covers nothing else, itself included.
pub proof fn names_cover_all_their_subdomains(
    name: Seq<char>,
    prefix: Seq<char>,
    domain: Seq<char>,
)
    ensures
        covers(name, prefix.push('.') + name),
        covers(name, domain) ==> exists|front: Seq<char>|
            domain == #[trigger] (front.push('.') + name),
        !covers(name, name),
{
    text::ends_and_beginnings(prefix.push('.'), name, '.');
    let below = prefix.push('.') + name;
    assert(below[below.len() - name.len() - 1] == '.');
    if covers(name, domain) {
        text::ends_and_beginnings(domain, name, '.');
        let n = domain.len() - name.len();
        let front = domain.take(n - 1);
        assert(domain.take(n) == front.push('.'));
        assert(domain == front.push('.') + name);
    }
}

/// A domain below a configured name, however far, is shown a named certificate, never the
/// default one and never none: one whose name is the domain or an end of it behind a dot,
/// and no shorter than that name.
pub proof fn subdomains_are_shown_a_named_certificate<V>(
    entries: Seq<(Seq<char>, V)>,
    has_default: bool,
    prefix: Seq<char>,
    k: int,
    choice: Option<CertificateChoice>,
)
    requires
        0 <= k < entries.len(),
        is_right(entries, has_default, prefix.push('.') + entries[k].0, choice),
    ensures
        choice matches Some(CertificateChoice::Named(i)) && 0 <= i < entries.len() && {
            let domain = prefix.push('.') + entries[k].0;
            let name = entries[i as int].0;
            &&& name.len() >= entries[k].0.len()
            &&& name == domain || exists|front: Seq<char>|
                domain == #[trigger] (front.push('.') + name)
        },
{
    let domain = prefix.push('.') + entries[k].0;
    names_cover_all_their_subdomains(entries[k].0, prefix, domain);
    text_map::lemma_position(entries, domain);
    if !text_map::has_key(entries, domain) {
        let best = lemma_some_closest(entries, domain, k);
        assert(is_closest(entries, domain, best));
        let i = choice->0->Named_0 as int;
        names_cover_all_their_subdomains(entries[i].0, prefix, domain);
    }
}

/// Where one name covers a domain, one of those that do is the longest.
proof fn lemma_some_closest<V>(entries: Seq<(Seq<char>, V)>, domain: Seq<char>, k: int) -> (best:
    int)
    requires
        0 <= k < entries.len(),
        covers(entries[k].0, domain),
    ensures
        is_closest(entries, domain, best),
    decreases domain.len() - entries[k].0.len(),
{
    if is_closest(entries, domain, k) {
        k
    } else {
        let j = choose|j: int|
            0 <= j < entries.len() && covers((#[trigger] entries[j]).0, domain)
                && entries[j].0.len() > entries[k].0.len();
        lemma_some_closest(entries, domain, j)
    }
}

/// A domain that is itself a configured name is shown the certificate of that name.
pub proof fn configured_names_are_shown_their_own_certificate<V>(
    entries: Seq<(Seq<char>, V)>,
    has_default: bool,
    k: int,
    choice: Option<CertificateChoice>,
)
    requires
        0 <= k < entries.len(),
        is_right(entries, has_default, entries[k].0, choice),
    ensures
        choice matches Some(CertificateChoice::Named(i)) && i < entries.len()
            && entries[i as int].0 == entries[k].0,
{
    text_map::lemma_position(entries, entries[k].0);
}

/// A domain that is no configured name and below none is shown the default certificate
/// where there is one, and none otherwise.
pub proof fn other_domains_are_shown_the_default<V>(
    entries: Seq<(Seq<char>, V)>,
    has_default: bool,
    domain: Seq<char>,
    choice: Option<CertificateChoice>,
)
    requires
        forall|k: int| 0 <= k < entries.len() ==> (#[trigger] entries[k]).0 != domain,
        forall|k: int, front: Seq<char>|
            0 <= k < entries.len() ==> domain != #[trigger] (front.push('.') + entries[k].0),
        is_right(entries, has_default, domain, choice),
    ensures
        choice == if has_default {
            Some(CertificateChoice::Default)
        } else {
            None
        },
{
    text_map::lemma_position(entries, domain);
    if text_map::has_key(entries, domain) {
        assert(entries[text_map::position(entries, domain)].0 == domain);
    }
    if exists|i: int| is_closest(entries, domain, i) {
        let i = choose|i: int| is_closest(entries, domain, i);
        names_cover_all_their_subdomains(entries[i].0, domain, domain);
        let front = choose|front: Seq<char>| domain == #[trigger] (front.push('.') + entries[i].0);
        assert(domain == front.push('.') + entries[i].0);
    }
}

/// Each configured certificate that can be loaded is there under its name in small letters,
/// with the chain and key of its own files, unless a later one has the same name; the first
/// that cannot be loaded is reported instead.
pub proof fn every_configured_certificate_is_loaded(
    configured: Seq<(Seq<char>, CertificateConfig)>,
    files: Seq<CertificateFiles>,
    n: nat,
    k: int,
)
    requires
        0 <= k < n <= configured.len(),
        n <= files.len(),
        forall|j: int| k < j < n ==> text::lower((#[trigger] configured[j]).0) != text::lower(
            configured[k].0,
        ),
    ensures
        match load_all(configured, files, n) {
            Ok(certs) => certificates::loaded(configured[k].1@, files[k]) matches Ok(certificate)
                && text_map::value_at(certs, text::lower(configured[k].0)) == Some(certificate),
            Err(fault) => exists|j: int|
                0 <= j < n && certificates::loaded((#[trigger] configured[j]).1@, files[j]) == Err::<
                    LoadedView,
                    ErrorView,
                >(fault) && load_all(configured, files, j as nat) is Ok,
        },
    decreases n,
{
    let m = (n - 1) as nat;
    loaded_names_are_distinct(configured, files, m);
    match load_all(configured, files, m) {
        Err(_) => {
            lemma_first_fault_decides(configured, files, m);
            let j = choose|j: int|
                0 <= j < m && certificates::loaded((#[trigger] configured[j]).1@, files[j]) == Err::<
                    LoadedView,
                    ErrorView,
                >(load_all(configured, files, m)->Err_0) && load_all(
                    configured,
                    files,
                    j as nat,
                ) is Ok;
            assert(0 <= j < n);
        },
        Ok(before) => match certificates::loaded(configured[m as int].1@, files[m as int]) {
            Err(_) => {
                assert(load_all(configured, files, m) is Ok);
            },
            Ok(certificate) => {
                text_map::filing_changes_one_key(
                    before,
                    text::lower(configured[m as int].0),
                    certificate,
                    text::lower(configured[k].0),
                );
                if k < m {
                    every_configured_certificate_is_loaded(configured, files, m, k);
                }
            },
        },
    }
}

/// An error is that of the first certificate that cannot be loaded.
proof fn lemma_first_fault_decides(
    configured: Seq<(Seq<char>, CertificateConfig)>,
    files: Seq<CertificateFiles>,
    n: nat,
)
    requires
        load_all(configured, files, n) is Err,
    ensures
        exists|j: int|
            0 <= j < n && certificates::loaded((#[trigger] configured[j]).1@, files[j]) == Err::<
                LoadedView,
                ErrorView,
            >(load_all(configured, files, n)->Err_0) && load_all(configured, files, j as nat) is Ok,
    decreases n,
{
    let m = (n - 1) as nat;
    if load_all(configured, files, m) is Err {
        lemma_first_fault_decides(configured, files, m);
    } else {
        assert(certificates::loaded(configured[m as int].1@, files[m as int]) is Err);
    }
}

/// The default certificate comes from its own files, and there is none where none is
/// configured.
pub proof fn the_default_certificate_is_loaded(config: CertificateConfig, files: CertificateFiles)
    ensures
        load_default(None, None) == Ok::<Option<LoadedView>, ErrorView>(None),
        match certificates::loaded(config@, files) {
            Ok(certificate) => load_default(Some(config), Some(files)) == Ok::<
                Option<LoadedView>,
                ErrorView,
            >(Some(certificate)),
            Err(fault) => load_default(Some(config), Some(files)) == Err::<
                Option<LoadedView>,
                ErrorView,
            >(fault),
        },
{
}

} // verus!
