//! Settings that no longer exist. A configuration file that still holds one is
//! rejected by name.
use crate::error;
use crate::text;
use vstd::prelude::*;

verus! {

/// A TOML value of the `toml` crate.
#[verifier::external_type_specification]
#[verifier::external_body]
pub struct ExTomlValue(toml::Value);

/// The error of the `toml` crate's parser.
#[verifier::external_type_specification]
#[verifier::external_body]
pub struct ExTomlError(toml::de::Error);

/// The tables at the top of a TOML value, each by its name with the keys that it
/// holds. Top-level entries that are no tables do not occur.
pub uninterp spec fn top_tables(value: toml::Value) -> Map<Seq<char>, Set<Seq<char>>>;

/// The tables at the top of the TOML document that a text is, or nothing where
/// the text is no TOML document.
pub uninterp spec fn parsed_tables(content: Seq<char>) -> Option<Map<Seq<char>, Set<Seq<char>>>>;

/// Calls `toml::from_str`: it fails exactly on texts that are no TOML document,
/// and what it yields is a function of the text.
#[verifier::external_body]
fn parse_toml(content: &str) -> (r: Result<toml::Value, toml::de::Error>)
    ensures
        match r {
            Ok(value) => parsed_tables(content@) == Some(top_tables(value)),
            Err(_) => parsed_tables(content@) is None,
        },
{
    toml::from_str::<toml::Value>(content)
}

/// Calls `toml::Value::get`, `toml::Value::as_table` and `toml::map::Map::contains_key`:
/// whether the value has a table named `section` that holds `key`.
#[verifier::external_body]
fn section_has_key(value: &toml::Value, section: &str, key: &str) -> (r: bool)
    ensures
        r == (top_tables(*value).contains_key(section@) && top_tables(*value)[section@].contains(
            key@,
        )),
{
    match value.get(section).and_then(toml::Value::as_table) {
        Some(table) => table.contains_key(key),
        None => false,
    }
}

/// Whether the tables include one named `section` that holds `key`.
pub open spec fn holds(
    tables: Map<Seq<char>, Set<Seq<char>>>,
    section: Seq<char>,
    key: Seq<char>,
) -> bool {
    tables.contains_key(section) && tables[section].contains(key)
}

/// Which of the removed settings a document holds.
#[derive(Debug, Clone, Copy)]
pub struct RemovedSettings {
    /// `rewrite_failure_strategy` in `[rewrite]`.
    pub rewrite_failure_strategy: bool,
    /// `default` in `[upstream]`.
    pub upstream_default: bool,
    /// `ca_file` in `[tls]`.
    pub ca_file: bool,
    /// `require_client_cert` in `[tls]`.
    pub require_client_cert: bool,
    /// `client_cert_file` in `[tls]`.
    pub client_cert_file: bool,
    /// `client_key_file` in `[tls]`.
    pub client_key_file: bool,
}

/// The removed settings among the tables of a document.
pub open spec fn settings_in(tables: Map<Seq<char>, Set<Seq<char>>>) -> RemovedSettings {
    RemovedSettings {
        rewrite_failure_strategy: holds(tables, "rewrite"@, "rewrite_failure_strategy"@),
        upstream_default: holds(tables, "upstream"@, "default"@),
        ca_file: holds(tables, "tls"@, "ca_file"@),
        require_client_cert: holds(tables, "tls"@, "require_client_cert"@),
        client_cert_file: holds(tables, "tls"@, "client_cert_file"@),
        client_key_file: holds(tables, "tls"@, "client_key_file"@),
    }
}

/// What is said of a removed setting for client certificates.
pub open spec fn mtls_fault(key: Seq<char>) -> Seq<char> {
    "tls."@ + key + " was removed in v2; inbound mTLS is not supported"@
}

impl RemovedSettings {
    /// What is said of the first removed setting.
    pub open spec fn fault(&self) -> Option<Seq<char>> {
        if self.rewrite_failure_strategy {
            Some(
                "rewrite.rewrite_failure_strategy was removed in v2; unmatched domains are always rejected"@,
            )
        } else if self.upstream_default {
            Some(
                "upstream.default was removed in v2; upstream hostnames are always derived from rewrite"@,
            )
        } else if self.ca_file {
            Some(mtls_fault("ca_file"@))
        } else if self.require_client_cert {
            Some(mtls_fault("require_client_cert"@))
        } else if self.client_cert_file {
            Some(mtls_fault("client_cert_file"@))
        } else if self.client_key_file {
            Some(mtls_fault("client_key_file"@))
        } else {
            None
        }
    }

    /// Rejects a document by the first removed setting that it holds.
    pub fn reject(&self) -> (r: Result<(), String>)
        ensures
            error::reports(r, self.fault()),
    {
        if self.rewrite_failure_strategy {
            return Err(
                "rewrite.rewrite_failure_strategy was removed in v2; unmatched domains are always rejected".to_owned(),
            );
        }
        if self.upstream_default {
            return Err(
                "upstream.default was removed in v2; upstream hostnames are always derived from rewrite".to_owned(),
            );
        }
        if self.ca_file {
            return Err(no_mtls("ca_file"));
        }
        if self.require_client_cert {
            return Err(no_mtls("require_client_cert"));
        }
        if self.client_cert_file {
            return Err(no_mtls("client_cert_file"));
        }
        if self.client_key_file {
            return Err(no_mtls("client_key_file"));
        }
        Ok(())
    }
}

/// What is said of a removed setting for client certificates.
fn no_mtls(key: &str) -> (r: String)
    ensures
        r@ == mtls_fault(key@),
{
    text::join3("tls.", key, " was removed in v2; inbound mTLS is not supported")
}

/// What is wrong with a document of the given tables, if it is a document at all.
pub open spec fn document_fault(tables: Option<Map<Seq<char>, Set<Seq<char>>>>) -> Option<
    Seq<char>,
> {
    match tables {
        Some(found) => settings_in(found).fault(),
        None => Some("Failed to parse config file"@),
    }
}

/// Rejects a configuration file that is no TOML document or holds a removed
/// setting.
pub fn reject_removed_v1_fields(content: &str) -> (r: Result<(), String>)
    ensures
        error::reports(r, document_fault(parsed_tables(content@))),
{
    match parse_toml(content) {
        Ok(value) => {
            let settings = RemovedSettings {
                rewrite_failure_strategy: section_has_key(
                    &value,
                    "rewrite",
                    "rewrite_failure_strategy",
                ),
                upstream_default: section_has_key(&value, "upstream", "default"),
                ca_file: section_has_key(&value, "tls", "ca_file"),
                require_client_cert: section_has_key(&value, "tls", "require_client_cert"),
                client_cert_file: section_has_key(&value, "tls", "client_cert_file"),
                client_key_file: section_has_key(&value, "tls", "client_key_file"),
            };
            settings.reject()
        },
        Err(_) => Err("Failed to parse config file".to_owned()),
    }
}

/// A document passes exactly where it is one and holds none of the removed settings, each
/// in its own table.
pub proof fn documents_without_removed_settings_pass(tables: Map<Seq<char>, Set<Seq<char>>>)
    ensures
        document_fault(None) is Some,
        document_fault(Some(tables)) is None <==> {
            &&& !(tables.contains_key("rewrite"@) && tables["rewrite"@].contains(
                "rewrite_failure_strategy"@,
            ))
            &&& !(tables.contains_key("upstream"@) && tables["upstream"@].contains("default"@))
            &&& !(tables.contains_key("tls"@) && (tables["tls"@].contains("ca_file"@)
                || tables["tls"@].contains("require_client_cert"@) || tables["tls"@].contains(
                "client_cert_file"@,
            ) || tables["tls"@].contains("client_key_file"@)))
        },
{
}

/// A removed setting is rejected by its name, with its table before it; of several, the
/// first of `rewrite`, `upstream` and `tls` decides.
pub proof fn removed_settings_are_named(settings: RemovedSettings)
    ensures
        settings.fault() is None <==> !settings.rewrite_failure_strategy
            && !settings.upstream_default && !settings.ca_file && !settings.require_client_cert
            && !settings.client_cert_file && !settings.client_key_file,
        settings.rewrite_failure_strategy ==> (settings.fault() matches Some(fault)
            && text::has_text(fault, "rewrite.rewrite_failure_strategy"@)),
        !settings.rewrite_failure_strategy && settings.upstream_default ==> (
        settings.fault() matches Some(fault) && text::has_text(fault, "upstream.default"@)),
        !settings.rewrite_failure_strategy && !settings.upstream_default && settings.ca_file ==> (
        settings.fault() matches Some(fault) && text::has_text(fault, "tls."@ + "ca_file"@)),
        !settings.rewrite_failure_strategy && !settings.upstream_default && !settings.ca_file
            && settings.require_client_cert ==> (settings.fault() matches Some(fault)
            && text::has_text(fault, "tls."@ + "require_client_cert"@)),
{
    reveal_strlit(
        "rewrite.rewrite_failure_strategy was removed in v2; unmatched domains are always rejected",
    );
    reveal_strlit("rewrite.rewrite_failure_strategy");
    reveal_strlit(
        "upstream.default was removed in v2; upstream hostnames are always derived from rewrite",
    );
    reveal_strlit("upstream.default");
    let none = Seq::<char>::empty();
    if let Some(fault) = settings.fault() {
        if settings.rewrite_failure_strategy {
            let key = "rewrite.rewrite_failure_strategy"@;
            let rest = fault.skip(key.len() as int);
            assert(fault.take(key.len() as int) == key);
            assert(fault == none + key + rest);
            text::texts_are_found_where_they_stand(none, key, rest, fault);
        } else if settings.upstream_default {
            let key = "upstream.default"@;
            let rest = fault.skip(key.len() as int);
            assert(fault.take(key.len() as int) == key);
            assert(fault == none + key + rest);
            text::texts_are_found_where_they_stand(none, key, rest, fault);
        } else if settings.ca_file {
            let rest = " was removed in v2; inbound mTLS is not supported"@;
            assert(fault == none + ("tls."@ + "ca_file"@) + rest);
            text::texts_are_found_where_they_stand(none, "tls."@ + "ca_file"@, rest, fault);
        } else if settings.require_client_cert {
            let rest = " was removed in v2; inbound mTLS is not supported"@;
            assert(fault == none + ("tls."@ + "require_client_cert"@) + rest);
            text::texts_are_found_where_they_stand(
                none,
                "tls."@ + "require_client_cert"@,
                rest,
                fault,
            );
        }
    }
}

} // verus!
