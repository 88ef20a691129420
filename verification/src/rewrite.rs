//! The rewriter that the listeners share.
use crate::config;
use crate::config::RewriteConfig;
use crate::rewriters::base;
use crate::rewriters::base::BaseSniRewriter;
use crate::text;
use std::sync::Arc;
use vstd::prelude::*;

verus! {

/// A rewriter that any number of connections can hold.
pub type SniRewriterType = Arc<BaseSniRewriter>;

/// The shared rewriter for a configuration.
pub fn create_rewriter(config: RewriteConfig) -> (r: SniRewriterType)
    ensures
        r.bases() == base::canonical_domains(config::texts(config.base_domains@)),
        r.suffix() == text::lower(config.target_suffix@),
{
    Arc::new(BaseSniRewriter::new(config))
}

} // verus!
