//! What a rewrite of a TLS server name yields.
use vstd::prelude::*;

verus! {

/// A server name together with the upstream host that it leads to.
#[derive(Debug, Clone)]
pub struct RewriteResult {
    /// The server name in canonical form.
    pub original: String,
    /// What stands before the base domain.
    pub prefix: String,
    /// The upstream host name.
    pub target_hostname: String,
}

/// The texts of a [`RewriteResult`].
#[verifier::ext_equal]
pub struct RewriteView {
    pub original: Seq<char>,
    pub prefix: Seq<char>,
    pub target_hostname: Seq<char>,
}

impl View for RewriteResult {
    type V = RewriteView;

    open spec fn view(&self) -> RewriteView {
        RewriteView {
            original: self.original@,
            prefix: self.prefix@,
            target_hostname: self.target_hostname@,
        }
    }
}

/// The texts of an optional rewrite.
pub open spec fn rewrite_view(r: Option<RewriteResult>) -> Option<RewriteView> {
    match r {
        Some(found) => Some(found@),
        None => None,
    }
}

/// The texts of a rewrite are those of its own fields, and there are none without one.
pub proof fn rewrites_show_their_own_fields(r: RewriteResult)
    ensures
        r@.original == r.original@,
        r@.prefix == r.prefix@,
        r@.target_hostname == r.target_hostname@,
        rewrite_view(Some(r)) == Some(r@),
        rewrite_view(None) is None,
{
}

} // verus!
