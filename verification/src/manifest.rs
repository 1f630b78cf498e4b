//! The signed capability manifest of an artifact, and what its verifier
//! reports about it.

use vstd::prelude::*;

verus! {

/// The view of a list of strings: the list of their views.
pub open spec fn strings_view(v: Seq<String>) -> Seq<Seq<char>> {
    v.map_values(|s: String| s@)
}

/// The view of an optional list of strings.
pub open spec fn opt_strings_view(v: Option<Vec<String>>) -> Option<Seq<Seq<char>>> {
    match v {
        Some(list) => Some(strings_view(list@)),
        None => None,
    }
}

/// The decoded claims that a signed artifact carries. A manifest is fixed
/// once made: it has no method that changes it.
pub struct Manifest {
    pub(crate) issuer: String,
    pub(crate) subject: String,
    pub(crate) not_before: Option<u64>,
    pub(crate) expires: Option<u64>,
    pub(crate) capabilities: Option<Vec<String>>,
    pub(crate) tags: Option<Vec<String>>,
}

/// What a manifest says, as mathematical values.
pub struct ManifestView {
    pub issuer: Seq<char>,
    pub subject: Seq<char>,
    pub not_before: Option<u64>,
    pub expires: Option<u64>,
    pub capabilities: Option<Seq<Seq<char>>>,
    pub tags: Option<Seq<Seq<char>>>,
}

impl View for Manifest {
    type V = ManifestView;

    closed spec fn view(&self) -> ManifestView {
        ManifestView {
            issuer: self.issuer@,
            subject: self.subject@,
            not_before: self.not_before,
            expires: self.expires,
            capabilities: opt_strings_view(self.capabilities),
            tags: opt_strings_view(self.tags),
        }
    }
}

impl ManifestView {
    /// The declared capability identifiers in their order; none where the
    /// manifest declares no list.
    pub open spec fn declared(self) -> Seq<Seq<char>> {
        match self.capabilities {
            Some(list) => list,
            None => Seq::empty(),
        }
    }
}

impl Manifest {
    /// A manifest with the given claims.
    pub fn new(
        issuer: String,
        subject: String,
        not_before: Option<u64>,
        expires: Option<u64>,
        capabilities: Option<Vec<String>>,
        tags: Option<Vec<String>>,
    ) -> (m: Manifest)
        ensures
            m@ == (ManifestView {
                issuer: issuer@,
                subject: subject@,
                not_before,
                expires,
                capabilities: opt_strings_view(capabilities),
                tags: opt_strings_view(tags),
            }),
    {
        Manifest { issuer, subject, not_before, expires, capabilities, tags }
    }

    /// The identity that signed the manifest.
    pub fn issuer(&self) -> (s: &String)
        ensures
            s@ == self@.issuer,
    {
        &self.issuer
    }

    /// The identity of the module that the manifest speaks of.
    pub fn subject(&self) -> (s: &String)
        ensures
            s@ == self@.subject,
    {
        &self.subject
    }

    /// The instant before which the manifest is not usable, in seconds since
    /// the epoch.
    pub fn not_before(&self) -> (t: Option<u64>)
        ensures
            t == self@.not_before,
    {
        self.not_before
    }

    /// The instant after which the manifest is expired, in seconds since the
    /// epoch.
    pub fn expires(&self) -> (t: Option<u64>)
        ensures
            t == self@.expires,
    {
        self.expires
    }

    /// The declared capability identifiers.
    pub fn capabilities(&self) -> (c: &Option<Vec<String>>)
        ensures
            opt_strings_view(*c) == self@.capabilities,
    {
        &self.capabilities
    }

    /// The free-form tags attached to the manifest.
    pub fn tags(&self) -> (t: &Option<Vec<String>>)
        ensures
            opt_strings_view(*t) == self@.tags,
    {
        &self.tags
    }
}

} // verus!
