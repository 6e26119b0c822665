//! The binary resolver: process-lifetime memoization of the resolved
//! language-server binary path and its resource directory.
//!
//! Resolution proceeds in short-circuiting steps. First the in-memory cache
//! is consulted; then the host's search-path lookup; only then is a release
//! queried, the platform asset chosen, the archive fetched if the executable
//! is absent, and the result recorded in the cache. The cache is written at
//! most once per instance and never invalidated within a process lifetime.
//!
//! A quirk of the search-path branch is preserved deliberately: a binary
//! found on the search path is returned without a resource-directory
//! argument. Since the caches are only ever written together, no resource
//! directory can be cached while the binary cache is empty, so that branch
//! always produces an empty argument list.

use vstd::prelude::*;
use crate::command::{Command, args_view, command_matches, make_command, opt_view};

verus! {

/// Resolver state owned by one plugin instance: the memoized binary path,
/// and the memoized resource directory set alongside it when a fresh
/// download occurred.
pub struct Resolver {
    cached_binary_path: Option<String>,
    cached_resource_dir: Option<String>,
}

impl Resolver {
    /// The memoized binary path, if a resolution has been recorded.
    pub closed spec fn binary_cache(self) -> Option<String> {
        self.cached_binary_path
    }

    /// The memoized resource directory, if a resolution has been recorded.
    pub closed spec fn resource_cache(self) -> Option<String> {
        self.cached_resource_dir
    }

    /// The caches are written only together: a resource directory is never
    /// remembered without a binary path.
    pub open spec fn wf(self) -> bool {
        self.resource_cache() is Some ==> self.binary_cache() is Some
    }

    /// A fresh resolver with both caches empty.
    pub fn new() -> (r: Resolver)
        ensures
            r.binary_cache() is None,
            r.resource_cache() is None,
            r.wf(),
    {
        Resolver { cached_binary_path: None, cached_resource_dir: None }
    }

    /// The memoized resource directory, as the argument-building step reads
    /// it.
    pub fn resource_dir_path(&self) -> (r: Option<String>)
        ensures
            r == self.resource_cache(),
    {
        match &self.cached_resource_dir {
            Some(dir) => Some(dir.clone()),
            None => None,
        }
    }

    /// The first resolution step: when the binary cache is populated, the
    /// launch command is rebuilt from the caches alone and returned at once,
    /// with no collaborator consulted; when it is empty, resolution must go
    /// on to the search-path lookup.
    pub fn cached_command(&self) -> (r: Option<Command>)
        ensures
            r is Some <==> self.binary_cache() is Some,
            r is Some ==> command_matches(
                r->0,
                self.binary_cache()->0@,
                opt_view(self.resource_cache()),
            ),
    {
        match &self.cached_binary_path {
            Some(binary) => Some(make_command(binary.clone(), &self.cached_resource_dir)),
            None => None,
        }
    }

    /// The second resolution step: the outcome of the host's search-path
    /// lookup. A found binary is launched as it stands — its command carries
    /// whatever resource directory is cached, which under `wf` and an empty
    /// binary cache is none — and nothing is recorded in the caches. When
    /// the lookup found nothing, resolution must go on to a release query.
    pub fn lookup_command(&self, lookup_result: Option<String>) -> (r: Option<Command>)
        requires
            self.wf(),
            self.binary_cache() is None,
        ensures
            r is Some <==> lookup_result is Some,
            r is Some ==> command_matches(
                r->0,
                lookup_result->0@,
                opt_view(self.resource_cache()),
            ),
            r is Some ==> r->0.args@.len() == 0,
    {
        match lookup_result {
            Some(path) => Some(make_command(path, &self.cached_resource_dir)),
            None => None,
        }
    }

    /// Records a completed resolution: both caches are written together,
    /// once, with the binary path and the absolute resource directory.
    pub fn record_resolution(&mut self, binary_path: String, resource_dir: String)
        ensures
            final(self).binary_cache() == Some(binary_path),
            final(self).resource_cache() == Some(resource_dir),
            final(self).wf(),
    {
        self.cached_resource_dir = Some(resource_dir);
        self.cached_binary_path = Some(binary_path);
    }
}

/// Memoization: once the binary cache of a resolver is populated, every
/// call answered from the caches yields one and the same command. Any two
/// commands that fit the cached state — as both the call that recorded the
/// resolution and every later cache hit are guaranteed to return — have the
/// same executable path, the same arguments, and an empty environment; and
/// a cache hit consults no collaborator at all.
pub proof fn lemma_memoized_resolution_stable(r: Resolver, first: Command, second: Command)
    requires
        r.binary_cache() is Some,
        command_matches(first, r.binary_cache()->0@, opt_view(r.resource_cache())),
        command_matches(second, r.binary_cache()->0@, opt_view(r.resource_cache())),
    ensures
        first.command@ == second.command@,
        args_view(first) =~= args_view(second),
        first.env@.len() == 0,
        second.env@.len() == 0,
{
    crate::command::lemma_command_matches_unique(
        first,
        second,
        r.binary_cache()->0@,
        opt_view(r.resource_cache()),
    );
}

} // verus!
