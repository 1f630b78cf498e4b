//! Which entries of a provider directory are tried as capability providers.

use vstd::prelude::*;
use crate::text::find_last_dot;
use crate::text::last_dot;
use crate::text::lemma_last_dot;
use crate::registry::CapabilityRegistry;
use crate::registry::LoadError;
use crate::registry::Provider;

verus! {

/// The extension of a file name: what follows its last dot. A name without a
/// dot has none, and neither has one whose only dot is its first character.
pub open spec fn extension_of(name: Seq<char>) -> Option<Seq<char>> {
    if last_dot(name) <= 0 {
        None
    } else {
        Some(name.subrange(last_dot(name) + 1, name.len() as int))
    }
}

/// Whether a file of this name is tried as a capability provider on a
/// platform whose shared libraries carry the extension `native`: its
/// extension is that one.
pub open spec fn is_library_name(name: Seq<char>, native: Seq<char>) -> bool {
    extension_of(name) == Some(native)
}

/// Decides from a file name whether the file is tried as a capability
/// provider on a platform whose shared libraries carry the extension
/// `native`.
pub fn has_library_extension(name: &str, native: &str) -> (b: bool)
    ensures
        b == is_library_name(name@, native@),
{
    let n: usize = name.unicode_len();
    let m: usize = native.unicode_len();
    match find_last_dot(name) {
        None => false,
        Some(dot) => {
            if dot == 0 {
                return false;
            }
            proof {
                lemma_last_dot(name@);
            }
            let start: usize = dot + 1;
            let ghost ext = name@.subrange(start as int, n as int);
            assert(extension_of(name@) == Some(ext));
            if n - start != m {
                assert(ext.len() != native@.len());
                return false;
            }
            let mut i: usize = 0;
            while i < m
                invariant
                    n == name@.len(),
                    m == native@.len(),
                    start + m == n,
                    i <= m,
                    ext == name@.subrange(start as int, n as int),
                    extension_of(name@) == Some(ext),
                    forall|j: int| 0 <= j < i ==> ext[j] == native@[j],
                decreases m - i,
            {
                if name.get_char(start + i) != native.get_char(i) {
                    assert(ext[i as int] != native@[i as int]);
                    return false;
                }
                i = i + 1;
            }
            assert(ext =~= native@);
            true
        },
    }
}

/// One direct entry of the provider directory, as its listing reports it:
/// the path of the entry, the name of its last component, and whether the
/// entry is itself a directory.
pub struct DirEntry {
    pub path: String,
    pub file_name: String,
    pub is_dir: bool,
}

impl DirEntry {
    /// Whether the entry is tried as a capability provider on a platform
    /// whose shared libraries carry the extension `native`: it is no
    /// directory and its name has that extension.
    pub open spec fn selected(&self, native: Seq<char>) -> bool {
        !self.is_dir && is_library_name(self.file_name@, native)
    }

    /// Decides whether the entry is tried as a capability provider.
    pub fn is_provider_file(&self, native: &str) -> (b: bool)
        ensures
            b == self.selected(native@),
    {
        !self.is_dir && has_library_extension(self.file_name.as_str(), native)
    }
}

/// What listing the configured provider directory gave.
pub enum DirListing {
    /// The configured path does not exist or is no directory.
    NotADirectory,
    /// The direct entries of the directory.
    Entries(Vec<DirEntry>),
}

/// The provider directory cannot be scanned.
#[derive(Clone, Copy, Debug, PartialEq, Eq, Structural)]
pub enum ConfigError {
    /// The configured path does not exist or is no directory.
    NotADirectory,
}

impl ConfigError {
    /// The text of the error for the operator.
    pub fn message(&self) -> (text: String)
        ensures
            text@ == "Capability plugin location is not a directory."@,
    {
        "Capability plugin location is not a directory.".to_owned()
    }
}

/// What became of one entry of the provider directory.
pub enum EntryOutcome {
    /// The entry is a directory or no library file: nothing was attempted.
    Skipped,
    /// The entry was loaded, and reported this identifier.
    Loaded(String),
    /// The attempt to load the entry failed.
    Failed(LoadError),
}

/// How many of the outcomes are `Loaded`.
pub open spec fn loaded_count(outcomes: Seq<EntryOutcome>) -> nat
    decreases outcomes.len(),
{
    if outcomes.len() == 0 {
        0
    } else {
        loaded_count(outcomes.drop_last()) + if outcomes.last() is Loaded {
            1nat
        } else {
            0nat
        }
    }
}

/// How many of the outcomes are `Failed`.
pub open spec fn failed_count(outcomes: Seq<EntryOutcome>) -> nat
    decreases outcomes.len(),
{
    if outcomes.len() == 0 {
        0
    } else {
        failed_count(outcomes.drop_last()) + if outcomes.last() is Failed {
            1nat
        } else {
            0nat
        }
    }
}

/// How many of the outcomes are `Skipped`.
pub open spec fn skipped_count(outcomes: Seq<EntryOutcome>) -> nat
    decreases outcomes.len(),
{
    if outcomes.len() == 0 {
        0
    } else {
        skipped_count(outcomes.drop_last()) + if outcomes.last() is Skipped {
            1nat
        } else {
            0nat
        }
    }
}

/// How many of the entries are tried as capability providers.
pub open spec fn selected_count(entries: Seq<DirEntry>, native: Seq<char>) -> nat
    decreases entries.len(),
{
    if entries.len() == 0 {
        0
    } else {
        selected_count(entries.drop_last(), native) + if entries.last().selected(native) {
            1nat
        } else {
            0nat
        }
    }
}

/// What a scan of `entries` with `loader` makes of a registry, on a
/// platform whose shared libraries carry the extension `native`: `before` and
/// `after` are its providers before and after the scan, `published` says
/// whether it held a manifest, and `outcomes` is what the scan reports.
///
/// Each entry has its outcome, in the order of the listing. An entry that is
/// not selected is skipped. A selected entry is attempted: where the loader
/// gave a provider, the registry holds it behind those it held before, with
/// the identifier that the outcome reports; where the loader failed, the
/// outcome carries its cause; and without a published manifest every attempt
/// is refused.
pub open spec fn scanned<H, L: Fn(&String) -> Result<(String, H), String>>(
    entries: Seq<DirEntry>,
    native: Seq<char>,
    loader: &L,
    published: bool,
    before: Seq<Provider<H>>,
    after: Seq<Provider<H>>,
    outcomes: Seq<EntryOutcome>,
) -> bool {
    &&& outcomes.len() == entries.len()
    &&& after.len() == before.len() + loaded_count(outcomes)
    &&& after.subrange(0, before.len() as int) == before
    &&& forall|i: int|
        0 <= i < entries.len() ==> match #[trigger] outcomes[i] {
            EntryOutcome::Skipped => !entries[i].selected(native),
            EntryOutcome::Loaded(id) => {
                let slot = (before.len() + loaded_count(outcomes.take(i))) as int;
                &&& entries[i].selected(native)
                &&& published
                &&& slot < after.len()
                &&& after[slot].id == id
                &&& after[slot].path@ == entries[i].path@
                &&& loader.ensures(
                    (&entries[i].path,),
                    Ok::<(String, H), String>((id, after[slot].handle)),
                )
            },
            EntryOutcome::Failed(LoadError::Failed(cause)) => {
                &&& entries[i].selected(native)
                &&& published
                &&& loader.ensures((&entries[i].path,), Err::<(String, H), String>(cause))
            },
            EntryOutcome::Failed(LoadError::Unpublished) => {
                &&& entries[i].selected(native)
                &&& !published
            },
        }
}

/// Scans the provider directory: tries every entry of the listing that
/// carries the platform's library extension `native_extension` as a
/// capability provider, in the order of the listing, and reports what
/// became of each entry. A failed attempt does not end the scan. Where the
/// configured path is no directory nothing is attempted and the registry
/// stays as it was.
pub fn add_capabilities<H, L: Fn(&String) -> Result<(String, H), String>>(
    registry: &mut CapabilityRegistry<H>,
    listing: &DirListing,
    native_extension: &str,
    loader: &L,
) -> (res: Result<Vec<EntryOutcome>, ConfigError>)
    requires
        old(registry).manifest_view() is Some ==> match listing {
            DirListing::Entries(entries) => forall|i: int|
                0 <= i < entries@.len() && (#[trigger] entries@[i]).selected(native_extension@)
                    ==> loader.requires((&entries@[i].path,)),
            DirListing::NotADirectory => true,
        },
    ensures
        final(registry).manifest_view() == old(registry).manifest_view(),
        match listing {
            DirListing::NotADirectory => {
                &&& res is Err
                &&& final(registry).providers() == old(registry).providers()
            },
            DirListing::Entries(entries) => {
                &&& res matches Ok(outcomes)
                &&& scanned(
                    entries@,
                    native_extension@,
                    loader,
                    old(registry).manifest_view() is Some,
                    old(registry).providers(),
                    final(registry).providers(),
                    outcomes@,
                )
            },
        },
{
    let entries = match listing {
        DirListing::NotADirectory => {
            return Err(ConfigError::NotADirectory);
        },
        DirListing::Entries(entries) => entries,
    };
    let ghost before = registry.providers();
    let ghost published = registry.manifest_view() is Some;
    let ghost native = native_extension@;
    let mut outcomes: Vec<EntryOutcome> = Vec::new();
    let n: usize = entries.len();
    let mut i: usize = 0;
    assert(registry.providers().subrange(0, before.len() as int) == before);
    while i < n
        invariant
            n == entries@.len(),
            i <= n,
            native == native_extension@,
            registry.manifest_view() == old(registry).manifest_view(),
            published == (old(registry).manifest_view() is Some),
            before == old(registry).providers(),
            published ==> forall|k: int|
                0 <= k < entries@.len() && (#[trigger] entries@[k]).selected(native)
                    ==> loader.requires((&entries@[k].path,)),
            scanned(
                entries@.take(i as int),
                native,
                loader,
                published,
                before,
                registry.providers(),
                outcomes@,
            ),
        decreases n - i,
    {
        let entry = &entries[i];
        let ghost seen = outcomes@;
        let ghost held = registry.providers();
        let outcome = if entry.is_provider_file(native_extension) {
            match registry.load_provider(&entry.path, loader) {
                Ok(id) => EntryOutcome::Loaded(id),
                Err(e) => EntryOutcome::Failed(e),
            }
        } else {
            EntryOutcome::Skipped
        };
        outcomes.push(outcome);
        proof {
            let now = registry.providers();
            let done = entries@.take(i as int);
            let next = entries@.take(i + 1);
            assert(outcomes@.drop_last() == seen);
            assert(next.drop_last() == done);
            assert(outcomes@.take(i as int) == seen);
            if outcome is Loaded {
                assert(now.drop_last() == held);
                assert(now.subrange(0, before.len() as int) == before) by {
                    assert(held.subrange(0, before.len() as int) == before);
                    assert(now.subrange(0, before.len() as int) =~= held.subrange(
                        0,
                        before.len() as int,
                    ));
                }
            }
            assert forall|k: int| 0 <= k < next.len() implies match #[trigger] outcomes@[k] {
                EntryOutcome::Skipped => !next[k].selected(native),
                EntryOutcome::Loaded(id) => {
                    let slot = (before.len() + loaded_count(outcomes@.take(k))) as int;
                    &&& next[k].selected(native)
                    &&& published
                    &&& slot < now.len()
                    &&& now[slot].id == id
                    &&& now[slot].path@ == next[k].path@
                    &&& loader.ensures(
                        (&next[k].path,),
                        Ok::<(String, H), String>((id, now[slot].handle)),
                    )
                },
                EntryOutcome::Failed(LoadError::Failed(cause)) => {
                    &&& next[k].selected(native)
                    &&& published
                    &&& loader.ensures((&next[k].path,), Err::<(String, H), String>(cause))
                },
                EntryOutcome::Failed(LoadError::Unpublished) => {
                    &&& next[k].selected(native)
                    &&& !published
                },
            } by {
                if k < i {
                    assert(outcomes@[k] == seen[k]);
                    assert(next[k] == done[k]);
                    assert(outcomes@.take(k) == seen.take(k));
                    if seen[k] is Loaded {
                        let slot = (before.len() + loaded_count(seen.take(k))) as int;
                        assert(slot < held.len());
                        if outcome is Loaded {
                            assert(now[slot] == now.drop_last()[slot]);
                        }
                    }
                } else {
                    assert(next[k] == entries@[i as int]);
                }
            }
        }
        i = i + 1;
    }
    assert(entries@.take(n as int) == entries@);
    Ok(outcomes)
}

/// Where exactly the entries that are not selected are skipped, the
/// outcomes account for every entry.
proof fn lemma_counts(entries: Seq<DirEntry>, native: Seq<char>, outcomes: Seq<EntryOutcome>)
    requires
        outcomes.len() == entries.len(),
        forall|i: int|
            0 <= i < entries.len() ==> (#[trigger] outcomes[i] is Skipped <==> !entries[i].selected(native)),
    ensures
        skipped_count(outcomes) + selected_count(entries, native) == entries.len(),
        loaded_count(outcomes) + failed_count(outcomes) == selected_count(entries, native),
    decreases entries.len(),
{
    if entries.len() > 0 {
        let front = entries.drop_last();
        let seen = outcomes.drop_last();
        assert forall|i: int| 0 <= i < front.len() implies (#[trigger] seen[i] is Skipped
            <==> !front[i].selected(native)) by {
            assert(seen[i] == outcomes[i]);
            assert(front[i] == entries[i]);
        }
        lemma_counts(front, native, seen);
        assert(outcomes.last() == outcomes[entries.len() - 1]);
    }
}

/// A scan accounts for every entry of the listing: each is skipped, loaded
/// or failed; those skipped are those that are not selected; and the
/// registry gains one provider for each selected entry but those that
/// failed. So one failure among the selected entries costs one provider and
/// no more.
pub proof fn lemma_scan_accounts_for_every_entry<H, L: Fn(&String) -> Result<(String, H), String>>(
    entries: Seq<DirEntry>,
    native: Seq<char>,
    loader: &L,
    published: bool,
    before: Seq<Provider<H>>,
    after: Seq<Provider<H>>,
    outcomes: Seq<EntryOutcome>,
)
    requires
        scanned(entries, native, loader, published, before, after, outcomes),
    ensures
        skipped_count(outcomes) + selected_count(entries, native) == entries.len(),
        loaded_count(outcomes) + failed_count(outcomes) == selected_count(entries, native),
        after.len() + failed_count(outcomes) == before.len() + selected_count(entries, native),
        !published ==> loaded_count(outcomes) == 0 && after == before,
{
    lemma_counts(entries, native, outcomes);
    if !published {
        lemma_none_loaded(outcomes);
        assert(after =~= after.subrange(0, before.len() as int));
    }
}

/// Outcomes of which none is `Loaded` count no loaded provider.
proof fn lemma_none_loaded(outcomes: Seq<EntryOutcome>)
    requires
        forall|i: int| 0 <= i < outcomes.len() ==> !(#[trigger] outcomes[i] is Loaded),
    ensures
        loaded_count(outcomes) == 0,
    decreases outcomes.len(),
{
    if outcomes.len() > 0 {
        let seen = outcomes.drop_last();
        assert forall|i: int| 0 <= i < seen.len() implies !(#[trigger] seen[i] is Loaded) by {
            assert(seen[i] == outcomes[i]);
        }
        lemma_none_loaded(seen);
        assert(outcomes.last() == outcomes[outcomes.len() - 1]);
    }
}

} // verus!
