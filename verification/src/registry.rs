//! The store of the accepted manifest and of the loaded capability
//! providers. Writers take it by `&mut`, readers by `&`.

use vstd::prelude::*;
use crate::manifest::Manifest;
use crate::manifest::ManifestView;

verus! {

/// A loaded provider: the identifier that it reported, the path that it was
/// loaded from, and the handle of the opened library. The registry owns it.
pub struct Provider<H> {
    pub id: String,
    pub path: String,
    pub handle: H,
}

/// Why a provider was not loaded.
pub enum LoadError {
    /// No manifest was published yet: nothing was attempted.
    Unpublished,
    /// The attempt failed, for the cause given.
    Failed(String),
}

/// What a load error says, as mathematical values.
pub enum LoadErrorView {
    Unpublished,
    Failed(Seq<char>),
}

impl View for LoadError {
    type V = LoadErrorView;

    open spec fn view(&self) -> LoadErrorView {
        match self {
            LoadError::Unpublished => LoadErrorView::Unpublished,
            LoadError::Failed(cause) => LoadErrorView::Failed(cause@),
        }
    }
}

impl LoadError {
    /// The cause of the error in words.
    pub open spec fn spec_message(self) -> Seq<char> {
        match self {
            LoadError::Unpublished => "no manifest is published"@,
            LoadError::Failed(cause) => cause@,
        }
    }

    /// The cause of the error in words.
    pub fn message(&self) -> (text: String)
        ensures
            text@ == self.spec_message(),
    {
        match self {
            LoadError::Unpublished => "no manifest is published".to_owned(),
            LoadError::Failed(cause) => cause.clone(),
        }
    }
}

/// A published manifest with the providers loaded for it.
struct Published<H> {
    manifest: Manifest,
    providers: Vec<Provider<H>>,
}

/// The accepted manifest and the providers loaded for it. Providers are held
/// under the published manifest only, so none exists without one.
pub struct CapabilityRegistry<H> {
    published: Option<Published<H>>,
}

impl<H> CapabilityRegistry<H> {
    /// The published manifest, if one was published.
    pub closed spec fn manifest_view(&self) -> Option<ManifestView> {
        match self.published {
            Some(p) => Some(p.manifest@),
            None => None,
        }
    }

    /// The loaded providers, oldest first.
    pub closed spec fn providers(&self) -> Seq<Provider<H>> {
        match self.published {
            Some(p) => p.providers@,
            None => Seq::empty(),
        }
    }

    /// A registry with no manifest and no provider.
    pub fn new() -> (r: Self)
        ensures
            r.manifest_view() is None,
            r.providers() == Seq::<Provider<H>>::empty(),
    {
        CapabilityRegistry { published: None }
    }

    /// Whether a manifest was published.
    pub fn is_published(&self) -> (b: bool)
        ensures
            b == self.manifest_view() is Some,
    {
        self.published.is_some()
    }

    /// Publishes the manifest. It is published once, before any provider is
    /// loaded.
    pub fn set_manifest(&mut self, manifest: Manifest)
        requires
            old(self).manifest_view() is None,
        ensures
            final(self).manifest_view() == Some(manifest@),
            final(self).providers() == old(self).providers(),
    {
        self.published = Some(Published { manifest, providers: Vec::new() });
    }

    /// Tries to load the library at `path` as a provider, by one call of
    /// `loader`, and keeps it where that succeeds. Without a published
    /// manifest the loader is not called. A failed attempt leaves the
    /// registry as it was.
    pub fn load_provider<L: Fn(&String) -> Result<(String, H), String>>(
        &mut self,
        path: &String,
        loader: &L,
    ) -> (res: Result<String, LoadError>)
        requires
            old(self).manifest_view() is Some ==> loader.requires((path,)),
        ensures
            final(self).manifest_view() == old(self).manifest_view(),
            match res {
                Ok(id) => {
                    &&& old(self).manifest_view() is Some
                    &&& final(self).providers().len() == old(self).providers().len() + 1
                    &&& final(self).providers().drop_last() == old(self).providers()
                    &&& final(self).providers().last().id == id
                    &&& final(self).providers().last().path@ == path@
                    &&& loader.ensures(
                        (path,),
                        Ok::<(String, H), String>((id, final(self).providers().last().handle)),
                    )
                },
                Err(LoadError::Failed(cause)) => {
                    &&& old(self).manifest_view() is Some
                    &&& final(self).providers() == old(self).providers()
                    &&& loader.ensures((path,), Err::<(String, H), String>(cause))
                },
                Err(LoadError::Unpublished) => {
                    &&& old(self).manifest_view() is None
                    &&& final(self).providers() == old(self).providers()
                },
            },
    {
        match &mut self.published {
            None => Err(LoadError::Unpublished),
            Some(published) => match loader(path) {
                Ok((id, handle)) => {
                    let reported = id.clone();
                    published.providers.push(Provider { id, path: path.clone(), handle });
                    Ok(reported)
                },
                Err(cause) => Err(LoadError::Failed(cause)),
            },
        }
    }

    /// Starts the execution host by one call of `factory`, and hands back
    /// what the factory made. Without a published manifest the factory is
    /// not called and nothing is started.
    pub fn start_host<R, F: FnOnce() -> R>(&self, factory: F) -> (res: Option<R>)
        requires
            self.manifest_view() is Some ==> factory.requires(()),
        ensures
            match res {
                Some(host) => self.manifest_view() is Some && factory.ensures((), host),
                None => self.manifest_view() is None,
            },
    {
        if self.published.is_some() {
            Some(factory())
        } else {
            None
        }
    }

    /// The published manifest, if one was published.
    pub fn manifest(&self) -> (m: Option<&Manifest>)
        ensures
            match m {
                Some(manifest) => self.manifest_view() == Some(manifest@),
                None => self.manifest_view() is None,
            },
    {
        match &self.published {
            Some(published) => Some(&published.manifest),
            None => None,
        }
    }

    /// How many providers are loaded.
    pub fn provider_count(&self) -> (n: usize)
        ensures
            n == self.providers().len(),
    {
        match &self.published {
            Some(published) => published.providers.len(),
            None => 0,
        }
    }

    /// The provider that was loaded as the `index`-th, counted from 0.
    pub fn provider_at(&self, index: usize) -> (p: Option<&Provider<H>>)
        ensures
            match p {
                Some(provider) => index < self.providers().len() && *provider
                    == self.providers()[index as int],
                None => index >= self.providers().len(),
            },
    {
        match &self.published {
            Some(published) => {
                if index < published.providers.len() {
                    Some(&published.providers[index])
                } else {
                    None
                }
            },
            None => None,
        }
    }

    /// The provider that reported the identifier `id`; where several did, the
    /// one loaded last.
    pub fn lookup(&self, id: &String) -> (p: Option<&Provider<H>>)
        ensures
            match p {
                Some(provider) => exists|i: int|
                    {
                        &&& 0 <= i < self.providers().len()
                        &&& *provider == #[trigger] self.providers()[i]
                        &&& provider.id@ == id@
                        &&& forall|j: int|
                            i < j < self.providers().len() ==> (#[trigger] self.providers()[j]).id@
                                != id@
                    },
                None => forall|j: int|
                    0 <= j < self.providers().len() ==> (#[trigger] self.providers()[j]).id@
                        != id@,
            },
    {
        match &self.published {
            None => None,
            Some(published) => {
                let mut i: usize = published.providers.len();
                while i > 0
                    invariant
                        i <= published.providers@.len(),
                        self.providers() == published.providers@,
                        forall|j: int|
                            i <= j < published.providers@.len() ==> (
                            #[trigger] published.providers@[j]).id@ != id@,
                    decreases i,
                {
                    i = i - 1;
                    if published.providers[i].id == *id {
                        assert(self.providers()[i as int].id@ == id@);
                        return Some(&published.providers[i]);
                    }
                }
                None
            },
        }
    }
}

/// Whatever is done to a registry through its methods, it holds no provider
/// without a published manifest.
pub proof fn lemma_providers_need_manifest<H>(registry: CapabilityRegistry<H>)
    ensures
        registry.providers().len() > 0 ==> registry.manifest_view() is Some,
{
}

} // verus!
