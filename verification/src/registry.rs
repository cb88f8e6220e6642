//! Registries: providers and storage plugins under their names.
//!
//! A provider or plugin is asked for its name once, when it is registered;
//! from then on it stands under the name that it gave.

use vstd::prelude::*;
use crate::error::{IndexerError, IngestionError};
use crate::text::{labelled, texts};
use crate::providers::{RpcProvider, StoragePlugin};
use crate::table::{NameTable, distinct, position};
use vstd::string::StringExecFns;

verus! {

/// A module that plugin discovery found, and what came of loading it: the
/// provider that its factory made, or the reason for which there is none.
pub struct LoadedPlugin<P> {
    pub path: String,
    pub provider: Result<P, String>,
}

/// A provider and the name that it gave.
pub struct NamedProvider<P> {
    pub name: String,
    pub provider: P,
}

/// A [`LoadedPlugin`] whose provider, if it has one, was asked for its name.
pub struct NamedPlugin<P> {
    pub path: String,
    pub provider: Result<NamedProvider<P>, String>,
}

/// The text of the error for a module that adds no provider.
pub open spec fn load_failure_text(path: Seq<char>, reason: Seq<char>) -> Seq<char> {
    path + ": "@ + reason
}

/// The text of the error for a provider whose name is taken.
pub open spec fn name_taken_text(name: Seq<char>) -> Seq<char> {
    "provider name already in use: "@ + name
}

/// Whether a module adds a provider to a registry that holds `names`: it
/// does where it loaded and the name of its provider is free.
pub open spec fn plugin_accepted<P>(names: Seq<Seq<char>>, plugin: NamedPlugin<P>) -> bool {
    plugin.provider matches Ok(p) && !names.contains(p.name@)
}

/// The text of the error that a module causes where it adds no provider.
pub open spec fn plugin_error_text<P>(plugin: NamedPlugin<P>) -> Seq<char> {
    match plugin.provider {
        Ok(p) => load_failure_text(plugin.path@, name_taken_text(p.name@)),
        Err(reason) => load_failure_text(plugin.path@, reason@),
    }
}

/// The names in a registry that held `names`, after the modules of `plugins`
/// were dealt with in order.
pub open spec fn names_after_loading<P>(names: Seq<Seq<char>>, plugins: Seq<NamedPlugin<P>>) -> Seq<
    Seq<char>,
>
    decreases plugins.len(),
{
    if plugins.len() == 0 {
        names
    } else {
        let before = names_after_loading(names, plugins.drop_last());
        if plugin_accepted(before, plugins.last()) {
            before.push(plugins.last().provider->Ok_0.name@)
        } else {
            before
        }
    }
}

/// The providers in a registry that held `providers` under `names`, after
/// the modules of `plugins` were dealt with in order.
pub open spec fn providers_after_loading<P>(
    names: Seq<Seq<char>>,
    providers: Seq<P>,
    plugins: Seq<NamedPlugin<P>>,
) -> Seq<P>
    decreases plugins.len(),
{
    if plugins.len() == 0 {
        providers
    } else {
        let before = providers_after_loading(names, providers, plugins.drop_last());
        if plugin_accepted(names_after_loading(names, plugins.drop_last()), plugins.last()) {
            before.push(plugins.last().provider->Ok_0.provider)
        } else {
            before
        }
    }
}

/// The texts of the errors that the modules of `plugins` cause, in order, in
/// a registry that held `names`.
pub open spec fn errors_of_loading<P>(names: Seq<Seq<char>>, plugins: Seq<NamedPlugin<P>>) -> Seq<
    Seq<char>,
>
    decreases plugins.len(),
{
    if plugins.len() == 0 {
        Seq::empty()
    } else {
        let errors = errors_of_loading(names, plugins.drop_last());
        if plugin_accepted(names_after_loading(names, plugins.drop_last()), plugins.last()) {
            errors
        } else {
            errors.push(plugin_error_text(plugins.last()))
        }
    }
}

/// Whether every error of the list reports a plugin that did not load.
pub open spec fn all_plugin_errors(errors: Seq<IngestionError>) -> bool {
    forall|i: int| 0 <= i < errors.len() ==> (#[trigger] errors[i]) is PluginLoadError
}

/// The texts of a list of plugin errors.
pub open spec fn plugin_error_texts(errors: Seq<IngestionError>) -> Seq<Seq<char>> {
    Seq::new(errors.len(), |i: int| errors[i]->PluginLoadError_0@)
}

/// Every module is dealt with: it adds a name or it costs an error.
pub proof fn law_every_plugin_accounted_for<P>(names: Seq<Seq<char>>, plugins: Seq<NamedPlugin<P>>)
    ensures
        names_after_loading(names, plugins).len() + errors_of_loading(names, plugins).len()
            == names.len() + plugins.len(),
        names_after_loading(names, plugins).take(names.len() as int) == names,
        names_after_loading(names, plugins).len() >= names.len(),
    decreases plugins.len(),
{
    if plugins.len() > 0 {
        law_every_plugin_accounted_for(names, plugins.drop_last());
    }
}

/// The provider that stands under `name`, if one does.
pub open spec fn provider_named<P>(names: Seq<Seq<char>>, providers: Seq<P>, name: Seq<char>) -> Option<
    P,
> {
    match position(names, name) {
        Some(i) => Some(providers[i]),
        None => None,
    }
}

/// The providers of the indexer, under unique names, in the order in which
/// they were registered.
pub struct RpcProviderRegistry<P> {
    providers: NameTable<P>,
}

impl<P> RpcProviderRegistry<P> {
    /// The names of the providers, in registration order.
    pub closed spec fn names(&self) -> Seq<Seq<char>> {
        self.providers.names()
    }

    /// The providers, in registration order, each at the place of its name.
    pub closed spec fn providers(&self) -> Seq<P> {
        self.providers.values()
    }

    /// A registry without providers.
    pub fn new() -> (r: Self)
        ensures
            r.names() == Seq::<Seq<char>>::empty(),
            r.providers() == Seq::<P>::empty(),
    {
        RpcProviderRegistry { providers: NameTable::new() }
    }

    /// The number of providers. Each has its name, and no name occurs twice.
    pub fn len(&self) -> (n: usize)
        ensures
            n == self.providers().len(),
            n == self.names().len(),
            distinct(self.names()),
    {
        self.providers.len()
    }

    /// Registers a provider under `name`. A name that is in use is refused:
    /// the registry stays as it is, and the provider that holds the name
    /// stays registered.
    pub fn register_named(&mut self, name: String, provider: P) -> (r: Result<(), IndexerError>)
        ensures
            match r {
                Ok(()) => {
                    &&& !old(self).names().contains(name@)
                    &&& final(self).names() == old(self).names().push(name@)
                    &&& final(self).providers() == old(self).providers().push(provider)
                },
                Err(e) => {
                    &&& old(self).names().contains(name@)
                    &&& final(self).names() == old(self).names()
                    &&& final(self).providers() == old(self).providers()
                    &&& e matches IndexerError::RpcError(m)
                    &&& m@ == name_taken_text(name@)
                },
            },
    {
        let text = labelled("provider name already in use: ", name.as_str());
        match self.providers.insert_new(name, provider) {
            Ok(()) => Ok(()),
            Err(_) => Err(IndexerError::RpcError(text)),
        }
    }

    /// The provider of that name, if there is one.
    pub fn get_provider(&self, name: &str) -> (r: Option<&P>)
        ensures
            match r {
                Some(p) => self.names().contains(name@) && provider_named(
                    self.names(),
                    self.providers(),
                    name@,
                ) == Some(*p),
                None => !self.names().contains(name@),
            },
    {
        match self.providers.find(name) {
            Some(i) => {
                Some(self.providers.value_at(i))
            },
            None => None,
        }
    }

    /// The providers, in registration order.
    pub fn get_providers(&self) -> (r: Vec<&P>)
        ensures
            r@.len() == self.providers().len(),
            forall|i: int| 0 <= i < r@.len() ==> *(#[trigger] r@[i]) == self.providers()[i],
    {
        let n = self.providers.len();
        let mut out: Vec<&P> = Vec::new();
        let mut i: usize = 0;
        while i < n
            invariant
                i <= n,
                n == self.providers.values().len(),
                n == self.providers.names().len(),
                out@.len() == i,
                forall|j: int| 0 <= j < i ==> *(#[trigger] out@[j]) == self.providers.values()[j],
            decreases n - i,
        {
            out.push(self.providers.value_at(i));
            i += 1;
        }
        out
    }

    /// The names of the providers, in registration order.
    pub fn provider_names(&self) -> (r: Vec<String>)
        ensures
            texts(r@) == self.names(),
    {
        let n = self.providers.len();
        let mut out: Vec<String> = Vec::new();
        let mut i: usize = 0;
        while i < n
            invariant
                i <= n,
                n == self.providers.names().len(),
                out@.len() == i,
                forall|j: int| 0 <= j < i ==> (#[trigger] out@[j])@ == self.providers.names()[j],
            decreases n - i,
        {
            out.push(self.providers.name_at(i).to_owned());
            i += 1;
        }
        out
    }

    /// Deals with one module that plugin discovery found: registers its
    /// provider under its name, or says why the module adds none.
    pub fn register_plugin(&mut self, plugin: NamedPlugin<P>) -> (r: Result<(), IngestionError>)
        ensures
            match r {
                Ok(()) => {
                    &&& plugin_accepted(old(self).names(), plugin)
                    &&& final(self).names() == old(self).names().push(
                        plugin.provider->Ok_0.name@,
                    )
                    &&& final(self).providers() == old(self).providers().push(
                        plugin.provider->Ok_0.provider,
                    )
                },
                Err(e) => {
                    &&& !plugin_accepted(old(self).names(), plugin)
                    &&& final(self).names() == old(self).names()
                    &&& final(self).providers() == old(self).providers()
                    &&& e matches IngestionError::PluginLoadError(m)
                    &&& m@ == plugin_error_text(plugin)
                },
            },
    {
        let NamedPlugin { path, provider } = plugin;
        match provider {
            Ok(named) => {
                let NamedProvider { name, provider } = named;
                match self.register_named(name, provider) {
                    Ok(()) => Ok(()),
                    Err(e) => {
                        let reason = match e {
                            IndexerError::RpcError(m) => m,
                            _ => String::from_str(""),
                        };
                        let mut text = labelled(path.as_str(), ": ");
                        text.append(reason.as_str());
                        Err(IngestionError::PluginLoadError(text))
                    },
                }
            },
            Err(reason) => {
                let mut text = labelled(path.as_str(), ": ");
                text.append(reason.as_str());
                Err(IngestionError::PluginLoadError(text))
            },
        }
    }

    /// Deals with the modules that plugin discovery found, in order. A
    /// module that did not load, or whose provider's name is taken, costs
    /// one error and nothing else: the modules after it are dealt with all
    /// the same.
    pub fn register_plugins(&mut self, plugins: Vec<NamedPlugin<P>>) -> (errors: Vec<
        IngestionError,
    >)
        ensures
            final(self).names() == names_after_loading(old(self).names(), plugins@),
            final(self).providers() == providers_after_loading(
                old(self).names(),
                old(self).providers(),
                plugins@,
            ),
            all_plugin_errors(errors@),
            plugin_error_texts(errors@) == errors_of_loading(old(self).names(), plugins@),
    {
        let ghost start = self.names();
        let ghost start_providers = self.providers();
        let ghost all = plugins@;
        let mut errors: Vec<IngestionError> = Vec::new();
        for plugin in it: plugins
            invariant
                it.seq() == all,
                self.names() == names_after_loading(start, all.take(it.index() as int)),
                self.providers() == providers_after_loading(
                    start,
                    start_providers,
                    all.take(it.index() as int),
                ),
                all_plugin_errors(errors@),
                plugin_error_texts(errors@) == errors_of_loading(
                    start,
                    all.take(it.index() as int),
                ),
        {
            proof {
                let done = it.index() as int;
                assert(all.take(done + 1).drop_last() =~= all.take(done));
            }
            match self.register_plugin(plugin) {
                Ok(()) => {},
                Err(e) => {
                    errors.push(e);
                },
            }
        }
        proof {
            assert(all.take(all.len() as int) =~= all);
        }
        errors
    }
}

/// Whether `named` is `loaded` with a name for each provider: the same
/// modules in the same order, each with the same provider or the same
/// reason.
pub open spec fn names_added<P>(loaded: Seq<LoadedPlugin<P>>, named: Seq<NamedPlugin<P>>) -> bool {
    &&& named.len() == loaded.len()
    &&& forall|i: int|
        0 <= i < loaded.len() ==> {
            &&& (#[trigger] named[i]).path == loaded[i].path
            &&& match loaded[i].provider {
                Ok(p) => named[i].provider matches Ok(n) && n.provider == p,
                Err(reason) => named[i].provider == Err::<NamedProvider<P>, String>(reason),
            }
        }
}

/// Asks the provider of each loaded module for its name.
pub fn name_plugins<P: RpcProvider>(loaded: Vec<LoadedPlugin<P>>) -> (named: Vec<NamedPlugin<P>>)
    ensures
        names_added(loaded@, named@),
{
    let ghost all = loaded@;
    let mut named: Vec<NamedPlugin<P>> = Vec::new();
    for plugin in it: loaded
        invariant
            it.seq() == all,
            named@.len() == it.index(),
            names_added(all.take(it.index() as int), named@),
    {
        let ghost done = it.index() as int;
        let LoadedPlugin { path, provider } = plugin;
        let entry = match provider {
            Ok(p) => {
                let name = p.name().to_owned();
                NamedPlugin { path, provider: Ok(NamedProvider { name, provider: p }) }
            },
            Err(reason) => NamedPlugin { path, provider: Err(reason) },
        };
        named.push(entry);
        proof {
            assert forall|i: int| 0 <= i < done + 1 implies {
                &&& (#[trigger] named@[i]).path == all.take(done + 1)[i].path
                &&& match all.take(done + 1)[i].provider {
                    Ok(p) => named@[i].provider matches Ok(n) && n.provider == p,
                    Err(reason) => named@[i].provider == Err::<NamedProvider<P>, String>(reason),
                }
            } by {
            }
        }
    }
    named
}

impl<P: RpcProvider> RpcProviderRegistry<P> {
    /// Registers a provider under the name that it gives. A name that is in
    /// use is refused: the registry stays as it is, and the provider that
    /// holds the name stays registered.
    pub fn register_provider(&mut self, provider: P) -> (r: Result<(), IndexerError>)
        ensures
            match r {
                Ok(()) => {
                    &&& final(self).names().len() == old(self).names().len() + 1
                    &&& final(self).names().drop_last() == old(self).names()
                    &&& !old(self).names().contains(final(self).names().last())
                    &&& final(self).providers() == old(self).providers().push(provider)
                },
                Err(e) => {
                    &&& final(self).names() == old(self).names()
                    &&& final(self).providers() == old(self).providers()
                    &&& e matches IndexerError::RpcError(m)
                    &&& exists|i: int|
                        0 <= i < old(self).names().len() && m@ == name_taken_text(
                            #[trigger] old(self).names()[i],
                        )
                },
            },
    {
        let name = provider.name().to_owned();
        let r = self.register_named(name, provider);
        r
    }

    /// Asks the provider of each loaded module for its name and deals with
    /// the modules in order, as [`RpcProviderRegistry::register_plugins`]
    /// does: under the names that the providers gave, whatever they are, the
    /// registry and the errors are what `register_plugins` makes of the
    /// modules. So no module is passed over: each adds a provider behind
    /// those that were there, or costs an error.
    pub fn load_plugins(&mut self, loaded: Vec<LoadedPlugin<P>>) -> (errors: Vec<IngestionError>)
        ensures
            exists|named: Seq<NamedPlugin<P>>|
                {
                    &&& #[trigger] names_added(loaded@, named)
                    &&& final(self).names() == names_after_loading(old(self).names(), named)
                    &&& final(self).providers() == providers_after_loading(
                        old(self).names(),
                        old(self).providers(),
                        named,
                    )
                    &&& plugin_error_texts(errors@) == errors_of_loading(old(self).names(), named)
                },
            all_plugin_errors(errors@),
            final(self).names().len() + errors@.len() == old(self).names().len() + loaded@.len(),
            final(self).names().len() >= old(self).names().len(),
            final(self).names().take(old(self).names().len() as int) == old(self).names(),
            final(self).providers().len() == final(self).names().len(),
    {
        let named = name_plugins(loaded);
        let ghost witness = named@;
        proof {
            law_every_plugin_accounted_for(self.names(), witness);
        }
        let errors = self.register_plugins(named);
        let _ = self.len();
        assert(names_added(loaded@, witness));
        errors
    }
}

/// The providers on the ingestion side, under unique names, in the order in
/// which they were registered. It differs from [`RpcProviderRegistry`] in
/// the errors that it reports.
pub struct ProviderPluginRegistry<P> {
    registry: RpcProviderRegistry<P>,
}

impl<P> ProviderPluginRegistry<P> {
    /// The names of the providers, in registration order.
    pub closed spec fn names(&self) -> Seq<Seq<char>> {
        self.registry.names()
    }

    /// The providers, in registration order, each at the place of its name.
    pub closed spec fn providers(&self) -> Seq<P> {
        self.registry.providers()
    }

    /// A registry without providers.
    pub fn new() -> (r: Self)
        ensures
            r.names() == Seq::<Seq<char>>::empty(),
            r.providers() == Seq::<P>::empty(),
    {
        ProviderPluginRegistry { registry: RpcProviderRegistry::new() }
    }

    /// Registers a provider under `name`. A name that is in use is refused:
    /// the registry stays as it is.
    pub fn register_named(&mut self, name: String, provider: P) -> (r: Result<(), IngestionError>)
        ensures
            match r {
                Ok(()) => {
                    &&& !old(self).names().contains(name@)
                    &&& final(self).names() == old(self).names().push(name@)
                    &&& final(self).providers() == old(self).providers().push(provider)
                },
                Err(e) => {
                    &&& old(self).names().contains(name@)
                    &&& final(self).names() == old(self).names()
                    &&& final(self).providers() == old(self).providers()
                    &&& e matches IngestionError::ProviderError(m)
                    &&& m@ == name_taken_text(name@)
                },
            },
    {
        match self.registry.register_named(name, provider) {
            Ok(()) => Ok(()),
            Err(e) => {
                let reason = match e {
                    IndexerError::RpcError(m) => m,
                    _ => String::from_str(""),
                };
                Err(IngestionError::ProviderError(reason))
            },
        }
    }

    /// Deals with one module that was loaded: registers its provider under
    /// its name, or says why the module adds none.
    pub fn register_plugin(&mut self, plugin: NamedPlugin<P>) -> (r: Result<(), IngestionError>)
        ensures
            match r {
                Ok(()) => {
                    &&& plugin_accepted(old(self).names(), plugin)
                    &&& final(self).names() == old(self).names().push(
                        plugin.provider->Ok_0.name@,
                    )
                    &&& final(self).providers() == old(self).providers().push(
                        plugin.provider->Ok_0.provider,
                    )
                },
                Err(e) => {
                    &&& !plugin_accepted(old(self).names(), plugin)
                    &&& final(self).names() == old(self).names()
                    &&& final(self).providers() == old(self).providers()
                    &&& e matches IngestionError::PluginLoadError(m)
                    &&& m@ == plugin_error_text(plugin)
                },
            },
    {
        self.registry.register_plugin(plugin)
    }

    /// The provider of that name, if there is one.
    pub fn get_provider(&self, name: &str) -> (r: Option<&P>)
        ensures
            match r {
                Some(p) => self.names().contains(name@) && provider_named(
                    self.names(),
                    self.providers(),
                    name@,
                ) == Some(*p),
                None => !self.names().contains(name@),
            },
    {
        self.registry.get_provider(name)
    }

    /// The providers, in registration order.
    pub fn get_providers(&self) -> (r: Vec<&P>)
        ensures
            r@.len() == self.providers().len(),
            forall|i: int| 0 <= i < r@.len() ==> *(#[trigger] r@[i]) == self.providers()[i],
    {
        self.registry.get_providers()
    }
}

impl<P: RpcProvider> ProviderPluginRegistry<P> {
    /// Registers a provider under the name that it gives. A name that is in
    /// use is refused: the registry stays as it is.
    pub fn register_provider(&mut self, provider: P) -> (r: Result<(), IngestionError>)
        ensures
            match r {
                Ok(()) => {
                    &&& final(self).names().len() == old(self).names().len() + 1
                    &&& final(self).names().drop_last() == old(self).names()
                    &&& !old(self).names().contains(final(self).names().last())
                    &&& final(self).providers() == old(self).providers().push(provider)
                },
                Err(e) => {
                    &&& final(self).names() == old(self).names()
                    &&& final(self).providers() == old(self).providers()
                    &&& e matches IngestionError::ProviderError(m)
                    &&& exists|i: int|
                        0 <= i < old(self).names().len() && m@ == name_taken_text(
                            #[trigger] old(self).names()[i],
                        )
                },
            },
    {
        let name = provider.name().to_owned();
        let r = self.register_named(name, provider);
        r
    }

    /// Deals with one module that was loaded: asks its provider for its name
    /// and registers it, or says why the module adds none. A module that did
    /// not load always costs the error that carries its reason; one that
    /// loaded costs an error only where the name that its provider gave is
    /// in use, and the error then says which.
    pub fn load_plugin(&mut self, plugin: LoadedPlugin<P>) -> (r: Result<(), IngestionError>)
        ensures
            match r {
                Ok(()) => {
                    &&& plugin.provider is Ok
                    &&& final(self).names().len() == old(self).names().len() + 1
                    &&& final(self).names().drop_last() == old(self).names()
                    &&& !old(self).names().contains(final(self).names().last())
                    &&& final(self).providers() == old(self).providers().push(
                        plugin.provider->Ok_0,
                    )
                },
                Err(e) => {
                    &&& final(self).names() == old(self).names()
                    &&& final(self).providers() == old(self).providers()
                    &&& e matches IngestionError::PluginLoadError(m)
                    &&& match plugin.provider {
                        Err(reason) => m@ == load_failure_text(plugin.path@, reason@),
                        Ok(_) => exists|i: int|
                            0 <= i < old(self).names().len() && m@ == load_failure_text(
                                plugin.path@,
                                name_taken_text(#[trigger] old(self).names()[i]),
                            ),
                    }
                },
            },
    {
        let LoadedPlugin { path, provider } = plugin;
        let named = match provider {
            Ok(p) => {
                let name = p.name().to_owned();
                NamedPlugin { path, provider: Ok(NamedProvider { name, provider: p }) }
            },
            Err(reason) => NamedPlugin { path, provider: Err(reason) },
        };
        let r = self.register_plugin(named);
        r
    }
}

/// The storage plugins, under unique names. A plugin registered under a
/// name that is in use takes the place of the one that held it.
pub struct StoragePluginRegistry<S> {
    plugins: NameTable<S>,
}

impl<S> StoragePluginRegistry<S> {
    /// The plugins by name.
    pub closed spec fn plugins(&self) -> Map<Seq<char>, S> {
        self.plugins.as_map()
    }

    /// A registry without plugins.
    pub fn new() -> (r: Self)
        ensures
            r.plugins() == Map::<Seq<char>, S>::empty(),
    {
        StoragePluginRegistry { plugins: NameTable::new() }
    }

    /// Registers a plugin under `name`, in place of any that held the name;
    /// that one comes back.
    pub fn register_named(&mut self, name: String, plugin: S) -> (previous: Option<S>)
        ensures
            final(self).plugins() == old(self).plugins().insert(name@, plugin),
            match previous {
                Some(p) => old(self).plugins().contains_key(name@) && p == old(self).plugins()[name@],
                None => !old(self).plugins().contains_key(name@),
            },
    {
        self.plugins.put(name, plugin)
    }

    /// The plugin of that name, if there is one.
    pub fn get_plugin(&self, name: &str) -> (r: Option<&S>)
        ensures
            match r {
                Some(p) => self.plugins().contains_key(name@) && *p == self.plugins()[name@],
                None => !self.plugins().contains_key(name@),
            },
    {
        self.plugins.get(name)
    }
}

impl<S: StoragePlugin> StoragePluginRegistry<S> {
    /// Registers a plugin under the name that it gives, in place of any that
    /// held the name; that one comes back.
    pub fn register_plugin(&mut self, plugin: S) -> (previous: Option<S>)
        ensures
            exists|name: Seq<char>|
                {
                    &&& #[trigger] final(self).plugins() == old(self).plugins().insert(name, plugin)
                    &&& match previous {
                        Some(p) => old(self).plugins().contains_key(name) && p == old(
                            self,
                        ).plugins()[name],
                        None => !old(self).plugins().contains_key(name),
                    }
                },
    {
        let name = plugin.name().to_owned();
        let previous = self.register_named(name, plugin);
        previous
    }
}

} // verus!
