use std::sync::Arc;
use vstd::prelude::*;

use super::module::{Code, LogicModule, ModuleSource};
use super::module_url::{a_scheme_ends_at_the_first_colon, scheme_of, ModuleUrl};
use super::share::share;

verus! {

/// The part of the system that is asked for a module.
#[derive(Debug, Clone, Copy, PartialEq, Eq, Structural)]
pub enum Route {
    Http,
    Https,
    Local,
    /// A protocol that was registered for the URL's scheme.
    Fallback,
    /// No protocol serves the URL's scheme.
    Unserved,
}

/// The route of a URL with the given scheme where `fallbacks` are registered.
pub open spec fn route_for(fallbacks: Set<Seq<char>>, scheme: Seq<char>) -> Route {
    if scheme == "http"@ {
        Route::Http
    } else if scheme == "https"@ {
        Route::Https
    } else if scheme == "local"@ {
        Route::Local
    } else if fallbacks.contains(scheme) {
        Route::Fallback
    } else {
        Route::Unserved
    }
}

/// Finds the part of the system that serves modules that a runtime does not
/// hold itself.
#[derive(Debug)]
pub struct ModuleResolver {
    fallback_protocols: Vec<String>,
}

impl View for ModuleResolver {
    type V = Set<Seq<char>>;

    /// The schemes that have a protocol of their own.
    closed spec fn view(&self) -> Set<Seq<char>> {
        Set::new(
            |scheme: Seq<char>|
                exists|i: int|
                    0 <= i < self.fallback_protocols@.len() && (
                    #[trigger] self.fallback_protocols@[i])@ == scheme,
        )
    }
}

impl ModuleResolver {
    fn has_fallback(&self, scheme: &String) -> (found: bool)
        ensures
            found == self@.contains(scheme@),
    {
        let mut i: usize = 0;
        while i < self.fallback_protocols.len()
            invariant
                i <= self.fallback_protocols@.len(),
                forall|j: int| 0 <= j < i ==> (#[trigger] self.fallback_protocols@[j])@ != scheme@,
            decreases self.fallback_protocols@.len() - i,
        {
            if self.fallback_protocols[i] == *scheme {
                return true;
            }
            i = i + 1;
        }
        false
    }

    /// The route of a module, by the scheme of its address.
    pub fn route(&self, module_specifier: &ModuleUrl) -> (route: Route)
        ensures
            route == route_for(self@, scheme_of(module_specifier@)),
            route == Route::Http <==> "http:"@.is_prefix_of(module_specifier@),
            route == Route::Https <==> "https:"@.is_prefix_of(module_specifier@),
            route == Route::Local <==> "local:"@.is_prefix_of(module_specifier@),
    {
        let scheme = module_specifier.scheme();
        proof {
            let url = module_specifier@;
            assert(url[scheme@.len() as int] == ':') by {
                assert(scheme@.push(':')[scheme@.len() as int] == ':');
            }
            assert(url.contains(':'));
            addresses_are_routed_by_their_start(self@, url);
        }
        if scheme == "http".to_owned() {
            Route::Http
        } else if scheme == "https".to_owned() {
            Route::Https
        } else if scheme == "local".to_owned() {
            Route::Local
        } else if self.has_fallback(&scheme) {
            Route::Fallback
        } else {
            Route::Unserved
        }
    }
}

impl Default for ModuleResolver {
    /// A resolver without protocols of its own.
    fn default() -> (resolver: Self)
        ensures
            resolver@ == Set::<Seq<char>>::empty(),
    {
        let resolver = ModuleResolver { fallback_protocols: Vec::new() };
        assert(resolver@ =~= Set::<Seq<char>>::empty());
        resolver
    }
}

/// What a runtime does about a request for a module.
#[derive(Debug)]
pub enum ModuleLoad {
    /// It serves the module itself.
    Found(ModuleSource),
    /// It passes the request on.
    Delegated(Route),
}

/// Serves the single module of a runtime and passes all other requests on.
#[derive(Debug)]
pub struct RuntimeResolver {
    global_resolver: Arc<ModuleResolver>,
    main_url: ModuleUrl,
    source: LogicModule,
}

impl RuntimeResolver {
    pub closed spec fn protocols(self) -> Set<Seq<char>> {
        self.global_resolver@
    }

    pub closed spec fn main_address(self) -> Seq<char> {
        self.main_url@
    }

    pub closed spec fn code(self) -> Code {
        self.source.code()
    }

    pub fn new(
        global_resolver: &Arc<ModuleResolver>,
        main_url: &ModuleUrl,
        source: &LogicModule,
    ) -> (resolver: RuntimeResolver)
        ensures
            resolver.protocols() == global_resolver@,
            resolver.main_address() == main_url@,
            resolver.code() == source.code(),
    {
        RuntimeResolver {
            global_resolver: share(global_resolver),
            main_url: main_url.clone(),
            source: source.clone(),
        }
    }

    /// Answers a request for the module at an address.
    pub fn load(&self, module_specifier: &ModuleUrl) -> (load: ModuleLoad)
        ensures
            module_specifier@ == self.main_address() ==> (load matches ModuleLoad::Found(source)
                && source.is_script(self.main_address(), self.code())),
            module_specifier@ != self.main_address() ==> load == ModuleLoad::Delegated(
                route_for(self.protocols(), scheme_of(module_specifier@)),
            ),
            load is Found <==> module_specifier@ == self.main_address(),
            load is Found ==> load->Found_0.code@ == self.code() && load->Found_0.url@
                == module_specifier@,
            load is Delegated ==> {
                &&& load->Delegated_0 == Route::Http <==> "http:"@.is_prefix_of(module_specifier@)
                &&& load->Delegated_0 == Route::Https <==> "https:"@.is_prefix_of(
                    module_specifier@,
                )
                &&& load->Delegated_0 == Route::Local <==> "local:"@.is_prefix_of(
                    module_specifier@,
                )
            },
    {
        if *module_specifier == self.main_url {
            match self.source.resolve() {
                Ok(code) => ModuleLoad::Found(ModuleSource::new(code, module_specifier)),
                Err(_) => vstd::pervasive::unreached(),
            }
        } else {
            ModuleLoad::Delegated(self.global_resolver.route(module_specifier))
        }
    }
}

/// A scheme of its own goes each its own way, every other scheme goes the way of
/// the protocol that is registered for it, and a scheme without one is not served.
pub proof fn schemes_are_told_apart(fallbacks: Set<Seq<char>>, scheme: Seq<char>)
    ensures
        route_for(fallbacks, scheme) == Route::Http <==> scheme == "http"@,
        route_for(fallbacks, scheme) == Route::Https <==> scheme == "https"@,
        route_for(fallbacks, scheme) == Route::Local <==> scheme == "local"@,
        route_for(fallbacks, scheme) == Route::Fallback <==> fallbacks.contains(scheme) && scheme
            != "http"@ && scheme != "https"@ && scheme != "local"@,
        route_for(fallbacks, scheme) == Route::Unserved <==> !fallbacks.contains(scheme) && scheme
            != "http"@ && scheme != "https"@ && scheme != "local"@,
{
    reveal_strlit("http");
    reveal_strlit("https");
    reveal_strlit("local");
    assert("http"@.len() == 4);
    assert("https"@.len() == 5);
    assert("local"@[0] != "https"@[0]);
}

/// An address is routed by how it starts, whatever follows: those that start with
/// `http:`, `https:` or `local:` go those ways, whatever is registered, and no
/// other address does.
pub proof fn addresses_are_routed_by_their_start(fallbacks: Set<Seq<char>>, url: Seq<char>)
    requires
        url.contains(':'),
    ensures
        route_for(fallbacks, scheme_of(url)) == Route::Http <==> "http:"@.is_prefix_of(url),
        route_for(fallbacks, scheme_of(url)) == Route::Https <==> "https:"@.is_prefix_of(url),
        route_for(fallbacks, scheme_of(url)) == Route::Local <==> "local:"@.is_prefix_of(url),
{
    reveal_strlit("http");
    reveal_strlit("https");
    reveal_strlit("local");
    reveal_strlit("http:");
    reveal_strlit("https:");
    reveal_strlit("local:");
    assert("http:"@ =~= "http"@.push(':'));
    assert("https:"@ =~= "https"@.push(':'));
    assert("local:"@ =~= "local"@.push(':'));
    assert(!"http"@.contains(':'));
    assert(!"https"@.contains(':'));
    assert(!"local"@.contains(':'));
    a_scheme_ends_at_the_first_colon(url, "http"@);
    a_scheme_ends_at_the_first_colon(url, "https"@);
    a_scheme_ends_at_the_first_colon(url, "local"@);
    schemes_are_told_apart(fallbacks, scheme_of(url));
}

} // verus!
