//! The route table: one mapping from exact paths to handlers for each
//! method that can be routed.

use vstd::prelude::*;
use vstd::hash_map::StringHashMap;
use crate::message::RouteMethod;

verus! {

/// What a route is registered under: the method and the exact path.
///
/// Paths are compared character by character; nothing is normalised, so
/// `/a` and `/a/` are different routes.
pub type RouteKey = (RouteMethod, Seq<char>);

/// The routes of a table that has none.
pub open spec fn no_routes<H>() -> Map<RouteKey, H> {
    Map::empty()
}

/// The routes of a server.
///
/// Each method's mapping is created on first use. A table whose mappings do
/// not exist yet holds no routes, and looks like an empty one to a lookup.
/// The table keeps the handler values it is given; it never calls them.
#[verifier::reject_recursive_types(H)]
pub struct RouteTable<H> {
    get: Option<StringHashMap<H>>,
    post: Option<StringHashMap<H>>,
}

impl<H> View for RouteTable<H> {
    type V = Map<RouteKey, H>;

    /// The registered routes, by method and path.
    closed spec fn view(&self) -> Map<RouteKey, H> {
        Map::new(
            |key: RouteKey| Self::paths(self.mapping(key.0)).contains_key(key.1),
            |key: RouteKey| Self::paths(self.mapping(key.0))[key.1],
        )
    }
}

impl<H> RouteTable<H> {
    spec fn mapping(&self, method: RouteMethod) -> Option<StringHashMap<H>> {
        match method {
            RouteMethod::Get => self.get,
            RouteMethod::Post => self.post,
        }
    }

    spec fn paths(mapping: Option<StringHashMap<H>>) -> Map<Seq<char>, H> {
        match mapping {
            Some(m) => m@,
            None => Map::empty(),
        }
    }

    /// Whether the mapping for `method` has been created.
    pub closed spec fn has_mapping(&self, method: RouteMethod) -> bool {
        self.mapping(method) is Some
    }

    /// Whether the mappings of all methods have been created.
    pub open spec fn spec_is_initialized(&self) -> bool {
        self.has_mapping(RouteMethod::Get) && self.has_mapping(RouteMethod::Post)
    }

    /// A table none of whose mappings exists yet.
    pub fn new() -> (table: Self)
        ensures
            table@ == no_routes::<H>(),
            !table.has_mapping(RouteMethod::Get),
            !table.has_mapping(RouteMethod::Post),
    {
        RouteTable { get: None, post: None }
    }

    /// Whether the mappings of all methods have been created.
    #[verifier::when_used_as_spec(spec_is_initialized)]
    pub fn is_initialized(&self) -> (yes: bool)
        ensures
            yes == self.spec_is_initialized(),
    {
        self.get.is_some() && self.post.is_some()
    }

    /// Creates the mapping for `method` if it does not exist yet.
    ///
    /// No route is added or removed, and the other mappings stay as they
    /// are.
    pub fn prepare(&mut self, method: RouteMethod)
        ensures
            final(self).has_mapping(method),
            forall|other: RouteMethod|
                other != method ==> final(self).has_mapping(other) == old(self).has_mapping(other),
            final(self)@ == old(self)@,
    {
        match method {
            RouteMethod::Get => {
                if self.get.is_none() {
                    self.get = Some(StringHashMap::new());
                }
            },
            RouteMethod::Post => {
                if self.post.is_none() {
                    self.post = Some(StringHashMap::new());
                }
            },
        }
    }

    /// Creates the mappings that do not exist yet.
    ///
    /// No route is added or removed, so calling this again changes nothing.
    pub fn initialize(&mut self)
        ensures
            final(self).spec_is_initialized(),
            final(self)@ == old(self)@,
    {
        self.prepare(RouteMethod::Get);
        self.prepare(RouteMethod::Post);
    }

    /// Registers `handler` for `(method, path)`, in place of any handler
    /// registered there before. The mapping for `method` is created if it
    /// does not exist; the other mappings stay as they are.
    pub fn register(&mut self, method: RouteMethod, path: String, handler: H)
        ensures
            final(self)@ == old(self)@.insert((method, path@), handler),
            final(self).has_mapping(method),
            forall|other: RouteMethod|
                other != method ==> final(self).has_mapping(other) == old(self).has_mapping(other),
    {
        self.prepare(method);
        let mapping = match method {
            RouteMethod::Get => &mut self.get,
            RouteMethod::Post => &mut self.post,
        };
        match mapping {
            Some(paths) => {
                paths.insert(path, handler);
            },
            None => {},
        }
    }

    /// Looks up the handler registered for exactly `(method, path)`.
    pub fn lookup(&self, method: RouteMethod, path: &str) -> (found: Option<&H>)
        ensures
            match found {
                Some(handler) => self@.contains_key((method, path@)) && *handler == self@[(
                    method,
                    path@,
                )],
                None => !self@.contains_key((method, path@)),
            },
    {
        let mapping = match method {
            RouteMethod::Get => &self.get,
            RouteMethod::Post => &self.post,
        };
        match mapping {
            Some(paths) => paths.get(path),
            None => None,
        }
    }
}

} // verus!
