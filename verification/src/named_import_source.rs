//! Configuration types: which import shape names the style API, and which
//! shape the runtime-injection preamble import must take.

use vstd::prelude::*;

verus! {

/// A named import with an aliasing rule: `{ as: local name, from: module path }`.
///
/// The field `as_name` carries what the configuration surface calls `as`
/// (a keyword, so it cannot be a field name here).
#[derive(Debug, PartialEq, Eq, Hash)]
pub struct NamedImportSource {
    pub as_name: String,
    pub from: String,
}

impl Clone for NamedImportSource {
    fn clone(&self) -> (r: Self)
        ensures
            r == *self,
    {
        NamedImportSource { as_name: self.as_name.clone(), from: self.from.clone() }
    }
}

/// An import-source descriptor: a plain module path, or a named import with
/// an aliasing rule.
#[derive(Debug, PartialEq, Eq, Hash)]
pub enum ImportSources {
    Regular(String),
    Named(NamedImportSource),
}

impl Clone for ImportSources {
    fn clone(&self) -> (r: Self)
        ensures
            r == *self,
    {
        match self {
            ImportSources::Regular(s) => ImportSources::Regular(s.clone()),
            ImportSources::Named(named) => ImportSources::Named(named.clone()),
        }
    }
}

impl ImportSources {
    pub fn is_named_export(&self) -> (r: bool)
        ensures
            r == (self is Named),
    {
        match self {
            ImportSources::Regular(_) => false,
            ImportSources::Named(_) => true,
        }
    }
}

/// The runtime-injection mode: a boolean toggle (inject or don't), a plain
/// module path, or a named import with an aliasing rule.
#[derive(Debug)]
pub enum RuntimeInjection {
    Boolean(bool),
    Regular(String),
    Named(NamedImportSource),
}

impl Clone for RuntimeInjection {
    fn clone(&self) -> (r: Self)
        ensures
            r == *self,
    {
        match self {
            RuntimeInjection::Boolean(v) => RuntimeInjection::Boolean(*v),
            RuntimeInjection::Regular(s) => RuntimeInjection::Regular(s.clone()),
            RuntimeInjection::Named(named) => RuntimeInjection::Named(named.clone()),
        }
    }
}

impl RuntimeInjection {
    pub fn is_named_export(&self) -> (r: bool)
        ensures
            r == (self is Named),
    {
        match self {
            RuntimeInjection::Boolean(_) => false,
            RuntimeInjection::Regular(_) => false,
            RuntimeInjection::Named(_) => true,
        }
    }

    pub fn is_regular_export(&self) -> (r: bool)
        ensures
            r == (self is Regular),
    {
        match self {
            RuntimeInjection::Boolean(_) => false,
            RuntimeInjection::Regular(_) => true,
            RuntimeInjection::Named(_) => false,
        }
    }

    pub fn is_boolean_export(&self) -> (r: bool)
        ensures
            r == (self is Boolean),
    {
        match self {
            RuntimeInjection::Boolean(_) => true,
            RuntimeInjection::Regular(_) => false,
            RuntimeInjection::Named(_) => false,
        }
    }

    pub fn as_boolean(&self) -> (r: Option<&bool>)
        ensures
            match self {
                RuntimeInjection::Boolean(v) => r matches Some(b) && b == v,
                _ => r is None,
            },
    {
        match self {
            RuntimeInjection::Boolean(value) => Option::Some(value),
            RuntimeInjection::Regular(_) => Option::None,
            RuntimeInjection::Named(_) => Option::None,
        }
    }

    pub fn as_regular(&self) -> (r: Option<&String>)
        ensures
            match self {
                RuntimeInjection::Regular(v) => r matches Some(s) && s == v,
                _ => r is None,
            },
    {
        match self {
            RuntimeInjection::Boolean(_) => Option::None,
            RuntimeInjection::Regular(value) => Option::Some(value),
            RuntimeInjection::Named(_) => Option::None,
        }
    }

    /// Resolves the boolean toggle: `Boolean(false)` switches injection off,
    /// `Boolean(true)` selects a default import of `default_path`, and the
    /// other modes carry their import shape through.
    pub fn to_state(&self, default_path: &str) -> (r: Option<RuntimeInjectionState>)
        ensures
            match *self {
                RuntimeInjection::Boolean(b) => if b {
                    r matches Some(RuntimeInjectionState::Regular(p)) && p@ == default_path@
                } else {
                    r is None
                },
                RuntimeInjection::Regular(p) => r matches Some(RuntimeInjectionState::Regular(q))
                    && q == p,
                RuntimeInjection::Named(n) => r matches Some(RuntimeInjectionState::Named(m)) && m
                    == n,
            },
    {
        match self {
            RuntimeInjection::Boolean(value) => if *value {
                Some(RuntimeInjectionState::Regular(String::from_str(default_path)))
            } else {
                None
            },
            RuntimeInjection::Regular(path) => Some(RuntimeInjectionState::Regular(path.clone())),
            RuntimeInjection::Named(named) => Some(RuntimeInjectionState::Named(named.clone())),
        }
    }

    pub fn as_named(&self) -> (r: Option<&NamedImportSource>)
        ensures
            match self {
                RuntimeInjection::Named(v) => r matches Some(n) && n == v,
                _ => r is None,
            },
    {
        match self {
            RuntimeInjection::Boolean(_) => Option::None,
            RuntimeInjection::Regular(_) => Option::None,
            RuntimeInjection::Named(value) => Option::Some(value),
        }
    }
}

/// The injection mode once the boolean toggle has been resolved: injection
/// is on, and the preamble import takes one of these two shapes.
#[derive(Debug)]
pub enum RuntimeInjectionState {
    Regular(String),
    Named(NamedImportSource),
}

impl Clone for RuntimeInjectionState {
    fn clone(&self) -> (r: Self)
        ensures
            r == *self,
    {
        match self {
            RuntimeInjectionState::Regular(s) => RuntimeInjectionState::Regular(s.clone()),
            RuntimeInjectionState::Named(named) => RuntimeInjectionState::Named(named.clone()),
        }
    }
}

} // verus!
