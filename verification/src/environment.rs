//! The environment: scopes that map names to values, each scope with an
//! optional enclosing scope.
//!
//! All the scopes of a run live in one store and are named by their index
//! in it. A closure keeps the index of the scope it was made in, so that a
//! binding made there later is still seen by the closure, as with a shared
//! reference. Scopes are never removed.

use crate::assoc::{
    bind, find, lemma_find_after_bind, lemma_find_other_after_bind, position_from,
};
use crate::object::{value_view, ObjectType, Val};
use crate::text::same_text;
use vstd::prelude::*;
use vstd::string::*;

verus! {

/// The model of a scope: its bindings in the order in which their names
/// were first bound, and the index of the enclosing scope.
pub struct ScopeView {
    pub bindings: Seq<(Seq<char>, Val)>,
    pub outer: Option<int>,
}

/// The model of an environment: every scope made so far, and the index of
/// the scope in which evaluation currently takes place.
pub struct EnvironmentView {
    pub scopes: Seq<ScopeView>,
    pub current: int,
}

/// The value bound to `name` in the scope `scope` or, where that scope does
/// not bind it, in the nearest enclosing scope that does. The index of an
/// enclosing scope is lower than that of the scope it encloses.
pub open spec fn lookup(scopes: Seq<ScopeView>, scope: int, name: Seq<char>) -> Option<Val>
    decreases scope,
{
    if scope < 0 || scope >= scopes.len() {
        None
    } else {
        match find(scopes[scope].bindings, name) {
            Some(value) => Some(value),
            None => match scopes[scope].outer {
                Some(outer) => if 0 <= outer < scope {
                    lookup(scopes, outer, name)
                } else {
                    None
                },
                None => None,
            },
        }
    }
}

impl EnvironmentView {
    /// An environment holds at least the scope that is current.
    pub open spec fn wf(self) -> bool {
        0 <= self.current < self.scopes.len()
    }

    /// The environment of a fresh run: one empty scope.
    pub open spec fn fresh() -> EnvironmentView {
        EnvironmentView {
            scopes: seq![ScopeView { bindings: Seq::empty(), outer: None }],
            current: 0,
        }
    }

    /// The value that `name` stands for in the current scope.
    pub open spec fn get(self, name: Seq<char>) -> Option<Val> {
        lookup(self.scopes, self.current, name)
    }

    /// The environment after `name` is bound to `value` in the current
    /// scope.
    pub open spec fn set(self, name: Seq<char>, value: Val) -> EnvironmentView {
        EnvironmentView {
            scopes: self.scopes.update(
                self.current,
                ScopeView {
                    bindings: bind(self.scopes[self.current].bindings, name, value),
                    outer: self.scopes[self.current].outer,
                },
            ),
            current: self.current,
        }
    }

    /// The environment after a new, empty scope is made inside the scope
    /// `captured` and becomes current. An index that names no scope gives
    /// a scope without an enclosing one.
    pub open spec fn enclose(self, captured: int) -> EnvironmentView {
        EnvironmentView {
            scopes: self.scopes.push(
                ScopeView {
                    bindings: Seq::empty(),
                    outer: if 0 <= captured < self.scopes.len() {
                        Some(captured)
                    } else {
                        None
                    },
                },
            ),
            current: self.scopes.len() as int,
        }
    }

    /// The environment with another scope current.
    pub open spec fn enter(self, scope: int) -> EnvironmentView {
        EnvironmentView { scopes: self.scopes, current: scope }
    }
}

/// A name that was just bound in the current scope stands for the value
/// it was bound to.
pub proof fn lemma_get_after_set(env: EnvironmentView, name: Seq<char>, value: Val)
    requires
        env.wf(),
    ensures
        env.set(name, value).wf(),
        env.set(name, value).get(name) == Some(value),
{
    lemma_find_after_bind(env.scopes[env.current].bindings, name, value);
}

/// Binding a name in the current scope changes what no other name stands
/// for there.
pub proof fn lemma_get_other_after_set(
    env: EnvironmentView,
    name: Seq<char>,
    value: Val,
    other: Seq<char>,
)
    requires
        env.wf(),
        other != name,
    ensures
        env.set(name, value).get(other) == env.get(other),
{
    lemma_find_other_after_bind(env.scopes[env.current].bindings, name, value, other);
    lemma_lookup_below(env, name, value, other, env.current);
}

/// Binding a name in the current scope changes nothing in the scopes that
/// enclose it.
proof fn lemma_lookup_below(
    env: EnvironmentView,
    name: Seq<char>,
    value: Val,
    other: Seq<char>,
    scope: int,
)
    requires
        env.wf(),
        0 <= scope <= env.current,
        scope == env.current ==> find(
            env.set(name, value).scopes[scope].bindings,
            other,
        ) == find(env.scopes[scope].bindings, other),
    ensures
        lookup(env.set(name, value).scopes, scope, other) == lookup(env.scopes, scope, other),
    decreases scope,
{
    let after = env.set(name, value);
    if scope != env.current {
        assert(after.scopes[scope] == env.scopes[scope]);
    }
    assert(after.scopes[scope].outer == env.scopes[scope].outer);
    match env.scopes[scope].outer {
        Some(outer) => {
            if 0 <= outer < scope {
                lemma_lookup_below(env, name, value, other, outer);
            }
        },
        None => {},
    }
}

/// One scope: its bindings and the index of the enclosing scope.
#[derive(Debug)]
pub struct Scope {
    bindings: Vec<(String, ObjectType)>,
    outer: Option<usize>,
}

/// The store of all scopes, and the index of the current one.
#[derive(Debug)]
pub struct Environment {
    scopes: Vec<Scope>,
    current: usize,
}

/// The models of the bindings of a scope.
pub open spec fn bindings_view(bindings: Seq<(String, ObjectType)>) -> Seq<(Seq<char>, Val)> {
    Seq::new(bindings.len(), |i: int| (bindings[i].0@, value_view(bindings[i].1)))
}

impl View for Scope {
    type V = ScopeView;

    closed spec fn view(&self) -> ScopeView {
        ScopeView {
            bindings: bindings_view(self.bindings@),
            outer: match self.outer {
                Some(outer) => Some(outer as int),
                None => None,
            },
        }
    }
}

impl View for Environment {
    type V = EnvironmentView;

    closed spec fn view(&self) -> EnvironmentView {
        EnvironmentView {
            scopes: Seq::new(self.scopes.len() as nat, |i: int| self.scopes[i]@),
            current: self.current as int,
        }
    }
}

impl Scope {
    /// The index of the binding of `name`, or the number of bindings where
    /// there is none.
    fn position(&self, name: &str) -> (i: usize)
        ensures
            i == position_from(self@.bindings, name@, 0),
            i <= self.bindings.len(),
            self@.bindings.len() == self.bindings.len(),
    {
        let mut i: usize = 0;
        while i < self.bindings.len()
            invariant
                i <= self.bindings.len(),
                position_from(self@.bindings, name@, i as int) == position_from(
                    self@.bindings,
                    name@,
                    0,
                ),
            decreases self.bindings.len() - i,
        {
            if same_text(self.bindings[i].0.as_str(), name) {
                return i;
            }
            i += 1;
        }
        i
    }
}

impl Environment {
    /// Whether the environment is valid: see [`EnvironmentView::wf`].
    pub open spec fn wf(&self) -> bool {
        self@.wf()
    }

    /// The environment of a fresh run: one empty scope.
    pub fn new() -> (env: Environment)
        ensures
            env.wf(),
            env@ == EnvironmentView::fresh(),
    {
        let mut scopes: Vec<Scope> = Vec::new();
        scopes.push(Scope { bindings: Vec::new(), outer: None });
        let env = Environment { scopes, current: 0 };
        assert(env@.scopes =~= EnvironmentView::fresh().scopes) by {
            assert(env.scopes[0]@.bindings =~= Seq::empty());
        }
        env
    }

    /// The index of the current scope.
    pub fn current(&self) -> (scope: usize)
        ensures
            scope == self@.current,
    {
        self.current
    }

    /// A copy of the value that `name` stands for in the current scope or
    /// in the nearest enclosing scope that binds it.
    pub fn get(&self, name: String) -> (found: Option<ObjectType>)
        ensures
            match found {
                Some(value) => self@.get(name@) == Some(value@),
                None => self@.get(name@) is None,
            },
    {
        let mut scope = self.current;
        loop
            invariant
                lookup(self@.scopes, scope as int, name@) == self@.get(name@),
            decreases scope,
        {
            if scope >= self.scopes.len() {
                return None;
            }
            let here = &self.scopes[scope];
            let i = here.position(name.as_str());
            if i < here.bindings.len() {
                return Some(here.bindings[i].1.clone());
            }
            match here.outer {
                Some(outer) => {
                    if outer < scope {
                        scope = outer;
                    } else {
                        return None;
                    }
                },
                None => {
                    return None;
                },
            }
        }
    }

    /// Binds `name` to `value` in the current scope.
    pub fn set(&mut self, name: &str, value: ObjectType)
        requires
            old(self).wf(),
        ensures
            final(self).wf(),
            final(self)@ == old(self)@.set(name@, value@),
    {
        let current = self.current;
        let i = self.scopes[current].position(name);
        let ghost before = self.scopes[current as int]@;
        let scope = &mut self.scopes[current];
        if i < scope.bindings.len() {
            scope.bindings[i] = (String::from_str(name), value);
        } else {
            scope.bindings.push((String::from_str(name), value));
        }
        proof {
            assert(self.scopes[current as int]@.bindings =~= bind(
                before.bindings,
                name@,
                value@,
            ));
            assert(self@.scopes =~= old(self)@.set(name@, value@).scopes);
        }
    }

    /// Makes a new, empty scope inside the scope `captured` and makes it
    /// current.
    pub fn enclose(&mut self, captured: usize)
        ensures
            final(self)@ == old(self)@.enclose(captured as int),
            old(self).wf() ==> final(self).wf(),
    {
        let outer = if captured < self.scopes.len() {
            Some(captured)
        } else {
            None
        };
        self.current = self.scopes.len();
        self.scopes.push(Scope { bindings: Vec::new(), outer });
        proof {
            assert(self.scopes[self.current as int]@.bindings =~= Seq::empty());
            assert(self@.scopes =~= old(self)@.enclose(captured as int).scopes);
        }
    }

    /// Makes another scope current.
    pub fn enter(&mut self, scope: usize)
        ensures
            final(self)@ == old(self)@.enter(scope as int),
    {
        self.current = scope;
    }
}

} // verus!
