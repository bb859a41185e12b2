use vstd::prelude::*;
use vstd::string::StringSliceAdditionalSpecFns;

use crate::error::XrError;
use crate::path::{entries_after, slot_of, valid_path, Path, PathRegistry};

verus! {

/// The closed set of semantic categories an action can produce.
#[derive(Clone, Copy, Debug, PartialEq, Eq, Structural)]
pub enum ActionKind {
    Boolean,
    Float,
    Vector2,
    Pose,
    Haptic,
}

/// A handle to a bound action: the session that issued it, its path and its
/// category. It is resolved by lookup in that session, never by reference.
#[derive(Clone, Copy, Debug, PartialEq, Eq, Structural)]
pub struct Action {
    pub session: u64,
    pub path: Path,
    pub kind: ActionKind,
}

/// One entry of the binding set: a path and the category it was bound to.
#[derive(Clone, Copy, Debug, PartialEq, Eq, Structural)]
pub struct Binding {
    pub path: Path,
    pub kind: ActionKind,
}

/// Mathematical model of an input session.
pub struct InputModel {
    pub owner: u64,
    pub paths: Seq<Seq<u8>>,
    pub bindings: Seq<Binding>,
}

/// The category `p` is bound to in `bs`, if any.
pub open spec fn bound_kind(bs: Seq<Binding>, p: Path) -> Option<ActionKind> {
    if exists|i: int| 0 <= i < bs.len() && bs[i].path == p {
        Some(bs[choose|i: int| 0 <= i < bs.len() && bs[i].path == p].kind)
    } else {
        None
    }
}

/// No path is bound twice.
pub open spec fn unique_paths(bs: Seq<Binding>) -> bool {
    forall|i: int, j: int|
        0 <= i < bs.len() && 0 <= j < bs.len() && i != j ==> bs[i].path != bs[j].path
}

/// Whether `p` names a path interned in the session modelled by `m`.
pub open spec fn known_path(m: InputModel, p: Path) -> bool {
    p.owner == m.owner && p.index < m.paths.len()
}

/// What creating an action of category `kind` at `p` returns: the handle when
/// `p` is known and unbound or bound to `kind`, else `ActionCreationError`.
pub open spec fn create_outcome(m: InputModel, kind: ActionKind, p: Path) -> Result<Action, XrError> {
    if !known_path(m, p) {
        Err(XrError::ActionCreationError)
    } else {
        match bound_kind(m.bindings, p) {
            Some(k) => if k == kind {
                Ok(Action { session: m.owner, path: p, kind })
            } else {
                Err(XrError::ActionCreationError)
            },
            None => Ok(Action { session: m.owner, path: p, kind }),
        }
    }
}

/// The binding set after creating an action of category `kind` at `p`:
/// one new entry exactly when `p` is known and was unbound.
pub open spec fn bindings_after(m: InputModel, kind: ActionKind, p: Path) -> Seq<Binding> {
    if known_path(m, p) && bound_kind(m.bindings, p) is None {
        m.bindings.push(Binding { path: p, kind })
    } else {
        m.bindings
    }
}

/// The bindings and paths of one input context. It owns a session-scoped
/// [PathRegistry] and every [Binding] behind the [Action] handles it issues.
pub struct InputSession {
    owner: u64,
    registry: PathRegistry,
    bindings: Vec<Binding>,
}

impl View for InputSession {
    type V = InputModel;

    closed spec fn view(&self) -> InputModel {
        InputModel { owner: self.owner, paths: self.registry@.entries, bindings: self.bindings@ }
    }
}

impl InputSession {
    /// The registry is well formed and owned by this session, no path is bound
    /// twice, and every bound path was interned here.
    pub closed spec fn wf(&self) -> bool {
        &&& self.registry.wf()
        &&& self.registry@.owner == self.owner
        &&& unique_paths(self.bindings@)
        &&& forall|i: int| 0 <= i < self.bindings@.len() ==> known_path(self@, #[trigger] self.bindings@[i].path)
    }

    /// An input session with no paths and no bindings.
    pub fn new(owner: u64) -> (r: InputSession)
        ensures
            r.wf(),
            r@.owner == owner,
            r@.paths.len() == 0,
            r@.bindings.len() == 0,
    {
        InputSession { owner, registry: PathRegistry::new(owner), bindings: Vec::new() }
    }

    /// Interns `s` in this session's registry, as [PathRegistry::intern] does;
    /// the bindings are unchanged.
    pub fn intern(&mut self, s: &str) -> (r: Result<Path, XrError>)
        requires
            old(self).wf(),
        ensures
            final(self).wf(),
            final(self)@.owner == old(self)@.owner,
            final(self)@.bindings == old(self)@.bindings,
            valid_path(s.spec_bytes()) ==> r == Ok::<Path, XrError>(
                Path { owner: old(self)@.owner, index: slot_of(old(self)@.paths, s.spec_bytes()) as usize },
            ) && final(self)@.paths == entries_after(old(self)@.paths, s.spec_bytes()),
            !valid_path(s.spec_bytes()) ==> r == Err::<Path, XrError>(XrError::InvalidPath)
                && final(self)@.paths == old(self)@.paths,
    {
        let r = self.registry.intern(s);
        proof {
            assert forall|i: int| 0 <= i < self.bindings@.len() implies known_path(
                self@,
                #[trigger] self.bindings@[i].path,
            ) by {
                assert(known_path(old(self)@, self.bindings@[i].path));
            }
        }
        r
    }

    /// The category `p` is bound to, if any.
    pub fn lookup(&self, p: Path) -> (r: Option<ActionKind>)
        requires
            self.wf(),
        ensures
            r == bound_kind(self@.bindings, p),
    {
        let mut i: usize = 0;
        while i < self.bindings.len()
            invariant
                0 <= i <= self.bindings.len(),
                unique_paths(self.bindings@),
                forall|k: int| 0 <= k < i ==> (#[trigger] self.bindings@[k]).path != p,
            decreases self.bindings.len() - i,
        {
            if self.bindings[i].path == p {
                proof {
                    let bs = self.bindings@;
                    assert(bs[i as int].path == p);
                    let c = choose|j: int| 0 <= j < bs.len() && bs[j].path == p;
                    assert(c == i as int);
                }
                return Some(self.bindings[i].kind);
            }
            i = i + 1;
        }
        None
    }

    /// Binds `p` to `kind`: returns the handle when `p` was interned here and is
    /// unbound (adding the binding) or already bound to `kind` (adding nothing);
    /// fails with `ActionCreationError` otherwise.
    pub fn create(&mut self, kind: ActionKind, p: Path) -> (r: Result<Action, XrError>)
        requires
            old(self).wf(),
        ensures
            final(self).wf(),
            r == create_outcome(old(self)@, kind, p),
            final(self)@.owner == old(self)@.owner,
            final(self)@.paths == old(self)@.paths,
            final(self)@.bindings == bindings_after(old(self)@, kind, p),
    {
        if !self.registry.contains(p) {
            return Err(XrError::ActionCreationError);
        }
        match self.lookup(p) {
            Some(k) => {
                if k == kind {
                    Ok(Action { session: self.owner, path: p, kind })
                } else {
                    Err(XrError::ActionCreationError)
                }
            },
            None => {
                let ghost bs = self.bindings@;
                self.bindings.push(Binding { path: p, kind });
                proof {
                    assert(self.bindings@ == bs.push(Binding { path: p, kind }));
                    assert forall|i: int| 0 <= i < bs.len() implies (#[trigger] bs[i]).path != p by {
                        if bs[i].path == p {
                            assert(exists|j: int| 0 <= j < bs.len() && bs[j].path == p);
                        }
                    }
                    assert forall|i: int| 0 <= i < self.bindings@.len() implies known_path(
                        self@,
                        #[trigger] self.bindings@[i].path,
                    ) by {
                        if i < bs.len() {
                            assert(self.bindings@[i] == bs[i]);
                        }
                    }
                }
                Ok(Action { session: self.owner, path: p, kind })
            },
        }
    }

    /// The number of bindings.
    pub fn binding_count(&self) -> (n: usize)
        ensures
            n == self@.bindings.len(),
    {
        self.bindings.len()
    }

    /// Removes every binding; the interned paths stay.
    pub fn clear(&mut self)
        requires
            old(self).wf(),
        ensures
            final(self).wf(),
            final(self)@.owner == old(self)@.owner,
            final(self)@.paths == old(self)@.paths,
            final(self)@.bindings.len() == 0,
    {
        self.bindings = Vec::new();
        assert(self.bindings@.len() == 0);
    }
}

} // verus!
