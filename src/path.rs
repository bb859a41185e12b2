use vstd::prelude::*;

use vstd::string::StringSliceAdditionalSpecFns;

use crate::error::XrError;

verus! {

pub const SLASH: u8 = 47;
pub const DOT: u8 = 46;
pub const DASH: u8 = 45;
pub const UNDERSCORE: u8 = 95;
pub const DIGIT_0: u8 = 48;
pub const DIGIT_9: u8 = 57;
pub const LOWER_A: u8 = 97;
pub const LOWER_Z: u8 = 122;

/// A byte allowed anywhere in a path: lower-case letter, digit, `_`, `-`, `.` or `/`.
pub open spec fn is_path_byte(c: u8) -> bool {
    (LOWER_A <= c && c <= LOWER_Z) || (DIGIT_0 <= c && c <= DIGIT_9) || c == UNDERSCORE
        || c == DASH || c == DOT || c == SLASH
}

/// Path syntax: `/` followed by non-empty segments separated by single `/`,
/// with no trailing `/`, every byte a path byte.
pub open spec fn valid_path(b: Seq<u8>) -> bool {
    &&& b.len() >= 2
    &&& b[0] == SLASH
    &&& b[b.len() - 1] != SLASH
    &&& forall|i: int| 0 <= i < b.len() ==> is_path_byte(#[trigger] b[i])
    &&& forall|i: int| 0 <= i < b.len() - 1 ==> !(#[trigger] b[i] == SLASH && b[i + 1] == SLASH)
}

/// An interned path: the identity of the registry that issued it and its slot there.
#[derive(Clone, Copy, Debug, PartialEq, Eq, Structural)]
pub struct Path {
    pub owner: u64,
    pub index: usize,
}

/// Interns path strings for one session: equal strings get the same [Path],
/// and entries are never removed.
pub struct PathRegistry {
    owner: u64,
    entries: Vec<Vec<u8>>,
}

/// Mathematical model of a registry: its owner and the byte strings in slot order.
pub struct RegistryModel {
    pub owner: u64,
    pub entries: Seq<Seq<u8>>,
}

/// The slot that `s` takes when interned into `entries`: the first slot holding
/// it, or the next free slot.
pub open spec fn slot_of(entries: Seq<Seq<u8>>, s: Seq<u8>) -> int {
    if exists|i: int| 0 <= i < entries.len() && entries[i] == s {
        choose|i: int| 0 <= i < entries.len() && entries[i] == s
    } else {
        entries.len() as int
    }
}

/// The entries after interning `s`: unchanged when present, else `s` appended.
pub open spec fn entries_after(entries: Seq<Seq<u8>>, s: Seq<u8>) -> Seq<Seq<u8>> {
    if exists|i: int| 0 <= i < entries.len() && entries[i] == s {
        entries
    } else {
        entries.push(s)
    }
}

/// No byte string occupies two slots.
pub open spec fn distinct_entries(entries: Seq<Seq<u8>>) -> bool {
    forall|i: int, j: int|
        0 <= i < entries.len() && 0 <= j < entries.len() && i != j ==> entries[i] != entries[j]
}

impl View for PathRegistry {
    type V = RegistryModel;

    closed spec fn view(&self) -> RegistryModel {
        RegistryModel { owner: self.owner, entries: self.entries@.map_values(|e: Vec<u8>| e@) }
    }
}

impl PathRegistry {
    /// Every slot holds a valid path, and no path occupies two slots.
    pub open spec fn wf(&self) -> bool {
        &&& distinct_entries(self@.entries)
        &&& forall|i: int| 0 <= i < self@.entries.len() ==> valid_path(#[trigger] self@.entries[i])
    }

    /// An empty registry whose paths carry the identity `owner`.
    pub fn new(owner: u64) -> (r: PathRegistry)
        ensures
            r.wf(),
            r@.owner == owner,
            r@.entries.len() == 0,
    {
        let r = PathRegistry { owner, entries: Vec::new() };
        assert(r@.entries =~= Seq::<Seq<u8>>::empty());
        r
    }

    /// The number of interned paths.
    pub fn len(&self) -> (n: usize)
        ensures
            n == self@.entries.len(),
    {
        self.entries.len()
    }

    /// Whether `p` was issued by this registry.
    pub fn contains(&self, p: Path) -> (r: bool)
        ensures
            r == (p.owner == self@.owner && p.index < self@.entries.len()),
    {
        p.owner == self.owner && p.index < self.entries.len()
    }

    /// Interns `s`: an equal string interned before gets its earlier [Path];
    /// a new one takes the next slot. Fails with `InvalidPath` exactly when `s`
    /// breaks the path syntax, and then the registry is unchanged.
    pub fn intern(&mut self, s: &str) -> (r: Result<Path, XrError>)
        requires
            old(self).wf(),
        ensures
            final(self).wf(),
            final(self)@.owner == old(self)@.owner,
            valid_path(s.spec_bytes()) ==> r == Ok::<Path, XrError>(
                Path { owner: old(self)@.owner, index: slot_of(old(self)@.entries, s.spec_bytes()) as usize },
            ) && final(self)@.entries == entries_after(old(self)@.entries, s.spec_bytes()),
            !valid_path(s.spec_bytes()) ==> r == Err::<Path, XrError>(XrError::InvalidPath)
                && final(self)@ == old(self)@,
    {
        let b = s.as_bytes();
        if !check_path(b) {
            return Err(XrError::InvalidPath);
        }
        let ghost sb = b@;
        let ghost es = self@.entries;
        let mut i: usize = 0;
        while i < self.entries.len()
            invariant
                0 <= i <= self.entries.len(),
                self@ == old(self)@,
                es == self@.entries,
                self.wf(),
                b@ == sb,
                sb == s.spec_bytes(),
                valid_path(sb),
                forall|k: int| 0 <= k < i ==> es[k] != sb,
            decreases self.entries.len() - i,
        {
            assert(es[i as int] == self.entries@[i as int]@);
            if bytes_equal(&self.entries[i], b) {
                proof {
                    assert(es[i as int] == sb);
                    assert(exists|j: int| 0 <= j < es.len() && es[j] == sb);
                    let c = choose|j: int| 0 <= j < es.len() && es[j] == sb;
                    assert(c == i as int);
                }
                return Ok(Path { owner: self.owner, index: i });
            }
            i = i + 1;
        }
        let mut copy: Vec<u8> = Vec::new();
        let mut j: usize = 0;
        while j < b.len()
            invariant
                0 <= j <= b.len(),
                b@ == sb,
                copy@ == sb.subrange(0, j as int),
            decreases b.len() - j,
        {
            copy.push(b[j]);
            j = j + 1;
        }
        assert(copy@ =~= sb);
        let idx = self.entries.len();
        self.entries.push(copy);
        proof {
            assert(!(exists|k: int| 0 <= k < es.len() && es[k] == sb));
            assert(self@.entries =~= es.push(sb));
        }
        Ok(Path { owner: self.owner, index: idx })
    }
}

/// Whether two byte strings are equal.
fn bytes_equal(a: &Vec<u8>, b: &[u8]) -> (r: bool)
    ensures
        r == (a@ == b@),
{
    if a.len() != b.len() {
        return false;
    }
    let mut i: usize = 0;
    while i < a.len()
        invariant
            0 <= i <= a.len(),
            a@.len() == b@.len(),
            forall|k: int| 0 <= k < i ==> a@[k] == b@[k],
        decreases a.len() - i,
    {
        if a[i] != b[i] {
            return false;
        }
        i = i + 1;
    }
    assert(a@ =~= b@);
    true
}

/// Decides the path syntax on the bytes of a string.
pub fn check_path(b: &[u8]) -> (r: bool)
    ensures
        r == valid_path(b@),
{
    let n = b.len();
    if n < 2 || b[0] != SLASH || b[n - 1] == SLASH {
        return false;
    }
    let mut i: usize = 0;
    while i < n
        invariant
            n == b@.len(),
            n >= 2,
            0 <= i <= n,
            forall|k: int| 0 <= k < i ==> is_path_byte(#[trigger] b@[k]),
            forall|k: int| 0 <= k < i && k < n - 1 ==> !(#[trigger] b@[k] == SLASH && b@[k + 1] == SLASH),
        decreases n - i,
    {
        let c = b[i];
        if !((LOWER_A <= c && c <= LOWER_Z) || (DIGIT_0 <= c && c <= DIGIT_9) || c == UNDERSCORE
            || c == DASH || c == DOT || c == SLASH) {
            return false;
        }
        if i + 1 < n && c == SLASH && b[i + 1] == SLASH {
            return false;
        }
        i = i + 1;
    }
    true
}

} // verus!
