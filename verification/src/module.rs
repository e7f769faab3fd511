//! The module filter: a minimal set of module-path prefixes.

use vstd::prelude::*;
use crate::text::{range_to_string, to_chars};

verus! {

/// Whether `parent` names `child` itself or a module that `child` lies
/// beneath: `child` is `parent`, or begins with `parent` followed at once by
/// the separator `::`.
pub open spec fn is_ancestor(parent: Seq<char>, child: Seq<char>) -> bool {
    parent == child || (child.len() >= parent.len() + 2 && child.subrange(0, parent.len() as int)
        == parent && child[parent.len() as int] == ':' && child[parent.len() as int + 1] == ':')
}

/// Whether some entry is an ancestor of `path`.
pub open spec fn covered(entries: Seq<Seq<char>>, path: Seq<char>) -> bool {
    exists|i: int| 0 <= i < entries.len() && is_ancestor(#[trigger] entries[i], path)
}

/// Whether a filter with these entries lets `path` through: an empty filter
/// lets everything through.
pub open spec fn allows(entries: Seq<Seq<char>>, path: Seq<char>) -> bool {
    entries.len() == 0 || covered(entries, path)
}

/// The entries that do not lie beneath `path`, in their order.
pub open spec fn without_descendants(entries: Seq<Seq<char>>, path: Seq<char>) -> Seq<Seq<char>>
    decreases entries.len(),
{
    if entries.len() == 0 {
        entries
    } else if is_ancestor(path, entries.last()) {
        without_descendants(entries.drop_last(), path)
    } else {
        without_descendants(entries.drop_last(), path).push(entries.last())
    }
}

/// The entries after `path` is inserted: unchanged when an entry already
/// covers `path`; otherwise the entries beneath `path` leave and `path` is
/// added at the end.
pub open spec fn inserted(entries: Seq<Seq<char>>, path: Seq<char>) -> Seq<Seq<char>> {
    if covered(entries, path) {
        entries
    } else {
        without_descendants(entries, path).push(path)
    }
}

/// No entry is an ancestor of another one.
pub open spec fn minimal(entries: Seq<Seq<char>>) -> bool {
    forall|i: int, j: int|
        0 <= i < entries.len() && 0 <= j < entries.len() && i != j ==> !is_ancestor(
            #[trigger] entries[i],
            #[trigger] entries[j],
        )
}

/// Being an ancestor carries over: an ancestor of an ancestor of `c` is an
/// ancestor of `c`.
pub proof fn lemma_ancestor_transitive(a: Seq<char>, b: Seq<char>, c: Seq<char>)
    requires
        is_ancestor(a, b),
        is_ancestor(b, c),
    ensures
        is_ancestor(a, c),
{
    if a != b && b != c {
        let n = a.len() as int;
        let head = c.subrange(0, b.len() as int);
        assert(head == b);
        assert(c.subrange(0, n) =~= head.subrange(0, n));
        assert(head[n] == c[n]);
        assert(head[n + 1] == c[n + 1]);
    }
}

/// Every entry that stays when the descendants of `path` leave is one of
/// the entries and does not lie beneath `path`.
pub proof fn lemma_kept_entries(entries: Seq<Seq<char>>, path: Seq<char>)
    ensures
        forall|k: int|
            0 <= k < without_descendants(entries, path).len() ==> !is_ancestor(
                path,
                #[trigger] without_descendants(entries, path)[k],
            ) && exists|i: int|
                0 <= i < entries.len() && #[trigger] entries[i] == without_descendants(
                    entries,
                    path,
                )[k],
    decreases entries.len(),
{
    if entries.len() > 0 {
        let front = entries.drop_last();
        lemma_kept_entries(front, path);
        let kept = without_descendants(entries, path);
        let kept_front = without_descendants(front, path);
        assert forall|k: int| 0 <= k < kept.len() implies !is_ancestor(path, #[trigger] kept[k])
            && exists|i: int| 0 <= i < entries.len() && #[trigger] entries[i] == kept[k] by {
            if k < kept_front.len() {
                assert(kept[k] == kept_front[k]);
                let i = choose|i: int| 0 <= i < front.len() && #[trigger] front[i] == kept_front[k];
                assert(entries[i] == kept[k]);
            } else {
                assert(entries[entries.len() - 1] == kept[k]);
            }
        }
    }
}

/// Dropping the descendants of `path` keeps a minimal set minimal.
pub proof fn lemma_without_descendants_minimal(entries: Seq<Seq<char>>, path: Seq<char>)
    requires
        minimal(entries),
    ensures
        minimal(without_descendants(entries, path)),
    decreases entries.len(),
{
    if entries.len() > 0 {
        let front = entries.drop_last();
        let last = entries.last();
        assert(minimal(front)) by {
            assert forall|i: int, j: int|
                0 <= i < front.len() && 0 <= j < front.len() && i != j implies !is_ancestor(
                #[trigger] front[i],
                #[trigger] front[j],
            ) by {
                assert(front[i] == entries[i] && front[j] == entries[j]);
            }
        }
        lemma_without_descendants_minimal(front, path);
        lemma_kept_entries(front, path);
        let kept = without_descendants(entries, path);
        let kept_front = without_descendants(front, path);
        if !is_ancestor(path, last) {
            assert forall|i: int, j: int|
                0 <= i < kept.len() && 0 <= j < kept.len() && i != j implies !is_ancestor(
                #[trigger] kept[i],
                #[trigger] kept[j],
            ) by {
                if i < kept_front.len() && j < kept_front.len() {
                    assert(kept[i] == kept_front[i] && kept[j] == kept_front[j]);
                } else if i < kept_front.len() {
                    let a = choose|a: int|
                        0 <= a < front.len() && #[trigger] front[a] == kept_front[i];
                    assert(entries[a] == kept[i]);
                    assert(entries[entries.len() - 1] == kept[j]);
                } else {
                    let b = choose|b: int|
                        0 <= b < front.len() && #[trigger] front[b] == kept_front[j];
                    assert(entries[b] == kept[j]);
                    assert(entries[entries.len() - 1] == kept[i]);
                }
            }
        }
    }
}

/// Inserting into a minimal filter leaves it minimal.
pub proof fn lemma_insert_keeps_minimal(entries: Seq<Seq<char>>, path: Seq<char>)
    requires
        minimal(entries),
    ensures
        minimal(inserted(entries, path)),
{
    if !covered(entries, path) {
        lemma_without_descendants_minimal(entries, path);
        lemma_kept_entries(entries, path);
        let kept = without_descendants(entries, path);
        let after = kept.push(path);
        assert forall|i: int, j: int|
            0 <= i < after.len() && 0 <= j < after.len() && i != j implies !is_ancestor(
            #[trigger] after[i],
            #[trigger] after[j],
        ) by {
            if i < kept.len() && j < kept.len() {
                assert(after[i] == kept[i] && after[j] == kept[j]);
            } else if i < kept.len() {
                let a = choose|a: int| 0 <= a < entries.len() && #[trigger] entries[a] == kept[i];
                assert(!is_ancestor(entries[a], path));
            } else {
                assert(after[j] == kept[j]);
            }
        }
    }
}

/// The empty filter lets every module through.
pub proof fn lemma_empty_filter_allows_all(module: Seq<char>)
    ensures
        allows(Seq::empty(), module),
{
}

/// Inserting the same path a second time changes nothing.
pub proof fn lemma_insert_twice(entries: Seq<Seq<char>>, path: Seq<char>)
    ensures
        inserted(inserted(entries, path), path) == inserted(entries, path),
{
    if !covered(entries, path) {
        let after = inserted(entries, path);
        assert(is_ancestor(after[after.len() - 1], path));
    }
}

/// After `path` is inserted, the filter lets through `path` and everything
/// beneath it.
pub proof fn lemma_insert_allows_descendants(
    entries: Seq<Seq<char>>,
    path: Seq<char>,
    module: Seq<char>,
)
    requires
        is_ancestor(path, module),
    ensures
        allows(inserted(entries, path), module),
{
    if covered(entries, path) {
        let i = choose|i: int| 0 <= i < entries.len() && is_ancestor(#[trigger] entries[i], path);
        lemma_ancestor_transitive(entries[i], path, module);
    } else {
        let after = inserted(entries, path);
        assert(is_ancestor(after[after.len() - 1], module));
    }
}

/// Inserting into a filter that is not empty takes nothing away: what it
/// let through before, it lets through after.
pub proof fn lemma_insert_keeps_allowed(
    entries: Seq<Seq<char>>,
    path: Seq<char>,
    module: Seq<char>,
)
    requires
        entries.len() > 0,
        allows(entries, module),
    ensures
        allows(inserted(entries, path), module),
{
    if !covered(entries, path) {
        let i = choose|i: int| 0 <= i < entries.len() && is_ancestor(#[trigger] entries[i], module);
        if is_ancestor(path, entries[i]) {
            lemma_ancestor_transitive(path, entries[i], module);
            lemma_insert_allows_descendants(entries, path, module);
        } else {
            lemma_kept_member(entries, path, i);
            let kept = without_descendants(entries, path);
            let k = choose|k: int| 0 <= k < kept.len() && #[trigger] kept[k] == entries[i];
            let after = kept.push(path);
            assert(is_ancestor(after[k], module));
        }
    }
}

/// An entry that does not lie beneath `path` stays when the descendants of
/// `path` leave.
pub proof fn lemma_kept_member(entries: Seq<Seq<char>>, path: Seq<char>, i: int)
    requires
        0 <= i < entries.len(),
        !is_ancestor(path, entries[i]),
    ensures
        exists|k: int|
            0 <= k < without_descendants(entries, path).len() && #[trigger] without_descendants(
                entries,
                path,
            )[k] == entries[i],
    decreases entries.len(),
{
    let front = entries.drop_last();
    let kept = without_descendants(entries, path);
    let kept_front = without_descendants(front, path);
    if i == entries.len() - 1 {
        assert(kept[kept.len() - 1] == entries[i]);
    } else {
        lemma_kept_member(front, path, i);
        let k = choose|k: int| 0 <= k < kept_front.len() && #[trigger] kept_front[k] == front[i];
        assert(kept[k] == entries[i]);
    }
}

/// A module path.
#[derive(Clone, Debug, PartialEq, Eq)]
pub struct Module(pub Vec<char>);

/// The module filter.
#[derive(Debug, PartialEq, Eq)]
pub struct Modules(pub Vec<Module>);

fn starts_with(text: &Vec<char>, prefix: &Vec<char>) -> (r: bool)
    ensures
        r == (prefix.len() <= text.len() && text@.subrange(0, prefix.len() as int) == prefix@),
{
    if prefix.len() > text.len() {
        return false;
    }
    let mut i: usize = 0;
    while i < prefix.len()
        invariant
            i <= prefix.len() <= text.len(),
            forall|j: int| 0 <= j < i ==> text@[j] == prefix@[j],
        decreases prefix.len() - i,
    {
        if text[i] != prefix[i] {
            assert(text@.subrange(0, prefix.len() as int)[i as int] != prefix@[i as int]);
            return false;
        }
        i += 1;
    }
    assert(text@.subrange(0, prefix.len() as int) =~= prefix@);
    true
}

impl View for Module {
    type V = Seq<char>;

    open spec fn view(&self) -> Seq<char> {
        self.0@
    }
}

impl Module {
    /// The module whose path is `path`.
    pub fn new(path: &str) -> (m: Module)
        ensures
            m@ == path@,
    {
        Module(to_chars(path))
    }

    /// A copy of this module.
    pub fn duplicate(&self) -> (m: Module)
        ensures
            m@ == self@,
    {
        let mut chars: Vec<char> = Vec::new();
        let mut i: usize = 0;
        while i < self.0.len()
            invariant
                i <= self.0.len(),
                chars@ == self.0@.take(i as int),
            decreases self.0.len() - i,
        {
            chars.push(self.0[i]);
            i += 1;
            assert(chars@ =~= self.0@.take(i as int));
        }
        assert(self.0@.take(self.0@.len() as int) =~= self.0@);
        Module(chars)
    }

    /// The path as a string.
    pub fn to_string(&self) -> (s: String)
        ensures
            s@ == self@,
    {
        let s = range_to_string(&self.0, 0, self.0.len());
        assert(self.0@.subrange(0, self.0@.len() as int) =~= self.0@);
        s
    }

    /// Whether this module is `other` or one that `other` lies beneath.
    pub fn is_parent(&self, other: &Module) -> (r: bool)
        ensures
            r == is_ancestor(self@, other@),
    {
        let parent = &self.0;
        let child = &other.0;
        if !starts_with(child, parent) {
            assert(parent@ != child@) by {
                if parent@ == child@ {
                    assert(child@.subrange(0, parent@.len() as int) =~= parent@);
                }
            }
            return false;
        }
        if child.len() == parent.len() {
            assert(child@.subrange(0, parent@.len() as int) =~= child@);
            return true;
        }
        child.len() - parent.len() >= 2 && child[parent.len()] == ':' && child[parent.len() + 1]
            == ':'
    }

    /// Whether this module is `other` or lies beneath it.
    pub fn is_child(&self, other: &Module) -> (r: bool)
        ensures
            r == is_ancestor(other@, self@),
    {
        other.is_parent(self)
    }
}

/// The paths of a run of modules.
pub open spec fn paths(v: Seq<Module>) -> Seq<Seq<char>> {
    Seq::new(v.len(), |i: int| v[i]@)
}

impl View for Modules {
    type V = Seq<Seq<char>>;

    open spec fn view(&self) -> Seq<Seq<char>> {
        paths(self.0@)
    }
}

impl Modules {
    /// The empty filter, which lets every module through.
    pub fn new() -> (m: Modules)
        ensures
            m@ == Seq::<Seq<char>>::empty(),
            minimal(m@),
    {
        let m = Modules(Vec::new());
        assert(m@ =~= Seq::<Seq<char>>::empty());
        m
    }

    /// Whether some entry covers `module`.
    fn covers(&self, module: &Module) -> (r: bool)
        ensures
            r == covered(self@, module@),
    {
        let mut i: usize = 0;
        while i < self.0.len()
            invariant
                i <= self.0.len(),
                forall|j: int| 0 <= j < i ==> !is_ancestor(#[trigger] self@[j], module@),
            decreases self.0.len() - i,
        {
            if self.0[i].is_parent(module) {
                assert(is_ancestor(self@[i as int], module@));
                return true;
            }
            i += 1;
        }
        false
    }

    /// Inserts `module`, keeping the filter minimal: nothing changes when an
    /// entry already covers it; otherwise the entries beneath it are dropped
    /// and it is added.
    pub fn append(self, module: Module) -> (m: Modules)
        ensures
            m@ == inserted(self@, module@),
            minimal(self@) ==> minimal(m@),
    {
        proof {
            if minimal(self@) {
                lemma_insert_keeps_minimal(self@, module@);
            }
        }
        if self.covers(&module) {
            return self;
        }
        let ghost before = self@;
        let old_entries = self.0;
        let mut kept: Vec<Module> = Vec::new();
        let n: usize = old_entries.len();
        let mut i: usize = 0;
        assert(paths(old_entries@) =~= before);
        assert(before.take(0) =~= Seq::empty());
        assert(paths(kept@) =~= Seq::empty());
        while i < n
            invariant
                i <= n,
                n == old_entries.len(),
                paths(old_entries@) == before,
                paths(kept@) == without_descendants(before.take(i as int), module@),
            decreases n - i,
        {
            proof {
                let upto = before.take(i + 1);
                assert(upto.drop_last() =~= before.take(i as int));
                assert(upto.last() == old_entries@[i as int]@);
            }
            if !old_entries[i].is_child(&module) {
                let entry = old_entries[i].duplicate();
                proof {
                    assert(paths(kept@.push(entry)) =~= paths(kept@).push(entry@));
                }
                kept.push(entry);
            }
            i += 1;
        }
        assert(before.take(n as int) =~= before);
        proof {
            assert(paths(kept@.push(module)) =~= paths(kept@).push(module@));
        }
        kept.push(module);
        Modules(kept)
    }

    /// Whether the filter lets `module` through: always when the filter is
    /// empty, else when an entry is `module` or an ancestor of it.
    pub fn contains(&self, module: &str) -> (r: bool)
        ensures
            r == allows(self@, module@),
    {
        if self.0.len() == 0 {
            return true;
        }
        let m = Module::new(module);
        self.covers(&m)
    }
}

/// The filter that a list of module paths makes: the paths inserted one by
/// one, in their order, into the empty filter.
pub open spec fn filter_of(list: Seq<Seq<char>>) -> Seq<Seq<char>>
    decreases list.len(),
{
    if list.len() == 0 {
        Seq::empty()
    } else {
        inserted(filter_of(list.drop_last()), list.last())
    }
}

/// The filter that a list of module paths makes is minimal.
pub proof fn lemma_filter_of_minimal(list: Seq<Seq<char>>)
    ensures
        minimal(filter_of(list)),
    decreases list.len(),
{
    if list.len() > 0 {
        lemma_filter_of_minimal(list.drop_last());
        lemma_insert_keeps_minimal(filter_of(list.drop_last()), list.last());
    }
}

/// The texts of a run of strings.
pub open spec fn texts(v: Seq<String>) -> Seq<Seq<char>> {
    Seq::new(v.len(), |i: int| v[i]@)
}

impl Modules {
    /// The filter that a list of module paths makes.
    pub fn from_list(list: &Vec<String>) -> (m: Modules)
        ensures
            m@ == filter_of(texts(list@)),
            minimal(m@),
    {
        let mut m = Modules::new();
        let mut i: usize = 0;
        assert(texts(list@).take(0) =~= Seq::empty());
        while i < list.len()
            invariant
                i <= list.len(),
                m@ == filter_of(texts(list@).take(i as int)),
            decreases list.len() - i,
        {
            proof {
                let upto = texts(list@).take(i + 1);
                assert(upto.drop_last() =~= texts(list@).take(i as int));
                assert(upto.last() == list@[i as int]@);
            }
            m = m.append(Module::new(list[i].as_str()));
            i += 1;
        }
        assert(texts(list@).take(list@.len() as int) =~= texts(list@));
        proof {
            lemma_filter_of_minimal(texts(list@));
        }
        m
    }
}

} // verus!
