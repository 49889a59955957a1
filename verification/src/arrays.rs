//! The array variable store: each array name is bound to one access flag
//! and a collection of entries addressed either by numeric position or by a
//! string key. The two kinds of subscript are kept apart: a numeric-looking
//! string key is never read as a position.
//!
//! The store is modelled as a map from array name to an [`ArrayView`]:
//! the access flag together with a map from subscript to value.

use vstd::prelude::*;
use vstd::hash_map::HashMapWithView;
use vstd::hash_map::StringHashMap;
use vstd::string::StringExecFns;
use crate::error::ShellError;
use crate::variables::{Access, Value, ValueView, dup_value};

verus! {

broadcast use vstd::std_specs::hash::group_hash_axioms, vstd::string::group_string_axioms;

/// An array subscript: a non-negative position, or a string key.
#[derive(Clone, Debug, Eq, Hash, PartialEq)]
pub enum Index {
    /// A position in an indexed array.
    I(usize),
    /// A key in an associative array.
    A(String),
}

/// The mathematical shape of an [`Index`]: a string key becomes its
/// characters.
pub enum IndexView {
    I(usize),
    A(Seq<char>),
}

impl View for Index {
    type V = IndexView;

    open spec fn view(&self) -> IndexView {
        match self {
            Index::I(p) => IndexView::I(*p),
            Index::A(s) => IndexView::A(s@),
        }
    }
}

/// One array binding: the access flag, and the entries split by subscript
/// kind so that positions and string keys can never collide.
struct ArrayVar {
    access: Access,
    indexed: HashMapWithView<usize, Value>,
    named: StringHashMap<Value>,
}

/// The mathematical shape of one array binding.
#[verifier::ext_equal]
pub struct ArrayView {
    pub access: Access,
    pub entries: Map<IndexView, ValueView>,
}

/// The combined entry map of one binding: positions and string keys side by
/// side.
spec fn slot_entries(av: ArrayVar) -> Map<IndexView, ValueView> {
    Map::new(
        |i: IndexView|
            match i {
                IndexView::I(p) => av.indexed@.contains_key(p),
                IndexView::A(s) => av.named@.contains_key(s),
            },
        |i: IndexView|
            match i {
                IndexView::I(p) => av.indexed@[p]@,
                IndexView::A(s) => av.named@[s]@,
            },
    )
}

spec fn slot_view(av: ArrayVar) -> ArrayView {
    ArrayView { access: av.access, entries: slot_entries(av) }
}

/// The array variable store. Array names resolve through `ids` to a slot
/// holding the binding; slots are never removed, because arrays themselves
/// are never unbound (only single entries are).
pub struct Array {
    ids: StringHashMap<usize>,
    slots: Vec<ArrayVar>,
}

impl Array {
    #[verifier::type_invariant]
    spec fn wf(self) -> bool {
        &&& forall|n: Seq<char>| #[trigger]
            self.ids@.contains_key(n) ==> self.ids@[n] < self.slots@.len()
        &&& forall|n1: Seq<char>, n2: Seq<char>|
            self.ids@.contains_key(n1) && self.ids@.contains_key(n2) && n1 != n2
                ==> self.ids@[n1] != self.ids@[n2]
    }
}

impl View for Array {
    type V = Map<Seq<char>, ArrayView>;

    closed spec fn view(&self) -> Map<Seq<char>, ArrayView> {
        Map::new(
            |n: Seq<char>| self.ids@.contains_key(n),
            |n: Seq<char>| slot_view(self.slots@[self.ids@[n] as int]),
        )
    }
}

/// What `Array::get` yields from the model.
pub open spec fn arr_get(
    m: Map<Seq<char>, ArrayView>,
    n: Seq<char>,
    i: IndexView,
) -> Option<ValueView> {
    if m.contains_key(n) && m[n].entries.contains_key(i) {
        Some(m[n].entries[i])
    } else {
        None
    }
}

/// The effect of `Array::set` on the model: an unbound name is created
/// read-write with the single entry, a read-write array takes the entry,
/// and a read-only array is left untouched.
pub open spec fn arr_set(
    m: Map<Seq<char>, ArrayView>,
    n: Seq<char>,
    i: IndexView,
    v: ValueView,
) -> Map<Seq<char>, ArrayView> {
    if !m.contains_key(n) {
        m.insert(
            n,
            ArrayView {
                access: Access::ReadWrite,
                entries: Map::<IndexView, ValueView>::empty().insert(i, v),
            },
        )
    } else if m[n].access == Access::ReadOnly {
        m
    } else {
        m.insert(n, ArrayView { access: m[n].access, entries: m[n].entries.insert(i, v) })
    }
}

/// What `Array::set` reports: an error exactly where the array exists and
/// is read-only.
pub open spec fn arr_set_result(m: Map<Seq<char>, ArrayView>, n: Seq<char>) -> Result<
    (),
    ShellError,
> {
    if m.contains_key(n) && m[n].access == Access::ReadOnly {
        Err(ShellError::ReadOnlyViolation)
    } else {
        Ok(())
    }
}

/// The effect of `Array::set_access` on the model: an unbound name is
/// created as an empty array with the flag, an existing array keeps its
/// entries and takes the flag.
pub open spec fn arr_set_access(
    m: Map<Seq<char>, ArrayView>,
    n: Seq<char>,
    a: Access,
) -> Map<Seq<char>, ArrayView> {
    if m.contains_key(n) {
        m.insert(n, ArrayView { access: a, entries: m[n].entries })
    } else {
        m.insert(n, ArrayView { access: a, entries: Map::<IndexView, ValueView>::empty() })
    }
}

/// The effect of `Array::unset` on the model: the single entry is removed
/// where the array exists and is read-write; otherwise nothing changes.
pub open spec fn arr_unset(
    m: Map<Seq<char>, ArrayView>,
    n: Seq<char>,
    i: IndexView,
) -> Map<Seq<char>, ArrayView> {
    if m.contains_key(n) && m[n].access == Access::ReadWrite {
        m.insert(n, ArrayView { access: m[n].access, entries: m[n].entries.remove(i) })
    } else {
        m
    }
}

impl Array {
    /// An empty array store.
    pub fn new() -> (a: Array)
        ensures
            a@ == Map::<Seq<char>, ArrayView>::empty(),
    {
        let a = Array { ids: StringHashMap::new(), slots: Vec::new() };
        proof {
            assert(a@ =~= Map::<Seq<char>, ArrayView>::empty());
        }
        a
    }

    /// Look a single entry up by array name and subscript; it comes back as
    /// a copy. An unbound name and an absent subscript both yield nothing;
    /// the two misses are deliberately not told apart.
    pub fn get(&self, key: &str, index: &Index) -> (r: Option<Value>)
        ensures
            match r {
                Some(v) => arr_get(self@, key@, index@) == Some(v@),
                None => arr_get(self@, key@, index@) is None,
            },
    {
        proof {
            use_type_invariant(&*self);
        }
        match self.ids.get(key) {
            Some(slot) => {
                let av = &self.slots[*slot];
                match index {
                    Index::I(p) => match av.indexed.get(p) {
                        Some(v) => Some(dup_value(v)),
                        None => None,
                    },
                    Index::A(s) => match av.named.get(s.as_str()) {
                        Some(v) => Some(dup_value(v)),
                        None => None,
                    },
                }
            },
            None => None,
        }
    }

    /// Look only the access flag up by array name.
    pub fn get_access(&mut self, key: &str) -> (r: Option<Access>)
        ensures
            *final(self) == *old(self),
            match r {
                Some(a) => old(self)@.contains_key(key@) && a == old(self)@[key@].access,
                None => !old(self)@.contains_key(key@),
            },
    {
        proof {
            use_type_invariant(&*self);
        }
        match self.ids.get(key) {
            Some(slot) => Some(self.slots[*slot].access),
            None => None,
        }
    }

    /// Write one entry. An unbound name is created read-write; a read-only
    /// array is left unchanged and the call reports `ReadOnlyViolation`.
    pub fn set(&mut self, key: &str, index: Index, v: Value) -> (r: Result<(), ShellError>)
        ensures
            final(self)@ == arr_set(old(self)@, key@, index@, v@),
            r == arr_set_result(old(self)@, key@),
    {
        proof {
            use_type_invariant(&*self);
        }
        let mut tmp = Array { ids: StringHashMap::new(), slots: Vec::new() };
        core::mem::swap(&mut tmp, self);
        let Array { mut ids, mut slots } = tmp;
        let mut result: Result<(), ShellError> = Ok(());
        match ids.get(key) {
            Some(slot_ref) => {
                let slot = *slot_ref;
                let is_read_only = match slots[slot].access {
                    Access::ReadOnly => true,
                    Access::ReadWrite => false,
                };
                if is_read_only {
                    result = Err(ShellError::ReadOnlyViolation);
                } else {
                    match index {
                        Index::I(p) => {
                            slots[slot].indexed.insert(p, v);
                        },
                        Index::A(s) => {
                            slots[slot].named.insert(s, v);
                        },
                    }
                }
            },
            None => {
                let mut av = ArrayVar {
                    access: Access::ReadWrite,
                    indexed: HashMapWithView::new(),
                    named: StringHashMap::new(),
                };
                match index {
                    Index::I(p) => {
                        av.indexed.insert(p, v);
                    },
                    Index::A(s) => {
                        av.named.insert(s, v);
                    },
                }
                let slot = slots.len();
                slots.push(av);
                ids.insert(String::from_str(key), slot);
            },
        }
        *self = Array { ids, slots };
        proof {
            assert(self@ =~~= arr_set(old(self)@, key@, index@, v@));
        }
        result
    }

    /// Give an array an access flag. An unbound name is created as an empty
    /// array; an existing array keeps its entries, whatever its current
    /// flag.
    pub fn set_access(&mut self, key: &str, a: Access)
        ensures
            final(self)@ == arr_set_access(old(self)@, key@, a),
    {
        proof {
            use_type_invariant(&*self);
        }
        let mut tmp = Array { ids: StringHashMap::new(), slots: Vec::new() };
        core::mem::swap(&mut tmp, self);
        let Array { mut ids, mut slots } = tmp;
        match ids.get(key) {
            Some(slot_ref) => {
                let slot = *slot_ref;
                slots[slot].access = a;
            },
            None => {
                let av = ArrayVar {
                    access: a,
                    indexed: HashMapWithView::new(),
                    named: StringHashMap::new(),
                };
                let slot = slots.len();
                slots.push(av);
                ids.insert(String::from_str(key), slot);
            },
        }
        *self = Array { ids, slots };
        proof {
            assert(self@ =~~= arr_set_access(old(self)@, key@, a));
        }
    }

    /// Remove one entry, where the array exists and is read-write; a
    /// read-only array and an unbound name are left untouched.
    pub fn unset(&mut self, key: &str, index: &Index)
        ensures
            final(self)@ == arr_unset(old(self)@, key@, index@),
    {
        proof {
            use_type_invariant(&*self);
        }
        let mut tmp = Array { ids: StringHashMap::new(), slots: Vec::new() };
        core::mem::swap(&mut tmp, self);
        let Array { ids, mut slots } = tmp;
        match ids.get(key) {
            Some(slot_ref) => {
                let slot = *slot_ref;
                let writable = match slots[slot].access {
                    Access::ReadOnly => false,
                    Access::ReadWrite => true,
                };
                if writable {
                    match index {
                        Index::I(p) => {
                            let _ = slots[slot].indexed.remove(p);
                        },
                        Index::A(s) => {
                            slots[slot].named.remove(s.as_str());
                        },
                    }
                }
            },
            None => {},
        }
        *self = Array { ids, slots };
        proof {
            assert(self@ =~~= arr_unset(old(self)@, key@, index@));
        }
    }
}


/// A read-write text value entry, as seeded.
pub open spec fn text_val(s: Seq<char>) -> ValueView {
    ValueView::S(s)
}

/// The entries of the seeded RUSH_ALIASES array: the default alias table
/// mirrored as an associative array.
pub open spec fn default_rush_aliases() -> Map<IndexView, ValueView> {
    Map::<IndexView, ValueView>::empty()
        .insert(IndexView::A("egrep"@), text_val("egrep --color=auto"@))
        .insert(IndexView::A("fgrep"@), text_val("fgrep --color=auto"@))
        .insert(IndexView::A("grep"@), text_val("grep --color=auto"@))
        .insert(IndexView::A("l."@), text_val("ls -d .* --color=auto"@))
        .insert(IndexView::A("ll"@), text_val("ls -l --color=auto"@))
        .insert(IndexView::A("ls"@), text_val("ls --color=auto"@))
        .insert(
            IndexView::A("which"@),
            text_val("alias | /usr/bin/which --tty-only --read-alias --show-dot --show-tilde"@),
        )
        .insert(IndexView::A("xzegrep"@), text_val("xzegrep --color=auto"@))
        .insert(IndexView::A("xzfgrep"@), text_val("xzfgrep --color=auto"@))
        .insert(IndexView::A("xzgrep"@), text_val("xzgrep --color=auto"@))
        .insert(IndexView::A("zegrep"@), text_val("zegrep --color=auto"@))
        .insert(IndexView::A("zfgrep"@), text_val("zfgrep --color=auto"@))
        .insert(IndexView::A("zgrep"@), text_val("zgrep --color=auto"@))
}

/// The entries of the seeded RUSH_VERSINFO array: major, minor, patch and
/// build numbers, the release tag, and the machine-type string.
pub open spec fn default_rush_versinfo() -> Map<IndexView, ValueView> {
    Map::<IndexView, ValueView>::empty()
        .insert(IndexView::I(0), ValueView::I(0))
        .insert(IndexView::I(1), ValueView::I(0))
        .insert(IndexView::I(2), ValueView::I(0))
        .insert(IndexView::I(3), ValueView::I(0))
        .insert(IndexView::I(4), text_val("alpha0"@))
        .insert(IndexView::I(5), text_val("x86_64-redhat-linux-gnu"@))
}

/// The table that `init_shell_array_vars` seeds.
pub open spec fn default_shell_array_vars() -> Map<Seq<char>, ArrayView> {
    Map::<Seq<char>, ArrayView>::empty()
        .insert(
            "RUSH_ALIASES"@,
            ArrayView { access: Access::ReadWrite, entries: default_rush_aliases() },
        )
        .insert(
            "RUSH_VERSINFO"@,
            ArrayView { access: Access::ReadWrite, entries: default_rush_versinfo() },
        )
}

impl Array {
    /// The default shell array variables.
    pub fn init_shell_array_vars() -> (a: Array)
        ensures
            a@ == default_shell_array_vars(),
    {
        let mut a = Array::new();
        let _ = a.set("RUSH_ALIASES", Index::A(String::from_str("egrep")), Value::S(String::from_str("egrep --color=auto")));
        let _ = a.set("RUSH_ALIASES", Index::A(String::from_str("fgrep")), Value::S(String::from_str("fgrep --color=auto")));
        let _ = a.set("RUSH_ALIASES", Index::A(String::from_str("grep")), Value::S(String::from_str("grep --color=auto")));
        let _ = a.set("RUSH_ALIASES", Index::A(String::from_str("l.")), Value::S(String::from_str("ls -d .* --color=auto")));
        let _ = a.set("RUSH_ALIASES", Index::A(String::from_str("ll")), Value::S(String::from_str("ls -l --color=auto")));
        let _ = a.set("RUSH_ALIASES", Index::A(String::from_str("ls")), Value::S(String::from_str("ls --color=auto")));
        let _ = a.set(
            "RUSH_ALIASES",
            Index::A(String::from_str("which")),
            Value::S(String::from_str("alias | /usr/bin/which --tty-only --read-alias --show-dot --show-tilde")),
        );
        let _ = a.set("RUSH_ALIASES", Index::A(String::from_str("xzegrep")), Value::S(String::from_str("xzegrep --color=auto")));
        let _ = a.set("RUSH_ALIASES", Index::A(String::from_str("xzfgrep")), Value::S(String::from_str("xzfgrep --color=auto")));
        let _ = a.set("RUSH_ALIASES", Index::A(String::from_str("xzgrep")), Value::S(String::from_str("xzgrep --color=auto")));
        let _ = a.set("RUSH_ALIASES", Index::A(String::from_str("zegrep")), Value::S(String::from_str("zegrep --color=auto")));
        let _ = a.set("RUSH_ALIASES", Index::A(String::from_str("zfgrep")), Value::S(String::from_str("zfgrep --color=auto")));
        let _ = a.set("RUSH_ALIASES", Index::A(String::from_str("zgrep")), Value::S(String::from_str("zgrep --color=auto")));
        let _ = a.set("RUSH_VERSINFO", Index::I(0), Value::I(0));
        let _ = a.set("RUSH_VERSINFO", Index::I(1), Value::I(0));
        let _ = a.set("RUSH_VERSINFO", Index::I(2), Value::I(0));
        let _ = a.set("RUSH_VERSINFO", Index::I(3), Value::I(0));
        let _ = a.set("RUSH_VERSINFO", Index::I(4), Value::S(String::from_str("alpha0")));
        let _ = a.set("RUSH_VERSINFO", Index::I(5), Value::S(String::from_str("x86_64-redhat-linux-gnu")));
        proof {
            assert("RUSH_ALIASES"@ != "RUSH_VERSINFO"@) by {
                reveal_strlit("RUSH_ALIASES");
                reveal_strlit("RUSH_VERSINFO");
                assert("RUSH_ALIASES"@.len() == 12);
                assert("RUSH_VERSINFO"@.len() == 13);
            }
            assert(a@ =~~= default_shell_array_vars());
        }
        a
    }
}

/// Round-trip and miss law for arrays: writing an entry through `set` into
/// an array that is unbound or read-write makes exactly that subscript read
/// back the value, while every other subscript of the array reads as it did
/// before (an unbound array yields a miss there). In particular, writing
/// under a string key never makes a numeric position appear.
pub proof fn lemma_array_set_get(
    m: Map<Seq<char>, ArrayView>,
    n: Seq<char>,
    i: IndexView,
    v: ValueView,
)
    requires
        !m.contains_key(n) || m[n].access == Access::ReadWrite,
    ensures
        arr_set_result(m, n) == Ok::<(), ShellError>(()),
        arr_get(arr_set(m, n, i, v), n, i) == Some(v),
        forall|j: IndexView|
            j != i ==> arr_get(arr_set(m, n, i, v), n, j) == (if m.contains_key(n) {
                arr_get(m, n, j)
            } else {
                None
            }),
{
}

/// Read-only enforcement law for arrays: `set` against a read-only array
/// reports `ReadOnlyViolation` and leaves the whole store unchanged.
pub proof fn lemma_array_read_only_set_rejected(
    m: Map<Seq<char>, ArrayView>,
    n: Seq<char>,
    i: IndexView,
    v: ValueView,
)
    requires
        m.contains_key(n),
        m[n].access == Access::ReadOnly,
    ensures
        arr_set(m, n, i, v) == m,
        arr_set_result(m, n) == Err::<(), ShellError>(ShellError::ReadOnlyViolation),
{
}

} // verus!
