//! Process-wide guest factory registry: Python targets registered under a
//! `(kind, key)` pair, plus tool factories that also carry a descriptor.

use vstd::prelude::*;
use vstd::string::StringExecFns;

verus! {

/// A registered target under `(kind, key)`.
pub struct GuestEntry<T> {
    pub kind: String,
    pub key: String,
    pub target: T,
}

/// A registered tool: its descriptor and its target.
pub struct ToolEntry<D, T> {
    pub key: String,
    pub descriptor: D,
    pub target: T,
}

/// What a registration hands back to the caller.
pub struct PyGuestHandle {
    pub kind: String,
    pub key: String,
}

/// Lookup failures.
pub enum GuestError {
    /// No target under `(kind, key)`.
    NotRegistered { kind: String, key: String },
    /// No tool factory with a descriptor under `key`.
    NoTool { key: String },
}

/// Both registries. Entries are unique by `(kind, key)` and by tool key.
pub struct GuestRegistry<D, T> {
    guests: Vec<GuestEntry<T>>,
    tools: Vec<ToolEntry<D, T>>,
}

/// Mathematical model of the registry.
pub struct RegistryModel<D, T> {
    /// Targets by `(kind, key)`.
    pub guests: Map<(Seq<char>, Seq<char>), T>,
    /// Tool factories registered with a descriptor, by key.
    pub tools: Map<Seq<char>, (D, T)>,
}

pub open spec fn guest_keys<T>(s: Seq<GuestEntry<T>>) -> Seq<(Seq<char>, Seq<char>)> {
    s.map_values(|e: GuestEntry<T>| (e.kind@, e.key@))
}

pub open spec fn tool_keys<D, T>(s: Seq<ToolEntry<D, T>>) -> Seq<Seq<char>> {
    s.map_values(|e: ToolEntry<D, T>| e.key@)
}

/// The text `"tool"`, the kind under which tool factories are registered.
pub open spec fn tool_kind() -> Seq<char> {
    seq!['t', 'o', 'o', 'l']
}

pub open spec fn guest_map<T>(s: Seq<GuestEntry<T>>) -> Map<(Seq<char>, Seq<char>), T> {
    Map::new(
        |k: (Seq<char>, Seq<char>)| guest_keys(s).contains(k),
        |k: (Seq<char>, Seq<char>)| s[choose|i: int| 0 <= i < s.len() && guest_keys(s)[i] == k].target,
    )
}

pub open spec fn tool_map<D, T>(s: Seq<ToolEntry<D, T>>) -> Map<Seq<char>, (D, T)> {
    Map::new(
        |k: Seq<char>| tool_keys(s).contains(k),
        |k: Seq<char>|
            {
                let e = s[choose|i: int| 0 <= i < s.len() && tool_keys(s)[i] == k];
                (e.descriptor, e.target)
            },
    )
}

proof fn lemma_guest_map_at<T>(s: Seq<GuestEntry<T>>, i: int)
    requires
        guest_keys(s).no_duplicates(),
        0 <= i < s.len(),
    ensures
        guest_map(s).contains_key(guest_keys(s)[i]),
        guest_map(s)[guest_keys(s)[i]] == s[i].target,
{
    let k = guest_keys(s)[i];
    assert(guest_keys(s).contains(k));
    let c = choose|c: int| 0 <= c < s.len() && guest_keys(s)[c] == k;
    assert(c == i);
}

proof fn lemma_tool_map_at<D, T>(s: Seq<ToolEntry<D, T>>, i: int)
    requires
        tool_keys(s).no_duplicates(),
        0 <= i < s.len(),
    ensures
        tool_map(s).contains_key(tool_keys(s)[i]),
        tool_map(s)[tool_keys(s)[i]] == (s[i].descriptor, s[i].target),
{
    let k = tool_keys(s)[i];
    assert(tool_keys(s).contains(k));
    let c = choose|c: int| 0 <= c < s.len() && tool_keys(s)[c] == k;
    assert(c == i);
}

impl<D, T> View for GuestRegistry<D, T> {
    type V = RegistryModel<D, T>;

    closed spec fn view(&self) -> RegistryModel<D, T> {
        RegistryModel { guests: guest_map(self.guests@), tools: tool_map(self.tools@) }
    }
}

impl<D, T> GuestRegistry<D, T> {
    /// The registry's invariant: no two entries share a key.
    pub closed spec fn wf(self) -> bool {
        &&& guest_keys(self.guests@).no_duplicates()
        &&& tool_keys(self.tools@).no_duplicates()
    }

    /// An empty registry.
    pub fn new() -> (r: Self)
        ensures
            r.wf(),
            r@.guests == Map::<(Seq<char>, Seq<char>), T>::empty(),
            r@.tools == Map::<Seq<char>, (D, T)>::empty(),
    {
        let r = GuestRegistry { guests: Vec::new(), tools: Vec::new() };
        assert(r@.guests =~= Map::<(Seq<char>, Seq<char>), T>::empty());
        assert(r@.tools =~= Map::<Seq<char>, (D, T)>::empty());
        r
    }

    fn find_guest(&self, kind: &str, key: &str) -> (r: Option<usize>)
        ensures
            match r {
                Some(i) => i < self.guests@.len() && guest_keys(self.guests@)[i as int] == (
                    kind@,
                    key@,
                ),
                None => !guest_keys(self.guests@).contains((kind@, key@)),
            },
    {
        let mut i: usize = 0;
        while i < self.guests.len()
            invariant
                i <= self.guests@.len(),
                forall|j: int| 0 <= j < i ==> guest_keys(self.guests@)[j] != (kind@, key@),
            decreases self.guests.len() - i,
        {
            if crate::text::str_eq(self.guests[i].kind.as_str(), kind) && crate::text::str_eq(
                self.guests[i].key.as_str(),
                key,
            ) {
                return Some(i);
            }
            i = i + 1;
        }
        None
    }

    fn find_tool(&self, key: &str) -> (r: Option<usize>)
        ensures
            match r {
                Some(i) => i < self.tools@.len() && tool_keys(self.tools@)[i as int] == key@,
                None => !tool_keys(self.tools@).contains(key@),
            },
    {
        let mut i: usize = 0;
        while i < self.tools.len()
            invariant
                i <= self.tools@.len(),
                forall|j: int| 0 <= j < i ==> tool_keys(self.tools@)[j] != key@,
            decreases self.tools.len() - i,
        {
            if crate::text::str_eq(self.tools[i].key.as_str(), key) {
                return Some(i);
            }
            i = i + 1;
        }
        None
    }

    fn put_guest(&mut self, kind: String, key: String, target: T)
        requires
            old(self).wf(),
        ensures
            final(self).wf(),
            final(self)@.guests == old(self)@.guests.insert((kind@, key@), target),
            final(self)@.tools == old(self)@.tools,
    {
        let ghost k = (kind@, key@);
        let ghost old_s = self.guests@;
        let found = self.find_guest(kind.as_str(), key.as_str());
        match found {
            Some(i) => {
                self.guests.set(i, GuestEntry { kind, key, target });
                proof {
                    let s = self.guests@;
                    assert(guest_keys(s) =~= guest_keys(old_s));
                    lemma_guest_map_at(s, i as int);
                    assert forall|k2: (Seq<char>, Seq<char>)| #[trigger]
                        guest_map(s).contains_key(k2) && k2 != k implies guest_map(s)[k2]
                        == guest_map(old_s)[k2] by {
                        let j = choose|j: int| 0 <= j < s.len() && guest_keys(s)[j] == k2;
                        lemma_guest_map_at(s, j);
                        lemma_guest_map_at(old_s, j);
                    }
                    assert(guest_map(s) =~= guest_map(old_s).insert(k, target));
                }
            },
            None => {
                self.guests.push(GuestEntry { kind, key, target });
                proof {
                    let s = self.guests@;
                    assert(guest_keys(s) =~= guest_keys(old_s).push(k));
                    assert forall|a: int, b: int|
                        0 <= a < guest_keys(s).len() && 0 <= b < guest_keys(s).len() && a != b
                        implies guest_keys(s)[a] != guest_keys(s)[b] by {
                        if a == old_s.len() as int {
                            assert(guest_keys(old_s)[b] == guest_keys(s)[b]);
                            assert(guest_keys(old_s).contains(guest_keys(old_s)[b]));
                        } else if b == old_s.len() as int {
                            assert(guest_keys(old_s)[a] == guest_keys(s)[a]);
                            assert(guest_keys(old_s).contains(guest_keys(old_s)[a]));
                        } else {
                            assert(guest_keys(old_s)[a] == guest_keys(s)[a]);
                            assert(guest_keys(old_s)[b] == guest_keys(s)[b]);
                        }
                    }
                    assert forall|k2: (Seq<char>, Seq<char>)|
                        guest_keys(s).contains(k2) <==> (guest_keys(old_s).contains(k2) || k2
                            == k) by {
                        if guest_keys(old_s).contains(k2) {
                            let j = choose|j: int|
                                0 <= j < guest_keys(old_s).len() && guest_keys(old_s)[j] == k2;
                            assert(guest_keys(s)[j] == k2);
                        }
                        if k2 == k {
                            assert(guest_keys(s)[old_s.len() as int] == k2);
                        }
                        if guest_keys(s).contains(k2) && k2 != k {
                            let j = choose|j: int|
                                0 <= j < guest_keys(s).len() && guest_keys(s)[j] == k2;
                            assert(j < old_s.len());
                            assert(guest_keys(old_s)[j] == k2);
                        }
                    }
                    lemma_guest_map_at(s, old_s.len() as int);
                    assert forall|k2: (Seq<char>, Seq<char>)| #[trigger]
                        guest_map(s).contains_key(k2) && k2 != k implies guest_map(s)[k2]
                        == guest_map(old_s)[k2] by {
                        let j = choose|j: int| 0 <= j < s.len() && guest_keys(s)[j] == k2;
                        lemma_guest_map_at(s, j);
                        lemma_guest_map_at(old_s, j);
                    }
                    assert(guest_map(s) =~= guest_map(old_s).insert(k, target));
                }
            },
        }
    }

    /// Registers `target` under `(kind, key)`, replacing any earlier target
    /// under that pair.
    pub fn register_kind(&mut self, kind: &str, key: String, target: T) -> (h: PyGuestHandle)
        requires
            old(self).wf(),
        ensures
            final(self).wf(),
            final(self)@.guests == old(self)@.guests.insert((kind@, key@), target),
            final(self)@.tools == old(self)@.tools,
            h.kind@ == kind@,
            h.key@ == key@,
    {
        let k1 = String::from_str(kind);
        let k2 = String::from_str(kind);
        let key2 = key.clone();
        self.put_guest(k1, key, target);
        PyGuestHandle { kind: k2, key: key2 }
    }

    /// Registers a guest strategy of `kind` under the registry kind
    /// `strategy:<kind>`.
    pub fn register_strategy(&mut self, kind: &str, key: String, target: T) -> (h: PyGuestHandle)
        requires
            old(self).wf(),
        ensures
            final(self).wf(),
            final(self)@.guests == old(self)@.guests.insert(("strategy:"@ + kind@, key@), target),
            final(self)@.tools == old(self)@.tools,
            h.kind@ == "strategy:"@ + kind@,
            h.key@ == key@,
    {
        let mut full = String::from_str("strategy:");
        full.append(kind);
        self.register_kind(full.as_str(), key, target)
    }

    /// Looks up the target registered under `(kind, key)`.
    pub fn lookup<'a>(&'a self, kind: &str, key: &str) -> (r: Option<&'a T>)
        requires
            self.wf(),
        ensures
            match r {
                Some(t) => self@.guests.contains_key((kind@, key@)) && self@.guests[(kind@, key@)]
                    == *t,
                None => !self@.guests.contains_key((kind@, key@)),
            },
    {
        match self.find_guest(kind, key) {
            Some(i) => {
                proof {
                    lemma_guest_map_at(self.guests@, i as int);
                }
                Some(&self.guests[i].target)
            },
            None => None,
        }
    }

    /// Looks up the target registered under `(kind, key)`, or says which pair
    /// is missing.
    pub fn must_lookup<'a>(&'a self, kind: &str, key: &str) -> (r: Result<&'a T, GuestError>)
        requires
            self.wf(),
        ensures
            match r {
                Ok(t) => self@.guests.contains_key((kind@, key@)) && self@.guests[(kind@, key@)]
                    == *t,
                Err(GuestError::NotRegistered { kind: k, key: y }) => !self@.guests.contains_key(
                    (kind@, key@),
                ) && k@ == kind@ && y@ == key@,
                Err(_) => false,
            },
    {
        match self.lookup(kind, key) {
            Some(t) => Ok(t),
            None => Err(GuestError::NotRegistered { kind: String::from_str(kind), key: String::from_str(key) }),
        }
    }

    /// Looks up `(primary, key)` first and `(fallback, key)` after it; when
    /// both are missing, the error names the fallback pair.
    pub fn lookup_with_fallback<'a>(&'a self, primary: &str, fallback: &str, key: &str) -> (r: Result<
        &'a T,
        GuestError,
    >)
        requires
            self.wf(),
        ensures
            match r {
                Ok(t) => if self@.guests.contains_key((primary@, key@)) {
                    *t == self@.guests[(primary@, key@)]
                } else {
                    self@.guests.contains_key((fallback@, key@)) && *t == self@.guests[(
                        fallback@,
                        key@,
                    )]
                },
                Err(GuestError::NotRegistered { kind: k, key: y }) => !self@.guests.contains_key(
                    (primary@, key@),
                ) && !self@.guests.contains_key((fallback@, key@)) && k@ == fallback@ && y@
                    == key@,
                Err(_) => false,
            },
    {
        match self.lookup(primary, key) {
            Some(t) => Ok(t),
            None => self.must_lookup(fallback, key),
        }
    }

    fn put_tool(&mut self, key: String, descriptor: D, target: T)
        requires
            old(self).wf(),
        ensures
            final(self).wf(),
            final(self)@.tools == old(self)@.tools.insert(key@, (descriptor, target)),
            final(self)@.guests == old(self)@.guests,
    {
        let ghost k = key@;
        let ghost dt = (descriptor, target);
        let ghost old_s = self.tools@;
        let found = self.find_tool(key.as_str());
        match found {
            Some(i) => {
                self.tools.set(i, ToolEntry { key, descriptor, target });
                proof {
                    let s = self.tools@;
                    assert(tool_keys(s) =~= tool_keys(old_s));
                    lemma_tool_map_at(s, i as int);
                    assert forall|k2: Seq<char>| #[trigger]
                        tool_map(s).contains_key(k2) && k2 != k implies tool_map(s)[k2]
                        == tool_map(old_s)[k2] by {
                        let j = choose|j: int| 0 <= j < s.len() && tool_keys(s)[j] == k2;
                        lemma_tool_map_at(s, j);
                        lemma_tool_map_at(old_s, j);
                    }
                    assert(tool_map(s) =~= tool_map(old_s).insert(k, dt));
                }
            },
            None => {
                self.tools.push(ToolEntry { key, descriptor, target });
                proof {
                    let s = self.tools@;
                    assert(tool_keys(s) =~= tool_keys(old_s).push(k));
                    assert forall|a: int, b: int|
                        0 <= a < tool_keys(s).len() && 0 <= b < tool_keys(s).len() && a != b
                        implies tool_keys(s)[a] != tool_keys(s)[b] by {
                        if a == old_s.len() as int {
                            assert(tool_keys(old_s)[b] == tool_keys(s)[b]);
                            assert(tool_keys(old_s).contains(tool_keys(old_s)[b]));
                        } else if b == old_s.len() as int {
                            assert(tool_keys(old_s)[a] == tool_keys(s)[a]);
                            assert(tool_keys(old_s).contains(tool_keys(old_s)[a]));
                        } else {
                            assert(tool_keys(old_s)[a] == tool_keys(s)[a]);
                            assert(tool_keys(old_s)[b] == tool_keys(s)[b]);
                        }
                    }
                    assert forall|k2: Seq<char>|
                        tool_keys(s).contains(k2) <==> (tool_keys(old_s).contains(k2) || k2 == k) by {
                        if tool_keys(old_s).contains(k2) {
                            let j = choose|j: int|
                                0 <= j < tool_keys(old_s).len() && tool_keys(old_s)[j] == k2;
                            assert(tool_keys(s)[j] == k2);
                        }
                        if k2 == k {
                            assert(tool_keys(s)[old_s.len() as int] == k2);
                        }
                        if tool_keys(s).contains(k2) && k2 != k {
                            let j = choose|j: int|
                                0 <= j < tool_keys(s).len() && tool_keys(s)[j] == k2;
                            assert(j < old_s.len());
                            assert(tool_keys(old_s)[j] == k2);
                        }
                    }
                    lemma_tool_map_at(s, old_s.len() as int);
                    assert forall|k2: Seq<char>| #[trigger]
                        tool_map(s).contains_key(k2) && k2 != k implies tool_map(s)[k2]
                        == tool_map(old_s)[k2] by {
                        let j = choose|j: int| 0 <= j < s.len() && tool_keys(s)[j] == k2;
                        lemma_tool_map_at(s, j);
                        lemma_tool_map_at(old_s, j);
                    }
                    assert(tool_map(s) =~= tool_map(old_s).insert(k, dt));
                }
            },
        }
    }

    /// Registers a tool factory: the target goes under `("tool", key)`; when a
    /// descriptor is given, the tool registry also gets the descriptor with a
    /// clone of the target. Without a descriptor an earlier tool entry stays.
    pub fn register_tool(&mut self, key: String, target: T, descriptor: Option<D>) -> (h: PyGuestHandle)
        where
            T: Clone,
        requires
            old(self).wf(),
        ensures
            final(self).wf(),
            final(self)@.guests == old(self)@.guests.insert((tool_kind(), key@), target),
            descriptor is None ==> final(self)@.tools == old(self)@.tools,
            descriptor matches Some(d) ==> {
                &&& final(self)@.tools.contains_key(key@)
                &&& final(self)@.tools[key@].0 == d
                &&& cloned(target, final(self)@.tools[key@].1)
                &&& final(self)@.tools.remove(key@) == old(self)@.tools.remove(key@)
            },
            h.kind@ == tool_kind(),
            h.key@ == key@,
    {
        proof {
            reveal_strlit("tool");
            assert("tool"@ =~= tool_kind());
        }
        let h = PyGuestHandle { kind: String::from_str("tool"), key: key.clone() };
        match descriptor {
            Some(d) => {
                let t2 = target.clone();
                self.put_tool(key.clone(), d, t2);
                assert(self@.tools.remove(key@) =~= old(self)@.tools.remove(key@));
            },
            None => {},
        }
        self.put_guest(String::from_str("tool"), key, target);
        h
    }

    /// Number of `(kind, key)` registrations.
    pub fn guest_count(&self) -> (r: usize)
        requires
            self.wf(),
        ensures
            r == self@.guests.len(),
    {
        proof {
            self.lemma_counts();
        }
        self.guests.len()
    }

    /// Number of tool factories registered with a descriptor.
    pub fn tool_count(&self) -> (r: usize)
        requires
            self.wf(),
        ensures
            r == self@.tools.len(),
    {
        proof {
            self.lemma_counts();
        }
        self.tools.len()
    }

    proof fn lemma_counts(&self)
        requires
            self.wf(),
        ensures
            self@.guests.len() == self.guests@.len(),
            self@.tools.len() == self.tools@.len(),
            self@.guests.dom().finite(),
            self@.tools.dom().finite(),
    {
        let gk = guest_keys(self.guests@);
        let tk = tool_keys(self.tools@);
        assert(self@.guests.dom() =~= gk.to_set());
        assert(self@.tools.dom() =~= tk.to_set());
        gk.unique_seq_to_set();
        tk.unique_seq_to_set();
        vstd::seq_lib::seq_to_set_is_finite(gk);
        vstd::seq_lib::seq_to_set_is_finite(tk);
    }

    /// Empties both registries and says how many entries they held together.
    pub fn clear(&mut self) -> (r: usize)
        requires
            old(self).wf(),
            old(self)@.guests.len() + old(self)@.tools.len() <= usize::MAX,
        ensures
            final(self).wf(),
            r == old(self)@.guests.len() + old(self)@.tools.len(),
            final(self)@.guests == Map::<(Seq<char>, Seq<char>), T>::empty(),
            final(self)@.tools == Map::<Seq<char>, (D, T)>::empty(),
    {
        proof {
            self.lemma_counts();
        }
        let n = self.guests.len() + self.tools.len();
        self.guests = Vec::new();
        self.tools = Vec::new();
        assert(self@.guests =~= Map::<(Seq<char>, Seq<char>), T>::empty());
        assert(self@.tools =~= Map::<Seq<char>, (D, T)>::empty());
        n
    }
}

/// Whether `v` holds a string whose text is `s`.
pub open spec fn texts_contain(v: Seq<String>, s: Seq<char>) -> bool {
    exists|i: int| 0 <= i < v.len() && (#[trigger] v[i])@ == s
}

/// No text appears twice in `v`.
pub open spec fn texts_distinct(v: Seq<String>) -> bool {
    forall|i: int, j: int| 0 <= i < v.len() && 0 <= j < v.len() && i != j ==> (#[trigger] v[i])@ != (#[trigger] v[j])@
}

fn contains_text(v: &Vec<String>, s: &str) -> (r: bool)
    ensures
        r == texts_contain(v@, s@),
{
    let mut i: usize = 0;
    while i < v.len()
        invariant
            i <= v@.len(),
            forall|j: int| 0 <= j < i ==> (#[trigger] v@[j])@ != s@,
        decreases v.len() - i,
    {
        if crate::text::str_eq(v[i].as_str(), s) {
            return true;
        }
        i = i + 1;
    }
    false
}

impl<D, T> GuestRegistry<D, T> {
    /// Keys registered under `kind`; for the kind `"tool"` also the keys of
    /// tool factories registered with a descriptor. No key appears twice.
    pub fn list_factories(&self, kind: &str) -> (r: Vec<String>)
        requires
            self.wf(),
        ensures
            texts_distinct(r@),
            forall|k: Seq<char>|
                texts_contain(r@, k) <==> (self@.guests.contains_key((kind@, k)) || (kind@
                    == tool_kind() && self@.tools.contains_key(k))),
    {
        let ghost gs = self.guests@;
        let mut out: Vec<String> = Vec::new();
        let ghost mut src: Seq<int> = Seq::empty();
        let mut i: usize = 0;
        while i < self.guests.len()
            invariant
                gs == self.guests@,
                guest_keys(gs).no_duplicates(),
                i <= gs.len(),
                texts_distinct(out@),
                src.len() == out@.len(),
                forall|x: int| 0 <= x < out@.len() ==> 0 <= #[trigger] src[x] < i && guest_keys(gs)[src[x]] == (kind@, out@[x]@),
                forall|j: int| 0 <= j < i && (#[trigger] guest_keys(gs)[j]).0 == kind@ ==> texts_contain(out@, guest_keys(gs)[j].1),
            decreases gs.len() - i,
        {
            if crate::text::str_eq(self.guests[i].kind.as_str(), kind) {
                let ghost before = out@;
                proof {
                    assert forall|x: int| 0 <= x < before.len() implies before[x]@ != gs[i as int].key@ by {
                        assert(guest_keys(gs)[src[x]] == (kind@, before[x]@));
                        assert(guest_keys(gs)[i as int] == (kind@, gs[i as int].key@));
                    }
                }
                out.push(self.guests[i].key.clone());
                proof {
                    src = src.push(i as int);
                    assert(out@[before.len() as int]@ == gs[i as int].key@);
                    assert forall|j: int| 0 <= j < i + 1 && (#[trigger] guest_keys(gs)[j]).0 == kind@ implies texts_contain(out@, guest_keys(gs)[j].1) by {
                        if j == i {
                            assert(out@[before.len() as int]@ == guest_keys(gs)[j].1);
                        } else {
                            let x = choose|x: int| 0 <= x < before.len() && (#[trigger] before[x])@ == guest_keys(gs)[j].1;
                            assert(out@[x] == before[x]);
                        }
                    }
                    assert forall|x: int| 0 <= x < out@.len() implies 0 <= #[trigger] src[x] < i + 1 && guest_keys(gs)[src[x]] == (kind@, out@[x]@) by {
                        if x < before.len() {
                            assert(out@[x] == before[x]);
                        }
                    }
                }
            }
            i = i + 1;
        }
        proof {
            assert forall|k: Seq<char>| texts_contain(out@, k) <==> self@.guests.contains_key((kind@, k)) by {
                if texts_contain(out@, k) {
                    let x = choose|x: int| 0 <= x < out@.len() && (#[trigger] out@[x])@ == k;
                    assert(guest_keys(gs)[src[x]] == (kind@, out@[x]@));
                    assert(guest_keys(gs).contains((kind@, k)));
                }
                if self@.guests.contains_key((kind@, k)) {
                    let j = choose|j: int| 0 <= j < guest_keys(gs).len() && guest_keys(gs)[j] == (kind@, k);
                    assert(guest_keys(gs)[j].0 == kind@);
                }
            }
        }
        proof {
            reveal_strlit("tool");
            assert("tool"@ =~= tool_kind());
        }
        if crate::text::str_eq(kind, "tool") {
            let ghost ts = self.tools@;
            let ghost first = out@;
            let mut i: usize = 0;
            while i < self.tools.len()
                invariant
                    ts == self.tools@,
                    kind@ == tool_kind(),
                    i <= ts.len(),
                    texts_distinct(out@),
                    forall|k: Seq<char>| texts_contain(first, k) ==> texts_contain(out@, k),
                    forall|x: int| 0 <= x < out@.len() ==> texts_contain(first, (#[trigger] out@[x])@) || exists|j: int| 0 <= j < i && #[trigger] tool_keys(ts)[j] == out@[x]@,
                    forall|j: int| 0 <= j < i ==> texts_contain(out@, #[trigger] tool_keys(ts)[j]),
                decreases ts.len() - i,
            {
                let ghost before = out@;
                if !contains_text(&out, self.tools[i].key.as_str()) {
                    out.push(self.tools[i].key.clone());
                    proof {
                        let n = before.len() as int;
                        assert(out@[n]@ == ts[i as int].key@);
                        assert forall|a: int, b: int| 0 <= a < out@.len() && 0 <= b < out@.len() && a != b implies (#[trigger] out@[a])@ != (#[trigger] out@[b])@ by {
                            if a == n {
                                assert(out@[b] == before[b]);
                            } else if b == n {
                                assert(out@[a] == before[a]);
                            } else {
                                assert(out@[a] == before[a]);
                                assert(out@[b] == before[b]);
                            }
                        }
                        assert forall|k: Seq<char>| texts_contain(first, k) implies texts_contain(out@, k) by {
                            let x = choose|x: int| 0 <= x < before.len() && (#[trigger] before[x])@ == k;
                            assert(out@[x] == before[x]);
                        }
                        assert forall|x: int| 0 <= x < out@.len() implies texts_contain(first, (#[trigger] out@[x])@) || exists|j: int| 0 <= j < i + 1 && #[trigger] tool_keys(ts)[j] == out@[x]@ by {
                            if x == n {
                                assert(tool_keys(ts)[i as int] == out@[x]@);
                            } else {
                                assert(out@[x] == before[x]);
                            }
                        }
                        assert forall|j: int| 0 <= j < i + 1 implies texts_contain(out@, #[trigger] tool_keys(ts)[j]) by {
                            if j == i {
                                assert(out@[n]@ == tool_keys(ts)[j]);
                            } else {
                                let x = choose|x: int| 0 <= x < before.len() && (#[trigger] before[x])@ == tool_keys(ts)[j];
                                assert(out@[x] == before[x]);
                            }
                        }
                    }
                } else {
                    proof {
                        assert forall|j: int| 0 <= j < i + 1 implies texts_contain(out@, #[trigger] tool_keys(ts)[j]) by {
                            if j == i {
                                assert(tool_keys(ts)[j] == ts[i as int].key@);
                            }
                        }
                    }
                }
                i = i + 1;
            }
            proof {
                assert forall|k: Seq<char>| texts_contain(out@, k) <==> (self@.guests.contains_key((kind@, k)) || self@.tools.contains_key(k)) by {
                    if texts_contain(out@, k) {
                        let x = choose|x: int| 0 <= x < out@.len() && (#[trigger] out@[x])@ == k;
                        if !texts_contain(first, k) {
                            let j = choose|j: int| 0 <= j < ts.len() && #[trigger] tool_keys(ts)[j] == out@[x]@;
                            assert(tool_keys(ts).contains(k));
                        }
                    }
                    if self@.tools.contains_key(k) {
                        let j = choose|j: int| 0 <= j < tool_keys(ts).len() && tool_keys(ts)[j] == k;
                    }
                }
            }
        }
        out
    }
}

/// Whether `j` is the first of `keys` without a tool entry in `tools`.
pub open spec fn first_missing_tool<D, T>(tools: Map<Seq<char>, (D, T)>, keys: Seq<String>, j: int) -> bool {
    &&& 0 <= j < keys.len()
    &&& !tools.contains_key(keys[j]@)
    &&& forall|i: int| 0 <= i < j ==> tools.contains_key((#[trigger] keys[i])@)
}

/// Whether `e` is the tool entry that `tools` holds under its own key.
pub open spec fn is_registered_tool<D, T>(tools: Map<Seq<char>, (D, T)>, e: ToolEntry<D, T>) -> bool {
    tools.contains_key(e.key@) && tools[e.key@] == (e.descriptor, e.target)
}

impl<D, T> GuestRegistry<D, T> {
    /// Every tool entry registered with a descriptor, each key once.
    pub fn all_tools<'a>(&'a self) -> (v: Vec<&'a ToolEntry<D, T>>)
        requires
            self.wf(),
        ensures
            v@.len() == self@.tools.len(),
            forall|i: int| 0 <= i < v@.len() ==> is_registered_tool(self@.tools, *#[trigger] v@[i]),
            forall|i: int, j: int| 0 <= i < v@.len() && 0 <= j < v@.len() && i != j ==> (#[trigger] v@[i]).key@ != (#[trigger] v@[j]).key@,
            forall|k: Seq<char>| self@.tools.contains_key(k) ==> exists|i: int| 0 <= i < v@.len() && (#[trigger] v@[i]).key@ == k,
    {
        let mut v: Vec<&'a ToolEntry<D, T>> = Vec::new();
        let mut i: usize = 0;
        while i < self.tools.len()
            invariant
                self.wf(),
                i <= self.tools@.len(),
                v@.len() == i,
                forall|x: int| 0 <= x < i ==> *#[trigger] v@[x] == self.tools@[x],
            decreases self.tools.len() - i,
        {
            v.push(&self.tools[i]);
            i = i + 1;
        }
        proof {
            self.lemma_counts();
            assert forall|x: int| 0 <= x < v@.len() implies is_registered_tool(self@.tools, *#[trigger] v@[x]) by {
                lemma_tool_map_at(self.tools@, x);
            }
            assert forall|a: int, b: int| 0 <= a < v@.len() && 0 <= b < v@.len() && a != b implies (#[trigger] v@[a]).key@ != (#[trigger] v@[b]).key@ by {
                assert(tool_keys(self.tools@)[a] == self.tools@[a].key@);
                assert(tool_keys(self.tools@)[b] == self.tools@[b].key@);
            }
            assert forall|k: Seq<char>| self@.tools.contains_key(k) implies exists|x: int| 0 <= x < v@.len() && (#[trigger] v@[x]).key@ == k by {
                let j = choose|j: int| 0 <= j < tool_keys(self.tools@).len() && tool_keys(self.tools@)[j] == k;
                assert(v@[j].key@ == k);
            }
        }
        v
    }

    /// The tool entries named by `keys`, in that order; a key without a tool
    /// entry is an error naming the first such key.
    pub fn tools_for_keys<'a>(&'a self, keys: &Vec<String>) -> (r: Result<Vec<&'a ToolEntry<D, T>>, GuestError>)
        requires
            self.wf(),
        ensures
            r is Ok <==> forall|i: int| 0 <= i < keys@.len() ==> self@.tools.contains_key((#[trigger] keys@[i])@),
            r matches Ok(v) ==> v@.len() == keys@.len()
                && forall|i: int| 0 <= i < v@.len() ==> is_registered_tool(self@.tools, *#[trigger] v@[i]) && v@[i].key@ == keys@[i]@,
            r matches Err(e) ==> (e matches GuestError::NoTool { key }
                && exists|j: int| first_missing_tool(self@.tools, keys@, j) && key@ == keys@[j]@),
    {
        let mut v: Vec<&'a ToolEntry<D, T>> = Vec::new();
        let mut i: usize = 0;
        while i < keys.len()
            invariant
                self.wf(),
                i <= keys@.len(),
                v@.len() == i,
                forall|x: int| 0 <= x < i ==> is_registered_tool(self@.tools, *#[trigger] v@[x]) && v@[x].key@ == keys@[x]@,
            decreases keys.len() - i,
        {
            match self.find_tool(keys[i].as_str()) {
                Some(t) => {
                    proof {
                        lemma_tool_map_at(self.tools@, t as int);
                    }
                    v.push(&self.tools[t]);
                },
                None => {
                    let key = keys[i].clone();
                    proof {
                        if self@.tools.contains_key(keys@[i as int]@) {
                            assert(tool_keys(self.tools@).contains(keys@[i as int]@));
                        }
                        assert forall|x: int| 0 <= x < i implies self@.tools.contains_key((#[trigger] keys@[x])@) by {
                            assert(is_registered_tool(self@.tools, *v@[x]));
                        }
                        assert(first_missing_tool(self@.tools, keys@, i as int));
                        assert(!self@.tools.contains_key((keys@[i as int])@));
                    }
                    return Err(GuestError::NoTool { key });
                },
            }
            i = i + 1;
        }
        proof {
            assert forall|x: int| 0 <= x < keys@.len() implies self@.tools.contains_key((#[trigger] keys@[x])@) by {
                assert(is_registered_tool(self@.tools, *v@[x]));
            }
        }
        Ok(v)
    }
}

/// A target registered under `(kind, key)` is what a lookup of
/// `(kind, key)` finds afterwards, whatever was registered there before;
/// every other pair finds what it found before.
pub proof fn law_lookup_after_register<D, T>(
    before: RegistryModel<D, T>,
    after: RegistryModel<D, T>,
    kind: Seq<char>,
    key: Seq<char>,
    target: T,
)
    requires
        after.guests == before.guests.insert((kind, key), target),
    ensures
        after.guests.contains_key((kind, key)),
        after.guests[(kind, key)] == target,
        forall|k: (Seq<char>, Seq<char>)|
            k != (kind, key) ==> (#[trigger] after.guests.contains_key(k) == before.guests.contains_key(k))
                && (before.guests.contains_key(k) ==> after.guests[k] == before.guests[k]),
{
}

/// A key registered under `kind` is listed for `kind` afterwards.
pub proof fn law_listed_after_register<D, T>(
    before: RegistryModel<D, T>,
    after: RegistryModel<D, T>,
    kind: Seq<char>,
    key: Seq<char>,
    target: T,
    listed: Seq<String>,
)
    requires
        after.guests == before.guests.insert((kind, key), target),
        forall|k: Seq<char>|
            texts_contain(listed, k) <==> (after.guests.contains_key((kind, k)) || (kind == tool_kind()
                && after.tools.contains_key(k))),
    ensures
        texts_contain(listed, key),
{
    assert(after.guests.contains_key((kind, key)));
}

/// After the registries are cleared no pair is found and nothing is listed
/// for any kind.
pub proof fn law_cleared_registry_is_empty<D, T>(after: RegistryModel<D, T>, kind: Seq<char>, listed: Seq<String>)
    requires
        after.guests == Map::<(Seq<char>, Seq<char>), T>::empty(),
        after.tools == Map::<Seq<char>, (D, T)>::empty(),
        forall|k: Seq<char>|
            texts_contain(listed, k) <==> (after.guests.contains_key((kind, k)) || (kind == tool_kind()
                && after.tools.contains_key(k))),
    ensures
        forall|k: Seq<char>| !after.guests.contains_key((kind, k)),
        listed.len() == 0,
{
    if listed.len() > 0 {
        assert(texts_contain(listed, listed[0]@));
    }
}

} // verus!
