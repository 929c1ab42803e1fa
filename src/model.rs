use crate::text::{lemma_text_trichotomy, text_less, text_lt};
use vstd::prelude::*;
use vstd::string::*;

verus! {

/// A saved store connection: a display name and the URI to connect to.
#[derive(Clone, Debug, PartialEq, Eq)]
pub struct Connection {
    pub name: String,
    pub uri: String,
}

/// A collection of a database, by name.
#[derive(Clone, Debug, PartialEq, Eq)]
pub struct CollectionInfo {
    pub name: String,
}

/// A database and its collections, as the store listed them.
#[derive(Clone, Debug, PartialEq, Eq)]
pub struct DatabaseInfo {
    pub name: String,
    pub collections: Vec<CollectionInfo>,
}

/// One field of a document: its name and its value as display text.
#[derive(Clone, Debug, PartialEq, Eq)]
pub struct DocField {
    pub name: String,
    pub value: String,
}

/// A document of the store, seen through what the browser reads of it: its
/// fields in order and the document as indented JSON text.
#[derive(Clone, Debug, PartialEq, Eq)]
pub struct Document {
    pub fields: Vec<DocField>,
    pub json: String,
}

/// The persisted settings: where data and configuration live, and the saved
/// connections in the order they were added.
#[derive(Clone, Debug, PartialEq, Eq)]
pub struct AppConfig {
    pub data_dir: String,
    pub config_dir: String,
    pub connections: Vec<Connection>,
}

/// The views of a list of strings.
pub open spec fn texts(v: Seq<String>) -> Seq<Seq<char>> {
    v.map_values(|s: String| s@)
}

/// The name of the field that identifies a document.
pub open spec fn id_field() -> Seq<char> {
    seq!['_', 'i', 'd']
}

impl Document {
    /// The field names of the document, in order.
    pub open spec fn keys(&self) -> Seq<Seq<char>> {
        self.fields@.map_values(|f: DocField| f.name@)
    }

    /// The display text of the first field with the given name, if any.
    pub open spec fn value_of(&self, name: Seq<char>) -> Option<Seq<char>> {
        if exists|i: int| 0 <= i < self.fields@.len() && #[trigger] self.fields@[i].name@ == name {
            let i = choose|i: int|
                0 <= i < self.fields@.len() && #[trigger] self.fields@[i].name@ == name
                    && forall|j: int| 0 <= j < i ==> #[trigger] self.fields@[j].name@ != name;
            Some(self.fields@[i].value@)
        } else {
            None
        }
    }

    /// The display text of the first field named `name`, if there is one.
    pub fn get(&self, name: &String) -> (r: Option<&String>)
        ensures
            r matches Some(v) ==> self.value_of(name@) == Some(v@),
            r is None ==> self.value_of(name@) is None,
    {
        let mut i: usize = 0;
        while i < self.fields.len()
            invariant
                0 <= i <= self.fields@.len(),
                forall|j: int| 0 <= j < i ==> #[trigger] self.fields@[j].name@ != name@,
            decreases self.fields.len() - i,
        {
            if self.fields[i].name == *name {
                let ghost k = i as int;
                assert(0 <= k < self.fields@.len() && self.fields@[k].name@ == name@
                    && forall|j: int| 0 <= j < k ==> #[trigger] self.fields@[j].name@ != name@);
                proof {
                    let c = choose|c: int|
                        0 <= c < self.fields@.len() && #[trigger] self.fields@[c].name@ == name@
                            && forall|j: int| 0 <= j < c ==> #[trigger] self.fields@[j].name@ != name@;
                    if c < k {
                        assert(self.fields@[c].name@ != name@);
                    } else if c > k {
                        assert(self.fields@[k].name@ != name@);
                    }
                }
                return Some(&self.fields[i].value);
            }
            i = i + 1;
        }
        None
    }
}


/// Whether `v` holds a string with the text of `s`.
pub fn contains_text(v: &Vec<String>, s: &String) -> (r: bool)
    ensures
        r == texts(v@).contains(s@),
{
    let mut i: usize = 0;
    while i < v.len()
        invariant
            0 <= i <= v.len(),
            forall|j: int| 0 <= j < i ==> #[trigger] v@[j]@ != s@,
        decreases v.len() - i,
    {
        if v[i] == *s {
            assert(texts(v@)[i as int] == s@);
            return true;
        }
        i = i + 1;
    }
    assert forall|j: int| 0 <= j < texts(v@).len() implies texts(v@)[j] != s@ by {
        assert(v@[j]@ != s@);
    }
    false
}

/// A copy of a list of strings.
pub fn copy_texts(v: &Vec<String>) -> (r: Vec<String>)
    ensures
        texts(r@) == texts(v@),
{
    let mut r: Vec<String> = Vec::new();
    let mut i: usize = 0;
    while i < v.len()
        invariant
            0 <= i <= v.len(),
            texts(r@) == texts(v@.subrange(0, i as int)),
        decreases v.len() - i,
    {
        let s = v[i].clone();
        let ghost before = r@;
        r.push(s);
        assert(r@ =~= before.push(v@[i as int]));
        assert(v@.subrange(0, i + 1) =~= v@.subrange(0, i as int).push(v@[i as int]));
        assert(texts(r@) =~= texts(before).push(v@[i as int]@));
        i = i + 1;
        assert(texts(r@) =~= texts(v@.subrange(0, i as int)));
    }
    assert(v@.subrange(0, i as int) =~= v@);
    r
}

/// The texts of `v` without those equal to `s`, order kept.
pub open spec fn without_text(v: Seq<Seq<char>>, s: Seq<char>) -> Seq<Seq<char>> {
    v.filter(|t: Seq<char>| t != s)
}

/// A copy of `v` without the strings whose text is that of `s`.
pub fn remove_text(v: &Vec<String>, s: &String) -> (r: Vec<String>)
    ensures
        texts(r@) == without_text(texts(v@), s@),
{
    let mut r: Vec<String> = Vec::new();
    let mut i: usize = 0;
    while i < v.len()
        invariant
            0 <= i <= v.len(),
            texts(r@) == without_text(texts(v@.subrange(0, i as int)), s@),
        decreases v.len() - i,
    {
        let ghost prefix = texts(v@.subrange(0, i as int));
        assert(texts(v@.subrange(0, i + 1)) =~= prefix.push(v@[i as int]@));
        proof {
            reveal(Seq::filter);
            assert(prefix.push(v@[i as int]@).drop_last() =~= prefix);
        }
        if v[i] != *s {
            let t = v[i].clone();
            r.push(t);
            assert(texts(r@) =~= without_text(texts(v@.subrange(0, i + 1)), s@));
        } else {
            assert(texts(r@) =~= without_text(texts(v@.subrange(0, i + 1)), s@));
        }
        i = i + 1;
    }
    assert(v@.subrange(0, i as int) =~= v@);
    r
}


/// `v` with `s` taken out when present, and added at the end when not.
pub open spec fn toggled(v: Seq<Seq<char>>, s: Seq<char>) -> Seq<Seq<char>> {
    if v.contains(s) {
        without_text(v, s)
    } else {
        v.push(s)
    }
}

/// Toggling takes a text out of a list that held it and puts it into one
/// that did not.
pub proof fn lemma_toggled_flips(v: Seq<Seq<char>>, s: Seq<char>)
    ensures
        toggled(v, s).contains(s) == !v.contains(s),
{
    if v.contains(s) {
        let w = without_text(v, s);
        if w.contains(s) {
            let i = choose|i: int| 0 <= i < w.len() && w[i] == s;
            v.filter_lemma(|t: Seq<char>| t != s);
            assert((|t: Seq<char>| t != s)(w[i]));
        }
    } else {
        assert(v.push(s)[v.len() as int] == s);
    }
}

/// A copy of `v` with the string `s` toggled.
pub fn toggle_text(v: &Vec<String>, s: &String) -> (r: Vec<String>)
    ensures
        texts(r@) == toggled(texts(v@), s@),
{
    if contains_text(v, s) {
        remove_text(v, s)
    } else {
        let mut r = copy_texts(v);
        let t = s.clone();
        let ghost before = r@;
        r.push(t);
        assert(texts(r@) =~= texts(before).push(s@));
        r
    }
}


/// Each text comes strictly before the next.
pub open spec fn strictly_sorted(v: Seq<Seq<char>>) -> bool {
    forall|i: int| 0 <= i < v.len() - 1 ==> text_lt(#[trigger] v[i], v[i + 1])
}

/// Puts `s` into the sorted list `v` at its place.
pub fn insert_sorted(v: &mut Vec<String>, s: String)
    requires
        strictly_sorted(texts(old(v)@)),
        texts(old(v)@).no_duplicates(),
        !texts(old(v)@).contains(s@),
    ensures
        strictly_sorted(texts(final(v)@)),
        texts(final(v)@).no_duplicates(),
        texts(final(v)@).to_set() == texts(old(v)@).to_set().insert(s@),
        texts(final(v)@).len() == texts(old(v)@).len() + 1,
{
    let ghost t = texts(v@);
    let mut p: usize = 0;
    while p < v.len() && text_less(&v[p], &s)
        invariant
            0 <= p <= v@.len(),
            t == texts(v@),
            forall|i: int| 0 <= i < p ==> text_lt(#[trigger] t[i], s@),
        decreases v@.len() - p,
    {
        p = p + 1;
    }
    let ghost sv = s@;
    v.insert(p, s);
    let ghost u = texts(v@);
    assert(u =~= t.insert(p as int, sv));
    assert forall|i: int| 0 <= i < u.len() - 1 implies text_lt(#[trigger] u[i], u[i + 1]) by {
        if i + 1 < p {
            assert(u[i] == t[i] && u[i + 1] == t[i + 1]);
        } else if i + 1 == p {
        } else if i == p {
            assert(u[i + 1] == t[i]);
            assert(t[i] != sv);
            lemma_text_trichotomy(t[i], sv);
        } else {
            assert(u[i] == t[i - 1] && u[i + 1] == t[i]);
        }
    }
    assert forall|i: int, j: int| 0 <= i < u.len() && 0 <= j < u.len() && i != j implies u[i]
        != u[j] by {
        let oi = if i < p { i } else { i - 1 };
        let oj = if j < p { j } else { j - 1 };
        if i == p {
            assert(u[j] == t[oj]);
        } else if j == p {
            assert(u[i] == t[oi]);
        } else {
            assert(u[i] == t[oi] && u[j] == t[oj]);
        }
    }
    assert(u.to_set() =~= t.to_set().insert(sv)) by {
        assert forall|x: Seq<char>| u.to_set().contains(x) implies t.to_set().insert(sv).contains(
            x,
        ) by {
            let i = choose|i: int| 0 <= i < u.len() && u[i] == x;
            if i < p {
                assert(t[i] == x);
            } else if i > p {
                assert(t[i - 1] == x);
            }
        }
        assert forall|x: Seq<char>| t.to_set().insert(sv).contains(x) implies u.to_set().contains(
            x,
        ) by {
            if x == sv {
                assert(u[p as int] == x);
            } else {
                let i = choose|i: int| 0 <= i < t.len() && t[i] == x;
                if i < p {
                    assert(u[i] == x);
                } else {
                    assert(u[i + 1] == x);
                }
            }
        }
    }
}

/// The texts joined with `sep` between each two.
pub open spec fn joined(parts: Seq<Seq<char>>, sep: Seq<char>) -> Seq<char>
    decreases parts.len(),
{
    if parts.len() == 0 {
        Seq::empty()
    } else if parts.len() == 1 {
        parts[0]
    } else {
        joined(parts.drop_last(), sep) + sep + parts.last()
    }
}

/// The strings joined with `sep` between each two.
pub fn join_texts(parts: &Vec<String>, sep: &str) -> (r: String)
    ensures
        r@ == joined(texts(parts@), sep@),
{
    let mut r = String::new();
    let mut i: usize = 0;
    while i < parts.len()
        invariant
            0 <= i <= parts@.len(),
            r@ == joined(texts(parts@.subrange(0, i as int)), sep@),
        decreases parts@.len() - i,
    {
        let ghost before = texts(parts@.subrange(0, i as int));
        if i > 0 {
            r.append(sep);
        }
        r.append(parts[i].as_str());
        i = i + 1;
        let ghost after = texts(parts@.subrange(0, i as int));
        assert(after.drop_last() =~= before);
        assert(after.last() == parts@[i - 1]@);
        if i == 1 {
            assert(before.len() == 0);
            assert(r@ =~= after[0]);
        }
    }
    assert(parts@.subrange(0, i as int) =~= parts@);
    r
}

} // verus!
