//! The header map: lower-cased header names, each with its values in arrival
//! order, no value ever dropped.

use vstd::prelude::*;

verus! {

/// ASCII lower-casing of one character: upper-case letters are mapped to
/// their lower-case equivalent, every other character is kept.
pub open spec fn lower_char(c: char) -> char {
    if 'A' <= c && c <= 'Z' {
        (c as u32 + 32) as char
    } else {
        c
    }
}

/// ASCII lower-casing of a character sequence, pointwise.
pub open spec fn lower_seq(s: Seq<char>) -> Seq<char> {
    s.map_values(|c: char| lower_char(c))
}

/// The mathematical model of a header map: header names in first-arrival
/// order, each with its values in arrival order.
pub type HeadersModel = Seq<(Seq<char>, Seq<Seq<char>>)>;

/// Whether the model holds an entry for name `n`.
pub open spec fn has_name(m: HeadersModel, n: Seq<char>) -> bool {
    exists|i: int| 0 <= i < m.len() && (#[trigger] m[i].0) == n
}

/// The index of the entry for name `n` (meaningful only when `has_name`).
pub open spec fn index_of_name(m: HeadersModel, n: Seq<char>) -> int {
    choose|i: int| 0 <= i < m.len() && (#[trigger] m[i].0) == n
}

/// The values recorded under name `n`, in arrival order; empty if absent.
pub open spec fn values_of(m: HeadersModel, n: Seq<char>) -> Seq<Seq<char>> {
    if has_name(m, n) {
        m[index_of_name(m, n)].1
    } else {
        Seq::empty()
    }
}

/// Well-formedness of the model: names are pairwise distinct and already
/// lower-cased.
pub open spec fn wf_model(m: HeadersModel) -> bool {
    &&& forall|i: int, j: int| 0 <= i < j < m.len() ==> (#[trigger] m[i].0) != (#[trigger] m[j].0)
    &&& forall|i: int| 0 <= i < m.len() ==> (#[trigger] m[i].0) == lower_seq(m[i].0)
}

/// The model after recording one more value `v` under name `n`: appended to
/// the existing entry for `n`, or a fresh entry at the end.
pub open spec fn insert_value(m: HeadersModel, n: Seq<char>, v: Seq<char>) -> HeadersModel {
    if has_name(m, n) {
        let i = index_of_name(m, n);
        m.update(i, (n, m[i].1.push(v)))
    } else {
        m.push((n, seq![v]))
    }
}

/// The model after replacing the values under name `n` by the single value
/// `v` (or adding a fresh entry if `n` was absent).
pub open spec fn replace_value(m: HeadersModel, n: Seq<char>, v: Seq<char>) -> HeadersModel {
    if has_name(m, n) {
        m.update(index_of_name(m, n), (n, seq![v]))
    } else {
        m.push((n, seq![v]))
    }
}

/// A mapping from lower-cased header name to the ordered sequence of values
/// seen for it. A name may carry several values; none is ever dropped.
pub struct HeaderMap {
    entries: Vec<(String, Vec<String>)>,
}

impl View for HeaderMap {
    type V = HeadersModel;

    closed spec fn view(&self) -> HeadersModel {
        self.entries.deep_view()
    }
}

/// Indexing a vector's deep view gives the element's deep view.
proof fn lemma_deep_index<T: DeepView>(v: &Vec<T>, i: int)
    requires
        0 <= i < v@.len(),
    ensures
        v.deep_view().len() == v@.len(),
        v.deep_view()[i] == v@[i].deep_view(),
{
}

/// ASCII lower-casing carries no information: applying it twice is applying
/// it once.
proof fn lemma_lower_seq_idempotent(s: Seq<char>)
    ensures
        lower_seq(lower_seq(s)) == lower_seq(s),
{
    assert(lower_seq(lower_seq(s)) =~= lower_seq(s)) by {
        assert forall|i: int| 0 <= i < s.len() implies lower_char(lower_char(s[i]))
            == lower_char(s[i]) by {
            let c = s[i];
            if 'A' <= c && c <= 'Z' {
                assert(lower_char(c) == (c as u32 + 32) as char);
            }
        }
    }
}

impl HeaderMap {
    /// The header map invariant: distinct, lower-cased names.
    pub open spec fn wf(&self) -> bool {
        wf_model(self@)
    }

    /// An empty header map.
    pub fn new() -> (r: HeaderMap)
        ensures
            r@ == Seq::<(Seq<char>, Seq<Seq<char>>)>::empty(),
            r.wf(),
    {
        let r = HeaderMap { entries: Vec::new() };
        proof {
            assert(r@ =~= Seq::<(Seq<char>, Seq<Seq<char>>)>::empty());
        }
        r
    }

    /// Add a value under an already lower-cased key: appended to the key's
    /// values when `replace` is false, standing in for them when it is true.
    fn upsert(&mut self, key: String, value: String, replace: bool)
        requires
            old(self).wf(),
            lower_seq(key@) == key@,
        ensures
            final(self).wf(),
            replace ==> final(self)@ == replace_value(old(self)@, key@, value@),
            !replace ==> final(self)@ == insert_value(old(self)@, key@, value@),
    {
        let ghost m0 = self@;
        let ghost e0 = self.entries@;
        let n = self.entries.len();
        proof {
            assert(m0.len() == e0.len());
        }
        let mut i: usize = 0;
        while i < n
            invariant
                n == self.entries.len(),
                i <= n,
                self@ == m0,
                m0 == old(self)@,
                self.entries@ == e0,
                wf_model(m0),
                lower_seq(key@) == key@,
                forall|j: int| 0 <= j < i ==> (#[trigger] m0[j].0) != key@,
            decreases n - i,
        {
            proof {
                lemma_deep_index(&self.entries, i as int);
            }
            if str_eq(self.entries[i].0.as_str(), key.as_str()) {
                proof {
                    assert(m0[i as int].0 == key@);
                    assert(has_name(m0, key@));
                    assert(index_of_name(m0, key@) == i) by {
                        let w = index_of_name(m0, key@);
                        assert(m0[w].0 == key@);
                        if w < i {
                            assert(m0[w].0 != key@);
                        }
                        if w > i {
                            assert(m0[i as int].0 != m0[w].0);
                        }
                    }
                }
                let mut entry = self.entries.remove(i);
                let ghost vals0 = entry.1.deep_view();
                proof {
                    assert(entry == e0[i as int]);
                    assert(vals0 == m0[i as int].1);
                }
                if replace {
                    entry.1 = vec![value];
                    proof {
                        assert(entry.1.deep_view() =~= seq![value@]);
                    }
                } else {
                    entry.1.push(value);
                    proof {
                        assert(entry.1.deep_view() =~= vals0.push(value@));
                    }
                }
                self.entries.insert(i, entry);
                proof {
                    assert(self.entries@ =~= e0.update(i as int, entry));
                    let goal = if replace {
                        m0.update(i as int, (key@, seq![value@]))
                    } else {
                        m0.update(i as int, (key@, m0[i as int].1.push(value@)))
                    };
                    assert(self@ =~= goal) by {
                        assert forall|k: int| 0 <= k < self@.len() implies self@[k] == goal[k] by {
                            lemma_deep_index(&self.entries, k);
                            if k != i {
                                assert(self.entries@[k] == e0[k]);
                            } else {
                                assert(entry.0@ == m0[i as int].0);
                            }
                        }
                    }
                    assert(wf_model(self@)) by {
                        assert(forall|k: int| 0 <= k < self@.len() ==> (#[trigger] self@[k].0) == m0[k].0);
                    }
                }
                return ;
            }
            proof {
                assert(m0[i as int].0 != key@);
            }
            i += 1;
        }
        proof {
            assert(!has_name(m0, key@));
        }
        self.entries.push((key, vec![value]));
        proof {
            let goal = m0.push((lower_seq(key@), seq![value@]));
            assert(self@ =~= goal) by {
                assert forall|k: int| 0 <= k < self@.len() implies self@[k] == goal[k] by {
                    lemma_deep_index(&self.entries, k);
                    if k < m0.len() {
                        assert(self.entries@[k] == e0[k]);
                    } else {
                        assert(self.entries@[k].1.deep_view() =~= seq![value@]);
                    }
                }
            }
            assert(wf_model(self@)) by {
                assert(forall|k: int| 0 <= k < m0.len() ==> (#[trigger] self@[k].0) == m0[k].0);
                assert(self@[m0.len() as int].0 == key@);
            }
        }
    }

    /// Record one more value under a header name (case-insensitive): the
    /// value is appended after any values already recorded for the name.
    pub fn append(&mut self, name: &str, value: String)
        requires
            old(self).wf(),
        ensures
            final(self).wf(),
            final(self)@ == insert_value(old(self)@, lower_seq(name@), value@),
    {
        let key = ascii_lower(name);
        proof {
            lemma_lower_seq_idempotent(name@);
        }
        self.upsert(key, value, false);
    }

    /// Replace whatever values a header name carries by the one given value
    /// (case-insensitive); a fresh entry is added if the name was absent.
    pub fn set(&mut self, name: &str, value: String)
        requires
            old(self).wf(),
        ensures
            final(self).wf(),
            final(self)@ == replace_value(old(self)@, lower_seq(name@), value@),
    {
        let key = ascii_lower(name);
        proof {
            lemma_lower_seq_idempotent(name@);
        }
        self.upsert(key, value, true);
    }

    /// How many distinct header names the map holds.
    pub fn entry_count(&self) -> (r: usize)
        ensures
            r == self@.len(),
    {
        self.entries.len()
    }

    /// The name and values at one position of the map, in first-arrival
    /// order of names.
    pub fn entry_at(&self, i: usize) -> (r: &(String, Vec<String>))
        requires
            i < self@.len(),
        ensures
            r.0@ == self@[i as int].0,
            r.1.deep_view() == self@[i as int].1,
    {
        proof {
            lemma_deep_index(&self.entries, i as int);
        }
        &self.entries[i]
    }

    /// All values recorded under a header name, in arrival order; `None`
    /// when the name is absent. Names are stored lower-cased, so looking a
    /// lower-cased name up is a case-insensitive lookup.
    pub fn get_all(&self, name: &str) -> (r: Option<&Vec<String>>)
        requires
            self.wf(),
        ensures
            (r is Some) <==> has_name(self@, name@),
            (r is Some) ==> (r->0).deep_view() == values_of(self@, name@),
    {
        let key = name;
        let n = self.entries.len();
        let mut i: usize = 0;
        while i < n
            invariant
                n == self.entries.len(),
                key@ == name@,
                i <= n,
                self.wf(),
                forall|j: int| 0 <= j < i ==> (#[trigger] self@[j].0) != key@,
            decreases n - i,
        {
            proof {
                lemma_deep_index(&self.entries, i as int);
            }
            if str_eq(self.entries[i].0.as_str(), key) {
                proof {
                    assert(self@[i as int].0 == key@);
                    assert(has_name(self@, key@));
                    assert(index_of_name(self@, key@) == i) by {
                        let w = index_of_name(self@, key@);
                        assert(self@[w].0 == key@);
                        if w < i {
                            assert(self@[w].0 != key@);
                        }
                        if w > i {
                            assert(self@[i as int].0 != self@[w].0);
                        }
                    }
                }
                return Some(&self.entries[i].1);
            }
            proof {
                assert(self@[i as int].0 != key@);
            }
            i += 1;
        }
        proof {
            assert(!has_name(self@, key@));
        }
        None
    }
}

/// The model that arises from raw transport entries: names lower-cased,
/// values decoded leniently from their bytes, order kept.
pub open spec fn headers_model(s: Seq<(Seq<char>, Seq<u8>)>) -> HeadersModel
    decreases s.len(),
{
    if s.len() == 0 {
        Seq::empty()
    } else {
        insert_value(headers_model(s.drop_last()), lower_seq(s.last().0), lossy_decode(s.last().1))
    }
}

/// Turn the raw header entries handed over by the transport into a header
/// map. Values are decoded as UTF-8 with lossy replacement, so no header can
/// make this fail; repeated names keep all their values in arrival order.
pub fn parse_headers(raw: &Vec<(String, Vec<u8>)>) -> (r: HeaderMap)
    ensures
        r.wf(),
        r@ == headers_model(raw.deep_view()),
{
    let mut r = HeaderMap::new();
    let n = raw.len();
    let mut i: usize = 0;
    while i < n
        invariant
            n == raw.len(),
            i <= n,
            r.wf(),
            r@ == headers_model(raw.deep_view().take(i as int)),
        decreases n - i,
    {
        proof {
            lemma_deep_index(raw, i as int);
            assert(raw@[i as int].1.deep_view() =~= raw@[i as int].1@);
        }
        let value = utf8_lossy(raw[i].1.as_slice());
        r.append(raw[i].0.as_str(), value);
        proof {
            let rv = raw.deep_view();
            assert(rv.take(i + 1).drop_last() =~= rv.take(i as int));
            assert(rv.take(i + 1).last() == rv[i as int]);
        }
        i += 1;
    }
    proof {
        assert(raw.deep_view().take(n as int) =~= raw.deep_view());
    }
    r
}

/// The result a best-effort UTF-8 decoding gives for a byte sequence: it
/// depends on the bytes alone, with invalid sequences replaced rather than
/// rejected.
pub uninterp spec fn lossy_decode(b: Seq<u8>) -> Seq<char>;

/// Decode bytes as UTF-8, replacing invalid sequences instead of failing.
///
/// Relies on `String::from_utf8_lossy`: a pure function of the bytes that
/// substitutes the replacement character for invalid sequences.
#[verifier::external_body]
pub(crate) fn utf8_lossy(b: &[u8]) -> (r: String)
    ensures
        r@ == lossy_decode(b@),
{
    String::from_utf8_lossy(b).into_owned()
}

/// Lower-case a string's ASCII letters.
///
/// Relies on `str::to_ascii_lowercase`: upper-case ASCII letters are mapped
/// to lower case and every other character is kept unchanged.
#[verifier::external_body]
pub(crate) fn ascii_lower(s: &str) -> (r: String)
    ensures
        r@ == lower_seq(s@),
{
    s.to_ascii_lowercase()
}

/// Whether two string slices hold the same characters.
pub fn str_eq(a: &str, b: &str) -> (r: bool)
    ensures
        r == (a@ == b@),
{
    let x: String = a.to_owned();
    let y: String = b.to_owned();
    x == y
}

} // verus!
