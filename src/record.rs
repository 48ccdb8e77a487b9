use vstd::prelude::*;
use vstd::string::StringExecFns;

verus! {

/// What a field holds, as a mathematical value.
pub enum Datum {
    Text(Seq<char>),
    Int(int),
}

/// The value of one field of a record.
pub enum FieldValue {
    Text(String),
    Int(i64),
}

impl View for FieldValue {
    type V = Datum;

    open spec fn view(&self) -> Datum {
        match self {
            FieldValue::Text(s) => Datum::Text(s@),
            FieldValue::Int(n) => Datum::Int(*n as int),
        }
    }
}

impl FieldValue {
    pub fn clone_value(&self) -> (r: FieldValue)
        ensures
            r@ == self@,
    {
        match self {
            FieldValue::Text(s) => FieldValue::Text(s.clone()),
            FieldValue::Int(n) => FieldValue::Int(*n),
        }
    }
}

/// The fields of a record in their order: a sequence of (name, value).
pub type Fields = Seq<(Seq<char>, Datum)>;

/// Whether some field of `s` is named `k`.
pub open spec fn has_key(s: Fields, k: Seq<char>) -> bool {
    exists|i: int| 0 <= i < s.len() && #[trigger] s[i].0 == k
}

/// No two fields share a name.
pub open spec fn keys_unique(s: Fields) -> bool {
    forall|i: int, j: int|
        #![trigger s[i], s[j]]
        0 <= i < s.len() && 0 <= j < s.len() && i != j ==> s[i].0 != s[j].0
}

/// The value of the field named `k`, if there is one.
pub open spec fn lookup(s: Fields, k: Seq<char>) -> Option<Datum> {
    if has_key(s, k) {
        Some(s[choose|i: int| 0 <= i < s.len() && #[trigger] s[i].0 == k].1)
    } else {
        None
    }
}

/// Merge-patch of one scalar field: an existing field of that name takes the
/// new value in its place, otherwise the field is added at the end.
pub open spec fn set_field(s: Fields, k: Seq<char>, v: Datum) -> Fields {
    if has_key(s, k) {
        s.map_values(|p: (Seq<char>, Datum)| if p.0 == k { (k, v) } else { p })
    } else {
        s.push((k, v))
    }
}

pub proof fn lemma_set_field(s: Fields, k: Seq<char>, v: Datum)
    requires
        keys_unique(s),
    ensures
        keys_unique(set_field(s, k, v)),
        lookup(set_field(s, k, v), k) == Some(v),
        forall|k2: Seq<char>| k2 != k ==> lookup(set_field(s, k, v), k2) == lookup(s, k2),
        has_key(s, k) ==> set_field(s, k, v).len() == s.len(),
        !has_key(s, k) ==> set_field(s, k, v).len() == s.len() + 1,
{
    let t = set_field(s, k, v);
    assert(keys_unique(t));
    assert(has_key(t, k)) by {
        if has_key(s, k) {
            let i = choose|i: int| 0 <= i < s.len() && #[trigger] s[i].0 == k;
            assert(t[i].0 == k);
        } else {
            assert(t[s.len() as int].0 == k);
        }
    }
    assert forall|k2: Seq<char>| k2 != k implies lookup(t, k2) == lookup(s, k2) by {
        if has_key(s, k2) {
            let i = choose|i: int| 0 <= i < s.len() && #[trigger] s[i].0 == k2;
            assert(t[i].0 == k2);
        }
        if has_key(t, k2) {
            let i = choose|i: int| 0 <= i < t.len() && #[trigger] t[i].0 == k2;
            assert(s[i].0 == k2);
        }
    }
}

/// The views of a sequence of records.
pub open spec fn views(rs: Seq<Record>) -> Seq<Fields> {
    rs.map_values(|r: Record| r@)
}

/// One log record: named fields in order, no name twice.
pub struct Record {
    pub fields: Vec<(String, FieldValue)>,
}

impl View for Record {
    type V = Fields;

    open spec fn view(&self) -> Fields {
        self.fields@.map_values(|p: (String, FieldValue)| (p.0@, p.1@))
    }
}

impl Record {
    /// Field names are unique.
    pub open spec fn wf(&self) -> bool {
        keys_unique(self@)
    }

    /// A record without fields.
    pub fn new() -> (r: Record)
        ensures
            r@ == Seq::<(Seq<char>, Datum)>::empty(),
            r.wf(),
    {
        let r = Record { fields: Vec::new() };
        assert(r@ =~= Seq::<(Seq<char>, Datum)>::empty());
        r
    }

    /// The value of the field named `key`, if there is one.
    pub fn get(&self, key: &str) -> (r: Option<&FieldValue>)
        requires
            self.wf(),
        ensures
            r matches Some(v) ==> lookup(self@, key@) == Some(v@),
            r is None ==> lookup(self@, key@) is None,
    {
        let k = String::from_str(key);
        let n = self.fields.len();
        let mut i: usize = 0;
        while i < n
            invariant
                n == self.fields.len(),
                0 <= i <= n,
                k@ == key@,
                self.wf(),
                forall|j: int| 0 <= j < i ==> #[trigger] self@[j].0 != key@,
            decreases n - i,
        {
            if self.fields[i].0 == k {
                proof {
                    let s = self@;
                    assert(keys_unique(s));
                    assert(s[i as int].0 == key@);
                    let c = choose|c: int| 0 <= c < s.len() && #[trigger] s[c].0 == key@;
                    if c != i {
                        assert(s[c].0 != s[i as int].0);
                    }
                }
                return Some(&self.fields[i].1);
            }
            i = i + 1;
        }
        None
    }

    /// Gives the field named `key` the value `value`, in its place when the
    /// field exists, else as a new last field.
    pub fn set(&mut self, key: &str, value: FieldValue)
        requires
            old(self).wf(),
        ensures
            final(self)@ == set_field(old(self)@, key@, value@),
            final(self).wf(),
    {
        let k = String::from_str(key);
        let n = self.fields.len();
        let mut i: usize = 0;
        let ghost s0 = self@;
        while i < n
            invariant
                n == self.fields.len(),
                s0 == old(self)@,
                keys_unique(s0),
                self@ == old(self)@,
                0 <= i <= n,
                k@ == key@,
                forall|j: int| 0 <= j < i ==> #[trigger] s0[j].0 != key@,
            decreases n - i,
        {
            if self.fields[i].0 == k {
                proof {
                    assert(has_key(s0, key@)) by { assert(s0[i as int].0 == key@); }
                }
                self.fields.set(i, (k, value));
                proof {
                    assert(self@ =~= set_field(s0, key@, value@));
                    lemma_set_field(s0, key@, value@);
                }
                return;
            }
            i = i + 1;
        }
        proof {
            assert(!has_key(s0, key@));
        }
        self.fields.push((k, value));
        proof {
            assert(self@ =~= set_field(s0, key@, value@));
            lemma_set_field(s0, key@, value@);
        }
    }
}

} // verus!
