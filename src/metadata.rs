use vstd::prelude::*;
use vstd::string::StringExecFns;
use crate::record::{Datum, FieldValue, Fields, Record, keys_unique, lookup, set_field, lemma_set_field};

verus! {

/// The fields that every record carries, fixed once at startup.
pub struct CommonMetadata {
    pub source: String,
    pub hostname: String,
    pub status: String,
    pub tags: String,
}

/// `s` with the four common fields of `m` laid over it.
pub open spec fn merged(s: Fields, m: &CommonMetadata) -> Fields {
    set_field(
        set_field(
            set_field(set_field(s, "ddsource"@, Datum::Text(m.source@)), "hostname"@, Datum::Text(m.hostname@)),
            "status"@,
            Datum::Text(m.status@),
        ),
        "ddtags"@,
        Datum::Text(m.tags@),
    )
}

/// `s` merged with `m` and given the time `t` (milliseconds since the epoch).
pub open spec fn stamped(s: Fields, m: &CommonMetadata, t: int) -> Fields {
    set_field(merged(s, m), "timestamp"@, Datum::Int(t))
}

/// Relies on gethostname::gethostname: the name of this machine, when it is
/// valid Unicode.
#[verifier::external_body]
fn machine_hostname() -> (r: Option<String>) {
    gethostname::gethostname().into_string().ok()
}

impl CommonMetadata {
    /// The metadata of this generator on the machine named `hostname`.
    pub fn new(hostname: String) -> (r: CommonMetadata)
        ensures
            r.source@ == "dynamo"@,
            r.hostname@ == hostname@,
            r.status@ == "INFO"@,
            r.tags@ == "kube_namespace:test"@,
    {
        CommonMetadata {
            source: String::from_str("dynamo"),
            hostname,
            status: String::from_str("INFO"),
            tags: String::from_str("kube_namespace:test"),
        }
    }

    /// The metadata of this generator on the current machine; `None` when the
    /// machine's name cannot be had as text.
    pub fn resolve() -> (r: Option<CommonMetadata>)
        ensures
            r matches Some(m) ==> m.source@ == "dynamo"@ && m.status@ == "INFO"@
                && m.tags@ == "kube_namespace:test"@,
    {
        match machine_hostname() {
            Some(h) => Some(CommonMetadata::new(h)),
            None => None,
        }
    }
}

impl Record {
    /// Lays the common fields over this record: each takes the value of
    /// `meta`, in place where it exists; other fields stay as they are.
    pub fn merge(&mut self, meta: &CommonMetadata)
        requires
            old(self).wf(),
        ensures
            final(self)@ == merged(old(self)@, meta),
            final(self).wf(),
    {
        self.set("ddsource", FieldValue::Text(meta.source.clone()));
        self.set("hostname", FieldValue::Text(meta.hostname.clone()));
        self.set("status", FieldValue::Text(meta.status.clone()));
        self.set("ddtags", FieldValue::Text(meta.tags.clone()));
    }

    /// Merges the common fields and sets `timestamp` to `now_ms`.
    pub fn stamp(&mut self, meta: &CommonMetadata, now_ms: i64)
        requires
            old(self).wf(),
        ensures
            final(self)@ == stamped(old(self)@, meta, now_ms as int),
            final(self).wf(),
    {
        self.merge(meta);
        self.set("timestamp", FieldValue::Int(now_ms));
    }
}

/// A stamped record carries each common field with exactly the value of the
/// metadata, and the time it was stamped with; every other field keeps the
/// value the producer gave it.
pub proof fn lemma_stamped_fields(s: Fields, m: &CommonMetadata, t: int)
    requires
        keys_unique(s),
    ensures
        keys_unique(stamped(s, m, t)),
        lookup(stamped(s, m, t), "ddsource"@) == Some(Datum::Text(m.source@)),
        lookup(stamped(s, m, t), "hostname"@) == Some(Datum::Text(m.hostname@)),
        lookup(stamped(s, m, t), "status"@) == Some(Datum::Text(m.status@)),
        lookup(stamped(s, m, t), "ddtags"@) == Some(Datum::Text(m.tags@)),
        lookup(stamped(s, m, t), "timestamp"@) == Some(Datum::Int(t)),
        forall|k: Seq<char>|
            k != "ddsource"@ && k != "hostname"@ && k != "status"@ && k != "ddtags"@ && k != "timestamp"@
                ==> lookup(stamped(s, m, t), k) == lookup(s, k),
{
    reveal_strlit("ddsource");
    reveal_strlit("hostname");
    reveal_strlit("status");
    reveal_strlit("ddtags");
    reveal_strlit("timestamp");
    assert("ddsource"@[0] != "hostname"@[0] && "ddsource"@[0] != "status"@[0]);
    assert("ddsource"@[2] != "ddtags"@[2] && "ddsource"@[0] != "timestamp"@[0]);
    assert("hostname"@[0] != "status"@[0] && "hostname"@[0] != "ddtags"@[0]);
    assert("hostname"@[0] != "timestamp"@[0] && "status"@[0] != "ddtags"@[0]);
    assert("status"@[1] != "timestamp"@[1] && "ddtags"@[0] != "timestamp"@[0]);
    let s1 = set_field(s, "ddsource"@, Datum::Text(m.source@));
    let s2 = set_field(s1, "hostname"@, Datum::Text(m.hostname@));
    let s3 = set_field(s2, "status"@, Datum::Text(m.status@));
    let s4 = set_field(s3, "ddtags"@, Datum::Text(m.tags@));
    lemma_set_field(s, "ddsource"@, Datum::Text(m.source@));
    lemma_set_field(s1, "hostname"@, Datum::Text(m.hostname@));
    lemma_set_field(s2, "status"@, Datum::Text(m.status@));
    lemma_set_field(s3, "ddtags"@, Datum::Text(m.tags@));
    lemma_set_field(s4, "timestamp"@, Datum::Int(t));
}

/// Two records of one task, stamped in turn from a clock that does not run
/// backwards, carry timestamps in the same order.
pub proof fn lemma_timestamps_in_order(a: Fields, b: Fields, m: &CommonMetadata, t1: int, t2: int)
    requires
        keys_unique(a),
        keys_unique(b),
        t1 <= t2,
    ensures
        lookup(stamped(a, m, t1), "timestamp"@) matches Some(Datum::Int(x))
            && lookup(stamped(b, m, t2), "timestamp"@) matches Some(Datum::Int(y))
            && x <= y,
{
    lemma_stamped_fields(a, m, t1);
    lemma_stamped_fields(b, m, t2);
}

} // verus!
