use vstd::prelude::*;
use crate::metadata::{CommonMetadata, stamped};
use crate::producer::{Category, produced_by};
use crate::record::views;
use crate::clock::{epoch_micros_now, millis_from_micros};
use crate::record::Record;

verus! {

#[verifier::external_type_specification]
#[verifier::external_body]
pub struct ExRateLimiter(leaky_bucket::RateLimiter);

/// Settings of the token bucket that paces one category.
#[derive(Clone, Copy)]
pub struct LimiterSettings {
    /// Most tokens the bucket holds.
    pub max: usize,
    /// Tokens in the bucket at start.
    pub initial: usize,
    /// Tokens added each interval.
    pub refill: usize,
    /// Length of an interval in milliseconds.
    pub interval_ms: u64,
}

/// Tokens added each second for a rate of `rate` records a second: 1.01 times
/// the rate, rounded up.
pub open spec fn refill_for(rate: nat) -> nat {
    (101 * rate + 99) / 100
}

/// The token bucket for `rate` records a second: it holds up to a hundred
/// seconds' worth, starts empty and gains `refill_for(rate)` each second.
/// A rate of zero disables the category: there is no bucket.
pub fn limiter_settings(rate: usize) -> (r: Option<LimiterSettings>)
    requires
        101 * rate + 99 <= usize::MAX,
    ensures
        rate == 0 <==> r is None,
        r matches Some(s) ==> s.max == 100 * rate && s.initial == 0
            && s.refill == refill_for(rate as nat) && s.interval_ms == 1000,
{
    if rate == 0 {
        None
    } else {
        Some(LimiterSettings { max: 100 * rate, initial: 0, refill: (101 * rate + 99) / 100, interval_ms: 1000 })
    }
}

/// The refill of a bucket covers its rate, and exceeds it by at most one
/// percent rounded up; the bucket holds a hundred times the rate.
pub proof fn lemma_refill_covers_rate(rate: nat)
    requires
        rate > 0,
    ensures
        rate <= refill_for(rate) <= rate + rate / 100 + 1,
        refill_for(rate) > 0,
{
    assert(rate <= refill_for(rate) <= rate + rate / 100 + 1) by (nonlinear_arith)
        requires
            rate > 0,
            refill_for(rate) == (101 * rate + 99) / 100,
    {
    }
}

/// A token-bucket rate limiter, with the settings it was built with.
pub struct Limiter {
    bucket: leaky_bucket::RateLimiter,
    settings: Ghost<LimiterSettings>,
}

impl Limiter {
    /// The settings this limiter was built with.
    pub closed spec fn settings(&self) -> LimiterSettings {
        self.settings@
    }

    /// The bucket to acquire tokens from.
    pub fn bucket(&self) -> (r: &leaky_bucket::RateLimiter) {
        &self.bucket
    }
}

/// Relies on leaky_bucket's Builder: a rate limiter with these settings. The
/// builder panics on a zero refill or a zero interval.
#[verifier::external_body]
fn build_limiter(s: &LimiterSettings) -> (r: Limiter)
    requires
        s.refill > 0,
        s.interval_ms > 0,
    ensures
        r.settings() == *s,
{
    let bucket = leaky_bucket::RateLimiter::builder()
        .max(s.max)
        .initial(s.initial)
        .refill(s.refill)
        .interval(std::time::Duration::from_millis(s.interval_ms))
        .build();
    Limiter { bucket, settings: Ghost(*s) }
}

/// The rate limiter of a category paced at `rate` records a second: a bucket
/// of a hundred seconds' worth of tokens, empty at start, that gains
/// `refill_for(rate)` tokens each second. `None` for a rate of zero, which
/// disables the category.
pub fn new_rate_limiter(rate: usize) -> (r: Option<Limiter>)
    requires
        101 * rate + 99 <= usize::MAX,
    ensures
        rate == 0 <==> r is None,
        r matches Some(l) ==> l.settings().max == 100 * rate && l.settings().initial == 0
            && l.settings().refill == refill_for(rate as nat) && l.settings().interval_ms == 1000,
{
    match limiter_settings(rate) {
        Some(s) => {
            proof { lemma_refill_covers_rate(rate as nat); }
            Some(build_limiter(&s))
        },
        None => None,
    }
}

/// Records a second of each category; zero disables a category.
pub struct Rates {
    pub http: usize,
    pub http_error: usize,
    pub http_leak: usize,
    pub flow_accept: usize,
    pub flow_attack: usize,
}

/// The rate of `c` in `rates`.
pub open spec fn rate_of(rates: &Rates, c: Category) -> usize {
    match c {
        Category::Http => rates.http,
        Category::HttpError => rates.http_error,
        Category::HttpLeak => rates.http_leak,
        Category::FlowAccept => rates.flow_accept,
        Category::FlowAttack => rates.flow_attack,
    }
}

/// `(c, rate)` when the rate is positive, else nothing.
pub open spec fn task_of(c: Category, rate: usize) -> Seq<(Category, usize)> {
    if rate > 0 { seq![(c, rate)] } else { Seq::empty() }
}

/// The tasks to start, in the order of the categories: one for each category
/// of positive rate.
pub open spec fn plan(rates: &Rates) -> Seq<(Category, usize)> {
    task_of(Category::Http, rates.http) + task_of(Category::HttpError, rates.http_error)
        + task_of(Category::HttpLeak, rates.http_leak) + task_of(Category::FlowAccept, rates.flow_accept)
        + task_of(Category::FlowAttack, rates.flow_attack)
}

fn push_task(tasks: &mut Vec<(Category, usize)>, c: Category, rate: usize)
    ensures
        final(tasks)@ == old(tasks)@ + task_of(c, rate),
{
    if rate > 0 {
        tasks.push((c, rate));
    }
    assert(final(tasks)@ =~= old(tasks)@ + task_of(c, rate));
}

/// The generator tasks to start, with their rates.
pub fn planned_tasks(rates: &Rates) -> (r: Vec<(Category, usize)>)
    ensures
        r@ == plan(rates),
{
    let mut tasks: Vec<(Category, usize)> = Vec::new();
    push_task(&mut tasks, Category::Http, rates.http);
    push_task(&mut tasks, Category::HttpError, rates.http_error);
    push_task(&mut tasks, Category::HttpLeak, rates.http_leak);
    push_task(&mut tasks, Category::FlowAccept, rates.flow_accept);
    push_task(&mut tasks, Category::FlowAttack, rates.flow_attack);
    assert(tasks@ =~= plan(rates));
    tasks
}

/// A category of rate zero gets no task; every task runs at the positive
/// rate of its category, and a category of positive rate gets a task.
pub proof fn lemma_plan_follows_rates(rates: &Rates, c: Category)
    ensures
        forall|i: int| 0 <= i < plan(rates).len() ==> (#[trigger] plan(rates)[i]).1 > 0
            && plan(rates)[i].1 == rate_of(rates, plan(rates)[i].0),
        rate_of(rates, c) == 0 ==> forall|i: int| 0 <= i < plan(rates).len() ==> (#[trigger] plan(rates)[i]).0 != c,
        rate_of(rates, c) > 0 ==> exists|i: int| 0 <= i < plan(rates).len() && (#[trigger] plan(rates)[i]) == (c, rate_of(rates, c)),
{
    let a = task_of(Category::Http, rates.http);
    let b = task_of(Category::HttpError, rates.http_error);
    let d = task_of(Category::HttpLeak, rates.http_leak);
    let e = task_of(Category::FlowAccept, rates.flow_accept);
    let f = task_of(Category::FlowAttack, rates.flow_attack);
    let p = plan(rates);
    assert(p == a + b + d + e + f);
    assert forall|i: int| 0 <= i < p.len() implies (#[trigger] p[i]).1 > 0 && p[i].1 == rate_of(rates, p[i].0) by {
        if i < a.len() {
        } else if i < a.len() + b.len() {
        } else if i < a.len() + b.len() + d.len() {
        } else if i < a.len() + b.len() + d.len() + e.len() {
        } else {
        }
    }
    if rate_of(rates, c) > 0 {
        let w: int = match c {
            Category::Http => 0,
            Category::HttpError => a.len() as int,
            Category::HttpLeak => (a.len() + b.len()) as int,
            Category::FlowAccept => (a.len() + b.len() + d.len()) as int,
            Category::FlowAttack => (a.len() + b.len() + d.len() + e.len()) as int,
        };
        assert(p[w] == (c, rate_of(rates, c)));
    }
}

/// Gives each record the common fields of `meta` and the current time in
/// milliseconds, read from the clock as the record is stamped; the records
/// keep their order.
pub fn stamp_records(records: Vec<Record>, meta: &CommonMetadata) -> (r: Vec<Record>)
    requires
        forall|i: int| 0 <= i < records.len() ==> (#[trigger] records[i]).wf(),
    ensures
        r.len() == records.len(),
        forall|i: int| 0 <= i < r.len() ==> (#[trigger] r[i]).wf()
            && exists|t: int| r[i]@ == #[trigger] stamped(records[i]@, meta, t),
{
    let mut src = records;
    let mut out: Vec<Record> = Vec::new();
    let n = src.len();
    let mut i: usize = 0;
    while i < n
        invariant
            n == src.len(),
            n == records.len(),
            0 <= i <= n,
            out.len() == i,
            forall|j: int| i <= j < n ==> #[trigger] src[j] == records[j],
            forall|j: int| 0 <= j < n ==> (#[trigger] records[j]).wf(),
            forall|j: int| 0 <= j < i ==> (#[trigger] out[j]).wf()
                && exists|t: int| out[j]@ == #[trigger] stamped(records[j]@, meta, t),
        decreases n - i,
    {
        let mut rec = Record::new();
        src.set_and_swap(i, &mut rec);
        let now = millis_from_micros(epoch_micros_now());
        rec.stamp(meta, now);
        let ghost prev = out@;
        out.push(rec);
        assert(out[i as int]@ == stamped(records[i as int]@, meta, now as int));
        assert forall|j: int| 0 <= j < i + 1 implies (#[trigger] out[j]).wf()
            && exists|t: int| out[j]@ == #[trigger] stamped(records[j]@, meta, t) by {
            if j < i {
                assert(out[j] == prev[j]);
            }
        }
        i = i + 1;
    }
    out
}

/// One event of `category`: the records its producer yields, in order, each
/// stamped with the common fields of `meta` and the time it was stamped.
pub fn emit(category: Category, meta: &CommonMetadata) -> (r: Vec<Record>)
    ensures
        exists|ps: Seq<Record>| {
            &&& #[trigger] produced_by(category, views(ps))
            &&& r.len() == ps.len()
            &&& forall|i: int| 0 <= i < r.len() ==> (#[trigger] r[i]).wf()
                && exists|t: int| r[i]@ == #[trigger] stamped(ps[i]@, meta, t)
        },
{
    let produced = category.produce();
    let ghost ps = produced@;
    let r = stamp_records(produced, meta);
    assert(produced_by(category, views(ps)));
    r
}

} // verus!
