use vstd::prelude::*;
use vstd::string::StringExecFns;
use rand::Rng;
use crate::clock::{epoch_micros_now, seconds_from_micros};
use crate::record::{views, Datum, FieldValue, Fields, Record, keys_unique, lookup};
use crate::text::{decimal, signed_decimal, push_decimal, push_signed_decimal};

verus! {

/// The kinds of traffic this generator produces.
#[derive(Clone, Copy, Debug, PartialEq, Eq, Structural)]
pub enum Category {
    /// Successful requests to the web store.
    Http,
    /// Requests to the web store that fail on the server.
    HttpError,
    /// A failed payment followed by a line that leaks the card number.
    HttpLeak,
    /// Accepted network flows.
    FlowAccept,
    /// Rejected network flows of a brute-force attack on SSH.
    FlowAttack,
}

/// An access-log line of a web server.
pub open spec fn apache_line(
    addr: Seq<char>,
    user: Seq<char>,
    time: Seq<char>,
    method: Seq<char>,
    word: Seq<char>,
    status: nat,
) -> Seq<char> {
    addr + " - "@ + user + " ["@ + time + "] \""@ + method + " /"@ + word + " HTTP/1.1\" "@
        + decimal(status) + " 1024"@
}

/// The values of one network-flow line that vary from line to line.
pub struct Flow {
    pub client_ip: String,
    pub server_ip: String,
    pub client_port: u64,
    pub server_port: u64,
    pub packets: u64,
    pub bytes: u64,
    pub start: i64,
    pub end: i64,
}

/// A network-flow log line: version, account, interface, addresses, ports,
/// protocol, packets, bytes, start and end in epoch seconds, action and
/// log status, separated by single spaces.
pub open spec fn flow_line(f: Flow, action: Seq<char>, status: Seq<char>) -> Seq<char> {
    "2 1234567890 eni-sdvu4NphZxGvp1MDz "@ + f.client_ip@ + " "@ + f.server_ip@ + " "@
        + decimal(f.client_port as nat) + " "@ + decimal(f.server_port as nat) + " 6 "@
        + decimal(f.packets as nat) + " "@ + decimal(f.bytes as nat) + " "@
        + signed_decimal(f.start as int) + " "@ + signed_decimal(f.end as int) + " "@ + action
        + " "@ + status
}

/// The shape of a payment card number: fifteen or sixteen decimal digits.
pub open spec fn is_card_number(s: Seq<char>) -> bool {
    &&& (s.len() == 15 || s.len() == 16)
    &&& forall|i: int| 0 <= i < s.len() ==> '0' <= #[trigger] s[i] <= '9'
}

/// The message that leaks the card number `card`.
pub open spec fn leak_message(card: Seq<char>) -> Seq<char> {
    "ERROR could not charge card "@ + card + "!"@
}

/// A record of a message and the service it came from.
pub open spec fn message_fields(message: Seq<char>, service: Seq<char>) -> Fields {
    seq![("message"@, Datum::Text(message)), ("service"@, Datum::Text(service))]
}

/// Four numbers from 2 to 253, joined by dots.
pub open spec fn is_fake_ipv4(s: Seq<char>) -> bool {
    exists|a: nat, b: nat, c: nat, d: nat|
        2 <= a < 254 && 2 <= b < 254 && 2 <= c < 254 && 2 <= d < 254
            && s == #[trigger] dotted(a, b, c, d)
}

/// The numbers `a`, `b`, `c`, `d` in base ten, joined by dots.
pub open spec fn dotted(a: nat, b: nat, c: nat, d: nat) -> Seq<char> {
    decimal(a) + "."@ + decimal(b) + "."@ + decimal(c) + "."@ + decimal(d)
}

/// Relies on fakeit::internet::ipv4_address: four random numbers from 2 to
/// 253, joined by dots.
#[verifier::external_body]
fn fake_ipv4() -> (r: String)
    ensures
        is_fake_ipv4(r@),
{
    fakeit::internet::ipv4_address()
}

/// Relies on fakeit::internet::username: a random user name.
#[verifier::external_body]
fn fake_username() -> (r: String) {
    fakeit::internet::username()
}

/// Relies on fakeit::company::buzzword: a random word.
#[verifier::external_body]
fn fake_buzzword() -> (r: String) {
    fakeit::company::buzzword()
}

/// Relies on fakeit::payment::credit_card_number: one of its patterns of
/// fifteen or sixteen characters, each `#` replaced by a random digit.
#[verifier::external_body]
fn fake_card_number() -> (r: String)
    ensures
        is_card_number(r@),
{
    fakeit::payment::credit_card_number()
}

/// Relies on rand::Rng::gen_range on the thread's generator: a value in
/// `lo..hi`, which must not be empty.
#[verifier::external_body]
fn random_below(lo: u64, hi: u64) -> (r: u64)
    requires
        lo < hi,
    ensures
        lo <= r < hi,
{
    rand::thread_rng().gen_range(lo..hi)
}

/// The time layout of an access-log line: `day/Mon/Year:HH:MM:SS +offset`,
/// with the calendar year.
pub open spec fn log_time_pattern() -> Seq<char> {
    "%d/%b/%Y:%H:%M:%S %z"@
}

/// Relies on chrono's Utc::now and DateTime::format: the current time laid
/// out by `pattern`, a layout that chrono formats without error.
#[verifier::external_body]
fn format_time_now(pattern: &str) -> (r: String)
    requires
        pattern@ == log_time_pattern(),
{
    chrono::Utc::now().format(pattern).to_string()
}

/// Formats an access-log line from its parts.
pub fn apache_log_line(addr: &str, user: &str, time: &str, method: &str, word: &str, status: u64) -> (r: String)
    ensures
        r@ == apache_line(addr@, user@, time@, method@, word@, status as nat),
{
    let mut s = String::from_str(addr);
    s.append(" - ");
    s.append(user);
    s.append(" [");
    s.append(time);
    s.append("] \"");
    s.append(method);
    s.append(" /");
    s.append(word);
    s.append(" HTTP/1.1\" ");
    push_decimal(&mut s, status);
    s.append(" 1024");
    s
}

/// Formats a network-flow line from its parts.
pub fn vpc_flow_line(f: &Flow, action: &str, status: &str) -> (r: String)
    ensures
        r@ == flow_line(*f, action@, status@),
{
    let mut s = String::from_str("2 1234567890 eni-sdvu4NphZxGvp1MDz ");
    s.append(f.client_ip.as_str());
    s.append(" ");
    s.append(f.server_ip.as_str());
    s.append(" ");
    push_decimal(&mut s, f.client_port);
    s.append(" ");
    push_decimal(&mut s, f.server_port);
    s.append(" 6 ");
    push_decimal(&mut s, f.packets);
    s.append(" ");
    push_decimal(&mut s, f.bytes);
    s.append(" ");
    push_signed_decimal(&mut s, f.start);
    s.append(" ");
    push_signed_decimal(&mut s, f.end);
    s.append(" ");
    s.append(action);
    s.append(" ");
    s.append(status);
    s
}

/// An access-log line of `method` and `status` from a random address and
/// user, at the current time, for a random path.
pub fn generate_apache_log_line(method: &str, status: u64) -> (r: String)
    ensures
        exists|a: Seq<char>, u: Seq<char>, t: Seq<char>, w: Seq<char>|
            is_fake_ipv4(a) && r@ == #[trigger] apache_line(a, u, t, method@, w, status as nat),
{
    let addr = fake_ipv4();
    let user = fake_username();
    let pattern = "%d/%b/%Y:%H:%M:%S %z";
    proof { reveal_strlit("%d/%b/%Y:%H:%M:%S %z"); }
    let time = format_time_now(pattern);
    let word = fake_buzzword();
    apache_log_line(addr.as_str(), user.as_str(), time.as_str(), method, word.as_str(), status)
}

/// A random flow to `port`: a client port in `30000..78000`, 230 to 8999
/// bytes, 5 to 999 packets, started 5 to 29 seconds before it ended now.
pub fn random_flow(port: u64) -> (f: Flow)
    ensures
        f.server_port == port,
        30000 <= f.client_port < 78000,
        230 <= f.bytes < 9000,
        5 <= f.packets < 1000,
        5 <= f.end - f.start < 30,
        is_fake_ipv4(f.client_ip@),
        is_fake_ipv4(f.server_ip@),
{
    let offset = random_below(5, 30);
    let end = seconds_from_micros(epoch_micros_now());
    let start: i64 = end - offset as i64;
    let client_ip = fake_ipv4();
    let server_ip = fake_ipv4();
    let client_port = random_below(30000, 78000);
    let bytes = random_below(230, 9000);
    let packets = random_below(5, 1000);
    Flow { client_ip, server_ip, client_port, server_port: port, packets, bytes, start, end }
}

/// A network-flow line of `action` and `status` to `port`, with random
/// addresses, client port, sizes and times.
pub fn generate_vpc_flow_line(action: &str, status: &str, port: u64) -> (r: String)
    ensures
        exists|f: Flow| f.server_port == port && 30000 <= f.client_port < 78000
            && 230 <= f.bytes < 9000 && 5 <= f.packets < 1000 && 5 <= f.end - f.start < 30
            && is_fake_ipv4(f.client_ip@) && is_fake_ipv4(f.server_ip@)
            && #[trigger] flow_line(f, action@, status@) == r@,
{
    let f = random_flow(port);
    let r = vpc_flow_line(&f, action, status);
    assert(flow_line(f, action@, status@) == r@);
    r
}

/// A record of `message` from `service`.
pub fn message_record(message: String, service: &str) -> (r: Record)
    ensures
        r@ == message_fields(message@, service@),
        r.wf(),
{
    let mut fields: Vec<(String, FieldValue)> = Vec::new();
    fields.push((String::from_str("message"), FieldValue::Text(message)));
    fields.push((String::from_str("service"), FieldValue::Text(String::from_str(service))));
    let r = Record { fields };
    proof {
        reveal_strlit("message");
        reveal_strlit("service");
        assert(r@ =~= message_fields(message@, service@));
        assert("message"@[0] != "service"@[0]);
    }
    r
}

/// `rec` is an access-log record of the web store, of `method` and `status`.
pub open spec fn is_http_record(rec: Fields, method: Seq<char>, status: nat) -> bool {
    exists|a: Seq<char>, u: Seq<char>, t: Seq<char>, w: Seq<char>|
        is_fake_ipv4(a) && rec == message_fields(#[trigger] apache_line(a, u, t, method, w, status), "storedog"@)
}

/// `rec` is a network-flow record of `action` and `status` to `port`, with
/// its random values in their ranges.
pub open spec fn is_flow_record(rec: Fields, action: Seq<char>, status: Seq<char>, port: u64) -> bool {
    exists|f: Flow| f.server_port == port && 30000 <= f.client_port < 78000
        && 230 <= f.bytes < 9000 && 5 <= f.packets < 1000 && 5 <= f.end - f.start < 30
        && is_fake_ipv4(f.client_ip@) && is_fake_ipv4(f.server_ip@)
        && rec == message_fields(#[trigger] flow_line(f, action, status), "aws.vpc_flow_logs"@)
}

/// `rec` is the second record of a leak: a card number in its message.
pub open spec fn is_leak_record(rec: Fields) -> bool {
    exists|card: Seq<char>| is_card_number(card) && rec == message_fields(#[trigger] leak_message(card), "storedog"@)
}

/// What one invocation of the producer of `c` yields.
pub open spec fn produced_by(c: Category, rs: Seq<Fields>) -> bool {
    match c {
        Category::Http => rs.len() == 1 && is_http_record(rs[0], "GET"@, 200),
        Category::HttpError => rs.len() == 1 && is_http_record(rs[0], "GET"@, 500),
        Category::HttpLeak => rs.len() == 2 && is_http_record(rs[0], "POST"@, 504) && is_leak_record(rs[1]),
        Category::FlowAccept => rs.len() == 1 && is_flow_record(rs[0], "ACCEPT"@, "OK"@, 443),
        Category::FlowAttack => rs.len() == 1 && is_flow_record(rs[0], "REJECT"@, "OK"@, 22),
    }
}

fn http_record(method: &str, status: u64) -> (r: Record)
    ensures
        is_http_record(r@, method@, status as nat),
        r.wf(),
{
    let line = generate_apache_log_line(method, status);
    message_record(line, "storedog")
}

fn flow_record(action: &str, status: &str, port: u64) -> (r: Record)
    ensures
        is_flow_record(r@, action@, status@, port),
        r.wf(),
{
    let line = generate_vpc_flow_line(action, status, port);
    message_record(line, "aws.vpc_flow_logs")
}

/// The message that leaks `card`.
pub fn leak_line(card: &str) -> (r: String)
    ensures
        r@ == leak_message(card@),
{
    let mut s = String::from_str("ERROR could not charge card ");
    s.append(card);
    s.append("!");
    s
}

/// The two fields of a message record hold the message and the service.
pub proof fn lemma_message_fields(message: Seq<char>, service: Seq<char>)
    ensures
        keys_unique(message_fields(message, service)),
        lookup(message_fields(message, service), "message"@) == Some(Datum::Text(message)),
        lookup(message_fields(message, service), "service"@) == Some(Datum::Text(service)),
{
    reveal_strlit("message");
    reveal_strlit("service");
    assert("message"@[0] != "service"@[0]);
    let s = message_fields(message, service);
    assert(s[0].0 == "message"@);
    assert(s[1].0 == "service"@);
}

/// An event of the leak category yields exactly two records, both of the
/// web store's service, and the message of the second holds a card number
/// of fifteen or sixteen digits.
pub proof fn lemma_leak_pair(rs: Seq<Fields>)
    requires
        produced_by(Category::HttpLeak, rs),
    ensures
        rs.len() == 2,
        keys_unique(rs[0]) && keys_unique(rs[1]),
        lookup(rs[0], "service"@) == Some(Datum::Text("storedog"@)),
        lookup(rs[1], "service"@) == Some(Datum::Text("storedog"@)),
        exists|m: Seq<char>, card: Seq<char>, j: int|
            lookup(rs[1], "message"@) == Some(Datum::Text(m)) && is_card_number(card) && 0 <= j
                && j + card.len() <= m.len() && #[trigger] m.subrange(j, j + card.len()) == card,
{
    let (a, u, t, w) = choose|a: Seq<char>, u: Seq<char>, t: Seq<char>, w: Seq<char>|
        rs[0] == message_fields(#[trigger] apache_line(a, u, t, "POST"@, w, 504), "storedog"@);
    lemma_message_fields(apache_line(a, u, t, "POST"@, w, 504), "storedog"@);
    let card = choose|card: Seq<char>| is_card_number(card) && rs[1] == message_fields(#[trigger] leak_message(card), "storedog"@);
    let m = leak_message(card);
    lemma_message_fields(m, "storedog"@);
    let p = "ERROR could not charge card "@;
    assert(m.subrange(p.len() as int, (p.len() + card.len()) as int) =~= card);
}

impl Category {
    /// Synthesizes the records of one event of this category: one record,
    /// or for a leak a failed payment followed by the line that leaks the
    /// card number.
    pub fn produce(self) -> (r: Vec<Record>)
        ensures
            produced_by(self, views(r@)),
            forall|i: int| 0 <= i < r.len() ==> (#[trigger] r[i]).wf(),
    {
        let mut out: Vec<Record> = Vec::new();
        match self {
            Category::Http => out.push(http_record("GET", 200)),
            Category::HttpError => out.push(http_record("GET", 500)),
            Category::HttpLeak => {
                out.push(http_record("POST", 504));
                let card = fake_card_number();
                let line = leak_line(card.as_str());
                out.push(message_record(line, "storedog"));
            },
            Category::FlowAccept => out.push(flow_record("ACCEPT", "OK", 443)),
            Category::FlowAttack => out.push(flow_record("REJECT", "OK", 22)),
        }
        out
    }
}

} // verus!
