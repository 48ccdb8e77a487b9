use dynamo::{
    apache_log_line, batch_body, emit, generate_apache_log_line, generate_vpc_flow_line,
    limiter_settings, logs_endpoint, message_record, millis_from_micros, new_rate_limiter,
    planned_tasks, push_decimal, push_signed_decimal, random_flow, seconds_from_micros, stamp_records,
    vpc_flow_line, Batcher, Category, CommonMetadata, Event, FieldValue, Flow, Rates, Record,
};

fn text_of(r: &Record, key: &str) -> Option<String> {
    match r.get(key) {
        Some(FieldValue::Text(s)) => Some(s.clone()),
        _ => None,
    }
}

fn int_of(r: &Record, key: &str) -> Option<i64> {
    match r.get(key) {
        Some(FieldValue::Int(n)) => Some(*n),
        _ => None,
    }
}

fn meta() -> CommonMetadata {
    CommonMetadata::new("box-1".to_string())
}

#[test]
fn decimal_text_of_numbers() {
    let mut s = String::new();
    push_decimal(&mut s, 0);
    assert_eq!(s, "0");
    let mut s = "n=".to_string();
    push_decimal(&mut s, 1024);
    assert_eq!(s, "n=1024");
    let mut s = String::new();
    push_decimal(&mut s, u64::MAX);
    assert_eq!(s, "18446744073709551615");
    let mut s = String::new();
    push_signed_decimal(&mut s, -5);
    assert_eq!(s, "-5");
    let mut s = String::new();
    push_signed_decimal(&mut s, i64::MIN);
    assert_eq!(s, "-9223372036854775808");
}

#[test]
fn metadata_has_fixed_fields() {
    let m = meta();
    assert_eq!(m.source, "dynamo");
    assert_eq!(m.hostname, "box-1");
    assert_eq!(m.status, "INFO");
    assert_eq!(m.tags, "kube_namespace:test");
}

#[test]
fn set_overwrites_in_place_and_appends_new() {
    let mut r = Record::new();
    r.set("a", FieldValue::Int(1));
    r.set("b", FieldValue::Int(2));
    r.set("a", FieldValue::Int(3));
    assert_eq!(r.fields.len(), 2);
    assert_eq!(r.fields[0].0, "a");
    assert_eq!(int_of(&r, "a"), Some(3));
    assert_eq!(int_of(&r, "b"), Some(2));
    assert!(r.get("c").is_none());
}

#[test]
fn merge_overwrites_common_fields_only() {
    let mut r = message_record("hello".to_string(), "storedog");
    r.set("status", FieldValue::Text("ERROR".to_string()));
    r.set("ddsource", FieldValue::Text("other".to_string()));
    r.merge(&meta());
    assert_eq!(text_of(&r, "status").as_deref(), Some("INFO"));
    assert_eq!(text_of(&r, "ddsource").as_deref(), Some("dynamo"));
    assert_eq!(text_of(&r, "hostname").as_deref(), Some("box-1"));
    assert_eq!(text_of(&r, "ddtags").as_deref(), Some("kube_namespace:test"));
    assert_eq!(text_of(&r, "message").as_deref(), Some("hello"));
    assert_eq!(text_of(&r, "service").as_deref(), Some("storedog"));
    assert_eq!(r.fields.len(), 6);
    assert_eq!(r.fields[2].0, "status");
}

#[test]
fn stamp_sets_timestamp() {
    let mut r = message_record("x".to_string(), "s");
    r.stamp(&meta(), 1_700_000_000_123);
    assert_eq!(int_of(&r, "timestamp"), Some(1_700_000_000_123));
    assert_eq!(text_of(&r, "ddsource").as_deref(), Some("dynamo"));
}

#[test]
fn stamped_records_carry_metadata_and_ordered_timestamps() {
    let recs = vec![
        message_record("one".to_string(), "s"),
        message_record("two".to_string(), "s"),
        message_record("three".to_string(), "s"),
    ];
    let out = stamp_records(recs, &meta());
    assert_eq!(out.len(), 3);
    let mut last = i64::MIN;
    for (i, r) in out.iter().enumerate() {
        assert_eq!(text_of(r, "ddsource").as_deref(), Some("dynamo"));
        assert_eq!(text_of(r, "hostname").as_deref(), Some("box-1"));
        assert_eq!(text_of(r, "status").as_deref(), Some("INFO"));
        assert_eq!(text_of(r, "ddtags").as_deref(), Some("kube_namespace:test"));
        let t = int_of(r, "timestamp").unwrap();
        assert!(t >= last);
        assert!(t > 1_500_000_000_000);
        last = t;
        assert_eq!(text_of(r, "message").as_deref(), Some(["one", "two", "three"][i]));
    }
}

#[test]
fn millis_round_toward_zero() {
    assert_eq!(millis_from_micros(1_999), 1);
    assert_eq!(millis_from_micros(-1_999), -1);
    assert_eq!(millis_from_micros(0), 0);
    assert_eq!(millis_from_micros(i64::MIN), -9_223_372_036_854_775);
}

#[test]
fn limiter_settings_follow_rate() {
    assert!(limiter_settings(0).is_none());
    let s = limiter_settings(100).unwrap();
    assert_eq!((s.max, s.initial, s.refill, s.interval_ms), (10_000, 0, 101, 1000));
    let s = limiter_settings(1).unwrap();
    assert_eq!((s.max, s.initial, s.refill, s.interval_ms), (100, 0, 2, 1000));
    let s = limiter_settings(10).unwrap();
    assert_eq!(s.refill, 11);
    let s = limiter_settings(200).unwrap();
    assert_eq!(s.refill, 202);
}

#[test]
fn zero_rate_builds_no_limiter() {
    assert!(new_rate_limiter(0).is_none());
    let l = new_rate_limiter(5).unwrap();
    assert_eq!(l.bucket().max(), 500);
    assert_eq!(l.bucket().refill(), 6);
    assert_eq!(l.bucket().interval(), std::time::Duration::from_millis(1000));
    let l = new_rate_limiter(100).unwrap();
    assert_eq!(l.bucket().max(), 10_000);
    assert_eq!(l.bucket().refill(), 101);
}

#[test]
fn zero_rate_categories_get_no_task() {
    let rates = Rates { http: 100, http_error: 10, http_leak: 1, flow_accept: 0, flow_attack: 0 };
    let tasks = planned_tasks(&rates);
    assert_eq!(
        tasks,
        vec![(Category::Http, 100), (Category::HttpError, 10), (Category::HttpLeak, 1)]
    );
    let none = Rates { http: 0, http_error: 0, http_leak: 0, flow_accept: 0, flow_attack: 0 };
    assert!(planned_tasks(&none).is_empty());
    let last = Rates { http: 0, http_error: 0, http_leak: 0, flow_accept: 0, flow_attack: 3 };
    assert_eq!(planned_tasks(&last), vec![(Category::FlowAttack, 3)]);
}

#[test]
fn apache_line_layout() {
    let l = apache_log_line("10.0.0.7", "smith1234", "18/Oct/2026:10:00:00 +0000", "GET", "synergy", 200);
    assert_eq!(l, "10.0.0.7 - smith1234 [18/Oct/2026:10:00:00 +0000] \"GET /synergy HTTP/1.1\" 200 1024");
}

#[test]
fn generated_apache_line_has_method_and_status() {
    let l = generate_apache_log_line("POST", 504);
    assert!(l.contains("] \"POST /"));
    assert!(l.ends_with(" HTTP/1.1\" 504 1024"));
    assert!(l.contains(" - "));
    let addr = l.split(' ').next().unwrap();
    assert_ipv4_shape(addr);
    let time = &l[l.find('[').unwrap() + 1..l.find(']').unwrap()];
    let year = chrono::Utc::now().format("%Y").to_string();
    assert_eq!(&time[2..3], "/");
    assert_eq!(&time[6..7], "/");
    assert_eq!(&time[7..11], year.as_str());
    assert_eq!(&time[11..12], ":");
}

fn assert_ipv4_shape(addr: &str) {
    let parts: Vec<&str> = addr.split('.').collect();
    assert_eq!(parts.len(), 4);
    for p in parts {
        let n: u32 = p.parse().unwrap();
        assert!((2..254).contains(&n));
    }
}

#[test]
fn flow_line_layout() {
    let f = Flow {
        client_ip: "1.2.3.4".to_string(),
        server_ip: "5.6.7.8".to_string(),
        client_port: 40000,
        server_port: 22,
        packets: 12,
        bytes: 900,
        start: 1_700_000_000,
        end: 1_700_000_010,
    };
    let l = vpc_flow_line(&f, "REJECT", "OK");
    assert_eq!(
        l,
        "2 1234567890 eni-sdvu4NphZxGvp1MDz 1.2.3.4 5.6.7.8 40000 22 6 12 900 1700000000 1700000010 REJECT OK"
    );
}

#[test]
fn generated_flow_line_fields_in_range() {
    let l = generate_vpc_flow_line("ACCEPT", "OK", 443);
    let parts: Vec<&str> = l.split(' ').collect();
    assert_eq!(parts.len(), 14);
    assert_eq!(parts[0], "2");
    assert_eq!(parts[6], "443");
    assert_eq!(parts[7], "6");
    let port: u64 = parts[5].parse().unwrap();
    assert!((30000..78000).contains(&port));
    let packets: u64 = parts[8].parse().unwrap();
    assert!((5..1000).contains(&packets));
    let bytes: u64 = parts[9].parse().unwrap();
    assert!((230..9000).contains(&bytes));
    let start: i64 = parts[10].parse().unwrap();
    let end: i64 = parts[11].parse().unwrap();
    assert!(end - start >= 5 && end - start < 30);
    assert_eq!(parts[12], "ACCEPT");
    assert_eq!(parts[13], "OK");
    assert_ipv4_shape(parts[3]);
    assert_ipv4_shape(parts[4]);
    let f = random_flow(22);
    assert_eq!(f.server_port, 22);
    assert!(f.end - f.start >= 5 && f.end - f.start < 30);
    assert!(f.end > 1_500_000_000);
}

#[test]
fn http_categories_yield_one_store_record() {
    for (c, tail) in [(Category::Http, "\" 200 1024"), (Category::HttpError, "\" 500 1024")] {
        let rs = c.produce();
        assert_eq!(rs.len(), 1);
        assert_eq!(text_of(&rs[0], "service").as_deref(), Some("storedog"));
        let m = text_of(&rs[0], "message").unwrap();
        assert!(m.contains("\"GET /"));
        assert!(m.ends_with(tail));
    }
}

#[test]
fn leak_pair_two_store_records_with_card() {
    for _ in 0..20 {
        let rs = Category::HttpLeak.produce();
        assert_eq!(rs.len(), 2);
        assert_eq!(text_of(&rs[0], "service").as_deref(), Some("storedog"));
        assert_eq!(text_of(&rs[1], "service").as_deref(), Some("storedog"));
        assert!(text_of(&rs[0], "message").unwrap().ends_with("\" 504 1024"));
        let m = text_of(&rs[1], "message").unwrap();
        let card = m
            .strip_prefix("ERROR could not charge card ")
            .and_then(|s| s.strip_suffix('!'))
            .unwrap();
        assert!(card.len() == 15 || card.len() == 16);
        assert!(card.chars().all(|c| c.is_ascii_digit()));
    }
}

#[test]
fn flow_categories_yield_one_flow_record() {
    for (c, action, port) in [(Category::FlowAccept, "ACCEPT", "443"), (Category::FlowAttack, "REJECT", "22")] {
        let rs = c.produce();
        assert_eq!(rs.len(), 1);
        assert_eq!(text_of(&rs[0], "service").as_deref(), Some("aws.vpc_flow_logs"));
        let m = text_of(&rs[0], "message").unwrap();
        let parts: Vec<&str> = m.split(' ').collect();
        assert_eq!(parts[6], port);
        assert_eq!(parts[12], action);
        assert_eq!(parts[13], "OK");
    }
}

#[test]
fn emit_stamps_every_record_of_an_event() {
    let rs = emit(Category::HttpLeak, &meta());
    assert_eq!(rs.len(), 2);
    for r in &rs {
        assert_eq!(text_of(r, "service").as_deref(), Some("storedog"));
        assert_eq!(text_of(r, "ddsource").as_deref(), Some("dynamo"));
        assert_eq!(text_of(r, "hostname").as_deref(), Some("box-1"));
        assert!(int_of(r, "timestamp").is_some());
    }
    assert!(int_of(&rs[0], "timestamp").unwrap() <= int_of(&rs[1], "timestamp").unwrap());
}

#[test]
fn batch_body_is_compact_json_array() {
    assert_eq!(batch_body(&vec![]), "[]");
    let mut a = Record::new();
    a.set("message", FieldValue::Text("say \"hi\"\n".to_string()));
    a.set("timestamp", FieldValue::Int(-3));
    let mut b = Record::new();
    b.set("n", FieldValue::Int(42));
    let body = batch_body(&vec![a, b]);
    assert_eq!(body, "[{\"message\":\"say \\\"hi\\\"\\n\",\"timestamp\":-3},{\"n\":42}]");
    let parsed: serde_json::Value = serde_json::from_str(&body).unwrap();
    assert_eq!(parsed[0]["message"], "say \"hi\"\n");
    assert_eq!(parsed[1]["n"], 42);
    assert_eq!(batch_body(&vec![Record::new()]), "[{}]");
    let mut c = Record::new();
    c.set("k\\", FieldValue::Text("\u{1}\t\r\u{8}\u{c}\u{1f}\u{7f}/é".to_string()));
    assert_eq!(
        batch_body(&vec![c]),
        "[{\"k\\\\\":\"\\u0001\\t\\r\\b\\f\\u001f\u{7f}/é\"}]"
    );
}

#[test]
fn endpoint_appends_logs_path() {
    assert_eq!(logs_endpoint("http://localhost:8282"), "http://localhost:8282/api/v2/logs");
}

#[test]
fn batch_flushes_when_full() {
    let mut b: Batcher<u32> = Batcher::new(3, 5000);
    assert!(b.push(1, 0).is_none());
    assert!(b.push(2, 10).is_none());
    assert_eq!(b.len(), 2);
    assert_eq!(b.push(3, 20), Some(vec![1, 2, 3]));
    assert_eq!(b.len(), 0);
    assert_eq!(b.remaining(30), None);
}

#[test]
fn batch_flushes_on_timeout() {
    let mut b: Batcher<u32> = Batcher::new(5, 5000);
    assert!(b.push(7, 1000).is_none());
    assert_eq!(b.remaining(1000), Some(5000));
    assert!(b.push(8, 3000).is_none());
    assert_eq!(b.remaining(4000), Some(2000));
    assert!(b.poll(5999).is_none());
    assert_eq!(b.remaining(6500), Some(0));
    assert_eq!(b.poll(6000), Some(vec![7, 8]));
    assert!(b.poll(20000).is_none());
}

#[test]
fn push_after_deadline_flushes() {
    let mut b: Batcher<u32> = Batcher::new(5, 100);
    assert!(b.push(1, 0).is_none());
    assert_eq!(b.push(2, 150), Some(vec![1, 2]));
    let mut z: Batcher<u32> = Batcher::new(5, 0);
    assert_eq!(z.push(9, 42), Some(vec![9]));
}

#[test]
fn close_flushes_partial_batch_once() {
    let mut b: Batcher<u32> = Batcher::new(4, 1000);
    b.push(1, 0);
    b.push(2, 1);
    assert_eq!(b.close(), Some(vec![1, 2]));
    assert_eq!(b.close(), None);
    assert_eq!((b.max_size(), b.max_wait()), (4, 1000));
}

#[test]
fn fast_rate_batches_by_size() {
    // One category at 100 records a second for one second, max_size 5 and
    // max_wait 5 s.
    let mut b: Batcher<u32> = Batcher::new(5, 5000);
    let mut batches: Vec<Vec<u32>> = Vec::new();
    for i in 0..100u32 {
        let now = (i as u64) * 10;
        if let Some(batch) = b.poll(now) {
            batches.push(batch);
        }
        if let Some(batch) = b.push(i, now) {
            batches.push(batch);
        }
    }
    assert!(batches.len() >= 20);
    assert!(batches.iter().all(|x| x.len() == 5));
    assert_eq!(batches[0], vec![0, 1, 2, 3, 4]);
}

#[test]
fn slow_rate_first_batch_near_five_seconds() {
    // One record a second, the first after one second; max_size 5 and
    // max_wait 5 s.
    let mut b: Batcher<u32> = Batcher::new(5, 5000);
    let mut first: Option<(u64, Vec<u32>)> = None;
    let mut now: u64 = 0;
    let mut n: u32 = 0;
    while first.is_none() && now <= 10_000 {
        if now > 0 && now % 1000 == 0 {
            n += 1;
            if let Some(batch) = b.push(n, now) {
                first = Some((now, batch));
            }
        }
        if first.is_none() {
            if let Some(batch) = b.poll(now) {
                first = Some((now, batch));
            }
        }
        now += 100;
    }
    let (at, batch) = first.unwrap();
    assert!((4000..=6000).contains(&at));
    assert!(!batch.is_empty() && batch.len() <= 5);
}

#[test]
fn sparse_records_flush_by_timeout() {
    let mut b: Batcher<u32> = Batcher::new(5, 5000);
    for (i, t) in [1000u64, 2250, 3500, 4750].iter().enumerate() {
        assert!(b.push(i as u32, *t).is_none());
    }
    assert!(b.poll(5999).is_none());
    assert_eq!(b.poll(6000), Some(vec![0, 1, 2, 3]));
}

#[test]
fn failed_delivery_does_not_stop_next_batch() {
    let mut b: Batcher<u32> = Batcher::new(5, 5000);
    let mut delivered: Vec<Vec<u32>> = Vec::new();
    let mut n: usize = 0;
    for i in 0..10u32 {
        if let Some(batch) = b.push(i, i as u64) {
            n += 1;
            // The first delivery fails: that batch is dropped.
            if n > 1 {
                delivered.push(batch);
            }
        }
    }
    assert_eq!(n, 2);
    assert_eq!(delivered, vec![vec![5, 6, 7, 8, 9]]);
    assert_eq!(b.len(), 0);
}

#[test]
fn seconds_round_down() {
    assert_eq!(seconds_from_micros(1_999_999), 1);
    assert_eq!(seconds_from_micros(0), 0);
    assert_eq!(seconds_from_micros(-1), -1);
    assert_eq!(seconds_from_micros(-1_000_000), -1);
    assert_eq!(seconds_from_micros(-1_000_001), -2);
}

#[test]
fn step_drives_push_poll_and_close() {
    let mut b: Batcher<u32> = Batcher::new(2, 1000);
    assert_eq!(b.step(Event::Received(1), 0), (None, false));
    assert_eq!(b.step(Event::TimedOut, 500), (None, false));
    assert_eq!(b.step(Event::Received(2), 600), (Some(vec![1, 2]), false));
    assert_eq!(b.step(Event::Received(3), 700), (None, false));
    assert_eq!(b.step(Event::TimedOut, 1700), (Some(vec![3]), false));
    assert_eq!(b.step(Event::Received(4), 1800), (None, false));
    assert_eq!(b.step(Event::Closed, 1900), (Some(vec![4]), true));
    assert_eq!(b.step(Event::Closed, 2000), (None, true));
}
