//! The watcher providers: validation, update plans, request signing and
//! response interpretation.

use nat2::client::{Ipv4Octets, MappedAddress};
use nat2::config::Metadata;
use nat2::watcher::dns::ValidateError;
use nat2::watcher::{alidns, cf, dnspod, ApiError, WatcherError};

fn wb(s: &str) -> Vec<u8> {
    s.as_bytes().to_vec()
}

fn waddr(a: u8, b: u8, c: u8, d: u8, port: u16) -> MappedAddress {
    MappedAddress { ip: Ipv4Octets { a, b, c, d }, port }
}

fn meta(domain: Option<&str>, kind: Option<&str>, value: &str) -> Metadata {
    Metadata {
        name: wb("w"),
        value: wb(value),
        domain: domain.map(wb),
        kind: kind.map(wb),
        priority: None,
        rid: None,
        ttl: None,
        proxied: None,
    }
}

#[test]
fn dns_validate_demands_domain_and_type() {
    let d = dnspod::DnsPod::new(wb("d"), wb("id"), wb("key"));
    assert_eq!(d.validate(&meta(None, Some("A"), "{ip}")), Err(ValidateError::MissingDomain));
    assert_eq!(
        d.validate(&meta(Some("example.com"), None, "{ip}")),
        Err(ValidateError::MissingType)
    );
    assert!(d.validate(&meta(Some("example.com"), Some("A"), "{ip}")).is_ok());
}

#[test]
fn dns_validate_demands_priority_for_svcb_and_https() {
    let d = dnspod::DnsPod::new(wb("d"), wb("id"), wb("key"));
    assert_eq!(
        d.validate(&meta(Some("example.com"), Some("SVCB"), "x y")),
        Err(ValidateError::MissingPriority)
    );
    assert_eq!(
        d.validate(&meta(Some("example.com"), Some("https"), "x y")),
        Err(ValidateError::MissingPriority)
    );
    let mut md = meta(Some("example.com"), Some("HTTPS"), "x y");
    md.priority = Some(1);
    assert!(d.validate(&md).is_ok());
    // URI records demand a priority at every DNS provider.
    assert_eq!(
        d.validate(&meta(Some("example.com"), Some("URI"), "https://x/")),
        Err(ValidateError::MissingPriority)
    );
    let mut md = meta(Some("example.com"), Some("uri"), "https://x/");
    md.priority = Some(2);
    assert!(d.validate(&md).is_ok());
}

#[test]
fn dns_validate_rejects_bad_domains() {
    let d = dnspod::DnsPod::new(wb("d"), wb("id"), wb("key"));
    assert_eq!(
        d.validate(&meta(Some("localhost"), Some("A"), "{ip}")),
        Err(ValidateError::InvalidDomain)
    );
}

#[test]
fn dnspod_validate_demands_numeric_record_id() {
    let d = dnspod::DnsPod::new(wb("d"), wb("id"), wb("key"));
    let mut md = meta(Some("example.com"), Some("A"), "{ip}");
    md.rid = Some(wb("123"));
    assert!(d.validate(&md).is_ok());
    md.rid = Some(wb("12x"));
    assert_eq!(d.validate(&md), Err(ValidateError::InvalidRecordId));
}

#[test]
fn dnspod_update_plan_builds_the_record() {
    let d = dnspod::DnsPod::new(wb("d"), wb("id"), wb("key"));
    let mut md = meta(Some("www.example.com"), Some("A"), "{ip}");
    md.ttl = Some(600);
    md.rid = Some(wb("42"));
    let p = d.update_plan(&md, &waddr(1, 2, 3, 4, 5000)).unwrap();
    assert_eq!(p.domain, wb("example.com"));
    assert_eq!(p.subdomain, wb("www"));
    assert_eq!(p.record.domain, wb("example.com"));
    assert_eq!(p.record.subdomain, wb("www"));
    assert_eq!(p.record.record_type, wb("A"));
    assert_eq!(p.record.value, wb("1.2.3.4"));
    assert_eq!(p.record.ttl, Some(600));
    assert_eq!(p.record_id, Some(42));
}

#[test]
fn dnspod_update_plan_writes_empty_subdomain_as_at() {
    let d = dnspod::DnsPod::new(wb("d"), wb("id"), wb("key"));
    let md = meta(Some("example.com"), Some("TXT"), "v={ip}:{port}");
    let p = d.update_plan(&md, &waddr(1, 2, 3, 4, 5000)).unwrap();
    assert_eq!(p.record.subdomain, wb("@"));
    assert_eq!(p.subdomain, wb(""));
    assert_eq!(p.record.value, wb("v=1.2.3.4:5000"));
    assert_eq!(p.record_id, None);
}

#[test]
fn dnspod_record_line_is_verbatim() {
    assert_eq!(dnspod::record_line(), "\u{9ed8}\u{8ba4}".as_bytes().to_vec());
}

#[test]
fn dnspod_signature_golden() {
    let d = dnspod::DnsPod::new(wb("d"), wb("id"), wb("key"));
    let auth = d.sign(&wb("DescribeRecordList"), &wb("{}"), 1700000000).unwrap();
    assert_eq!(
        auth,
        wb("TC3-HMAC-SHA256 Credential=id/2023-11-14/dnspod/tc3_request, \
            SignedHeaders=content-type;host;x-tc-action, \
            Signature=0f7d9bb829256a68a50dc798a3f2d0a8bdddcf97896da8ad85bd2946ce9d233b")
    );
}

#[test]
fn dnspod_headers_carry_timestamp_and_signature() {
    let d = dnspod::DnsPod::new(wb("d"), wb("id"), wb("key"));
    let hs = d.headers(&wb("CreateRecord"), &wb("{}"), 1700000000).unwrap();
    assert_eq!(hs.len(), 5);
    assert_eq!(hs[0], (wb("Content-Type"), wb("application/json; charset=utf-8")));
    assert_eq!(hs[1], (wb("X-TC-Version"), wb("2021-03-23")));
    assert_eq!(hs[2], (wb("X-TC-Action"), wb("CreateRecord")));
    assert_eq!(hs[3], (wb("X-TC-Timestamp"), wb("1700000000")));
    assert!(hs[4].1.starts_with(b"TC3-HMAC-SHA256 Credential=id/2023-11-14/"));
}

#[test]
fn dnspod_response_rules() {
    let ok = dnspod::BaseResponse { request_id: wb("r"), error: None };
    assert!(ok.success().is_ok());
    let failed = dnspod::BaseResponse {
        request_id: wb("r"),
        error: Some(ApiError { code: wb("AuthFailure"), message: wb("nope") }),
    };
    let e = failed.success().unwrap_err();
    assert_eq!(e.code, wb("AuthFailure"));
    assert_eq!(e.message, wb("nope"));

    // An empty record list is no failure.
    let benign = Some(ApiError { code: wb("ResourceNotFound.NoDataOfRecord"), message: wb("-") });
    assert_eq!(dnspod::record_lookup_result(benign, &vec![]), Ok(None));
    let hit = dnspod::record_lookup_result(None, &vec![7, 8]);
    assert_eq!(hit, Ok(Some(7)));
    let real = Some(ApiError { code: wb("AuthFailure"), message: wb("-") });
    assert!(dnspod::record_lookup_result(real, &vec![]).is_err());

    assert_eq!(dnspod::record_result(None, Some(9)), Ok(9));
    assert!(matches!(
        dnspod::record_result(None, None),
        Err(WatcherError::MissingRecordId)
    ));
    let api = Some(ApiError { code: wb("x"), message: wb("y") });
    assert!(matches!(dnspod::record_result(api, Some(9)), Err(WatcherError::Api(_))));
}

#[test]
fn alidns_new_reads_the_host() {
    let a = alidns::AliDns::new(wb("a"), wb("id"), wb("key"), None).unwrap();
    assert_eq!(a.url, wb("https://dns.aliyuncs.com"));
    assert_eq!(a.host, wb("dns.aliyuncs.com"));
    let a = alidns::AliDns::new(wb("a"), wb("id"), wb("key"), Some(wb("https://dns.example.com:8053/x"))).unwrap();
    assert_eq!(a.host, wb("dns.example.com:8053"));
    assert!(alidns::AliDns::new(wb("a"), wb("id"), wb("key"), Some(wb("::::"))).is_err());
}

#[test]
fn alidns_canonical_query_percent_encodes_sorted_pairs() {
    let pairs = alidns::describe_pairs(&wb("www.example.com"), &wb("A"));
    assert_eq!(alidns::canonical_query(&pairs), wb("SubDomain=www.example.com&Type=A"));
    let pairs = vec![(wb("Value"), wb("a b+c"))];
    assert_eq!(alidns::canonical_query(&pairs), wb("Value=a%20b%2Bc"));
}

#[test]
fn alidns_record_pairs_stay_sorted() {
    let record = alidns::Record {
        domain_name: wb("example.com"),
        rr: wb("www"),
        record_type: wb("A"),
        value: wb("1.2.3.4"),
        priority: Some(10),
        ttl: Some(600),
    };
    let rid = wb("abc123");
    let pairs = alidns::record_pairs(&record, Some(&rid));
    let keys: Vec<Vec<u8>> = pairs.iter().map(|p| p.0.clone()).collect();
    assert_eq!(
        keys,
        vec![wb("DomainName"), wb("Priority"), wb("RR"), wb("RecordId"), wb("TTL"), wb("Type"), wb("Value")]
    );
    let vals: Vec<Vec<u8>> = pairs.iter().map(|p| p.1.clone()).collect();
    assert_eq!(
        vals,
        vec![wb("example.com"), wb("10"), wb("www"), wb("abc123"), wb("600"), wb("A"), wb("1.2.3.4")]
    );
    let no_opts = alidns::Record { priority: None, ttl: None, ..record };
    let pairs = alidns::record_pairs(&no_opts, None);
    let keys: Vec<Vec<u8>> = pairs.iter().map(|p| p.0.clone()).collect();
    assert_eq!(keys, vec![wb("DomainName"), wb("RR"), wb("Type"), wb("Value")]);
}

#[test]
fn alidns_signature_golden() {
    let a = alidns::AliDns::new(wb("a"), wb("id2"), wb("key2"), None).unwrap();
    let query = wb("SubDomain=www.example.com&Type=A");
    let date = wb("2023-11-14T22:13:20Z");
    let nonce = wb("00112233445566778899aabbccddeeff");
    let auth = a.sign(&wb("DescribeSubDomainRecords"), &query, &date, &nonce);
    assert_eq!(
        auth,
        wb("ACS3-HMAC-SHA256 Credential=id2, \
            SignedHeaders=host;x-acs-action;x-acs-content-sha256;x-acs-date;x-acs-signature-nonce;x-acs-version, \
            Signature=9855ef64b2eea57c6fd5d7ffedd3f9cca6bdab8f10c848ef48e5dcf4c8452c04")
    );
}

#[test]
fn alidns_headers_carry_date_and_nonce() {
    let a = alidns::AliDns::new(wb("a"), wb("id2"), wb("key2"), None).unwrap();
    let nonce = wb("00112233445566778899aabbccddeeff");
    let hs = a.headers(&wb("AddDomainRecord"), &wb("Type=A"), 1700000000, &nonce).unwrap();
    assert_eq!(hs.len(), 6);
    assert_eq!(hs[0], (wb("x-acs-action"), wb("AddDomainRecord")));
    assert_eq!(hs[1], (wb("x-acs-version"), wb("2015-01-09")));
    assert_eq!(hs[2], (wb("x-acs-date"), wb("2023-11-14T22:13:20Z")));
    assert_eq!(
        hs[3],
        (wb("x-acs-content-sha256"),
         wb("e3b0c44298fc1c149afbf4c8996fb92427ae41e4649b934ca495991b7852b855"))
    );
    assert_eq!(hs[4], (wb("x-acs-signature-nonce"), nonce.clone()));
    assert!(hs[5].1.starts_with(b"ACS3-HMAC-SHA256 Credential=id2,"));
}

#[test]
fn alidns_update_plan_builds_the_record() {
    let mut md = meta(Some("www.example.com"), Some("MX"), "{ip}");
    md.priority = Some(10);
    let (record, rid) = alidns::update_record_plan(&md, &waddr(1, 2, 3, 4, 5000)).unwrap();
    assert_eq!(record.domain_name, wb("example.com"));
    assert_eq!(record.rr, wb("www"));
    assert_eq!(record.record_type, wb("MX"));
    assert_eq!(record.value, wb("1.2.3.4"));
    assert_eq!(record.priority, Some(10));
    assert_eq!(rid, None);
}

#[test]
fn alidns_response_rules() {
    let ok = alidns::BaseResponse { request_id: wb("r"), code: None, message: None };
    assert!(ok.success().is_ok());
    let failed = alidns::BaseResponse {
        request_id: wb("r"),
        code: Some(wb("InvalidAccessKeyId")),
        message: None,
    };
    let e = failed.success().unwrap_err();
    assert_eq!(e.code, wb("InvalidAccessKeyId"));
    assert_eq!(e.message, wb("Please refer to the API documentation."));
    let hit = alidns::record_lookup_result(&ok, &vec![wb("r1"), wb("r2")]).unwrap();
    assert_eq!(hit, Some(wb("r1")));
    assert!(alidns::record_lookup_result(&failed, &vec![]).is_err());
}

#[test]
fn alidns_record_result_rules() {
    let ok = alidns::BaseResponse { request_id: wb("r"), code: None, message: None };
    assert_eq!(alidns::record_result(&ok, Some(wb("rec7"))), Ok(wb("rec7")));
    assert!(matches!(
        alidns::record_result(&ok, None),
        Err(WatcherError::MissingRecordId)
    ));
    let failed = alidns::BaseResponse {
        request_id: wb("r"),
        code: Some(wb("InvalidAccessKeyId")),
        message: None,
    };
    assert!(matches!(
        alidns::record_result(&failed, Some(wb("rec7"))),
        Err(WatcherError::Api(_))
    ));
}

#[test]
fn dnspod_sign_refuses_timestamps_beyond_the_calendar() {
    let d = dnspod::DnsPod::new(wb("d"), wb("id"), wb("key"));
    // One second past 9999-12-31T23:59:59Z.
    assert_eq!(d.sign(&wb("CreateRecord"), &wb("{}"), 253402300800), None);
    assert!(d.sign(&wb("CreateRecord"), &wb("{}"), 253402300799).is_some());
}

#[test]
fn cf_update_plan_errors_are_pinned() {
    let c = cf::Cloudflare::new(wb("c"), wb("token"));
    // HTTPS without a priority.
    let md = meta(Some("example.com"), Some("HTTPS"), "{ip} alpn=\"h2\"");
    assert!(matches!(
        c.update_plan(&md, &waddr(9, 9, 9, 9, 6000)),
        Err(ValidateError::MissingPriority)
    ));
    // An SRV value that does not parse.
    let md = meta(Some("example.com"), Some("SRV"), "{ip}");
    assert!(matches!(
        c.update_plan(&md, &waddr(9, 9, 9, 9, 6000)),
        Err(ValidateError::InvalidValue)
    ));
    // An SVCB value with no space after the target.
    let mut md = meta(Some("example.com"), Some("SVCB"), "lonetarget");
    md.priority = Some(1);
    assert!(matches!(
        c.update_plan(&md, &waddr(9, 9, 9, 9, 6000)),
        Err(ValidateError::InvalidValue)
    ));
}

#[test]
fn alidns_nonce_is_hex() {
    let n = alidns::make_nonce_hex().unwrap();
    assert_eq!(n.len(), 32);
    assert!(n.iter().all(|b| b.is_ascii_hexdigit()));
}

#[test]
fn cf_validate_whitelists_record_types() {
    let c = cf::Cloudflare::new(wb("c"), wb("token"));
    assert!(c.validate(&meta(Some("example.com"), Some("a"), "{ip}")).is_ok());
    assert_eq!(
        c.validate(&meta(Some("example.com"), Some("NS"), "x")),
        Err(ValidateError::UnsupportedType)
    );
    assert_eq!(
        c.validate(&meta(Some("example.com"), Some("URI"), "x")),
        Err(ValidateError::MissingPriority)
    );
}

#[test]
fn cf_validate_dry_runs_the_template() {
    let c = cf::Cloudflare::new(wb("c"), wb("token"));
    // An SRV value must have four fields once 1.1.1.1:1111 is substituted.
    assert!(c.validate(&meta(Some("example.com"), Some("SRV"), "0 5 {port} {ip}")).is_ok());
    assert_eq!(
        c.validate(&meta(Some("example.com"), Some("SRV"), "{ip}")),
        Err(ValidateError::InvalidValue)
    );
    let mut md = meta(Some("example.com"), Some("SVCB"), "{ip} port=\"{port}\"");
    md.priority = Some(1);
    assert!(c.validate(&md).is_ok());
    let mut md = meta(Some("example.com"), Some("SVCB"), "nospace");
    md.priority = Some(1);
    assert_eq!(c.validate(&md), Err(ValidateError::InvalidValue));
}

#[test]
fn cf_srv_value_grammar() {
    let srv = cf::parse_srv(&wb("0  5 5060  www.example.com")).unwrap();
    assert_eq!(srv.priority, 0);
    assert_eq!(srv.weight, 5);
    assert_eq!(srv.port, 5060);
    assert_eq!(srv.target, wb("www.example.com"));
    assert!(cf::parse_srv(&wb("0 5 5060")).is_err());
    assert!(cf::parse_srv(&wb("0 5 5060 a b")).is_err());
    assert!(cf::parse_srv(&wb("x 5 5060 a")).is_err());
    assert!(cf::parse_srv(&wb("70000 5 5060 a")).is_err());
}

#[test]
fn cf_svcb_value_grammar() {
    let svcb = cf::parse_svcb(3, &wb("  www.example.com alpn=\"h2\" port=\"443\"  ")).unwrap();
    assert_eq!(svcb.priority, 3);
    assert_eq!(svcb.target, wb("www.example.com"));
    assert_eq!(svcb.value, wb("alpn=\"h2\" port=\"443\""));
    assert!(cf::parse_svcb(3, &wb("lonetarget")).is_err());
}

#[test]
fn cf_update_plan_picks_the_payload_shape() {
    let c = cf::Cloudflare::new(wb("c"), wb("token"));
    let md = meta(Some("www.example.com"), Some("A"), "{ip}");
    let p = c.update_plan(&md, &waddr(9, 9, 9, 9, 6000)).unwrap();
    assert_eq!(p.zone_domain, wb("example.com"));
    assert_eq!(p.lookup_domain, wb("www.example.com"));
    assert_eq!(p.record.name, wb("www"));
    assert!(!p.record.proxied);
    assert!(matches!(p.data, cf::RecordData::Plain(v) if v == wb("9.9.9.9")));

    let mut md = meta(Some("example.com"), Some("https"), "{ip} alpn=\"h2\"");
    md.priority = Some(1);
    md.proxied = Some(true);
    let p = c.update_plan(&md, &waddr(9, 9, 9, 9, 6000)).unwrap();
    assert_eq!(p.record.name, wb("@"));
    assert!(p.record.proxied);
    assert!(
        matches!(p.data, cf::RecordData::Svcb(s) if s.priority == 1 && s.target == wb("9.9.9.9"))
    );

    let mut md = meta(Some("example.com"), Some("URI"), "https://x/{port}");
    md.priority = Some(2);
    let p = c.update_plan(&md, &waddr(9, 9, 9, 9, 6000)).unwrap();
    assert!(matches!(p.data, cf::RecordData::Uri(t) if t == wb("https://x/6000")));
}

#[test]
fn cf_response_rules() {
    let ok: cf::Response<Vec<Vec<u8>>> =
        cf::Response { errors: vec![], success: true, result: Some(vec![wb("z1")]) };
    assert_eq!(cf::zone_lookup_result(&ok).unwrap(), wb("z1"));
    let empty: cf::Response<Vec<Vec<u8>>> =
        cf::Response { errors: vec![], success: true, result: Some(vec![]) };
    assert!(matches!(cf::zone_lookup_result(&empty), Err(cf::CfError::ZoneNotFound)));
    let failed: cf::Response<Vec<Vec<u8>>> = cf::Response {
        errors: vec![cf::Error { code: 9109, message: wb("invalid token") }],
        success: false,
        result: None,
    };
    assert!(matches!(
        cf::zone_lookup_result(&failed),
        Err(cf::CfError::Api { code: 9109, .. })
    ));
    let unexplained: cf::Response<Vec<Vec<u8>>> =
        cf::Response { errors: vec![], success: false, result: None };
    assert!(matches!(cf::zone_lookup_result(&unexplained), Err(cf::CfError::Unknown)));
    assert_eq!(cf::record_lookup_result(&empty).unwrap(), None);
    let id: cf::Response<Vec<u8>> =
        cf::Response { errors: vec![], success: true, result: Some(wb("rec1")) };
    assert_eq!(cf::record_result(&id).unwrap(), wb("rec1"));
    let no_id: cf::Response<Vec<u8>> =
        cf::Response { errors: vec![], success: true, result: None };
    assert!(matches!(cf::record_result(&no_id), Err(cf::CfError::MissingRecordId)));
}

#[test]
fn http_watcher_picks_and_substitutes_the_body() {
    let w = nat2::watcher::http::Http::new(
        wb("h"),
        wb("http://example.com/hook?ip={ip}"),
        wb("POST"),
        Some(wb("addr={ip}:{port}")),
        vec![],
    )
    .unwrap();
    let a = waddr(1, 2, 3, 4, 5000);
    let md = meta(None, None, "");
    assert_eq!(w.request_body(&md, &a), Some(wb("addr=1.2.3.4:5000")));
    let md = meta(None, None, "{port} only");
    assert_eq!(w.request_body(&md, &a), Some(wb("5000 only")));
    assert_eq!(w.request_query(&wb("ip={ip}"), &a), wb("ip=1.2.3.4"));
    assert!(
        nat2::watcher::http::Http::new(wb("h"), wb("bad url"), wb("GET"), None, vec![]).is_err()
    );
}

#[test]
fn script_watcher_builds_argv_and_judges_exits() {
    let s = nat2::watcher::script::Script::new(wb("s"), wb("/bin/notify"), vec![wb("-q")]);
    let a = waddr(1, 2, 3, 4, 5000);
    let md = meta(None, None, "{ip}:{port}");
    assert_eq!(s.command_args(&md, &a), vec![wb("-q"), wb("1.2.3.4:5000")]);
    let md = meta(None, None, "");
    assert_eq!(s.command_args(&md, &a), vec![wb("-q")]);

    assert!(nat2::watcher::script::script_outcome(true, vec![]).is_ok());
    assert!(matches!(
        nat2::watcher::script::script_outcome(false, wb("boom")),
        Err(nat2::watcher::script::ScriptError::Stderr(s)) if s == wb("boom")
    ));
    assert!(matches!(
        nat2::watcher::script::script_outcome(false, vec![]),
        Err(nat2::watcher::script::ScriptError::ExitStatus)
    ));
}

#[test]
fn watcher_kind_tags() {
    let kinds = [
        dnspod::DnsPod::new(wb("x"), wb("i"), wb("k")).kind(),
        alidns::AliDns::new(wb("x"), wb("i"), wb("k"), None).unwrap().kind(),
        cf::Cloudflare::new(wb("x"), wb("t")).kind(),
    ];
    assert_eq!(kinds, [wb("dnspod"), wb("alidns"), wb("cf")]);
    let h = nat2::watcher::http::Http::new(wb("x"), wb("http://e.com/"), wb("GET"), None, vec![])
        .unwrap();
    assert_eq!(h.kind(), wb("http"));
    assert_eq!(nat2::watcher::script::Script::new(wb("x"), wb("/y"), vec![]).kind(), wb("script"));
}
