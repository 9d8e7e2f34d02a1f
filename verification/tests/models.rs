//! JSON navigation and the resource models' decoding.

use bitbucket::json::{parse_json, str_eq, FromJson, Json};
use bitbucket::repository::{ForkPolicy, ObjectType, Repository, Scm};

#[test]
fn navigation_reads_nested_objects() {
    let j = parse_json("{\"a\":{\"b\":[1,true,null,\"x\"]},\"n\":-7}").unwrap();
    let inner = j.get("a").unwrap();
    let arr = inner.get("b").unwrap().as_arr().unwrap();
    assert_eq!(arr.len(), 4);
    assert_eq!(arr[0].as_int(), Some(1));
    assert_eq!(arr[1].as_bool(), Some(true));
    assert_eq!(arr[2], Json::Null);
    assert_eq!(arr[3].as_str().map(String::as_str), Some("x"));
    assert_eq!(j.get("n").unwrap().as_int(), Some(-7));
    assert!(j.get("missing").is_none());
}

#[test]
fn parser_rejects_malformed_text() {
    assert!(parse_json("{\"a\":").is_err());
    assert!(parse_json("").is_err());
    assert!(parse_json("[1, 2").is_err());
}

#[test]
fn string_equality_is_by_characters() {
    assert!(str_eq("", ""));
    assert!(str_eq("abc", "abc"));
    assert!(!str_eq("abc", "abd"));
    assert!(!str_eq("abc", "ab"));
    assert!(str_eq("déjà vu", "déjà vu"));
    assert!(!str_eq("déjà vu", "deja vu"));
}

#[test]
fn scm_and_policies_decode_from_their_spellings() {
    assert_eq!(Scm::from_json(&Json::Str("git".into())), Some(Scm::Git));
    assert_eq!(
        Scm::from_json(&Json::Str("mercurial".into())),
        Some(Scm::Mercurial)
    );
    assert_eq!(Scm::from_json(&Json::Str("svn".into())), None);
    assert_eq!(
        ForkPolicy::from_json(&Json::Str("allow_forks".into())),
        Some(ForkPolicy::AllowForks)
    );
    assert_eq!(
        ObjectType::from_json(&Json::Str("repository".into())),
        Some(ObjectType::Repository)
    );
    assert_eq!(ObjectType::from_json(&Json::Int(3)), None);
}

fn link(href: &str) -> String {
    format!("{{\"href\":\"{}\"}}", href)
}

fn repository_body() -> String {
    let links = format!(
        "{{\"watchers\":{w},\"branches\":{b},\"tags\":{t},\"commits\":{c},\
         \"clone\":[{{\"href\":\"https://x.example/c\",\"name\":\"https\"}}],\
         \"self\":{s},\"source\":{src},\"html\":{h},\"avatar\":{a},\
         \"hooks\":{hk},\"forks\":{f},\"downloads\":{d},\"pullrequests\":{p}}}",
        w = link("https://x.example/w"),
        b = link("https://x.example/b"),
        t = link("https://x.example/t"),
        c = link("https://x.example/c"),
        s = link("https://x.example/s"),
        src = link("https://x.example/src"),
        h = link("https://x.example/h"),
        a = link("https://x.example/a"),
        hk = link("https://x.example/hk"),
        f = link("https://x.example/f"),
        d = link("https://x.example/d"),
        p = link("https://x.example/p"),
    );
    format!(
        "{{\"scm\":\"git\",\"website\":\"https://w.example\",\"has_wiki\":true,\
         \"uuid\":\"u-1\",\"links\":{links},\"fork_policy\":\"no_forks\",\
         \"name\":\"widget\",\"language\":\"rust\",\
         \"created_on\":\"2016-05-20T09:00:00+00:00\",\
         \"mainbranch\":{{\"type\":\"branch\",\"name\":\"main\"}},\
         \"full_name\":\"alice/widget\",\"has_issues\":false,\
         \"updated_on\":\"2017-01-02T10:00:00+00:00\",\"size\":42,\
         \"type\":\"repository\",\"slug\":\"widget\",\"is_private\":true,\
         \"description\":\"a widget\"}}"
    )
}

#[test]
fn repository_decodes_every_field() {
    let j = parse_json(&repository_body()).unwrap();
    let r = Repository::from_json(&j).expect("record must decode");
    assert_eq!(r.scm, Scm::Git);
    assert_eq!(r.website, "https://w.example");
    assert!(r.has_wiki);
    assert_eq!(r.uuid, "u-1");
    assert_eq!(r.links.clone.len(), 1);
    assert_eq!(r.links.clone[0].name.as_deref(), Some("https"));
    assert_eq!(r.links.zelf.href, "https://x.example/s");
    assert_eq!(r.fork_policy, ForkPolicy::NoForks);
    assert_eq!(r.name, "widget");
    assert_eq!(r.language, "rust");
    assert_eq!(r.created_on, "2016-05-20T09:00:00+00:00");
    assert_eq!(r.mainbranch.as_ref().map(|b| b.name.as_str()), Some("main"));
    assert_eq!(r.full_name, "alice/widget");
    assert!(!r.has_issues);
    assert_eq!(r.updated_on, "2017-01-02T10:00:00+00:00");
    assert_eq!(r.size, 42);
    assert_eq!(r.ty, ObjectType::Repository);
    assert_eq!(r.slug, "widget");
    assert!(r.is_private);
    assert_eq!(r.description, "a widget");
}

#[test]
fn repository_with_a_missing_field_does_not_decode() {
    let body = repository_body().replace("\"slug\":\"widget\",", "");
    let j = parse_json(&body).unwrap();
    assert!(Repository::from_json(&j).is_none());
}

#[test]
fn repository_without_mainbranch_decodes_to_none() {
    let body = repository_body().replace(
        "\"mainbranch\":{\"type\":\"branch\",\"name\":\"main\"},",
        "\"mainbranch\":null,",
    );
    let j = parse_json(&body).unwrap();
    let r = Repository::from_json(&j).expect("record must decode");
    assert!(r.mainbranch.is_none());
}

#[test]
fn repositories_decode_inside_a_page_envelope() {
    let body = format!(
        "{{\"pagelen\":10,\"size\":1,\"page\":1,\"next\":null,\"values\":[{}]}}",
        repository_body()
    );
    let j = parse_json(&body).unwrap();
    let p = bitbucket::internal_api::Page::<Repository>::from_json(&j).expect("page must decode");
    assert_eq!(p.values.len(), 1);
    assert_eq!(p.values[0].full_name, "alice/widget");
}

#[test]
fn duplicate_keys_keep_the_parsers_winner() {
    // the parser resolves duplicate keys (last wins) before navigation sees
    // the object, so lookup finds exactly one binding
    let j = parse_json("{\"a\":1,\"a\":2}").unwrap();
    assert_eq!(j.get("a").unwrap().as_int(), Some(2));
}

#[test]
fn integer_fields_respect_their_ranges() {
    let j = parse_json("{\"size\":255}").unwrap();
    assert_eq!(j.get("size").unwrap().as_int(), Some(255));
    let j = parse_json("{\"n\":4294967296}").unwrap();
    assert_eq!(u32::from_json(j.get("n").unwrap()), None);
    let j = parse_json("{\"n\":4294967295}").unwrap();
    assert_eq!(u32::from_json(j.get("n").unwrap()), Some(u32::MAX));
}
