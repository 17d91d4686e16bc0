use std::str::FromStr;

use chrome_remote_interface::browser::{
    choose_browser, devtools_address, protocol_url, strip_prefix, BrowserError, BrowserType,
    Launcher,
};
use chrome_remote_interface::context::Context;
use chrome_remote_interface::features::{expected_features, features_eq, FeatureMap};
use chrome_remote_interface::process::{ProcessBuilder, ProcessStdio};
use chrome_remote_interface::protocol::{
    find_experimental_types, Annotation, Command, Domain, DomainType, Event, ExperimentalTypes,
    Property, Protocol, ProtocolVersion, RawType, Type,
};
use chrome_remote_interface::receive::{Accepted, HeadCheck, NextStep, ReceiveState, Response};
use chrome_remote_interface::render::{
    doc, is_definable, meta, meta_for_trait_impl, program_text, render, render_event, NestedType,
};
use chrome_remote_interface::text::{
    camel_case, cat, print_tokens, snake_case, split_ref, split_words, str_eq, string_literal,
    words, Token,
};
use proc_macro2::{Delimiter, TokenStream, TokenTree};

fn flatten(ts: TokenStream, out: &mut Vec<String>) {
    for tt in ts {
        match tt {
            TokenTree::Group(g) => {
                let (open, close) = match g.delimiter() {
                    Delimiter::Parenthesis => ("(", ")"),
                    Delimiter::Brace => ("{", "}"),
                    Delimiter::Bracket => ("[", "]"),
                    Delimiter::None => ("", ""),
                };
                out.push(open.to_string());
                flatten(g.stream(), out);
                out.push(close.to_string());
            }
            other => out.push(other.to_string()),
        }
    }
}

fn tokens_of(text: &str) -> Vec<String> {
    let mut out = Vec::new();
    flatten(TokenStream::from_str(text).expect("valid tokens"), &mut out);
    out
}

fn assert_tokens(actual: &Vec<Token>, expect: &str) {
    let text = print_tokens(actual);
    assert_eq!(tokens_of(&text), tokens_of(expect), "generated: {}", text);
}

fn ann(description: Option<&str>, experimental: bool, deprecated: bool) -> Annotation {
    Annotation {
        description: description.map(|s| s.to_string()),
        experimental,
        deprecated,
    }
}

fn raw(ty: Option<&str>) -> RawType {
    RawType {
        ty: ty.map(|s| s.to_string()),
        reference: None,
        enumeration: None,
        properties: None,
        items: None,
        optional: None,
    }
}

#[test]
fn split_words_keeps_quoted_spaces() {
    let ws = split_words("a  b\n\"c d\" e\"f g\"h ");
    assert_eq!(ws, vec!["a", "b", "\"c d\"", "e\"f g\"h"]);
    assert!(split_words("   ").is_empty());
}

#[test]
fn words_and_printing() {
    let mut toks = words("pub struct");
    toks.push(Token::Str("a \"quoted\" text".to_string()));
    assert_eq!(print_tokens(&toks), "pub struct \"a \\\"quoted\\\" text\"");
    assert_eq!(print_tokens(&Vec::new()), "");
}

#[test]
fn string_helpers() {
    assert!(str_eq("abc", "abc"));
    assert!(!str_eq("abc", "abd"));
    assert!(!str_eq("abc", "ab"));
    assert_eq!(cat("ab", "cd"), "abcd");
    assert_eq!(camel_case("frame_id"), "FrameId");
    assert_eq!(camel_case("getDocument"), "GetDocument");
    assert_eq!(snake_case("DOMStorage"), "dom_storage");
    assert_eq!(string_literal("x\ny"), "\"x\\ny\"");
}

#[test]
fn split_ref_pieces() {
    assert_eq!(split_ref("Page.FrameId"), ("Page".to_string(), Some("FrameId".to_string())));
    assert_eq!(split_ref("FrameId"), ("FrameId".to_string(), None));
    assert_eq!(split_ref("a.b.c"), ("a".to_string(), Some("b".to_string())));
    assert_eq!(split_ref(".x"), ("".to_string(), Some("x".to_string())));
}

#[test]
fn try_from_shapes() {
    assert!(matches!(Type::try_from(raw(Some("string"))), Ok(Type::String)));
    assert!(matches!(Type::try_from(raw(Some("integer"))), Ok(Type::Integer)));
    assert!(matches!(Type::try_from(raw(Some("number"))), Ok(Type::Number)));
    assert!(matches!(Type::try_from(raw(Some("boolean"))), Ok(Type::Boolean)));
    assert!(matches!(Type::try_from(raw(Some("binary"))), Ok(Type::Binary)));
    assert!(matches!(Type::try_from(raw(Some("any"))), Ok(Type::Any)));
    match Type::try_from(raw(Some("object"))) {
        Ok(Type::Object(v)) => assert!(v.is_empty()),
        _ => panic!("expected an empty object"),
    }
    let mut r = raw(None);
    r.reference = Some("Dom.Node".to_string());
    match Type::try_from(r) {
        Ok(Type::Ref(s)) => assert_eq!(s, "Dom.Node"),
        _ => panic!("expected a reference"),
    }
    let mut r = raw(Some("string"));
    r.enumeration = Some(vec!["a".to_string()]);
    match Type::try_from(r) {
        Ok(Type::EnumString(v)) => assert_eq!(v, vec!["a".to_string()]),
        _ => panic!("expected an enum"),
    }
    let mut r = raw(Some("array"));
    r.items = Some(Type::Integer);
    r.optional = Some(true);
    match Type::try_from(r) {
        Ok(Type::Option(inner)) => assert!(matches!(*inner, Type::Array(ref i) if matches!(**i, Type::Integer))),
        _ => panic!("expected an optional array"),
    }
    let mut r = raw(Some("integer"));
    r.optional = Some(false);
    assert!(matches!(Type::try_from(r), Ok(Type::Integer)));
}

#[test]
fn try_from_rejects() {
    assert!(Type::try_from(raw(None)).is_err());
    assert!(Type::try_from(raw(Some("float"))).is_err());
    let mut r = raw(Some("array"));
    r.optional = Some(true);
    assert!(Type::try_from(r).is_err());
    let mut r = raw(Some("integer"));
    r.reference = Some("X".to_string());
    match Type::try_from(r) {
        Err(back) => assert_eq!(back.reference.as_deref(), Some("X")),
        Ok(_) => panic!("expected a rejection"),
    }
}

#[test]
fn need_box_follows_references() {
    assert!(Type::Ref("X".into()).need_box());
    assert!(Type::Option(Box::new(Type::Ref("X".into()))).need_box());
    assert!(!Type::Array(Box::new(Type::Ref("X".into()))).need_box());
    assert!(!Type::String.need_box());
}

fn sample_protocol() -> Protocol {
    Protocol {
        version: ProtocolVersion {
            major: "1".into(),
            minor: "3".into(),
        },
        domains: vec![
            Domain {
                domain: "Page".into(),
                annotation: Default::default(),
                dependencies: vec!["Network".into()],
                types: vec![
                    DomainType {
                        id: "FrameId".into(),
                        annotation: Default::default(),
                        ty: Type::String,
                    },
                    DomainType {
                        id: "Secret".into(),
                        annotation: ann(None, true, false),
                        ty: Type::Integer,
                    },
                ],
                commands: vec![],
                events: vec![Event {
                    name: "loadEventFired".into(),
                    annotation: ann(Some("Fired on load."), false, false),
                    parameters: vec![],
                }],
            },
            Domain {
                domain: "DOMStorage".into(),
                annotation: ann(None, true, false),
                dependencies: vec![],
                types: vec![],
                commands: vec![],
                events: vec![],
            },
        ],
    }
}

#[test]
fn experimental_types_found() {
    let p = sample_protocol();
    let e = find_experimental_types(&p);
    assert!(e.contains("Page", "Secret"));
    assert!(!e.contains("Page", "FrameId"));
    assert!(!e.contains("Network", "Secret"));
    let empty = ExperimentalTypes::default();
    assert!(!empty.contains("Page", "Secret"));
}

#[test]
fn context_names_and_domains() {
    let e = ExperimentalTypes::default();
    let root = Context::new_root(&e);
    let d = root.with_domain("Page");
    let n = d.with_name("Frame");
    let m = n.with_none();
    let k = m.with_name("Id");
    assert_eq!(k.type_ident(), "FrameId");
    assert_eq!(k.domain(), "Page");
    assert_eq!(root.domain(), "");
    assert_eq!(root.type_ident(), "");
    assert_eq!(k.iter().len(), 5);
    assert_eq!(m.type_ident(), n.type_ident());
}

#[test]
fn reference_types() {
    let p = sample_protocol();
    let e = find_experimental_types(&p);
    let root = Context::new_root(&e);
    let cx = root.with_domain("Page");
    let local = Type::Ref("FrameId".into());
    assert_tokens(&NestedType::new(&local).ty(&cx), "FrameId");
    assert_tokens(&NestedType::new(&local).tyref(&cx), "&FrameId");
    let secret = Type::Ref("Secret".into());
    assert_tokens(&NestedType::new(&secret).ty(&cx), "JsonValue");
    let other = Type::Ref("Page.Secret".into());
    assert_tokens(&NestedType::new(&other).tyref(&cx), "&JsonValue");
    let remote = Type::Ref("DOMStorage.StorageId".into());
    assert_tokens(&NestedType::new(&remote).ty(&cx), "dom_storage::StorageId");
    let arr = Type::Option(Box::new(Type::Array(Box::new(Type::Integer))));
    assert_tokens(&NestedType::new(&arr).ty(&cx), "Option<Vec<u32>>");
    assert_tokens(&NestedType::new(&arr).builder_ty(&cx), "Option<Vec<u32>>");
    assert_tokens(&NestedType::new(&arr).builder_setty(&cx), "Vec<u32>");
    assert_tokens(&NestedType::new(&Type::Integer).builder_ty(&cx), "Option<u32>");
    let ident = "r#x".to_string();
    assert_tokens(&NestedType::new(&Type::Option(Box::new(Type::Ref("A".into())))).refexpr(&ident), "(&*self.r#x).as_ref()");
    assert_tokens(&NestedType::new(&Type::Boolean).refexpr(&ident), "self.r#x");
}

#[test]
fn attributes() {
    let deps = vec!["Page".to_string(), "Network".to_string()];
    assert_tokens(&meta(&ann(None, false, false), None), "");
    assert_tokens(&meta(&ann(None, false, true), None), "#[deprecated]");
    assert_tokens(
        &meta_for_trait_impl(&ann(None, true, false), Some(&deps)),
        r#"#[cfg(all(feature = "experimental", feature = "Page", feature = "Network"))]
           #[cfg_attr(docsrs, doc(cfg(all(feature = "experimental", feature = "Page", feature = "Network"))))]"#,
    );
    assert_tokens(
        &meta_for_trait_impl(&ann(None, true, false), None),
        r#"#[cfg(feature = "experimental")] #[cfg_attr(docsrs, doc(cfg(feature = "experimental")))]"#,
    );
    assert_tokens(&doc(&ann(Some("Hello there."), false, false)), r#"#[doc = "Hello there."]"#);
}

#[test]
fn command_names() {
    let c = Command {
        name: "getDocument".into(),
        redirect: None,
        annotation: Default::default(),
        parameters: vec![],
        returns: vec![],
    };
    assert_eq!(c.pname(), "GetDocumentCommand");
    assert_eq!(c.rname(), "GetDocumentReturn");
}

#[test]
fn domain_never_experimental() {
    let p = sample_protocol();
    assert!(!p.domains[0].experimental());
    assert!(!p.domains[1].experimental());
    assert_eq!(p.domains[0].deps(), vec!["Page".to_string(), "Network".to_string()]);
}

#[test]
fn event_enum() {
    let p = sample_protocol();
    assert_tokens(
        &render_event(&p),
        r#"#[doc = "Chrome DevTools Protocol event."]
        #[derive(Debug, Clone, Deserialize)]
        #[serde(tag = "method", content = "params")]
        pub enum Event {
            #[doc = "Fired on load."]
            #[cfg(all(feature = "Page", feature = "Network"))]
            #[cfg_attr(docsrs, doc(cfg(all(feature = "Page", feature = "Network"))))]
            #[serde(rename = "Page.loadEventFired")]
            PageLoadEventFired(page::LoadEventFiredEvent),
            #[doc = "Unknown event."]
            #[serde(skip)]
            Unknown(String, JsonValue),
        }"#,
    );
}

#[test]
fn program_of_sample() {
    let p = sample_protocol();
    assert!(is_definable(&p));
    let text = program_text(&p).expect("the generated source lexes");
    // the text is what proc_macro2 prints of the generated tokens
    let spaced = print_tokens(&render(&p));
    assert_ne!(text, spaced);
    assert_eq!(text, TokenStream::from_str(&spaced).unwrap().to_string());
    let toks = tokens_of(&text);
    assert_eq!(toks, tokens_of(&spaced));
    assert!(text.starts_with("mod g { "));
    assert!(text.contains("# ! [allow (deprecated)]"));
    assert!(text.contains("pub const VERSION : & str = \"1.3\""));
    assert!(text.contains("pub mod page"));
    assert!(text.contains("pub mod dom_storage"));
    assert!(toks.iter().any(|t| t == "FrameId"));
    let mut bad = sample_protocol();
    bad.domains[0].types[0].ty = Type::Boolean;
    assert!(!is_definable(&bad));
}

#[test]
fn expected_feature_list() {
    let p = sample_protocol();
    let m = expected_features(&p);
    assert_eq!(m.get("default").unwrap(), &vec!["Browser".to_string(), "Target".to_string(), "Page".to_string()]);
    assert!(m.get("experimental").unwrap().is_empty());
    assert_eq!(m.get("Page").unwrap(), &vec!["Network".to_string()]);
    assert_eq!(m.get("DOMStorage").unwrap(), &vec!["experimental".to_string()]);
    assert!(m.get("Network").is_none());

    let mut actual = FeatureMap::new();
    actual.insert("DOMStorage".into(), vec!["experimental".into()]);
    actual.insert("Page".into(), vec!["Network".into()]);
    actual.insert("experimental".into(), vec![]);
    actual.insert("default".into(), vec!["Browser".into(), "Target".into(), "Page".into()]);
    assert!(features_eq(&actual, &m));
    actual.insert("Page".into(), vec![]);
    assert!(!features_eq(&actual, &m));
    actual.insert("Page".into(), vec!["Network".into()]);
    assert!(features_eq(&m, &actual));
    actual.insert("Extra".into(), vec![]);
    assert!(!features_eq(&m, &actual));
}

#[test]
fn process_builder() {
    assert_eq!(ProcessStdio::null(), ProcessStdio::Null);
    assert_eq!(ProcessStdio::inherit(), ProcessStdio::Inherit);
    assert_eq!(ProcessStdio::default(), ProcessStdio::Inherit);
    let mut b = ProcessBuilder::new("chromium");
    b.stdin(ProcessStdio::null()).stderr(ProcessStdio::null());
    b.arg("--a").args(&["--b", "--c"]);
    assert_eq!(b.get_program(), "chromium");
    assert_eq!(b.get_stdin(), ProcessStdio::Null);
    assert_eq!(b.get_stdout(), ProcessStdio::Inherit);
    assert_eq!(b.get_stderr(), ProcessStdio::Null);
    assert_eq!(b.get_args(), &["--a".to_string(), "--b".to_string(), "--c".to_string()]);
}

#[test]
fn launch_defaults() {
    let l = Launcher::default();
    assert!(l.needs_generated_dir());
    assert!(matches!(l.launched_type(), BrowserType::Chromium));
    let cmd = match l.launch_command(Some("/usr/bin/chromium"), Some("/tmp/x")) {
        Ok(c) => c,
        Err(_) => panic!("expected a command"),
    };
    assert_eq!(cmd.get_program(), "/usr/bin/chromium");
    assert_eq!(cmd.get_stdin(), ProcessStdio::Null);
    assert_eq!(cmd.get_stdout(), ProcessStdio::Null);
    assert_eq!(cmd.get_stderr(), ProcessStdio::Null);
    let args = cmd.get_args();
    assert_eq!(args.len(), 27);
    assert_eq!(args[0], "--remote-debugging-pipe");
    assert_eq!(args[1], "--headless");
    assert_eq!(args[2], "--disable-gpu");
    assert_eq!(args[3], "--user-data-dir=/tmp/x");
    assert_eq!(args[4], "--disable-background-networking");
    assert_eq!(args[26], "--use-mock-keychain");
}

#[test]
fn launch_options() {
    let mut l = Launcher::default();
    l.headless(false).output(true).user_data_dir_default();
    assert!(!l.needs_generated_dir());
    let cmd = match l.launch_command(Some("chrome"), Some("/tmp/ignored")) {
        Ok(c) => c,
        Err(_) => panic!("expected a command"),
    };
    assert_eq!(cmd.get_stdout(), ProcessStdio::Inherit);
    assert_eq!(cmd.get_stderr(), ProcessStdio::Inherit);
    let args = cmd.get_args();
    assert_eq!(args.len(), 24);
    assert_eq!(args[1], "--disable-background-networking");
    let mut l = Launcher::default();
    l.user_data_dir("/data").browser_type(BrowserType::Chromium);
    let cmd = match l.launch_command(Some("chrome"), None) {
        Ok(c) => c,
        Err(_) => panic!("expected a command"),
    };
    assert_eq!(cmd.get_args()[3], "--user-data-dir=/data");
    assert!(matches!(l.launch_command(None, None), Err(BrowserError::BrowserNotFound)));
}

#[test]
fn browser_choice() {
    assert_eq!(choose_browser(Some(Some("a".into())), Some("b".into())), Some("a".to_string()));
    assert_eq!(choose_browser(Some(None), Some("b".into())), None);
    assert_eq!(choose_browser(None, Some("b".into())), Some("b".to_string()));
    assert_eq!(choose_browser(None, None), None);
}

#[test]
fn receiver_delivers_to_matching_request() {
    let mut st: ReceiveState<u32, &str> = ReceiveState::new();
    assert!(matches!(st.check_head(&None, 1), HeadCheck::Empty));
    assert!(matches!(st.accept(Some(Ok(Response::Return(Some("s".into()), 7, 42)))), Accepted::Stored));
    assert!(matches!(st.check_head(&None, 7), HeadCheck::Wait));
    assert!(matches!(st.check_head(&Some("s".into()), 8), HeadCheck::Wait));
    assert!(matches!(st.check_head(&Some("s".into()), 7), HeadCheck::Reply(42)));
    assert!(st.head.is_none());
    assert!(matches!(st.accept(Some(Ok(Response::Error(None, 3, 5)))), Accepted::Stored));
    assert!(matches!(st.check_head(&None, 3), HeadCheck::CommandError(5)));
}

#[test]
fn receiver_events_and_failures() {
    let mut st: ReceiveState<u32, &str> = ReceiveState::new();
    match st.accept(Some(Ok(Response::Event(None, "loaded")))) {
        Accepted::Dispatch(None, "loaded") => {}
        _ => panic!("expected a dispatch"),
    }
    assert!(st.head.is_none());
    assert!(matches!(st.accept(None), Accepted::Ended));
    assert!(matches!(st.accept(Some(Err("boom".into()))), Accepted::Stored));
    match st.check_head(&None, 1) {
        HeadCheck::Broken(m) => assert_eq!(m, "boom"),
        _ => panic!("expected a failure"),
    }
    match st.check_head(&Some("x".into()), 2) {
        HeadCheck::Broken(m) => assert_eq!(m, "boom"),
        _ => panic!("expected a failure"),
    }
    assert!(matches!(st.next_step(), NextStep::Wait));
}

#[test]
fn receiver_reads_only_when_nothing_is_held() {
    let mut st: ReceiveState<u32, &str> = ReceiveState::new();
    assert!(matches!(st.next_step(), NextStep::Read));
    assert!(matches!(st.accept(Some(Ok(Response::Return(None, 1, 9)))), Accepted::Stored));
    // another request's reply is held: a wait for events reads nothing
    assert!(matches!(st.next_step(), NextStep::Wait));
    assert!(matches!(st.check_head(&None, 2), HeadCheck::Wait));
    assert!(matches!(st.check_head(&None, 1), HeadCheck::Reply(9)));
    assert!(matches!(st.next_step(), NextStep::Read));
    match st.accept(Some(Ok(Response::Event(Some("s".into()), "tick")))) {
        Accepted::Dispatch(Some(s), "tick") => assert_eq!(s, "s"),
        _ => panic!("expected a dispatch"),
    }
    assert!(matches!(st.next_step(), NextStep::Read));
}

#[test]
fn struct_shapes_by_field_count() {
    let e = ExperimentalTypes::default();
    let root = Context::new_root(&e);
    let cx = root.with_domain("foo");
    let prop = |name: &str| Property {
        name: name.to_string(),
        annotation: Default::default(),
        ty: Type::Integer,
    };
    let two = DomainType {
        id: "pair".into(),
        annotation: ann(Some("A pair."), false, false),
        ty: Type::Object(vec![prop("a"), prop("bValue")]),
    };
    assert_tokens(
        &cx.render_with(&two),
        r#"#[doc = "A pair."]
        #[derive(Debug, Clone, Serialize, Deserialize)]
        pub struct Pair {
            #[serde(rename = "a")] r#a: u32,
            #[serde(rename = "bValue")] r#b_value: u32,
        }
        impl Pair {
            pub fn new(r#a: u32, r#b_value: u32,) -> Self { Self { r#a, r#b_value, } }
            pub fn r#a(&self) -> u32 { self.r#a }
            pub fn r#b_value(&self) -> u32 { self.r#b_value }
        }"#,
    );
}

#[test]
fn devtools_banner_gives_the_address() {
    assert_eq!(
        devtools_address("DevTools listening on ws://127.0.0.1:9222/devtools/browser/ab-cd"),
        Some("ws://127.0.0.1:9222/devtools/browser/ab-cd".to_string())
    );
    assert_eq!(devtools_address("DevTools listening on "), Some(String::new()));
    assert_eq!(devtools_address("[0101/000000.0:ERROR] something else"), None);
    assert_eq!(devtools_address("DevTools listening"), None);
    assert_eq!(devtools_address(""), None);
    assert_eq!(strip_prefix("héllo wörld", "héllo "), Some("wörld".to_string()));
    assert_eq!(strip_prefix("abc", "abd"), None);
    assert_eq!(strip_prefix("abc", ""), Some("abc".to_string()));
}

#[test]
fn protocol_url_from_the_banner() {
    assert_eq!(
        protocol_url("DevTools listening on ws://127.0.0.1:9222/devtools/browser/ab-cd"),
        Some(Some("http://127.0.0.1:9222/json/protocol".to_string()))
    );
    assert_eq!(
        protocol_url("DevTools listening on wss://localhost:1234/devtools/browser/x?y=1"),
        Some(Some("http://localhost:1234/json/protocol?y=1".to_string()))
    );
    // not an absolute URL
    assert_eq!(protocol_url("DevTools listening on not a url"), Some(None));
    // a scheme that cannot become http
    assert_eq!(protocol_url("DevTools listening on foo://example.net/x"), Some(None));
    assert_eq!(protocol_url("no banner here"), None);
}

#[test]
fn relaunch_gives_the_same_command() {
    let mut l = Launcher::default();
    l.user_data_dir("/data").headless(false);
    let a = l.launch_command(Some("chrome"), Some("/tmp/one")).ok().unwrap();
    let b = l.launch_command(Some("chrome"), Some("/tmp/two")).ok().unwrap();
    let c = l.launch_command(Some("chrome"), None).ok().unwrap();
    assert_eq!(a.get_args(), b.get_args());
    assert_eq!(a.get_args(), c.get_args());
    assert_eq!(a.get_program(), b.get_program());
    assert!(!a.get_args().iter().any(|x| x.contains("/tmp/")));
}

#[test]
fn optional_wraps_once() {
    let mut marked = raw(Some("integer"));
    marked.optional = Some(true);
    let mut off = raw(Some("integer"));
    off.optional = Some(false);
    assert!(matches!(Type::try_from(marked), Ok(Type::Option(b)) if matches!(*b, Type::Integer)));
    assert!(matches!(Type::try_from(off), Ok(Type::Integer)));
    assert!(matches!(Type::try_from(raw(Some("integer"))), Ok(Type::Integer)));
    let mut bad = raw(Some("nothing"));
    bad.optional = Some(true);
    assert!(Type::try_from(bad).is_err());
}
