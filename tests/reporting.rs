use wud::client::{default_rules, Config, Reportable, WudClient};
use wud::document::{backtrace_text, decimal_text, format_event, log_line, Document};
use wud::event::{build_event, ErrorEvent};
use wud::frames::{
    contains_text, filter_frames, is_application_path, FilterRules, RawFrame, RawSymbol,
    StackFrame, MAX_FRAMES,
};
use wud::payment::CustomErrorKind;

fn symbol(file: Option<&str>, line: Option<u32>, function: Option<&str>) -> RawSymbol {
    RawSymbol {
        file: file.map(|s| s.to_string()),
        line,
        function: function.map(|s| s.to_string()),
    }
}

fn app_frame(n: u32) -> RawFrame {
    RawFrame {
        symbols: vec![symbol(
            Some(&format!("/home/dev/app/src/step{}.rs", n)),
            Some(n),
            Some(&format!("app::step{}", n)),
        )],
    }
}

fn frame(file: &str, line: u32, function: &str) -> StackFrame {
    StackFrame { file: file.to_string(), line, function: function.to_string() }
}

fn event(app: &str, ty: &str, msg: &str, frames: Vec<StackFrame>) -> ErrorEvent {
    build_event(&app.to_string(), ty.to_string(), msg.to_string(), frames)
}

fn block_texts(d: &Document) -> Vec<String> {
    let mut out = Vec::new();
    for b in &d.attachments[0].blocks {
        out.push(b.kind.clone());
        if let Some(t) = &b.text {
            out.push(format!("{}|{}|{:?}", t.kind, t.text, t.emoji));
        }
        for f in &b.fields {
            out.push(format!("{}|{}|{:?}", f.kind, f.text, f.emoji));
        }
    }
    out
}

fn client() -> WudClient {
    WudClient::new(Config {
        app_name: "wud".to_string(),
        slack_webhook_url: "https://hooks.example/T000".to_string(),
    })
}

#[test]
fn contains_text_finds_runs() {
    assert!(contains_text("/home/dev/app", "/home"));
    assert!(contains_text("/home/dev/app", "app"));
    assert!(contains_text("abc", ""));
    assert!(!contains_text("/usr/lib", "/home"));
    assert!(!contains_text("ab", "abc"));
    assert!(!contains_text("", "a"));
}

#[test]
fn application_path_rules() {
    let rules = default_rules();
    assert!(is_application_path(&rules, "/home/dev/app/src/payment.rs"));
    assert!(!is_application_path(&rules, "/usr/src/app/payment.rs"));
    assert!(!is_application_path(&rules, "/home/dev/.cargo/registry/src/tokio/lib.rs"));
    assert!(!is_application_path(&rules, "/home/dev/.rustc/core/src/ops.rs"));
    assert!(!is_application_path(&rules, "/home/dev/wud/src/lib.rs"));
}

#[test]
fn exclusion_marker_wins_over_root_marker() {
    let rules = default_rules();
    let raw = vec![RawFrame {
        symbols: vec![symbol(
            Some("/home/dev/.cargo/registry/src/dep/src/thing.rs"),
            Some(3),
            Some("dep::thing"),
        )],
    }];
    assert!(filter_frames(&rules, &raw).is_empty());
}

#[test]
fn custom_rules_are_used() {
    let rules = FilterRules { root_marker: "/srv".to_string(), exclusions: vec!["vendor".to_string()] };
    let raw = vec![RawFrame {
        symbols: vec![
            symbol(Some("/srv/app/main.rs"), Some(1), Some("main")),
            symbol(Some("/srv/vendor/x.rs"), Some(2), Some("x")),
            symbol(Some("/home/a.rs"), Some(3), Some("a")),
        ],
    }];
    let out = filter_frames(&rules, &raw);
    assert_eq!(out.len(), 1);
    assert_eq!(out[0].file, "/srv/app/main.rs");
}

#[test]
fn empty_capture_gives_no_frames() {
    assert!(filter_frames(&default_rules(), &Vec::new()).is_empty());
}

#[test]
fn unresolved_symbols_are_dropped() {
    let raw = vec![RawFrame {
        symbols: vec![
            symbol(None, Some(1), Some("app::a")),
            symbol(Some("/home/dev/app/src/a.rs"), None, Some("app::a")),
            symbol(Some("/home/dev/app/src/a.rs"), Some(4), None),
            symbol(Some("/home/dev/app/src/a.rs"), Some(5), Some("app::inlined")),
        ],
    }];
    let out = filter_frames(&default_rules(), &raw);
    assert_eq!(out.len(), 1);
    assert_eq!(out[0].file, "/home/dev/app/src/a.rs");
    assert_eq!(out[0].line, 5);
    assert_eq!(out[0].function, "app::inlined");
}

#[test]
fn fifteen_frames_keep_the_first_ten_in_order() {
    let raw: Vec<RawFrame> = (1..=15).map(app_frame).collect();
    let out = filter_frames(&default_rules(), &raw);
    assert_eq!(out.len(), MAX_FRAMES);
    for (i, f) in out.iter().enumerate() {
        assert_eq!(f.line, (i + 1) as u32);
        assert_eq!(f.function, format!("app::step{}", i + 1));
    }
    let e = client().create_error_event(&CustomErrorKind::InvalidAmount("x".to_string()), &raw);
    let doc = format_event(&e);
    let trace = doc.attachments[0].blocks[2].text.as_ref().unwrap().text.clone();
    let lines: Vec<String> = (1..=10)
        .map(|n| format!("*/home/dev/app/src/step{}.rs* in `app::step{}` at `{}`", n, n, n))
        .collect();
    assert_eq!(trace, format!("*Backtrace:*\n```{}```", lines.join("\n")));
    assert!(!trace.contains("step11"));
}

#[test]
fn deep_frames_are_not_considered() {
    let mut raw: Vec<RawFrame> = (0..10)
        .map(|_| RawFrame { symbols: vec![symbol(Some("/usr/lib/x.rs"), Some(1), Some("x"))] })
        .collect();
    raw.push(app_frame(11));
    assert!(filter_frames(&default_rules(), &raw).is_empty());
}

#[test]
fn inlined_symbols_are_capped_at_ten() {
    let raw: Vec<RawFrame> = (0..6)
        .map(|n| RawFrame {
            symbols: vec![
                symbol(Some("/home/a/src/x.rs"), Some(2 * n), Some("outer")),
                symbol(Some("/home/a/src/x.rs"), Some(2 * n + 1), Some("inner")),
            ],
        })
        .collect();
    let out = filter_frames(&default_rules(), &raw);
    assert_eq!(out.len(), 10);
    assert_eq!(out[9].line, 9);
}

#[test]
fn decimal_text_values() {
    assert_eq!(decimal_text(0), "0");
    assert_eq!(decimal_text(7), "7");
    assert_eq!(decimal_text(120), "120");
    assert_eq!(decimal_text(u32::MAX), "4294967295");
}

#[test]
fn backtrace_text_joins_frames() {
    let frames = vec![frame("/home/a/src/x.rs", 12, "a::x"), frame("/home/a/src/y.rs", 3, "a::y")];
    assert_eq!(
        backtrace_text(&frames),
        "*/home/a/src/x.rs* in `a::x` at `12`\n*/home/a/src/y.rs* in `a::y` at `3`"
    );
    assert_eq!(backtrace_text(&Vec::new()), "");
}

#[test]
fn invalid_amount_document_without_frames() {
    let e = event("wud", "InvalidAmount", "amount exceeds limit", Vec::new());
    let doc = format_event(&e);
    assert_eq!(doc.attachments.len(), 1);
    assert_eq!(doc.attachments[0].color, "#FF0000");
    assert_eq!(
        block_texts(&doc),
        vec![
            "header".to_string(),
            "plain_text|:warning: WUD Report | wud|Some(true)".to_string(),
            "section".to_string(),
            "mrkdwn|*Error Type:*\nInvalidAmount|None".to_string(),
            "mrkdwn|*Error Message:*\namount exceeds limit|None".to_string(),
        ]
    );
}

#[test]
fn document_with_frames_has_backtrace_section() {
    let e = event("shop", "InsufficientFunds", "balance 3", vec![frame("/home/s/src/pay.rs", 40, "shop::pay")]);
    let doc = format_event(&e);
    let blocks = &doc.attachments[0].blocks;
    assert_eq!(blocks.len(), 3);
    assert_eq!(blocks[2].kind, "section");
    assert!(blocks[2].fields.is_empty());
    let t = blocks[2].text.as_ref().unwrap();
    assert_eq!(t.kind, "mrkdwn");
    assert_eq!(t.text, "*Backtrace:*\n```*/home/s/src/pay.rs* in `shop::pay` at `40````");
    assert_eq!(t.emoji, None);
}

#[test]
fn formatting_twice_gives_equal_documents() {
    let e = event("wud", "InvalidAmount", "m", vec![frame("/home/a/b.rs", 1, "f")]);
    let a = format_event(&e);
    let b = format_event(&e);
    assert_eq!(block_texts(&a), block_texts(&b));
    assert_eq!(a.attachments[0].color, b.attachments[0].color);
}

#[test]
fn error_type_depends_on_variant_only() {
    let a = CustomErrorKind::InvalidAmount("one".to_string());
    let b = CustomErrorKind::InvalidAmount("two".to_string());
    let c = CustomErrorKind::InsufficientFunds("one".to_string());
    assert_eq!(a.error_type(), b.error_type());
    assert_ne!(a.error_type(), c.error_type());
    assert_eq!(c.error_type(), "InsufficientFunds");
    assert_eq!(a.message(), "one");
}

#[test]
fn custom_error_to_string() {
    let e = CustomErrorKind::InvalidAmount("too much".to_string());
    assert_eq!(e.to_string(), "InvalidAmount: too much");
    let e = CustomErrorKind::InsufficientFunds("empty".to_string());
    assert_eq!(e.to_string(), "InsufficientFunds: empty");
}

#[test]
fn log_line_of_event() {
    let e = event("wud", "InvalidAmount", "amount exceeds limit", Vec::new());
    assert_eq!(log_line(&e), "InvalidAmount:amount exceeds limit");
}

#[test]
fn build_report_assembles_plan() {
    let c = client();
    let error = CustomErrorKind::InvalidAmount("amount exceeds limit".to_string());
    let raw = vec![app_frame(2), RawFrame { symbols: Vec::new() }];
    let plan = c.build_report(&error, &raw);
    assert_eq!(plan.log_line, "InvalidAmount:amount exceeds limit");
    assert_eq!(plan.endpoint, "https://hooks.example/T000");
    let blocks = &plan.document.attachments[0].blocks;
    assert_eq!(blocks.len(), 3);
    assert_eq!(blocks[0].text.as_ref().unwrap().text, ":warning: WUD Report | wud");
}

#[test]
fn event_copies_app_name() {
    let c = client();
    let e = c.create_error_event(&CustomErrorKind::InsufficientFunds("low".to_string()), &Vec::new());
    assert_eq!(e.app_name, "wud");
    assert_eq!(e.error_type, "InsufficientFunds");
    assert_eq!(e.error_message, "low");
    assert!(e.frames.is_empty());
}

#[test]
fn prepare_report_captures_here() {
    let plan = client().prepare_report(&CustomErrorKind::InvalidAmount("x".to_string()));
    assert_eq!(plan.log_line, "InvalidAmount:x");
    let blocks = &plan.document.attachments[0].blocks;
    assert!(blocks.len() == 2 || blocks.len() == 3);
    assert_eq!(blocks[1].fields[1].text, "*Error Message:*\nx");
}
