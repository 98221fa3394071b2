//! The rule catalog and the classifier: a pure, priority-ordered mapping
//! from a call site's rendered source text to a severity, a panic class and
//! a human label, plus the false-positive filter.

use vstd::prelude::*;
use vstd::string::*;

use crate::text::{chars_of, contains_lit, has_sub, lower_chars, lower_seq};
use crate::types::{PanicClass, Severity};

verus! {

/// One named detection rule of the catalog.
#[derive(Debug, Clone)]
pub struct Rule {
    pub id: &'static str,
    pub kind: &'static str,
    pub severity: &'static str,
    pub message: &'static str,
}

/// The static rule catalog, in display order. The table's severities are
/// legend defaults; a classified finding's severity can differ from them.
pub fn all_rules() -> (r: Vec<Rule>)
    ensures
        r@.len() == 9,
        r@[0].id@ == "PA001"@ && r@[0].kind@ == "unwrap"@ && r@[0].severity@ == "HIGH"@
            && r@[0].message@ == "Use of unwrap() may panic"@,
        r@[1].id@ == "PA002"@ && r@[1].kind@ == "expect"@ && r@[1].severity@ == "HIGH"@
            && r@[1].message@ == "Use of expect() may panic"@,
        r@[2].id@ == "PA003"@ && r@[2].kind@ == "panic"@ && r@[2].severity@ == "CRITICAL"@
            && r@[2].message@ == "panic! macro found"@,
        r@[3].id@ == "PA004"@ && r@[3].kind@ == "todo"@ && r@[3].severity@ == "MEDIUM"@
            && r@[3].message@ == "todo! macro found"@,
        r@[4].id@ == "PA005"@ && r@[4].kind@ == "unreachable"@ && r@[4].severity@ == "MEDIUM"@
            && r@[4].message@ == "unreachable! macro found"@,
        r@[5].id@ == "PA006"@ && r@[5].kind@ == "indexing"@ && r@[5].severity@ == "MEDIUM"@
            && r@[5].message@ == "Array/slice indexing may panic"@,
        r@[6].id@ == "PA007"@ && r@[6].kind@ == "assertion"@ && r@[6].severity@ == "MEDIUM"@
            && r@[6].message@ == "Assertion may fail"@,
        r@[7].id@ == "PA008"@ && r@[7].kind@ == "mutex_unwrap"@ && r@[7].severity@ == "CRITICAL"@
            && r@[7].message@ == "Mutex/RwLock unwrap (panic amplification)"@,
        r@[8].id@ == "PA009"@ && r@[8].kind@ == "process_exit"@ && r@[8].severity@ == "CRITICAL"@
            && r@[8].message@ == "process::exit() found"@,
{
    let mut r: Vec<Rule> = Vec::new();
    r.push(Rule {
        id: "PA001",
        kind: "unwrap",
        severity: "HIGH",
        message: "Use of unwrap() may panic",
    });
    r.push(Rule {
        id: "PA002",
        kind: "expect",
        severity: "HIGH",
        message: "Use of expect() may panic",
    });
    r.push(Rule {
        id: "PA003",
        kind: "panic",
        severity: "CRITICAL",
        message: "panic! macro found",
    });
    r.push(Rule {
        id: "PA004",
        kind: "todo",
        severity: "MEDIUM",
        message: "todo! macro found",
    });
    r.push(Rule {
        id: "PA005",
        kind: "unreachable",
        severity: "MEDIUM",
        message: "unreachable! macro found",
    });
    r.push(Rule {
        id: "PA006",
        kind: "indexing",
        severity: "MEDIUM",
        message: "Array/slice indexing may panic",
    });
    r.push(Rule {
        id: "PA007",
        kind: "assertion",
        severity: "MEDIUM",
        message: "Assertion may fail",
    });
    r.push(Rule {
        id: "PA008",
        kind: "mutex_unwrap",
        severity: "CRITICAL",
        message: "Mutex/RwLock unwrap (panic amplification)",
    });
    r.push(Rule {
        id: "PA009",
        kind: "process_exit",
        severity: "CRITICAL",
        message: "process::exit() found",
    });
    r
}

/// Config-file loading combined with a file read: the outage-grade pattern.
/// `l` is the already-lowercased call text.
pub open spec fn cloudflare_spec(l: Seq<char>) -> bool {
    (has_sub(l, "file::open"@) || has_sub(l, "read_to_string"@) || has_sub(l, "fs::read"@)) && (
    has_sub(l, ".toml"@) || has_sub(l, ".yaml"@) || has_sub(l, ".json"@) || has_sub(l, ".ini"@)
        || has_sub(l, ".conf"@) || has_sub(l, "config"@) || has_sub(l, "settings"@) || has_sub(
        l,
        "feature"@,
    ))
}

/// File I/O combined with an unchecked unwrap/expect.
pub open spec fn file_io_spec(l: Seq<char>) -> bool {
    (has_sub(l, "file::open"@) || has_sub(l, "file::create"@) || has_sub(l, "fs::read"@)
        || has_sub(l, "fs::write"@) || has_sub(l, "read_to_string"@)) && (has_sub(l, "unwrap"@)
        || has_sub(l, "expect"@))
}

/// Socket establishment combined with an unchecked unwrap/expect.
pub open spec fn network_spec(l: Seq<char>) -> bool {
    (has_sub(l, "tcpstream::connect"@) || has_sub(l, "tcplistener::bind"@) || has_sub(
        l,
        "udpsocket::bind"@,
    )) && (has_sub(l, "unwrap"@) || has_sub(l, "expect"@))
}

/// An HTTP client library's send call.
pub open spec fn http_spec(l: Seq<char>) -> bool {
    (has_sub(l, "reqwest"@) || has_sub(l, "hyper"@)) && has_sub(l, ".send("@)
}

/// A capacity reservation sized from a possibly untrusted value.
pub open spec fn alloc_spec(l: Seq<char>) -> bool {
    has_sub(l, "with_capacity"@) || has_sub(l, "reserve"@)
}

/// A string-to-value parse or structured-format deserialization.
pub open spec fn parse_spec(l: Seq<char>) -> bool {
    has_sub(l, "str::parse"@) || has_sub(l, ".parse::<"@) || has_sub(l, "from_str("@) || has_sub(
        l,
        "serde_json::from"@,
    ) || has_sub(l, "toml::from"@) || has_sub(l, "yaml::from"@)
}

/// A database query/execute/fetch through a recognized database library.
pub open spec fn db_spec(l: Seq<char>) -> bool {
    (has_sub(l, "query("@) || has_sub(l, "execute("@) || has_sub(l, "fetch"@)) && (has_sub(
        l,
        "diesel"@,
    ) || has_sub(l, "sqlx"@) || has_sub(l, "postgres"@))
}

/// An environment-variable lookup.
pub open spec fn env_spec(l: Seq<char>) -> bool {
    has_sub(l, "env::var"@)
}

/// The classifier's result on a call site's rendered text: the first match
/// in priority order, or the low-severity default bucket.
pub open spec fn classify_spec(code: Seq<char>) -> (Severity, PanicClass, Seq<char>) {
    let l = lower_seq(code);
    if cloudflare_spec(l) {
        (
            Severity::Critical,
            PanicClass::CloudflareClass,
            "Config/Feature File Loading (Cloudflare Pattern)"@,
        )
    } else if file_io_spec(l) {
        (Severity::Critical, PanicClass::AssumptionPanic, "File I/O Operation"@)
    } else if network_spec(l) {
        (Severity::Critical, PanicClass::AssumptionPanic, "Network Socket Operation"@)
    } else if http_spec(l) {
        (Severity::Critical, PanicClass::AssumptionPanic, "HTTP Request"@)
    } else if alloc_spec(l) {
        (Severity::High, PanicClass::AllocationPanic, "Allocation with Potential Untrusted Size"@)
    } else if parse_spec(l) {
        (Severity::High, PanicClass::AssumptionPanic, "Parsing Operation"@)
    } else if db_spec(l) {
        (Severity::High, PanicClass::AssumptionPanic, "Database Operation"@)
    } else if env_spec(l) {
        (Severity::Medium, PanicClass::AssumptionPanic, "Environment Variable"@)
    } else {
        (Severity::Low, PanicClass::AssumptionPanic, "General Unwrap"@)
    }
}

/// Decides [`cloudflare_spec`] on already-lowercased text.
fn cloudflare_chars(l: &Vec<char>) -> (b: bool)
    ensures
        b == cloudflare_spec(l@),
{
    (contains_lit(l, "file::open") || contains_lit(l, "read_to_string") || contains_lit(
        l,
        "fs::read",
    )) && (contains_lit(l, ".toml") || contains_lit(l, ".yaml") || contains_lit(l, ".json")
        || contains_lit(l, ".ini") || contains_lit(l, ".conf") || contains_lit(l, "config")
        || contains_lit(l, "settings") || contains_lit(l, "feature"))
}

/// Tests text (conventionally already lowercased) for the config-loading
/// pattern; the classifier applies it to the lowercased call text.
pub fn is_cloudflare_class(code: &str) -> (b: bool)
    ensures
        b == cloudflare_spec(code@),
{
    let v = chars_of(code);
    cloudflare_chars(&v)
}

/// Maps a call site's rendered source text to severity, panic class and
/// label, exactly as [`classify_spec`] states.
pub fn classify_panic(code: &str) -> (r: (Severity, PanicClass, String))
    ensures
        r.0 == classify_spec(code@).0,
        r.1 == classify_spec(code@).1,
        r.2@ == classify_spec(code@).2,
{
    let cs = chars_of(code);
    let l = lower_chars(&cs);
    if cloudflare_chars(&l) {
        (
            Severity::Critical,
            PanicClass::CloudflareClass,
            String::from_str("Config/Feature File Loading (Cloudflare Pattern)"),
        )
    } else if (contains_lit(&l, "file::open") || contains_lit(&l, "file::create") || contains_lit(
        &l,
        "fs::read",
    ) || contains_lit(&l, "fs::write") || contains_lit(&l, "read_to_string")) && (contains_lit(
        &l,
        "unwrap",
    ) || contains_lit(&l, "expect")) {
        (Severity::Critical, PanicClass::AssumptionPanic, String::from_str("File I/O Operation"))
    } else if (contains_lit(&l, "tcpstream::connect") || contains_lit(&l, "tcplistener::bind")
        || contains_lit(&l, "udpsocket::bind")) && (contains_lit(&l, "unwrap") || contains_lit(
        &l,
        "expect",
    )) {
        (
            Severity::Critical,
            PanicClass::AssumptionPanic,
            String::from_str("Network Socket Operation"),
        )
    } else if (contains_lit(&l, "reqwest") || contains_lit(&l, "hyper")) && contains_lit(
        &l,
        ".send(",
    ) {
        (Severity::Critical, PanicClass::AssumptionPanic, String::from_str("HTTP Request"))
    } else if contains_lit(&l, "with_capacity") || contains_lit(&l, "reserve") {
        (
            Severity::High,
            PanicClass::AllocationPanic,
            String::from_str("Allocation with Potential Untrusted Size"),
        )
    } else if contains_lit(&l, "str::parse") || contains_lit(&l, ".parse::<") || contains_lit(
        &l,
        "from_str(",
    ) || contains_lit(&l, "serde_json::from") || contains_lit(&l, "toml::from") || contains_lit(
        &l,
        "yaml::from",
    ) {
        (Severity::High, PanicClass::AssumptionPanic, String::from_str("Parsing Operation"))
    } else if (contains_lit(&l, "query(") || contains_lit(&l, "execute(") || contains_lit(
        &l,
        "fetch",
    )) && (contains_lit(&l, "diesel") || contains_lit(&l, "sqlx") || contains_lit(&l, "postgres")) {
        (Severity::High, PanicClass::AssumptionPanic, String::from_str("Database Operation"))
    } else if contains_lit(&l, "env::var") {
        (Severity::Medium, PanicClass::AssumptionPanic, String::from_str("Environment Variable"))
    } else {
        (Severity::Low, PanicClass::AssumptionPanic, String::from_str("General Unwrap"))
    }
}

/// Known-benign shapes the assumption-panic check discards: exclusive
/// ownership recovery on a reference-counted pointer, and internal
/// field/inner access without any file/read/load wording.
pub open spec fn false_positive_spec(code: Seq<char>) -> bool {
    let l = lower_seq(code);
    if has_sub(l, "arc::try_unwrap"@) || has_sub(l, "rc::try_unwrap"@) {
        true
    } else if (has_sub(l, "self.inner"@) || has_sub(l, ".inner()"@)) && !has_sub(l, "file"@)
        && !has_sub(l, "read"@) && !has_sub(l, "load"@) {
        true
    } else {
        false
    }
}

/// Decides [`false_positive_spec`] on a call site's rendered text.
pub fn is_false_positive(code: &str) -> (b: bool)
    ensures
        b == false_positive_spec(code@),
{
    let cs = chars_of(code);
    let l = lower_chars(&cs);
    if contains_lit(&l, "arc::try_unwrap") || contains_lit(&l, "rc::try_unwrap") {
        true
    } else if (contains_lit(&l, "self.inner") || contains_lit(&l, ".inner()")) && !contains_lit(
        &l,
        "file",
    ) && !contains_lit(&l, "read") && !contains_lit(&l, "load") {
        true
    } else {
        false
    }
}

} // verus!
