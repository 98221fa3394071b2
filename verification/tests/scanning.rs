use panic_audit::scanner::Scanner;
use panic_audit::syntax::AstNode;
use panic_audit::types::{PanicClass, Severity, Vulnerability};

fn scanner_for(file: &str, source: &str) -> Scanner {
    let mut s = Scanner::new(String::from("demo"));
    s.current_file = String::from(file);
    s.current_source = String::from(source);
    s
}

fn method_call(method: &str, code: &str) -> AstNode {
    AstNode::MethodCall {
        method: String::from(method),
        code: String::from(code),
        children: Vec::new(),
    }
}

#[test]
fn find_line_locates_normalized_snippet() {
    let s = scanner_for(
        "src/lib.rs",
        "fn main() {\n    let x = foo.unwrap();\n    bar();\n}\n",
    );
    assert_eq!(s.find_line_in_source("foo . unwrap ()"), 2);
    assert_eq!(s.find_line_in_source("bar ( )"), 3);
}

#[test]
fn find_line_defaults_to_one() {
    let s = scanner_for("src/lib.rs", "fn main() {}\n");
    assert_eq!(s.find_line_in_source("no_such_call()"), 1);
    assert_eq!(s.find_line_in_source("   \n\t  "), 1);
    assert_eq!(s.find_line_in_source(""), 1);
}

#[test]
fn find_line_matches_on_first_forty_characters() {
    let long_head = "abcdefghijklmnopqrstuvwxyz0123456789abcd"; // 40 chars
    let source = format!("{}_tail_that_differs\nother\n", long_head);
    let s = scanner_for("src/lib.rs", &source);
    let snippet = format!("{}_completely_other_tail", long_head);
    assert_eq!(s.find_line_in_source(&snippet), 1);
}

#[test]
fn find_line_handles_crlf_line_endings() {
    let s = scanner_for("src/lib.rs", "let a = 1;\r\nfoo.unwrap();\r\n");
    assert_eq!(s.find_line_in_source("foo . unwrap ( )"), 2);
}

#[test]
fn non_ascii_text_is_classified_and_kept() {
    let mut s = scanner_for("src/lib.rs", "chemin_été.parse::<i32>().unwrap();\n");
    let code = "chemin_été.parse::<i32>().unwrap()";
    s.check_assumption_panic(code, "unwrap", 1);
    assert_eq!(s.vulnerabilities.len(), 1);
    assert_eq!(s.vulnerabilities[0].pattern, "Parsing Operation");
    assert_eq!(s.vulnerabilities[0].code, code);
}

#[test]
fn find_line_takes_first_of_equal_lines() {
    let s = scanner_for("src/lib.rs", "x.unwrap();\ny();\nx.unwrap();\n");
    assert_eq!(s.find_line_in_source("x.unwrap()"), 1);
}

#[test]
fn mutex_unwrap_reports_amplification() {
    let mut s = scanner_for("src/lib.rs", "let v = data_mutex.lock().unwrap();\n");
    s.check_panic_amplification("data_mutex.lock().unwrap()", 1);
    assert_eq!(s.vulnerabilities.len(), 1);
    let v = &s.vulnerabilities[0];
    assert_eq!(v.severity, Severity::Critical);
    assert_eq!(v.panic_class, PanicClass::PanicAmplification);
    assert_eq!(v.pattern, "Mutex/RwLock unwrap (panic amplification)");
}

#[test]
fn rwlock_read_unwrap_reports_amplification() {
    let mut s = scanner_for("src/lib.rs", "shared_rwlock.read().unwrap();\n");
    s.check_panic_amplification("shared_rwlock.read().unwrap()", 1);
    assert_eq!(s.vulnerabilities.len(), 1);
    assert_eq!(s.vulnerabilities[0].panic_class, PanicClass::PanicAmplification);
}

#[test]
fn amplification_is_not_filtered_as_false_positive() {
    // The inner-access shape suppresses the assumption-panic path, but the
    // amplification check still reports the poisoned-lock unwrap.
    let code = "self.inner_mutex.lock().unwrap()";
    let mut s = scanner_for("src/lib.rs", "self.inner_mutex.lock().unwrap();\n");
    s.check_assumption_panic(code, "unwrap", 1);
    assert_eq!(s.vulnerabilities.len(), 0);
    s.check_panic_amplification(code, 1);
    assert_eq!(s.vulnerabilities.len(), 1);
    assert_eq!(s.vulnerabilities[0].panic_class, PanicClass::PanicAmplification);
}

#[test]
fn visit_mutex_unwrap_call_yields_two_findings() {
    let code = "data_mutex.lock().unwrap()";
    let mut s = scanner_for("src/lib.rs", "let v = data_mutex.lock().unwrap();\n");
    let node = method_call("unwrap", code);
    s.visit_node(&node);
    assert_eq!(s.vulnerabilities.len(), 2);
    assert_eq!(s.vulnerabilities[0].severity, Severity::Low);
    assert_eq!(s.vulnerabilities[0].panic_class, PanicClass::AssumptionPanic);
    assert_eq!(s.vulnerabilities[1].severity, Severity::Critical);
    assert_eq!(s.vulnerabilities[1].panic_class, PanicClass::PanicAmplification);
}

#[test]
fn arc_try_unwrap_call_yields_nothing() {
    let code = "Arc::try_unwrap(x).unwrap()";
    let mut s = scanner_for("src/lib.rs", "let x = Arc::try_unwrap(x).unwrap();\n");
    let node = method_call("unwrap", code);
    s.visit_node(&node);
    assert_eq!(s.vulnerabilities.len(), 0);
}

#[test]
fn non_unwrap_method_yields_nothing() {
    let mut s = scanner_for("src/lib.rs", "value.parse::<i32>();\n");
    let node = method_call("parse", "value.parse::<i32>()");
    s.visit_node(&node);
    assert_eq!(s.vulnerabilities.len(), 0);
}

#[test]
fn unwrap_unchecked_runs_only_assumption_check() {
    let code = "cache_mutex.lock().unwrap_unchecked()";
    let mut s = scanner_for("src/lib.rs", "cache_mutex.lock().unwrap_unchecked();\n");
    let node = method_call("unwrap_unchecked", code);
    s.visit_node(&node);
    // One General Unwrap finding; the amplification check does not run for
    // unwrap_unchecked.
    assert_eq!(s.vulnerabilities.len(), 1);
    assert_eq!(s.vulnerabilities[0].panic_class, PanicClass::AssumptionPanic);
}

#[test]
fn indexing_outside_tests_yields_one_medium_finding() {
    let mut s = scanner_for("src/lib.rs", "let y = xs[i];\n");
    let node = AstNode::IndexExpr { code: String::from("xs[i]"), children: Vec::new() };
    s.visit_node(&node);
    assert_eq!(s.vulnerabilities.len(), 1);
    let v = &s.vulnerabilities[0];
    assert_eq!(v.severity, Severity::Medium);
    assert_eq!(v.panic_class, PanicClass::ImplicitPanic);
    assert_eq!(v.pattern, "Array/Slice Indexing");
    assert_eq!(v.line, "1");
    assert_eq!(v.file, "src/lib.rs");
    assert_eq!(v.code, "xs[i]");
}

#[test]
fn indexing_inside_test_fn_yields_nothing() {
    let mut s = scanner_for("src/lib.rs", "let y = xs[i];\n");
    let node = AstNode::FnItem {
        is_test: true,
        is_extern_abi: false,
        children: vec![AstNode::IndexExpr { code: String::from("xs[i]"), children: Vec::new() }],
    };
    s.visit_node(&node);
    assert_eq!(s.vulnerabilities.len(), 0);
    assert!(!s.in_test_code);
}

#[test]
fn tests_directory_files_are_skipped() {
    let mut s = scanner_for("src/tests/cases.rs", "let y = xs[i];\n");
    let node = AstNode::IndexExpr { code: String::from("xs[i]"), children: Vec::new() };
    s.visit_node(&node);
    assert_eq!(s.vulnerabilities.len(), 0);
}

#[test]
fn todo_macro_is_critical_implicit_panic() {
    let mut s = scanner_for("src/lib.rs", "fn later() {\n    todo!()\n}\n");
    let node = AstNode::MacroCall {
        name: String::from("todo"),
        code: String::from("todo!()"),
        children: Vec::new(),
    };
    s.visit_node(&node);
    assert_eq!(s.vulnerabilities.len(), 1);
    let v = &s.vulnerabilities[0];
    assert_eq!(v.severity, Severity::Critical);
    assert_eq!(v.panic_class, PanicClass::ImplicitPanic);
    assert_eq!(v.pattern, "todo!()");
    assert_eq!(v.line, "2");
}

#[test]
fn todo_macro_in_test_fn_yields_nothing() {
    let mut s = scanner_for("src/lib.rs", "fn later() {\n    todo!()\n}\n");
    let node = AstNode::FnItem {
        is_test: true,
        is_extern_abi: false,
        children: vec![AstNode::MacroCall {
            name: String::from("todo"),
            code: String::from("todo!()"),
            children: Vec::new(),
        }],
    };
    s.visit_node(&node);
    assert_eq!(s.vulnerabilities.len(), 0);
}

#[test]
fn nested_fn_keeps_enclosing_test_context() {
    // The test flag is lexical: a plain helper fn nested in a test fn is
    // still test code, so nothing in it is audited; the flags are restored
    // when the test fn is left.
    let inner = AstNode::FnItem {
        is_test: false,
        is_extern_abi: false,
        children: vec![AstNode::IndexExpr { code: String::from("xs[0]"), children: Vec::new() }],
    };
    let outer = AstNode::FnItem { is_test: true, is_extern_abi: false, children: vec![inner] };
    let mut s = scanner_for("src/lib.rs", "xs[0]\n");
    s.visit_node(&outer);
    assert_eq!(s.vulnerabilities.len(), 0);
    assert!(!s.in_test_code);
    assert!(!s.in_extern_fn);
}

#[test]
fn test_fn_inside_plain_fn_shields_only_its_own_body() {
    let inner_test = AstNode::FnItem {
        is_test: true,
        is_extern_abi: false,
        children: vec![AstNode::IndexExpr { code: String::from("ys[1]"), children: Vec::new() }],
    };
    let outer = AstNode::FnItem {
        is_test: false,
        is_extern_abi: false,
        children: vec![
            inner_test,
            AstNode::IndexExpr { code: String::from("xs[0]"), children: Vec::new() },
        ],
    };
    let mut s = scanner_for("src/lib.rs", "ys[1]\nxs[0]\n");
    s.visit_node(&outer);
    assert_eq!(s.vulnerabilities.len(), 1);
    assert_eq!(s.vulnerabilities[0].code, "xs[0]");
    assert_eq!(s.vulnerabilities[0].line, "2");
    assert!(!s.in_test_code);
}

#[test]
fn todo_macro_nested_in_plain_fn_inside_test_fn_yields_nothing() {
    let helper = AstNode::FnItem {
        is_test: false,
        is_extern_abi: false,
        children: vec![AstNode::MacroCall {
            name: String::from("todo"),
            code: String::from("todo!()"),
            children: Vec::new(),
        }],
    };
    let test_fn = AstNode::FnItem { is_test: true, is_extern_abi: false, children: vec![helper] };
    let mut s = scanner_for("src/lib.rs", "fn t() { fn h() { todo!() } }\n");
    s.visit_node(&test_fn);
    assert_eq!(s.vulnerabilities.len(), 0);
}

#[test]
fn extern_abi_flag_is_tracked_and_restored() {
    let node = AstNode::FnItem {
        is_test: false,
        is_extern_abi: true,
        children: vec![AstNode::IndexExpr { code: String::from("xs[0]"), children: Vec::new() }],
    };
    let mut s = scanner_for("src/lib.rs", "xs[0]\n");
    s.visit_node(&node);
    // The extern flag is reserved: findings are unchanged, and the flag is
    // restored after the function is left.
    assert_eq!(s.vulnerabilities.len(), 1);
    assert!(!s.in_extern_fn);
}

#[test]
fn assert_macros_are_medium_assertion_failures() {
    let mut s = scanner_for("src/lib.rs", "assert_eq!(a, b);\n");
    let node = AstNode::MacroCall {
        name: String::from("assert_eq"),
        code: String::from("assert_eq!(a, b)"),
        children: Vec::new(),
    };
    s.visit_node(&node);
    assert_eq!(s.vulnerabilities.len(), 1);
    let v = &s.vulnerabilities[0];
    assert_eq!(v.severity, Severity::Medium);
    assert_eq!(v.panic_class, PanicClass::AssertionFailure);
    assert_eq!(v.pattern, "assert_eq!()");
}

#[test]
fn exit_macro_needs_qualified_path() {
    let mut s = scanner_for("src/lib.rs", "std::process::exit(1);\nexit(2);\n");
    let qualified = AstNode::MacroCall {
        name: String::from("exit"),
        code: String::from("std::process::exit(1)"),
        children: Vec::new(),
    };
    let bare = AstNode::MacroCall {
        name: String::from("exit"),
        code: String::from("exit(2)"),
        children: Vec::new(),
    };
    s.visit_node(&qualified);
    s.visit_node(&bare);
    assert_eq!(s.vulnerabilities.len(), 1);
    let v = &s.vulnerabilities[0];
    assert_eq!(v.severity, Severity::Critical);
    assert_eq!(v.panic_class, PanicClass::ProcessKilling);
    assert_eq!(v.pattern, "process::exit()");
}

#[test]
fn unknown_macros_yield_nothing() {
    let mut s = scanner_for("src/lib.rs", "println!(\"hi\");\n");
    let node = AstNode::MacroCall {
        name: String::from("println"),
        code: String::from("println!(\"hi\")"),
        children: Vec::new(),
    };
    s.visit_node(&node);
    assert_eq!(s.vulnerabilities.len(), 0);
}

#[test]
fn snippet_is_truncated_to_120_characters() {
    let mut code = String::from("very_long_receiver_name");
    while code.len() < 150 {
        code.push('x');
    }
    code.push_str(".unwrap()");
    let mut s = scanner_for("src/lib.rs", "short source\n");
    s.check_assumption_panic(&code, "unwrap", 7);
    assert_eq!(s.vulnerabilities.len(), 1);
    assert_eq!(s.vulnerabilities[0].code.chars().count(), 120);
    assert_eq!(s.vulnerabilities[0].line, "7");
}

#[test]
fn group_nodes_descend_into_children() {
    let tree = AstNode::Group {
        children: vec![
            AstNode::Group {
                children: vec![method_call("unwrap", "config_reader.read_to_string(buf).unwrap()")],
            },
            AstNode::IndexExpr { code: String::from("xs[9]"), children: Vec::new() },
        ],
    };
    let mut s = scanner_for("src/lib.rs", "whatever\n");
    s.visit_node(&tree);
    assert_eq!(s.vulnerabilities.len(), 2);
    assert_eq!(s.vulnerabilities[0].panic_class, PanicClass::CloudflareClass);
    assert_eq!(s.vulnerabilities[1].panic_class, PanicClass::ImplicitPanic);
}

fn same_findings(a: &[Vulnerability], b: &[Vulnerability]) -> bool {
    if a.len() != b.len() {
        return false;
    }
    for i in 0..a.len() {
        if a[i].file != b[i].file || a[i].line != b[i].line || a[i].severity != b[i].severity
            || a[i].panic_class != b[i].panic_class || a[i].pattern != b[i].pattern
            || a[i].code != b[i].code
        {
            return false;
        }
    }
    true
}

#[test]
fn rescanning_the_same_tree_is_deterministic() {
    let tree = AstNode::Group {
        children: vec![
            method_call("unwrap", "fs::read(\"app.json\").unwrap()"),
            AstNode::IndexExpr { code: String::from("xs[3]"), children: Vec::new() },
            AstNode::MacroCall {
                name: String::from("unimplemented"),
                code: String::from("unimplemented!()"),
                children: Vec::new(),
            },
        ],
    };
    let source = "fs::read(\"app.json\").unwrap();\nxs[3];\nunimplemented!()\n";
    let mut s1 = scanner_for("src/lib.rs", source);
    let mut s2 = scanner_for("src/lib.rs", source);
    s1.visit_node(&tree);
    s2.visit_node(&tree);
    assert!(same_findings(&s1.vulnerabilities, &s2.vulnerabilities));
    assert_eq!(s1.vulnerabilities.len(), 3);
}
