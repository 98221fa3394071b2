//! The tree scanner: walks a source file's syntax tree with lexically
//! scoped test/extern context, recovers a best-effort line for each hit,
//! and accumulates the findings.

use vstd::prelude::*;
use vstd::string::*;

use crate::rules::{classify_panic, classify_spec, false_positive_spec, is_false_positive};
use crate::syntax::AstNode;
use crate::text::{
    chars_of, contains_lit, contains_sub, dec_str, has_sub, is_ws_char, lower_chars, lower_seq,
    prefix_chars, prefix_of, str_eq, strip_ws, strip_ws_chars, usize_to_string,
};
use crate::types::{
    finding_views, lemma_views_push, PanicClass, Severity, VulnView, Vulnerability,
};

verus! {

broadcast use {
    vstd::seq::axiom_seq_index_decreases,
    vstd::seq::axiom_seq_subrange_decreases,
    vstd::std_specs::vec::axiom_vec_decreases_to_view,
    vstd::std_specs::vec::axiom_vec_index_decreases,
};

/// The scanner's state for one walk: the file under scan, its raw source
/// text, the lexical context flags, and the findings gathered so far.
pub struct Scanner {
    pub crate_name: String,
    pub current_file: String,
    pub current_source: String,
    pub in_test_code: bool,
    pub in_unsafe_block: bool,
    pub in_extern_fn: bool,
    pub vulnerabilities: Vec<Vulnerability>,
}

/// The source split at every line feed; one (possibly empty) line more than
/// the number of line feeds, so the count is always at least one.
pub open spec fn split_lines(s: Seq<char>) -> Seq<Seq<char>>
    decreases s.len(),
{
    if s.len() == 0 {
        seq![Seq::<char>::empty()]
    } else {
        let rest = split_lines(s.drop_last());
        if s.last() == '\n' {
            rest.push(Seq::<char>::empty())
        } else {
            rest.update(rest.len() - 1, rest.last().push(s.last()))
        }
    }
}

/// Splitting always yields at least one line.
pub proof fn lemma_split_lines_len(s: Seq<char>)
    ensures
        split_lines(s).len() >= 1,
    decreases s.len(),
{
    if s.len() > 0 {
        lemma_split_lines_len(s.drop_last());
    }
}

/// The normalized search key: the first forty non-whitespace characters of
/// the rendered snippet.
pub open spec fn norm_prefix(snippet: Seq<char>) -> Seq<char> {
    prefix_of(strip_ws(snippet), 40)
}

/// A source line matches when its whitespace-stripped content contains the
/// key as a substring.
pub open spec fn line_matches(line: Seq<char>, pat: Seq<char>) -> bool {
    has_sub(strip_ws(line), pat)
}

/// The 1-based number of the first matching line among the first `k` lines,
/// or zero when none of them matches.
pub open spec fn first_match_upto(lines: Seq<Seq<char>>, pat: Seq<char>, k: int) -> int
    decreases k,
{
    if k <= 0 {
        0
    } else if first_match_upto(lines, pat, k - 1) != 0 {
        first_match_upto(lines, pat, k - 1)
    } else if line_matches(lines[k - 1], pat) {
        k
    } else {
        0
    }
}

/// Best-effort line recovery: the first source line whose stripped content
/// contains the stripped 40-character snippet prefix; line 1 when the key is
/// empty or nothing matches.
pub open spec fn find_line_spec(source: Seq<char>, snippet: Seq<char>) -> int {
    let pat = norm_prefix(snippet);
    if pat.len() == 0 {
        1
    } else {
        let lines = split_lines(source);
        let m = first_match_upto(lines, pat, lines.len() as int);
        if m == 0 {
            1
        } else {
            m
        }
    }
}

/// The whitespace-stripped lines of `s`.
pub open spec fn norm_lines_of(s: Seq<char>) -> Seq<Seq<char>> {
    split_lines(s).map_values(|l: Seq<char>| strip_ws(l))
}

/// The views of a vector of line buffers.
pub open spec fn line_views(ls: Seq<Vec<char>>) -> Seq<Seq<char>> {
    ls.map_values(|l: Vec<char>| l@)
}

/// Splits `src` into its whitespace-stripped lines.
fn norm_lines(src: &Vec<char>) -> (nl: Vec<Vec<char>>)
    ensures
        line_views(nl@) == norm_lines_of(src@),
{
    let mut nl: Vec<Vec<char>> = Vec::new();
    let mut cur: Vec<char> = Vec::new();
    let mut i: usize = 0;
    proof {
        assert(src@.take(0) =~= Seq::<char>::empty());
        assert(line_views(nl@).push(cur@) =~= norm_lines_of(src@.take(0)));
    }
    while i < src.len()
        invariant
            i <= src@.len(),
            line_views(nl@).push(cur@) == norm_lines_of(src@.take(i as int)),
        decreases src@.len() - i,
    {
        let ghost pre = src@.take(i as int);
        let ghost step = src@.take(i + 1 as int);
        proof {
            assert(step.drop_last() =~= pre);
            assert(step.last() == src@[i as int]);
            lemma_split_lines_len(pre);
        }
        let c = src[i];
        if c == '\n' {
            let ghost pre_nl = nl@;
            let done = cur;
            cur = Vec::new();
            nl.push(done);
            proof {
                assert(split_lines(step) == split_lines(pre).push(Seq::<char>::empty()));
                assert(line_views(nl@).push(cur@) =~= norm_lines_of(step)) by {
                    assert(line_views(nl@) =~= line_views(pre_nl).push(done@));
                    assert(norm_lines_of(step) =~= norm_lines_of(pre).push(
                        strip_ws(Seq::<char>::empty()),
                    ));
                }
            }
        } else {
            let ghost pre_cur = cur@;
            if !is_ws_char(c) {
                cur.push(c);
            }
            proof {
                let lines_pre = split_lines(pre);
                let last_pre = lines_pre.last();
                assert(split_lines(step) == lines_pre.update(
                    lines_pre.len() - 1,
                    last_pre.push(src@[i as int]),
                ));
                assert(strip_ws(last_pre) == norm_lines_of(pre).last());
                assert(norm_lines_of(pre).last() == line_views(nl@).push(pre_cur).last());
                assert(strip_ws(last_pre.push(src@[i as int])) == cur@) by {
                    assert(last_pre.push(src@[i as int]).drop_last() =~= last_pre);
                }
                assert(line_views(nl@).push(cur@) =~= norm_lines_of(step)) by {
                    assert forall|j: int|
                        0 <= j < norm_lines_of(step).len() implies norm_lines_of(step)[j]
                        == line_views(nl@).push(cur@)[j] by {
                        if j < norm_lines_of(step).len() - 1 {
                            assert(norm_lines_of(step)[j] == strip_ws(lines_pre[j]));
                            assert(norm_lines_of(pre)[j] == strip_ws(lines_pre[j]));
                        }
                    }
                }
            }
        }
        i += 1;
    }
    proof {
        assert(src@.take(src@.len() as int) =~= src@);
        lemma_split_lines_len(src@);
    }
    let ghost pre_nl = nl@;
    nl.push(cur);
    proof {
        assert(line_views(nl@) =~= line_views(pre_nl).push(cur@));
    }
    nl
}

impl Scanner {
    /// A fresh scanner for one walk over the given crate's files: empty
    /// file and source, both context flags off, no findings.
    pub fn new(crate_name: String) -> (s: Self)
        ensures
            s.crate_name == crate_name,
            s.current_file@ == Seq::<char>::empty(),
            s.current_source@ == Seq::<char>::empty(),
            s.in_test_code == false,
            s.in_unsafe_block == false,
            s.in_extern_fn == false,
            s.vulnerabilities@ == Seq::<Vulnerability>::empty(),
    {
        Self {
            crate_name,
            current_file: String::new(),
            current_source: String::new(),
            in_test_code: false,
            in_unsafe_block: false,
            in_extern_fn: false,
            vulnerabilities: Vec::new(),
        }
    }

    /// Recovers a 1-based line number for a rendered snippet by searching
    /// the current source, as [`find_line_spec`] states.
    pub fn find_line_in_source(&self, code_snippet: &str) -> (line: usize)
        ensures
            line as int == find_line_spec(self.current_source@, code_snippet@),
    {
        let sn = chars_of(code_snippet);
        let mut pat = strip_ws_chars(&sn);
        prefix_chars(&mut pat, 40);
        if pat.len() == 0 {
            return 1;
        }
        let src = chars_of(self.current_source.as_str());
        let nl = norm_lines(&src);
        let ghost lines = split_lines(self.current_source@);
        proof {
            lemma_split_lines_len(self.current_source@);
            assert(line_views(nl@).len() == nl@.len());
            assert(norm_lines_of(self.current_source@).len() == split_lines(
                self.current_source@,
            ).len());
            assert(nl@.len() == lines.len());
        }
        let total = nl.len();
        let mut res: usize = 0;
        let mut j: usize = 0;
        while j < total
            invariant
                total == nl@.len(),
                nl@.len() == lines.len(),
                lines == split_lines(self.current_source@),
                line_views(nl@) == norm_lines_of(self.current_source@),
                j <= total,
                res <= j,
                res as int == first_match_upto(lines, pat@, j as int),
                pat@ == norm_prefix(code_snippet@),
            decreases total - j,
        {
            if res == 0 {
                if contains_sub(&nl[j], &pat) {
                    res = j + 1;
                }
            }
            proof {
                assert(line_views(nl@)[j as int] == nl@[j as int]@);
                assert(norm_lines_of(self.current_source@)[j as int] == strip_ws(
                    lines[j as int],
                ));
            }
            j += 1;
        }
        if res == 0 {
            1
        } else {
            res
        }
    }
}

/// Detection is suppressed inside a test/bench function and in files under
/// a conventional tests directory.
pub open spec fn skip_context(in_test: bool, file: Seq<char>) -> bool {
    in_test || has_sub(file, "/tests/"@)
}

/// The finding the assumption-panic check records at a call site, built
/// from the classifier's verdict on the rendered text.
pub open spec fn assumption_finding(file: Seq<char>, line: int, code: Seq<char>) -> VulnView {
    VulnView {
        file,
        line: dec_str(line),
        severity: classify_spec(code).0,
        panic_class: classify_spec(code).1,
        pattern: classify_spec(code).2,
        code: prefix_of(code, 120),
    }
}

/// What the assumption-panic check appends: nothing when the false-positive
/// filter matches, else exactly one classified finding.
pub open spec fn assumption_delta(code: Seq<char>, file: Seq<char>, line: int) -> Seq<VulnView> {
    if false_positive_spec(code) {
        Seq::empty()
    } else {
        seq![assumption_finding(file, line, code)]
    }
}

/// A mutual-exclusion or reader-writer lock identifier combined with a
/// lock-acquisition call, on lowered text.
pub open spec fn amp_spec(l: Seq<char>) -> bool {
    (has_sub(l, "mutex"@) || has_sub(l, "rwlock"@)) && (has_sub(l, "lock("@) || has_sub(
        l,
        "read("@,
    ) || has_sub(l, "write("@))
}

/// The panic-amplification finding: always Critical, never filtered.
pub open spec fn amp_finding(file: Seq<char>, line: int, code: Seq<char>) -> VulnView {
    VulnView {
        file,
        line: dec_str(line),
        severity: Severity::Critical,
        panic_class: PanicClass::PanicAmplification,
        pattern: "Mutex/RwLock unwrap (panic amplification)"@,
        code: prefix_of(code, 120),
    }
}

/// What the panic-amplification check appends.
pub open spec fn amp_delta(code: Seq<char>, file: Seq<char>, line: int) -> Seq<VulnView> {
    if amp_spec(lower_seq(code)) {
        seq![amp_finding(file, line, code)]
    } else {
        Seq::empty()
    }
}

/// What visiting one method call records: the assumption-panic finding for
/// unwrap/expect/unwrap_unchecked, then independently the amplification
/// finding for unwrap/expect; nothing in a skipped context.
pub open spec fn method_call_findings(
    method: Seq<char>,
    code: Seq<char>,
    in_test: bool,
    file: Seq<char>,
    source: Seq<char>,
) -> Seq<VulnView> {
    if skip_context(in_test, file) {
        Seq::empty()
    } else {
        let line = find_line_spec(source, code);
        (if method == "unwrap"@ || method == "expect"@ || method == "unwrap_unchecked"@ {
            assumption_delta(code, file, line)
        } else {
            Seq::empty()
        }) + (if method == "unwrap"@ || method == "expect"@ {
            amp_delta(code, file, line)
        } else {
            Seq::empty()
        })
    }
}

/// What visiting one indexing expression records: exactly one Medium
/// implicit-panic finding outside a skipped context.
pub open spec fn index_findings(
    code: Seq<char>,
    in_test: bool,
    file: Seq<char>,
    source: Seq<char>,
) -> Seq<VulnView> {
    if skip_context(in_test, file) {
        Seq::empty()
    } else {
        seq![
            VulnView {
                file,
                line: dec_str(find_line_spec(source, code)),
                severity: Severity::Medium,
                panic_class: PanicClass::ImplicitPanic,
                pattern: "Array/Slice Indexing"@,
                code: prefix_of(code, 120),
            },
        ]
    }
}

/// What visiting one macro invocation records, dispatched strictly on the
/// macro's final path segment.
pub open spec fn macro_findings(
    name: Seq<char>,
    code: Seq<char>,
    in_test: bool,
    file: Seq<char>,
    source: Seq<char>,
) -> Seq<VulnView> {
    if skip_context(in_test, file) {
        Seq::empty()
    } else {
        let line = find_line_spec(source, code);
        if name == "todo"@ || name == "unimplemented"@ {
            seq![
                VulnView {
                    file,
                    line: dec_str(line),
                    severity: Severity::Critical,
                    panic_class: PanicClass::ImplicitPanic,
                    pattern: name + "!()"@,
                    code: prefix_of(code, 120),
                },
            ]
        } else if name == "assert"@ || name == "assert_eq"@ || name == "assert_ne"@ || name
            == "debug_assert"@ {
            seq![
                VulnView {
                    file,
                    line: dec_str(line),
                    severity: Severity::Medium,
                    panic_class: PanicClass::AssertionFailure,
                    pattern: name + "!()"@,
                    code: prefix_of(code, 120),
                },
            ]
        } else if name == "exit"@ && has_sub(code, "std::process"@) {
            seq![
                VulnView {
                    file,
                    line: dec_str(line),
                    severity: Severity::Critical,
                    panic_class: PanicClass::ProcessKilling,
                    pattern: "process::exit()"@,
                    code: prefix_of(code, 120),
                },
            ]
        } else {
            Seq::empty()
        }
    }
}

/// The findings of a pre-order walk of one node under the given context.
pub open spec fn scan_node(
    n: AstNode,
    in_test: bool,
    in_extern: bool,
    file: Seq<char>,
    source: Seq<char>,
) -> Seq<VulnView>
    decreases n,
{
    match n {
        AstNode::FnItem { is_test, is_extern_abi, children } => scan_seq(
            children@,
            in_test || is_test,
            in_extern || is_extern_abi,
            file,
            source,
        ),
        AstNode::MethodCall { method, code, children } => method_call_findings(
            method@,
            code@,
            in_test,
            file,
            source,
        ) + scan_seq(children@, in_test, in_extern, file, source),
        AstNode::IndexExpr { code, children } => index_findings(code@, in_test, file, source)
            + scan_seq(children@, in_test, in_extern, file, source),
        AstNode::MacroCall { name, code, children } => macro_findings(
            name@,
            code@,
            in_test,
            file,
            source,
        ) + scan_seq(children@, in_test, in_extern, file, source),
        AstNode::Group { children } => scan_seq(children@, in_test, in_extern, file, source),
    }
}

/// The findings of walking a node sequence left to right.
pub open spec fn scan_seq(
    nodes: Seq<AstNode>,
    in_test: bool,
    in_extern: bool,
    file: Seq<char>,
    source: Seq<char>,
) -> Seq<VulnView>
    decreases nodes,
{
    if nodes.len() == 0 {
        Seq::empty()
    } else {
        scan_node(nodes[0], in_test, in_extern, file, source) + scan_seq(
            nodes.drop_first(),
            in_test,
            in_extern,
            file,
            source,
        )
    }
}

/// Walking one node more appends that node's findings.
pub proof fn lemma_scan_seq_push(
    nodes: Seq<AstNode>,
    x: AstNode,
    in_test: bool,
    in_extern: bool,
    file: Seq<char>,
    source: Seq<char>,
)
    ensures
        scan_seq(nodes.push(x), in_test, in_extern, file, source) == scan_seq(
            nodes,
            in_test,
            in_extern,
            file,
            source,
        ) + scan_node(x, in_test, in_extern, file, source),
    decreases nodes.len(),
{
    let sx = scan_node(x, in_test, in_extern, file, source);
    if nodes.len() == 0 {
        assert(nodes.push(x)[0] == x);
        assert(nodes.push(x).drop_first() =~= nodes);
        assert(sx + Seq::<VulnView>::empty() =~= sx);
        assert(Seq::<VulnView>::empty() + sx =~= sx);
    } else {
        assert(nodes.push(x)[0] == nodes[0]);
        assert(nodes.push(x).drop_first() =~= nodes.drop_first().push(x));
        lemma_scan_seq_push(nodes.drop_first(), x, in_test, in_extern, file, source);
        let s0 = scan_node(nodes[0], in_test, in_extern, file, source);
        let rest = scan_seq(nodes.drop_first(), in_test, in_extern, file, source);
        assert(s0 + (rest + sx) =~= (s0 + rest) + sx);
    }
}

/// The stored snippet: the rendered text truncated to 120 characters.
fn truncate_code(code: &str) -> (r: String)
    ensures
        r@ == prefix_of(code@, 120),
{
    let n = code.unicode_len();
    if n <= 120 {
        String::from_str(code)
    } else {
        String::from_str(code.substring_char(0, 120))
    }
}

impl Scanner {
    /// Runs the assumption-panic check for an unwrap-shaped call site:
    /// discards a filtered false positive, else records the classified
    /// finding against the current file. Nothing else changes.
    pub fn check_assumption_panic(&mut self, code: &str, _method: &str, line: usize)
        ensures
            finding_views(final(self).vulnerabilities@) == finding_views(
                old(self).vulnerabilities@,
            ) + assumption_delta(code@, old(self).current_file@, line as int),
            final(self).crate_name == old(self).crate_name,
            final(self).current_file == old(self).current_file,
            final(self).current_source == old(self).current_source,
            final(self).in_test_code == old(self).in_test_code,
            final(self).in_unsafe_block == old(self).in_unsafe_block,
            final(self).in_extern_fn == old(self).in_extern_fn,
    {
        if is_false_positive(code) {
            proof {
                assert(finding_views(self.vulnerabilities@) + Seq::<VulnView>::empty()
                    =~= finding_views(self.vulnerabilities@));
            }
            return;
        }
        let r = classify_panic(code);
        let v = Vulnerability::new(
            self.current_file.clone(),
            usize_to_string(line),
            r.0,
            r.1,
            r.2,
            truncate_code(code),
        );
        let ghost pre = self.vulnerabilities@;
        self.vulnerabilities.push(v);
        proof {
            lemma_views_push(pre, v);
            assert(v@ == assumption_finding(old(self).current_file@, line as int, code@));
            assert(finding_views(pre).push(v@) =~= finding_views(pre) + seq![v@]);
        }
    }

    /// Runs the panic-amplification check for an unwrap/expect call site:
    /// a poisoned-lock unwrap is always recorded, never filtered.
    pub fn check_panic_amplification(&mut self, code: &str, line: usize)
        ensures
            finding_views(final(self).vulnerabilities@) == finding_views(
                old(self).vulnerabilities@,
            ) + amp_delta(code@, old(self).current_file@, line as int),
            final(self).crate_name == old(self).crate_name,
            final(self).current_file == old(self).current_file,
            final(self).current_source == old(self).current_source,
            final(self).in_test_code == old(self).in_test_code,
            final(self).in_unsafe_block == old(self).in_unsafe_block,
            final(self).in_extern_fn == old(self).in_extern_fn,
    {
        let cs = chars_of(code);
        let l = lower_chars(&cs);
        if (contains_lit(&l, "mutex") || contains_lit(&l, "rwlock")) && (contains_lit(&l, "lock(")
            || contains_lit(&l, "read(") || contains_lit(&l, "write(")) {
            let v = Vulnerability::new(
                self.current_file.clone(),
                usize_to_string(line),
                Severity::Critical,
                PanicClass::PanicAmplification,
                String::from_str("Mutex/RwLock unwrap (panic amplification)"),
                truncate_code(code),
            );
            let ghost pre = self.vulnerabilities@;
            self.vulnerabilities.push(v);
            proof {
                lemma_views_push(pre, v);
                assert(v@ == amp_finding(old(self).current_file@, line as int, code@));
                assert(finding_views(pre).push(v@) =~= finding_views(pre) + seq![v@]);
            }
        } else {
            proof {
                assert(finding_views(self.vulnerabilities@) + Seq::<VulnView>::empty()
                    =~= finding_views(self.vulnerabilities@));
            }
        }
    }

    /// Walks the nodes left to right under the current context.
    fn visit_nodes(&mut self, children: &Vec<AstNode>)
        ensures
            finding_views(final(self).vulnerabilities@) == finding_views(
                old(self).vulnerabilities@,
            ) + scan_seq(
                children@,
                old(self).in_test_code,
                old(self).in_extern_fn,
                old(self).current_file@,
                old(self).current_source@,
            ),
            final(self).crate_name == old(self).crate_name,
            final(self).current_file == old(self).current_file,
            final(self).current_source == old(self).current_source,
            final(self).in_test_code == old(self).in_test_code,
            final(self).in_unsafe_block == old(self).in_unsafe_block,
            final(self).in_extern_fn == old(self).in_extern_fn,
        decreases *children,
    {
        let ghost t = self.in_test_code;
        let ghost e = self.in_extern_fn;
        let ghost f = self.current_file@;
        let ghost src = self.current_source@;
        proof {
            assert(children@.take(0) =~= Seq::<AstNode>::empty());
            assert(finding_views(self.vulnerabilities@) + Seq::<VulnView>::empty()
                =~= finding_views(self.vulnerabilities@));
        }
        let mut i: usize = 0;
        while i < children.len()
            invariant
                i <= children@.len(),
                finding_views(self.vulnerabilities@) == finding_views(
                    old(self).vulnerabilities@,
                ) + scan_seq(children@.take(i as int), t, e, f, src),
                t == old(self).in_test_code,
                e == old(self).in_extern_fn,
                f == old(self).current_file@,
                src == old(self).current_source@,
                self.crate_name == old(self).crate_name,
                self.current_file == old(self).current_file,
                self.current_source == old(self).current_source,
                self.in_test_code == old(self).in_test_code,
                self.in_unsafe_block == old(self).in_unsafe_block,
                self.in_extern_fn == old(self).in_extern_fn,
            decreases children@.len() - i,
        {
            let ghost base = finding_views(self.vulnerabilities@);
            self.visit_node(&children[i]);
            proof {
                assert(children@.take(i + 1 as int) =~= children@.take(i as int).push(
                    children@[i as int],
                ));
                lemma_scan_seq_push(children@.take(i as int), children@[i as int], t, e, f, src);
                assert(finding_views(old(self).vulnerabilities@) + (scan_seq(
                    children@.take(i as int),
                    t,
                    e,
                    f,
                    src,
                ) + scan_node(children@[i as int], t, e, f, src)) =~= (finding_views(
                    old(self).vulnerabilities@,
                ) + scan_seq(children@.take(i as int), t, e, f, src)) + scan_node(
                    children@[i as int],
                    t,
                    e,
                    f,
                    src,
                ));
            }
            i += 1;
        }
        proof {
            assert(children@.take(children@.len() as int) =~= children@);
        }
    }

    /// One pre-order visit: applies the checks this node kind calls for,
    /// then descends into the children; the test/extern context set by a
    /// function item is restored on leaving it.
    pub fn visit_node(&mut self, node: &AstNode)
        ensures
            finding_views(final(self).vulnerabilities@) == finding_views(
                old(self).vulnerabilities@,
            ) + scan_node(
                *node,
                old(self).in_test_code,
                old(self).in_extern_fn,
                old(self).current_file@,
                old(self).current_source@,
            ),
            final(self).crate_name == old(self).crate_name,
            final(self).current_file == old(self).current_file,
            final(self).current_source == old(self).current_source,
            final(self).in_test_code == old(self).in_test_code,
            final(self).in_unsafe_block == old(self).in_unsafe_block,
            final(self).in_extern_fn == old(self).in_extern_fn,
        decreases *node,
    {
        match node {
            AstNode::FnItem { is_test, is_extern_abi, children } => {
                let was_test = self.in_test_code;
                let was_extern = self.in_extern_fn;
                if *is_test {
                    self.in_test_code = true;
                }
                if *is_extern_abi {
                    self.in_extern_fn = true;
                }
                proof {
                    assert(self.in_test_code == (was_test || *is_test));
                    assert(self.in_extern_fn == (was_extern || *is_extern_abi));
                }
                self.visit_nodes(children);
                self.in_test_code = was_test;
                self.in_extern_fn = was_extern;
            },
            AstNode::MethodCall { method, code, children } => {
                let fc = chars_of(self.current_file.as_str());
                let in_tests_dir = contains_lit(&fc, "/tests/");
                let ghost base = finding_views(self.vulnerabilities@);
                let ghost t = self.in_test_code;
                let ghost f = self.current_file@;
                let ghost src = self.current_source@;
                if !self.in_test_code && !in_tests_dir {
                    let line = self.find_line_in_source(code.as_str());
                    let m_unwrap = str_eq(method.as_str(), "unwrap");
                    let m_expect = str_eq(method.as_str(), "expect");
                    let m_unchecked = str_eq(method.as_str(), "unwrap_unchecked");
                    if m_unwrap || m_expect || m_unchecked {
                        self.check_assumption_panic(code.as_str(), method.as_str(), line);
                    }
                    if m_unwrap || m_expect {
                        self.check_panic_amplification(code.as_str(), line);
                    }
                    proof {
                        let mf = method_call_findings(method@, code@, t, f, src);
                        if m_unwrap || m_expect || m_unchecked {
                            if m_unwrap || m_expect {
                                assert(finding_views(self.vulnerabilities@) =~= base + mf);
                            } else {
                                assert(mf =~= assumption_delta(
                                    code@,
                                    f,
                                    find_line_spec(src, code@),
                                ) + Seq::<VulnView>::empty());
                                assert(finding_views(self.vulnerabilities@) =~= base + mf);
                            }
                        } else {
                            assert(mf =~= Seq::<VulnView>::empty());
                            assert(finding_views(self.vulnerabilities@) =~= base + mf);
                        }
                    }
                } else {
                    proof {
                        assert(skip_context(t, f));
                        assert(finding_views(self.vulnerabilities@) =~= base + method_call_findings(
                            method@,
                            code@,
                            t,
                            f,
                            src,
                        ));
                    }
                }
                self.visit_nodes(children);
                proof {
                    let mf = method_call_findings(method@, code@, t, f, src);
                    let cf = scan_seq(children@, t, old(self).in_extern_fn, f, src);
                    assert((base + mf) + cf =~= base + (mf + cf));
                }
            },
            AstNode::IndexExpr { code, children } => {
                let fc = chars_of(self.current_file.as_str());
                let in_tests_dir = contains_lit(&fc, "/tests/");
                let ghost base = finding_views(self.vulnerabilities@);
                let ghost t = self.in_test_code;
                let ghost f = self.current_file@;
                let ghost src = self.current_source@;
                if !self.in_test_code && !in_tests_dir {
                    let line = self.find_line_in_source(code.as_str());
                    let v = Vulnerability::new(
                        self.current_file.clone(),
                        usize_to_string(line),
                        Severity::Medium,
                        PanicClass::ImplicitPanic,
                        String::from_str("Array/Slice Indexing"),
                        truncate_code(code.as_str()),
                    );
                    let ghost pre = self.vulnerabilities@;
                    self.vulnerabilities.push(v);
                    proof {
                        lemma_views_push(pre, v);
                        assert(v@ == index_findings(code@, t, f, src)[0]);
                        assert(finding_views(self.vulnerabilities@) =~= base + index_findings(
                            code@,
                            t,
                            f,
                            src,
                        ));
                    }
                } else {
                    proof {
                        assert(finding_views(self.vulnerabilities@) =~= base + index_findings(
                            code@,
                            t,
                            f,
                            src,
                        ));
                    }
                }
                self.visit_nodes(children);
                proof {
                    let nf = index_findings(code@, t, f, src);
                    let cf = scan_seq(children@, t, old(self).in_extern_fn, f, src);
                    assert((base + nf) + cf =~= base + (nf + cf));
                }
            },
            AstNode::MacroCall { name, code, children } => {
                let fc = chars_of(self.current_file.as_str());
                let in_tests_dir = contains_lit(&fc, "/tests/");
                let ghost base = finding_views(self.vulnerabilities@);
                let ghost t = self.in_test_code;
                let ghost f = self.current_file@;
                let ghost src = self.current_source@;
                if !self.in_test_code && !in_tests_dir {
                    let is_todo = str_eq(name.as_str(), "todo") || str_eq(
                        name.as_str(),
                        "unimplemented",
                    );
                    let is_assert = str_eq(name.as_str(), "assert") || str_eq(
                        name.as_str(),
                        "assert_eq",
                    ) || str_eq(name.as_str(), "assert_ne") || str_eq(
                        name.as_str(),
                        "debug_assert",
                    );
                    let cc = chars_of(code.as_str());
                    let is_exit = str_eq(name.as_str(), "exit") && contains_lit(
                        &cc,
                        "std::process",
                    );
                    if is_todo {
                        let line = self.find_line_in_source(code.as_str());
                        let v = Vulnerability::new(
                            self.current_file.clone(),
                            usize_to_string(line),
                            Severity::Critical,
                            PanicClass::ImplicitPanic,
                            name.clone().concat("!()"),
                            truncate_code(code.as_str()),
                        );
                        let ghost pre = self.vulnerabilities@;
                        self.vulnerabilities.push(v);
                        proof {
                            lemma_views_push(pre, v);
                            assert(v@ == macro_findings(name@, code@, t, f, src)[0]);
                            assert(finding_views(self.vulnerabilities@) =~= base + macro_findings(
                                name@,
                                code@,
                                t,
                                f,
                                src,
                            ));
                        }
                    } else if is_assert {
                        let line = self.find_line_in_source(code.as_str());
                        let v = Vulnerability::new(
                            self.current_file.clone(),
                            usize_to_string(line),
                            Severity::Medium,
                            PanicClass::AssertionFailure,
                            name.clone().concat("!()"),
                            truncate_code(code.as_str()),
                        );
                        let ghost pre = self.vulnerabilities@;
                        self.vulnerabilities.push(v);
                        proof {
                            lemma_views_push(pre, v);
                            assert(v@ == macro_findings(name@, code@, t, f, src)[0]);
                            assert(finding_views(self.vulnerabilities@) =~= base + macro_findings(
                                name@,
                                code@,
                                t,
                                f,
                                src,
                            ));
                        }
                    } else if is_exit {
                        let line = self.find_line_in_source(code.as_str());
                        let v = Vulnerability::new(
                            self.current_file.clone(),
                            usize_to_string(line),
                            Severity::Critical,
                            PanicClass::ProcessKilling,
                            String::from_str("process::exit()"),
                            truncate_code(code.as_str()),
                        );
                        let ghost pre = self.vulnerabilities@;
                        self.vulnerabilities.push(v);
                        proof {
                            lemma_views_push(pre, v);
                            assert(v@ == macro_findings(name@, code@, t, f, src)[0]);
                            assert(finding_views(self.vulnerabilities@) =~= base + macro_findings(
                                name@,
                                code@,
                                t,
                                f,
                                src,
                            ));
                        }
                    } else {
                        proof {
                            assert(macro_findings(name@, code@, t, f, src)
                                =~= Seq::<VulnView>::empty());
                            assert(finding_views(self.vulnerabilities@) =~= base + macro_findings(
                                name@,
                                code@,
                                t,
                                f,
                                src,
                            ));
                        }
                    }
                } else {
                    proof {
                        assert(finding_views(self.vulnerabilities@) =~= base + macro_findings(
                            name@,
                            code@,
                            t,
                            f,
                            src,
                        ));
                    }
                }
                self.visit_nodes(children);
                proof {
                    let nf = macro_findings(name@, code@, t, f, src);
                    let cf = scan_seq(children@, t, old(self).in_extern_fn, f, src);
                    assert((base + nf) + cf =~= base + (nf + cf));
                }
            },
            AstNode::Group { children } => {
                self.visit_nodes(children);
            },
        }
    }
}

/// An unwrap or expect whose call text names a mutual-exclusion or
/// reader-writer lock together with a lock acquisition always yields at
/// least a Critical panic-amplification finding. Nothing is assumed about
/// the false-positive filter: a poisoned-lock unwrap is reported even when
/// the assumption-panic path discards the call as benign.
pub proof fn lemma_amplification_always_reported(
    method: Seq<char>,
    code: Seq<char>,
    in_test: bool,
    file: Seq<char>,
    source: Seq<char>,
)
    requires
        method == "unwrap"@ || method == "expect"@,
        amp_spec(lower_seq(code)),
        !skip_context(in_test, file),
    ensures
        exists|i: int|
            0 <= i < method_call_findings(method, code, in_test, file, source).len()
                && #[trigger] method_call_findings(method, code, in_test, file, source)[i]
                == amp_finding(file, find_line_spec(source, code), code),
        amp_finding(file, find_line_spec(source, code), code).severity == Severity::Critical,
        amp_finding(file, find_line_spec(source, code), code).panic_class
            == PanicClass::PanicAmplification,
{
    let line = find_line_spec(source, code);
    let mf = method_call_findings(method, code, in_test, file, source);
    let a = if method == "unwrap"@ || method == "expect"@ || method == "unwrap_unchecked"@ {
        assumption_delta(code, file, line)
    } else {
        Seq::<VulnView>::empty()
    };
    assert(mf == a + amp_delta(code, file, line));
    assert(mf[a.len() as int] == amp_finding(file, line, code));
}

/// An indexing expression outside test context yields exactly one Medium
/// implicit-panic finding; the same expression in test context yields none.
pub proof fn lemma_indexing_findings(
    code: Seq<char>,
    in_test: bool,
    file: Seq<char>,
    source: Seq<char>,
)
    requires
        !has_sub(file, "/tests/"@),
    ensures
        !in_test ==> index_findings(code, in_test, file, source) == seq![
            VulnView {
                file,
                line: dec_str(find_line_spec(source, code)),
                severity: Severity::Medium,
                panic_class: PanicClass::ImplicitPanic,
                pattern: "Array/Slice Indexing"@,
                code: prefix_of(code, 120),
            },
        ],
        in_test ==> index_findings(code, in_test, file, source).len() == 0,
{
}

/// A `todo!` or `unimplemented!` invocation in test context yields no
/// finding; outside test context it yields exactly one Critical
/// implicit-panic finding.
pub proof fn lemma_todo_macro_findings(
    name: Seq<char>,
    code: Seq<char>,
    in_test: bool,
    file: Seq<char>,
    source: Seq<char>,
)
    requires
        name == "todo"@ || name == "unimplemented"@,
        !has_sub(file, "/tests/"@),
    ensures
        in_test ==> macro_findings(name, code, in_test, file, source).len() == 0,
        !in_test ==> macro_findings(name, code, in_test, file, source).len() == 1
            && macro_findings(name, code, in_test, file, source)[0].severity == Severity::Critical
            && macro_findings(name, code, in_test, file, source)[0].panic_class
            == PanicClass::ImplicitPanic,
{
}

/// Walking any node sequence in test context records nothing.
proof fn lemma_test_context_seq(
    nodes: Seq<AstNode>,
    in_extern: bool,
    file: Seq<char>,
    source: Seq<char>,
)
    ensures
        scan_seq(nodes, true, in_extern, file, source) == Seq::<VulnView>::empty(),
    decreases nodes,
{
    if nodes.len() > 0 {
        lemma_test_context_scans_nothing(nodes[0], in_extern, file, source);
        lemma_test_context_seq(nodes.drop_first(), in_extern, file, source);
        assert(Seq::<VulnView>::empty() + Seq::<VulnView>::empty() =~= Seq::<
            VulnView,
        >::empty());
    }
}

/// Test code is not audited: in test context a whole subtree yields no
/// findings, however deeply a construct is nested. The flag is lexical, so
/// a plain function nested inside a test function stays in the enclosing
/// test context.
pub proof fn lemma_test_context_scans_nothing(
    n: AstNode,
    in_extern: bool,
    file: Seq<char>,
    source: Seq<char>,
)
    ensures
        scan_node(n, true, in_extern, file, source) == Seq::<VulnView>::empty(),
    decreases n,
{
    let e = Seq::<VulnView>::empty();
    match n {
        AstNode::FnItem { is_test, is_extern_abi, children } => {
            lemma_test_context_seq(children@, in_extern || is_extern_abi, file, source);
        },
        AstNode::MethodCall { method, code, children } => {
            lemma_test_context_seq(children@, in_extern, file, source);
            assert(e + e =~= e);
        },
        AstNode::IndexExpr { code, children } => {
            lemma_test_context_seq(children@, in_extern, file, source);
            assert(e + e =~= e);
        },
        AstNode::MacroCall { name, code, children } => {
            lemma_test_context_seq(children@, in_extern, file, source);
            assert(e + e =~= e);
        },
        AstNode::Group { children } => {
            lemma_test_context_seq(children@, in_extern, file, source);
        },
    }
}

/// A function item annotated as a test or bench yields no findings at all,
/// whatever its body holds and wherever it stands.
pub proof fn lemma_test_fn_scans_nothing(
    n: AstNode,
    in_test: bool,
    in_extern: bool,
    file: Seq<char>,
    source: Seq<char>,
)
    requires
        n matches AstNode::FnItem { is_test: true, .. },
    ensures
        scan_node(n, in_test, in_extern, file, source) == Seq::<VulnView>::empty(),
{
    match n {
        AstNode::FnItem { is_test, is_extern_abi, children } => {
            lemma_test_context_seq(children@, in_extern || is_extern_abi, file, source);
        },
        _ => {},
    }
}

/// The scan is deterministic: it is a function of the tree and of the
/// scanner's per-file state alone, so two walks over an unchanged tree from
/// equal states record identical finding lists (see [`Scanner::visit_node`],
/// whose postcondition appends exactly this sequence).
pub proof fn lemma_scan_deterministic(n: AstNode, s1: Scanner, s2: Scanner)
    requires
        s1.in_test_code == s2.in_test_code,
        s1.in_extern_fn == s2.in_extern_fn,
        s1.current_file@ == s2.current_file@,
        s1.current_source@ == s2.current_source@,
    ensures
        scan_node(n, s1.in_test_code, s1.in_extern_fn, s1.current_file@, s1.current_source@)
            == scan_node(n, s2.in_test_code, s2.in_extern_fn, s2.current_file@, s2.current_source@),
{
}

} // verus!
