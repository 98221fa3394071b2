//! The finding data model: severity levels, panic classes, and the
//! `Vulnerability` record produced by the scanner.

use vstd::multiset::Multiset;
use vstd::prelude::*;

verus! {

/// Production-impact ranking of a finding, from most to least severe.
#[derive(Clone, Copy, Debug, PartialEq, Eq, PartialOrd, Ord, Structural)]
pub enum Severity {
    Critical,
    High,
    Medium,
    Low,
}

/// The semantic category explaining why a detected construct can panic.
#[derive(Clone, Copy, Debug, PartialEq, Eq, Structural)]
pub enum PanicClass {
    AssumptionPanic,
    ImplicitPanic,
    PanicAmplification,
    CloudflareClass,
    AssertionFailure,
    AllocationPanic,
    FFIBoundary,
    ProcessKilling,
}

/// Position of a severity in the order from most to least severe:
/// `Critical` ranks lowest, so an ascending sort puts it first.
pub open spec fn severity_rank(s: Severity) -> int {
    match s {
        Severity::Critical => 0,
        Severity::High => 1,
        Severity::Medium => 2,
        Severity::Low => 3,
    }
}

/// Exec counterpart of [`severity_rank`].
pub fn severity_rank_of(s: Severity) -> (r: u8)
    ensures
        r as int == severity_rank(s),
{
    match s {
        Severity::Critical => 0,
        Severity::High => 1,
        Severity::Medium => 2,
        Severity::Low => 3,
    }
}

/// The mathematical content of one finding; the view of [`Vulnerability`].
pub struct VulnView {
    pub file: Seq<char>,
    pub line: Seq<char>,
    pub severity: Severity,
    pub panic_class: PanicClass,
    pub pattern: Seq<char>,
    pub code: Seq<char>,
}

/// One finding: a panic-prone construct, attributed to one file and one
/// best-effort line, with its severity, panic class, the short human label of
/// the matched rule, and the (possibly truncated) source snippet.
#[derive(Debug)]
pub struct Vulnerability {
    pub file: String,
    pub line: String,
    pub severity: Severity,
    pub panic_class: PanicClass,
    pub pattern: String,
    pub code: String,
}

impl View for Vulnerability {
    type V = VulnView;

    open spec fn view(&self) -> VulnView {
        VulnView {
            file: self.file@,
            line: self.line@,
            severity: self.severity,
            panic_class: self.panic_class,
            pattern: self.pattern@,
            code: self.code@,
        }
    }
}

impl Vulnerability {
    /// Builds a finding from its parts; every field is exactly the argument.
    pub fn new(
        file: String,
        line: String,
        severity: Severity,
        panic_class: PanicClass,
        pattern: String,
        code: String,
    ) -> (r: Self)
        ensures
            r@ == (VulnView {
                file: file@,
                line: line@,
                severity,
                panic_class,
                pattern: pattern@,
                code: code@,
            }),
    {
        Self { file, line, severity, panic_class, pattern, code }
    }
}

/// The views of a sequence of findings, in order.
pub open spec fn finding_views(s: Seq<Vulnerability>) -> Seq<VulnView> {
    s.map_values(|v: Vulnerability| v@)
}

/// Findings are ordered most severe first.
pub open spec fn sorted_by_severity(s: Seq<VulnView>) -> bool {
    forall|i: int, j: int|
        0 <= i <= j < s.len() ==> #[trigger] severity_rank(s[i].severity)
            <= #[trigger] severity_rank(s[j].severity)
}

/// The findings of `s`, as an unordered collection of views.
pub open spec fn ms_of(s: Seq<Vulnerability>) -> Multiset<VulnView> {
    finding_views(s).to_multiset()
}

/// Mapping to views commutes with appending one finding.
pub proof fn lemma_views_push(s: Seq<Vulnerability>, v: Vulnerability)
    ensures
        finding_views(s.push(v)) == finding_views(s).push(v@),
{
    assert(finding_views(s.push(v)) =~= finding_views(s).push(v@));
}

/// The findings of one severity, in their order of appearance.
pub open spec fn with_severity(s: Seq<VulnView>, sev: Severity) -> Seq<VulnView> {
    s.filter(|v: VulnView| v.severity == sev)
}

/// Mapping to views distributes over concatenation.
proof fn lemma_views_add(a: Seq<Vulnerability>, b: Seq<Vulnerability>)
    ensures
        finding_views(a + b) == finding_views(a) + finding_views(b),
{
    assert(finding_views(a + b) =~= finding_views(a) + finding_views(b));
}

/// One step of severity filtering: appending a finding extends exactly the
/// block of its own severity.
proof fn lemma_filter_step(pre: Seq<VulnView>, v: VulnView, sev: Severity)
    ensures
        with_severity(pre.push(v), sev) == (if v.severity == sev {
            with_severity(pre, sev).push(v)
        } else {
            with_severity(pre, sev)
        }),
{
    broadcast use Seq::lemma_filter_push;

}

/// A block whose findings all carry severity `sev` keeps itself when
/// filtered for `sev` and vanishes when filtered for any other severity.
proof fn lemma_homogeneous_filter(s: Seq<VulnView>, sev: Severity, q: Severity)
    requires
        forall|k: int| 0 <= k < s.len() ==> (#[trigger] s[k].severity) == sev,
    ensures
        with_severity(s, sev) == s,
        q != sev ==> with_severity(s, q) == Seq::<VulnView>::empty(),
    decreases s.len(),
{
    reveal(Seq::filter);
    if s.len() > 0 {
        let pre = s.drop_last();
        lemma_homogeneous_filter(pre, sev, q);
        assert(pre.push(s.last()) =~= s);
        lemma_filter_step(pre, s.last(), sev);
        lemma_filter_step(pre, s.last(), q);
        assert(with_severity(s, sev) =~= s);
    }
}

/// Any finding sequence is, as a multiset, the sum of its four severity
/// blocks.
proof fn lemma_severity_partition(s: Seq<VulnView>)
    ensures
        s.to_multiset() == with_severity(s, Severity::Critical).to_multiset().add(
            with_severity(s, Severity::High).to_multiset(),
        ).add(with_severity(s, Severity::Medium).to_multiset()).add(
            with_severity(s, Severity::Low).to_multiset(),
        ),
    decreases s.len(),
{
    broadcast use vstd::seq_lib::group_to_multiset_ensures;
    broadcast use vstd::multiset::group_multiset_axioms;

    reveal(Seq::filter);
    let bc = with_severity(s, Severity::Critical);
    let bh = with_severity(s, Severity::High);
    let bm = with_severity(s, Severity::Medium);
    let bl = with_severity(s, Severity::Low);
    if s.len() == 0 {
        assert(s.to_multiset() =~= bc.to_multiset().add(bh.to_multiset()).add(
            bm.to_multiset(),
        ).add(bl.to_multiset()));
    } else {
        let pre = s.drop_last();
        let v = s.last();
        lemma_severity_partition(pre);
        assert(pre.push(v) =~= s);
        lemma_filter_step(pre, v, Severity::Critical);
        lemma_filter_step(pre, v, Severity::High);
        lemma_filter_step(pre, v, Severity::Medium);
        lemma_filter_step(pre, v, Severity::Low);
        assert(s.to_multiset() == pre.to_multiset().insert(v));
        assert(s.to_multiset() =~= bc.to_multiset().add(bh.to_multiset()).add(
            bm.to_multiset(),
        ).add(bl.to_multiset()));
    }
}

/// Four severity-homogeneous blocks concatenated Critical-first are
/// sorted.
proof fn lemma_blocks_sorted(c: Seq<VulnView>, h: Seq<VulnView>, m: Seq<VulnView>, l: Seq<VulnView>)
    requires
        forall|i: int| 0 <= i < c.len() ==> (#[trigger] c[i].severity) == Severity::Critical,
        forall|i: int| 0 <= i < h.len() ==> (#[trigger] h[i].severity) == Severity::High,
        forall|i: int| 0 <= i < m.len() ==> (#[trigger] m[i].severity) == Severity::Medium,
        forall|i: int| 0 <= i < l.len() ==> (#[trigger] l[i].severity) == Severity::Low,
    ensures
        sorted_by_severity(((c + h) + m) + l),
{
    let fv = ((c + h) + m) + l;
    assert forall|i: int, j: int| 0 <= i <= j < fv.len() implies #[trigger] severity_rank(
        fv[i].severity,
    ) <= #[trigger] severity_rank(fv[j].severity) by {
        if i < c.len() {
            assert(fv[i] == c[i]);
        } else if i < c.len() + h.len() {
            assert(fv[i] == h[i - c.len()]);
        } else if i < c.len() + h.len() + m.len() {
            assert(fv[i] == m[i - c.len() - h.len()]);
        } else {
            assert(fv[i] == l[i - c.len() - h.len() - m.len()]);
        }
        if j < c.len() {
            assert(fv[j] == c[j]);
        } else if j < c.len() + h.len() {
            assert(fv[j] == h[j - c.len()]);
        } else if j < c.len() + h.len() + m.len() {
            assert(fv[j] == m[j - c.len() - h.len()]);
        } else {
            assert(fv[j] == l[j - c.len() - h.len() - m.len()]);
        }
    }
}

/// Every finding of a severity block carries that block's severity.
proof fn lemma_filter_severity_all(ovs: Seq<VulnView>, sev: Severity)
    ensures
        forall|i: int|
            0 <= i < with_severity(ovs, sev).len() ==> (#[trigger] with_severity(
                ovs,
                sev,
            )[i].severity) == sev,
{
    broadcast use Seq::lemma_filter_pred;

}

/// Filtering the concatenation of the four severity blocks of `ovs` gives
/// back exactly the corresponding block of `ovs`.
proof fn lemma_blocks_filter(
    c: Seq<VulnView>,
    h: Seq<VulnView>,
    m: Seq<VulnView>,
    l: Seq<VulnView>,
    ovs: Seq<VulnView>,
)
    requires
        c == with_severity(ovs, Severity::Critical),
        h == with_severity(ovs, Severity::High),
        m == with_severity(ovs, Severity::Medium),
        l == with_severity(ovs, Severity::Low),
    ensures
        with_severity(((c + h) + m) + l, Severity::Critical) == c,
        with_severity(((c + h) + m) + l, Severity::High) == h,
        with_severity(((c + h) + m) + l, Severity::Medium) == m,
        with_severity(((c + h) + m) + l, Severity::Low) == l,
{
    broadcast use Seq::lemma_filter_pred;
    broadcast use Seq::filter_distributes_over_add;

    let e = Seq::<VulnView>::empty();
    lemma_homogeneous_filter(c, Severity::Critical, Severity::Critical);
    lemma_homogeneous_filter(h, Severity::High, Severity::Critical);
    lemma_homogeneous_filter(m, Severity::Medium, Severity::Critical);
    lemma_homogeneous_filter(l, Severity::Low, Severity::Critical);
    assert(((c + e) + e) + e =~= c);
    lemma_homogeneous_filter(c, Severity::Critical, Severity::High);
    lemma_homogeneous_filter(h, Severity::High, Severity::High);
    lemma_homogeneous_filter(m, Severity::Medium, Severity::High);
    lemma_homogeneous_filter(l, Severity::Low, Severity::High);
    assert(((e + h) + e) + e =~= h);
    lemma_homogeneous_filter(c, Severity::Critical, Severity::Medium);
    lemma_homogeneous_filter(h, Severity::High, Severity::Medium);
    lemma_homogeneous_filter(m, Severity::Medium, Severity::Medium);
    lemma_homogeneous_filter(l, Severity::Low, Severity::Medium);
    assert(((e + e) + m) + e =~= m);
    lemma_homogeneous_filter(c, Severity::Critical, Severity::Low);
    lemma_homogeneous_filter(h, Severity::High, Severity::Low);
    lemma_homogeneous_filter(m, Severity::Medium, Severity::Low);
    lemma_homogeneous_filter(l, Severity::Low, Severity::Low);
    assert(((e + e) + e) + l =~= l);
}

/// Two finding sequences whose four severity blocks agree hold exactly
/// the same findings, as multisets.
proof fn lemma_blocks_multiset(fv: Seq<VulnView>, ovs: Seq<VulnView>)
    requires
        with_severity(fv, Severity::Critical) == with_severity(ovs, Severity::Critical),
        with_severity(fv, Severity::High) == with_severity(ovs, Severity::High),
        with_severity(fv, Severity::Medium) == with_severity(ovs, Severity::Medium),
        with_severity(fv, Severity::Low) == with_severity(ovs, Severity::Low),
    ensures
        fv.to_multiset() == ovs.to_multiset(),
{
    lemma_severity_partition(fv);
    lemma_severity_partition(ovs);
}

/// From the bucket split, the Critical-first concatenation is sorted.
proof fn lemma_sort_post_sorted(
    cs: Seq<Vulnerability>,
    hs: Seq<Vulnerability>,
    ms: Seq<Vulnerability>,
    ls: Seq<Vulnerability>,
    total: Seq<Vulnerability>,
    orig: Seq<Vulnerability>,
)
    requires
        total == ((cs + hs) + ms) + ls,
        finding_views(cs) == with_severity(finding_views(orig), Severity::Critical),
        finding_views(hs) == with_severity(finding_views(orig), Severity::High),
        finding_views(ms) == with_severity(finding_views(orig), Severity::Medium),
        finding_views(ls) == with_severity(finding_views(orig), Severity::Low),
    ensures
        sorted_by_severity(finding_views(total)),
{
    let ovs = finding_views(orig);
    let c = finding_views(cs);
    let h = finding_views(hs);
    let m = finding_views(ms);
    let l = finding_views(ls);
    lemma_views_add(cs, hs);
    lemma_views_add(cs + hs, ms);
    lemma_views_add((cs + hs) + ms, ls);
    assert(finding_views(total) == ((c + h) + m) + l);
    lemma_filter_severity_all(ovs, Severity::Critical);
    lemma_filter_severity_all(ovs, Severity::High);
    lemma_filter_severity_all(ovs, Severity::Medium);
    lemma_filter_severity_all(ovs, Severity::Low);
    lemma_blocks_sorted(c, h, m, l);
}

/// From the bucket split, each severity keeps exactly its block: the
/// rearrangement is stable and loses nothing.
proof fn lemma_sort_post_filter(
    cs: Seq<Vulnerability>,
    hs: Seq<Vulnerability>,
    ms: Seq<Vulnerability>,
    ls: Seq<Vulnerability>,
    total: Seq<Vulnerability>,
    orig: Seq<Vulnerability>,
)
    requires
        total == ((cs + hs) + ms) + ls,
        finding_views(cs) == with_severity(finding_views(orig), Severity::Critical),
        finding_views(hs) == with_severity(finding_views(orig), Severity::High),
        finding_views(ms) == with_severity(finding_views(orig), Severity::Medium),
        finding_views(ls) == with_severity(finding_views(orig), Severity::Low),
    ensures
        forall|sev: Severity|
            #[trigger] with_severity(finding_views(total), sev) == with_severity(
                finding_views(orig),
                sev,
            ),
{
    let ovs = finding_views(orig);
    let c = finding_views(cs);
    let h = finding_views(hs);
    let m = finding_views(ms);
    let l = finding_views(ls);
    lemma_views_add(cs, hs);
    lemma_views_add(cs + hs, ms);
    lemma_views_add((cs + hs) + ms, ls);
    assert(finding_views(total) == ((c + h) + m) + l);
    lemma_blocks_filter(c, h, m, l, ovs);
    assert forall|sev: Severity|
        #[trigger] with_severity(finding_views(total), sev) == with_severity(ovs, sev) by {
        match sev {
            Severity::Critical => {},
            Severity::High => {},
            Severity::Medium => {},
            Severity::Low => {},
        }
    }
}

/// From the bucket split, the concatenation holds exactly the original
/// findings, as a multiset.
proof fn lemma_sort_post_ms(
    cs: Seq<Vulnerability>,
    hs: Seq<Vulnerability>,
    ms: Seq<Vulnerability>,
    ls: Seq<Vulnerability>,
    total: Seq<Vulnerability>,
    orig: Seq<Vulnerability>,
)
    requires
        total == ((cs + hs) + ms) + ls,
        finding_views(cs) == with_severity(finding_views(orig), Severity::Critical),
        finding_views(hs) == with_severity(finding_views(orig), Severity::High),
        finding_views(ms) == with_severity(finding_views(orig), Severity::Medium),
        finding_views(ls) == with_severity(finding_views(orig), Severity::Low),
    ensures
        ms_of(total) == ms_of(orig),
{
    let ovs = finding_views(orig);
    let c = finding_views(cs);
    let h = finding_views(hs);
    let m = finding_views(ms);
    let l = finding_views(ls);
    lemma_views_add(cs, hs);
    lemma_views_add(cs + hs, ms);
    lemma_views_add((cs + hs) + ms, ls);
    assert(finding_views(total) == ((c + h) + m) + l);
    lemma_blocks_filter(c, h, m, l, ovs);
    lemma_blocks_multiset(finding_views(total), ovs);
}

/// Sorts the findings most severe first. The order is by severity alone,
/// the sort is stable -- the findings of each severity keep their relative
/// order -- and the collection of findings is unchanged.
#[verifier::rlimit(80)]
pub fn sort_by_severity(findings: &mut Vec<Vulnerability>)
    ensures
        sorted_by_severity(finding_views(final(findings)@)),
        ms_of(final(findings)@) == ms_of(old(findings)@),
        forall|sev: Severity|
            #[trigger] with_severity(finding_views(final(findings)@), sev) == with_severity(
                finding_views(old(findings)@),
                sev,
            ),
{
    let ghost orig = findings@;
    let ghost ovs = finding_views(orig);
    let mut crit: Vec<Vulnerability> = Vec::new();
    let mut high: Vec<Vulnerability> = Vec::new();
    let mut med: Vec<Vulnerability> = Vec::new();
    let mut low: Vec<Vulnerability> = Vec::new();
    proof {
        reveal(Seq::filter);
        assert(findings@ =~= orig.subrange(orig.len() - findings@.len(), orig.len() as int));
        assert(finding_views(orig.take(orig.len() - findings@.len()))
            =~= Seq::<VulnView>::empty());
        assert(finding_views(crit@) =~= Seq::<VulnView>::empty());
        assert(finding_views(high@) =~= Seq::<VulnView>::empty());
        assert(finding_views(med@) =~= Seq::<VulnView>::empty());
        assert(finding_views(low@) =~= Seq::<VulnView>::empty());
    }
    while findings.len() > 0
        invariant
            orig == old(findings)@,
            findings@.len() <= orig.len(),
            findings@ == orig.subrange(orig.len() - findings@.len(), orig.len() as int),
            finding_views(crit@) == with_severity(
                finding_views(orig.take(orig.len() - findings@.len())),
                Severity::Critical,
            ),
            finding_views(high@) == with_severity(
                finding_views(orig.take(orig.len() - findings@.len())),
                Severity::High,
            ),
            finding_views(med@) == with_severity(
                finding_views(orig.take(orig.len() - findings@.len())),
                Severity::Medium,
            ),
            finding_views(low@) == with_severity(
                finding_views(orig.take(orig.len() - findings@.len())),
                Severity::Low,
            ),
        decreases findings@.len(),
    {
        let ghost k = orig.len() - findings@.len();
        let ghost pre_f = findings@;
        let ghost pv = finding_views(orig.take(k as int));
        let v = findings.remove(0);
        proof {
            assert(v == orig[k as int]);
            assert(findings@ =~= orig.subrange(k + 1, orig.len() as int));
            assert(orig.take(k + 1 as int) =~= orig.take(k as int).push(orig[k as int]));
            assert(finding_views(orig.take(k + 1 as int)) =~= pv.push(v@));
            lemma_filter_step(pv, v@, Severity::Critical);
            lemma_filter_step(pv, v@, Severity::High);
            lemma_filter_step(pv, v@, Severity::Medium);
            lemma_filter_step(pv, v@, Severity::Low);
        }
        match v.severity {
            Severity::Critical => {
                let ghost preb = crit@;
                crit.push(v);
                proof {
                    lemma_views_push(preb, v);
                }
            },
            Severity::High => {
                let ghost preb = high@;
                high.push(v);
                proof {
                    lemma_views_push(preb, v);
                }
            },
            Severity::Medium => {
                let ghost preb = med@;
                med.push(v);
                proof {
                    lemma_views_push(preb, v);
                }
            },
            Severity::Low => {
                let ghost preb = low@;
                low.push(v);
                proof {
                    lemma_views_push(preb, v);
                }
            },
        }
    }
    let ghost c = finding_views(crit@);
    let ghost h = finding_views(high@);
    let ghost m = finding_views(med@);
    let ghost l = finding_views(low@);
    let ghost cs = crit@;
    let ghost hs = high@;
    let ghost ms = med@;
    let ghost ls = low@;
    proof {
        assert(orig.take(orig.len() as int) =~= orig);
        assert(c == with_severity(ovs, Severity::Critical));
        assert(h == with_severity(ovs, Severity::High));
        assert(m == with_severity(ovs, Severity::Medium));
        assert(l == with_severity(ovs, Severity::Low));
    }
    findings.append(&mut crit);
    findings.append(&mut high);
    findings.append(&mut med);
    findings.append(&mut low);
    proof {
        assert(findings@ =~= ((cs + hs) + ms) + ls);
        lemma_sort_post_sorted(cs, hs, ms, ls, findings@, orig);
        lemma_sort_post_filter(cs, hs, ms, ls, findings@, orig);
        lemma_sort_post_ms(cs, hs, ms, ls, findings@, orig);
    }
}

/// How many findings carry the given severity.
pub open spec fn count_with_severity(s: Seq<VulnView>, sev: Severity) -> int {
    with_severity(s, sev).len() as int
}

/// Counts the findings of one severity, as the report layer needs for its
/// summary counts and for severity gating.
pub fn count_severity(findings: &Vec<Vulnerability>, sev: Severity) -> (n: usize)
    ensures
        n as int == count_with_severity(finding_views(findings@), sev),
{
    let mut n: usize = 0;
    let mut i: usize = 0;
    proof {
        reveal(Seq::filter);
        assert(finding_views(findings@).take(0) =~= Seq::<VulnView>::empty());
    }
    while i < findings.len()
        invariant
            i <= findings@.len(),
            n as int == count_with_severity(finding_views(findings@).take(i as int), sev),
            n <= i,
        decreases findings@.len() - i,
    {
        let ghost pre = finding_views(findings@).take(i as int);
        let ghost v = finding_views(findings@)[i as int];
        if findings[i].severity == sev {
            n += 1;
        }
        proof {
            broadcast use Seq::lemma_filter_push;
            broadcast use Seq::lemma_filter_len_push;

            assert(finding_views(findings@).take(i + 1 as int) =~= pre.push(v));
            assert(v.severity == findings@[i as int]@.severity);
        }
        i += 1;
    }
    proof {
        assert(finding_views(findings@).take(findings@.len() as int) =~= finding_views(
            findings@,
        ));
    }
    n
}

/// In a severity-sorted finding list, every finding of a more severe level
/// stands before every finding of a less severe level.
pub proof fn lemma_sorted_severity_order(s: Seq<VulnView>, i: int, j: int)
    requires
        sorted_by_severity(s),
        0 <= i < s.len(),
        0 <= j < s.len(),
        severity_rank(s[i].severity) < severity_rank(s[j].severity),
    ensures
        i < j,
{
}

} // verus!
