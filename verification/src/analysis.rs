//! The finding aggregator: reference analyzers, structural metrics derived
//! from the payload size, and the resolution of one overall severity from
//! a sequence of findings.
//!
//! The two analyzers are the calibration stubs of the design: real static
//! analysis is an external collaborator, and the core only fixes the
//! contract each analyzer must satisfy (pure and total over the payload
//! bytes). The metrics are rough size-derived proxies, not real static
//! metrics, and are documented as such.
use vstd::prelude::*;

use crate::identity::{hash_wasm_bytes, spec_wasm_hash};
use crate::narrative::{AiAnalysisResult, ai_result_matches, create_fallback_ai_analysis};
use crate::types::strings_view;

verus! {

/// Severity scale of the analysis pipeline. `Info` findings never raise
/// the overall severity.
#[derive(Clone, Copy, PartialEq, Eq, Structural, Debug)]
pub enum SecuritySeverity {
    Critical,
    High,
    Medium,
    Low,
    Info,
}

/// One observation made by an analyzer tool.
#[derive(Debug)]
pub struct StaticFinding {
    pub tool: String,
    pub severity: SecuritySeverity,
    pub category: String,
    pub message: String,
    pub location: Option<String>,
}

/// Mathematical view of an analyzer finding.
#[verifier::ext_equal]
pub struct StaticFindingV {
    pub tool: Seq<char>,
    pub severity: SecuritySeverity,
    pub category: Seq<char>,
    pub message: Seq<char>,
    pub location: Option<Seq<char>>,
}

impl View for StaticFinding {
    type V = StaticFindingV;

    open spec fn view(&self) -> StaticFindingV {
        StaticFindingV {
            tool: self.tool@,
            severity: self.severity,
            category: self.category@,
            message: self.message@,
            location: (match self.location {
                Some(l) => Some(l@),
                None => None,
            }),
        }
    }
}

impl Clone for StaticFinding {
    fn clone(&self) -> (res: Self)
        ensures
            res == *self,
    {
        StaticFinding {
            tool: self.tool.clone(),
            severity: self.severity,
            category: self.category.clone(),
            message: self.message.clone(),
            location: (match &self.location {
                Some(l) => Some(l.clone()),
                None => None,
            }),
        }
    }
}

/// The views of a sequence of analyzer findings.
pub open spec fn sfindings_view(s: Seq<StaticFinding>) -> Seq<StaticFindingV> {
    Seq::new(s.len(), |i: int| s[i]@)
}

/// Structural metrics of a payload: deterministic, size-derived rough
/// proxies, never presented as ground truth.
#[derive(Clone, Copy, PartialEq, Eq, Structural, Debug)]
pub struct CodeMetrics {
    pub file_size_bytes: u32,
    pub estimated_lines_of_code: u32,
    pub function_count: u32,
    pub complexity_score: u32,
}

/// Descriptive metadata a caller may attach to an analysis request.
#[derive(Debug)]
pub struct AnalysisMetadata {
    pub name: Option<String>,
    pub description: Option<String>,
    pub version: Option<String>,
}

/// An analysis request: the payload, an optional audited target, and
/// optional descriptive metadata.
#[derive(Debug)]
pub struct WasmAnalysisRequest {
    pub wasm_bytes: Vec<u8>,
    pub canister_id: Option<String>,
    pub metadata: Option<AnalysisMetadata>,
}

/// The static half of an analysis result: tools, findings, metrics.
#[derive(Debug)]
pub struct StaticAnalysisResult {
    pub tools_used: Vec<String>,
    pub vulnerabilities_found: Vec<StaticFinding>,
    pub metrics: CodeMetrics,
}

/// The findings of the size/structure analyzer on a payload of `n` bytes:
/// a Medium performance finding above 1,000,000 bytes and a Low memory
/// finding above 100,000 bytes.
pub open spec fn owi_findings(n: nat) -> Seq<StaticFindingV> {
    let perf = StaticFindingV {
        tool: "Owi"@,
        severity: SecuritySeverity::Medium,
        category: "Performance"@,
        message: "Large WASM binary detected - consider optimization"@,
        location: None,
    };
    let mem = StaticFindingV {
        tool: "Owi"@,
        severity: SecuritySeverity::Low,
        category: "Memory Management"@,
        message: "Complex memory patterns detected - verify memory safety"@,
        location: Some("WASM memory section"@),
    };
    if n > 1000000 {
        seq![perf, mem]
    } else if n > 100000 {
        seq![mem]
    } else {
        Seq::<StaticFindingV>::empty()
    }
}

/// Size/structure analyzer stub: flags very large payloads and complex
/// memory patterns. Pure and total over the payload bytes.
pub fn mock_owi_analysis(wasm_bytes: &[u8]) -> (r: Vec<StaticFinding>)
    ensures
        sfindings_view(r@) == owi_findings(wasm_bytes@.len()),
{
    let file_size = wasm_bytes.len();
    let mut findings: Vec<StaticFinding> = Vec::new();

    if file_size > 1000000 {
        findings.push(StaticFinding {
            tool: String::from_str("Owi"),
            severity: SecuritySeverity::Medium,
            category: String::from_str("Performance"),
            message: String::from_str("Large WASM binary detected - consider optimization"),
            location: None,
        });
    }

    if file_size > 100000 {
        findings.push(StaticFinding {
            tool: String::from_str("Owi"),
            severity: SecuritySeverity::Low,
            category: String::from_str("Memory Management"),
            message: String::from_str(
                "Complex memory patterns detected - verify memory safety",
            ),
            location: Some(String::from_str("WASM memory section")),
        });
    }

    proof {
        assert(sfindings_view(findings@) =~~= owi_findings(wasm_bytes@.len()));
    }
    findings
}

/// The findings of the symbolic-execution-style analyzer on a payload of
/// `n` bytes: always one Info completion finding, and a Medium arithmetic
/// finding above 50,000 bytes.
pub open spec fn seewasm_findings(n: nat) -> Seq<StaticFindingV> {
    let info = StaticFindingV {
        tool: "SeeWasm"@,
        severity: SecuritySeverity::Info,
        category: "Symbolic Execution"@,
        message: "Symbolic execution completed - no critical paths identified"@,
        location: None,
    };
    let arith = StaticFindingV {
        tool: "SeeWasm"@,
        severity: SecuritySeverity::Medium,
        category: "Arithmetic Safety"@,
        message: "Complex arithmetic operations detected - verify overflow protection"@,
        location: Some("Function implementations"@),
    };
    if n > 50000 {
        seq![info, arith]
    } else {
        seq![info]
    }
}

/// Symbolic-execution analyzer stub: always confirms completion, and
/// flags arithmetic-heavy payloads. Pure and total over the payload bytes.
pub fn mock_seewasm_analysis(wasm_bytes: &[u8]) -> (r: Vec<StaticFinding>)
    ensures
        sfindings_view(r@) == seewasm_findings(wasm_bytes@.len()),
{
    let mut findings: Vec<StaticFinding> = Vec::new();

    findings.push(StaticFinding {
        tool: String::from_str("SeeWasm"),
        severity: SecuritySeverity::Info,
        category: String::from_str("Symbolic Execution"),
        message: String::from_str(
            "Symbolic execution completed - no critical paths identified",
        ),
        location: None,
    });

    if wasm_bytes.len() > 50000 {
        findings.push(StaticFinding {
            tool: String::from_str("SeeWasm"),
            severity: SecuritySeverity::Medium,
            category: String::from_str("Arithmetic Safety"),
            message: String::from_str(
                "Complex arithmetic operations detected - verify overflow protection",
            ),
            location: Some(String::from_str("Function implementations")),
        });
    }

    proof {
        assert(sfindings_view(findings@) =~~= seewasm_findings(wasm_bytes@.len()));
    }
    findings
}

/// The metrics derived from a payload of `n` bytes: the size narrowed to
/// 32 bits, and floored size-proportional estimates for lines, functions
/// and complexity.
pub open spec fn spec_metrics(n: nat) -> CodeMetrics {
    let size = n as u32;
    CodeMetrics {
        file_size_bytes: size,
        estimated_lines_of_code: if size / 10 >= 100 {
            (size / 10) as u32
        } else {
            100u32
        },
        function_count: if size / 1000 >= 1 {
            (size / 1000) as u32
        } else {
            1u32
        },
        complexity_score: if size / 5000 >= 1 {
            (size / 5000) as u32
        } else {
            1u32
        },
    }
}

/// Derives the structural metrics of a payload: rough, deterministic
/// size-based estimates with fixed floors.
pub fn calculate_code_metrics(wasm_bytes: &[u8]) -> (m: CodeMetrics)
    ensures
        m == spec_metrics(wasm_bytes@.len()),
{
    let file_size = #[verifier::truncate] (wasm_bytes.len() as u32);

    let estimated_lines = if file_size / 10 >= 100 {
        file_size / 10
    } else {
        100
    };
    let function_count = if file_size / 1000 >= 1 {
        file_size / 1000
    } else {
        1
    };
    let complexity_score = if file_size / 5000 >= 1 {
        file_size / 5000
    } else {
        1
    };

    CodeMetrics {
        file_size_bytes: file_size,
        estimated_lines_of_code: estimated_lines,
        function_count,
        complexity_score,
    }
}

/// Whether some finding carries the given severity.
pub open spec fn has_sev(fs: Seq<StaticFindingV>, sev: SecuritySeverity) -> bool {
    exists|i: int| 0 <= i < fs.len() && (#[trigger] fs[i]).severity == sev
}

/// How many findings carry the given severity.
pub open spec fn count_sev(fs: Seq<StaticFindingV>, sev: SecuritySeverity) -> nat
    decreases fs.len(),
{
    if fs.len() == 0 {
        0
    } else {
        count_sev(fs.drop_last(), sev) + (if fs.last().severity == sev {
            1nat
        } else {
            0nat
        })
    }
}

/// A severity count is positive exactly when some finding carries the
/// severity, and never exceeds the number of findings.
pub proof fn lemma_count_sev(fs: Seq<StaticFindingV>, sev: SecuritySeverity)
    ensures
        count_sev(fs, sev) <= fs.len(),
        (count_sev(fs, sev) > 0) == has_sev(fs, sev),
    decreases fs.len(),
{
    if fs.len() > 0 {
        lemma_count_sev(fs.drop_last(), sev);
        if fs.last().severity == sev {
            assert(fs[fs.len() - 1].severity == sev);
        } else if has_sev(fs, sev) {
            let i = choose|i: int| 0 <= i < fs.len() && (#[trigger] fs[i]).severity == sev;
            if count_sev(fs, sev) == 0 {
                assert(fs.drop_last()[i] == fs[i]);
            }
        }
    }
}

/// Whether some finding carries the given severity: a linear scan.
pub fn has_severity(findings: &Vec<StaticFinding>, sev: SecuritySeverity) -> (b: bool)
    ensures
        b == has_sev(sfindings_view(findings@), sev),
{
    let n = findings.len();
    let mut i: usize = 0;
    while i < n
        invariant
            n == findings@.len(),
            i <= n,
            forall|j: int| 0 <= j < i ==> (#[trigger] sfindings_view(findings@)[j]).severity
                != sev,
        decreases n - i,
    {
        if findings[i].severity == sev {
            assert(sfindings_view(findings@)[i as int].severity == sev);
            return true;
        }
        proof {
            assert(sfindings_view(findings@)[i as int].severity != sev);
        }
        i = i + 1;
    }
    false
}

/// How many findings carry the given severity: a linear scan.
pub fn count_severity_findings(findings: &Vec<StaticFinding>, sev: SecuritySeverity) -> (c: u64)
    ensures
        c == count_sev(sfindings_view(findings@), sev),
        c <= findings@.len(),
{
    let n = findings.len();
    let mut c: u64 = 0;
    let mut i: usize = 0;
    proof {
        assert(sfindings_view(findings@).take(0) =~= Seq::<StaticFindingV>::empty());
    }
    while i < n
        invariant
            n == findings@.len(),
            i <= n,
            c == count_sev(sfindings_view(findings@).take(i as int), sev),
            c <= i,
        decreases n - i,
    {
        if findings[i].severity == sev {
            c = c + 1;
        }
        proof {
            let v = sfindings_view(findings@);
            let t = v.take(i + 1);
            assert(t.drop_last() =~= v.take(i as int));
            assert(t.last() == v[i as int]);
        }
        i = i + 1;
    }
    proof {
        let v = sfindings_view(findings@);
        assert(v.take(n as int) =~= v);
    }
    c
}

/// The priority of a severity: higher is graver; `Info` carries no
/// priority at all.
pub open spec fn sev_rank(s: SecuritySeverity) -> int {
    match s {
        SecuritySeverity::Critical => 4,
        SecuritySeverity::High => 3,
        SecuritySeverity::Medium => 2,
        SecuritySeverity::Low => 1,
        SecuritySeverity::Info => 0,
    }
}

/// The overall severity resolved from a sequence of findings: the
/// highest-priority severity present among Critical, High, Medium and
/// Low; `Low` when no finding carries one of those — an empty or
/// Info-only report means "unknown risk", never "no risk".
pub open spec fn spec_overall_severity(fs: Seq<StaticFindingV>) -> SecuritySeverity {
    if has_sev(fs, SecuritySeverity::Critical) {
        SecuritySeverity::Critical
    } else if has_sev(fs, SecuritySeverity::High) {
        SecuritySeverity::High
    } else if has_sev(fs, SecuritySeverity::Medium) {
        SecuritySeverity::Medium
    } else {
        SecuritySeverity::Low
    }
}

/// The resolved overall severity is never `Info`, is at least the
/// priority of every non-Info finding, and is itself present among the
/// findings unless it is the `Low` default.
pub proof fn lemma_overall_severity_is_max(fs: Seq<StaticFindingV>)
    ensures
        spec_overall_severity(fs) != SecuritySeverity::Info,
        forall|i: int| 0 <= i < fs.len() && (#[trigger] fs[i]).severity != SecuritySeverity::Info
            ==> sev_rank(fs[i].severity) <= sev_rank(spec_overall_severity(fs)),
        has_sev(fs, spec_overall_severity(fs)) || spec_overall_severity(fs)
            == SecuritySeverity::Low,
{
    assert forall|i: int|
        0 <= i < fs.len() && (#[trigger] fs[i]).severity != SecuritySeverity::Info implies sev_rank(
        fs[i].severity,
    ) <= sev_rank(spec_overall_severity(fs)) by {
        assert(has_sev(fs, fs[i].severity));
    }
}

/// Resolves one overall severity from the aggregated findings.
pub fn resolve_overall_severity(findings: &Vec<StaticFinding>) -> (s: SecuritySeverity)
    ensures
        s == spec_overall_severity(sfindings_view(findings@)),
{
    if has_severity(findings, SecuritySeverity::Critical) {
        SecuritySeverity::Critical
    } else if has_severity(findings, SecuritySeverity::High) {
        SecuritySeverity::High
    } else if has_severity(findings, SecuritySeverity::Medium) {
        SecuritySeverity::Medium
    } else {
        SecuritySeverity::Low
    }
}

/// A complete analysis: digest, static half, narrative half, overall
/// severity, fixed service recommendations, and the analysis timestamp.
#[derive(Debug)]
pub struct SecurityAnalysisResult {
    pub wasm_hash: String,
    pub static_analysis: StaticAnalysisResult,
    pub ai_analysis: AiAnalysisResult,
    pub overall_severity: SecuritySeverity,
    pub recommendations: Vec<String>,
    pub analysis_timestamp: u64,
}

/// The findings both reference analyzers emit for a payload of `n`
/// bytes, in analyzer-registration order.
pub open spec fn aggregated_findings(n: nat) -> Seq<StaticFindingV> {
    owi_findings(n) + seewasm_findings(n)
}

/// Runs the whole non-suspending pipeline over a submitted payload:
/// digest, metrics, both reference analyzers in registration order,
/// severity resolution, and the fallback narrative. Deterministic and
/// side-effect-free; the timestamp is the caller's.
pub fn analyze_wasm_security(request: WasmAnalysisRequest, timestamp: u64)
    -> (r: SecurityAnalysisResult)
    ensures
        r.wasm_hash@ == spec_wasm_hash(request.wasm_bytes@),
        r.static_analysis.metrics == spec_metrics(request.wasm_bytes@.len()),
        sfindings_view(r.static_analysis.vulnerabilities_found@) == aggregated_findings(
            request.wasm_bytes@.len(),
        ),
        strings_view(r.static_analysis.tools_used@) == seq!["Owi (mock)"@, "SeeWasm (mock)"@],
        r.overall_severity == spec_overall_severity(aggregated_findings(request.wasm_bytes@.len())),
        ai_result_matches(
            r.ai_analysis,
            spec_wasm_hash(request.wasm_bytes@),
            spec_metrics(request.wasm_bytes@.len()),
            aggregated_findings(request.wasm_bytes@.len()),
        ),
        strings_view(r.recommendations@) == seq![
            "Monitor cycle consumption patterns"@,
            "Implement comprehensive input validation"@,
            "Follow Internet Computer security best practices"@,
        ],
        r.analysis_timestamp == timestamp,
{
    let ghost n = request.wasm_bytes@.len();
    let wasm_hash = hash_wasm_bytes(request.wasm_bytes.as_slice());
    let metrics = calculate_code_metrics(request.wasm_bytes.as_slice());

    let mut static_findings = mock_owi_analysis(request.wasm_bytes.as_slice());
    let mut more = mock_seewasm_analysis(request.wasm_bytes.as_slice());
    let ghost owi_part = static_findings@;
    let ghost see_part = more@;
    static_findings.append(&mut more);
    proof {
        assert(sfindings_view(static_findings@) =~= sfindings_view(owi_part) + sfindings_view(
            see_part,
        ));
    }

    let overall_severity = resolve_overall_severity(&static_findings);
    let ai_analysis = create_fallback_ai_analysis(wasm_hash.as_str(), &metrics, &static_findings);

    let tools_used = vec![String::from_str("Owi (mock)"), String::from_str("SeeWasm (mock)")];
    let recommendations = vec![
        String::from_str("Monitor cycle consumption patterns"),
        String::from_str("Implement comprehensive input validation"),
        String::from_str("Follow Internet Computer security best practices"),
    ];
    proof {
        assert(strings_view(tools_used@) =~~= seq!["Owi (mock)"@, "SeeWasm (mock)"@]);
        assert(strings_view(recommendations@) =~~= seq![
            "Monitor cycle consumption patterns"@,
            "Implement comprehensive input validation"@,
            "Follow Internet Computer security best practices"@,
        ]);
    }

    SecurityAnalysisResult {
        wasm_hash,
        static_analysis: StaticAnalysisResult {
            tools_used,
            vulnerabilities_found: static_findings,
            metrics,
        },
        ai_analysis,
        overall_severity,
        recommendations,
        analysis_timestamp: timestamp,
    }
}

} // verus!
