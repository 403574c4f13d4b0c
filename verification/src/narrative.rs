//! The rule-based fallback narrative generator: turns structural metrics
//! and aggregated findings into a deterministic security summary, pattern
//! list, concern list, recommendation list and confidence score. It is
//! invoked whenever the generative backend is unreachable, returns no
//! content, or exceeds its time budget, and it never itself fails.
use vstd::prelude::*;

use crate::analysis::{
    CodeMetrics, SecuritySeverity, StaticFinding, StaticFindingV, count_sev, has_sev,
    count_severity_findings, has_severity, sfindings_view,
};
use crate::text::{contains_sub, dec_str, spec_contains, u64_to_string};
use crate::types::strings_view;

verus! {

/// The generative-analysis result shape: narrative text, lists of
/// patterns, concerns and recommendations, and a confidence score given
/// in hundredths of the unit (90 stands for a confidence of 0.90).
#[derive(Debug)]
pub struct AiAnalysisResult {
    pub summary: String,
    pub identified_patterns: Vec<String>,
    pub security_concerns: Vec<String>,
    pub recommendations: Vec<String>,
    pub confidence_score: u32,
}

/// Whether some finding's category contains the given needle.
pub open spec fn has_category_containing(fs: Seq<StaticFindingV>, needle: Seq<char>) -> bool {
    exists|i: int| 0 <= i < fs.len() && spec_contains((#[trigger] fs[i]).category, needle)
}

/// Whether some finding's category contains the given needle: a linear
/// scan.
pub fn any_category_contains(findings: &Vec<StaticFinding>, needle: &str) -> (b: bool)
    ensures
        b == has_category_containing(sfindings_view(findings@), needle@),
{
    let n = findings.len();
    let mut i: usize = 0;
    while i < n
        invariant
            n == findings@.len(),
            i <= n,
            forall|j: int| 0 <= j < i ==> !spec_contains(
                (#[trigger] sfindings_view(findings@)[j]).category,
                needle@,
            ),
        decreases n - i,
    {
        if contains_sub(findings[i].category.as_str(), needle) {
            proof {
                assert(spec_contains(sfindings_view(findings@)[i as int].category, needle@));
            }
            return true;
        }
        proof {
            assert(!spec_contains(sfindings_view(findings@)[i as int].category, needle@));
        }
        i = i + 1;
    }
    false
}

/// The fallback's confidence, in hundredths: 70 with no findings, 90 when
/// any Critical finding is present, 80 otherwise. More signal — even bad
/// signal — increases confidence in the fallback's relevance, not in the
/// audited code's correctness.
pub open spec fn spec_confidence(fs: Seq<StaticFindingV>) -> u32 {
    if fs.len() == 0 {
        70
    } else if has_sev(fs, SecuritySeverity::Critical) {
        90
    } else {
        80
    }
}

/// The fallback's confidence is 90 hundredths whenever any Critical
/// finding is present, regardless of what else the findings hold.
pub proof fn lemma_confidence_critical(fs: Seq<StaticFindingV>)
    requires
        has_sev(fs, SecuritySeverity::Critical),
    ensures
        spec_confidence(fs) == 90,
{
    let i = choose|i: int| 0 <= i < fs.len() && (#[trigger] fs[i]).severity
        == SecuritySeverity::Critical;
    assert(fs.len() > 0);
}

/// The summary clause for payload-size extremes, with its leading
/// separator; empty for unremarkable sizes.
pub open spec fn size_clause(size: u32) -> Seq<char> {
    if size > 1000000 {
        " "@
            + "Large WASM binary detected - consider optimization to reduce attack surface and improve performance."@
    } else if size < 10000 {
        " "@
            + "Small WASM binary suggests minimal functionality - verify all required security controls are implemented."@
    } else {
        Seq::<char>::empty()
    }
}

/// The summary sentence for the complexity tier.
pub open spec fn complexity_sentence(complexity: u32) -> Seq<char> {
    if complexity > 50 {
        "High complexity detected - increased risk of logic vulnerabilities and harder to audit."@
    } else if complexity > 20 {
        "Moderate complexity - ensure proper testing coverage for all code paths."@
    } else {
        "Low complexity - reduced risk but verify core security patterns are implemented."@
    }
}

/// The summary clauses for the per-severity finding counts, each with its
/// leading separator; a fixed no-issues clause when there are no findings
/// at all.
pub open spec fn findings_clause(fs: Seq<StaticFindingV>) -> Seq<char> {
    if fs.len() == 0 {
        " "@ + "No immediate security vulnerabilities detected by static analysis."@
    } else {
        (if count_sev(fs, SecuritySeverity::Critical) > 0 {
            " CRITICAL: "@ + dec_str(count_sev(fs, SecuritySeverity::Critical))
                + " critical security issues identified requiring immediate attention."@
        } else {
            Seq::<char>::empty()
        }) + (if count_sev(fs, SecuritySeverity::High) > 0 {
            " HIGH: "@ + dec_str(count_sev(fs, SecuritySeverity::High))
                + " high-priority security concerns detected."@
        } else {
            Seq::<char>::empty()
        }) + (if count_sev(fs, SecuritySeverity::Medium) > 0 {
            " MEDIUM: "@ + dec_str(count_sev(fs, SecuritySeverity::Medium))
                + " moderate security issues found."@
        } else {
            Seq::<char>::empty()
        })
    }
}

/// The whole fallback summary: the hash-naming opener, the size clause,
/// the complexity sentence, and the finding-count clauses.
pub open spec fn fallback_summary(hash: Seq<char>, m: CodeMetrics, fs: Seq<StaticFindingV>)
    -> Seq<char> {
    "Security analysis completed for WASM binary (hash: "@ + hash.take(16) + ")"@ + size_clause(
        m.file_size_bytes,
    ) + " "@ + complexity_sentence(m.complexity_score) + findings_clause(fs)
}

/// The pattern entry for the function-count tier.
pub open spec fn function_tier(function_count: u32) -> Seq<char> {
    if function_count > 20 {
        "Complex multi-function canister"@
    } else if function_count > 5 {
        "Moderate function complexity"@
    } else {
        "Simple function structure"@
    }
}

/// The identified-pattern list: the baseline structure entry, the
/// function-count tier, and memory/performance entries when findings in
/// those categories are present.
pub open spec fn fallback_patterns(m: CodeMetrics, fs: Seq<StaticFindingV>) -> Seq<Seq<char>> {
    seq!["Standard WASM binary structure"@, function_tier(m.function_count)] + (if
    has_category_containing(fs, "Memory"@) {
        seq!["Memory management patterns detected"@]
    } else {
        Seq::<Seq<char>>::empty()
    }) + (if has_category_containing(fs, "Performance"@) {
        seq!["Performance optimization opportunities identified"@]
    } else {
        Seq::<Seq<char>>::empty()
    })
}

/// The security-concern list: size, complexity and high-severity warnings
/// when warranted, then three fixed baseline concerns.
pub open spec fn fallback_concerns(m: CodeMetrics, fs: Seq<StaticFindingV>) -> Seq<Seq<char>> {
    (if m.file_size_bytes > 500000 {
        seq!["Large binary size may indicate bundled dependencies with potential vulnerabilities"@]
    } else {
        Seq::<Seq<char>>::empty()
    }) + (if m.complexity_score > 30 {
        seq!["High complexity increases difficulty of security review and testing"@]
    } else {
        Seq::<Seq<char>>::empty()
    }) + (if has_sev(fs, SecuritySeverity::Critical) || has_sev(fs, SecuritySeverity::High) {
        seq!["High-severity security issues require immediate remediation"@]
    } else {
        Seq::<Seq<char>>::empty()
    }) + seq![
        "Verify proper access controls for all public methods"@,
        "Ensure comprehensive input validation for all parameters"@,
        "Monitor cycle consumption to prevent DoS attacks"@,
    ]
}

/// The recommendation list: four fixed baseline items, then size,
/// complexity and memory items when warranted.
pub open spec fn fallback_rec_list(m: CodeMetrics, fs: Seq<StaticFindingV>) -> Seq<Seq<char>> {
    seq![
        "Implement comprehensive logging for security monitoring"@,
        "Add input sanitization for all user-provided data"@,
        "Use Internet Computer's certified data for critical state"@,
        "Implement proper error handling without revealing internal details"@,
    ] + (if m.file_size_bytes > 1000000 {
        seq!["Consider code splitting or removing unused dependencies"@]
    } else {
        Seq::<Seq<char>>::empty()
    }) + (if m.complexity_score > 20 {
        seq![
            "Add comprehensive unit tests for all code paths"@,
            "Consider refactoring complex functions into smaller, testable units"@,
        ]
    } else {
        Seq::<Seq<char>>::empty()
    }) + (if has_category_containing(fs, "Memory"@) {
        seq!["Review memory allocation patterns and implement bounds checking"@]
    } else {
        Seq::<Seq<char>>::empty()
    })
}

/// Whether `a` is exactly the fallback analysis of the given digest,
/// metrics and findings.
pub open spec fn ai_result_matches(
    a: AiAnalysisResult,
    hash: Seq<char>,
    m: CodeMetrics,
    fs: Seq<StaticFindingV>,
) -> bool {
    &&& a.summary@ == fallback_summary(hash, m, fs)
    &&& strings_view(a.identified_patterns@) == fallback_patterns(m, fs)
    &&& strings_view(a.security_concerns@) == fallback_concerns(m, fs)
    &&& strings_view(a.recommendations@) == fallback_rec_list(m, fs)
    &&& a.confidence_score == spec_confidence(fs)
}

/// Builds the fallback summary text.
#[verifier::rlimit(100)]
fn build_fallback_summary(
    wasm_hash: &str,
    metrics: &CodeMetrics,
    static_findings: &Vec<StaticFinding>,
) -> (summary: String)
    requires
        wasm_hash@.len() >= 16,
    ensures
        summary@ == fallback_summary(wasm_hash@, *metrics, sfindings_view(static_findings@)),
{
    let ghost fsv = sfindings_view(static_findings@);
    let file_size = metrics.file_size_bytes;
    let complexity = metrics.complexity_score;

    let mut summary = String::from_str("Security analysis completed for WASM binary (hash: ");
    summary.append(wasm_hash.substring_char(0, 16));
    summary.append(")");
    proof {
        assert(summary@ =~= "Security analysis completed for WASM binary (hash: "@
            + wasm_hash@.take(16) + ")"@);
    }
    let ghost s_base = summary@;

    if file_size > 1000000 {
        summary.append(" ");
        summary.append(
            "Large WASM binary detected - consider optimization to reduce attack surface and improve performance.",
        );
    } else if file_size < 10000 {
        summary.append(" ");
        summary.append(
            "Small WASM binary suggests minimal functionality - verify all required security controls are implemented.",
        );
    }
    proof {
        assert(summary@ =~= s_base + size_clause(file_size));
    }
    let ghost s_sized = summary@;

    summary.append(" ");
    if complexity > 50 {
        summary.append(
            "High complexity detected - increased risk of logic vulnerabilities and harder to audit.",
        );
    } else if complexity > 20 {
        summary.append("Moderate complexity - ensure proper testing coverage for all code paths.");
    } else {
        summary.append(
            "Low complexity - reduced risk but verify core security patterns are implemented.",
        );
    }
    proof {
        assert(summary@ =~= s_sized + " "@ + complexity_sentence(complexity));
    }
    let ghost s_cplx = summary@;

    if static_findings.len() > 0 {
        let critical_count = count_severity_findings(static_findings, SecuritySeverity::Critical);
        let high_count = count_severity_findings(static_findings, SecuritySeverity::High);
        let medium_count = count_severity_findings(static_findings, SecuritySeverity::Medium);

        if critical_count > 0 {
            summary.append(" CRITICAL: ");
            let c = u64_to_string(critical_count);
            summary.append(c.as_str());
            summary.append(" critical security issues identified requiring immediate attention.");
        }
        let ghost s_crit = summary@;
        if high_count > 0 {
            summary.append(" HIGH: ");
            let c = u64_to_string(high_count);
            summary.append(c.as_str());
            summary.append(" high-priority security concerns detected.");
        }
        let ghost s_high = summary@;
        if medium_count > 0 {
            summary.append(" MEDIUM: ");
            let c = u64_to_string(medium_count);
            summary.append(c.as_str());
            summary.append(" moderate security issues found.");
        }
        proof {
            assert(s_crit =~= s_cplx + (if count_sev(fsv, SecuritySeverity::Critical) > 0 {
                " CRITICAL: "@ + dec_str(count_sev(fsv, SecuritySeverity::Critical))
                    + " critical security issues identified requiring immediate attention."@
            } else {
                Seq::<char>::empty()
            }));
            assert(s_high =~= s_crit + (if count_sev(fsv, SecuritySeverity::High) > 0 {
                " HIGH: "@ + dec_str(count_sev(fsv, SecuritySeverity::High))
                    + " high-priority security concerns detected."@
            } else {
                Seq::<char>::empty()
            }));
            assert(summary@ =~= s_high + (if count_sev(fsv, SecuritySeverity::Medium) > 0 {
                " MEDIUM: "@ + dec_str(count_sev(fsv, SecuritySeverity::Medium))
                    + " moderate security issues found."@
            } else {
                Seq::<char>::empty()
            }));
            assert(summary@ =~= s_cplx + findings_clause(fsv));
        }
    } else {
        summary.append(" ");
        summary.append("No immediate security vulnerabilities detected by static analysis.");
        proof {
            assert(summary@ =~= s_cplx + findings_clause(fsv));
        }
    }
    proof {
        assert(summary@ =~= fallback_summary(wasm_hash@, *metrics, fsv));
    }
    summary
}

fn build_fallback_patterns(metrics: &CodeMetrics, static_findings: &Vec<StaticFinding>)
    -> (patterns: Vec<String>)
    ensures
        strings_view(patterns@) == fallback_patterns(*metrics, sfindings_view(static_findings@)),
{
    let ghost fsv = sfindings_view(static_findings@);
    let mut patterns: Vec<String> = Vec::new();
    patterns.push(String::from_str("Standard WASM binary structure"));
    if metrics.function_count > 20 {
        patterns.push(String::from_str("Complex multi-function canister"));
    } else if metrics.function_count > 5 {
        patterns.push(String::from_str("Moderate function complexity"));
    } else {
        patterns.push(String::from_str("Simple function structure"));
    }
    if any_category_contains(static_findings, "Memory") {
        patterns.push(String::from_str("Memory management patterns detected"));
    }
    if any_category_contains(static_findings, "Performance") {
        patterns.push(String::from_str("Performance optimization opportunities identified"));
    }
    proof {
        assert(strings_view(patterns@) =~~= fallback_patterns(*metrics, fsv));
    }
    patterns
}

fn build_fallback_concerns(metrics: &CodeMetrics, static_findings: &Vec<StaticFinding>)
    -> (concerns: Vec<String>)
    ensures
        strings_view(concerns@) == fallback_concerns(*metrics, sfindings_view(static_findings@)),
{
    let ghost fsv = sfindings_view(static_findings@);
    let file_size = metrics.file_size_bytes;
    let complexity = metrics.complexity_score;
    let mut concerns: Vec<String> = Vec::new();
    if file_size > 500000 {
        concerns.push(String::from_str(
            "Large binary size may indicate bundled dependencies with potential vulnerabilities",
        ));
    }
    if complexity > 30 {
        concerns.push(String::from_str(
            "High complexity increases difficulty of security review and testing",
        ));
    }
    if has_severity(static_findings, SecuritySeverity::Critical) || has_severity(
        static_findings,
        SecuritySeverity::High,
    ) {
        concerns.push(String::from_str(
            "High-severity security issues require immediate remediation",
        ));
    }
    concerns.push(String::from_str("Verify proper access controls for all public methods"));
    concerns.push(String::from_str("Ensure comprehensive input validation for all parameters"));
    concerns.push(String::from_str("Monitor cycle consumption to prevent DoS attacks"));
    proof {
        assert(strings_view(concerns@) =~~= fallback_concerns(*metrics, fsv));
    }
    concerns
}

fn build_fallback_recommendations(metrics: &CodeMetrics, static_findings: &Vec<StaticFinding>)
    -> (recommendations: Vec<String>)
    ensures
        strings_view(recommendations@) == fallback_rec_list(
            *metrics,
            sfindings_view(static_findings@),
        ),
{
    let ghost fsv = sfindings_view(static_findings@);
    let file_size = metrics.file_size_bytes;
    let complexity = metrics.complexity_score;
    let mut recommendations: Vec<String> = Vec::new();
    recommendations.push(String::from_str(
        "Implement comprehensive logging for security monitoring",
    ));
    recommendations.push(String::from_str("Add input sanitization for all user-provided data"));
    recommendations.push(String::from_str(
        "Use Internet Computer's certified data for critical state",
    ));
    recommendations.push(String::from_str(
        "Implement proper error handling without revealing internal details",
    ));
    if file_size > 1000000 {
        recommendations.push(String::from_str(
            "Consider code splitting or removing unused dependencies",
        ));
    }
    if complexity > 20 {
        recommendations.push(String::from_str("Add comprehensive unit tests for all code paths"));
        recommendations.push(String::from_str(
            "Consider refactoring complex functions into smaller, testable units",
        ));
    }
    if any_category_contains(static_findings, "Memory") {
        recommendations.push(String::from_str(
            "Review memory allocation patterns and implement bounds checking",
        ));
    }
    proof {
        assert(strings_view(recommendations@) =~~= fallback_rec_list(*metrics, fsv));
    }
    recommendations
}

/// Deterministically synthesizes the fallback analysis from the digest,
/// the structural metrics and the aggregated findings. Never fails.
pub fn create_fallback_ai_analysis(
    wasm_hash: &str,
    metrics: &CodeMetrics,
    static_findings: &Vec<StaticFinding>,
) -> (r: AiAnalysisResult)
    requires
        wasm_hash@.len() >= 16,
    ensures
        ai_result_matches(r, wasm_hash@, *metrics, sfindings_view(static_findings@)),
{
    let summary = build_fallback_summary(wasm_hash, metrics, static_findings);
    let patterns = build_fallback_patterns(metrics, static_findings);
    let concerns = build_fallback_concerns(metrics, static_findings);
    let recommendations = build_fallback_recommendations(metrics, static_findings);

    let confidence: u32 = if static_findings.len() == 0 {
        70
    } else if has_severity(static_findings, SecuritySeverity::Critical) {
        90
    } else {
        80
    };

    AiAnalysisResult {
        summary,
        identified_patterns: patterns,
        security_concerns: concerns,
        recommendations,
        confidence_score: confidence,
    }
}

} // verus!
