use canispect::analysis::{CodeMetrics, SecuritySeverity, StaticFinding};
use canispect::backend::{
    chat_or_fallback, classify_chat_content, classify_llm_response, create_security_audit_prompt,
    get_fallback_recommendations, get_fallback_response, greet, prompt_or_fallback,
    recommendations_or_fallback, LlmError,
};
use canispect::counter::Counter;
use canispect::identity::hash_wasm_bytes;
use canispect::narrative::create_fallback_ai_analysis;

fn metrics(size: u32, functions: u32, complexity: u32) -> CodeMetrics {
    CodeMetrics {
        file_size_bytes: size,
        estimated_lines_of_code: 100,
        function_count: functions,
        complexity_score: complexity,
    }
}

fn finding(severity: SecuritySeverity, category: &str) -> StaticFinding {
    StaticFinding {
        tool: "t".to_string(),
        severity,
        category: category.to_string(),
        message: "m".to_string(),
        location: None,
    }
}

#[test]
fn confidence_is_90_whenever_a_critical_finding_is_present() {
    let hash = hash_wasm_bytes(b"x");
    let fs = vec![
        finding(SecuritySeverity::Critical, "c"),
        finding(SecuritySeverity::Low, "c"),
        finding(SecuritySeverity::Low, "c"),
    ];
    let r = create_fallback_ai_analysis(&hash, &metrics(100, 1, 1), &fs);
    assert_eq!(r.confidence_score, 90);
}

#[test]
fn confidence_is_70_with_no_findings_and_80_otherwise() {
    let hash = hash_wasm_bytes(b"x");
    let none = create_fallback_ai_analysis(&hash, &metrics(100, 1, 1), &vec![]);
    assert_eq!(none.confidence_score, 70);
    let some = create_fallback_ai_analysis(
        &hash,
        &metrics(100, 1, 1),
        &vec![finding(SecuritySeverity::Low, "c")],
    );
    assert_eq!(some.confidence_score, 80);
}

#[test]
fn summary_names_the_digest_prefix_and_counts_findings() {
    let hash = hash_wasm_bytes(b"payload");
    let fs = vec![
        finding(SecuritySeverity::Critical, "c"),
        finding(SecuritySeverity::Critical, "c"),
        finding(SecuritySeverity::Medium, "c"),
    ];
    let r = create_fallback_ai_analysis(&hash, &metrics(50_000, 3, 10), &fs);
    assert!(r.summary.starts_with(&format!(
        "Security analysis completed for WASM binary (hash: {})",
        &hash[..16]
    )));
    assert!(r.summary.contains(
        "CRITICAL: 2 critical security issues identified requiring immediate attention."
    ));
    assert!(r.summary.contains("MEDIUM: 1 moderate security issues found."));
    assert!(!r.summary.contains("HIGH:"));
    assert!(r.summary.contains(
        "Low complexity - reduced risk but verify core security patterns are implemented."
    ));
}

#[test]
fn summary_is_exactly_the_composed_clauses() {
    let hash = hash_wasm_bytes(b"exact");
    let r = create_fallback_ai_analysis(&hash, &metrics(50_000, 1, 1), &vec![]);
    let expected = format!(
        "Security analysis completed for WASM binary (hash: {}) Low complexity - reduced risk but verify core security patterns are implemented. No immediate security vulnerabilities detected by static analysis.",
        &hash[..16]
    );
    assert_eq!(r.summary, expected);
}

#[test]
fn neutral_fallback_recommendations_are_exactly_the_baseline_text() {
    let expected = "Security Recommendations:\n\n\
\u{2022} Implement proper access controls with caller verification\n\
\u{2022} Add cycle balance monitoring and limits to prevent exhaustion\n\
\u{2022} Validate all input parameters thoroughly\n\
\u{2022} Use secure patterns for inter-canister calls\n\
\u{2022} Implement proper error handling and logging\n\n\
\u{26a0}\u{fe0f} Note: AI analysis is temporarily unavailable. These are general best practice recommendations.";
    assert_eq!(get_fallback_recommendations("a plain game"), expected);
}

#[test]
fn prompt_renders_large_counts_in_decimal() {
    let m = metrics(u32::MAX, 7, 3);
    let p = create_security_audit_prompt("h", &m, &vec![]);
    assert!(p.contains("File Size: 4294967295 bytes"));
    assert!(p.contains("Function Count: 7"));
    assert!(p.contains("Complexity Score: 3"));
}

#[test]
fn empty_findings_yield_the_no_issues_clause() {
    let hash = hash_wasm_bytes(b"x");
    let r = create_fallback_ai_analysis(&hash, &metrics(50_000, 1, 1), &vec![]);
    assert!(r
        .summary
        .contains("No immediate security vulnerabilities detected by static analysis."));
}

#[test]
fn patterns_track_function_tier_and_finding_categories() {
    let hash = hash_wasm_bytes(b"x");
    let fs = vec![
        finding(SecuritySeverity::Low, "Memory Management"),
        finding(SecuritySeverity::Medium, "Performance"),
    ];
    let r = create_fallback_ai_analysis(&hash, &metrics(50_000, 25, 1), &fs);
    assert_eq!(r.identified_patterns[0], "Standard WASM binary structure");
    assert_eq!(r.identified_patterns[1], "Complex multi-function canister");
    assert!(r
        .identified_patterns
        .contains(&"Memory management patterns detected".to_string()));
    assert!(r
        .identified_patterns
        .contains(&"Performance optimization opportunities identified".to_string()));
}

#[test]
fn concerns_always_end_with_the_three_baselines() {
    let hash = hash_wasm_bytes(b"x");
    let r = create_fallback_ai_analysis(&hash, &metrics(1000, 1, 1), &vec![]);
    let n = r.security_concerns.len();
    assert_eq!(n, 3);
    assert_eq!(
        r.security_concerns[n - 3],
        "Verify proper access controls for all public methods"
    );
    assert_eq!(
        r.security_concerns[n - 2],
        "Ensure comprehensive input validation for all parameters"
    );
    assert_eq!(
        r.security_concerns[n - 1],
        "Monitor cycle consumption to prevent DoS attacks"
    );
}

#[test]
fn high_severity_findings_add_the_remediation_concern() {
    let hash = hash_wasm_bytes(b"x");
    let r = create_fallback_ai_analysis(
        &hash,
        &metrics(600_000, 1, 35),
        &vec![finding(SecuritySeverity::High, "c")],
    );
    assert_eq!(r.security_concerns.len(), 6);
    assert_eq!(
        r.security_concerns[2],
        "High-severity security issues require immediate remediation"
    );
}

#[test]
fn recommendations_grow_with_size_complexity_and_memory_findings() {
    let hash = hash_wasm_bytes(b"x");
    let plain = create_fallback_ai_analysis(&hash, &metrics(1000, 1, 1), &vec![]);
    assert_eq!(plain.recommendations.len(), 4);
    let rich = create_fallback_ai_analysis(
        &hash,
        &metrics(2_000_000, 1, 25),
        &vec![finding(SecuritySeverity::Low, "Memory Management")],
    );
    assert_eq!(rich.recommendations.len(), 8);
    assert!(rich
        .recommendations
        .contains(&"Review memory allocation patterns and implement bounds checking".to_string()));
}

#[test]
fn audit_prompt_embeds_metrics_and_findings() {
    let m = metrics(10, 1, 1);
    let p = create_security_audit_prompt("aaaa", &m, &vec![]);
    assert!(p.starts_with("You are a canister security auditor analyzing a WASM binary."));
    assert!(p.contains("WASM Hash: aaaa"));
    assert!(p.contains("File Size: 10 bytes"));
    assert!(p.contains("Static Analysis Results: No static analysis findings detected."));

    let with = create_security_audit_prompt(
        "aaaa",
        &m,
        &vec![finding(SecuritySeverity::Low, "Memory")],
    );
    assert!(with.contains("Static analysis identified 1 potential issues: m (Memory)"));
}

#[test]
fn fallback_response_matches_keywords_case_insensitively() {
    assert!(get_fallback_response("Tell me about SECURITY").starts_with(
        "I'm a canister security auditor."
    ));
    assert!(get_fallback_response("any known Vulnerability?").starts_with(
        "Common canister vulnerabilities include:"
    ));
    assert!(get_fallback_response("Hello there").starts_with("Hello! I'm Canispect"));
    assert!(get_fallback_response("what can you do").starts_with(
        "I'm Canispect, an AI-powered security auditor"
    ));
}

#[test]
fn fallback_recommendations_match_description_keywords() {
    let token = get_fallback_recommendations("A Token exchange");
    assert!(token.starts_with("Security Recommendations:"));
    assert!(token.contains("Implement anti-reentrancy protection"));
    assert!(!token.contains("Encrypt sensitive data at rest"));

    let storage = get_fallback_recommendations("bulk DATA storage");
    assert!(storage.contains("Encrypt sensitive data at rest"));
    assert!(!storage.contains("Implement anti-reentrancy protection"));

    let plain = get_fallback_recommendations("a game");
    assert!(plain.contains("Validate all input parameters thoroughly"));
    assert!(plain.contains("Note: AI analysis is temporarily unavailable."));
}

#[test]
fn llm_replies_are_classified_by_content() {
    assert_eq!(classify_llm_response("hi".to_string()), Ok("hi".to_string()));
    assert_eq!(
        classify_llm_response("".to_string()),
        Err(LlmError::EmptyResponse)
    );
    assert_eq!(
        classify_chat_content(Some("c".to_string())),
        Ok("c".to_string())
    );
    assert_eq!(classify_chat_content(None), Err(LlmError::EmptyResponse));
}

#[test]
fn fallbacks_absorb_backend_failures() {
    assert_eq!(
        prompt_or_fallback("x", Ok("reply".to_string())),
        "reply".to_string()
    );
    assert!(prompt_or_fallback("security?", Err(LlmError::Timeout))
        .starts_with("I'm a canister security auditor."));
    assert!(recommendations_or_fallback("token", Err(LlmError::ServiceUnavailable))
        .contains("Implement anti-reentrancy protection"));
    assert!(chat_or_fallback(Err(LlmError::EmptyResponse)).starts_with("I apologize,"));
    assert_eq!(chat_or_fallback(Ok("fine".to_string())), "fine".to_string());
}

#[test]
fn llm_errors_describe_themselves() {
    assert_eq!(
        LlmError::ServiceUnavailable.message(),
        "LLM service is currently unavailable"
    );
    assert_eq!(LlmError::Timeout.message(), "LLM service request timed out");
    assert_eq!(
        LlmError::EmptyResponse.message(),
        "LLM service returned an empty response"
    );
}

#[test]
fn greeting_names_the_caller() {
    assert_eq!(
        greet("Dana".to_string()),
        "Hello, Dana! Welcome to Canispect - Your AI-powered canister security auditor."
    );
}

#[test]
fn counter_increments_and_sets() {
    let mut c = Counter::new();
    assert_eq!(c.get_count(), 0);
    assert_eq!(c.increment(), 1);
    assert_eq!(c.increment(), 2);
    assert_eq!(c.set_count(40), 40);
    assert_eq!(c.get_count(), 40);
    assert_eq!(c.increment(), 41);
}
