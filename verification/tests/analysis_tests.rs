use canispect::analysis::{
    analyze_wasm_security, calculate_code_metrics, mock_owi_analysis, mock_seewasm_analysis,
    resolve_overall_severity, SecuritySeverity, StaticFinding, WasmAnalysisRequest,
};

fn finding(severity: SecuritySeverity) -> StaticFinding {
    StaticFinding {
        tool: "t".to_string(),
        severity,
        category: "c".to_string(),
        message: "m".to_string(),
        location: None,
    }
}

#[test]
fn metrics_hit_their_floors_on_a_tiny_payload() {
    let m = calculate_code_metrics(&[0u8; 10]);
    assert_eq!(m.file_size_bytes, 10);
    assert_eq!(m.estimated_lines_of_code, 100);
    assert_eq!(m.function_count, 1);
    assert_eq!(m.complexity_score, 1);
}

#[test]
fn metrics_scale_with_the_payload_size() {
    let m = calculate_code_metrics(&vec![0u8; 2_000_000]);
    assert_eq!(m.file_size_bytes, 2_000_000);
    assert_eq!(m.estimated_lines_of_code, 200_000);
    assert_eq!(m.function_count, 2_000);
    assert_eq!(m.complexity_score, 400);
}

#[test]
fn owi_analyzer_flags_size_thresholds() {
    assert!(mock_owi_analysis(&[0u8; 1000]).is_empty());

    let medium = mock_owi_analysis(&vec![0u8; 200_000]);
    assert_eq!(medium.len(), 1);
    assert_eq!(medium[0].category, "Memory Management");
    assert_eq!(medium[0].severity, SecuritySeverity::Low);

    let large = mock_owi_analysis(&vec![0u8; 1_500_000]);
    assert_eq!(large.len(), 2);
    assert_eq!(large[0].category, "Performance");
    assert_eq!(large[0].severity, SecuritySeverity::Medium);
    assert_eq!(large[1].category, "Memory Management");
}

#[test]
fn seewasm_analyzer_always_confirms_completion() {
    let small = mock_seewasm_analysis(&[0u8; 10]);
    assert_eq!(small.len(), 1);
    assert_eq!(small[0].severity, SecuritySeverity::Info);
    assert_eq!(small[0].tool, "SeeWasm");

    let big = mock_seewasm_analysis(&vec![0u8; 60_000]);
    assert_eq!(big.len(), 2);
    assert_eq!(big[1].category, "Arithmetic Safety");
    assert_eq!(big[1].severity, SecuritySeverity::Medium);
}

#[test]
fn severity_resolves_to_the_highest_priority_present() {
    assert_eq!(resolve_overall_severity(&vec![]), SecuritySeverity::Low);
    assert_eq!(
        resolve_overall_severity(&vec![finding(SecuritySeverity::Info)]),
        SecuritySeverity::Low
    );
    assert_eq!(
        resolve_overall_severity(&vec![
            finding(SecuritySeverity::Low),
            finding(SecuritySeverity::Medium),
            finding(SecuritySeverity::Info),
        ]),
        SecuritySeverity::Medium
    );
    assert_eq!(
        resolve_overall_severity(&vec![
            finding(SecuritySeverity::High),
            finding(SecuritySeverity::Critical),
        ]),
        SecuritySeverity::Critical
    );
}

#[test]
fn large_payload_analysis_yields_medium_and_the_large_binary_clause() {
    let req = WasmAnalysisRequest {
        wasm_bytes: vec![0u8; 2_000_000],
        canister_id: None,
        metadata: None,
    };
    let r = analyze_wasm_security(req, 99);
    let cats: Vec<&str> = r
        .static_analysis
        .vulnerabilities_found
        .iter()
        .map(|f| f.category.as_str())
        .collect();
    assert!(cats.contains(&"Performance"));
    assert!(cats.contains(&"Arithmetic Safety"));
    assert!(cats.contains(&"Symbolic Execution"));
    assert_eq!(r.overall_severity, SecuritySeverity::Medium);
    assert!(r.ai_analysis.summary.contains(
        "Large WASM binary detected - consider optimization to reduce attack surface"
    ));
    assert_eq!(r.analysis_timestamp, 99);
    assert_eq!(r.wasm_hash, canispect::identity::hash_wasm_bytes(&vec![0u8; 2_000_000]));
}

#[test]
fn tiny_payload_analysis_mentions_minimal_functionality() {
    let req = WasmAnalysisRequest {
        wasm_bytes: vec![1u8; 10],
        canister_id: None,
        metadata: None,
    };
    let r = analyze_wasm_security(req, 1);
    assert_eq!(r.static_analysis.metrics.estimated_lines_of_code, 100);
    assert_eq!(r.static_analysis.metrics.function_count, 1);
    assert_eq!(r.static_analysis.metrics.complexity_score, 1);
    assert!(r
        .ai_analysis
        .summary
        .contains("Small WASM binary suggests minimal functionality"));
    assert_eq!(
        r.static_analysis.tools_used,
        vec!["Owi (mock)".to_string(), "SeeWasm (mock)".to_string()]
    );
    assert_eq!(
        r.recommendations,
        vec![
            "Monitor cycle consumption patterns".to_string(),
            "Implement comprehensive input validation".to_string(),
            "Follow Internet Computer security best practices".to_string(),
        ]
    );
}
