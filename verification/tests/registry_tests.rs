use canispect::registry::AuditRegistry;
use canispect::types::{
    AuditRequest, AuditSeverity, AuditStatus, FindingSeverity, SecurityCategory, SecurityFinding,
};

fn request(payload: Vec<u8>, target: Option<&str>) -> AuditRequest {
    AuditRequest {
        canister_id: target.map(|t| t.to_string()),
        wasm_bytes: payload,
        metadata: None,
    }
}

fn finding(severity: FindingSeverity, title: &str) -> SecurityFinding {
    SecurityFinding {
        id: "f-1".to_string(),
        severity,
        category: SecurityCategory::DataValidation,
        title: title.to_string(),
        description: "d".to_string(),
        recommendation: "r".to_string(),
        location: None,
    }
}

#[test]
fn submit_creates_an_in_progress_record() {
    let mut reg = AuditRegistry::new();
    let id = reg.submit_audit_request(request(vec![1, 2, 3], None), "alice".to_string(), 7);
    let rec = reg.get_audit_record(&id).expect("record must exist");
    assert_eq!(rec.id, id);
    assert_eq!(rec.auditor, "alice");
    assert_eq!(rec.audit_timestamp, 7);
    assert_eq!(rec.status, AuditStatus::InProgress);
    assert_eq!(rec.severity, AuditSeverity::Info);
    assert!(rec.findings.is_empty());
    assert_eq!(rec.ai_summary, "Audit in progress...");
    assert_eq!(rec.canister_id, None);
}

#[test]
fn absent_metadata_defaults_to_tool_list_and_payload_size() {
    let mut reg = AuditRegistry::new();
    let id = reg.submit_audit_request(request(vec![9u8; 42], None), "alice".to_string(), 1);
    let rec = reg.get_audit_record(&id).unwrap();
    assert_eq!(rec.metadata.tools_used, vec!["AI Analysis".to_string()]);
    assert_eq!(rec.metadata.analysis_duration_ms, 0);
    assert_eq!(rec.metadata.lines_of_code, None);
    assert_eq!(rec.metadata.file_size_bytes, 42);
}

#[test]
fn get_on_unknown_id_returns_absence() {
    let reg = AuditRegistry::new();
    assert!(reg.get_audit_record(&"0123456789abcdef".to_string()).is_none());
    assert!(reg.get_audit_summary(&"0123456789abcdef".to_string()).is_none());
}

#[test]
fn complete_on_unknown_id_fails_without_mutating_storage() {
    let mut reg = AuditRegistry::new();
    let id = reg.submit_audit_request(request(vec![1], None), "alice".to_string(), 1);
    let before = reg.get_audit_statistics();
    let ok = reg.update_audit_record(
        &"ffffffffffffffff".to_string(),
        vec![finding(FindingSeverity::High, "t")],
        "done".to_string(),
        AuditSeverity::High,
    );
    assert!(!ok);
    assert_eq!(reg.get_audit_statistics(), before);
    let rec = reg.get_audit_record(&id).unwrap();
    assert_eq!(rec.status, AuditStatus::InProgress);
}

#[test]
fn complete_on_a_terminal_record_fails_and_leaves_it_untouched() {
    let mut reg = AuditRegistry::new();
    let id = reg.submit_audit_request(request(vec![1], None), "alice".to_string(), 1);
    assert!(reg.update_audit_record(&id, vec![], "first".to_string(), AuditSeverity::Low));
    let again = reg.update_audit_record(
        &id,
        vec![finding(FindingSeverity::Critical, "late")],
        "second".to_string(),
        AuditSeverity::Critical,
    );
    assert!(!again);
    let rec = reg.get_audit_record(&id).unwrap();
    assert_eq!(rec.ai_summary, "first");
    assert_eq!(rec.severity, AuditSeverity::Low);
    assert!(rec.findings.is_empty());
}

#[test]
fn submit_then_complete_then_get_matches_the_arguments() {
    let mut reg = AuditRegistry::new();
    let id = reg.submit_audit_request(request(vec![1, 2], None), "alice".to_string(), 11);
    let ok = reg.update_audit_record(
        &id,
        vec![
            finding(FindingSeverity::Critical, "first"),
            finding(FindingSeverity::Low, "second"),
        ],
        "all done".to_string(),
        AuditSeverity::Critical,
    );
    assert!(ok);
    let rec = reg.get_audit_record(&id).unwrap();
    assert_eq!(rec.status, AuditStatus::Completed);
    assert_eq!(rec.severity, AuditSeverity::Critical);
    assert_eq!(rec.ai_summary, "all done");
    assert_eq!(rec.findings.len(), 2);
    assert_eq!(rec.findings[0].title, "first");
    assert_eq!(rec.findings[0].severity, FindingSeverity::Critical);
    assert_eq!(rec.findings[1].title, "second");
    assert_eq!(rec.auditor, "alice");
    assert_eq!(rec.audit_timestamp, 11);
}

#[test]
fn summary_projects_the_record() {
    let mut reg = AuditRegistry::new();
    let id = reg.submit_audit_request(request(vec![5; 10], Some("target-1")), "carol".to_string(), 3);
    reg.update_audit_record(
        &id,
        vec![finding(FindingSeverity::Medium, "m")],
        "s".to_string(),
        AuditSeverity::Medium,
    );
    let s = reg.get_audit_summary(&id).unwrap();
    assert_eq!(s.id, id);
    assert_eq!(s.canister_id, Some("target-1".to_string()));
    assert_eq!(s.auditor, "carol");
    assert_eq!(s.audit_timestamp, 3);
    assert_eq!(s.severity, AuditSeverity::Medium);
    assert_eq!(s.findings_count, 1);
    assert_eq!(s.status, AuditStatus::Completed);
}

#[test]
fn listing_by_requester_counts_three_and_zero() {
    let mut reg = AuditRegistry::new();
    for t in 1..=3u64 {
        reg.submit_audit_request(request(vec![t as u8], None), "alice".to_string(), t);
    }
    assert_eq!(reg.list_audits_by_auditor(&"alice".to_string()).len(), 3);
    assert_eq!(reg.list_audits_by_auditor(&"bob".to_string()).len(), 0);
}

#[test]
fn listing_by_target_filters_records() {
    let mut reg = AuditRegistry::new();
    reg.submit_audit_request(request(vec![1], Some("c1")), "alice".to_string(), 1);
    reg.submit_audit_request(request(vec![2], Some("c2")), "alice".to_string(), 2);
    reg.submit_audit_request(request(vec![3], Some("c1")), "bob".to_string(), 3);
    reg.submit_audit_request(request(vec![4], None), "bob".to_string(), 4);
    let c1 = reg.list_audits_by_canister(&"c1".to_string());
    assert_eq!(c1.len(), 2);
    assert!(c1.iter().all(|s| s.canister_id == Some("c1".to_string())));
    assert_eq!(reg.list_audits_by_canister(&"c3".to_string()).len(), 0);
}

#[test]
fn statistics_count_totals_completed_and_severities() {
    let mut reg = AuditRegistry::new();
    let a = reg.submit_audit_request(request(vec![1], None), "alice".to_string(), 1);
    let b = reg.submit_audit_request(request(vec![2], None), "alice".to_string(), 2);
    let _c = reg.submit_audit_request(request(vec![3], None), "bob".to_string(), 3);
    reg.update_audit_record(&a, vec![], "s".to_string(), AuditSeverity::Critical);
    reg.update_audit_record(&b, vec![], "s".to_string(), AuditSeverity::High);
    let (total, completed, critical, high) = reg.get_audit_statistics();
    assert_eq!(total, 3);
    assert_eq!(completed, 2);
    assert_eq!(critical, 1);
    assert_eq!(high, 1);
    assert!(completed <= total);
    assert!(critical + high <= total);
}

#[test]
fn colliding_submission_overwrites_the_record() {
    let mut reg = AuditRegistry::new();
    let id1 = reg.submit_audit_request(request(vec![1], None), "alice".to_string(), 9);
    let id2 = reg.submit_audit_request(request(vec![2, 3], None), "alice".to_string(), 9);
    assert_eq!(id1, id2);
    let (total, _, _, _) = reg.get_audit_statistics();
    assert_eq!(total, 1);
    let rec = reg.get_audit_record(&id1).unwrap();
    assert_eq!(rec.wasm_hash, canispect::identity::hash_wasm_bytes(&[2, 3]));
}
