//! The audit registry's data model: records, findings, severities,
//! lifecycle states, and the summary projection used by list views.
//!
//! Requesters and audited targets are carried as their textual identities:
//! the registry treats them as opaque strings. Each exec type has a
//! mathematical view over `Seq<char>` that the contracts speak of.
use vstd::prelude::*;

verus! {

/// Overall severity verdict stored on a record. `Info` is only the
/// placeholder a fresh record carries while its analysis is in progress;
/// a resolved verdict is never looser than the findings it covers.
#[derive(Clone, Copy, PartialEq, Eq, Structural, Debug)]
pub enum AuditSeverity {
    Critical,
    High,
    Medium,
    Low,
    Info,
}

/// Severity of a single finding.
#[derive(Clone, Copy, PartialEq, Eq, Structural, Debug)]
pub enum FindingSeverity {
    Critical,
    High,
    Medium,
    Low,
}

/// The closed set of categories an analyzer may file a finding under.
#[derive(Clone, Copy, PartialEq, Eq, Structural, Debug)]
pub enum SecurityCategory {
    Reentrancy,
    UnauthorizedAccess,
    ResourceExhaustion,
    MemoryLeak,
    IntegerOverflow,
    DataValidation,
    AccessControl,
    Performance,
    Other,
}

/// Lifecycle state of a record. `InProgress` moves to exactly one of the
/// three terminal states and never out of it.
#[derive(Clone, Copy, PartialEq, Eq, Structural, Debug)]
pub enum AuditStatus {
    InProgress,
    Completed,
    Failed,
    RequiresReview,
}

/// One analyzer's observation.
#[derive(Debug)]
pub struct SecurityFinding {
    pub id: String,
    pub severity: FindingSeverity,
    pub category: SecurityCategory,
    pub title: String,
    pub description: String,
    pub recommendation: String,
    pub location: Option<String>,
}

/// Mathematical view of a finding.
#[verifier::ext_equal]
pub struct FindingV {
    pub id: Seq<char>,
    pub severity: FindingSeverity,
    pub category: SecurityCategory,
    pub title: Seq<char>,
    pub description: Seq<char>,
    pub recommendation: Seq<char>,
    pub location: Option<Seq<char>>,
}

impl View for SecurityFinding {
    type V = FindingV;

    open spec fn view(&self) -> FindingV {
        FindingV {
            id: self.id@,
            severity: self.severity,
            category: self.category,
            title: self.title@,
            description: self.description@,
            recommendation: self.recommendation@,
            location: (match self.location {
                Some(l) => Some(l@),
                None => None,
            }),
        }
    }
}

/// The views of a sequence of findings.
pub open spec fn findings_view(s: Seq<SecurityFinding>) -> Seq<FindingV> {
    Seq::new(s.len(), |i: int| s[i]@)
}

/// The views of a sequence of strings.
pub open spec fn strings_view(s: Seq<String>) -> Seq<Seq<char>> {
    Seq::new(s.len(), |i: int| s[i]@)
}

impl Clone for SecurityFinding {
    fn clone(&self) -> (res: Self)
        ensures
            res == *self,
    {
        SecurityFinding {
            id: self.id.clone(),
            severity: self.severity,
            category: self.category,
            title: self.title.clone(),
            description: self.description.clone(),
            recommendation: self.recommendation.clone(),
            location: (match &self.location {
                Some(l) => Some(l.clone()),
                None => None,
            }),
        }
    }
}

/// Tooling and size metadata carried on a record.
#[derive(Debug)]
pub struct AuditMetadata {
    pub tools_used: Vec<String>,
    pub analysis_duration_ms: u64,
    pub lines_of_code: Option<u32>,
    pub file_size_bytes: u32,
}

/// Mathematical view of record metadata.
#[verifier::ext_equal]
pub struct MetadataV {
    pub tools_used: Seq<Seq<char>>,
    pub analysis_duration_ms: u64,
    pub lines_of_code: Option<u32>,
    pub file_size_bytes: u32,
}

impl View for AuditMetadata {
    type V = MetadataV;

    open spec fn view(&self) -> MetadataV {
        MetadataV {
            tools_used: Seq::new(self.tools_used@.len(), |i: int| self.tools_used@[i]@),
            analysis_duration_ms: self.analysis_duration_ms,
            lines_of_code: self.lines_of_code,
            file_size_bytes: self.file_size_bytes,
        }
    }
}

impl Clone for AuditMetadata {
    fn clone(&self) -> (res: Self)
        ensures
            res@ == self@,
    {
        let tools = self.tools_used.clone();
        proof {
            assert(tools@ =~= self.tools_used@);
        }
        AuditMetadata {
            tools_used: tools,
            analysis_duration_ms: self.analysis_duration_ms,
            lines_of_code: self.lines_of_code,
            file_size_bytes: self.file_size_bytes,
        }
    }
}

/// The unit of persisted state: one audit of one submitted payload.
/// `id`, `wasm_hash`, `audit_timestamp` and `auditor` never change after
/// creation; the rest is mutable until the record reaches a terminal
/// status.
#[derive(Debug)]
pub struct AuditRecord {
    pub id: String,
    pub canister_id: Option<String>,
    pub wasm_hash: String,
    pub audit_timestamp: u64,
    pub auditor: String,
    pub severity: AuditSeverity,
    pub findings: Vec<SecurityFinding>,
    pub ai_summary: String,
    pub status: AuditStatus,
    pub metadata: AuditMetadata,
}

/// Mathematical view of a record.
#[verifier::ext_equal]
pub struct RecordV {
    pub id: Seq<char>,
    pub canister_id: Option<Seq<char>>,
    pub wasm_hash: Seq<char>,
    pub audit_timestamp: u64,
    pub auditor: Seq<char>,
    pub severity: AuditSeverity,
    pub findings: Seq<FindingV>,
    pub ai_summary: Seq<char>,
    pub status: AuditStatus,
    pub metadata: MetadataV,
}

impl View for AuditRecord {
    type V = RecordV;

    open spec fn view(&self) -> RecordV {
        RecordV {
            id: self.id@,
            canister_id: (match self.canister_id {
                Some(c) => Some(c@),
                None => None,
            }),
            wasm_hash: self.wasm_hash@,
            audit_timestamp: self.audit_timestamp,
            auditor: self.auditor@,
            severity: self.severity,
            findings: findings_view(self.findings@),
            ai_summary: self.ai_summary@,
            status: self.status,
            metadata: self.metadata@,
        }
    }
}

impl Clone for AuditRecord {
    fn clone(&self) -> (res: Self)
        ensures
            res@ == self@,
    {
        let findings = self.findings.clone();
        proof {
            assert(findings@ =~= self.findings@);
        }
        AuditRecord {
            id: self.id.clone(),
            canister_id: (match &self.canister_id {
                Some(c) => Some(c.clone()),
                None => None,
            }),
            wasm_hash: self.wasm_hash.clone(),
            audit_timestamp: self.audit_timestamp,
            auditor: self.auditor.clone(),
            severity: self.severity,
            findings,
            ai_summary: self.ai_summary.clone(),
            status: self.status,
            metadata: self.metadata.clone(),
        }
    }
}

/// A submission: the payload, an optional audited target, and an optional
/// metadata override.
#[derive(Debug)]
pub struct AuditRequest {
    pub canister_id: Option<String>,
    pub wasm_bytes: Vec<u8>,
    pub metadata: Option<AuditMetadata>,
}

/// Mathematical view of a submission.
#[verifier::ext_equal]
pub struct RequestV {
    pub canister_id: Option<Seq<char>>,
    pub wasm_bytes: Seq<u8>,
    pub metadata: Option<MetadataV>,
}

impl View for AuditRequest {
    type V = RequestV;

    open spec fn view(&self) -> RequestV {
        RequestV {
            canister_id: (match self.canister_id {
                Some(c) => Some(c@),
                None => None,
            }),
            wasm_bytes: self.wasm_bytes@,
            metadata: (match self.metadata {
                Some(m) => Some(m@),
                None => None,
            }),
        }
    }
}

/// The projection of a record used by list views: everything but the full
/// finding detail and the narrative.
#[derive(Debug)]
pub struct AuditSummary {
    pub id: String,
    pub canister_id: Option<String>,
    pub wasm_hash: String,
    pub audit_timestamp: u64,
    pub auditor: String,
    pub severity: AuditSeverity,
    pub findings_count: u32,
    pub status: AuditStatus,
}

/// Whether `s` is the summary projection of record view `r`. The finding
/// count narrows to 32 bits as the stored count does.
pub open spec fn summary_matches(s: AuditSummary, r: RecordV) -> bool {
    &&& s.id@ == r.id
    &&& (match s.canister_id {
        Some(c) => r.canister_id is Some && c@ == r.canister_id->0,
        None => r.canister_id is None,
    })
    &&& s.wasm_hash@ == r.wasm_hash
    &&& s.audit_timestamp == r.audit_timestamp
    &&& s.auditor@ == r.auditor
    &&& s.severity == r.severity
    &&& s.findings_count == r.findings.len() as u32
    &&& s.status == r.status
}

/// Builds the summary projection of a record.
pub fn summarize_record(r: &AuditRecord) -> (s: AuditSummary)
    ensures
        summary_matches(s, r@),
{
    AuditSummary {
        id: r.id.clone(),
        canister_id: (match &r.canister_id {
            Some(c) => Some(c.clone()),
            None => None,
        }),
        wasm_hash: r.wasm_hash.clone(),
        audit_timestamp: r.audit_timestamp,
        auditor: r.auditor.clone(),
        severity: r.severity,
        findings_count: #[verifier::truncate] (r.findings.len() as u32),
        status: r.status,
    }
}

} // verus!
