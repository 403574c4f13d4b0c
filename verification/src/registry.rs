//! The audit registry: creation, one-shot completion, point lookup,
//! filtered listing, and aggregate statistics over audit records.
//!
//! Records are held in insertion order and keyed by their identifier;
//! identifiers are unique across the store. A submission whose derived
//! identifier collides with an existing record overwrites it (last write
//! wins), as documented on the identifier derivation.
use vstd::prelude::*;

use crate::identity::{generate_audit_id, hash_wasm_bytes, spec_audit_id, spec_wasm_hash};
use crate::types::{
    AuditMetadata, AuditRecord, AuditRequest, AuditSeverity, AuditStatus, AuditSummary,
    FindingV, MetadataV, RecordV, RequestV, SecurityFinding, findings_view, summarize_record,
    summary_matches,
};

verus! {

/// Index of the first record with the given identifier, or -1 if none.
pub open spec fn find_idx(s: Seq<RecordV>, id: Seq<char>) -> int
    decreases s.len(),
{
    if s.len() == 0 {
        -1
    } else if s[0].id == id {
        0
    } else {
        let r = find_idx(s.drop_first(), id);
        if r < 0 {
            -1
        } else {
            r + 1
        }
    }
}

/// Whether some record carries the given identifier.
pub open spec fn has_id(s: Seq<RecordV>, id: Seq<char>) -> bool {
    find_idx(s, id) >= 0
}

pub proof fn lemma_find_idx_props(s: Seq<RecordV>, id: Seq<char>)
    ensures
        -1 <= find_idx(s, id) < s.len(),
        find_idx(s, id) == -1 ==> forall|j: int| 0 <= j < s.len() ==> (#[trigger] s[j]).id != id,
        find_idx(s, id) >= 0 ==> s[find_idx(s, id)].id == id && forall|j: int|
            0 <= j < find_idx(s, id) ==> (#[trigger] s[j]).id != id,
    decreases s.len(),
{
    if s.len() > 0 && s[0].id != id {
        lemma_find_idx_props(s.drop_first(), id);
        assert forall|j: int| 1 <= j < s.len() implies s[j] == s.drop_first()[j - 1] by {}
    }
}

pub proof fn lemma_find_idx_at(s: Seq<RecordV>, id: Seq<char>, i: int)
    requires
        0 <= i < s.len(),
        s[i].id == id,
        forall|j: int| 0 <= j < i ==> (#[trigger] s[j]).id != id,
    ensures
        find_idx(s, id) == i,
    decreases s.len(),
{
    if i > 0 {
        assert(s[0].id != id);
        assert(s.drop_first()[i - 1] == s[i]);
        assert forall|j: int| 0 <= j < i - 1 implies (#[trigger] s.drop_first()[j]).id != id by {
            assert(s.drop_first()[j] == s[j + 1]);
        }
        lemma_find_idx_at(s.drop_first(), id, i - 1);
    }
}

/// Well-formedness of the store: identifiers are unique.
pub open spec fn wf(s: Seq<RecordV>) -> bool {
    forall|i: int, j: int| 0 <= i < j < s.len() ==> (#[trigger] s[i]).id != (#[trigger] s[j]).id
}

/// The record a submission creates: fresh identifier and digest, empty
/// findings, placeholder severity and narrative, status `InProgress`.
/// Absent metadata defaults to the tool list and the payload's size, with
/// the size narrowed to 32 bits as the stored field is.
pub open spec fn spec_new_record(req: RequestV, auditor: Seq<char>, timestamp: u64) -> RecordV {
    RecordV {
        id: spec_audit_id(timestamp, auditor),
        canister_id: req.canister_id,
        wasm_hash: spec_wasm_hash(req.wasm_bytes),
        audit_timestamp: timestamp,
        auditor: auditor,
        severity: AuditSeverity::Info,
        findings: Seq::<FindingV>::empty(),
        ai_summary: "Audit in progress..."@,
        status: AuditStatus::InProgress,
        metadata: (match req.metadata {
            Some(m) => m,
            None => MetadataV {
                tools_used: seq!["AI Analysis"@],
                analysis_duration_ms: 0,
                lines_of_code: None,
                file_size_bytes: req.wasm_bytes.len() as u32,
            },
        }),
    }
}

/// What a submission does to the store: appends the new record, or
/// overwrites the record whose identifier collides with the derived one.
pub open spec fn spec_submit(
    s: Seq<RecordV>,
    req: RequestV,
    auditor: Seq<char>,
    timestamp: u64,
) -> Seq<RecordV> {
    let r = spec_new_record(req, auditor, timestamp);
    let i = find_idx(s, r.id);
    if i < 0 {
        s.push(r)
    } else {
        s.update(i, r)
    }
}

/// The record after completion: findings, narrative and severity
/// overwritten, status moved to the terminal `Completed`; identity,
/// digest, timestamp, requester and metadata untouched.
pub open spec fn completed_record(
    r0: RecordV,
    findings: Seq<FindingV>,
    ai_summary: Seq<char>,
    severity: AuditSeverity,
) -> RecordV {
    RecordV {
        id: r0.id,
        canister_id: r0.canister_id,
        wasm_hash: r0.wasm_hash,
        audit_timestamp: r0.audit_timestamp,
        auditor: r0.auditor,
        severity: severity,
        findings: findings,
        ai_summary: ai_summary,
        status: AuditStatus::Completed,
        metadata: r0.metadata,
    }
}

/// Whether completion may touch the store: the identifier is known and
/// its record has not yet reached a terminal status.
pub open spec fn can_complete(s: Seq<RecordV>, id: Seq<char>) -> bool {
    &&& find_idx(s, id) >= 0
    &&& s[find_idx(s, id)].status == AuditStatus::InProgress
}

/// What completion does to the store: nothing when the identifier is
/// unknown or its record is already terminal, else one record replaced by
/// its completed form.
pub open spec fn spec_complete(
    s: Seq<RecordV>,
    id: Seq<char>,
    findings: Seq<FindingV>,
    ai_summary: Seq<char>,
    severity: AuditSeverity,
) -> Seq<RecordV> {
    if !can_complete(s, id) {
        s
    } else {
        let i = find_idx(s, id);
        s.update(i, completed_record(s[i], findings, ai_summary, severity))
    }
}

/// The records submitted by the given requester, in insertion order.
pub open spec fn filter_by_auditor(s: Seq<RecordV>, auditor: Seq<char>) -> Seq<RecordV>
    decreases s.len(),
{
    if s.len() == 0 {
        Seq::<RecordV>::empty()
    } else {
        let rest = filter_by_auditor(s.drop_last(), auditor);
        if s.last().auditor == auditor {
            rest.push(s.last())
        } else {
            rest
        }
    }
}

/// Whether a record targets the given audited entity.
pub open spec fn targets_canister(r: RecordV, canister_id: Seq<char>) -> bool {
    r.canister_id is Some && r.canister_id->0 == canister_id
}

/// The records that target the given audited entity, in insertion order.
pub open spec fn filter_by_canister(s: Seq<RecordV>, canister_id: Seq<char>) -> Seq<RecordV>
    decreases s.len(),
{
    if s.len() == 0 {
        Seq::<RecordV>::empty()
    } else {
        let rest = filter_by_canister(s.drop_last(), canister_id);
        if targets_canister(s.last(), canister_id) {
            rest.push(s.last())
        } else {
            rest
        }
    }
}

/// How many records reached the terminal `Completed` status.
pub open spec fn count_completed(s: Seq<RecordV>) -> nat
    decreases s.len(),
{
    if s.len() == 0 {
        0
    } else {
        count_completed(s.drop_last()) + (if s.last().status == AuditStatus::Completed {
            1nat
        } else {
            0nat
        })
    }
}

/// How many records carry the given severity verdict.
pub open spec fn count_severity(s: Seq<RecordV>, sev: AuditSeverity) -> nat
    decreases s.len(),
{
    if s.len() == 0 {
        0
    } else {
        count_severity(s.drop_last(), sev) + (if s.last().severity == sev {
            1nat
        } else {
            0nat
        })
    }
}

/// The aggregate counts are consistent for every store: completed records
/// never outnumber all records, and records with Critical and High
/// verdicts together never outnumber all records.
pub proof fn lemma_statistics_consistent(s: Seq<RecordV>)
    ensures
        count_completed(s) <= s.len(),
        count_severity(s, AuditSeverity::Critical) + count_severity(s, AuditSeverity::High)
            <= s.len(),
    decreases s.len(),
{
    if s.len() > 0 {
        lemma_statistics_consistent(s.drop_last());
    }
}

/// After a submission and then a completion of the record it created, the
/// store holds, under the derived identifier, a record whose status is
/// `Completed` and whose findings, narrative and severity are exactly the
/// ones the completion supplied, on the identity the submission created.
pub proof fn lemma_submit_then_complete(
    s0: Seq<RecordV>,
    req: RequestV,
    auditor: Seq<char>,
    timestamp: u64,
    findings: Seq<FindingV>,
    ai_summary: Seq<char>,
    severity: AuditSeverity,
)
    requires
        wf(s0),
    ensures
        ({
            let id = spec_audit_id(timestamp, auditor);
            let s1 = spec_submit(s0, req, auditor, timestamp);
            let s2 = spec_complete(s1, id, findings, ai_summary, severity);
            &&& can_complete(s1, id)
            &&& has_id(s2, id)
            &&& s2[find_idx(s2, id)] == completed_record(
                spec_new_record(req, auditor, timestamp),
                findings,
                ai_summary,
                severity,
            )
        }),
{
    let id = spec_audit_id(timestamp, auditor);
    let r = spec_new_record(req, auditor, timestamp);
    let s1 = spec_submit(s0, req, auditor, timestamp);
    let i0 = find_idx(s0, id);
    lemma_find_idx_props(s0, id);
    if i0 >= 0 {
        lemma_find_idx_at(s1, id, i0);
    } else {
        lemma_find_idx_at(s1, id, s0.len() as int);
    }
    let i1 = find_idx(s1, id);
    assert(s1[i1] == r);
    let s2 = spec_complete(s1, id, findings, ai_summary, severity);
    assert(s2[i1] == completed_record(r, findings, ai_summary, severity));
    lemma_find_idx_at(s2, id, i1);
}

/// The audit registry: an owned, in-memory store of audit records in
/// insertion order.
pub struct AuditRegistry {
    records: Vec<AuditRecord>,
}

impl View for AuditRegistry {
    type V = Seq<RecordV>;

    closed spec fn view(&self) -> Seq<RecordV> {
        Seq::new(self.records@.len(), |i: int| self.records@[i]@)
    }
}

impl AuditRegistry {
    /// A fresh, empty registry.
    pub fn new() -> (r: AuditRegistry)
        ensures
            r@ == Seq::<RecordV>::empty(),
            wf(r@),
    {
        let r = AuditRegistry { records: Vec::new() };
        proof {
            assert(r@ =~= Seq::<RecordV>::empty());
        }
        r
    }

    /// Index of the record with the given identifier, if any.
    fn find_record(&self, audit_id: &String) -> (r: Option<usize>)
        ensures
            (match r {
                Some(i) => find_idx(self@, audit_id@) == i as int && (i as int) < self@.len()
                    && self.records@.len() == self@.len(),
                None => find_idx(self@, audit_id@) == -1,
            }),
    {
        let n = self.records.len();
        let mut i: usize = 0;
        while i < n
            invariant
                n == self.records@.len(),
                i <= n,
                self@.len() == n,
                forall|j: int| 0 <= j < i ==> (#[trigger] self@[j]).id != audit_id@,
            decreases n - i,
        {
            if self.records[i].id == *audit_id {
                proof {
                    assert(self@[i as int].id == audit_id@);
                    lemma_find_idx_at(self@, audit_id@, i as int);
                }
                return Some(i);
            }
            proof {
                assert(self@[i as int].id != audit_id@);
            }
            i = i + 1;
        }
        proof {
            lemma_find_idx_props(self@, audit_id@);
        }
        None
    }

    /// Stores a new `InProgress` record for the submitted payload and
    /// returns its derived identifier. A submission whose derived
    /// identifier collides with an existing record overwrites that record.
    pub fn submit_audit_request(
        &mut self,
        request: AuditRequest,
        auditor: String,
        timestamp: u64,
    ) -> (id: String)
        requires
            wf(old(self)@),
        ensures
            id@ == spec_audit_id(timestamp, auditor@),
            final(self)@ == spec_submit(old(self)@, request@, auditor@, timestamp),
            wf(final(self)@),
            has_id(final(self)@, id@),
    {
        let audit_id = generate_audit_id(timestamp, auditor.as_str());
        let wasm_hash = hash_wasm_bytes(request.wasm_bytes.as_slice());
        let size = #[verifier::truncate] (request.wasm_bytes.len() as u32);

        let metadata = match request.metadata {
            Some(m) => m,
            None => AuditMetadata {
                tools_used: vec![String::from_str("AI Analysis")],
                analysis_duration_ms: 0,
                lines_of_code: None,
                file_size_bytes: size,
            },
        };

        let audit_record = AuditRecord {
            id: audit_id.clone(),
            canister_id: request.canister_id,
            wasm_hash,
            audit_timestamp: timestamp,
            auditor,
            severity: AuditSeverity::Info,
            findings: Vec::new(),
            ai_summary: String::from_str("Audit in progress..."),
            status: AuditStatus::InProgress,
            metadata,
        };
        proof {
            assert(audit_record@ =~~= spec_new_record(request@, auditor@, timestamp));
        }

        match self.find_record(&audit_id) {
            Some(i) => {
                self.records.remove(i);
                self.records.insert(i, audit_record);
                proof {
                    let s0 = old(self)@;
                    lemma_find_idx_props(s0, audit_id@);
                    assert(self@ =~= s0.update(
                        find_idx(s0, audit_id@),
                        spec_new_record(request@, auditor@, timestamp),
                    ));
                    lemma_find_idx_at(self@, audit_id@, find_idx(s0, audit_id@));
                }
            },
            None => {
                self.records.push(audit_record);
                proof {
                    let s0 = old(self)@;
                    assert(self@ =~= s0.push(spec_new_record(request@, auditor@, timestamp)));
                    lemma_find_idx_props(s0, audit_id@);
                    lemma_find_idx_at(self@, audit_id@, s0.len() as int);
                }
            },
        }
        audit_id
    }

    /// Completes the record with the given identifier: overwrites its
    /// findings, narrative and severity and moves it to `Completed`.
    /// Returns false, leaving the store untouched, when the identifier is
    /// unknown or the record already reached a terminal status — a
    /// resumed operation learns here that the record vanished or was
    /// completed while it was suspended.
    ///
    /// The caller supplies the severity verdict already resolved from the
    /// findings, and only the `Completed` path is modeled here: a caller
    /// choosing `Failed` or `RequiresReview` needs an equivalent variant.
    pub fn update_audit_record(
        &mut self,
        audit_id: &String,
        findings: Vec<SecurityFinding>,
        ai_summary: String,
        severity: AuditSeverity,
    ) -> (ok: bool)
        requires
            wf(old(self)@),
        ensures
            ok == can_complete(old(self)@, audit_id@),
            final(self)@ == spec_complete(
                old(self)@,
                audit_id@,
                findings_view(findings@),
                ai_summary@,
                severity,
            ),
            !ok ==> final(self)@ == old(self)@,
            wf(final(self)@),
    {
        match self.find_record(audit_id) {
            Some(i) => {
                let still_in_progress = match self.records[i].status {
                    AuditStatus::InProgress => true,
                    _ => false,
                };
                if !still_in_progress {
                    proof {
                        assert(self@ =~= old(self)@);
                    }
                    return false;
                }
                let mut rec = self.records.remove(i);
                rec.findings = findings;
                rec.ai_summary = ai_summary;
                rec.severity = severity;
                rec.status = AuditStatus::Completed;
                self.records.insert(i, rec);
                proof {
                    let s0 = old(self)@;
                    lemma_find_idx_props(s0, audit_id@);
                    assert(rec@ =~~= completed_record(
                        s0[i as int],
                        findings_view(findings@),
                        ai_summary@,
                        severity,
                    ));
                    assert(self@ =~= spec_complete(
                        s0,
                        audit_id@,
                        findings_view(findings@),
                        ai_summary@,
                        severity,
                    ));
                }
                true
            },
            None => {
                proof {
                    assert(self@ =~= old(self)@);
                }
                false
            },
        }
    }

    /// Point lookup: a copy of the record, or absence for an unknown
    /// identifier.
    pub fn get_audit_record(&self, audit_id: &String) -> (r: Option<AuditRecord>)
        ensures
            (match r {
                Some(rec) => has_id(self@, audit_id@) && rec@ == self@[find_idx(self@, audit_id@)],
                None => !has_id(self@, audit_id@),
            }),
    {
        match self.find_record(audit_id) {
            Some(i) => Some(self.records[i].clone()),
            None => None,
        }
    }

    /// All records submitted by the given requester, as summaries, in
    /// insertion order.
    pub fn list_audits_by_auditor(&self, auditor: &String) -> (r: Vec<AuditSummary>)
        ensures
            r@.len() == filter_by_auditor(self@, auditor@).len(),
            forall|k: int| 0 <= k < r@.len() ==> summary_matches(
                #[trigger] r@[k],
                filter_by_auditor(self@, auditor@)[k],
            ),
    {
        let mut out: Vec<AuditSummary> = Vec::new();
        let n = self.records.len();
        let mut i: usize = 0;
        proof {
            assert(self@.take(0) =~= Seq::<RecordV>::empty());
        }
        while i < n
            invariant
                n == self.records@.len(),
                self@.len() == n,
                i <= n,
                out@.len() == filter_by_auditor(self@.take(i as int), auditor@).len(),
                forall|k: int| 0 <= k < out@.len() ==> summary_matches(
                    #[trigger] out@[k],
                    filter_by_auditor(self@.take(i as int), auditor@)[k],
                ),
            decreases n - i,
        {
            if self.records[i].auditor == *auditor {
                out.push(summarize_record(&self.records[i]));
            }
            proof {
                let t = self@.take(i + 1);
                assert(t.drop_last() =~= self@.take(i as int));
                assert(t.last() == self@[i as int]);
            }
            i = i + 1;
        }
        proof {
            assert(self@.take(n as int) =~= self@);
        }
        out
    }

    /// All records that target the given audited entity, as summaries, in
    /// insertion order.
    pub fn list_audits_by_canister(&self, canister_id: &String) -> (r: Vec<AuditSummary>)
        ensures
            r@.len() == filter_by_canister(self@, canister_id@).len(),
            forall|k: int| 0 <= k < r@.len() ==> summary_matches(
                #[trigger] r@[k],
                filter_by_canister(self@, canister_id@)[k],
            ),
    {
        let mut out: Vec<AuditSummary> = Vec::new();
        let n = self.records.len();
        let mut i: usize = 0;
        proof {
            assert(self@.take(0) =~= Seq::<RecordV>::empty());
        }
        while i < n
            invariant
                n == self.records@.len(),
                self@.len() == n,
                i <= n,
                out@.len() == filter_by_canister(self@.take(i as int), canister_id@).len(),
                forall|k: int| 0 <= k < out@.len() ==> summary_matches(
                    #[trigger] out@[k],
                    filter_by_canister(self@.take(i as int), canister_id@)[k],
                ),
            decreases n - i,
        {
            let matches_target = match &self.records[i].canister_id {
                Some(c) => *c == *canister_id,
                None => false,
            };
            proof {
                assert(matches_target == targets_canister(self@[i as int], canister_id@));
            }
            if matches_target {
                out.push(summarize_record(&self.records[i]));
            }
            proof {
                let t = self@.take(i + 1);
                assert(t.drop_last() =~= self@.take(i as int));
                assert(t.last() == self@[i as int]);
            }
            i = i + 1;
        }
        proof {
            assert(self@.take(n as int) =~= self@);
        }
        out
    }

    /// One consistent snapshot of the aggregate counts: total records,
    /// completed records, records with a Critical verdict, records with a
    /// High verdict.
    pub fn get_audit_statistics(&self) -> (r: (u64, u64, u64, u64))
        ensures
            r.0 == self@.len(),
            r.1 == count_completed(self@),
            r.2 == count_severity(self@, AuditSeverity::Critical),
            r.3 == count_severity(self@, AuditSeverity::High),
            r.1 <= r.0,
            r.2 + r.3 <= r.0,
    {
        let n = self.records.len();
        let mut completed: u64 = 0;
        let mut critical: u64 = 0;
        let mut high: u64 = 0;
        let mut i: usize = 0;
        proof {
            assert(self@.take(0) =~= Seq::<RecordV>::empty());
        }
        while i < n
            invariant
                n == self.records@.len(),
                self@.len() == n,
                i <= n,
                completed == count_completed(self@.take(i as int)),
                critical == count_severity(self@.take(i as int), AuditSeverity::Critical),
                high == count_severity(self@.take(i as int), AuditSeverity::High),
                completed <= i,
                critical + high <= i,
            decreases n - i,
        {
            if self.records[i].status == AuditStatus::Completed {
                completed = completed + 1;
            }
            if self.records[i].severity == AuditSeverity::Critical {
                critical = critical + 1;
            }
            if self.records[i].severity == AuditSeverity::High {
                high = high + 1;
            }
            proof {
                let t = self@.take(i + 1);
                assert(t.drop_last() =~= self@.take(i as int));
                assert(t.last() == self@[i as int]);
            }
            i = i + 1;
        }
        proof {
            assert(self@.take(n as int) =~= self@);
        }
        (n as u64, completed, critical, high)
    }

    /// Summary lookup: the list-view projection of the record, or absence
    /// for an unknown identifier.
    pub fn get_audit_summary(&self, audit_id: &String) -> (r: Option<AuditSummary>)
        ensures
            (match r {
                Some(s) => has_id(self@, audit_id@) && summary_matches(
                    s,
                    self@[find_idx(self@, audit_id@)],
                ),
                None => !has_id(self@, audit_id@),
            }),
    {
        match self.find_record(audit_id) {
            Some(i) => Some(summarize_record(&self.records[i])),
            None => None,
        }
    }
}

} // verus!
