//! The boundary to the generative-analysis backend: prompt construction,
//! classification of what the backend returned, and the deterministic
//! canned responses used when it is unreachable or returns nothing.
//!
//! The backend call itself (a remote, suspending operation) lives outside
//! the core; the core only decides, from the outcome handed back as a
//! plain value, what the caller receives.
use vstd::prelude::*;

use crate::analysis::{CodeMetrics, StaticFinding, StaticFindingV, sfindings_view};
use crate::text::{contains_sub, dec_str, lower_of, spec_contains, to_lowercase, u64_to_string};

verus! {

/// Why a backend call yielded nothing usable.
#[derive(Clone, Copy, PartialEq, Eq, Structural, Debug)]
pub enum LlmError {
    ServiceUnavailable,
    Timeout,
    EmptyResponse,
}

impl LlmError {
    /// A human-readable description of the error.
    pub fn message(&self) -> (r: String)
        ensures
            r@ == (match *self {
                LlmError::ServiceUnavailable => "LLM service is currently unavailable"@,
                LlmError::Timeout => "LLM service request timed out"@,
                LlmError::EmptyResponse => "LLM service returned an empty response"@,
            }),
    {
        match self {
            LlmError::ServiceUnavailable => String::from_str(
                "LLM service is currently unavailable",
            ),
            LlmError::Timeout => String::from_str("LLM service request timed out"),
            LlmError::EmptyResponse => String::from_str("LLM service returned an empty response"),
        }
    }
}

/// Classifies a raw backend reply: an empty reply counts as no reply at
/// all.
pub fn classify_llm_response(response: String) -> (r: Result<String, LlmError>)
    ensures
        response@.len() > 0 ==> r == Ok::<String, LlmError>(response),
        response@.len() == 0 ==> r == Err::<String, LlmError>(LlmError::EmptyResponse),
{
    if response.as_str().is_empty() {
        Err(LlmError::EmptyResponse)
    } else {
        Ok(response)
    }
}

/// Classifies a chat reply's optional content: absent content counts as
/// an empty response.
pub fn classify_chat_content(content: Option<String>) -> (r: Result<String, LlmError>)
    ensures
        (match content {
            Some(c) => r == Ok::<String, LlmError>(c),
            None => r == Err::<String, LlmError>(LlmError::EmptyResponse),
        }),
{
    match content {
        Some(c) => Ok(c),
        None => Err(LlmError::EmptyResponse),
    }
}

/// The comma-separated "message (category)" list of a findings sequence.
pub open spec fn findings_list(fs: Seq<StaticFindingV>) -> Seq<char>
    decreases fs.len(),
{
    if fs.len() == 0 {
        Seq::<char>::empty()
    } else if fs.len() == 1 {
        fs[0].message + " ("@ + fs[0].category + ")"@
    } else {
        findings_list(fs.drop_last()) + ", "@ + fs.last().message + " ("@ + fs.last().category
            + ")"@
    }
}

/// The one-line digest of the static findings that the prompt carries.
pub open spec fn findings_summary(fs: Seq<StaticFindingV>) -> Seq<char> {
    if fs.len() == 0 {
        "No static analysis findings detected."@
    } else {
        "Static analysis identified "@ + dec_str(fs.len()) + " potential issues: "@
            + findings_list(fs)
    }
}

/// The whole security-audit prompt for the generative backend.
pub open spec fn spec_audit_prompt(
    hash: Seq<char>,
    m: CodeMetrics,
    fs: Seq<StaticFindingV>,
) -> Seq<char> {
    "You are a canister security auditor analyzing a WASM binary.\n        \nWASM Hash: "@ + hash
        + "\nFile Size: "@ + dec_str(m.file_size_bytes as nat) + " bytes\nEstimated Lines of Code: "@
        + dec_str(m.estimated_lines_of_code as nat) + "\nFunction Count: "@ + dec_str(
        m.function_count as nat,
    ) + "\nComplexity Score: "@ + dec_str(m.complexity_score as nat)
        + "\n\nStatic Analysis Results: "@ + findings_summary(fs)
        + "\n\nPlease provide a comprehensive security analysis focusing on:\n1. Potential security vulnerabilities specific to Internet Computer canisters\n2. Code quality and maintainability concerns\n3. Performance and cycle consumption issues\n4. Recommendations for improvement\n\nFormat your response as a structured analysis with clear sections for each concern."@
}

/// Builds the security-audit prompt naming the digest, the structural
/// metrics and a digest of the static findings.
pub fn create_security_audit_prompt(
    wasm_hash: &str,
    metrics: &CodeMetrics,
    static_findings: &Vec<StaticFinding>,
) -> (r: String)
    ensures
        r@ == spec_audit_prompt(wasm_hash@, *metrics, sfindings_view(static_findings@)),
{
    let ghost fsv = sfindings_view(static_findings@);
    let n = static_findings.len();

    let mut list = String::new();
    let mut i: usize = 0;
    proof {
        assert(list@ =~= findings_list(fsv.take(0)));
    }
    while i < n
        invariant
            n == static_findings@.len(),
            i <= n,
            list@ == findings_list(sfindings_view(static_findings@).take(i as int)),
        decreases n - i,
    {
        if i > 0 {
            list.append(", ");
        }
        list.append(static_findings[i].message.as_str());
        list.append(" (");
        list.append(static_findings[i].category.as_str());
        list.append(")");
        proof {
            let v = sfindings_view(static_findings@);
            let t = v.take(i + 1);
            assert(t.drop_last() =~= v.take(i as int));
            assert(t.last() == v[i as int]);
            assert(list@ =~= findings_list(t));
        }
        i = i + 1;
    }
    proof {
        assert(fsv.take(n as int) =~= fsv);
    }

    let mut summary = String::new();
    if n == 0 {
        summary.append("No static analysis findings detected.");
    } else {
        summary.append("Static analysis identified ");
        let c = u64_to_string(n as u64);
        summary.append(c.as_str());
        summary.append(" potential issues: ");
        summary.append(list.as_str());
    }
    proof {
        assert(summary@ =~= findings_summary(fsv));
    }

    let mut prompt = String::from_str(
        "You are a canister security auditor analyzing a WASM binary.\n        \nWASM Hash: ",
    );
    prompt.append(wasm_hash);
    prompt.append("\nFile Size: ");
    let size_s = u64_to_string(metrics.file_size_bytes as u64);
    prompt.append(size_s.as_str());
    prompt.append(" bytes\nEstimated Lines of Code: ");
    let lines_s = u64_to_string(metrics.estimated_lines_of_code as u64);
    prompt.append(lines_s.as_str());
    prompt.append("\nFunction Count: ");
    let fns_s = u64_to_string(metrics.function_count as u64);
    prompt.append(fns_s.as_str());
    prompt.append("\nComplexity Score: ");
    let cplx_s = u64_to_string(metrics.complexity_score as u64);
    prompt.append(cplx_s.as_str());
    prompt.append("\n\nStatic Analysis Results: ");
    prompt.append(summary.as_str());
    prompt.append(
        "\n\nPlease provide a comprehensive security analysis focusing on:\n1. Potential security vulnerabilities specific to Internet Computer canisters\n2. Code quality and maintainability concerns\n3. Performance and cycle consumption issues\n4. Recommendations for improvement\n\nFormat your response as a structured analysis with clear sections for each concern.",
    );
    proof {
        assert(prompt@ =~= spec_audit_prompt(wasm_hash@, *metrics, fsv));
    }
    prompt
}

/// The prompt the recommendation endpoint sends to the generative
/// backend for a given service description.
pub open spec fn spec_recommendations_prompt(description: Seq<char>) -> Seq<char> {
    "You are a canister security expert. Provide security recommendations for a canister with this description: "@
        + description
        + "\n        \n        Focus on:\n        1. Access control best practices\n        2. Cycle management and DoS prevention\n        3. Input validation and sanitization\n        4. Inter-canister call security\n        5. Data storage and privacy considerations\n        \n        Provide practical, actionable recommendations."@
}

/// Builds the prompt asking the generative backend for security
/// recommendations on a described service.
pub fn create_recommendations_prompt(description: &str) -> (r: String)
    ensures
        r@ == spec_recommendations_prompt(description@),
{
    let mut r = String::from_str(
        "You are a canister security expert. Provide security recommendations for a canister with this description: ",
    );
    r.append(description);
    r.append(
        "\n        \n        Focus on:\n        1. Access control best practices\n        2. Cycle management and DoS prevention\n        3. Input validation and sanitization\n        4. Inter-canister call security\n        5. Data storage and privacy considerations\n        \n        Provide practical, actionable recommendations.",
    );
    proof {
        assert(r@ =~= spec_recommendations_prompt(description@));
    }
    r
}

/// The canned recommendation text for a description whose case-folded
/// form is `lower`: five baseline items, three more for token/finance
/// descriptions, three more for data/storage descriptions, wrapped in a
/// fixed header and an unavailability note.
pub open spec fn fallback_recs_text(lower: Seq<char>) -> Seq<char> {
    "Security Recommendations:\n\n"@
        + "\u{2022} Implement proper access controls with caller verification\n"@
        + "\u{2022} Add cycle balance monitoring and limits to prevent exhaustion\n"@
        + "\u{2022} Validate all input parameters thoroughly\n"@
        + "\u{2022} Use secure patterns for inter-canister calls\n"@
        + "\u{2022} Implement proper error handling and logging"@ + (if spec_contains(
        lower,
        "token"@,
    ) || spec_contains(lower, "finance"@) {
        "\n\u{2022} Implement anti-reentrancy protection\n\u{2022} Add transaction amount limits and rate limiting\n\u{2022} Use certified data for critical state"@
    } else {
        Seq::<char>::empty()
    }) + (if spec_contains(lower, "data"@) || spec_contains(lower, "storage"@) {
        "\n\u{2022} Encrypt sensitive data at rest\n\u{2022} Implement proper data retention policies\n\u{2022} Use stable storage for persistent data"@
    } else {
        Seq::<char>::empty()
    })
        + "\n\n\u{26a0}\u{fe0f} Note: AI analysis is temporarily unavailable. These are general best practice recommendations."@
}

/// Builds the canned recommendations from an already case-folded
/// description.
pub fn fallback_recommendations_for(lower: &str) -> (r: String)
    ensures
        r@ == fallback_recs_text(lower@),
{
    let mut r = String::from_str("Security Recommendations:\n\n");
    r.append("\u{2022} Implement proper access controls with caller verification\n");
    r.append("\u{2022} Add cycle balance monitoring and limits to prevent exhaustion\n");
    r.append("\u{2022} Validate all input parameters thoroughly\n");
    r.append("\u{2022} Use secure patterns for inter-canister calls\n");
    r.append("\u{2022} Implement proper error handling and logging");
    if contains_sub(lower, "token") || contains_sub(lower, "finance") {
        r.append(
            "\n\u{2022} Implement anti-reentrancy protection\n\u{2022} Add transaction amount limits and rate limiting\n\u{2022} Use certified data for critical state",
        );
    }
    if contains_sub(lower, "data") || contains_sub(lower, "storage") {
        r.append(
            "\n\u{2022} Encrypt sensitive data at rest\n\u{2022} Implement proper data retention policies\n\u{2022} Use stable storage for persistent data",
        );
    }
    r.append(
        "\n\n\u{26a0}\u{fe0f} Note: AI analysis is temporarily unavailable. These are general best practice recommendations.",
    );
    proof {
        assert(r@ =~= fallback_recs_text(lower@));
    }
    r
}

/// Builds the canned recommendations for a description, matching its
/// keywords case-insensitively.
pub fn get_fallback_recommendations(description: &str) -> (r: String)
    ensures
        r@ == fallback_recs_text(lower_of(description@)),
{
    let lower = to_lowercase(description);
    fallback_recommendations_for(lower.as_str())
}

/// The canned reply for a prompt whose case-folded form is `lower`:
/// keyed on security, vulnerability and greeting keywords, with a fixed
/// default.
pub open spec fn fallback_response_text(lower: Seq<char>) -> Seq<char> {
    if spec_contains(lower, "security"@) || spec_contains(lower, "audit"@) {
        "I'm a canister security auditor. While my AI capabilities are temporarily unavailable, I recommend reviewing the Internet Computer security documentation and conducting thorough testing of your canister code."@
    } else if spec_contains(lower, "vulnerability"@) || spec_contains(lower, "exploit"@) {
        "Common canister vulnerabilities include: improper access controls, cycle exhaustion attacks, and unsafe inter-canister calls. Please review your code for these patterns."@
    } else if spec_contains(lower, "hello"@) || spec_contains(lower, "hi"@) {
        "Hello! I'm Canispect, your AI-powered canister auditor. I can help you analyze WASM binaries for security vulnerabilities and provide recommendations."@
    } else {
        "I'm Canispect, an AI-powered security auditor for Internet Computer canisters. I analyze WASM binaries and provide security recommendations. How can I help you secure your canister today?"@
    }
}

/// Picks the canned reply for an already case-folded prompt.
pub fn fallback_response_for(lower: &str) -> (r: String)
    ensures
        r@ == fallback_response_text(lower@),
{
    if contains_sub(lower, "security") || contains_sub(lower, "audit") {
        String::from_str(
            "I'm a canister security auditor. While my AI capabilities are temporarily unavailable, I recommend reviewing the Internet Computer security documentation and conducting thorough testing of your canister code.",
        )
    } else if contains_sub(lower, "vulnerability") || contains_sub(lower, "exploit") {
        String::from_str(
            "Common canister vulnerabilities include: improper access controls, cycle exhaustion attacks, and unsafe inter-canister calls. Please review your code for these patterns.",
        )
    } else if contains_sub(lower, "hello") || contains_sub(lower, "hi") {
        String::from_str(
            "Hello! I'm Canispect, your AI-powered canister auditor. I can help you analyze WASM binaries for security vulnerabilities and provide recommendations.",
        )
    } else {
        String::from_str(
            "I'm Canispect, an AI-powered security auditor for Internet Computer canisters. I analyze WASM binaries and provide security recommendations. How can I help you secure your canister today?",
        )
    }
}

/// Picks the canned reply for a prompt, matching its keywords
/// case-insensitively.
pub fn get_fallback_response(prompt: &str) -> (r: String)
    ensures
        r@ == fallback_response_text(lower_of(prompt@)),
{
    let lower = to_lowercase(prompt);
    fallback_response_for(lower.as_str())
}

/// What the recommendation endpoint returns: the backend's reply when
/// there is one, else the canned recommendations for the description.
pub fn recommendations_or_fallback(description: &str, llm: Result<String, LlmError>)
    -> (r: String)
    ensures
        (match llm {
            Ok(s) => r@ == s@,
            Err(_) => r@ == fallback_recs_text(lower_of(description@)),
        }),
{
    match llm {
        Ok(s) => s,
        Err(_) => get_fallback_recommendations(description),
    }
}

/// What the prompt endpoint returns: the backend's reply when there is
/// one, else the canned reply for the prompt.
pub fn prompt_or_fallback(prompt: &str, llm: Result<String, LlmError>) -> (r: String)
    ensures
        (match llm {
            Ok(s) => r@ == s@,
            Err(_) => r@ == fallback_response_text(lower_of(prompt@)),
        }),
{
    match llm {
        Ok(s) => s,
        Err(_) => get_fallback_response(prompt),
    }
}

/// What the chat endpoint returns: the backend's reply when there is one,
/// else a fixed apology.
pub fn chat_or_fallback(llm: Result<String, LlmError>) -> (r: String)
    ensures
        (match llm {
            Ok(s) => r@ == s@,
            Err(_) => r@
                == "I apologize, but I'm currently experiencing technical difficulties and cannot process your chat request. Please try again in a few moments."@,
        }),
{
    match llm {
        Ok(s) => s,
        Err(_) => String::from_str(
            "I apologize, but I'm currently experiencing technical difficulties and cannot process your chat request. Please try again in a few moments.",
        ),
    }
}

/// The greeting the service answers a name with.
pub fn greet(name: String) -> (r: String)
    ensures
        r@ == "Hello, "@ + name@
            + "! Welcome to Canispect - Your AI-powered canister security auditor."@,
{
    let mut r = String::from_str("Hello, ");
    r.append(name.as_str());
    r.append("! Welcome to Canispect - Your AI-powered canister security auditor.");
    r
}

} // verus!
