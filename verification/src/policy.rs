//! The policy client: asks an external decision service whether a module
//! may run, and reads its verdict.

use vstd::prelude::*;

verus! {

/// What came of sending a request to the policy service.
pub enum HttpOutcome {
    /// The request could not be sent, or no response could be read.
    Failed,
    /// The service answered with this status code and this body.
    Response(u16, String),
}

/// What came of a request, as mathematical values.
pub enum HttpOutcomeView {
    Failed,
    Response(u16, Seq<char>),
}

impl View for HttpOutcome {
    type V = HttpOutcomeView;

    open spec fn view(&self) -> HttpOutcomeView {
        match self {
            HttpOutcome::Failed => HttpOutcomeView::Failed,
            HttpOutcome::Response(status, body) => HttpOutcomeView::Response(*status, body@),
        }
    }
}

/// Why the policy service does not authorize the module.
#[derive(Clone, Copy, Debug, PartialEq, Eq, Structural)]
pub enum PolicyViolation {
    /// The request could not be made or answered.
    TransportFailure,
    /// The service answered with a status outside 200..=299.
    NonSuccessStatus,
    /// The service answered that the module is not allowed.
    Denied,
    /// The service answered with a body that holds no verdict.
    UndecodableReply,
}

/// The decision on a module, as the bootstrap records it.
#[derive(Clone, Copy, Debug, PartialEq, Eq, Structural)]
pub enum PolicyVerdict {
    /// The service allowed the module.
    Allowed,
    /// The service did not allow the module.
    Denied,
    /// No policy endpoint is configured: nothing was asked.
    NotRequested,
}

/// The JSON text of an object with the one member `key`, whose value is the
/// string `value`.
pub uninterp spec fn json_string_member(key: Seq<char>, value: Seq<char>) -> Seq<char>;

/// The Boolean that the JSON text `text` holds under the member `key` of its
/// top-level object; `None` where `text` is no JSON, is no object, has no
/// such member, or holds something else than a Boolean there.
pub uninterp spec fn json_bool_member(text: Seq<char>, key: Seq<char>) -> Option<bool>;

/// The view of an optional string.
pub open spec fn opt_string_view(s: Option<String>) -> Option<Seq<char>> {
    match s {
        Some(text) => Some(text@),
        None => None,
    }
}

/// Calls `serde_json::to_string` on a `serde_json::Value` that is an object
/// with the single member `key`, a string. The contract names the text that
/// the serializer gives for these two strings, and says that it gives one:
/// the serializer writes into a vector of bytes, and an object of strings
/// gives it nothing to refuse.
#[verifier::external_body]
fn json_object_with_string(key: &str, value: &str) -> (res: Option<String>)
    ensures
        opt_string_view(res) == Some(json_string_member(key@, value@)),
{
    let mut object = serde_json::Map::new();
    object.insert(key.to_owned(), serde_json::Value::String(value.to_owned()));
    serde_json::to_string(&serde_json::Value::Object(object)).ok()
}

/// Calls `serde_json::from_str` for a `serde_json::Value`, then
/// `Value::get` with `key` and `Value::as_bool` on what it finds. The
/// contract only names the Boolean that these give for the two strings. A
/// member that the text gives more than once counts with its last value.
#[verifier::external_body]
fn json_bool_field(text: &str, key: &str) -> (res: Option<bool>)
    ensures
        res == json_bool_member(text@, key@),
{
    match serde_json::from_str::<serde_json::Value>(text) {
        Ok(value) => value.get(key).and_then(|field| field.as_bool()),
        Err(_) => None,
    }
}

/// Whether an HTTP status code reports success.
pub open spec fn is_success(status: u16) -> bool {
    200 <= status <= 299
}

/// What a response of the policy service is worth before its body is read:
/// the body of a successful response, or the violation.
pub open spec fn classified(outcome: HttpOutcomeView) -> Result<Seq<char>, PolicyViolation> {
    match outcome {
        HttpOutcomeView::Failed => Err(PolicyViolation::TransportFailure),
        HttpOutcomeView::Response(status, body) => if is_success(status) {
            Ok(body)
        } else {
            Err(PolicyViolation::NonSuccessStatus)
        },
    }
}

/// What the decoded verdict of the service means.
pub open spec fn decided(allow: Option<bool>) -> Result<(), PolicyViolation> {
    match allow {
        Some(true) => Ok(()),
        Some(false) => Err(PolicyViolation::Denied),
        None => Err(PolicyViolation::UndecodableReply),
    }
}

/// What the outcome of the request means for the module.
pub open spec fn judged(outcome: HttpOutcomeView) -> Result<(), PolicyViolation> {
    match classified(outcome) {
        Ok(body) => decided(json_bool_member(body, "allow"@)),
        Err(violation) => Err(violation),
    }
}

/// The view of a result that carries a string.
pub open spec fn text_result_view(res: Result<String, PolicyViolation>) -> Result<
    Seq<char>,
    PolicyViolation,
> {
    match res {
        Ok(text) => Ok(text@),
        Err(violation) => Err(violation),
    }
}

impl PolicyViolation {
    /// The text of the violation.
    pub open spec fn spec_message(self) -> Seq<char> {
        match self {
            PolicyViolation::TransportFailure => "transport failure"@,
            PolicyViolation::NonSuccessStatus => "policy service returned non-success status"@,
            PolicyViolation::Denied => "denied"@,
            PolicyViolation::UndecodableReply => "policy service reply holds no verdict"@,
        }
    }

    /// The text of the violation.
    pub fn message(&self) -> (text: String)
        ensures
            text@ == self.spec_message(),
    {
        match self {
            PolicyViolation::TransportFailure => "transport failure".to_owned(),
            PolicyViolation::NonSuccessStatus => {
                "policy service returned non-success status".to_owned()
            },
            PolicyViolation::Denied => "denied".to_owned(),
            PolicyViolation::UndecodableReply => "policy service reply holds no verdict".to_owned(),
        }
    }
}

impl PolicyVerdict {
    /// The verdict that stands for the result of a policy check: not
    /// requested where no endpoint is configured, else allowed or denied.
    pub open spec fn spec_of(configured: bool, result: Result<(), PolicyViolation>) -> PolicyVerdict {
        if !configured {
            PolicyVerdict::NotRequested
        } else if result is Ok {
            PolicyVerdict::Allowed
        } else {
            PolicyVerdict::Denied
        }
    }

    /// The verdict that stands for the result of a policy check.
    pub fn of(configured: bool, result: &Result<(), PolicyViolation>) -> (verdict: PolicyVerdict)
        ensures
            verdict == Self::spec_of(configured, *result),
    {
        if !configured {
            PolicyVerdict::NotRequested
        } else {
            match result {
                Ok(_) => PolicyVerdict::Allowed,
                Err(_) => PolicyVerdict::Denied,
            }
        }
    }
}

/// Classifies the outcome of the request: the body of a response with a
/// status in 200..=299, else the violation.
pub fn classify_response(outcome: HttpOutcome) -> (res: Result<String, PolicyViolation>)
    ensures
        text_result_view(res) == classified(outcome@),
{
    match outcome {
        HttpOutcome::Failed => Err(PolicyViolation::TransportFailure),
        HttpOutcome::Response(status, body) => {
            if 200 <= status && status <= 299 {
                Ok(body)
            } else {
                Err(PolicyViolation::NonSuccessStatus)
            }
        },
    }
}

/// Says what a decoded verdict means: allowed only where the service said
/// so.
pub fn decide(allow: Option<bool>) -> (res: Result<(), PolicyViolation>)
    ensures
        res == decided(allow),
{
    match allow {
        Some(true) => Ok(()),
        Some(false) => Err(PolicyViolation::Denied),
        None => Err(PolicyViolation::UndecodableReply),
    }
}

/// Reads the verdict from the body of a successful response.
pub fn read_verdict(body: &str) -> (res: Result<(), PolicyViolation>)
    ensures
        res == decided(json_bool_member(body@, "allow"@)),
{
    decide(json_bool_field(body, "allow"))
}

/// The body of the request that carries `token` to the policy service:
/// the JSON object whose member `token` is that string.
pub fn request_body(token: &str) -> (body: String)
    ensures
        body@ == json_string_member("token"@, token@),
{
    match json_object_with_string("token", token) {
        Some(body) => body,
        None => vstd::pervasive::unreached(),
    }
}

/// Posts `token` to the policy service at `url`, by one call of `send` with
/// the URL and the request body, and hands back the body of a successful
/// response.
pub fn post_json<S: FnOnce(&String, &String) -> HttpOutcome>(
    url: &String,
    token: &str,
    send: S,
) -> (res: Result<String, PolicyViolation>)
    requires
        forall|body: &String| send.requires((url, body)),
    ensures
        exists|body: &String, outcome: HttpOutcome|
            {
                &&& body@ == json_string_member("token"@, token@)
                &&& #[trigger] send.ensures((url, body), outcome)
                &&& text_result_view(res) == classified(outcome@)
            },
{
    let body = request_body(token);
    let outcome = send(url, &body);
    let ghost sent = outcome;
    let res = classify_response(outcome);
    assert(send.ensures((url, &body), sent));
    res
}

/// Checks the module's token with the policy service. Without a configured
/// endpoint the module passes and nothing is sent. With one, the token is
/// posted once, and the module passes only where the service answers with
/// success and allows it.
pub fn check_token_with_opa<S: FnOnce(&String, &String) -> HttpOutcome>(
    opa_url: Option<&String>,
    jwt: &str,
    send: S,
) -> (res: Result<(), PolicyViolation>)
    requires
        opa_url matches Some(url) ==> forall|body: &String| send.requires((url, body)),
    ensures
        match opa_url {
            None => res is Ok,
            Some(url) => exists|body: &String, outcome: HttpOutcome|
                {
                    &&& body@ == json_string_member("token"@, jwt@)
                    &&& #[trigger] send.ensures((url, body), outcome)
                    &&& res == judged(outcome@)
                },
        },
{
    match opa_url {
        None => Ok(()),
        Some(url) => match post_json(url, jwt, send) {
            Ok(reply) => read_verdict(reply.as_str()),
            Err(violation) => Err(violation),
        },
    }
}

} // verus!
