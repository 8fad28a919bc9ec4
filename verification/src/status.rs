//! Reading a deployment-status reply.

use vstd::prelude::*;
use serde_json::Value;
use crate::text::same_text;

verus! {

/// A JSON document as the hardware service returns it. Nothing inside it is
/// visible to the verifier; it is read through `Value::get` and
/// `Value::as_str`, and what those show of it is called [`json_texts`].
#[verifier::external_type_specification]
#[verifier::external_body]
pub struct ExValue(serde_json::Value);

/// The texts that a document holds, each under the path of object keys that
/// leads to it: a JSON string holds its text under the empty path, an object
/// holds under `key` followed by `path` what its member `key` holds under
/// `path`, and every other value holds nothing.
pub uninterp spec fn json_texts(value: Value) -> Map<Seq<Seq<char>>, Seq<char>>;

/// The part of `texts` that lies under `key`, with `key` taken off each path.
pub open spec fn texts_under(texts: Map<Seq<Seq<char>>, Seq<char>>, key: Seq<char>) -> Map<
    Seq<Seq<char>>,
    Seq<char>,
> {
    Map::new(
        |path: Seq<Seq<char>>| texts.contains_key(seq![key] + path),
        |path: Seq<Seq<char>>| texts[seq![key] + path],
    )
}

/// `serde_json::Value::get` with a string key. Where it finds a member, the
/// member holds what the document holds under the key; where it finds none
/// (the document is no object, or lacks the key), the document holds nothing
/// under the key. The call does not panic.
#[verifier::external_body]
fn member<'a>(value: &'a Value, key: &str) -> (found: Option<&'a Value>)
    ensures
        match found {
            Some(inner) => json_texts(*inner) == texts_under(json_texts(*value), key@),
            None => forall|path: Seq<Seq<char>>|
                !(#[trigger] json_texts(*value).contains_key(seq![key@] + path)),
        },
{
    value.get(key)
}

/// `serde_json::Value::as_str`. The result is the text of a JSON string,
/// which the value holds under the empty path, and `None` for every other
/// kind of value, which holds nothing there. The call does not panic.
#[verifier::external_body]
fn text_of<'a>(value: &'a Value) -> (text: Option<&'a str>)
    ensures
        match text {
            Some(t) => json_texts(*value).contains_key(Seq::empty()) && json_texts(
                *value,
            )[Seq::empty()] == t@,
            None => !json_texts(*value).contains_key(Seq::empty()),
        },
{
    value.as_str()
}

/// What a reply reports about the antennas as a whole.
#[derive(Clone, Copy, Debug, PartialEq, Eq, Structural)]
pub enum DeploymentStatus {
    /// The reply says exactly `STOWED`.
    Stowed,
    /// The reply says exactly `DEPLOYED`.
    Deployed,
    /// Anything else: another word, a value that is no string, no status at all.
    Unknown,
}

/// The word by which the service reports that every antenna is out.
pub open spec fn deployed_token() -> Seq<char> {
    "DEPLOYED"@
}

/// The word by which the service reports that the antennas are still folded.
pub open spec fn stowed_token() -> Seq<char> {
    "STOWED"@
}

/// The path of the aggregate status in a reply: `deploymentStatus`, then
/// `status`.
pub open spec fn status_path() -> Seq<Seq<char>> {
    seq!["deploymentStatus"@, "status"@]
}

/// The text found at `deploymentStatus.status` in a reply, if both members
/// exist and the inner one is a JSON string.
pub open spec fn status_text(response: Value) -> Option<Seq<char>> {
    if json_texts(response).contains_key(status_path()) {
        Some(json_texts(response)[status_path()])
    } else {
        None
    }
}

/// Whether a status field, as far as one was found, is exactly `token`.
pub open spec fn spec_status_matches(field: Option<Seq<char>>, token: Seq<char>) -> bool {
    field == Some(token)
}

/// The status that a field's text stands for.
pub open spec fn spec_classify(field: Option<Seq<char>>) -> DeploymentStatus {
    if field == Some(deployed_token()) {
        DeploymentStatus::Deployed
    } else if field == Some(stowed_token()) {
        DeploymentStatus::Stowed
    } else {
        DeploymentStatus::Unknown
    }
}

/// Whether a reply reports full deployment.
pub open spec fn spec_is_deployed(response: Value) -> bool {
    status_text(response) == Some(deployed_token())
}

/// What a probe yields: a reply that reports full deployment, and nothing less.
pub open spec fn spec_probe_result(reply: Option<Value>) -> bool {
    match reply {
        Some(response) => spec_is_deployed(response),
        None => false,
    }
}

/// The two tokens, letter by letter. They differ, and both are upper case.
pub proof fn lemma_tokens()
    ensures
        deployed_token() =~= seq!['D', 'E', 'P', 'L', 'O', 'Y', 'E', 'D'],
        stowed_token() =~= seq!['S', 'T', 'O', 'W', 'E', 'D'],
        deployed_token() != stowed_token(),
{
    reveal_strlit("DEPLOYED");
    reveal_strlit("STOWED");
    assert(deployed_token().len() != stowed_token().len());
}

/// Compares an extracted status field with a token, exactly and with regard
/// to case. An absent field matches nothing.
pub fn status_matches(field: Option<&str>, token: &str) -> (matches: bool)
    ensures
        matches == spec_status_matches(
            match field {
                Some(text) => Some(text@),
                None => None,
            },
            token@,
        ),
{
    match field {
        Some(text) => same_text(text, token),
        None => false,
    }
}

/// Sorts an extracted status field into one of the three statuses.
pub fn classify(field: Option<&str>) -> (status: DeploymentStatus)
    ensures
        status == spec_classify(
            match field {
                Some(text) => Some(text@),
                None => None,
            },
        ),
{
    if status_matches(field, "DEPLOYED") {
        DeploymentStatus::Deployed
    } else if status_matches(field, "STOWED") {
        DeploymentStatus::Stowed
    } else {
        DeploymentStatus::Unknown
    }
}

/// Looks up `deploymentStatus.status` in a reply and hands out its text.
/// A reply that lacks either member, or whose status is no string, has none.
pub fn status_field<'a>(response: &'a Value) -> (field: Option<&'a str>)
    ensures
        match status_text(*response) {
            Some(t) => field.is_some() && field.unwrap()@ == t,
            None => field.is_none(),
        },
{
    let ghost outer = seq!["deploymentStatus"@];
    let ghost inner = seq!["status"@];
    let ghost here = Seq::<Seq<char>>::empty();
    proof {
        assert(outer + inner =~= status_path());
        assert(inner + here =~= inner);
    }
    match member(response, "deploymentStatus") {
        Some(data) => {
            assert(json_texts(*data).contains_key(inner) == json_texts(*response).contains_key(
                status_path(),
            ));
            match member(data, "status") {
                Some(status) => {
                    assert(json_texts(*status).contains_key(here) == json_texts(
                        *data,
                    ).contains_key(inner));
                    text_of(status)
                },
                None => {
                    assert(!json_texts(*data).contains_key(inner + here));
                    None
                },
            }
        },
        None => {
            assert(!json_texts(*response).contains_key(outer + inner));
            None
        },
    }
}

/// Whether the reply's status field is exactly `sys_status`. Never fails: a
/// reply without a readable status field matches nothing.
pub fn check_system_status(response: &Value, sys_status: &str) -> (matches: bool)
    ensures
        matches == spec_status_matches(status_text(*response), sys_status@),
{
    status_matches(status_field(response), sys_status)
}

/// The status that a reply reports.
pub fn deployment_status(response: &Value) -> (status: DeploymentStatus)
    ensures
        status == spec_classify(status_text(*response)),
{
    classify(status_field(response))
}

/// Whether the reply reports that the antennas are fully deployed.
pub fn is_deployed(response: &Value) -> (deployed: bool)
    ensures
        deployed == spec_is_deployed(*response),
{
    check_system_status(response, "DEPLOYED")
}

/// What one probe yields for the sequencer: `true` only for a reply that was
/// received and reports full deployment. A request that brought no reply
/// counts as not deployed.
pub fn probe_result(reply: Option<&Value>) -> (deployed: bool)
    ensures
        deployed == spec_probe_result(
            match reply {
                Some(response) => Some(*response),
                None => None,
            },
        ),
{
    match reply {
        Some(response) => is_deployed(response),
        None => false,
    }
}

/// A reply in which no status text can be found is never taken for a
/// deployed one, and is sorted as unknown.
pub proof fn lemma_unreadable_is_not_deployed(response: Value)
    requires
        status_text(response) is None,
    ensures
        !spec_is_deployed(response),
        spec_classify(status_text(response)) == DeploymentStatus::Unknown,
        !spec_probe_result(Some(response)),
{
}

/// A reply counts as deployed exactly when its status text is the deployed
/// token, letter for letter; every other text, the same word in another case
/// included, counts as not deployed.
pub proof fn lemma_deployed_iff_exact_token(response: Value, text: Seq<char>)
    requires
        status_text(response) == Some(text),
    ensures
        spec_is_deployed(response) <==> text == deployed_token(),
        spec_is_deployed(response) <==> text =~= seq!['D', 'E', 'P', 'L', 'O', 'Y', 'E', 'D'],
        spec_is_deployed(response) <==> spec_classify(status_text(response))
            == DeploymentStatus::Deployed,
{
    lemma_tokens();
}

} // verus!
