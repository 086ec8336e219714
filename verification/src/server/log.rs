//! The lines that the gateway logs of a request: names and counts, and nothing that a
//! client or a provider said.

use vstd::prelude::*;

use crate::json::{field_of, JsonTree, JsonValue};
use crate::text::{decimal, show_truth, to_decimal, truth_text};
use vstd::string::*;

verus! {

/// The names, with commas between them.
pub open spec fn listed(names: Seq<String>) -> Seq<char>
    decreases names.len(),
{
    if names.len() == 0 {
        Seq::empty()
    } else if names.len() == 1 {
        names[0]@
    } else {
        listed(names.drop_last()) + ","@ + names.last()@
    }
}

/// The rules that changed a request; a hyphen where none did.
pub open spec fn rules_text(rules: Seq<String>) -> Seq<char> {
    if rules.len() == 0 {
        "-"@
    } else {
        listed(rules)
    }
}

fn show_rules(rules: &[String]) -> (text: String)
    ensures
        text@ == rules_text(rules@),
{
    if rules.len() == 0 {
        return "-".to_owned();
    }
    let mut text = rules[0].as_str().to_owned();
    let mut i: usize = 1;
    assert(rules@.take(1)[0] == rules@[0]);
    while i < rules.len()
        invariant
            1 <= i <= rules@.len(),
            text@ == listed(rules@.take(i as int)),
        decreases rules@.len() - i,
    {
        assert(rules@.take(i + 1).drop_last() =~= rules@.take(i as int));
        text.append(",");
        text.append(rules[i].as_str());
        i += 1;
    }
    assert(rules@.take(i as int) =~= rules@);
    text
}

/// How many values a list in a JSON object has; none where there is no such list.
pub open spec fn count_of(json: JsonTree, name: Seq<char>) -> nat {
    match field_of(json, name) {
        Some(JsonTree::List(values)) => values.len(),
        _ => 0,
    }
}

pub fn count_in(json: &JsonValue, name: &str) -> (count: usize)
    ensures
        count == count_of(json@, name@),
{
    match json.get(name) {
        Some(JsonValue::List(values)) => {
            proof {
                lemma_trees_len(values@);
            }
            values.len()
        },
        _ => 0,
    }
}

proof fn lemma_trees_len(values: Seq<JsonValue>)
    ensures
        crate::json::trees(values).len() == values.len(),
    decreases values.len(),
{
    if values.len() > 0 {
        lemma_trees_len(values.drop_last());
    }
}

/// The line of a request that is relayed.
pub fn log_relay_metadata(
    target_model: &str,
    is_stream: bool,
    message_count: usize,
    rules: &[String],
) -> (line: String)
    ensures
        line@ == "POST /v1/messages relay target="@ + target_model@ + " stream="@ + truth_text(
            is_stream,
        ) + " msgs="@ + decimal(message_count as nat) + " rules="@ + rules_text(rules@),
{
    let mut line = "POST /v1/messages relay target=".to_owned();
    line.append(target_model);
    line.append(" stream=");
    line.append(show_truth(is_stream));
    line.append(" msgs=");
    line.append(to_decimal(message_count as u64).as_str());
    line.append(" rules=");
    line.append(show_rules(rules).as_str());
    line
}

/// The model that a request names; nothing where it names none.
pub open spec fn model_of(request: JsonTree) -> Seq<char> {
    match field_of(request, "model"@) {
        Some(JsonTree::Text(model)) => model,
        _ => Seq::empty(),
    }
}

/// The line of a request in the terms of the Responses interface.
pub fn log_responses_metadata(request: &JsonValue, is_stream: bool, rules: &[String]) -> (line:
    String)
    ensures
        line@ == "POST /v1/messages provider=openai-responses target="@ + model_of(request@)
            + " stream="@ + truth_text(is_stream) + " input="@ + decimal(
            count_of(request@, "input"@),
        ) + " tools="@ + decimal(count_of(request@, "tools"@)) + " rules="@ + rules_text(rules@),
{
    let mut line = "POST /v1/messages provider=openai-responses target=".to_owned();
    if let Some(model) = request.get("model") {
        if let Some(model) = model.as_text() {
            line.append(model);
        }
    }
    assert(line@ =~= "POST /v1/messages provider=openai-responses target="@ + model_of(request@));
    line.append(" stream=");
    line.append(show_truth(is_stream));
    line.append(" input=");
    line.append(to_decimal(count_in(request, "input") as u64).as_str());
    line.append(" tools=");
    line.append(to_decimal(count_in(request, "tools") as u64).as_str());
    line.append(" rules=");
    line.append(show_rules(rules).as_str());
    line
}

/// What a filter did to a stream.
#[derive(Clone, Copy, Debug, PartialEq, Eq, Structural)]
pub enum FilterStats {
    Kimi { dropped: u64 },
    DsmlDetect { found: bool },
    DsmlRewrite { synthesized: bool, tool_uses: u64 },
}

impl FilterStats {
    /// The line of a stream that a filter touched; none where it did nothing.
    pub open spec fn line(self) -> Option<Seq<char>> {
        match self {
            FilterStats::Kimi { dropped } if dropped > 0 => Some(
                "relay stream rules=tool.kimi.web_search.server-tool-filter dropped="@ + decimal(
                    dropped as nat,
                ),
            ),
            FilterStats::DsmlDetect { found: true } => Some(
                "deepseek stream DSML detect found=true"@,
            ),
            FilterStats::DsmlRewrite { synthesized: true, tool_uses } => Some(
                "deepseek stream DSML rewrite tool_use="@ + decimal(tool_uses as nat),
            ),
            _ => None,
        }
    }

    pub fn log_stats(self) -> (line: Option<String>)
        ensures
            crate::text::view_of(line) == self.line(),
    {
        match self {
            FilterStats::Kimi { dropped } => {
                if dropped == 0 {
                    return None;
                }
                let mut line =
                    "relay stream rules=tool.kimi.web_search.server-tool-filter dropped=".to_owned();
                line.append(to_decimal(dropped).as_str());
                Some(line)
            },
            FilterStats::DsmlDetect { found } => {
                if found {
                    Some("deepseek stream DSML detect found=true".to_owned())
                } else {
                    None
                }
            },
            FilterStats::DsmlRewrite { synthesized, tool_uses } => {
                if !synthesized {
                    return None;
                }
                let mut line = "deepseek stream DSML rewrite tool_use=".to_owned();
                line.append(to_decimal(tool_uses).as_str());
                Some(line)
            },
        }
    }
}

} // verus!
