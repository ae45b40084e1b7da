//! The lines that tell what the graph knows of a node.
use crate::scid::decimal_string;
use crate::scid::decimal_text;
use crate::scid::scid_text;
use crate::scid::scid_to_string;
use crate::store::NodeInfo;
use crate::store::NodeView;
use lightning::ln::features::NodeFeatures;
use lightning::routing::gossip::NodeAlias;
use lightning::util::ser::Readable;
use vstd::prelude::*;

verus! {

/// An alias as the `lightning` crate displays it: the bytes before the first
/// zero byte, with what cannot be shown replaced.
pub uninterp spec fn alias_text(alias: Seq<u8>) -> Seq<char>;

/// Encoded node features as the `lightning` crate displays them: each feature
/// it knows with its state, then the state of the bits it does not know. There
/// is no text where the bytes are no encoding of feature bits.
pub uninterp spec fn features_text(encoded: Seq<u8>) -> Option<Seq<char>>;

/// Formats an alias with the `Display` impl of
/// `lightning::routing::gossip::NodeAlias`. Trusted: the text depends on the 32
/// bytes alone.
#[verifier::external_body]
pub(crate) fn alias_to_string(alias: &[u8; 32]) -> (text: String)
    ensures
        text@ == alias_text(alias@),
{
    NodeAlias(*alias).to_string()
}

/// Decodes feature bits with `lightning::ln::features::NodeFeatures::read` and
/// formats them with that type's `Display` impl. Trusted: the result depends
/// on the bytes alone, and is `None` exactly where they do not decode.
#[verifier::external_body]
pub(crate) fn features_to_string(encoded: &[u8]) -> (text: Option<String>)
    ensures
        text matches Some(t) ==> features_text(encoded@) == Some(t@),
        text is None ==> features_text(encoded@) is None,
{
    let mut input = encoded;
    match NodeFeatures::read(&mut input) {
        Ok(features) => Some(features.to_string()),
        Err(_) => None,
    }
}

/// The line that gives a node's alias.
pub open spec fn alias_line(alias: Seq<char>) -> Seq<char> {
    "Alias = "@ + alias
}

/// The line that gives a node's features.
pub open spec fn features_line(features: Seq<char>) -> Seq<char> {
    "Features = "@ + features
}

/// The line that heads the list of a node's channels, with their number.
pub open spec fn channels_line(count: nat) -> Seq<char> {
    "Channels ("@ + decimal_text(count) + "):"@
}

/// The report on a node: its alias, its features, the number of its channels,
/// and then each channel's short channel id on a line of its own, in the order
/// of the list.
pub open spec fn report_text(alias: Seq<char>, features: Seq<char>, channels: Seq<u64>) -> Seq<
    Seq<char>,
> {
    seq![alias_line(alias), features_line(features), channels_line(channels.len())] + Seq::new(
        channels.len(),
        |i: int| scid_text(channels[i]),
    )
}

/// Whether the lines hold exactly the given texts, in order.
pub open spec fn lines_are(lines: Seq<String>, texts: Seq<Seq<char>>) -> bool {
    &&& lines.len() == texts.len()
    &&& forall|i: int| 0 <= i < lines.len() ==> (#[trigger] lines[i])@ == texts[i]
}

/// Writes the report on a node from its alias and features as text and the
/// list of its channels.
pub fn report_lines(alias: &str, features: &str, channels: &Vec<u64>) -> (lines: Vec<String>)
    ensures
        lines_are(lines@, report_text(alias@, features@, channels@)),
{
    let ghost texts = report_text(alias@, features@, channels@);
    let mut lines: Vec<String> = Vec::new();
    let mut line = String::from_str("Alias = ");
    line.append(alias);
    lines.push(line);
    let mut line = String::from_str("Features = ");
    line.append(features);
    lines.push(line);
    let mut line = String::from_str("Channels (");
    line.append(decimal_string(channels.len() as u64).as_str());
    line.append("):");
    lines.push(line);
    let mut i: usize = 0;
    while i < channels.len()
        invariant
            i <= channels.len(),
            texts == report_text(alias@, features@, channels@),
            lines@.len() == 3 + i,
            forall|k: int| 0 <= k < lines@.len() ==> (#[trigger] lines@[k])@ == texts[k],
        decreases channels.len() - i,
    {
        lines.push(scid_to_string(channels[i]));
        i += 1;
    }
    lines
}

/// The features as the report shows them: their text, or nothing where the
/// bytes are no encoding of feature bits.
pub open spec fn shown_features(encoded: Seq<u8>) -> Seq<char> {
    match features_text(encoded) {
        Some(text) => text,
        None => Seq::empty(),
    }
}

/// The report on a node of the graph, given its entry. A node that has not
/// announced itself has no report.
pub open spec fn node_report_text(node: NodeView) -> Option<Seq<Seq<char>>> {
    match node.announcement {
        Some(info) => Some(
            report_text(alias_text(info.alias), shown_features(info.features), node.channels),
        ),
        None => None,
    }
}

/// Writes the report on a node of the graph, or nothing where the node has not
/// announced itself.
pub fn node_report(node: &NodeInfo) -> (report: Option<Vec<String>>)
    ensures
        report matches Some(lines) ==> node_report_text(node@) matches Some(texts) && lines_are(
            lines@,
            texts,
        ),
        report is None ==> node_report_text(node@) is None,
{
    match &node.announcement {
        Some(info) => {
            let alias = alias_to_string(&info.alias);
            let features = match features_to_string(info.features.as_slice()) {
                Some(text) => text,
                None => String::new(),
            };
            Some(report_lines(alias.as_str(), features.as_str(), &node.channels))
        },
        None => None,
    }
}

} // verus!
