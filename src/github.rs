//! Workflow-command lines that a CI runner reads from standard output as
//! annotations: `::<level> title=<title>::<message>`.
use vstd::prelude::*;
use vstd::string::*;

use crate::{level_name, PrintLevel};

verus! {

/// What percent-encoding a message body gives: control characters, `%`,
/// CR and LF are escaped.
pub uninterp spec fn encoded_message(s: Seq<char>) -> Seq<char>;

/// What percent-encoding a property value gives: as for a message, and `:`
/// and `,` besides.
pub uninterp spec fn encoded_property(s: Seq<char>) -> Seq<char>;

/// Relies on percent_encoding::utf8_percent_encode with the control set plus
/// `%`, CR and LF; the result depends on the text alone, and empty text stays
/// empty.
#[verifier::external_body]
fn encode_message(s: &str) -> (r: String)
    ensures
        r@ == encoded_message(s@),
        s@.len() == 0 ==> r@.len() == 0,
{
    let set = percent_encoding::CONTROLS.add(b'%').add(b'\r').add(b'\n');
    percent_encoding::utf8_percent_encode(s, Box::leak(Box::new(set))).to_string()
}

/// Relies on percent_encoding::utf8_percent_encode with the control set plus
/// `%`, CR, LF, `:` and `,`; the result depends on the text alone, and empty
/// text stays empty.
#[verifier::external_body]
fn encode_property(s: &str) -> (r: String)
    ensures
        r@ == encoded_property(s@),
        s@.len() == 0 ==> r@.len() == 0,
{
    let set = percent_encoding::CONTROLS.add(b'%').add(b'\r').add(b'\n').add(b':').add(b',');
    percent_encoding::utf8_percent_encode(s, Box::leak(Box::new(set))).to_string()
}

/// The title as text: a missing title is empty.
pub open spec fn title_text(title: Option<Seq<char>>) -> Seq<char> {
    match title {
        Some(t) => t,
        None => Seq::empty(),
    }
}

/// The command line for an annotation at `level`, without a line break.
pub open spec fn annotation(level: PrintLevel, title: Option<Seq<char>>, message: Seq<char>) -> Seq<char> {
    command_text(level, encoded_property(title_text(title)), encoded_message(message))
}

pub open spec fn str_opt_view(o: Option<&str>) -> Option<Seq<char>> {
    match o {
        Some(s) => Some(s@),
        None => None,
    }
}

/// The command line at `level` from a title and a message that are already
/// encoded.
pub open spec fn command_text(level: PrintLevel, title: Seq<char>, message: Seq<char>) -> Seq<char> {
    "::"@ + level_name(level) + " title="@ + title + "::"@ + message
}

/// Assembles the command line at `level` from an encoded title and an
/// encoded message.
pub fn command_line(level: PrintLevel, encoded_title: &str, encoded_message: &str) -> (r: String)
    ensures
        r@ == command_text(level, encoded_title@, encoded_message@),
{
    proof {
        reveal_strlit("::");
        reveal_strlit(" title=");
    }
    let mut buf = String::from_str("::");
    buf.append(level.as_str());
    buf.append(" title=");
    buf.append(encoded_title);
    buf.append("::");
    buf.append(encoded_message);
    buf
}

/// The annotation line at `level`.
pub fn annotate(level: PrintLevel, title: Option<&str>, message: &str) -> (r: String)
    ensures
        r@ == annotation(level, str_opt_view(title), message@),
{
    proof {
        reveal_strlit("");
    }
    let t = match title {
        Some(t) => t,
        None => "",
    };
    assert(t@ =~= title_text(str_opt_view(title)));
    let et = encode_property(t);
    let em = encode_message(message);
    command_line(level, et.as_str(), em.as_str())
}

/// The line of a notice annotation.
pub fn notice(title: Option<&str>, message: &str) -> (r: String)
    ensures
        r@ == annotation(PrintLevel::Notice, str_opt_view(title), message@),
{
    annotate(PrintLevel::Notice, title, message)
}

/// The line of a warning annotation.
pub fn warning(title: Option<&str>, message: &str) -> (r: String)
    ensures
        r@ == annotation(PrintLevel::Warning, str_opt_view(title), message@),
{
    annotate(PrintLevel::Warning, title, message)
}

/// The line of an error annotation.
pub fn error(title: Option<&str>, message: &str) -> (r: String)
    ensures
        r@ == annotation(PrintLevel::Error, str_opt_view(title), message@),
{
    annotate(PrintLevel::Error, title, message)
}

} // verus!
