//! Error reports: a chain of messages, the outermost context first and the root cause last.
use color_eyre::eyre::Report;
use vstd::prelude::*;
use vstd::string::*;

verus! {

/// The error report of `eyre`, which `color_eyre` re-exports.
#[verifier::external_type_specification]
#[verifier::external_body]
pub struct ExReport(Report);

/// The messages that a report holds: what `Report::chain` walks, each cause as it displays
/// itself, the outermost context first.
pub uninterp spec fn report_messages(report: Report) -> Seq<Seq<char>>;

/// The texts of a vector of strings.
pub open spec fn texts(strings: Seq<String>) -> Seq<Seq<char>> {
    Seq::new(strings.len(), |i: int| strings[i]@)
}

/// Calls `Report::msg`: the report holds this one message.
#[verifier::external_body]
pub(crate) fn new_report(message: String) -> (report: Report)
    ensures
        report_messages(report) == seq![message@],
{
    Report::msg(message)
}

/// Calls `Report::wrap_err`: the message goes in front of those that the report already holds.
#[verifier::external_body]
pub(crate) fn wrap_report(report: Report, message: String) -> (wrapped: Report)
    ensures
        report_messages(wrapped) == seq![message@] + report_messages(report),
{
    report.wrap_err(message)
}

/// Calls `Report::chain` and displays each cause. A chain always starts with the report's own
/// error, so there is at least one message.
#[verifier::external_body]
pub(crate) fn chain_messages(report: &Report) -> (messages: Vec<String>)
    ensures
        texts(messages@) == report_messages(*report),
        messages@.len() > 0,
{
    report.chain().map(|cause| cause.to_string()).collect()
}

/// Puts a message in front of those of an error, if there is one.
pub fn wrap_err<T>(res: Result<T, Report>, message: &str) -> (wrapped: Result<T, Report>)
    ensures
        match (res, wrapped) {
            (Ok(value), Ok(kept)) => kept == value,
            (Err(err), Err(outer)) => report_messages(outer) == seq![message@] + report_messages(
                err,
            ),
            _ => false,
        },
{
    match res {
        Ok(value) => Ok(value),
        Err(err) => Err(wrap_report(err, message.to_owned())),
    }
}

/// The texts of some strings are those strings, each in its place.
pub proof fn texts_are_in_their_places(strings: Seq<String>)
    ensures
        texts(strings).len() == strings.len(),
        forall|i: int| 0 <= i < strings.len() ==> #[trigger] texts(strings)[i] == strings[i]@,
{
}

} // verus!
