//! The lines that the poller writes to its log.

use crate::config::{DelaySetting, DelaySettingView};
use crate::consumer::{Action, ActionView};
use crate::decimal::{decimal_digits, push_decimal};
use crate::outcome::{OutcomeView, PollOutcome};
use vstd::prelude::*;
use vstd::string::StringExecFns;

verus! {

/// What is written before the name of the directory that is looked for.
pub const SEARCHING: &'static str = "[CONSUMMER MESSAGE] Buscando directorio ";

/// What is written when polling begins.
pub const STARTING: &'static str = "[CONSUMER MESSAGE] Iniciando proceso";

/// What is written before a delay that is no number.
pub const DELAY_UNREADABLE: &'static str = "No se pudo convertir a número: ";

/// What is written where the delay has no value.
pub const DELAY_EMPTY: &'static str = "La clave 'delay' no contiene ningún valor";

/// What is written before the address of a request.
pub const POLLING: &'static str = "[CONSUMER MESSAGE] Consultando url ";

/// What is written before the address whose response is an error.
pub const ERROR_AT: &'static str = "[CONSUMER MESSAGE] Ha ocurrido un error en la url ";

/// What is written before the status code of an error.
pub const CODE: &'static str = "Código: ";

/// What is written before the detail of an error.
pub const DETAIL: &'static str = "Error: ";

/// What is written before the description of a failed request.
pub const TRANSPORT_ERROR: &'static str = "[CONSUMER MESSAGE] Ha ocurrido el siguiente error: ";

/// What is written after each request.
pub const SEPARATOR: &'static str = "############################################";

/// What is written before the message of an error that ends the run.
pub const STOPPED: &'static str = "Ha ocurrido el siguiente error: ";

/// The lines that say what the `delay` key holds: none where it holds a
/// number of seconds, one where the default is taken in its place.
pub open spec fn delay_lines(delay: DelaySettingView) -> Seq<Seq<char>> {
    match delay {
        DelaySettingView::Unreadable { text } => seq![DELAY_UNREADABLE@ + text],
        DelaySettingView::Empty => seq![DELAY_EMPTY@],
        _ => Seq::empty(),
    }
}

/// The lines that say what a request came to: none for a success; for an
/// error response the address, the status code and the detail; for a failed
/// request the transport's description.
pub open spec fn outcome_lines(url: Seq<char>, outcome: OutcomeView) -> Seq<Seq<char>> {
    match outcome {
        OutcomeView::Success { .. } => Seq::empty(),
        OutcomeView::ClientError { status, detail } => seq![
            ERROR_AT@ + url,
            CODE@ + decimal_digits(status as nat),
            DETAIL@ + detail,
        ],
        OutcomeView::ServerError { status, detail } => seq![
            ERROR_AT@ + url,
            CODE@ + decimal_digits(status as nat),
            DETAIL@ + detail,
        ],
        OutcomeView::NetworkFailure { detail } => seq![TRANSPORT_ERROR@ + detail],
    }
}

/// The lines that the driver writes to the log when it is asked for an
/// action, before it does what the action says.
pub open spec fn lines_of(action: ActionView) -> Seq<Seq<char>> {
    match action {
        ActionView::ListDocuments { dirname } => seq![SEARCHING@ + dirname],
        ActionView::ListDirectory { .. } => Seq::empty(),
        ActionView::ReadFile { .. } => Seq::empty(),
        ActionView::Announce { delay } => seq![STARTING@] + delay_lines(delay),
        ActionView::Request { url } => seq![POLLING@ + url],
        ActionView::Report { url, outcome, .. } => outcome_lines(url, outcome).push(SEPARATOR@),
        ActionView::Idle => Seq::empty(),
        ActionView::Stop { error } => seq![STOPPED@ + error.message()],
    }
}

fn joined(before: &str, after: &str) -> (r: String)
    ensures
        r@ == before@ + after@,
{
    let mut text = before.to_owned();
    text.append(after);
    text
}

fn push_delay_lines(lines: &mut Vec<String>, delay: &DelaySetting)
    ensures
        final(lines).deep_view() == old(lines).deep_view() + delay_lines(delay@),
{
    match delay {
        DelaySetting::Unreadable { text } => {
            lines.push(joined(DELAY_UNREADABLE, text.as_str()));
        },
        DelaySetting::Empty => {
            lines.push(DELAY_EMPTY.to_owned());
        },
        _ => {},
    }
}

fn push_error_lines(lines: &mut Vec<String>, url: &str, status: u16, detail: &str)
    ensures
        final(lines).deep_view() == old(lines).deep_view() + seq![
            ERROR_AT@ + url@,
            CODE@ + decimal_digits(status as nat),
            DETAIL@ + detail@,
        ],
{
    lines.push(joined(ERROR_AT, url));
    let mut code = CODE.to_owned();
    push_decimal(&mut code, status as u64);
    lines.push(code);
    lines.push(joined(DETAIL, detail));
    assert(lines.deep_view() =~= old(lines).deep_view() + seq![
        ERROR_AT@ + url@,
        CODE@ + decimal_digits(status as nat),
        DETAIL@ + detail@,
    ]);
}

fn push_outcome_lines(lines: &mut Vec<String>, url: &str, outcome: &PollOutcome)
    ensures
        final(lines).deep_view() == old(lines).deep_view() + outcome_lines(url@, outcome@),
{
    match outcome {
        PollOutcome::Success { .. } => {},
        PollOutcome::ClientError { status, detail } => {
            push_error_lines(lines, url, *status, detail.as_str());
        },
        PollOutcome::ServerError { status, detail } => {
            push_error_lines(lines, url, *status, detail.as_str());
        },
        PollOutcome::NetworkFailure { detail } => {
            lines.push(joined(TRANSPORT_ERROR, detail.as_str()));
        },
    }
}

/// The lines to write to the log for an action.
pub fn log_lines(action: &Action) -> (r: Vec<String>)
    ensures
        r.deep_view() == lines_of(action@),
{
    let mut lines: Vec<String> = Vec::new();
    match action {
        Action::ListDocuments { dirname } => {
            lines.push(joined(SEARCHING, dirname.as_str()));
        },
        Action::ListDirectory { .. } => {},
        Action::ReadFile { .. } => {},
        Action::Announce { delay } => {
            lines.push(STARTING.to_owned());
            push_delay_lines(&mut lines, delay);
        },
        Action::Request { url } => {
            lines.push(joined(POLLING, url.as_str()));
        },
        Action::Report { url, outcome, .. } => {
            push_outcome_lines(&mut lines, url.as_str(), outcome);
            lines.push(SEPARATOR.to_owned());
        },
        Action::Idle => {},
        Action::Stop { error } => {
            let message = error.message();
            lines.push(joined(STOPPED, message.as_str()));
        },
    }
    lines
}

} // verus!
