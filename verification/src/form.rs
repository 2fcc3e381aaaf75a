//! The state behind the form: the two fields and the last outcome shown under them.
use crate::pake::{error_message, job_view, prepare_pake, request_outcome, PakeError, PakeJob};
use vstd::prelude::*;

verus! {

/// What the form holds: the website and title typed so far, and the status or error
/// of the last attempt.
#[derive(Clone, Debug)]
pub struct FormState {
    pub website: String,
    pub title: String,
    pub last_status: Option<String>,
    pub last_error: Option<String>,
}

impl FormState {
    /// An empty form with nothing to report.
    pub fn new() -> (s: Self)
        ensures
            s.website@ == Seq::<char>::empty(),
            s.title@ == Seq::<char>::empty(),
            s.last_status is None,
            s.last_error is None,
    {
        FormState {
            website: String::new(),
            title: String::new(),
            last_status: None,
            last_error: None,
        }
    }

    /// The job that the form's fields describe, or why there is none.
    pub fn request(&self) -> (r: Result<PakeJob, PakeError>)
        ensures
            job_view(r) == request_outcome(self.website@, self.title@),
    {
        prepare_pake(self.website.as_str(), self.title.as_str())
    }

    /// Shows the outcome of an attempt: a success replaces any error by its message,
    /// a failure replaces any status by the error's text. The fields are kept.
    pub fn record(&mut self, outcome: Result<String, PakeError>)
        ensures
            final(self).website == old(self).website,
            final(self).title == old(self).title,
            (final(self).last_status is Some) != (final(self).last_error is Some),
            match outcome {
                Ok(msg) => final(self).last_status == Some(msg) && final(self).last_error is None,
                Err(e) => final(self).last_status is None && (final(self).last_error matches Some(
                    text,
                ) && text@ == error_message(e)),
            },
    {
        match outcome {
            Ok(msg) => {
                self.last_status = Some(msg);
                self.last_error = None;
            },
            Err(err) => {
                self.last_error = Some(err.message());
                self.last_status = None;
            },
        }
    }
}

} // verus!
