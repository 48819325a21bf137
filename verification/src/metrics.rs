//! What the runtime records about one execution.
use std::time::Duration;
use vstd::prelude::*;

verus! {

/// Measurements of one execution.
#[derive(Debug)]
pub struct ExecutionMetrics {
    pub duration: Duration,
    pub heap_used_bytes: usize,
    pub heap_peak_bytes: usize,
    pub timed_out: bool,
    pub oom: bool,
    pub error: Option<String>,
}

/// The error field as it is logged: the message, or `none`.
pub open spec fn error_label_of(error: Option<String>) -> Seq<char> {
    match error {
        Some(e) => e@,
        None => "none"@,
    }
}

impl Clone for ExecutionMetrics {
    fn clone(&self) -> (res: Self)
        ensures
            res == *self,
    {
        let error = match &self.error {
            Some(e) => Some(e.clone()),
            None => None,
        };
        ExecutionMetrics {
            duration: self.duration,
            heap_used_bytes: self.heap_used_bytes,
            heap_peak_bytes: self.heap_peak_bytes,
            timed_out: self.timed_out,
            oom: self.oom,
            error,
        }
    }
}

impl ExecutionMetrics {
    /// The metrics of a failed execution: its measurements, the limit flags
    /// as they were read after the failure, and the failure's message.
    pub fn for_failure(
        duration: Duration,
        heap_used_bytes: usize,
        heap_peak_bytes: usize,
        timed_out: bool,
        oom: bool,
        error: String,
    ) -> (res: Self)
        ensures
            res == (ExecutionMetrics {
                duration,
                heap_used_bytes,
                heap_peak_bytes,
                timed_out,
                oom,
                error: Some(error),
            }),
    {
        ExecutionMetrics { duration, heap_used_bytes, heap_peak_bytes, timed_out, oom, error: Some(error) }
    }

    /// The metrics of a successful execution: its measurements, no limit
    /// reached and no error.
    pub fn for_success(duration: Duration, heap_used_bytes: usize, heap_peak_bytes: usize) -> (res: Self)
        ensures
            res == (ExecutionMetrics {
                duration,
                heap_used_bytes,
                heap_peak_bytes,
                timed_out: false,
                oom: false,
                error: None,
            }),
    {
        ExecutionMetrics { duration, heap_used_bytes, heap_peak_bytes, timed_out: false, oom: false, error: None }
    }

    /// The error message to log, `none` when the execution succeeded.
    pub fn error_label(&self) -> (res: &str)
        ensures
            res@ == error_label_of(self.error),
    {
        match &self.error {
            Some(e) => e.as_str(),
            None => "none",
        }
    }
}

} // verus!
