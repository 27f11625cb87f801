//! One upload request: its files go through the stages one after another,
//! and the first failure ends the request.

use vstd::prelude::*;

use crate::error::PipelineError;
use crate::pipeline::Action;

verus! {

broadcast use vstd::string::group_string_axioms;

/// The progress of one upload request over its files.
pub struct UploadBatch {
    pub file_count: u64,
    /// Job names of the files that finished, in the order of the files.
    pub job_names: Vec<String>,
    /// The failure that ended the request, if one did.
    pub error: Option<PipelineError>,
}

impl UploadBatch {
    pub open spec fn well_formed(&self) -> bool {
        self.job_names.len() <= self.file_count
    }

    /// Whether every file is handled or one failed.
    pub open spec fn is_over(&self) -> bool {
        self.error is Some || self.job_names.len() == self.file_count
    }

    /// A request with `file_count` files, none of them handled yet.
    pub fn new(file_count: u64) -> (b: UploadBatch)
        ensures
            b.well_formed(),
            b.file_count == file_count,
            b.job_names@.len() == 0,
            b.error is None,
    {
        UploadBatch { file_count, job_names: Vec::new(), error: None }
    }

    /// The index of the file to handle next, or `None` once the request is over.
    pub fn next_index(&self) -> (r: Option<u64>)
        requires
            self.well_formed(),
        ensures
            match r {
                Some(i) => !self.is_over() && i == self.job_names.len(),
                None => self.is_over(),
            },
    {
        if self.error.is_some() || self.job_names.len() as u64 == self.file_count {
            None
        } else {
            Some(self.job_names.len() as u64)
        }
    }

    /// Takes in the last action of the current file's pipeline: a finished
    /// file adds its job name, a failed one ends the request.
    pub fn record(&mut self, last: Action)
        requires
            old(self).well_formed(),
            !old(self).is_over(),
            last is Finish || last is Abort,
        ensures
            final(self).well_formed(),
            final(self).file_count == old(self).file_count,
            match last {
                Action::Finish { job_name } => {
                    &&& final(self).job_names@ == old(self).job_names@.push(job_name)
                    &&& final(self).error is None
                },
                Action::Abort { error } => {
                    &&& final(self).job_names@ == old(self).job_names@
                    &&& final(self).error == Some(error)
                },
                _ => false,
            },
    {
        match last {
            Action::Finish { job_name } => self.job_names.push(job_name),
            Action::Abort { error } => self.error = Some(error),
            _ => {},
        }
    }

    /// The request's answer: every job name where all files finished, else
    /// the failure that ended it.
    pub fn response(self) -> (r: Result<Vec<String>, PipelineError>)
        requires
            self.well_formed(),
            self.is_over(),
        ensures
            match self.error {
                Some(e) => r == Err::<Vec<String>, PipelineError>(e),
                None => r matches Ok(names) && names@ == self.job_names@,
            },
    {
        match self.error {
            Some(e) => Err(e),
            None => Ok(self.job_names),
        }
    }
}

} // verus!
