//! Job descriptors and the builder that validates raw records into them.

use vstd::prelude::*;

verus! {

/// What a caller supplied under one key of a raw record.
#[derive(Debug)]
pub enum RawField {
    /// The record has no such key.
    Missing,
    /// The key holds a string.
    Text(String),
    /// The key holds a value of some other type.
    Other,
}

/// One raw record of a batch, before validation.
#[derive(Debug)]
pub struct RawRecord {
    /// The value under the key `in`.
    pub input: RawField,
    /// The value under the key `out`.
    pub output: RawField,
}

/// The two keys a raw record is read by.
#[derive(Debug, Clone, Copy, PartialEq, Eq, Structural)]
pub enum JobField {
    /// The key `in`: the path of the source file.
    In,
    /// The key `out`: the path the compressed file is written to.
    Out,
}

/// Why a field of a raw record cannot be used.
#[derive(Debug, Clone, Copy, PartialEq, Eq, Structural)]
pub enum FieldFault {
    /// The field is absent.
    Missing,
    /// The field is present but is not a string.
    NotText,
}

/// The first malformed field of a batch: raised while the batch is built,
/// before any work is planned.
#[derive(Debug, Clone, Copy, PartialEq, Eq, Structural)]
pub struct MalformedJobError {
    /// Position in the batch of the record that was refused.
    pub index: usize,
    /// The field of that record that was refused.
    pub field: JobField,
    /// What is wrong with it.
    pub fault: FieldFault,
}

/// One compression job: read the PNG at `input`, write the result to `output`.
///
/// A task is made once by the builder and only read afterwards. The two paths
/// may be equal. Nothing about the files is checked here.
#[derive(Debug)]
pub struct CompressTask {
    input: String,
    output: String,
}

/// The mathematical content of a task: its two paths as character sequences.
pub struct TaskPaths {
    pub input: Seq<char>,
    pub output: Seq<char>,
}

impl View for CompressTask {
    type V = TaskPaths;

    closed spec fn view(&self) -> TaskPaths {
        TaskPaths { input: self.input@, output: self.output@ }
    }
}

impl RawField {
    /// The fault, if any, that keeps this field from being used as a path.
    pub open spec fn fault(self) -> Option<FieldFault> {
        match self {
            RawField::Missing => Some(FieldFault::Missing),
            RawField::Text(_) => None,
            RawField::Other => Some(FieldFault::NotText),
        }
    }

    /// The text of a string field; empty for any other field.
    pub open spec fn text(self) -> Seq<char> {
        match self {
            RawField::Text(s) => s@,
            _ => Seq::empty(),
        }
    }
}

impl RawRecord {
    /// The first fault of the record, reading `in` before `out`.
    pub open spec fn fault(self) -> Option<(JobField, FieldFault)> {
        match self.input.fault() {
            Some(fault) => Some((JobField::In, fault)),
            None => match self.output.fault() {
                Some(fault) => Some((JobField::Out, fault)),
                None => None,
            },
        }
    }

    /// A record is well formed when both of its fields are strings.
    pub open spec fn well_formed(self) -> bool {
        self.fault() is None
    }

    /// The paths a well-formed record describes.
    pub open spec fn paths(self) -> TaskPaths {
        TaskPaths { input: self.input.text(), output: self.output.text() }
    }
}

impl CompressTask {
    /// The path of the source file.
    pub fn input(&self) -> (path: &str)
        ensures
            path@ == self@.input,
    {
        self.input.as_str()
    }

    /// The path the compressed file is written to.
    pub fn output(&self) -> (path: &str)
        ensures
            path@ == self@.output,
    {
        self.output.as_str()
    }
}

/// Validates one raw record and turns it into a task.
///
/// Succeeds exactly when both fields are strings, and then the task carries
/// their text unchanged. Otherwise reports the first faulty field, `in`
/// before `out`.
pub fn create_compress_task(record: &RawRecord) -> (result: Result<
    CompressTask,
    (JobField, FieldFault),
>)
    ensures
        match result {
            Ok(task) => record.well_formed() && task@ == record.paths(),
            Err(fault) => record.fault() == Some(fault),
        },
{
    let input = match &record.input {
        RawField::Text(text) => text.clone(),
        RawField::Missing => { return Err((JobField::In, FieldFault::Missing)); },
        RawField::Other => { return Err((JobField::In, FieldFault::NotText)); },
    };
    let output = match &record.output {
        RawField::Text(text) => text.clone(),
        RawField::Missing => { return Err((JobField::Out, FieldFault::Missing)); },
        RawField::Other => { return Err((JobField::Out, FieldFault::NotText)); },
    };
    Ok(CompressTask { input, output })
}

/// Whether `error` names the first faulty field of `records`.
pub open spec fn first_fault(records: Seq<RawRecord>, error: MalformedJobError) -> bool {
    &&& error.index < records.len()
    &&& forall|j: int| 0 <= j < error.index ==> (#[trigger] records[j]).well_formed()
    &&& records[error.index as int].fault() == Some((error.field, error.fault))
}

/// Builds a batch: one task per record, in the order of the records.
///
/// Succeeds exactly when every record is well formed. Otherwise no task is
/// handed out and the error names the first faulty field of the first
/// malformed record.
pub fn build(records: &Vec<RawRecord>) -> (result: Result<Vec<CompressTask>, MalformedJobError>)
    ensures
        match result {
            Ok(tasks) => {
                &&& tasks@.len() == records@.len()
                &&& forall|i: int|
                    0 <= i < records@.len() ==> (#[trigger] records@[i]).well_formed()
                &&& forall|i: int|
                    0 <= i < records@.len() ==> (#[trigger] tasks@[i])@ == records@[i].paths()
            },
            Err(error) => first_fault(records@, error),
        },
{
    let mut tasks: Vec<CompressTask> = Vec::new();
    let mut index: usize = 0;
    while index < records.len()
        invariant
            index <= records@.len(),
            tasks@.len() == index,
            forall|i: int| 0 <= i < index ==> (#[trigger] records@[i]).well_formed(),
            forall|i: int| 0 <= i < index ==> (#[trigger] tasks@[i])@ == records@[i].paths(),
        decreases records@.len() - index,
    {
        match create_compress_task(&records[index]) {
            Ok(task) => {
                tasks.push(task);
            },
            Err((field, fault)) => {
                return Err(MalformedJobError { index, field, fault });
            },
        }
        index = index + 1;
    }
    Ok(tasks)
}

} // verus!
