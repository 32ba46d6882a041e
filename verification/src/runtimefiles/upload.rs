//! Collecting the files of an upload from the fields of a multipart request.

use vstd::prelude::*;
use crate::runtimefiles::error::RuntimeUpdateError;

verus! {

/// A file that is uploaded.
#[derive(Debug)]
pub struct UploadFile<Data> {
    pub filename: String,
    pub data: Data,
}

/// What reading on in the request gave.
#[derive(Debug)]
pub enum FieldEvent<Data> {
    /// A field without a file name.
    Nameless,
    /// A field with a file name and its data.
    File(UploadFile<Data>),
    /// The data of a field with a file name could not be read.
    Unreadable(String),
    /// There is no further field, or none that can be read.
    End,
}

/// What is done after a field.
#[derive(Debug)]
pub enum UploadStep {
    /// Read the next field.
    NextField,
    /// Hand the files to the update plugin.
    Upload,
    /// Answer with this error.
    Reject(RuntimeUpdateError),
}

/// What the fields of a request come to.
pub enum Collected<Data> {
    /// The fields read so far go on; these files were found.
    Open(Seq<UploadFile<Data>>),
    /// The request is complete; these files are uploaded.
    Complete(Seq<UploadFile<Data>>),
    /// The request is answered with a validation error.
    Rejected(String),
}

/// What the fields read so far come to.
pub open spec fn collected<Data>(events: Seq<FieldEvent<Data>>) -> Collected<Data>
    decreases events.len(),
{
    if events.len() == 0 {
        Collected::Open(Seq::empty())
    } else {
        match collected(events.drop_last()) {
            Collected::Open(files) => match events.last() {
                FieldEvent::Nameless => Collected::Open(files),
                FieldEvent::File(file) => Collected::Open(files.push(file)),
                FieldEvent::Unreadable(text) => Collected::Rejected(text),
                FieldEvent::End => Collected::Complete(files),
            },
            done => done,
        }
    }
}

/// Takes in one field: `files` are the files found so far.
pub fn upload_step<Data>(files: &mut Vec<UploadFile<Data>>, event: FieldEvent<Data>) -> (r:
    UploadStep)
    ensures
        match event {
            FieldEvent::Nameless => r == UploadStep::NextField && final(files)@ == old(files)@,
            FieldEvent::File(file) => r == UploadStep::NextField && final(files)@ == old(
                files,
            )@.push(file),
            FieldEvent::Unreadable(text) => r == UploadStep::Reject(
                RuntimeUpdateError::ValidationFailed(text),
            ) && final(files)@ == old(files)@,
            FieldEvent::End => r == UploadStep::Upload && final(files)@ == old(files)@,
        },
        forall|events: Seq<FieldEvent<Data>>| #[trigger]
            collected(events) == Collected::Open(old(files)@) ==> match collected(
                events.push(event),
            ) {
                Collected::Open(found) => r == UploadStep::NextField && final(files)@ == found,
                Collected::Complete(found) => r == UploadStep::Upload && final(files)@ == found,
                Collected::Rejected(text) => r == UploadStep::Reject(
                    RuntimeUpdateError::ValidationFailed(text),
                ),
            },
{
    let ghost before = files@;
    let ghost given = event;
    let r = match event {
        FieldEvent::Nameless => UploadStep::NextField,
        FieldEvent::File(file) => {
            files.push(file);
            UploadStep::NextField
        },
        FieldEvent::Unreadable(text) => UploadStep::Reject(
            RuntimeUpdateError::ValidationFailed(text),
        ),
        FieldEvent::End => UploadStep::Upload,
    };
    proof {
        assert forall|events: Seq<FieldEvent<Data>>| #[trigger]
            collected(events) == Collected::Open(before) implies match collected(
            events.push(given),
        ) {
            Collected::Open(found) => r == UploadStep::NextField && files@ == found,
            Collected::Complete(found) => r == UploadStep::Upload && files@ == found,
            Collected::Rejected(text) => r == UploadStep::Reject(
                RuntimeUpdateError::ValidationFailed(text),
            ),
        } by {
            assert(events.push(given).drop_last() =~= events);
        }
    }
    r
}

/// The field ends the reading of the request.
pub open spec fn is_last<Data>(event: FieldEvent<Data>) -> bool {
    event is End || event is Unreadable
}

/// The files of the fields that have a file name, in their order.
pub open spec fn named_files<Data>(events: Seq<FieldEvent<Data>>) -> Seq<UploadFile<Data>>
    decreases events.len(),
{
    if events.len() == 0 {
        Seq::empty()
    } else {
        match events.last() {
            FieldEvent::File(file) => named_files(events.drop_last()).push(file),
            _ => named_files(events.drop_last()),
        }
    }
}

proof fn lemma_open_fields<Data>(events: Seq<FieldEvent<Data>>)
    requires
        forall|i: int| 0 <= i < events.len() ==> !is_last(#[trigger] events[i]),
    ensures
        collected(events) == Collected::Open(named_files(events)),
    decreases events.len(),
{
    if events.len() > 0 {
        let before = events.drop_last();
        assert forall|i: int| 0 <= i < before.len() implies !is_last(#[trigger] before[i]) by {
            assert(before[i] == events[i]);
        }
        lemma_open_fields(before);
        assert(!is_last(events[events.len() - 1]));
    }
}

/// A request that is read to its end uploads exactly the files of the fields with a
/// file name, in their order. If the data of such a field cannot be read, nothing is
/// uploaded and the request is answered with a validation error.
pub proof fn lemma_upload_is_complete<Data>(events: Seq<FieldEvent<Data>>)
    requires
        events.len() > 0,
        is_last(events.last()),
        forall|i: int| 0 <= i < events.len() - 1 ==> !is_last(#[trigger] events[i]),
    ensures
        match events.last() {
            FieldEvent::Unreadable(text) => collected(events) == Collected::<Data>::Rejected(text),
            _ => collected(events) == Collected::Complete(named_files(events)),
        },
{
    let before = events.drop_last();
    assert forall|i: int| 0 <= i < before.len() implies !is_last(#[trigger] before[i]) by {
        assert(before[i] == events[i]);
    }
    lemma_open_fields(before);
}

} // verus!
