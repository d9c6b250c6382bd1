//! The decisions of a batch run.
//!
//! Reading a source, writing an output and reading the clock are the
//! caller's work.  What is done with a file of a given name, what follows
//! each of those steps, and how a file's run ends are decided here.  No
//! decision ends the batch: a file that fails is finished with its error, and
//! the caller goes on to the next.

use crate::error::ErrorKind;
use crate::config::Config;
use crate::naming::{is_candidate, is_candidate_name, source_format_of, utf8, ImageTask};
use crate::pipeline::{process_image, process_spec};
use crate::codec::decode_spec;
use crate::summary::{count_successes, lemma_tally_counts, succeeded, tally, Entry, Outcome};
use vstd::prelude::*;

verus! {

/// What the caller reports of its last step on a file.
pub enum Event {
    /// The source could not be read.
    Unreadable,
    /// The source was read, and these are its bytes.
    Loaded(Vec<u8>),
    /// The output was written.
    Written,
    /// The output could not be written.
    WriteFailed,
}

/// What the caller is to do next with a file.
#[derive(Debug, PartialEq, Eq)]
pub enum Action {
    /// Write these bytes under the task's output name.
    Write(Vec<u8>),
    /// Nothing more: the file's run has ended in this way.
    Finish(Result<(), ErrorKind>),
}

/// The task for a directory entry of the given name, if a batch takes it up:
/// entries that are not PNG or JPEG by name are passed over.
pub fn plan(file_name: &str, prefix: &str) -> (r: Option<ImageTask>)
    ensures
        r is Some <==> is_candidate_name(utf8(file_name@)),
        r matches Some(task) ==> task.input_name@ == file_name@ && task.output_name@ == prefix@
            + file_name@,
{
    if is_candidate(file_name) {
        Some(ImageTask::new(file_name, prefix))
    } else {
        None
    }
}

/// What follows an event.  An unreadable source is a `DecodeError`, a failed
/// write an `EncodeError`.  A source that was read is processed: its output
/// is to be written, or the file ends with the error of the stage that
/// failed.  A written output ends the file well.
pub open spec fn follows(task: ImageTask, config: Config, event: Event, action: Action) -> bool {
    match event {
        Event::Unreadable => action == Action::Finish(Err(ErrorKind::DecodeError)),
        Event::Loaded(bytes) => {
            let due = process_spec(
                bytes@,
                utf8(task.input_name@),
                utf8(task.output_name@),
                config,
            );
            match action {
                Action::Write(file) => due == Ok::<Seq<u8>, ErrorKind>(file@),
                Action::Finish(Err(e)) => due == Err::<Seq<u8>, ErrorKind>(e),
                Action::Finish(Ok(_)) => false,
            }
        },
        Event::Written => action == Action::Finish(Ok(())),
        Event::WriteFailed => action == Action::Finish(Err(ErrorKind::EncodeError)),
    }
}

/// Decides what is done next with the file of `task`.
pub fn advance(task: &ImageTask, config: &Config, event: Event) -> (action: Action)
    ensures
        follows(*task, *config, event, action),
{
    match event {
        Event::Unreadable => Action::Finish(Err(ErrorKind::DecodeError)),
        Event::Loaded(bytes) => match process_image(bytes.as_slice(), task, config) {
            Ok(file) => Action::Write(file),
            Err(e) => Action::Finish(Err(e)),
        },
        Event::Written => Action::Finish(Ok(())),
        Event::WriteFailed => Action::Finish(Err(ErrorKind::EncodeError)),
    }
}

/// The outcome of a file whose run ended with `result` after `elapsed_nanos`.
/// The time counts only for a success.
pub fn conclude(result: Result<(), ErrorKind>, elapsed_nanos: u64) -> (outcome: Outcome)
    ensures
        outcome == match result {
            Ok(_) => Outcome::Success { elapsed_nanos },
            Err(kind) => Outcome::Failure { kind },
        },
{
    match result {
        Ok(_) => Outcome::Success { elapsed_nanos },
        Err(kind) => Outcome::Failure { kind },
    }
}

/// One file of a batch as the run meets it: its name, its bytes, and the
/// time that the clock gives for it.
pub struct SourceFile {
    pub name: Seq<char>,
    pub bytes: Seq<u8>,
    pub elapsed_nanos: u64,
}

/// What processing gives for a file whose output goes under the prefix and
/// its own name.
pub open spec fn file_result(file: SourceFile, prefix: Seq<char>, config: Config) -> Result<
    Seq<u8>,
    ErrorKind,
> {
    process_spec(file.bytes, utf8(file.name), utf8(prefix + file.name), config)
}

/// The outcome of a file whose output, if it has one, can be written.
pub open spec fn file_outcome(file: SourceFile, prefix: Seq<char>, config: Config) -> Outcome {
    match file_result(file, prefix, config) {
        Ok(_) => Outcome::Success { elapsed_nanos: file.elapsed_nanos },
        Err(kind) => Outcome::Failure { kind },
    }
}

/// The outcomes of a batch, file by file: each depends on its own file and
/// on nothing that came before.
pub open spec fn batch_entries(files: Seq<SourceFile>, prefix: Seq<char>, config: Config) -> Seq<
    Entry,
> {
    Seq::new(
        files.len(),
        |i: int| Entry { name: files[i].name, outcome: file_outcome(files[i], prefix, config) },
    )
}

/// The file does not decode in the format of its name.
pub open spec fn is_corrupt(file: SourceFile) -> bool {
    source_format_of(utf8(file.name)) matches Some(format) && decode_spec(file.bytes, format)
        is Err
}

proof fn lemma_count_all_but_one(entries: Seq<Entry>, odd: int, n: int)
    requires
        0 <= n <= entries.len(),
        0 <= odd < entries.len(),
        !succeeded(entries, odd),
        forall|i: int| 0 <= i < entries.len() && i != odd ==> succeeded(entries, i),
    ensures
        count_successes(entries, n) == if odd < n {
            n - 1
        } else {
            n
        },
    decreases n,
{
    if n > 0 {
        lemma_count_all_but_one(entries, odd, n - 1);
    }
}

/// One corrupt file among files that process well, at any place among them,
/// fails alone and as a `DecodeError`: every other file succeeds, whether it
/// comes before or after, and the tally holds one failure and a success for
/// each of the others.
pub proof fn lemma_batch_resilience(
    files: Seq<SourceFile>,
    prefix: Seq<char>,
    config: Config,
    corrupt: int,
)
    requires
        0 <= corrupt < files.len(),
        is_corrupt(files[corrupt]),
        forall|i: int|
            0 <= i < files.len() && i != corrupt ==> #[trigger] file_result(
                files[i],
                prefix,
                config,
            ) is Ok,
    ensures
        ({
            let entries = batch_entries(files, prefix, config);
            &&& entries.len() == files.len()
            &&& entries[corrupt].outcome == Outcome::Failure { kind: ErrorKind::DecodeError }
            &&& forall|i: int|
                0 <= i < files.len() && i != corrupt ==> #[trigger] entries[i].outcome
                    == Outcome::Success { elapsed_nanos: files[i].elapsed_nanos }
            &&& tally(entries).failures == 1
            &&& tally(entries).successes == files.len() - 1
        }),
{
    let entries = batch_entries(files, prefix, config);
    assert forall|i: int| 0 <= i < files.len() && i != corrupt implies #[trigger] entries[i].outcome
        == Outcome::Success { elapsed_nanos: files[i].elapsed_nanos } by {
        assert(file_result(files[i], prefix, config) is Ok);
    }
    assert forall|i: int| 0 <= i < entries.len() && i != corrupt implies succeeded(entries, i) by {
        assert(entries[i].outcome is Success);
    }
    lemma_count_all_but_one(entries, corrupt, entries.len() as int);
    lemma_tally_counts(entries);
}

} // verus!
