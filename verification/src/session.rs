//! The decisions of a download, one per outside event: what to do after the
//! request was sent, after each read of the body, and after the write.
//!
//! The caller performs the outside work (sending the request, reading from
//! the body, writing the file) and reports how each went; the functions here
//! say what happens next.

use vstd::prelude::*;

use crate::error::DownloadError;
use crate::filename::spec_resolve_filename;
use crate::header::{spec_is_success, ResponseMeta};
use crate::notice::{Notice, NoticeView};
use crate::request::Request;
use crate::transfer::{
    concat, lemma_receive_all_front, lemma_written_bytes_are_read_bytes, total_len, Output,
    OutputView, Transfer, TransferView,
};
use crate::verbosity::Verbosity;

verus! {

/// How sending the request went.
#[derive(Clone, Debug, PartialEq, Eq)]
pub enum SendOutcome {
    /// A response arrived.
    Response(ResponseMeta),
    /// The request could not be sent, or no response came back.
    Failed,
}

/// How one read of the body went.
#[derive(Clone, Copy, Debug, PartialEq, Eq)]
pub enum ReadOutcome<'a> {
    /// The bytes that the read delivered; none at the end of the body.
    Data(&'a [u8]),
    /// The read failed.
    Failed,
}

/// How writing the output file went.
#[derive(Clone, Debug, PartialEq, Eq)]
pub enum WriteOutcome {
    /// All bytes were written.
    Written,
    /// The file could not be opened, created or written, with the reason.
    Failed(String),
}

/// What follows the sending of the request.
#[derive(Debug, PartialEq, Eq)]
pub enum AfterSend {
    /// Print the notices, then read the body.
    Read { transfer: Transfer, notices: Vec<Notice> },
    /// Print the notices and stop: the status is no success, so nothing is
    /// read and no file is written. This is no error.
    Stop { notices: Vec<Notice> },
    /// Give up with the error.
    Abort(DownloadError),
}

/// What follows a read of the body.
#[derive(Debug, PartialEq, Eq)]
pub enum AfterRead {
    /// Read again.
    Read(Transfer),
    /// The body has ended: write the file.
    Write(Output),
    /// Give up with the error. Nothing is written.
    Abort(DownloadError),
}

/// What follows a read of the body, as contracts see it.
pub enum AfterReadView {
    /// Read again.
    Read(TransferView),
    /// The body has ended: write the file.
    Write(OutputView),
    /// Give up with the error. Nothing is written.
    Abort(DownloadError),
}

impl View for AfterRead {
    type V = AfterReadView;

    open spec fn view(&self) -> AfterReadView {
        match *self {
            AfterRead::Read(transfer) => AfterReadView::Read(transfer@),
            AfterRead::Write(output) => AfterReadView::Write(output@),
            AfterRead::Abort(error) => AfterReadView::Abort(error),
        }
    }
}

/// What follows one read of the body: a failed read aborts with a transport
/// error; a read that delivered no bytes ends the body; any other read is
/// taken in and the body is read again.
pub open spec fn spec_after_read(transfer: TransferView, outcome: ReadOutcome) -> AfterReadView {
    match outcome {
        ReadOutcome::Failed => AfterReadView::Abort(DownloadError::Transport),
        ReadOutcome::Data(chunk) => if chunk@.len() == 0 {
            AfterReadView::Write(transfer.finish())
        } else {
            AfterReadView::Read(transfer.receive(chunk@))
        },
    }
}

/// What follows a run of reads, taken one after the other until one of them
/// ends the body or fails. Reads after that one are not looked at. When none
/// of them does, the body is still being read.
pub open spec fn spec_replay(transfer: TransferView, reads: Seq<ReadOutcome>) -> AfterReadView
    decreases reads.len(),
{
    if reads.len() == 0 {
        AfterReadView::Read(transfer)
    } else {
        match spec_after_read(transfer, reads.first()) {
            AfterReadView::Read(next) => spec_replay(next, reads.drop_first()),
            ended => ended,
        }
    }
}

/// True for a read that delivered at least one byte.
pub open spec fn delivers(outcome: ReadOutcome) -> bool {
    outcome matches ReadOutcome::Data(chunk) && chunk@.len() > 0
}

/// The chunks that a run of reads delivered, read by read.
pub open spec fn delivered(reads: Seq<ReadOutcome>) -> Seq<Seq<u8>> {
    Seq::new(
        reads.len(),
        |i: int|
            match reads[i] {
                ReadOutcome::Data(chunk) => chunk@,
                ReadOutcome::Failed => Seq::empty(),
            },
    )
}

/// The notices that open a download whose status is a success: when verbose,
/// the status line, the content-length line and the content-type line; in
/// either case the line that names the output file.
pub open spec fn opening_notices(
    verbosity: Verbosity,
    status: u16,
    content_length: Option<u64>,
    content_type: Option<Seq<char>>,
    filename: Seq<char>,
) -> Seq<NoticeView> {
    match verbosity {
        Verbosity::Verbose => seq![
            NoticeView::Status(status),
            NoticeView::ContentLength(content_length),
            NoticeView::ContentType(content_type),
            NoticeView::SavingTo(filename),
        ],
        Verbosity::Quiet => seq![NoticeView::SavingTo(filename)],
    }
}

/// The notices for a response whose status is no success: the status line
/// when verbose, nothing when quiet.
pub open spec fn refusal_notices(verbosity: Verbosity, status: u16) -> Seq<NoticeView> {
    match verbosity {
        Verbosity::Verbose => seq![NoticeView::Status(status)],
        Verbosity::Quiet => Seq::empty(),
    }
}

/// The notice that closes a download: that the file was saved, or a file
/// failure with the reason.
pub open spec fn closing_notice(outcome: WriteOutcome) -> NoticeView {
    match outcome {
        WriteOutcome::Written => NoticeView::Saved,
        WriteOutcome::Failed(reason) => NoticeView::Failed(DownloadError::FileIo, reason@),
    }
}

/// A run of reads in which the read at `end` is the first that delivers no
/// byte or fails comes to what that read decides, with every chunk that was
/// delivered before it taken in. The reads after it change nothing.
pub proof fn lemma_replay_ends(transfer: TransferView, reads: Seq<ReadOutcome>, end: int)
    requires
        0 <= end < reads.len(),
        forall|i: int| 0 <= i < end ==> delivers(#[trigger] reads[i]),
        !delivers(reads[end]),
    ensures
        spec_replay(transfer, reads) == spec_after_read(
            transfer.receive_all(delivered(reads.take(end))),
            reads[end],
        ),
        !(spec_replay(transfer, reads) is Read),
    decreases end,
{
    let taken = delivered(reads.take(end));
    if end == 0 {
        assert(taken =~= Seq::<Seq<u8>>::empty());
        assert(transfer.receive_all(taken) == transfer);
    } else {
        assert(delivers(reads[0]));
        let next = transfer.receive(taken.first());
        let rest = reads.drop_first();
        assert(spec_replay(transfer, reads) == spec_replay(next, rest));
        assert forall|i: int| 0 <= i < end - 1 implies delivers(#[trigger] rest[i]) by {
            assert(rest[i] == reads[i + 1]);
        }
        lemma_replay_ends(next, rest, end - 1);
        assert(taken.drop_first() =~= delivered(rest.take(end - 1)));
        lemma_receive_all_front(transfer, taken);
    }
}

/// A run of reads that all deliver bytes leaves the body being read, with
/// every chunk taken in.
pub proof fn lemma_replay_continues(transfer: TransferView, reads: Seq<ReadOutcome>)
    requires
        forall|i: int| 0 <= i < reads.len() ==> delivers(#[trigger] reads[i]),
    ensures
        spec_replay(transfer, reads) == AfterReadView::Read(
            transfer.receive_all(delivered(reads)),
        ),
    decreases reads.len(),
{
    let taken = delivered(reads);
    if reads.len() == 0 {
        assert(taken =~= Seq::<Seq<u8>>::empty());
        assert(transfer.receive_all(taken) == transfer);
    } else {
        assert(delivers(reads[0]));
        let next = transfer.receive(taken.first());
        let rest = reads.drop_first();
        assert forall|i: int| 0 <= i < rest.len() implies delivers(#[trigger] rest[i]) by {
            assert(rest[i] == reads[i + 1]);
        }
        lemma_replay_continues(next, rest);
        assert(taken.drop_first() =~= delivered(rest));
        lemma_receive_all_front(transfer, taken);
    }
}

/// For every body, however the transport cuts it into reads: when the reads
/// deliver bytes up to one that delivers none, the download ends with a
/// write of exactly the delivered bytes, in the order they came, to the file
/// named after the target. The number of bytes written is the sum of the
/// reads' byte counts, and the indicator is finished at that number.
pub proof fn lemma_replay_writes_what_was_read(
    target: Seq<char>,
    content_length: Option<u64>,
    verbosity: Verbosity,
    reads: Seq<ReadOutcome>,
    end: int,
)
    requires
        0 <= end < reads.len(),
        forall|i: int| 0 <= i < end ==> delivers(#[trigger] reads[i]),
        reads[end] matches ReadOutcome::Data(chunk) && chunk@.len() == 0,
    ensures
        spec_replay(TransferView::start(target, content_length, verbosity), reads) matches
            AfterReadView::Write(output) && {
            &&& output.filename == spec_resolve_filename(target)
            &&& output.bytes == concat(delivered(reads.take(end)))
            &&& output.bytes.len() == total_len(delivered(reads.take(end)))
            &&& output.indicator.position == output.bytes.len()
            &&& output.indicator.finished
        },
{
    let start = TransferView::start(target, content_length, verbosity);
    lemma_replay_ends(start, reads, end);
    lemma_written_bytes_are_read_bytes(
        target,
        content_length,
        verbosity,
        delivered(reads.take(end)),
    );
}

/// A run of reads in which one fails before any has delivered no byte aborts
/// with a transport error: nothing is handed over for writing.
pub proof fn lemma_replay_aborts_on_failed_read(
    transfer: TransferView,
    reads: Seq<ReadOutcome>,
    end: int,
)
    requires
        0 <= end < reads.len(),
        forall|i: int| 0 <= i < end ==> delivers(#[trigger] reads[i]),
        reads[end] is Failed,
    ensures
        spec_replay(transfer, reads) == AfterReadView::Abort(DownloadError::Transport),
{
    lemma_replay_ends(transfer, reads, end);
}

/// Every notice that opens or refuses a download is one that the verbosity
/// shows: when quiet, none of them is an informational line. The line that
/// names the output file is there in either case.
pub proof fn lemma_notices_respect_verbosity(
    verbosity: Verbosity,
    status: u16,
    content_length: Option<u64>,
    content_type: Option<Seq<char>>,
    filename: Seq<char>,
)
    ensures
        ({
            let opening = opening_notices(
                verbosity,
                status,
                content_length,
                content_type,
                filename,
            );
            let refusal = refusal_notices(verbosity, status);
            &&& forall|i: int| 0 <= i < opening.len() ==> (#[trigger] opening[i]).is_shown(verbosity)
            &&& forall|i: int| 0 <= i < refusal.len() ==> (#[trigger] refusal[i]).is_shown(verbosity)
            &&& opening.last() == NoticeView::SavingTo(filename)
        }),
{
}

/// Decides what follows the sending of the request.
///
/// A failure to send aborts with a transport error. A response whose status
/// is a success starts the transfer, with the file name resolved from the
/// target as it was given and the chunk size derived from the declared
/// length. Any other response stops the download without an error.
pub fn after_send(request: &Request, outcome: SendOutcome) -> (step: AfterSend)
    ensures
        match outcome {
            SendOutcome::Failed => step == AfterSend::Abort(DownloadError::Transport),
            SendOutcome::Response(meta) => if spec_is_success(meta.status) {
                &&& step matches AfterSend::Read { transfer, notices }
                &&& transfer@ == TransferView::start(
                    request@.target,
                    meta.content_length,
                    request@.verbosity,
                )
                &&& transfer@.consistent()
                &&& notices.deep_view() == opening_notices(
                    request@.verbosity,
                    meta.status,
                    meta.content_length,
                    meta.content_type_text(),
                    transfer@.filename,
                )
            } else {
                &&& step matches AfterSend::Stop { notices }
                &&& notices.deep_view() == refusal_notices(request@.verbosity, meta.status)
            },
        },
{
    match outcome {
        SendOutcome::Failed => AfterSend::Abort(DownloadError::Transport),
        SendOutcome::Response(meta) => {
            let verbosity = request.verbosity();
            let mut notices: Vec<Notice> = Vec::new();
            if !verbosity.is_quiet() {
                notices.push(Notice::Status(meta.status));
            }
            if !meta.is_success() {
                assert(notices.deep_view() =~= refusal_notices(verbosity, meta.status));
                return AfterSend::Stop { notices };
            }
            let transfer = Transfer::start(request.target(), meta.content_length, verbosity);
            let ghost media_type = meta.content_type_text();
            if !verbosity.is_quiet() {
                notices.push(Notice::ContentLength(meta.content_length));
                notices.push(Notice::ContentType(meta.content_type));
            }
            let name = transfer.filename().to_owned();
            notices.push(Notice::SavingTo(name));
            assert(notices.deep_view() =~= opening_notices(
                verbosity,
                meta.status,
                meta.content_length,
                media_type,
                transfer@.filename,
            ));
            AfterSend::Read { transfer, notices }
        },
    }
}

/// Decides what follows a read of the body.
///
/// A failed read aborts with a transport error and nothing is written. A read
/// that delivered no bytes ends the body: the indicator is marked complete
/// and everything received is handed over for writing. Any other read is
/// appended to what was received, the indicator is advanced by its length,
/// and the body is read again.
pub fn after_read(transfer: Transfer, outcome: ReadOutcome) -> (step: AfterRead)
    ensures
        step@ == spec_after_read(transfer@, outcome),
        step matches AfterRead::Read(next) ==> next@.consistent(),
        step matches AfterRead::Write(output) ==> output@.indicator.position
            == output@.bytes.len(),
{
    match outcome {
        ReadOutcome::Failed => AfterRead::Abort(DownloadError::Transport),
        ReadOutcome::Data(chunk) => {
            if chunk.len() == 0 {
                AfterRead::Write(transfer.finish())
            } else {
                AfterRead::Read(transfer.receive(chunk))
            }
        },
    }
}

/// Runs the download loop over reads that were recorded beforehand: takes
/// them one after the other until one of them ends the body or fails, and
/// says what follows. When the reads run out before that, the body is still
/// being read.
pub fn replay(transfer: Transfer, reads: &[ReadOutcome]) -> (step: AfterRead)
    ensures
        step@ == spec_replay(transfer@, reads@),
        step matches AfterRead::Read(next) ==> next@.consistent(),
        step matches AfterRead::Write(output) ==> output@.indicator.position
            == output@.bytes.len(),
{
    let ghost start = transfer@;
    let mut current = transfer;
    let mut index: usize = 0;
    proof {
        assert(reads@.skip(0) =~= reads@);
    }
    while index < reads.len()
        invariant
            index <= reads@.len(),
            start == transfer@,
            spec_replay(start, reads@) == spec_replay(current@, reads@.skip(index as int)),
        decreases reads@.len() - index,
    {
        let ghost rest = reads@.skip(index as int);
        let ghost before = current@;
        proof {
            assert(rest.first() == reads@[index as int]);
            assert(rest.drop_first() =~= reads@.skip(index + 1));
            assert(spec_replay(before, rest) == match spec_after_read(before, rest.first()) {
                AfterReadView::Read(next) => spec_replay(next, rest.drop_first()),
                ended => ended,
            });
        }
        match after_read(current, reads[index]) {
            AfterRead::Read(next) => {
                current = next;
            },
            ended => {
                return ended;
            },
        }
        index = index + 1;
    }
    proof {
        assert(reads@.skip(index as int).len() == 0);
    }
    current.note_consistent();
    AfterRead::Read(current)
}

/// Decides what is reported after the write: that the file was saved, or a
/// file failure with the reason. Neither ends the download with an error.
pub fn after_write(outcome: WriteOutcome) -> (notice: Notice)
    ensures
        notice.deep_view() == closing_notice(outcome),
{
    match outcome {
        WriteOutcome::Written => Notice::Saved,
        WriteOutcome::Failed(reason) => Notice::Failed(DownloadError::FileIo, reason),
    }
}

} // verus!
