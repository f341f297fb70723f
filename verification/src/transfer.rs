//! The state of a download while its body is read, and what is handed to the
//! writer when the body has ended.

use vstd::prelude::*;

use crate::chunk::{chunk_size, spec_chunk_size};
use crate::filename::{resolve_filename, spec_resolve_filename};
use crate::progress::{
    create_progress_bar, spec_create_progress_bar, IndicatorView, ProgressIndicator,
};
use crate::verbosity::Verbosity;

verus! {

/// What the writer is given, as contracts see it.
pub struct OutputView {
    /// The name of the file to create or truncate.
    pub filename: Seq<char>,
    /// The bytes to write, all in one call.
    pub bytes: Seq<u8>,
    /// The indicator as the download left it.
    pub indicator: IndicatorView,
}

/// A transfer as contracts see it.
pub struct TransferView {
    /// The name of the file the body will be saved to.
    pub filename: Seq<char>,
    /// The most bytes one read asks for.
    pub chunk_size: nat,
    /// The bytes received so far, in the order they were delivered.
    pub received: Seq<u8>,
    /// The progress indicator.
    pub indicator: IndicatorView,
}

impl TransferView {
    /// The transfer at its start: the file name resolved from the target, the
    /// chunk size derived from the declared length, nothing received, and a
    /// fresh indicator that carries the file name as its message.
    pub open spec fn start(
        target: Seq<char>,
        content_length: Option<u64>,
        verbosity: Verbosity,
    ) -> TransferView {
        TransferView {
            filename: spec_resolve_filename(target),
            chunk_size: spec_chunk_size(content_length) as nat,
            received: Seq::empty(),
            indicator: spec_create_progress_bar(
                verbosity,
                spec_resolve_filename(target),
                content_length,
            ),
        }
    }

    /// What holds of a transfer at every point: the indicator has been
    /// advanced by exactly the number of bytes received, it is not finished,
    /// and a read asks for at least one byte.
    pub open spec fn consistent(self) -> bool {
        &&& self.indicator.position == self.received.len()
        &&& !self.indicator.finished
        &&& self.chunk_size >= 1
    }

    /// The transfer after one more chunk: the chunk is appended to what was
    /// received and the indicator is advanced by the chunk's length.
    pub open spec fn receive(self, chunk: Seq<u8>) -> TransferView {
        TransferView {
            received: self.received + chunk,
            indicator: self.indicator.advanced(chunk.len()),
            ..self
        }
    }

    /// The transfer after the given chunks, one after the other.
    pub open spec fn receive_all(self, chunks: Seq<Seq<u8>>) -> TransferView
        decreases chunks.len(),
    {
        if chunks.len() == 0 {
            self
        } else {
            self.receive_all(chunks.drop_last()).receive(chunks.last())
        }
    }

    /// What the writer is given when the body has ended: the file name, all
    /// bytes received, and the indicator marked complete.
    pub open spec fn finish(self) -> OutputView {
        OutputView {
            filename: self.filename,
            bytes: self.received,
            indicator: self.indicator.completed(),
        }
    }
}

/// The bytes of the given chunks, one chunk after the other.
pub open spec fn concat(chunks: Seq<Seq<u8>>) -> Seq<u8>
    decreases chunks.len(),
{
    if chunks.len() == 0 {
        Seq::empty()
    } else {
        concat(chunks.drop_last()) + chunks.last()
    }
}

/// The sum of the lengths of the given chunks.
pub open spec fn total_len(chunks: Seq<Seq<u8>>) -> nat
    decreases chunks.len(),
{
    if chunks.len() == 0 {
        0
    } else {
        total_len(chunks.drop_last()) + chunks.last().len()
    }
}

/// However the body is cut into chunks, a transfer that takes them one after
/// the other has received exactly their bytes, in the order delivered, on top
/// of what it had; the number of bytes added is the sum of the chunks'
/// lengths, the indicator has been advanced by that sum, and the transfer
/// stays consistent. The file name and the chunk size do not change.
pub proof fn lemma_receive_all(start: TransferView, chunks: Seq<Seq<u8>>)
    requires
        start.consistent(),
    ensures
        start.receive_all(chunks).received == start.received + concat(chunks),
        concat(chunks).len() == total_len(chunks),
        start.receive_all(chunks).indicator == start.indicator.advanced(total_len(chunks)),
        start.receive_all(chunks).filename == start.filename,
        start.receive_all(chunks).chunk_size == start.chunk_size,
        start.receive_all(chunks).consistent(),
    decreases chunks.len(),
{
    if chunks.len() == 0 {
        assert(start.received + concat(chunks) =~= start.received);
    } else {
        lemma_receive_all(start, chunks.drop_last());
        assert(start.received + concat(chunks.drop_last()) + chunks.last() =~= start.received
            + concat(chunks));
    }
}

/// Taking chunks one after the other is the same as taking the first and
/// then the rest.
pub proof fn lemma_receive_all_front(start: TransferView, chunks: Seq<Seq<u8>>)
    requires
        chunks.len() > 0,
    ensures
        start.receive_all(chunks) == start.receive(chunks.first()).receive_all(
            chunks.drop_first(),
        ),
    decreases chunks.len(),
{
    if chunks.len() == 1 {
        assert(chunks.drop_last() =~= Seq::<Seq<u8>>::empty());
        assert(chunks.drop_first() =~= Seq::<Seq<u8>>::empty());
        assert(start.receive_all(chunks.drop_last()) == start);
    } else {
        lemma_receive_all_front(start, chunks.drop_last());
        assert(chunks.drop_last().drop_first() =~= chunks.drop_first().drop_last());
        assert(chunks.drop_last().first() == chunks.first());
        assert(chunks.drop_first().last() == chunks.last());
    }
}

/// For every body and every way of cutting it into reads, the bytes handed
/// to the writer at the end of a download are the bytes that the reads
/// delivered, in order; their number is the sum of the reads' byte counts,
/// and the finished indicator stands at that number.
pub proof fn lemma_written_bytes_are_read_bytes(
    target: Seq<char>,
    content_length: Option<u64>,
    verbosity: Verbosity,
    chunks: Seq<Seq<u8>>,
)
    ensures
        ({
            let output = TransferView::start(target, content_length, verbosity).receive_all(
                chunks,
            ).finish();
            &&& output.bytes == concat(chunks)
            &&& output.bytes.len() == total_len(chunks)
            &&& output.indicator.position == total_len(chunks)
            &&& output.indicator.finished
            &&& output.indicator.length() == spec_create_progress_bar(
                verbosity,
                spec_resolve_filename(target),
                content_length,
            ).length()
            &&& output.filename == spec_resolve_filename(target)
        }),
{
    let start = TransferView::start(target, content_length, verbosity);
    lemma_receive_all(start, chunks);
    assert(start.received + concat(chunks) =~= concat(chunks));
}

/// What the writer is given when the body has ended.
#[derive(Clone, Debug, PartialEq, Eq)]
pub struct Output {
    /// The name of the file to create or truncate.
    pub filename: String,
    /// The bytes to write, all in one call.
    pub bytes: Vec<u8>,
    /// The indicator as the download left it.
    pub indicator: ProgressIndicator,
}

impl View for Output {
    type V = OutputView;

    open spec fn view(&self) -> OutputView {
        OutputView { filename: self.filename@, bytes: self.bytes@, indicator: self.indicator@ }
    }
}

/// A download whose body is being read.
#[derive(Debug, PartialEq, Eq)]
pub struct Transfer {
    filename: String,
    chunk_size: u64,
    buffer: Vec<u8>,
    indicator: ProgressIndicator,
}

impl View for Transfer {
    type V = TransferView;

    closed spec fn view(&self) -> TransferView {
        TransferView {
            filename: self.filename@,
            chunk_size: self.chunk_size as nat,
            received: self.buffer@,
            indicator: self.indicator@,
        }
    }
}

impl Transfer {
    #[verifier::type_invariant]
    spec fn well_formed(self) -> bool {
        self@.consistent()
    }

    /// Starts the transfer for a target whose response declared the given
    /// content length.
    pub fn start(target: &str, content_length: Option<u64>, verbosity: Verbosity) -> (transfer:
        Transfer)
        ensures
            transfer@ == TransferView::start(target@, content_length, verbosity),
            transfer@.consistent(),
    {
        let filename = resolve_filename(target);
        let indicator = create_progress_bar(verbosity, filename.as_str(), content_length);
        Transfer {
            filename,
            chunk_size: chunk_size(content_length),
            buffer: Vec::new(),
            indicator,
        }
    }

    /// Does nothing when run; tells the caller's proof that the transfer is
    /// consistent, as every transfer is.
    pub(crate) fn note_consistent(&self)
        ensures
            self@.consistent(),
    {
        proof {
            use_type_invariant(self);
        }
    }

    /// The name of the file the body will be saved to.
    pub fn filename(&self) -> (name: &str)
        ensures
            name@ == self@.filename,
    {
        self.filename.as_str()
    }

    /// The most bytes one read asks for: at least one.
    pub fn chunk_size(&self) -> (size: u64)
        ensures
            size == self@.chunk_size,
            size >= 1,
    {
        proof {
            use_type_invariant(self);
        }
        self.chunk_size
    }

    /// The chunk size as the size of a read buffer: the chunk size itself
    /// where the machine can address that many bytes, the most it can
    /// address otherwise.
    pub fn read_limit(&self) -> (limit: usize)
        ensures
            limit == (if self@.chunk_size <= usize::MAX {
                self@.chunk_size
            } else {
                usize::MAX as nat
            }),
            limit >= 1,
    {
        proof {
            use_type_invariant(self);
        }
        if self.chunk_size <= usize::MAX as u64 {
            self.chunk_size as usize
        } else {
            usize::MAX
        }
    }

    /// The bytes received so far. The indicator has been advanced by exactly
    /// their number.
    pub fn received(&self) -> (bytes: &[u8])
        ensures
            bytes@ == self@.received,
            bytes@.len() == self@.indicator.position,
    {
        proof {
            use_type_invariant(self);
        }
        self.buffer.as_slice()
    }

    /// The progress indicator: advanced by the number of bytes received, and
    /// not finished.
    pub fn indicator(&self) -> (indicator: &ProgressIndicator)
        ensures
            indicator@ == self@.indicator,
            indicator@.position == self@.received.len(),
            !indicator@.finished,
    {
        proof {
            use_type_invariant(self);
        }
        &self.indicator
    }

    /// Takes one chunk of the body: appends it to what was received and
    /// advances the indicator by its length.
    pub fn receive(self, chunk: &[u8]) -> (next: Transfer)
        ensures
            next@ == self@.receive(chunk@),
            next@.consistent(),
    {
        proof {
            use_type_invariant(&self);
        }
        let Transfer { filename, chunk_size, mut buffer, mut indicator } = self;
        let ghost before = buffer@;
        buffer.extend_from_slice(chunk);
        assert(buffer@ =~= before + chunk@);
        assert(before.len() + chunk@.len() == buffer.len() <= usize::MAX);
        indicator.inc(chunk.len() as u64);
        Transfer { filename, chunk_size, buffer, indicator }
    }

    /// Ends the transfer: marks the indicator complete, whether or not the
    /// bytes received are as many as were declared, and gives up the file
    /// name and the bytes for writing.
    pub fn finish(self) -> (output: Output)
        ensures
            output@ == self@.finish(),
            output@.indicator.position == output@.bytes.len(),
    {
        proof {
            use_type_invariant(&self);
        }
        let Transfer { filename, chunk_size: _, buffer, mut indicator } = self;
        indicator.finish();
        Output { filename, bytes: buffer, indicator }
    }
}

} // verus!
