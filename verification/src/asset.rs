use vstd::prelude::*;

use crate::errors::{InitError, TransferError};
use crate::transfer::{
    counted_from, probed_len, transcript_outcome, chunk_sum, Downloader, InitProbe, TransferEvent,
    TransferStep,
};

verus! {

/// Which of the three assets of one shared content item a transfer fetches.
#[derive(Clone, Copy, Debug, PartialEq, Eq, Structural)]
pub enum DownloadType {
    Music,
    Cover,
    Video,
}

/// The fixed name prefix of each asset kind.
pub open spec fn kind_prefix(kind: DownloadType) -> Seq<u8> {
    match kind {
        DownloadType::Cover => seq![('c' as u8), ('o' as u8), ('v' as u8), ('e' as u8), ('r' as u8)],
        DownloadType::Music => seq![('m' as u8), ('u' as u8), ('s' as u8), ('i' as u8), ('c' as u8)],
        DownloadType::Video => seq![('v' as u8), ('i' as u8), ('d' as u8), ('e' as u8), ('o' as u8)],
    }
}

/// The fixed file extension of each asset kind.
pub open spec fn kind_ext(kind: DownloadType) -> Seq<u8> {
    match kind {
        DownloadType::Cover => seq![('j' as u8), ('p' as u8), ('e' as u8), ('g' as u8)],
        DownloadType::Music => seq![('m' as u8), ('4' as u8), ('a' as u8)],
        DownloadType::Video => seq![('m' as u8), ('p' as u8), ('4' as u8)],
    }
}

/// The collision-resistant destination of one asset:
/// `<dir>/<prefix>_<id>.<ext>`, with prefix and extension fixed by the kind.
pub open spec fn file_name_spec(kind: DownloadType, id: Seq<u8>, dir: Seq<u8>) -> Seq<u8> {
    dir + seq![('/' as u8)] + kind_prefix(kind) + seq![('_' as u8)] + id + seq![('.' as u8)] + kind_ext(kind)
}

/// Append a whole byte string to the end of another.
pub fn append_bytes(dst: &mut Vec<u8>, src: &Vec<u8>)
    ensures
        final(dst)@ == old(dst)@ + src@,
{
    let mut i: usize = 0;
    while i < src.len()
        invariant
            0 <= i <= src@.len(),
            dst@ == old(dst)@ + src@.subrange(0, i as int),
        decreases src@.len() - i,
    {
        dst.push(src[i]);
        proof {
            assert(dst@ =~= old(dst)@ + src@.subrange(0, i + 1));
        }
        i = i + 1;
    }
    proof {
        assert(dst@ =~= old(dst)@ + src@);
    }
}

/// Build the destination path of one asset under the target directory.
pub fn asset_file_name(kind: &DownloadType, id: &Vec<u8>, dir: &Vec<u8>) -> (r: Vec<u8>)
    ensures
        r@ == file_name_spec(*kind, id@, dir@),
{
    let mut out: Vec<u8> = Vec::new();
    append_bytes(&mut out, dir);
    out.push(('/' as u8));
    match kind {
        DownloadType::Cover => {
            out.push(('c' as u8));
            out.push(('o' as u8));
            out.push(('v' as u8));
            out.push(('e' as u8));
            out.push(('r' as u8));
        },
        DownloadType::Music => {
            out.push(('m' as u8));
            out.push(('u' as u8));
            out.push(('s' as u8));
            out.push(('i' as u8));
            out.push(('c' as u8));
        },
        DownloadType::Video => {
            out.push(('v' as u8));
            out.push(('i' as u8));
            out.push(('d' as u8));
            out.push(('e' as u8));
            out.push(('o' as u8));
        },
    }
    out.push(('_' as u8));
    append_bytes(&mut out, id);
    out.push(('.' as u8));
    match kind {
        DownloadType::Cover => {
            out.push(('j' as u8));
            out.push(('p' as u8));
            out.push(('e' as u8));
            out.push(('g' as u8));
        },
        DownloadType::Music => {
            out.push(('m' as u8));
            out.push(('4' as u8));
            out.push(('a' as u8));
        },
        DownloadType::Video => {
            out.push(('m' as u8));
            out.push(('p' as u8));
            out.push(('4' as u8));
        },
    }
    proof {
        assert(out@ =~= file_name_spec(*kind, id@, dir@));
    }
    out
}

/// One asset's transfer: a downloader bound to the asset's own destination
/// file under the target directory. Construction applies the naming scheme
/// and fixes the total; the transfer itself and the progress reads pass
/// through to the wrapped downloader.
pub struct DouyinDownloader {
    inner: Downloader,
}

impl DouyinDownloader {
    pub closed spec fn spec_inner(self) -> Downloader {
        self.inner
    }

    pub open spec fn wf(self) -> bool {
        self.spec_inner().wf()
    }

    pub open spec fn spec_total(self) -> u64 {
        self.spec_inner().spec_total()
    }

    pub open spec fn spec_downloaded(self) -> u64 {
        self.spec_inner().spec_downloaded()
    }

    pub open spec fn spec_source_url(self) -> Seq<u8> {
        self.spec_inner().spec_source_url()
    }

    pub open spec fn spec_dest_path(self) -> Seq<u8> {
        self.spec_inner().spec_dest_path()
    }

    /// Bind one asset to its destination and set its transfer up. The
    /// destination file is `<prefix>_<id>.<ext>` under `dirname`; the total
    /// is fixed as the probed length, the counter starts at zero. Fails
    /// exactly when the directory is unusable or no length was probed.
    pub fn new(
        aweme_id: Vec<u8>,
        url: Vec<u8>,
        mode: DownloadType,
        dirname: Vec<u8>,
        probe: InitProbe,
    ) -> (r: Result<DouyinDownloader, InitError>)
        ensures
            !probe.dest_writable ==> r == Err::<DouyinDownloader, InitError>(
                InitError::DestinationUnwritable,
            ),
            probe.dest_writable && probe.content_length is None ==> r == Err::<
                DouyinDownloader,
                InitError,
            >(InitError::SizeUnknown),
            (probe.dest_writable && probe.content_length is Some) ==> ({
                &&& r matches Ok(d)
                &&& d.wf()
                &&& d.spec_total() == probed_len(probe)
                &&& d.spec_downloaded() == 0
                &&& d.spec_source_url() == url@
                &&& d.spec_dest_path() == file_name_spec(mode, aweme_id@, dirname@)
            }),
    {
        let filepath = asset_file_name(&mode, &aweme_id, &dirname);
        match Downloader::new(url, filepath, None, probe) {
            Ok(inner) => Ok(DouyinDownloader { inner }),
            Err(e) => Err(e),
        }
    }

    /// Run one whole transfer attempt from a transcript of chunk lengths;
    /// the contract of `Downloader::download`, word for word.
    pub fn download(&mut self, chunks: &Vec<u64>) -> (r: Result<bool, TransferError>)
        requires
            old(self).wf(),
        ensures
            final(self).wf(),
            final(self).spec_total() == old(self).spec_total(),
            final(self).spec_source_url() == old(self).spec_source_url(),
            final(self).spec_dest_path() == old(self).spec_dest_path(),
            final(self).spec_downloaded() >= old(self).spec_downloaded(),
            r == transcript_outcome(
                old(self).spec_total() - old(self).spec_downloaded(),
                chunks@,
                0,
            ),
            final(self).spec_downloaded() == old(self).spec_downloaded() + counted_from(
                old(self).spec_total() - old(self).spec_downloaded(),
                chunks@,
                0,
            ),
            r is Ok <==> chunk_sum(chunks@) == old(self).spec_total() - old(self).spec_downloaded(),
            r is Ok ==> final(self).spec_downloaded() == final(self).spec_total(),
    {
        self.inner.download(chunks)
    }

    /// Take one transport event; the contract of `Downloader::transfer_step`.
    pub fn transfer_step(&mut self, ev: TransferEvent) -> (r: TransferStep)
        requires
            old(self).wf(),
        ensures
            final(self).wf(),
            final(self).spec_total() == old(self).spec_total(),
            final(self).spec_downloaded() >= old(self).spec_downloaded(),
            final(self).spec_source_url() == old(self).spec_source_url(),
            final(self).spec_dest_path() == old(self).spec_dest_path(),
            (match ev {
                TransferEvent::Chunk(len) => {
                    if old(self).spec_downloaded() + len <= old(self).spec_total() {
                        r == TransferStep::Continue && final(self).spec_downloaded() == old(self).spec_downloaded() + len
                    } else {
                        r == TransferStep::Failed(TransferError::Overrun) && final(self).spec_downloaded() == old(self).spec_downloaded()
                    }
                },
                TransferEvent::End => {
                    &&& final(self).spec_downloaded() == old(self).spec_downloaded()
                    &&& if old(self).spec_downloaded() == old(self).spec_total() {
                        r == TransferStep::Done
                    } else {
                        r == TransferStep::Failed(TransferError::PrematureEnd)
                    }
                },
                TransferEvent::NetworkError => r == TransferStep::Failed(TransferError::Interrupted)
                    && final(self).spec_downloaded() == old(self).spec_downloaded(),
                TransferEvent::WriteError => r == TransferStep::Failed(TransferError::WriteFailed)
                    && final(self).spec_downloaded() == old(self).spec_downloaded(),
            }),
    {
        self.inner.transfer_step(ev)
    }

    /// The fixed total of this asset's transfer; the same value on every
    /// call for the lifetime of one instance.
    pub fn filesize(&self) -> (r: u64)
        ensures
            r == self.spec_total(),
    {
        self.inner.total_size()
    }

    /// The running byte count at this instant.
    pub fn downloaded_size(&self) -> (r: u64)
        ensures
            r == self.spec_downloaded(),
    {
        self.inner.downloaded_size()
    }

    /// The destination file this asset was bound to.
    pub fn dest_path(&self) -> (r: &Vec<u8>)
        ensures
            r@ == self.spec_dest_path(),
    {
        self.inner.dest_path()
    }
}

} // verus!
