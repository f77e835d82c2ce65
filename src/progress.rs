//! Counting the bytes of an upload as its chunks go out.
use vstd::prelude::*;

verus! {

/// A report that `uploaded` bytes of the upload tagged `uuid` have gone out.
#[derive(Debug, Clone, Copy, PartialEq, Eq, Structural)]
pub struct UploadedMessage {
    pub uuid: u128,
    pub uploaded: u64,
}

/// The count after a chunk of `len` bytes: the sum, but never past `total`.
pub open spec fn advance(uploaded: u64, total: u64, len: usize) -> u64 {
    if uploaded as int + len as int >= total as int {
        total
    } else {
        (uploaded + len) as u64
    }
}

/// The reports sent for a chunk after which the count is `uploaded`: the new
/// count, then once more the total where the upload is complete.
pub open spec fn chunk_reports(uuid: u128, uploaded: u64, total: u64) -> Seq<UploadedMessage> {
    if uploaded >= total {
        seq![UploadedMessage { uuid, uploaded }, UploadedMessage { uuid, uploaded: total }]
    } else {
        seq![UploadedMessage { uuid, uploaded }]
    }
}

/// The count after chunks of the given lengths, starting from nothing.
pub open spec fn uploaded_after(total: u64, lens: Seq<usize>) -> u64
    decreases lens.len(),
{
    if lens.len() == 0 {
        0
    } else {
        advance(uploaded_after(total, lens.drop_last()), total, lens.last())
    }
}

/// The number of bytes in chunks of the given lengths.
pub open spec fn sum_lens(lens: Seq<usize>) -> int
    decreases lens.len(),
{
    if lens.len() == 0 {
        0
    } else {
        sum_lens(lens.drop_last()) + lens.last()
    }
}

/// The progress of one upload of `total` bytes.
#[derive(Debug)]
pub struct UploadProgress {
    pub uuid: u128,
    pub uploaded: u64,
    pub total: u64,
}

impl UploadProgress {
    /// The count never passes the size of the file.
    pub open spec fn wf(&self) -> bool {
        self.uploaded <= self.total
    }

    /// Progress of an upload of `total` bytes that has not started.
    pub fn new(uuid: u128, total: u64) -> (r: Self)
        ensures
            r.wf(),
            r.uuid == uuid,
            r.uploaded == 0,
            r.total == total,
    {
        UploadProgress { uuid, uploaded: 0, total }
    }

    /// Counts a chunk of `len` bytes that has gone out, and returns the
    /// reports to send for it, in order.
    pub fn on_chunk(&mut self, len: usize) -> (r: Vec<UploadedMessage>)
        requires
            old(self).wf(),
        ensures
            final(self).wf(),
            final(self).uuid == old(self).uuid,
            final(self).total == old(self).total,
            final(self).uploaded == advance(old(self).uploaded, old(self).total, len),
            r@ == chunk_reports(old(self).uuid, final(self).uploaded, old(self).total),
    {
        let room: u64 = self.total - self.uploaded;
        let new: u64 = if len as u64 >= room {
            self.total
        } else {
            self.uploaded + len as u64
        };
        self.uploaded = new;
        let mut r: Vec<UploadedMessage> = Vec::new();
        r.push(UploadedMessage { uuid: self.uuid, uploaded: new });
        if new >= self.total {
            r.push(UploadedMessage { uuid: self.uuid, uploaded: self.total });
        }
        proof {
            assert(r@ =~= chunk_reports(old(self).uuid, new, old(self).total));
        }
        r
    }
}

/// Counting chunk by chunk gives the number of bytes sent, cut at the total.
pub proof fn lemma_uploaded_is_capped_sum(total: u64, lens: Seq<usize>)
    ensures
        uploaded_after(total, lens) as int == if sum_lens(lens) >= total as int {
            total as int
        } else {
            sum_lens(lens)
        },
    decreases lens.len(),
{
    if lens.len() > 0 {
        lemma_uploaded_is_capped_sum(total, lens.drop_last());
    }
}

/// The count never goes down: after more chunks it is at least what it was,
/// and it never passes the total.
pub proof fn lemma_uploaded_monotone(total: u64, lens: Seq<usize>, i: int, j: int)
    requires
        0 <= i <= j <= lens.len(),
    ensures
        uploaded_after(total, lens.take(i)) <= uploaded_after(total, lens.take(j)),
        uploaded_after(total, lens.take(j)) <= total,
    decreases j - i,
{
    if i < j {
        lemma_uploaded_monotone(total, lens, i, j - 1);
        assert(lens.take(j).drop_last() =~= lens.take(j - 1));
        lemma_uploaded_bounded(total, lens.take(j - 1));
    } else {
        lemma_uploaded_bounded(total, lens.take(j));
    }
}

/// The count after any chunks is at most the total.
pub proof fn lemma_uploaded_bounded(total: u64, lens: Seq<usize>)
    ensures
        uploaded_after(total, lens) <= total,
    decreases lens.len(),
{
    if lens.len() > 0 {
        lemma_uploaded_bounded(total, lens.drop_last());
    }
}

/// Each report sent for a chunk lies between the count before the chunk and
/// the total, and names the count after it; the report comes twice exactly
/// where the upload is then complete.
pub proof fn lemma_reports_between(uuid: u128, uploaded: u64, total: u64, len: usize)
    requires
        uploaded <= total,
    ensures
        ({
            let after = advance(uploaded, total, len);
            let reports = chunk_reports(uuid, after, total);
            &&& forall|k: int| 0 <= k < reports.len() ==> uploaded <= #[trigger] reports[k].uploaded <= total
            &&& forall|k: int| 0 <= k < reports.len() ==> (#[trigger] reports[k]).uploaded == after
            &&& reports.len() == if after == total { 2int } else { 1int }
            &&& forall|k: int| 0 <= k < reports.len() ==> (#[trigger] reports[k]).uuid == uuid
        }),
{
}

} // verus!
