//! Proximity-tag payloads and their identifiers.

use vstd::prelude::*;
use vstd::slice::slice_to_vec;

verus! {

/// The tag families the co-processor reports.
#[derive(Debug, Clone, Copy, PartialEq, Eq, Hash, Structural)]
pub enum NFCTagType {
    Amiibo,
}

/// A tag's identifier: payload bytes 0 to 2 concatenated with bytes 4 to 7.
pub open spec fn spec_uid(d: Seq<u8>) -> Seq<u8> {
    seq![d[0], d[1], d[2], d[4], d[5], d[6], d[7]]
}

/// A scanned proximity-tag payload: a byte blob (540 or 572 bytes for the
/// supported family), its type, and the storage path it was loaded from, if
/// any.
#[derive(Debug, Clone)]
pub struct NFCTag {
    pub data: Vec<u8>,
    pub tag_type: NFCTagType,
    pub source: Option<String>,
}

impl NFCTag {
    /// The payload is long enough to carry an identifier.
    pub open spec fn wf(self) -> bool {
        self.data@.len() >= 8
    }

    /// Wraps a payload; the type defaults to the supported family.
    pub fn new(data: &[u8], tag_type: Option<NFCTagType>, source: Option<String>) -> (r: Self)
        ensures
            r.data@ == data@,
            r.tag_type == (if tag_type is Some {
                tag_type->0
            } else {
                NFCTagType::Amiibo
            }),
            r.source == source,
    {
        let tag_type = match tag_type {
            Some(t) => t,
            None => NFCTagType::Amiibo,
        };
        Self { data: slice_to_vec(data), tag_type, source }
    }

    /// The tag's identifier: payload bytes 0 to 2 concatenated with bytes 4
    /// to 7.
    pub fn get_uid(&self) -> (r: [u8; 7])
        requires
            self.wf(),
        ensures
            r@ == spec_uid(self.data@),
    {
        let r = [
            self.data[0],
            self.data[1],
            self.data[2],
            self.data[4],
            self.data[5],
            self.data[6],
            self.data[7],
        ];
        proof {
            assert(r@ =~= spec_uid(self.data@));
        }
        r
    }

    /// Overwrites `data.len()` payload bytes starting at `idx`; the write
    /// must lie inside the payload.
    pub fn write(&mut self, idx: usize, data: &[u8])
        requires
            idx + data@.len() <= old(self).data@.len(),
        ensures
            final(self).data@.len() == old(self).data@.len(),
            forall|i: int|
                0 <= i < final(self).data@.len() ==> final(self).data@[i] == (if idx <= i < idx
                    + data@.len() {
                    data@[i - idx]
                } else {
                    old(self).data@[i]
                }),
            final(self).tag_type == old(self).tag_type,
            final(self).source == old(self).source,
    {
        let n = data.len();
        let total = self.data.len();
        let mut k: usize = 0;
        while k < n
            invariant
                0 <= k <= n,
                n == data@.len(),
                total == self.data@.len(),
                idx + n <= total,
                self.data@.len() == old(self).data@.len(),
                self.tag_type == old(self).tag_type,
                self.source == old(self).source,
                forall|i: int|
                    0 <= i < self.data@.len() ==> self.data@[i] == (if idx <= i < idx + k {
                        data@[i - idx]
                    } else {
                        old(self).data@[i]
                    }),
            decreases n - k,
        {
            self.data[idx + k] = data[k];
            k += 1;
        }
    }
}

} // verus!
