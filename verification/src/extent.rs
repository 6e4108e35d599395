//! Extent reader: the physical extents of a file as the kernel maps them,
//! cleaned of inline data, and the equality test between two such sequences.

use vstd::prelude::*;
use crate::identity::{FailureKind, IoFailure};

verus! {

/// The bit of an extent's flag word that the kernel sets on an extent whose
/// data is stored inline, mixed with metadata, and not in a block of its own.
pub const FIEMAP_EXTENT_FLAG_INLINE: u32 = 0x0000_0200;

/// Error number: no such device or address.
pub const ENXIO: i32 = 6;

/// Error number: inappropriate ioctl for device.
pub const ENOTTY: i32 = 25;

/// Error number: operation not supported.
pub const EOPNOTSUPP: i32 = 95;

/// One contiguous run of storage that belongs to a file.
#[derive(Clone, Copy, Debug, PartialEq, Eq)]
pub struct Extent {
    pub physical_offset: u64,
    pub length: u64,
    pub flags: u32,
}

/// The failures of an extent query after which a file simply cannot be
/// compared, and which are not worth a diagnostic.
#[derive(Clone, Copy, Debug, PartialEq, Eq)]
pub enum BenignFailure {
    /// The file vanished between the walk and the query.
    Vanished,
    /// The file may not be opened or queried.
    PermissionDenied,
    /// No such device or address.
    NoSuchDevice,
    /// The operation is not supported on this inode.
    NotSupported,
    /// The extent query is no operation of this device.
    InappropriateIoctl,
}

impl Extent {
    /// Whether the extent stands for data kept in metadata, not in a block.
    pub open spec fn is_inline(self) -> bool {
        self.flags & FIEMAP_EXTENT_FLAG_INLINE != 0
    }

    /// Where the extent lies on disk: physical offset and length, no flags.
    pub open spec fn placement(self) -> (u64, u64) {
        (self.physical_offset, self.length)
    }

    /// Whether the extent stands for data kept in metadata, not in a block.
    pub fn holds_inline_data(&self) -> (inline: bool)
        ensures
            inline == self.is_inline(),
    {
        self.flags & FIEMAP_EXTENT_FLAG_INLINE != 0
    }
}

/// The extents of `mapped` that are real block allocations, in their order.
pub open spec fn physical_extents(mapped: Seq<Extent>) -> Seq<Extent> {
    mapped.filter(|e: Extent| !e.is_inline())
}

/// The on-disk layout of an extent sequence: the placement of each extent,
/// in order.
pub open spec fn layout(extents: Seq<Extent>) -> Seq<(u64, u64)> {
    extents.map_values(|e: Extent| e.placement())
}

/// Two extent sequences are fully shared when they have the same length and
/// agree, index by index, on physical offset and length.
pub open spec fn fully_shared(a: Seq<Extent>, b: Seq<Extent>) -> bool {
    layout(a) == layout(b)
}

/// What `get_extents` owes for each outcome of the extent query.
pub open spec fn cleaned(mapped: Result<Seq<Extent>, IoFailure>) -> Result<
    Seq<Extent>,
    IoFailure,
> {
    match mapped {
        Ok(raw) => Ok(physical_extents(raw)),
        Err(failure) => Err(failure),
    }
}

/// The view of an extent query's outcome.
pub open spec fn query_view(mapped: Result<Vec<Extent>, IoFailure>) -> Result<
    Seq<Extent>,
    IoFailure,
> {
    match mapped {
        Ok(raw) => Ok(raw@),
        Err(failure) => Err(failure),
    }
}

/// Full sharing, index by index.
pub proof fn fully_shared_pointwise(a: Seq<Extent>, b: Seq<Extent>)
    ensures
        fully_shared(a, b) <==> (a.len() == b.len() && forall|i: int|
            0 <= i < a.len() ==> a[i].physical_offset == b[i].physical_offset && a[i].length
                == b[i].length),
{
    if fully_shared(a, b) {
        assert(layout(a).len() == a.len());
        assert(layout(b).len() == b.len());
        assert forall|i: int| 0 <= i < a.len() implies a[i].physical_offset
            == b[i].physical_offset && a[i].length == b[i].length by {
            assert(layout(a)[i] == a[i].placement());
            assert(layout(b)[i] == b[i].placement());
        }
    }
    if a.len() == b.len() && (forall|i: int|
        0 <= i < a.len() ==> a[i].physical_offset == b[i].physical_offset && a[i].length
            == b[i].length) {
        assert(layout(a) =~= layout(b));
    }
}

/// The extents of an extent map that are real block allocations, in the
/// order of the map.
pub fn retain_physical(mapped: &[Extent]) -> (kept: Vec<Extent>)
    ensures
        kept@ == physical_extents(mapped@),
{
    let mut kept: Vec<Extent> = Vec::new();
    let mut i: usize = 0;
    let ghost keep = |e: Extent| !e.is_inline();
    proof {
        assert(mapped@.take(0) =~= Seq::<Extent>::empty());
    }
    while i < mapped.len()
        invariant
            i <= mapped.len(),
            keep == (|e: Extent| !e.is_inline()),
            kept@ == mapped@.take(i as int).filter(keep),
        decreases mapped.len() - i,
    {
        let e = mapped[i];
        proof {
            assert(mapped@.take(i + 1) =~= mapped@.take(i as int).push(e));
            mapped@.take(i as int).lemma_filter_push(e, keep);
        }
        if !e.holds_inline_data() {
            kept.push(e);
        }
        i += 1;
    }
    proof {
        assert(mapped@.take(i as int) =~= mapped@);
    }
    kept
}

/// Keeps the extents of a file's extent map that are real block allocations,
/// in the order in which the kernel reported them; a failed query stays the
/// failure that it was.
pub fn get_extents(mapped: Result<Vec<Extent>, IoFailure>) -> (extents: Result<
    Vec<Extent>,
    IoFailure,
>)
    ensures
        query_view(extents) == cleaned(query_view(mapped)),
{
    match mapped {
        Ok(raw) => Ok(retain_physical(raw.as_slice())),
        Err(failure) => Err(failure),
    }
}

/// Whether two extent sequences describe the same storage: equal length and,
/// pair by pair in order, equal physical offset and equal length. Flags are
/// not compared.
pub fn same_extents(extents1: &[Extent], extents2: &[Extent]) -> (same: bool)
    ensures
        same == fully_shared(extents1@, extents2@),
{
    if extents1.len() != extents2.len() {
        proof {
            fully_shared_pointwise(extents1@, extents2@);
        }
        return false;
    }
    let mut i: usize = 0;
    while i < extents1.len()
        invariant
            i <= extents1.len(),
            extents1.len() == extents2.len(),
            forall|j: int|
                0 <= j < i ==> extents1@[j].physical_offset == extents2@[j].physical_offset
                    && extents1@[j].length == extents2@[j].length,
        decreases extents1.len() - i,
    {
        if extents1[i].physical_offset != extents2[i].physical_offset || extents1[i].length
            != extents2[i].length {
            proof {
                fully_shared_pointwise(extents1@, extents2@);
            }
            return false;
        }
        i += 1;
    }
    proof {
        fully_shared_pointwise(extents1@, extents2@);
    }
    true
}

impl IoFailure {
    /// The benign failure that this failure of an extent query is, if it is
    /// one: the file vanished, access was denied, or the file system or the
    /// device does not answer extent queries.
    pub open spec fn benign(self) -> Option<BenignFailure> {
        if self.kind == FailureKind::NotFound {
            Some(BenignFailure::Vanished)
        } else if self.kind == FailureKind::PermissionDenied {
            Some(BenignFailure::PermissionDenied)
        } else if self.os_code == Some(ENXIO) {
            Some(BenignFailure::NoSuchDevice)
        } else if self.os_code == Some(EOPNOTSUPP) {
            Some(BenignFailure::NotSupported)
        } else if self.os_code == Some(ENOTTY) {
            Some(BenignFailure::InappropriateIoctl)
        } else {
            None
        }
    }
}

/// Maps the failure of an extent query to the benign failure that it is, or
/// to `None` where it deserves a diagnostic.
pub fn benign_failure(failure: &IoFailure) -> (benign: Option<BenignFailure>)
    ensures
        benign == failure.benign(),
{
    match failure.kind {
        FailureKind::NotFound => Some(BenignFailure::Vanished),
        FailureKind::PermissionDenied => Some(BenignFailure::PermissionDenied),
        FailureKind::Other => match failure.os_code {
            Some(code) => {
                if code == ENXIO {
                    Some(BenignFailure::NoSuchDevice)
                } else if code == EOPNOTSUPP {
                    Some(BenignFailure::NotSupported)
                } else if code == ENOTTY {
                    Some(BenignFailure::InappropriateIoctl)
                } else {
                    None
                }
            },
            None => None,
        },
    }
}

} // verus!
