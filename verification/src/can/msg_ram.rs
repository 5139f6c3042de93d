//! The message RAM of a module: the window that a node gets of it, and the
//! plan that places the node's buffers, FIFOs and filter lists in the window.
//!
//! Regions are placed in the order in which they are asked for, each one
//! directly behind the one before it, the first one at the start of the
//! window. Nothing is reordered to save space.

use vstd::prelude::*;
use crate::can::can_node::DataFieldSize;

verus! {

/// The highest offset that a start address field of the controller can hold.
pub const MESSAGE_RAM_LIMIT: u32 = 0xfffc;

/// The bytes of an element before its data field: identifier, flags and time stamp.
pub const ELEMENT_HEADER_BYTES: u8 = 8;

/// What a region of the message RAM holds.
#[derive(Clone, Copy, Debug, PartialEq, Eq, Structural)]
pub enum RegionKind {
    /// Dedicated receive buffers.
    RxBuffers,
    /// Receive FIFO 0.
    RxFifo0,
    /// Receive FIFO 1.
    RxFifo1,
    /// Dedicated transmit buffers.
    TxBuffers,
    /// The transmit FIFO or queue.
    TxFifoQueue,
    /// The transmit event FIFO.
    TxEventFifo,
    /// The filters for standard identifiers.
    StandardFilters,
    /// The filters for extended identifiers.
    ExtendedFilters,
}

/// A region that is asked for: so many elements of such a kind.
#[derive(Clone, Copy, Debug, PartialEq, Eq, Structural)]
pub struct RegionRequest {
    /// What the region holds.
    pub kind: RegionKind,
    /// The size of the data field of each element. It is not looked at
    /// for the transmit event FIFO and the filter lists, whose elements
    /// have no data field.
    pub field_size: DataFieldSize,
    /// The number of elements.
    pub count: u8,
}

/// A region that has its place.
#[derive(Clone, Copy, Debug, PartialEq, Eq, Structural)]
pub struct Region {
    /// What the region holds.
    pub kind: RegionKind,
    /// The size of the data field of each element. It is not looked at
    /// for the transmit event FIFO and the filter lists, whose elements
    /// have no data field.
    pub field_size: DataFieldSize,
    /// The number of elements.
    pub count: u8,
    /// The offset of the first element from the start of the message RAM, in bytes.
    pub start_address: u16,
}

/// The regions asked for need more bytes than the window has.
#[derive(Clone, Copy, Debug, PartialEq, Eq, Structural)]
pub struct RamOverflow;

/// The part of the message RAM that a node may use: `size` bytes from byte
/// `start` of the RAM. The start is a multiple of 4 and the window ends
/// no higher than a start address field can hold.
#[derive(Clone, Copy, Debug)]
pub struct RamWindow {
    start: u16,
    size: u32,
}

/// The bytes of one element of a region, as the controller lays it out.
///
/// An element of a buffer, of a receive FIFO or of the transmit FIFO or
/// queue has a head of 8 bytes and its data field. The other kinds have no
/// data field, and `field_size` says nothing of them: an element of the
/// transmit event FIFO has 8 bytes, a filter for standard identifiers 4,
/// and a filter for extended identifiers 8.
pub open spec fn element_bytes(kind: RegionKind, field_size: DataFieldSize) -> int {
    match kind {
        RegionKind::TxEventFifo => 8,
        RegionKind::StandardFilters => 4,
        RegionKind::ExtendedFilters => 8,
        _ => 8 + field_size.bytes(),
    }
}

impl RegionRequest {
    /// The bytes of the whole region.
    pub open spec fn bytes(self) -> int {
        element_bytes(self.kind, self.field_size) * self.count
    }
}

impl Region {
    /// The bytes of the whole region.
    pub open spec fn bytes(self) -> int {
        element_bytes(self.kind, self.field_size) * self.count
    }

    /// The offset of the first byte behind the region.
    pub open spec fn end(self) -> int {
        self.start_address + self.bytes()
    }
}

/// The bytes of all of `requests`.
pub open spec fn total_bytes(requests: Seq<RegionRequest>) -> int
    decreases requests.len(),
{
    if requests.len() == 0 {
        0
    } else {
        total_bytes(requests.drop_last()) + requests.last().bytes()
    }
}

/// Whether `regions` are `requests` placed one behind the other from `start`.
pub open spec fn placed_in_order(regions: Seq<Region>, start: int, requests: Seq<RegionRequest>) -> bool {
    &&& regions.len() == requests.len()
    &&& forall|i: int|
        0 <= i < regions.len() ==> {
            &&& (#[trigger] regions[i]).kind == requests[i].kind
            &&& regions[i].field_size == requests[i].field_size
            &&& regions[i].count == requests[i].count
            &&& regions[i].start_address == start + total_bytes(requests.take(i))
        }
}

impl RamWindow {
    /// The offset of the window's first byte.
    pub closed spec fn start_spec(self) -> int {
        self.start as int
    }

    /// The bytes of the window.
    pub closed spec fn size_spec(self) -> int {
        self.size as int
    }

    #[verifier::type_invariant]
    spec fn aligned_and_addressable(self) -> bool {
        self.start % 4 == 0 && self.start + self.size <= MESSAGE_RAM_LIMIT
    }

    /// The window of `size` bytes at `start`, if `start` is a multiple of 4
    /// and the window ends no higher than `MESSAGE_RAM_LIMIT`.
    pub fn new(start: u16, size: u32) -> (window: Option<RamWindow>)
        ensures
            window is Some <==> start % 4 == 0 && start + size <= MESSAGE_RAM_LIMIT,
            window matches Some(w) ==> w.start_spec() == start && w.size_spec() == size,
    {
        if start % 4 == 0 && size <= MESSAGE_RAM_LIMIT && start as u32 + size <= MESSAGE_RAM_LIMIT {
            Some(RamWindow { start, size })
        } else {
            None
        }
    }

    /// The offset of the window's first byte.
    pub fn start(&self) -> (start: u16)
        ensures
            start == self.start_spec(),
            start % 4 == 0,
    {
        proof {
            use_type_invariant(self);
        }
        self.start
    }

    /// The bytes of the window.
    pub fn size(&self) -> (size: u32)
        ensures
            size == self.size_spec(),
            self.start_spec() + size <= MESSAGE_RAM_LIMIT,
    {
        proof {
            use_type_invariant(self);
        }
        self.size
    }
}

/// A region has at least as many bytes as none, and they come in fours.
pub proof fn lemma_region_bytes(request: RegionRequest)
    ensures
        0 <= request.bytes() <= 72 * 255,
        request.bytes() % 4 == 0,
{
    let e = element_bytes(request.kind, request.field_size);
    assert(e == 4 || e == 8 || e == 16 || e == 20 || e == 24 || e == 28 || e == 32 || e == 40 || e
        == 56 || e == 72);
    assert(0 <= e * request.count <= 72 * 255 && (e * request.count) % 4 == 0) by (nonlinear_arith)
        requires
            e == 4 || e == 8 || e == 16 || e == 20 || e == 24 || e == 28 || e == 32 || e == 40 || e
                == 56 || e == 72,
            0 <= request.count <= 255,
    ;
}

/// The requests up to `i + 1` need the bytes of those up to `i` and of request `i`.
pub proof fn lemma_total_step(requests: Seq<RegionRequest>, i: int)
    requires
        0 <= i < requests.len(),
    ensures
        total_bytes(requests.take(i + 1)) == total_bytes(requests.take(i)) + requests[i].bytes(),
{
    assert(requests.take(i + 1).drop_last() =~= requests.take(i));
    assert(requests.take(i + 1).last() == requests[i]);
}

/// The requests up to `i` need no more bytes than those up to `j`, and all
/// totals come in fours.
pub proof fn lemma_totals_grow(requests: Seq<RegionRequest>, i: int, j: int)
    requires
        0 <= i <= j <= requests.len(),
    ensures
        0 <= total_bytes(requests.take(i)) <= total_bytes(requests.take(j)),
        total_bytes(requests.take(i)) % 4 == 0,
        i < j ==> total_bytes(requests.take(i)) + requests[i].bytes() <= total_bytes(
            requests.take(j),
        ),
    decreases j,
{
    if j == 0 {
        assert(requests.take(0).len() == 0);
    } else {
        assert(requests.take(j).drop_last() =~= requests.take(j - 1));
        assert(requests.take(j).last() == requests[j - 1]);
        lemma_region_bytes(requests[j - 1]);
        if i < j {
            lemma_totals_grow(requests, i, j - 1);
        } else {
            lemma_totals_grow(requests, j - 1, j - 1);
        }
    }
}

/// Regions placed in order from a start that is a multiple of 4 all start at
/// a multiple of 4, and none reaches into a later one.
pub proof fn lemma_placed_regions_apart(regions: Seq<Region>, start: int, requests: Seq<RegionRequest>)
    requires
        placed_in_order(regions, start, requests),
        start % 4 == 0,
    ensures
        forall|i: int| 0 <= i < regions.len() ==> (#[trigger] regions[i]).start_address % 4 == 0,
        forall|i: int, j: int|
            0 <= i < j < regions.len() ==> (#[trigger] regions[i]).end() <= (
            #[trigger] regions[j]).start_address,
        forall|i: int|
            0 <= i < regions.len() ==> start <= (#[trigger] regions[i]).start_address && regions[i].end()
                <= start + total_bytes(requests),
{
    assert(requests.take(requests.len() as int) =~= requests);
    assert forall|i: int| 0 <= i < regions.len() implies (#[trigger] regions[i]).start_address % 4
        == 0 && start <= regions[i].start_address && regions[i].end() <= start + total_bytes(
        requests,
    ) by {
        lemma_totals_grow(requests, i, requests.len() as int);
    }
    assert forall|i: int, j: int| 0 <= i < j < regions.len() implies (#[trigger] regions[i]).end() <= (
    #[trigger] regions[j]).start_address by {
        lemma_totals_grow(requests, i, j);
    }
}

/// The bytes of one element of a region, as the controller lays it out:
/// 8 and the data field for buffers, receive FIFOs and the transmit FIFO
/// or queue; 8 for the transmit event FIFO, 4 for a filter for standard
/// identifiers and 8 for one for extended identifiers, whatever
/// `field_size` is.
pub fn element_size(kind: RegionKind, field_size: DataFieldSize) -> (bytes: u8)
    ensures
        bytes == element_bytes(kind, field_size),
        4 <= bytes <= 72,
{
    match kind {
        RegionKind::TxEventFifo => 8,
        RegionKind::StandardFilters => 4,
        RegionKind::ExtendedFilters => 8,
        _ => ELEMENT_HEADER_BYTES + field_size.size_in_bytes(),
    }
}

/// Places `requests` in `window`, in their order and without gaps.
///
/// Fails if and only if the regions need more bytes than the window has,
/// each element counted with the bytes that `element_bytes` gives its
/// kind. The regions that come back start at multiples of 4, lie within
/// the window and do not overlap.
pub fn plan_layout(window: &RamWindow, requests: &Vec<RegionRequest>) -> (plan: Result<Vec<Region>, RamOverflow>)
    ensures
        plan is Err <==> total_bytes(requests@) > window.size_spec(),
        plan matches Ok(regions) ==> {
            &&& placed_in_order(regions@, window.start_spec(), requests@)
            &&& forall|i: int| 0 <= i < regions.len() ==> (#[trigger] regions[i]).start_address % 4 == 0
            &&& forall|i: int|
                0 <= i < regions.len() ==> window.start_spec() <= (#[trigger] regions[i]).start_address
                    && regions[i].end() <= window.start_spec() + window.size_spec()
            &&& forall|i: int, j: int|
                0 <= i < j < regions.len() ==> (#[trigger] regions[i]).end() <= (
                #[trigger] regions[j]).start_address
        },
{
    let start: u32 = window.start() as u32;
    let end: u32 = start + window.size();
    let mut regions: Vec<Region> = Vec::new();
    let mut next: u32 = start;
    let mut i: usize = 0;
    while i < requests.len()
        invariant
            0 <= i <= requests.len(),
            start == window.start_spec(),
            end == window.start_spec() + window.size_spec(),
            end <= MESSAGE_RAM_LIMIT,
            start % 4 == 0,
            next == start + total_bytes(requests@.take(i as int)),
            next <= end,
            placed_in_order(regions@, start as int, requests@.take(i as int)),
        decreases requests.len() - i,
    {
        let request = requests[i];
        let element: u32 = element_size(request.kind, request.field_size) as u32;
        assert(element * request.count <= 72 * 255) by (nonlinear_arith)
            requires
                element <= 72,
                request.count <= 255,
        ;
        let bytes: u32 = element * (request.count as u32);
        proof {
            lemma_region_bytes(request);
            lemma_total_step(requests@, i as int);
            lemma_totals_grow(requests@, i as int, i as int + 1);
            lemma_totals_grow(requests@, i as int + 1, requests.len() as int);
            assert(requests@.take(requests.len() as int) =~= requests@);
        }
        if bytes > end - next {
            return Err(RamOverflow);
        }
        let ghost before = regions@;
        regions.push(
            Region {
                kind: request.kind,
                field_size: request.field_size,
                count: request.count,
                start_address: next as u16,
            },
        );
        proof {
            let taken = requests@.take(i as int + 1);
            assert forall|k: int| 0 <= k < regions@.len() implies {
                &&& (#[trigger] regions@[k]).kind == taken[k].kind
                &&& regions@[k].field_size == taken[k].field_size
                &&& regions@[k].count == taken[k].count
                &&& regions@[k].start_address == start + total_bytes(taken.take(k))
            } by {
                assert(taken.take(k) =~= requests@.take(k));
                if k < i {
                    assert(before[k] == regions@[k]);
                    assert(requests@.take(i as int).take(k) =~= requests@.take(k));
                }
            }
        }
        next = next + bytes;
        i = i + 1;
    }
    proof {
        assert(requests@.take(requests.len() as int) =~= requests@);
        lemma_placed_regions_apart(regions@, start as int, requests@);
    }
    Ok(regions)
}

impl Default for RamWindow {
    /// The window of no bytes at the start of the message RAM.
    fn default() -> (window: RamWindow)
        ensures
            window.start_spec() == 0,
            window.size_spec() == 0,
    {
        RamWindow { start: 0, size: 0 }
    }
}

} // verus!
