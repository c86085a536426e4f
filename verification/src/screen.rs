//! Display virtualization: fixed screen regions keyed by application identity.
//!
//! One physical display is partitioned into a fixed, boot-time list of
//! rectangles, each bound to the stable hashed identity of one application
//! name. A process whose identity is not in the list has no display access.
//! The list is immutable after construction; lookup is a linear search.

use vstd::prelude::*;
use crate::checksum::{crc, crc32_feed, crc32_spec, crc32_state};

verus! {

/// A rectangle of display real estate.
#[derive(Clone, Copy, Debug, PartialEq, Eq, Structural)]
pub struct Rect {
    /// Leftmost column of the region.
    pub x: usize,
    /// Topmost row of the region.
    pub y: usize,
    /// Width of the region in pixels.
    pub width: usize,
    /// Height of the region in pixels.
    pub height: usize,
}

/// A fixed rectangle of display real estate statically bound to one
/// application's stable identity hash. The identity is never zero.
#[derive(Clone, Copy, Debug, PartialEq, Eq, Structural)]
pub struct AppScreenRegion {
    /// The application's stable identity: the checksum of its declared name.
    pub app_id: u32,
    /// The rectangle granted to that application.
    pub frame: Rect,
}

impl AppScreenRegion {
    /// A region is well formed when its identity is a representable (that
    /// is, nonzero) application identity.
    pub open spec fn wf(self) -> bool {
        self.app_id != 0
    }

    /// Builds a region entry for one application identity.
    pub fn new(app_id: u32, x: usize, y: usize, width: usize, height: usize) -> (r: Self)
        requires
            app_id != 0,
        ensures
            r == (AppScreenRegion { app_id, frame: Rect { x, y, width, height } }),
            r.wf(),
    {
        AppScreenRegion { app_id, frame: Rect { x, y, width, height } }
    }
}

/// Two rectangles are disjoint when they share no pixel: one lies entirely
/// to the left of, to the right of, above, or below the other.
pub open spec fn rects_disjoint(a: Rect, b: Rect) -> bool {
    ||| a.x + a.width <= b.x
    ||| b.x + b.width <= a.x
    ||| a.y + a.height <= b.y
    ||| b.y + b.height <= a.y
}

/// No two distinct entries of the list have overlapping rectangles.
pub open spec fn regions_pairwise_disjoint(s: Seq<AppScreenRegion>) -> bool {
    forall|i: int, j: int|
        0 <= i < s.len() && 0 <= j < s.len() && i != j ==> rects_disjoint(
            #[trigger] s[i].frame,
            #[trigger] s[j].frame,
        )
}

/// The first entry of `s`, at or after position `i`, whose identity is
/// `id` — or nothing, when no such entry exists.
pub open spec fn region_for_from(s: Seq<AppScreenRegion>, id: u32, i: int) -> Option<Rect>
    decreases s.len() - i,
{
    if i < 0 || i >= s.len() {
        None
    } else if s[i].app_id == id {
        Some(s[i].frame)
    } else {
        region_for_from(s, id, i + 1)
    }
}

/// The rectangle configured for identity `id`: the first matching entry.
pub open spec fn region_for_spec(s: Seq<AppScreenRegion>, id: u32) -> Option<Rect> {
    region_for_from(s, id, 0)
}

/// The fixed, boot-time-constructed region list. Fixed after construction:
/// no insertion or removal at runtime.
pub struct ScreenRegions {
    regions: Vec<AppScreenRegion>,
}

impl View for ScreenRegions {
    type V = Seq<AppScreenRegion>;

    closed spec fn view(&self) -> Seq<AppScreenRegion> {
        self.regions@
    }
}

impl ScreenRegions {
    /// All entries carry a representable identity. Overlap is deliberately
    /// not part of this invariant: the allocator does not detect or repair
    /// an overlapping configuration; disjointness is proved of the one
    /// configuration this board builds.
    pub open spec fn wf(self) -> bool {
        forall|i: int| 0 <= i < self@.len() ==> (#[trigger] self@[i]).wf()
    }

    /// Takes ownership of the configured list.
    pub fn new(regions: Vec<AppScreenRegion>) -> (r: Self)
        requires
            forall|i: int| 0 <= i < regions@.len() ==> (#[trigger] regions@[i]).wf(),
        ensures
            r@ == regions@,
            r.wf(),
    {
        ScreenRegions { regions }
    }

    /// How many regions are configured.
    pub fn len(&self) -> (n: usize)
        ensures
            n == self@.len(),
    {
        self.regions.len()
    }

    /// The entry at position `i` of the configured list.
    pub fn entry(&self, i: usize) -> (r: AppScreenRegion)
        requires
            i < self@.len(),
        ensures
            r == self@[i as int],
    {
        self.regions[i]
    }

    /// Returns the rectangle granted to identity `id`, or nothing when the
    /// identity is not in the configured list. Total, pure dispatch: an
    /// unknown identity is an explicit absent result, never an error.
    pub fn region_for(&self, id: u32) -> (r: Option<Rect>)
        ensures
            r == region_for_spec(self@, id),
    {
        let n = self.regions.len();
        let mut i: usize = 0;
        while i < n
            invariant
                n == self@.len(),
                i <= n,
                region_for_from(self@, id, 0) == region_for_from(self@, id, i as int),
            decreases n - i,
        {
            let entry = self.regions[i];
            if entry.app_id == id {
                return Some(entry.frame);
            }
            i = i + 1;
        }
        None
    }
}

/// For any identity that no entry of the list carries, lookup is absent —
/// and conversely, an absent result means no entry carries the identity.
pub proof fn lemma_region_for_absent(s: Seq<AppScreenRegion>, id: u32)
    ensures
        region_for_spec(s, id) is None <==> (forall|j: int|
            0 <= j < s.len() ==> (#[trigger] s[j]).app_id != id),
{
    lemma_region_for_from_absent(s, id, 0);
}

proof fn lemma_region_for_from_absent(s: Seq<AppScreenRegion>, id: u32, i: int)
    requires
        0 <= i,
    ensures
        region_for_from(s, id, i) is None <==> (forall|j: int|
            i <= j < s.len() ==> (#[trigger] s[j]).app_id != id),
    decreases s.len() - i,
{
    if i < s.len() {
        lemma_region_for_from_absent(s, id, i + 1);
    }
}

/// Looking an identity up twice in the same configuration yields the same
/// rectangle both times: the result is a function of the configuration and
/// the identity alone.
pub proof fn lemma_region_for_deterministic(
    s: Seq<AppScreenRegion>,
    id: u32,
    r1: Option<Rect>,
    r2: Option<Rect>,
)
    requires
        r1 == region_for_spec(s, id),
        r2 == region_for_spec(s, id),
    ensures
        r1 == r2,
{
}

/// The declared name of the first screen-sharing application.
pub open spec fn circle_name() -> Seq<u8> {
    seq![0x63u8, 0x69u8, 0x72u8, 0x63u8, 0x6cu8, 0x65u8]
}

/// The declared name of the second screen-sharing application.
pub open spec fn count_name() -> Seq<u8> {
    seq![0x63u8, 0x6fu8, 0x75u8, 0x6eu8, 0x74u8]
}

/// The declared name of the third screen-sharing application.
pub open spec fn scroll_name() -> Seq<u8> {
    seq![0x74u8, 0x6fu8, 0x63u8, 0x6bu8, 0x2du8, 0x73u8, 0x63u8, 0x72u8, 0x6fu8, 0x6cu8, 0x6cu8]
}

/// The fixed region configuration of this board: three applications share
/// the 128x64 display, one 64x64 half and two 64x32 quarters.
pub open spec fn spec_app_regions() -> Seq<AppScreenRegion> {
    seq![
        AppScreenRegion {
            app_id: crc32_spec(circle_name()),
            frame: Rect { x: 0, y: 0, width: 64, height: 64 },
        },
        AppScreenRegion {
            app_id: crc32_spec(count_name()),
            frame: Rect { x: 64, y: 0, width: 64, height: 32 },
        },
        AppScreenRegion {
            app_id: crc32_spec(scroll_name()),
            frame: Rect { x: 64, y: 32, width: 64, height: 32 },
        },
    ]
}

/// Feeding one more byte extends the checksum state by one feed step.
proof fn lemma_state_push(s: Seq<u8>, b: u8)
    ensures
        crc32_state(s.push(b)) == crc32_feed(crc32_state(s), b),
{
    assert(s.push(b).drop_last() =~= s);
    assert(s.push(b).last() == b);
}

/// The identities of the three configured names, written out. Each is the
/// checksum of the corresponding declared name, and none is zero.
pub proof fn lemma_configured_identities()
    ensures
        crc32_spec(circle_name()) == 0x4d41127cu32,
        crc32_spec(count_name()) == 0x54104f32u32,
        crc32_spec(scroll_name()) == 0xa4f18214u32,
{
    let e = Seq::<u8>::empty();
    assert(crc32_state(e) == 0u32);

    let c1 = e.push(0x63u8);
    let c2 = c1.push(0x69u8);
    let c3 = c2.push(0x72u8);
    let c4 = c3.push(0x63u8);
    let c5 = c4.push(0x6cu8);
    let c6 = c5.push(0x65u8);
    lemma_state_push(e, 0x63u8);
    lemma_state_push(c1, 0x69u8);
    lemma_state_push(c2, 0x72u8);
    lemma_state_push(c3, 0x63u8);
    lemma_state_push(c4, 0x6cu8);
    lemma_state_push(c5, 0x65u8);
    assert(circle_name() =~= c6);
    assert(!crc32_feed(
        crc32_feed(
            crc32_feed(crc32_feed(crc32_feed(crc32_feed(0u32, 0x63u8), 0x69u8), 0x72u8), 0x63u8),
            0x6cu8,
        ),
        0x65u8,
    ) == 0x4d41127cu32) by (bit_vector);

    let n1 = e.push(0x63u8);
    let n2 = n1.push(0x6fu8);
    let n3 = n2.push(0x75u8);
    let n4 = n3.push(0x6eu8);
    let n5 = n4.push(0x74u8);
    lemma_state_push(e, 0x63u8);
    lemma_state_push(n1, 0x6fu8);
    lemma_state_push(n2, 0x75u8);
    lemma_state_push(n3, 0x6eu8);
    lemma_state_push(n4, 0x74u8);
    assert(count_name() =~= n5);
    assert(!crc32_feed(
        crc32_feed(crc32_feed(crc32_feed(crc32_feed(0u32, 0x63u8), 0x6fu8), 0x75u8), 0x6eu8),
        0x74u8,
    ) == 0x54104f32u32) by (bit_vector);

    let t1 = e.push(0x74u8);
    let t2 = t1.push(0x6fu8);
    let t3 = t2.push(0x63u8);
    let t4 = t3.push(0x6bu8);
    let t5 = t4.push(0x2du8);
    let t6 = t5.push(0x73u8);
    let t7 = t6.push(0x63u8);
    let t8 = t7.push(0x72u8);
    let t9 = t8.push(0x6fu8);
    let t10 = t9.push(0x6cu8);
    let t11 = t10.push(0x6cu8);
    lemma_state_push(e, 0x74u8);
    lemma_state_push(t1, 0x6fu8);
    lemma_state_push(t2, 0x63u8);
    lemma_state_push(t3, 0x6bu8);
    lemma_state_push(t4, 0x2du8);
    lemma_state_push(t5, 0x73u8);
    lemma_state_push(t6, 0x63u8);
    lemma_state_push(t7, 0x72u8);
    lemma_state_push(t8, 0x6fu8);
    lemma_state_push(t9, 0x6cu8);
    lemma_state_push(t10, 0x6cu8);
    assert(scroll_name() =~= t11);
    assert(!crc32_feed(
        crc32_feed(
            crc32_feed(
                crc32_feed(
                    crc32_feed(
                        crc32_feed(
                            crc32_feed(
                                crc32_feed(
                                    crc32_feed(crc32_feed(crc32_feed(0u32, 0x74u8), 0x6fu8), 0x63u8),
                                    0x6bu8,
                                ),
                                0x2du8,
                            ),
                            0x73u8,
                        ),
                        0x63u8,
                    ),
                    0x72u8,
                ),
                0x6fu8,
            ),
            0x6cu8,
        ),
        0x6cu8,
    ) == 0xa4f18214u32) by (bit_vector);
}

/// The configured region list contains no two rectangles that overlap, and
/// every configured identity is representable.
pub proof fn lemma_configuration_disjoint()
    ensures
        regions_pairwise_disjoint(spec_app_regions()),
        forall|i: int| 0 <= i < spec_app_regions().len() ==> (#[trigger] spec_app_regions()[i]).wf(),
{
    lemma_configured_identities();
}

/// Builds the fixed region configuration, computing each application's
/// identity from its declared name.
pub fn build_app_regions() -> (r: Vec<AppScreenRegion>)
    ensures
        r@ == spec_app_regions(),
        forall|i: int| 0 <= i < r@.len() ==> (#[trigger] r@[i]).wf(),
{
    proof {
        lemma_configured_identities();
    }
    let circle: [u8; 6] = [0x63, 0x69, 0x72, 0x63, 0x6c, 0x65];
    let count: [u8; 5] = [0x63, 0x6f, 0x75, 0x6e, 0x74];
    let scroll: [u8; 11] = [0x74, 0x6f, 0x63, 0x6b, 0x2d, 0x73, 0x63, 0x72, 0x6f, 0x6c, 0x6c];
    proof {
        assert(circle@ =~= circle_name());
        assert(count@ =~= count_name());
        assert(scroll@ =~= scroll_name());
    }
    let circle_id = crc(circle.as_slice());
    let count_id = crc(count.as_slice());
    let scroll_id = crc(scroll.as_slice());
    let mut regions: Vec<AppScreenRegion> = Vec::new();
    regions.push(AppScreenRegion::new(circle_id, 0, 0, 64, 64));
    regions.push(AppScreenRegion::new(count_id, 64, 0, 64, 32));
    regions.push(AppScreenRegion::new(scroll_id, 64, 32, 64, 32));
    proof {
        assert(regions@ =~= spec_app_regions());
    }
    regions
}

} // verus!
