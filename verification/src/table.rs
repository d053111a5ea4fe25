use vstd::prelude::*;

use vstd::string::StringSliceAdditionalSpecFns;

use crate::cache::{cache_clone, cache_entries, cache_get, cache_insert, cache_new, cache_len,
    IndexCache};
use crate::cpath::path_to_c;
use crate::driver::{interpret_decode, DriverCall, DriverOp};
use crate::error::GraphicsError;
use crate::graphics::{Bitmap, Graphics, ResourceKind, ResourceSlot};

verus! {

/// What a table lookup needs next: the answer straight from the cache, or
/// the one native fetch this index will ever cost.
#[derive(Debug, PartialEq)]
pub enum TableLookup {
    /// The index was resolved before; this is one more shared reference to
    /// the very same underlying resource.
    Cached(Bitmap),
    /// The index was never resolved; perform this call and hand its result
    /// to `complete_get_bitmap`.
    Fetch(DriverCall),
}

/// An indexed, lazily filled cache of bitmaps backed by one native strip
/// resource. Once an index is resolved, every later lookup returns a
/// reference to the same underlying resource, so no index is ever fetched
/// natively twice. The cache never evicts; reloading the strip from a file
/// deliberately leaves already-resolved entries in place, mirroring the
/// documented ambiguity of the reload operation.
pub struct BitmapTable {
    slot: usize,
    cache: IndexCache,
    cached_ids: Vec<usize>,
    fetches: usize,
    failed_fetches: usize,
}

impl BitmapTable {
    /// The arena slot of the native strip resource.
    pub closed spec fn slot_spec(self) -> usize {
        self.slot
    }

    /// The index-to-resource mapping resolved so far.
    pub closed spec fn cached(self) -> Map<usize, usize> {
        cache_entries(self.cache)
    }

    /// The resources the cache holds, in resolution order.
    pub closed spec fn cached_ids_view(self) -> Seq<usize> {
        self.cached_ids@
    }

    /// How many native fetches this table has cost.
    pub closed spec fn fetches_spec(self) -> usize {
        self.fetches
    }

    /// How many of those fetches the driver answered with a null handle.
    pub closed spec fn failed_fetches_spec(self) -> usize {
        self.failed_fetches
    }

    /// The memoization invariant, tied to the service holding the strip:
    /// the strip is a live tracked resource; the fetch counter equals the
    /// number of distinct indices resolved into the cache plus the fetches
    /// that failed — so a cache of M indices can only ever have cost M
    /// successful native fetches; and the resolution-order list holds
    /// exactly the image resources the cache maps to, each once, so
    /// releasing the table can give every cache-held reference back.
    pub open spec fn wf(self, g: Graphics) -> bool {
        &&& g.live(self.slot_spec())
        &&& g.slot(self.slot_spec()).kind == ResourceKind::Strip
        &&& self.cached().dom().finite()
        &&& self.fetches_spec() == self.cached().dom().len() + self.failed_fetches_spec()
        &&& self.cached_ids_view().len() == self.cached().dom().len()
        &&& self.cached_ids_view().no_duplicates()
        &&& forall|i: int|
            0 <= i < self.cached_ids_view().len() ==> (#[trigger] self.cached_ids_view()[i])
                < g.num_slots() && g.slot(self.cached_ids_view()[i]).kind == ResourceKind::Image
        &&& forall|k: usize|
            #[trigger] self.cached().dom().contains(k) ==> self.cached_ids_view().contains(
                self.cached()[k],
            )
        &&& forall|i: int|
            0 <= i < self.cached_ids_view().len() ==> #[trigger] self.listed_from_cache(i)
    }

    /// The listed resource at position `i` is the value of some cache entry.
    pub open spec fn listed_from_cache(self, i: int) -> bool {
        exists|k: usize|
            #[trigger] self.cached().dom().contains(k) && self.cached()[k]
                == self.cached_ids_view()[i]
    }

    /// How many native fetches this table has cost.
    pub fn fetch_count(&self) -> (r: usize)
        ensures
            r == self.fetches_spec(),
    {
        self.fetches
    }

    /// How many fetches came back as a null handle.
    pub fn failed_fetch_count(&self) -> (r: usize)
        ensures
            r == self.failed_fetches_spec(),
    {
        self.failed_fetches
    }

    /// How many distinct indices stand resolved in the cache.
    pub fn cached_count(&self) -> (r: usize)
        ensures
            r == self.cached().dom().len(),
    {
        cache_len(&self.cache)
    }

    /// Wraps a native strip handle the driver returned in a table with an
    /// empty cache; a null handle is rejected before it can enter.
    pub fn new(g: &mut Graphics, handle: usize) -> (r: Result<BitmapTable, GraphicsError>)
        requires
            old(g).wf(),
        ensures
            final(g).wf(),
            final(g).driver_table() == old(g).driver_table(),
            handle == 0 ==> r == Err::<BitmapTable, GraphicsError>(GraphicsError::InvalidHandle)
                && final(g).slots_view() == old(g).slots_view() && final(g).freed_ids() == old(
                g,
            ).freed_ids(),
            handle != 0 ==> (r matches Ok(t) && t.slot_spec() == old(g).num_slots()
                && t.cached() == Map::<usize, usize>::empty() && t.fetches_spec() == 0
                && t.failed_fetches_spec() == 0 && t.wf(*final(g))) && final(g).slots_view()
                == old(g).slots_view().push(
                ResourceSlot { handle, refs: 1, alive: true, kind: ResourceKind::Strip },
            ) && final(g).freed_ids() == old(g).freed_ids(),
    {
        let slot = match g.adopt_slot(handle, ResourceKind::Strip) {
            Ok(id) => id,
            Err(e) => return Err(e),
        };
        let t = BitmapTable {
            slot,
            cache: cache_new(),
            cached_ids: Vec::new(),
            fetches: 0,
            failed_fetches: 0,
        };
        proof {
            broadcast use vstd::set::group_set_axioms;
            broadcast use vstd::map::group_map_axioms;

            assert(t.cached().dom() =~= Set::<usize>::empty());
        }
        Ok(t)
    }

    /// Builds the native decode of a multi-frame file into this table's
    /// existing strip, in place. Reloading does not touch the cache of
    /// already-resolved entries.
    pub fn load(&self, g: &Graphics, path: &str) -> (r: Result<DriverCall, GraphicsError>)
        ensures
            !g.initialized() ==> r == Err::<DriverCall, GraphicsError>(
                GraphicsError::NotInitialized,
            ),
            g.initialized() && !g.live(self.slot_spec()) ==> r == Err::<DriverCall, GraphicsError>(
                GraphicsError::InvalidHandle,
            ),
            g.initialized() && g.live(self.slot_spec()) && path.spec_bytes().contains(0u8) ==> r
                == Err::<DriverCall, GraphicsError>(GraphicsError::InvalidPath),
            g.initialized() && g.live(self.slot_spec()) && !path.spec_bytes().contains(0u8) ==> (
            r matches Ok(c) && (c matches DriverCall::LoadIntoBitmapTable { path: p, table } && p@
                == path.spec_bytes().push(0u8) && table == g.slot(self.slot_spec()).handle)),
    {
        if g.get_ptr() == 0 {
            return Err(GraphicsError::NotInitialized);
        }
        let h = match self.strip_handle(g) {
            Ok(h) => h,
            Err(e) => return Err(e),
        };
        let p = match path_to_c(path) {
            Ok(p) => p,
            Err(e) => return Err(e),
        };
        Ok(DriverCall::LoadIntoBitmapTable { path: p, table: h })
    }

    /// Resolves the strip's raw handle, refusing a strip that is no longer
    /// live.
    fn strip_handle(&self, g: &Graphics) -> (r: Result<usize, GraphicsError>)
        ensures
            g.live(self.slot_spec()) ==> r == Ok::<usize, GraphicsError>(
                g.slot(self.slot_spec()).handle,
            ),
            !g.live(self.slot_spec()) ==> r == Err::<usize, GraphicsError>(
                GraphicsError::InvalidHandle,
            ),
    {
        match g.slot_handle(self.slot) {
            Option::Some(h) => Ok(h),
            Option::None => Err(GraphicsError::InvalidHandle),
        }
    }

    /// Looks an index up. A resolved index is answered from the cache with
    /// one more reference to the identical resource and no native work; an
    /// unresolved one yields the single fetch call it will ever cost. An
    /// index beyond the driver's 32-bit range is one no strip can hold.
    pub fn get_bitmap(&mut self, g: &mut Graphics, index: usize) -> (r: Result<
        TableLookup,
        GraphicsError,
    >)
        requires
            old(g).wf(),
            old(self).wf(*old(g)),
            forall|id: usize| #[trigger] old(g).live(id) ==> old(g).slot(id).refs < usize::MAX,
        ensures
            final(g).wf(),
            final(self).wf(*final(g)),
            final(g).driver_table() == old(g).driver_table(),
            final(g).freed_ids() == old(g).freed_ids(),
            *final(self) == *old(self),
            old(self).cached().dom().contains(index) && old(g).live_bitmap(
                old(self).cached()[index],
            ) ==> (r matches Ok(l) && (l matches TableLookup::Cached(b) && b.id_spec() == old(
                self,
            ).cached()[index])) && final(g).slots_view() == old(g).slots_view().update(
                old(self).cached()[index] as int,
                ResourceSlot {
                    handle: old(g).slot(old(self).cached()[index]).handle,
                    refs: (old(g).slot(old(self).cached()[index]).refs + 1) as usize,
                    alive: true,
                    kind: ResourceKind::Image,
                },
            ),
            old(self).cached().dom().contains(index) && !old(g).live_bitmap(
                old(self).cached()[index],
            ) ==> r == Err::<TableLookup, GraphicsError>(GraphicsError::InvalidHandle) && final(g).slots_view() == old(g).slots_view(),
            !old(self).cached().dom().contains(index) ==> final(g).slots_view() == old(
                g,
            ).slots_view(),
            !old(self).cached().dom().contains(index) && index > i32::MAX ==> r == Err::<
                TableLookup,
                GraphicsError,
            >(
                GraphicsError::IndexOutOfRange {
                    index,
                    table: old(g).slot(old(self).slot_spec()).handle,
                },
            ),
            !old(self).cached().dom().contains(index) && index <= i32::MAX && !old(
                g,
            ).initialized() ==> r == Err::<TableLookup, GraphicsError>(
                GraphicsError::NotInitialized,
            ),
            !old(self).cached().dom().contains(index) && index <= i32::MAX && old(g).initialized()
                ==> r == Ok::<TableLookup, GraphicsError>(
                TableLookup::Fetch(
                    DriverCall::GetTableBitmap {
                        table: old(g).slot(old(self).slot_spec()).handle,
                        index: index as i32,
                    },
                ),
            ),
    {
        match cache_get(&self.cache, index) {
            Option::Some(id) => {
                        let b = Bitmap::from_id(id);
                match g.retain_bitmap(&b) {
                    Ok(b2) => Ok(TableLookup::Cached(b2)),
                    Err(e) => Err(e),
                }
            },
            Option::None => {
                let h = match self.strip_handle(g) {
                    Ok(h) => h,
                    Err(e) => return Err(e),
                };
                if index > i32::MAX as usize {
                    return Err(GraphicsError::IndexOutOfRange { index, table: h });
                }
                if g.get_ptr() == 0 {
                    return Err(GraphicsError::NotInitialized);
                }
                Ok(TableLookup::Fetch(DriverCall::GetTableBitmap { table: h, index: index as i32 }))
            },
        }
    }

    /// Takes the handle the single native fetch for an unresolved index
    /// returned. A null handle means the strip has no such index and counts
    /// as a failed fetch; any other is adopted, remembered under the index
    /// for good, and handed back with the cache keeping its own reference.
    pub fn complete_get_bitmap(&mut self, g: &mut Graphics, index: usize, handle: usize) -> (r:
        Result<Bitmap, GraphicsError>)
        requires
            old(g).wf(),
            old(self).wf(*old(g)),
            !old(self).cached().dom().contains(index),
            old(self).fetches_spec() < usize::MAX,
        ensures
            final(g).wf(),
            final(self).wf(*final(g)),
            final(g).driver_table() == old(g).driver_table(),
            final(g).freed_ids() == old(g).freed_ids(),
            final(self).slot_spec() == old(self).slot_spec(),
            final(self).fetches_spec() == old(self).fetches_spec() + 1,
            handle == 0 ==> r == Err::<Bitmap, GraphicsError>(
                GraphicsError::IndexOutOfRange {
                    index,
                    table: old(g).slot(old(self).slot_spec()).handle,
                },
            ) && final(self).cached() == old(self).cached() && final(self).failed_fetches_spec()
                == old(self).failed_fetches_spec() + 1 && final(g).slots_view() == old(
                g,
            ).slots_view(),
            handle != 0 ==> (r matches Ok(b) && b.id_spec() == old(g).num_slots() && final(self).cached() == old(self).cached().insert(index, b.id_spec())) && final(self).failed_fetches_spec() == old(self).failed_fetches_spec() && final(g).slots_view()
                == old(g).slots_view().push(
                ResourceSlot { handle, refs: 2, alive: true, kind: ResourceKind::Image },
            ),
    {
        if handle == 0 {
            let table = match self.strip_handle(g) {
                Ok(h) => h,
                Err(e) => return Err(e),
            };
            self.fetches = self.fetches + 1;
            self.failed_fetches = self.failed_fetches + 1;
            proof {
                assert forall|i2: int|
                    0 <= i2 < self.cached_ids_view().len() implies self.listed_from_cache(
                    i2,
                ) by {
                    assert(old(self).listed_from_cache(i2));
                    let k = choose|k: usize|
                        #[trigger] old(self).cached().dom().contains(k) && old(self).cached()[k]
                            == old(self).cached_ids_view()[i2];
                    assert(self.cached().dom().contains(k));
                    assert(self.cached()[k] == self.cached_ids_view()[i2]);
                }
            }
            return Err(GraphicsError::IndexOutOfRange { index, table });
        }
        let b = match g.adopt_bitmap(handle) {
            Ok(b) => b,
            Err(e) => return Err(e),
        };
        // the cache keeps this second reference for good
        match g.retain_bitmap(&b) {
            Ok(_) => (),
            Err(e) => return Err(e),
        };
        let id = b.id();
        cache_insert(&mut self.cache, index, id);
        self.cached_ids.push(id);
        self.fetches = self.fetches + 1;
        proof {
            broadcast use vstd::set::group_set_axioms;
            broadcast use vstd::map::group_map_axioms;

            assert(g.slots_view() =~= old(g).slots_view().push(
                ResourceSlot { handle, refs: 2, alive: true, kind: ResourceKind::Image },
            ));
            assert(self.cached().dom() =~= old(self).cached().dom().insert(index));
            assert(self.cached_ids_view() =~= old(self).cached_ids_view().push(id));
            // the fresh id lies above every recorded one: no duplicate enters
            assert forall|j: int|
                0 <= j < old(self).cached_ids_view().len() implies old(self).cached_ids_view()[j]
                != id by {
                assert(old(self).cached_ids_view()[j] < old(g).num_slots());
            }
            // every cache entry still has its resource in the list
            assert forall|k: usize| self.cached().dom().contains(k) implies self
                .cached_ids_view()
                .contains(self.cached()[k]) by {
                if k == index {
                    assert(self.cached_ids_view()[self.cached_ids_view().len() - 1] == id);
                } else {
                    assert(old(self).cached().dom().contains(k));
                    assert(old(self).cached_ids_view().contains(old(self).cached()[k]));
                    let j = choose|j: int|
                        0 <= j < old(self).cached_ids_view().len() && old(
                            self,
                        ).cached_ids_view()[j] == old(self).cached()[k];
                    assert(self.cached_ids_view()[j] == old(self).cached()[k]);
                    assert(self.cached()[k] == old(self).cached()[k]);
                }
            }
            // every listed resource still comes from some cache entry
            assert forall|i2: int|
                0 <= i2 < self.cached_ids_view().len() implies self.listed_from_cache(i2) by {
                if i2 < old(self).cached_ids_view().len() {
                    assert(old(self).listed_from_cache(i2));
                    let k = choose|k: usize|
                        #[trigger] old(self).cached().dom().contains(k) && old(self).cached()[k]
                            == old(self).cached_ids_view()[i2];
                    assert(self.cached().dom().contains(k));
                    assert(self.cached()[k] == old(self).cached()[k]);
                    assert(self.cached_ids_view()[i2] == old(self).cached_ids_view()[i2]);
                } else {
                    assert(self.cached().dom().contains(index));
                    assert(self.cached()[index] == id);
                    assert(self.cached_ids_view()[i2] == id);
                }
            }
        }
        Ok(b)
    }
}

impl Graphics {
    /// Adopts the strip handle a fresh-table native call produced; a null
    /// handle means the call itself failed.
    pub fn complete_new_bitmap_table(&mut self, handle: usize) -> (r: Result<
        BitmapTable,
        GraphicsError,
    >)
        requires
            old(self).wf(),
        ensures
            final(self).wf(),
            final(self).driver_table() == old(self).driver_table(),
            final(self).freed_ids() == old(self).freed_ids(),
            handle == 0 ==> r == Err::<BitmapTable, GraphicsError>(
                GraphicsError::DriverCallFailed(DriverOp::NewBitmapTable),
            ) && final(self).slots_view() == old(self).slots_view(),
            handle != 0 ==> (r matches Ok(t) && t.slot_spec() == old(self).num_slots()
                && t.cached() == Map::<usize, usize>::empty() && t.fetches_spec() == 0 && t.wf(
                *final(self),
            )) && final(self).slots_view() == old(self).slots_view().push(
                ResourceSlot { handle, refs: 1, alive: true, kind: ResourceKind::Strip },
            ),
    {
        if handle == 0 {
            return Err(GraphicsError::DriverCallFailed(DriverOp::NewBitmapTable));
        }
        BitmapTable::new(self, handle)
    }

    /// Classifies what a strip file decode handed back — the same success
    /// and failure cases as a bitmap decode — and, on success, adopts the
    /// strip into a fresh table.
    pub fn complete_load_bitmap_table(&mut self, handle: usize, err: Option<String>) -> (r: Result<
        BitmapTable,
        GraphicsError,
    >)
        requires
            old(self).wf(),
        ensures
            final(self).wf(),
            final(self).driver_table() == old(self).driver_table(),
            final(self).freed_ids() == old(self).freed_ids(),
            handle == 0 ==> final(self).slots_view() == old(self).slots_view() && (match err {
                Option::Some(m) => r == Err::<BitmapTable, GraphicsError>(
                    GraphicsError::ResourceDecodeFailed(m),
                ),
                Option::None => r == Err::<BitmapTable, GraphicsError>(
                    GraphicsError::ResourceDecodeFailedSilently,
                ),
            }),
            handle != 0 ==> (r matches Ok(t) && t.slot_spec() == old(self).num_slots()
                && t.cached() == Map::<usize, usize>::empty() && t.fetches_spec() == 0 && t.wf(
                *final(self),
            )) && final(self).slots_view() == old(self).slots_view().push(
                ResourceSlot { handle, refs: 1, alive: true, kind: ResourceKind::Strip },
            ),
    {
        let h = match interpret_decode(handle, err) {
            Ok(h) => h,
            Err(e) => return Err(e),
        };
        BitmapTable::new(self, h)
    }

    /// One more shared owner of the same native strip: takes its own
    /// reference to the strip and to each resource the cache holds, and
    /// starts from a snapshot of the resolved entries. Either owner's
    /// release then gives back only its own references, and the strip's
    /// single native free still comes out exactly once, with its last
    /// owner. After the snapshot each owner memoizes further indices on
    /// its own.
    pub fn retain_bitmap_table(&mut self, t: &BitmapTable) -> (r: BitmapTable)
        requires
            old(self).wf(),
            t.wf(*old(self)),
            forall|id: usize| #[trigger] old(self).live(id) ==> old(self).slot(id).refs
                < usize::MAX,
        ensures
            final(self).wf(),
            final(self).driver_table() == old(self).driver_table(),
            final(self).freed_ids() == old(self).freed_ids(),
            final(self).num_slots() == old(self).num_slots(),
            r.slot_spec() == t.slot_spec(),
            r.cached() == t.cached(),
            r.cached_ids_view() == t.cached_ids_view(),
            r.fetches_spec() == t.fetches_spec(),
            r.failed_fetches_spec() == t.failed_fetches_spec(),
            r.wf(*final(self)),
            forall|id: usize|
                id < old(self).num_slots() && !t.cached_ids_view().contains(id) && id
                    != t.slot_spec() ==> final(self).slot(id) == old(self).slot(id),
            forall|i: int|
                0 <= i < t.cached_ids_view().len() && old(self).live_bitmap(
                    #[trigger] t.cached_ids_view()[i],
                ) ==> final(self).slot(t.cached_ids_view()[i]) == (ResourceSlot {
                    handle: old(self).slot(t.cached_ids_view()[i]).handle,
                    refs: (old(self).slot(t.cached_ids_view()[i]).refs + 1) as usize,
                    alive: true,
                    kind: ResourceKind::Image,
                }),
            forall|i: int|
                0 <= i < t.cached_ids_view().len() && !old(self).live_bitmap(
                    #[trigger] t.cached_ids_view()[i],
                ) ==> final(self).slot(t.cached_ids_view()[i]) == old(self).slot(
                    t.cached_ids_view()[i],
                ),
            final(self).slot(t.slot_spec()) == (ResourceSlot {
                handle: old(self).slot(t.slot_spec()).handle,
                refs: (old(self).slot(t.slot_spec()).refs + 1) as usize,
                alive: true,
                kind: ResourceKind::Strip,
            }),
    {
        let mut ids_copy: Vec<usize> = Vec::new();
        let mut i: usize = 0;
        while i < t.cached_ids.len()
            invariant
                self.wf(),
                old(self).wf(),
                t.wf(*old(self)),
                self.driver_table() == old(self).driver_table(),
                self.freed_ids() == old(self).freed_ids(),
                self.num_slots() == old(self).num_slots(),
                i <= t.cached_ids@.len(),
                ids_copy@ == t.cached_ids@.take(i as int),
                forall|id: usize| #[trigger] old(self).live(id) ==> old(self).slot(id).refs
                    < usize::MAX,
                forall|id: usize|
                    id < old(self).num_slots() && !t.cached_ids@.take(i as int).contains(id)
                        ==> self.slot(id) == old(self).slot(id),
                forall|j: int|
                    0 <= j < i && old(self).live_bitmap(#[trigger] t.cached_ids@[j])
                        ==> self.slot(t.cached_ids@[j]) == (ResourceSlot {
                        handle: old(self).slot(t.cached_ids@[j]).handle,
                        refs: (old(self).slot(t.cached_ids@[j]).refs + 1) as usize,
                        alive: true,
                        kind: ResourceKind::Image,
                    }),
                forall|j: int|
                    0 <= j < i && !old(self).live_bitmap(#[trigger] t.cached_ids@[j])
                        ==> self.slot(t.cached_ids@[j]) == old(self).slot(t.cached_ids@[j]),
            decreases t.cached_ids@.len() - i,
        {
            let id = t.cached_ids[i];
            proof {
                assert(!t.cached_ids@.take(i as int).contains(id)) by {
                    if t.cached_ids@.take(i as int).contains(id) {
                        let j = choose|j: int|
                            0 <= j < i && t.cached_ids@.take(i as int)[j] == id;
                        assert(t.cached_ids@[j] == t.cached_ids@[i as int]);
                    }
                }
                assert(id < old(self).num_slots());
                assert(self.slot(id) == old(self).slot(id));
                assert(old(self).live(id) ==> old(self).slot(id).refs < usize::MAX);
            }
            let _ = self.retain_slot(id, ResourceKind::Image);
            ids_copy.push(id);
            proof {
                assert(t.cached_ids@.take(i as int + 1) =~= t.cached_ids@.take(i as int).push(id));
                assert forall|id2: usize|
                    id2 < old(self).num_slots() && !t.cached_ids@.take(i as int + 1).contains(id2)
                    implies self.slot(id2) == old(self).slot(id2) by {
                    assert(!t.cached_ids@.take(i as int).contains(id2)) by {
                        if t.cached_ids@.take(i as int).contains(id2) {
                            let j = choose|j: int|
                                0 <= j < i && t.cached_ids@.take(i as int)[j] == id2;
                            assert(t.cached_ids@.take(i as int + 1)[j] == id2);
                        }
                    }
                    assert(t.cached_ids@.take(i as int + 1)[i as int] == id);
                    assert(t.cached_ids@.take(i as int + 1).contains(id));
                    assert(id2 != id);
                }
            }
            i = i + 1;
        }
        proof {
            assert(t.cached_ids@.take(t.cached_ids@.len() as int) =~= t.cached_ids@);
            assert(!t.cached_ids@.contains(t.slot_spec())) by {
                if t.cached_ids@.contains(t.slot_spec()) {
                    let j = choose|j: int|
                        0 <= j < t.cached_ids@.len() && t.cached_ids@[j] == t.slot_spec();
                    assert(old(self).slot(t.cached_ids@[j]).kind == ResourceKind::Image);
                }
            }
            assert(self.slot(t.slot_spec()) == old(self).slot(t.slot_spec()));
            assert(old(self).live(t.slot_spec()) ==> old(self).slot(t.slot_spec()).refs
                < usize::MAX);
        }
        let _ = self.retain_slot(t.slot, ResourceKind::Strip);
        let copy = BitmapTable {
            slot: t.slot,
            cache: cache_clone(&t.cache),
            cached_ids: ids_copy,
            fetches: t.fetches,
            failed_fetches: t.failed_fetches,
        };
        proof {
            assert(copy.cached_ids_view() =~= t.cached_ids_view());
            assert forall|i2: int|
                0 <= i2 < copy.cached_ids_view().len() implies copy.listed_from_cache(i2) by {
                assert(t.listed_from_cache(i2));
                let k = choose|k: usize|
                    #[trigger] t.cached().dom().contains(k) && t.cached()[k]
                        == t.cached_ids_view()[i2];
                assert(copy.cached().dom().contains(k));
                assert(copy.cached()[k] == copy.cached_ids_view()[i2]);
            }
            assert(copy.wf(*self));
        }
        copy
    }

    /// Drops a whole table: the cache gives each of its references back —
    /// freeing exactly the bitmaps nobody else still holds — and the strip
    /// loses its one reference, its single native free coming out when that
    /// was the last. The returned calls are exactly the frees owed, in
    /// resolution order, the strip's own free last; no other resource
    /// changes. Bitmaps extracted from the table and still held by callers
    /// stay live: they are independent shared references.
    pub fn release_bitmap_table(&mut self, t: BitmapTable) -> (r: Vec<DriverCall>)
        requires
            old(self).wf(),
            t.wf(*old(self)),
        ensures
            final(self).wf(),
            final(self).driver_table() == old(self).driver_table(),
            final(self).num_slots() == old(self).num_slots(),
            forall|id: usize|
                id < old(self).num_slots() && !t.cached_ids_view().contains(id) && id
                    != t.slot_spec() ==> final(self).slot(id) == old(self).slot(id),
            forall|i: int|
                0 <= i < t.cached_ids_view().len() && old(self).live_bitmap(
                    #[trigger] t.cached_ids_view()[i],
                ) ==> final(self).slot(t.cached_ids_view()[i]) == (ResourceSlot {
                    handle: old(self).slot(t.cached_ids_view()[i]).handle,
                    refs: (old(self).slot(t.cached_ids_view()[i]).refs - 1) as usize,
                    alive: old(self).slot(t.cached_ids_view()[i]).refs > 1,
                    kind: ResourceKind::Image,
                }),
            forall|i: int|
                0 <= i < t.cached_ids_view().len() && !old(self).live_bitmap(
                    #[trigger] t.cached_ids_view()[i],
                ) ==> final(self).slot(t.cached_ids_view()[i]) == old(self).slot(
                    t.cached_ids_view()[i],
                ),
            final(self).slot(t.slot_spec()) == (ResourceSlot {
                handle: old(self).slot(t.slot_spec()).handle,
                refs: (old(self).slot(t.slot_spec()).refs - 1) as usize,
                alive: old(self).slot(t.slot_spec()).refs > 1,
                kind: ResourceKind::Strip,
            }),
            r@ == bitmap_frees_owed(*old(self), t.cached_ids_view()) + (if old(self).slot(
                t.slot_spec(),
            ).refs == 1 {
                seq![DriverCall::FreeBitmapTable { table: old(self).slot(t.slot_spec()).handle }]
            } else {
                Seq::<DriverCall>::empty()
            }),
    {
        let mut out: Vec<DriverCall> = Vec::new();
        let mut i: usize = 0;
        let BitmapTable { slot, cache: _, cached_ids, fetches: _, failed_fetches: _ } = t;
        while i < cached_ids.len()
            invariant
                self.wf(),
                old(self).wf(),
                t.wf(*old(self)),
                self.driver_table() == old(self).driver_table(),
                self.num_slots() == old(self).num_slots(),
                i <= cached_ids@.len(),
                cached_ids@ == t.cached_ids_view(),
                slot == t.slot_spec(),
                forall|id: usize|
                    id < old(self).num_slots() && !cached_ids@.take(i as int).contains(id)
                        ==> self.slot(id) == old(self).slot(id),
                forall|j: int|
                    0 <= j < i && old(self).live_bitmap(#[trigger] cached_ids@[j]) ==> self.slot(
                        cached_ids@[j],
                    ) == (ResourceSlot {
                        handle: old(self).slot(cached_ids@[j]).handle,
                        refs: (old(self).slot(cached_ids@[j]).refs - 1) as usize,
                        alive: old(self).slot(cached_ids@[j]).refs > 1,
                        kind: ResourceKind::Image,
                    }),
                forall|j: int|
                    0 <= j < i && !old(self).live_bitmap(#[trigger] cached_ids@[j]) ==> self.slot(
                        cached_ids@[j],
                    ) == old(self).slot(cached_ids@[j]),
                out@ == bitmap_frees_owed(*old(self), cached_ids@.take(i as int)),
            decreases cached_ids@.len() - i,
        {
            let id = cached_ids[i];
            proof {
                assert(!cached_ids@.take(i as int).contains(id)) by {
                    if cached_ids@.take(i as int).contains(id) {
                        let j = choose|j: int|
                            0 <= j < i && cached_ids@.take(i as int)[j] == id;
                        assert(cached_ids@[j] == cached_ids@[i as int]);
                    }
                }
                assert(id < old(self).num_slots());
                assert(self.slot(id) == old(self).slot(id));
            }
            match self.release_slot(id, ResourceKind::Image) {
                Option::Some(h) => out.push(DriverCall::FreeBitmap { bitmap: h }),
                Option::None => (),
            }
            proof {
                lemma_bitmap_frees_owed_push(*old(self), cached_ids@.take(i as int), id);
                assert(cached_ids@.take(i as int + 1) =~= cached_ids@.take(i as int).push(id));
                assert(out@ == bitmap_frees_owed(*old(self), cached_ids@.take(i as int + 1)));
                assert forall|id2: usize|
                    id2 < old(self).num_slots() && !cached_ids@.take(i as int + 1).contains(id2)
                    implies self.slot(id2) == old(self).slot(id2) by {
                    assert(!cached_ids@.take(i as int).contains(id2)) by {
                        if cached_ids@.take(i as int).contains(id2) {
                            let j = choose|j: int|
                                0 <= j < i && cached_ids@.take(i as int)[j] == id2;
                            assert(cached_ids@.take(i as int + 1)[j] == id2);
                        }
                    }
                    assert(cached_ids@.take(i as int + 1)[i as int] == id);
                    assert(cached_ids@.take(i as int + 1).contains(id));
                    assert(id2 != id);
                }
            }
            i = i + 1;
        }
        proof {
            assert(cached_ids@.take(cached_ids@.len() as int) =~= cached_ids@);
            // the strip is no listed image resource, so the loop left it be
            assert(!cached_ids@.contains(slot)) by {
                if cached_ids@.contains(slot) {
                    let j = choose|j: int|
                        0 <= j < cached_ids@.len() && cached_ids@[j] == slot;
                    assert(old(self).slot(cached_ids@[j]).kind == ResourceKind::Image);
                }
            }
            assert(self.slot(slot) == old(self).slot(slot));
        }
        match self.release_slot(slot, ResourceKind::Strip) {
            Option::Some(h) => {
                out.push(DriverCall::FreeBitmapTable { table: h });
                proof {
                    assert(out@ =~= bitmap_frees_owed(*old(self), t.cached_ids_view()) + seq![
                        DriverCall::FreeBitmapTable {
                            table: old(self).slot(t.slot_spec()).handle,
                        },
                    ]);
                }
            },
            Option::None => {
                proof {
                    assert(out@ =~= bitmap_frees_owed(*old(self), t.cached_ids_view())
                        + Seq::<DriverCall>::empty());
                }
            },
        }
        out
    }
}

/// The free calls that giving these cache references back owes, in order:
/// one per listed resource whose single remaining reference is the cache's
/// own, none for a resource someone else still holds.
pub open spec fn bitmap_frees_owed(g: Graphics, ids: Seq<usize>) -> Seq<DriverCall>
    decreases ids.len(),
{
    if ids.len() == 0 {
        Seq::<DriverCall>::empty()
    } else {
        (if g.live_bitmap(ids[0]) && g.slot(ids[0]).refs == 1 {
            seq![DriverCall::FreeBitmap { bitmap: g.slot(ids[0]).handle }]
        } else {
            Seq::<DriverCall>::empty()
        }) + bitmap_frees_owed(g, ids.drop_first())
    }
}

proof fn lemma_bitmap_frees_owed_push(g: Graphics, ids: Seq<usize>, x: usize)
    ensures
        bitmap_frees_owed(g, ids.push(x)) == bitmap_frees_owed(g, ids) + (if g.live_bitmap(x)
            && g.slot(x).refs == 1 {
            seq![DriverCall::FreeBitmap { bitmap: g.slot(x).handle }]
        } else {
            Seq::<DriverCall>::empty()
        }),
    decreases ids.len(),
{
    let head_of_x = if g.live_bitmap(x) && g.slot(x).refs == 1 {
        seq![DriverCall::FreeBitmap { bitmap: g.slot(x).handle }]
    } else {
        Seq::<DriverCall>::empty()
    };
    if ids.len() == 0 {
        assert(ids.push(x)[0] == x);
        assert(ids.push(x).drop_first() =~= Seq::<usize>::empty());
        assert(bitmap_frees_owed(g, ids.push(x).drop_first()) == Seq::<DriverCall>::empty());
        assert(bitmap_frees_owed(g, ids.push(x)) == head_of_x + Seq::<DriverCall>::empty());
        assert(bitmap_frees_owed(g, ids) == Seq::<DriverCall>::empty());
        assert(head_of_x + Seq::<DriverCall>::empty() =~= Seq::<DriverCall>::empty() + head_of_x);
    } else {
        let head_of_first = if g.live_bitmap(ids[0]) && g.slot(ids[0]).refs == 1 {
            seq![DriverCall::FreeBitmap { bitmap: g.slot(ids[0]).handle }]
        } else {
            Seq::<DriverCall>::empty()
        };
        assert(ids.push(x)[0] == ids[0]);
        assert(ids.push(x).drop_first() =~= ids.drop_first().push(x));
        lemma_bitmap_frees_owed_push(g, ids.drop_first(), x);
        assert(bitmap_frees_owed(g, ids.push(x)) == head_of_first + (bitmap_frees_owed(
            g,
            ids.drop_first(),
        ) + head_of_x));
        assert(bitmap_frees_owed(g, ids) == head_of_first + bitmap_frees_owed(
            g,
            ids.drop_first(),
        ));
        assert(head_of_first + (bitmap_frees_owed(g, ids.drop_first()) + head_of_x) =~= (
        head_of_first + bitmap_frees_owed(g, ids.drop_first())) + head_of_x);
    }
}

/// Law: a bitmap table never spends more than one native fetch on an index.
/// In any well-formed pairing of table and service, the total number of
/// native fetches is exactly the number of distinct indices resolved in the
/// cache plus the fetches the driver answered with a null handle — querying
/// any already-resolved index again adds nothing to it.
pub proof fn lemma_one_fetch_per_index(t: BitmapTable, g: Graphics)
    requires
        t.wf(g),
    ensures
        t.fetches_spec() == t.cached().dom().len() + t.failed_fetches_spec(),
{
}

} // verus!
