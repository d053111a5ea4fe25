use vstd::prelude::*;

use vstd::seq_lib::group_seq_properties;
use vstd::string::StringSliceAdditionalSpecFns;

use crate::color::{LCDBitmapDrawMode, LCDBitmapFlip, LCDColor, LCDLineCapStyle, LCDSolidColor};
use crate::cpath::path_to_c;
use crate::driver::{interpret_decode, DriverCall, DriverHandle, DriverOp};
use crate::error::GraphicsError;
use crate::font::Font;
use crate::geometry::{LCDRect, ScreenPoint, ScreenRect, ScreenSize, ScreenVector};

verus! {

/// A bitmap's metadata as one native query reports it.
#[derive(Clone, Copy, Debug, PartialEq, Eq, Structural)]
pub struct BitmapData {
    pub width: i32,
    pub height: i32,
    pub rowbytes: i32,
    pub hasmask: bool,
}

/// The kinds of native resource whose lifetime the service tracks.
#[derive(Clone, Copy, Debug, PartialEq, Eq, Structural)]
pub enum ResourceKind {
    /// A single image buffer.
    Image,
    /// A multi-image strip backing a bitmap table.
    Strip,
}

/// One tracked native resource: its raw handle, the number of outstanding
/// shared references to it, and whether it is still live. Once the reference
/// count reaches zero the slot goes dead for good; a dead slot is never
/// reused and never freed a second time.
#[derive(Clone, Copy, Debug, PartialEq, Eq, Structural)]
pub struct ResourceSlot {
    pub handle: usize,
    pub refs: usize,
    pub alive: bool,
    pub kind: ResourceKind,
}

/// A shared reference to one tracked image resource. New references come
/// only from the service (adoption of a fresh native handle, or retaining an
/// existing one), so each value stands for exactly one unit of the slot's
/// reference count.
#[derive(Debug, PartialEq, Eq)]
pub struct Bitmap {
    id: usize,
}

impl Bitmap {
    /// The arena slot this reference points at.
    pub closed spec fn id_spec(self) -> usize {
        self.id
    }

    /// The arena slot this reference points at.
    pub fn id(&self) -> (r: usize)
        ensures
            r == self.id_spec(),
    {
        self.id
    }

    /// A reference value for a slot the caller already accounts for.
    pub(crate) fn from_id(id: usize) -> (b: Bitmap)
        ensures
            b.id_spec() == id,
    {
        Bitmap { id }
    }
}

/// The graphics service: the driver's function-table handle plus the arena
/// that tracks every native resource this layer has adopted. All drawing
/// methods only build fully marshalled `DriverCall` values; an unverified
/// executor performs them and feeds the outcome back through the
/// `complete_*` methods.
pub struct Graphics {
    driver: DriverHandle,
    slots: Vec<ResourceSlot>,
    freed: Vec<usize>,
}

impl Graphics {
    /// The raw function-table address the service was built with.
    pub closed spec fn driver_table(self) -> usize {
        self.driver.table
    }

    /// A non-null function table was installed.
    pub open spec fn initialized(self) -> bool {
        self.driver_table() != 0
    }

    /// All resource slots ever adopted, in adoption order.
    pub closed spec fn slots_view(self) -> Seq<ResourceSlot> {
        self.slots@
    }

    pub open spec fn num_slots(self) -> nat {
        self.slots_view().len()
    }

    pub open spec fn slot(self, id: usize) -> ResourceSlot {
        self.slots_view()[id as int]
    }

    /// The slots whose native free call has been handed out, in order.
    pub closed spec fn freed_ids(self) -> Seq<usize> {
        self.freed@
    }

    /// The slot exists and its resource has not been freed.
    pub open spec fn live(self, id: usize) -> bool {
        id < self.num_slots() && self.slot(id).alive
    }

    /// The slot is a live image resource, fit to stand in a draw call.
    pub open spec fn live_bitmap(self, id: usize) -> bool {
        self.live(id) && self.slot(id).kind == ResourceKind::Image
    }

    /// The resource-lifecycle invariant: every live slot has at least one
    /// outstanding reference and a non-null handle, and the free log names
    /// exactly the dead slots, each exactly once.
    pub open spec fn wf(self) -> bool {
        &&& forall|i: int|
            0 <= i < self.slots_view().len() && (#[trigger] self.slots_view()[i]).alive
                ==> self.slots_view()[i].refs >= 1 && self.slots_view()[i].handle != 0
        &&& self.freed_ids().no_duplicates()
        &&& forall|j: int|
            0 <= j < self.freed_ids().len()
                ==> (#[trigger] self.freed_ids()[j]) < self.slots_view().len()
                && !self.slots_view()[self.freed_ids()[j] as int].alive
        &&& forall|i: int|
            0 <= i < self.slots_view().len() && !(#[trigger] self.slots_view()[i]).alive
                ==> self.freed_ids().contains(i as usize)
    }

    /// Builds the service around the driver function-table handle the
    /// hosting runtime provides; nothing is adopted yet.
    pub fn new(driver: usize) -> (g: Graphics)
        ensures
            g.wf(),
            g.driver_table() == driver,
            g.num_slots() == 0,
            g.freed_ids() == Seq::<usize>::empty(),
    {
        Graphics { driver: DriverHandle::new(driver), slots: Vec::new(), freed: Vec::new() }
    }

    /// A copy of the stored driver handle, resolved afresh at every use.
    pub fn get(&self) -> (h: DriverHandle)
        ensures
            h.table == self.driver_table(),
    {
        self.driver
    }

    /// The raw function-table address (0 when never initialized).
    pub fn get_ptr(&self) -> (r: usize)
        ensures
            r == self.driver_table(),
    {
        self.driver.table
    }

    /// How many native free calls the service has handed out so far.
    pub fn frees_issued(&self) -> (r: usize)
        ensures
            r == self.freed_ids().len(),
    {
        self.freed.len()
    }

    /// Takes ownership of a fresh native image handle the driver returned,
    /// as a new slot with one reference. A null handle is rejected before it
    /// can enter the arena.
    pub fn adopt_bitmap(&mut self, handle: usize) -> (r: Result<Bitmap, GraphicsError>)
        requires
            old(self).wf(),
        ensures
            final(self).wf(),
            final(self).driver_table() == old(self).driver_table(),
            handle == 0 ==> r == Err::<Bitmap, GraphicsError>(GraphicsError::InvalidHandle)
                && final(self).slots_view() == old(self).slots_view()
                && final(self).freed_ids() == old(self).freed_ids(),
            handle != 0 ==> (r matches Ok(b) && b.id_spec() == old(self).num_slots() && final(self).live_bitmap(b.id_spec()) && final(self).slot(b.id_spec()) == (ResourceSlot {
                handle,
                refs: 1,
                alive: true,
                kind: ResourceKind::Image,
            })) && final(self).slots_view() == old(self).slots_view().push(
                ResourceSlot { handle, refs: 1, alive: true, kind: ResourceKind::Image },
            ) && final(self).freed_ids() == old(self).freed_ids(),
    {
        match self.adopt_slot(handle, ResourceKind::Image) {
            Ok(id) => Ok(Bitmap { id }),
            Err(e) => Err(e),
        }
    }

    /// Adoption shared by images and strips.
    pub(crate) fn adopt_slot(&mut self, handle: usize, kind: ResourceKind) -> (r: Result<
        usize,
        GraphicsError,
    >)
        requires
            old(self).wf(),
        ensures
            final(self).wf(),
            final(self).driver_table() == old(self).driver_table(),
            handle == 0 ==> r == Err::<usize, GraphicsError>(GraphicsError::InvalidHandle)
                && final(self).slots_view() == old(self).slots_view()
                && final(self).freed_ids() == old(self).freed_ids(),
            handle != 0 ==> (r matches Ok(id) && id == old(self).num_slots() && final(self).live(id) && final(self).slot(id) == (ResourceSlot {
                handle,
                refs: 1,
                alive: true,
                kind,
            })) && final(self).slots_view() == old(self).slots_view().push(
                ResourceSlot { handle, refs: 1, alive: true, kind },
            ) && final(self).freed_ids() == old(self).freed_ids(),
    {
        if handle == 0 {
            return Err(GraphicsError::InvalidHandle);
        }
        let id = self.slots.len();
        self.slots.push(ResourceSlot { handle, refs: 1, alive: true, kind });
        proof {
            assert forall|j: int|
                0 <= j < self.freed_ids().len() implies (#[trigger] self.freed_ids()[j])
                < self.slots_view().len() && !self.slots_view()[self.freed_ids()[j] as int].alive by {
                assert(self.slots_view()[self.freed_ids()[j] as int]
                    == old(self).slots_view()[old(self).freed_ids()[j] as int]);
            }
            assert forall|i: int|
                0 <= i < self.slots_view().len() && !(#[trigger] self.slots_view()[i]).alive
                implies self.freed_ids().contains(i as usize) by {
                assert(i < old(self).slots_view().len());
                assert(old(self).freed_ids().contains(i as usize));
            }
        }
        Ok(id)
    }

    /// Hands out one more shared reference to a live image resource,
    /// raising its reference count by one.
    pub fn retain_bitmap(&mut self, b: &Bitmap) -> (r: Result<Bitmap, GraphicsError>)
        requires
            old(self).wf(),
            old(self).live_bitmap(b.id_spec()) ==> old(self).slot(b.id_spec()).refs < usize::MAX,
        ensures
            final(self).wf(),
            final(self).driver_table() == old(self).driver_table(),
            final(self).freed_ids() == old(self).freed_ids(),
            !old(self).live_bitmap(b.id_spec()) ==> r == Err::<Bitmap, GraphicsError>(
                GraphicsError::InvalidHandle,
            ) && final(self).slots_view() == old(self).slots_view(),
            old(self).live_bitmap(b.id_spec()) ==> (r matches Ok(b2) && b2.id_spec()
                == b.id_spec()) && final(self).slots_view() == old(self).slots_view().update(
                b.id_spec() as int,
                ResourceSlot {
                    handle: old(self).slot(b.id_spec()).handle,
                    refs: (old(self).slot(b.id_spec()).refs + 1) as usize,
                    alive: true,
                    kind: ResourceKind::Image,
                },
            ),
    {
        if self.retain_slot(b.id, ResourceKind::Image) {
            Ok(Bitmap { id: b.id })
        } else {
            Err(GraphicsError::InvalidHandle)
        }
    }

    /// One more reference to a live resource of the given kind; `false`
    /// when the slot is no such resource, leaving everything unchanged.
    pub(crate) fn retain_slot(&mut self, id: usize, kind: ResourceKind) -> (r: bool)
        requires
            old(self).wf(),
            old(self).live(id) && old(self).slot(id).kind == kind ==> old(self).slot(id).refs
                < usize::MAX,
        ensures
            final(self).wf(),
            final(self).driver_table() == old(self).driver_table(),
            final(self).freed_ids() == old(self).freed_ids(),
            !(old(self).live(id) && old(self).slot(id).kind == kind) ==> r == false && final(self).slots_view() == old(self).slots_view(),
            old(self).live(id) && old(self).slot(id).kind == kind ==> r == true && final(self).slots_view() == old(self).slots_view().update(
                id as int,
                ResourceSlot {
                    handle: old(self).slot(id).handle,
                    refs: (old(self).slot(id).refs + 1) as usize,
                    alive: true,
                    kind,
                },
            ),
    {
        if id >= self.slots.len() {
            return false;
        }
        let s = self.slots[id];
        if !s.alive || !(s.kind == kind) {
            return false;
        }
        self.slots[id] = ResourceSlot { handle: s.handle, refs: s.refs + 1, alive: true, kind: s.kind };
        proof {
            assert forall|j: int|
                0 <= j < self.freed_ids().len() implies (#[trigger] self.freed_ids()[j])
                < self.slots_view().len() && !self.slots_view()[self.freed_ids()[j] as int].alive by {
                assert(!old(self).slots_view()[old(self).freed_ids()[j] as int].alive);
            }
            assert forall|i: int|
                0 <= i < self.slots_view().len() && !(#[trigger] self.slots_view()[i]).alive
                implies self.freed_ids().contains(i as usize) by {
                assert(old(self).slots_view()[i] == self.slots_view()[i] || i == id);
            }
        }
        true
    }

    /// Gives one shared reference back. Only when the last reference goes
    /// does the slot die and the single native free call for its handle come
    /// out; a reference to an already dead slot is swallowed, so no handle
    /// can ever be freed twice. Mirrors the rule that releasing a resource
    /// must never fail outward.
    pub(crate) fn release_slot(&mut self, id: usize, kind: ResourceKind) -> (r: Option<usize>)
        requires
            old(self).wf(),
        ensures
            final(self).wf(),
            final(self).driver_table() == old(self).driver_table(),
            !(old(self).live(id) && old(self).slot(id).kind == kind) ==> r == None::<usize>
                && final(self).slots_view() == old(self).slots_view()
                && final(self).freed_ids() == old(self).freed_ids(),
            old(self).live(id) && old(self).slot(id).kind == kind && old(self).slot(id).refs > 1
                ==> r == None::<usize> && final(self).slots_view() == old(
                self,
            ).slots_view().update(
                id as int,
                ResourceSlot {
                    handle: old(self).slot(id).handle,
                    refs: (old(self).slot(id).refs - 1) as usize,
                    alive: true,
                    kind,
                },
            ) && final(self).freed_ids() == old(self).freed_ids(),
            old(self).live(id) && old(self).slot(id).kind == kind && old(self).slot(id).refs == 1
                ==> r == Some(old(self).slot(id).handle) && final(self).slots_view() == old(
                self,
            ).slots_view().update(
                id as int,
                ResourceSlot { handle: old(self).slot(id).handle, refs: 0, alive: false, kind },
            ) && final(self).freed_ids() == old(self).freed_ids().push(id),
    {
        if id >= self.slots.len() {
            return None;
        }
        let s = self.slots[id];
        if !s.alive || !(s.kind == kind) {
            return None;
        }
        if s.refs > 1 {
            self.slots[id] = ResourceSlot {
                handle: s.handle,
                refs: s.refs - 1,
                alive: true,
                kind: s.kind,
            };
            proof {
                assert forall|j: int|
                    0 <= j < self.freed_ids().len() implies (#[trigger] self.freed_ids()[j])
                    < self.slots_view().len()
                    && !self.slots_view()[self.freed_ids()[j] as int].alive by {
                    assert(!old(self).slots_view()[old(self).freed_ids()[j] as int].alive);
                }
                assert forall|i: int|
                    0 <= i < self.slots_view().len() && !(#[trigger] self.slots_view()[i]).alive
                    implies self.freed_ids().contains(i as usize) by {
                    assert(old(self).slots_view()[i] == self.slots_view()[i] || i == id);
                }
            }
            None
        } else {
            self.slots[id] = ResourceSlot { handle: s.handle, refs: 0, alive: false, kind: s.kind };
            self.freed.push(id);
            proof {
                broadcast use group_seq_properties;

                assert(!old(self).freed_ids().contains(id)) by {
                    if old(self).freed_ids().contains(id) {
                        let j = choose|j: int|
                            0 <= j < old(self).freed_ids().len() && old(self).freed_ids()[j] == id;
                        assert(!old(self).slots_view()[id as int].alive);
                    }
                }
                assert(self.freed_ids().no_duplicates());
                assert forall|j: int|
                    0 <= j < self.freed_ids().len() implies (#[trigger] self.freed_ids()[j])
                    < self.slots_view().len()
                    && !self.slots_view()[self.freed_ids()[j] as int].alive by {
                    if j < old(self).freed_ids().len() {
                        assert(!old(self).slots_view()[old(self).freed_ids()[j] as int].alive);
                    } else {
                        assert(self.freed_ids()[j] == id);
                    }
                }
                assert forall|i: int|
                    0 <= i < self.slots_view().len() && !(#[trigger] self.slots_view()[i]).alive
                    implies self.freed_ids().contains(i as usize) by {
                    if i != id {
                        assert(old(self).freed_ids().contains(i as usize));
                        let j = choose|j: int|
                            0 <= j < old(self).freed_ids().len() && old(self).freed_ids()[j] == (
                            i as usize);
                        assert(self.freed_ids()[j] == (i as usize));
                    } else {
                        assert(self.freed_ids()[self.freed_ids().len() - 1] == id);
                    }
                }
            }
            Some(s.handle)
        }
    }

    /// Drops one shared reference to a bitmap, consuming the reference
    /// value. When it was the last one, the single native free call for the
    /// underlying handle comes back for the executor to perform.
    pub fn release_bitmap(&mut self, b: Bitmap) -> (r: Option<DriverCall>)
        requires
            old(self).wf(),
        ensures
            final(self).wf(),
            final(self).driver_table() == old(self).driver_table(),
            !(old(self).live_bitmap(b.id_spec())) ==> r == None::<DriverCall>
                && final(self).slots_view() == old(self).slots_view()
                && final(self).freed_ids() == old(self).freed_ids(),
            old(self).live_bitmap(b.id_spec()) && old(self).slot(b.id_spec()).refs > 1 ==> r
                == None::<DriverCall> && final(self).slots_view() == old(
                self,
            ).slots_view().update(
                b.id_spec() as int,
                ResourceSlot {
                    handle: old(self).slot(b.id_spec()).handle,
                    refs: (old(self).slot(b.id_spec()).refs - 1) as usize,
                    alive: true,
                    kind: ResourceKind::Image,
                },
            ) && final(self).freed_ids() == old(self).freed_ids(),
            old(self).live_bitmap(b.id_spec()) && old(self).slot(b.id_spec()).refs == 1 ==> r
                == Some(
                DriverCall::FreeBitmap { bitmap: old(self).slot(b.id_spec()).handle },
            ) && final(self).slots_view() == old(self).slots_view().update(
                b.id_spec() as int,
                ResourceSlot {
                    handle: old(self).slot(b.id_spec()).handle,
                    refs: 0,
                    alive: false,
                    kind: ResourceKind::Image,
                },
            ) && final(self).freed_ids() == old(self).freed_ids().push(b.id_spec()),
    {
        match self.release_slot(b.id, ResourceKind::Image) {
            Option::Some(handle) => Option::Some(DriverCall::FreeBitmap { bitmap: handle }),
            Option::None => Option::None,
        }
    }
}

impl Graphics {
    /// The optional bitmap argument is absent or names a live image.
    pub open spec fn opt_live(self, b: Option<&Bitmap>) -> bool {
        match b {
            Option::Some(b) => self.live_bitmap(b.id_spec()),
            Option::None => true,
        }
    }

    /// The native handle an optional bitmap argument marshals to; the driver
    /// reads 0 as "the on-screen frame buffer" or "no stencil".
    pub open spec fn opt_handle(self, b: Option<&Bitmap>) -> usize {
        match b {
            Option::Some(b) => self.slot(b.id_spec()).handle,
            Option::None => 0,
        }
    }

    /// The raw handle of a live slot, whatever its kind.
    pub(crate) fn slot_handle(&self, id: usize) -> (r: Option<usize>)
        ensures
            self.live(id) ==> r == Some(self.slot(id).handle),
            !self.live(id) ==> r == None::<usize>,
    {
        if id >= self.slots.len() {
            return None;
        }
        let s = self.slots[id];
        if s.alive {
            Some(s.handle)
        } else {
            None
        }
    }

    /// Resolves an optional bitmap reference to the raw handle a native call
    /// takes, refusing a reference whose resource is no longer live.
    pub fn raw_bitmap(&self, bitmap: Option<&Bitmap>) -> (r: Result<usize, GraphicsError>)
        ensures
            self.opt_live(bitmap) ==> r == Ok::<usize, GraphicsError>(self.opt_handle(bitmap)),
            !self.opt_live(bitmap) ==> r == Err::<usize, GraphicsError>(
                GraphicsError::InvalidHandle,
            ),
    {
        match bitmap {
            Option::Some(b) => {
                if b.id >= self.slots.len() {
                    return Err(GraphicsError::InvalidHandle);
                }
                let s = self.slots[b.id];
                if s.alive && s.kind == ResourceKind::Image {
                    Ok(s.handle)
                } else {
                    Err(GraphicsError::InvalidHandle)
                }
            },
            Option::None => Ok(0),
        }
    }

    /// Builds the native fill of the whole frame buffer with a color.
    pub fn clear(&self, color: LCDColor) -> (r: Result<DriverCall, GraphicsError>)
        ensures
            !self.initialized() ==> r == Err::<DriverCall, GraphicsError>(
                GraphicsError::NotInitialized,
            ),
            self.initialized() ==> r == Ok::<DriverCall, GraphicsError>(
                DriverCall::Clear { color },
            ),
    {
        if self.get_ptr() == 0 {
            return Err(GraphicsError::NotInitialized);
        }
        Ok(DriverCall::Clear { color })
    }

    /// Builds the native call that sets the background color used where
    /// nothing is drawn.
    pub fn set_background_color(&self, color: LCDSolidColor) -> (r: Result<
        DriverCall,
        GraphicsError,
    >)
        ensures
            !self.initialized() ==> r == Err::<DriverCall, GraphicsError>(
                GraphicsError::NotInitialized,
            ),
            self.initialized() ==> r == Ok::<DriverCall, GraphicsError>(
                DriverCall::SetBackgroundColor { color },
            ),
    {
        if self.get_ptr() == 0 {
            return Err(GraphicsError::NotInitialized);
        }
        Ok(DriverCall::SetBackgroundColor { color })
    }

    /// Builds the dirty-rows hint for a row range, inclusive on both ends.
    pub fn mark_updated_rows(&self, start: i32, end: i32) -> (r: Result<
        DriverCall,
        GraphicsError,
    >)
        ensures
            r == mark_updated_rows_spec(*self, start, end),
    {
        if self.get_ptr() == 0 {
            return Err(GraphicsError::NotInitialized);
        }
        Ok(DriverCall::MarkUpdatedRows { start, end })
    }

    /// Builds the native push of the frame buffer to the physical panel.
    pub fn display(&self) -> (r: Result<DriverCall, GraphicsError>)
        ensures
            !self.initialized() ==> r == Err::<DriverCall, GraphicsError>(
                GraphicsError::NotInitialized,
            ),
            self.initialized() ==> r == Ok::<DriverCall, GraphicsError>(DriverCall::Display),
    {
        if self.get_ptr() == 0 {
            return Err(GraphicsError::NotInitialized);
        }
        Ok(DriverCall::Display)
    }

    /// Builds the native call that pans all subsequent drawing by an offset.
    pub fn set_draw_offset(&self, offset: ScreenVector) -> (r: Result<DriverCall, GraphicsError>)
        ensures
            !self.initialized() ==> r == Err::<DriverCall, GraphicsError>(
                GraphicsError::NotInitialized,
            ),
            self.initialized() ==> r == Ok::<DriverCall, GraphicsError>(
                DriverCall::SetDrawOffset { dx: offset.x, dy: offset.y },
            ),
    {
        if self.get_ptr() == 0 {
            return Err(GraphicsError::NotInitialized);
        }
        Ok(DriverCall::SetDrawOffset { dx: offset.x, dy: offset.y })
    }

    /// Builds the native request for the working frame buffer's address.
    pub fn get_frame(&self) -> (r: Result<DriverCall, GraphicsError>)
        ensures
            !self.initialized() ==> r == Err::<DriverCall, GraphicsError>(
                GraphicsError::NotInitialized,
            ),
            self.initialized() ==> r == Ok::<DriverCall, GraphicsError>(DriverCall::GetFrame),
    {
        if self.get_ptr() == 0 {
            return Err(GraphicsError::NotInitialized);
        }
        Ok(DriverCall::GetFrame)
    }

    /// Builds the native request for the on-screen frame buffer's address.
    pub fn get_display_frame(&self) -> (r: Result<DriverCall, GraphicsError>)
        ensures
            !self.initialized() ==> r == Err::<DriverCall, GraphicsError>(
                GraphicsError::NotInitialized,
            ),
            self.initialized() ==> r == Ok::<DriverCall, GraphicsError>(
                DriverCall::GetDisplayFrame,
            ),
    {
        if self.get_ptr() == 0 {
            return Err(GraphicsError::NotInitialized);
        }
        Ok(DriverCall::GetDisplayFrame)
    }

    /// Builds the native request for a bitmap holding the debug overlay.
    pub fn get_debug_image(&self) -> (r: Result<DriverCall, GraphicsError>)
        ensures
            !self.initialized() ==> r == Err::<DriverCall, GraphicsError>(
                GraphicsError::NotInitialized,
            ),
            self.initialized() ==> r == Ok::<DriverCall, GraphicsError>(DriverCall::GetDebugImage),
    {
        if self.get_ptr() == 0 {
            return Err(GraphicsError::NotInitialized);
        }
        Ok(DriverCall::GetDebugImage)
    }

    /// Builds the native request for a bitmap wrapping the frame buffer.
    pub fn get_framebuffer_bitmap(&self) -> (r: Result<DriverCall, GraphicsError>)
        ensures
            !self.initialized() ==> r == Err::<DriverCall, GraphicsError>(
                GraphicsError::NotInitialized,
            ),
            self.initialized() ==> r == Ok::<DriverCall, GraphicsError>(
                DriverCall::GetFrameBufferBitmap,
            ),
    {
        if self.get_ptr() == 0 {
            return Err(GraphicsError::NotInitialized);
        }
        Ok(DriverCall::GetFrameBufferBitmap)
    }

    /// Builds the native allocation of a fresh bitmap of the given size,
    /// filled with the given background color.
    pub fn new_bitmap(&self, size: ScreenSize, bg_color: LCDColor) -> (r: Result<
        DriverCall,
        GraphicsError,
    >)
        ensures
            !self.initialized() ==> r == Err::<DriverCall, GraphicsError>(
                GraphicsError::NotInitialized,
            ),
            self.initialized() ==> r == Ok::<DriverCall, GraphicsError>(
                DriverCall::NewBitmap { width: size.width, height: size.height, color: bg_color },
            ),
    {
        if self.get_ptr() == 0 {
            return Err(GraphicsError::NotInitialized);
        }
        Ok(DriverCall::NewBitmap { width: size.width, height: size.height, color: bg_color })
    }

    /// Builds the native decode of an image file into a fresh bitmap.
    pub fn load_bitmap(&self, path: &str) -> (r: Result<DriverCall, GraphicsError>)
        ensures
            !self.initialized() ==> r == Err::<DriverCall, GraphicsError>(
                GraphicsError::NotInitialized,
            ),
            self.initialized() && path.spec_bytes().contains(0u8) ==> r == Err::<
                DriverCall,
                GraphicsError,
            >(GraphicsError::InvalidPath),
            self.initialized() && !path.spec_bytes().contains(0u8) ==> (r matches Ok(c)
                && c matches DriverCall::LoadBitmap { path: p } && p@ == path.spec_bytes().push(
                0u8,
            )),
    {
        if self.get_ptr() == 0 {
            return Err(GraphicsError::NotInitialized);
        }
        match path_to_c(path) {
            Ok(p) => Ok(DriverCall::LoadBitmap { path: p }),
            Err(e) => Err(e),
        }
    }

    /// Builds the native allocation of a bitmap strip with room for `count`
    /// images of the given size.
    pub fn new_bitmap_table(&self, count: usize, size: ScreenSize) -> (r: Result<
        DriverCall,
        GraphicsError,
    >)
        requires
            count <= i32::MAX,
        ensures
            !self.initialized() ==> r == Err::<DriverCall, GraphicsError>(
                GraphicsError::NotInitialized,
            ),
            self.initialized() ==> r == Ok::<DriverCall, GraphicsError>(
                DriverCall::NewBitmapTable {
                    count: count as i32,
                    width: size.width,
                    height: size.height,
                },
            ),
    {
        if self.get_ptr() == 0 {
            return Err(GraphicsError::NotInitialized);
        }
        Ok(DriverCall::NewBitmapTable { count: count as i32, width: size.width, height: size.height })
    }

    /// Builds the native decode of a multi-frame image file into a fresh
    /// bitmap strip.
    pub fn load_bitmap_table(&self, path: &str) -> (r: Result<DriverCall, GraphicsError>)
        ensures
            !self.initialized() ==> r == Err::<DriverCall, GraphicsError>(
                GraphicsError::NotInitialized,
            ),
            self.initialized() && path.spec_bytes().contains(0u8) ==> r == Err::<
                DriverCall,
                GraphicsError,
            >(GraphicsError::InvalidPath),
            self.initialized() && !path.spec_bytes().contains(0u8) ==> (r matches Ok(c)
                && c matches DriverCall::LoadBitmapTable { path: p } && p@
                == path.spec_bytes().push(0u8)),
    {
        if self.get_ptr() == 0 {
            return Err(GraphicsError::NotInitialized);
        }
        match path_to_c(path) {
            Ok(p) => Ok(DriverCall::LoadBitmapTable { path: p }),
            Err(e) => Err(e),
        }
    }

    /// Builds the native load of a font file; feed the resulting handle to
    /// `Font::new`, which rejects a null one.
    pub fn load_font(&self, path: &str) -> (r: Result<DriverCall, GraphicsError>)
        ensures
            !self.initialized() ==> r == Err::<DriverCall, GraphicsError>(
                GraphicsError::NotInitialized,
            ),
            self.initialized() && path.spec_bytes().contains(0u8) ==> r == Err::<
                DriverCall,
                GraphicsError,
            >(GraphicsError::InvalidPath),
            self.initialized() && !path.spec_bytes().contains(0u8) ==> (r matches Ok(c)
                && c matches DriverCall::LoadFont { path: p } && p@ == path.spec_bytes().push(
                0u8,
            )),
    {
        if self.get_ptr() == 0 {
            return Err(GraphicsError::NotInitialized);
        }
        match path_to_c(path) {
            Ok(p) => Ok(DriverCall::LoadFont { path: p }),
            Err(e) => Err(e),
        }
    }

    /// Builds the native stroke of a line between two points.
    pub fn draw_line(
        &self,
        target: Option<&Bitmap>,
        stencil: Option<&Bitmap>,
        p1: ScreenPoint,
        p2: ScreenPoint,
        width: i32,
        color: LCDColor,
        end_cap_style: LCDLineCapStyle,
        clip: LCDRect,
    ) -> (r: Result<DriverCall, GraphicsError>)
        ensures
            !self.initialized() ==> r == Err::<DriverCall, GraphicsError>(
                GraphicsError::NotInitialized,
            ),
            self.initialized() && !(self.opt_live(target) && self.opt_live(stencil)) ==> r
                == Err::<DriverCall, GraphicsError>(GraphicsError::InvalidHandle),
            self.initialized() && self.opt_live(target) && self.opt_live(stencil) ==> r == Ok::<
                DriverCall,
                GraphicsError,
            >(
                DriverCall::DrawLine {
                    target: self.opt_handle(target),
                    stencil: self.opt_handle(stencil),
                    x1: p1.x,
                    y1: p1.y,
                    x2: p2.x,
                    y2: p2.y,
                    width,
                    color,
                    end_cap_style,
                    clip,
                },
            ),
    {
        if self.get_ptr() == 0 {
            return Err(GraphicsError::NotInitialized);
        }
        let t = match self.raw_bitmap(target) {
            Ok(h) => h,
            Err(e) => return Err(e),
        };
        let s = match self.raw_bitmap(stencil) {
            Ok(h) => h,
            Err(e) => return Err(e),
        };
        Ok(DriverCall::DrawLine {
            target: t,
            stencil: s,
            x1: p1.x,
            y1: p1.y,
            x2: p2.x,
            y2: p2.y,
            width,
            color,
            end_cap_style,
            clip,
        })
    }

    /// Builds the native fill of the triangle with the three corners given.
    pub fn fill_triangle(
        &self,
        target: Option<&Bitmap>,
        stencil: Option<&Bitmap>,
        p1: ScreenPoint,
        p2: ScreenPoint,
        p3: ScreenPoint,
        color: LCDColor,
        clip: LCDRect,
    ) -> (r: Result<DriverCall, GraphicsError>)
        ensures
            !self.initialized() ==> r == Err::<DriverCall, GraphicsError>(
                GraphicsError::NotInitialized,
            ),
            self.initialized() && !(self.opt_live(target) && self.opt_live(stencil)) ==> r
                == Err::<DriverCall, GraphicsError>(GraphicsError::InvalidHandle),
            self.initialized() && self.opt_live(target) && self.opt_live(stencil) ==> r == Ok::<
                DriverCall,
                GraphicsError,
            >(
                DriverCall::FillTriangle {
                    target: self.opt_handle(target),
                    stencil: self.opt_handle(stencil),
                    x1: p1.x,
                    y1: p1.y,
                    x2: p2.x,
                    y2: p2.y,
                    x3: p3.x,
                    y3: p3.y,
                    color,
                    clip,
                },
            ),
    {
        if self.get_ptr() == 0 {
            return Err(GraphicsError::NotInitialized);
        }
        let t = match self.raw_bitmap(target) {
            Ok(h) => h,
            Err(e) => return Err(e),
        };
        let s = match self.raw_bitmap(stencil) {
            Ok(h) => h,
            Err(e) => return Err(e),
        };
        Ok(DriverCall::FillTriangle {
            target: t,
            stencil: s,
            x1: p1.x,
            y1: p1.y,
            x2: p2.x,
            y2: p2.y,
            x3: p3.x,
            y3: p3.y,
            color,
            clip,
        })
    }

    /// Builds the native stroke of a rectangle's outline.
    pub fn draw_rect(
        &self,
        target: Option<&Bitmap>,
        stencil: Option<&Bitmap>,
        rect: ScreenRect,
        color: LCDColor,
        clip: LCDRect,
    ) -> (r: Result<DriverCall, GraphicsError>)
        ensures
            !self.initialized() ==> r == Err::<DriverCall, GraphicsError>(
                GraphicsError::NotInitialized,
            ),
            self.initialized() && !(self.opt_live(target) && self.opt_live(stencil)) ==> r
                == Err::<DriverCall, GraphicsError>(GraphicsError::InvalidHandle),
            self.initialized() && self.opt_live(target) && self.opt_live(stencil) ==> r == Ok::<
                DriverCall,
                GraphicsError,
            >(
                DriverCall::DrawRect {
                    target: self.opt_handle(target),
                    stencil: self.opt_handle(stencil),
                    x: rect.origin.x,
                    y: rect.origin.y,
                    width: rect.size.width,
                    height: rect.size.height,
                    color,
                    clip,
                },
            ),
    {
        if self.get_ptr() == 0 {
            return Err(GraphicsError::NotInitialized);
        }
        let t = match self.raw_bitmap(target) {
            Ok(h) => h,
            Err(e) => return Err(e),
        };
        let s = match self.raw_bitmap(stencil) {
            Ok(h) => h,
            Err(e) => return Err(e),
        };
        Ok(DriverCall::DrawRect {
            target: t,
            stencil: s,
            x: rect.origin.x,
            y: rect.origin.y,
            width: rect.size.width,
            height: rect.size.height,
            color,
            clip,
        })
    }

    /// Builds the native fill of a rectangle.
    pub fn fill_rect(
        &self,
        target: Option<&Bitmap>,
        stencil: Option<&Bitmap>,
        rect: ScreenRect,
        color: LCDColor,
        clip: LCDRect,
    ) -> (r: Result<DriverCall, GraphicsError>)
        ensures
            !self.initialized() ==> r == Err::<DriverCall, GraphicsError>(
                GraphicsError::NotInitialized,
            ),
            self.initialized() && !(self.opt_live(target) && self.opt_live(stencil)) ==> r
                == Err::<DriverCall, GraphicsError>(GraphicsError::InvalidHandle),
            self.initialized() && self.opt_live(target) && self.opt_live(stencil) ==> r == Ok::<
                DriverCall,
                GraphicsError,
            >(
                DriverCall::FillRect {
                    target: self.opt_handle(target),
                    stencil: self.opt_handle(stencil),
                    x: rect.origin.x,
                    y: rect.origin.y,
                    width: rect.size.width,
                    height: rect.size.height,
                    color,
                    clip,
                },
            ),
    {
        if self.get_ptr() == 0 {
            return Err(GraphicsError::NotInitialized);
        }
        let t = match self.raw_bitmap(target) {
            Ok(h) => h,
            Err(e) => return Err(e),
        };
        let s = match self.raw_bitmap(stencil) {
            Ok(h) => h,
            Err(e) => return Err(e),
        };
        Ok(DriverCall::FillRect {
            target: t,
            stencil: s,
            x: rect.origin.x,
            y: rect.origin.y,
            width: rect.size.width,
            height: rect.size.height,
            color,
            clip,
        })
    }

    /// Builds the native stroke of an elliptic arc inside the rectangle
    /// centered at `center` with extent `size`, from `start_angle_bits` to
    /// `end_angle_bits` (each the raw bits of the driver's degree argument,
    /// passed through untouched).
    pub fn draw_ellipse(
        &self,
        target: Option<&Bitmap>,
        stencil: Option<&Bitmap>,
        center: ScreenPoint,
        size: ScreenSize,
        line_width: i32,
        start_angle_bits: u32,
        end_angle_bits: u32,
        color: LCDColor,
        clip: LCDRect,
    ) -> (r: Result<DriverCall, GraphicsError>)
        ensures
            !self.initialized() ==> r == Err::<DriverCall, GraphicsError>(
                GraphicsError::NotInitialized,
            ),
            self.initialized() && !(self.opt_live(target) && self.opt_live(stencil)) ==> r
                == Err::<DriverCall, GraphicsError>(GraphicsError::InvalidHandle),
            self.initialized() && self.opt_live(target) && self.opt_live(stencil) ==> r == Ok::<
                DriverCall,
                GraphicsError,
            >(
                DriverCall::DrawEllipse {
                    target: self.opt_handle(target),
                    stencil: self.opt_handle(stencil),
                    x: center.x,
                    y: center.y,
                    width: size.width,
                    height: size.height,
                    line_width,
                    start_angle_bits,
                    end_angle_bits,
                    color,
                    clip,
                },
            ),
    {
        if self.get_ptr() == 0 {
            return Err(GraphicsError::NotInitialized);
        }
        let t = match self.raw_bitmap(target) {
            Ok(h) => h,
            Err(e) => return Err(e),
        };
        let s = match self.raw_bitmap(stencil) {
            Ok(h) => h,
            Err(e) => return Err(e),
        };
        Ok(DriverCall::DrawEllipse {
            target: t,
            stencil: s,
            x: center.x,
            y: center.y,
            width: size.width,
            height: size.height,
            line_width,
            start_angle_bits,
            end_angle_bits,
            color,
            clip,
        })
    }

    /// Builds the native fill of an elliptic wedge. The driver's fill call
    /// takes no line width, so `line_width` is accepted for symmetry with
    /// the stroked form and not marshalled.
    pub fn fill_ellipse(
        &self,
        target: Option<&Bitmap>,
        stencil: Option<&Bitmap>,
        center: ScreenPoint,
        size: ScreenSize,
        _line_width: i32,
        start_angle_bits: u32,
        end_angle_bits: u32,
        color: LCDColor,
        clip: LCDRect,
    ) -> (r: Result<DriverCall, GraphicsError>)
        ensures
            !self.initialized() ==> r == Err::<DriverCall, GraphicsError>(
                GraphicsError::NotInitialized,
            ),
            self.initialized() && !(self.opt_live(target) && self.opt_live(stencil)) ==> r
                == Err::<DriverCall, GraphicsError>(GraphicsError::InvalidHandle),
            self.initialized() && self.opt_live(target) && self.opt_live(stencil) ==> r == Ok::<
                DriverCall,
                GraphicsError,
            >(
                DriverCall::FillEllipse {
                    target: self.opt_handle(target),
                    stencil: self.opt_handle(stencil),
                    x: center.x,
                    y: center.y,
                    width: size.width,
                    height: size.height,
                    start_angle_bits,
                    end_angle_bits,
                    color,
                    clip,
                },
            ),
    {
        if self.get_ptr() == 0 {
            return Err(GraphicsError::NotInitialized);
        }
        let t = match self.raw_bitmap(target) {
            Ok(h) => h,
            Err(e) => return Err(e),
        };
        let s = match self.raw_bitmap(stencil) {
            Ok(h) => h,
            Err(e) => return Err(e),
        };
        Ok(DriverCall::FillEllipse {
            target: t,
            stencil: s,
            x: center.x,
            y: center.y,
            width: size.width,
            height: size.height,
            start_angle_bits,
            end_angle_bits,
            color,
            clip,
        })
    }

    /// Builds the native rendering of a UTF-8 string with a font at a
    /// position; the completed call reports the rendered width.
    pub fn draw_text(
        &self,
        font: &Font,
        target: Option<&Bitmap>,
        stencil: Option<&Bitmap>,
        text: &str,
        position: ScreenPoint,
        mode: LCDBitmapDrawMode,
        tracking: i32,
        clip: LCDRect,
    ) -> (r: Result<DriverCall, GraphicsError>)
        requires
            font.wf(),
        ensures
            !self.initialized() ==> r == Err::<DriverCall, GraphicsError>(
                GraphicsError::NotInitialized,
            ),
            self.initialized() && !(self.opt_live(target) && self.opt_live(stencil)) ==> r
                == Err::<DriverCall, GraphicsError>(GraphicsError::InvalidHandle),
            self.initialized() && self.opt_live(target) && self.opt_live(stencil)
                && text.spec_bytes().contains(0u8) ==> r == Err::<DriverCall, GraphicsError>(
                GraphicsError::InvalidPath,
            ),
            self.initialized() && self.opt_live(target) && self.opt_live(stencil)
                && !text.spec_bytes().contains(0u8) ==> (r matches Ok(c) && (c matches
            DriverCall::DrawText {
                font: f,
                target: t,
                stencil: s,
                text: tx,
                len: l,
                x,
                y,
                mode: m,
                tracking: tr,
                clip: cl,
            } && f == font.handle_spec() && t == self.opt_handle(target) && s == self.opt_handle(
                stencil,
            ) && tx@ == text.spec_bytes().push(0u8) && l == text.spec_bytes().len() as usize && x
                == position.x && y == position.y && m == mode && tr == tracking && cl == clip)),
    {
        if self.get_ptr() == 0 {
            return Err(GraphicsError::NotInitialized);
        }
        let t = match self.raw_bitmap(target) {
            Ok(h) => h,
            Err(e) => return Err(e),
        };
        let s = match self.raw_bitmap(stencil) {
            Ok(h) => h,
            Err(e) => return Err(e),
        };
        let len = text.len();
        let c_text = match path_to_c(text) {
            Ok(p) => p,
            Err(e) => return Err(e),
        };
        Ok(DriverCall::DrawText {
            font: font.handle(),
            target: t,
            stencil: s,
            text: c_text,
            len,
            x: position.x,
            y: position.y,
            mode,
            tracking,
            clip,
        })
    }

    /// Builds the native measurement of a UTF-8 string's rendered width,
    /// without drawing it.
    pub fn get_text_width(&self, font: &Font, text: &str, tracking: i32) -> (r: Result<
        DriverCall,
        GraphicsError,
    >)
        requires
            font.wf(),
        ensures
            !self.initialized() ==> r == Err::<DriverCall, GraphicsError>(
                GraphicsError::NotInitialized,
            ),
            self.initialized() && text.spec_bytes().contains(0u8) ==> r == Err::<
                DriverCall,
                GraphicsError,
            >(GraphicsError::InvalidPath),
            self.initialized() && !text.spec_bytes().contains(0u8) ==> (r matches Ok(c) && (c
            matches DriverCall::GetTextWidth { font: f, text: tx, len: l, tracking: tr } && f
                == font.handle_spec() && tx@ == text.spec_bytes().push(0u8) && l
                == text.spec_bytes().len() as usize && tr == tracking)),
    {
        if self.get_ptr() == 0 {
            return Err(GraphicsError::NotInitialized);
        }
        let len = text.len();
        let c_text = match path_to_c(text) {
            Ok(p) => p,
            Err(e) => return Err(e),
        };
        Ok(DriverCall::GetTextWidth { font: font.handle(), text: c_text, len, tracking })
    }

    /// Adopts the handle a fresh-bitmap native call produced; a null handle
    /// means the call itself failed.
    pub fn complete_new_handle(&mut self, op: DriverOp, handle: usize) -> (r: Result<
        Bitmap,
        GraphicsError,
    >)
        requires
            old(self).wf(),
        ensures
            final(self).wf(),
            final(self).driver_table() == old(self).driver_table(),
            handle == 0 ==> r == Err::<Bitmap, GraphicsError>(GraphicsError::DriverCallFailed(op))
                && final(self).slots_view() == old(self).slots_view()
                && final(self).freed_ids() == old(self).freed_ids(),
            handle != 0 ==> (r matches Ok(b) && b.id_spec() == old(self).num_slots())
                && final(self).slots_view() == old(self).slots_view().push(
                ResourceSlot { handle, refs: 1, alive: true, kind: ResourceKind::Image },
            ) && final(self).freed_ids() == old(self).freed_ids(),
    {
        if handle == 0 {
            return Err(GraphicsError::DriverCallFailed(op));
        }
        match self.adopt_bitmap(handle) {
            Ok(b) => Ok(b),
            Err(e) => Err(e),
        }
    }

    /// Classifies what a bitmap file decode handed back and, on success,
    /// adopts the fresh handle.
    pub fn complete_load_bitmap(&mut self, handle: usize, err: Option<String>) -> (r: Result<
        Bitmap,
        GraphicsError,
    >)
        requires
            old(self).wf(),
        ensures
            final(self).wf(),
            final(self).driver_table() == old(self).driver_table(),
            handle == 0 ==> final(self).slots_view() == old(self).slots_view()
                && final(self).freed_ids() == old(self).freed_ids() && (match err {
                Option::Some(m) => r == Err::<Bitmap, GraphicsError>(
                    GraphicsError::ResourceDecodeFailed(m),
                ),
                Option::None => r == Err::<Bitmap, GraphicsError>(
                    GraphicsError::ResourceDecodeFailedSilently,
                ),
            }),
            handle != 0 ==> (r matches Ok(b) && b.id_spec() == old(self).num_slots())
                && final(self).slots_view() == old(self).slots_view().push(
                ResourceSlot { handle, refs: 1, alive: true, kind: ResourceKind::Image },
            ) && final(self).freed_ids() == old(self).freed_ids(),
    {
        let h = match interpret_decode(handle, err) {
            Ok(h) => h,
            Err(e) => return Err(e),
        };
        match self.adopt_bitmap(h) {
            Ok(b) => Ok(b),
            Err(e) => Err(e),
        }
    }

    /// Adopts the glyph bitmap a font query produced and pairs it with the
    /// glyph's advance width.
    pub fn complete_get_glyph(&mut self, handle: usize, advance: u32) -> (r: Result<
        (Bitmap, u32),
        GraphicsError,
    >)
        requires
            old(self).wf(),
        ensures
            final(self).wf(),
            final(self).driver_table() == old(self).driver_table(),
            handle == 0 ==> r == Err::<(Bitmap, u32), GraphicsError>(
                GraphicsError::DriverCallFailed(DriverOp::GetFontGlyph),
            ) && final(self).slots_view() == old(self).slots_view() && final(self).freed_ids()
                == old(self).freed_ids(),
            handle != 0 ==> (r matches Ok(p) && p.0.id_spec() == old(self).num_slots()
                && p.1 == advance) && final(self).slots_view() == old(self).slots_view().push(
                ResourceSlot { handle, refs: 1, alive: true, kind: ResourceKind::Image },
            ) && final(self).freed_ids() == old(self).freed_ids(),
    {
        if handle == 0 {
            return Err(GraphicsError::DriverCallFailed(DriverOp::GetFontGlyph));
        }
        match self.adopt_bitmap(handle) {
            Ok(b) => Ok((b, advance)),
            Err(e) => Err(e),
        }
    }
}

impl Bitmap {
    /// Builds the native metadata query for this bitmap.
    pub fn get_data(&self, g: &Graphics) -> (r: Result<DriverCall, GraphicsError>)
        ensures
            !g.initialized() ==> r == Err::<DriverCall, GraphicsError>(
                GraphicsError::NotInitialized,
            ),
            g.initialized() && !g.live_bitmap(self.id_spec()) ==> r == Err::<
                DriverCall,
                GraphicsError,
            >(GraphicsError::InvalidHandle),
            g.initialized() && g.live_bitmap(self.id_spec()) ==> r == Ok::<
                DriverCall,
                GraphicsError,
            >(DriverCall::GetBitmapData { bitmap: g.slot(self.id_spec()).handle }),
    {
        if g.get_ptr() == 0 {
            return Err(GraphicsError::NotInitialized);
        }
        let h = match g.raw_bitmap(Some(self)) {
            Ok(h) => h,
            Err(e) => return Err(e),
        };
        Ok(DriverCall::GetBitmapData { bitmap: h })
    }

    /// Builds the native composite of this bitmap onto a target (the frame
    /// buffer when absent) through an optional stencil mask.
    pub fn draw(
        &self,
        g: &Graphics,
        target: Option<&Bitmap>,
        stencil: Option<&Bitmap>,
        location: ScreenPoint,
        mode: LCDBitmapDrawMode,
        flip: LCDBitmapFlip,
        clip: LCDRect,
    ) -> (r: Result<DriverCall, GraphicsError>)
        ensures
            !g.initialized() ==> r == Err::<DriverCall, GraphicsError>(
                GraphicsError::NotInitialized,
            ),
            g.initialized() && !(g.live_bitmap(self.id_spec()) && g.opt_live(target) && g.opt_live(
                stencil,
            )) ==> r == Err::<DriverCall, GraphicsError>(GraphicsError::InvalidHandle),
            g.initialized() && g.live_bitmap(self.id_spec()) && g.opt_live(target) && g.opt_live(
                stencil,
            ) ==> r == Ok::<DriverCall, GraphicsError>(
                DriverCall::DrawBitmap {
                    bitmap: g.slot(self.id_spec()).handle,
                    target: g.opt_handle(target),
                    stencil: g.opt_handle(stencil),
                    x: location.x,
                    y: location.y,
                    mode,
                    flip,
                    clip,
                },
            ),
    {
        if g.get_ptr() == 0 {
            return Err(GraphicsError::NotInitialized);
        }
        let h = match g.raw_bitmap(Some(self)) {
            Ok(h) => h,
            Err(e) => return Err(e),
        };
        let t = match g.raw_bitmap(target) {
            Ok(h) => h,
            Err(e) => return Err(e),
        };
        let s = match g.raw_bitmap(stencil) {
            Ok(h) => h,
            Err(e) => return Err(e),
        };
        Ok(DriverCall::DrawBitmap {
            bitmap: h,
            target: t,
            stencil: s,
            x: location.x,
            y: location.y,
            mode,
            flip,
            clip,
        })
    }

    /// Builds the native scaled composite of this bitmap; the scale factors
    /// travel as the raw bits of the driver's floating-point arguments. The
    /// flip argument is accepted for call-shape symmetry and not marshalled,
    /// as the native scaled draw takes none.
    pub fn draw_scaled(
        &self,
        g: &Graphics,
        target: Option<&Bitmap>,
        stencil: Option<&Bitmap>,
        location: ScreenPoint,
        xscale_bits: u32,
        yscale_bits: u32,
        mode: LCDBitmapDrawMode,
        _flip: LCDBitmapFlip,
        clip: LCDRect,
    ) -> (r: Result<DriverCall, GraphicsError>)
        ensures
            !g.initialized() ==> r == Err::<DriverCall, GraphicsError>(
                GraphicsError::NotInitialized,
            ),
            g.initialized() && !(g.live_bitmap(self.id_spec()) && g.opt_live(target) && g.opt_live(
                stencil,
            )) ==> r == Err::<DriverCall, GraphicsError>(GraphicsError::InvalidHandle),
            g.initialized() && g.live_bitmap(self.id_spec()) && g.opt_live(target) && g.opt_live(
                stencil,
            ) ==> r == Ok::<DriverCall, GraphicsError>(
                DriverCall::DrawScaledBitmap {
                    bitmap: g.slot(self.id_spec()).handle,
                    target: g.opt_handle(target),
                    stencil: g.opt_handle(stencil),
                    x: location.x,
                    y: location.y,
                    xscale_bits,
                    yscale_bits,
                    mode,
                    clip,
                },
            ),
    {
        if g.get_ptr() == 0 {
            return Err(GraphicsError::NotInitialized);
        }
        let h = match g.raw_bitmap(Some(self)) {
            Ok(h) => h,
            Err(e) => return Err(e),
        };
        let t = match g.raw_bitmap(target) {
            Ok(h) => h,
            Err(e) => return Err(e),
        };
        let s = match g.raw_bitmap(stencil) {
            Ok(h) => h,
            Err(e) => return Err(e),
        };
        Ok(DriverCall::DrawScaledBitmap {
            bitmap: h,
            target: t,
            stencil: s,
            x: location.x,
            y: location.y,
            xscale_bits,
            yscale_bits,
            mode,
            clip,
        })
    }

    /// Builds the native tiling of this bitmap across an area of the given
    /// size.
    pub fn tile(
        &self,
        g: &Graphics,
        target: Option<&Bitmap>,
        stencil: Option<&Bitmap>,
        location: ScreenPoint,
        size: ScreenSize,
        mode: LCDBitmapDrawMode,
        flip: LCDBitmapFlip,
        clip: LCDRect,
    ) -> (r: Result<DriverCall, GraphicsError>)
        ensures
            !g.initialized() ==> r == Err::<DriverCall, GraphicsError>(
                GraphicsError::NotInitialized,
            ),
            g.initialized() && !(g.live_bitmap(self.id_spec()) && g.opt_live(target) && g.opt_live(
                stencil,
            )) ==> r == Err::<DriverCall, GraphicsError>(GraphicsError::InvalidHandle),
            g.initialized() && g.live_bitmap(self.id_spec()) && g.opt_live(target) && g.opt_live(
                stencil,
            ) ==> r == Ok::<DriverCall, GraphicsError>(
                DriverCall::TileBitmap {
                    bitmap: g.slot(self.id_spec()).handle,
                    target: g.opt_handle(target),
                    stencil: g.opt_handle(stencil),
                    x: location.x,
                    y: location.y,
                    width: size.width,
                    height: size.height,
                    mode,
                    flip,
                    clip,
                },
            ),
    {
        if g.get_ptr() == 0 {
            return Err(GraphicsError::NotInitialized);
        }
        let h = match g.raw_bitmap(Some(self)) {
            Ok(h) => h,
            Err(e) => return Err(e),
        };
        let t = match g.raw_bitmap(target) {
            Ok(h) => h,
            Err(e) => return Err(e),
        };
        let s = match g.raw_bitmap(stencil) {
            Ok(h) => h,
            Err(e) => return Err(e),
        };
        Ok(DriverCall::TileBitmap {
            bitmap: h,
            target: t,
            stencil: s,
            x: location.x,
            y: location.y,
            width: size.width,
            height: size.height,
            mode,
            flip,
            clip,
        })
    }

    /// Builds the native fill of this bitmap with a color or pattern; the
    /// bitmap keeps its identity, only its pixels change.
    pub fn clear(&self, g: &Graphics, color: LCDColor) -> (r: Result<DriverCall, GraphicsError>)
        ensures
            !g.initialized() ==> r == Err::<DriverCall, GraphicsError>(
                GraphicsError::NotInitialized,
            ),
            g.initialized() && !g.live_bitmap(self.id_spec()) ==> r == Err::<
                DriverCall,
                GraphicsError,
            >(GraphicsError::InvalidHandle),
            g.initialized() && g.live_bitmap(self.id_spec()) ==> r == Ok::<
                DriverCall,
                GraphicsError,
            >(DriverCall::ClearBitmap { bitmap: g.slot(self.id_spec()).handle, color }),
    {
        if g.get_ptr() == 0 {
            return Err(GraphicsError::NotInitialized);
        }
        let h = match g.raw_bitmap(Some(self)) {
            Ok(h) => h,
            Err(e) => return Err(e),
        };
        Ok(DriverCall::ClearBitmap { bitmap: h, color })
    }

    /// Builds the native full copy of this bitmap's pixel data; the
    /// completed call adopts an independent resource, not a second reference
    /// to this one.
    pub fn duplicate(&self, g: &Graphics) -> (r: Result<DriverCall, GraphicsError>)
        ensures
            !g.initialized() ==> r == Err::<DriverCall, GraphicsError>(
                GraphicsError::NotInitialized,
            ),
            g.initialized() && !g.live_bitmap(self.id_spec()) ==> r == Err::<
                DriverCall,
                GraphicsError,
            >(GraphicsError::InvalidHandle),
            g.initialized() && g.live_bitmap(self.id_spec()) ==> r == Ok::<
                DriverCall,
                GraphicsError,
            >(DriverCall::CopyBitmap { bitmap: g.slot(self.id_spec()).handle }),
    {
        if g.get_ptr() == 0 {
            return Err(GraphicsError::NotInitialized);
        }
        let h = match g.raw_bitmap(Some(self)) {
            Ok(h) => h,
            Err(e) => return Err(e),
        };
        Ok(DriverCall::CopyBitmap { bitmap: h })
    }

    /// Builds the native rotated-and-scaled copy of this bitmap; rotation
    /// and scale travel as the raw bits of the driver's floating-point
    /// arguments.
    pub fn transform(
        &self,
        g: &Graphics,
        rotation_bits: u32,
        xscale_bits: u32,
        yscale_bits: u32,
    ) -> (r: Result<DriverCall, GraphicsError>)
        ensures
            !g.initialized() ==> r == Err::<DriverCall, GraphicsError>(
                GraphicsError::NotInitialized,
            ),
            g.initialized() && !g.live_bitmap(self.id_spec()) ==> r == Err::<
                DriverCall,
                GraphicsError,
            >(GraphicsError::InvalidHandle),
            g.initialized() && g.live_bitmap(self.id_spec()) ==> r == Ok::<
                DriverCall,
                GraphicsError,
            >(
                DriverCall::TransformedBitmap {
                    bitmap: g.slot(self.id_spec()).handle,
                    rotation_bits,
                    xscale_bits,
                    yscale_bits,
                },
            ),
    {
        if g.get_ptr() == 0 {
            return Err(GraphicsError::NotInitialized);
        }
        let h = match g.raw_bitmap(Some(self)) {
            Ok(h) => h,
            Err(e) => return Err(e),
        };
        Ok(DriverCall::TransformedBitmap { bitmap: h, rotation_bits, xscale_bits, yscale_bits })
    }

    /// Builds the native query that turns this bitmap into a tiling pattern
    /// anchored at a point; complete it with `complete_into_color`.
    pub fn into_color(&self, g: &Graphics, top_left: ScreenPoint) -> (r: Result<
        DriverCall,
        GraphicsError,
    >)
        ensures
            !g.initialized() ==> r == Err::<DriverCall, GraphicsError>(
                GraphicsError::NotInitialized,
            ),
            g.initialized() && !g.live_bitmap(self.id_spec()) ==> r == Err::<
                DriverCall,
                GraphicsError,
            >(GraphicsError::InvalidHandle),
            g.initialized() && g.live_bitmap(self.id_spec()) ==> r == Ok::<
                DriverCall,
                GraphicsError,
            >(
                DriverCall::SetColorToPattern {
                    bitmap: g.slot(self.id_spec()).handle,
                    x: top_left.x,
                    y: top_left.y,
                },
            ),
    {
        if g.get_ptr() == 0 {
            return Err(GraphicsError::NotInitialized);
        }
        let h = match g.raw_bitmap(Some(self)) {
            Ok(h) => h,
            Err(e) => return Err(e),
        };
        Ok(DriverCall::SetColorToPattern { bitmap: h, x: top_left.x, y: top_left.y })
    }

    /// Builds the native decode of an image file into this bitmap's backing
    /// store in place; complete it with `complete_load_into`, which keeps
    /// the messaged and the silent decode failure distinct.
    pub fn load(&self, g: &Graphics, path: &str) -> (r: Result<DriverCall, GraphicsError>)
        ensures
            !g.initialized() ==> r == Err::<DriverCall, GraphicsError>(
                GraphicsError::NotInitialized,
            ),
            g.initialized() && !g.live_bitmap(self.id_spec()) ==> r == Err::<
                DriverCall,
                GraphicsError,
            >(GraphicsError::InvalidHandle),
            g.initialized() && g.live_bitmap(self.id_spec()) && path.spec_bytes().contains(0u8)
                ==> r == Err::<DriverCall, GraphicsError>(GraphicsError::InvalidPath),
            g.initialized() && g.live_bitmap(self.id_spec()) && !path.spec_bytes().contains(0u8)
                ==> (r matches Ok(c) && (c matches DriverCall::LoadIntoBitmap { path: p, bitmap }
                && p@ == path.spec_bytes().push(0u8) && bitmap == g.slot(self.id_spec()).handle)),
    {
        if g.get_ptr() == 0 {
            return Err(GraphicsError::NotInitialized);
        }
        let h = match g.raw_bitmap(Some(self)) {
            Ok(h) => h,
            Err(e) => return Err(e),
        };
        let p = match path_to_c(path) {
            Ok(p) => p,
            Err(e) => return Err(e),
        };
        Ok(DriverCall::LoadIntoBitmap { path: p, bitmap: h })
    }

    /// Builds the native pixel-accurate collision query between this
    /// bitmap's mask and another's, each placed at its own position and
    /// flip, restricted to a rectangle.
    pub fn check_mask_collision(
        &self,
        g: &Graphics,
        my_location: ScreenPoint,
        my_flip: LCDBitmapFlip,
        other: &Bitmap,
        other_location: ScreenPoint,
        other_flip: LCDBitmapFlip,
        rect: ScreenRect,
    ) -> (r: Result<DriverCall, GraphicsError>)
        requires
            rect.edges_in_range(),
        ensures
            !g.initialized() ==> r == Err::<DriverCall, GraphicsError>(
                GraphicsError::NotInitialized,
            ),
            g.initialized() && !(g.live_bitmap(self.id_spec()) && g.live_bitmap(other.id_spec()))
                ==> r == Err::<DriverCall, GraphicsError>(GraphicsError::InvalidHandle),
            g.initialized() && g.live_bitmap(self.id_spec()) && g.live_bitmap(other.id_spec())
                ==> (r matches Ok(c) && (c matches DriverCall::CheckMaskCollision {
                bitmap1,
                x1,
                y1,
                flip1,
                bitmap2,
                x2,
                y2,
                flip2,
                rect: lr,
            } && bitmap1 == g.slot(self.id_spec()).handle && x1 == my_location.x && y1
                == my_location.y && flip1 == my_flip && bitmap2 == g.slot(other.id_spec()).handle
                && x2 == other_location.x && y2 == other_location.y && flip2 == other_flip
                && lr.left == rect.origin.x && lr.right == rect.origin.x + rect.size.width
                && lr.top == rect.origin.y && lr.bottom == rect.origin.y + rect.size.height)),
    {
        if g.get_ptr() == 0 {
            return Err(GraphicsError::NotInitialized);
        }
        let h = match g.raw_bitmap(Some(self)) {
            Ok(h) => h,
            Err(e) => return Err(e),
        };
        let oh = match g.raw_bitmap(Some(other)) {
            Ok(h) => h,
            Err(e) => return Err(e),
        };
        Ok(DriverCall::CheckMaskCollision {
            bitmap1: h,
            x1: my_location.x,
            y1: my_location.y,
            flip1: my_flip,
            bitmap2: oh,
            x2: other_location.x,
            y2: other_location.y,
            flip2: other_flip,
            rect: rect.to_lcd_rect(),
        })
    }
}

/// The request the dirty-rows hint builds: a pure function of the service's
/// initialization state and the inclusive row range, so repeating the same
/// hint gives the same request.
pub open spec fn mark_updated_rows_spec(g: Graphics, start: i32, end: i32) -> Result<
    DriverCall,
    GraphicsError,
> {
    if g.initialized() {
        Ok(DriverCall::MarkUpdatedRows { start, end })
    } else {
        Err(GraphicsError::NotInitialized)
    }
}

/// Law: identical dirty-rows hints are idempotent from the caller's side.
/// The hint reads the service immutably, so the service after a hint is the
/// service before it; repeating the same inclusive range therefore yields
/// the identical request again, and an error only when the first hint
/// already gave one.
pub proof fn lemma_mark_updated_rows_idempotent(g: Graphics, start: i32, end: i32)
    ensures
        g.initialized() ==> mark_updated_rows_spec(g, start, end) == Ok::<
            DriverCall,
            GraphicsError,
        >(DriverCall::MarkUpdatedRows { start, end }),
        !g.initialized() ==> mark_updated_rows_spec(g, start, end) == Err::<
            DriverCall,
            GraphicsError,
        >(GraphicsError::NotInitialized),
{
}

/// Interprets the four values a metadata query wrote: any non-zero mask flag
/// means the bitmap carries a transparency mask.
pub fn complete_get_data(width: i32, height: i32, rowbytes: i32, hasmask: i32) -> (d: BitmapData)
    ensures
        d == (BitmapData { width, height, rowbytes, hasmask: hasmask != 0 }),
{
    BitmapData { width, height, rowbytes, hasmask: hasmask != 0 }
}

/// Interprets the frame-buffer address a native call returned: a null
/// address is a failed call, any other comes back with the fixed buffer
/// length of one packed row per display row.
pub fn complete_get_frame(op: DriverOp, ptr: usize) -> (r: Result<(usize, usize), GraphicsError>)
    ensures
        ptr == 0 ==> r == Err::<(usize, usize), GraphicsError>(GraphicsError::DriverCallFailed(op)),
        ptr != 0 ==> (r matches Ok(p) && p.0 == ptr && p.1 == crate::LCD_ROWSIZE * crate::LCD_ROWS),
    {
    if ptr == 0 {
        return Err(GraphicsError::DriverCallFailed(op));
    }
    Ok((ptr, crate::frame_buffer_len()))
}

/// Law: in a well-formed service a native free is issued exactly once per
/// resource — the free log never names a live slot, and names a dead slot
/// exactly once.
pub proof fn lemma_free_exactly_once(g: Graphics, id: usize)
    requires
        g.wf(),
        id < g.num_slots(),
    ensures
        g.live(id) ==> g.freed_ids().to_multiset().count(id) == 0,
        !g.live(id) ==> g.freed_ids().to_multiset().count(id) == 1,
{
    broadcast use vstd::seq_lib::group_to_multiset_ensures;

    if g.live(id) {
        if g.freed_ids().contains(id) {
            let j = choose|j: int| 0 <= j < g.freed_ids().len() && g.freed_ids()[j] == id;
            assert(!g.slots_view()[id as int].alive);
        }
        assert(!g.freed_ids().contains(id));
    } else {
        assert(g.freed_ids().contains(id));
        g.freed_ids().lemma_multiset_has_no_duplicates();
        assert(g.freed_ids().to_multiset().contains(id));
    }
}

} // verus!
