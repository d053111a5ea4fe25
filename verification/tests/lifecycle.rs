use crankstart_graphics::color::{LCDColor, LCDSolidColor};
use crankstart_graphics::driver::{DriverCall, DriverOp};
use crankstart_graphics::error::GraphicsError;
use crankstart_graphics::geometry::ScreenSize;
use crankstart_graphics::graphics::{complete_get_data, Graphics};
use crankstart_graphics::table::TableLookup;

#[test]
fn bitmap_table_fetches_each_index_once() {
    let mut g = Graphics::new(1);
    let call = g
        .new_bitmap_table(2, ScreenSize { width: 8, height: 8 })
        .unwrap();
    assert_eq!(
        call,
        DriverCall::NewBitmapTable {
            count: 2,
            width: 8,
            height: 8
        }
    );
    let mut t = g.complete_new_bitmap_table(0x1000).unwrap();
    assert_eq!(t.fetch_count(), 0);

    let first = t.get_bitmap(&mut g, 0).unwrap();
    let fetch = match first {
        TableLookup::Fetch(c) => c,
        TableLookup::Cached(_) => panic!("nothing was cached yet"),
    };
    assert_eq!(
        fetch,
        DriverCall::GetTableBitmap {
            table: 0x1000,
            index: 0
        }
    );
    let b0 = t.complete_get_bitmap(&mut g, 0, 0x2000).unwrap();
    assert_eq!(t.fetch_count(), 1);
    assert_eq!(t.cached_count(), 1);

    let again = t.get_bitmap(&mut g, 0).unwrap();
    match again {
        TableLookup::Cached(b) => assert_eq!(b.id(), b0.id()),
        TableLookup::Fetch(_) => panic!("a second native fetch for a cached index"),
    }
    assert_eq!(t.fetch_count(), 1);

    let third = t.get_bitmap(&mut g, 1).unwrap();
    let fetch1 = match third {
        TableLookup::Fetch(c) => c,
        TableLookup::Cached(_) => panic!("index 1 was never fetched"),
    };
    assert_eq!(
        fetch1,
        DriverCall::GetTableBitmap {
            table: 0x1000,
            index: 1
        }
    );
    let _b1 = t.complete_get_bitmap(&mut g, 1, 0x3000).unwrap();
    assert_eq!(t.fetch_count(), 2);
    assert_eq!(t.cached_count(), 2);

    let fourth = t.get_bitmap(&mut g, 0).unwrap();
    match fourth {
        TableLookup::Cached(b) => assert_eq!(b.id(), b0.id()),
        TableLookup::Fetch(_) => panic!("a second native fetch for a cached index"),
    }
    assert_eq!(t.fetch_count(), 2);
}

#[test]
fn failed_table_fetch_is_counted_and_reported() {
    let mut g = Graphics::new(1);
    let mut t = g.complete_new_bitmap_table(0x1000).unwrap();
    let lookup = t.get_bitmap(&mut g, 9).unwrap();
    assert!(matches!(lookup, TableLookup::Fetch(_)));
    let r = t.complete_get_bitmap(&mut g, 9, 0);
    assert_eq!(
        r,
        Err(GraphicsError::IndexOutOfRange {
            index: 9,
            table: 0x1000
        })
    );
    assert_eq!(t.fetch_count(), 1);
    assert_eq!(t.failed_fetch_count(), 1);
    assert_eq!(t.cached_count(), 0);
}

#[test]
fn last_reference_frees_exactly_once() {
    let mut g = Graphics::new(1);
    let b = g.complete_new_handle(DriverOp::NewBitmap, 0x500).unwrap();
    let b2 = g.retain_bitmap(&b).unwrap();
    assert_eq!(b2.id(), b.id());

    assert_eq!(g.release_bitmap(b), None);
    assert_eq!(g.frees_issued(), 0);

    let freed = g.release_bitmap(b2);
    assert_eq!(freed, Some(DriverCall::FreeBitmap { bitmap: 0x500 }));
    assert_eq!(g.frees_issued(), 1);
}

#[test]
fn single_reference_frees_on_first_release() {
    let mut g = Graphics::new(1);
    let b = g.complete_new_handle(DriverOp::GetDebugImage, 0x77).unwrap();
    assert_eq!(
        g.release_bitmap(b),
        Some(DriverCall::FreeBitmap { bitmap: 0x77 })
    );
    assert_eq!(g.frees_issued(), 1);
}

#[test]
fn retained_reference_points_at_same_resource() {
    let mut g = Graphics::new(1);
    let b = g.complete_new_handle(DriverOp::NewBitmap, 0x43).unwrap();
    let b2 = g.retain_bitmap(&b).unwrap();
    let q = b2.get_data(&g).unwrap();
    assert_eq!(q, DriverCall::GetBitmapData { bitmap: 0x43 });
    let q2 = b.get_data(&g).unwrap();
    assert_eq!(q, q2);
}

#[test]
fn releasing_a_table_frees_cached_bitmaps_and_strip() {
    let mut g = Graphics::new(1);
    let mut t = g.complete_new_bitmap_table(0x1000).unwrap();
    let _ = t.get_bitmap(&mut g, 0).unwrap();
    let b0 = t.complete_get_bitmap(&mut g, 0, 0x2000).unwrap();
    // the caller gives its own reference back: the cache still holds one
    assert_eq!(g.release_bitmap(b0), None);
    assert_eq!(g.frees_issued(), 0);

    let frees = g.release_bitmap_table(t);
    assert_eq!(
        frees,
        vec![
            DriverCall::FreeBitmap { bitmap: 0x2000 },
            DriverCall::FreeBitmapTable { table: 0x1000 },
        ]
    );
    assert_eq!(g.frees_issued(), 2);
}

#[test]
fn shared_tables_free_the_strip_exactly_once() {
    let mut g = Graphics::new(1);
    let mut t = g.complete_new_bitmap_table(0x1000).unwrap();
    let _ = t.get_bitmap(&mut g, 0).unwrap();
    let b0 = t.complete_get_bitmap(&mut g, 0, 0x2000).unwrap();
    let t2 = g.retain_bitmap_table(&t);
    assert_eq!(t2.fetch_count(), t.fetch_count());
    assert_eq!(t2.cached_count(), 1);

    assert_eq!(g.release_bitmap(b0), None);
    // the first owner's release frees nothing: the second owner still
    // holds its own reference to the strip and to the cached bitmap
    let first = g.release_bitmap_table(t);
    assert_eq!(first, vec![]);
    assert_eq!(g.frees_issued(), 0);

    let second = g.release_bitmap_table(t2);
    assert_eq!(
        second,
        vec![
            DriverCall::FreeBitmap { bitmap: 0x2000 },
            DriverCall::FreeBitmapTable { table: 0x1000 },
        ]
    );
    assert_eq!(g.frees_issued(), 2);
}

#[test]
fn retained_table_answers_from_its_snapshot() {
    let mut g = Graphics::new(1);
    let mut t = g.complete_new_bitmap_table(0x1000).unwrap();
    let _ = t.get_bitmap(&mut g, 0).unwrap();
    let b0 = t.complete_get_bitmap(&mut g, 0, 0x2000).unwrap();
    let mut t2 = g.retain_bitmap_table(&t);
    // the snapshot already holds index 0: no new native fetch
    let hit = t2.get_bitmap(&mut g, 0).unwrap();
    match hit {
        TableLookup::Cached(b) => assert_eq!(b.id(), b0.id()),
        TableLookup::Fetch(_) => panic!("a snapshot hit must not refetch"),
    }
    assert_eq!(t2.fetch_count(), 1);
}

#[test]
fn new_bitmap_metadata_roundtrip() {
    let mut g = Graphics::new(1);
    let call = g
        .new_bitmap(
            ScreenSize { width: 20, height: 10 },
            LCDColor::Solid(LCDSolidColor::Black),
        )
        .unwrap();
    assert_eq!(
        call,
        DriverCall::NewBitmap {
            width: 20,
            height: 10,
            color: LCDColor::Solid(LCDSolidColor::Black)
        }
    );
    let b = g.complete_new_handle(DriverOp::NewBitmap, 0xA0).unwrap();
    let query = b.get_data(&g).unwrap();
    assert_eq!(query, DriverCall::GetBitmapData { bitmap: 0xA0 });
    // the driver reports back exactly the allocated geometry
    let d = complete_get_data(20, 10, 4, 0);
    assert_eq!(d.width, 20);
    assert_eq!(d.height, 10);
    assert_eq!(d.rowbytes, 4);
    assert!(!d.hasmask);
}

#[test]
fn adopting_a_null_handle_is_a_failed_call() {
    let mut g = Graphics::new(1);
    let r = g.complete_new_handle(DriverOp::NewBitmap, 0);
    assert_eq!(
        r,
        Err(GraphicsError::DriverCallFailed(DriverOp::NewBitmap))
    );
    let rt = g.complete_new_bitmap_table(0);
    assert_eq!(
        rt.map(|_| ()),
        Err(GraphicsError::DriverCallFailed(DriverOp::NewBitmapTable))
    );
}
