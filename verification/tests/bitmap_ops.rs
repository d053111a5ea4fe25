use crankstart_graphics::color::{LCDBitmapDrawMode, LCDBitmapFlip, LCDColor, LCDSolidColor};
use crankstart_graphics::driver::{DriverCall, DriverOp};
use crankstart_graphics::error::GraphicsError;
use crankstart_graphics::geometry::{LCDRect, ScreenPoint, ScreenSize};
use crankstart_graphics::graphics::Graphics;

fn clip() -> LCDRect {
    LCDRect {
        left: 0,
        right: 400,
        top: 0,
        bottom: 240,
    }
}

#[test]
fn bitmap_draw_marshals_everything() {
    let mut g = Graphics::new(1);
    let b = g.complete_new_handle(DriverOp::NewBitmap, 0x20).unwrap();
    let t = g.complete_new_handle(DriverOp::NewBitmap, 0x21).unwrap();
    let call = b
        .draw(
            &g,
            Some(&t),
            None,
            ScreenPoint { x: 7, y: 9 },
            LCDBitmapDrawMode::DrawXor,
            LCDBitmapFlip::FlippedY,
            clip(),
        )
        .unwrap();
    assert_eq!(
        call,
        DriverCall::DrawBitmap {
            bitmap: 0x20,
            target: 0x21,
            stencil: 0,
            x: 7,
            y: 9,
            mode: LCDBitmapDrawMode::DrawXor,
            flip: LCDBitmapFlip::FlippedY,
            clip: clip()
        }
    );
}

#[test]
fn bitmap_tile_and_scaled_draw_marshal_geometry() {
    let mut g = Graphics::new(1);
    let b = g.complete_new_handle(DriverOp::NewBitmap, 0x22).unwrap();
    let tiled = b
        .tile(
            &g,
            None,
            None,
            ScreenPoint { x: 0, y: 0 },
            ScreenSize {
                width: 64,
                height: 32,
            },
            LCDBitmapDrawMode::Copy,
            LCDBitmapFlip::Unflipped,
            clip(),
        )
        .unwrap();
    assert_eq!(
        tiled,
        DriverCall::TileBitmap {
            bitmap: 0x22,
            target: 0,
            stencil: 0,
            x: 0,
            y: 0,
            width: 64,
            height: 32,
            mode: LCDBitmapDrawMode::Copy,
            flip: LCDBitmapFlip::Unflipped,
            clip: clip()
        }
    );
    let scale_bits: u32 = 0x4000_0000;
    let scaled = b
        .draw_scaled(
            &g,
            None,
            None,
            ScreenPoint { x: 1, y: 1 },
            scale_bits,
            scale_bits,
            LCDBitmapDrawMode::Copy,
            LCDBitmapFlip::Unflipped,
            clip(),
        )
        .unwrap();
    assert_eq!(
        scaled,
        DriverCall::DrawScaledBitmap {
            bitmap: 0x22,
            target: 0,
            stencil: 0,
            x: 1,
            y: 1,
            xscale_bits: scale_bits,
            yscale_bits: scale_bits,
            mode: LCDBitmapDrawMode::Copy,
            clip: clip()
        }
    );
}

#[test]
fn bitmap_copy_transform_and_clear_marshal_handles() {
    let mut g = Graphics::new(1);
    let b = g.complete_new_handle(DriverOp::NewBitmap, 0x23).unwrap();
    assert_eq!(
        b.duplicate(&g),
        Ok(DriverCall::CopyBitmap { bitmap: 0x23 })
    );
    assert_eq!(
        b.transform(&g, 1, 2, 3),
        Ok(DriverCall::TransformedBitmap {
            bitmap: 0x23,
            rotation_bits: 1,
            xscale_bits: 2,
            yscale_bits: 3
        })
    );
    assert_eq!(
        b.clear(&g, LCDColor::Solid(LCDSolidColor::White)),
        Ok(DriverCall::ClearBitmap {
            bitmap: 0x23,
            color: LCDColor::Solid(LCDSolidColor::White)
        })
    );
    assert_eq!(
        b.into_color(&g, ScreenPoint { x: 2, y: 4 }),
        Ok(DriverCall::SetColorToPattern {
            bitmap: 0x23,
            x: 2,
            y: 4
        })
    );
}

#[test]
fn bitmap_load_refills_in_place() {
    let mut g = Graphics::new(1);
    let b = g.complete_new_handle(DriverOp::NewBitmap, 0x24).unwrap();
    match b.load(&g, "images/b.png").unwrap() {
        DriverCall::LoadIntoBitmap { path, bitmap } => {
            assert_eq!(path, b"images/b.png\0".to_vec());
            assert_eq!(bitmap, 0x24);
        }
        other => panic!("unexpected call {:?}", other),
    }
    assert_eq!(
        b.load(&g, "bad\u{0}path"),
        Err(GraphicsError::InvalidPath)
    );
    let uninit = Graphics::new(0);
    assert_eq!(
        b.load(&uninit, "images/b.png"),
        Err(GraphicsError::NotInitialized)
    );
}

#[test]
fn ellipse_calls_carry_angles_untouched() {
    let g = Graphics::new(1);
    let start: u32 = 0;
    let end: u32 = 0x43B4_0000;
    let drawn = g
        .draw_ellipse(
            None,
            None,
            ScreenPoint { x: 50, y: 60 },
            ScreenSize {
                width: 30,
                height: 20,
            },
            2,
            start,
            end,
            LCDColor::Solid(LCDSolidColor::Black),
            clip(),
        )
        .unwrap();
    assert_eq!(
        drawn,
        DriverCall::DrawEllipse {
            target: 0,
            stencil: 0,
            x: 50,
            y: 60,
            width: 30,
            height: 20,
            line_width: 2,
            start_angle_bits: start,
            end_angle_bits: end,
            color: LCDColor::Solid(LCDSolidColor::Black),
            clip: clip()
        }
    );
    let filled = g
        .fill_ellipse(
            None,
            None,
            ScreenPoint { x: 50, y: 60 },
            ScreenSize {
                width: 30,
                height: 20,
            },
            2,
            start,
            end,
            LCDColor::Solid(LCDSolidColor::Black),
            clip(),
        )
        .unwrap();
    assert_eq!(
        filled,
        DriverCall::FillEllipse {
            target: 0,
            stencil: 0,
            x: 50,
            y: 60,
            width: 30,
            height: 20,
            start_angle_bits: start,
            end_angle_bits: end,
            color: LCDColor::Solid(LCDSolidColor::Black),
            clip: clip()
        }
    );
}

#[test]
fn frame_and_snapshot_requests_need_the_driver() {
    let g = Graphics::new(1);
    assert_eq!(g.get_frame(), Ok(DriverCall::GetFrame));
    assert_eq!(g.get_display_frame(), Ok(DriverCall::GetDisplayFrame));
    assert_eq!(g.get_debug_image(), Ok(DriverCall::GetDebugImage));
    assert_eq!(
        g.get_framebuffer_bitmap(),
        Ok(DriverCall::GetFrameBufferBitmap)
    );
    let uninit = Graphics::new(0);
    assert_eq!(uninit.get_frame(), Err(GraphicsError::NotInitialized));
    assert_eq!(
        uninit.get_framebuffer_bitmap(),
        Err(GraphicsError::NotInitialized)
    );
}

#[test]
fn glyph_completion_adopts_the_bitmap() {
    let mut g = Graphics::new(1);
    let (b, advance) = g.complete_get_glyph(0x70, 11).unwrap();
    assert_eq!(advance, 11);
    let q = b.get_data(&g).unwrap();
    assert_eq!(q, DriverCall::GetBitmapData { bitmap: 0x70 });
    assert_eq!(
        g.complete_get_glyph(0, 0),
        Err(GraphicsError::DriverCallFailed(DriverOp::GetFontGlyph))
    );
}
