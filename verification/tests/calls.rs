use crankstart_graphics::color::{
    LCDBitmapDrawMode, LCDBitmapFlip, LCDColor, LCDLineCapStyle, LCDSolidColor, PDStringEncoding,
};
use crankstart_graphics::driver::{
    complete_check_mask_collision, complete_int, complete_into_color, complete_load_into,
    complete_unit, interpret_decode, DriverCall, DriverOp,
};
use crankstart_graphics::error::GraphicsError;
use crankstart_graphics::font::Font;
use crankstart_graphics::geometry::{LCDRect, ScreenPoint, ScreenRect, ScreenSize, ScreenVector};
use crankstart_graphics::graphics::{complete_get_frame, Graphics};
use crankstart_graphics::{frame_buffer_len, LCD_COLUMNS, LCD_ROWS, LCD_ROWSIZE};

fn clip() -> LCDRect {
    LCDRect {
        left: 0,
        right: 400,
        top: 0,
        bottom: 240,
    }
}

#[test]
fn decode_outcomes_are_classified() {
    // a readable message from the driver is surfaced as-is
    assert_eq!(
        interpret_decode(0, Some(String::from("no such file"))),
        Err(GraphicsError::ResourceDecodeFailed(String::from(
            "no such file"
        )))
    );
    // a null result without any message is the distinct silent fault
    assert_eq!(
        interpret_decode(0, None),
        Err(GraphicsError::ResourceDecodeFailedSilently)
    );
    // a non-null handle is success whatever the message slot holds
    assert_eq!(interpret_decode(9, Some(String::from("ignored"))), Ok(9));
    assert_eq!(interpret_decode(9, None), Ok(9));
}

#[test]
fn load_bitmap_outcomes_follow_decode_classification() {
    let mut g = Graphics::new(1);
    let r = g.complete_load_bitmap(0, Some(String::from("bad header")));
    assert_eq!(
        r,
        Err(GraphicsError::ResourceDecodeFailed(String::from(
            "bad header"
        )))
    );
    let r = g.complete_load_bitmap(0, None);
    assert_eq!(r, Err(GraphicsError::ResourceDecodeFailedSilently));
    let b = g.complete_load_bitmap(0x60, Some(String::from("stale message")));
    assert!(b.is_ok());
}

#[test]
fn load_bitmap_table_outcomes_follow_decode_classification() {
    let mut g = Graphics::new(1);
    let r = g.complete_load_bitmap_table(0, Some(String::from("torn strip")));
    assert_eq!(
        r.map(|_| ()),
        Err(GraphicsError::ResourceDecodeFailed(String::from(
            "torn strip"
        )))
    );
    let r = g.complete_load_bitmap_table(0, None);
    assert_eq!(
        r.map(|_| ()),
        Err(GraphicsError::ResourceDecodeFailedSilently)
    );
    assert!(g.complete_load_bitmap_table(0x61, None).is_ok());
}

#[test]
fn load_into_existing_resource_follows_decode_classification() {
    assert_eq!(
        complete_load_into(0, Some(String::from("broken"))),
        Err(GraphicsError::ResourceDecodeFailed(String::from("broken")))
    );
    assert_eq!(
        complete_load_into(0, None),
        Err(GraphicsError::ResourceDecodeFailedSilently)
    );
    assert_eq!(complete_load_into(5, Some(String::from("ignored"))), Ok(()));
}

#[test]
fn mask_collision_query_and_outcomes() {
    let mut g = Graphics::new(1);
    let a = g.complete_new_handle(DriverOp::NewBitmap, 0x10).unwrap();
    let b = g.complete_new_handle(DriverOp::NewBitmap, 0x11).unwrap();
    let call = a
        .check_mask_collision(
            &g,
            ScreenPoint { x: 0, y: 0 },
            LCDBitmapFlip::Unflipped,
            &b,
            ScreenPoint { x: 100, y: 100 },
            LCDBitmapFlip::Unflipped,
            ScreenRect {
                origin: ScreenPoint { x: 0, y: 0 },
                size: ScreenSize { width: 8, height: 8 },
            },
        )
        .unwrap();
    assert_eq!(
        call,
        DriverCall::CheckMaskCollision {
            bitmap1: 0x10,
            x1: 0,
            y1: 0,
            flip1: LCDBitmapFlip::Unflipped,
            bitmap2: 0x11,
            x2: 100,
            y2: 100,
            flip2: LCDBitmapFlip::Unflipped,
            rect: LCDRect {
                left: 0,
                right: 8,
                top: 0,
                bottom: 8
            }
        }
    );
    // placements whose bounding rectangles do not overlap: the driver
    // reports zero covered pixels, so no collision
    assert!(!complete_check_mask_collision(0));
    // the same bitmap at the same position under a covering clip overlaps
    // itself wherever it has an opaque pixel
    assert!(complete_check_mask_collision(12));
}

#[test]
fn identical_row_hints_repeat_identically() {
    let g = Graphics::new(1);
    let first = g.mark_updated_rows(3, 3);
    let second = g.mark_updated_rows(3, 3);
    assert_eq!(first, Ok(DriverCall::MarkUpdatedRows { start: 3, end: 3 }));
    assert_eq!(second, first);
}

#[test]
fn null_font_handle_is_rejected_without_native_work() {
    assert_eq!(
        Font::new(0).map(|_| ()),
        Err(GraphicsError::InvalidHandle)
    );
    let f = Font::new(0x90).unwrap();
    assert_eq!(f.handle(), 0x90);
}

#[test]
fn font_queries_marshal_code_units() {
    let g = Graphics::new(1);
    let f = Font::new(0x90).unwrap();
    assert_eq!(
        f.get_glyph(&g, 65),
        Ok(DriverCall::GetFontGlyph { font: 0x90, c: 65 })
    );
    assert_eq!(
        f.get_kerning(&g, 65, 86),
        Ok(DriverCall::GetFontKerning {
            font: 0x90,
            c1: 65,
            c2: 86
        })
    );
    let uninit = Graphics::new(0);
    assert_eq!(f.get_glyph(&uninit, 65), Err(GraphicsError::NotInitialized));
}

#[test]
fn uninitialized_service_refuses_every_call() {
    let g = Graphics::new(0);
    assert_eq!(
        g.clear(LCDColor::Solid(LCDSolidColor::White)),
        Err(GraphicsError::NotInitialized)
    );
    assert_eq!(g.display(), Err(GraphicsError::NotInitialized));
    assert_eq!(
        g.load_bitmap("images/a.png"),
        Err(GraphicsError::NotInitialized)
    );
    assert_eq!(
        g.mark_updated_rows(0, 10),
        Err(GraphicsError::NotInitialized)
    );
}

#[test]
fn interior_nul_in_a_path_is_rejected() {
    let g = Graphics::new(1);
    assert_eq!(
        g.load_bitmap("bad\u{0}name"),
        Err(GraphicsError::InvalidPath)
    );
    assert_eq!(
        g.load_bitmap_table("bad\u{0}name"),
        Err(GraphicsError::InvalidPath)
    );
    assert_eq!(g.load_font("bad\u{0}name"), Err(GraphicsError::InvalidPath));
}

#[test]
fn paths_cross_the_boundary_nul_terminated() {
    let g = Graphics::new(1);
    match g.load_bitmap("images/a.png").unwrap() {
        DriverCall::LoadBitmap { path } => assert_eq!(path, b"images/a.png\0".to_vec()),
        other => panic!("unexpected call {:?}", other),
    }
    match g.load_font("fonts/mono.pft").unwrap() {
        DriverCall::LoadFont { path } => assert_eq!(path, b"fonts/mono.pft\0".to_vec()),
        other => panic!("unexpected call {:?}", other),
    }
}

#[test]
fn text_calls_carry_byte_length_and_terminator() {
    let g = Graphics::new(1);
    let f = Font::new(0x90).unwrap();
    match g.get_text_width(&f, "hello", 2).unwrap() {
        DriverCall::GetTextWidth {
            font,
            text,
            len,
            tracking,
        } => {
            assert_eq!(font, 0x90);
            assert_eq!(text, b"hello\0".to_vec());
            assert_eq!(len, 5);
            assert_eq!(tracking, 2);
        }
        other => panic!("unexpected call {:?}", other),
    }
    match g
        .draw_text(
            &f,
            None,
            None,
            "hi",
            ScreenPoint { x: 4, y: 6 },
            LCDBitmapDrawMode::Copy,
            0,
            clip(),
        )
        .unwrap()
    {
        DriverCall::DrawText {
            font,
            target,
            stencil,
            text,
            len,
            x,
            y,
            mode,
            tracking,
            clip: c,
        } => {
            assert_eq!(font, 0x90);
            assert_eq!(target, 0);
            assert_eq!(stencil, 0);
            assert_eq!(text, b"hi\0".to_vec());
            assert_eq!(len, 2);
            assert_eq!(x, 4);
            assert_eq!(y, 6);
            assert_eq!(mode, LCDBitmapDrawMode::Copy);
            assert_eq!(tracking, 0);
            assert_eq!(c, clip());
        }
        other => panic!("unexpected call {:?}", other),
    }
    assert_eq!(complete_int(DriverOp::DrawText, true, 23), Ok(23));
    assert_eq!(
        complete_int(DriverOp::GetTextWidth, false, 0),
        Err(GraphicsError::DriverCallFailed(DriverOp::GetTextWidth))
    );
}

#[test]
fn primitive_draw_calls_marshal_geometry() {
    let g = Graphics::new(1);
    let line = g
        .draw_line(
            None,
            None,
            ScreenPoint { x: 1, y: 2 },
            ScreenPoint { x: 3, y: 4 },
            2,
            LCDColor::Solid(LCDSolidColor::XorColor),
            LCDLineCapStyle::Round,
            clip(),
        )
        .unwrap();
    assert_eq!(
        line,
        DriverCall::DrawLine {
            target: 0,
            stencil: 0,
            x1: 1,
            y1: 2,
            x2: 3,
            y2: 4,
            width: 2,
            color: LCDColor::Solid(LCDSolidColor::XorColor),
            end_cap_style: LCDLineCapStyle::Round,
            clip: clip()
        }
    );
    let rect = ScreenRect {
        origin: ScreenPoint { x: 5, y: 6 },
        size: ScreenSize {
            width: 30,
            height: 40,
        },
    };
    let fill = g
        .fill_rect(None, None, rect, LCDColor::Solid(LCDSolidColor::Black), clip())
        .unwrap();
    assert_eq!(
        fill,
        DriverCall::FillRect {
            target: 0,
            stencil: 0,
            x: 5,
            y: 6,
            width: 30,
            height: 40,
            color: LCDColor::Solid(LCDSolidColor::Black),
            clip: clip()
        }
    );
    let offset = g
        .set_draw_offset(ScreenVector { x: -3, y: 7 })
        .unwrap();
    assert_eq!(offset, DriverCall::SetDrawOffset { dx: -3, dy: 7 });
    assert_eq!(complete_unit(DriverOp::DrawLine, true), Ok(()));
    assert_eq!(
        complete_unit(DriverOp::FillRect, false),
        Err(GraphicsError::DriverCallFailed(DriverOp::FillRect))
    );
}

#[test]
fn pattern_colors_round_trip_through_completion() {
    let pattern: [u8; 16] = [
        0xAA, 0x55, 0xAA, 0x55, 0xAA, 0x55, 0xAA, 0x55, 0xFF, 0xFF, 0xFF, 0xFF, 0xFF, 0xFF, 0xFF,
        0xFF,
    ];
    assert_eq!(
        complete_into_color(DriverOp::SetColorToPattern, true, pattern),
        Ok(LCDColor::Pattern(pattern))
    );
    assert_eq!(
        complete_into_color(DriverOp::SetColorToPattern, false, pattern),
        Err(GraphicsError::DriverCallFailed(DriverOp::SetColorToPattern))
    );
}

#[test]
fn frame_buffer_has_fixed_layout() {
    assert_eq!(LCD_ROWSIZE, 52);
    assert_eq!(LCD_ROWS, 240);
    assert_eq!(LCD_COLUMNS, 400);
    assert_eq!(frame_buffer_len(), 52 * 240);
    assert_eq!(
        complete_get_frame(DriverOp::GetFrame, 0x9000),
        Ok((0x9000, 52 * 240))
    );
    assert_eq!(
        complete_get_frame(DriverOp::GetDisplayFrame, 0),
        Err(GraphicsError::DriverCallFailed(DriverOp::GetDisplayFrame))
    );
}

#[test]
fn enum_codes_match_the_driver_enumerants() {
    assert_eq!(LCDSolidColor::Black.code(), 0);
    assert_eq!(LCDSolidColor::White.code(), 1);
    assert_eq!(LCDSolidColor::Clear.code(), 2);
    assert_eq!(LCDSolidColor::XorColor.code(), 3);
    assert_eq!(LCDBitmapDrawMode::Copy.code(), 0);
    assert_eq!(LCDBitmapDrawMode::WhiteTransparent.code(), 1);
    assert_eq!(LCDBitmapDrawMode::BlackTransparent.code(), 2);
    assert_eq!(LCDBitmapDrawMode::FillWhite.code(), 3);
    assert_eq!(LCDBitmapDrawMode::FillBlack.code(), 4);
    assert_eq!(LCDBitmapDrawMode::DrawXor.code(), 5);
    assert_eq!(LCDBitmapDrawMode::DrawNxor.code(), 6);
    assert_eq!(LCDBitmapDrawMode::Inverted.code(), 7);
    assert_eq!(LCDBitmapFlip::Unflipped.code(), 0);
    assert_eq!(LCDBitmapFlip::FlippedX.code(), 1);
    assert_eq!(LCDBitmapFlip::FlippedY.code(), 2);
    assert_eq!(LCDBitmapFlip::FlippedXy.code(), 3);
    assert_eq!(LCDLineCapStyle::Butt.code(), 0);
    assert_eq!(LCDLineCapStyle::Square.code(), 1);
    assert_eq!(LCDLineCapStyle::Round.code(), 2);
    assert_eq!(PDStringEncoding::Ascii.code(), 0);
    assert_eq!(PDStringEncoding::Utf8.code(), 1);
    assert_eq!(PDStringEncoding::Utf16Le.code(), 2);
}

#[test]
fn rectangles_convert_to_edge_form() {
    let r = ScreenRect {
        origin: ScreenPoint { x: -4, y: 3 },
        size: ScreenSize {
            width: 10,
            height: 20,
        },
    };
    assert_eq!(
        r.to_lcd_rect(),
        LCDRect {
            left: -4,
            right: 6,
            top: 3,
            bottom: 23
        }
    );
}

#[test]
fn huge_table_index_is_out_of_range() {
    let mut g = Graphics::new(1);
    let mut t = g.complete_new_bitmap_table(0x1000).unwrap();
    let idx = (i32::MAX as usize) + 1;
    let r = t.get_bitmap(&mut g, idx);
    assert_eq!(
        r.map(|_| ()),
        Err(GraphicsError::IndexOutOfRange {
            index: idx,
            table: 0x1000
        })
    );
}
