use yas_relic::layout::{window_16_9, window_16_9_starrail, PixelRect};

#[test]
fn reference_size_is_identity() {
    let l = window_16_9();
    let g = l.to_scan_info(900, 1600, 0, 0);
    assert_eq!(g.panel_position, PixelRect { left: 1090, top: 100, width: 410, height: 700 });
    assert_eq!(g.title_position, PixelRect { left: 22, top: 7, width: 306, height: 33 });
    assert_eq!(g.art_width, 102);
    assert_eq!(g.flag_x, 271);
    assert_eq!(g.star_y, 24);
    assert_eq!(g.width, 1600);
    assert_eq!(g.height, 900);
    assert_eq!(g.art_row, 5);
    assert_eq!(g.art_col, 8);
}

#[test]
fn axes_scale_independently() {
    let l = window_16_9_starrail();
    let g = l.to_scan_info(1080, 1920, 10, 20);
    assert_eq!(g.panel_position, PixelRect { left: 1380, top: 120, width: 480, height: 816 });
    assert_eq!(g.left, 10);
    assert_eq!(g.top, 20);
    assert_eq!(g.art_width, 115);
    assert_eq!(g.art_height, 134);
    let h = l.to_scan_info(900, 1920, 0, 0);
    assert_eq!(h.panel_position, PixelRect { left: 1380, top: 100, width: 480, height: 680 });
}

#[test]
fn widths_never_negative() {
    for (w, h) in [(1, 1), (3, 7), (1280, 720), (2560, 1440), (1366, 768)] {
        for l in [window_16_9(), window_16_9_starrail()] {
            let g = l.to_scan_info(h, w, 0, 0);
            for r in [g.panel_position, g.title_position, g.main_stat_value_position, g.equip_position, g.sub_stat4_value_pos, g.art_count_position] {
                assert!(r.width >= 0 && r.height >= 0);
            }
        }
    }
}

#[test]
fn rounding_halves_up() {
    let l = window_16_9();
    let g = l.to_scan_info(450, 800, 0, 0);
    assert_eq!(g.panel_position.left, 545);
    assert_eq!(g.art_gap_x, 10);
    assert_eq!(g.flag_y, 45);
    assert_eq!(g.lock_y, 179);
}

#[test]
fn starrail_reference_size_is_identity() {
    let g = window_16_9_starrail().to_scan_info(900, 1600, 0, 0);
    assert_eq!(g.panel_position, PixelRect { left: 1150, top: 100, width: 400, height: 680 });
    assert_eq!(g.main_stat_value_position, PixelRect { left: 315, top: 235, width: 70, height: 20 });
    assert_eq!(g.art_count_position, PixelRect { left: -397, top: 713, width: 207, height: 23 });
    assert_eq!(g.sub_stat1_position, PixelRect { left: -1150, top: -100, width: 0, height: 0 });
    assert_eq!(g.scrollbar_height, 610);
}
