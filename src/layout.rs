//! Reference layouts and their calibration onto a captured window.
//!
//! A reference layout gives every region of the relic panel in a fixed
//! reference resolution, in tenths of a reference pixel. Calibration scales
//! the horizontal and vertical axes independently to the observed window
//! size, rounds to whole pixels, and expresses every region but the panel
//! relative to the panel's top-left corner.

use vstd::prelude::*;
use vstd::arithmetic::div_mod::*;

verus! {

/// A rectangle in whole pixels.
#[derive(Clone, Copy, Debug, PartialEq, Eq, Structural)]
pub struct PixelRect {
    pub left: i32,
    pub top: i32,
    pub width: i32,
    pub height: i32,
}

/// A reference rectangle: top, right, bottom and left edges, in tenths of a
/// reference pixel.
#[derive(Clone, Copy, Debug, PartialEq, Eq, Structural)]
pub struct Rect(pub u32, pub u32, pub u32, pub u32);

impl Rect {
    /// Every edge lies within a reference extent of `w` by `h` tenths.
    pub open spec fn fits(self, w: int, h: int) -> bool {
        self.0 <= h && self.1 <= w && self.2 <= h && self.3 <= w
    }
}

/// A reference layout; every length is in tenths of a reference pixel.
#[derive(Clone, Copy, Debug)]
pub struct WindowInfo {
    pub width: u32,
    pub height: u32,
    pub title_pos: Rect,
    pub main_stat_name_pos: Rect,
    pub main_stat_value_pos: Rect,
    pub level_pos: Rect,
    pub panel_pos: Rect,
    pub sub_stat1_pos: Rect,
    pub sub_stat2_pos: Rect,
    pub sub_stat3_pos: Rect,
    pub sub_stat4_pos: Rect,
    pub sub_stat1_name_pos: Rect,
    pub sub_stat1_value_pos: Rect,
    pub sub_stat2_name_pos: Rect,
    pub sub_stat2_value_pos: Rect,
    pub sub_stat3_name_pos: Rect,
    pub sub_stat3_value_pos: Rect,
    pub sub_stat4_name_pos: Rect,
    pub sub_stat4_value_pos: Rect,
    pub equip_pos: Rect,
    pub art_count_pos: Rect,
    pub art_width: u32,
    pub art_height: u32,
    pub art_gap_x: u32,
    pub art_gap_y: u32,
    pub art_row: u32,
    pub art_col: u32,
    pub left_margin: u32,
    pub top_margin: u32,
    pub flag_x: u32,
    pub flag_y: u32,
    pub star_x: u32,
    pub star_y: u32,
    pub lock_x: u32,
    pub lock_y: u32,
    pub art_lock_x: u32,
    pub art_lock_y: u32,
    pub ruler_left: u32,
    pub ruler_top: u32,
    pub ruler_height: u32,
    pub menu_x: u32,
    pub menu_y: u32,
    pub scrollbar_left: u32,
    pub scrollbar_top: u32,
    pub scrollbar_height: u32,
    pub art_shift_x: u32,
    pub art_shift_y: u32,
}

/// The calibrated geometry of one captured window, in whole pixels. Every
/// region but the panel is relative to the panel's top-left corner.
#[derive(Clone, Copy, Debug, PartialEq, Eq, Structural)]
pub struct ScanInfo {
    pub panel_position: PixelRect,
    pub title_position: PixelRect,
    pub main_stat_name_position: PixelRect,
    pub main_stat_value_position: PixelRect,
    pub level_position: PixelRect,
    pub sub_stat1_position: PixelRect,
    pub sub_stat2_position: PixelRect,
    pub sub_stat3_position: PixelRect,
    pub sub_stat4_position: PixelRect,
    pub sub_stat1_name_pos: PixelRect,
    pub sub_stat1_value_pos: PixelRect,
    pub sub_stat2_name_pos: PixelRect,
    pub sub_stat2_value_pos: PixelRect,
    pub sub_stat3_name_pos: PixelRect,
    pub sub_stat3_value_pos: PixelRect,
    pub sub_stat4_name_pos: PixelRect,
    pub sub_stat4_value_pos: PixelRect,
    pub equip_position: PixelRect,
    pub art_count_position: PixelRect,
    pub art_width: u32,
    pub art_height: u32,
    pub art_gap_x: u32,
    pub art_gap_y: u32,
    pub art_row: u32,
    pub art_col: u32,
    pub left_margin: u32,
    pub top_margin: u32,
    pub width: u32,
    pub height: u32,
    pub left: i32,
    pub top: i32,
    pub flag_x: u32,
    pub flag_y: u32,
    pub star_x: u32,
    pub star_y: u32,
    pub lock_x: u32,
    pub lock_y: u32,
    pub art_lock_x: u32,
    pub art_lock_y: u32,
    pub ruler_left: u32,
    pub ruler_top: u32,
    pub ruler_height: u32,
    pub menu_x: u32,
    pub menu_y: u32,
    pub scrollbar_left: u32,
    pub scrollbar_top: u32,
    pub scrollbar_height: u32,
    pub art_shift_x: u32,
    pub art_shift_y: u32,
}

/// `v * observed / reference`, rounded to the nearest integer, halves up.
pub open spec fn scale(v: int, observed: int, reference: int) -> int {
    (2 * v * observed + reference) / (2 * reference)
}

/// A tenth-of-a-pixel length rounded to a whole pixel, halves up.
pub open spec fn round_tenths(v: int) -> int {
    (v + 5) / 10
}

/// A rectangle whose edges are mapped by `fx` (horizontal) and `fy`
/// (vertical); width and height are taken after the edges are mapped.
pub open spec fn map_rect(r: Rect, fx: spec_fn(int) -> int, fy: spec_fn(int) -> int) -> PixelRect {
    let left = fx(r.3 as int);
    let top = fy(r.0 as int);
    PixelRect {
        left: left as i32,
        top: top as i32,
        width: (fx(r.1 as int) - left) as i32,
        height: (fy(r.2 as int) - top) as i32,
    }
}

/// `r` moved so that its position is relative to the top-left of `p`.
pub open spec fn relative(r: PixelRect, p: PixelRect) -> PixelRect {
    PixelRect {
        left: (r.left - p.left) as i32,
        top: (r.top - p.top) as i32,
        width: r.width,
        height: r.height,
    }
}

/// The geometry a layout gives when its axes are mapped by `fx` and `fy`.
pub open spec fn geometry(
    l: WindowInfo,
    fx: spec_fn(int) -> int,
    fy: spec_fn(int) -> int,
    h: u32,
    w: u32,
    left: i32,
    top: i32,
) -> ScanInfo {
    ScanInfo {
            panel_position: map_rect(l.panel_pos, fx, fy),
            title_position: relative(map_rect(l.title_pos, fx, fy), map_rect(l.panel_pos, fx, fy)),
            main_stat_name_position: relative(map_rect(l.main_stat_name_pos, fx, fy), map_rect(l.panel_pos, fx, fy)),
            main_stat_value_position: relative(map_rect(l.main_stat_value_pos, fx, fy), map_rect(l.panel_pos, fx, fy)),
            level_position: relative(map_rect(l.level_pos, fx, fy), map_rect(l.panel_pos, fx, fy)),
            sub_stat1_position: relative(map_rect(l.sub_stat1_pos, fx, fy), map_rect(l.panel_pos, fx, fy)),
            sub_stat2_position: relative(map_rect(l.sub_stat2_pos, fx, fy), map_rect(l.panel_pos, fx, fy)),
            sub_stat3_position: relative(map_rect(l.sub_stat3_pos, fx, fy), map_rect(l.panel_pos, fx, fy)),
            sub_stat4_position: relative(map_rect(l.sub_stat4_pos, fx, fy), map_rect(l.panel_pos, fx, fy)),
            sub_stat1_name_pos: relative(map_rect(l.sub_stat1_name_pos, fx, fy), map_rect(l.panel_pos, fx, fy)),
            sub_stat1_value_pos: relative(map_rect(l.sub_stat1_value_pos, fx, fy), map_rect(l.panel_pos, fx, fy)),
            sub_stat2_name_pos: relative(map_rect(l.sub_stat2_name_pos, fx, fy), map_rect(l.panel_pos, fx, fy)),
            sub_stat2_value_pos: relative(map_rect(l.sub_stat2_value_pos, fx, fy), map_rect(l.panel_pos, fx, fy)),
            sub_stat3_name_pos: relative(map_rect(l.sub_stat3_name_pos, fx, fy), map_rect(l.panel_pos, fx, fy)),
            sub_stat3_value_pos: relative(map_rect(l.sub_stat3_value_pos, fx, fy), map_rect(l.panel_pos, fx, fy)),
            sub_stat4_name_pos: relative(map_rect(l.sub_stat4_name_pos, fx, fy), map_rect(l.panel_pos, fx, fy)),
            sub_stat4_value_pos: relative(map_rect(l.sub_stat4_value_pos, fx, fy), map_rect(l.panel_pos, fx, fy)),
            equip_position: relative(map_rect(l.equip_pos, fx, fy), map_rect(l.panel_pos, fx, fy)),
            art_count_position: relative(map_rect(l.art_count_pos, fx, fy), map_rect(l.panel_pos, fx, fy)),
            art_width: fx(l.art_width as int) as u32,
            art_height: fy(l.art_height as int) as u32,
            art_gap_x: fx(l.art_gap_x as int) as u32,
            art_gap_y: fy(l.art_gap_y as int) as u32,
            left_margin: fx(l.left_margin as int) as u32,
            top_margin: fy(l.top_margin as int) as u32,
            flag_x: fx(l.flag_x as int) as u32,
            flag_y: fy(l.flag_y as int) as u32,
            star_x: fx(l.star_x as int) as u32,
            star_y: fy(l.star_y as int) as u32,
            lock_x: fx(l.lock_x as int) as u32,
            lock_y: fy(l.lock_y as int) as u32,
            art_lock_x: fx(l.art_lock_x as int) as u32,
            art_lock_y: fy(l.art_lock_y as int) as u32,
            ruler_left: fx(l.ruler_left as int) as u32,
            ruler_top: fy(l.ruler_top as int) as u32,
            ruler_height: fy(l.ruler_height as int) as u32,
            menu_x: fx(l.menu_x as int) as u32,
            menu_y: fy(l.menu_y as int) as u32,
            scrollbar_left: fx(l.scrollbar_left as int) as u32,
            scrollbar_top: fy(l.scrollbar_top as int) as u32,
            scrollbar_height: fy(l.scrollbar_height as int) as u32,
            art_shift_x: fx(l.art_shift_x as int) as u32,
            art_shift_y: fy(l.art_shift_y as int) as u32,
            art_row: l.art_row,
            art_col: l.art_col,
            width: w,
            height: h,
            left,
            top,
    }
}

/// The calibration of layout `l` onto a window of `w` by `h` pixels whose
/// client area starts at screen position (`left`, `top`).
pub open spec fn scan_info_of(l: WindowInfo, h: u32, w: u32, left: i32, top: i32) -> ScanInfo {
    geometry(
        l,
        |v: int| scale(v, w as int, l.width as int),
        |v: int| scale(v, h as int, l.height as int),
        h,
        w,
        left,
        top,
    )
}

proof fn lemma_scale_bounds(v: int, observed: int, reference: int)
    requires
        0 <= v <= reference,
        0 < reference,
        0 <= observed,
    ensures
        0 <= scale(v, observed, reference) <= observed,
{
    assert(2 * v * observed + reference <= (2 * observed + 1) * reference) by (nonlinear_arith)
        requires
            0 <= v <= reference,
            0 <= observed,
    ;
    assert(0 <= 2 * v * observed) by (nonlinear_arith)
        requires
            0 <= v,
            0 <= observed,
    ;
    lemma_div_is_ordered(2 * v * observed + reference, (2 * observed + 1) * reference, 2 * reference);
    lemma_div_pos_is_pos(2 * v * observed + reference, 2 * reference);
    assert((2 * observed + 1) * reference == observed * (2 * reference) + reference) by (nonlinear_arith);
    lemma_fundamental_div_mod_converse(
        (2 * observed + 1) * reference,
        2 * reference,
        observed,
        reference,
    );
}

/// Scaling to whole pixels keeps the order of coordinates.
pub proof fn lemma_scale_monotone(a: int, b: int, observed: int, reference: int)
    requires
        a <= b,
        0 < reference,
        0 <= observed,
    ensures
        scale(a, observed, reference) <= scale(b, observed, reference),
{
    assert(2 * a * observed <= 2 * b * observed) by (nonlinear_arith)
        requires
            a <= b,
            0 <= observed,
    ;
    lemma_div_is_ordered(2 * a * observed + reference, 2 * b * observed + reference, 2 * reference);
}

/// A rectangle whose right edge is not left of its left edge, and whose
/// bottom is not above its top, keeps a non-negative width and height after
/// calibration, whatever the observed window size.
pub proof fn lemma_calibrated_extent_nonnegative(r: Rect, ref_w: int, ref_h: int, w: int, h: int)
    requires
        r.3 <= r.1,
        r.0 <= r.2,
        0 < ref_w,
        0 < ref_h,
        r.fits(ref_w, ref_h),
        0 <= w <= i32::MAX,
        0 <= h <= i32::MAX,
    ensures
        map_rect(r, |v: int| scale(v, w, ref_w), |v: int| scale(v, h, ref_h)).width >= 0,
        map_rect(r, |v: int| scale(v, w, ref_w), |v: int| scale(v, h, ref_h)).height >= 0,
{
    lemma_scale_monotone(r.3 as int, r.1 as int, w, ref_w);
    lemma_scale_monotone(r.0 as int, r.2 as int, h, ref_h);
    lemma_scale_bounds(r.3 as int, w, ref_w);
    lemma_scale_bounds(r.1 as int, w, ref_w);
    lemma_scale_bounds(r.0 as int, h, ref_h);
    lemma_scale_bounds(r.2 as int, h, ref_h);
}

proof fn lemma_scale_at_reference(v: int, observed: int)
    requires
        0 < observed,
    ensures
        scale(v, observed, 10 * observed) == round_tenths(v),
{
    let q = (v + 5) / 10;
    let m = (v + 5) % 10;
    lemma_fundamental_div_mod(v + 5, 10);
    lemma_mod_bound(v + 5, 10);
    assert(2 * v * observed + 10 * observed == q * (2 * (10 * observed)) + 2 * observed * m)
        by (nonlinear_arith)
        requires
            v + 5 == 10 * q + m,
    ;
    assert(0 <= 2 * observed * m < 2 * (10 * observed)) by (nonlinear_arith)
        requires
            0 <= m < 10,
            0 < observed,
    ;
    lemma_fundamental_div_mod_converse(
        2 * v * observed + 10 * observed,
        2 * (10 * observed),
        q,
        2 * observed * m,
    );
}

/// Calibrating a layout onto a window of exactly its reference size gives
/// the layout's own regions and anchors, each rounded to a whole pixel.
pub proof fn lemma_reference_size_is_identity(l: WindowInfo, left: i32, top: i32)
    requires
        l.wf(),
        l.width % 10 == 0,
        l.height % 10 == 0,
    ensures
        scan_info_of(l, (l.height / 10) as u32, (l.width / 10) as u32, left, top) == geometry(
            l,
            |v: int| round_tenths(v),
            |v: int| round_tenths(v),
            (l.height / 10) as u32,
            (l.width / 10) as u32,
            left,
            top,
        ),
{
    let w = (l.width / 10) as u32;
    let h = (l.height / 10) as u32;
    assert forall|v: int| scale(v, w as int, l.width as int) == round_tenths(v) by {
        lemma_scale_at_reference(v, w as int);
    }
    assert forall|v: int| scale(v, h as int, l.height as int) == round_tenths(v) by {
        lemma_scale_at_reference(v, h as int);
    }
    let fx = |v: int| scale(v, w as int, l.width as int);
    let fy = |v: int| scale(v, h as int, l.height as int);
    assert(fx =~= (|v: int| round_tenths(v)));
    assert(fy =~= (|v: int| round_tenths(v)));
}

impl WindowInfo {
    /// Every region and anchor lies within the reference extent, which is
    /// not empty.
    pub open spec fn wf(self) -> bool {
        &&& self.width > 0
        &&& self.height > 0
        &&& self.title_pos.fits(self.width as int, self.height as int)
        &&& self.main_stat_name_pos.fits(self.width as int, self.height as int)
        &&& self.main_stat_value_pos.fits(self.width as int, self.height as int)
        &&& self.level_pos.fits(self.width as int, self.height as int)
        &&& self.panel_pos.fits(self.width as int, self.height as int)
        &&& self.sub_stat1_pos.fits(self.width as int, self.height as int)
        &&& self.sub_stat2_pos.fits(self.width as int, self.height as int)
        &&& self.sub_stat3_pos.fits(self.width as int, self.height as int)
        &&& self.sub_stat4_pos.fits(self.width as int, self.height as int)
        &&& self.sub_stat1_name_pos.fits(self.width as int, self.height as int)
        &&& self.sub_stat1_value_pos.fits(self.width as int, self.height as int)
        &&& self.sub_stat2_name_pos.fits(self.width as int, self.height as int)
        &&& self.sub_stat2_value_pos.fits(self.width as int, self.height as int)
        &&& self.sub_stat3_name_pos.fits(self.width as int, self.height as int)
        &&& self.sub_stat3_value_pos.fits(self.width as int, self.height as int)
        &&& self.sub_stat4_name_pos.fits(self.width as int, self.height as int)
        &&& self.sub_stat4_value_pos.fits(self.width as int, self.height as int)
        &&& self.equip_pos.fits(self.width as int, self.height as int)
        &&& self.art_count_pos.fits(self.width as int, self.height as int)
        &&& self.art_width <= self.width
        &&& self.art_gap_x <= self.width
        &&& self.left_margin <= self.width
        &&& self.flag_x <= self.width
        &&& self.star_x <= self.width
        &&& self.lock_x <= self.width
        &&& self.art_lock_x <= self.width
        &&& self.ruler_left <= self.width
        &&& self.menu_x <= self.width
        &&& self.scrollbar_left <= self.width
        &&& self.art_shift_x <= self.width
        &&& self.art_height <= self.height
        &&& self.art_gap_y <= self.height
        &&& self.top_margin <= self.height
        &&& self.flag_y <= self.height
        &&& self.star_y <= self.height
        &&& self.lock_y <= self.height
        &&& self.art_lock_y <= self.height
        &&& self.ruler_top <= self.height
        &&& self.ruler_height <= self.height
        &&& self.menu_y <= self.height
        &&& self.scrollbar_top <= self.height
        &&& self.scrollbar_height <= self.height
        &&& self.art_shift_y <= self.height
    }

    /// No region has its right edge left of its left edge, or its bottom
    /// above its top.
    pub open spec fn ordered(self) -> bool {
        &&& self.title_pos.3 <= self.title_pos.1 && self.title_pos.0 <= self.title_pos.2
        &&& self.main_stat_name_pos.3 <= self.main_stat_name_pos.1 && self.main_stat_name_pos.0 <= self.main_stat_name_pos.2
        &&& self.main_stat_value_pos.3 <= self.main_stat_value_pos.1 && self.main_stat_value_pos.0 <= self.main_stat_value_pos.2
        &&& self.level_pos.3 <= self.level_pos.1 && self.level_pos.0 <= self.level_pos.2
        &&& self.panel_pos.3 <= self.panel_pos.1 && self.panel_pos.0 <= self.panel_pos.2
        &&& self.sub_stat1_pos.3 <= self.sub_stat1_pos.1 && self.sub_stat1_pos.0 <= self.sub_stat1_pos.2
        &&& self.sub_stat2_pos.3 <= self.sub_stat2_pos.1 && self.sub_stat2_pos.0 <= self.sub_stat2_pos.2
        &&& self.sub_stat3_pos.3 <= self.sub_stat3_pos.1 && self.sub_stat3_pos.0 <= self.sub_stat3_pos.2
        &&& self.sub_stat4_pos.3 <= self.sub_stat4_pos.1 && self.sub_stat4_pos.0 <= self.sub_stat4_pos.2
        &&& self.sub_stat1_name_pos.3 <= self.sub_stat1_name_pos.1 && self.sub_stat1_name_pos.0 <= self.sub_stat1_name_pos.2
        &&& self.sub_stat1_value_pos.3 <= self.sub_stat1_value_pos.1 && self.sub_stat1_value_pos.0 <= self.sub_stat1_value_pos.2
        &&& self.sub_stat2_name_pos.3 <= self.sub_stat2_name_pos.1 && self.sub_stat2_name_pos.0 <= self.sub_stat2_name_pos.2
        &&& self.sub_stat2_value_pos.3 <= self.sub_stat2_value_pos.1 && self.sub_stat2_value_pos.0 <= self.sub_stat2_value_pos.2
        &&& self.sub_stat3_name_pos.3 <= self.sub_stat3_name_pos.1 && self.sub_stat3_name_pos.0 <= self.sub_stat3_name_pos.2
        &&& self.sub_stat3_value_pos.3 <= self.sub_stat3_value_pos.1 && self.sub_stat3_value_pos.0 <= self.sub_stat3_value_pos.2
        &&& self.sub_stat4_name_pos.3 <= self.sub_stat4_name_pos.1 && self.sub_stat4_name_pos.0 <= self.sub_stat4_name_pos.2
        &&& self.sub_stat4_value_pos.3 <= self.sub_stat4_value_pos.1 && self.sub_stat4_value_pos.0 <= self.sub_stat4_value_pos.2
        &&& self.equip_pos.3 <= self.equip_pos.1 && self.equip_pos.0 <= self.equip_pos.2
        &&& self.art_count_pos.3 <= self.art_count_pos.1 && self.art_count_pos.0 <= self.art_count_pos.2
    }

    fn scale_x(&self, v: u32, w: u32) -> (r: i32)
        requires
            self.width > 0,
            v <= self.width,
            w <= i32::MAX,
        ensures
            r == scale(v as int, w as int, self.width as int),
            0 <= r <= w,
    {
        proof {
            lemma_scale_bounds(v as int, w as int, self.width as int);
        }
        let a = v as u128;
        let b = w as u128;
        assert(a * b <= 0xffff_ffffu128 * 0xffff_ffffu128) by (nonlinear_arith)
            requires
                a <= 0xffff_ffffu128,
                b <= 0xffff_ffffu128,
        ;
        let ab = a * b;
        assert(2 * ab == 2 * v * w) by (nonlinear_arith)
            requires
                ab == a * b,
                a == v,
                b == w,
        ;
        let num = 2 * ab + self.width as u128;
        (num / (2 * self.width as u128)) as i32
    }

    fn scale_y(&self, v: u32, h: u32) -> (r: i32)
        requires
            self.height > 0,
            v <= self.height,
            h <= i32::MAX,
        ensures
            r == scale(v as int, h as int, self.height as int),
            0 <= r <= h,
    {
        proof {
            lemma_scale_bounds(v as int, h as int, self.height as int);
        }
        let a = v as u128;
        let b = h as u128;
        assert(a * b <= 0xffff_ffffu128 * 0xffff_ffffu128) by (nonlinear_arith)
            requires
                a <= 0xffff_ffffu128,
                b <= 0xffff_ffffu128,
        ;
        let ab = a * b;
        assert(2 * ab == 2 * v * h) by (nonlinear_arith)
            requires
                ab == a * b,
                a == v,
                b == h,
        ;
        let num = 2 * ab + self.height as u128;
        (num / (2 * self.height as u128)) as i32
    }

    fn scale_rect(&self, r: &Rect, h: u32, w: u32) -> (p: PixelRect)
        requires
            self.width > 0,
            self.height > 0,
            r.fits(self.width as int, self.height as int),
            w <= i32::MAX,
            h <= i32::MAX,
        ensures
            p == map_rect(
                *r,
                |v: int| scale(v, w as int, self.width as int),
                |v: int| scale(v, h as int, self.height as int),
            ),
            0 <= p.left <= w,
            0 <= p.top <= h,
    {
        let left = self.scale_x(r.3, w);
        let top = self.scale_y(r.0, h);
        let right = self.scale_x(r.1, w);
        let bottom = self.scale_y(r.2, h);
        PixelRect { left, top, width: right - left, height: bottom - top }
    }

    /// Calibrates this layout onto a window of `w` by `h` pixels whose client
    /// area starts at screen position (`left`, `top`).
    pub fn to_scan_info(&self, h: u32, w: u32, left: i32, top: i32) -> (r: ScanInfo)
        requires
            self.wf(),
            w <= i32::MAX,
            h <= i32::MAX,
        ensures
            r == scan_info_of(*self, h, w, left, top),
    {
        let p = self.scale_rect(&self.panel_pos, h, w);
        ScanInfo {
            panel_position: p,
            title_position: relative_exec(self.scale_rect(&self.title_pos, h, w), p),
            main_stat_name_position: relative_exec(self.scale_rect(&self.main_stat_name_pos, h, w), p),
            main_stat_value_position: relative_exec(self.scale_rect(&self.main_stat_value_pos, h, w), p),
            level_position: relative_exec(self.scale_rect(&self.level_pos, h, w), p),
            sub_stat1_position: relative_exec(self.scale_rect(&self.sub_stat1_pos, h, w), p),
            sub_stat2_position: relative_exec(self.scale_rect(&self.sub_stat2_pos, h, w), p),
            sub_stat3_position: relative_exec(self.scale_rect(&self.sub_stat3_pos, h, w), p),
            sub_stat4_position: relative_exec(self.scale_rect(&self.sub_stat4_pos, h, w), p),
            sub_stat1_name_pos: relative_exec(self.scale_rect(&self.sub_stat1_name_pos, h, w), p),
            sub_stat1_value_pos: relative_exec(self.scale_rect(&self.sub_stat1_value_pos, h, w), p),
            sub_stat2_name_pos: relative_exec(self.scale_rect(&self.sub_stat2_name_pos, h, w), p),
            sub_stat2_value_pos: relative_exec(self.scale_rect(&self.sub_stat2_value_pos, h, w), p),
            sub_stat3_name_pos: relative_exec(self.scale_rect(&self.sub_stat3_name_pos, h, w), p),
            sub_stat3_value_pos: relative_exec(self.scale_rect(&self.sub_stat3_value_pos, h, w), p),
            sub_stat4_name_pos: relative_exec(self.scale_rect(&self.sub_stat4_name_pos, h, w), p),
            sub_stat4_value_pos: relative_exec(self.scale_rect(&self.sub_stat4_value_pos, h, w), p),
            equip_position: relative_exec(self.scale_rect(&self.equip_pos, h, w), p),
            art_count_position: relative_exec(self.scale_rect(&self.art_count_pos, h, w), p),
            art_width: self.scale_x(self.art_width, w) as u32,
            art_height: self.scale_y(self.art_height, h) as u32,
            art_gap_x: self.scale_x(self.art_gap_x, w) as u32,
            art_gap_y: self.scale_y(self.art_gap_y, h) as u32,
            left_margin: self.scale_x(self.left_margin, w) as u32,
            top_margin: self.scale_y(self.top_margin, h) as u32,
            flag_x: self.scale_x(self.flag_x, w) as u32,
            flag_y: self.scale_y(self.flag_y, h) as u32,
            star_x: self.scale_x(self.star_x, w) as u32,
            star_y: self.scale_y(self.star_y, h) as u32,
            lock_x: self.scale_x(self.lock_x, w) as u32,
            lock_y: self.scale_y(self.lock_y, h) as u32,
            art_lock_x: self.scale_x(self.art_lock_x, w) as u32,
            art_lock_y: self.scale_y(self.art_lock_y, h) as u32,
            ruler_left: self.scale_x(self.ruler_left, w) as u32,
            ruler_top: self.scale_y(self.ruler_top, h) as u32,
            ruler_height: self.scale_y(self.ruler_height, h) as u32,
            menu_x: self.scale_x(self.menu_x, w) as u32,
            menu_y: self.scale_y(self.menu_y, h) as u32,
            scrollbar_left: self.scale_x(self.scrollbar_left, w) as u32,
            scrollbar_top: self.scale_y(self.scrollbar_top, h) as u32,
            scrollbar_height: self.scale_y(self.scrollbar_height, h) as u32,
            art_shift_x: self.scale_x(self.art_shift_x, w) as u32,
            art_shift_y: self.scale_y(self.art_shift_y, h) as u32,
            art_row: self.art_row,
            art_col: self.art_col,
            width: w,
            height: h,
            left,
            top,
        }
    }
}

/// Calibrating a valid layout whose regions are not inverted gives every
/// region a non-negative width and height, whatever the observed size.
pub proof fn lemma_scan_info_extents_nonnegative(l: WindowInfo, h: u32, w: u32, left: i32, top: i32)
    requires
        l.wf(),
        l.ordered(),
        w <= i32::MAX,
        h <= i32::MAX,
    ensures
        ({
            let g = scan_info_of(l, h, w, left, top);
            g.panel_position.width >= 0 && g.panel_position.height >= 0 &&
            g.title_position.width >= 0 && g.title_position.height >= 0 &&
            g.main_stat_name_position.width >= 0 && g.main_stat_name_position.height >= 0 &&
            g.main_stat_value_position.width >= 0 && g.main_stat_value_position.height >= 0 &&
            g.level_position.width >= 0 && g.level_position.height >= 0 &&
            g.sub_stat1_position.width >= 0 && g.sub_stat1_position.height >= 0 &&
            g.sub_stat2_position.width >= 0 && g.sub_stat2_position.height >= 0 &&
            g.sub_stat3_position.width >= 0 && g.sub_stat3_position.height >= 0 &&
            g.sub_stat4_position.width >= 0 && g.sub_stat4_position.height >= 0 &&
            g.sub_stat1_name_pos.width >= 0 && g.sub_stat1_name_pos.height >= 0 &&
            g.sub_stat1_value_pos.width >= 0 && g.sub_stat1_value_pos.height >= 0 &&
            g.sub_stat2_name_pos.width >= 0 && g.sub_stat2_name_pos.height >= 0 &&
            g.sub_stat2_value_pos.width >= 0 && g.sub_stat2_value_pos.height >= 0 &&
            g.sub_stat3_name_pos.width >= 0 && g.sub_stat3_name_pos.height >= 0 &&
            g.sub_stat3_value_pos.width >= 0 && g.sub_stat3_value_pos.height >= 0 &&
            g.sub_stat4_name_pos.width >= 0 && g.sub_stat4_name_pos.height >= 0 &&
            g.sub_stat4_value_pos.width >= 0 && g.sub_stat4_value_pos.height >= 0 &&
            g.equip_position.width >= 0 && g.equip_position.height >= 0 &&
            g.art_count_position.width >= 0 && g.art_count_position.height >= 0
        }),
{
    lemma_calibrated_extent_nonnegative(l.title_pos, l.width as int, l.height as int, w as int, h as int);
    lemma_calibrated_extent_nonnegative(l.main_stat_name_pos, l.width as int, l.height as int, w as int, h as int);
    lemma_calibrated_extent_nonnegative(l.main_stat_value_pos, l.width as int, l.height as int, w as int, h as int);
    lemma_calibrated_extent_nonnegative(l.level_pos, l.width as int, l.height as int, w as int, h as int);
    lemma_calibrated_extent_nonnegative(l.panel_pos, l.width as int, l.height as int, w as int, h as int);
    lemma_calibrated_extent_nonnegative(l.sub_stat1_pos, l.width as int, l.height as int, w as int, h as int);
    lemma_calibrated_extent_nonnegative(l.sub_stat2_pos, l.width as int, l.height as int, w as int, h as int);
    lemma_calibrated_extent_nonnegative(l.sub_stat3_pos, l.width as int, l.height as int, w as int, h as int);
    lemma_calibrated_extent_nonnegative(l.sub_stat4_pos, l.width as int, l.height as int, w as int, h as int);
    lemma_calibrated_extent_nonnegative(l.sub_stat1_name_pos, l.width as int, l.height as int, w as int, h as int);
    lemma_calibrated_extent_nonnegative(l.sub_stat1_value_pos, l.width as int, l.height as int, w as int, h as int);
    lemma_calibrated_extent_nonnegative(l.sub_stat2_name_pos, l.width as int, l.height as int, w as int, h as int);
    lemma_calibrated_extent_nonnegative(l.sub_stat2_value_pos, l.width as int, l.height as int, w as int, h as int);
    lemma_calibrated_extent_nonnegative(l.sub_stat3_name_pos, l.width as int, l.height as int, w as int, h as int);
    lemma_calibrated_extent_nonnegative(l.sub_stat3_value_pos, l.width as int, l.height as int, w as int, h as int);
    lemma_calibrated_extent_nonnegative(l.sub_stat4_name_pos, l.width as int, l.height as int, w as int, h as int);
    lemma_calibrated_extent_nonnegative(l.sub_stat4_value_pos, l.width as int, l.height as int, w as int, h as int);
    lemma_calibrated_extent_nonnegative(l.equip_pos, l.width as int, l.height as int, w as int, h as int);
    lemma_calibrated_extent_nonnegative(l.art_count_pos, l.width as int, l.height as int, w as int, h as int);
}

fn relative_exec(r: PixelRect, p: PixelRect) -> (q: PixelRect)
    requires
        0 <= r.left <= i32::MAX,
        0 <= r.top <= i32::MAX,
        0 <= p.left <= i32::MAX,
        0 <= p.top <= i32::MAX,
    ensures
        q == relative(r, p),
{
    PixelRect { left: r.left - p.left, top: r.top - p.top, width: r.width, height: r.height }
}

/// The reference layout of the artifact panel at 16:9, 1600 by 900
/// reference pixels.
pub open spec fn layout_16_9() -> WindowInfo {
    WindowInfo {
        width: 16000,
        height: 9000,
        title_pos: Rect(1066, 14177, 1396, 11118),
        main_stat_name_pos: Rect(2243, 12539, 2480, 11100),
        main_stat_value_pos: Rect(2484, 12468, 2868, 11100),
        level_pos: Rect(3600, 11600, 3780, 11170),
        panel_pos: Rect(1000, 15000, 8000, 10900),
        sub_stat1_pos: Rect(3981, 13430, 4273, 11302),
        sub_stat2_pos: Rect(4273, 13430, 4582, 11302),
        sub_stat3_pos: Rect(4582, 13430, 4909, 11302),
        sub_stat4_pos: Rect(4909, 13430, 5230, 11302),
        sub_stat1_name_pos: Rect(0, 0, 0, 0),
        sub_stat1_value_pos: Rect(0, 0, 0, 0),
        sub_stat2_name_pos: Rect(0, 0, 0, 0),
        sub_stat2_value_pos: Rect(0, 0, 0, 0),
        sub_stat3_name_pos: Rect(0, 0, 0, 0),
        sub_stat3_value_pos: Rect(0, 0, 0, 0),
        sub_stat4_name_pos: Rect(0, 0, 0, 0),
        sub_stat4_value_pos: Rect(0, 0, 0, 0),
        equip_pos: Rect(7626, 13894, 7878, 11549),
        art_count_pos: Rect(271, 15047, 529, 13149),
        art_width: 1020,
        art_height: 1260,
        art_gap_x: 200,
        art_gap_y: 200,
        art_row: 5,
        art_col: 8,
        left_margin: 980,
        top_margin: 1000,
        flag_x: 2711,
        flag_y: 898,
        star_x: 3794,
        star_y: 239,
        lock_x: 14500,
        lock_y: 3570,
        art_lock_x: 120,
        art_lock_y: 140,
        ruler_left: 2720,
        ruler_top: 1020,
        ruler_height: 1230,
        menu_x: 5400,
        menu_y: 500,
        scrollbar_left: 10740,
        scrollbar_top: 1080,
        scrollbar_height: 6680,
        art_shift_x: 1220,
        art_shift_y: 1460,
    }
}

/// The reference layout of the artifact panel at 16:9, 1600 by 900
/// reference pixels.
pub fn window_16_9() -> (l: WindowInfo)
    ensures
        l == layout_16_9(),
        l.wf(),
        l.ordered(),
        l.width == 16000,
        l.height == 9000,
{
    WindowInfo {
        width: 16000,
        height: 9000,
        title_pos: Rect(1066, 14177, 1396, 11118),
        main_stat_name_pos: Rect(2243, 12539, 2480, 11100),
        main_stat_value_pos: Rect(2484, 12468, 2868, 11100),
        level_pos: Rect(3600, 11600, 3780, 11170),
        panel_pos: Rect(1000, 15000, 8000, 10900),
        sub_stat1_pos: Rect(3981, 13430, 4273, 11302),
        sub_stat2_pos: Rect(4273, 13430, 4582, 11302),
        sub_stat3_pos: Rect(4582, 13430, 4909, 11302),
        sub_stat4_pos: Rect(4909, 13430, 5230, 11302),
        sub_stat1_name_pos: Rect(0, 0, 0, 0),
        sub_stat1_value_pos: Rect(0, 0, 0, 0),
        sub_stat2_name_pos: Rect(0, 0, 0, 0),
        sub_stat2_value_pos: Rect(0, 0, 0, 0),
        sub_stat3_name_pos: Rect(0, 0, 0, 0),
        sub_stat3_value_pos: Rect(0, 0, 0, 0),
        sub_stat4_name_pos: Rect(0, 0, 0, 0),
        sub_stat4_value_pos: Rect(0, 0, 0, 0),
        equip_pos: Rect(7626, 13894, 7878, 11549),
        art_count_pos: Rect(271, 15047, 529, 13149),
        art_width: 1020,
        art_height: 1260,
        art_gap_x: 200,
        art_gap_y: 200,
        art_row: 5,
        art_col: 8,
        left_margin: 980,
        top_margin: 1000,
        flag_x: 2711,
        flag_y: 898,
        star_x: 3794,
        star_y: 239,
        lock_x: 14500,
        lock_y: 3570,
        art_lock_x: 120,
        art_lock_y: 140,
        ruler_left: 2720,
        ruler_top: 1020,
        ruler_height: 1230,
        menu_x: 5400,
        menu_y: 500,
        scrollbar_left: 10740,
        scrollbar_top: 1080,
        scrollbar_height: 6680,
        art_shift_x: 1220,
        art_shift_y: 1460,
    }
}

/// The reference layout of the relic panel at 16:9, 1600 by 900 reference
/// pixels.
pub open spec fn layout_16_9_starrail() -> WindowInfo {
    WindowInfo {
        width: 16000,
        height: 9000,
        title_pos: Rect(1110, 14000, 1320, 11690),
        main_stat_name_pos: Rect(3350, 14070, 3550, 12070),
        main_stat_value_pos: Rect(3350, 15350, 3550, 14650),
        level_pos: Rect(2580, 12400, 2850, 11700),
        panel_pos: Rect(1000, 15500, 7800, 11500),
        sub_stat1_pos: Rect(0, 0, 0, 0),
        sub_stat2_pos: Rect(0, 0, 0, 0),
        sub_stat3_pos: Rect(0, 0, 0, 0),
        sub_stat4_pos: Rect(0, 0, 0, 0),
        sub_stat1_name_pos: Rect(3700, 13690, 3920, 12040),
        sub_stat1_value_pos: Rect(3700, 15340, 3920, 13800),
        sub_stat2_name_pos: Rect(4020, 13690, 4250, 12040),
        sub_stat2_value_pos: Rect(4020, 15340, 4250, 13800),
        sub_stat3_name_pos: Rect(4350, 13690, 4580, 12040),
        sub_stat3_value_pos: Rect(4350, 15340, 4580, 13800),
        sub_stat4_name_pos: Rect(4670, 13690, 4890, 12040),
        sub_stat4_value_pos: Rect(4670, 15340, 4890, 13800),
        equip_pos: Rect(7410, 13400, 7750, 13050),
        art_count_pos: Rect(8130, 9600, 8360, 7530),
        art_width: 960,
        art_height: 1120,
        art_gap_x: 80,
        art_gap_y: 120,
        art_row: 5,
        art_col: 9,
        left_margin: 1080,
        top_margin: 1660,
        flag_x: 2700,
        flag_y: 1580,
        star_x: 3830,
        star_y: 380,
        lock_x: 15100,
        lock_y: 2710,
        art_lock_x: 890,
        art_lock_y: 720,
        ruler_left: 2700,
        ruler_top: 1660,
        ruler_height: 1120,
        menu_x: 6900,
        menu_y: 500,
        scrollbar_left: 11270,
        scrollbar_top: 1660,
        scrollbar_height: 6100,
        art_shift_x: 1040,
        art_shift_y: 1240,
    }
}

/// The reference layout of the relic panel at 16:9, 1600 by 900 reference
/// pixels.
pub fn window_16_9_starrail() -> (l: WindowInfo)
    ensures
        l == layout_16_9_starrail(),
        l.wf(),
        l.ordered(),
        l.width == 16000,
        l.height == 9000,
{
    WindowInfo {
        width: 16000,
        height: 9000,
        title_pos: Rect(1110, 14000, 1320, 11690),
        main_stat_name_pos: Rect(3350, 14070, 3550, 12070),
        main_stat_value_pos: Rect(3350, 15350, 3550, 14650),
        level_pos: Rect(2580, 12400, 2850, 11700),
        panel_pos: Rect(1000, 15500, 7800, 11500),
        sub_stat1_pos: Rect(0, 0, 0, 0),
        sub_stat2_pos: Rect(0, 0, 0, 0),
        sub_stat3_pos: Rect(0, 0, 0, 0),
        sub_stat4_pos: Rect(0, 0, 0, 0),
        sub_stat1_name_pos: Rect(3700, 13690, 3920, 12040),
        sub_stat1_value_pos: Rect(3700, 15340, 3920, 13800),
        sub_stat2_name_pos: Rect(4020, 13690, 4250, 12040),
        sub_stat2_value_pos: Rect(4020, 15340, 4250, 13800),
        sub_stat3_name_pos: Rect(4350, 13690, 4580, 12040),
        sub_stat3_value_pos: Rect(4350, 15340, 4580, 13800),
        sub_stat4_name_pos: Rect(4670, 13690, 4890, 12040),
        sub_stat4_value_pos: Rect(4670, 15340, 4890, 13800),
        equip_pos: Rect(7410, 13400, 7750, 13050),
        art_count_pos: Rect(8130, 9600, 8360, 7530),
        art_width: 960,
        art_height: 1120,
        art_gap_x: 80,
        art_gap_y: 120,
        art_row: 5,
        art_col: 9,
        left_margin: 1080,
        top_margin: 1660,
        flag_x: 2700,
        flag_y: 1580,
        star_x: 3830,
        star_y: 380,
        lock_x: 15100,
        lock_y: 2710,
        art_lock_x: 890,
        art_lock_y: 720,
        ruler_left: 2700,
        ruler_top: 1660,
        ruler_height: 1120,
        menu_x: 6900,
        menu_y: 500,
        scrollbar_left: 11270,
        scrollbar_top: 1660,
        scrollbar_height: 6100,
        art_shift_x: 1040,
        art_shift_y: 1240,
    }
}

} // verus!
