use vstd::prelude::*;

use crate::config::CurrentHpState;

verus! {

/// One RGBA pixel of a captured image.
#[derive(Debug, Clone, Copy, PartialEq, Eq, Structural)]
pub struct Pixel {
    pub r: u8,
    pub g: u8,
    pub b: u8,
    pub a: u8,
}

impl Pixel {
    pub open spec fn spec_full() -> Pixel {
        Pixel { r: 48, g: 199, b: 141, a: 255 }
    }

    pub open spec fn spec_danger() -> Pixel {
        Pixel { r: 210, g: 106, b: 92, a: 255 }
    }

    /// The color of the filled part of the health bar.
    pub fn full() -> (p: Pixel)
        ensures
            p == Pixel::spec_full(),
    {
        Pixel { r: 48, g: 199, b: 141, a: 255 }
    }

    /// The color of the emptied part of the health bar.
    pub fn danger() -> (p: Pixel)
        ensures
            p == Pixel::spec_danger(),
    {
        Pixel { r: 210, g: 106, b: 92, a: 255 }
    }
}

/// A pixel of either bar color.
pub open spec fn is_bar_color(p: Pixel) -> bool {
    p == Pixel::spec_full() || p == Pixel::spec_danger()
}

/// What an image holds: its size and its pixels, row after row.
pub struct ImageView {
    pub width: nat,
    pub height: nat,
    pub pixels: Seq<Pixel>,
}

impl ImageView {
    pub open spec fn in_bounds(self, x: int, y: int) -> bool {
        0 <= x < self.width && 0 <= y < self.height
    }

    pub open spec fn pixel_at(self, x: int, y: int) -> Pixel {
        self.pixels[y * self.width + x]
    }

    /// Some pixel has a bar color.
    pub open spec fn has_bar(self) -> bool {
        exists|x: int, y: int| self.in_bounds(x, y) && is_bar_color(#[trigger] self.pixel_at(x, y))
    }

    /// `(x, y)` is the first bar-colored pixel, scanning column by column and, within a
    /// column, from the top.
    pub open spec fn is_bar_start(self, x: int, y: int) -> bool {
        &&& self.in_bounds(x, y)
        &&& is_bar_color(self.pixel_at(x, y))
        &&& forall|x2: int, y2: int|
            self.in_bounds(x2, y2) && (x2 < x || (x2 == x && y2 < y)) ==> !is_bar_color(
                #[trigger] self.pixel_at(x2, y2),
            )
    }

    /// How many pixels of color `c` row `y` has in columns `from..to`.
    pub open spec fn count_color(self, y: int, from: int, to: int, c: Pixel) -> nat
        decreases to - from,
    {
        if to <= from {
            0
        } else {
            self.count_color(y, from, to - 1, c) + if self.pixel_at(to - 1, y) == c {
                1nat
            } else {
                0nat
            }
        }
    }

    /// Row `y` in columns `from..to` read as a bar: 1 for each full pixel, 0 for each
    /// danger pixel, other pixels left out.
    pub open spec fn bar_from(self, y: int, from: int, to: int) -> Seq<u8>
        decreases to - from,
    {
        if to <= from {
            Seq::empty()
        } else {
            let p = self.pixel_at(to - 1, y);
            let rest = self.bar_from(y, from, to - 1);
            if p == Pixel::spec_full() {
                rest.push(1u8)
            } else if p == Pixel::spec_danger() {
                rest.push(0u8)
            } else {
                rest
            }
        }
    }
}

/// A captured image of `width` by `height` pixels, stored row after row.
pub struct Image {
    width: u32,
    height: u32,
    pixels: Vec<Pixel>,
}

impl View for Image {
    type V = ImageView;

    closed spec fn view(&self) -> ImageView {
        ImageView { width: self.width as nat, height: self.height as nat, pixels: self.pixels@ }
    }
}

proof fn lemma_index_in_bounds(x: int, y: int, w: int, h: int)
    requires
        0 <= x < w,
        0 <= y < h,
    ensures
        0 <= y * w + x < w * h,
        y * w <= w * h,
{
    assert(0 <= y * w + x < w * h && y * w <= w * h) by (nonlinear_arith)
        requires
            0 <= x < w,
            0 <= y < h,
    ;
}

impl Image {
    #[verifier::type_invariant]
    spec fn inv(self) -> bool {
        self.pixels@.len() == self.width * self.height
    }

    /// An image from its rows of pixels; `None` where `pixels` does not hold exactly
    /// `width * height` of them.
    pub fn from_pixels(width: u32, height: u32, pixels: Vec<Pixel>) -> (r: Option<Image>)
        ensures
            pixels@.len() == width * height <==> r.is_some(),
            r.is_some() ==> r.unwrap()@ == (ImageView {
                width: width as nat,
                height: height as nat,
                pixels: pixels@,
            }),
    {
        proof {
            assert((width as int) * (height as int) <= 0xffff_ffff * 0xffff_ffff) by (nonlinear_arith)
                requires
                    width <= 0xffff_ffff,
                    height <= 0xffff_ffff,
            ;
        }
        if (width as u64) * (height as u64) == pixels.len() as u64 {
            Some(Image { width, height, pixels })
        } else {
            None
        }
    }

    pub fn width(&self) -> (r: u32)
        ensures
            r == self@.width,
    {
        self.width
    }

    pub fn height(&self) -> (r: u32)
        ensures
            r == self@.height,
    {
        self.height
    }

    /// The pixel in column `x` of row `y`.
    pub fn get_pixel(&self, x: u32, y: u32) -> (p: Pixel)
        requires
            self@.in_bounds(x as int, y as int),
        ensures
            p == self@.pixel_at(x as int, y as int),
    {
        proof {
            use_type_invariant(self);
            lemma_index_in_bounds(x as int, y as int, self.width as int, self.height as int);
        }
        let len: usize = self.pixels.len();
        assert(len == (self.width as int) * (self.height as int));
        let i: usize = (y as usize) * (self.width as usize) + (x as usize);
        self.pixels[i]
    }
}

/// How many entries of a bar read as full.
pub open spec fn ones(bar: Seq<u8>) -> nat
    decreases bar.len(),
{
    if bar.len() == 0 {
        0
    } else {
        ones(bar.drop_last()) + if bar.last() == 1 {
            1nat
        } else {
            0nat
        }
    }
}

/// The reading for a bar: the share of full entries, or no bar where it is empty.
pub open spec fn spec_hp_of_bar(bar: Seq<u8>) -> CurrentHpState {
    if bar.len() == 0 {
        CurrentHpState::BarNotFound
    } else {
        CurrentHpState::Hp { full: ones(bar) as u32, total: bar.len() as u32 }
    }
}

/// The reading for a bar row with `full` full and `danger` danger pixels.
pub open spec fn hp_from_counts(full: nat, danger: nat) -> CurrentHpState {
    if full + danger == 0 {
        CurrentHpState::BarNotFound
    } else {
        CurrentHpState::Hp { full: full as u32, total: (full + danger) as u32 }
    }
}

/// The reading for an image: where it shows a bar, the share of full pixels among the
/// bar-colored ones on the row of the first bar pixel, from its column to the right edge.
pub open spec fn spec_hp_of_image(img: ImageView) -> CurrentHpState {
    if img.has_bar() {
        let (x, y) = choose|x: int, y: int| img.is_bar_start(x, y);
        hp_from_counts(
            img.count_color(y, x, img.width as int, Pixel::spec_full()),
            img.count_color(y, x, img.width as int, Pixel::spec_danger()),
        )
    } else {
        CurrentHpState::BarNotFound
    }
}

/// There is only one first bar pixel.
pub proof fn lemma_bar_start_unique(img: ImageView, x1: int, y1: int, x2: int, y2: int)
    requires
        img.is_bar_start(x1, y1),
        img.is_bar_start(x2, y2),
    ensures
        x1 == x2 && y1 == y2,
{
    if x1 < x2 || (x1 == x2 && y1 < y2) {
        assert(!is_bar_color(img.pixel_at(x1, y1)));
    } else if x2 < x1 || (x1 == x2 && y2 < y1) {
        assert(!is_bar_color(img.pixel_at(x2, y2)));
    }
}

/// Where the bar row, from the first bar pixel to the right edge, holds `g` full and `d`
/// danger pixels with `g + d > 0`, the reading is exactly `100 * g / (g + d)` percent.
pub proof fn lemma_hp_is_full_share(img: ImageView, x: int, y: int, g: nat, d: nat)
    requires
        img.width <= u32::MAX,
        img.is_bar_start(x, y),
        g == img.count_color(y, x, img.width as int, Pixel::spec_full()),
        d == img.count_color(y, x, img.width as int, Pixel::spec_danger()),
        g + d > 0,
    ensures
        g + d <= u32::MAX,
        spec_hp_of_image(img) == (CurrentHpState::Hp { full: g as u32, total: (g + d) as u32 }),
{
    let (x1, y1) = choose|x1: int, y1: int| img.is_bar_start(x1, y1);
    lemma_bar_start_unique(img, x, y, x1, y1);
    lemma_bar_counts(img, y, x, img.width as int);
    lemma_bar_len_bound(img, y, x, img.width as int);
}

/// Reading a row as a bar keeps one entry per full pixel and one per danger pixel.
proof fn lemma_bar_counts(img: ImageView, y: int, from: int, to: int)
    ensures
        img.bar_from(y, from, to).len() == img.count_color(y, from, to, Pixel::spec_full())
            + img.count_color(y, from, to, Pixel::spec_danger()),
        ones(img.bar_from(y, from, to)) == img.count_color(y, from, to, Pixel::spec_full()),
    decreases to - from,
{
    if from < to {
        lemma_bar_counts(img, y, from, to - 1);
        let rest = img.bar_from(y, from, to - 1);
        assert(rest.push(1u8).drop_last() =~= rest);
        assert(rest.push(0u8).drop_last() =~= rest);
    }
}

proof fn lemma_bar_len_bound(img: ImageView, y: int, from: int, to: int)
    requires
        from <= to,
    ensures
        img.bar_from(y, from, to).len() <= to - from,
    decreases to - from,
{
    if from < to {
        lemma_bar_len_bound(img, y, from, to - 1);
    }
}

/// The reading for a bar: full entries out of all entries.
pub fn hp_of_bar(bar: &Vec<u8>) -> (r: CurrentHpState)
    requires
        bar@.len() <= u32::MAX,
    ensures
        r == spec_hp_of_bar(bar@),
        r.wf(),
{
    let len = bar.len();
    if len == 0 {
        return CurrentHpState::BarNotFound;
    }
    let mut full: u32 = 0;
    let mut i: usize = 0;
    while i < len
        invariant
            len == bar@.len(),
            len <= u32::MAX,
            i <= len,
            full == ones(bar@.subrange(0, i as int)),
            full <= i,
        decreases len - i,
    {
        assert(bar@.subrange(0, i + 1).drop_last() =~= bar@.subrange(0, i as int));
        if bar[i] == 1 {
            full += 1;
        }
        i += 1;
    }
    assert(bar@.subrange(0, len as int) =~= bar@);
    CurrentHpState::Hp { full, total: len as u32 }
}

/// The first bar-colored pixel, column by column and top to bottom within a column.
pub fn find_hp_bar_start(image: &Image) -> (r: Option<(u32, u32)>)
    ensures
        r.is_none() <==> !image@.has_bar(),
        r.is_some() ==> image@.is_bar_start(r.unwrap().0 as int, r.unwrap().1 as int),
{
    let width = image.width();
    let height = image.height();
    let full = Pixel::full();
    let danger = Pixel::danger();
    let mut x: u32 = 0;
    while x < width
        invariant
            x <= width,
            width == image@.width,
            height == image@.height,
            full == Pixel::spec_full(),
            danger == Pixel::spec_danger(),
            forall|x2: int, y2: int|
                image@.in_bounds(x2, y2) && x2 < x ==> !is_bar_color(
                    #[trigger] image@.pixel_at(x2, y2),
                ),
        decreases width - x,
    {
        let mut y: u32 = 0;
        while y < height
            invariant
                x < width,
                y <= height,
                width == image@.width,
                height == image@.height,
                full == Pixel::spec_full(),
                danger == Pixel::spec_danger(),
                forall|x2: int, y2: int|
                    image@.in_bounds(x2, y2) && (x2 < x || (x2 == x && y2 < y)) ==> !is_bar_color(
                        #[trigger] image@.pixel_at(x2, y2),
                    ),
            decreases height - y,
        {
            let p = image.get_pixel(x, y);
            if p == full || p == danger {
                return Some((x, y));
            }
            y += 1;
        }
        x += 1;
    }
    None
}

/// The bar row read from its first pixel to the right edge: 1 for each full pixel,
/// 0 for each danger pixel; `None` where the image shows no bar.
pub fn get_hp_bar(image: &Image) -> (r: Option<Vec<u8>>)
    ensures
        r.is_none() <==> !image@.has_bar(),
        r.is_some() ==> r.unwrap()@.len() <= image@.width,
        r.is_some() ==> exists|x: int, y: int| image@.is_bar_start(x, y),
        forall|x: int, y: int|
            #![trigger image@.is_bar_start(x, y)]
            image@.is_bar_start(x, y) ==> r.is_some() && r.unwrap()@ == image@.bar_from(
                y,
                x,
                image@.width as int,
            ),
{
    let start = find_hp_bar_start(image);
    let (x0, y) = match start {
        Some(coords) => coords,
        None => {
            return None;
        },
    };
    let width = image.width();
    let full = Pixel::full();
    let danger = Pixel::danger();
    let mut bar: Vec<u8> = Vec::new();
    let mut x: u32 = x0;
    while x < width
        invariant
            x0 <= x <= width,
            width == image@.width,
            (y as int) < image@.height,
            full == Pixel::spec_full(),
            danger == Pixel::spec_danger(),
            bar@ == image@.bar_from(y as int, x0 as int, x as int),
        decreases width - x,
    {
        let p = image.get_pixel(x, y);
        if p == full {
            bar.push(1);
        } else if p == danger {
            bar.push(0);
        }
        x += 1;
    }
    proof {
        assert forall|x1: int, y1: int| image@.is_bar_start(x1, y1) implies x1 == x0 && y1 == y by {
            lemma_bar_start_unique(image@, x1, y1, x0 as int, y as int);
        }
        lemma_bar_len_bound(image@, y as int, x0 as int, width as int);
    }
    Some(bar)
}

/// The reading for a captured image: of the bar-colored pixels on the row of the first one,
/// from its column to the right edge, the share in the full color.
pub fn hp_of_image(image: &Image) -> (r: CurrentHpState)
    ensures
        r == spec_hp_of_image(image@),
        !image@.has_bar() ==> r == CurrentHpState::BarNotFound,
        r.wf(),
{
    match get_hp_bar(image) {
        Some(bar) => {
            let r = hp_of_bar(&bar);
            proof {
                assert forall|x: int, y: int| #[trigger] image@.is_bar_start(x, y) implies r
                    == hp_from_counts(
                    image@.count_color(y, x, image@.width as int, Pixel::spec_full()),
                    image@.count_color(y, x, image@.width as int, Pixel::spec_danger()),
                ) by {
                    lemma_bar_counts(image@, y, x, image@.width as int);
                }
                let (x, y) = choose|x: int, y: int| image@.is_bar_start(x, y);
                assert(image@.is_bar_start(x, y));
            }
            r
        },
        None => CurrentHpState::BarNotFound,
    }
}

/// A window's bounds on screen, in pixels.
#[derive(Debug, Clone, Copy, PartialEq, Eq, Structural)]
pub struct Rect {
    pub left: i32,
    pub top: i32,
    pub right: i32,
    pub bottom: i32,
}

/// Margins cut from a window's bounds to leave out its border: left, top, and the total
/// taken from the width and from the height.
pub const LEFT_MARGIN: i32 = 5;
pub const TOP_MARGIN: i32 = 10;
pub const WIDTH_MARGIN: i64 = 10;
pub const HEIGHT_MARGIN: i64 = 18;

/// What to capture for a health sample.
#[derive(Debug, Clone, Copy, PartialEq, Eq, Structural)]
pub enum CaptureArea {
    /// No window was found: the whole screen.
    FullScreen,
    /// The inside of the window.
    Region { x: i32, y: i32, width: u32, height: u32 },
    /// The window's bounds leave no region inside its border: narrower or lower than the
    /// border itself, or so far right or down that the region's corner leaves `i32`.
    TooSmall,
}

/// The area to capture for the window bounds `geometry`.
pub open spec fn spec_capture_area(geometry: Option<Rect>) -> CaptureArea {
    match geometry {
        None => CaptureArea::FullScreen,
        Some(rect) => {
            let x = rect.left + LEFT_MARGIN;
            let y = rect.top + TOP_MARGIN;
            let width = rect.right - rect.left - WIDTH_MARGIN;
            let height = rect.bottom - rect.top - HEIGHT_MARGIN;
            if x <= i32::MAX && y <= i32::MAX && width >= 0 && height >= 0 {
                CaptureArea::Region {
                    x: x as i32,
                    y: y as i32,
                    width: width as u32,
                    height: height as u32,
                }
            } else {
                CaptureArea::TooSmall
            }
        },
    }
}

/// Finds the game window and reads its health bar.
pub struct HpBarFinder {
    window_name: String,
    geometry: Option<Rect>,
}

impl HpBarFinder {
    pub closed spec fn spec_window_name(&self) -> Seq<char> {
        self.window_name@
    }

    pub closed spec fn spec_geometry(&self) -> Option<Rect> {
        self.geometry
    }

    /// A finder for the window titled `window_name`, not found yet.
    pub fn new(window_name: &str) -> (r: HpBarFinder)
        ensures
            r.spec_window_name() == window_name@,
            r.spec_geometry().is_none(),
    {
        HpBarFinder { window_name: window_name.to_string(), geometry: None }
    }

    /// The title of the window looked for.
    pub fn window_name(&self) -> (r: &str)
        ensures
            r@ == self.spec_window_name(),
    {
        self.window_name.as_str()
    }

    /// Records the window bounds of the latest lookup, `None` where no window was found.
    pub fn set_geometry(&mut self, geometry: Option<Rect>)
        ensures
            final(self).spec_geometry() == geometry,
            final(self).spec_window_name() == old(self).spec_window_name(),
    {
        self.geometry = geometry;
    }

    pub fn window_was_found(&self) -> (r: bool)
        ensures
            r == self.spec_geometry().is_some(),
    {
        self.geometry.is_some()
    }

    /// The area to capture: the window inside its border, or the whole screen where no
    /// window was found.
    pub fn capture_area(&self) -> (r: CaptureArea)
        ensures
            r == spec_capture_area(self.spec_geometry()),
    {
        match self.geometry {
            None => CaptureArea::FullScreen,
            Some(rect) => {
                let x: i64 = rect.left as i64 + LEFT_MARGIN as i64;
                let y: i64 = rect.top as i64 + TOP_MARGIN as i64;
                let width: i64 = rect.right as i64 - rect.left as i64 - WIDTH_MARGIN;
                let height: i64 = rect.bottom as i64 - rect.top as i64 - HEIGHT_MARGIN;
                if x <= i32::MAX as i64 && y <= i32::MAX as i64 && width >= 0 && height >= 0 {
                    CaptureArea::Region {
                        x: x as i32,
                        y: y as i32,
                        width: width as u32,
                        height: height as u32,
                    }
                } else {
                    CaptureArea::TooSmall
                }
            },
        }
    }

    /// The health reading of an image captured from `capture_area`.
    pub fn get_hp(&self, image: &Image) -> (r: CurrentHpState)
        ensures
            r == spec_hp_of_image(image@),
            r.wf(),
    {
        hp_of_image(image)
    }
}

} // verus!
