use vstd::prelude::*;

verus! {

/// glib's code for little-endian byte order.
pub const LITTLE_ENDIAN_CODE: i32 = 1234;

/// glib's code for big-endian byte order.
pub const BIG_ENDIAN_CODE: i32 = 4321;

/// Byte order of pixel data.
#[derive(Debug, Clone, Copy, PartialEq, Eq, Structural)]
pub enum ByteOrder {
    LittleEndian,
    BigEndian,
}

impl ByteOrder {
    pub open spec fn spec_code(self) -> i32 {
        match self {
            ByteOrder::LittleEndian => LITTLE_ENDIAN_CODE,
            ByteOrder::BigEndian => BIG_ENDIAN_CODE,
        }
    }

    /// The order's numeric code as glib names it.
    pub fn code(&self) -> (r: i32)
        ensures
            r == self.spec_code(),
    {
        match self {
            ByteOrder::LittleEndian => LITTLE_ENDIAN_CODE,
            ByteOrder::BigEndian => BIG_ENDIAN_CODE,
        }
    }
}

/// One pixmap format the display supports: bits per pixel for a depth.
#[derive(Debug, Clone, Copy, PartialEq, Eq, Structural)]
pub struct PixmapFormat {
    pub depth: u8,
    pub bits_per_pixel: u8,
}

/// A visual of a screen with its channel masks.
#[derive(Debug, Clone, Copy, PartialEq, Eq, Structural)]
pub struct VisualType {
    pub visual_id: u32,
    pub red_mask: u32,
    pub green_mask: u32,
    pub blue_mask: u32,
}

/// A screen of the display: its root visual, and the visuals of all its
/// allowed depths in the order the server lists them.
#[derive(Debug)]
pub struct ScreenInfo {
    pub root_visual: u32,
    pub visuals: Vec<VisualType>,
}

/// The parts of the display's connection setup that decide pixel formats.
#[derive(Debug)]
pub struct DisplaySetup {
    pub bitmap_bit_order: ByteOrder,
    pub pixmap_formats: Vec<PixmapFormat>,
    pub screens: Vec<ScreenInfo>,
}

/// Depth, bits per pixel, byte order and channel masks of captured pixels.
#[derive(Debug, Clone, Copy, PartialEq, Eq, Structural)]
pub struct PixelFormat {
    pub depth: u8,
    pub bits_per_pixel: u8,
    pub byte_order: ByteOrder,
    pub red_mask: u32,
    pub green_mask: u32,
    pub blue_mask: u32,
    pub alpha_mask: u32,
}

/// Why no pixel format could be derived.
#[derive(Debug, Clone, Copy, PartialEq, Eq, Structural)]
pub enum FormatError {
    /// The display lists no pixmap format for the window's depth.
    NoPixmapFormat,
    /// The connection's screen index names no screen of the display.
    NoScreen,
    /// No visual of the screen carries the root visual's id.
    NoVisual,
}

/// The four bytes of `m` in reverse order.
pub open spec fn byte_swapped(m: u32) -> u32 {
    ((m & 0xff) << 24) | ((m & 0xff00) << 8) | ((m >> 8) & 0xff00) | (m >> 24)
}

/// Byte `k` of `m`, counting from the least significant.
pub open spec fn byte_of(m: u32, k: u32) -> u32 {
    (m >> (8 * k)) & 0xff
}

/// Reversing the bytes puts byte `3 - k` of the input at byte `k`.
pub proof fn lemma_byte_swapped_reverses(m: u32)
    ensures
        byte_of(byte_swapped(m), 0) == byte_of(m, 3),
        byte_of(byte_swapped(m), 1) == byte_of(m, 2),
        byte_of(byte_swapped(m), 2) == byte_of(m, 1),
        byte_of(byte_swapped(m), 3) == byte_of(m, 0),
{
    assert(byte_of(byte_swapped(m), 0) == byte_of(m, 3)) by (bit_vector);
    assert(byte_of(byte_swapped(m), 1) == byte_of(m, 2)) by (bit_vector);
    assert(byte_of(byte_swapped(m), 2) == byte_of(m, 1)) by (bit_vector);
    assert(byte_of(byte_swapped(m), 3) == byte_of(m, 0)) by (bit_vector);
}

/// Whether frames of this layout are rewritten into big-endian order: 24 and
/// 32 bits per pixel on a little-endian display.
pub open spec fn needs_canonical_order(bpp: u8, order: ByteOrder) -> bool {
    (bpp == 24 || bpp == 32) && order == ByteOrder::LittleEndian
}

/// A raw visual mask in the canonical byte order: byte-swapped when the layout
/// is rewritten, and then moved down one byte for a three-byte pixel.
pub open spec fn canonical_mask(m: u32, bpp: u8, order: ByteOrder) -> u32 {
    if needs_canonical_order(bpp, order) {
        if bpp == 24 {
            byte_swapped(m) >> 8
        } else {
            byte_swapped(m)
        }
    } else {
        m
    }
}

/// The alpha mask: every bit that no colour channel uses at 32 bits per pixel,
/// none otherwise.
pub open spec fn alpha_mask_for(bpp: u8, r: u32, g: u32, b: u32) -> u32 {
    if bpp == 32 {
        !(r | g | b)
    } else {
        0
    }
}

/// Whether `i` is the first pixmap format listed for `depth`.
pub open spec fn first_pixmap_match(formats: Seq<PixmapFormat>, depth: u8, i: int) -> bool {
    &&& 0 <= i < formats.len()
    &&& formats[i].depth == depth
    &&& forall|j: int| 0 <= j < i ==> formats[j].depth != depth
}

/// Whether `i` is the first visual listed with id `id`.
pub open spec fn first_visual_match(visuals: Seq<VisualType>, id: u32, i: int) -> bool {
    &&& 0 <= i < visuals.len()
    &&& visuals[i].visual_id == id
    &&& forall|j: int| 0 <= j < i ==> visuals[j].visual_id != id
}

/// The pixel format derived from the bits per pixel, the display's order and
/// the root visual's raw masks.
pub open spec fn spec_pixel_format(
    depth: u8,
    bpp: u8,
    order: ByteOrder,
    visual: VisualType,
) -> PixelFormat {
    let r = canonical_mask(visual.red_mask, bpp, order);
    let g = canonical_mask(visual.green_mask, bpp, order);
    let b = canonical_mask(visual.blue_mask, bpp, order);
    PixelFormat {
        depth,
        bits_per_pixel: bpp,
        byte_order: if needs_canonical_order(bpp, order) {
            ByteOrder::BigEndian
        } else {
            order
        },
        red_mask: r,
        green_mask: g,
        blue_mask: b,
        alpha_mask: alpha_mask_for(bpp, r, g, b),
    }
}

fn swap_bytes(m: u32) -> (r: u32)
    ensures
        r == byte_swapped(m),
{
    ((m & 0xff) << 24) | ((m & 0xff00) << 8) | ((m >> 8) & 0xff00) | (m >> 24)
}

fn canonicalize(m: u32, bpp: u8, order: ByteOrder) -> (r: u32)
    ensures
        r == canonical_mask(m, bpp, order),
{
    if (bpp == 24 || bpp == 32) && order == ByteOrder::LittleEndian {
        if bpp == 24 {
            swap_bytes(m) >> 8
        } else {
            swap_bytes(m)
        }
    } else {
        m
    }
}

/// Builds the pixel format from the bits per pixel, the display's order and
/// the visual's raw masks.
pub fn pixel_format(depth: u8, bpp: u8, order: ByteOrder, visual: &VisualType) -> (r: PixelFormat)
    ensures
        r == spec_pixel_format(depth, bpp, order, *visual),
        needs_canonical_order(bpp, order) ==> r.byte_order == ByteOrder::BigEndian,
{
    let r = canonicalize(visual.red_mask, bpp, order);
    let g = canonicalize(visual.green_mask, bpp, order);
    let b = canonicalize(visual.blue_mask, bpp, order);
    let canonical = (bpp == 24 || bpp == 32) && order == ByteOrder::LittleEndian;
    PixelFormat {
        depth,
        bits_per_pixel: bpp,
        byte_order: if canonical {
            ByteOrder::BigEndian
        } else {
            order
        },
        red_mask: r,
        green_mask: g,
        blue_mask: b,
        alpha_mask: if bpp == 32 {
            !(r | g | b)
        } else {
            0
        },
    }
}

/// The bits per pixel of the first pixmap format listed for `depth`.
pub open spec fn spec_bits_per_pixel(formats: Seq<PixmapFormat>, depth: u8) -> Option<u8> {
    if exists|i: int| first_pixmap_match(formats, depth, i) {
        Some(formats[choose|i: int| first_pixmap_match(formats, depth, i)].bits_per_pixel)
    } else {
        None
    }
}

/// The first visual listed with id `id`.
pub open spec fn spec_visual(visuals: Seq<VisualType>, id: u32) -> Option<VisualType> {
    if exists|i: int| first_visual_match(visuals, id, i) {
        Some(visuals[choose|i: int| first_visual_match(visuals, id, i)])
    } else {
        None
    }
}

/// Whether `screen_num` names a screen of `setup`.
pub open spec fn screen_exists(setup: &DisplaySetup, screen_num: i32) -> bool {
    0 <= screen_num < setup.screens@.len()
}

/// The pixel format of a window of depth `depth` on screen `screen_num`.
pub open spec fn spec_resolve_format(setup: &DisplaySetup, screen_num: i32, depth: u8) -> Result<
    PixelFormat,
    FormatError,
> {
    match spec_bits_per_pixel(setup.pixmap_formats@, depth) {
        None => Err(FormatError::NoPixmapFormat),
        Some(bpp) => if !screen_exists(setup, screen_num) {
            Err(FormatError::NoScreen)
        } else {
            let screen = setup.screens@[screen_num as int];
            match spec_visual(screen.visuals@, screen.root_visual) {
                None => Err(FormatError::NoVisual),
                Some(v) => Ok(spec_pixel_format(depth, bpp, setup.bitmap_bit_order, v)),
            }
        },
    }
}

/// The bits per pixel of the first pixmap format listed for `depth`.
pub fn bits_per_pixel_for(formats: &Vec<PixmapFormat>, depth: u8) -> (r: Option<u8>)
    ensures
        r == spec_bits_per_pixel(formats@, depth),
        r is None <==> forall|i: int| 0 <= i < formats@.len() ==> formats@[i].depth != depth,
{
    let mut i: usize = 0;
    while i < formats.len()
        invariant
            0 <= i <= formats@.len(),
            forall|j: int| 0 <= j < i ==> formats@[j].depth != depth,
        decreases formats@.len() - i,
    {
        if formats[i].depth == depth {
            proof {
                assert(first_pixmap_match(formats@, depth, i as int));
                let k = choose|k: int| first_pixmap_match(formats@, depth, k);
                if k > i as int {
                    assert(formats@[i as int].depth != depth);
                }
                assert(k == i as int);
            }
            return Some(formats[i].bits_per_pixel);
        }
        i = i + 1;
    }
    None
}

/// The first visual listed with id `id`.
pub fn find_visual(visuals: &Vec<VisualType>, id: u32) -> (r: Option<VisualType>)
    ensures
        r == spec_visual(visuals@, id),
        r is None <==> forall|i: int| 0 <= i < visuals@.len() ==> visuals@[i].visual_id != id,
{
    let mut i: usize = 0;
    while i < visuals.len()
        invariant
            0 <= i <= visuals@.len(),
            forall|j: int| 0 <= j < i ==> visuals@[j].visual_id != id,
        decreases visuals@.len() - i,
    {
        if visuals[i].visual_id == id {
            proof {
                assert(first_visual_match(visuals@, id, i as int));
                let k = choose|k: int| first_visual_match(visuals@, id, k);
                if k > i as int {
                    assert(visuals@[i as int].visual_id != id);
                }
                assert(k == i as int);
            }
            return Some(visuals[i]);
        }
        i = i + 1;
    }
    None
}

/// Derives the pixel format of a window of depth `depth` on screen
/// `screen_num`: bits per pixel from the first pixmap format of that depth,
/// channel masks from the first visual carrying the screen's root visual id,
/// both rewritten into the canonical byte order where the layout calls for it.
pub fn resolve_format(setup: &DisplaySetup, screen_num: i32, depth: u8) -> (r: Result<
    PixelFormat,
    FormatError,
>)
    ensures
        r == spec_resolve_format(setup, screen_num, depth),
{
    let bpp = match bits_per_pixel_for(&setup.pixmap_formats, depth) {
        Some(b) => b,
        None => return Err(FormatError::NoPixmapFormat),
    };
    if screen_num < 0 || screen_num as usize >= setup.screens.len() {
        return Err(FormatError::NoScreen);
    }
    let screen = &setup.screens[screen_num as usize];
    let visual = match find_visual(&screen.visuals, screen.root_visual) {
        Some(v) => v,
        None => return Err(FormatError::NoVisual),
    };
    Ok(pixel_format(depth, bpp, setup.bitmap_bit_order, &visual))
}

/// At 24 or 32 bits per pixel on a little-endian display, the format is
/// reported big-endian with each colour mask byte-swapped, and moved down one
/// byte more at 24 bits per pixel.
pub proof fn lemma_little_endian_is_canonicalized(depth: u8, bpp: u8, visual: VisualType)
    requires
        bpp == 24 || bpp == 32,
    ensures
        ({
            let f = spec_pixel_format(depth, bpp, ByteOrder::LittleEndian, visual);
            let shift: u32 = if bpp == 24 { 8 } else { 0 };
            &&& f.byte_order == ByteOrder::BigEndian
            &&& f.red_mask == byte_swapped(visual.red_mask) >> shift
            &&& f.green_mask == byte_swapped(visual.green_mask) >> shift
            &&& f.blue_mask == byte_swapped(visual.blue_mask) >> shift
        }),
{
    let r = byte_swapped(visual.red_mask);
    let g = byte_swapped(visual.green_mask);
    let b = byte_swapped(visual.blue_mask);
    assert(r >> 0u32 == r) by (bit_vector);
    assert(g >> 0u32 == g) by (bit_vector);
    assert(b >> 0u32 == b) by (bit_vector);
}

} // verus!
