use vstd::prelude::*;

verus! {

/// The glyph atlas: one single-channel, 8-bit image of fixed dimensions. The
/// image itself lives on the device; this model tracks the dimensions and, as
/// ghost state, the pixel contents, so uploads can be proved to put the right
/// bytes at the right place. The layout engine is the sole authority on which
/// sub-rectangle holds which bitmap; this component only executes uploads.
pub struct AtlasCache {
    width: u32,
    height: u32,
    contents: Ghost<Seq<Seq<u8>>>,
}

/// One host-to-image copy: a `width` by `height` rectangle of single-channel
/// bytes placed at `(x, y)`, rows packed with no alignment padding
/// (`row_pitch == width`).
#[derive(Clone, Copy, Debug, PartialEq, Eq, Structural)]
pub struct UploadCmd {
    pub x: u32,
    pub y: u32,
    pub width: u32,
    pub height: u32,
    pub row_pitch: u32,
}

/// The atlas rows after copying `data` (row-major, `w` by `h`) to `(x, y)`:
/// the new bytes inside the rectangle, the old ones everywhere else.
pub open spec fn upload_region(
    rows: Seq<Seq<u8>>,
    x: int,
    y: int,
    w: int,
    h: int,
    data: Seq<u8>,
) -> Seq<Seq<u8>> {
    Seq::new(
        rows.len(),
        |r: int|
            if y <= r < y + h {
                Seq::new(
                    rows[r].len(),
                    |c: int|
                        if x <= c < x + w {
                            data[(r - y) * w + (c - x)]
                        } else {
                            rows[r][c]
                        },
                )
            } else {
                rows[r]
            },
    )
}

impl View for AtlasCache {
    type V = Seq<Seq<u8>>;

    /// The modeled pixel contents, by rows.
    closed spec fn view(&self) -> Seq<Seq<u8>> {
        self.contents@
    }
}

impl AtlasCache {
    /// The contents are rectangular and match the fixed dimensions.
    pub open spec fn wf(self) -> bool {
        &&& self@.len() == self.spec_height() as int
        &&& forall|r: int|
            0 <= r < self@.len() ==> #[trigger] self@[r].len() == self.spec_width() as int
    }

    pub closed spec fn spec_width(self) -> u32 {
        self.width
    }

    pub closed spec fn spec_height(self) -> u32 {
        self.height
    }

    /// A fresh atlas. The dimensions are fixed for the life of the cache:
    /// the atlas is never resized.
    pub fn new(width: u32, height: u32) -> (r: AtlasCache)
        requires
            width > 0,
            height > 0,
        ensures
            r.wf(),
            r.spec_width() == width,
            r.spec_height() == height,
    {
        AtlasCache {
            width,
            height,
            contents: Ghost(Seq::new(height as nat, |r: int| Seq::new(width as nat, |c: int| 0u8))),
        }
    }

    pub fn width(&self) -> (w: u32)
        ensures
            w == self.spec_width(),
    {
        self.width
    }

    pub fn height(&self) -> (h: u32)
        ensures
            h == self.spec_height(),
    {
        self.height
    }

    /// Record a rectangular upload: `data` is a `w` by `h` single-channel
    /// bitmap, row-major with rows of exactly `w` bytes and no padding.
    /// Returns the copy command the host layer executes against the device
    /// image. Safe to call several times per frame; each call overwrites
    /// exactly its own rectangle.
    pub fn upload(&mut self, x: u32, y: u32, w: u32, h: u32, data: &Vec<u8>) -> (cmd: UploadCmd)
        requires
            old(self).wf(),
            x + w <= old(self).spec_width(),
            y + h <= old(self).spec_height(),
            data@.len() == w * h,
        ensures
            final(self).wf(),
            final(self).spec_width() == old(self).spec_width(),
            final(self).spec_height() == old(self).spec_height(),
            final(self)@ == upload_region(old(self)@, x as int, y as int, w as int, h as int, data@),
            cmd == (UploadCmd { x, y, width: w, height: h, row_pitch: w }),
    {
        self.contents = Ghost(
            upload_region(self.contents@, x as int, y as int, w as int, h as int, data@),
        );
        UploadCmd { x, y, width: w, height: h, row_pitch: w }
    }
}

/// The most-recent-upload invariant: after an upload, the atlas holds the
/// uploaded bytes at the target rectangle and is unchanged everywhere else.
pub proof fn lemma_upload_region_contents(
    rows: Seq<Seq<u8>>,
    x: int,
    y: int,
    w: int,
    h: int,
    data: Seq<u8>,
)
    requires
        0 <= x,
        0 <= y,
        0 < w,
        0 <= h,
        data.len() == w * h,
    ensures
        forall|r: int, c: int|
            0 <= r < h && 0 <= c < w && y + r < rows.len() && x + c < rows[y + r].len()
                ==> #[trigger] upload_region(rows, x, y, w, h, data)[y + r][x + c] == data[r * w
                + c],
        forall|r: int, c: int|
            0 <= r < rows.len() && 0 <= c < rows[r].len() && !(y <= r < y + h && x <= c < x + w)
                ==> #[trigger] upload_region(rows, x, y, w, h, data)[r][c] == rows[r][c],
{
}

} // verus!
