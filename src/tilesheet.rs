use vstd::prelude::*;

verus! {

/// An axis-aligned rectangle in pixels: top-left corner and size.
#[derive(Clone, Copy, Debug, PartialEq, Eq, Structural)]
pub struct Rect {
    pub x: i32,
    pub y: i32,
    pub width: u32,
    pub height: u32,
}

impl Rect {
    pub fn new(x: i32, y: i32, width: u32, height: u32) -> (r: Rect)
        ensures
            r == (Rect { x, y, width, height }),
    {
        Rect { x, y, width, height }
    }
}

/// Failures of loading a map and its tilesheet.
#[derive(Debug, PartialEq, Eq)]
pub enum MapError {
    /// The map or one of its images could not be read or decoded.
    AssetLoadError(String),
    /// The map declares no tileset.
    MissingTileset,
    /// The tileset geometry leaves no whole tile in a row of the sheet.
    InvalidTilesheet,
    /// A tile rectangle lies beyond the range of pixel coordinates.
    CoordinateOutOfRange,
}

/// Number of whole tiles in one row of the sheet, or `None` when the geometry
/// gives none (a zero tile pitch, a margin wider than the sheet, or too
/// narrow a sheet).
pub open spec fn tiles_per_row_of(sheet_width: u32, margin: u32, spacing: u32, tile_width: u32) -> Option<int> {
    let pitch = tile_width + spacing;
    let usable = sheet_width + spacing - margin;
    if pitch == 0 || usable < 0 || usable / pitch == 0 {
        None
    } else {
        Some(usable / pitch)
    }
}

/// A single image cut into a grid of equal tiles, addressed by linear index.
pub struct Tilesheet {
    tilesheet_path: String,
    tile_width: u32,
    tile_height: u32,
    spacing: u32,
    margin: u32,
    sheet_width: u32,
    sheet_height: u32,
    tiles_per_row: u64,
}

impl Tilesheet {
    pub closed spec fn wf(&self) -> bool {
        tiles_per_row_of(self.sheet_width, self.margin, self.spacing, self.tile_width)
            == Some(self.tiles_per_row as int)
    }

    pub closed spec fn path(&self) -> Seq<char> {
        self.tilesheet_path@
    }

    pub closed spec fn spec_tile_width(&self) -> u32 {
        self.tile_width
    }

    pub closed spec fn spec_tile_height(&self) -> u32 {
        self.tile_height
    }

    pub closed spec fn spec_spacing(&self) -> u32 {
        self.spacing
    }

    pub closed spec fn spec_margin(&self) -> u32 {
        self.margin
    }

    /// Pixel size of the sheet image, width then height.
    pub closed spec fn spec_sheet_size(&self) -> (u32, u32) {
        (self.sheet_width, self.sheet_height)
    }

    pub closed spec fn spec_tiles_per_row(&self) -> int {
        self.tiles_per_row as int
    }

    /// Left edge of tile `id` on the sheet.
    pub open spec fn tile_x(&self, id: u32) -> int {
        (id as int % self.spec_tiles_per_row()) * self.spec_tile_width()
    }

    /// Top edge of tile `id` on the sheet.
    pub open spec fn tile_y(&self, id: u32) -> int {
        (id as int / self.spec_tiles_per_row()) * self.spec_tile_height()
    }

    /// The source rectangle of tile `id`, where its corner is a valid coordinate.
    pub open spec fn spec_tile_rect(&self, id: u32) -> Option<Rect> {
        if self.tile_x(id) <= i32::MAX && self.tile_y(id) <= i32::MAX {
            Some(
                Rect {
                    x: self.tile_x(id) as i32,
                    y: self.tile_y(id) as i32,
                    width: self.spec_tile_width(),
                    height: self.spec_tile_height(),
                },
            )
        } else {
            None
        }
    }

    /// Builds a tilesheet from a tileset's geometry and the pixel size of its
    /// image; fails with `InvalidTilesheet` exactly when no whole tile fits in
    /// a row.
    pub fn from_tileset(
        tilesheet_path: String,
        tile_width: u32,
        tile_height: u32,
        spacing: u32,
        margin: u32,
        sheet_width: u32,
        sheet_height: u32,
    ) -> (r: Result<Tilesheet, MapError>)
        ensures
            tiles_per_row_of(sheet_width, margin, spacing, tile_width) is None
                <==> r == Err::<Tilesheet, MapError>(MapError::InvalidTilesheet),
            tiles_per_row_of(sheet_width, margin, spacing, tile_width) is Some <==> r is Ok,
            r is Ok ==> {
                let t = r->Ok_0;
                &&& t.wf()
                &&& t.path() == tilesheet_path@
                &&& t.spec_tile_width() == tile_width
                &&& t.spec_tile_height() == tile_height
                &&& t.spec_spacing() == spacing
                &&& t.spec_margin() == margin
                &&& t.spec_sheet_size() == (sheet_width, sheet_height)
                &&& t.spec_tiles_per_row() == tiles_per_row_of(
                    sheet_width,
                    margin,
                    spacing,
                    tile_width,
                )->Some_0
            },
    {
        let pitch: u64 = tile_width as u64 + spacing as u64;
        let span: u64 = sheet_width as u64 + spacing as u64;
        if pitch == 0 || span < margin as u64 {
            return Err(MapError::InvalidTilesheet);
        }
        let tiles_per_row: u64 = (span - margin as u64) / pitch;
        if tiles_per_row == 0 {
            return Err(MapError::InvalidTilesheet);
        }
        Ok(
            Tilesheet {
                tilesheet_path,
                tile_width,
                tile_height,
                spacing,
                margin,
                sheet_width,
                sheet_height,
                tiles_per_row,
            },
        )
    }

    /// Sheet-space source rectangle of the tile with linear index `id`:
    /// column `id % tiles_per_row`, row `id / tiles_per_row`. An index past the
    /// last tile gives a rectangle outside the sheet; `None` only where the
    /// corner does not fit a pixel coordinate.
    pub fn tile_rect(&self, id: u32) -> (r: Option<Rect>)
        requires
            self.wf(),
        ensures
            self.spec_tiles_per_row() > 0,
            r == self.spec_tile_rect(id),
    {
        let col: u64 = id as u64 % self.tiles_per_row;
        let row: u64 = id as u64 / self.tiles_per_row;
        proof {
            vstd::arithmetic::div_mod::lemma_mod_decreases(id as nat, self.tiles_per_row as nat);
            vstd::arithmetic::div_mod::lemma_div_is_ordered_by_denominator(
                id as int,
                1,
                self.tiles_per_row as int,
            );
            lemma_product_fits(col as int, self.tile_width as int);
            lemma_product_fits(row as int, self.tile_height as int);
        }
        let x: u64 = col * self.tile_width as u64;
        let y: u64 = row * self.tile_height as u64;
        if x <= i32::MAX as u64 && y <= i32::MAX as u64 {
            Some(Rect { x: x as i32, y: y as i32, width: self.tile_width, height: self.tile_height })
        } else {
            None
        }
    }

    pub fn tilesheet_path(&self) -> (r: &String)
        ensures
            r@ == self.path(),
    {
        &self.tilesheet_path
    }

    pub fn tile_width(&self) -> (r: u32)
        ensures
            r == self.spec_tile_width(),
    {
        self.tile_width
    }

    pub fn tile_height(&self) -> (r: u32)
        ensures
            r == self.spec_tile_height(),
    {
        self.tile_height
    }

    pub fn spacing(&self) -> (r: u32)
        ensures
            r == self.spec_spacing(),
    {
        self.spacing
    }

    pub fn margin(&self) -> (r: u32)
        ensures
            r == self.spec_margin(),
    {
        self.margin
    }

    /// Pixel size of the sheet image, width then height.
    pub fn sheet_size(&self) -> (r: (u32, u32))
        ensures
            r == self.spec_sheet_size(),
    {
        (self.sheet_width, self.sheet_height)
    }

    pub fn tiles_per_row(&self) -> (r: u64)
        ensures
            r == self.spec_tiles_per_row(),
    {
        self.tiles_per_row
    }
}

/// A well-formed sheet has a positive number of tiles per row, computed from
/// its own geometry, so slicing it never divides by zero; a degenerate
/// geometry yields no sheet at all (see `Tilesheet::from_tileset`).
pub proof fn lemma_sheet_never_divides_by_zero(t: Tilesheet)
    requires
        t.wf(),
    ensures
        t.spec_tiles_per_row() > 0,
        tiles_per_row_of(t.spec_sheet_size().0, t.spec_margin(), t.spec_spacing(), t.spec_tile_width())
            == Some(t.spec_tiles_per_row()),
{
}

/// On the 256-pixel-wide sheet of 32-pixel tiles without spacing or margin,
/// there are 8 tiles per row and tile `id` sits at column `id % 8`, row
/// `id / 8`.
pub proof fn lemma_plain_sheet_rects(t: Tilesheet, id: u32)
    requires
        t.wf(),
        t.spec_tile_width() == 32,
        t.spec_tile_height() == 32,
        t.spec_spacing() == 0,
        t.spec_margin() == 0,
        t.spec_sheet_size().0 == 256,
        id < 0x100000,
    ensures
        t.spec_tiles_per_row() == 8,
        t.spec_tile_rect(id) == Some(
            Rect { x: ((id % 8) * 32) as i32, y: ((id / 8) * 32) as i32, width: 32, height: 32 },
        ),
{
    assert(t.spec_tiles_per_row() == 8);
}

/// Two factors below 2^32 have a product that fits in a `u64`.
pub proof fn lemma_product_fits(a: int, b: int)
    requires
        0 <= a <= u32::MAX,
        0 <= b <= u32::MAX,
    ensures
        0 <= a * b <= u64::MAX,
{
    assert(0 <= a * b <= u32::MAX * u32::MAX) by (nonlinear_arith)
        requires
            0 <= a <= u32::MAX,
            0 <= b <= u32::MAX,
    ;
}

} // verus!
