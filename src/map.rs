use vstd::prelude::*;
use crate::tilesheet::{MapError, Rect, Tilesheet};

verus! {

/// The cells of one finite tile layer as read from a map asset: `rows[y][x]`
/// holds the tile index at grid column `x` and row `y`, or `None` for an empty
/// cell.
pub struct LayerGrid {
    pub width: u32,
    pub height: u32,
    pub rows: Vec<Vec<Option<u32>>>,
}

impl LayerGrid {
    /// Every row is there and each is as long as the layer is wide.
    pub open spec fn wf(&self) -> bool {
        &&& self.rows@.len() == self.height as int
        &&& forall|y: int| 0 <= y < self.height ==> #[trigger] self.rows@[y]@.len() == self.width as int
    }

    pub open spec fn cell(&self, x: int, y: int) -> Option<u32> {
        self.rows@[y]@[x]
    }
}

/// The draw pair for a populated cell at `(x, y)`: the tile's rectangle on the
/// sheet and the cell's rectangle on the map, each tile as large as the sheet's
/// tiles. `None` where a corner leaves the range of pixel coordinates.
pub open spec fn cell_draw(ts: Tilesheet, x: int, y: int, id: u32) -> Option<(Rect, Rect)> {
    let dx = x * ts.spec_tile_width();
    let dy = y * ts.spec_tile_height();
    match ts.spec_tile_rect(id) {
        Some(src) => if dx <= i32::MAX && dy <= i32::MAX {
            Some(
                (
                    src,
                    Rect {
                        x: dx as i32,
                        y: dy as i32,
                        width: ts.spec_tile_width(),
                        height: ts.spec_tile_height(),
                    },
                ),
            )
        } else {
            None
        },
        None => None,
    }
}

/// Tile indices and draw pairs of the populated cells that a column-major scan
/// meets before position `(x, y)`: all of columns `0..x`, each top to bottom,
/// then rows `0..y` of column `x`. `None` once a cell's pair cannot be formed.
pub open spec fn scan(ts: Tilesheet, g: LayerGrid, x: nat, y: nat) -> Option<(Seq<u32>, Seq<(Rect, Rect)>)>
    decreases x, y,
{
    if y == 0 {
        if x == 0 {
            Some((Seq::empty(), Seq::empty()))
        } else {
            scan(ts, g, (x - 1) as nat, g.height as nat)
        }
    } else {
        match scan(ts, g, x, (y - 1) as nat) {
            None => None,
            Some(acc) => match g.cell(x as int, y - 1) {
                None => Some(acc),
                Some(id) => match cell_draw(ts, x as int, y - 1, id) {
                    None => None,
                    Some(pair) => Some((acc.0.push(id), acc.1.push(pair))),
                },
            },
        }
    }
}

/// The whole layer in column-major scan order.
pub open spec fn scan_layer(ts: Tilesheet, g: LayerGrid) -> Option<(Seq<u32>, Seq<(Rect, Rect)>)> {
    scan(ts, g, g.width as nat, 0)
}

/// Once the scan has failed it stays failed at every later position.
pub proof fn lemma_scan_failure_persists(ts: Tilesheet, g: LayerGrid, x: nat, y: nat, x2: nat, y2: nat)
    requires
        scan(ts, g, x, y) is None,
        x < x2 || (x == x2 && y <= y2),
        y <= g.height,
    ensures
        scan(ts, g, x2, y2) is None,
    decreases x2, y2,
{
    if x == x2 && y == y2 {
    } else if y2 == 0 {
        lemma_scan_failure_persists(ts, g, x, y, (x2 - 1) as nat, g.height as nat);
    } else {
        lemma_scan_failure_persists(ts, g, x, y, x2, (y2 - 1) as nat);
    }
}

/// On a 2x2 layer whose cells (0,0) and (1,1) hold tiles `a` and `b` and whose
/// other two cells are empty, the draw list has exactly two entries: `a` drawn
/// at the origin, then `b` one tile right and one tile down, each taken from
/// its rectangle on the sheet. Requires that both tiles' sheet corners and the
/// tile size fit pixel coordinates.
pub proof fn lemma_sparse_two_by_two(ts: Tilesheet, g: LayerGrid, a: u32, b: u32)
    requires
        ts.wf(),
        g.wf(),
        g.width == 2,
        g.height == 2,
        g.cell(0, 0) == Some(a),
        g.cell(1, 0) is None,
        g.cell(0, 1) is None,
        g.cell(1, 1) == Some(b),
        ts.spec_tile_rect(a) is Some,
        ts.spec_tile_rect(b) is Some,
        ts.spec_tile_width() <= i32::MAX,
        ts.spec_tile_height() <= i32::MAX,
    ensures
        ({
            let tw = ts.spec_tile_width();
            let th = ts.spec_tile_height();
            scan_layer(ts, g) == Some(
                (
                    seq![a, b],
                    seq![
                        (ts.spec_tile_rect(a)->Some_0, Rect { x: 0, y: 0, width: tw, height: th }),
                        (
                            ts.spec_tile_rect(b)->Some_0,
                            Rect { x: tw as i32, y: th as i32, width: tw, height: th },
                        ),
                    ],
                ),
            )
        }),
{
    let tw = ts.spec_tile_width();
    let th = ts.spec_tile_height();
    let pa = (ts.spec_tile_rect(a)->Some_0, Rect { x: 0, y: 0, width: tw, height: th });
    let pb = (ts.spec_tile_rect(b)->Some_0, Rect { x: tw as i32, y: th as i32, width: tw, height: th });
    assert(cell_draw(ts, 0, 0, a) == Some(pa));
    assert(cell_draw(ts, 1, 1, b) == Some(pb));
    let empty = (Seq::<u32>::empty(), Seq::<(Rect, Rect)>::empty());
    assert(scan(ts, g, 0, 0) == Some(empty));
    assert(scan(ts, g, 0, 1) == Some((empty.0.push(a), empty.1.push(pa))));
    assert(scan(ts, g, 0, 2) == scan(ts, g, 0, 1));
    assert(scan(ts, g, 1, 0) == scan(ts, g, 0, 2));
    assert(scan(ts, g, 1, 1) == scan(ts, g, 1, 0));
    assert(scan(ts, g, 1, 2) == Some((empty.0.push(a).push(b), empty.1.push(pa).push(pb))));
    assert(scan(ts, g, 2, 0) == scan(ts, g, 1, 2));
    assert(empty.0.push(a).push(b) =~= seq![a, b]);
    assert(empty.1.push(pa).push(pb) =~= seq![pa, pb]);
}

/// One plane of tile placements with its precomputed draw list.
pub struct Layer {
    width: u32,
    height: u32,
    tiles_id: Vec<u32>,
    tiles: Vec<(Rect, Rect)>,
}

impl Layer {
    pub closed spec fn spec_width(&self) -> u32 {
        self.width
    }

    pub closed spec fn spec_height(&self) -> u32 {
        self.height
    }

    pub closed spec fn ids(&self) -> Seq<u32> {
        self.tiles_id@
    }

    pub closed spec fn draws(&self) -> Seq<(Rect, Rect)> {
        self.tiles@
    }

    pub fn new(width: u32, height: u32, tiles_id: Vec<u32>, tiles: Vec<(Rect, Rect)>) -> (r: Layer)
        ensures
            r.spec_width() == width,
            r.spec_height() == height,
            r.ids() == tiles_id@,
            r.draws() == tiles@,
    {
        Layer { width, height, tiles_id, tiles }
    }

    /// Builds the draw list of a finite layer, scanning the cells column by
    /// column (outer loop over `x`, inner over `y`) and skipping empty ones.
    pub fn from_grid(ts: &Tilesheet, grid: &LayerGrid) -> (r: Result<Layer, MapError>)
        requires
            ts.wf(),
            grid.wf(),
        ensures
            match scan_layer(*ts, *grid) {
                Some(lists) => r matches Ok(layer) && layer.spec_width() == grid.width
                    && layer.spec_height() == grid.height && layer.ids() == lists.0
                    && layer.draws() == lists.1,
                None => r == Err::<Layer, MapError>(MapError::CoordinateOutOfRange),
            },
    {
        let mut tiles_id: Vec<u32> = Vec::new();
        let mut tiles: Vec<(Rect, Rect)> = Vec::new();
        let tw: u32 = ts.tile_width();
        let th: u32 = ts.tile_height();
        let mut x: u32 = 0;
        while x < grid.width
            invariant
                ts.wf(),
                grid.wf(),
                tw == ts.spec_tile_width(),
                th == ts.spec_tile_height(),
                x <= grid.width,
                scan(*ts, *grid, x as nat, 0) == Some((tiles_id@, tiles@)),
            decreases grid.width - x,
        {
            let mut y: u32 = 0;
            while y < grid.height
                invariant
                    ts.wf(),
                    grid.wf(),
                    tw == ts.spec_tile_width(),
                    th == ts.spec_tile_height(),
                    x < grid.width,
                    y <= grid.height,
                    scan(*ts, *grid, x as nat, y as nat) == Some((tiles_id@, tiles@)),
                decreases grid.height - y,
            {
                let row = &grid.rows[y as usize];
                assert(row@.len() == grid.width);
                if let Some(id) = row[x as usize] {
                    let src = ts.tile_rect(id);
                    proof {
                        crate::tilesheet::lemma_product_fits(x as int, tw as int);
                        crate::tilesheet::lemma_product_fits(y as int, th as int);
                    }
                    let dx: u64 = x as u64 * tw as u64;
                    let dy: u64 = y as u64 * th as u64;
                    match src {
                        Some(src) if dx <= i32::MAX as u64 && dy <= i32::MAX as u64 => {
                            tiles_id.push(id);
                            tiles.push((src, Rect::new(dx as i32, dy as i32, tw, th)));
                        },
                        _ => {
                            proof {
                                lemma_scan_failure_persists(
                                    *ts,
                                    *grid,
                                    x as nat,
                                    (y + 1) as nat,
                                    grid.width as nat,
                                    0,
                                );
                            }
                            return Err(MapError::CoordinateOutOfRange);
                        },
                    }
                }
                y = y + 1;
            }
            x = x + 1;
        }
        Ok(Layer { width: grid.width, height: grid.height, tiles_id, tiles })
    }

    pub fn width(&self) -> (r: u32)
        ensures
            r == self.spec_width(),
    {
        self.width
    }

    pub fn height(&self) -> (r: u32)
        ensures
            r == self.spec_height(),
    {
        self.height
    }

    /// Tile indices of the populated cells, in scan order.
    pub fn tiles_id(&self) -> (r: &Vec<u32>)
        ensures
            r@ == self.ids(),
    {
        &self.tiles_id
    }

    /// The (source, destination) pairs to blit, in scan order.
    pub fn tiles(&self) -> (r: &Vec<(Rect, Rect)>)
        ensures
            r@ == self.draws(),
    {
        &self.tiles
    }
}

/// Whether layer `g` is drawn from `ts` as the scan describes.
pub open spec fn layer_matches(ts: Tilesheet, g: LayerGrid, layer: Layer) -> bool {
    match scan_layer(ts, g) {
        Some(lists) => layer.spec_width() == g.width && layer.spec_height() == g.height
            && layer.ids() == lists.0 && layer.draws() == lists.1,
        None => false,
    }
}

/// A loaded tile map: its grid, the first tileset's sheet, and its finite
/// layers in declared order (first drawn first).
pub struct TileMap {
    map_path: String,
    width: u32,
    height: u32,
    tile_width: u32,
    tile_height: u32,
    tilesheet: Tilesheet,
    layers: Vec<Layer>,
}

impl TileMap {
    pub closed spec fn path(&self) -> Seq<char> {
        self.map_path@
    }

    pub closed spec fn size(&self) -> (u32, u32) {
        (self.width, self.height)
    }

    pub closed spec fn tile_size(&self) -> (u32, u32) {
        (self.tile_width, self.tile_height)
    }

    pub closed spec fn sheet(&self) -> Tilesheet {
        self.tilesheet
    }

    pub closed spec fn spec_layers(&self) -> Seq<Layer> {
        self.layers@
    }

    /// The map's sheet can be sliced: `tile_rect` may be called on it.
    pub open spec fn wf(&self) -> bool {
        self.sheet().wf()
    }

    /// Builds a map from what its asset declares. Only the first tileset is
    /// used; each finite layer grid becomes a layer, in the given order. Fails
    /// with `MissingTileset` when no tileset is declared, and with
    /// `CoordinateOutOfRange` when some layer's draw list cannot be formed.
    pub fn new(
        map_path: String,
        width: u32,
        height: u32,
        tile_width: u32,
        tile_height: u32,
        tilesets: Vec<Tilesheet>,
        grids: Vec<LayerGrid>,
    ) -> (r: Result<TileMap, MapError>)
        requires
            forall|i: int| 0 <= i < tilesets@.len() ==> (#[trigger] tilesets@[i]).wf(),
            forall|i: int| 0 <= i < grids@.len() ==> (#[trigger] grids@[i]).wf(),
        ensures
            tilesets@.len() == 0 <==> r == Err::<TileMap, MapError>(MapError::MissingTileset),
            tilesets@.len() > 0 ==> {
                let ts = tilesets@[0];
                &&& (forall|i: int| 0 <= i < grids@.len() ==> scan_layer(ts, #[trigger] grids@[i]) is Some)
                    <==> r is Ok
                &&& r is Err ==> r == Err::<TileMap, MapError>(MapError::CoordinateOutOfRange)
            },
            r matches Ok(m) ==> {
                &&& m.wf()
                &&& m.path() == map_path@
                &&& m.size() == (width, height)
                &&& m.tile_size() == (tile_width, tile_height)
                &&& m.sheet() == tilesets@[0]
                &&& m.spec_layers().len() == grids@.len()
                &&& forall|i: int|
                    0 <= i < grids@.len() ==> layer_matches(
                        tilesets@[0],
                        grids@[i],
                        #[trigger] m.spec_layers()[i],
                    )
            },
    {
        if tilesets.len() == 0 {
            return Err(MapError::MissingTileset);
        }
        let ghost first = tilesets@[0];
        let mut sheets = tilesets;
        let tilesheet = sheets.remove(0);
        let mut layers: Vec<Layer> = Vec::new();
        let mut i: usize = 0;
        while i < grids.len()
            invariant
                tilesets@.len() > 0,
                tilesheet == first,
                first == tilesets@[0],
                tilesheet.wf(),
                forall|j: int| 0 <= j < grids@.len() ==> (#[trigger] grids@[j]).wf(),
                i <= grids@.len(),
                layers@.len() == i,
                forall|j: int| 0 <= j < i ==> scan_layer(tilesheet, #[trigger] grids@[j]) is Some,
                forall|j: int| 0 <= j < i ==> layer_matches(tilesheet, grids@[j], #[trigger] layers@[j]),
            decreases grids@.len() - i,
        {
            match Layer::from_grid(&tilesheet, &grids[i]) {
                Ok(layer) => {
                    layers.push(layer);
                },
                Err(e) => {
                    return Err(e);
                },
            }
            i = i + 1;
        }
        Ok(TileMap { map_path, width, height, tile_width, tile_height, tilesheet, layers })
    }

    pub fn map_path(&self) -> (r: &String)
        ensures
            r@ == self.path(),
    {
        &self.map_path
    }

    pub fn width(&self) -> (r: u32)
        ensures
            r == self.size().0,
    {
        self.width
    }

    pub fn height(&self) -> (r: u32)
        ensures
            r == self.size().1,
    {
        self.height
    }

    pub fn tile_width(&self) -> (r: u32)
        ensures
            r == self.tile_size().0,
    {
        self.tile_width
    }

    pub fn tile_height(&self) -> (r: u32)
        ensures
            r == self.tile_size().1,
    {
        self.tile_height
    }

    pub fn tilesheet(&self) -> (r: &Tilesheet)
        ensures
            *r == self.sheet(),
    {
        &self.tilesheet
    }

    /// The layers, bottom-most first.
    pub fn layers(&self) -> (r: &Vec<Layer>)
        ensures
            r@ == self.spec_layers(),
    {
        &self.layers
    }
}

} // verus!
