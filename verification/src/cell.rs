//! The multi-viewed [`Cell`]: a named, reusable piece of hardware, its
//! alternative views, the [`Layout`] view's mutation surface, and placed
//! [`Instance`]s of cells.

use vstd::prelude::*;

use crate::bbox::BoundBox;
use crate::coords::{Dir, Xy};
use crate::outline::Outline;
use crate::placement::{place_text, Place, Placeable};
use crate::raw::{LayoutError, LayoutResult, RawArena, RawCellId, RawLibId};
use crate::store::{CellArena, CellId};
use crate::tracks::{Assign, RelZ, TrackIntersection};

verus! {

/// An interface bundle: the port-level view of a cell.  Its ports are
/// authored by a collaborating module; only its name matters here.
#[derive(Clone, Debug)]
pub struct Bundle {
    pub name: String,
}

/// An abstract view: a placeholder exposing only an outline and a
/// metal-layer count, without full geometry.
#[derive(Clone, Debug)]
pub struct Abstract {
    pub name: String,
    /// Outline shape, counted in x and y pitches of the layout grid.
    pub outline: Outline,
    /// Number of metal layers used.
    pub metals: usize,
}

/// A cell's concrete layout implementation: a combination of lower-level
/// cell instances and net-assignments to tracks.
#[derive(Clone, Debug)]
pub struct Layout {
    /// Cell name.
    pub name: String,
    /// Number of metal layers used.
    pub metals: usize,
    /// Outline shape, counted in x and y pitches of the layout grid.
    pub outline: Outline,
    /// Layout instances.
    pub instances: Vec<Instance>,
    /// Net-to-track assignments, in call order.
    pub assignments: Vec<Assign>,
    /// Track cuts, in call order.
    pub cuts: Vec<TrackIntersection>,
    /// Placeable objects.
    pub places: Vec<Placeable>,
}

impl Layout {
    /// The parts of a layout that `assign` and `cut` leave untouched.
    pub open spec fn same_shell(self, other: Layout) -> bool {
        &&& other.name == self.name
        &&& other.metals == self.metals
        &&& other.outline == self.outline
        &&& other.instances == self.instances
        &&& other.places == self.places
    }

    /// Create a new layout with the given mandatory fields and empty lists.
    pub fn new(name: String, metals: usize, outline: Outline) -> (r: Self)
        ensures
            r.name == name,
            r.metals == metals,
            r.outline == outline,
            r.instances@ == Seq::<Instance>::empty(),
            r.assignments@ == Seq::<Assign>::empty(),
            r.cuts@ == Seq::<TrackIntersection>::empty(),
            r.places@ == Seq::<Placeable>::empty(),
    {
        Layout {
            name,
            metals,
            outline,
            instances: Vec::new(),
            assignments: Vec::new(),
            cuts: Vec::new(),
            places: Vec::new(),
        }
    }

    /// Create a [`LayoutBuilder`] with no field set.
    pub fn builder() -> (r: LayoutBuilder)
        ensures
            r.name is None,
            r.metals is None,
            r.outline is None,
            r.instances@ == Seq::<Instance>::empty(),
            r.assignments@ == Seq::<Assign>::empty(),
            r.cuts@ == Seq::<TrackIntersection>::empty(),
            r.places@ == Seq::<Placeable>::empty(),
    {
        LayoutBuilder::default()
    }

    /// Assign a net at the given track coordinates.  A pure append: no
    /// deduplication, no conflict check against existing assignments.
    pub fn assign(&mut self, net: String, layer: usize, track: usize, at: usize, relz: RelZ)
        ensures
            final(self).assignments@ == old(self).assignments@.push(
                (Assign { net, at: (TrackIntersection { layer, track, at, relz }) }),
            ),
            old(self).same_shell(*final(self)),
            final(self).cuts == old(self).cuts,
    {
        self.assignments.push(Assign { net, at: TrackIntersection { layer, track, at, relz } });
    }

    /// Add a track cut at the given coordinates, independent of assignments.
    pub fn cut(&mut self, layer: usize, track: usize, at: usize, relz: RelZ)
        ensures
            final(self).cuts@ == old(self).cuts@.push((TrackIntersection { layer, track, at, relz })),
            old(self).same_shell(*final(self)),
            final(self).assignments == old(self).assignments,
    {
        self.cuts.push(TrackIntersection { layer, track, at, relz });
    }

    /// Get a temporary handle for chaining assignments to one net.
    pub fn net<'h>(&'h mut self, net: String) -> (h: NetHandle<'h>)
        ensures
            h.name == net,
            *h.parent == *old(self),
            *final(self) == *final(h.parent),
    {
        NetHandle { name: net, parent: self }
    }
}

/// A builder-style configuration value for [`Layout`]: the three mandatory
/// fields start unset, the four list fields default to empty.
#[derive(Clone, Debug)]
pub struct LayoutBuilder {
    pub name: Option<String>,
    pub metals: Option<usize>,
    pub outline: Option<Outline>,
    pub instances: Vec<Instance>,
    pub assignments: Vec<Assign>,
    pub cuts: Vec<TrackIntersection>,
    pub places: Vec<Placeable>,
}

impl Default for LayoutBuilder {
    /// A builder with no field set and all lists empty.
    fn default() -> (r: Self)
        ensures
            r.name is None,
            r.metals is None,
            r.outline is None,
            r.instances@ == Seq::<Instance>::empty(),
            r.assignments@ == Seq::<Assign>::empty(),
            r.cuts@ == Seq::<TrackIntersection>::empty(),
            r.places@ == Seq::<Placeable>::empty(),
    {
        LayoutBuilder {
            name: None,
            metals: None,
            outline: None,
            instances: Vec::new(),
            assignments: Vec::new(),
            cuts: Vec::new(),
            places: Vec::new(),
        }
    }
}

impl LayoutBuilder {
    /// Set the cell name.
    pub fn name(self, name: String) -> (r: Self)
        ensures
            r == (LayoutBuilder { name: Some(name), ..self }),
    {
        LayoutBuilder { name: Some(name), ..self }
    }

    /// Set the metal-layer count.
    pub fn metals(self, metals: usize) -> (r: Self)
        ensures
            r == (LayoutBuilder { metals: Some(metals), ..self }),
    {
        LayoutBuilder { metals: Some(metals), ..self }
    }

    /// Set the outline.
    pub fn outline(self, outline: Outline) -> (r: Self)
        ensures
            r == (LayoutBuilder { outline: Some(outline), ..self }),
    {
        LayoutBuilder { outline: Some(outline), ..self }
    }

    /// Set the instance list.
    pub fn instances(self, instances: Vec<Instance>) -> (r: Self)
        ensures
            r == (LayoutBuilder { instances, ..self }),
    {
        LayoutBuilder { instances, ..self }
    }

    /// Set the assignment list.
    pub fn assignments(self, assignments: Vec<Assign>) -> (r: Self)
        ensures
            r == (LayoutBuilder { assignments, ..self }),
    {
        LayoutBuilder { assignments, ..self }
    }

    /// Set the cut list.
    pub fn cuts(self, cuts: Vec<TrackIntersection>) -> (r: Self)
        ensures
            r == (LayoutBuilder { cuts, ..self }),
    {
        LayoutBuilder { cuts, ..self }
    }

    /// Set the placeable-object list.
    pub fn places(self, places: Vec<Placeable>) -> (r: Self)
        ensures
            r == (LayoutBuilder { places, ..self }),
    {
        LayoutBuilder { places, ..self }
    }

    /// Build the layout; fails exactly when a mandatory field is unset.
    pub fn build(self) -> (r: LayoutResult<Layout>)
        ensures
            self.name matches Some(n) ==> self.metals matches Some(m)
                ==> self.outline matches Some(o) ==> r == Ok::<Layout, LayoutError>(
                (Layout {
                    name: n,
                    metals: m,
                    outline: o,
                    instances: self.instances,
                    assignments: self.assignments,
                    cuts: self.cuts,
                    places: self.places,
                }),
            ),
            (self.name is None || self.metals is None || self.outline is None) ==> r == Err::<
                Layout,
                LayoutError,
            >(LayoutError::Validation),
    {
        let LayoutBuilder { name, metals, outline, instances, assignments, cuts, places } = self;
        match (name, metals, outline) {
            (Some(name), Some(metals), Some(outline)) => Ok(
                Layout { name, metals, outline, instances, assignments, cuts, places },
            ),
            _ => Err(LayoutError::Validation),
        }
    }
}

/// A short-term handle for chaining multiple assignments to one net.
/// Typically used as `layout.net("name").at(..).at(..)`.  It exclusively
/// borrows its parent [`Layout`], so it must be dropped before the layout is
/// used again; it exists purely to avoid repeating the net name.
pub struct NetHandle<'h> {
    pub name: String,
    pub parent: &'h mut Layout,
}

impl<'h> NetHandle<'h> {
    /// Assign this handle's net at the given coordinates.  Consumes and
    /// returns `self` to enable chaining.
    pub fn at(self, layer: usize, track: usize, at: usize, relz: RelZ) -> (r: Self)
        ensures
            r.name == self.name,
            (*r.parent).assignments@ == (*old(self.parent)).assignments@.push(
                (Assign { net: self.name, at: (TrackIntersection { layer, track, at, relz }) }),
            ),
            (*old(self.parent)).same_shell(*r.parent),
            (*r.parent).cuts == (*old(self.parent)).cuts,
            *final(self.parent) == *final(r.parent),
    {
        let NetHandle { name, parent } = self;
        parent.assign(name.clone(), layer, track, at, relz);
        NetHandle { name, parent }
    }
}

/// "Pointer" to a raw (library, cell) combination, wrapped with the outline
/// and metal-count information needed for bounded placement.
#[derive(Clone, Copy, Debug, PartialEq, Eq, Structural)]
pub struct RawLayoutPtr {
    /// Outline shape, counted in x and y pitches of the layout grid.
    pub outline: Outline,
    /// Number of metal layers used.
    pub metals: usize,
    /// Reference to the raw library.
    pub lib: RawLibId,
    /// Reference to the raw cell.
    pub cell: RawCellId,
}

/// All of the ways in which a cell is represented; purely a transport type
/// for [`Cell::add_view`].
#[derive(Clone, Debug)]
pub enum CellView {
    Interface(Bundle),
    Abstract(Abstract),
    Layout(Layout),
    RawLayoutPtr(RawLayoutPtr),
}

impl From<Bundle> for CellView {
    fn from(src: Bundle) -> (r: Self) {
        CellView::Interface(src)
    }
}

impl vstd::std_specs::convert::FromSpecImpl<Bundle> for CellView {
    open spec fn obeys_from_spec() -> bool {
        true
    }

    open spec fn from_spec(src: Bundle) -> Self {
        CellView::Interface(src)
    }
}

impl From<Abstract> for CellView {
    fn from(src: Abstract) -> (r: Self) {
        CellView::Abstract(src)
    }
}

impl vstd::std_specs::convert::FromSpecImpl<Abstract> for CellView {
    open spec fn obeys_from_spec() -> bool {
        true
    }

    open spec fn from_spec(src: Abstract) -> Self {
        CellView::Abstract(src)
    }
}

impl From<Layout> for CellView {
    fn from(src: Layout) -> (r: Self) {
        CellView::Layout(src)
    }
}

impl vstd::std_specs::convert::FromSpecImpl<Layout> for CellView {
    open spec fn obeys_from_spec() -> bool {
        true
    }

    open spec fn from_spec(src: Layout) -> Self {
        CellView::Layout(src)
    }
}

impl From<RawLayoutPtr> for CellView {
    fn from(src: RawLayoutPtr) -> (r: Self) {
        CellView::RawLayoutPtr(src)
    }
}

impl vstd::std_specs::convert::FromSpecImpl<RawLayoutPtr> for CellView {
    open spec fn obeys_from_spec() -> bool {
        true
    }

    open spec fn from_spec(src: RawLayoutPtr) -> Self {
        CellView::RawLayoutPtr(src)
    }
}

/// Collection of the views describing a cell: at most one value per view
/// kind, each slot replaced wholesale by [`Cell::add_view`].
#[derive(Clone, Debug)]
pub struct Cell {
    /// Cell name.
    pub name: String,
    /// Interface bundle.
    pub interface: Option<Bundle>,
    /// Layout abstract.
    pub abs: Option<Abstract>,
    /// Layout implementation.
    pub layout: Option<Layout>,
    /// Raw layout.
    pub raw: Option<RawLayoutPtr>,
}

impl Cell {
    /// A cell with the given name and no views.
    pub open spec fn spec_empty(name: String) -> Cell {
        Cell { name, interface: None, abs: None, layout: None, raw: None }
    }

    /// Whether some view can answer geometric queries.
    pub open spec fn has_geometry(self) -> bool {
        self.abs is Some || self.layout is Some || self.raw is Some
    }

    /// The outline dictated by the highest-priority present view, in the
    /// fixed order abstract > layout > raw.  Present views are not checked
    /// for agreement: the highest-priority one wins.
    pub open spec fn spec_outline(self) -> Outline
        recommends
            self.has_geometry(),
    {
        if self.abs is Some {
            self.abs->0.outline
        } else if self.layout is Some {
            self.layout->0.outline
        } else {
            self.raw->0.outline
        }
    }

    /// The metal-layer count dictated by the highest-priority present view,
    /// in the same fixed order as [`Cell::spec_outline`].
    pub open spec fn spec_metals(self) -> usize
        recommends
            self.has_geometry(),
    {
        if self.abs is Some {
            self.abs->0.metals
        } else if self.layout is Some {
            self.layout->0.metals
        } else {
            self.raw->0.metals
        }
    }

    /// The cell after storing `view` into the slot for its kind, replacing
    /// any prior value of that kind.
    pub open spec fn with_view(self, view: CellView) -> Cell {
        match view {
            CellView::Interface(x) => Cell { interface: Some(x), ..self },
            CellView::Abstract(x) => Cell { abs: Some(x), ..self },
            CellView::Layout(x) => Cell { layout: Some(x), ..self },
            CellView::RawLayoutPtr(x) => Cell { raw: Some(x), ..self },
        }
    }

    /// The cell after storing each view of `views`, in order; later entries
    /// of the same kind override earlier ones.
    pub open spec fn spec_apply_views(self, views: Seq<CellView>) -> Cell
        decreases views.len(),
    {
        if views.len() == 0 {
            self
        } else {
            self.with_view(views[0]).spec_apply_views(views.drop_first())
        }
    }

    /// Create a new and initially empty cell.
    pub fn new(name: String) -> (r: Self)
        ensures
            r == Cell::spec_empty(name),
    {
        Cell { name, interface: None, abs: None, layout: None, raw: None }
    }

    /// Store `view` into the slot for its kind: last write wins, no merge.
    pub fn add_view(&mut self, view: CellView)
        ensures
            *final(self) == old(self).with_view(view),
    {
        match view {
            CellView::Interface(x) => {
                self.interface = Some(x);
            },
            CellView::Abstract(x) => {
                self.abs = Some(x);
            },
            CellView::Layout(x) => {
                self.layout = Some(x);
            },
            CellView::RawLayoutPtr(x) => {
                self.raw = Some(x);
            },
        }
    }

    /// Create a cell from a name and an ordered list of views, applying
    /// [`Cell::add_view`] to each element in order.
    pub fn from_views(name: String, views: Vec<CellView>) -> (r: Self)
        ensures
            r == Cell::spec_empty(name).spec_apply_views(views@),
    {
        let mut myself = Cell::new(name);
        let mut pending = views;
        let ghost goal = myself.spec_apply_views(pending@);
        while pending.len() > 0
            invariant
                myself.spec_apply_views(pending@) == goal,
            decreases pending@.len(),
        {
            let view = pending.remove(0);
            myself.add_view(view);
        }
        myself
    }

    /// Return the outline dictated by the highest-priority present view;
    /// fails exactly when no geometric view is present.
    pub fn outline(&self) -> (r: LayoutResult<Outline>)
        ensures
            self.has_geometry() ==> r == Ok::<Outline, LayoutError>(self.spec_outline()),
            !self.has_geometry() ==> r == Err::<Outline, LayoutError>(LayoutError::Validation),
    {
        if let Some(x) = &self.abs {
            Ok(x.outline)
        } else if let Some(x) = &self.layout {
            Ok(x.outline)
        } else if let Some(x) = &self.raw {
            Ok(x.outline)
        } else {
            Err(LayoutError::Validation)
        }
    }

    /// Size of the cell's rectangular bounding box: the maximum extents of
    /// its resolved outline.  Propagates the failure of [`Cell::outline`].
    pub fn boundbox_size(&self) -> (r: LayoutResult<Xy>)
        ensures
            self.has_geometry() ==> r == Ok::<Xy, LayoutError>(
                (Xy { x: self.spec_outline().x, y: self.spec_outline().y }),
            ),
            !self.has_geometry() ==> r == Err::<Xy, LayoutError>(LayoutError::Validation),
    {
        match self.outline() {
            Ok(outline) => Ok(Xy::new(outline.xmax(), outline.ymax())),
            Err(e) => Err(e),
        }
    }

    /// Return the metal-layer count dictated by the highest-priority present
    /// view; fails exactly when no geometric view is present.
    pub fn metals(&self) -> (r: LayoutResult<usize>)
        ensures
            self.has_geometry() ==> r == Ok::<usize, LayoutError>(self.spec_metals()),
            !self.has_geometry() ==> r == Err::<usize, LayoutError>(LayoutError::Validation),
    {
        if let Some(x) = &self.abs {
            Ok(x.metals)
        } else if let Some(x) = &self.layout {
            Ok(x.metals)
        } else if let Some(x) = &self.raw {
            Ok(x.metals)
        } else {
            Err(LayoutError::Validation)
        }
    }

    /// The cell's top metal layer number: `None` when no metal layers are
    /// used, else one less than the metal count.  Propagates the failure of
    /// [`Cell::metals`].
    pub fn top_metal(&self) -> (r: LayoutResult<Option<usize>>)
        ensures
            !self.has_geometry() ==> r == Err::<Option<usize>, LayoutError>(LayoutError::Validation),
            self.has_geometry() && self.spec_metals() == 0 ==> r == Ok::<Option<usize>, LayoutError>(
                None,
            ),
            self.has_geometry() && self.spec_metals() > 0 ==> r == Ok::<Option<usize>, LayoutError>(
                Some((self.spec_metals() - 1) as usize),
            ),
    {
        match self.metals() {
            Ok(metals) => if metals == 0 {
                Ok(None)
            } else {
                Ok(Some(metals - 1))
            },
            Err(e) => Err(e),
        }
    }

    /// Create a cell holding a single raw-layout view, deriving the cell's
    /// name from the referenced raw cell; fails exactly when that reference
    /// cannot be resolved.
    pub fn from_raw(src: RawLayoutPtr, raws: &RawArena) -> (r: LayoutResult<Cell>)
        ensures
            match raws.spec_cell(src.cell) {
                Some(rc) => r == Ok::<Cell, LayoutError>(
                    (Cell { name: rc.name, interface: None, abs: None, layout: None, raw: Some(src) }),
                ),
                None => r == Err::<Cell, LayoutError>(LayoutError::Unavailable),
            },
    {
        match raws.cell(src.cell) {
            Some(rc) => Ok(
                Cell {
                    name: rc.name.clone(),
                    interface: None,
                    abs: None,
                    layout: None,
                    raw: Some(src),
                },
            ),
            None => Err(LayoutError::Unavailable),
        }
    }

    /// Create a cell holding `view` as its single view, deriving the cell's
    /// name from the view's own name; for a raw-layout view this resolves
    /// the referenced raw cell and fails exactly when it cannot.
    pub fn from_view(view: CellView, raws: &RawArena) -> (r: LayoutResult<Cell>)
        ensures
            view matches CellView::Interface(x) ==> r == Ok::<Cell, LayoutError>(
                (Cell { name: x.name, interface: Some(x), abs: None, layout: None, raw: None }),
            ),
            view matches CellView::Abstract(x) ==> r == Ok::<Cell, LayoutError>(
                (Cell { name: x.name, interface: None, abs: Some(x), layout: None, raw: None }),
            ),
            view matches CellView::Layout(x) ==> r == Ok::<Cell, LayoutError>(
                (Cell { name: x.name, interface: None, abs: None, layout: Some(x), raw: None }),
            ),
            view matches CellView::RawLayoutPtr(p) ==> match raws.spec_cell(p.cell) {
                Some(rc) => r == Ok::<Cell, LayoutError>(
                    (Cell { name: rc.name, interface: None, abs: None, layout: None, raw: Some(p) }),
                ),
                None => r == Err::<Cell, LayoutError>(LayoutError::Unavailable),
            },
    {
        match view {
            CellView::Interface(x) => {
                let name = x.name.clone();
                Ok(Cell { name, interface: Some(x), abs: None, layout: None, raw: None })
            },
            CellView::Abstract(x) => {
                let name = x.name.clone();
                Ok(Cell { name, interface: None, abs: Some(x), layout: None, raw: None })
            },
            CellView::Layout(x) => {
                let name = x.name.clone();
                Ok(Cell { name, interface: None, abs: None, layout: Some(x), raw: None })
            },
            CellView::RawLayoutPtr(p) => Cell::from_raw(p, raws),
        }
    }
}

/// Law: a cell holding exactly one geometric view answers outline and
/// metal-count queries from that view, unchanged.
pub proof fn lemma_single_view_resolution(c: Cell)
    ensures
        (c.abs is Some && c.layout is None && c.raw is None) ==> c.spec_outline()
            == c.abs->0.outline && c.spec_metals() == c.abs->0.metals,
        (c.abs is None && c.layout is Some && c.raw is None) ==> c.spec_outline()
            == c.layout->0.outline && c.spec_metals() == c.layout->0.metals,
        (c.abs is None && c.layout is None && c.raw is Some) ==> c.spec_outline()
            == c.raw->0.outline && c.spec_metals() == c.raw->0.metals,
{
}

/// Law: with several views present, the highest-priority one in the order
/// abstract > layout > raw dictates outline and metal count, regardless of
/// what lower-priority views contain.
pub proof fn lemma_priority_resolution(c: Cell)
    ensures
        c.abs is Some ==> c.spec_outline() == c.abs->0.outline && c.spec_metals()
            == c.abs->0.metals,
        (c.abs is None && c.layout is Some) ==> c.spec_outline() == c.layout->0.outline
            && c.spec_metals() == c.layout->0.metals,
        (c.abs is None && c.layout is None && c.raw is Some) ==> c.spec_outline()
            == c.raw->0.outline && c.spec_metals() == c.raw->0.metals,
{
}

/// Law: adding a view of a kind already present replaces it wholesale; after
/// adding two abstracts in turn, exactly the second is stored, and no other
/// slot has changed.
pub proof fn lemma_add_view_last_wins(c: Cell, a1: Abstract, a2: Abstract)
    ensures
        c.with_view(CellView::Abstract(a1)).with_view(CellView::Abstract(a2)) == (Cell {
            abs: Some(a2),
            ..c
        }),
{
}

/// The origin-pivot reflection rule: reflection does not mirror about the
/// shape's own center; it flips which side of the instance origin the extent
/// occupies, independently per axis.
pub open spec fn reflect_rect(loc: Xy, o: Outline, reflect_horiz: bool, reflect_vert: bool) -> BoundBox {
    let x0: int = if reflect_horiz {
        loc.x - o.x
    } else {
        loc.x as int
    };
    let x1: int = if reflect_horiz {
        loc.x as int
    } else {
        loc.x + o.x
    };
    let y0: int = if reflect_vert {
        loc.y - o.y
    } else {
        loc.y as int
    };
    let y1: int = if reflect_vert {
        loc.y as int
    } else {
        loc.y + o.y
    };
    BoundBox {
        p0: Xy { x: x0 as i64, y: y0 as i64 },
        p1: Xy { x: x1 as i64, y: y1 as i64 },
    }
}

/// Whether the corner coordinates of [`reflect_rect`] fit the coordinate
/// type, in the directions the reflection flags actually use.
pub open spec fn reflect_rect_fits(loc: Xy, o: Outline, reflect_horiz: bool, reflect_vert: bool) -> bool {
    &&& reflect_horiz ==> i64::MIN <= loc.x - o.x <= i64::MAX
    &&& !reflect_horiz ==> i64::MIN <= loc.x + o.x <= i64::MAX
    &&& reflect_vert ==> i64::MIN <= loc.y - o.y <= i64::MAX
    &&& !reflect_vert ==> i64::MIN <= loc.y + o.y <= i64::MAX
}

/// Law: the four reflection cases, written out.  With origin `(x, y)` and
/// extents `(w, h)`, the box is `[(x, y), (x+w, y+h)]` unreflected;
/// horizontal reflection alone gives `[(x-w, y), (x, y+h)]`; vertical alone
/// gives `[(x, y-h), (x+w, y)]`; both give `[(x-w, y-h), (x, y)]`.
pub proof fn lemma_reflection_rule(loc: Xy, o: Outline)
    requires
        i64::MIN <= loc.x - o.x,
        loc.x + o.x <= i64::MAX,
        i64::MIN <= loc.y - o.y,
        loc.y + o.y <= i64::MAX,
    ensures
        reflect_rect(loc, o, false, false) == (BoundBox {
            p0: loc,
            p1: (Xy { x: (loc.x + o.x) as i64, y: (loc.y + o.y) as i64 }),
        }),
        reflect_rect(loc, o, true, false) == (BoundBox {
            p0: (Xy { x: (loc.x - o.x) as i64, y: loc.y }),
            p1: (Xy { x: loc.x, y: (loc.y + o.y) as i64 }),
        }),
        reflect_rect(loc, o, false, true) == (BoundBox {
            p0: (Xy { x: loc.x, y: (loc.y - o.y) as i64 }),
            p1: (Xy { x: (loc.x + o.x) as i64, y: loc.y }),
        }),
        reflect_rect(loc, o, true, true) == (BoundBox {
            p0: (Xy { x: (loc.x - o.x) as i64, y: (loc.y - o.y) as i64 }),
            p1: loc,
        }),
{
}

/// The name under which a referenced cell is reported in diagnostics: its
/// stored name, or a placeholder when the reference cannot be resolved.
pub open spec fn cell_label(cells: CellArena, id: CellId) -> Seq<char> {
    match cells.spec_get(id) {
        Some(c) => c.name@,
        None => "<unavailable>"@,
    }
}

/// The diagnostic rendering of an instance: its name, the name of its
/// referenced cell, and its placement value.
pub open spec fn instance_text(inst: Instance, cells: CellArena) -> Seq<char> {
    "Instance(name="@ + inst.inst_name@ + ", cell="@ + cell_label(cells, inst.cell) + ", loc="@
        + place_text(inst.loc) + ")"@
}

/// Instance of another cell: a placed, optionally reflected reference to a
/// definition shared through a [`CellArena`].
#[derive(Clone, Debug)]
pub struct Instance {
    /// Instance name.
    pub inst_name: String,
    /// Cell definition reference.
    pub cell: CellId,
    /// Location of the instance origin.  This origin holds regardless of
    /// either `reflect` field.
    pub loc: Place,
    /// Horizontal reflection.
    pub reflect_horiz: bool,
    /// Vertical reflection.
    pub reflect_vert: bool,
}

impl Instance {
    /// The stored reflection flag for the requested axis.
    pub open spec fn spec_reflected(self, dir: Dir) -> bool {
        match dir {
            Dir::Horiz => self.reflect_horiz,
            Dir::Vert => self.reflect_vert,
        }
    }

    /// Whether this instance is reflected in direction `dir`.
    pub fn reflected(&self, dir: Dir) -> (r: bool)
        ensures
            r == self.spec_reflected(dir),
    {
        match dir {
            Dir::Horiz => self.reflect_horiz,
            Dir::Vert => self.reflect_vert,
        }
    }

    /// Size of the instance's rectangular bounding box, i.e. the zero-origin
    /// bounding box of its referenced cell; fails when the reference cannot
    /// be resolved or the cell has no geometric view.
    pub fn boundbox_size(&self, cells: &CellArena) -> (r: LayoutResult<Xy>)
        ensures
            cells.spec_get(self.cell) is None ==> r == Err::<Xy, LayoutError>(
                LayoutError::Unavailable,
            ),
            cells.spec_get(self.cell) matches Some(c) ==> !c.has_geometry() ==> r == Err::<
                Xy,
                LayoutError,
            >(LayoutError::Validation),
            cells.spec_get(self.cell) matches Some(c) ==> c.has_geometry() ==> r == Ok::<
                Xy,
                LayoutError,
            >((Xy { x: c.spec_outline().x, y: c.spec_outline().y })),
    {
        match cells.get(self.cell) {
            Some(cell) => cell.boundbox_size(),
            None => Err(LayoutError::Unavailable),
        }
    }

    /// This instance's bounding rectangle: the placement is resolved to an
    /// absolute origin, the referenced cell's outline extents are read, and
    /// the rectangle follows the origin-pivot reflection rule.  Fails, in
    /// this order, when the placement is unresolved, when the cell reference
    /// cannot be resolved, and when the cell has no geometric view.
    pub fn boundbox(&self, cells: &CellArena) -> (r: LayoutResult<BoundBox>)
        requires
            self.loc matches Place::Abs(xy) ==> cells.spec_get(self.cell) matches Some(c)
                ==> c.has_geometry() ==> reflect_rect_fits(
                xy,
                c.spec_outline(),
                self.reflect_horiz,
                self.reflect_vert,
            ),
        ensures
            self.loc is Rel ==> r == Err::<BoundBox, LayoutError>(LayoutError::Unresolved),
            (self.loc is Abs && cells.spec_get(self.cell) is None) ==> r == Err::<
                BoundBox,
                LayoutError,
            >(LayoutError::Unavailable),
            cells.spec_get(self.cell) matches Some(c) ==> (self.loc is Abs && !c.has_geometry())
                ==> r == Err::<BoundBox, LayoutError>(LayoutError::Validation),
            self.loc matches Place::Abs(xy) ==> cells.spec_get(self.cell) matches Some(c)
                ==> c.has_geometry() ==> r == Ok::<BoundBox, LayoutError>(
                reflect_rect(xy, c.spec_outline(), self.reflect_horiz, self.reflect_vert),
            ),
    {
        let loc = match self.loc.abs() {
            Ok(xy) => xy,
            Err(e) => {
                return Err(e);
            },
        };
        let cell = match cells.get(self.cell) {
            Some(c) => c,
            None => {
                return Err(LayoutError::Unavailable);
            },
        };
        let outline = match cell.outline() {
            Ok(o) => o,
            Err(e) => {
                return Err(e);
            },
        };
        let (x0, x1) = if self.reflect_horiz {
            (loc.x - outline.xmax(), loc.x)
        } else {
            (loc.x, loc.x + outline.xmax())
        };
        let (y0, y1) = if self.reflect_vert {
            (loc.y - outline.ymax(), loc.y)
        } else {
            (loc.y, loc.y + outline.ymax())
        };
        Ok(BoundBox::new(Xy::new(x0, y0), Xy::new(x1, y1)))
    }

    /// Human-readable rendering for diagnostics: the instance name, the name
    /// of the referenced cell (or a placeholder when the reference cannot be
    /// resolved), and the placement value.
    pub fn display_string(&self, cells: &CellArena) -> (s: String)
        ensures
            s@ == instance_text(*self, *cells),
    {
        let mut s = String::from_str("Instance(name=");
        s.append(self.inst_name.as_str());
        s.append(", cell=");
        match cells.get(self.cell) {
            Some(c) => {
                s.append(c.name.as_str());
            },
            None => {
                s.append("<unavailable>");
            },
        }
        s.append(", loc=");
        let loc = self.loc.display_string();
        s.append(loc.as_str());
        s.append(")");
        s
    }
}

} // verus!
