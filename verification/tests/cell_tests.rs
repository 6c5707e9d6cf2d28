//! Tests for the multi-view cell container and the layout mutation surface.

use layout21tetris::cell::{Abstract, Bundle, Cell, CellView, Layout};
use layout21tetris::outline::Outline;
use layout21tetris::raw::{LayoutError, RawArena, RawCell, RawCellId, RawLibId, RawLibrary};
use layout21tetris::cell::RawLayoutPtr;
use layout21tetris::tracks::{RelZ, TrackIntersection};

fn abstract_view(name: &str, x: i64, y: i64, metals: usize) -> Abstract {
    Abstract { name: name.to_string(), outline: Outline::rect(x, y), metals }
}

#[test]
fn test_single_abstract_view() {
    let mut c = Cell::new("a".to_string());
    c.add_view(CellView::Abstract(abstract_view("a", 4, 6, 3)));
    assert_eq!(c.outline(), Ok(Outline { x: 4, y: 6 }));
    assert_eq!(c.metals(), Ok(3));
    assert_eq!(c.top_metal(), Ok(Some(2)));
}

#[test]
fn test_single_layout_view() {
    let mut c = Cell::new("l".to_string());
    c.add_view(CellView::Layout(Layout::new("l".to_string(), 2, Outline::rect(5, 7))));
    assert_eq!(c.outline(), Ok(Outline { x: 5, y: 7 }));
    assert_eq!(c.metals(), Ok(2));
    assert_eq!(c.top_metal(), Ok(Some(1)));
}

#[test]
fn test_single_raw_view() {
    let mut raws = RawArena::new();
    let lib = raws.add_lib(RawLibrary { name: "rawlib".to_string() });
    let cell = raws.add_cell(RawCell { name: "rawcell".to_string() });
    let ptr = RawLayoutPtr { outline: Outline::rect(9, 2), metals: 5, lib, cell };
    let mut c = Cell::new("r".to_string());
    c.add_view(CellView::RawLayoutPtr(ptr));
    assert_eq!(c.outline(), Ok(Outline { x: 9, y: 2 }));
    assert_eq!(c.metals(), Ok(5));
    assert_eq!(c.top_metal(), Ok(Some(4)));
}

#[test]
fn test_priority_abstract_over_layout() {
    // The worked example: cell "inv" with an abstract of outline (4, 6) and
    // three metals beside a layout of outline (5, 7) and two metals.
    let mut c = Cell::new("inv".to_string());
    c.add_view(CellView::Abstract(abstract_view("inv", 4, 6, 3)));
    c.add_view(CellView::Layout(Layout::new("inv".to_string(), 2, Outline::rect(5, 7))));
    assert_eq!(c.outline(), Ok(Outline { x: 4, y: 6 }));
    assert_eq!(c.metals(), Ok(3));
    assert_eq!(c.top_metal(), Ok(Some(2)));
    assert_eq!(c.boundbox_size().unwrap().x, 4);
    assert_eq!(c.boundbox_size().unwrap().y, 6);
}

#[test]
fn test_priority_layout_over_raw() {
    let mut raws = RawArena::new();
    let lib = raws.add_lib(RawLibrary { name: "rl".to_string() });
    let cell = raws.add_cell(RawCell { name: "rc".to_string() });
    let ptr = RawLayoutPtr { outline: Outline::rect(1, 1), metals: 9, lib, cell };
    let mut c = Cell::new("m".to_string());
    c.add_view(CellView::RawLayoutPtr(ptr));
    c.add_view(CellView::Layout(Layout::new("m".to_string(), 2, Outline::rect(5, 7))));
    assert_eq!(c.outline(), Ok(Outline { x: 5, y: 7 }));
    assert_eq!(c.metals(), Ok(2));
}

#[test]
fn test_interface_view_gives_no_geometry() {
    let mut c = Cell::new("i".to_string());
    c.add_view(CellView::Interface(Bundle { name: "i".to_string() }));
    assert_eq!(c.outline(), Err(LayoutError::Validation));
    assert_eq!(c.metals(), Err(LayoutError::Validation));
}

#[test]
fn test_empty_cell_fails() {
    let c = Cell::new("empty".to_string());
    assert_eq!(c.outline(), Err(LayoutError::Validation));
    assert_eq!(c.metals(), Err(LayoutError::Validation));
    assert_eq!(c.boundbox_size(), Err(LayoutError::Validation));
    assert_eq!(c.top_metal(), Err(LayoutError::Validation));
}

#[test]
fn test_top_metal_zero() {
    let mut c = Cell::new("z".to_string());
    c.add_view(CellView::Abstract(abstract_view("z", 1, 1, 0)));
    assert_eq!(c.metals(), Ok(0));
    assert_eq!(c.top_metal(), Ok(None));
}

#[test]
fn test_top_metal_nonzero() {
    let mut c = Cell::new("k".to_string());
    c.add_view(CellView::Abstract(abstract_view("k", 1, 1, 7)));
    assert_eq!(c.top_metal(), Ok(Some(6)));
}

#[test]
fn test_add_view_replaces() {
    let mut c = Cell::new("inv".to_string());
    c.add_view(CellView::Abstract(abstract_view("inv", 4, 6, 3)));
    c.add_view(CellView::Abstract(abstract_view("inv", 8, 9, 1)));
    let stored = c.abs.as_ref().expect("abstract view stored");
    assert_eq!(stored.outline, Outline { x: 8, y: 9 });
    assert_eq!(stored.metals, 1);
    assert!(c.layout.is_none());
    assert!(c.raw.is_none());
    assert!(c.interface.is_none());
    assert_eq!(c.outline(), Ok(Outline { x: 8, y: 9 }));
}

#[test]
fn test_from_views_order() {
    let views = vec![
        CellView::Abstract(abstract_view("v", 1, 2, 1)),
        CellView::Layout(Layout::new("v".to_string(), 4, Outline::rect(3, 4))),
        CellView::Abstract(abstract_view("v", 5, 6, 2)),
    ];
    let c = Cell::from_views("v".to_string(), views);
    assert_eq!(c.name, "v");
    assert_eq!(c.abs.as_ref().unwrap().outline, Outline { x: 5, y: 6 });
    assert_eq!(c.layout.as_ref().unwrap().outline, Outline { x: 3, y: 4 });
    assert_eq!(c.outline(), Ok(Outline { x: 5, y: 6 }));
}

#[test]
fn test_from_raw_derives_name() {
    let mut raws = RawArena::new();
    let lib = raws.add_lib(RawLibrary { name: "gds_lib".to_string() });
    let cell = raws.add_cell(RawCell { name: "gds_cell".to_string() });
    let ptr = RawLayoutPtr { outline: Outline::rect(2, 3), metals: 4, lib, cell };
    let c = Cell::from_raw(ptr, &raws).expect("raw cell resolves");
    assert_eq!(c.name, "gds_cell");
    assert_eq!(c.raw, Some(ptr));
    assert!(c.abs.is_none() && c.layout.is_none() && c.interface.is_none());
}

#[test]
fn test_from_raw_unavailable() {
    let raws = RawArena::new();
    let ptr = RawLayoutPtr {
        outline: Outline::rect(2, 3),
        metals: 4,
        lib: RawLibId { index: 0 },
        cell: RawCellId { index: 0 },
    };
    assert!(matches!(Cell::from_raw(ptr, &raws), Err(LayoutError::Unavailable)));
}

#[test]
fn test_from_view_kinds() {
    let raws = RawArena::new();
    let c = Cell::from_view(CellView::Abstract(abstract_view("ab", 1, 2, 3)), &raws).unwrap();
    assert_eq!(c.name, "ab");
    assert!(c.abs.is_some());
    let c = Cell::from_view(
        CellView::Layout(Layout::new("ly".to_string(), 1, Outline::rect(1, 1))),
        &raws,
    )
    .unwrap();
    assert_eq!(c.name, "ly");
    assert!(c.layout.is_some());
    let c = Cell::from_view(CellView::Interface(Bundle { name: "bu".to_string() }), &raws).unwrap();
    assert_eq!(c.name, "bu");
    assert!(c.interface.is_some());
}

#[test]
fn test_assign_appends() {
    let mut l = Layout::new("top".to_string(), 3, Outline::rect(10, 10));
    l.assign("clk".to_string(), 1, 2, 3, RelZ::Before);
    assert_eq!(l.assignments.len(), 1);
    assert_eq!(l.assignments[0].net, "clk");
    assert_eq!(
        l.assignments[0].at,
        TrackIntersection { layer: 1, track: 2, at: 3, relz: RelZ::Before }
    );
}

#[test]
fn test_net_chain_appends_two() {
    let mut l = Layout::new("top".to_string(), 3, Outline::rect(10, 10));
    l.net("VDD".to_string()).at(1, 3, 0, RelZ::Before).at(1, 4, 0, RelZ::After);
    assert_eq!(l.assignments.len(), 2);
    assert_eq!(l.assignments[0].net, "VDD");
    assert_eq!(l.assignments[1].net, "VDD");
    assert_eq!(
        l.assignments[0].at,
        TrackIntersection { layer: 1, track: 3, at: 0, relz: RelZ::Before }
    );
    assert_eq!(
        l.assignments[1].at,
        TrackIntersection { layer: 1, track: 4, at: 0, relz: RelZ::After }
    );
    assert_eq!(l.name, "top");
    assert!(l.cuts.is_empty());
}

#[test]
fn test_cut_appends_one() {
    let mut l = Layout::new("top".to_string(), 3, Outline::rect(10, 10));
    l.cut(2, 5, 10, RelZ::After);
    assert_eq!(l.cuts.len(), 1);
    assert_eq!(l.cuts[0], TrackIntersection { layer: 2, track: 5, at: 10, relz: RelZ::After });
    assert!(l.assignments.is_empty());
}

#[test]
fn test_builder_build() {
    let l = Layout::builder()
        .name("built".to_string())
        .metals(4)
        .outline(Outline::rect(6, 8))
        .build()
        .expect("all mandatory fields set");
    assert_eq!(l.name, "built");
    assert_eq!(l.metals, 4);
    assert_eq!(l.outline, Outline { x: 6, y: 8 });
    assert!(l.instances.is_empty());
    assert!(l.assignments.is_empty());
    assert!(l.cuts.is_empty());
    assert!(l.places.is_empty());
}

#[test]
fn test_builder_missing_field() {
    let r = Layout::builder().name("half".to_string()).metals(1).build();
    assert!(matches!(r, Err(LayoutError::Validation)));
    let r = Layout::builder().metals(1).outline(Outline::rect(1, 1)).build();
    assert!(matches!(r, Err(LayoutError::Validation)));
    let r = Layout::builder().name("half".to_string()).outline(Outline::rect(1, 1)).build();
    assert!(matches!(r, Err(LayoutError::Validation)));
}

#[test]
fn test_cellview_from_conversions() {
    let v: CellView = abstract_view("a", 1, 1, 1).into();
    assert!(matches!(v, CellView::Abstract(_)));
    let v: CellView = Layout::new("l".to_string(), 1, Outline::rect(1, 1)).into();
    assert!(matches!(v, CellView::Layout(_)));
    let v: CellView = Bundle { name: "b".to_string() }.into();
    assert!(matches!(v, CellView::Interface(_)));
}
