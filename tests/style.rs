use unicode_table::style::{
    glyph_set, resolve_junction, ConnDiffStyleChar, Direction, StyleChar, TableStyle,
};

const STYLES: [TableStyle; 4] =
    [TableStyle::Text, TableStyle::RegularBox, TableStyle::BoldBox, TableStyle::DoubleBox];

const DIRECTIONS: [Direction; 13] = [
    Direction::TopEdgeConnLeft,
    Direction::TopEdgeConnRight,
    Direction::LeftEdgeConnUp,
    Direction::LeftEdgeConnDown,
    Direction::RightEdgeConnUp,
    Direction::RightEdgeConnDown,
    Direction::BottomEdgeConnLeft,
    Direction::BottomEdgeConnRight,
    Direction::Cross,
    Direction::TopLeft,
    Direction::TopRight,
    Direction::BottomLeft,
    Direction::BottomRight,
];

#[test]
fn default_style_is_regular_box() {
    assert_eq!(TableStyle::default_style(), TableStyle::RegularBox);
}

#[test]
fn regular_to_bold_junctions() {
    let r = TableStyle::RegularBox;
    let b = TableStyle::BoldBox;
    assert_eq!(resolve_junction(r, Direction::TopEdgeConnLeft, b), "┹");
    assert_eq!(resolve_junction(r, Direction::TopEdgeConnRight, b), "┺");
    assert_eq!(resolve_junction(r, Direction::LeftEdgeConnUp, b), "┢");
    assert_eq!(resolve_junction(r, Direction::LeftEdgeConnDown, b), "┡");
    assert_eq!(resolve_junction(r, Direction::RightEdgeConnUp, b), "┧");
    assert_eq!(resolve_junction(r, Direction::RightEdgeConnDown, b), "┦");
    assert_eq!(resolve_junction(r, Direction::BottomEdgeConnLeft, b), "┻");
    assert_eq!(resolve_junction(r, Direction::BottomEdgeConnRight, b), "┺");
}

#[test]
fn junction_is_directional() {
    // Bold has no entry for regular, so it falls back to its own edges.
    assert_eq!(
        resolve_junction(TableStyle::BoldBox, Direction::TopEdgeConnLeft, TableStyle::RegularBox),
        "┳"
    );
    assert_eq!(
        resolve_junction(TableStyle::RegularBox, Direction::TopEdgeConnLeft, TableStyle::BoldBox),
        "┹"
    );
}

#[test]
fn self_junction_is_own_edge_glyph() {
    for style in STYLES {
        let set = glyph_set(style);
        for dir in DIRECTIONS {
            assert_eq!(resolve_junction(style, dir, style), set.plain(dir));
        }
    }
    assert_eq!(resolve_junction(TableStyle::RegularBox, Direction::TopEdgeConnLeft, TableStyle::RegularBox), "┬");
    assert_eq!(resolve_junction(TableStyle::DoubleBox, Direction::RightEdgeConnUp, TableStyle::DoubleBox), "╣");
}

#[test]
fn undeclared_pairs_fall_back_to_own_edge_glyph() {
    assert_eq!(resolve_junction(TableStyle::RegularBox, Direction::BottomEdgeConnLeft, TableStyle::DoubleBox), "┴");
    assert_eq!(resolve_junction(TableStyle::DoubleBox, Direction::LeftEdgeConnUp, TableStyle::BoldBox), "╠");
    assert_eq!(resolve_junction(TableStyle::Text, Direction::TopEdgeConnRight, TableStyle::RegularBox), "+");
    assert_eq!(resolve_junction(TableStyle::BoldBox, Direction::RightEdgeConnDown, TableStyle::Text), "┫");
}

#[test]
fn glyph_sets_hold_one_character_each() {
    let regular = glyph_set(TableStyle::RegularBox);
    assert_eq!(
        [regular.vertical, regular.horizontal, regular.top_left, regular.top_right],
        ["│", "─", "┌", "┐"]
    );
    assert_eq!([regular.bottom_left, regular.bottom_right, regular.cross], ["└", "┘", "┼"]);
    let double = glyph_set(TableStyle::DoubleBox);
    assert_eq!(double.cross, "╬");
    for style in STYLES {
        let s = glyph_set(style);
        for g in [
            s.vertical, s.horizontal, s.top_left, s.top_right, s.bottom_left, s.bottom_right,
            s.cross, s.top_edge, s.bottom_edge, s.left_edge, s.right_edge,
        ] {
            assert_eq!(g.chars().count(), 1);
        }
    }
}

#[test]
fn default_descriptor_copies_owner_edges() {
    let bold = glyph_set(TableStyle::BoldBox);
    let d = ConnDiffStyleChar::default(&bold, TableStyle::DoubleBox);
    assert_eq!(d.connect_with, TableStyle::DoubleBox);
    assert_eq!(d.top_edge_conn_left, "┳");
    assert_eq!(d.top_edge_conn_right, "┳");
    assert_eq!(d.left_edge_conn_down, "┣");
    assert_eq!(d.right_edge_conn_up, "┫");
    assert_eq!(d.bottom_edge_conn_right, "┻");
}

fn custom_style() -> StyleChar {
    let mut s = glyph_set(TableStyle::DoubleBox);
    let mut entry = ConnDiffStyleChar::default(&s, TableStyle::Text);
    entry.top_edge_conn_left = "X";
    s.connect_diff_style.push(entry);
    s
}

#[test]
fn declared_entry_is_used_in_its_direction_only() {
    let a = custom_style();
    assert_eq!(a.junction(Direction::TopEdgeConnLeft, TableStyle::Text), "X");
    assert_eq!(a.junction(Direction::TopEdgeConnRight, TableStyle::Text), "╦");
    assert_eq!(a.junction(Direction::TopEdgeConnLeft, TableStyle::BoldBox), "╦");
    // The reverse pairing is defined by the other style's own table.
    let b = glyph_set(TableStyle::Text);
    assert_eq!(b.junction(Direction::TopEdgeConnLeft, TableStyle::DoubleBox), "+");
    assert!(a.find_entry(TableStyle::Text).is_some());
    assert!(a.find_entry(TableStyle::RegularBox).is_none());
}

#[test]
fn cross_and_corners_are_the_owner_glyphs() {
    let r = TableStyle::RegularBox;
    let b = TableStyle::BoldBox;
    assert_eq!(resolve_junction(r, Direction::Cross, b), "┼");
    assert_eq!(resolve_junction(r, Direction::TopLeft, b), "┌");
    assert_eq!(resolve_junction(r, Direction::TopRight, b), "┐");
    assert_eq!(resolve_junction(r, Direction::BottomLeft, b), "└");
    assert_eq!(resolve_junction(r, Direction::BottomRight, b), "┘");
    assert_eq!(resolve_junction(b, Direction::Cross, b), "╋");
    assert_eq!(resolve_junction(TableStyle::DoubleBox, Direction::BottomRight, r), "╝");
    let bold = glyph_set(b);
    let d = ConnDiffStyleChar::default(&bold, r);
    assert_eq!(d.glyph(Direction::Cross), None);
    assert_eq!(d.glyph(Direction::LeftEdgeConnUp), Some("┣"));
}
