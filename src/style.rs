use vstd::prelude::*;

verus! {

/// The closed set of border-drawing styles.
#[derive(Clone, Copy, Debug, PartialEq, Eq, Hash, Structural)]
pub enum TableStyle {
    Text,
    RegularBox,
    BoldBox,
    DoubleBox,
}

/// The style every new cell starts with.
pub open spec fn spec_default_style() -> TableStyle {
    TableStyle::RegularBox
}

impl TableStyle {
    pub fn default_style() -> (r: TableStyle)
        ensures
            r == spec_default_style(),
    {
        TableStyle::RegularBox
    }
}

/// A point where borders meet: an edge meeting a border of another style,
/// with the side the other style lies on, the cross, or a corner.
#[derive(Clone, Copy, Debug, PartialEq, Eq, Hash, Structural)]
pub enum Direction {
    TopEdgeConnLeft,
    TopEdgeConnRight,
    LeftEdgeConnUp,
    LeftEdgeConnDown,
    RightEdgeConnUp,
    RightEdgeConnDown,
    BottomEdgeConnLeft,
    BottomEdgeConnRight,
    Cross,
    TopLeft,
    TopRight,
    BottomLeft,
    BottomRight,
}

/// The glyphs one style uses where its border meets the border of the
/// style `connect_with`.
#[derive(Clone, Copy, Debug)]
pub struct ConnDiffStyleChar {
    pub connect_with: TableStyle,
    pub top_edge_conn_right: &'static str,
    pub top_edge_conn_left: &'static str,
    pub left_edge_conn_up: &'static str,
    pub left_edge_conn_down: &'static str,
    pub right_edge_conn_up: &'static str,
    pub right_edge_conn_down: &'static str,
    pub bottom_edge_conn_left: &'static str,
    pub bottom_edge_conn_right: &'static str,
}

impl ConnDiffStyleChar {
    /// The glyph this descriptor gives for `dir`; it declares none for the
    /// cross and the corners.
    pub open spec fn spec_glyph(&self, dir: Direction) -> Option<Seq<char>> {
        match dir {
            Direction::TopEdgeConnLeft => Some(self.top_edge_conn_left@),
            Direction::TopEdgeConnRight => Some(self.top_edge_conn_right@),
            Direction::LeftEdgeConnUp => Some(self.left_edge_conn_up@),
            Direction::LeftEdgeConnDown => Some(self.left_edge_conn_down@),
            Direction::RightEdgeConnUp => Some(self.right_edge_conn_up@),
            Direction::RightEdgeConnDown => Some(self.right_edge_conn_down@),
            Direction::BottomEdgeConnLeft => Some(self.bottom_edge_conn_left@),
            Direction::BottomEdgeConnRight => Some(self.bottom_edge_conn_right@),
            _ => None,
        }
    }

    pub fn glyph(&self, dir: Direction) -> (r: Option<&'static str>)
        ensures
            r matches Some(g) ==> self.spec_glyph(dir) == Some(g@),
            r is None ==> self.spec_glyph(dir) is None,
    {
        match dir {
            Direction::TopEdgeConnLeft => Some(self.top_edge_conn_left),
            Direction::TopEdgeConnRight => Some(self.top_edge_conn_right),
            Direction::LeftEdgeConnUp => Some(self.left_edge_conn_up),
            Direction::LeftEdgeConnDown => Some(self.left_edge_conn_down),
            Direction::RightEdgeConnUp => Some(self.right_edge_conn_up),
            Direction::RightEdgeConnDown => Some(self.right_edge_conn_down),
            Direction::BottomEdgeConnLeft => Some(self.bottom_edge_conn_left),
            Direction::BottomEdgeConnRight => Some(self.bottom_edge_conn_right),
            _ => None,
        }
    }

    /// A descriptor that draws no distinction at the junction: every
    /// field is the owning style's own edge glyph.
    pub fn default(owner: &StyleChar, connect_with: TableStyle) -> (r: ConnDiffStyleChar)
        ensures
            r == (ConnDiffStyleChar {
                connect_with,
                top_edge_conn_right: owner.top_edge,
                top_edge_conn_left: owner.top_edge,
                left_edge_conn_up: owner.left_edge,
                left_edge_conn_down: owner.left_edge,
                right_edge_conn_up: owner.right_edge,
                right_edge_conn_down: owner.right_edge,
                bottom_edge_conn_left: owner.bottom_edge,
                bottom_edge_conn_right: owner.bottom_edge,
            }),
            forall|dir: Direction| #[trigger] r.spec_glyph(dir) matches Some(g) ==> g == owner.spec_plain(dir),
    {
        ConnDiffStyleChar {
            connect_with,
            top_edge_conn_right: owner.top_edge,
            top_edge_conn_left: owner.top_edge,
            left_edge_conn_up: owner.left_edge,
            left_edge_conn_down: owner.left_edge,
            right_edge_conn_up: owner.right_edge,
            right_edge_conn_down: owner.right_edge,
            bottom_edge_conn_left: owner.bottom_edge,
            bottom_edge_conn_right: owner.bottom_edge,
        }
    }
}

/// The glyph set of one style, with its junction table: the exceptions to
/// its own edge glyphs, keyed by the style on the other side.
pub struct StyleChar {
    pub vertical: &'static str,
    pub horizontal: &'static str,
    pub top_left: &'static str,
    pub top_right: &'static str,
    pub bottom_left: &'static str,
    pub bottom_right: &'static str,
    pub cross: &'static str,
    pub top_edge: &'static str,
    pub bottom_edge: &'static str,
    pub left_edge: &'static str,
    pub right_edge: &'static str,
    pub connect_diff_style: Vec<ConnDiffStyleChar>,
}

impl StyleChar {
    /// The junction table names each counterpart style at most once.
    pub open spec fn wf(&self) -> bool {
        forall|i: int, j: int|
            0 <= i < j < self.connect_diff_style@.len() ==> #[trigger] self.connect_diff_style@[i].connect_with
                != #[trigger] self.connect_diff_style@[j].connect_with
    }

    /// The style's own glyph for `dir`: the edge glyph of the side it names,
    /// the cross, or the corner.
    pub open spec fn spec_plain(&self, dir: Direction) -> Seq<char> {
        match dir {
            Direction::TopEdgeConnLeft | Direction::TopEdgeConnRight => self.top_edge@,
            Direction::LeftEdgeConnUp | Direction::LeftEdgeConnDown => self.left_edge@,
            Direction::RightEdgeConnUp | Direction::RightEdgeConnDown => self.right_edge@,
            Direction::BottomEdgeConnLeft | Direction::BottomEdgeConnRight => self.bottom_edge@,
            Direction::Cross => self.cross@,
            Direction::TopLeft => self.top_left@,
            Direction::TopRight => self.top_right@,
            Direction::BottomLeft => self.bottom_left@,
            Direction::BottomRight => self.bottom_right@,
        }
    }

    pub open spec fn has_entry(&self, other: TableStyle) -> bool {
        exists|i: int|
            0 <= i < self.connect_diff_style@.len()
                && #[trigger] self.connect_diff_style@[i].connect_with == other
    }

    /// The junction table's entry for `other`, if it has one.
    pub open spec fn entry(&self, other: TableStyle) -> Option<ConnDiffStyleChar> {
        if self.has_entry(other) {
            let i = choose|i: int|
                0 <= i < self.connect_diff_style@.len()
                    && #[trigger] self.connect_diff_style@[i].connect_with == other;
            Some(self.connect_diff_style@[i])
        } else {
            None
        }
    }

    /// The glyph drawn where this style's border meets `other`'s: the
    /// declared exception, or else the style's own glyph.
    pub open spec fn spec_junction(&self, dir: Direction, other: TableStyle) -> Seq<char> {
        match self.entry(other) {
            Some(e) => match e.spec_glyph(dir) {
                Some(g) => g,
                None => self.spec_plain(dir),
            },
            None => self.spec_plain(dir),
        }
    }

    pub fn plain(&self, dir: Direction) -> (r: &'static str)
        ensures
            r@ == self.spec_plain(dir),
    {
        match dir {
            Direction::TopEdgeConnLeft | Direction::TopEdgeConnRight => self.top_edge,
            Direction::LeftEdgeConnUp | Direction::LeftEdgeConnDown => self.left_edge,
            Direction::RightEdgeConnUp | Direction::RightEdgeConnDown => self.right_edge,
            Direction::BottomEdgeConnLeft | Direction::BottomEdgeConnRight => self.bottom_edge,
            Direction::Cross => self.cross,
            Direction::TopLeft => self.top_left,
            Direction::TopRight => self.top_right,
            Direction::BottomLeft => self.bottom_left,
            Direction::BottomRight => self.bottom_right,
        }
    }

    /// Looks `other` up in the junction table.
    pub fn find_entry(&self, other: TableStyle) -> (r: Option<ConnDiffStyleChar>)
        requires
            self.wf(),
        ensures
            r == self.entry(other),
    {
        let n = self.connect_diff_style.len();
        let mut i: usize = 0;
        while i < n
            invariant
                self.wf(),
                n == self.connect_diff_style@.len(),
                i <= n,
                forall|k: int| 0 <= k < i ==> #[trigger] self.connect_diff_style@[k].connect_with != other,
            decreases n - i,
        {
            let e = self.connect_diff_style[i];
            if e.connect_with == other {
                proof {
                    let j = choose|j: int|
                        0 <= j < self.connect_diff_style@.len()
                            && #[trigger] self.connect_diff_style@[j].connect_with == other;
                    if j != i as int {
                        if j < i {
                            assert(self.connect_diff_style@[j].connect_with != other);
                        } else {
                            assert(self.connect_diff_style@[i as int].connect_with
                                != self.connect_diff_style@[j].connect_with);
                        }
                    }
                }
                return Some(e);
            }
            i = i + 1;
        }
        None
    }

    /// The glyph drawn where this style's border meets `other`'s border.
    pub fn junction(&self, dir: Direction, other: TableStyle) -> (r: &'static str)
        requires
            self.wf(),
        ensures
            r@ == self.spec_junction(dir, other),
    {
        match self.find_entry(other) {
            Some(e) => match e.glyph(dir) {
                Some(g) => g,
                None => self.plain(dir),
            },
            None => self.plain(dir),
        }
    }
}

/// A style's own glyph for `dir`, as registered.
pub open spec fn plain_glyph(style: TableStyle, dir: Direction) -> Seq<char> {
    let (top, bottom, left, right) = match style {
        TableStyle::Text => ("+"@, "+"@, "+"@, "+"@),
        TableStyle::RegularBox => ("┬"@, "┴"@, "├"@, "┤"@),
        TableStyle::BoldBox => ("┳"@, "┻"@, "┣"@, "┫"@),
        TableStyle::DoubleBox => ("╦"@, "╩"@, "╠"@, "╣"@),
    };
    match dir {
        Direction::TopEdgeConnLeft | Direction::TopEdgeConnRight => top,
        Direction::LeftEdgeConnUp | Direction::LeftEdgeConnDown => left,
        Direction::RightEdgeConnUp | Direction::RightEdgeConnDown => right,
        Direction::BottomEdgeConnLeft | Direction::BottomEdgeConnRight => bottom,
        Direction::Cross => frame_glyphs(style)[6],
        Direction::TopLeft => frame_glyphs(style)[2],
        Direction::TopRight => frame_glyphs(style)[3],
        Direction::BottomLeft => frame_glyphs(style)[4],
        Direction::BottomRight => frame_glyphs(style)[5],
    }
}

/// A style's remaining glyphs, as registered: vertical, horizontal, the
/// four corners (top-left, top-right, bottom-left, bottom-right) and the cross.
pub open spec fn frame_glyphs(style: TableStyle) -> Seq<Seq<char>> {
    match style {
        TableStyle::Text => seq!["|"@, "-"@, "+"@, "+"@, "+"@, "+"@, "+"@],
        TableStyle::RegularBox => seq!["│"@, "─"@, "┌"@, "┐"@, "└"@, "┘"@, "┼"@],
        TableStyle::BoldBox => seq!["┃"@, "━"@, "┏"@, "┓"@, "┗"@, "┛"@, "╋"@],
        TableStyle::DoubleBox => seq!["║"@, "═"@, "╔"@, "╗"@, "╚"@, "╝"@, "╬"@],
    }
}

/// The regular style's junction glyphs where it meets the bold style.
pub open spec fn regular_to_bold() -> ConnDiffStyleChar {
    ConnDiffStyleChar {
        connect_with: TableStyle::BoldBox,
        top_edge_conn_right: "┺",
        top_edge_conn_left: "┹",
        left_edge_conn_up: "┢",
        left_edge_conn_down: "┡",
        right_edge_conn_up: "┧",
        right_edge_conn_down: "┦",
        bottom_edge_conn_left: "┻",
        bottom_edge_conn_right: "┺",
    }
}

/// The registered junction table entry of `style` for `other`.
pub open spec fn declared_entry(style: TableStyle, other: TableStyle) -> Option<ConnDiffStyleChar> {
    match (style, other) {
        (TableStyle::RegularBox, TableStyle::BoldBox) => Some(regular_to_bold()),
        (TableStyle::BoldBox, TableStyle::BoldBox) => Some(
            ConnDiffStyleChar {
                connect_with: TableStyle::BoldBox,
                top_edge_conn_right: "┳",
                top_edge_conn_left: "┳",
                left_edge_conn_up: "┣",
                left_edge_conn_down: "┣",
                right_edge_conn_up: "┫",
                right_edge_conn_down: "┫",
                bottom_edge_conn_left: "┻",
                bottom_edge_conn_right: "┻",
            },
        ),
        _ => None,
    }
}

/// The glyph drawn where `owner`'s border meets `other`'s border.
pub open spec fn resolved(owner: TableStyle, dir: Direction, other: TableStyle) -> Seq<char> {
    if owner == other {
        plain_glyph(owner, dir)
    } else {
        match declared_entry(owner, other) {
            Some(e) => match e.spec_glyph(dir) {
                Some(g) => g,
                None => plain_glyph(owner, dir),
            },
            None => plain_glyph(owner, dir),
        }
    }
}

/// The registered glyph set and junction table of `style`.
pub fn glyph_set(style: TableStyle) -> (r: StyleChar)
    ensures
        r.wf(),
        seq![r.vertical@, r.horizontal@, r.top_left@, r.top_right@, r.bottom_left@, r.bottom_right@, r.cross@]
            == frame_glyphs(style),
        forall|dir: Direction| #[trigger] r.spec_plain(dir) == plain_glyph(style, dir),
        forall|other: TableStyle| #[trigger] r.entry(other) == declared_entry(style, other),
{
    match style {
        TableStyle::Text => StyleChar {
            vertical: "|",
            horizontal: "-",
            top_left: "+",
            top_right: "+",
            bottom_left: "+",
            bottom_right: "+",
            cross: "+",
            top_edge: "+",
            bottom_edge: "+",
            left_edge: "+",
            right_edge: "+",
            connect_diff_style: Vec::new(),
        },
        TableStyle::RegularBox => {
            let mut table: Vec<ConnDiffStyleChar> = Vec::new();
            table.push(
                ConnDiffStyleChar {
                    connect_with: TableStyle::BoldBox,
                    top_edge_conn_right: "┺",
                    top_edge_conn_left: "┹",
                    left_edge_conn_up: "┢",
                    left_edge_conn_down: "┡",
                    right_edge_conn_up: "┧",
                    right_edge_conn_down: "┦",
                    bottom_edge_conn_left: "┻",
                    bottom_edge_conn_right: "┺",
                },
            );
            let r = StyleChar {
                vertical: "│",
                horizontal: "─",
                top_left: "┌",
                top_right: "┐",
                bottom_left: "└",
                bottom_right: "┘",
                cross: "┼",
                top_edge: "┬",
                bottom_edge: "┴",
                left_edge: "├",
                right_edge: "┤",
                connect_diff_style: table,
            };
            assert forall|other: TableStyle| #[trigger] r.entry(other) == declared_entry(style, other) by {
                if other == TableStyle::BoldBox {
                    assert(r.connect_diff_style@[0].connect_with == other);
                }
            }
            r
        },
        TableStyle::BoldBox => {
            let mut r = StyleChar {
                vertical: "┃",
                horizontal: "━",
                top_left: "┏",
                top_right: "┓",
                bottom_left: "┗",
                bottom_right: "┛",
                cross: "╋",
                top_edge: "┳",
                bottom_edge: "┻",
                left_edge: "┣",
                right_edge: "┫",
                connect_diff_style: Vec::new(),
            };
            let same = ConnDiffStyleChar::default(&r, TableStyle::BoldBox);
            r.connect_diff_style.push(same);
            assert forall|other: TableStyle| #[trigger] r.entry(other) == declared_entry(style, other) by {
                if other == TableStyle::BoldBox {
                    assert(r.connect_diff_style@[0].connect_with == other);
                }
            }
            r
        },
        TableStyle::DoubleBox => StyleChar {
            vertical: "║",
            horizontal: "═",
            top_left: "╔",
            top_right: "╗",
            bottom_left: "╚",
            bottom_right: "╝",
            cross: "╬",
            top_edge: "╦",
            bottom_edge: "╩",
            left_edge: "╠",
            right_edge: "╣",
            connect_diff_style: Vec::new(),
        },
    }
}

/// The glyph to draw where a border of style `owner` meets a border of
/// style `other`, on the side named by `dir`.
pub fn resolve_junction(owner: TableStyle, dir: Direction, other: TableStyle) -> (r: &'static str)
    ensures
        r@ == resolved(owner, dir, other),
{
    let glyphs = glyph_set(owner);
    if owner == other {
        glyphs.plain(dir)
    } else {
        glyphs.junction(dir, other)
    }
}

/// A style meeting itself draws its own glyph, in every direction.
pub proof fn lemma_self_junction(style: TableStyle, dir: Direction)
    ensures
        resolved(style, dir, style) == plain_glyph(style, dir),
{
}

/// Where a style's junction table has no entry for the other style, the
/// junction is the style's own glyph.
pub proof fn lemma_fallback(owner: TableStyle, dir: Direction, other: TableStyle)
    requires
        declared_entry(owner, other) is None,
    ensures
        resolved(owner, dir, other) == plain_glyph(owner, dir),
{
}

/// Every registered glyph, junction glyphs included, is a single character.
pub proof fn lemma_glyphs_single_char(style: TableStyle, dir: Direction, other: TableStyle)
    ensures
        plain_glyph(style, dir).len() == 1,
        forall|k: int| 0 <= k < 7 ==> (#[trigger] frame_glyphs(style)[k]).len() == 1,
        resolved(style, dir, other).len() == 1,
{
    reveal_strlit("+");
    reveal_strlit("|");
    reveal_strlit("-");
    reveal_strlit("┬");
    reveal_strlit("┴");
    reveal_strlit("├");
    reveal_strlit("┤");
    reveal_strlit("┳");
    reveal_strlit("┻");
    reveal_strlit("┣");
    reveal_strlit("┫");
    reveal_strlit("╦");
    reveal_strlit("╩");
    reveal_strlit("╠");
    reveal_strlit("╣");
    reveal_strlit("│");
    reveal_strlit("─");
    reveal_strlit("┌");
    reveal_strlit("┐");
    reveal_strlit("└");
    reveal_strlit("┘");
    reveal_strlit("┼");
    reveal_strlit("┃");
    reveal_strlit("━");
    reveal_strlit("┏");
    reveal_strlit("┓");
    reveal_strlit("┗");
    reveal_strlit("┛");
    reveal_strlit("╋");
    reveal_strlit("║");
    reveal_strlit("═");
    reveal_strlit("╔");
    reveal_strlit("╗");
    reveal_strlit("╚");
    reveal_strlit("╝");
    reveal_strlit("╬");
    reveal_strlit("┺");
    reveal_strlit("┹");
    reveal_strlit("┢");
    reveal_strlit("┡");
    reveal_strlit("┧");
    reveal_strlit("┦");
}

} // verus!
