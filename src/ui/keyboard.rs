use vstd::prelude::*;

verus! {

/// Width of a key without any extra width, in layout units.
pub const KEY_WIDTH: u32 = 30;

/// Height of every key, in layout units.
pub const KEY_HEIGHT: u32 = 30;

/// A fill colour with 8-bit red, green and blue channels.
#[derive(Clone, Copy, Debug, PartialEq, Eq, Structural)]
pub struct Colour {
    pub r: u8,
    pub g: u8,
    pub b: u8,
}

/// The gray that every key is filled with unless a custom colour is asked for.
pub open spec fn default_key_colour() -> Colour {
    Colour { r: 213, g: 213, b: 213 }
}

/// The dark gray meant for key labels.
pub open spec fn default_text_colour() -> Colour {
    Colour { r: 40, g: 44, b: 52 }
}

/// Builds the default key fill colour.
pub fn key_colour() -> (c: Colour)
    ensures
        c == default_key_colour(),
{
    Colour { r: 213, g: 213, b: 213 }
}

/// Builds the default label colour.
pub fn text_colour() -> (c: Colour)
    ensures
        c == default_text_colour(),
{
    Colour { r: 40, g: 44, b: 52 }
}

/// Selects the fill colour of a key: by the finger that presses it, or an explicit colour.
#[derive(Clone, Copy, Debug, PartialEq, Eq, Structural)]
pub enum ButtonColour {
    Standard,
    Index,
    Middle,
    Ring,
    Pinky,
    Other(Colour),
}

impl ButtonColour {
    /// The colour that this role resolves to. No finger has a colour of its own yet,
    /// so every role but `Other` falls back to the default gray.
    pub open spec fn resolved(self) -> Colour {
        match self {
            ButtonColour::Other(c) => c,
            _ => default_key_colour(),
        }
    }

    pub fn colour(&self) -> (c: Colour)
        ensures
            c == self.resolved(),
    {
        match self {
            ButtonColour::Standard => key_colour(),
            ButtonColour::Other(a) => *a,
            _ => key_colour(),
        }
    }
}

/// Resolving a role is a total function of the role alone: equal roles give equal
/// colours, a custom colour comes back exactly as it was given, and every other role
/// gives the default gray.
pub proof fn lemma_colour_resolution(a: ButtonColour, b: ButtonColour, c: Colour)
    ensures
        a == b ==> a.resolved() == b.resolved(),
        ButtonColour::Other(c).resolved() == c,
        !(a is Other) ==> a.resolved() == default_key_colour(),
{
}

/// Static description of one physical key: its label and how much wider than a
/// plain key it is.
#[derive(Clone, Debug)]
pub struct KeyboardButton {
    pub extra_width: u32,
    pub text: String,
}

impl Default for KeyboardButton {
    fn default() -> (k: Self)
        ensures
            k.extra_width == 0,
            k.text@ == "A"@,
    {
        KeyboardButton { extra_width: 0, text: "A".to_owned() }
    }
}

/// What a key turns into on screen: its label, its size and its fill.
#[derive(Clone, Debug)]
pub struct VisualKey {
    pub label: String,
    pub width: u64,
    pub height: u32,
    pub fill: Colour,
}

/// The mathematical content of a rendered key.
pub struct VisualKeyView {
    pub label: Seq<char>,
    pub width: nat,
    pub height: nat,
    pub fill: Colour,
}

impl View for VisualKey {
    type V = VisualKeyView;

    open spec fn view(&self) -> VisualKeyView {
        VisualKeyView {
            label: self.label@,
            width: self.width as nat,
            height: self.height as nat,
            fill: self.fill,
        }
    }
}

/// How a key descriptor is rendered with the given colour role: its label centred,
/// the base width plus its extra width, the fixed height, and the role's colour.
pub open spec fn render(k: KeyboardButton, role: ButtonColour) -> VisualKeyView {
    VisualKeyView {
        label: k.text@,
        width: (KEY_WIDTH + k.extra_width) as nat,
        height: KEY_HEIGHT as nat,
        fill: role.resolved(),
    }
}

impl KeyboardButton {
    /// A key with the given label and no extra width.
    pub fn new(content: &str) -> (k: Self)
        ensures
            k.text@ == content@,
            k.extra_width == 0,
    {
        KeyboardButton { text: content.to_owned(), extra_width: 0 }
    }

    /// A key with the given label that is `x` units wider than a plain key.
    pub fn with_extra_width(content: &str, x: u32) -> (k: Self)
        ensures
            k.text@ == content@,
            k.extra_width == x,
    {
        let mut out = Self::new(content);
        out.set_extra_width(x);
        out
    }

    pub fn set_extra_width(&mut self, x: u32)
        ensures
            final(self).extra_width == x,
            final(self).text == old(self).text,
    {
        self.extra_width = x;
    }

    /// Renders this key filled as the role says.
    pub fn build_coloured(&self, colour: ButtonColour) -> (v: VisualKey)
        ensures
            v@ == render(*self, colour),
    {
        let label = self.text.clone();
        VisualKey {
            label,
            width: KEY_WIDTH as u64 + self.extra_width as u64,
            height: KEY_HEIGHT,
            fill: colour.colour(),
        }
    }

    /// Renders this key with the standard fill.
    pub fn build(&self) -> (v: VisualKey)
        ensures
            v@ == render(*self, ButtonColour::Standard),
    {
        self.build_coloured(ButtonColour::Standard)
    }
}

/// Keys with the given labels, in order, none of them wider than a plain key.
fn plain_keys(labels: &[&str]) -> (row: Vec<KeyboardButton>)
    ensures
        row@.len() == labels@.len(),
        forall|j: int|
            0 <= j < row@.len() ==> (#[trigger] row@[j]).text@ == labels@[j]@
                && row@[j].extra_width == 0,
{
    let mut row: Vec<KeyboardButton> = Vec::new();
    let mut i: usize = 0;
    while i < labels.len()
        invariant
            i <= labels@.len(),
            row@.len() == i,
            forall|j: int|
                0 <= j < i ==> (#[trigger] row@[j]).text@ == labels@[j]@
                    && row@[j].extra_width == 0,
        decreases labels@.len() - i,
    {
        row.push(KeyboardButton::new(labels[i]));
        i = i + 1;
    }
    row
}

/// How much wider than a plain key the space bar is.
pub const SPACE_EXTRA_WIDTH: u32 = 30;

/// The labels of the QWERTY layout, row by row from the top, each row from the left.
pub open spec fn qwerty_labels() -> Seq<Seq<Seq<char>>> {
    seq![
        seq!["~"@, "1"@, "2"@, "3"@, "4"@, "5"@, "6"@, "7"@, "8"@, "9"@, "0"@, "-"@, "="@, "BACKSPACE"@],
        seq!["TAB"@, "Q"@, "W"@, "E"@, "R"@, "T"@, "Y"@, "U"@, "I"@, "O"@, "P"@, "["@, "]"@, "\\"@],
        seq!["CAPS"@, "A"@, "S"@, "D"@, "F"@, "G"@, "H"@, "J"@, "K"@, "L"@, ";"@, "\""@, "ENTER"@],
        seq!["SHIFT"@, "Z"@, "X"@, "C"@, "V"@, "B"@, "N"@, "M"@, ","@, "."@, "/"@, "SHIFT"@],
        seq!["CTRL"@, "fn"@, "WIN"@, "ALT"@, "SPACE"@, "ALT"@, "CTRL"@, "<"@, "^"@, ">"@],
    ]
}

/// The extra width of the key in row `i`, column `j` of the QWERTY layout: only the
/// space bar, fifth in the space row, is wider than a plain key.
pub open spec fn qwerty_extra_width(i: int, j: int) -> nat {
    if i == 4 && j == 4 {
        SPACE_EXTRA_WIDTH as nat
    } else {
        0
    }
}

/// A full keyboard: five rows of key descriptors, from the number row down to the
/// space row.
pub struct KeyboardStructure {
    pub number_row: Vec<KeyboardButton>,
    pub top_row: Vec<KeyboardButton>,
    pub middle_row: Vec<KeyboardButton>,
    pub bottom_row: Vec<KeyboardButton>,
    pub space_row: Vec<KeyboardButton>,
}

impl KeyboardStructure {
    /// The rows in display order, top to bottom.
    pub open spec fn rows(&self) -> Seq<Seq<KeyboardButton>> {
        seq![self.number_row@, self.top_row@, self.middle_row@, self.bottom_row@, self.space_row@]
    }

    /// The labels of every row, in display order.
    pub open spec fn labels(&self) -> Seq<Seq<Seq<char>>> {
        self.rows().map_values(
            |row: Seq<KeyboardButton>| row.map_values(|k: KeyboardButton| k.text@),
        )
    }

    /// Each row holds as many keys as the physical layout has in it.
    pub open spec fn wf(&self) -> bool {
        &&& self.number_row@.len() == 14
        &&& self.top_row@.len() == 14
        &&& self.middle_row@.len() == 13
        &&& self.bottom_row@.len() == 12
        &&& self.space_row@.len() == 10
    }

    /// Every key holds the QWERTY label and extra width of its place.
    pub open spec fn is_qwerty(&self) -> bool {
        forall|i: int|
            0 <= i < 5 ==> {
                &&& (#[trigger] self.rows()[i]).len() == qwerty_labels()[i].len()
                &&& forall|j: int|
                    0 <= j < self.rows()[i].len() ==> {
                        &&& (#[trigger] self.rows()[i][j]).text@ == qwerty_labels()[i][j]
                        &&& self.rows()[i][j].extra_width == qwerty_extra_width(i, j)
                    }
            }
    }

    /// Row `i` in display order.
    pub fn row(&self, i: usize) -> (r: &Vec<KeyboardButton>)
        requires
            i < 5,
        ensures
            r@ == self.rows()[i as int],
    {
        match i {
            0 => &self.number_row,
            1 => &self.top_row,
            2 => &self.middle_row,
            3 => &self.bottom_row,
            _ => &self.space_row,
        }
    }

    /// The QWERTY layout.
    pub fn build_qwerty() -> (s: Self)
        ensures
            s.wf(),
            s.is_qwerty(),
    {
        let number_row = plain_keys(
            &["~", "1", "2", "3", "4", "5", "6", "7", "8", "9", "0", "-", "=", "BACKSPACE"],
        );
        let top_row = plain_keys(
            &["TAB", "Q", "W", "E", "R", "T", "Y", "U", "I", "O", "P", "[", "]", "\\"],
        );
        let middle_row = plain_keys(
            &["CAPS", "A", "S", "D", "F", "G", "H", "J", "K", "L", ";", "\"", "ENTER"],
        );
        let bottom_row = plain_keys(
            &["SHIFT", "Z", "X", "C", "V", "B", "N", "M", ",", ".", "/", "SHIFT"],
        );
        let mut space_row = plain_keys(&["CTRL", "fn", "WIN", "ALT"]);
        space_row.push(KeyboardButton::with_extra_width("SPACE", SPACE_EXTRA_WIDTH));
        let mut right = plain_keys(&["ALT", "CTRL", "<", "^", ">"]);
        let ghost right_keys = right@;
        space_row.append(&mut right);
        let s = KeyboardStructure { number_row, top_row, middle_row, bottom_row, space_row };
        assert forall|i: int| 0 <= i < 5 implies {
            &&& (#[trigger] s.rows()[i]).len() == qwerty_labels()[i].len()
            &&& forall|j: int|
                0 <= j < s.rows()[i].len() ==> {
                    &&& (#[trigger] s.rows()[i][j]).text@ == qwerty_labels()[i][j]
                    &&& s.rows()[i][j].extra_width == qwerty_extra_width(i, j)
                }
        } by {
            if i == 4 {
                assert forall|j: int| 0 <= j < s.rows()[4].len() implies {
                    &&& (#[trigger] s.rows()[4][j]).text@ == qwerty_labels()[4][j]
                    &&& s.rows()[4][j].extra_width == qwerty_extra_width(4, j)
                } by {
                    if j > 4 {
                        assert(s.rows()[4][j] == right_keys[j - 5]);
                    }
                }
            }
        }
        s
    }
}

impl Default for KeyboardStructure {
    fn default() -> (s: Self)
        ensures
            s.wf(),
            s.is_qwerty(),
    {
        Self::build_qwerty()
    }
}

/// `out` is `row` rendered with the standard fill, key for key.
pub open spec fn renders_row(out: Seq<VisualKey>, row: Seq<KeyboardButton>) -> bool {
    &&& out.len() == row.len()
    &&& forall|j: int| 0 <= j < row.len() ==> (#[trigger] out[j])@ == render(row[j], ButtonColour::Standard)
}

/// `tree` is the layout `s` rendered: one rendered row per row of `s`, top to bottom.
pub open spec fn renders_layout(tree: Seq<Vec<VisualKey>>, s: KeyboardStructure) -> bool {
    &&& tree.len() == s.rows().len()
    &&& forall|i: int| 0 <= i < tree.len() ==> renders_row((#[trigger] tree[i])@, s.rows()[i])
}

/// The content of a rendered tree, row by row and key by key.
pub open spec fn tree_view(tree: Seq<Vec<VisualKey>>) -> Seq<Seq<VisualKeyView>> {
    tree.map_values(|row: Vec<VisualKey>| row@.map_values(|v: VisualKey| v@))
}

/// Turns a keyboard layout into a column of rows of rendered keys.
pub struct KeyboardUI {
    pub structure: KeyboardStructure,
}

impl Default for KeyboardUI {
    fn default() -> (ui: Self)
        ensures
            ui.structure.wf(),
            ui.structure.is_qwerty(),
    {
        KeyboardUI { structure: KeyboardStructure::default() }
    }
}

impl KeyboardUI {
    /// Renders row `i` of the layout, keys from left to right.
    pub fn build_row(&self, i: usize) -> (r: Vec<VisualKey>)
        requires
            i < 5,
        ensures
            renders_row(r@, self.structure.rows()[i as int]),
    {
        let keys = self.structure.row(i);
        let mut out: Vec<VisualKey> = Vec::new();
        let mut j: usize = 0;
        while j < keys.len()
            invariant
                i < 5,
                keys@ == self.structure.rows()[i as int],
                j <= keys@.len(),
                renders_row(out@, keys@.take(j as int)),
            decreases keys@.len() - j,
        {
            out.push(keys[j].build());
            j = j + 1;
        }
        assert(keys@.take(j as int) =~= keys@);
        out
    }

    /// Renders every row of the layout, from the number row down to the space row.
    pub fn build_(&self) -> (r: Vec<Vec<VisualKey>>)
        ensures
            renders_layout(r@, self.structure),
    {
        let mut out: Vec<Vec<VisualKey>> = Vec::new();
        let mut i: usize = 0;
        while i < 5
            invariant
                i <= 5,
                out@.len() == i,
                forall|k: int| 0 <= k < i ==> renders_row((#[trigger] out@[k])@, self.structure.rows()[k]),
            decreases 5 - i,
        {
            let row = self.build_row(i);
            out.push(row);
            i = i + 1;
        }
        out
    }

    /// The keyboard as it is displayed: every row, rendered.
    pub fn build(&self) -> (r: Vec<Vec<VisualKey>>)
        ensures
            renders_layout(r@, self.structure),
    {
        self.build_()
    }
}

/// The QWERTY layout has rows of 14, 14, 13, 12 and 10 keys, from the top.
pub proof fn lemma_qwerty_row_sizes(s: KeyboardStructure)
    requires
        s.is_qwerty(),
    ensures
        s.wf(),
        s.rows()[0].len() == 14,
        s.rows()[1].len() == 14,
        s.rows()[2].len() == 13,
        s.rows()[3].len() == 12,
        s.rows()[4].len() == 10,
{
    assert(s.rows()[0].len() == qwerty_labels()[0].len());
    assert(s.rows()[1].len() == qwerty_labels()[1].len());
    assert(s.rows()[2].len() == qwerty_labels()[2].len());
    assert(s.rows()[3].len() == qwerty_labels()[3].len());
    assert(s.rows()[4].len() == qwerty_labels()[4].len());
}

/// Read row by row from the top, the QWERTY layout's labels are exactly the
/// QWERTY table, and so are all of them read in one sequence.
pub proof fn lemma_qwerty_labels(s: KeyboardStructure)
    requires
        s.is_qwerty(),
    ensures
        s.labels() == qwerty_labels(),
        s.labels().flatten() == qwerty_labels().flatten(),
{
    assert forall|i: int| 0 <= i < 5 implies #[trigger] s.labels()[i] == qwerty_labels()[i] by {
        assert(s.rows()[i].len() == qwerty_labels()[i].len());
        assert(s.labels()[i] =~= qwerty_labels()[i]);
    }
    assert(s.labels() =~= qwerty_labels());
}

/// In the rendered QWERTY layout every key is as wide as a plain key but the space
/// bar, which is 30 units wider; every key has the fixed height and the default fill.
pub proof fn lemma_qwerty_widths(s: KeyboardStructure, tree: Seq<Vec<VisualKey>>)
    requires
        s.is_qwerty(),
        renders_layout(tree, s),
    ensures
        tree.len() == 5,
        forall|i: int, j: int|
            0 <= i < 5 && 0 <= j < tree[i]@.len() ==> {
                &&& (#[trigger] tree[i]@[j]).width == KEY_WIDTH + qwerty_extra_width(i, j)
                &&& tree[i]@[j].height == KEY_HEIGHT
                &&& tree[i]@[j].fill == default_key_colour()
                &&& tree[i]@[j].label@ == qwerty_labels()[i][j]
            },
        tree[4]@[4].label@ == "SPACE"@,
        tree[4]@[4].width == KEY_WIDTH + 30,
{
    assert forall|i: int, j: int| 0 <= i < 5 && 0 <= j < tree[i]@.len() implies {
        &&& (#[trigger] tree[i]@[j]).width == KEY_WIDTH + qwerty_extra_width(i, j)
        &&& tree[i]@[j].height == KEY_HEIGHT
        &&& tree[i]@[j].fill == default_key_colour()
        &&& tree[i]@[j].label@ == qwerty_labels()[i][j]
    } by {
        assert(renders_row(tree[i]@, s.rows()[i]));
        assert(tree[i]@[j]@ == render(s.rows()[i][j], ButtonColour::Standard));
        assert(s.rows()[i][j].extra_width == qwerty_extra_width(i, j));
    }
    lemma_qwerty_row_sizes(s);
    assert(renders_row(tree[4]@, s.rows()[4]));
    assert(tree[4]@[4].width == KEY_WIDTH + qwerty_extra_width(4, 4));
}

/// Building twice from one layout gives trees with the same content: as many rows,
/// as many keys in each, and each key with the same label, size and fill.
pub proof fn lemma_build_idempotent(
    s: KeyboardStructure,
    first: Seq<Vec<VisualKey>>,
    second: Seq<Vec<VisualKey>>,
)
    requires
        renders_layout(first, s),
        renders_layout(second, s),
    ensures
        first.len() == second.len(),
        forall|i: int| 0 <= i < first.len() ==> (#[trigger] first[i])@.len() == second[i]@.len(),
        tree_view(first) == tree_view(second),
{
    assert forall|i: int| 0 <= i < first.len() implies #[trigger] tree_view(first)[i] == tree_view(
        second,
    )[i] by {
        assert(renders_row(first[i]@, s.rows()[i]));
        assert(renders_row(second[i]@, s.rows()[i]));
        assert(tree_view(first)[i] =~= tree_view(second)[i]);
    }
    assert(tree_view(first) =~= tree_view(second));
}

} // verus!
