use vstd::prelude::*;
use vstd::string::StrSliceExecFns;

verus! {

/// Rows the animation starts at, on tall and on short terminals.
pub const TALL_ANIMATION_ROW: u16 = 3;

pub const SHORT_ANIMATION_ROW: u16 = 2;

/// Terminals taller than this many rows count as tall.
pub const TALL_THRESHOLD: u16 = 20;

/// Rows between the top of the animation and the top of the house.
pub const HOUSE_OFFSET: u16 = 7;

/// The column every line of the animation starts at.
pub const ANIMATION_COLUMN: u16 = 2;

/// Where the status line goes.
pub const STATUS_COLUMN: u16 = 2;

pub const STATUS_ROW: u16 = 1;

/// The largest row or column a terminal position can name, plus one.
pub const POSITION_LIMIT: usize = 65536;

pub open spec fn spec_animation_row(height: u16) -> u16 {
    if height > TALL_THRESHOLD {
        TALL_ANIMATION_ROW
    } else {
        SHORT_ANIMATION_ROW
    }
}

/// The row the animation starts at on a terminal `height` rows tall.
pub fn animation_row(height: u16) -> (r: u16)
    ensures
        r == spec_animation_row(height),
{
    if height > TALL_THRESHOLD {
        TALL_ANIMATION_ROW
    } else {
        SHORT_ANIMATION_ROW
    }
}

/// The row the house starts at on a terminal `height` rows tall: a fixed
/// distance below the animation.
pub fn house_row(height: u16) -> (r: u16)
    ensures
        r == spec_animation_row(height) + HOUSE_OFFSET,
{
    animation_row(height) + HOUSE_OFFSET
}

/// The column that centers a line `len` characters long on a terminal
/// `width` columns wide; a line wider than the terminal starts at column 0.
pub open spec fn spec_center_column(width: u16, len: nat) -> u16 {
    if len > width {
        0
    } else {
        ((width - len) / 2) as u16
    }
}

/// The column that centers a line `len` characters long on a terminal
/// `width` columns wide.
pub fn center_column(width: u16, len: usize) -> (r: u16)
    ensures
        r == spec_center_column(width, len as nat),
{
    if len > width as usize {
        0
    } else {
        (width - len as u16) / 2
    }
}

/// A line of text and the terminal position it is written at.
pub struct Placed {
    pub col: u16,
    pub row: u16,
    pub text: String,
}

/// The lines `lines`, each at column `col`, one per row from `row` down.
pub fn place_lines(lines: &Vec<String>, col: u16, row: u16) -> (r: Vec<Placed>)
    requires
        row as nat + lines@.len() <= POSITION_LIMIT,
    ensures
        r@.len() == lines@.len(),
        forall|i: int|
            0 <= i < r@.len() ==> (#[trigger] r@[i]).col == col && r@[i].row == row + i
                && r@[i].text@ == lines@[i]@,
{
    let mut r: Vec<Placed> = Vec::new();
    let mut i: usize = 0;
    while i < lines.len()
        invariant
            i <= lines@.len(),
            row as nat + lines@.len() <= POSITION_LIMIT,
            r@.len() == i,
            forall|j: int|
                0 <= j < i ==> (#[trigger] r@[j]).col == col && r@[j].row == row + j
                    && r@[j].text@ == lines@[j]@,
        decreases lines@.len() - i,
    {
        r.push(Placed { col, row: row + i as u16, text: lines[i].clone() });
        i = i + 1;
    }
    r
}

/// The lines `lines`, each centered on a terminal `width` columns wide by
/// its number of characters, one per row from `row` down.
pub fn centered_layout(lines: &Vec<String>, row: u16, width: u16) -> (r: Vec<Placed>)
    requires
        row as nat + lines@.len() <= POSITION_LIMIT,
    ensures
        r@.len() == lines@.len(),
        forall|i: int|
            0 <= i < r@.len() ==> (#[trigger] r@[i]).col == spec_center_column(
                width,
                lines@[i]@.len(),
            ) && r@[i].row == row + i && r@[i].text@ == lines@[i]@,
{
    let mut r: Vec<Placed> = Vec::new();
    let mut i: usize = 0;
    while i < lines.len()
        invariant
            i <= lines@.len(),
            row as nat + lines@.len() <= POSITION_LIMIT,
            r@.len() == i,
            forall|j: int|
                0 <= j < i ==> (#[trigger] r@[j]).col == spec_center_column(
                    width,
                    lines@[j]@.len(),
                ) && r@[j].row == row + j && r@[j].text@ == lines@[j]@,
        decreases lines@.len() - i,
    {
        let len = lines[i].as_str().unicode_len();
        let col = center_column(width, len);
        r.push(Placed { col, row: row + i as u16, text: lines[i].clone() });
        i = i + 1;
    }
    r
}

} // verus!
