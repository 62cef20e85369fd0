//! Keyboard geometry: mapping band columns and intensity rows onto key positions.
use vstd::prelude::*;

use crate::themes::ThemeChoice;
use crate::{MAX_DB, MIN_DB};

verus! {

/// A key position as (column, row), where (0, 0) is the bottom-left key.
pub struct KeyboardCoord(pub u8, pub u8);

/// The device's absolute (column, row) of column `x`, row `y` counted from the bottom,
/// on a layout of `rows` rows whose top row is `top_row`; the two keys beside the
/// right shift key trade places.
pub open spec fn absolute_coord(x: u8, y: u8, rows: u8, top_row: u8) -> (u8, u8) {
    let row = (rows - 1 - y + top_row) as u8;
    if x == 13 && row == 4 {
        (12u8, 4u8)
    } else if x == 12 && row == 4 {
        (13u8, 4u8)
    } else {
        (x, row)
    }
}

impl KeyboardCoord {
    /// The device's (column, row) of this position on a layout of `rows` rows whose
    /// top row is `top_row`.
    pub fn to_absolute(&self, rows: u8, top_row: u8) -> (r: (u8, u8))
        requires
            self.1 < rows,
            rows - 1 - self.1 + top_row <= 255,
        ensures
            r == absolute_coord(self.0, self.1, rows, top_row),
    {
        let row: u8 = rows - 1 - self.1 + top_row;
        if self.0 == 13 && row == 4 {
            (12, 4)
        } else if self.0 == 12 && row == 4 {
            (13, 4)
        } else {
            (self.0, row)
        }
    }

    /// [`KeyboardCoord::to_absolute`] as (row, column).
    pub fn to_absolute_transposed(&self, rows: u8, top_row: u8) -> (r: (u8, u8))
        requires
            self.1 < rows,
            rows - 1 - self.1 + top_row <= 255,
        ensures
            r == (absolute_coord(self.0, self.1, rows, top_row).1, absolute_coord(
                self.0,
                self.1,
                rows,
                top_row,
            ).0),
    {
        let abs = self.to_absolute(rows, top_row);
        (abs.1, abs.0)
    }
}

/// The kinds of keyboard the display can drive.
#[derive(Debug, Clone, Copy, PartialEq, Eq, Structural)]
pub enum WootingDeviceType {
    Keyboard,
    Keyboard60,
    KeypadThreeKey,
    KeyboardTKL,
}

impl WootingDeviceType {
    /// The first usable row: the compact board has no function row.
    pub fn first_row(&self) -> (r: u8)
        ensures
            r == (if *self == WootingDeviceType::Keyboard60 { 1u8 } else { 0u8 }),
    {
        match self {
            WootingDeviceType::Keyboard60 => 1,
            _ => 0,
        }
    }
}

/// The layout of the keyboard that shows the spectrum, and the theme it is drawn in.
pub struct Keyboard {
    theme: ThemeChoice,
    max_row: u8,
    first_row: u8,
    cols: u8,
}

impl Keyboard {
    /// The layout stays consistent: the first row is not beyond the last.
    #[verifier::type_invariant]
    spec fn inv(&self) -> bool {
        self.first_row <= self.max_row
    }

    /// The theme the keyboard is drawn in.
    pub closed spec fn spec_theme(&self) -> ThemeChoice {
        self.theme
    }

    /// The number of rows the device reports.
    pub closed spec fn spec_max_row(&self) -> u8 {
        self.max_row
    }

    /// The first usable row.
    pub closed spec fn spec_first_row(&self) -> u8 {
        self.first_row
    }

    /// The number of columns.
    pub closed spec fn spec_cols(&self) -> u8 {
        self.cols
    }

    /// A keyboard with `max_row` rows of which the first usable is `first_row`,
    /// `cols` columns wide, drawn in `theme`.
    pub fn new(theme: ThemeChoice, max_row: u8, first_row: u8, cols: u8) -> (r: Self)
        requires
            first_row <= max_row,
        ensures
            r.spec_theme() == theme,
            r.spec_max_row() == max_row,
            r.spec_first_row() == first_row,
            r.spec_cols() == cols,
    {
        Keyboard { theme, max_row, first_row, cols }
    }

    /// A keyboard of the given kind, `max_rows` rows and `max_columns` columns,
    /// drawn in `theme`.
    pub fn from_meta_and_theme(device: WootingDeviceType, max_rows: u8, max_columns: u8, theme: ThemeChoice) -> (r: Self)
        requires
            (if device == WootingDeviceType::Keyboard60 { 1u8 } else { 0u8 }) <= max_rows,
        ensures
            r.spec_theme() == theme,
            r.spec_max_row() == max_rows,
            r.spec_first_row() == (if device == WootingDeviceType::Keyboard60 { 1u8 } else { 0u8 }),
            r.spec_cols() == max_columns,
    {
        let first_row = device.first_row();
        Self::new(theme, max_rows, first_row, max_columns)
    }

    /// Draws the keyboard in `theme` from now on.
    pub fn set_theme(&mut self, theme: ThemeChoice)
        ensures
            final(self).spec_theme() == theme,
            final(self).spec_max_row() == old(self).spec_max_row(),
            final(self).spec_first_row() == old(self).spec_first_row(),
            final(self).spec_cols() == old(self).spec_cols(),
    {
        proof {
            use_type_invariant(&*self);
        }
        self.theme = theme;
    }

    /// The theme the keyboard is drawn in.
    pub fn theme(&self) -> (r: ThemeChoice)
        ensures
            r == self.spec_theme(),
    {
        self.theme
    }

    /// The number of columns, one per band.
    pub fn cols(&self) -> (r: u8)
        ensures
            r == self.spec_cols(),
    {
        self.cols
    }

    /// The number of usable rows.
    pub fn rows(&self) -> (r: u8)
        ensures
            r == self.spec_max_row() - self.spec_first_row(),
    {
        proof {
            use_type_invariant(self);
        }
        self.max_row - self.first_row
    }

    /// The intensity one row stands for, in hundredths of a decibel: the shown
    /// range split evenly over the rows.
    pub fn get_db_step(&self) -> (r: i32)
        requires
            self.spec_max_row() > self.spec_first_row(),
        ensures
            r == (MAX_DB - MIN_DB) as int / (self.spec_max_row() - self.spec_first_row()) as int,
    {
        let rows = self.rows();
        ((MAX_DB - MIN_DB) as u32 / rows as u32) as i32
    }

    /// The device's (row, column) of band column `col`, intensity row `row` counted
    /// from the bottom.
    pub fn rearrange_coord(&self, col: u8, row: u8) -> (r: (u8, u8))
        requires
            row < self.spec_max_row() - self.spec_first_row(),
        ensures
            ({
                let abs = absolute_coord(
                    col,
                    row,
                    (self.spec_max_row() - self.spec_first_row()) as u8,
                    self.spec_first_row(),
                );
                r == (abs.1, abs.0)
            }),
    {
        proof {
            use_type_invariant(self);
        }
        KeyboardCoord(col, row).to_absolute_transposed(self.rows(), self.first_row)
    }
}

} // verus!
