//! Immutable configuration of the widget: grid dimensions, cell metrics, the
//! three-state palette, the label font and the anchoring mode.

use vstd::prelude::*;

verus! {

/// A milli-unit count per whole unit: lengths are kept in milli-pixels and
/// color channels in thousandths.
pub const MILLI: u64 = 1000;

/// The most rows, or columns, that a grid can have: a cell coordinate is an
/// `i32`.
pub const MAX_GRID_SIDE: u64 = 0x8000_0000;

/// An exact rational number `num / den`.
#[derive(Clone, Copy, Debug, PartialEq, Eq, Structural)]
pub struct Fraction {
    pub num: i128,
    pub den: u64,
}

impl Fraction {
    /// The whole number `n`.
    pub fn whole(n: i64) -> (r: Fraction)
        ensures
            r.num == n,
            r.den == 1,
    {
        Fraction { num: n as i128, den: 1 }
    }
}

/// A length as the layout engine of the host understands it.
#[derive(Clone, Copy, Debug, PartialEq, Eq, Structural)]
pub enum Val {
    Auto,
    Px(Fraction),
    Percent(Fraction),
    Vw(Fraction),
    Vh(Fraction),
    VMin(Fraction),
    VMax(Fraction),
}

/// A color with channels in thousandths: `1000` is full intensity.
#[derive(Clone, Copy, Debug, PartialEq, Eq, Structural)]
pub struct Color {
    pub r: u16,
    pub g: u16,
    pub b: u16,
    pub a: u16,
}

impl Color {
    pub fn rgba(r: u16, g: u16, b: u16, a: u16) -> (c: Color)
        ensures
            c == (Color { r, g, b, a }),
    {
        Color { r, g, b, a }
    }

    /// Opaque mid gray.
    pub fn gray() -> (c: Color)
        ensures
            c == (Color { r: 500, g: 500, b: 500, a: 1000 }),
    {
        Color { r: 500, g: 500, b: 500, a: 1000 }
    }
}

/// The three visual treatments of a cell.
#[derive(Clone, Copy, Debug, PartialEq, Eq, Structural)]
pub enum Palette {
    Normal,
    Hover,
    Selected,
}

/// Configuration of the widget; lengths are in milli-pixels.
#[derive(Clone, Debug)]
pub struct InventoryStyle {
    pub rows: u64,
    pub columns: u64,
    pub normal_border_color: Color,
    pub hover_border_color: Color,
    pub selected_border_color: Color,
    pub icon_size: u32,
    pub icon_margin: u32,
    pub icon_padding: u32,
    pub border_width: u32,
    pub normal_background_color: Color,
    pub hover_background_color: Color,
    pub selected_background_color: Color,
    /// Path of the label font.
    pub default_font: String,
    /// Label font size, in thousandths of a point.
    pub default_font_size: u32,
    pub default_font_color: Color,
    pub positioning: Val,
}

impl InventoryStyle {
    /// A usable configuration: a non-empty grid whose cells are larger than
    /// their margin and padding together, with rows and columns that a
    /// `GridCoordinate` can number.
    pub open spec fn wf(&self) -> bool {
        &&& 0 < self.rows <= MAX_GRID_SIDE
        &&& 0 < self.columns <= MAX_GRID_SIDE
        &&& self.icon_margin + self.icon_padding < self.icon_size
    }

    /// Whether this configuration is usable.
    pub fn is_valid(&self) -> (r: bool)
        ensures
            r == self.wf(),
    {
        0 < self.rows && self.rows <= MAX_GRID_SIDE && 0 < self.columns && self.columns
            <= MAX_GRID_SIDE && (self.icon_margin as u64) + (self.icon_padding as u64)
            < self.icon_size as u64
    }

    /// The side of a cell, in milli-pixels.
    pub open spec fn grid_size(&self) -> int {
        self.icon_size as int
    }

    pub open spec fn total_width(&self) -> int {
        self.grid_size() * self.columns
    }

    pub open spec fn total_height(&self) -> int {
        self.grid_size() * self.rows
    }

    /// The grid's footprint fits in 96 bits.
    pub proof fn lemma_footprint_bounds(&self)
        ensures
            0 <= self.total_width() < 0x1_0000_0000_0000_0000_0000_0000,
            0 <= self.total_height() < 0x1_0000_0000_0000_0000_0000_0000,
    {
        let g = self.grid_size();
        assert(0 <= g < 0x1_0000_0000);
        assert(0 <= g * self.columns < 0x1_0000_0000_0000_0000_0000_0000) by (nonlinear_arith)
            requires
                0 <= g < 0x1_0000_0000,
                0 <= self.columns <= u64::MAX,
        ;
        assert(0 <= g * self.rows < 0x1_0000_0000_0000_0000_0000_0000) by (nonlinear_arith)
            requires
                0 <= g < 0x1_0000_0000,
                0 <= self.rows <= u64::MAX,
        ;
    }

    /// The background color that palette `p` stands for.
    pub open spec fn background_of(&self, p: Palette) -> Color {
        match p {
            Palette::Normal => self.normal_background_color,
            Palette::Hover => self.hover_background_color,
            Palette::Selected => self.selected_background_color,
        }
    }

    /// The border color that palette `p` stands for.
    pub open spec fn border_of(&self, p: Palette) -> Color {
        match p {
            Palette::Normal => self.normal_border_color,
            Palette::Hover => self.hover_border_color,
            Palette::Selected => self.selected_border_color,
        }
    }

    /// The same configuration with a grid of `rows` by `columns` cells.
    pub fn with_grid(self, rows: u64, columns: u64) -> (r: Self)
        ensures
            r == (InventoryStyle { rows, columns, ..self }),
    {
        InventoryStyle { rows, columns, ..self }
    }

    /// The same configuration with other cell metrics, in milli-pixels.
    pub fn with_icon_metrics(self, size: u32, margin: u32, padding: u32, border: u32) -> (r: Self)
        ensures
            r == (InventoryStyle {
                icon_size: size,
                icon_margin: margin,
                icon_padding: padding,
                border_width: border,
                ..self
            }),
    {
        InventoryStyle {
            icon_size: size,
            icon_margin: margin,
            icon_padding: padding,
            border_width: border,
            ..self
        }
    }

    /// The same configuration with another anchoring mode.
    pub fn with_positioning(self, positioning: Val) -> (r: Self)
        ensures
            r == (InventoryStyle { positioning, ..self }),
    {
        InventoryStyle { positioning, ..self }
    }

    pub fn background_color(&self, p: Palette) -> (r: Color)
        ensures
            r == self.background_of(p),
    {
        match p {
            Palette::Normal => self.normal_background_color,
            Palette::Hover => self.hover_background_color,
            Palette::Selected => self.selected_background_color,
        }
    }

    pub fn border_color(&self, p: Palette) -> (r: Color)
        ensures
            r == self.border_of(p),
    {
        match p {
            Palette::Normal => self.normal_border_color,
            Palette::Hover => self.hover_border_color,
            Palette::Selected => self.selected_border_color,
        }
    }

    pub fn get_positioning(&self) -> (r: Val)
        ensures
            r == self.positioning,
    {
        self.positioning
    }

    pub fn get_icon_size(&self) -> (r: u32)
        ensures
            r == self.icon_size,
    {
        self.icon_size
    }

    pub fn get_icon_padding(&self) -> (r: u32)
        ensures
            r == self.icon_padding,
    {
        self.icon_padding
    }

    pub fn get_icon_margin(&self) -> (r: u32)
        ensures
            r == self.icon_margin,
    {
        self.icon_margin
    }

    pub fn get_border_with(&self) -> (r: u32)
        ensures
            r == self.border_width,
    {
        self.border_width
    }

    pub fn get_rows(&self) -> (r: u64)
        ensures
            r == self.rows,
    {
        self.rows
    }

    pub fn get_columns(&self) -> (r: u64)
        ensures
            r == self.columns,
    {
        self.columns
    }

    pub fn get_normal_font(&self) -> (r: &String)
        ensures
            *r == self.default_font,
    {
        &self.default_font
    }

    pub fn get_normal_font_size(&self) -> (r: u32)
        ensures
            r == self.default_font_size,
    {
        self.default_font_size
    }

    pub fn get_normal_font_color(&self) -> (r: &Color)
        ensures
            *r == self.default_font_color,
    {
        &self.default_font_color
    }

    pub fn get_selected_background_color(&self) -> (r: &Color)
        ensures
            *r == self.selected_background_color,
    {
        &self.selected_background_color
    }

    pub fn get_selected_border_color(&self) -> (r: &Color)
        ensures
            *r == self.selected_border_color,
    {
        &self.selected_border_color
    }

    pub fn get_hover_background_color(&self) -> (r: &Color)
        ensures
            *r == self.hover_background_color,
    {
        &self.hover_background_color
    }

    pub fn get_hover_border_color(&self) -> (r: &Color)
        ensures
            *r == self.hover_border_color,
    {
        &self.hover_border_color
    }

    pub fn get_normal_background_color(&self) -> (r: &Color)
        ensures
            *r == self.normal_background_color,
    {
        &self.normal_background_color
    }

    pub fn get_normal_border_color(&self) -> (r: &Color)
        ensures
            *r == self.normal_border_color,
    {
        &self.normal_border_color
    }

    /// The side of a cell, in milli-pixels.
    pub fn get_grid_size(&self) -> (r: u64)
        ensures
            r == self.grid_size(),
    {
        self.icon_size as u64
    }

    /// Height of the whole grid, in milli-pixels.
    pub fn get_total_height(&self) -> (r: u128)
        ensures
            r == self.total_height(),
    {
        let g = self.get_grid_size();
        assert(g * self.rows <= u128::MAX) by (nonlinear_arith)
            requires
                g <= u64::MAX,
                self.rows <= u64::MAX,
        ;
        g as u128 * self.rows as u128
    }

    /// Width of the whole grid, in milli-pixels.
    pub fn get_total_width(&self) -> (r: u128)
        ensures
            r == self.total_width(),
    {
        let g = self.get_grid_size();
        assert(g * self.columns <= u128::MAX) by (nonlinear_arith)
            requires
                g <= u64::MAX,
                self.columns <= u64::MAX,
        ;
        g as u128 * self.columns as u128
    }
}

impl Default for InventoryStyle {
    /// A grid of six rows and eight columns of 96-pixel cells, centered.
    fn default() -> (r: Self)
        ensures
            r.wf(),
            r.rows == 6,
            r.columns == 8,
            r.normal_border_color == (Color { r: 0, g: 0, b: 0, a: 0 }),
            r.hover_border_color == (Color { r: 500, g: 500, b: 500, a: 1000 }),
            r.selected_border_color == (Color { r: 500, g: 500, b: 500, a: 1000 }),
            r.icon_size == 96_000,
            r.icon_margin == 2_500,
            r.icon_padding == 2_500,
            r.border_width == 2_000,
            r.normal_background_color == (Color { r: 1000, g: 1000, b: 1000, a: 500 }),
            r.hover_background_color == (Color { r: 1000, g: 1000, b: 1000, a: 750 }),
            r.selected_background_color == (Color { r: 1000, g: 1000, b: 1000, a: 750 }),
            r.default_font@ == "Apocalypse/HUD/Fonts/SairaCondensed/SairaCondensed-Regular.ttf"@,
            r.default_font_size == 24_000,
            r.default_font_color == (Color { r: 500, g: 500, b: 500, a: 1000 }),
            r.positioning == Val::Auto,
    {
        InventoryStyle {
            rows: 6,
            columns: 8,
            normal_border_color: Color::rgba(0, 0, 0, 0),
            hover_border_color: Color::gray(),
            selected_border_color: Color::gray(),
            icon_size: 96_000,
            icon_margin: 2_500,
            icon_padding: 2_500,
            border_width: 2_000,
            normal_background_color: Color::rgba(1000, 1000, 1000, 500),
            hover_background_color: Color::rgba(1000, 1000, 1000, 750),
            selected_background_color: Color::rgba(1000, 1000, 1000, 750),
            default_font: "Apocalypse/HUD/Fonts/SairaCondensed/SairaCondensed-Regular.ttf".to_owned(),
            default_font_size: 24_000,
            default_font_color: Color::gray(),
            positioning: Val::Auto,
        }
    }
}

} // verus!
