//! The composition of a frame: what is drawn where, as plain values for the
//! program to paint. Composing reads the checklist and changes nothing.

use vstd::prelude::*;
use crate::config::UiConfig;
use crate::layout::{compute, layout, LayoutRegion, Regions};
use crate::todo::{item_views, rendered, TodoItem, TodoList, TodoListView};

verus! {

/// The colors that the frame uses.
#[derive(Clone, Copy, Debug, PartialEq, Eq, Structural)]
pub enum Color {
    Black,
    White,
    LightGreen,
}

/// How a piece of text is drawn. A color that is not set is left as the
/// terminal has it.
#[derive(Clone, Copy, Debug, PartialEq, Eq)]
pub struct Style {
    pub fg: Option<Color>,
    pub bg: Option<Color>,
    pub bold: bool,
}

/// The line drawn around a panel.
#[derive(Clone, Copy, Debug, PartialEq, Eq, Structural)]
pub enum Border {
    /// No line.
    Hidden,
    /// A thin line on all four sides.
    Plain,
    /// A thick line on all four sides.
    Thick,
}

/// Where a panel's title stands on its top row.
#[derive(Clone, Copy, Debug, PartialEq, Eq, Structural)]
pub enum Alignment {
    Left,
    Center,
}

/// A titled panel.
#[derive(Clone, Copy, Debug, PartialEq, Eq)]
pub struct Panel {
    pub area: LayoutRegion,
    pub title: &'static str,
    pub title_style: Style,
    pub title_alignment: Alignment,
    pub border: Border,
}

/// What a panel is: as the panel, with its title as characters.
pub struct PanelView {
    pub area: LayoutRegion,
    pub title: Seq<char>,
    pub title_style: Style,
    pub title_alignment: Alignment,
    pub border: Border,
}

impl View for Panel {
    type V = PanelView;

    open spec fn view(&self) -> PanelView {
        PanelView {
            area: self.area,
            title: self.title@,
            title_style: self.title_style,
            title_alignment: self.title_alignment,
            border: self.border,
        }
    }
}

/// The list panel: one line for each entry, and the mark of the selected one.
#[derive(Clone, Debug, PartialEq, Eq)]
pub struct ListPanel {
    pub panel: Panel,
    /// The lines, in the order of the entries.
    pub lines: Vec<String>,
    /// How every line is drawn.
    pub line_style: Style,
    /// How the selected line is drawn on top of that.
    pub highlight_style: Style,
    /// What is written in front of the selected line.
    pub highlight_symbol: &'static str,
    /// The position of the selected line; with `None` no line is highlighted.
    pub selected: Option<usize>,
}

/// What a list panel is.
pub struct ListPanelView {
    pub panel: PanelView,
    pub lines: Seq<Seq<char>>,
    pub line_style: Style,
    pub highlight_style: Style,
    pub highlight_symbol: Seq<char>,
    pub selected: Option<nat>,
}

/// The characters of each of `lines`.
pub open spec fn line_views(lines: Seq<String>) -> Seq<Seq<char>> {
    lines.map_values(|line: String| line@)
}

impl View for ListPanel {
    type V = ListPanelView;

    open spec fn view(&self) -> ListPanelView {
        ListPanelView {
            panel: self.panel@,
            lines: line_views(self.lines@),
            line_style: self.line_style,
            highlight_style: self.highlight_style,
            highlight_symbol: self.highlight_symbol@,
            selected: match self.selected {
                None => None,
                Some(i) => Some(i as nat),
            },
        }
    }
}

/// One frame.
#[derive(Clone, Debug, PartialEq, Eq)]
pub struct Screen {
    /// The outer frame, over the whole terminal.
    pub frame: Panel,
    /// The list, in the left region.
    pub list: ListPanel,
    /// The side panel, in the right region.
    pub side: Panel,
    /// The input box, in the bottom region.
    pub input: Panel,
}

/// What a frame is.
pub struct ScreenView {
    pub frame: PanelView,
    pub list: ListPanelView,
    pub side: PanelView,
    pub input: PanelView,
}

impl View for Screen {
    type V = ScreenView;

    open spec fn view(&self) -> ScreenView {
        ScreenView {
            frame: self.frame@,
            list: self.list@,
            side: self.side@,
            input: self.input@,
        }
    }
}

/// Text as the terminal has it.
pub open spec fn plain_style() -> Style {
    Style { fg: None, bg: None, bold: false }
}

/// The whole of a `width` by `height` terminal.
pub open spec fn full_area(width: u16, height: u16) -> LayoutRegion {
    LayoutRegion { x: 0, y: 0, width, height }
}

/// The outer frame: a thick line around `area` with the title centered.
pub open spec fn frame_panel(area: LayoutRegion) -> PanelView {
    PanelView {
        area,
        title: " Main block with round corners "@,
        title_style: plain_style(),
        title_alignment: Alignment::Center,
        border: Border::Thick,
    }
}

/// The side panel: a bold title, white on black and centered, and no line
/// around it.
pub open spec fn side_panel(area: LayoutRegion) -> PanelView {
    PanelView {
        area,
        title: "Projects"@,
        title_style: Style { fg: Some(Color::White), bg: Some(Color::Black), bold: true },
        title_alignment: Alignment::Center,
        border: Border::Hidden,
    }
}

/// The input box: a thin line around `area` and a label.
pub open spec fn input_panel(area: LayoutRegion) -> PanelView {
    PanelView {
        area,
        title: "Text"@,
        title_style: plain_style(),
        title_alignment: Alignment::Left,
        border: Border::Plain,
    }
}

/// The list panel over `data`: the line of every entry, black on white, in
/// the order of the entries; the selected line, if any, on light green, in
/// bold and behind the marker `>> `.
pub open spec fn list_panel(area: LayoutRegion, data: TodoListView) -> ListPanelView {
    ListPanelView {
        panel: PanelView {
            area,
            title: "List"@,
            title_style: plain_style(),
            title_alignment: Alignment::Left,
            border: Border::Plain,
        },
        lines: data.items.map_values(|item| rendered(item)),
        line_style: Style { fg: Some(Color::Black), bg: Some(Color::White), bold: false },
        highlight_style: Style { fg: None, bg: Some(Color::LightGreen), bold: true },
        highlight_symbol: ">> "@,
        selected: data.selected,
    }
}

/// The frame that shows `data` in `regions` of a `width` by `height`
/// terminal. All four panels are part of every frame: a panel that is
/// switched off has a region without extent.
pub open spec fn composed(
    width: u16,
    height: u16,
    regions: Regions,
    data: TodoListView,
) -> ScreenView {
    ScreenView {
        frame: frame_panel(full_area(width, height)),
        list: list_panel(regions.left, data),
        side: side_panel(regions.right),
        input: input_panel(regions.bottom),
    }
}

/// The line of every entry of `items`, in order.
fn render_lines(items: &Vec<TodoItem>) -> (lines: Vec<String>)
    ensures
        line_views(lines@) == item_views(items@).map_values(|item| rendered(item)),
{
    let mut lines: Vec<String> = Vec::new();
    let mut i: usize = 0;
    while i < items.len()
        invariant
            i <= items.len(),
            lines@.len() == i,
            forall|j: int| 0 <= j < i ==> (#[trigger] lines@[j])@ == rendered(items@[j]@),
        decreases items.len() - i,
    {
        lines.push(items[i].to_string());
        i += 1;
    }
    assert(line_views(lines@) =~= item_views(items@).map_values(|item| rendered(item)));
    lines
}

/// Composes the frame that shows `data` in `regions` of a `width` by
/// `height` terminal.
pub fn compose(width: u16, height: u16, regions: Regions, data: &TodoList) -> (screen: Screen)
    ensures
        screen@ == composed(width, height, regions, data@),
{
    let plain: Style = Style { fg: None, bg: None, bold: false };
    Screen {
        frame: Panel {
            area: LayoutRegion { x: 0, y: 0, width, height },
            title: " Main block with round corners ",
            title_style: plain,
            title_alignment: Alignment::Center,
            border: Border::Thick,
        },
        list: ListPanel {
            panel: Panel {
                area: regions.left,
                title: "List",
                title_style: plain,
                title_alignment: Alignment::Left,
                border: Border::Plain,
            },
            lines: render_lines(data.items()),
            line_style: Style { fg: Some(Color::Black), bg: Some(Color::White), bold: false },
            highlight_style: Style { fg: None, bg: Some(Color::LightGreen), bold: true },
            highlight_symbol: ">> ",
            selected: data.selected(),
        },
        side: Panel {
            area: regions.right,
            title: "Projects",
            title_style: Style { fg: Some(Color::White), bg: Some(Color::Black), bold: true },
            title_alignment: Alignment::Center,
            border: Border::Hidden,
        },
        input: Panel {
            area: regions.bottom,
            title: "Text",
            title_style: plain,
            title_alignment: Alignment::Left,
            border: Border::Plain,
        },
    }
}

/// The frame that shows `data` on a `width` by `height` terminal under the
/// display toggles `config`.
pub fn ui(width: u16, height: u16, config: UiConfig, data: &TodoList) -> (screen: Screen)
    ensures
        screen@ == composed(width, height, layout(width, height, config), data@),
{
    compose(width, height, compute(width, height, config), data)
}

} // verus!
