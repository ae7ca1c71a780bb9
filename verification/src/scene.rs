//! What is drawn, and where: the screen as a value.

use vstd::prelude::*;
use crate::app::{App, AppState, Color};
use crate::layout::{split_vertical, vertical_percentage_areas, Rect};
use crate::progress::FULL;

verus! {

/// The share of the height that the title gets, in percent.
pub const TITLE_PERCENT: u16 = 20;

/// The share of the height that the panel gets, in percent.
pub const PANEL_PERCENT: u16 = 80;

/// The height of the gauge with its frame, in rows, whatever the height of the
/// screen.
pub const GAUGE_ROWS: u16 = 3;

/// The title line.
pub const TITLE: &'static str = "Process overview";

/// The title of the panel.
pub const PANEL_TITLE: &'static str = "Background processes";

/// One key binding as the instruction line shows it: what the key does, and
/// the key.
#[derive(Debug, PartialEq, Eq)]
pub struct KeyHint {
    pub action: String,
    pub key: String,
}

/// A key binding as a mathematical value.
pub struct KeyHintView {
    pub action: Seq<char>,
    pub key: Seq<char>,
}

impl View for KeyHint {
    type V = KeyHintView;

    open spec fn view(&self) -> KeyHintView {
        KeyHintView { action: self.action@, key: self.key@ }
    }
}

/// Everything on the screen: a title line, and below it a framed panel with
/// its title on the upper edge, the key bindings on the lower edge, and a
/// gauge inside.
#[derive(Debug, PartialEq, Eq)]
pub struct Scene {
    /// Where the title line goes.
    pub title_area: Rect,
    /// The text of the title line.
    pub title: String,
    /// Where the panel with the gauge goes.
    pub gauge_area: Rect,
    /// The title of the panel.
    pub panel_title: String,
    /// The key bindings, in the order in which they are shown.
    pub instructions: Vec<KeyHint>,
    /// The colour of the filled part of the gauge.
    pub color: Color,
    /// The filled part of the gauge, in hundredths of a percent of its width.
    pub ratio: u16,
    /// The text on the gauge.
    pub label: String,
}

/// The screen as a mathematical value.
pub struct SceneView {
    pub title_area: Rect,
    pub title: Seq<char>,
    pub gauge_area: Rect,
    pub panel_title: Seq<char>,
    pub instructions: Seq<KeyHintView>,
    pub color: Color,
    pub ratio: nat,
    pub label: Seq<char>,
}

impl View for Scene {
    type V = SceneView;

    open spec fn view(&self) -> SceneView {
        SceneView {
            title_area: self.title_area,
            title: self.title@,
            gauge_area: self.gauge_area,
            panel_title: self.panel_title@,
            instructions: self.instructions@.map_values(|hint: KeyHint| hint@),
            color: self.color,
            ratio: self.ratio as nat,
            label: self.label@,
        }
    }
}

/// The decimal digit for `d`, which is below ten.
pub open spec fn digit(d: nat) -> char {
    if d == 0 {
        '0'
    } else if d == 1 {
        '1'
    } else if d == 2 {
        '2'
    } else if d == 3 {
        '3'
    } else if d == 4 {
        '4'
    } else if d == 5 {
        '5'
    } else if d == 6 {
        '6'
    } else if d == 7 {
        '7'
    } else if d == 8 {
        '8'
    } else {
        '9'
    }
}

/// `n` in decimal, without leading zeros.
pub open spec fn decimal(n: nat) -> Seq<char>
    decreases n,
{
    if n < 10 {
        seq![digit(n)]
    } else {
        decimal(n / 10).push(digit(n % 10))
    }
}

/// The text on the gauge for `progress` hundredths of a percent: the percentage
/// with two decimal places and a percent sign.
pub open spec fn label_text(progress: nat) -> Seq<char> {
    decimal(progress / 100) + seq!['.', digit(progress / 10 % 10), digit(progress % 10), '%']
}

/// The key bindings that the instruction line shows.
pub open spec fn key_hints() -> Seq<KeyHintView> {
    seq![
        KeyHintView { action: "Change color"@, key: "<C>"@ },
        KeyHintView { action: "Quit"@, key: "<Q>"@ },
    ]
}

/// The screen for `state`, with the title in `title_area` and the panel at the
/// top of `band`: the gauge takes the band's column, row and width, and a
/// fixed number of rows.
pub open spec fn scene_of(state: AppState, title_area: Rect, band: Rect) -> SceneView {
    SceneView {
        title_area,
        title: TITLE@,
        gauge_area: Rect { x: band.x, y: band.y, width: band.width, height: GAUGE_ROWS },
        panel_title: PANEL_TITLE@,
        instructions: key_hints(),
        color: state.color,
        ratio: state.progress,
        label: label_text(state.progress),
    }
}

fn digit_str(d: u16) -> (text: &'static str)
    requires
        d < 10,
    ensures
        text@ == seq![digit(d as nat)],
{
    proof {
        reveal_strlit("0");
        reveal_strlit("1");
        reveal_strlit("2");
        reveal_strlit("3");
        reveal_strlit("4");
        reveal_strlit("5");
        reveal_strlit("6");
        reveal_strlit("7");
        reveal_strlit("8");
        reveal_strlit("9");
    }
    let text = if d == 0 {
        "0"
    } else if d == 1 {
        "1"
    } else if d == 2 {
        "2"
    } else if d == 3 {
        "3"
    } else if d == 4 {
        "4"
    } else if d == 5 {
        "5"
    } else if d == 6 {
        "6"
    } else if d == 7 {
        "7"
    } else if d == 8 {
        "8"
    } else {
        "9"
    };
    assert(text@ =~= seq![digit(d as nat)]);
    text
}

fn decimal_string(n: u16) -> (text: String)
    ensures
        text@ == decimal(n as nat),
    decreases n,
{
    if n < 10 {
        String::from_str(digit_str(n))
    } else {
        let mut text = decimal_string(n / 10);
        text.append(digit_str(n % 10));
        text
    }
}

/// The text on the gauge for `progress` hundredths of a percent.
pub fn gauge_label(progress: u16) -> (label: String)
    ensures
        label@ == label_text(progress as nat),
{
    proof {
        reveal_strlit(".");
        reveal_strlit("%");
    }
    let mut label = decimal_string(progress / 100);
    label.append(".");
    label.append(digit_str(progress / 10 % 10));
    label.append(digit_str(progress % 10));
    label.append("%");
    assert(label@ =~= label_text(progress as nat));
    label
}

impl App {
    /// The screen for this state, with the title in `title_area` and the panel
    /// at the top of `band`.
    pub fn compose(&self, title_area: Rect, band: Rect) -> (scene: Scene)
        ensures
            scene@ == scene_of(self@, title_area, band),
            scene.ratio <= FULL,
    {
        let progress = self.progress();
        let mut instructions: Vec<KeyHint> = Vec::new();
        instructions.push(KeyHint { action: String::from_str("Change color"), key: String::from_str("<C>") });
        instructions.push(KeyHint { action: String::from_str("Quit"), key: String::from_str("<Q>") });
        let scene = Scene {
            title_area,
            title: String::from_str(TITLE),
            gauge_area: Rect { x: band.x, y: band.y, width: band.width, height: GAUGE_ROWS },
            panel_title: String::from_str(PANEL_TITLE),
            instructions,
            color: self.color(),
            ratio: progress,
            label: gauge_label(progress),
        };
        assert(scene@.instructions =~= key_hints());
        scene
    }

    /// The screen for this state on a drawing area of any size. The upper
    /// fifth of `area` holds the title, the rest is the band for the panel,
    /// and the panel with the gauge takes the first rows of that band.
    pub fn render(&self, area: Rect) -> (scene: Scene)
        ensures
            scene@ == scene_of(
                self@,
                vertical_percentage_areas(area, TITLE_PERCENT, PANEL_PERCENT).0,
                vertical_percentage_areas(area, TITLE_PERCENT, PANEL_PERCENT).1,
            ),
            scene.title_area.x == area.x,
            scene.title_area.width == area.width,
            scene.gauge_area.x == area.x,
            scene.gauge_area.width == area.width,
            scene.gauge_area.height == GAUGE_ROWS,
            scene.ratio <= FULL,
    {
        let (title_area, band) = split_vertical(area, TITLE_PERCENT, PANEL_PERCENT);
        self.compose(title_area, band)
    }
}

} // verus!
