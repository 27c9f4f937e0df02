//! The text and the layout numbers that the browser draws: which settings rows show,
//! how long texts are cut to fit, which rows of a table are visible, and the lines of
//! the header and the footer.
use crate::text::{chars_eq, chars_of, push_char, string_of, trim, trim_chars, trim_str};
use crate::models::{
    opt_view, CrosshairSettings, HudSettings, MouseSettings, PlayerData, RadarSettings, Tab,
    VideoSettings, ViewmodelSettings,
};
use crate::ui::app::AppState;
use vstd::prelude::*;
use vstd::string::StringExecFns;

verus! {

/// Whether a setting's value is worth a row: present, and neither blank nor a dash
/// once trimmed.
pub open spec fn shows_value(value: Option<&str>) -> bool {
    match value {
        Some(v) => trim(v@).len() > 0 && trim(v@) != "-"@,
        None => false,
    }
}

/// The rows among `items` whose value is worth showing, with the value as given.
pub open spec fn visible_rows_of<'a>(items: Seq<(&'static str, Option<&'a str>)>) -> Seq<
    (&'static str, &'a str),
>
    decreases items.len(),
{
    if items.len() == 0 {
        Seq::<(&'static str, &'a str)>::empty()
    } else {
        let rest = visible_rows_of(items.drop_last());
        let (key, value) = items.last();
        if shows_value(value) {
            rest.push((key, value.unwrap()))
        } else {
            rest
        }
    }
}

/// The settings rows worth showing: those whose value is present and neither blank nor
/// a dash, in order.
pub fn visible_items<'a>(items: &[(&'static str, Option<&'a str>)]) -> (r: Vec<(&'static str, &'a str)>)
    ensures
        r@ == visible_rows_of(items@),
{
    let mut r: Vec<(&'static str, &'a str)> = Vec::new();
    let mut i: usize = 0;
    assert(items@.take(0) =~= Seq::<(&'static str, Option<&'a str>)>::empty());
    while i < items.len()
        invariant
            i <= items@.len(),
            r@ == visible_rows_of(items@.take(i as int)),
        decreases items.len() - i,
    {
        let (key, value) = items[i];
        assert(items@.take(i + 1).drop_last() =~= items@.take(i as int));
        assert(items@.take(i + 1).last() == items@[i as int]);
        match value {
            Some(v) => {
                let chars = chars_of(v);
                let t = trim_chars(chars.as_slice());
                if t.len() > 0 && !chars_eq(t.as_slice(), "-") {
                    r.push((key, v));
                }
            },
            None => {},
        }
        i = i + 1;
    }
    assert(items@.take(items.len() as int) =~= items@);
    r
}

/// `value` cut to at most `width` characters: kept whole when it fits, else cut with a
/// trailing "..." when there is room for it, else all dots.
pub open spec fn truncated(value: Seq<char>, width: nat) -> Seq<char> {
    if value.len() <= width {
        value
    } else if width <= 3 {
        Seq::new(width, |i: int| '.')
    } else {
        value.take(width - 3) + "..."@
    }
}

/// `value` cut to fit in `width` columns.
pub fn truncate_to_width(value: &str, width: u16) -> (r: String)
    ensures
        r@ == truncated(value@, width as nat),
        r@.len() <= width,
{
    let w = width as usize;
    let chars = chars_of(value);
    if chars.len() <= w {
        return String::from_str(value);
    }
    if w <= 3 {
        let mut dots = String::new();
        let mut i: usize = 0;
        while i < w
            invariant
                i <= w,
                dots@ == Seq::new(i as nat, |k: int| '.'),
            decreases w - i,
        {
            push_char(&mut dots, '.');
            i = i + 1;
            assert(dots@ =~= Seq::new(i as nat, |k: int| '.'));
        }
        return dots;
    }
    let mut kept: Vec<char> = Vec::new();
    let mut i: usize = 0;
    while i < w - 3
        invariant
            w > 3,
            w < chars@.len(),
            i <= w - 3,
            kept@ == chars@.take(i as int),
        decreases w - 3 - i,
    {
        kept.push(chars[i]);
        i = i + 1;
        assert(kept@ =~= chars@.take(i as int));
    }
    let mut clipped = string_of(kept.as_slice());
    clipped.append("...");
    proof {
        reveal_strlit("...");
    }
    clipped
}

/// Which rows of a table are drawn.
#[derive(Debug, Clone, Copy, PartialEq, Eq, Structural)]
pub struct TableWindow {
    /// The first item shown.
    pub offset: usize,
    /// How many item rows fit below the header.
    pub visible_rows: usize,
    /// The height of the item rows.
    pub content_height: u16,
    /// Whether the items do not all fit, so that a scroll bar is drawn.
    pub needs_scroll: bool,
}

/// The rows that fit: the area's height less the header row, at least none.
pub open spec fn rows_below_header(area_height: u16) -> int {
    if area_height >= 1 {
        area_height - 1
    } else {
        0
    }
}

/// The rows a page holds: those below the header, at least one.
pub open spec fn table_page(area_height: u16) -> int {
    if rows_below_header(area_height) == 0 {
        1
    } else {
        rows_below_header(area_height)
    }
}

/// The largest first item: the last page starts there.
pub open spec fn max_offset(total_items: usize, area_height: u16) -> int {
    let page = table_page(area_height);
    if total_items >= page {
        total_items - page
    } else {
        0
    }
}

/// The rows of a table of `total_items` items that an area of `area_height` rows
/// shows when scrolled to `scroll_offset`; the offset is held to the last page.
pub fn table_window(total_items: usize, area_height: u16, scroll_offset: usize) -> (w: TableWindow)
    ensures
        w.content_height == rows_below_header(area_height),
        w.visible_rows == rows_below_header(area_height),
        w.offset == if scroll_offset <= max_offset(total_items, area_height) {
            scroll_offset as int
        } else {
            max_offset(total_items, area_height)
        },
        w.needs_scroll == (total_items > rows_below_header(area_height)),
{
    let content_height = area_height.saturating_sub(1);
    let visible_rows = content_height as usize;
    let page = if visible_rows == 0 {
        1
    } else {
        visible_rows
    };
    let max_offset = total_items.saturating_sub(page);
    let offset = if scroll_offset <= max_offset {
        scroll_offset
    } else {
        max_offset
    };
    TableWindow { offset, visible_rows, content_height, needs_scroll: total_items > visible_rows }
}

/// The last page is full: its first item is a page before the end, or the first item
/// when all items fit on one page.
pub proof fn lemma_last_page_full(total_items: usize, area_height: u16)
    ensures
        total_items >= table_page(area_height) ==> max_offset(total_items, area_height)
            + table_page(area_height) == total_items,
        total_items < table_page(area_height) ==> max_offset(total_items, area_height) == 0,
{
}

/// The footer line for a screen `width` columns wide: the short form below 72
/// columns, else the long form naming the theme; the copy hint only with a player.
pub open spec fn footer_line(width: u16, has_player: bool, theme_name: Seq<char>) -> Seq<char> {
    let copy_key = if has_player {
        " | CTRL+Y Copy"@
    } else {
        Seq::<char>::empty()
    };
    if width < 72 {
        "Tab switch"@ + copy_key + " | Ctrl+T theme | Esc/q"@
    } else {
        " Tab/Shift+Tab: Tabs"@ + copy_key + " | Ctrl+T: Themes ("@ + theme_name
            + ") | Esc: Back | q: Quit "@
    }
}

/// The footer line for a screen `width` columns wide.
pub fn footer_text(width: u16, has_player: bool, theme_name: &str) -> (r: String)
    ensures
        r@ == footer_line(width, has_player, theme_name@),
{
    let copy_key = if has_player {
        " | CTRL+Y Copy"
    } else {
        ""
    };
    proof {
        reveal_strlit("");
    }
    if width < 72 {
        let mut s = String::from_str("Tab switch");
        s.append(copy_key);
        s.append(" | Ctrl+T theme | Esc/q");
        s
    } else {
        let mut s = String::from_str(" Tab/Shift+Tab: Tabs");
        s.append(copy_key);
        s.append(" | Ctrl+T: Themes (");
        s.append(theme_name);
        s.append(") | Esc: Back | q: Quit ");
        s
    }
}

/// The frame of the search spinner for `step`, one of ten braille dots.
pub open spec fn spinner_frame(step: int) -> char {
    if step == 0 {
        '\u{280B}'
    } else if step == 1 {
        '\u{2819}'
    } else if step == 2 {
        '\u{2839}'
    } else if step == 3 {
        '\u{2838}'
    } else if step == 4 {
        '\u{283C}'
    } else if step == 5 {
        '\u{2834}'
    } else if step == 6 {
        '\u{2826}'
    } else if step == 7 {
        '\u{2827}'
    } else if step == 8 {
        '\u{2807}'
    } else {
        '\u{280F}'
    }
}

fn spinner_char(step: u128) -> (c: char)
    requires
        step < 10,
    ensures
        c == spinner_frame(step as int),
{
    if step == 0 {
        '\u{280B}'
    } else if step == 1 {
        '\u{2819}'
    } else if step == 2 {
        '\u{2839}'
    } else if step == 3 {
        '\u{2838}'
    } else if step == 4 {
        '\u{283C}'
    } else if step == 5 {
        '\u{2834}'
    } else if step == 6 {
        '\u{2826}'
    } else if step == 7 {
        '\u{2827}'
    } else if step == 8 {
        '\u{2807}'
    } else {
        '\u{280F}'
    }
}

/// The query the header names while a search runs: the one being looked up, else the
/// typed query when it is not blank.
pub open spec fn searching_for(loading_query: Option<Seq<char>>, search_query: Seq<char>) -> Option<
    Seq<char>,
> {
    match loading_query {
        Some(q) => Some(q),
        None => if trim(search_query).len() > 0 {
            Some(trim(search_query))
        } else {
            None
        },
    }
}

/// The header line while a search runs, `elapsed_ms` milliseconds into the animation:
/// a spinner frame that changes every tenth of a second, then what is searched for.
pub open spec fn searching_line(loading_query: Option<Seq<char>>, search_query: Seq<char>, elapsed_ms: nat) -> Seq<char> {
    let frame = seq![spinner_frame(((elapsed_ms / 100) % 10) as int)];
    match searching_for(loading_query, search_query) {
        Some(q) => frame + " Searching "@ + q + "..."@,
        None => frame + " Searching player settings..."@,
    }
}

/// The header line of a running search.
pub fn searching_text(state: &AppState, elapsed_ms: u128) -> (r: String)
    ensures
        r@ == searching_line(state@.loading_query, state@.search_query, elapsed_ms as nat),
{
    let mut s = String::new();
    push_char(&mut s, spinner_char((elapsed_ms / 100) % 10));
    assert(s@ =~= seq![spinner_frame(((elapsed_ms as nat / 100) % 10) as int)]);
    match &state.loading_query {
        Some(q) => {
            s.append(" Searching ");
            s.append(q.as_str());
            s.append("...");
        },
        None => {
            let t = trim_str(state.search_query.as_str());
            if t.unicode_len() > 0 {
                s.append(" Searching ");
                s.append(t.as_str());
                s.append("...");
            } else {
                s.append(" Searching player settings...");
            }
        },
    }
    s
}

/// Whether the text cursor shows, `elapsed_ms` milliseconds into the animation: it
/// blinks every half second.
pub fn cursor_visible(elapsed_ms: u128) -> (b: bool)
    ensures
        b == ((elapsed_ms / 500) % 2 == 0),
{
    (elapsed_ms / 500) % 2 == 0
}

/// A settings row: its label, and its value when there is one.
pub open spec fn row_view(row: (&str, Option<&str>)) -> (Seq<char>, Option<Seq<char>>) {
    (
        row.0@,
        match row.1 {
            Some(v) => Some(v@),
            None => None,
        },
    )
}

/// The views of settings rows.
pub open spec fn rows_view(rows: Seq<(&str, Option<&str>)>) -> Seq<(Seq<char>, Option<Seq<char>>)> {
    rows.map_values(|row: (&str, Option<&str>)| row_view(row))
}

/// `acc` with the row `label` for `value` added.
pub open spec fn with_row(acc: Seq<(Seq<char>, Option<Seq<char>>)>, label: Seq<char>, value: Option<String>) -> Seq<(Seq<char>, Option<Seq<char>>)> {
    acc.push((label, opt_view(value)))
}

fn opt_str<'a>(o: &'a Option<String>) -> (r: Option<&'a str>)
    ensures
        match r {
            Some(v) => opt_view(*o) == Some(v@),
            None => o is None,
        },
{
    match o {
        Some(s) => Some(s.as_str()),
        None => None,
    }
}

fn push_row<'a>(rows: &mut Vec<(&'static str, Option<&'a str>)>, label: &'static str, value: &'a Option<String>)
    ensures
        rows_view(final(rows)@) == with_row(rows_view(old(rows)@), label@, *value),
{
    let v = opt_str(value);
    rows.push((label, v));
    assert(rows_view(rows@) =~= rows_view(old(rows)@).push(row_view((label, v))));
}

/// The rows of the mouse tab.
pub open spec fn mouse_rows(s: MouseSettings) -> Seq<(Seq<char>, Option<Seq<char>>)> {
    let a = Seq::<(Seq<char>, Option<Seq<char>>)>::empty();
    let a = with_row(a, "DPI"@, s.dpi);
    let a = with_row(a, "Sensitivity"@, s.sensitivity);
    let a = with_row(a, "eDPI"@, s.edpi);
    let a = with_row(a, "Zoom Sensitivity"@, s.zoom_sensitivity_ratio_mouse);
    let a = with_row(a, "Hz"@, s.hz);
    let a = with_row(a, "Windows Sensitivity"@, s.windows_sensitivity);
    a
}

fn mouse_row_list<'a>(s: &'a MouseSettings) -> (rows: Vec<(&'static str, Option<&'a str>)>)
    ensures
        rows_view(rows@) == mouse_rows(*s),
{
    let mut rows: Vec<(&'static str, Option<&'a str>)> = Vec::new();
    assert(rows_view(rows@) =~= Seq::<(Seq<char>, Option<Seq<char>>)>::empty());
    push_row(&mut rows, "DPI", &s.dpi);
    push_row(&mut rows, "Sensitivity", &s.sensitivity);
    push_row(&mut rows, "eDPI", &s.edpi);
    push_row(&mut rows, "Zoom Sensitivity", &s.zoom_sensitivity_ratio_mouse);
    push_row(&mut rows, "Hz", &s.hz);
    push_row(&mut rows, "Windows Sensitivity", &s.windows_sensitivity);
    rows
}

/// The rows of the crosshair tab.
pub open spec fn crosshair_rows(s: CrosshairSettings) -> Seq<(Seq<char>, Option<Seq<char>>)> {
    let a = Seq::<(Seq<char>, Option<Seq<char>>)>::empty();
    let a = with_row(a, "Style"@, s.style);
    let a = with_row(a, "Follow Recoil"@, s.follow_recoil);
    let a = with_row(a, "Dot"@, s.dot);
    let a = with_row(a, "Size"@, s.size);
    let a = with_row(a, "Thickness"@, s.thickness);
    let a = with_row(a, "Gap"@, s.gap);
    let a = with_row(a, "Outline"@, s.draw_outline);
    let a = with_row(a, "Outline Thickness"@, s.outline_thickness);
    let a = with_row(a, "Color"@, s.color);
    let a = with_row(a, "R"@, s.color_r);
    let a = with_row(a, "G"@, s.color_g);
    let a = with_row(a, "B"@, s.color_b);
    let a = with_row(a, "Alpha"@, s.alpha);
    let a = with_row(a, "T Style"@, s.t_style);
    let a = with_row(a, "Deployed Weapon Gap"@, s.deployed_weapon_gap);
    let a = with_row(a, "Split Distance"@, s.split_distance);
    let a = with_row(a, "Fixed Gap"@, s.fixed_gap);
    let a = with_row(a, "Inner Split Alpha"@, s.inner_split_alpha);
    let a = with_row(a, "Outer Split Alpha"@, s.outer_split_alpha);
    let a = with_row(a, "Split Size Ratio"@, s.split_size_ratio);
    let a = with_row(a, "Sniper Width"@, s.sniper_width);
    a
}

fn crosshair_row_list<'a>(s: &'a CrosshairSettings) -> (rows: Vec<(&'static str, Option<&'a str>)>)
    ensures
        rows_view(rows@) == crosshair_rows(*s),
{
    let mut rows: Vec<(&'static str, Option<&'a str>)> = Vec::new();
    assert(rows_view(rows@) =~= Seq::<(Seq<char>, Option<Seq<char>>)>::empty());
    push_row(&mut rows, "Style", &s.style);
    push_row(&mut rows, "Follow Recoil", &s.follow_recoil);
    push_row(&mut rows, "Dot", &s.dot);
    push_row(&mut rows, "Size", &s.size);
    push_row(&mut rows, "Thickness", &s.thickness);
    push_row(&mut rows, "Gap", &s.gap);
    push_row(&mut rows, "Outline", &s.draw_outline);
    push_row(&mut rows, "Outline Thickness", &s.outline_thickness);
    push_row(&mut rows, "Color", &s.color);
    push_row(&mut rows, "R", &s.color_r);
    push_row(&mut rows, "G", &s.color_g);
    push_row(&mut rows, "B", &s.color_b);
    push_row(&mut rows, "Alpha", &s.alpha);
    push_row(&mut rows, "T Style", &s.t_style);
    push_row(&mut rows, "Deployed Weapon Gap", &s.deployed_weapon_gap);
    push_row(&mut rows, "Split Distance", &s.split_distance);
    push_row(&mut rows, "Fixed Gap", &s.fixed_gap);
    push_row(&mut rows, "Inner Split Alpha", &s.inner_split_alpha);
    push_row(&mut rows, "Outer Split Alpha", &s.outer_split_alpha);
    push_row(&mut rows, "Split Size Ratio", &s.split_size_ratio);
    push_row(&mut rows, "Sniper Width", &s.sniper_width);
    rows
}

/// The rows of the video tab.
pub open spec fn video_rows(s: VideoSettings) -> Seq<(Seq<char>, Option<Seq<char>>)> {
    let a = Seq::<(Seq<char>, Option<Seq<char>>)>::empty();
    let a = with_row(a, "Resolution"@, s.resolution);
    let a = with_row(a, "Aspect Ratio"@, s.aspect_ratio);
    let a = with_row(a, "Scaling Mode"@, s.scaling_mode);
    let a = with_row(a, "Brightness"@, s.brightness);
    let a = with_row(a, "Display Mode"@, s.display_mode);
    let a = with_row(a, "Boost Contrast"@, s.boost_contrast);
    let a = with_row(a, "VSync"@, s.vsync);
    let a = with_row(a, "NVIDIA Reflex"@, s.reflex_low_latency);
    let a = with_row(a, "G-Sync"@, s.gsync);
    let a = with_row(a, "Max FPS"@, s.max_fps);
    let a = with_row(a, "Anti-Aliasing"@, s.anti_aliasing);
    let a = with_row(a, "Shadow Quality"@, s.shadow_quality);
    let a = with_row(a, "Dynamic Shadows"@, s.dynamic_shadows);
    let a = with_row(a, "Texture Detail"@, s.texture_detail);
    let a = with_row(a, "Filtering Mode"@, s.filtering_mode);
    let a = with_row(a, "Shader Detail"@, s.shader_detail);
    let a = with_row(a, "Particle Detail"@, s.particle_detail);
    let a = with_row(a, "Ambient Occlusion"@, s.ambient_occlusion);
    let a = with_row(a, "HDR"@, s.hdr);
    let a = with_row(a, "FSR"@, s.fsr);
    a
}

fn video_row_list<'a>(s: &'a VideoSettings) -> (rows: Vec<(&'static str, Option<&'a str>)>)
    ensures
        rows_view(rows@) == video_rows(*s),
{
    let mut rows: Vec<(&'static str, Option<&'a str>)> = Vec::new();
    assert(rows_view(rows@) =~= Seq::<(Seq<char>, Option<Seq<char>>)>::empty());
    push_row(&mut rows, "Resolution", &s.resolution);
    push_row(&mut rows, "Aspect Ratio", &s.aspect_ratio);
    push_row(&mut rows, "Scaling Mode", &s.scaling_mode);
    push_row(&mut rows, "Brightness", &s.brightness);
    push_row(&mut rows, "Display Mode", &s.display_mode);
    push_row(&mut rows, "Boost Contrast", &s.boost_contrast);
    push_row(&mut rows, "VSync", &s.vsync);
    push_row(&mut rows, "NVIDIA Reflex", &s.reflex_low_latency);
    push_row(&mut rows, "G-Sync", &s.gsync);
    push_row(&mut rows, "Max FPS", &s.max_fps);
    push_row(&mut rows, "Anti-Aliasing", &s.anti_aliasing);
    push_row(&mut rows, "Shadow Quality", &s.shadow_quality);
    push_row(&mut rows, "Dynamic Shadows", &s.dynamic_shadows);
    push_row(&mut rows, "Texture Detail", &s.texture_detail);
    push_row(&mut rows, "Filtering Mode", &s.filtering_mode);
    push_row(&mut rows, "Shader Detail", &s.shader_detail);
    push_row(&mut rows, "Particle Detail", &s.particle_detail);
    push_row(&mut rows, "Ambient Occlusion", &s.ambient_occlusion);
    push_row(&mut rows, "HDR", &s.hdr);
    push_row(&mut rows, "FSR", &s.fsr);
    rows
}

/// The rows of the radar tab.
pub open spec fn radar_rows(s: RadarSettings) -> Seq<(Seq<char>, Option<Seq<char>>)> {
    let a = Seq::<(Seq<char>, Option<Seq<char>>)>::empty();
    let a = with_row(a, "Always Centered"@, s.always_centered);
    let a = with_row(a, "Rotate"@, s.rotate);
    let a = with_row(a, "Square with Scoreboard"@, s.square_with_scoreboard);
    let a = with_row(a, "HUD Scale"@, s.hud_scale);
    let a = with_row(a, "Scale"@, s.scale);
    a
}

fn radar_row_list<'a>(s: &'a RadarSettings) -> (rows: Vec<(&'static str, Option<&'a str>)>)
    ensures
        rows_view(rows@) == radar_rows(*s),
{
    let mut rows: Vec<(&'static str, Option<&'a str>)> = Vec::new();
    assert(rows_view(rows@) =~= Seq::<(Seq<char>, Option<Seq<char>>)>::empty());
    push_row(&mut rows, "Always Centered", &s.always_centered);
    push_row(&mut rows, "Rotate", &s.rotate);
    push_row(&mut rows, "Square with Scoreboard", &s.square_with_scoreboard);
    push_row(&mut rows, "HUD Scale", &s.hud_scale);
    push_row(&mut rows, "Scale", &s.scale);
    rows
}

/// The rows of the HUD tab.
pub open spec fn hud_rows(s: HudSettings) -> Seq<(Seq<char>, Option<Seq<char>>)> {
    let a = Seq::<(Seq<char>, Option<Seq<char>>)>::empty();
    let a = with_row(a, "HUD Scaling"@, s.scaling);
    let a = with_row(a, "HUD Color"@, s.color);
    a
}

fn hud_row_list<'a>(s: &'a HudSettings) -> (rows: Vec<(&'static str, Option<&'a str>)>)
    ensures
        rows_view(rows@) == hud_rows(*s),
{
    let mut rows: Vec<(&'static str, Option<&'a str>)> = Vec::new();
    assert(rows_view(rows@) =~= Seq::<(Seq<char>, Option<Seq<char>>)>::empty());
    push_row(&mut rows, "HUD Scaling", &s.scaling);
    push_row(&mut rows, "HUD Color", &s.color);
    rows
}

/// The rows of the viewmodel tab.
pub open spec fn viewmodel_rows(s: ViewmodelSettings) -> Seq<(Seq<char>, Option<Seq<char>>)> {
    let a = Seq::<(Seq<char>, Option<Seq<char>>)>::empty();
    let a = with_row(a, "FOV"@, s.fov);
    let a = with_row(a, "Offset X"@, s.offset_x);
    let a = with_row(a, "Offset Y"@, s.offset_y);
    let a = with_row(a, "Offset Z"@, s.offset_z);
    let a = with_row(a, "Preset"@, s.presetpos);
    let a = with_row(a, "Use New Bob"@, s.use_new_bob);
    a
}

fn viewmodel_row_list<'a>(s: &'a ViewmodelSettings) -> (rows: Vec<(&'static str, Option<&'a str>)>)
    ensures
        rows_view(rows@) == viewmodel_rows(*s),
{
    let mut rows: Vec<(&'static str, Option<&'a str>)> = Vec::new();
    assert(rows_view(rows@) =~= Seq::<(Seq<char>, Option<Seq<char>>)>::empty());
    push_row(&mut rows, "FOV", &s.fov);
    push_row(&mut rows, "Offset X", &s.offset_x);
    push_row(&mut rows, "Offset Y", &s.offset_y);
    push_row(&mut rows, "Offset Z", &s.offset_z);
    push_row(&mut rows, "Preset", &s.presetpos);
    push_row(&mut rows, "Use New Bob", &s.use_new_bob);
    rows
}

/// The rows of a settings tab for `p`, in the order the table lists them; the gear tab
/// lists items instead and has none.
pub open spec fn tab_rows(tab: Tab, p: PlayerData) -> Seq<(Seq<char>, Option<Seq<char>>)> {
    match tab {
        Tab::Mouse => mouse_rows(p.data.mouse),
        Tab::Crosshair => crosshair_rows(p.data.crosshair),
        Tab::Viewmodel => viewmodel_rows(p.data.viewmodel),
        Tab::Video => video_rows(p.data.video),
        Tab::Radar => radar_rows(p.data.radar),
        Tab::Hud => hud_rows(p.data.hud),
        Tab::LaunchOptions => with_row(
            Seq::<(Seq<char>, Option<Seq<char>>)>::empty(),
            "Launch Options"@,
            p.data.launch_options,
        ),
        Tab::Gear => Seq::<(Seq<char>, Option<Seq<char>>)>::empty(),
    }
}

/// The labelled settings rows of `tab` for `player`, before blank values are dropped.
pub fn settings_rows<'a>(tab: Tab, player: &'a PlayerData) -> (rows: Vec<(&'static str, Option<&'a str>)>)
    ensures
        rows_view(rows@) == tab_rows(tab, *player),
{
    let d = &player.data;
    match tab {
        Tab::Mouse => mouse_row_list(&d.mouse),
        Tab::Crosshair => crosshair_row_list(&d.crosshair),
        Tab::Viewmodel => viewmodel_row_list(&d.viewmodel),
        Tab::Video => video_row_list(&d.video),
        Tab::Radar => radar_row_list(&d.radar),
        Tab::Hud => hud_row_list(&d.hud),
        Tab::LaunchOptions => {
            let mut rows: Vec<(&'static str, Option<&'a str>)> = Vec::new();
            assert(rows_view(rows@) =~= Seq::<(Seq<char>, Option<Seq<char>>)>::empty());
            push_row(&mut rows, "Launch Options", &d.launch_options);
            rows
        },
        Tab::Gear => {
            let rows: Vec<(&'static str, Option<&'a str>)> = Vec::new();
            assert(rows_view(rows@) =~= Seq::<(Seq<char>, Option<Seq<char>>)>::empty());
            rows
        },
    }
}


/// Each row of a settings tab carries the setting its label names, in the order the
/// tab lists them: the row labelled "Gap" of the crosshair tab shows the crosshair gap,
/// the row labelled "eDPI" of the mouse tab shows the eDPI, and so on; the launch
/// options tab has its one row and the gear tab none.
pub proof fn lemma_rows_carry_their_settings(p: PlayerData)
    ensures
        tab_rows(Tab::Mouse, p).len() == 6,
        tab_rows(Tab::Mouse, p)[0] == ("DPI"@, opt_view(p.data.mouse.dpi)),
        tab_rows(Tab::Mouse, p)[1] == ("Sensitivity"@, opt_view(p.data.mouse.sensitivity)),
        tab_rows(Tab::Mouse, p)[2] == ("eDPI"@, opt_view(p.data.mouse.edpi)),
        tab_rows(Tab::Mouse, p)[3] == ("Zoom Sensitivity"@, opt_view(p.data.mouse.zoom_sensitivity_ratio_mouse)),
        tab_rows(Tab::Mouse, p)[4] == ("Hz"@, opt_view(p.data.mouse.hz)),
        tab_rows(Tab::Mouse, p)[5] == ("Windows Sensitivity"@, opt_view(p.data.mouse.windows_sensitivity)),
        tab_rows(Tab::Crosshair, p).len() == 21,
        tab_rows(Tab::Crosshair, p)[0] == ("Style"@, opt_view(p.data.crosshair.style)),
        tab_rows(Tab::Crosshair, p)[1] == ("Follow Recoil"@, opt_view(p.data.crosshair.follow_recoil)),
        tab_rows(Tab::Crosshair, p)[2] == ("Dot"@, opt_view(p.data.crosshair.dot)),
        tab_rows(Tab::Crosshair, p)[3] == ("Size"@, opt_view(p.data.crosshair.size)),
        tab_rows(Tab::Crosshair, p)[4] == ("Thickness"@, opt_view(p.data.crosshair.thickness)),
        tab_rows(Tab::Crosshair, p)[5] == ("Gap"@, opt_view(p.data.crosshair.gap)),
        tab_rows(Tab::Crosshair, p)[6] == ("Outline"@, opt_view(p.data.crosshair.draw_outline)),
        tab_rows(Tab::Crosshair, p)[7] == ("Outline Thickness"@, opt_view(p.data.crosshair.outline_thickness)),
        tab_rows(Tab::Crosshair, p)[8] == ("Color"@, opt_view(p.data.crosshair.color)),
        tab_rows(Tab::Crosshair, p)[9] == ("R"@, opt_view(p.data.crosshair.color_r)),
        tab_rows(Tab::Crosshair, p)[10] == ("G"@, opt_view(p.data.crosshair.color_g)),
        tab_rows(Tab::Crosshair, p)[11] == ("B"@, opt_view(p.data.crosshair.color_b)),
        tab_rows(Tab::Crosshair, p)[12] == ("Alpha"@, opt_view(p.data.crosshair.alpha)),
        tab_rows(Tab::Crosshair, p)[13] == ("T Style"@, opt_view(p.data.crosshair.t_style)),
        tab_rows(Tab::Crosshair, p)[14] == ("Deployed Weapon Gap"@, opt_view(p.data.crosshair.deployed_weapon_gap)),
        tab_rows(Tab::Crosshair, p)[15] == ("Split Distance"@, opt_view(p.data.crosshair.split_distance)),
        tab_rows(Tab::Crosshair, p)[16] == ("Fixed Gap"@, opt_view(p.data.crosshair.fixed_gap)),
        tab_rows(Tab::Crosshair, p)[17] == ("Inner Split Alpha"@, opt_view(p.data.crosshair.inner_split_alpha)),
        tab_rows(Tab::Crosshair, p)[18] == ("Outer Split Alpha"@, opt_view(p.data.crosshair.outer_split_alpha)),
        tab_rows(Tab::Crosshair, p)[19] == ("Split Size Ratio"@, opt_view(p.data.crosshair.split_size_ratio)),
        tab_rows(Tab::Crosshair, p)[20] == ("Sniper Width"@, opt_view(p.data.crosshair.sniper_width)),
        tab_rows(Tab::Video, p).len() == 20,
        tab_rows(Tab::Video, p)[0] == ("Resolution"@, opt_view(p.data.video.resolution)),
        tab_rows(Tab::Video, p)[1] == ("Aspect Ratio"@, opt_view(p.data.video.aspect_ratio)),
        tab_rows(Tab::Video, p)[2] == ("Scaling Mode"@, opt_view(p.data.video.scaling_mode)),
        tab_rows(Tab::Video, p)[3] == ("Brightness"@, opt_view(p.data.video.brightness)),
        tab_rows(Tab::Video, p)[4] == ("Display Mode"@, opt_view(p.data.video.display_mode)),
        tab_rows(Tab::Video, p)[5] == ("Boost Contrast"@, opt_view(p.data.video.boost_contrast)),
        tab_rows(Tab::Video, p)[6] == ("VSync"@, opt_view(p.data.video.vsync)),
        tab_rows(Tab::Video, p)[7] == ("NVIDIA Reflex"@, opt_view(p.data.video.reflex_low_latency)),
        tab_rows(Tab::Video, p)[8] == ("G-Sync"@, opt_view(p.data.video.gsync)),
        tab_rows(Tab::Video, p)[9] == ("Max FPS"@, opt_view(p.data.video.max_fps)),
        tab_rows(Tab::Video, p)[10] == ("Anti-Aliasing"@, opt_view(p.data.video.anti_aliasing)),
        tab_rows(Tab::Video, p)[11] == ("Shadow Quality"@, opt_view(p.data.video.shadow_quality)),
        tab_rows(Tab::Video, p)[12] == ("Dynamic Shadows"@, opt_view(p.data.video.dynamic_shadows)),
        tab_rows(Tab::Video, p)[13] == ("Texture Detail"@, opt_view(p.data.video.texture_detail)),
        tab_rows(Tab::Video, p)[14] == ("Filtering Mode"@, opt_view(p.data.video.filtering_mode)),
        tab_rows(Tab::Video, p)[15] == ("Shader Detail"@, opt_view(p.data.video.shader_detail)),
        tab_rows(Tab::Video, p)[16] == ("Particle Detail"@, opt_view(p.data.video.particle_detail)),
        tab_rows(Tab::Video, p)[17] == ("Ambient Occlusion"@, opt_view(p.data.video.ambient_occlusion)),
        tab_rows(Tab::Video, p)[18] == ("HDR"@, opt_view(p.data.video.hdr)),
        tab_rows(Tab::Video, p)[19] == ("FSR"@, opt_view(p.data.video.fsr)),
        tab_rows(Tab::Radar, p).len() == 5,
        tab_rows(Tab::Radar, p)[0] == ("Always Centered"@, opt_view(p.data.radar.always_centered)),
        tab_rows(Tab::Radar, p)[1] == ("Rotate"@, opt_view(p.data.radar.rotate)),
        tab_rows(Tab::Radar, p)[2] == ("Square with Scoreboard"@, opt_view(p.data.radar.square_with_scoreboard)),
        tab_rows(Tab::Radar, p)[3] == ("HUD Scale"@, opt_view(p.data.radar.hud_scale)),
        tab_rows(Tab::Radar, p)[4] == ("Scale"@, opt_view(p.data.radar.scale)),
        tab_rows(Tab::Hud, p).len() == 2,
        tab_rows(Tab::Hud, p)[0] == ("HUD Scaling"@, opt_view(p.data.hud.scaling)),
        tab_rows(Tab::Hud, p)[1] == ("HUD Color"@, opt_view(p.data.hud.color)),
        tab_rows(Tab::Viewmodel, p).len() == 6,
        tab_rows(Tab::Viewmodel, p)[0] == ("FOV"@, opt_view(p.data.viewmodel.fov)),
        tab_rows(Tab::Viewmodel, p)[1] == ("Offset X"@, opt_view(p.data.viewmodel.offset_x)),
        tab_rows(Tab::Viewmodel, p)[2] == ("Offset Y"@, opt_view(p.data.viewmodel.offset_y)),
        tab_rows(Tab::Viewmodel, p)[3] == ("Offset Z"@, opt_view(p.data.viewmodel.offset_z)),
        tab_rows(Tab::Viewmodel, p)[4] == ("Preset"@, opt_view(p.data.viewmodel.presetpos)),
        tab_rows(Tab::Viewmodel, p)[5] == ("Use New Bob"@, opt_view(p.data.viewmodel.use_new_bob)),
        tab_rows(Tab::LaunchOptions, p) == seq![("Launch Options"@, opt_view(p.data.launch_options))],
        tab_rows(Tab::Gear, p).len() == 0,
{
}


/// A row with no value, a blank value or a value of just `-` (blanks around it
/// ignored) is left out of the table; a row with any other value is shown after the
/// rows before it, with its label and value as given.
pub proof fn lemma_visible_rows_keep_real_values<'a>(
    items: Seq<(&'static str, Option<&'a str>)>,
    label: &'static str,
    value: Option<&'a str>,
)
    ensures
        ({
            let more = items.push((label, value));
            match value {
                None => visible_rows_of(more) == visible_rows_of(items),
                Some(v) => if trim(v@).len() == 0 || trim(v@) == "-"@ {
                    visible_rows_of(more) == visible_rows_of(items)
                } else {
                    visible_rows_of(more) == visible_rows_of(items).push((label, v))
                },
            }
        }),
        visible_rows_of(items).len() <= items.len(),
    decreases items.len(),
{
    let more = items.push((label, value));
    assert(more.drop_last() =~= items);
    if items.len() > 0 {
        lemma_visible_rows_keep_real_values(items.drop_last(), items.last().0, items.last().1);
        assert(items.drop_last().push(items.last()) =~= items);
    }
}

/// A value that fits the width is kept whole; a longer one is cut to exactly the
/// width, keeping its beginning and ending in dots (three of them when the width
/// leaves room for more than the dots).
pub proof fn lemma_truncated_fits(value: Seq<char>, width: nat)
    ensures
        value.len() <= width ==> truncated(value, width) == value,
        value.len() > width ==> truncated(value, width).len() == width,
        value.len() > width && width > 3 ==> {
            &&& forall|i: int| 0 <= i < width - 3 ==> #[trigger] truncated(value, width)[i] == value[i]
            &&& truncated(value, width)[width - 3] == '.'
            &&& truncated(value, width)[width - 2] == '.'
            &&& truncated(value, width)[width - 1] == '.'
        },
        value.len() > width && width <= 3 ==> forall|i: int| 0 <= i < width ==> #[trigger] truncated(value, width)[i] == '.',
{
    reveal_strlit("...");
}


/// The footer names the theme only when the screen is wide (72 columns or more), and
/// a shown player adds the copy key right after the tab hint, changing nothing else.
pub proof fn lemma_footer_parts(width: u16, theme_name: Seq<char>, other_name: Seq<char>)
    ensures
        width < 72 ==> footer_line(width, false, theme_name) == footer_line(width, false, other_name)
            && footer_line(width, true, theme_name) == footer_line(width, true, other_name),
        ({
            let hint = if width < 72 { "Tab switch"@ } else { " Tab/Shift+Tab: Tabs"@ };
            let rest = footer_line(width, false, theme_name).subrange(
                hint.len() as int,
                footer_line(width, false, theme_name).len() as int,
            );
            &&& footer_line(width, false, theme_name) == hint + rest
            &&& footer_line(width, true, theme_name) == hint + " | CTRL+Y Copy"@ + rest
        }),
        width >= 72 ==> contains_piece(footer_line(width, false, theme_name), "Themes ("@ + theme_name + ")"@),
{
    let e = Seq::<char>::empty();
    let hint = if width < 72 { "Tab switch"@ } else { " Tab/Shift+Tab: Tabs"@ };
    let tail = if width < 72 {
        " | Ctrl+T theme | Esc/q"@
    } else {
        " | Ctrl+T: Themes ("@ + theme_name + ") | Esc: Back | q: Quit "@
    };
    assert(hint + e == hint);
    assert(footer_line(width, false, theme_name) =~= hint + tail);
    assert((hint + tail).subrange(hint.len() as int, (hint + tail).len() as int) =~= tail);
    assert(footer_line(width, true, theme_name) =~= hint + " | CTRL+Y Copy"@ + tail);
    if width >= 72 {
        reveal_strlit(" | Ctrl+T: ");
        reveal_strlit(" Tab/Shift+Tab: Tabs");
        reveal_strlit(" | Ctrl+T: Themes (");
        let line = footer_line(width, false, theme_name);
        let piece = "Themes ("@ + theme_name + ")"@;
        let at = " Tab/Shift+Tab: Tabs | Ctrl+T: "@.len() as int;
        reveal_strlit(" Tab/Shift+Tab: Tabs | Ctrl+T: ");
        reveal_strlit("Themes (");
        reveal_strlit(")");
        reveal_strlit(") | Esc: Back | q: Quit ");
        assert(line.subrange(at, at + piece.len()) =~= piece);
    }
}

/// Whether `piece` occurs in `s` as a contiguous run.
pub open spec fn contains_piece(s: Seq<char>, piece: Seq<char>) -> bool {
    exists|i: int| 0 <= i && i + piece.len() <= s.len() && #[trigger] s.subrange(i, i + piece.len()) == piece
}

/// The spinner shows ten different frames, one per tenth of a second, and its
/// animation repeats every second.
pub proof fn lemma_spinner_cycles(loading_query: Option<Seq<char>>, search_query: Seq<char>, ms: nat)
    ensures
        forall|i: int, j: int| 0 <= i < j < 10 ==> spinner_frame(i) != spinner_frame(j),
        searching_line(loading_query, search_query, ms + 1000) == searching_line(loading_query, search_query, ms),
{
    assert((ms + 1000) / 100 == ms / 100 + 10);
    assert((ms / 100 + 10) % 10 == (ms / 100) % 10);
}


/// While a search runs, the header names the query being looked up; before that query
/// is recorded it names the typed query, trimmed, and with nothing typed it says it is
/// searching player settings. The spinner frame comes first.
pub proof fn lemma_searching_names_the_query(loading_query: Option<Seq<char>>, search_query: Seq<char>, ms: nat)
    ensures
        ({
            let frame = seq![spinner_frame(((ms / 100) % 10) as int)];
            searching_line(loading_query, search_query, ms) == match loading_query {
                Some(q) => frame + " Searching "@ + q + "..."@,
                None => if trim(search_query).len() > 0 {
                    frame + " Searching "@ + trim(search_query) + "..."@
                } else {
                    frame + " Searching player settings..."@
                },
            }
        }),
{
}

} // verus!
