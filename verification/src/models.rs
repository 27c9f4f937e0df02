//! The settings of a pro player, and the tabs that browse them.
use vstd::prelude::*;

verus! {

/// The view of an optional string.
pub open spec fn opt_view(o: Option<String>) -> Option<Seq<char>> {
    match o {
        Some(s) => Some(s@),
        None => None,
    }
}

/// A player's page: the name and address it was found under, and its settings.
#[derive(Debug, Clone, Default)]
pub struct PlayerData {
    pub player: String,
    pub slug: String,
    pub url: String,
    pub data: PlayerSettings,
}

/// Every settings group of a player.
#[derive(Debug, Clone, Default)]
pub struct PlayerSettings {
    pub mouse: MouseSettings,
    pub crosshair: CrosshairSettings,
    pub viewmodel: ViewmodelSettings,
    pub video: VideoSettings,
    pub radar: RadarSettings,
    pub hud: HudSettings,
    pub bob: BobSettings,
    pub launch_options: Option<String>,
    pub gear: Vec<GearItem>,
}

#[derive(Debug, Clone, Default)]
pub struct MouseSettings {
    pub dpi: Option<String>,
    pub sensitivity: Option<String>,
    pub edpi: Option<String>,
    pub zoom_sensitivity_ratio_mouse: Option<String>,
    pub hz: Option<String>,
    pub windows_sensitivity: Option<String>,
}

/// The crosshair settings; each field holds the text of one console variable.
#[derive(Debug, Clone, Default)]
pub struct CrosshairSettings {
    pub import_code: Option<String>,
    pub command: Option<String>,
    pub style: Option<String>,
    pub follow_recoil: Option<String>,
    pub dot: Option<String>,
    pub size: Option<String>,
    pub thickness: Option<String>,
    pub gap: Option<String>,
    pub draw_outline: Option<String>,
    pub outline_thickness: Option<String>,
    pub color: Option<String>,
    pub color_r: Option<String>,
    pub color_g: Option<String>,
    pub color_b: Option<String>,
    pub use_alpha: Option<String>,
    pub alpha: Option<String>,
    pub t_style: Option<String>,
    pub deployed_weapon_gap: Option<String>,
    pub split_distance: Option<String>,
    pub fixed_gap: Option<String>,
    pub inner_split_alpha: Option<String>,
    pub outer_split_alpha: Option<String>,
    pub split_size_ratio: Option<String>,
    pub sniper_width: Option<String>,
}

/// The crosshair settings as character sequences.
pub struct CrosshairView {
    pub import_code: Option<Seq<char>>,
    pub command: Option<Seq<char>>,
    pub style: Option<Seq<char>>,
    pub follow_recoil: Option<Seq<char>>,
    pub dot: Option<Seq<char>>,
    pub size: Option<Seq<char>>,
    pub thickness: Option<Seq<char>>,
    pub gap: Option<Seq<char>>,
    pub draw_outline: Option<Seq<char>>,
    pub outline_thickness: Option<Seq<char>>,
    pub color: Option<Seq<char>>,
    pub color_r: Option<Seq<char>>,
    pub color_g: Option<Seq<char>>,
    pub color_b: Option<Seq<char>>,
    pub use_alpha: Option<Seq<char>>,
    pub alpha: Option<Seq<char>>,
    pub t_style: Option<Seq<char>>,
    pub deployed_weapon_gap: Option<Seq<char>>,
    pub split_distance: Option<Seq<char>>,
    pub fixed_gap: Option<Seq<char>>,
    pub inner_split_alpha: Option<Seq<char>>,
    pub outer_split_alpha: Option<Seq<char>>,
    pub split_size_ratio: Option<Seq<char>>,
    pub sniper_width: Option<Seq<char>>,
}

impl View for CrosshairSettings {
    type V = CrosshairView;

    open spec fn view(&self) -> CrosshairView {
        CrosshairView {
            import_code: opt_view(self.import_code),
            command: opt_view(self.command),
            style: opt_view(self.style),
            follow_recoil: opt_view(self.follow_recoil),
            dot: opt_view(self.dot),
            size: opt_view(self.size),
            thickness: opt_view(self.thickness),
            gap: opt_view(self.gap),
            draw_outline: opt_view(self.draw_outline),
            outline_thickness: opt_view(self.outline_thickness),
            color: opt_view(self.color),
            color_r: opt_view(self.color_r),
            color_g: opt_view(self.color_g),
            color_b: opt_view(self.color_b),
            use_alpha: opt_view(self.use_alpha),
            alpha: opt_view(self.alpha),
            t_style: opt_view(self.t_style),
            deployed_weapon_gap: opt_view(self.deployed_weapon_gap),
            split_distance: opt_view(self.split_distance),
            fixed_gap: opt_view(self.fixed_gap),
            inner_split_alpha: opt_view(self.inner_split_alpha),
            outer_split_alpha: opt_view(self.outer_split_alpha),
            split_size_ratio: opt_view(self.split_size_ratio),
            sniper_width: opt_view(self.sniper_width),
        }
    }
}

#[derive(Debug, Clone, Default)]
pub struct ViewmodelSettings {
    pub fov: Option<String>,
    pub offset_x: Option<String>,
    pub offset_y: Option<String>,
    pub offset_z: Option<String>,
    pub presetpos: Option<String>,
    pub use_new_bob: Option<String>,
}

#[derive(Debug, Clone, Default)]
pub struct VideoSettings {
    pub resolution: Option<String>,
    pub aspect_ratio: Option<String>,
    pub scaling_mode: Option<String>,
    pub brightness: Option<String>,
    pub display_mode: Option<String>,
    pub boost_contrast: Option<String>,
    pub vsync: Option<String>,
    pub reflex_low_latency: Option<String>,
    pub gsync: Option<String>,
    pub max_fps: Option<String>,
    pub anti_aliasing: Option<String>,
    pub shadow_quality: Option<String>,
    pub dynamic_shadows: Option<String>,
    pub texture_detail: Option<String>,
    pub filtering_mode: Option<String>,
    pub shader_detail: Option<String>,
    pub particle_detail: Option<String>,
    pub ambient_occlusion: Option<String>,
    pub hdr: Option<String>,
    pub fsr: Option<String>,
}

#[derive(Debug, Clone, Default)]
pub struct RadarSettings {
    pub always_centered: Option<String>,
    pub rotate: Option<String>,
    pub square_with_scoreboard: Option<String>,
    pub hud_scale: Option<String>,
    pub scale: Option<String>,
}

#[derive(Debug, Clone, Default)]
pub struct HudSettings {
    pub scaling: Option<String>,
    pub color: Option<String>,
}

#[derive(Debug, Clone, Default)]
pub struct BobSettings {
    pub lower_amt: Option<String>,
    pub amt_lat: Option<String>,
    pub amt_vert: Option<String>,
    pub cycle: Option<String>,
}

#[derive(Debug, Clone, Default)]
pub struct GearItem {
    pub name: String,
    pub category: String,
}

/// A settings tab of the browser.
#[derive(Debug, Clone, Copy, PartialEq, Eq, Structural)]
pub enum Tab {
    Mouse,
    Crosshair,
    Viewmodel,
    Video,
    Radar,
    Hud,
    Gear,
    LaunchOptions,
}

/// The number of tabs in the cycle that `next` and `prev` walk.
pub const TAB_COUNT: usize = 7;

/// The tab at position `i` of the cycle (for `0 <= i < TAB_COUNT`).
pub open spec fn tab_at(i: int) -> Tab {
    if i == 0 {
        Tab::Mouse
    } else if i == 1 {
        Tab::Crosshair
    } else if i == 2 {
        Tab::Viewmodel
    } else if i == 3 {
        Tab::Video
    } else if i == 4 {
        Tab::Radar
    } else if i == 5 {
        Tab::Hud
    } else {
        Tab::LaunchOptions
    }
}

/// The position of `t` in the cycle; the gear tab stands outside it and counts as 0.
pub open spec fn tab_position(t: Tab) -> int {
    match t {
        Tab::Mouse => 0,
        Tab::Crosshair => 1,
        Tab::Viewmodel => 2,
        Tab::Video => 3,
        Tab::Radar => 4,
        Tab::Hud => 5,
        Tab::Gear => 0,
        Tab::LaunchOptions => 6,
    }
}

/// The tab after `t` in the cycle, wrapping from the last to the first.
pub open spec fn next_tab(t: Tab) -> Tab {
    tab_at((tab_position(t) + 1) % (TAB_COUNT as int))
}

/// The tab before `t` in the cycle, wrapping from the first to the last.
pub open spec fn prev_tab(t: Tab) -> Tab {
    if tab_position(t) == 0 {
        tab_at(TAB_COUNT - 1int)
    } else {
        tab_at(tab_position(t) - 1)
    }
}

/// The title of a tab.
pub open spec fn tab_name(t: Tab) -> Seq<char> {
    match t {
        Tab::Mouse => "Mouse"@,
        Tab::Crosshair => "Crosshair"@,
        Tab::Viewmodel => "Viewmodel"@,
        Tab::Video => "Video"@,
        Tab::Radar => "Radar"@,
        Tab::Hud => "HUD"@,
        Tab::Gear => "Gear"@,
        Tab::LaunchOptions => "Launch Options"@,
    }
}

/// The short title of a tab, as the tab bar shows it.
pub open spec fn tab_short_name(t: Tab) -> Seq<char> {
    match t {
        Tab::LaunchOptions => "Launch"@,
        _ => tab_name(t),
    }
}

impl Tab {
    /// The tabs of the cycle, in order.
    pub const ALL: [Tab; 7] = [
        Tab::Mouse,
        Tab::Crosshair,
        Tab::Viewmodel,
        Tab::Video,
        Tab::Radar,
        Tab::Hud,
        Tab::LaunchOptions,
    ];

    /// Moves to the next tab, wrapping around.
    pub fn next(&mut self)
        ensures
            *final(self) == next_tab(*old(self)),
    {
        let next = (self.index() + 1) % 7;
        *self = Tab::from_position(next);
    }

    /// Moves to the previous tab, wrapping around.
    pub fn prev(&mut self)
        ensures
            *final(self) == prev_tab(*old(self)),
    {
        let i = self.index();
        let prev = if i == 0 {
            6
        } else {
            i - 1
        };
        *self = Tab::from_position(prev);
    }

    /// The position of this tab in the cycle.
    pub fn index(&self) -> (i: usize)
        ensures
            i == tab_position(*self),
    {
        match self {
            Tab::Mouse => 0,
            Tab::Crosshair => 1,
            Tab::Viewmodel => 2,
            Tab::Video => 3,
            Tab::Radar => 4,
            Tab::Hud => 5,
            Tab::Gear => 0,
            Tab::LaunchOptions => 6,
        }
    }

    fn from_position(i: usize) -> (t: Tab)
        requires
            i < TAB_COUNT,
        ensures
            t == tab_at(i as int),
    {
        if i == 0 {
            Tab::Mouse
        } else if i == 1 {
            Tab::Crosshair
        } else if i == 2 {
            Tab::Viewmodel
        } else if i == 3 {
            Tab::Video
        } else if i == 4 {
            Tab::Radar
        } else if i == 5 {
            Tab::Hud
        } else {
            Tab::LaunchOptions
        }
    }

    /// The tab at position `index` of the cycle, if there is one.
    pub fn from_index(index: usize) -> (t: Option<Tab>)
        ensures
            index < TAB_COUNT ==> t == Some(tab_at(index as int)),
            index >= TAB_COUNT ==> t is None,
    {
        if index < 7 {
            Some(Tab::from_position(index))
        } else {
            None
        }
    }

    /// The title of this tab.
    pub fn name(&self) -> (s: &'static str)
        ensures
            s@ == tab_name(*self),
    {
        match self {
            Tab::Mouse => "Mouse",
            Tab::Crosshair => "Crosshair",
            Tab::Viewmodel => "Viewmodel",
            Tab::Video => "Video",
            Tab::Radar => "Radar",
            Tab::Hud => "HUD",
            Tab::Gear => "Gear",
            Tab::LaunchOptions => "Launch Options",
        }
    }

    /// The short title of this tab.
    pub fn short_name(&self) -> (s: &'static str)
        ensures
            s@ == tab_short_name(*self),
    {
        match self {
            Tab::LaunchOptions => "Launch",
            _ => self.name(),
        }
    }
}

/// Stepping forward and then back through the tab cycle returns to the start, and so
/// does stepping back and then forward; the gear tab, which is not in the cycle,
/// steps forward to the second tab.
pub proof fn lemma_next_prev_inverse(t: Tab)
    ensures
        t != Tab::Gear ==> prev_tab(next_tab(t)) == t,
        t != Tab::Gear ==> next_tab(prev_tab(t)) == t,
        next_tab(Tab::Gear) == Tab::Crosshair,
{
}

/// Position and lookup agree: every tab of the cycle is found again at its position,
/// and every position below the count holds a tab whose position it is.
pub proof fn lemma_index_from_index(t: Tab, i: int)
    ensures
        t != Tab::Gear ==> tab_at(tab_position(t)) == t,
        0 <= i < TAB_COUNT ==> tab_position(tab_at(i)) == i,
        0 <= tab_position(t) < TAB_COUNT,
{
}

/// Stepping forward through the whole cycle returns to the start.
pub proof fn lemma_cycle_period(t: Tab)
    requires
        t != Tab::Gear,
    ensures
        next_tab(next_tab(next_tab(next_tab(next_tab(next_tab(next_tab(t))))))) == t,
{
}


/// The tab cycle runs Mouse, Crosshair, Viewmodel, Video, Radar, HUD, Launch Options
/// and back to Mouse, each tab titled by its name; the launch options tab is shortened
/// to "Launch" in the tab bar.
pub proof fn lemma_tab_cycle_order_and_titles()
    ensures
        next_tab(Tab::Mouse) == Tab::Crosshair,
        next_tab(Tab::Crosshair) == Tab::Viewmodel,
        next_tab(Tab::Viewmodel) == Tab::Video,
        next_tab(Tab::Video) == Tab::Radar,
        next_tab(Tab::Radar) == Tab::Hud,
        next_tab(Tab::Hud) == Tab::LaunchOptions,
        next_tab(Tab::LaunchOptions) == Tab::Mouse,
        tab_position(Tab::Mouse) == 0,
        tab_name(Tab::Mouse) == "Mouse"@,
        tab_name(Tab::Crosshair) == "Crosshair"@,
        tab_name(Tab::Viewmodel) == "Viewmodel"@,
        tab_name(Tab::Video) == "Video"@,
        tab_name(Tab::Radar) == "Radar"@,
        tab_name(Tab::Hud) == "HUD"@,
        tab_name(Tab::Gear) == "Gear"@,
        tab_name(Tab::LaunchOptions) == "Launch Options"@,
        tab_short_name(Tab::LaunchOptions) == "Launch"@,
        forall|t: Tab| t != Tab::LaunchOptions ==> tab_short_name(t) == tab_name(t),
{
}


/// The view of crosshair settings keeps each setting under its own name, as text, and
/// `opt_view` keeps a missing value missing and a present one as its text.
pub proof fn lemma_crosshair_view_by_name(c: CrosshairSettings, o: Option<String>)
    ensures
        c@.import_code == (match c.import_code { Some(v) => Some(v@), None => None::<Seq<char>> }),
        c@.command == (match c.command { Some(v) => Some(v@), None => None::<Seq<char>> }),
        c@.style == (match c.style { Some(v) => Some(v@), None => None::<Seq<char>> }),
        c@.follow_recoil == (match c.follow_recoil { Some(v) => Some(v@), None => None::<Seq<char>> }),
        c@.dot == (match c.dot { Some(v) => Some(v@), None => None::<Seq<char>> }),
        c@.size == (match c.size { Some(v) => Some(v@), None => None::<Seq<char>> }),
        c@.thickness == (match c.thickness { Some(v) => Some(v@), None => None::<Seq<char>> }),
        c@.gap == (match c.gap { Some(v) => Some(v@), None => None::<Seq<char>> }),
        c@.draw_outline == (match c.draw_outline { Some(v) => Some(v@), None => None::<Seq<char>> }),
        c@.outline_thickness == (match c.outline_thickness { Some(v) => Some(v@), None => None::<Seq<char>> }),
        c@.color == (match c.color { Some(v) => Some(v@), None => None::<Seq<char>> }),
        c@.color_r == (match c.color_r { Some(v) => Some(v@), None => None::<Seq<char>> }),
        c@.color_g == (match c.color_g { Some(v) => Some(v@), None => None::<Seq<char>> }),
        c@.color_b == (match c.color_b { Some(v) => Some(v@), None => None::<Seq<char>> }),
        c@.use_alpha == (match c.use_alpha { Some(v) => Some(v@), None => None::<Seq<char>> }),
        c@.alpha == (match c.alpha { Some(v) => Some(v@), None => None::<Seq<char>> }),
        c@.t_style == (match c.t_style { Some(v) => Some(v@), None => None::<Seq<char>> }),
        c@.deployed_weapon_gap == (match c.deployed_weapon_gap { Some(v) => Some(v@), None => None::<Seq<char>> }),
        c@.split_distance == (match c.split_distance { Some(v) => Some(v@), None => None::<Seq<char>> }),
        c@.fixed_gap == (match c.fixed_gap { Some(v) => Some(v@), None => None::<Seq<char>> }),
        c@.inner_split_alpha == (match c.inner_split_alpha { Some(v) => Some(v@), None => None::<Seq<char>> }),
        c@.outer_split_alpha == (match c.outer_split_alpha { Some(v) => Some(v@), None => None::<Seq<char>> }),
        c@.split_size_ratio == (match c.split_size_ratio { Some(v) => Some(v@), None => None::<Seq<char>> }),
        c@.sniper_width == (match c.sniper_width { Some(v) => Some(v@), None => None::<Seq<char>> }),
        o is None ==> opt_view(o) is None,
        o matches Some(v) ==> opt_view(o) == Some(v@),
{
}

} // verus!
