//! The command line: which action the arguments ask for, and the text lines that a
//! one-shot query prints.
use crate::models::{
    opt_view, CrosshairSettings, GearItem, HudSettings, MouseSettings, PlayerData, RadarSettings,
    VideoSettings, ViewmodelSettings,
};
use crate::scraper::{player_slug, slug_of};
use crate::text::{chars_eq, chars_of, has_prefix, lowercase, starts_with, strings_view, to_lowercase, trim};
use vstd::prelude::*;
use vstd::string::StringExecFns;

verus! {

/// What a one-shot query prints.
#[derive(Debug, Clone, Copy, PartialEq, Eq, Structural)]
pub enum Output {
    Crosshair,
    Sensitivity,
    Dpi,
    Edpi,
    Mouse,
    Viewmodel,
    Video,
    Radar,
    Hud,
    Launch,
    Gear,
    All,
    Json,
}

/// What the program does: answer one query and exit, or open the browser, possibly
/// with a search already typed.
#[derive(Debug)]
pub enum Action {
    Query { slug: String, output: Output },
    Tui { pre_search: Option<String> },
}

/// An action with its texts as character sequences.
pub enum ActionView {
    Query { slug: Seq<char>, output: Output },
    Tui { pre_search: Option<Seq<char>> },
}

impl View for Action {
    type V = ActionView;

    open spec fn view(&self) -> ActionView {
        match self {
            Action::Query { slug, output } => ActionView::Query { slug: slug@, output: *output },
            Action::Tui { pre_search } => ActionView::Tui { pre_search: opt_view(*pre_search) },
        }
    }
}

/// The usage text that `-h` and `--help` answer with.
pub const HELP_TEXT: &'static str = "\
CSPROTUI \u{2014} Terminal-based CS2 pro player stats viewer

Usage:
  csprotui [<player>] [flag]

Flags:
  -c, --crosshair     Crosshair import code (CSGO-xxx)
  -s, --sensitivity   Mouse sensitivity
  -d, --dpi           Mouse DPI
  -e, --edpi          Mouse eDPI
  -m, --mouse         All mouse settings
  -v, --viewmodel     Viewmodel settings
  --video             Video settings
  -r, --radar         Radar settings
  --hud               HUD settings
  -l, --launch        Launch options
  --gear              Gear (monitor, mouse, keyboard, etc.)
  -a, --all           All settings
  -j, --json          Full JSON output
  -h, --help          Show this help

Examples:
  csprotui xantares --crosshair
  csprotui s1mple -m
  csprotui zywoo --all
  csprotui donk --json | jq .data.mouse";

/// Whether an argument asks for help.
pub open spec fn is_help_flag(a: Seq<char>) -> bool {
    a == "-h"@ || a == "--help"@
}

/// The output an argument selects, if it is an output flag.
pub open spec fn flag_output(a: Seq<char>) -> Option<Output> {
    if a == "-c"@ || a == "--crosshair"@ {
        Some(Output::Crosshair)
    } else if a == "-m"@ || a == "--mouse"@ {
        Some(Output::Mouse)
    } else if a == "-s"@ || a == "--sensitivity"@ {
        Some(Output::Sensitivity)
    } else if a == "-d"@ || a == "--dpi"@ {
        Some(Output::Dpi)
    } else if a == "-e"@ || a == "--edpi"@ {
        Some(Output::Edpi)
    } else if a == "-v"@ || a == "--viewmodel"@ {
        Some(Output::Viewmodel)
    } else if a == "--video"@ {
        Some(Output::Video)
    } else if a == "-r"@ || a == "--radar"@ {
        Some(Output::Radar)
    } else if a == "--hud"@ {
        Some(Output::Hud)
    } else if a == "-l"@ || a == "--launch"@ {
        Some(Output::Launch)
    } else if a == "--gear"@ {
        Some(Output::Gear)
    } else if a == "-a"@ || a == "--all"@ {
        Some(Output::All)
    } else if a == "-j"@ || a == "--json"@ {
        Some(Output::Json)
    } else {
        None
    }
}

/// What a scan of the arguments has gathered: whether help was asked for, the output
/// flags in order, the output of the last of them, and the arguments that are not
/// flags, in order.
pub struct ArgScan {
    pub help: bool,
    pub flags: Seq<Seq<char>>,
    pub output: Option<Output>,
    pub positional: Seq<Seq<char>>,
}

/// The scan of `args`, from the first to the last; an unknown argument that starts
/// with `-` is ignored.
pub open spec fn scan_args(args: Seq<Seq<char>>) -> ArgScan
    decreases args.len(),
{
    if args.len() == 0 {
        ArgScan {
            help: false,
            flags: Seq::<Seq<char>>::empty(),
            output: None,
            positional: Seq::<Seq<char>>::empty(),
        }
    } else {
        let r = scan_args(args.drop_last());
        let a = args.last();
        if is_help_flag(a) {
            ArgScan { help: true, ..r }
        } else {
            match flag_output(a) {
                Some(o) => ArgScan { flags: r.flags.push(a), output: Some(o), ..r },
                None => if has_prefix(a, "-"@) {
                    r
                } else {
                    ArgScan { positional: r.positional.push(a), ..r }
                },
            }
        }
    }
}

/// `list` joined with `sep` between neighbours.
pub open spec fn join(list: Seq<Seq<char>>, sep: Seq<char>) -> Seq<char>
    decreases list.len(),
{
    if list.len() == 0 {
        Seq::<char>::empty()
    } else if list.len() == 1 {
        list[0]
    } else {
        join(list.drop_last(), sep) + sep + list.last()
    }
}

/// The first element of `s`, if any.
pub open spec fn first_of(s: Seq<Seq<char>>) -> Option<Seq<char>> {
    if s.len() == 0 {
        None
    } else {
        Some(s[0])
    }
}

/// The action that the command line `args` asks for (`args[0]` is the program):
/// help wins; more than one output flag is an error that lists them; an output flag
/// needs a player whose name has a slug; without one the browser opens, with the
/// first player name typed in.
pub open spec fn action_of(args: Seq<Seq<char>>) -> Result<ActionView, Seq<char>> {
    let sc = scan_args(
        if args.len() == 0 {
            args
        } else {
            args.subrange(1, args.len() as int)
        },
    );
    if sc.help {
        Err(HELP_TEXT@)
    } else if sc.flags.len() > 1 {
        Err("Only one flag allowed at a time. Got: "@ + join(sc.flags, ", "@))
    } else {
        match sc.output {
            Some(output) => match first_of(sc.positional) {
                Some(name) => match slug_of(name) {
                    Some(slug) => Ok(ActionView::Query { slug, output }),
                    None => Err("Player name required. Usage: csprotui <player> --flag"@),
                },
                None => Err("Player name required. Usage: csprotui <player> --flag"@),
            },
            None => Ok(ActionView::Tui { pre_search: first_of(sc.positional) }),
        }
    }
}

/// The view of a parse result.
pub open spec fn action_result_view(r: Result<Action, String>) -> Result<ActionView, Seq<char>> {
    match r {
        Ok(a) => Ok(a@),
        Err(e) => Err(e@),
    }
}

fn is_help_arg(a: &[char]) -> (b: bool)
    ensures
        b == is_help_flag(a@),
{
    chars_eq(a, "-h") || chars_eq(a, "--help")
}

fn output_flag(a: &[char]) -> (o: Option<Output>)
    ensures
        o == flag_output(a@),
{
    if chars_eq(a, "-c") || chars_eq(a, "--crosshair") {
        Some(Output::Crosshair)
    } else if chars_eq(a, "-m") || chars_eq(a, "--mouse") {
        Some(Output::Mouse)
    } else if chars_eq(a, "-s") || chars_eq(a, "--sensitivity") {
        Some(Output::Sensitivity)
    } else if chars_eq(a, "-d") || chars_eq(a, "--dpi") {
        Some(Output::Dpi)
    } else if chars_eq(a, "-e") || chars_eq(a, "--edpi") {
        Some(Output::Edpi)
    } else if chars_eq(a, "-v") || chars_eq(a, "--viewmodel") {
        Some(Output::Viewmodel)
    } else if chars_eq(a, "--video") {
        Some(Output::Video)
    } else if chars_eq(a, "-r") || chars_eq(a, "--radar") {
        Some(Output::Radar)
    } else if chars_eq(a, "--hud") {
        Some(Output::Hud)
    } else if chars_eq(a, "-l") || chars_eq(a, "--launch") {
        Some(Output::Launch)
    } else if chars_eq(a, "--gear") {
        Some(Output::Gear)
    } else if chars_eq(a, "-a") || chars_eq(a, "--all") {
        Some(Output::All)
    } else if chars_eq(a, "-j") || chars_eq(a, "--json") {
        Some(Output::Json)
    } else {
        None
    }
}

fn join_strings(list: &Vec<String>, sep: &str) -> (r: String)
    ensures
        r@ == join(strings_view(list@), sep@),
{
    let ghost all = strings_view(list@);
    let mut r = String::new();
    let mut i: usize = 0;
    assert(all.take(0) =~= Seq::<Seq<char>>::empty());
    while i < list.len()
        invariant
            i <= list@.len(),
            all == strings_view(list@),
            r@ == join(all.take(i as int), sep@),
        decreases list.len() - i,
    {
        assert(all.take(i + 1).drop_last() =~= all.take(i as int));
        assert(all[i as int] == list@[i as int]@);
        if i > 0 {
            r.append(sep);
        } else {
            assert(r@ =~= Seq::<char>::empty());
        }
        r.append(list[i].as_str());
        i = i + 1;
    }
    assert(all.take(list.len() as int) =~= all);
    r
}

/// The action that the command line `args` asks for, or the text to show instead:
/// the usage text for help, or what is wrong with the arguments.
pub fn parse_args(args: &[String]) -> (r: Result<Action, String>)
    ensures
        action_result_view(r) == action_of(strings_view(args@)),
{
    let ghost all = strings_view(args@);
    let ghost rest = if all.len() == 0 {
        all
    } else {
        all.subrange(1, all.len() as int)
    };
    let mut positional: Vec<String> = Vec::new();
    let mut flags: Vec<String> = Vec::new();
    let mut output: Option<Output> = None;
    let mut help = false;
    let n = args.len();
    let start: usize = if n == 0 {
        0
    } else {
        1
    };
    let mut i: usize = start;
    assert(rest.take(0) =~= Seq::<Seq<char>>::empty());
    assert(strings_view(flags@) =~= Seq::<Seq<char>>::empty());
    assert(strings_view(positional@) =~= Seq::<Seq<char>>::empty());
    while i < n
        invariant
            n == args@.len(),
            all == strings_view(args@),
            start <= i <= n || n == 0,
            start == (if n == 0 {
                0usize
            } else {
                1usize
            }),
            n == 0 ==> i == 0,
            rest == (if all.len() == 0 {
                all
            } else {
                all.subrange(1, all.len() as int)
            }),
            ({
                let sc = scan_args(rest.take(i - start));
                &&& sc.help == help
                &&& sc.flags == strings_view(flags@)
                &&& sc.output == output
                &&& sc.positional == strings_view(positional@)
            }),
        decreases n - i,
    {
        let a = chars_of(args[i].as_str());
        assert(rest.take(i - start + 1).drop_last() =~= rest.take(i - start));
        assert(rest.take(i - start + 1).last() == args@[i as int]@);
        if is_help_arg(a.as_slice()) {
            help = true;
        } else {
            match output_flag(a.as_slice()) {
                Some(o) => {
                    flags.push(args[i].clone());
                    output = Some(o);
                    assert(strings_view(flags@) =~= strings_view(flags@).drop_last().push(
                        args@[i as int]@,
                    ));
                },
                None => {
                    if !starts_with(a.as_slice(), "-") {
                        positional.push(args[i].clone());
                        assert(strings_view(positional@) =~= strings_view(
                            positional@,
                        ).drop_last().push(args@[i as int]@));
                    }
                },
            }
        }
        i = i + 1;
    }
    assert(rest.take(n - start) =~= rest);
    if help {
        return Err(HELP_TEXT.to_string());
    }
    if flags.len() > 1 {
        let mut message = String::from_str("Only one flag allowed at a time. Got: ");
        let joined = join_strings(&flags, ", ");
        message.append(joined.as_str());
        return Err(message);
    }
    match output {
        Some(output) => {
            let slug = if positional.len() > 0 {
                assert(strings_view(positional@)[0] == positional@[0]@);
                player_slug(positional[0].as_str())
            } else {
                None
            };
            match slug {
                Some(slug) => Ok(Action::Query { slug, output }),
                None => Err(String::from_str("Player name required. Usage: csprotui <player> --flag")),
            }
        },
        None => {
            let pre_search = if positional.len() > 0 {
                assert(strings_view(positional@)[0] == positional@[0]@);
                Some(positional[0].clone())
            } else {
                None
            };
            Ok(Action::Tui { pre_search })
        },
    }
}

// ---------------------------------------------------------------------------
// What a one-shot query prints
// ---------------------------------------------------------------------------

/// `acc` with the line `label: value` added when there is a value.
pub open spec fn with_field(acc: Seq<Seq<char>>, label: Seq<char>, value: Option<String>) -> Seq<Seq<char>> {
    match value {
        Some(v) => acc.push(label + ": "@ + v@),
        None => acc,
    }
}

/// `acc` with the line `value` added when there is a value.
pub open spec fn with_value(acc: Seq<Seq<char>>, value: Option<String>) -> Seq<Seq<char>> {
    match value {
        Some(v) => acc.push(v@),
        None => acc,
    }
}

/// The mouse settings, one labelled line each.
pub open spec fn mouse_lines(acc: Seq<Seq<char>>, s: MouseSettings) -> Seq<Seq<char>> {
    let a0 = with_field(acc, "dpi"@, s.dpi);
    let a1 = with_field(a0, "sensitivity"@, s.sensitivity);
    let a2 = with_field(a1, "edpi"@, s.edpi);
    let a3 = with_field(a2, "zoom_sensitivity"@, s.zoom_sensitivity_ratio_mouse);
    let a4 = with_field(a3, "hz"@, s.hz);
    let a5 = with_field(a4, "windows_sensitivity"@, s.windows_sensitivity);
    a5
}

fn push_mouse(lines: &mut Vec<String>, s: &MouseSettings)
    ensures
        strings_view(final(lines)@) == mouse_lines(strings_view(old(lines)@), *s),
{
    push_field(lines, "dpi", &s.dpi);
    push_field(lines, "sensitivity", &s.sensitivity);
    push_field(lines, "edpi", &s.edpi);
    push_field(lines, "zoom_sensitivity", &s.zoom_sensitivity_ratio_mouse);
    push_field(lines, "hz", &s.hz);
    push_field(lines, "windows_sensitivity", &s.windows_sensitivity);
}

/// The viewmodel settings, one labelled line each.
pub open spec fn viewmodel_lines(acc: Seq<Seq<char>>, s: ViewmodelSettings) -> Seq<Seq<char>> {
    let a0 = with_field(acc, "fov"@, s.fov);
    let a1 = with_field(a0, "offset_x"@, s.offset_x);
    let a2 = with_field(a1, "offset_y"@, s.offset_y);
    let a3 = with_field(a2, "offset_z"@, s.offset_z);
    let a4 = with_field(a3, "presetpos"@, s.presetpos);
    let a5 = with_field(a4, "use_new_bob"@, s.use_new_bob);
    a5
}

fn push_viewmodel(lines: &mut Vec<String>, s: &ViewmodelSettings)
    ensures
        strings_view(final(lines)@) == viewmodel_lines(strings_view(old(lines)@), *s),
{
    push_field(lines, "fov", &s.fov);
    push_field(lines, "offset_x", &s.offset_x);
    push_field(lines, "offset_y", &s.offset_y);
    push_field(lines, "offset_z", &s.offset_z);
    push_field(lines, "presetpos", &s.presetpos);
    push_field(lines, "use_new_bob", &s.use_new_bob);
}

/// The video settings, one labelled line each.
pub open spec fn video_lines(acc: Seq<Seq<char>>, s: VideoSettings) -> Seq<Seq<char>> {
    let a0 = with_field(acc, "resolution"@, s.resolution);
    let a1 = with_field(a0, "aspect_ratio"@, s.aspect_ratio);
    let a2 = with_field(a1, "scaling_mode"@, s.scaling_mode);
    let a3 = with_field(a2, "brightness"@, s.brightness);
    let a4 = with_field(a3, "display_mode"@, s.display_mode);
    let a5 = with_field(a4, "boost_contrast"@, s.boost_contrast);
    let a6 = with_field(a5, "vsync"@, s.vsync);
    let a7 = with_field(a6, "reflex"@, s.reflex_low_latency);
    let a8 = with_field(a7, "gsync"@, s.gsync);
    let a9 = with_field(a8, "max_fps"@, s.max_fps);
    let a10 = with_field(a9, "anti_aliasing"@, s.anti_aliasing);
    let a11 = with_field(a10, "shadow_quality"@, s.shadow_quality);
    let a12 = with_field(a11, "dynamic_shadows"@, s.dynamic_shadows);
    let a13 = with_field(a12, "texture_detail"@, s.texture_detail);
    let a14 = with_field(a13, "filtering_mode"@, s.filtering_mode);
    let a15 = with_field(a14, "shader_detail"@, s.shader_detail);
    let a16 = with_field(a15, "particle_detail"@, s.particle_detail);
    let a17 = with_field(a16, "ambient_occlusion"@, s.ambient_occlusion);
    let a18 = with_field(a17, "hdr"@, s.hdr);
    let a19 = with_field(a18, "fsr"@, s.fsr);
    a19
}

fn push_video(lines: &mut Vec<String>, s: &VideoSettings)
    ensures
        strings_view(final(lines)@) == video_lines(strings_view(old(lines)@), *s),
{
    push_field(lines, "resolution", &s.resolution);
    push_field(lines, "aspect_ratio", &s.aspect_ratio);
    push_field(lines, "scaling_mode", &s.scaling_mode);
    push_field(lines, "brightness", &s.brightness);
    push_field(lines, "display_mode", &s.display_mode);
    push_field(lines, "boost_contrast", &s.boost_contrast);
    push_field(lines, "vsync", &s.vsync);
    push_field(lines, "reflex", &s.reflex_low_latency);
    push_field(lines, "gsync", &s.gsync);
    push_field(lines, "max_fps", &s.max_fps);
    push_field(lines, "anti_aliasing", &s.anti_aliasing);
    push_field(lines, "shadow_quality", &s.shadow_quality);
    push_field(lines, "dynamic_shadows", &s.dynamic_shadows);
    push_field(lines, "texture_detail", &s.texture_detail);
    push_field(lines, "filtering_mode", &s.filtering_mode);
    push_field(lines, "shader_detail", &s.shader_detail);
    push_field(lines, "particle_detail", &s.particle_detail);
    push_field(lines, "ambient_occlusion", &s.ambient_occlusion);
    push_field(lines, "hdr", &s.hdr);
    push_field(lines, "fsr", &s.fsr);
}

/// The radar settings, one labelled line each.
pub open spec fn radar_lines(acc: Seq<Seq<char>>, s: RadarSettings) -> Seq<Seq<char>> {
    let a0 = with_field(acc, "always_centered"@, s.always_centered);
    let a1 = with_field(a0, "rotate"@, s.rotate);
    let a2 = with_field(a1, "square_with_scoreboard"@, s.square_with_scoreboard);
    let a3 = with_field(a2, "hud_scale"@, s.hud_scale);
    let a4 = with_field(a3, "scale"@, s.scale);
    a4
}

fn push_radar(lines: &mut Vec<String>, s: &RadarSettings)
    ensures
        strings_view(final(lines)@) == radar_lines(strings_view(old(lines)@), *s),
{
    push_field(lines, "always_centered", &s.always_centered);
    push_field(lines, "rotate", &s.rotate);
    push_field(lines, "square_with_scoreboard", &s.square_with_scoreboard);
    push_field(lines, "hud_scale", &s.hud_scale);
    push_field(lines, "scale", &s.scale);
}

/// The HUD settings, one labelled line each.
pub open spec fn hud_lines(acc: Seq<Seq<char>>, s: HudSettings) -> Seq<Seq<char>> {
    let a0 = with_field(acc, "scaling"@, s.scaling);
    let a1 = with_field(a0, "color"@, s.color);
    a1
}

fn push_hud(lines: &mut Vec<String>, s: &HudSettings)
    ensures
        strings_view(final(lines)@) == hud_lines(strings_view(old(lines)@), *s),
{
    push_field(lines, "scaling", &s.scaling);
    push_field(lines, "color", &s.color);
}

/// The crosshair settings that the full report lists, one labelled line each.
pub open spec fn crosshair_lines(acc: Seq<Seq<char>>, s: CrosshairSettings) -> Seq<Seq<char>> {
    let a0 = with_field(acc, "crosshair_command"@, s.command);
    let a1 = with_field(a0, "crosshair_style"@, s.style);
    let a2 = with_field(a1, "crosshair_size"@, s.size);
    let a3 = with_field(a2, "crosshair_gap"@, s.gap);
    let a4 = with_field(a3, "crosshair_thickness"@, s.thickness);
    let a5 = with_field(a4, "crosshair_dot"@, s.dot);
    let a6 = with_field(a5, "crosshair_color"@, s.color);
    let a7 = with_field(a6, "crosshair_alpha"@, s.alpha);
    let a8 = with_field(a7, "crosshair_outline"@, s.draw_outline);
    a8
}

fn push_crosshair(lines: &mut Vec<String>, s: &CrosshairSettings)
    ensures
        strings_view(final(lines)@) == crosshair_lines(strings_view(old(lines)@), *s),
{
    push_field(lines, "crosshair_command", &s.command);
    push_field(lines, "crosshair_style", &s.style);
    push_field(lines, "crosshair_size", &s.size);
    push_field(lines, "crosshair_gap", &s.gap);
    push_field(lines, "crosshair_thickness", &s.thickness);
    push_field(lines, "crosshair_dot", &s.dot);
    push_field(lines, "crosshair_color", &s.color);
    push_field(lines, "crosshair_alpha", &s.alpha);
    push_field(lines, "crosshair_outline", &s.draw_outline);
}

/// The line a gear item prints: its category in lowercase, then its name.
pub open spec fn gear_line(g: GearItem) -> Seq<char> {
    lowercase(g.category@) + ": "@ + g.name@
}

/// `acc` with one line per gear item, in order.
pub open spec fn gear_lines(acc: Seq<Seq<char>>, items: Seq<GearItem>) -> Seq<Seq<char>>
    decreases items.len(),
{
    if items.len() == 0 {
        acc
    } else {
        gear_lines(acc, items.drop_last()).push(gear_line(items.last()))
    }
}

/// The lines of the full report: every group, separated by blank lines.
pub open spec fn all_lines(acc: Seq<Seq<char>>, p: PlayerData) -> Seq<Seq<char>> {
    let blank = Seq::<char>::empty();
    let a = mouse_lines(acc, p.data.mouse).push(blank);
    let a = with_value(a, p.data.crosshair.import_code);
    let a = crosshair_lines(a, p.data.crosshair).push(blank);
    let a = viewmodel_lines(a, p.data.viewmodel).push(blank);
    let a = video_lines(a, p.data.video).push(blank);
    let a = radar_lines(a, p.data.radar).push(blank);
    let a = hud_lines(a, p.data.hud).push(blank);
    with_value(a, p.data.launch_options)
}

/// The lines that `output` prints for `p` (the JSON form is written elsewhere).
pub open spec fn output_lines(output: Output, p: PlayerData) -> Seq<Seq<char>> {
    let none = Seq::<Seq<char>>::empty();
    match output {
        Output::Crosshair => with_value(none, p.data.crosshair.import_code),
        Output::Sensitivity => with_value(none, p.data.mouse.sensitivity),
        Output::Dpi => with_value(none, p.data.mouse.dpi),
        Output::Edpi => with_value(none, p.data.mouse.edpi),
        Output::Mouse => mouse_lines(none, p.data.mouse),
        Output::Viewmodel => viewmodel_lines(none, p.data.viewmodel),
        Output::Video => video_lines(none, p.data.video),
        Output::Radar => radar_lines(none, p.data.radar),
        Output::Hud => hud_lines(none, p.data.hud),
        Output::Launch => with_value(none, p.data.launch_options),
        Output::Gear => gear_lines(none, p.data.gear@),
        Output::All => all_lines(none, p),
        Output::Json => none,
    }
}

/// What a query prints: text lines, or the player in JSON.
pub enum Printout {
    Lines(Vec<String>),
    Json,
}

fn push_field(lines: &mut Vec<String>, label: &str, value: &Option<String>)
    ensures
        strings_view(final(lines)@) == with_field(strings_view(old(lines)@), label@, *value),
{
    match value {
        Some(v) => {
            let mut line = String::from_str(label);
            line.append(": ");
            line.append(v.as_str());
            lines.push(line);
            assert(strings_view(lines@) =~= strings_view(old(lines)@).push(line@));
        },
        None => {},
    }
}

fn push_value(lines: &mut Vec<String>, value: &Option<String>)
    ensures
        strings_view(final(lines)@) == with_value(strings_view(old(lines)@), *value),
{
    match value {
        Some(v) => {
            lines.push(v.clone());
            assert(strings_view(lines@) =~= strings_view(old(lines)@).push(v@));
        },
        None => {},
    }
}

fn push_blank(lines: &mut Vec<String>)
    ensures
        strings_view(final(lines)@) == strings_view(old(lines)@).push(Seq::<char>::empty()),
{
    let blank = String::new();
    lines.push(blank);
    assert(strings_view(lines@) =~= strings_view(old(lines)@).push(Seq::<char>::empty()));
}

fn push_gear(lines: &mut Vec<String>, items: &Vec<GearItem>)
    ensures
        strings_view(final(lines)@) == gear_lines(strings_view(old(lines)@), items@),
{
    let ghost start = strings_view(lines@);
    let mut i: usize = 0;
    assert(items@.take(0) =~= Seq::<GearItem>::empty());
    while i < items.len()
        invariant
            i <= items@.len(),
            strings_view(lines@) == gear_lines(start, items@.take(i as int)),
        decreases items.len() - i,
    {
        let item = &items[i];
        let mut line = to_lowercase(item.category.as_str());
        line.append(": ");
        line.append(item.name.as_str());
        let ghost before = strings_view(lines@);
        lines.push(line);
        assert(strings_view(lines@) =~= before.push(line@));
        assert(items@.take(i + 1).drop_last() =~= items@.take(i as int));
        i = i + 1;
    }
    assert(items@.take(items.len() as int) =~= items@);
}

impl Output {
    /// What this output prints for `player`: its lines, or the JSON form.
    pub fn printout(&self, player: &PlayerData) -> (r: Printout)
        ensures
            match r {
                Printout::Lines(v) => *self != Output::Json && strings_view(v@) == output_lines(
                    *self,
                    *player,
                ),
                Printout::Json => *self == Output::Json,
            },
    {
        let mut lines: Vec<String> = Vec::new();
        assert(strings_view(lines@) =~= Seq::<Seq<char>>::empty());
        let d = &player.data;
        match self {
            Output::Crosshair => push_value(&mut lines, &d.crosshair.import_code),
            Output::Sensitivity => push_value(&mut lines, &d.mouse.sensitivity),
            Output::Dpi => push_value(&mut lines, &d.mouse.dpi),
            Output::Edpi => push_value(&mut lines, &d.mouse.edpi),
            Output::Mouse => push_mouse(&mut lines, &d.mouse),
            Output::Viewmodel => push_viewmodel(&mut lines, &d.viewmodel),
            Output::Video => push_video(&mut lines, &d.video),
            Output::Radar => push_radar(&mut lines, &d.radar),
            Output::Hud => push_hud(&mut lines, &d.hud),
            Output::Launch => push_value(&mut lines, &d.launch_options),
            Output::Gear => push_gear(&mut lines, &d.gear),
            Output::All => {
                push_mouse(&mut lines, &d.mouse);
                push_blank(&mut lines);
                push_value(&mut lines, &d.crosshair.import_code);
                push_crosshair(&mut lines, &d.crosshair);
                push_blank(&mut lines);
                push_viewmodel(&mut lines, &d.viewmodel);
                push_blank(&mut lines);
                push_video(&mut lines, &d.video);
                push_blank(&mut lines);
                push_radar(&mut lines, &d.radar);
                push_blank(&mut lines);
                push_hud(&mut lines, &d.hud);
                push_blank(&mut lines);
                push_value(&mut lines, &d.launch_options);
            },
            Output::Json => {
                return Printout::Json;
            },
        }
        Printout::Lines(lines)
    }
}

/// The scan records help exactly when some argument asks for it.
proof fn lemma_scan_help(args: Seq<Seq<char>>)
    ensures
        scan_args(args).help <==> exists|i: int| 0 <= i < args.len() && is_help_flag(#[trigger] args[i]),
    decreases args.len(),
{
    if args.len() > 0 {
        let rest = args.drop_last();
        lemma_scan_help(rest);
        if scan_args(rest).help {
            let i = choose|i: int| 0 <= i < rest.len() && is_help_flag(#[trigger] rest[i]);
            assert(args[i] == rest[i]);
        }
        if exists|i: int| 0 <= i < args.len() && is_help_flag(#[trigger] args[i]) {
            let i = choose|i: int| 0 <= i < args.len() && is_help_flag(#[trigger] args[i]);
            if i < args.len() - 1 {
                assert(rest[i] == args[i]);
            }
        }
    }
}

/// Asking for help anywhere after the program name always gives the usage text,
/// whatever else the command line holds.
pub proof fn lemma_help_wins(args: Seq<Seq<char>>, i: int)
    requires
        1 <= i < args.len(),
        is_help_flag(args[i]),
    ensures
        action_of(args) == Err::<ActionView, Seq<char>>(HELP_TEXT@),
{
    let rest = args.subrange(1, args.len() as int);
    assert(rest[i - 1] == args[i]);
    lemma_scan_help(rest);
}

/// The flags a scan gathers only grow as more arguments are scanned, by one for each
/// output flag.
proof fn lemma_scan_flags_grow(args: Seq<Seq<char>>, k: int)
    requires
        0 <= k < args.len(),
    ensures
        scan_args(args.take(k)).flags.len() <= scan_args(args).flags.len(),
        !is_help_flag(args[k]) && flag_output(args[k]) is Some ==> scan_args(args.take(k)).flags.len()
            + 1 <= scan_args(args).flags.len(),
    decreases args.len() - k,
{
    let next = args.take(k + 1);
    assert(next.drop_last() =~= args.take(k));
    assert(next.last() == args[k]);
    if k + 1 < args.len() {
        lemma_scan_flags_grow(args, k + 1);
    } else {
        assert(next =~= args);
    }
}

/// Two output flags without a request for help are always refused, naming the flags.
pub proof fn lemma_two_flags_refused(args: Seq<Seq<char>>, i: int, j: int)
    requires
        1 <= i < j < args.len(),
        flag_output(args[i]) is Some,
        flag_output(args[j]) is Some,
        forall|k: int| 1 <= k < args.len() ==> !is_help_flag(#[trigger] args[k]),
    ensures
        action_of(args) matches Err(text) && text == "Only one flag allowed at a time. Got: "@
            + join(scan_args(args.subrange(1, args.len() as int)).flags, ", "@),
{
    let rest = args.subrange(1, args.len() as int);
    assert(rest[i - 1] == args[i]);
    assert(rest[j - 1] == args[j]);
    assert forall|k: int| 0 <= k < rest.len() implies !is_help_flag(#[trigger] rest[k]) by {
        assert(rest[k] == args[k + 1]);
    }
    lemma_scan_help(rest);
    let before = rest.take(j - 1);
    assert(before[i - 1] == args[i]);
    lemma_scan_flags_grow(before, i - 1);
    lemma_scan_flags_grow(rest, j - 1);
}

/// Each output flag selects the output its line of the usage text names, and none of
/// them asks for help.
pub proof fn lemma_flags_name_their_outputs()
    ensures
        flag_output("-c"@) == Some(Output::Crosshair) && !is_help_flag("-c"@),
        flag_output("--crosshair"@) == Some(Output::Crosshair) && !is_help_flag("--crosshair"@),
        flag_output("-m"@) == Some(Output::Mouse) && !is_help_flag("-m"@),
        flag_output("--mouse"@) == Some(Output::Mouse) && !is_help_flag("--mouse"@),
        flag_output("-s"@) == Some(Output::Sensitivity) && !is_help_flag("-s"@),
        flag_output("--sensitivity"@) == Some(Output::Sensitivity) && !is_help_flag("--sensitivity"@),
        flag_output("-d"@) == Some(Output::Dpi) && !is_help_flag("-d"@),
        flag_output("--dpi"@) == Some(Output::Dpi) && !is_help_flag("--dpi"@),
        flag_output("-e"@) == Some(Output::Edpi) && !is_help_flag("-e"@),
        flag_output("--edpi"@) == Some(Output::Edpi) && !is_help_flag("--edpi"@),
        flag_output("-v"@) == Some(Output::Viewmodel) && !is_help_flag("-v"@),
        flag_output("--viewmodel"@) == Some(Output::Viewmodel) && !is_help_flag("--viewmodel"@),
        flag_output("--video"@) == Some(Output::Video) && !is_help_flag("--video"@),
        flag_output("-r"@) == Some(Output::Radar) && !is_help_flag("-r"@),
        flag_output("--radar"@) == Some(Output::Radar) && !is_help_flag("--radar"@),
        flag_output("--hud"@) == Some(Output::Hud) && !is_help_flag("--hud"@),
        flag_output("-l"@) == Some(Output::Launch) && !is_help_flag("-l"@),
        flag_output("--launch"@) == Some(Output::Launch) && !is_help_flag("--launch"@),
        flag_output("--gear"@) == Some(Output::Gear) && !is_help_flag("--gear"@),
        flag_output("-a"@) == Some(Output::All) && !is_help_flag("-a"@),
        flag_output("--all"@) == Some(Output::All) && !is_help_flag("--all"@),
        flag_output("-j"@) == Some(Output::Json) && !is_help_flag("-j"@),
        flag_output("--json"@) == Some(Output::Json) && !is_help_flag("--json"@),
{
    assert(flag_output("-c"@) == Some(Output::Crosshair) && !is_help_flag("-c"@)) by {
        reveal_strlit("-c");
        reveal_strlit("-h");
        assert("-c"@[1] != "-h"@[1]);
        reveal_strlit("--help");
        assert("-c"@.len() != "--help"@.len());
    }
    assert(flag_output("--crosshair"@) == Some(Output::Crosshair) && !is_help_flag("--crosshair"@)) by {
        reveal_strlit("--crosshair");
        reveal_strlit("-c");
        assert("--crosshair"@.len() != "-c"@.len());
        reveal_strlit("-h");
        assert("--crosshair"@.len() != "-h"@.len());
        reveal_strlit("--help");
        assert("--crosshair"@.len() != "--help"@.len());
    }
    assert(flag_output("-m"@) == Some(Output::Mouse) && !is_help_flag("-m"@)) by {
        reveal_strlit("-m");
        reveal_strlit("-c");
        assert("-m"@[1] != "-c"@[1]);
        reveal_strlit("--crosshair");
        assert("-m"@.len() != "--crosshair"@.len());
        reveal_strlit("-h");
        assert("-m"@[1] != "-h"@[1]);
        reveal_strlit("--help");
        assert("-m"@.len() != "--help"@.len());
    }
    assert(flag_output("--mouse"@) == Some(Output::Mouse) && !is_help_flag("--mouse"@)) by {
        reveal_strlit("--mouse");
        reveal_strlit("-c");
        assert("--mouse"@.len() != "-c"@.len());
        reveal_strlit("--crosshair");
        assert("--mouse"@.len() != "--crosshair"@.len());
        reveal_strlit("-m");
        assert("--mouse"@.len() != "-m"@.len());
        reveal_strlit("-h");
        assert("--mouse"@.len() != "-h"@.len());
        reveal_strlit("--help");
        assert("--mouse"@.len() != "--help"@.len());
    }
    assert(flag_output("-s"@) == Some(Output::Sensitivity) && !is_help_flag("-s"@)) by {
        reveal_strlit("-s");
        reveal_strlit("-c");
        assert("-s"@[1] != "-c"@[1]);
        reveal_strlit("--crosshair");
        assert("-s"@.len() != "--crosshair"@.len());
        reveal_strlit("-m");
        assert("-s"@[1] != "-m"@[1]);
        reveal_strlit("--mouse");
        assert("-s"@.len() != "--mouse"@.len());
        reveal_strlit("-h");
        assert("-s"@[1] != "-h"@[1]);
        reveal_strlit("--help");
        assert("-s"@.len() != "--help"@.len());
    }
    assert(flag_output("--sensitivity"@) == Some(Output::Sensitivity) && !is_help_flag("--sensitivity"@)) by {
        reveal_strlit("--sensitivity");
        reveal_strlit("-c");
        assert("--sensitivity"@.len() != "-c"@.len());
        reveal_strlit("--crosshair");
        assert("--sensitivity"@.len() != "--crosshair"@.len());
        reveal_strlit("-m");
        assert("--sensitivity"@.len() != "-m"@.len());
        reveal_strlit("--mouse");
        assert("--sensitivity"@.len() != "--mouse"@.len());
        reveal_strlit("-s");
        assert("--sensitivity"@.len() != "-s"@.len());
        reveal_strlit("-h");
        assert("--sensitivity"@.len() != "-h"@.len());
        reveal_strlit("--help");
        assert("--sensitivity"@.len() != "--help"@.len());
    }
    assert(flag_output("-d"@) == Some(Output::Dpi) && !is_help_flag("-d"@)) by {
        reveal_strlit("-d");
        reveal_strlit("-c");
        assert("-d"@[1] != "-c"@[1]);
        reveal_strlit("--crosshair");
        assert("-d"@.len() != "--crosshair"@.len());
        reveal_strlit("-m");
        assert("-d"@[1] != "-m"@[1]);
        reveal_strlit("--mouse");
        assert("-d"@.len() != "--mouse"@.len());
        reveal_strlit("-s");
        assert("-d"@[1] != "-s"@[1]);
        reveal_strlit("--sensitivity");
        assert("-d"@.len() != "--sensitivity"@.len());
        reveal_strlit("-h");
        assert("-d"@[1] != "-h"@[1]);
        reveal_strlit("--help");
        assert("-d"@.len() != "--help"@.len());
    }
    assert(flag_output("--dpi"@) == Some(Output::Dpi) && !is_help_flag("--dpi"@)) by {
        reveal_strlit("--dpi");
        reveal_strlit("-c");
        assert("--dpi"@.len() != "-c"@.len());
        reveal_strlit("--crosshair");
        assert("--dpi"@.len() != "--crosshair"@.len());
        reveal_strlit("-m");
        assert("--dpi"@.len() != "-m"@.len());
        reveal_strlit("--mouse");
        assert("--dpi"@.len() != "--mouse"@.len());
        reveal_strlit("-s");
        assert("--dpi"@.len() != "-s"@.len());
        reveal_strlit("--sensitivity");
        assert("--dpi"@.len() != "--sensitivity"@.len());
        reveal_strlit("-d");
        assert("--dpi"@.len() != "-d"@.len());
        reveal_strlit("-h");
        assert("--dpi"@.len() != "-h"@.len());
        reveal_strlit("--help");
        assert("--dpi"@.len() != "--help"@.len());
    }
    assert(flag_output("-e"@) == Some(Output::Edpi) && !is_help_flag("-e"@)) by {
        reveal_strlit("-e");
        reveal_strlit("-c");
        assert("-e"@[1] != "-c"@[1]);
        reveal_strlit("--crosshair");
        assert("-e"@.len() != "--crosshair"@.len());
        reveal_strlit("-m");
        assert("-e"@[1] != "-m"@[1]);
        reveal_strlit("--mouse");
        assert("-e"@.len() != "--mouse"@.len());
        reveal_strlit("-s");
        assert("-e"@[1] != "-s"@[1]);
        reveal_strlit("--sensitivity");
        assert("-e"@.len() != "--sensitivity"@.len());
        reveal_strlit("-d");
        assert("-e"@[1] != "-d"@[1]);
        reveal_strlit("--dpi");
        assert("-e"@.len() != "--dpi"@.len());
        reveal_strlit("-h");
        assert("-e"@[1] != "-h"@[1]);
        reveal_strlit("--help");
        assert("-e"@.len() != "--help"@.len());
    }
    assert(flag_output("--edpi"@) == Some(Output::Edpi) && !is_help_flag("--edpi"@)) by {
        reveal_strlit("--edpi");
        reveal_strlit("-c");
        assert("--edpi"@.len() != "-c"@.len());
        reveal_strlit("--crosshair");
        assert("--edpi"@.len() != "--crosshair"@.len());
        reveal_strlit("-m");
        assert("--edpi"@.len() != "-m"@.len());
        reveal_strlit("--mouse");
        assert("--edpi"@.len() != "--mouse"@.len());
        reveal_strlit("-s");
        assert("--edpi"@.len() != "-s"@.len());
        reveal_strlit("--sensitivity");
        assert("--edpi"@.len() != "--sensitivity"@.len());
        reveal_strlit("-d");
        assert("--edpi"@.len() != "-d"@.len());
        reveal_strlit("--dpi");
        assert("--edpi"@.len() != "--dpi"@.len());
        reveal_strlit("-e");
        assert("--edpi"@.len() != "-e"@.len());
        reveal_strlit("-h");
        assert("--edpi"@.len() != "-h"@.len());
        reveal_strlit("--help");
        assert("--edpi"@[2] != "--help"@[2]);
    }
    assert(flag_output("-v"@) == Some(Output::Viewmodel) && !is_help_flag("-v"@)) by {
        reveal_strlit("-v");
        reveal_strlit("-c");
        assert("-v"@[1] != "-c"@[1]);
        reveal_strlit("--crosshair");
        assert("-v"@.len() != "--crosshair"@.len());
        reveal_strlit("-m");
        assert("-v"@[1] != "-m"@[1]);
        reveal_strlit("--mouse");
        assert("-v"@.len() != "--mouse"@.len());
        reveal_strlit("-s");
        assert("-v"@[1] != "-s"@[1]);
        reveal_strlit("--sensitivity");
        assert("-v"@.len() != "--sensitivity"@.len());
        reveal_strlit("-d");
        assert("-v"@[1] != "-d"@[1]);
        reveal_strlit("--dpi");
        assert("-v"@.len() != "--dpi"@.len());
        reveal_strlit("-e");
        assert("-v"@[1] != "-e"@[1]);
        reveal_strlit("--edpi");
        assert("-v"@.len() != "--edpi"@.len());
        reveal_strlit("-h");
        assert("-v"@[1] != "-h"@[1]);
        reveal_strlit("--help");
        assert("-v"@.len() != "--help"@.len());
    }
    assert(flag_output("--viewmodel"@) == Some(Output::Viewmodel) && !is_help_flag("--viewmodel"@)) by {
        reveal_strlit("--viewmodel");
        reveal_strlit("-c");
        assert("--viewmodel"@.len() != "-c"@.len());
        reveal_strlit("--crosshair");
        assert("--viewmodel"@[2] != "--crosshair"@[2]);
        reveal_strlit("-m");
        assert("--viewmodel"@.len() != "-m"@.len());
        reveal_strlit("--mouse");
        assert("--viewmodel"@.len() != "--mouse"@.len());
        reveal_strlit("-s");
        assert("--viewmodel"@.len() != "-s"@.len());
        reveal_strlit("--sensitivity");
        assert("--viewmodel"@.len() != "--sensitivity"@.len());
        reveal_strlit("-d");
        assert("--viewmodel"@.len() != "-d"@.len());
        reveal_strlit("--dpi");
        assert("--viewmodel"@.len() != "--dpi"@.len());
        reveal_strlit("-e");
        assert("--viewmodel"@.len() != "-e"@.len());
        reveal_strlit("--edpi");
        assert("--viewmodel"@.len() != "--edpi"@.len());
        reveal_strlit("-v");
        assert("--viewmodel"@.len() != "-v"@.len());
        reveal_strlit("-h");
        assert("--viewmodel"@.len() != "-h"@.len());
        reveal_strlit("--help");
        assert("--viewmodel"@.len() != "--help"@.len());
    }
    assert(flag_output("--video"@) == Some(Output::Video) && !is_help_flag("--video"@)) by {
        reveal_strlit("--video");
        reveal_strlit("-c");
        assert("--video"@.len() != "-c"@.len());
        reveal_strlit("--crosshair");
        assert("--video"@.len() != "--crosshair"@.len());
        reveal_strlit("-m");
        assert("--video"@.len() != "-m"@.len());
        reveal_strlit("--mouse");
        assert("--video"@[2] != "--mouse"@[2]);
        reveal_strlit("-s");
        assert("--video"@.len() != "-s"@.len());
        reveal_strlit("--sensitivity");
        assert("--video"@.len() != "--sensitivity"@.len());
        reveal_strlit("-d");
        assert("--video"@.len() != "-d"@.len());
        reveal_strlit("--dpi");
        assert("--video"@.len() != "--dpi"@.len());
        reveal_strlit("-e");
        assert("--video"@.len() != "-e"@.len());
        reveal_strlit("--edpi");
        assert("--video"@.len() != "--edpi"@.len());
        reveal_strlit("-v");
        assert("--video"@.len() != "-v"@.len());
        reveal_strlit("--viewmodel");
        assert("--video"@.len() != "--viewmodel"@.len());
        reveal_strlit("-h");
        assert("--video"@.len() != "-h"@.len());
        reveal_strlit("--help");
        assert("--video"@.len() != "--help"@.len());
    }
    assert(flag_output("-r"@) == Some(Output::Radar) && !is_help_flag("-r"@)) by {
        reveal_strlit("-r");
        reveal_strlit("-c");
        assert("-r"@[1] != "-c"@[1]);
        reveal_strlit("--crosshair");
        assert("-r"@.len() != "--crosshair"@.len());
        reveal_strlit("-m");
        assert("-r"@[1] != "-m"@[1]);
        reveal_strlit("--mouse");
        assert("-r"@.len() != "--mouse"@.len());
        reveal_strlit("-s");
        assert("-r"@[1] != "-s"@[1]);
        reveal_strlit("--sensitivity");
        assert("-r"@.len() != "--sensitivity"@.len());
        reveal_strlit("-d");
        assert("-r"@[1] != "-d"@[1]);
        reveal_strlit("--dpi");
        assert("-r"@.len() != "--dpi"@.len());
        reveal_strlit("-e");
        assert("-r"@[1] != "-e"@[1]);
        reveal_strlit("--edpi");
        assert("-r"@.len() != "--edpi"@.len());
        reveal_strlit("-v");
        assert("-r"@[1] != "-v"@[1]);
        reveal_strlit("--viewmodel");
        assert("-r"@.len() != "--viewmodel"@.len());
        reveal_strlit("--video");
        assert("-r"@.len() != "--video"@.len());
        reveal_strlit("-h");
        assert("-r"@[1] != "-h"@[1]);
        reveal_strlit("--help");
        assert("-r"@.len() != "--help"@.len());
    }
    assert(flag_output("--radar"@) == Some(Output::Radar) && !is_help_flag("--radar"@)) by {
        reveal_strlit("--radar");
        reveal_strlit("-c");
        assert("--radar"@.len() != "-c"@.len());
        reveal_strlit("--crosshair");
        assert("--radar"@.len() != "--crosshair"@.len());
        reveal_strlit("-m");
        assert("--radar"@.len() != "-m"@.len());
        reveal_strlit("--mouse");
        assert("--radar"@[2] != "--mouse"@[2]);
        reveal_strlit("-s");
        assert("--radar"@.len() != "-s"@.len());
        reveal_strlit("--sensitivity");
        assert("--radar"@.len() != "--sensitivity"@.len());
        reveal_strlit("-d");
        assert("--radar"@.len() != "-d"@.len());
        reveal_strlit("--dpi");
        assert("--radar"@.len() != "--dpi"@.len());
        reveal_strlit("-e");
        assert("--radar"@.len() != "-e"@.len());
        reveal_strlit("--edpi");
        assert("--radar"@.len() != "--edpi"@.len());
        reveal_strlit("-v");
        assert("--radar"@.len() != "-v"@.len());
        reveal_strlit("--viewmodel");
        assert("--radar"@.len() != "--viewmodel"@.len());
        reveal_strlit("--video");
        assert("--radar"@[2] != "--video"@[2]);
        reveal_strlit("-r");
        assert("--radar"@.len() != "-r"@.len());
        reveal_strlit("-h");
        assert("--radar"@.len() != "-h"@.len());
        reveal_strlit("--help");
        assert("--radar"@.len() != "--help"@.len());
    }
    assert(flag_output("--hud"@) == Some(Output::Hud) && !is_help_flag("--hud"@)) by {
        reveal_strlit("--hud");
        reveal_strlit("-c");
        assert("--hud"@.len() != "-c"@.len());
        reveal_strlit("--crosshair");
        assert("--hud"@.len() != "--crosshair"@.len());
        reveal_strlit("-m");
        assert("--hud"@.len() != "-m"@.len());
        reveal_strlit("--mouse");
        assert("--hud"@.len() != "--mouse"@.len());
        reveal_strlit("-s");
        assert("--hud"@.len() != "-s"@.len());
        reveal_strlit("--sensitivity");
        assert("--hud"@.len() != "--sensitivity"@.len());
        reveal_strlit("-d");
        assert("--hud"@.len() != "-d"@.len());
        reveal_strlit("--dpi");
        assert("--hud"@[2] != "--dpi"@[2]);
        reveal_strlit("-e");
        assert("--hud"@.len() != "-e"@.len());
        reveal_strlit("--edpi");
        assert("--hud"@.len() != "--edpi"@.len());
        reveal_strlit("-v");
        assert("--hud"@.len() != "-v"@.len());
        reveal_strlit("--viewmodel");
        assert("--hud"@.len() != "--viewmodel"@.len());
        reveal_strlit("--video");
        assert("--hud"@.len() != "--video"@.len());
        reveal_strlit("-r");
        assert("--hud"@.len() != "-r"@.len());
        reveal_strlit("--radar");
        assert("--hud"@.len() != "--radar"@.len());
        reveal_strlit("-h");
        assert("--hud"@.len() != "-h"@.len());
        reveal_strlit("--help");
        assert("--hud"@.len() != "--help"@.len());
    }
    assert(flag_output("-l"@) == Some(Output::Launch) && !is_help_flag("-l"@)) by {
        reveal_strlit("-l");
        reveal_strlit("-c");
        assert("-l"@[1] != "-c"@[1]);
        reveal_strlit("--crosshair");
        assert("-l"@.len() != "--crosshair"@.len());
        reveal_strlit("-m");
        assert("-l"@[1] != "-m"@[1]);
        reveal_strlit("--mouse");
        assert("-l"@.len() != "--mouse"@.len());
        reveal_strlit("-s");
        assert("-l"@[1] != "-s"@[1]);
        reveal_strlit("--sensitivity");
        assert("-l"@.len() != "--sensitivity"@.len());
        reveal_strlit("-d");
        assert("-l"@[1] != "-d"@[1]);
        reveal_strlit("--dpi");
        assert("-l"@.len() != "--dpi"@.len());
        reveal_strlit("-e");
        assert("-l"@[1] != "-e"@[1]);
        reveal_strlit("--edpi");
        assert("-l"@.len() != "--edpi"@.len());
        reveal_strlit("-v");
        assert("-l"@[1] != "-v"@[1]);
        reveal_strlit("--viewmodel");
        assert("-l"@.len() != "--viewmodel"@.len());
        reveal_strlit("--video");
        assert("-l"@.len() != "--video"@.len());
        reveal_strlit("-r");
        assert("-l"@[1] != "-r"@[1]);
        reveal_strlit("--radar");
        assert("-l"@.len() != "--radar"@.len());
        reveal_strlit("--hud");
        assert("-l"@.len() != "--hud"@.len());
        reveal_strlit("-h");
        assert("-l"@[1] != "-h"@[1]);
        reveal_strlit("--help");
        assert("-l"@.len() != "--help"@.len());
    }
    assert(flag_output("--launch"@) == Some(Output::Launch) && !is_help_flag("--launch"@)) by {
        reveal_strlit("--launch");
        reveal_strlit("-c");
        assert("--launch"@.len() != "-c"@.len());
        reveal_strlit("--crosshair");
        assert("--launch"@.len() != "--crosshair"@.len());
        reveal_strlit("-m");
        assert("--launch"@.len() != "-m"@.len());
        reveal_strlit("--mouse");
        assert("--launch"@.len() != "--mouse"@.len());
        reveal_strlit("-s");
        assert("--launch"@.len() != "-s"@.len());
        reveal_strlit("--sensitivity");
        assert("--launch"@.len() != "--sensitivity"@.len());
        reveal_strlit("-d");
        assert("--launch"@.len() != "-d"@.len());
        reveal_strlit("--dpi");
        assert("--launch"@.len() != "--dpi"@.len());
        reveal_strlit("-e");
        assert("--launch"@.len() != "-e"@.len());
        reveal_strlit("--edpi");
        assert("--launch"@.len() != "--edpi"@.len());
        reveal_strlit("-v");
        assert("--launch"@.len() != "-v"@.len());
        reveal_strlit("--viewmodel");
        assert("--launch"@.len() != "--viewmodel"@.len());
        reveal_strlit("--video");
        assert("--launch"@.len() != "--video"@.len());
        reveal_strlit("-r");
        assert("--launch"@.len() != "-r"@.len());
        reveal_strlit("--radar");
        assert("--launch"@.len() != "--radar"@.len());
        reveal_strlit("--hud");
        assert("--launch"@.len() != "--hud"@.len());
        reveal_strlit("-l");
        assert("--launch"@.len() != "-l"@.len());
        reveal_strlit("-h");
        assert("--launch"@.len() != "-h"@.len());
        reveal_strlit("--help");
        assert("--launch"@.len() != "--help"@.len());
    }
    assert(flag_output("--gear"@) == Some(Output::Gear) && !is_help_flag("--gear"@)) by {
        reveal_strlit("--gear");
        reveal_strlit("-c");
        assert("--gear"@.len() != "-c"@.len());
        reveal_strlit("--crosshair");
        assert("--gear"@.len() != "--crosshair"@.len());
        reveal_strlit("-m");
        assert("--gear"@.len() != "-m"@.len());
        reveal_strlit("--mouse");
        assert("--gear"@.len() != "--mouse"@.len());
        reveal_strlit("-s");
        assert("--gear"@.len() != "-s"@.len());
        reveal_strlit("--sensitivity");
        assert("--gear"@.len() != "--sensitivity"@.len());
        reveal_strlit("-d");
        assert("--gear"@.len() != "-d"@.len());
        reveal_strlit("--dpi");
        assert("--gear"@.len() != "--dpi"@.len());
        reveal_strlit("-e");
        assert("--gear"@.len() != "-e"@.len());
        reveal_strlit("--edpi");
        assert("--gear"@[2] != "--edpi"@[2]);
        reveal_strlit("-v");
        assert("--gear"@.len() != "-v"@.len());
        reveal_strlit("--viewmodel");
        assert("--gear"@.len() != "--viewmodel"@.len());
        reveal_strlit("--video");
        assert("--gear"@.len() != "--video"@.len());
        reveal_strlit("-r");
        assert("--gear"@.len() != "-r"@.len());
        reveal_strlit("--radar");
        assert("--gear"@.len() != "--radar"@.len());
        reveal_strlit("--hud");
        assert("--gear"@.len() != "--hud"@.len());
        reveal_strlit("-l");
        assert("--gear"@.len() != "-l"@.len());
        reveal_strlit("--launch");
        assert("--gear"@.len() != "--launch"@.len());
        reveal_strlit("-h");
        assert("--gear"@.len() != "-h"@.len());
        reveal_strlit("--help");
        assert("--gear"@[2] != "--help"@[2]);
    }
    assert(flag_output("-a"@) == Some(Output::All) && !is_help_flag("-a"@)) by {
        reveal_strlit("-a");
        reveal_strlit("-c");
        assert("-a"@[1] != "-c"@[1]);
        reveal_strlit("--crosshair");
        assert("-a"@.len() != "--crosshair"@.len());
        reveal_strlit("-m");
        assert("-a"@[1] != "-m"@[1]);
        reveal_strlit("--mouse");
        assert("-a"@.len() != "--mouse"@.len());
        reveal_strlit("-s");
        assert("-a"@[1] != "-s"@[1]);
        reveal_strlit("--sensitivity");
        assert("-a"@.len() != "--sensitivity"@.len());
        reveal_strlit("-d");
        assert("-a"@[1] != "-d"@[1]);
        reveal_strlit("--dpi");
        assert("-a"@.len() != "--dpi"@.len());
        reveal_strlit("-e");
        assert("-a"@[1] != "-e"@[1]);
        reveal_strlit("--edpi");
        assert("-a"@.len() != "--edpi"@.len());
        reveal_strlit("-v");
        assert("-a"@[1] != "-v"@[1]);
        reveal_strlit("--viewmodel");
        assert("-a"@.len() != "--viewmodel"@.len());
        reveal_strlit("--video");
        assert("-a"@.len() != "--video"@.len());
        reveal_strlit("-r");
        assert("-a"@[1] != "-r"@[1]);
        reveal_strlit("--radar");
        assert("-a"@.len() != "--radar"@.len());
        reveal_strlit("--hud");
        assert("-a"@.len() != "--hud"@.len());
        reveal_strlit("-l");
        assert("-a"@[1] != "-l"@[1]);
        reveal_strlit("--launch");
        assert("-a"@.len() != "--launch"@.len());
        reveal_strlit("--gear");
        assert("-a"@.len() != "--gear"@.len());
        reveal_strlit("-h");
        assert("-a"@[1] != "-h"@[1]);
        reveal_strlit("--help");
        assert("-a"@.len() != "--help"@.len());
    }
    assert(flag_output("--all"@) == Some(Output::All) && !is_help_flag("--all"@)) by {
        reveal_strlit("--all");
        reveal_strlit("-c");
        assert("--all"@.len() != "-c"@.len());
        reveal_strlit("--crosshair");
        assert("--all"@.len() != "--crosshair"@.len());
        reveal_strlit("-m");
        assert("--all"@.len() != "-m"@.len());
        reveal_strlit("--mouse");
        assert("--all"@.len() != "--mouse"@.len());
        reveal_strlit("-s");
        assert("--all"@.len() != "-s"@.len());
        reveal_strlit("--sensitivity");
        assert("--all"@.len() != "--sensitivity"@.len());
        reveal_strlit("-d");
        assert("--all"@.len() != "-d"@.len());
        reveal_strlit("--dpi");
        assert("--all"@[2] != "--dpi"@[2]);
        reveal_strlit("-e");
        assert("--all"@.len() != "-e"@.len());
        reveal_strlit("--edpi");
        assert("--all"@.len() != "--edpi"@.len());
        reveal_strlit("-v");
        assert("--all"@.len() != "-v"@.len());
        reveal_strlit("--viewmodel");
        assert("--all"@.len() != "--viewmodel"@.len());
        reveal_strlit("--video");
        assert("--all"@.len() != "--video"@.len());
        reveal_strlit("-r");
        assert("--all"@.len() != "-r"@.len());
        reveal_strlit("--radar");
        assert("--all"@.len() != "--radar"@.len());
        reveal_strlit("--hud");
        assert("--all"@[2] != "--hud"@[2]);
        reveal_strlit("-l");
        assert("--all"@.len() != "-l"@.len());
        reveal_strlit("--launch");
        assert("--all"@.len() != "--launch"@.len());
        reveal_strlit("--gear");
        assert("--all"@.len() != "--gear"@.len());
        reveal_strlit("-a");
        assert("--all"@.len() != "-a"@.len());
        reveal_strlit("-h");
        assert("--all"@.len() != "-h"@.len());
        reveal_strlit("--help");
        assert("--all"@.len() != "--help"@.len());
    }
    assert(flag_output("-j"@) == Some(Output::Json) && !is_help_flag("-j"@)) by {
        reveal_strlit("-j");
        reveal_strlit("-c");
        assert("-j"@[1] != "-c"@[1]);
        reveal_strlit("--crosshair");
        assert("-j"@.len() != "--crosshair"@.len());
        reveal_strlit("-m");
        assert("-j"@[1] != "-m"@[1]);
        reveal_strlit("--mouse");
        assert("-j"@.len() != "--mouse"@.len());
        reveal_strlit("-s");
        assert("-j"@[1] != "-s"@[1]);
        reveal_strlit("--sensitivity");
        assert("-j"@.len() != "--sensitivity"@.len());
        reveal_strlit("-d");
        assert("-j"@[1] != "-d"@[1]);
        reveal_strlit("--dpi");
        assert("-j"@.len() != "--dpi"@.len());
        reveal_strlit("-e");
        assert("-j"@[1] != "-e"@[1]);
        reveal_strlit("--edpi");
        assert("-j"@.len() != "--edpi"@.len());
        reveal_strlit("-v");
        assert("-j"@[1] != "-v"@[1]);
        reveal_strlit("--viewmodel");
        assert("-j"@.len() != "--viewmodel"@.len());
        reveal_strlit("--video");
        assert("-j"@.len() != "--video"@.len());
        reveal_strlit("-r");
        assert("-j"@[1] != "-r"@[1]);
        reveal_strlit("--radar");
        assert("-j"@.len() != "--radar"@.len());
        reveal_strlit("--hud");
        assert("-j"@.len() != "--hud"@.len());
        reveal_strlit("-l");
        assert("-j"@[1] != "-l"@[1]);
        reveal_strlit("--launch");
        assert("-j"@.len() != "--launch"@.len());
        reveal_strlit("--gear");
        assert("-j"@.len() != "--gear"@.len());
        reveal_strlit("-a");
        assert("-j"@[1] != "-a"@[1]);
        reveal_strlit("--all");
        assert("-j"@.len() != "--all"@.len());
        reveal_strlit("-h");
        assert("-j"@[1] != "-h"@[1]);
        reveal_strlit("--help");
        assert("-j"@.len() != "--help"@.len());
    }
    assert(flag_output("--json"@) == Some(Output::Json) && !is_help_flag("--json"@)) by {
        reveal_strlit("--json");
        reveal_strlit("-c");
        assert("--json"@.len() != "-c"@.len());
        reveal_strlit("--crosshair");
        assert("--json"@.len() != "--crosshair"@.len());
        reveal_strlit("-m");
        assert("--json"@.len() != "-m"@.len());
        reveal_strlit("--mouse");
        assert("--json"@.len() != "--mouse"@.len());
        reveal_strlit("-s");
        assert("--json"@.len() != "-s"@.len());
        reveal_strlit("--sensitivity");
        assert("--json"@.len() != "--sensitivity"@.len());
        reveal_strlit("-d");
        assert("--json"@.len() != "-d"@.len());
        reveal_strlit("--dpi");
        assert("--json"@.len() != "--dpi"@.len());
        reveal_strlit("-e");
        assert("--json"@.len() != "-e"@.len());
        reveal_strlit("--edpi");
        assert("--json"@[2] != "--edpi"@[2]);
        reveal_strlit("-v");
        assert("--json"@.len() != "-v"@.len());
        reveal_strlit("--viewmodel");
        assert("--json"@.len() != "--viewmodel"@.len());
        reveal_strlit("--video");
        assert("--json"@.len() != "--video"@.len());
        reveal_strlit("-r");
        assert("--json"@.len() != "-r"@.len());
        reveal_strlit("--radar");
        assert("--json"@.len() != "--radar"@.len());
        reveal_strlit("--hud");
        assert("--json"@.len() != "--hud"@.len());
        reveal_strlit("-l");
        assert("--json"@.len() != "-l"@.len());
        reveal_strlit("--launch");
        assert("--json"@.len() != "--launch"@.len());
        reveal_strlit("--gear");
        assert("--json"@[2] != "--gear"@[2]);
        reveal_strlit("-a");
        assert("--json"@.len() != "-a"@.len());
        reveal_strlit("--all");
        assert("--json"@.len() != "--all"@.len());
        reveal_strlit("-j");
        assert("--json"@.len() != "-j"@.len());
        reveal_strlit("-h");
        assert("--json"@.len() != "-h"@.len());
        reveal_strlit("--help");
        assert("--json"@[2] != "--help"@[2]);
    }
}

/// A one-shot query: a program name, a player name that is not a flag and not blank,
/// and one output flag give the query for the player's slug with the output that the
/// flag names.
pub proof fn lemma_query_of_name_and_flag(prog: Seq<char>, name: Seq<char>)
    requires
        name.len() > 0,
        name[0] != '-',
        trim(name).len() > 0,
    ensures
        action_of(seq![prog, name, "-c"@]) == Ok::<ActionView, Seq<char>>(ActionView::Query { slug: slug_of(name)->0, output: Output::Crosshair }),
        action_of(seq![prog, name, "--crosshair"@]) == Ok::<ActionView, Seq<char>>(ActionView::Query { slug: slug_of(name)->0, output: Output::Crosshair }),
        action_of(seq![prog, name, "-m"@]) == Ok::<ActionView, Seq<char>>(ActionView::Query { slug: slug_of(name)->0, output: Output::Mouse }),
        action_of(seq![prog, name, "--mouse"@]) == Ok::<ActionView, Seq<char>>(ActionView::Query { slug: slug_of(name)->0, output: Output::Mouse }),
        action_of(seq![prog, name, "-s"@]) == Ok::<ActionView, Seq<char>>(ActionView::Query { slug: slug_of(name)->0, output: Output::Sensitivity }),
        action_of(seq![prog, name, "--sensitivity"@]) == Ok::<ActionView, Seq<char>>(ActionView::Query { slug: slug_of(name)->0, output: Output::Sensitivity }),
        action_of(seq![prog, name, "-d"@]) == Ok::<ActionView, Seq<char>>(ActionView::Query { slug: slug_of(name)->0, output: Output::Dpi }),
        action_of(seq![prog, name, "--dpi"@]) == Ok::<ActionView, Seq<char>>(ActionView::Query { slug: slug_of(name)->0, output: Output::Dpi }),
        action_of(seq![prog, name, "-e"@]) == Ok::<ActionView, Seq<char>>(ActionView::Query { slug: slug_of(name)->0, output: Output::Edpi }),
        action_of(seq![prog, name, "--edpi"@]) == Ok::<ActionView, Seq<char>>(ActionView::Query { slug: slug_of(name)->0, output: Output::Edpi }),
        action_of(seq![prog, name, "-v"@]) == Ok::<ActionView, Seq<char>>(ActionView::Query { slug: slug_of(name)->0, output: Output::Viewmodel }),
        action_of(seq![prog, name, "--viewmodel"@]) == Ok::<ActionView, Seq<char>>(ActionView::Query { slug: slug_of(name)->0, output: Output::Viewmodel }),
        action_of(seq![prog, name, "--video"@]) == Ok::<ActionView, Seq<char>>(ActionView::Query { slug: slug_of(name)->0, output: Output::Video }),
        action_of(seq![prog, name, "-r"@]) == Ok::<ActionView, Seq<char>>(ActionView::Query { slug: slug_of(name)->0, output: Output::Radar }),
        action_of(seq![prog, name, "--radar"@]) == Ok::<ActionView, Seq<char>>(ActionView::Query { slug: slug_of(name)->0, output: Output::Radar }),
        action_of(seq![prog, name, "--hud"@]) == Ok::<ActionView, Seq<char>>(ActionView::Query { slug: slug_of(name)->0, output: Output::Hud }),
        action_of(seq![prog, name, "-l"@]) == Ok::<ActionView, Seq<char>>(ActionView::Query { slug: slug_of(name)->0, output: Output::Launch }),
        action_of(seq![prog, name, "--launch"@]) == Ok::<ActionView, Seq<char>>(ActionView::Query { slug: slug_of(name)->0, output: Output::Launch }),
        action_of(seq![prog, name, "--gear"@]) == Ok::<ActionView, Seq<char>>(ActionView::Query { slug: slug_of(name)->0, output: Output::Gear }),
        action_of(seq![prog, name, "-a"@]) == Ok::<ActionView, Seq<char>>(ActionView::Query { slug: slug_of(name)->0, output: Output::All }),
        action_of(seq![prog, name, "--all"@]) == Ok::<ActionView, Seq<char>>(ActionView::Query { slug: slug_of(name)->0, output: Output::All }),
        action_of(seq![prog, name, "-j"@]) == Ok::<ActionView, Seq<char>>(ActionView::Query { slug: slug_of(name)->0, output: Output::Json }),
        action_of(seq![prog, name, "--json"@]) == Ok::<ActionView, Seq<char>>(ActionView::Query { slug: slug_of(name)->0, output: Output::Json }),
{
    lemma_flags_name_their_outputs();
    lemma_name_is_no_flag(name);
    lemma_query_with_flag(prog, name, "-c"@);
    lemma_query_with_flag(prog, name, "--crosshair"@);
    lemma_query_with_flag(prog, name, "-m"@);
    lemma_query_with_flag(prog, name, "--mouse"@);
    lemma_query_with_flag(prog, name, "-s"@);
    lemma_query_with_flag(prog, name, "--sensitivity"@);
    lemma_query_with_flag(prog, name, "-d"@);
    lemma_query_with_flag(prog, name, "--dpi"@);
    lemma_query_with_flag(prog, name, "-e"@);
    lemma_query_with_flag(prog, name, "--edpi"@);
    lemma_query_with_flag(prog, name, "-v"@);
    lemma_query_with_flag(prog, name, "--viewmodel"@);
    lemma_query_with_flag(prog, name, "--video"@);
    lemma_query_with_flag(prog, name, "-r"@);
    lemma_query_with_flag(prog, name, "--radar"@);
    lemma_query_with_flag(prog, name, "--hud"@);
    lemma_query_with_flag(prog, name, "-l"@);
    lemma_query_with_flag(prog, name, "--launch"@);
    lemma_query_with_flag(prog, name, "--gear"@);
    lemma_query_with_flag(prog, name, "-a"@);
    lemma_query_with_flag(prog, name, "--all"@);
    lemma_query_with_flag(prog, name, "-j"@);
    lemma_query_with_flag(prog, name, "--json"@);
}

/// A name that does not start with `-` is neither an output flag nor a request for help.
proof fn lemma_name_is_no_flag(name: Seq<char>)
    requires
        name.len() > 0,
        name[0] != '-',
    ensures
        flag_output(name) is None,
        !is_help_flag(name),
        !has_prefix(name, "-"@),
{
    reveal_strlit("-c");
    assert(name != "-c"@) by { assert("-c"@[0] == '-'); }
    reveal_strlit("--crosshair");
    assert(name != "--crosshair"@) by { assert("--crosshair"@[0] == '-'); }
    reveal_strlit("-m");
    assert(name != "-m"@) by { assert("-m"@[0] == '-'); }
    reveal_strlit("--mouse");
    assert(name != "--mouse"@) by { assert("--mouse"@[0] == '-'); }
    reveal_strlit("-s");
    assert(name != "-s"@) by { assert("-s"@[0] == '-'); }
    reveal_strlit("--sensitivity");
    assert(name != "--sensitivity"@) by { assert("--sensitivity"@[0] == '-'); }
    reveal_strlit("-d");
    assert(name != "-d"@) by { assert("-d"@[0] == '-'); }
    reveal_strlit("--dpi");
    assert(name != "--dpi"@) by { assert("--dpi"@[0] == '-'); }
    reveal_strlit("-e");
    assert(name != "-e"@) by { assert("-e"@[0] == '-'); }
    reveal_strlit("--edpi");
    assert(name != "--edpi"@) by { assert("--edpi"@[0] == '-'); }
    reveal_strlit("-v");
    assert(name != "-v"@) by { assert("-v"@[0] == '-'); }
    reveal_strlit("--viewmodel");
    assert(name != "--viewmodel"@) by { assert("--viewmodel"@[0] == '-'); }
    reveal_strlit("--video");
    assert(name != "--video"@) by { assert("--video"@[0] == '-'); }
    reveal_strlit("-r");
    assert(name != "-r"@) by { assert("-r"@[0] == '-'); }
    reveal_strlit("--radar");
    assert(name != "--radar"@) by { assert("--radar"@[0] == '-'); }
    reveal_strlit("--hud");
    assert(name != "--hud"@) by { assert("--hud"@[0] == '-'); }
    reveal_strlit("-l");
    assert(name != "-l"@) by { assert("-l"@[0] == '-'); }
    reveal_strlit("--launch");
    assert(name != "--launch"@) by { assert("--launch"@[0] == '-'); }
    reveal_strlit("--gear");
    assert(name != "--gear"@) by { assert("--gear"@[0] == '-'); }
    reveal_strlit("-a");
    assert(name != "-a"@) by { assert("-a"@[0] == '-'); }
    reveal_strlit("--all");
    assert(name != "--all"@) by { assert("--all"@[0] == '-'); }
    reveal_strlit("-j");
    assert(name != "-j"@) by { assert("-j"@[0] == '-'); }
    reveal_strlit("--json");
    assert(name != "--json"@) by { assert("--json"@[0] == '-'); }
    reveal_strlit("-h");
    assert(name != "-h"@) by { assert("-h"@[0] == '-'); }
    reveal_strlit("--help");
    assert(name != "--help"@) by { assert("--help"@[0] == '-'); }
    reveal_strlit("-");
    assert(name.take(1) != "-"@) by { assert(name.take(1)[0] == name[0]); }
}

/// The scan of a name followed by one output flag.
proof fn lemma_query_with_flag(prog: Seq<char>, name: Seq<char>, f: Seq<char>)
    requires
        flag_output(name) is None,
        !is_help_flag(name),
        !has_prefix(name, "-"@),
        flag_output(f) is Some,
        !is_help_flag(f),
        trim(name).len() > 0,
    ensures
        action_of(seq![prog, name, f]) == Ok::<ActionView, Seq<char>>(ActionView::Query { slug: slug_of(name)->0, output: flag_output(f)->0 }),
{
    let args = seq![prog, name, f];
    let rest = args.subrange(1, 3);
    assert(rest =~= seq![name, f]);
    assert(rest.drop_last() =~= seq![name]);
    assert(seq![name].drop_last() =~= Seq::<Seq<char>>::empty());
    assert(scan_args(Seq::<Seq<char>>::empty()).positional.len() == 0);
    let s1 = scan_args(seq![name]);
    assert(s1.positional =~= seq![name]);
    assert(!s1.help && s1.flags.len() == 0 && s1.output is None);
    let s2 = scan_args(rest);
    assert(s2.flags.len() == 1);
    assert(s2.output == flag_output(f));
    assert(s2.positional =~= seq![name]);
    assert(first_of(s2.positional) == Some(name));
}

/// The one line a labelled setting prints: `label: value`, or nothing without a value.
pub open spec fn labelled_line(label: Seq<char>, value: Option<String>) -> Seq<Seq<char>> {
    match value {
        Some(v) => seq![label + ": "@ + v@],
        None => Seq::<Seq<char>>::empty(),
    }
}

/// The one line a bare setting prints: its value, or nothing without a value.
pub open spec fn bare_line(value: Option<String>) -> Seq<Seq<char>> {
    match value {
        Some(v) => seq![v@],
        None => Seq::<Seq<char>>::empty(),
    }
}

/// Each single-value query prints exactly the setting it names, whatever the other
/// settings hold, and nothing when that setting is missing.
pub proof fn lemma_single_value_outputs(p: PlayerData)
    ensures
        output_lines(Output::Crosshair, p) == bare_line(p.data.crosshair.import_code),
        output_lines(Output::Sensitivity, p) == bare_line(p.data.mouse.sensitivity),
        output_lines(Output::Dpi, p) == bare_line(p.data.mouse.dpi),
        output_lines(Output::Edpi, p) == bare_line(p.data.mouse.edpi),
        output_lines(Output::Launch, p) == bare_line(p.data.launch_options),
        output_lines(Output::Json, p).len() == 0,
{
}

/// Each setting of the mouse group prints under its own label: when it is the only
/// one set, the mouse query prints exactly `label: value` for it.
pub proof fn lemma_mouse_output_labels(p: PlayerData)
    ensures
        (p.data.mouse.sensitivity is None && p.data.mouse.edpi is None && p.data.mouse.zoom_sensitivity_ratio_mouse is None && p.data.mouse.hz is None && p.data.mouse.windows_sensitivity is None) ==> output_lines(Output::Mouse, p) == labelled_line("dpi"@, p.data.mouse.dpi),
        (p.data.mouse.dpi is None && p.data.mouse.edpi is None && p.data.mouse.zoom_sensitivity_ratio_mouse is None && p.data.mouse.hz is None && p.data.mouse.windows_sensitivity is None) ==> output_lines(Output::Mouse, p) == labelled_line("sensitivity"@, p.data.mouse.sensitivity),
        (p.data.mouse.dpi is None && p.data.mouse.sensitivity is None && p.data.mouse.zoom_sensitivity_ratio_mouse is None && p.data.mouse.hz is None && p.data.mouse.windows_sensitivity is None) ==> output_lines(Output::Mouse, p) == labelled_line("edpi"@, p.data.mouse.edpi),
        (p.data.mouse.dpi is None && p.data.mouse.sensitivity is None && p.data.mouse.edpi is None && p.data.mouse.hz is None && p.data.mouse.windows_sensitivity is None) ==> output_lines(Output::Mouse, p) == labelled_line("zoom_sensitivity"@, p.data.mouse.zoom_sensitivity_ratio_mouse),
        (p.data.mouse.dpi is None && p.data.mouse.sensitivity is None && p.data.mouse.edpi is None && p.data.mouse.zoom_sensitivity_ratio_mouse is None && p.data.mouse.windows_sensitivity is None) ==> output_lines(Output::Mouse, p) == labelled_line("hz"@, p.data.mouse.hz),
        (p.data.mouse.dpi is None && p.data.mouse.sensitivity is None && p.data.mouse.edpi is None && p.data.mouse.zoom_sensitivity_ratio_mouse is None && p.data.mouse.hz is None) ==> output_lines(Output::Mouse, p) == labelled_line("windows_sensitivity"@, p.data.mouse.windows_sensitivity),
{
}

/// Each setting of the viewmodel group prints under its own label: when it is the only
/// one set, the viewmodel query prints exactly `label: value` for it.
pub proof fn lemma_viewmodel_output_labels(p: PlayerData)
    ensures
        (p.data.viewmodel.offset_x is None && p.data.viewmodel.offset_y is None && p.data.viewmodel.offset_z is None && p.data.viewmodel.presetpos is None && p.data.viewmodel.use_new_bob is None) ==> output_lines(Output::Viewmodel, p) == labelled_line("fov"@, p.data.viewmodel.fov),
        (p.data.viewmodel.fov is None && p.data.viewmodel.offset_y is None && p.data.viewmodel.offset_z is None && p.data.viewmodel.presetpos is None && p.data.viewmodel.use_new_bob is None) ==> output_lines(Output::Viewmodel, p) == labelled_line("offset_x"@, p.data.viewmodel.offset_x),
        (p.data.viewmodel.fov is None && p.data.viewmodel.offset_x is None && p.data.viewmodel.offset_z is None && p.data.viewmodel.presetpos is None && p.data.viewmodel.use_new_bob is None) ==> output_lines(Output::Viewmodel, p) == labelled_line("offset_y"@, p.data.viewmodel.offset_y),
        (p.data.viewmodel.fov is None && p.data.viewmodel.offset_x is None && p.data.viewmodel.offset_y is None && p.data.viewmodel.presetpos is None && p.data.viewmodel.use_new_bob is None) ==> output_lines(Output::Viewmodel, p) == labelled_line("offset_z"@, p.data.viewmodel.offset_z),
        (p.data.viewmodel.fov is None && p.data.viewmodel.offset_x is None && p.data.viewmodel.offset_y is None && p.data.viewmodel.offset_z is None && p.data.viewmodel.use_new_bob is None) ==> output_lines(Output::Viewmodel, p) == labelled_line("presetpos"@, p.data.viewmodel.presetpos),
        (p.data.viewmodel.fov is None && p.data.viewmodel.offset_x is None && p.data.viewmodel.offset_y is None && p.data.viewmodel.offset_z is None && p.data.viewmodel.presetpos is None) ==> output_lines(Output::Viewmodel, p) == labelled_line("use_new_bob"@, p.data.viewmodel.use_new_bob),
{
}

/// Each setting of the video group prints under its own label: when it is the only
/// one set, the video query prints exactly `label: value` for it.
pub proof fn lemma_video_output_labels(p: PlayerData)
    ensures
        (p.data.video.aspect_ratio is None && p.data.video.scaling_mode is None && p.data.video.brightness is None && p.data.video.display_mode is None && p.data.video.boost_contrast is None && p.data.video.vsync is None && p.data.video.reflex_low_latency is None && p.data.video.gsync is None && p.data.video.max_fps is None && p.data.video.anti_aliasing is None && p.data.video.shadow_quality is None && p.data.video.dynamic_shadows is None && p.data.video.texture_detail is None && p.data.video.filtering_mode is None && p.data.video.shader_detail is None && p.data.video.particle_detail is None && p.data.video.ambient_occlusion is None && p.data.video.hdr is None && p.data.video.fsr is None) ==> output_lines(Output::Video, p) == labelled_line("resolution"@, p.data.video.resolution),
        (p.data.video.resolution is None && p.data.video.scaling_mode is None && p.data.video.brightness is None && p.data.video.display_mode is None && p.data.video.boost_contrast is None && p.data.video.vsync is None && p.data.video.reflex_low_latency is None && p.data.video.gsync is None && p.data.video.max_fps is None && p.data.video.anti_aliasing is None && p.data.video.shadow_quality is None && p.data.video.dynamic_shadows is None && p.data.video.texture_detail is None && p.data.video.filtering_mode is None && p.data.video.shader_detail is None && p.data.video.particle_detail is None && p.data.video.ambient_occlusion is None && p.data.video.hdr is None && p.data.video.fsr is None) ==> output_lines(Output::Video, p) == labelled_line("aspect_ratio"@, p.data.video.aspect_ratio),
        (p.data.video.resolution is None && p.data.video.aspect_ratio is None && p.data.video.brightness is None && p.data.video.display_mode is None && p.data.video.boost_contrast is None && p.data.video.vsync is None && p.data.video.reflex_low_latency is None && p.data.video.gsync is None && p.data.video.max_fps is None && p.data.video.anti_aliasing is None && p.data.video.shadow_quality is None && p.data.video.dynamic_shadows is None && p.data.video.texture_detail is None && p.data.video.filtering_mode is None && p.data.video.shader_detail is None && p.data.video.particle_detail is None && p.data.video.ambient_occlusion is None && p.data.video.hdr is None && p.data.video.fsr is None) ==> output_lines(Output::Video, p) == labelled_line("scaling_mode"@, p.data.video.scaling_mode),
        (p.data.video.resolution is None && p.data.video.aspect_ratio is None && p.data.video.scaling_mode is None && p.data.video.display_mode is None && p.data.video.boost_contrast is None && p.data.video.vsync is None && p.data.video.reflex_low_latency is None && p.data.video.gsync is None && p.data.video.max_fps is None && p.data.video.anti_aliasing is None && p.data.video.shadow_quality is None && p.data.video.dynamic_shadows is None && p.data.video.texture_detail is None && p.data.video.filtering_mode is None && p.data.video.shader_detail is None && p.data.video.particle_detail is None && p.data.video.ambient_occlusion is None && p.data.video.hdr is None && p.data.video.fsr is None) ==> output_lines(Output::Video, p) == labelled_line("brightness"@, p.data.video.brightness),
        (p.data.video.resolution is None && p.data.video.aspect_ratio is None && p.data.video.scaling_mode is None && p.data.video.brightness is None && p.data.video.boost_contrast is None && p.data.video.vsync is None && p.data.video.reflex_low_latency is None && p.data.video.gsync is None && p.data.video.max_fps is None && p.data.video.anti_aliasing is None && p.data.video.shadow_quality is None && p.data.video.dynamic_shadows is None && p.data.video.texture_detail is None && p.data.video.filtering_mode is None && p.data.video.shader_detail is None && p.data.video.particle_detail is None && p.data.video.ambient_occlusion is None && p.data.video.hdr is None && p.data.video.fsr is None) ==> output_lines(Output::Video, p) == labelled_line("display_mode"@, p.data.video.display_mode),
        (p.data.video.resolution is None && p.data.video.aspect_ratio is None && p.data.video.scaling_mode is None && p.data.video.brightness is None && p.data.video.display_mode is None && p.data.video.vsync is None && p.data.video.reflex_low_latency is None && p.data.video.gsync is None && p.data.video.max_fps is None && p.data.video.anti_aliasing is None && p.data.video.shadow_quality is None && p.data.video.dynamic_shadows is None && p.data.video.texture_detail is None && p.data.video.filtering_mode is None && p.data.video.shader_detail is None && p.data.video.particle_detail is None && p.data.video.ambient_occlusion is None && p.data.video.hdr is None && p.data.video.fsr is None) ==> output_lines(Output::Video, p) == labelled_line("boost_contrast"@, p.data.video.boost_contrast),
        (p.data.video.resolution is None && p.data.video.aspect_ratio is None && p.data.video.scaling_mode is None && p.data.video.brightness is None && p.data.video.display_mode is None && p.data.video.boost_contrast is None && p.data.video.reflex_low_latency is None && p.data.video.gsync is None && p.data.video.max_fps is None && p.data.video.anti_aliasing is None && p.data.video.shadow_quality is None && p.data.video.dynamic_shadows is None && p.data.video.texture_detail is None && p.data.video.filtering_mode is None && p.data.video.shader_detail is None && p.data.video.particle_detail is None && p.data.video.ambient_occlusion is None && p.data.video.hdr is None && p.data.video.fsr is None) ==> output_lines(Output::Video, p) == labelled_line("vsync"@, p.data.video.vsync),
        (p.data.video.resolution is None && p.data.video.aspect_ratio is None && p.data.video.scaling_mode is None && p.data.video.brightness is None && p.data.video.display_mode is None && p.data.video.boost_contrast is None && p.data.video.vsync is None && p.data.video.gsync is None && p.data.video.max_fps is None && p.data.video.anti_aliasing is None && p.data.video.shadow_quality is None && p.data.video.dynamic_shadows is None && p.data.video.texture_detail is None && p.data.video.filtering_mode is None && p.data.video.shader_detail is None && p.data.video.particle_detail is None && p.data.video.ambient_occlusion is None && p.data.video.hdr is None && p.data.video.fsr is None) ==> output_lines(Output::Video, p) == labelled_line("reflex"@, p.data.video.reflex_low_latency),
        (p.data.video.resolution is None && p.data.video.aspect_ratio is None && p.data.video.scaling_mode is None && p.data.video.brightness is None && p.data.video.display_mode is None && p.data.video.boost_contrast is None && p.data.video.vsync is None && p.data.video.reflex_low_latency is None && p.data.video.max_fps is None && p.data.video.anti_aliasing is None && p.data.video.shadow_quality is None && p.data.video.dynamic_shadows is None && p.data.video.texture_detail is None && p.data.video.filtering_mode is None && p.data.video.shader_detail is None && p.data.video.particle_detail is None && p.data.video.ambient_occlusion is None && p.data.video.hdr is None && p.data.video.fsr is None) ==> output_lines(Output::Video, p) == labelled_line("gsync"@, p.data.video.gsync),
        (p.data.video.resolution is None && p.data.video.aspect_ratio is None && p.data.video.scaling_mode is None && p.data.video.brightness is None && p.data.video.display_mode is None && p.data.video.boost_contrast is None && p.data.video.vsync is None && p.data.video.reflex_low_latency is None && p.data.video.gsync is None && p.data.video.anti_aliasing is None && p.data.video.shadow_quality is None && p.data.video.dynamic_shadows is None && p.data.video.texture_detail is None && p.data.video.filtering_mode is None && p.data.video.shader_detail is None && p.data.video.particle_detail is None && p.data.video.ambient_occlusion is None && p.data.video.hdr is None && p.data.video.fsr is None) ==> output_lines(Output::Video, p) == labelled_line("max_fps"@, p.data.video.max_fps),
        (p.data.video.resolution is None && p.data.video.aspect_ratio is None && p.data.video.scaling_mode is None && p.data.video.brightness is None && p.data.video.display_mode is None && p.data.video.boost_contrast is None && p.data.video.vsync is None && p.data.video.reflex_low_latency is None && p.data.video.gsync is None && p.data.video.max_fps is None && p.data.video.shadow_quality is None && p.data.video.dynamic_shadows is None && p.data.video.texture_detail is None && p.data.video.filtering_mode is None && p.data.video.shader_detail is None && p.data.video.particle_detail is None && p.data.video.ambient_occlusion is None && p.data.video.hdr is None && p.data.video.fsr is None) ==> output_lines(Output::Video, p) == labelled_line("anti_aliasing"@, p.data.video.anti_aliasing),
        (p.data.video.resolution is None && p.data.video.aspect_ratio is None && p.data.video.scaling_mode is None && p.data.video.brightness is None && p.data.video.display_mode is None && p.data.video.boost_contrast is None && p.data.video.vsync is None && p.data.video.reflex_low_latency is None && p.data.video.gsync is None && p.data.video.max_fps is None && p.data.video.anti_aliasing is None && p.data.video.dynamic_shadows is None && p.data.video.texture_detail is None && p.data.video.filtering_mode is None && p.data.video.shader_detail is None && p.data.video.particle_detail is None && p.data.video.ambient_occlusion is None && p.data.video.hdr is None && p.data.video.fsr is None) ==> output_lines(Output::Video, p) == labelled_line("shadow_quality"@, p.data.video.shadow_quality),
        (p.data.video.resolution is None && p.data.video.aspect_ratio is None && p.data.video.scaling_mode is None && p.data.video.brightness is None && p.data.video.display_mode is None && p.data.video.boost_contrast is None && p.data.video.vsync is None && p.data.video.reflex_low_latency is None && p.data.video.gsync is None && p.data.video.max_fps is None && p.data.video.anti_aliasing is None && p.data.video.shadow_quality is None && p.data.video.texture_detail is None && p.data.video.filtering_mode is None && p.data.video.shader_detail is None && p.data.video.particle_detail is None && p.data.video.ambient_occlusion is None && p.data.video.hdr is None && p.data.video.fsr is None) ==> output_lines(Output::Video, p) == labelled_line("dynamic_shadows"@, p.data.video.dynamic_shadows),
        (p.data.video.resolution is None && p.data.video.aspect_ratio is None && p.data.video.scaling_mode is None && p.data.video.brightness is None && p.data.video.display_mode is None && p.data.video.boost_contrast is None && p.data.video.vsync is None && p.data.video.reflex_low_latency is None && p.data.video.gsync is None && p.data.video.max_fps is None && p.data.video.anti_aliasing is None && p.data.video.shadow_quality is None && p.data.video.dynamic_shadows is None && p.data.video.filtering_mode is None && p.data.video.shader_detail is None && p.data.video.particle_detail is None && p.data.video.ambient_occlusion is None && p.data.video.hdr is None && p.data.video.fsr is None) ==> output_lines(Output::Video, p) == labelled_line("texture_detail"@, p.data.video.texture_detail),
        (p.data.video.resolution is None && p.data.video.aspect_ratio is None && p.data.video.scaling_mode is None && p.data.video.brightness is None && p.data.video.display_mode is None && p.data.video.boost_contrast is None && p.data.video.vsync is None && p.data.video.reflex_low_latency is None && p.data.video.gsync is None && p.data.video.max_fps is None && p.data.video.anti_aliasing is None && p.data.video.shadow_quality is None && p.data.video.dynamic_shadows is None && p.data.video.texture_detail is None && p.data.video.shader_detail is None && p.data.video.particle_detail is None && p.data.video.ambient_occlusion is None && p.data.video.hdr is None && p.data.video.fsr is None) ==> output_lines(Output::Video, p) == labelled_line("filtering_mode"@, p.data.video.filtering_mode),
        (p.data.video.resolution is None && p.data.video.aspect_ratio is None && p.data.video.scaling_mode is None && p.data.video.brightness is None && p.data.video.display_mode is None && p.data.video.boost_contrast is None && p.data.video.vsync is None && p.data.video.reflex_low_latency is None && p.data.video.gsync is None && p.data.video.max_fps is None && p.data.video.anti_aliasing is None && p.data.video.shadow_quality is None && p.data.video.dynamic_shadows is None && p.data.video.texture_detail is None && p.data.video.filtering_mode is None && p.data.video.particle_detail is None && p.data.video.ambient_occlusion is None && p.data.video.hdr is None && p.data.video.fsr is None) ==> output_lines(Output::Video, p) == labelled_line("shader_detail"@, p.data.video.shader_detail),
        (p.data.video.resolution is None && p.data.video.aspect_ratio is None && p.data.video.scaling_mode is None && p.data.video.brightness is None && p.data.video.display_mode is None && p.data.video.boost_contrast is None && p.data.video.vsync is None && p.data.video.reflex_low_latency is None && p.data.video.gsync is None && p.data.video.max_fps is None && p.data.video.anti_aliasing is None && p.data.video.shadow_quality is None && p.data.video.dynamic_shadows is None && p.data.video.texture_detail is None && p.data.video.filtering_mode is None && p.data.video.shader_detail is None && p.data.video.ambient_occlusion is None && p.data.video.hdr is None && p.data.video.fsr is None) ==> output_lines(Output::Video, p) == labelled_line("particle_detail"@, p.data.video.particle_detail),
        (p.data.video.resolution is None && p.data.video.aspect_ratio is None && p.data.video.scaling_mode is None && p.data.video.brightness is None && p.data.video.display_mode is None && p.data.video.boost_contrast is None && p.data.video.vsync is None && p.data.video.reflex_low_latency is None && p.data.video.gsync is None && p.data.video.max_fps is None && p.data.video.anti_aliasing is None && p.data.video.shadow_quality is None && p.data.video.dynamic_shadows is None && p.data.video.texture_detail is None && p.data.video.filtering_mode is None && p.data.video.shader_detail is None && p.data.video.particle_detail is None && p.data.video.hdr is None && p.data.video.fsr is None) ==> output_lines(Output::Video, p) == labelled_line("ambient_occlusion"@, p.data.video.ambient_occlusion),
        (p.data.video.resolution is None && p.data.video.aspect_ratio is None && p.data.video.scaling_mode is None && p.data.video.brightness is None && p.data.video.display_mode is None && p.data.video.boost_contrast is None && p.data.video.vsync is None && p.data.video.reflex_low_latency is None && p.data.video.gsync is None && p.data.video.max_fps is None && p.data.video.anti_aliasing is None && p.data.video.shadow_quality is None && p.data.video.dynamic_shadows is None && p.data.video.texture_detail is None && p.data.video.filtering_mode is None && p.data.video.shader_detail is None && p.data.video.particle_detail is None && p.data.video.ambient_occlusion is None && p.data.video.fsr is None) ==> output_lines(Output::Video, p) == labelled_line("hdr"@, p.data.video.hdr),
        (p.data.video.resolution is None && p.data.video.aspect_ratio is None && p.data.video.scaling_mode is None && p.data.video.brightness is None && p.data.video.display_mode is None && p.data.video.boost_contrast is None && p.data.video.vsync is None && p.data.video.reflex_low_latency is None && p.data.video.gsync is None && p.data.video.max_fps is None && p.data.video.anti_aliasing is None && p.data.video.shadow_quality is None && p.data.video.dynamic_shadows is None && p.data.video.texture_detail is None && p.data.video.filtering_mode is None && p.data.video.shader_detail is None && p.data.video.particle_detail is None && p.data.video.ambient_occlusion is None && p.data.video.hdr is None) ==> output_lines(Output::Video, p) == labelled_line("fsr"@, p.data.video.fsr),
{
}

/// Each setting of the radar group prints under its own label: when it is the only
/// one set, the radar query prints exactly `label: value` for it.
pub proof fn lemma_radar_output_labels(p: PlayerData)
    ensures
        (p.data.radar.rotate is None && p.data.radar.square_with_scoreboard is None && p.data.radar.hud_scale is None && p.data.radar.scale is None) ==> output_lines(Output::Radar, p) == labelled_line("always_centered"@, p.data.radar.always_centered),
        (p.data.radar.always_centered is None && p.data.radar.square_with_scoreboard is None && p.data.radar.hud_scale is None && p.data.radar.scale is None) ==> output_lines(Output::Radar, p) == labelled_line("rotate"@, p.data.radar.rotate),
        (p.data.radar.always_centered is None && p.data.radar.rotate is None && p.data.radar.hud_scale is None && p.data.radar.scale is None) ==> output_lines(Output::Radar, p) == labelled_line("square_with_scoreboard"@, p.data.radar.square_with_scoreboard),
        (p.data.radar.always_centered is None && p.data.radar.rotate is None && p.data.radar.square_with_scoreboard is None && p.data.radar.scale is None) ==> output_lines(Output::Radar, p) == labelled_line("hud_scale"@, p.data.radar.hud_scale),
        (p.data.radar.always_centered is None && p.data.radar.rotate is None && p.data.radar.square_with_scoreboard is None && p.data.radar.hud_scale is None) ==> output_lines(Output::Radar, p) == labelled_line("scale"@, p.data.radar.scale),
{
}

/// Each setting of the hud group prints under its own label: when it is the only
/// one set, the hud query prints exactly `label: value` for it.
pub proof fn lemma_hud_output_labels(p: PlayerData)
    ensures
        (p.data.hud.color is None) ==> output_lines(Output::Hud, p) == labelled_line("scaling"@, p.data.hud.scaling),
        (p.data.hud.scaling is None) ==> output_lines(Output::Hud, p) == labelled_line("color"@, p.data.hud.color),
{
}

/// Adding a labelled line after a prefix is adding it to what follows the prefix.
proof fn lemma_with_field_append(a: Seq<Seq<char>>, b: Seq<Seq<char>>, label: Seq<char>, value: Option<String>)
    ensures
        with_field(a + b, label, value) == a + with_field(b, label, value),
{
    match value {
        Some(v) => assert((a + b).push(label + ": "@ + v@) =~= a + b.push(label + ": "@ + v@)),
        None => {},
    }
}

/// Adding a bare line after a prefix is adding it to what follows the prefix.
proof fn lemma_with_value_append(a: Seq<Seq<char>>, b: Seq<Seq<char>>, value: Option<String>)
    ensures
        with_value(a + b, value) == a + with_value(b, value),
{
    match value {
        Some(v) => assert((a + b).push(v@) =~= a + b.push(v@)),
        None => {},
    }
}

/// The mouse lines after a prefix are the prefix followed by the mouse lines alone.
proof fn lemma_mouse_lines_append(acc: Seq<Seq<char>>, s: MouseSettings)
    ensures
        mouse_lines(acc, s) == acc + mouse_lines(Seq::<Seq<char>>::empty(), s),
{
    let e = Seq::<Seq<char>>::empty();
    assert(acc + e =~= acc);
    lemma_with_field_append(acc, e, "dpi"@, s.dpi);
    let b0 = with_field(e, "dpi"@, s.dpi);
    lemma_with_field_append(acc, b0, "sensitivity"@, s.sensitivity);
    let b1 = with_field(b0, "sensitivity"@, s.sensitivity);
    lemma_with_field_append(acc, b1, "edpi"@, s.edpi);
    let b2 = with_field(b1, "edpi"@, s.edpi);
    lemma_with_field_append(acc, b2, "zoom_sensitivity"@, s.zoom_sensitivity_ratio_mouse);
    let b3 = with_field(b2, "zoom_sensitivity"@, s.zoom_sensitivity_ratio_mouse);
    lemma_with_field_append(acc, b3, "hz"@, s.hz);
    let b4 = with_field(b3, "hz"@, s.hz);
    lemma_with_field_append(acc, b4, "windows_sensitivity"@, s.windows_sensitivity);
    let b5 = with_field(b4, "windows_sensitivity"@, s.windows_sensitivity);
}

/// The viewmodel lines after a prefix are the prefix followed by the viewmodel lines alone.
proof fn lemma_viewmodel_lines_append(acc: Seq<Seq<char>>, s: ViewmodelSettings)
    ensures
        viewmodel_lines(acc, s) == acc + viewmodel_lines(Seq::<Seq<char>>::empty(), s),
{
    let e = Seq::<Seq<char>>::empty();
    assert(acc + e =~= acc);
    lemma_with_field_append(acc, e, "fov"@, s.fov);
    let b0 = with_field(e, "fov"@, s.fov);
    lemma_with_field_append(acc, b0, "offset_x"@, s.offset_x);
    let b1 = with_field(b0, "offset_x"@, s.offset_x);
    lemma_with_field_append(acc, b1, "offset_y"@, s.offset_y);
    let b2 = with_field(b1, "offset_y"@, s.offset_y);
    lemma_with_field_append(acc, b2, "offset_z"@, s.offset_z);
    let b3 = with_field(b2, "offset_z"@, s.offset_z);
    lemma_with_field_append(acc, b3, "presetpos"@, s.presetpos);
    let b4 = with_field(b3, "presetpos"@, s.presetpos);
    lemma_with_field_append(acc, b4, "use_new_bob"@, s.use_new_bob);
    let b5 = with_field(b4, "use_new_bob"@, s.use_new_bob);
}

/// The video lines after a prefix are the prefix followed by the video lines alone.
proof fn lemma_video_lines_append(acc: Seq<Seq<char>>, s: VideoSettings)
    ensures
        video_lines(acc, s) == acc + video_lines(Seq::<Seq<char>>::empty(), s),
{
    let e = Seq::<Seq<char>>::empty();
    assert(acc + e =~= acc);
    lemma_with_field_append(acc, e, "resolution"@, s.resolution);
    let b0 = with_field(e, "resolution"@, s.resolution);
    lemma_with_field_append(acc, b0, "aspect_ratio"@, s.aspect_ratio);
    let b1 = with_field(b0, "aspect_ratio"@, s.aspect_ratio);
    lemma_with_field_append(acc, b1, "scaling_mode"@, s.scaling_mode);
    let b2 = with_field(b1, "scaling_mode"@, s.scaling_mode);
    lemma_with_field_append(acc, b2, "brightness"@, s.brightness);
    let b3 = with_field(b2, "brightness"@, s.brightness);
    lemma_with_field_append(acc, b3, "display_mode"@, s.display_mode);
    let b4 = with_field(b3, "display_mode"@, s.display_mode);
    lemma_with_field_append(acc, b4, "boost_contrast"@, s.boost_contrast);
    let b5 = with_field(b4, "boost_contrast"@, s.boost_contrast);
    lemma_with_field_append(acc, b5, "vsync"@, s.vsync);
    let b6 = with_field(b5, "vsync"@, s.vsync);
    lemma_with_field_append(acc, b6, "reflex"@, s.reflex_low_latency);
    let b7 = with_field(b6, "reflex"@, s.reflex_low_latency);
    lemma_with_field_append(acc, b7, "gsync"@, s.gsync);
    let b8 = with_field(b7, "gsync"@, s.gsync);
    lemma_with_field_append(acc, b8, "max_fps"@, s.max_fps);
    let b9 = with_field(b8, "max_fps"@, s.max_fps);
    lemma_with_field_append(acc, b9, "anti_aliasing"@, s.anti_aliasing);
    let b10 = with_field(b9, "anti_aliasing"@, s.anti_aliasing);
    lemma_with_field_append(acc, b10, "shadow_quality"@, s.shadow_quality);
    let b11 = with_field(b10, "shadow_quality"@, s.shadow_quality);
    lemma_with_field_append(acc, b11, "dynamic_shadows"@, s.dynamic_shadows);
    let b12 = with_field(b11, "dynamic_shadows"@, s.dynamic_shadows);
    lemma_with_field_append(acc, b12, "texture_detail"@, s.texture_detail);
    let b13 = with_field(b12, "texture_detail"@, s.texture_detail);
    lemma_with_field_append(acc, b13, "filtering_mode"@, s.filtering_mode);
    let b14 = with_field(b13, "filtering_mode"@, s.filtering_mode);
    lemma_with_field_append(acc, b14, "shader_detail"@, s.shader_detail);
    let b15 = with_field(b14, "shader_detail"@, s.shader_detail);
    lemma_with_field_append(acc, b15, "particle_detail"@, s.particle_detail);
    let b16 = with_field(b15, "particle_detail"@, s.particle_detail);
    lemma_with_field_append(acc, b16, "ambient_occlusion"@, s.ambient_occlusion);
    let b17 = with_field(b16, "ambient_occlusion"@, s.ambient_occlusion);
    lemma_with_field_append(acc, b17, "hdr"@, s.hdr);
    let b18 = with_field(b17, "hdr"@, s.hdr);
    lemma_with_field_append(acc, b18, "fsr"@, s.fsr);
    let b19 = with_field(b18, "fsr"@, s.fsr);
}

/// The radar lines after a prefix are the prefix followed by the radar lines alone.
proof fn lemma_radar_lines_append(acc: Seq<Seq<char>>, s: RadarSettings)
    ensures
        radar_lines(acc, s) == acc + radar_lines(Seq::<Seq<char>>::empty(), s),
{
    let e = Seq::<Seq<char>>::empty();
    assert(acc + e =~= acc);
    lemma_with_field_append(acc, e, "always_centered"@, s.always_centered);
    let b0 = with_field(e, "always_centered"@, s.always_centered);
    lemma_with_field_append(acc, b0, "rotate"@, s.rotate);
    let b1 = with_field(b0, "rotate"@, s.rotate);
    lemma_with_field_append(acc, b1, "square_with_scoreboard"@, s.square_with_scoreboard);
    let b2 = with_field(b1, "square_with_scoreboard"@, s.square_with_scoreboard);
    lemma_with_field_append(acc, b2, "hud_scale"@, s.hud_scale);
    let b3 = with_field(b2, "hud_scale"@, s.hud_scale);
    lemma_with_field_append(acc, b3, "scale"@, s.scale);
    let b4 = with_field(b3, "scale"@, s.scale);
}

/// The hud lines after a prefix are the prefix followed by the hud lines alone.
proof fn lemma_hud_lines_append(acc: Seq<Seq<char>>, s: HudSettings)
    ensures
        hud_lines(acc, s) == acc + hud_lines(Seq::<Seq<char>>::empty(), s),
{
    let e = Seq::<Seq<char>>::empty();
    assert(acc + e =~= acc);
    lemma_with_field_append(acc, e, "scaling"@, s.scaling);
    let b0 = with_field(e, "scaling"@, s.scaling);
    lemma_with_field_append(acc, b0, "color"@, s.color);
    let b1 = with_field(b0, "color"@, s.color);
}

/// The crosshair lines after a prefix are the prefix followed by the crosshair lines alone.
proof fn lemma_crosshair_lines_append(acc: Seq<Seq<char>>, s: CrosshairSettings)
    ensures
        crosshair_lines(acc, s) == acc + crosshair_lines(Seq::<Seq<char>>::empty(), s),
{
    let e = Seq::<Seq<char>>::empty();
    assert(acc + e =~= acc);
    lemma_with_field_append(acc, e, "crosshair_command"@, s.command);
    let b0 = with_field(e, "crosshair_command"@, s.command);
    lemma_with_field_append(acc, b0, "crosshair_style"@, s.style);
    let b1 = with_field(b0, "crosshair_style"@, s.style);
    lemma_with_field_append(acc, b1, "crosshair_size"@, s.size);
    let b2 = with_field(b1, "crosshair_size"@, s.size);
    lemma_with_field_append(acc, b2, "crosshair_gap"@, s.gap);
    let b3 = with_field(b2, "crosshair_gap"@, s.gap);
    lemma_with_field_append(acc, b3, "crosshair_thickness"@, s.thickness);
    let b4 = with_field(b3, "crosshair_thickness"@, s.thickness);
    lemma_with_field_append(acc, b4, "crosshair_dot"@, s.dot);
    let b5 = with_field(b4, "crosshair_dot"@, s.dot);
    lemma_with_field_append(acc, b5, "crosshair_color"@, s.color);
    let b6 = with_field(b5, "crosshair_color"@, s.color);
    lemma_with_field_append(acc, b6, "crosshair_alpha"@, s.alpha);
    let b7 = with_field(b6, "crosshair_alpha"@, s.alpha);
    lemma_with_field_append(acc, b7, "crosshair_outline"@, s.draw_outline);
    let b8 = with_field(b7, "crosshair_outline"@, s.draw_outline);
}

/// Each crosshair setting of the full report prints under its own label: when it is
/// the only one set, the crosshair part of the report is exactly `label: value`.
pub proof fn lemma_report_crosshair_labels(c: CrosshairSettings)
    ensures
        (c.style is None && c.size is None && c.gap is None && c.thickness is None && c.dot is None && c.color is None && c.alpha is None && c.draw_outline is None) ==> crosshair_lines(Seq::<Seq<char>>::empty(), c) == labelled_line("crosshair_command"@, c.command),
        (c.command is None && c.size is None && c.gap is None && c.thickness is None && c.dot is None && c.color is None && c.alpha is None && c.draw_outline is None) ==> crosshair_lines(Seq::<Seq<char>>::empty(), c) == labelled_line("crosshair_style"@, c.style),
        (c.command is None && c.style is None && c.gap is None && c.thickness is None && c.dot is None && c.color is None && c.alpha is None && c.draw_outline is None) ==> crosshair_lines(Seq::<Seq<char>>::empty(), c) == labelled_line("crosshair_size"@, c.size),
        (c.command is None && c.style is None && c.size is None && c.thickness is None && c.dot is None && c.color is None && c.alpha is None && c.draw_outline is None) ==> crosshair_lines(Seq::<Seq<char>>::empty(), c) == labelled_line("crosshair_gap"@, c.gap),
        (c.command is None && c.style is None && c.size is None && c.gap is None && c.dot is None && c.color is None && c.alpha is None && c.draw_outline is None) ==> crosshair_lines(Seq::<Seq<char>>::empty(), c) == labelled_line("crosshair_thickness"@, c.thickness),
        (c.command is None && c.style is None && c.size is None && c.gap is None && c.thickness is None && c.color is None && c.alpha is None && c.draw_outline is None) ==> crosshair_lines(Seq::<Seq<char>>::empty(), c) == labelled_line("crosshair_dot"@, c.dot),
        (c.command is None && c.style is None && c.size is None && c.gap is None && c.thickness is None && c.dot is None && c.alpha is None && c.draw_outline is None) ==> crosshair_lines(Seq::<Seq<char>>::empty(), c) == labelled_line("crosshair_color"@, c.color),
        (c.command is None && c.style is None && c.size is None && c.gap is None && c.thickness is None && c.dot is None && c.color is None && c.draw_outline is None) ==> crosshair_lines(Seq::<Seq<char>>::empty(), c) == labelled_line("crosshair_alpha"@, c.alpha),
        (c.command is None && c.style is None && c.size is None && c.gap is None && c.thickness is None && c.dot is None && c.color is None && c.alpha is None) ==> crosshair_lines(Seq::<Seq<char>>::empty(), c) == labelled_line("crosshair_outline"@, c.draw_outline),
{
}

/// The full report is the mouse query, the crosshair code with the crosshair part of
/// the report, and the viewmodel, video, radar, HUD and launch-options queries, in
/// that order, with a blank line after each group but the last.
#[verifier::spinoff_prover]
#[verifier::rlimit(60)]
pub proof fn lemma_report_is_the_groups(p: PlayerData)
    ensures
        ({
            let blank = seq![Seq::<char>::empty()];
            output_lines(Output::All, p) == output_lines(Output::Mouse, p) + blank
                + output_lines(Output::Crosshair, p) + crosshair_lines(Seq::<Seq<char>>::empty(), p.data.crosshair) + blank
                + output_lines(Output::Viewmodel, p) + blank
                + output_lines(Output::Video, p) + blank
                + output_lines(Output::Radar, p) + blank
                + output_lines(Output::Hud, p) + blank
                + output_lines(Output::Launch, p)
        }),
{
    let e = Seq::<Seq<char>>::empty();
    let blank = seq![Seq::<char>::empty()];
    let d = p.data;
    let m = output_lines(Output::Mouse, p);
    let c = output_lines(Output::Crosshair, p);
    let x = crosshair_lines(e, d.crosshair);
    let v = output_lines(Output::Viewmodel, p);
    let vd = output_lines(Output::Video, p);
    let r = output_lines(Output::Radar, p);
    let h = output_lines(Output::Hud, p);
    let l = output_lines(Output::Launch, p);
    let a1 = m.push(Seq::<char>::empty());
    assert(a1 =~= m + blank);
    lemma_with_value_append(a1, e, d.crosshair.import_code);
    assert(a1 + e =~= a1);
    let a2 = with_value(a1, d.crosshair.import_code);
    assert(a2 == m + blank + c);
    lemma_crosshair_lines_append(a2, d.crosshair);
    let a3 = crosshair_lines(a2, d.crosshair).push(Seq::<char>::empty());
    assert(a3 =~= crosshair_lines(a2, d.crosshair) + blank);
    assert(a3 == m + blank + c + x + blank);
    lemma_viewmodel_lines_append(a3, d.viewmodel);
    let a4 = viewmodel_lines(a3, d.viewmodel).push(Seq::<char>::empty());
    assert(a4 =~= viewmodel_lines(a3, d.viewmodel) + blank);
    assert(a4 == a3 + v + blank);
    lemma_video_lines_append(a4, d.video);
    let a5 = video_lines(a4, d.video).push(Seq::<char>::empty());
    assert(a5 =~= video_lines(a4, d.video) + blank);
    assert(a5 == a4 + vd + blank);
    lemma_radar_lines_append(a5, d.radar);
    let a6 = radar_lines(a5, d.radar).push(Seq::<char>::empty());
    assert(a6 =~= radar_lines(a5, d.radar) + blank);
    assert(a6 == a5 + r + blank);
    lemma_hud_lines_append(a6, d.hud);
    let a7 = hud_lines(a6, d.hud).push(Seq::<char>::empty());
    assert(a7 =~= hud_lines(a6, d.hud) + blank);
    assert(a7 == a6 + h + blank);
    lemma_with_value_append(a7, e, d.launch_options);
    assert(a7 + e =~= a7);
    assert(output_lines(Output::All, p) == a7 + l);
}



/// Without an output flag the browser opens with the first player name typed in, or
/// with nothing typed when no name is given; an output flag without a player name is
/// refused with the usage hint.
pub proof fn lemma_browser_or_missing_player(prog: Seq<char>, name: Seq<char>, f: Seq<char>)
    requires
        name.len() > 0,
        name[0] != '-',
        flag_output(f) is Some,
        !is_help_flag(f),
    ensures
        action_of(seq![prog]) == Ok::<ActionView, Seq<char>>(ActionView::Tui { pre_search: None }),
        action_of(seq![prog, name]) == Ok::<ActionView, Seq<char>>(
            ActionView::Tui { pre_search: Some(name) },
        ),
        action_of(seq![prog, f]) == Err::<ActionView, Seq<char>>(
            "Player name required. Usage: csprotui <player> --flag"@,
        ),
{
    lemma_name_is_no_flag(name);
    let e = Seq::<Seq<char>>::empty();
    assert(seq![prog].subrange(1, 1) =~= e);
    assert(seq![prog, name].subrange(1, 2) =~= seq![name]);
    assert(seq![prog, f].subrange(1, 2) =~= seq![f]);
    assert(seq![name].drop_last() =~= e);
    assert(seq![f].drop_last() =~= e);
    assert(scan_args(e).positional.len() == 0);
    assert(scan_args(seq![name]).positional =~= seq![name]);
    assert(scan_args(seq![f]).positional.len() == 0);
    assert(scan_args(seq![f]).flags.len() == 1);
}


/// The gear lines are one line per item, in order.
proof fn lemma_gear_lines(items: Seq<GearItem>)
    ensures
        gear_lines(Seq::<Seq<char>>::empty(), items).len() == items.len(),
        forall|i: int| 0 <= i < items.len() ==> #[trigger] gear_lines(Seq::<Seq<char>>::empty(), items)[i]
            == lowercase(items[i].category@) + ": "@ + items[i].name@,
    decreases items.len(),
{
    if items.len() > 0 {
        lemma_gear_lines(items.drop_last());
        let before = gear_lines(Seq::<Seq<char>>::empty(), items.drop_last());
        assert forall|i: int| 0 <= i < items.len() implies #[trigger] gear_lines(
            Seq::<Seq<char>>::empty(),
            items,
        )[i] == lowercase(items[i].category@) + ": "@ + items[i].name@ by {
            if i < items.len() - 1 {
                assert(items.drop_last()[i] == items[i]);
                assert(before[i] == lowercase(items.drop_last()[i].category@) + ": "@ + items.drop_last()[i].name@);
            }
        }
    }
}


/// The gear query prints one line per item, in order: the item's category in lowercase,
/// a colon, a space, and its name.
pub proof fn lemma_gear_output(p: PlayerData)
    ensures
        output_lines(Output::Gear, p).len() == p.data.gear.len(),
        forall|i: int| 0 <= i < p.data.gear.len() ==> #[trigger] output_lines(Output::Gear, p)[i]
            == lowercase(p.data.gear@[i].category@) + ": "@ + p.data.gear@[i].name@,
{
    lemma_gear_lines(p.data.gear@);
}

} // verus!
