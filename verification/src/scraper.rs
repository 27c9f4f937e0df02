//! Turning scraped text into player settings: slugs, the TotalCSGO crosshair page,
//! its console command, and the failure report of the page scraper.
use crate::models::{opt_view, CrosshairSettings, CrosshairView, PlayerData};
use crate::text::{
    ascii_lower, is_ascii, lemma_words_append_word, lemma_words_single, no_ws, is_ascii_upper, is_ws, lemma_trim_fixed, lemma_trim_piece,
    char_vecs_view, chars_eq, decimal, decimal_i32, str_eq, chars_of, has_prefix, lowercase, replace_spaces, spaces_to_hyphens,
    split, split_chars, split_words, starts_with, string_of, strings_view, to_lowercase, trim,
    trim_chars, trim_str, words,
};
use vstd::prelude::*;
use vstd::string::StringExecFns;

verus! {

// ---------------------------------------------------------------------------
// Player slugs
// ---------------------------------------------------------------------------

/// The slug a query names: the trimmed query, lowercased, with its spaces turned into
/// hyphens; none for a query that is blank.
pub open spec fn slug_of(query: Seq<char>) -> Option<Seq<char>> {
    let t = trim(query);
    if t.len() == 0 {
        None
    } else {
        Some(spaces_to_hyphens(lowercase(t)))
    }
}

/// The slug of an ASCII query, where lowercasing maps `A`-`Z` to `a`-`z` alone.
pub open spec fn ascii_slug_of(query: Seq<char>) -> Option<Seq<char>> {
    let t = trim(query);
    if t.len() == 0 {
        None
    } else {
        Some(spaces_to_hyphens(ascii_lower(t)))
    }
}

/// The slug of a player query, or `None` when the query is blank.
pub fn player_slug(query: &str) -> (r: Option<String>)
    ensures
        opt_view(r) == slug_of(query@),
        is_ascii(query@) ==> opt_view(r) == ascii_slug_of(query@),
{
    let chars = chars_of(query);
    let trimmed = trim_chars(chars.as_slice());
    if trimmed.len() == 0 {
        return None;
    }
    let trimmed_str = string_of(trimmed.as_slice());
    proof {
        let range = lemma_trim_piece(query@);
        if is_ascii(query@) {
            assert forall|i: int| 0 <= i < trimmed_str@.len() implies (trimmed_str@[i] as u32)
                < 128 by {
                assert(trimmed_str@[i] == query@[range.0 + i]);
            }
        }
    }
    let lower = to_lowercase(trimmed_str.as_str());
    let lower_chars = chars_of(lower.as_str());
    let slug = replace_spaces(lower_chars.as_slice());
    Some(string_of(slug.as_slice()))
}

/// A slug is never blank and never holds a space.
pub proof fn lemma_slug_has_no_space(query: Seq<char>)
    ensures
        slug_of(query) is Some <==> trim(query).len() > 0,
        slug_of(query) matches Some(s) ==> forall|i: int| 0 <= i < s.len() ==> s[i] != ' ',
{
}

/// On an ASCII query the slug is settled: it is ASCII, holds no uppercase letter and
/// no space, neither starts nor ends with whitespace, is as long as the trimmed query,
/// and is its own slug.
pub proof fn lemma_ascii_slug_is_settled(query: Seq<char>)
    requires
        is_ascii(query),
    ensures
        ascii_slug_of(query) matches Some(s) ==> {
            &&& is_ascii(s)
            &&& s.len() == trim(query).len()
            &&& trim(s) == s
            &&& forall|i: int| 0 <= i < s.len() ==> !is_ascii_upper(#[trigger] s[i]) && s[i] != ' '
            &&& ascii_slug_of(s) == Some(s)
        },
{
    let t = trim(query);
    let range = lemma_trim_piece(query);
    if t.len() > 0 {
        let s = spaces_to_hyphens(ascii_lower(t));
        assert forall|i: int| 0 <= i < t.len() implies (t[i] as u32) < 128 by {
            assert(t[i] == query[range.0 + i]);
        }
        assert forall|i: int| 0 <= i < s.len() implies (s[i] as u32) < 128 && !is_ascii_upper(
            #[trigger] s[i],
        ) && s[i] != ' ' && (is_ws(s[i]) ==> is_ws(t[i])) by {
            let c = t[i];
            if is_ascii_upper(c) {
                assert((((c as u32) + 32) as char) as u32 == (c as u32) + 32);
            }
        }
        lemma_trim_fixed(s);
        assert(ascii_lower(s) =~= s);
        assert(spaces_to_hyphens(s) =~= s);
    }
}

// ---------------------------------------------------------------------------
// The TotalCSGO crosshair page
// ---------------------------------------------------------------------------

/// A crosshair as TotalCSGO publishes it: the share code and the console command.
#[derive(Debug, Clone, Eq, PartialEq)]
pub struct TotalCsgoCrosshair {
    pub code: String,
    pub command: String,
}

/// For each element of the HTML document `html` that the CSS selector `selector`
/// matches, in document order, the text nodes below it, in document order; none when
/// the selector does not parse.
pub uninterp spec fn selected_text_nodes(html: Seq<char>, selector: Seq<char>) -> Option<
    Seq<Seq<char>>,
>;

/// Parses `html` with `scraper::Html::parse_document`, parses `selector` with
/// `scraper::Selector::parse`, and collects the text of `ElementRef::text` of each
/// element that `Html::select` yields. The result is named `selected_text_nodes` of the
/// two arguments; nothing more of it is stated.
#[verifier::external_body]
fn select_text_nodes(html: &str, selector: &str) -> (r: Option<Vec<String>>)
    ensures
        r is None ==> selected_text_nodes(html@, selector@) is None,
        r matches Some(v) ==> selected_text_nodes(html@, selector@) == Some(strings_view(v@)),
{
    let document = ::scraper::Html::parse_document(html);
    let selector = ::scraper::Selector::parse(selector).ok()?;
    let mut out = Vec::new();
    for element in document.select(&selector) {
        for piece in element.text() {
            out.push(piece.to_string());
        }
    }
    Some(out)
}

/// The trimmed text nodes that are not blank, in order.
pub open spec fn nonblank_lines(nodes: Seq<Seq<char>>) -> Seq<Seq<char>>
    decreases nodes.len(),
{
    if nodes.len() == 0 {
        Seq::<Seq<char>>::empty()
    } else {
        let rest = nonblank_lines(nodes.drop_last());
        let t = trim(nodes.last());
        if t.len() == 0 {
            rest
        } else {
            rest.push(t)
        }
    }
}

/// The first position `i >= from` where line `i` is `label` and line `i + 1` starts
/// with `prefix`.
pub open spec fn find_labelled(lines: Seq<Seq<char>>, label: Seq<char>, prefix: Seq<char>, from: int) -> Option<int>
    decreases lines.len() - from,
{
    if from < 0 || from + 1 >= lines.len() {
        None
    } else if lines[from] == label && has_prefix(lines[from + 1], prefix) {
        Some(from)
    } else {
        find_labelled(lines, label, prefix, from + 1)
    }
}

/// The code and command of the page's lines: the line after the first "Code" line that
/// is followed by a line starting with "CSGO-", and the line after the first "Command"
/// line that is followed by a line starting with "cl_"; none unless both are there.
pub open spec fn totalcsgo_of_lines(lines: Seq<Seq<char>>) -> Option<(Seq<char>, Seq<char>)> {
    match (
        find_labelled(lines, "Code"@, "CSGO-"@, 0),
        find_labelled(lines, "Command"@, "cl_"@, 0),
    ) {
        (Some(i), Some(j)) => Some((lines[i + 1], lines[j + 1])),
        _ => None,
    }
}

/// The view of an optional crosshair.
pub open spec fn totalcsgo_view(r: Option<TotalCsgoCrosshair>) -> Option<(Seq<char>, Seq<char>)> {
    match r {
        Some(t) => Some((t.code@, t.command@)),
        None => None,
    }
}

/// The crosshair of a TotalCSGO page: that of the non-blank trimmed text nodes of its
/// body.
pub open spec fn totalcsgo_of_html(html: Seq<char>) -> Option<(Seq<char>, Seq<char>)> {
    match selected_text_nodes(html, "body"@) {
        Some(nodes) => totalcsgo_of_lines(nonblank_lines(nodes)),
        None => None,
    }
}

/// A position that `find_labelled` gives is a labelled line with a line after it.
proof fn lemma_find_labelled(lines: Seq<Seq<char>>, label: Seq<char>, prefix: Seq<char>, from: int)
    ensures
        find_labelled(lines, label, prefix, from) matches Some(k) ==> from <= k && 0 <= k && k + 1
            < lines.len() && lines[k] == label && has_prefix(lines[k + 1], prefix),
    decreases lines.len() - from,
{
    if from < 0 || from + 1 >= lines.len() {
    } else if lines[from] == label && has_prefix(lines[from + 1], prefix) {
    } else {
        lemma_find_labelled(lines, label, prefix, from + 1);
    }
}

fn find_labelled_line(lines: &[String], label: &str, prefix: &str) -> (r: Option<usize>)
    ensures
        match r {
            Some(i) => find_labelled(strings_view(lines@), label@, prefix@, 0) == Some(i as int),
            None => find_labelled(strings_view(lines@), label@, prefix@, 0) is None,
        },
{
    let ghost ls = strings_view(lines@);
    let n = lines.len();
    let mut i: usize = 0;
    while n > 0 && i < n - 1
        invariant
            n == lines@.len(),
            ls == strings_view(lines@),
            find_labelled(ls, label@, prefix@, 0) == find_labelled(ls, label@, prefix@, i as int),
        decreases n - i,
    {
        let here = chars_of(lines[i].as_str());
        let next = chars_of(lines[i + 1].as_str());
        assert(ls[i as int] == lines@[i as int]@);
        assert(ls[i + 1] == lines@[i + 1]@);
        if chars_eq(here.as_slice(), label) && starts_with(next.as_slice(), prefix) {
            return Some(i);
        }
        i = i + 1;
    }
    None
}

/// The crosshair that the lines of a TotalCSGO page name, if both its code and its
/// command are there.
pub fn parse_totalcsgo_lines(lines: &[String]) -> (r: Option<TotalCsgoCrosshair>)
    ensures
        totalcsgo_view(r) == totalcsgo_of_lines(strings_view(lines@)),
{
    let ghost ls = strings_view(lines@);
    let n = lines.len();
    proof {
        lemma_find_labelled(ls, "Code"@, "CSGO-"@, 0);
        lemma_find_labelled(ls, "Command"@, "cl_"@, 0);
        assert(ls.len() == lines@.len());
    }
    let code_at = find_labelled_line(lines, "Code", "CSGO-");
    let code = match code_at {
        Some(i) => {
            assert(ls[i + 1] == lines@[i + 1]@);
            lines[i + 1].clone()
        },
        None => return None,
    };
    let command_at = find_labelled_line(lines, "Command", "cl_");
    let command = match command_at {
        Some(j) => {
            assert(ls[j + 1] == lines@[j + 1]@);
            lines[j + 1].clone()
        },
        None => return None,
    };
    Some(TotalCsgoCrosshair { code, command })
}

/// The trimmed, non-blank lines of `nodes`.
fn nonblank_trimmed(nodes: &[String]) -> (r: Vec<String>)
    ensures
        strings_view(r@) == nonblank_lines(strings_view(nodes@)),
{
    let mut r: Vec<String> = Vec::new();
    let mut i: usize = 0;
    while i < nodes.len()
        invariant
            i <= nodes@.len(),
            strings_view(r@) == nonblank_lines(strings_view(nodes@.take(i as int))),
        decreases nodes.len() - i,
    {
        let t = trim_str(nodes[i].as_str());
        let ghost pre = nodes@.take(i as int);
        assert(strings_view(nodes@.take(i + 1)).drop_last() =~= strings_view(pre));
        assert(strings_view(nodes@.take(i + 1)).last() == nodes@[i as int]@);
        if t.unicode_len() > 0 {
            r.push(t);
            assert(strings_view(r@) =~= strings_view(r@).drop_last().push(t@));
        }
        i = i + 1;
    }
    assert(nodes@.take(nodes.len() as int) =~= nodes@);
    r
}

/// The crosshair that a TotalCSGO crosshair page shows, if it shows one.
pub fn parse_totalcsgo_crosshair(html: &str) -> (r: Option<TotalCsgoCrosshair>)
    ensures
        totalcsgo_view(r) == totalcsgo_of_html(html@),
{
    let nodes = match select_text_nodes(html, "body") {
        Some(nodes) => nodes,
        None => return None,
    };
    let lines = nonblank_trimmed(nodes.as_slice());
    parse_totalcsgo_lines(lines.as_slice())
}

// ---------------------------------------------------------------------------
// Crosshair console commands
// ---------------------------------------------------------------------------

/// The crosshair settings after the console variable `key` is set to `value`; an
/// unknown variable leaves them as they are.
pub open spec fn with_command(c: CrosshairView, key: Seq<char>, value: Seq<char>) -> CrosshairView {
    let v = Some(value);
    if key == "cl_crosshairstyle"@ {
        CrosshairView { style: v, ..c }
    } else if key == "cl_crosshair_recoil"@ {
        CrosshairView { follow_recoil: v, ..c }
    } else if key == "cl_crosshairdot"@ {
        CrosshairView { dot: v, ..c }
    } else if key == "cl_crosshairsize"@ {
        CrosshairView { size: v, ..c }
    } else if key == "cl_crosshairthickness"@ {
        CrosshairView { thickness: v, ..c }
    } else if key == "cl_crosshairgap"@ {
        CrosshairView { gap: v, ..c }
    } else if key == "cl_crosshair_drawoutline"@ {
        CrosshairView { draw_outline: v, ..c }
    } else if key == "cl_crosshair_outlinethickness"@ {
        CrosshairView { outline_thickness: v, ..c }
    } else if key == "cl_crosshaircolor"@ {
        CrosshairView { color: v, ..c }
    } else if key == "cl_crosshaircolor_r"@ {
        CrosshairView { color_r: v, ..c }
    } else if key == "cl_crosshaircolor_g"@ {
        CrosshairView { color_g: v, ..c }
    } else if key == "cl_crosshaircolor_b"@ {
        CrosshairView { color_b: v, ..c }
    } else if key == "cl_crosshairusealpha"@ {
        CrosshairView { use_alpha: v, ..c }
    } else if key == "cl_crosshairalpha"@ {
        CrosshairView { alpha: v, ..c }
    } else if key == "cl_crosshair_t"@ {
        CrosshairView { t_style: v, ..c }
    } else if key == "cl_crosshairgap_useweaponvalue"@ {
        CrosshairView { deployed_weapon_gap: v, ..c }
    } else if key == "cl_crosshair_dynamic_splitdist"@ {
        CrosshairView { split_distance: v, ..c }
    } else if key == "cl_fixedcrosshairgap"@ {
        CrosshairView { fixed_gap: v, ..c }
    } else if key == "cl_crosshair_dynamic_splitalpha_innermod"@ {
        CrosshairView { inner_split_alpha: v, ..c }
    } else if key == "cl_crosshair_dynamic_splitalpha_outermod"@ {
        CrosshairView { outer_split_alpha: v, ..c }
    } else if key == "cl_crosshair_dynamic_maxdist_splitratio"@ {
        CrosshairView { split_size_ratio: v, ..c }
    } else if key == "cl_crosshair_sniper_width"@ {
        CrosshairView { sniper_width: v, ..c }
    } else {
        c
    }
}

/// Each console variable that the crosshair settings know sets exactly the field it
/// names, to the given value, and leaves every other field as it was; any other
/// variable changes nothing.
pub proof fn lemma_command_sets_named_field(c: CrosshairView, key: Seq<char>, value: Seq<char>)
    ensures
        with_command(c, "cl_crosshairstyle"@, value) == (CrosshairView { style: Some(value), ..c }),
        with_command(c, "cl_crosshair_recoil"@, value) == (CrosshairView { follow_recoil: Some(value), ..c }),
        with_command(c, "cl_crosshairdot"@, value) == (CrosshairView { dot: Some(value), ..c }),
        with_command(c, "cl_crosshairsize"@, value) == (CrosshairView { size: Some(value), ..c }),
        with_command(c, "cl_crosshairthickness"@, value) == (CrosshairView { thickness: Some(value), ..c }),
        with_command(c, "cl_crosshairgap"@, value) == (CrosshairView { gap: Some(value), ..c }),
        with_command(c, "cl_crosshair_drawoutline"@, value) == (CrosshairView { draw_outline: Some(value), ..c }),
        with_command(c, "cl_crosshair_outlinethickness"@, value) == (CrosshairView { outline_thickness: Some(value), ..c }),
        with_command(c, "cl_crosshaircolor"@, value) == (CrosshairView { color: Some(value), ..c }),
        with_command(c, "cl_crosshaircolor_r"@, value) == (CrosshairView { color_r: Some(value), ..c }),
        with_command(c, "cl_crosshaircolor_g"@, value) == (CrosshairView { color_g: Some(value), ..c }),
        with_command(c, "cl_crosshaircolor_b"@, value) == (CrosshairView { color_b: Some(value), ..c }),
        with_command(c, "cl_crosshairusealpha"@, value) == (CrosshairView { use_alpha: Some(value), ..c }),
        with_command(c, "cl_crosshairalpha"@, value) == (CrosshairView { alpha: Some(value), ..c }),
        with_command(c, "cl_crosshair_t"@, value) == (CrosshairView { t_style: Some(value), ..c }),
        with_command(c, "cl_crosshairgap_useweaponvalue"@, value) == (CrosshairView { deployed_weapon_gap: Some(value), ..c }),
        with_command(c, "cl_crosshair_dynamic_splitdist"@, value) == (CrosshairView { split_distance: Some(value), ..c }),
        with_command(c, "cl_fixedcrosshairgap"@, value) == (CrosshairView { fixed_gap: Some(value), ..c }),
        with_command(c, "cl_crosshair_dynamic_splitalpha_innermod"@, value) == (CrosshairView { inner_split_alpha: Some(value), ..c }),
        with_command(c, "cl_crosshair_dynamic_splitalpha_outermod"@, value) == (CrosshairView { outer_split_alpha: Some(value), ..c }),
        with_command(c, "cl_crosshair_dynamic_maxdist_splitratio"@, value) == (CrosshairView { split_size_ratio: Some(value), ..c }),
        with_command(c, "cl_crosshair_sniper_width"@, value) == (CrosshairView { sniper_width: Some(value), ..c }),
        ({
            let known = key == "cl_crosshairstyle"@ || key == "cl_crosshair_recoil"@ || key == "cl_crosshairdot"@ || key == "cl_crosshairsize"@ || key == "cl_crosshairthickness"@ || key == "cl_crosshairgap"@ || key == "cl_crosshair_drawoutline"@ || key == "cl_crosshair_outlinethickness"@ || key == "cl_crosshaircolor"@ || key == "cl_crosshaircolor_r"@ || key == "cl_crosshaircolor_g"@ || key == "cl_crosshaircolor_b"@ || key == "cl_crosshairusealpha"@ || key == "cl_crosshairalpha"@ || key == "cl_crosshair_t"@ || key == "cl_crosshairgap_useweaponvalue"@ || key == "cl_crosshair_dynamic_splitdist"@ || key == "cl_fixedcrosshairgap"@ || key == "cl_crosshair_dynamic_splitalpha_innermod"@ || key == "cl_crosshair_dynamic_splitalpha_outermod"@ || key == "cl_crosshair_dynamic_maxdist_splitratio"@ || key == "cl_crosshair_sniper_width"@;
            !known ==> with_command(c, key, value) == c
        }),
{
    assert(with_command(c, "cl_crosshairstyle"@, value) == (CrosshairView { style: Some(value), ..c })) by {
        reveal_strlit("cl_crosshairstyle");
    }
    assert(with_command(c, "cl_crosshair_recoil"@, value) == (CrosshairView { follow_recoil: Some(value), ..c })) by {
        reveal_strlit("cl_crosshair_recoil");
        reveal_strlit("cl_crosshairstyle");
        assert("cl_crosshair_recoil"@.len() != "cl_crosshairstyle"@.len());
    }
    assert(with_command(c, "cl_crosshairdot"@, value) == (CrosshairView { dot: Some(value), ..c })) by {
        reveal_strlit("cl_crosshairdot");
        reveal_strlit("cl_crosshairstyle");
        assert("cl_crosshairdot"@.len() != "cl_crosshairstyle"@.len());
        reveal_strlit("cl_crosshair_recoil");
        assert("cl_crosshairdot"@.len() != "cl_crosshair_recoil"@.len());
    }
    assert(with_command(c, "cl_crosshairsize"@, value) == (CrosshairView { size: Some(value), ..c })) by {
        reveal_strlit("cl_crosshairsize");
        reveal_strlit("cl_crosshairstyle");
        assert("cl_crosshairsize"@.len() != "cl_crosshairstyle"@.len());
        reveal_strlit("cl_crosshair_recoil");
        assert("cl_crosshairsize"@.len() != "cl_crosshair_recoil"@.len());
        reveal_strlit("cl_crosshairdot");
        assert("cl_crosshairsize"@.len() != "cl_crosshairdot"@.len());
    }
    assert(with_command(c, "cl_crosshairthickness"@, value) == (CrosshairView { thickness: Some(value), ..c })) by {
        reveal_strlit("cl_crosshairthickness");
        reveal_strlit("cl_crosshairstyle");
        assert("cl_crosshairthickness"@.len() != "cl_crosshairstyle"@.len());
        reveal_strlit("cl_crosshair_recoil");
        assert("cl_crosshairthickness"@.len() != "cl_crosshair_recoil"@.len());
        reveal_strlit("cl_crosshairdot");
        assert("cl_crosshairthickness"@.len() != "cl_crosshairdot"@.len());
        reveal_strlit("cl_crosshairsize");
        assert("cl_crosshairthickness"@.len() != "cl_crosshairsize"@.len());
    }
    assert(with_command(c, "cl_crosshairgap"@, value) == (CrosshairView { gap: Some(value), ..c })) by {
        reveal_strlit("cl_crosshairgap");
        reveal_strlit("cl_crosshairstyle");
        assert("cl_crosshairgap"@.len() != "cl_crosshairstyle"@.len());
        reveal_strlit("cl_crosshair_recoil");
        assert("cl_crosshairgap"@.len() != "cl_crosshair_recoil"@.len());
        reveal_strlit("cl_crosshairdot");
        assert("cl_crosshairgap"@[12] != "cl_crosshairdot"@[12]);
        reveal_strlit("cl_crosshairsize");
        assert("cl_crosshairgap"@.len() != "cl_crosshairsize"@.len());
        reveal_strlit("cl_crosshairthickness");
        assert("cl_crosshairgap"@.len() != "cl_crosshairthickness"@.len());
    }
    assert(with_command(c, "cl_crosshair_drawoutline"@, value) == (CrosshairView { draw_outline: Some(value), ..c })) by {
        reveal_strlit("cl_crosshair_drawoutline");
        reveal_strlit("cl_crosshairstyle");
        assert("cl_crosshair_drawoutline"@.len() != "cl_crosshairstyle"@.len());
        reveal_strlit("cl_crosshair_recoil");
        assert("cl_crosshair_drawoutline"@.len() != "cl_crosshair_recoil"@.len());
        reveal_strlit("cl_crosshairdot");
        assert("cl_crosshair_drawoutline"@.len() != "cl_crosshairdot"@.len());
        reveal_strlit("cl_crosshairsize");
        assert("cl_crosshair_drawoutline"@.len() != "cl_crosshairsize"@.len());
        reveal_strlit("cl_crosshairthickness");
        assert("cl_crosshair_drawoutline"@.len() != "cl_crosshairthickness"@.len());
        reveal_strlit("cl_crosshairgap");
        assert("cl_crosshair_drawoutline"@.len() != "cl_crosshairgap"@.len());
    }
    assert(with_command(c, "cl_crosshair_outlinethickness"@, value) == (CrosshairView { outline_thickness: Some(value), ..c })) by {
        reveal_strlit("cl_crosshair_outlinethickness");
        reveal_strlit("cl_crosshairstyle");
        assert("cl_crosshair_outlinethickness"@.len() != "cl_crosshairstyle"@.len());
        reveal_strlit("cl_crosshair_recoil");
        assert("cl_crosshair_outlinethickness"@.len() != "cl_crosshair_recoil"@.len());
        reveal_strlit("cl_crosshairdot");
        assert("cl_crosshair_outlinethickness"@.len() != "cl_crosshairdot"@.len());
        reveal_strlit("cl_crosshairsize");
        assert("cl_crosshair_outlinethickness"@.len() != "cl_crosshairsize"@.len());
        reveal_strlit("cl_crosshairthickness");
        assert("cl_crosshair_outlinethickness"@.len() != "cl_crosshairthickness"@.len());
        reveal_strlit("cl_crosshairgap");
        assert("cl_crosshair_outlinethickness"@.len() != "cl_crosshairgap"@.len());
        reveal_strlit("cl_crosshair_drawoutline");
        assert("cl_crosshair_outlinethickness"@.len() != "cl_crosshair_drawoutline"@.len());
    }
    assert(with_command(c, "cl_crosshaircolor"@, value) == (CrosshairView { color: Some(value), ..c })) by {
        reveal_strlit("cl_crosshaircolor");
        reveal_strlit("cl_crosshairstyle");
        assert("cl_crosshaircolor"@[12] != "cl_crosshairstyle"@[12]);
        reveal_strlit("cl_crosshair_recoil");
        assert("cl_crosshaircolor"@.len() != "cl_crosshair_recoil"@.len());
        reveal_strlit("cl_crosshairdot");
        assert("cl_crosshaircolor"@.len() != "cl_crosshairdot"@.len());
        reveal_strlit("cl_crosshairsize");
        assert("cl_crosshaircolor"@.len() != "cl_crosshairsize"@.len());
        reveal_strlit("cl_crosshairthickness");
        assert("cl_crosshaircolor"@.len() != "cl_crosshairthickness"@.len());
        reveal_strlit("cl_crosshairgap");
        assert("cl_crosshaircolor"@.len() != "cl_crosshairgap"@.len());
        reveal_strlit("cl_crosshair_drawoutline");
        assert("cl_crosshaircolor"@.len() != "cl_crosshair_drawoutline"@.len());
        reveal_strlit("cl_crosshair_outlinethickness");
        assert("cl_crosshaircolor"@.len() != "cl_crosshair_outlinethickness"@.len());
    }
    assert(with_command(c, "cl_crosshaircolor_r"@, value) == (CrosshairView { color_r: Some(value), ..c })) by {
        reveal_strlit("cl_crosshaircolor_r");
        reveal_strlit("cl_crosshairstyle");
        assert("cl_crosshaircolor_r"@.len() != "cl_crosshairstyle"@.len());
        reveal_strlit("cl_crosshair_recoil");
        assert("cl_crosshaircolor_r"@[12] != "cl_crosshair_recoil"@[12]);
        reveal_strlit("cl_crosshairdot");
        assert("cl_crosshaircolor_r"@.len() != "cl_crosshairdot"@.len());
        reveal_strlit("cl_crosshairsize");
        assert("cl_crosshaircolor_r"@.len() != "cl_crosshairsize"@.len());
        reveal_strlit("cl_crosshairthickness");
        assert("cl_crosshaircolor_r"@.len() != "cl_crosshairthickness"@.len());
        reveal_strlit("cl_crosshairgap");
        assert("cl_crosshaircolor_r"@.len() != "cl_crosshairgap"@.len());
        reveal_strlit("cl_crosshair_drawoutline");
        assert("cl_crosshaircolor_r"@.len() != "cl_crosshair_drawoutline"@.len());
        reveal_strlit("cl_crosshair_outlinethickness");
        assert("cl_crosshaircolor_r"@.len() != "cl_crosshair_outlinethickness"@.len());
        reveal_strlit("cl_crosshaircolor");
        assert("cl_crosshaircolor_r"@.len() != "cl_crosshaircolor"@.len());
    }
    assert(with_command(c, "cl_crosshaircolor_g"@, value) == (CrosshairView { color_g: Some(value), ..c })) by {
        reveal_strlit("cl_crosshaircolor_g");
        reveal_strlit("cl_crosshairstyle");
        assert("cl_crosshaircolor_g"@.len() != "cl_crosshairstyle"@.len());
        reveal_strlit("cl_crosshair_recoil");
        assert("cl_crosshaircolor_g"@[12] != "cl_crosshair_recoil"@[12]);
        reveal_strlit("cl_crosshairdot");
        assert("cl_crosshaircolor_g"@.len() != "cl_crosshairdot"@.len());
        reveal_strlit("cl_crosshairsize");
        assert("cl_crosshaircolor_g"@.len() != "cl_crosshairsize"@.len());
        reveal_strlit("cl_crosshairthickness");
        assert("cl_crosshaircolor_g"@.len() != "cl_crosshairthickness"@.len());
        reveal_strlit("cl_crosshairgap");
        assert("cl_crosshaircolor_g"@.len() != "cl_crosshairgap"@.len());
        reveal_strlit("cl_crosshair_drawoutline");
        assert("cl_crosshaircolor_g"@.len() != "cl_crosshair_drawoutline"@.len());
        reveal_strlit("cl_crosshair_outlinethickness");
        assert("cl_crosshaircolor_g"@.len() != "cl_crosshair_outlinethickness"@.len());
        reveal_strlit("cl_crosshaircolor");
        assert("cl_crosshaircolor_g"@.len() != "cl_crosshaircolor"@.len());
        reveal_strlit("cl_crosshaircolor_r");
        assert("cl_crosshaircolor_g"@[18] != "cl_crosshaircolor_r"@[18]);
    }
    assert(with_command(c, "cl_crosshaircolor_b"@, value) == (CrosshairView { color_b: Some(value), ..c })) by {
        reveal_strlit("cl_crosshaircolor_b");
        reveal_strlit("cl_crosshairstyle");
        assert("cl_crosshaircolor_b"@.len() != "cl_crosshairstyle"@.len());
        reveal_strlit("cl_crosshair_recoil");
        assert("cl_crosshaircolor_b"@[12] != "cl_crosshair_recoil"@[12]);
        reveal_strlit("cl_crosshairdot");
        assert("cl_crosshaircolor_b"@.len() != "cl_crosshairdot"@.len());
        reveal_strlit("cl_crosshairsize");
        assert("cl_crosshaircolor_b"@.len() != "cl_crosshairsize"@.len());
        reveal_strlit("cl_crosshairthickness");
        assert("cl_crosshaircolor_b"@.len() != "cl_crosshairthickness"@.len());
        reveal_strlit("cl_crosshairgap");
        assert("cl_crosshaircolor_b"@.len() != "cl_crosshairgap"@.len());
        reveal_strlit("cl_crosshair_drawoutline");
        assert("cl_crosshaircolor_b"@.len() != "cl_crosshair_drawoutline"@.len());
        reveal_strlit("cl_crosshair_outlinethickness");
        assert("cl_crosshaircolor_b"@.len() != "cl_crosshair_outlinethickness"@.len());
        reveal_strlit("cl_crosshaircolor");
        assert("cl_crosshaircolor_b"@.len() != "cl_crosshaircolor"@.len());
        reveal_strlit("cl_crosshaircolor_r");
        assert("cl_crosshaircolor_b"@[18] != "cl_crosshaircolor_r"@[18]);
        reveal_strlit("cl_crosshaircolor_g");
        assert("cl_crosshaircolor_b"@[18] != "cl_crosshaircolor_g"@[18]);
    }
    assert(with_command(c, "cl_crosshairusealpha"@, value) == (CrosshairView { use_alpha: Some(value), ..c })) by {
        reveal_strlit("cl_crosshairusealpha");
        reveal_strlit("cl_crosshairstyle");
        assert("cl_crosshairusealpha"@.len() != "cl_crosshairstyle"@.len());
        reveal_strlit("cl_crosshair_recoil");
        assert("cl_crosshairusealpha"@.len() != "cl_crosshair_recoil"@.len());
        reveal_strlit("cl_crosshairdot");
        assert("cl_crosshairusealpha"@.len() != "cl_crosshairdot"@.len());
        reveal_strlit("cl_crosshairsize");
        assert("cl_crosshairusealpha"@.len() != "cl_crosshairsize"@.len());
        reveal_strlit("cl_crosshairthickness");
        assert("cl_crosshairusealpha"@.len() != "cl_crosshairthickness"@.len());
        reveal_strlit("cl_crosshairgap");
        assert("cl_crosshairusealpha"@.len() != "cl_crosshairgap"@.len());
        reveal_strlit("cl_crosshair_drawoutline");
        assert("cl_crosshairusealpha"@.len() != "cl_crosshair_drawoutline"@.len());
        reveal_strlit("cl_crosshair_outlinethickness");
        assert("cl_crosshairusealpha"@.len() != "cl_crosshair_outlinethickness"@.len());
        reveal_strlit("cl_crosshaircolor");
        assert("cl_crosshairusealpha"@.len() != "cl_crosshaircolor"@.len());
        reveal_strlit("cl_crosshaircolor_r");
        assert("cl_crosshairusealpha"@.len() != "cl_crosshaircolor_r"@.len());
        reveal_strlit("cl_crosshaircolor_g");
        assert("cl_crosshairusealpha"@.len() != "cl_crosshaircolor_g"@.len());
        reveal_strlit("cl_crosshaircolor_b");
        assert("cl_crosshairusealpha"@.len() != "cl_crosshaircolor_b"@.len());
    }
    assert(with_command(c, "cl_crosshairalpha"@, value) == (CrosshairView { alpha: Some(value), ..c })) by {
        reveal_strlit("cl_crosshairalpha");
        reveal_strlit("cl_crosshairstyle");
        assert("cl_crosshairalpha"@[12] != "cl_crosshairstyle"@[12]);
        reveal_strlit("cl_crosshair_recoil");
        assert("cl_crosshairalpha"@.len() != "cl_crosshair_recoil"@.len());
        reveal_strlit("cl_crosshairdot");
        assert("cl_crosshairalpha"@.len() != "cl_crosshairdot"@.len());
        reveal_strlit("cl_crosshairsize");
        assert("cl_crosshairalpha"@.len() != "cl_crosshairsize"@.len());
        reveal_strlit("cl_crosshairthickness");
        assert("cl_crosshairalpha"@.len() != "cl_crosshairthickness"@.len());
        reveal_strlit("cl_crosshairgap");
        assert("cl_crosshairalpha"@.len() != "cl_crosshairgap"@.len());
        reveal_strlit("cl_crosshair_drawoutline");
        assert("cl_crosshairalpha"@.len() != "cl_crosshair_drawoutline"@.len());
        reveal_strlit("cl_crosshair_outlinethickness");
        assert("cl_crosshairalpha"@.len() != "cl_crosshair_outlinethickness"@.len());
        reveal_strlit("cl_crosshaircolor");
        assert("cl_crosshairalpha"@[12] != "cl_crosshaircolor"@[12]);
        reveal_strlit("cl_crosshaircolor_r");
        assert("cl_crosshairalpha"@.len() != "cl_crosshaircolor_r"@.len());
        reveal_strlit("cl_crosshaircolor_g");
        assert("cl_crosshairalpha"@.len() != "cl_crosshaircolor_g"@.len());
        reveal_strlit("cl_crosshaircolor_b");
        assert("cl_crosshairalpha"@.len() != "cl_crosshaircolor_b"@.len());
        reveal_strlit("cl_crosshairusealpha");
        assert("cl_crosshairalpha"@.len() != "cl_crosshairusealpha"@.len());
    }
    assert(with_command(c, "cl_crosshair_t"@, value) == (CrosshairView { t_style: Some(value), ..c })) by {
        reveal_strlit("cl_crosshair_t");
        reveal_strlit("cl_crosshairstyle");
        assert("cl_crosshair_t"@.len() != "cl_crosshairstyle"@.len());
        reveal_strlit("cl_crosshair_recoil");
        assert("cl_crosshair_t"@.len() != "cl_crosshair_recoil"@.len());
        reveal_strlit("cl_crosshairdot");
        assert("cl_crosshair_t"@.len() != "cl_crosshairdot"@.len());
        reveal_strlit("cl_crosshairsize");
        assert("cl_crosshair_t"@.len() != "cl_crosshairsize"@.len());
        reveal_strlit("cl_crosshairthickness");
        assert("cl_crosshair_t"@.len() != "cl_crosshairthickness"@.len());
        reveal_strlit("cl_crosshairgap");
        assert("cl_crosshair_t"@.len() != "cl_crosshairgap"@.len());
        reveal_strlit("cl_crosshair_drawoutline");
        assert("cl_crosshair_t"@.len() != "cl_crosshair_drawoutline"@.len());
        reveal_strlit("cl_crosshair_outlinethickness");
        assert("cl_crosshair_t"@.len() != "cl_crosshair_outlinethickness"@.len());
        reveal_strlit("cl_crosshaircolor");
        assert("cl_crosshair_t"@.len() != "cl_crosshaircolor"@.len());
        reveal_strlit("cl_crosshaircolor_r");
        assert("cl_crosshair_t"@.len() != "cl_crosshaircolor_r"@.len());
        reveal_strlit("cl_crosshaircolor_g");
        assert("cl_crosshair_t"@.len() != "cl_crosshaircolor_g"@.len());
        reveal_strlit("cl_crosshaircolor_b");
        assert("cl_crosshair_t"@.len() != "cl_crosshaircolor_b"@.len());
        reveal_strlit("cl_crosshairusealpha");
        assert("cl_crosshair_t"@.len() != "cl_crosshairusealpha"@.len());
        reveal_strlit("cl_crosshairalpha");
        assert("cl_crosshair_t"@.len() != "cl_crosshairalpha"@.len());
    }
    assert(with_command(c, "cl_crosshairgap_useweaponvalue"@, value) == (CrosshairView { deployed_weapon_gap: Some(value), ..c })) by {
        reveal_strlit("cl_crosshairgap_useweaponvalue");
        reveal_strlit("cl_crosshairstyle");
        assert("cl_crosshairgap_useweaponvalue"@.len() != "cl_crosshairstyle"@.len());
        reveal_strlit("cl_crosshair_recoil");
        assert("cl_crosshairgap_useweaponvalue"@.len() != "cl_crosshair_recoil"@.len());
        reveal_strlit("cl_crosshairdot");
        assert("cl_crosshairgap_useweaponvalue"@.len() != "cl_crosshairdot"@.len());
        reveal_strlit("cl_crosshairsize");
        assert("cl_crosshairgap_useweaponvalue"@.len() != "cl_crosshairsize"@.len());
        reveal_strlit("cl_crosshairthickness");
        assert("cl_crosshairgap_useweaponvalue"@.len() != "cl_crosshairthickness"@.len());
        reveal_strlit("cl_crosshairgap");
        assert("cl_crosshairgap_useweaponvalue"@.len() != "cl_crosshairgap"@.len());
        reveal_strlit("cl_crosshair_drawoutline");
        assert("cl_crosshairgap_useweaponvalue"@.len() != "cl_crosshair_drawoutline"@.len());
        reveal_strlit("cl_crosshair_outlinethickness");
        assert("cl_crosshairgap_useweaponvalue"@.len() != "cl_crosshair_outlinethickness"@.len());
        reveal_strlit("cl_crosshaircolor");
        assert("cl_crosshairgap_useweaponvalue"@.len() != "cl_crosshaircolor"@.len());
        reveal_strlit("cl_crosshaircolor_r");
        assert("cl_crosshairgap_useweaponvalue"@.len() != "cl_crosshaircolor_r"@.len());
        reveal_strlit("cl_crosshaircolor_g");
        assert("cl_crosshairgap_useweaponvalue"@.len() != "cl_crosshaircolor_g"@.len());
        reveal_strlit("cl_crosshaircolor_b");
        assert("cl_crosshairgap_useweaponvalue"@.len() != "cl_crosshaircolor_b"@.len());
        reveal_strlit("cl_crosshairusealpha");
        assert("cl_crosshairgap_useweaponvalue"@.len() != "cl_crosshairusealpha"@.len());
        reveal_strlit("cl_crosshairalpha");
        assert("cl_crosshairgap_useweaponvalue"@.len() != "cl_crosshairalpha"@.len());
        reveal_strlit("cl_crosshair_t");
        assert("cl_crosshairgap_useweaponvalue"@.len() != "cl_crosshair_t"@.len());
    }
    assert(with_command(c, "cl_crosshair_dynamic_splitdist"@, value) == (CrosshairView { split_distance: Some(value), ..c })) by {
        reveal_strlit("cl_crosshair_dynamic_splitdist");
        reveal_strlit("cl_crosshairstyle");
        assert("cl_crosshair_dynamic_splitdist"@.len() != "cl_crosshairstyle"@.len());
        reveal_strlit("cl_crosshair_recoil");
        assert("cl_crosshair_dynamic_splitdist"@.len() != "cl_crosshair_recoil"@.len());
        reveal_strlit("cl_crosshairdot");
        assert("cl_crosshair_dynamic_splitdist"@.len() != "cl_crosshairdot"@.len());
        reveal_strlit("cl_crosshairsize");
        assert("cl_crosshair_dynamic_splitdist"@.len() != "cl_crosshairsize"@.len());
        reveal_strlit("cl_crosshairthickness");
        assert("cl_crosshair_dynamic_splitdist"@.len() != "cl_crosshairthickness"@.len());
        reveal_strlit("cl_crosshairgap");
        assert("cl_crosshair_dynamic_splitdist"@.len() != "cl_crosshairgap"@.len());
        reveal_strlit("cl_crosshair_drawoutline");
        assert("cl_crosshair_dynamic_splitdist"@.len() != "cl_crosshair_drawoutline"@.len());
        reveal_strlit("cl_crosshair_outlinethickness");
        assert("cl_crosshair_dynamic_splitdist"@.len() != "cl_crosshair_outlinethickness"@.len());
        reveal_strlit("cl_crosshaircolor");
        assert("cl_crosshair_dynamic_splitdist"@.len() != "cl_crosshaircolor"@.len());
        reveal_strlit("cl_crosshaircolor_r");
        assert("cl_crosshair_dynamic_splitdist"@.len() != "cl_crosshaircolor_r"@.len());
        reveal_strlit("cl_crosshaircolor_g");
        assert("cl_crosshair_dynamic_splitdist"@.len() != "cl_crosshaircolor_g"@.len());
        reveal_strlit("cl_crosshaircolor_b");
        assert("cl_crosshair_dynamic_splitdist"@.len() != "cl_crosshaircolor_b"@.len());
        reveal_strlit("cl_crosshairusealpha");
        assert("cl_crosshair_dynamic_splitdist"@.len() != "cl_crosshairusealpha"@.len());
        reveal_strlit("cl_crosshairalpha");
        assert("cl_crosshair_dynamic_splitdist"@.len() != "cl_crosshairalpha"@.len());
        reveal_strlit("cl_crosshair_t");
        assert("cl_crosshair_dynamic_splitdist"@.len() != "cl_crosshair_t"@.len());
        reveal_strlit("cl_crosshairgap_useweaponvalue");
        assert("cl_crosshair_dynamic_splitdist"@[12] != "cl_crosshairgap_useweaponvalue"@[12]);
    }
    assert(with_command(c, "cl_fixedcrosshairgap"@, value) == (CrosshairView { fixed_gap: Some(value), ..c })) by {
        reveal_strlit("cl_fixedcrosshairgap");
        reveal_strlit("cl_crosshairstyle");
        assert("cl_fixedcrosshairgap"@.len() != "cl_crosshairstyle"@.len());
        reveal_strlit("cl_crosshair_recoil");
        assert("cl_fixedcrosshairgap"@.len() != "cl_crosshair_recoil"@.len());
        reveal_strlit("cl_crosshairdot");
        assert("cl_fixedcrosshairgap"@.len() != "cl_crosshairdot"@.len());
        reveal_strlit("cl_crosshairsize");
        assert("cl_fixedcrosshairgap"@.len() != "cl_crosshairsize"@.len());
        reveal_strlit("cl_crosshairthickness");
        assert("cl_fixedcrosshairgap"@.len() != "cl_crosshairthickness"@.len());
        reveal_strlit("cl_crosshairgap");
        assert("cl_fixedcrosshairgap"@.len() != "cl_crosshairgap"@.len());
        reveal_strlit("cl_crosshair_drawoutline");
        assert("cl_fixedcrosshairgap"@.len() != "cl_crosshair_drawoutline"@.len());
        reveal_strlit("cl_crosshair_outlinethickness");
        assert("cl_fixedcrosshairgap"@.len() != "cl_crosshair_outlinethickness"@.len());
        reveal_strlit("cl_crosshaircolor");
        assert("cl_fixedcrosshairgap"@.len() != "cl_crosshaircolor"@.len());
        reveal_strlit("cl_crosshaircolor_r");
        assert("cl_fixedcrosshairgap"@.len() != "cl_crosshaircolor_r"@.len());
        reveal_strlit("cl_crosshaircolor_g");
        assert("cl_fixedcrosshairgap"@.len() != "cl_crosshaircolor_g"@.len());
        reveal_strlit("cl_crosshaircolor_b");
        assert("cl_fixedcrosshairgap"@.len() != "cl_crosshaircolor_b"@.len());
        reveal_strlit("cl_crosshairusealpha");
        assert("cl_fixedcrosshairgap"@[3] != "cl_crosshairusealpha"@[3]);
        reveal_strlit("cl_crosshairalpha");
        assert("cl_fixedcrosshairgap"@.len() != "cl_crosshairalpha"@.len());
        reveal_strlit("cl_crosshair_t");
        assert("cl_fixedcrosshairgap"@.len() != "cl_crosshair_t"@.len());
        reveal_strlit("cl_crosshairgap_useweaponvalue");
        assert("cl_fixedcrosshairgap"@.len() != "cl_crosshairgap_useweaponvalue"@.len());
        reveal_strlit("cl_crosshair_dynamic_splitdist");
        assert("cl_fixedcrosshairgap"@.len() != "cl_crosshair_dynamic_splitdist"@.len());
    }
    assert(with_command(c, "cl_crosshair_dynamic_splitalpha_innermod"@, value) == (CrosshairView { inner_split_alpha: Some(value), ..c })) by {
        reveal_strlit("cl_crosshair_dynamic_splitalpha_innermod");
        reveal_strlit("cl_crosshairstyle");
        assert("cl_crosshair_dynamic_splitalpha_innermod"@.len() != "cl_crosshairstyle"@.len());
        reveal_strlit("cl_crosshair_recoil");
        assert("cl_crosshair_dynamic_splitalpha_innermod"@.len() != "cl_crosshair_recoil"@.len());
        reveal_strlit("cl_crosshairdot");
        assert("cl_crosshair_dynamic_splitalpha_innermod"@.len() != "cl_crosshairdot"@.len());
        reveal_strlit("cl_crosshairsize");
        assert("cl_crosshair_dynamic_splitalpha_innermod"@.len() != "cl_crosshairsize"@.len());
        reveal_strlit("cl_crosshairthickness");
        assert("cl_crosshair_dynamic_splitalpha_innermod"@.len() != "cl_crosshairthickness"@.len());
        reveal_strlit("cl_crosshairgap");
        assert("cl_crosshair_dynamic_splitalpha_innermod"@.len() != "cl_crosshairgap"@.len());
        reveal_strlit("cl_crosshair_drawoutline");
        assert("cl_crosshair_dynamic_splitalpha_innermod"@.len() != "cl_crosshair_drawoutline"@.len());
        reveal_strlit("cl_crosshair_outlinethickness");
        assert("cl_crosshair_dynamic_splitalpha_innermod"@.len() != "cl_crosshair_outlinethickness"@.len());
        reveal_strlit("cl_crosshaircolor");
        assert("cl_crosshair_dynamic_splitalpha_innermod"@.len() != "cl_crosshaircolor"@.len());
        reveal_strlit("cl_crosshaircolor_r");
        assert("cl_crosshair_dynamic_splitalpha_innermod"@.len() != "cl_crosshaircolor_r"@.len());
        reveal_strlit("cl_crosshaircolor_g");
        assert("cl_crosshair_dynamic_splitalpha_innermod"@.len() != "cl_crosshaircolor_g"@.len());
        reveal_strlit("cl_crosshaircolor_b");
        assert("cl_crosshair_dynamic_splitalpha_innermod"@.len() != "cl_crosshaircolor_b"@.len());
        reveal_strlit("cl_crosshairusealpha");
        assert("cl_crosshair_dynamic_splitalpha_innermod"@.len() != "cl_crosshairusealpha"@.len());
        reveal_strlit("cl_crosshairalpha");
        assert("cl_crosshair_dynamic_splitalpha_innermod"@.len() != "cl_crosshairalpha"@.len());
        reveal_strlit("cl_crosshair_t");
        assert("cl_crosshair_dynamic_splitalpha_innermod"@.len() != "cl_crosshair_t"@.len());
        reveal_strlit("cl_crosshairgap_useweaponvalue");
        assert("cl_crosshair_dynamic_splitalpha_innermod"@.len() != "cl_crosshairgap_useweaponvalue"@.len());
        reveal_strlit("cl_crosshair_dynamic_splitdist");
        assert("cl_crosshair_dynamic_splitalpha_innermod"@.len() != "cl_crosshair_dynamic_splitdist"@.len());
        reveal_strlit("cl_fixedcrosshairgap");
        assert("cl_crosshair_dynamic_splitalpha_innermod"@.len() != "cl_fixedcrosshairgap"@.len());
    }
    assert(with_command(c, "cl_crosshair_dynamic_splitalpha_outermod"@, value) == (CrosshairView { outer_split_alpha: Some(value), ..c })) by {
        reveal_strlit("cl_crosshair_dynamic_splitalpha_outermod");
        reveal_strlit("cl_crosshairstyle");
        assert("cl_crosshair_dynamic_splitalpha_outermod"@.len() != "cl_crosshairstyle"@.len());
        reveal_strlit("cl_crosshair_recoil");
        assert("cl_crosshair_dynamic_splitalpha_outermod"@.len() != "cl_crosshair_recoil"@.len());
        reveal_strlit("cl_crosshairdot");
        assert("cl_crosshair_dynamic_splitalpha_outermod"@.len() != "cl_crosshairdot"@.len());
        reveal_strlit("cl_crosshairsize");
        assert("cl_crosshair_dynamic_splitalpha_outermod"@.len() != "cl_crosshairsize"@.len());
        reveal_strlit("cl_crosshairthickness");
        assert("cl_crosshair_dynamic_splitalpha_outermod"@.len() != "cl_crosshairthickness"@.len());
        reveal_strlit("cl_crosshairgap");
        assert("cl_crosshair_dynamic_splitalpha_outermod"@.len() != "cl_crosshairgap"@.len());
        reveal_strlit("cl_crosshair_drawoutline");
        assert("cl_crosshair_dynamic_splitalpha_outermod"@.len() != "cl_crosshair_drawoutline"@.len());
        reveal_strlit("cl_crosshair_outlinethickness");
        assert("cl_crosshair_dynamic_splitalpha_outermod"@.len() != "cl_crosshair_outlinethickness"@.len());
        reveal_strlit("cl_crosshaircolor");
        assert("cl_crosshair_dynamic_splitalpha_outermod"@.len() != "cl_crosshaircolor"@.len());
        reveal_strlit("cl_crosshaircolor_r");
        assert("cl_crosshair_dynamic_splitalpha_outermod"@.len() != "cl_crosshaircolor_r"@.len());
        reveal_strlit("cl_crosshaircolor_g");
        assert("cl_crosshair_dynamic_splitalpha_outermod"@.len() != "cl_crosshaircolor_g"@.len());
        reveal_strlit("cl_crosshaircolor_b");
        assert("cl_crosshair_dynamic_splitalpha_outermod"@.len() != "cl_crosshaircolor_b"@.len());
        reveal_strlit("cl_crosshairusealpha");
        assert("cl_crosshair_dynamic_splitalpha_outermod"@.len() != "cl_crosshairusealpha"@.len());
        reveal_strlit("cl_crosshairalpha");
        assert("cl_crosshair_dynamic_splitalpha_outermod"@.len() != "cl_crosshairalpha"@.len());
        reveal_strlit("cl_crosshair_t");
        assert("cl_crosshair_dynamic_splitalpha_outermod"@.len() != "cl_crosshair_t"@.len());
        reveal_strlit("cl_crosshairgap_useweaponvalue");
        assert("cl_crosshair_dynamic_splitalpha_outermod"@.len() != "cl_crosshairgap_useweaponvalue"@.len());
        reveal_strlit("cl_crosshair_dynamic_splitdist");
        assert("cl_crosshair_dynamic_splitalpha_outermod"@.len() != "cl_crosshair_dynamic_splitdist"@.len());
        reveal_strlit("cl_fixedcrosshairgap");
        assert("cl_crosshair_dynamic_splitalpha_outermod"@.len() != "cl_fixedcrosshairgap"@.len());
        reveal_strlit("cl_crosshair_dynamic_splitalpha_innermod");
        assert("cl_crosshair_dynamic_splitalpha_outermod"@[32] != "cl_crosshair_dynamic_splitalpha_innermod"@[32]);
    }
    assert(with_command(c, "cl_crosshair_dynamic_maxdist_splitratio"@, value) == (CrosshairView { split_size_ratio: Some(value), ..c })) by {
        reveal_strlit("cl_crosshair_dynamic_maxdist_splitratio");
        reveal_strlit("cl_crosshairstyle");
        assert("cl_crosshair_dynamic_maxdist_splitratio"@.len() != "cl_crosshairstyle"@.len());
        reveal_strlit("cl_crosshair_recoil");
        assert("cl_crosshair_dynamic_maxdist_splitratio"@.len() != "cl_crosshair_recoil"@.len());
        reveal_strlit("cl_crosshairdot");
        assert("cl_crosshair_dynamic_maxdist_splitratio"@.len() != "cl_crosshairdot"@.len());
        reveal_strlit("cl_crosshairsize");
        assert("cl_crosshair_dynamic_maxdist_splitratio"@.len() != "cl_crosshairsize"@.len());
        reveal_strlit("cl_crosshairthickness");
        assert("cl_crosshair_dynamic_maxdist_splitratio"@.len() != "cl_crosshairthickness"@.len());
        reveal_strlit("cl_crosshairgap");
        assert("cl_crosshair_dynamic_maxdist_splitratio"@.len() != "cl_crosshairgap"@.len());
        reveal_strlit("cl_crosshair_drawoutline");
        assert("cl_crosshair_dynamic_maxdist_splitratio"@.len() != "cl_crosshair_drawoutline"@.len());
        reveal_strlit("cl_crosshair_outlinethickness");
        assert("cl_crosshair_dynamic_maxdist_splitratio"@.len() != "cl_crosshair_outlinethickness"@.len());
        reveal_strlit("cl_crosshaircolor");
        assert("cl_crosshair_dynamic_maxdist_splitratio"@.len() != "cl_crosshaircolor"@.len());
        reveal_strlit("cl_crosshaircolor_r");
        assert("cl_crosshair_dynamic_maxdist_splitratio"@.len() != "cl_crosshaircolor_r"@.len());
        reveal_strlit("cl_crosshaircolor_g");
        assert("cl_crosshair_dynamic_maxdist_splitratio"@.len() != "cl_crosshaircolor_g"@.len());
        reveal_strlit("cl_crosshaircolor_b");
        assert("cl_crosshair_dynamic_maxdist_splitratio"@.len() != "cl_crosshaircolor_b"@.len());
        reveal_strlit("cl_crosshairusealpha");
        assert("cl_crosshair_dynamic_maxdist_splitratio"@.len() != "cl_crosshairusealpha"@.len());
        reveal_strlit("cl_crosshairalpha");
        assert("cl_crosshair_dynamic_maxdist_splitratio"@.len() != "cl_crosshairalpha"@.len());
        reveal_strlit("cl_crosshair_t");
        assert("cl_crosshair_dynamic_maxdist_splitratio"@.len() != "cl_crosshair_t"@.len());
        reveal_strlit("cl_crosshairgap_useweaponvalue");
        assert("cl_crosshair_dynamic_maxdist_splitratio"@.len() != "cl_crosshairgap_useweaponvalue"@.len());
        reveal_strlit("cl_crosshair_dynamic_splitdist");
        assert("cl_crosshair_dynamic_maxdist_splitratio"@.len() != "cl_crosshair_dynamic_splitdist"@.len());
        reveal_strlit("cl_fixedcrosshairgap");
        assert("cl_crosshair_dynamic_maxdist_splitratio"@.len() != "cl_fixedcrosshairgap"@.len());
        reveal_strlit("cl_crosshair_dynamic_splitalpha_innermod");
        assert("cl_crosshair_dynamic_maxdist_splitratio"@.len() != "cl_crosshair_dynamic_splitalpha_innermod"@.len());
        reveal_strlit("cl_crosshair_dynamic_splitalpha_outermod");
        assert("cl_crosshair_dynamic_maxdist_splitratio"@.len() != "cl_crosshair_dynamic_splitalpha_outermod"@.len());
    }
    assert(with_command(c, "cl_crosshair_sniper_width"@, value) == (CrosshairView { sniper_width: Some(value), ..c })) by {
        reveal_strlit("cl_crosshair_sniper_width");
        reveal_strlit("cl_crosshairstyle");
        assert("cl_crosshair_sniper_width"@.len() != "cl_crosshairstyle"@.len());
        reveal_strlit("cl_crosshair_recoil");
        assert("cl_crosshair_sniper_width"@.len() != "cl_crosshair_recoil"@.len());
        reveal_strlit("cl_crosshairdot");
        assert("cl_crosshair_sniper_width"@.len() != "cl_crosshairdot"@.len());
        reveal_strlit("cl_crosshairsize");
        assert("cl_crosshair_sniper_width"@.len() != "cl_crosshairsize"@.len());
        reveal_strlit("cl_crosshairthickness");
        assert("cl_crosshair_sniper_width"@.len() != "cl_crosshairthickness"@.len());
        reveal_strlit("cl_crosshairgap");
        assert("cl_crosshair_sniper_width"@.len() != "cl_crosshairgap"@.len());
        reveal_strlit("cl_crosshair_drawoutline");
        assert("cl_crosshair_sniper_width"@.len() != "cl_crosshair_drawoutline"@.len());
        reveal_strlit("cl_crosshair_outlinethickness");
        assert("cl_crosshair_sniper_width"@.len() != "cl_crosshair_outlinethickness"@.len());
        reveal_strlit("cl_crosshaircolor");
        assert("cl_crosshair_sniper_width"@.len() != "cl_crosshaircolor"@.len());
        reveal_strlit("cl_crosshaircolor_r");
        assert("cl_crosshair_sniper_width"@.len() != "cl_crosshaircolor_r"@.len());
        reveal_strlit("cl_crosshaircolor_g");
        assert("cl_crosshair_sniper_width"@.len() != "cl_crosshaircolor_g"@.len());
        reveal_strlit("cl_crosshaircolor_b");
        assert("cl_crosshair_sniper_width"@.len() != "cl_crosshaircolor_b"@.len());
        reveal_strlit("cl_crosshairusealpha");
        assert("cl_crosshair_sniper_width"@.len() != "cl_crosshairusealpha"@.len());
        reveal_strlit("cl_crosshairalpha");
        assert("cl_crosshair_sniper_width"@.len() != "cl_crosshairalpha"@.len());
        reveal_strlit("cl_crosshair_t");
        assert("cl_crosshair_sniper_width"@.len() != "cl_crosshair_t"@.len());
        reveal_strlit("cl_crosshairgap_useweaponvalue");
        assert("cl_crosshair_sniper_width"@.len() != "cl_crosshairgap_useweaponvalue"@.len());
        reveal_strlit("cl_crosshair_dynamic_splitdist");
        assert("cl_crosshair_sniper_width"@.len() != "cl_crosshair_dynamic_splitdist"@.len());
        reveal_strlit("cl_fixedcrosshairgap");
        assert("cl_crosshair_sniper_width"@.len() != "cl_fixedcrosshairgap"@.len());
        reveal_strlit("cl_crosshair_dynamic_splitalpha_innermod");
        assert("cl_crosshair_sniper_width"@.len() != "cl_crosshair_dynamic_splitalpha_innermod"@.len());
        reveal_strlit("cl_crosshair_dynamic_splitalpha_outermod");
        assert("cl_crosshair_sniper_width"@.len() != "cl_crosshair_dynamic_splitalpha_outermod"@.len());
        reveal_strlit("cl_crosshair_dynamic_maxdist_splitratio");
        assert("cl_crosshair_sniper_width"@.len() != "cl_crosshair_dynamic_maxdist_splitratio"@.len());
    }
}

/// The crosshair settings after each statement of `statements` is applied in order;
/// a statement sets the variable its first word names to its second word, and one of
/// fewer than two words is skipped.
pub open spec fn apply_statements(c: CrosshairView, statements: Seq<Seq<char>>) -> CrosshairView
    decreases statements.len(),
{
    if statements.len() == 0 {
        c
    } else {
        let before = apply_statements(c, statements.drop_last());
        let w = words(statements.last());
        if w.len() >= 2 {
            with_command(before, w[0], w[1])
        } else {
            before
        }
    }
}

/// The crosshair settings after a TotalCSGO crosshair is merged in: its code becomes
/// the import code, and a non-empty command is kept and its `;`-separated statements
/// applied.
pub open spec fn enriched(c: CrosshairView, code: Seq<char>, command: Seq<char>) -> CrosshairView {
    let with_code = CrosshairView { import_code: Some(code), ..c };
    if command.len() == 0 {
        with_code
    } else {
        apply_statements(CrosshairView { command: Some(command), ..with_code }, split(command, ';'))
    }
}

/// Sets the crosshair variable `key` to `value`; an unknown variable is ignored.
pub fn set_crosshair_command_value(crosshair: &mut CrosshairSettings, key: &[char], value: &[char])
    ensures
        final(crosshair)@ == with_command(old(crosshair)@, key@, value@),
{
    let v = Some(string_of(value));
    if chars_eq(key, "cl_crosshairstyle") {
        crosshair.style = v;
    } else if chars_eq(key, "cl_crosshair_recoil") {
        crosshair.follow_recoil = v;
    } else if chars_eq(key, "cl_crosshairdot") {
        crosshair.dot = v;
    } else if chars_eq(key, "cl_crosshairsize") {
        crosshair.size = v;
    } else if chars_eq(key, "cl_crosshairthickness") {
        crosshair.thickness = v;
    } else if chars_eq(key, "cl_crosshairgap") {
        crosshair.gap = v;
    } else if chars_eq(key, "cl_crosshair_drawoutline") {
        crosshair.draw_outline = v;
    } else if chars_eq(key, "cl_crosshair_outlinethickness") {
        crosshair.outline_thickness = v;
    } else if chars_eq(key, "cl_crosshaircolor") {
        crosshair.color = v;
    } else if chars_eq(key, "cl_crosshaircolor_r") {
        crosshair.color_r = v;
    } else if chars_eq(key, "cl_crosshaircolor_g") {
        crosshair.color_g = v;
    } else if chars_eq(key, "cl_crosshaircolor_b") {
        crosshair.color_b = v;
    } else if chars_eq(key, "cl_crosshairusealpha") {
        crosshair.use_alpha = v;
    } else if chars_eq(key, "cl_crosshairalpha") {
        crosshair.alpha = v;
    } else if chars_eq(key, "cl_crosshair_t") {
        crosshair.t_style = v;
    } else if chars_eq(key, "cl_crosshairgap_useweaponvalue") {
        crosshair.deployed_weapon_gap = v;
    } else if chars_eq(key, "cl_crosshair_dynamic_splitdist") {
        crosshair.split_distance = v;
    } else if chars_eq(key, "cl_fixedcrosshairgap") {
        crosshair.fixed_gap = v;
    } else if chars_eq(key, "cl_crosshair_dynamic_splitalpha_innermod") {
        crosshair.inner_split_alpha = v;
    } else if chars_eq(key, "cl_crosshair_dynamic_splitalpha_outermod") {
        crosshair.outer_split_alpha = v;
    } else if chars_eq(key, "cl_crosshair_dynamic_maxdist_splitratio") {
        crosshair.split_size_ratio = v;
    } else if chars_eq(key, "cl_crosshair_sniper_width") {
        crosshair.sniper_width = v;
    }
}

/// Applies the `;`-separated statements of `command` to the crosshair.
fn apply_command_statements(crosshair: &mut CrosshairSettings, command: &[char])
    ensures
        final(crosshair)@ == apply_statements(old(crosshair)@, split(command@, ';')),
{
    let statements = split_chars(command, ';');
    let ghost all = char_vecs_view(statements@);
    let mut i: usize = 0;
    assert(all.take(0) =~= Seq::<Seq<char>>::empty());
    while i < statements.len()
        invariant
            i <= statements@.len(),
            all == char_vecs_view(statements@),
            all == split(command@, ';'),
            crosshair@ == apply_statements(old(crosshair)@, all.take(i as int)),
        decreases statements.len() - i,
    {
        let w = split_words(statements[i].as_slice());
        assert(all.take(i + 1).drop_last() =~= all.take(i as int));
        assert(all.take(i + 1).last() == statements@[i as int]@);
        if w.len() >= 2 {
            assert(char_vecs_view(w@)[0] == w@[0]@);
            assert(char_vecs_view(w@)[1] == w@[1]@);
            set_crosshair_command_value(crosshair, w[0].as_slice(), w[1].as_slice());
        }
        i = i + 1;
    }
    assert(all.take(statements.len() as int) =~= all);
}

/// Merges a TotalCSGO crosshair into a player's settings: its code becomes the import
/// code, and a non-empty command is kept and each of its statements applied. Nothing
/// else of the player changes.
pub fn enrich_with_totalcsgo_crosshair(player: &mut PlayerData, totalcsgo: TotalCsgoCrosshair)
    ensures
        final(player).data.crosshair@ == enriched(
            old(player).data.crosshair@,
            totalcsgo.code@,
            totalcsgo.command@,
        ),
        final(player).player == old(player).player,
        final(player).slug == old(player).slug,
        final(player).url == old(player).url,
        final(player).data.mouse == old(player).data.mouse,
        final(player).data.viewmodel == old(player).data.viewmodel,
        final(player).data.video == old(player).data.video,
        final(player).data.radar == old(player).data.radar,
        final(player).data.hud == old(player).data.hud,
        final(player).data.bob == old(player).data.bob,
        final(player).data.launch_options == old(player).data.launch_options,
        final(player).data.gear == old(player).data.gear,
{
    let command_chars = chars_of(totalcsgo.command.as_str());
    player.data.crosshair.import_code = Some(totalcsgo.code);
    if command_chars.len() > 0 {
        player.data.crosshair.command = Some(totalcsgo.command);
        apply_command_statements(&mut player.data.crosshair, command_chars.as_slice());
    }
}

/// Whether two players agree on everything but their crosshair settings.
pub open spec fn same_but_crosshair(a: PlayerData, b: PlayerData) -> bool {
    &&& a.player == b.player
    &&& a.slug == b.slug
    &&& a.url == b.url
    &&& a.data.mouse == b.data.mouse
    &&& a.data.viewmodel == b.data.viewmodel
    &&& a.data.video == b.data.video
    &&& a.data.radar == b.data.radar
    &&& a.data.hud == b.data.hud
    &&& a.data.bob == b.data.bob
    &&& a.data.launch_options == b.data.launch_options
    &&& a.data.gear == b.data.gear
}

/// The player a lookup ends with: a TotalCSGO crosshair that was found is merged in;
/// when the page had none, or could not be had, the parsed player stays as it was.
pub fn merge_lookup(player: PlayerData, found: Option<TotalCsgoCrosshair>) -> (r: PlayerData)
    ensures
        found is None ==> r == player,
        found matches Some(t) ==> same_but_crosshair(r, player) && r.data.crosshair@ == enriched(
            player.data.crosshair@,
            t.code@,
            t.command@,
        ),
{
    let mut player = player;
    match found {
        Some(t) => {
            enrich_with_totalcsgo_crosshair(&mut player, t);
            player
        },
        None => player,
    }
}

// ---------------------------------------------------------------------------
// Failures of the page scraper
// ---------------------------------------------------------------------------

/// The string member `key` of the JSON object that `text` holds; none when `text` is
/// not JSON, is not an object, has no such member, or the member is not a string.
pub uninterp spec fn json_string_member(text: Seq<char>, key: Seq<char>) -> Option<Seq<char>>;

/// Parses `text` with `serde_json::from_str` into a `serde_json::Value` and reads the
/// member `key` with `Value::get` and `Value::as_str`. The result is named
/// `json_string_member` of the two arguments; nothing more of it is stated.
#[verifier::external_body]
fn json_member(text: &str, key: &str) -> (r: Option<String>)
    ensures
        opt_view(r) == json_string_member(text@, key@),
{
    let value: ::serde_json::Value = ::serde_json::from_str(text).ok()?;
    value.get(key)?.as_str().map(|member| member.to_string())
}

/// Why the page scraper failed, as far as its exit status and error output tell.
#[derive(Debug)]
pub enum ScraperFailure {
    PlayerNotFound { slug: String },
    AccessBlocked,
    NetworkTimeout,
    NetworkError,
    ServerError,
    Exit { status: String, stderr: String },
}

/// A scraper failure with its texts as character sequences.
pub enum ScraperFailureView {
    PlayerNotFound { slug: Seq<char> },
    AccessBlocked,
    NetworkTimeout,
    NetworkError,
    ServerError,
    Exit { status: Seq<char>, stderr: Seq<char> },
}

impl View for ScraperFailure {
    type V = ScraperFailureView;

    open spec fn view(&self) -> ScraperFailureView {
        match self {
            ScraperFailure::PlayerNotFound { slug } => ScraperFailureView::PlayerNotFound {
                slug: slug@,
            },
            ScraperFailure::AccessBlocked => ScraperFailureView::AccessBlocked,
            ScraperFailure::NetworkTimeout => ScraperFailureView::NetworkTimeout,
            ScraperFailure::NetworkError => ScraperFailureView::NetworkError,
            ScraperFailure::ServerError => ScraperFailureView::ServerError,
            ScraperFailure::Exit { status, stderr } => ScraperFailureView::Exit {
                status: status@,
                stderr: stderr@,
            },
        }
    }
}

/// How an exit status reads in a failure report: the exit code when there is one,
/// else that a signal ended the process.
pub open spec fn exit_status_text(code: Option<i32>) -> Seq<char> {
    match code {
        Some(c) => " (exit code "@ + decimal(c as int) + ")"@,
        None => " (killed by signal)"@,
    }
}

/// The failure that the scraper for `slug` reports when it exits unsuccessfully with
/// `code` and error output `stderr`: a JSON error object names the failure by its
/// `error` member (with `message` as the text of an unknown one); other output is
/// reported as it is, trimmed, or as "no stderr output" when it is blank.
pub open spec fn scraper_failure(slug: Seq<char>, code: Option<i32>, stderr: Seq<char>) -> ScraperFailureView {
    let text = trim(stderr);
    let status = exit_status_text(code);
    match json_string_member(text, "error"@) {
        Some(e) => if e == "PLAYER_NOT_FOUND"@ {
            ScraperFailureView::PlayerNotFound { slug }
        } else if e == "ACCESS_BLOCKED"@ {
            ScraperFailureView::AccessBlocked
        } else if e == "TIMEOUT"@ {
            ScraperFailureView::NetworkTimeout
        } else if e == "NETWORK_ERROR"@ {
            ScraperFailureView::NetworkError
        } else if e == "SERVER_ERROR"@ {
            ScraperFailureView::ServerError
        } else {
            ScraperFailureView::Exit {
                status,
                stderr: match json_string_member(text, "message"@) {
                    Some(m) => m,
                    None => text,
                },
            }
        },
        None => ScraperFailureView::Exit {
            status,
            stderr: if text.len() == 0 {
                "no stderr output"@
            } else {
                text
            },
        },
    }
}

/// Classifies an unsuccessful exit of the page scraper run for `slug`, from its exit
/// code (none when a signal ended it) and the text of its error output.
pub fn classify_scraper_exit(slug: &str, exit_code: Option<i32>, stderr: &str) -> (r: ScraperFailure)
    ensures
        r@ == scraper_failure(slug@, exit_code, stderr@),
{
    let status = match exit_code {
        Some(c) => {
            let mut s = String::from_str(" (exit code ");
            let d = decimal_i32(c);
            s.append(d.as_str());
            s.append(")");
            s
        },
        None => String::from_str(" (killed by signal)"),
    };
    let text = trim_str(stderr);
    match json_member(text.as_str(), "error") {
        Some(e) => {
            if str_eq(e.as_str(), "PLAYER_NOT_FOUND") {
                ScraperFailure::PlayerNotFound { slug: String::from_str(slug) }
            } else if str_eq(e.as_str(), "ACCESS_BLOCKED") {
                ScraperFailure::AccessBlocked
            } else if str_eq(e.as_str(), "TIMEOUT") {
                ScraperFailure::NetworkTimeout
            } else if str_eq(e.as_str(), "NETWORK_ERROR") {
                ScraperFailure::NetworkError
            } else if str_eq(e.as_str(), "SERVER_ERROR") {
                ScraperFailure::ServerError
            } else {
                let message = match json_member(text.as_str(), "message") {
                    Some(m) => m,
                    None => text,
                };
                ScraperFailure::Exit { status, stderr: message }
            }
        },
        None => {
            let stderr_text = if text.unicode_len() == 0 {
                String::from_str("no stderr output")
            } else {
                text
            };
            ScraperFailure::Exit { status, stderr: stderr_text }
        },
    }
}

/// Whom a scraped player page is about: the name, slug and address it gives.
#[derive(Debug)]
pub struct PlayerIdentity {
    pub player: String,
    pub slug: String,
    pub url: String,
}

/// `o`, or `fallback` when it is none.
pub open spec fn or_default(o: Option<Seq<char>>, fallback: Seq<char>) -> Seq<char> {
    match o {
        Some(v) => v,
        None => fallback,
    }
}

/// The name, slug and address that the scraper's JSON output `json` gives, each
/// falling back as `player_identity` says.
pub open spec fn identity_of(json: Seq<char>, fallback_slug: Seq<char>) -> (Seq<char>, Seq<char>, Seq<char>) {
    (
        or_default(json_string_member(json, "player"@), fallback_slug),
        or_default(json_string_member(json, "slug"@), fallback_slug),
        or_default(json_string_member(json, "url"@), Seq::<char>::empty()),
    )
}

/// The name is the `player` member, the slug the `slug` member and the address the
/// `url` member of the scraper's output; a missing name or slug is the slug that was
/// looked up, and a missing address is empty.
pub proof fn lemma_identity_members(json: Seq<char>, fallback_slug: Seq<char>)
    ensures
        identity_of(json, fallback_slug).0 == match json_string_member(json, "player"@) {
            Some(v) => v,
            None => fallback_slug,
        },
        identity_of(json, fallback_slug).1 == match json_string_member(json, "slug"@) {
            Some(v) => v,
            None => fallback_slug,
        },
        identity_of(json, fallback_slug).2 == match json_string_member(json, "url"@) {
            Some(v) => v,
            None => Seq::<char>::empty(),
        },
{
}

/// Whom the scraper's JSON output `json` is about: its string members `player` and
/// `slug`, each falling back to `fallback_slug`, and its string member `url`, falling
/// back to the empty text.
pub fn player_identity(json: &str, fallback_slug: &str) -> (r: PlayerIdentity)
    ensures
        r.player@ == or_default(json_string_member(json@, "player"@), fallback_slug@),
        r.slug@ == or_default(json_string_member(json@, "slug"@), fallback_slug@),
        r.url@ == or_default(json_string_member(json@, "url"@), Seq::<char>::empty()),
        (r.player@, r.slug@, r.url@) == identity_of(json@, fallback_slug@),
{
    let player = match json_member(json, "player") {
        Some(p) => p,
        None => String::from_str(fallback_slug),
    };
    let slug = match json_member(json, "slug") {
        Some(s) => s,
        None => String::from_str(fallback_slug),
    };
    let url = match json_member(json, "url") {
        Some(u) => u,
        None => String::new(),
    };
    PlayerIdentity { player, slug, url }
}

/// Applying statements never changes the import code or the command.
proof fn lemma_statements_keep_code(c: CrosshairView, statements: Seq<Seq<char>>)
    ensures
        apply_statements(c, statements).import_code == c.import_code,
        apply_statements(c, statements).command == c.command,
    decreases statements.len(),
{
    if statements.len() > 0 {
        lemma_statements_keep_code(c, statements.drop_last());
    }
}

/// Merging a TotalCSGO crosshair always records its code as the import code, and
/// records its command when that is not empty (keeping the old one otherwise).
pub proof fn lemma_enriched_records_code(c: CrosshairView, code: Seq<char>, command: Seq<char>)
    ensures
        enriched(c, code, command).import_code == Some(code),
        command.len() > 0 ==> enriched(c, code, command).command == Some(command),
        command.len() == 0 ==> enriched(c, code, command).command == c.command,
{
    if command.len() > 0 {
        lemma_statements_keep_code(
            CrosshairView { command: Some(command), import_code: Some(code), ..c },
            split(command, ';'),
        );
    }
}


/// Each error code of the scraper's JSON report names its own failure:
/// `PLAYER_NOT_FOUND` the player (with the slug asked for), `ACCESS_BLOCKED` a blocked
/// access, `TIMEOUT` a network timeout, `NETWORK_ERROR` a network error and
/// `SERVER_ERROR` a server error; output that is no JSON report is passed on trimmed,
/// or as "no stderr output" when it is blank.
pub proof fn lemma_failure_codes(slug: Seq<char>, code: Option<i32>, stderr: Seq<char>)
    ensures
        json_string_member(trim(stderr), "error"@) == Some("PLAYER_NOT_FOUND"@) ==> scraper_failure(slug, code, stderr) == (ScraperFailureView::PlayerNotFound { slug }),
        json_string_member(trim(stderr), "error"@) == Some("ACCESS_BLOCKED"@) ==> scraper_failure(slug, code, stderr) == ScraperFailureView::AccessBlocked,
        json_string_member(trim(stderr), "error"@) == Some("TIMEOUT"@) ==> scraper_failure(slug, code, stderr) == ScraperFailureView::NetworkTimeout,
        json_string_member(trim(stderr), "error"@) == Some("NETWORK_ERROR"@) ==> scraper_failure(slug, code, stderr) == ScraperFailureView::NetworkError,
        json_string_member(trim(stderr), "error"@) == Some("SERVER_ERROR"@) ==> scraper_failure(slug, code, stderr) == ScraperFailureView::ServerError,
        json_string_member(trim(stderr), "error"@) is None ==> scraper_failure(slug, code, stderr) == (ScraperFailureView::Exit {
            status: exit_status_text(code),
            stderr: if trim(stderr).len() == 0 { "no stderr output"@ } else { trim(stderr) },
        }),
{
    if json_string_member(trim(stderr), "error"@) == Some("PLAYER_NOT_FOUND"@) {
        reveal_strlit("PLAYER_NOT_FOUND");
    }
    if json_string_member(trim(stderr), "error"@) == Some("ACCESS_BLOCKED"@) {
        reveal_strlit("ACCESS_BLOCKED");
        reveal_strlit("PLAYER_NOT_FOUND");
        assert("ACCESS_BLOCKED"@.len() != "PLAYER_NOT_FOUND"@.len());
    }
    if json_string_member(trim(stderr), "error"@) == Some("TIMEOUT"@) {
        reveal_strlit("TIMEOUT");
        reveal_strlit("PLAYER_NOT_FOUND");
        assert("TIMEOUT"@.len() != "PLAYER_NOT_FOUND"@.len());
        reveal_strlit("ACCESS_BLOCKED");
        assert("TIMEOUT"@.len() != "ACCESS_BLOCKED"@.len());
    }
    if json_string_member(trim(stderr), "error"@) == Some("NETWORK_ERROR"@) {
        reveal_strlit("NETWORK_ERROR");
        reveal_strlit("PLAYER_NOT_FOUND");
        assert("NETWORK_ERROR"@.len() != "PLAYER_NOT_FOUND"@.len());
        reveal_strlit("ACCESS_BLOCKED");
        assert("NETWORK_ERROR"@.len() != "ACCESS_BLOCKED"@.len());
        reveal_strlit("TIMEOUT");
        assert("NETWORK_ERROR"@.len() != "TIMEOUT"@.len());
    }
    if json_string_member(trim(stderr), "error"@) == Some("SERVER_ERROR"@) {
        reveal_strlit("SERVER_ERROR");
        reveal_strlit("PLAYER_NOT_FOUND");
        assert("SERVER_ERROR"@.len() != "PLAYER_NOT_FOUND"@.len());
        reveal_strlit("ACCESS_BLOCKED");
        assert("SERVER_ERROR"@.len() != "ACCESS_BLOCKED"@.len());
        reveal_strlit("TIMEOUT");
        assert("SERVER_ERROR"@.len() != "TIMEOUT"@.len());
        reveal_strlit("NETWORK_ERROR");
        assert("SERVER_ERROR"@.len() != "NETWORK_ERROR"@.len());
    }
}


/// The statements of a command are applied one after another: a statement of at least
/// two words sets the variable its first word names to its second word, after the
/// statements before it; a statement of fewer words changes nothing. A merged
/// TotalCSGO crosshair applies the `;`-separated statements of its command to the
/// settings with the code and command recorded, and only records the code when the
/// command is empty.
pub proof fn lemma_statements_apply_in_order(
    c: CrosshairView,
    before: Seq<Seq<char>>,
    statement: Seq<char>,
    code: Seq<char>,
    command: Seq<char>,
)
    ensures
        ({
            let w = words(statement);
            let earlier = apply_statements(c, before);
            apply_statements(c, before.push(statement)) == if w.len() >= 2 {
                with_command(earlier, w[0], w[1])
            } else {
                earlier
            }
        }),
        command.len() == 0 ==> enriched(c, code, command) == (CrosshairView { import_code: Some(code), ..c }),
        command.len() > 0 ==> enriched(c, code, command) == apply_statements(
            CrosshairView { import_code: Some(code), command: Some(command), ..c },
            split(command, ';'),
        ),
        apply_statements(c, Seq::<Seq<char>>::empty()) == c,
{
    assert(before.push(statement).drop_last() =~= before);
}


/// A statement `variable value` (two runs without whitespace, one space between) sets
/// that variable to that value, after the statements before it.
pub proof fn lemma_statement_sets_variable(c: CrosshairView, before: Seq<Seq<char>>, key: Seq<char>, value: Seq<char>)
    requires
        key.len() > 0,
        value.len() > 0,
        no_ws(key),
        no_ws(value),
    ensures
        apply_statements(c, before.push(key + seq![' '] + value)) == with_command(
            apply_statements(c, before),
            key,
            value,
        ),
{
    lemma_words_single(key);
    lemma_words_append_word(key, value);
    assert(seq![key].push(value) =~= seq![key, value]);
    assert(before.push(key + seq![' '] + value).drop_last() =~= before);
}

} // verus!
