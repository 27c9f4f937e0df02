//! The catalogue of colour themes the picker offers, and its filter.
use crate::models::opt_view;
use crate::text::{
    chars_of, contains_chars, contains_seq, lowercase, strings_view, to_lowercase, trim, trim_str,
};
use vstd::prelude::*;
use vstd::string::StringExecFns;

verus! {

/// The themes that can be chosen, by name, in the order they are offered.
pub struct ThemeManager {
    themes: Vec<String>,
}

/// The names among `names` that match the lowercased filter `filter`: all of them when
/// it is empty, else those whose lowercase form contains it.
pub open spec fn matching_names(names: Seq<Seq<char>>, filter: Seq<char>) -> Seq<Seq<char>>
    decreases names.len(),
{
    if names.len() == 0 {
        Seq::<Seq<char>>::empty()
    } else {
        let rest = matching_names(names.drop_last(), filter);
        let n = names.last();
        if filter.len() == 0 || contains_seq(lowercase(n), filter) {
            rest.push(n)
        } else {
            rest
        }
    }
}

impl ThemeManager {
    /// A catalogue of the themes named `themes`.
    pub fn with_themes(themes: Vec<String>) -> (m: ThemeManager)
        ensures
            m.names() == strings_view(themes@),
    {
        ThemeManager { themes }
    }

    /// The names of the themes.
    pub closed spec fn names(&self) -> Seq<Seq<char>> {
        strings_view(self.themes@)
    }

    /// The names of the themes that match `filter`, ignoring case, in order.
    pub fn filter_themes(&self, filter: &str) -> (r: Vec<String>)
        ensures
            strings_view(r@) == matching_names(self.names(), lowercase(filter@)),
    {
        let lowered = to_lowercase(filter);
        let needle = chars_of(lowered.as_str());
        let ghost all = strings_view(self.themes@);
        let mut r: Vec<String> = Vec::new();
        let mut i: usize = 0;
        assert(all.take(0) =~= Seq::<Seq<char>>::empty());
        assert(strings_view(r@) =~= Seq::<Seq<char>>::empty());
        while i < self.themes.len()
            invariant
                i <= self.themes@.len(),
                all == strings_view(self.themes@),
                needle@ == lowercase(filter@),
                strings_view(r@) == matching_names(all.take(i as int), needle@),
            decreases self.themes.len() - i,
        {
            let name = &self.themes[i];
            assert(all.take(i + 1).drop_last() =~= all.take(i as int));
            assert(all.take(i + 1).last() == name@);
            let keep = if needle.len() == 0 {
                true
            } else {
                let lower_name = to_lowercase(name.as_str());
                let hay = chars_of(lower_name.as_str());
                contains_chars(hay.as_slice(), needle.as_slice())
            };
            if keep {
                r.push(name.clone());
                assert(strings_view(r@) =~= strings_view(r@).drop_last().push(name@));
            }
            i = i + 1;
        }
        assert(all.take(self.themes.len() as int) =~= all);
        r
    }
}

/// An empty filter keeps every theme, in order.
pub proof fn lemma_empty_filter_keeps_all(names: Seq<Seq<char>>)
    ensures
        matching_names(names, Seq::<char>::empty()) == names,
    decreases names.len(),
{
    if names.len() > 0 {
        lemma_empty_filter_keeps_all(names.drop_last());
        assert(names.drop_last().push(names.last()) =~= names);
    }
}

/// A colour theme of the theme registry.
#[verifier::external_type_specification]
#[verifier::external_body]
pub struct ExTheme(::opaline::Theme);

/// Whether the theme registry knows a theme by the identifier `name`.
pub uninterp spec fn is_known_theme(name: Seq<char>) -> bool;

/// Calls `opaline::load_by_name`, which loads the registered theme with the identifier
/// `name`; whether it finds one is named `is_known_theme` of the identifier.
#[verifier::external_body]
fn load_theme(name: &str) -> (r: Option<::opaline::Theme>)
    ensures
        r is Some <==> is_known_theme(name@),
{
    ::opaline::load_by_name(name)
}

/// The theme that the saved-theme file names: its text trimmed, when that is not blank
/// and names a known theme.
pub open spec fn saved_theme(file_text: Option<Seq<char>>) -> Option<Seq<char>> {
    match file_text {
        Some(t) => {
            let name = trim(t);
            if name.len() > 0 && is_known_theme(name) {
                Some(name)
            } else {
                None
            }
        },
        None => None,
    }
}

/// The theme to start with: the saved one, else Flexoki Dark.
pub open spec fn startup_theme(file_text: Option<Seq<char>>) -> Seq<char> {
    match saved_theme(file_text) {
        Some(name) => name,
        None => "flexoki-dark"@,
    }
}

/// The theme that the text of the saved-theme file names, if it names a known one.
pub fn read_saved_theme(file_text: Option<&str>) -> (r: Option<String>)
    ensures
        opt_view(r) == saved_theme(
            match file_text {
                Some(t) => Some(t@),
                None => None,
            },
        ),
{
    match file_text {
        Some(text) => {
            let name = trim_str(text);
            if name.unicode_len() > 0 && load_theme(name.as_str()).is_some() {
                Some(name)
            } else {
                None
            }
        },
        None => None,
    }
}

/// The identifier of the theme to start with, from the text of the saved-theme file.
pub fn startup_theme_name(file_text: Option<&str>) -> (r: String)
    ensures
        r@ == startup_theme(
            match file_text {
                Some(t) => Some(t@),
                None => None,
            },
        ),
{
    match read_saved_theme(file_text) {
        Some(name) => name,
        None => String::from_str("flexoki-dark"),
    }
}


/// Filtering keeps the themes in their order and decides each on its own: a further
/// theme is kept after those kept before it exactly when the filter is empty or occurs
/// in the theme's lowercase name. Nothing but the given themes is ever kept.
pub proof fn lemma_filter_decides_each_theme(names: Seq<Seq<char>>, name: Seq<char>, filter: Seq<char>)
    ensures
        matching_names(names.push(name), filter) == if filter.len() == 0 || contains_seq(
            lowercase(name),
            filter,
        ) {
            matching_names(names, filter).push(name)
        } else {
            matching_names(names, filter)
        },
        matching_names(names, filter).len() <= names.len(),
        forall|i: int| 0 <= i < matching_names(names, filter).len() ==> names.contains(
            #[trigger] matching_names(names, filter)[i],
        ),
    decreases names.len(),
{
    assert(names.push(name).drop_last() =~= names);
    if names.len() > 0 {
        lemma_filter_decides_each_theme(names.drop_last(), names.last(), filter);
        assert(names.drop_last().push(names.last()) =~= names);
        let rest = matching_names(names.drop_last(), filter);
        assert forall|i: int| 0 <= i < matching_names(names, filter).len() implies names.contains(
            #[trigger] matching_names(names, filter)[i],
        ) by {
            if i < rest.len() {
                let j = choose|j: int| 0 <= j < names.drop_last().len() && names.drop_last()[j] == rest[i];
                assert(names[j] == rest[i]);
            } else {
                assert(names[names.len() - 1] == names.last());
            }
        }
    }
}

/// The browser starts with the theme the saved file names, trimmed, when that is a
/// known theme, and with Flexoki Dark otherwise: without a file, with a blank one, or
/// with an unknown name.
pub proof fn lemma_startup_theme(file_text: Option<Seq<char>>)
    ensures
        startup_theme(file_text) == match file_text {
            Some(t) => if trim(t).len() > 0 && is_known_theme(trim(t)) {
                trim(t)
            } else {
                "flexoki-dark"@
            },
            None => "flexoki-dark"@,
        },
{
}

} // verus!
