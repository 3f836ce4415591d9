//! The settings window of the desktop build: which page it opens on, and
//! which tab an already open window is switched to.
use vstd::prelude::*;

use crate::text::prefixed;

verus! {

/// The tab asked for, when it is given and non-empty.
pub open spec fn requested_tab(tab: Option<Seq<char>>) -> Option<Seq<char>> {
    match tab {
        Some(t) => if t.len() > 0 {
            Some(t)
        } else {
            None
        },
        None => None,
    }
}

/// The page a new settings window loads: `settings.html`, with the tab as a
/// query parameter when one is asked for.
pub open spec fn settings_url_for(tab: Option<Seq<char>>) -> Seq<char> {
    match requested_tab(tab) {
        Some(t) => "settings.html?tab="@ + t,
        None => "settings.html"@,
    }
}

/// The texts of an optional string slice.
pub open spec fn opt_text(tab: Option<&str>) -> Option<Seq<char>> {
    match tab {
        Some(t) => Some(t@),
        None => None,
    }
}

/// The page a new settings window loads for the tab asked for.
pub fn settings_url(tab: Option<&str>) -> (r: String)
    ensures
        r@ == settings_url_for(opt_text(tab)),
{
    match tab {
        Some(t) => {
            if t.is_empty() {
                "settings.html".to_owned()
            } else {
                prefixed("settings.html?tab=", t)
            }
        },
        None => "settings.html".to_owned(),
    }
}

/// The tab that an already open settings window is switched to: the one
/// asked for, when it is given and non-empty.
pub fn settings_tab(tab: Option<&str>) -> (r: Option<String>)
    ensures
        match (r, requested_tab(opt_text(tab))) {
            (Some(s), Some(t)) => s@ == t,
            (None, None) => true,
            _ => false,
        },
{
    match tab {
        Some(t) => {
            if t.is_empty() {
                None
            } else {
                Some(t.to_owned())
            }
        },
        None => None,
    }
}

/// A non-empty tab asked for is carried exactly in the page's query, and it
/// is the tab an open window is switched to; without one, the plain page
/// opens and no tab is switched to.
pub proof fn lemma_tab_reaches_page(t: Seq<char>)
    ensures
        t.len() > 0 ==> settings_url_for(Some(t)) == "settings.html?tab="@ + t,
        t.len() > 0 ==> requested_tab(Some(t)) == Some(t),
        t.len() == 0 ==> settings_url_for(Some(t)) == "settings.html"@,
        t.len() == 0 ==> requested_tab(Some(t)) is None,
        settings_url_for(None) == "settings.html"@,
        requested_tab(None) is None,
{
}

} // verus!
