//! The decisions of the background worker: what to do when the browser
//! reports a cookie change, when the context menu is clicked, and when the
//! extension is installed.

use vstd::prelude::*;
use crate::rules::{blocked_by, is_read_only, matches_filter, maybe_shorten, shortened_expiry};
use crate::text::str_eq;
use crate::types::{
    Cookie, CookieView, Filter, Preferences, ReadOnlyCookie, filters_view, names_cookie, read_only_view,
};

verus! {

/// A write to the cookie store that a cookie change calls for.
#[derive(Clone, Debug)]
pub enum MonitorAction {
    /// Write the protected cookie back.
    Restore(Cookie),
    /// Remove the cookie that a filter blocks.
    Remove(Cookie),
    /// Write the cookie, which no filter blocks, with its shortened
    /// expiration.
    Shorten(Cookie),
}

/// The contents of a [`MonitorAction`].
pub enum MonitorActionView {
    Restore(CookieView),
    Remove(CookieView),
    Shorten(CookieView),
}

impl View for MonitorAction {
    type V = MonitorActionView;

    open spec fn view(&self) -> MonitorActionView {
        match self {
            MonitorAction::Restore(c) => MonitorActionView::Restore(c@),
            MonitorAction::Remove(c) => MonitorActionView::Remove(c@),
            MonitorAction::Shorten(c) => MonitorActionView::Shorten(c@),
        }
    }
}

/// The views of a list of actions.
pub open spec fn actions_view(v: Seq<MonitorAction>) -> Seq<MonitorActionView> {
    v.map_values(|a: MonitorAction| a@)
}

/// The writes, in order, that the report of a change of cookie `c` calls for
/// (`removed` where the cookie was removed): a removed protected cookie is
/// restored; a cookie that was written is removed where an enabled filter
/// matches it, and nothing more is done to it, so that it stays removed; a
/// written cookie that no filter blocks is rewritten where the age limit
/// shortens it.
pub open spec fn planned_actions(
    c: CookieView,
    removed: bool,
    filters: Seq<crate::types::FilterView>,
    read_only: Seq<crate::types::ReadOnlyCookieView>,
    prefs: Preferences,
    now: i64,
) -> Seq<MonitorActionView> {
    if removed {
        if names_cookie(read_only, c.name, c.domain) || names_cookie(
            read_only_view(prefs.protected_cookies@),
            c.name,
            c.domain,
        ) {
            seq![MonitorActionView::Restore(c)]
        } else {
            Seq::empty()
        }
    } else {
        if blocked_by(filters, c) {
            seq![MonitorActionView::Remove(c)]
        } else {
            match shortened_expiry(c, prefs, now) {
                Some(e) => seq![MonitorActionView::Shorten(CookieView { expiration_date: Some(e as i64), ..c })],
                None => Seq::empty(),
            }
        }
    }
}

/// The writes that the report of a change of `cookie` calls for at time
/// `now`, given the filters, the read-only list and the preferences.
pub fn plan_cookie_change(
    cookie: &Cookie,
    removed: bool,
    filters: &Vec<Filter>,
    read_only: &Vec<ReadOnlyCookie>,
    prefs: &Preferences,
    now: i64,
) -> (r: Vec<MonitorAction>)
    ensures
        actions_view(r@) == planned_actions(
            cookie@,
            removed,
            filters_view(filters@),
            read_only_view(read_only@),
            *prefs,
            now,
        ),
{
    let mut r: Vec<MonitorAction> = Vec::new();
    if removed {
        if is_read_only(read_only, prefs, cookie) {
            r.push(MonitorAction::Restore(cookie.copy()));
        }
        assert(actions_view(r@) =~= planned_actions(
            cookie@,
            removed,
            filters_view(filters@),
            read_only_view(read_only@),
            *prefs,
            now,
        ));
        return r;
    }
    if matches_filter(filters, cookie) {
        r.push(MonitorAction::Remove(cookie.copy()));
        assert(actions_view(r@) =~= planned_actions(
            cookie@,
            removed,
            filters_view(filters@),
            read_only_view(read_only@),
            *prefs,
            now,
        ));
        return r;
    }
    match maybe_shorten(cookie, prefs, now) {
        Some(shortened) => {
            if !shortened.same_as(cookie) {
                r.push(MonitorAction::Shorten(shortened));
            }
        },
        None => {},
    }
    assert(actions_view(r@) =~= planned_actions(
        cookie@,
        removed,
        filters_view(filters@),
        read_only_view(read_only@),
        *prefs,
        now,
    ));
    r
}

/// The id of the context menu item that opens the cookie editor.
pub const MENU_ITEM_ID: &'static str = "edit_cookie_open_popup";

/// The title of the context menu item.
pub const MENU_ITEM_TITLE: &'static str = "Edit cookies for this site";

/// Whether a click on the context menu item `menu_item_id` opens the editor.
pub fn opens_editor(menu_item_id: &str) -> (r: bool)
    ensures
        r == (menu_item_id@ == MENU_ITEM_ID@),
{
    str_eq(menu_item_id, MENU_ITEM_ID)
}

/// The page opened after the extension is first installed.
pub const WELCOME_URL: &'static str = "https://editcookie.com/#start";

/// Whether the lifecycle event with reason `reason` opens the welcome page:
/// only a first installation does.
pub fn opens_welcome_page(reason: &Option<String>) -> (r: bool)
    ensures
        r == (crate::types::opt_view(*reason) == Some("install"@)),
{
    match reason {
        Some(s) => str_eq(s.as_str(), "install"),
        None => false,
    }
}

} // verus!
