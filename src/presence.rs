//! Rich-presence activity chosen from the browser side's presence updates.

use vstd::prelude::*;
use crate::decimal::{i64_of_text, parse_i64};
use crate::json::str_eq;

verus! {

/// The icon shown while browsing.
pub const ICON_URL: &'static str = "https://raw.githubusercontent.com/Stremio/stremio-web/refs/heads/development/images/icon.png";

/// An activity to show.
#[derive(Debug)]
pub struct Presence {
    pub details: String,
    pub state: String,
    /// Seconds elapsed and total duration, while playing.
    pub times: Option<(i64, i64)>,
    pub large_image: String,
    pub large_text: String,
    /// Small image and its text.
    pub small: Option<(String, String)>,
    /// Button labels and links.
    pub buttons: Vec<(String, String)>,
}

#[derive(Debug)]
pub enum PresenceAction {
    Show(Presence),
    Clear,
    Keep,
}

pub struct PresenceView {
    pub details: Seq<char>,
    pub state: Seq<char>,
    pub times: Option<(i64, i64)>,
    pub large_image: Seq<char>,
    pub large_text: Seq<char>,
    pub small: Option<(Seq<char>, Seq<char>)>,
    pub buttons: Seq<(Seq<char>, Seq<char>)>,
}

pub enum PresenceActionView {
    Show(PresenceView),
    Clear,
    Keep,
}

impl View for Presence {
    type V = PresenceView;

    open spec fn view(&self) -> PresenceView {
        PresenceView {
            details: self.details@,
            state: self.state@,
            times: self.times,
            large_image: self.large_image@,
            large_text: self.large_text@,
            small: match self.small {
                Some(p) => Some((p.0@, p.1@)),
                None => None,
            },
            buttons: self.buttons@.map_values(|b: (String, String)| (b.0@, b.1@)),
        }
    }
}

impl View for PresenceAction {
    type V = PresenceActionView;

    open spec fn view(&self) -> PresenceActionView {
        match self {
            PresenceAction::Show(p) => PresenceActionView::Show(p@),
            PresenceAction::Clear => PresenceActionView::Clear,
            PresenceAction::Keep => PresenceActionView::Keep,
        }
    }
}

/// The argument at `i`, or the empty text when there is none.
pub open spec fn arg(a: Seq<Seq<char>>, i: int) -> Seq<char> {
    if 0 <= i < a.len() { a[i] } else { seq![] }
}

/// An integer argument; zero when it does not parse.
pub open spec fn int_arg(a: Seq<Seq<char>>, i: int) -> i64 {
    match i64_of_text(arg(a, i)) {
        Some(v) => v,
        None => 0,
    }
}

/// The activity while watching: `[_, type, title, season, episode,
/// episode name, thumbnail, image, elapsed, duration, paused?, details link,
/// watch link]`.
pub open spec fn watching_spec(a: Seq<Seq<char>>) -> PresenceView {
    let paused = arg(a, 10) == "yes"@;
    let series = a[1] == "series"@;
    PresenceView {
        details: a[2],
        state: if paused {
            "Paused"@
        } else if series {
            a[5] + " (S"@ + a[3] + "-E"@ + a[4] + ")"@
        } else {
            "Enjoying a Movie"@
        },
        times: if paused { None } else { Some((int_arg(a, 8), int_arg(a, 9))) },
        large_image: a[7],
        large_text: a[2],
        small: if series && arg(a, 6).len() > 0 { Some((a[6], a[5])) } else { None },
        buttons: (if arg(a, 11).len() > 0 { seq![("More Details"@, a[11])] } else { seq![] })
            + (if arg(a, 12).len() > 0 { seq![("Watch on Stremio"@, a[12])] } else { seq![] }),
    }
}

pub open spec fn browsing_spec(details: Seq<char>, state: Seq<char>) -> PresenceView {
    PresenceView {
        details,
        state,
        times: None,
        large_image: ICON_URL@,
        large_text: "Stremio"@,
        small: None,
        buttons: seq![],
    }
}

/// The activity that a presence update asks for.
pub open spec fn presence_spec(a: Seq<Seq<char>>) -> PresenceActionView {
    if a.len() == 0 {
        PresenceActionView::Keep
    } else if a[0] == "watching"@ && a.len() >= 10 {
        PresenceActionView::Show(watching_spec(a))
    } else if a[0] == "meta-detail"@ && a.len() >= 4 {
        PresenceActionView::Show(PresenceView {
            details: a[2],
            state: if a[1] == "movie"@ { "Exploring a Movie"@ } else { "Exploring a Series"@ },
            times: None,
            large_image: a[3],
            large_text: a[2],
            small: None,
            buttons: seq![],
        })
    } else if a[0] == "board"@ {
        PresenceActionView::Show(browsing_spec("Resuming Favorites"@, "On Board"@))
    } else if a[0] == "discover"@ {
        PresenceActionView::Show(browsing_spec("Finding New Gems"@, "In Discover"@))
    } else if a[0] == "library"@ {
        PresenceActionView::Show(browsing_spec("Revisiting Old Favorites"@, "In Library"@))
    } else if a[0] == "calendar"@ {
        PresenceActionView::Show(browsing_spec("Planning My Next Binge"@, "On Calendar"@))
    } else if a[0] == "addons"@ {
        PresenceActionView::Show(browsing_spec("Exploring Add-ons"@, "In Add-ons"@))
    } else if a[0] == "settings"@ {
        PresenceActionView::Show(browsing_spec("Tuning Preferences"@, "In Settings"@))
    } else if a[0] == "search"@ {
        PresenceActionView::Show(browsing_spec("Searching for Shows & Movies"@, "In Search"@))
    } else if a[0] == "clear"@ {
        PresenceActionView::Clear
    } else {
        PresenceActionView::Keep
    }
}

pub open spec fn args_view(args: Seq<String>) -> Seq<Seq<char>> {
    args.map_values(|s: String| s@)
}

fn arg_is(args: &Vec<String>, i: usize, text: &str) -> (r: bool)
    ensures
        r == (arg(args_view(args@), i as int) == text@),
{
    if i < args.len() {
        str_eq(args[i].as_str(), text)
    } else {
        proof {
            reveal_strlit("");
            assert(arg(args_view(args@), i as int) =~= Seq::<char>::empty());
            assert(""@ =~= Seq::<char>::empty());
        }
        str_eq("", text)
    }
}

fn arg_present(args: &Vec<String>, i: usize) -> (r: bool)
    ensures
        r == (arg(args_view(args@), i as int).len() > 0),
{
    i < args.len() && args[i].unicode_len() > 0
}

fn int_at(args: &Vec<String>, i: usize) -> (r: i64)
    ensures
        r == int_arg(args_view(args@), i as int),
{
    if i < args.len() {
        match parse_i64(args[i].as_str()) {
            Some(v) => v,
            None => 0,
        }
    } else {
        proof {
            reveal_strlit("");
            assert(arg(args_view(args@), i as int) =~= Seq::<char>::empty());
            assert(""@ =~= Seq::<char>::empty());
        }
        match parse_i64("") {
            Some(v) => v,
            None => 0,
        }
    }
}

fn browsing(details: &str, state: &str) -> (r: Presence)
    ensures
        r@ == browsing_spec(details@, state@),
{
    let r = Presence {
        details: details.to_string(),
        state: state.to_string(),
        times: None,
        large_image: ICON_URL.to_string(),
        large_text: "Stremio".to_string(),
        small: None,
        buttons: Vec::new(),
    };
    assert(r@.buttons =~= Seq::<(Seq<char>, Seq<char>)>::empty());
    r
}

fn watching(args: &Vec<String>) -> (r: Presence)
    requires
        args@.len() >= 10,
    ensures
        r@ == watching_spec(args_view(args@)),
{
    let ghost a = args_view(args@);
    let paused = arg_is(args, 10, "yes");
    let series = str_eq(args[1].as_str(), "series");
    let state = if paused {
        "Paused".to_string()
    } else if series {
        let mut s = args[5].clone();
        s.append(" (S");
        s.append(args[3].as_str());
        s.append("-E");
        s.append(args[4].as_str());
        s.append(")");
        s
    } else {
        "Enjoying a Movie".to_string()
    };
    let times = if paused { None } else { Some((int_at(args, 8), int_at(args, 9))) };
    let small = if series && arg_present(args, 6) {
        Some((args[6].clone(), args[5].clone()))
    } else {
        None
    };
    let mut buttons: Vec<(String, String)> = Vec::new();
    if arg_present(args, 11) {
        buttons.push(("More Details".to_string(), args[11].clone()));
    }
    let ghost first = buttons@;
    if arg_present(args, 12) {
        buttons.push(("Watch on Stremio".to_string(), args[12].clone()));
    }
    let r = Presence {
        details: args[2].clone(),
        state,
        times,
        large_image: args[7].clone(),
        large_text: args[2].clone(),
        small,
        buttons,
    };
    assert(r@.buttons =~= watching_spec(a).buttons);
    r
}

/// What a presence update asks for.
pub fn presence_for(args: &Vec<String>) -> (r: PresenceAction)
    ensures
        r@ == presence_spec(args_view(args@)),
{
    let ghost a = args_view(args@);
    if args.len() == 0 {
        return PresenceAction::Keep;
    }
    let kind = args[0].as_str();
    if str_eq(kind, "watching") && args.len() >= 10 {
        PresenceAction::Show(watching(args))
    } else if str_eq(kind, "meta-detail") && args.len() >= 4 {
        let state = if str_eq(args[1].as_str(), "movie") { "Exploring a Movie" } else { "Exploring a Series" };
        let p = Presence {
            details: args[2].clone(),
            state: state.to_string(),
            times: None,
            large_image: args[3].clone(),
            large_text: args[2].clone(),
            small: None,
            buttons: Vec::new(),
        };
        assert(p@.buttons =~= Seq::<(Seq<char>, Seq<char>)>::empty());
        PresenceAction::Show(p)
    } else if str_eq(kind, "board") {
        PresenceAction::Show(browsing("Resuming Favorites", "On Board"))
    } else if str_eq(kind, "discover") {
        PresenceAction::Show(browsing("Finding New Gems", "In Discover"))
    } else if str_eq(kind, "library") {
        PresenceAction::Show(browsing("Revisiting Old Favorites", "In Library"))
    } else if str_eq(kind, "calendar") {
        PresenceAction::Show(browsing("Planning My Next Binge", "On Calendar"))
    } else if str_eq(kind, "addons") {
        PresenceAction::Show(browsing("Exploring Add-ons", "In Add-ons"))
    } else if str_eq(kind, "settings") {
        PresenceAction::Show(browsing("Tuning Preferences", "In Settings"))
    } else if str_eq(kind, "search") {
        PresenceAction::Show(browsing("Searching for Shows & Movies", "In Search"))
    } else if str_eq(kind, "clear") {
        PresenceAction::Clear
    } else {
        PresenceAction::Keep
    }
}

/// The start and end of a playing activity in seconds since the epoch, from
/// the time now; `None` when they do not fit.
pub fn presence_window(now: i64, elapsed: i64, duration: i64) -> (r: Option<(i64, i64)>)
    ensures
        r matches Some(w) ==> w.0 == now - elapsed && w.1 == now + (duration - elapsed),
        r is None ==> !(i64::MIN <= now - elapsed <= i64::MAX && i64::MIN <= duration - elapsed <= i64::MAX
            && i64::MIN <= now + (duration - elapsed) <= i64::MAX),
{
    let start = now.checked_sub(elapsed);
    let left = duration.checked_sub(elapsed);
    match (start, left) {
        (Some(s), Some(l)) => match now.checked_add(l) {
            Some(e) => Some((s, e)),
            None => None,
        },
        _ => None,
    }
}

} // verus!
