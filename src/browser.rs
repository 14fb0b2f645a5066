//! The browser bridge: what each callback of the off-screen browser engine
//! turns into.

use vstd::prelude::*;
use crate::compositor::{frame_holds, packed_rows, paint_spec, rect_within, PaintUpload, Rect, Renderer};
use crate::json::{json_text, json_to_text, str_eq, Json, JsonView};
use crate::types::Cursor;

verus! {

/// The page-side function that receives messages from the shell.
pub const IPC_SENDER: &'static str = "__postMessage";

/// The page-side hook that sends messages to the shell.
pub const IPC_RECEIVER: &'static str = "__onMessage";

/// The process message that carries a page message.
pub const IPC_MESSAGE: &'static str = "IPC";

/// The process message sent once the renderer is ready.
pub const READY_MESSAGE: &'static str = "READY";

/// An event from the browser bridge to the host loop.
#[derive(Debug)]
pub enum WebViewEvent {
    Ready,
    Loaded,
    Paint,
    Resized,
    Cursor(Cursor),
    Open(String),
    Ipc(String),
}

/// A cursor type of the browser engine.
#[derive(Debug, Clone, Copy, PartialEq, Eq, Structural)]
pub enum CursorType {
    Pointer,
    Hand,
    IBeam,
    Move,
    ZoomIn,
    ZoomOut,
    Wait,
    NoCursor,
    Other,
}

pub open spec fn cursor_spec(t: CursorType) -> Cursor {
    match t {
        CursorType::Pointer => Cursor::Default,
        CursorType::Hand => Cursor::Pointer,
        CursorType::IBeam => Cursor::Text,
        CursorType::Move => Cursor::Move,
        CursorType::ZoomIn => Cursor::ZoomIn,
        CursorType::ZoomOut => Cursor::ZoomOut,
        CursorType::Wait => Cursor::Wait,
        CursorType::NoCursor => Cursor::Hidden,
        CursorType::Other => Cursor::Default,
    }
}

pub fn cursor_of(t: CursorType) -> (r: Cursor)
    ensures
        r == cursor_spec(t),
{
    match t {
        CursorType::Pointer => Cursor::Default,
        CursorType::Hand => Cursor::Pointer,
        CursorType::IBeam => Cursor::Text,
        CursorType::Move => Cursor::Move,
        CursorType::ZoomIn => Cursor::ZoomIn,
        CursorType::ZoomOut => Cursor::ZoomOut,
        CursorType::Wait => Cursor::Wait,
        CursorType::NoCursor => Cursor::Hidden,
        CursorType::Other => Cursor::Default,
    }
}

/// A cursor-shape change.
pub fn on_cursor_change(t: CursorType) -> (r: WebViewEvent)
    ensures
        r matches WebViewEvent::Cursor(c) && c == cursor_spec(t),
{
    WebViewEvent::Cursor(cursor_of(t))
}

/// The view rectangle the engine lays out: the whole surface.
pub fn view_rect(renderer: &Renderer) -> (r: Rect)
    ensures
        r == (Rect { x: 0, y: 0, width: renderer.width, height: renderer.height }),
{
    Rect { x: 0, y: 0, width: renderer.width, height: renderer.height }
}

/// The rectangle a paint updates: the first dirty rectangle, or the whole frame.
pub open spec fn paint_rect(dirty: Option<Rect>, width: i32, height: i32) -> Rect {
    match dirty {
        Some(r) => r,
        None => Rect { x: 0, y: 0, width, height },
    }
}

/// Whether a frame of the given size can be painted as it is: it has the
/// compositor's size, its rectangle lies inside, and its buffer holds the
/// rows that the rectangle reads.
pub open spec fn paintable(renderer: Renderer, dirty: Option<Rect>, len: int, width: i32, height: i32) -> bool {
    &&& width == renderer.width
    &&& height == renderer.height
    &&& rect_within(paint_rect(dirty, width, height), width as int, height as int)
    &&& frame_holds(len, width as int, paint_rect(dirty, width, height))
}

/// A frame painted by the engine. A frame of the compositor's size is
/// uploaded and reported as `Paint`; any other frame (stale after a resize,
/// or one whose buffer does not hold its rectangle) is dropped and reported
/// as `Resized`, so that the host asks for a new layout and repaint.
pub fn on_paint(renderer: &mut Renderer, dirty: Option<Rect>, buffer: &[u8], width: i32, height: i32) -> (r: (WebViewEvent, Option<PaintUpload>))
    requires
        old(renderer).wf(),
    ensures
        final(renderer).wf(),
        paintable(*old(renderer), dirty, buffer@.len() as int, width, height) ==> {
            &&& r.0 is Paint
            &&& r.1 matches Some(u) && u.rect == paint_rect(dirty, width, height)
                && u.staging@ == packed_rows(buffer@, width as int, u.rect)
                && final(renderer)@ == paint_spec(old(renderer)@, u.rect, u.staging@)
        },
        !paintable(*old(renderer), dirty, buffer@.len() as int, width, height) ==> {
            &&& r.0 is Resized
            &&& r.1 is None
            &&& *final(renderer) == *old(renderer)
        },
{
    if width != renderer.width || height != renderer.height {
        return (WebViewEvent::Resized, None);
    }
    let rect = match dirty {
        Some(d) => d,
        None => Rect { x: 0, y: 0, width, height },
    };
    let inside = 0 <= rect.x && 0 <= rect.y && 0 <= rect.width && 0 <= rect.height
        && rect.x as i64 + rect.width as i64 <= width as i64
        && rect.y as i64 + rect.height as i64 <= height as i64;
    if !inside {
        return (WebViewEvent::Resized, None);
    }
    let rows = (rect.y as u128) + (rect.height as u128);
    let w = width as u128;
    proof {
        assert(rows * w <= 0x1_0000_0000 * 0x1_0000_0000) by (nonlinear_arith)
            requires rows <= 0x1_0000_0000, w <= 0x1_0000_0000;
    }
    let rows_end = rows * w * 4;
    if rows_end > buffer.len() as u128 {
        return (WebViewEvent::Resized, None);
    }
    let upload = renderer.paint(rect.x, rect.y, rect.width, rect.height, buffer, width);
    (WebViewEvent::Paint, Some(upload))
}

/// What `url::Url::parse` makes of a text: its serialization, or `None`
/// when it is not an absolute URL.
pub uninterp spec fn url_parse(s: Seq<char>) -> Option<Seq<char>>;

/// Relies on url::Url::parse: parses an absolute URL, and on its
/// serialization through `String::from`.
#[verifier::external_body]
fn parse_url(s: &str) -> (r: Option<String>)
    ensures
        match r {
            Some(u) => url_parse(s@) == Some(u@),
            None => url_parse(s@) is None,
        },
{
    url::Url::parse(s).ok().map(String::from)
}

/// A popup or navigation intent: `Open` with the parsed target URL, or
/// nothing when the target does not parse.
pub fn on_popup(target_url: &str) -> (r: Option<WebViewEvent>)
    ensures
        match url_parse(target_url@) {
            Some(u) => (r matches Some(WebViewEvent::Open(s)) && s@ == u),
            None => r is None,
        },
{
    match parse_url(target_url) {
        Some(u) => Some(WebViewEvent::Open(u)),
        None => None,
    }
}

/// A frame finished loading: `Loaded` for the main frame with status 200.
pub fn on_load_end(is_main: bool, http_status: i32) -> (r: Option<WebViewEvent>)
    ensures
        is_main && http_status == 200 ==> r matches Some(WebViewEvent::Loaded),
        !(is_main && http_status == 200) ==> r is None,
{
    if is_main && http_status == 200 {
        Some(WebViewEvent::Loaded)
    } else {
        None
    }
}

/// A process message from the renderer: `Ready` for the ready signal,
/// `Ipc` with the carried text for a page message.
pub fn on_process_message(name: &str, argument: String) -> (r: Option<WebViewEvent>)
    ensures
        name@ == READY_MESSAGE@ ==> r matches Some(WebViewEvent::Ready),
        name@ == IPC_MESSAGE@ ==> (r matches Some(WebViewEvent::Ipc(s)) && s == argument),
        name@ != READY_MESSAGE@ && name@ != IPC_MESSAGE@ ==> r is None,
{
    proof {
        reveal_strlit("READY");
        reveal_strlit("IPC");
        assert(READY_MESSAGE@.len() != IPC_MESSAGE@.len());
    }
    if str_eq(name, READY_MESSAGE) {
        Some(WebViewEvent::Ready)
    } else if str_eq(name, IPC_MESSAGE) {
        Some(WebViewEvent::Ipc(argument))
    } else {
        None
    }
}

/// The script that hands `message` to the page: the page-side receiver
/// called with the message as a JSON string.
pub fn post_message_script(message: &str) -> (r: String)
    ensures
        r@ == IPC_SENDER@ + "("@ + json_text(JsonView::Str(message@)) + ")"@,
{
    let quoted = json_to_text(&Json::Str(message.to_string()));
    let mut script = IPC_SENDER.to_string();
    script.append("(");
    script.append(quoted.as_str());
    script.append(")");
    script
}

} // verus!
