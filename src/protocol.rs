//! The native-bridge protocol: inbound request messages decoded into events,
//! events encoded into response messages.

use vstd::prelude::*;
use crate::decimal::{decimal_text, i64_of_text, parse_i64, parse_u64, u64_of_text, u64_text};
use crate::json::{
    array_json, field, items_view, json_parse, json_text, json_to_text, lemma_view_items,
    members_view, object_json, parse_json, push_item, push_member, str_eq, text_json,
    view_items, Json, JsonView,
};
use crate::property::{class_of, fits_class, value_json, MpvProperty};

verus! {

/// Player requests and notifications carried by the protocol.
#[derive(Debug)]
pub enum IpcEventMpv {
    Observe(String),
    Command((String, Vec<String>)),
    SetProperty(MpvProperty),
    Change(MpvProperty),
    Ended(Option<String>),
}

/// An event that crosses the browser/native boundary.
#[derive(Debug)]
pub enum IpcEvent {
    Init(u64),
    Quit,
    Fullscreen(bool),
    Minimized(bool),
    Visibility(bool),
    OpenMedia(String),
    OpenExternal(String),
    Mpv(IpcEventMpv),
    PresenceUpdate(Vec<String>),
    PresenceToggle(bool),
    SeekHover(String, String, i64),
    SeekLeave,
}

/// The mathematical value of an [`IpcEvent`]; a property value is its JSON scalar.
pub enum EventView {
    Init(u64),
    Quit,
    Fullscreen(bool),
    Minimized(bool),
    Visibility(bool),
    OpenMedia(Seq<char>),
    OpenExternal(Seq<char>),
    Observe(Seq<char>),
    Command(Seq<char>, Seq<Seq<char>>),
    SetProperty(Seq<char>, JsonView),
    Change(Seq<char>, JsonView),
    Ended(Option<Seq<char>>),
    PresenceUpdate(Seq<Seq<char>>),
    PresenceToggle(bool),
    SeekHover(Seq<char>, Seq<char>, i64),
    SeekLeave,
}

pub open spec fn strings_view(v: Seq<String>) -> Seq<Seq<char>> {
    v.map_values(|s: String| s@)
}

impl View for IpcEvent {
    type V = EventView;

    open spec fn view(&self) -> EventView {
        match self {
            IpcEvent::Init(id) => EventView::Init(*id),
            IpcEvent::Quit => EventView::Quit,
            IpcEvent::Fullscreen(b) => EventView::Fullscreen(*b),
            IpcEvent::Minimized(b) => EventView::Minimized(*b),
            IpcEvent::Visibility(b) => EventView::Visibility(*b),
            IpcEvent::OpenMedia(s) => EventView::OpenMedia(s@),
            IpcEvent::OpenExternal(s) => EventView::OpenExternal(s@),
            IpcEvent::Mpv(IpcEventMpv::Observe(s)) => EventView::Observe(s@),
            IpcEvent::Mpv(IpcEventMpv::Command((n, a))) => EventView::Command(n@, strings_view(a@)),
            IpcEvent::Mpv(IpcEventMpv::SetProperty(p)) => EventView::SetProperty(p.0@, p.1@),
            IpcEvent::Mpv(IpcEventMpv::Change(p)) => EventView::Change(p.0@, p.1@),
            IpcEvent::Mpv(IpcEventMpv::Ended(e)) => EventView::Ended(
                match e {
                    Some(s) => Some(s@),
                    None => None,
                },
            ),
            IpcEvent::PresenceUpdate(a) => EventView::PresenceUpdate(strings_view(a@)),
            IpcEvent::PresenceToggle(b) => EventView::PresenceToggle(*b),
            IpcEvent::SeekHover(s, x, y) => EventView::SeekHover(s@, x@, *y),
            IpcEvent::SeekLeave => EventView::SeekLeave,
        }
    }
}

/// Why an inbound message was dropped.
#[derive(Debug)]
pub enum DecodeError {
    /// Not JSON, or not an object with a numeric `id` and kind.
    Malformed,
    /// A kind that needs arguments came without them.
    MissingArgs,
    /// The arguments are not an array.
    InvalidArguments,
    /// The first argument is not a method name.
    InvalidName,
    /// A known method with arguments of the wrong number or type.
    InvalidPayload(String),
    /// A method name that the kind does not know.
    UnknownMethod(u8, String),
    /// A message kind outside the dispatch table.
    UnknownKind(u8),
}

pub enum DecodeErrorView {
    Malformed,
    MissingArgs,
    InvalidArguments,
    InvalidName,
    InvalidPayload(Seq<char>),
    UnknownMethod(u8, Seq<char>),
    UnknownKind(u8),
}

impl View for DecodeError {
    type V = DecodeErrorView;

    open spec fn view(&self) -> DecodeErrorView {
        match self {
            DecodeError::Malformed => DecodeErrorView::Malformed,
            DecodeError::MissingArgs => DecodeErrorView::MissingArgs,
            DecodeError::InvalidArguments => DecodeErrorView::InvalidArguments,
            DecodeError::InvalidName => DecodeErrorView::InvalidName,
            DecodeError::InvalidPayload(m) => DecodeErrorView::InvalidPayload(m@),
            DecodeError::UnknownMethod(k, m) => DecodeErrorView::UnknownMethod(*k, m@),
            DecodeError::UnknownKind(k) => DecodeErrorView::UnknownKind(*k),
        }
    }
}

pub open spec fn result_view(r: Result<IpcEvent, DecodeError>) -> Result<EventView, DecodeErrorView> {
    match r {
        Ok(e) => Ok(e@),
        Err(e) => Err(e@),
    }
}

pub open spec fn all_text(p: Seq<JsonView>) -> bool {
    forall|i: int| 0 <= i < p.len() ==> (#[trigger] p[i]) is Str
}

pub open spec fn texts(p: Seq<JsonView>) -> Seq<Seq<char>> {
    p.map_values(|j: JsonView| j->Str_0)
}

/// The texts among `p`, in order; other values are passed over.
pub open spec fn text_items(p: Seq<JsonView>) -> Seq<Seq<char>>
    decreases p.len(),
{
    if p.len() == 0 {
        seq![]
    } else {
        text_items(p.drop_last()) + match p.last() {
            JsonView::Str(s) => seq![s],
            _ => Seq::<Seq<char>>::empty(),
        }
    }
}

/// The payload of a method: the arguments after its name, or the elements of
/// a single array that follows the name.
pub open spec fn payload(args: Seq<JsonView>) -> Seq<JsonView> {
    if args.len() == 2 && args[1] is Array {
        args[1]->Array_0
    } else {
        args.subrange(1, args.len() as int)
    }
}

/// A method of kind 6 that came with a payload.
pub open spec fn decode_method(id: u64, name: Seq<char>, p: Seq<JsonView>) -> Result<EventView, DecodeErrorView> {
    let bad = Err(DecodeErrorView::InvalidPayload(name));
    if name == "app-ready"@ {
        Ok(EventView::Init(id))
    } else if name == "win-set-visibility"@ {
        if p.len() == 1 && field(p[0], "fullscreen"@) matches Some(JsonView::Bool(b)) {
            Ok(EventView::Fullscreen(field(p[0], "fullscreen"@)->Some_0->Bool_0))
        } else {
            bad
        }
    } else if name == "open-external"@ {
        if p.len() == 1 && p[0] is Str {
            Ok(EventView::OpenExternal(p[0]->Str_0))
        } else {
            bad
        }
    } else if name == "player-command"@ {
        if p.len() >= 1 && all_text(p) {
            Ok(EventView::Command(p[0]->Str_0, texts(p.drop_first())))
        } else {
            bad
        }
    } else if name == "player-observe-prop"@ {
        if p.len() == 1 && p[0] is Str {
            Ok(EventView::Observe(p[0]->Str_0))
        } else {
            bad
        }
    } else if name == "player-set-prop"@ {
        if p.len() == 2 && p[0] is Str && class_of(p[0]->Str_0) is Some
            && fits_class(class_of(p[0]->Str_0)->Some_0, p[1]) {
            Ok(EventView::SetProperty(p[0]->Str_0, p[1]))
        } else {
            bad
        }
    } else if name == "seek-hover"@ {
        if p.len() == 3 && all_text(p) && i64_of_text(p[2]->Str_0) is Some {
            Ok(EventView::SeekHover(p[0]->Str_0, p[1]->Str_0, i64_of_text(p[2]->Str_0)->Some_0))
        } else {
            bad
        }
    } else if name == "seek-leave"@ {
        Ok(EventView::SeekLeave)
    } else {
        Err(DecodeErrorView::UnknownMethod(6, name))
    }
}

/// The event that a request of the given id, kind and arguments stands for.
pub open spec fn decode_spec(id: u64, kind: u8, args: Option<JsonView>) -> Result<EventView, DecodeErrorView> {
    if kind == 3 {
        Ok(EventView::Init(id))
    } else if kind == 6 || kind == 7 {
        match args {
            None => Err(DecodeErrorView::MissingArgs),
            Some(JsonView::Array(a)) => {
                if a.len() == 0 || !(a[0] is Str) {
                    Err(DecodeErrorView::InvalidName)
                } else {
                    let name = a[0]->Str_0;
                    if kind == 6 {
                        if a.len() >= 2 {
                            decode_method(id, name, payload(a))
                        } else if name == "quit"@ {
                            Ok(EventView::Quit)
                        } else if name == "seek-leave"@ {
                            Ok(EventView::SeekLeave)
                        } else {
                            Err(DecodeErrorView::UnknownMethod(6, name))
                        }
                    } else if name == "presence-update"@ {
                        Ok(EventView::PresenceUpdate(text_items(a.drop_first())))
                    } else if name == "presence-toggle"@ {
                        Ok(EventView::PresenceToggle(a.len() >= 2 && a[1] is Bool && a[1]->Bool_0))
                    } else {
                        Err(DecodeErrorView::UnknownMethod(7, name))
                    }
                }
            },
            Some(_) => Err(DecodeErrorView::InvalidArguments),
        }
    } else {
        Err(DecodeErrorView::UnknownKind(kind))
    }
}

/// The elements of `p` from index `s` on, as JSON values.
pub open spec fn tail(p: Seq<Json>, s: int) -> Seq<JsonView> {
    view_items(p).subrange(s, p.len() as int)
}

proof fn lemma_tail(p: Seq<Json>, s: int)
    requires
        0 <= s <= p.len(),
    ensures
        tail(p, s).len() == p.len() - s,
        forall|k: int| 0 <= k < p.len() - s ==> #[trigger] tail(p, s)[k] == p[s + k]@,
{
    lemma_view_items(p);
}

/// The texts `p[s..]`, when every one of them is a text.
fn texts_from(p: &Vec<Json>, s: usize) -> (r: Option<Vec<String>>)
    requires
        s <= p@.len(),
    ensures
        r is Some <==> all_text(tail(p@, s as int)),
        r matches Some(v) ==> strings_view(v@) == texts(tail(p@, s as int)),
{
    let ghost t = tail(p@, s as int);
    proof { lemma_tail(p@, s as int); }
    let mut out: Vec<String> = Vec::new();
    let mut i: usize = s;
    while i < p.len()
        invariant
            s <= i <= p@.len(),
            t == tail(p@, s as int),
            t.len() == p@.len() - s,
            forall|k: int| 0 <= k < p@.len() - s ==> #[trigger] t[k] == p@[s + k]@,
            out@.len() == i - s,
            forall|k: int| 0 <= k < i - s ==> (#[trigger] t[k]) is Str,
            forall|k: int| 0 <= k < i - s ==> #[trigger] out@[k]@ == t[k]->Str_0,
        decreases p@.len() - i,
    {
        assert(t[i - s] == p@[i as int]@);
        match p[i].as_str() {
            Some(x) => out.push(x.clone()),
            None => {
                assert(!(t[i - s] is Str));
                return None;
            },
        }
        i = i + 1;
    }
    assert(strings_view(out@) =~= texts(t));
    Some(out)
}

/// The texts among `p[s..]`, in order.
fn text_items_from(p: &Vec<Json>, s: usize) -> (r: Vec<String>)
    requires
        s <= p@.len(),
    ensures
        strings_view(r@) == text_items(tail(p@, s as int)),
{
    let ghost t = tail(p@, s as int);
    proof {
        lemma_tail(p@, s as int);
        assert(t.subrange(0, 0) =~= Seq::<JsonView>::empty());
        assert(strings_view(Seq::<String>::empty()) =~= Seq::<Seq<char>>::empty());
    }
    let mut out: Vec<String> = Vec::new();
    let mut i: usize = s;
    while i < p.len()
        invariant
            s <= i <= p@.len(),
            t == tail(p@, s as int),
            t.len() == p@.len() - s,
            forall|k: int| 0 <= k < p@.len() - s ==> #[trigger] t[k] == p@[s + k]@,
            strings_view(out@) == text_items(t.subrange(0, i - s)),
        decreases p@.len() - i,
    {
        let ghost before = out@;
        assert(t.subrange(0, i - s + 1).drop_last() =~= t.subrange(0, i - s));
        assert(t[i - s] == p@[i as int]@);
        match p[i].as_str() {
            Some(x) => {
                out.push(x.clone());
                assert(strings_view(out@) =~= strings_view(before) + seq![x@]);
            },
            None => {
                assert(text_items(t.subrange(0, i - s + 1)) =~= text_items(t.subrange(0, i - s)));
            },
        }
        i = i + 1;
    }
    assert(t.subrange(0, t.len() as int) =~= t);
    out
}

/// The `fullscreen` flag of a `win-set-visibility` request.
#[derive(Debug, Clone, Copy)]
pub struct IpcMessageRequestWinSetVisilibty {
    pub fullscreen: bool,
}

impl IpcMessageRequestWinSetVisilibty {
    pub fn from_json(value: &Json) -> (r: Option<IpcMessageRequestWinSetVisilibty>)
        ensures
            match field(value@, "fullscreen"@) {
                Some(JsonView::Bool(b)) => r == Some(IpcMessageRequestWinSetVisilibty { fullscreen: b }),
                _ => r is None,
            },
    {
        match value.get("fullscreen") {
            Some(Json::Bool(b)) => Some(IpcMessageRequestWinSetVisilibty { fullscreen: *b }),
            _ => None,
        }
    }
}

fn decode_method_exec(id: u64, name: &String, p: &Vec<Json>, s: usize) -> (r: Result<IpcEvent, DecodeError>)
    requires
        s <= p@.len(),
    ensures
        result_view(r) == decode_method(id, name@, tail(p@, s as int)),
{
    let ghost t = tail(p@, s as int);
    proof { lemma_tail(p@, s as int); }
    let n = p.len() - s;
    let m = name.as_str();
    if str_eq(m, "app-ready") {
        Ok(IpcEvent::Init(id))
    } else if str_eq(m, "win-set-visibility") {
        if n == 1 {
            assert(t[0] == p@[s as int]@);
            match IpcMessageRequestWinSetVisilibty::from_json(&p[s]) {
                Some(v) => Ok(IpcEvent::Fullscreen(v.fullscreen)),
                None => Err(DecodeError::InvalidPayload(name.clone())),
            }
        } else {
            Err(DecodeError::InvalidPayload(name.clone()))
        }
    } else if str_eq(m, "open-external") {
        if n == 1 {
            assert(t[0] == p@[s as int]@);
            match p[s].as_str() {
                Some(url) => Ok(IpcEvent::OpenExternal(url.clone())),
                None => Err(DecodeError::InvalidPayload(name.clone())),
            }
        } else {
            Err(DecodeError::InvalidPayload(name.clone()))
        }
    } else if str_eq(m, "player-command") {
        if n >= 1 {
            assert(t[0] == p@[s as int]@);
            proof { lemma_tail(p@, s + 1); }
            assert(tail(p@, s + 1) =~= t.drop_first());
            match (p[s].as_str(), texts_from(p, s + 1)) {
                (Some(c), Some(args)) => {
                    assert forall|j: int| 0 <= j < t.len() implies (#[trigger] t[j]) is Str by {
                        if j > 0 {
                            assert(t[j] == t.drop_first()[j - 1]);
                        }
                    }
                    assert(texts(t.drop_first()) =~= texts(tail(p@, s + 1)));
                    Ok(IpcEvent::Mpv(IpcEventMpv::Command((c.clone(), args))))
                },
                (None, _) => Err(DecodeError::InvalidPayload(name.clone())),
                (_, None) => {
                    assert(!all_text(t)) by {
                        let j = choose|j: int| 0 <= j < t.len() - 1 && !(#[trigger] t.drop_first()[j] is Str);
                        assert(t[j + 1] == t.drop_first()[j]);
                    }
                    Err(DecodeError::InvalidPayload(name.clone()))
                },
            }
        } else {
            Err(DecodeError::InvalidPayload(name.clone()))
        }
    } else if str_eq(m, "player-observe-prop") {
        if n == 1 {
            assert(t[0] == p@[s as int]@);
            match p[s].as_str() {
                Some(prop) => Ok(IpcEvent::Mpv(IpcEventMpv::Observe(prop.clone()))),
                None => Err(DecodeError::InvalidPayload(name.clone())),
            }
        } else {
            Err(DecodeError::InvalidPayload(name.clone()))
        }
    } else if str_eq(m, "player-set-prop") {
        if n == 2 {
            assert(t[0] == p@[s as int]@);
            assert(t[1] == p@[s + 1]@);
            match p[s].as_str() {
                Some(prop) => match MpvProperty::from_json(prop.as_str(), &p[s + 1]) {
                    Ok(property) => Ok(IpcEvent::Mpv(IpcEventMpv::SetProperty(property))),
                    Err(_) => Err(DecodeError::InvalidPayload(name.clone())),
                },
                None => Err(DecodeError::InvalidPayload(name.clone())),
            }
        } else {
            Err(DecodeError::InvalidPayload(name.clone()))
        }
    } else if str_eq(m, "seek-hover") {
        if n == 3 {
            assert(t[0] == p@[s as int]@);
            assert(t[1] == p@[s + 1]@);
            assert(t[2] == p@[s + 2]@);
            match (p[s].as_str(), p[s + 1].as_str(), p[s + 2].as_str()) {
                (Some(seconds), Some(x), Some(y)) => {
                    assert(all_text(t));
                    match parse_i64(y.as_str()) {
                        Some(yv) => Ok(IpcEvent::SeekHover(seconds.clone(), x.clone(), yv)),
                        None => Err(DecodeError::InvalidPayload(name.clone())),
                    }
                },
                _ => Err(DecodeError::InvalidPayload(name.clone())),
            }
        } else {
            Err(DecodeError::InvalidPayload(name.clone()))
        }
    } else if str_eq(m, "seek-leave") {
        Ok(IpcEvent::SeekLeave)
    } else {
        Err(DecodeError::UnknownMethod(6, name.clone()))
    }
}

/// Decodes the parts of a request message.
pub fn decode_parts(id: u64, kind: u8, args: Option<&Json>) -> (r: Result<IpcEvent, DecodeError>)
    ensures
        result_view(r) == decode_spec(id, kind, match args {
            Some(a) => Some(a@),
            None => None,
        }),
{
    if kind == 3 {
        return Ok(IpcEvent::Init(id));
    }
    if kind != 6 && kind != 7 {
        return Err(DecodeError::UnknownKind(kind));
    }
    let a = match args {
        None => {
            return Err(DecodeError::MissingArgs);
        },
        Some(Json::Array(a)) => a,
        Some(_) => {
            return Err(DecodeError::InvalidArguments);
        },
    };
    let ghost av = view_items(a@);
    proof { lemma_view_items(a@); }
    assert(args.unwrap()@ == JsonView::Array(av));
    if a.len() == 0 {
        return Err(DecodeError::InvalidName);
    }
    assert(av[0] == a@[0]@);
    let name = match a[0].as_str() {
        Some(n) => n,
        None => {
            return Err(DecodeError::InvalidName);
        },
    };
    let m = name.as_str();
    if kind == 6 {
        if a.len() >= 2 {
            assert(av[1] == a@[1]@);
            if a.len() == 2 {
                if let Json::Array(inner) = &a[1] {
                    proof {
                        lemma_view_items(inner@);
                        assert(tail(inner@, 0) =~= view_items(inner@));
                    }
                    return decode_method_exec(id, name, inner, 0);
                }
            }
            assert(tail(a@, 1) =~= av.subrange(1, av.len() as int));
            decode_method_exec(id, name, a, 1)
        } else if str_eq(m, "quit") {
            Ok(IpcEvent::Quit)
        } else if str_eq(m, "seek-leave") {
            Ok(IpcEvent::SeekLeave)
        } else {
            Err(DecodeError::UnknownMethod(6, name.clone()))
        }
    } else if str_eq(m, "presence-update") {
        assert(tail(a@, 1) =~= av.drop_first());
        Ok(IpcEvent::PresenceUpdate(text_items_from(a, 1)))
    } else if str_eq(m, "presence-toggle") {
        let enabled = if a.len() >= 2 {
            assert(av[1] == a@[1]@);
            match &a[1] {
                Json::Bool(b) => *b,
                _ => false,
            }
        } else {
            false
        };
        Ok(IpcEvent::PresenceToggle(enabled))
    } else {
        Err(DecodeError::UnknownMethod(7, name.clone()))
    }
}

/// An inbound message: `{"id": .., "type": .., "args": ..}`.
#[derive(Debug)]
pub struct IpcMessageRequest {
    pub id: u64,
    pub kind: u8,
    pub args: Option<Json>,
}

/// The kind of a request: its `type` member, or else its `kind` member.
pub open spec fn kind_field(j: JsonView) -> Option<JsonView> {
    if field(j, "type"@) is Some {
        field(j, "type"@)
    } else {
        field(j, "kind"@)
    }
}

pub open spec fn number_u64(v: Option<JsonView>) -> Option<u64> {
    match v {
        Some(JsonView::Number(t)) => u64_of_text(t),
        _ => None,
    }
}

/// The arguments of a request; a `null` stands for none.
pub open spec fn args_field(j: JsonView) -> Option<JsonView> {
    match field(j, "args"@) {
        Some(JsonView::Null) => None,
        other => other,
    }
}

/// The event that a request message in JSON text stands for.
pub open spec fn parse_request_spec(text: Seq<char>) -> Result<EventView, DecodeErrorView> {
    match json_parse(text) {
        None => Err(DecodeErrorView::Malformed),
        Some(j) => match (number_u64(field(j, "id"@)), number_u64(kind_field(j))) {
            (Some(id), Some(kind)) => {
                if kind <= 255 {
                    decode_spec(id, kind as u8, args_field(j))
                } else {
                    Err(DecodeErrorView::Malformed)
                }
            },
            _ => Err(DecodeErrorView::Malformed),
        },
    }
}

fn number_member(j: &Json, key: &str) -> (r: Option<u64>)
    ensures
        r == number_u64(field(j@, key@)),
{
    match j.get(key) {
        Some(Json::Number(t)) => parse_u64(t.as_str()),
        _ => None,
    }
}

impl IpcEvent {
    /// The event a request stands for, or why it is dropped.
    pub fn from_request(request: &IpcMessageRequest) -> (r: Result<IpcEvent, DecodeError>)
        ensures
            result_view(r) == decode_spec(request.id, request.kind, match request.args {
                Some(a) => Some(a@),
                None => None,
            }),
    {
        decode_parts(request.id, request.kind, request.args.as_ref())
    }
}

/// Decodes a request message from its JSON text.
pub fn parse_request(data: &str) -> (r: Result<IpcEvent, DecodeError>)
    ensures
        result_view(r) == parse_request_spec(data@),
{
    let j = match parse_json(data) {
        Some(j) => j,
        None => {
            return Err(DecodeError::Malformed);
        },
    };
    let id = match number_member(&j, "id") {
        Some(id) => id,
        None => {
            return Err(DecodeError::Malformed);
        },
    };
    let kind = match j.get("type") {
        Some(_) => number_member(&j, "type"),
        None => number_member(&j, "kind"),
    };
    let kind = match kind {
        Some(k) => {
            if k > 255 {
                return Err(DecodeError::Malformed);
            }
            k as u8
        },
        None => {
            return Err(DecodeError::Malformed);
        },
    };
    let args = match j.get("args") {
        Some(Json::Null) => None,
        other => other,
    };
    decode_parts(id, kind, args)
}

/// An outbound message: `{"id", "type", "object", "data"?, "args"?}`.
#[derive(Debug)]
pub struct IpcMessageResponse {
    pub id: u64,
    pub kind: u8,
    pub object: String,
    pub data: Option<Json>,
    pub args: Option<Json>,
}

pub struct ResponseView {
    pub id: u64,
    pub kind: u8,
    pub object: Seq<char>,
    pub data: Option<JsonView>,
    pub args: Option<JsonView>,
}

pub open spec fn opt_view(j: Option<Json>) -> Option<JsonView> {
    match j {
        Some(v) => Some(v@),
        None => None,
    }
}

impl View for IpcMessageResponse {
    type V = ResponseView;

    open spec fn view(&self) -> ResponseView {
        ResponseView {
            id: self.id,
            kind: self.kind,
            object: self.object@,
            data: opt_view(self.data),
            args: opt_view(self.args),
        }
    }
}

pub const TRANSPORT_NAME: &'static str = "transport";
pub const SHELL_VERSION: &'static str = "0.1.0";

/// The capability descriptor that answers `Init`.
pub open spec fn init_descriptor() -> JsonView {
    JsonView::Object(seq![("transport"@, JsonView::Object(seq![
        ("properties"@, JsonView::Array(seq![
            JsonView::Array(seq![]),
            JsonView::Array(seq![JsonView::Str(""@), JsonView::Str("shellVersion"@), JsonView::Str(""@), JsonView::Str(SHELL_VERSION@)]),
        ])),
        ("signals"@, JsonView::Array(seq![])),
        ("methods"@, JsonView::Array(seq![JsonView::Array(seq![JsonView::Str("onEvent"@)])])),
    ]))])
}

/// A browser-side event named `name` with one payload value.
pub open spec fn signal(name: Seq<char>, value: JsonView) -> ResponseView {
    ResponseView {
        id: 1,
        kind: 1,
        object: TRANSPORT_NAME@,
        data: None,
        args: Some(JsonView::Array(seq![JsonView::Str(name), value])),
    }
}

/// The response message for an event; `None` for an event with no wire form.
pub open spec fn response_spec(e: EventView) -> Option<ResponseView> {
    match e {
        EventView::Init(id) => Some(ResponseView {
            id,
            kind: 3,
            object: TRANSPORT_NAME@,
            data: Some(init_descriptor()),
            args: None,
        }),
        EventView::Fullscreen(state) => Some(signal("win-visibility-changed"@, JsonView::Object(seq![
            ("visible"@, JsonView::Bool(true)),
            ("visibility"@, JsonView::Number("1"@)),
            ("isFullscreen"@, JsonView::Bool(state)),
        ]))),
        EventView::Visibility(state) => Some(signal("win-visibility-changed"@, JsonView::Object(seq![
            ("visible"@, JsonView::Bool(state)),
            ("visibility"@, JsonView::Number(if state { "1"@ } else { "0"@ })),
            ("isFullscreen"@, JsonView::Bool(false)),
        ]))),
        EventView::Minimized(state) => Some(signal("win-state-changed"@, JsonView::Object(seq![
            ("state"@, JsonView::Number(if state { "9"@ } else { "8"@ })),
        ]))),
        EventView::OpenMedia(link) => Some(signal("open-media"@, JsonView::Str(link))),
        EventView::Change(name, value) => Some(signal("mpv-prop-change"@, JsonView::Object(seq![
            ("name"@, JsonView::Str(name)),
            ("data"@, value_json(value)),
        ]))),
        EventView::Ended(error) => Some(signal("mpv-event-ended"@, JsonView::Object(seq![
            ("error"@, match error {
                Some(s) => JsonView::Str(s),
                None => JsonView::Null,
            }),
        ]))),
        _ => None,
    }
}

/// The JSON object a response is written as; absent parts are left out.
pub open spec fn response_json(r: ResponseView) -> JsonView {
    JsonView::Object(
        seq![
            ("id"@, JsonView::Number(decimal_text(r.id as nat))),
            ("type"@, JsonView::Number(decimal_text(r.kind as nat))),
            ("object"@, JsonView::Str(r.object)),
        ] + match r.data {
            Some(d) => seq![("data"@, d)],
            None => seq![],
        } + match r.args {
            Some(a) => seq![("args"@, a)],
            None => seq![],
        },
    )
}

fn init_descriptor_json() -> (r: Json)
    ensures
        r@ == init_descriptor(),
{
    let mut version: Vec<Json> = Vec::new();
    push_item(&mut version, text_json(""));
    push_item(&mut version, text_json("shellVersion"));
    push_item(&mut version, text_json(""));
    push_item(&mut version, text_json(SHELL_VERSION));
    assert(items_view(version@) =~= seq![JsonView::Str(""@), JsonView::Str("shellVersion"@), JsonView::Str(""@), JsonView::Str(SHELL_VERSION@)]);
    let empty = array_json(Vec::new());
    assert(items_view(Seq::<Json>::empty()) =~= Seq::<JsonView>::empty());
    assert(empty@ == JsonView::Array(seq![]));
    let mut properties: Vec<Json> = Vec::new();
    push_item(&mut properties, empty);
    push_item(&mut properties, array_json(version));
    assert(items_view(properties@) =~= seq![JsonView::Array(seq![]), JsonView::Array(seq![JsonView::Str(""@), JsonView::Str("shellVersion"@), JsonView::Str(""@), JsonView::Str(SHELL_VERSION@)])]);
    let properties = array_json(properties);
    let mut on_event: Vec<Json> = Vec::new();
    push_item(&mut on_event, text_json("onEvent"));
    assert(items_view(on_event@) =~= seq![JsonView::Str("onEvent"@)]);
    let mut methods: Vec<Json> = Vec::new();
    push_item(&mut methods, array_json(on_event));
    assert(items_view(methods@) =~= seq![JsonView::Array(seq![JsonView::Str("onEvent"@)])]);
    let methods = array_json(methods);
    let signals = array_json(Vec::new());
    assert(signals@ == JsonView::Array(seq![]));
    let mut transport: Vec<(String, Json)> = Vec::new();
    push_member(&mut transport, "properties", properties);
    push_member(&mut transport, "signals", signals);
    push_member(&mut transport, "methods", methods);
    let ghost tv = members_view(transport@);
    assert(tv =~= seq![("properties"@, properties@), ("signals"@, signals@), ("methods"@, methods@)]);
    let transport = object_json(transport);
    let mut top: Vec<(String, Json)> = Vec::new();
    push_member(&mut top, "transport", transport);
    assert(members_view(top@) =~= seq![("transport"@, transport@)]);
    let r = object_json(top);
    r
}

fn signal_response(name: &str, value: Json) -> (r: IpcMessageResponse)
    ensures
        r@ == signal(name@, value@),
{
    let ghost v = value@;
    let mut args: Vec<Json> = Vec::new();
    push_item(&mut args, text_json(name));
    push_item(&mut args, value);
    assert(items_view(args@) =~= seq![JsonView::Str(name@), v]);
    let r = IpcMessageResponse {
        id: 1,
        kind: 1,
        object: TRANSPORT_NAME.to_string(),
        data: None,
        args: Some(array_json(args)),
    };
    assert(r@.args == Some(JsonView::Array(seq![JsonView::Str(name@), v])));
    r
}

fn number_json(text: &str) -> (r: Json)
    ensures
        r@ == JsonView::Number(text@),
{
    Json::Number(text.to_string())
}

impl IpcMessageResponse {
    /// The response for an event; `None` for an event with no wire form.
    pub fn from_event(event: &IpcEvent) -> (r: Option<IpcMessageResponse>)
        ensures
            match response_spec(event@) {
                Some(v) => r matches Some(m) && m@ == v,
                None => r is None,
            },
    {
        match event {
            IpcEvent::Init(id) => Some(IpcMessageResponse {
                id: *id,
                kind: 3,
                object: TRANSPORT_NAME.to_string(),
                data: Some(init_descriptor_json()),
                args: None,
            }),
            IpcEvent::Fullscreen(state) => {
                let mut m: Vec<(String, Json)> = Vec::new();
                push_member(&mut m, "visible", Json::Bool(true));
                push_member(&mut m, "visibility", number_json("1"));
                push_member(&mut m, "isFullscreen", Json::Bool(*state));
                assert(members_view(m@) =~= seq![("visible"@, JsonView::Bool(true)), ("visibility"@, JsonView::Number("1"@)), ("isFullscreen"@, JsonView::Bool(*state))]);
                Some(signal_response("win-visibility-changed", object_json(m)))
            },
            IpcEvent::Visibility(state) => {
                let mut m: Vec<(String, Json)> = Vec::new();
                push_member(&mut m, "visible", Json::Bool(*state));
                push_member(&mut m, "visibility", number_json(if *state { "1" } else { "0" }));
                push_member(&mut m, "isFullscreen", Json::Bool(false));
                assert(members_view(m@) =~= seq![("visible"@, JsonView::Bool(*state)), ("visibility"@, JsonView::Number(if *state { "1"@ } else { "0"@ })), ("isFullscreen"@, JsonView::Bool(false))]);
                Some(signal_response("win-visibility-changed", object_json(m)))
            },
            IpcEvent::Minimized(state) => {
                let mut m: Vec<(String, Json)> = Vec::new();
                push_member(&mut m, "state", number_json(if *state { "9" } else { "8" }));
                assert(members_view(m@) =~= seq![("state"@, JsonView::Number(if *state { "9"@ } else { "8"@ }))]);
                Some(signal_response("win-state-changed", object_json(m)))
            },
            IpcEvent::OpenMedia(link) => Some(signal_response("open-media", text_json(link.as_str()))),
            IpcEvent::Mpv(IpcEventMpv::Change(property)) => {
                Some(signal_response("mpv-prop-change", property.to_json()))
            },
            IpcEvent::Mpv(IpcEventMpv::Ended(error)) => {
                let e = match error {
                    Some(s) => text_json(s.as_str()),
                    None => Json::Null,
                };
                let mut m: Vec<(String, Json)> = Vec::new();
                let ghost ev = e@;
                push_member(&mut m, "error", e);
                assert(members_view(m@) =~= seq![("error"@, ev)]);
                Some(signal_response("mpv-event-ended", object_json(m)))
            },
            _ => None,
        }
    }

    /// The message as a JSON object.
    pub fn to_json(&self) -> (r: Json)
        ensures
            r@ == response_json(self@),
    {
        let mut m: Vec<(String, Json)> = Vec::new();
        push_member(&mut m, "id", Json::Number(u64_text(self.id)));
        push_member(&mut m, "type", Json::Number(u64_text(self.kind as u64)));
        push_member(&mut m, "object", text_json(self.object.as_str()));
        let ghost base = members_view(m@);
        match &self.data {
            Some(d) => push_member(&mut m, "data", d.deep_copy()),
            None => {},
        }
        let ghost with_data = members_view(m@);
        match &self.args {
            Some(a) => push_member(&mut m, "args", a.deep_copy()),
            None => {},
        }
        assert(members_view(m@) =~= response_json(self@)->Object_0);
        object_json(m)
    }
}

/// The JSON text sent to the browser side for an event: its response
/// message, or `null` for an event with no wire form.
pub fn create_response(event: &IpcEvent) -> (r: String)
    ensures
        r@ == json_text(match response_spec(event@) {
            Some(v) => response_json(v),
            None => JsonView::Null,
        }),
{
    match IpcMessageResponse::from_event(event) {
        Some(message) => json_to_text(&message.to_json()),
        None => json_to_text(&Json::Null),
    }
}

/// Encoding `Init(id)` and decoding a request of kind 3 with that id name
/// the same event id: the response carries `id` back with kind 3, and the
/// request decodes to `Init(id)` whatever its arguments.
pub proof fn lemma_init_round_trip(id: u64, args: Option<JsonView>)
    ensures
        response_spec(EventView::Init(id)) matches Some(r) && r.id == id && r.kind == 3,
        decode_spec(id, 3, args) == Ok::<EventView, DecodeErrorView>(EventView::Init(id)),
{
}

} // verus!
