//! The player bridge: native engine events mapped to typed player events,
//! and the engine calls that requests from the browser side turn into.

use vstd::prelude::*;
use crate::json::JsonView;
use crate::property::{class_of, class_of_value, property_class, MpvProperty, MpvPropertyValue, PropertyClass, PropertyError};

verus! {

/// The engine's end-of-file reason for a quit request.
pub const END_REASON_QUIT: u32 = 3;

/// The engine's end-of-file reason for a playback failure.
pub const END_REASON_ERROR: u32 = 4;

/// Why playback ended with an error.
#[derive(Debug, Clone, Copy, PartialEq, Eq, Structural)]
pub enum EndError {
    Quit,
    General,
}

pub open spec fn end_error_of(code: u32) -> Option<EndError> {
    if code == END_REASON_QUIT {
        Some(EndError::Quit)
    } else if code == END_REASON_ERROR {
        Some(EndError::General)
    } else {
        None
    }
}

impl EndError {
    /// The key of the localized message shown for this error.
    pub fn message_key(&self) -> (r: &'static str)
        ensures
            *self == EndError::Quit ==> r@ == "player_error_quit"@,
            *self == EndError::General ==> r@ == "player_error_general"@,
    {
        match self {
            EndError::Quit => "player_error_quit",
            EndError::General => "player_error_general",
        }
    }
}

/// A property value as the engine reports it. A double keeps the decimal
/// text of its JSON number.
#[derive(Debug)]
pub enum NativeValue {
    Double(String),
    Flag(bool),
    Text(String),
    Other,
}

/// An event of the native engine.
#[derive(Debug)]
pub enum NativeEvent {
    StartFile,
    EndFile(u32),
    PropertyChange(String, NativeValue),
    Other,
}

#[derive(Debug)]
pub enum PlayerEvent {
    Start,
    Stop(Option<EndError>),
    Update,
    PropertyChange(MpvProperty),
}

impl PlayerEvent {
    /// The player event a native event stands for; `None` for events and
    /// value types the bridge does not carry.
    pub fn from_native(event: NativeEvent) -> (r: Option<PlayerEvent>)
        ensures
            match event {
                NativeEvent::StartFile => r matches Some(PlayerEvent::Start),
                NativeEvent::EndFile(code) => (r matches Some(PlayerEvent::Stop(e)) && e == end_error_of(code)),
                NativeEvent::PropertyChange(name, value) => match value {
                    NativeValue::Double(t) => (r matches Some(PlayerEvent::PropertyChange(p))
                        && p.0@ == name@ && p.1@ == JsonView::Number(t@)),
                    NativeValue::Flag(b) => (r matches Some(PlayerEvent::PropertyChange(p))
                        && p.0@ == name@ && p.1@ == JsonView::Bool(b)),
                    NativeValue::Text(s) => (r matches Some(PlayerEvent::PropertyChange(p))
                        && p.0@ == name@ && p.1@ == JsonView::Str(s@)),
                    NativeValue::Other => r is None,
                },
                NativeEvent::Other => r is None,
            },
    {
        match event {
            NativeEvent::StartFile => Some(PlayerEvent::Start),
            NativeEvent::EndFile(code) => {
                let error = if code == END_REASON_QUIT {
                    Some(EndError::Quit)
                } else if code == END_REASON_ERROR {
                    Some(EndError::General)
                } else {
                    None
                };
                Some(PlayerEvent::Stop(error))
            },
            NativeEvent::PropertyChange(name, value) => match value {
                NativeValue::Double(t) => Some(PlayerEvent::PropertyChange(MpvProperty(name, MpvPropertyValue::Float(t)))),
                NativeValue::Flag(b) => Some(PlayerEvent::PropertyChange(MpvProperty(name, MpvPropertyValue::Bool(b)))),
                NativeValue::Text(s) => Some(PlayerEvent::PropertyChange(MpvProperty(name, MpvPropertyValue::Text(s)))),
                NativeValue::Other => None,
            },
            NativeEvent::Other => None,
        }
    }
}

/// A call for the host to make on the engine.
#[derive(Debug)]
pub enum PlayerAction {
    Command(String, Vec<String>),
    Observe(String, PropertyClass),
    SetProperty(MpvProperty),
    Render { fbo: u32, width: i32, height: i32 },
    ReportSwap,
}

/// What the bridge knows of the engine: whether it runs, and whether its
/// render binding is set up.
#[derive(Debug, Clone, Copy, PartialEq, Eq, Structural)]
pub struct Player {
    pub engine_ready: bool,
    pub render_ready: bool,
}

impl Player {
    /// A bridge with no engine yet.
    pub fn new() -> (r: Player)
        ensures
            !r.engine_ready,
            !r.render_ready,
    {
        Player { engine_ready: false, render_ready: false }
    }

    /// The engine has been constructed.
    pub fn engine_started(&mut self)
        ensures
            final(self).engine_ready,
            final(self).render_ready == old(self).render_ready,
    {
        self.engine_ready = true;
    }

    /// The render binding has been (re)created; without an engine there is
    /// nothing to bind and nothing changes.
    pub fn setup(&mut self)
        ensures
            final(self).engine_ready == old(self).engine_ready,
            final(self).render_ready == old(self).engine_ready,
    {
        self.render_ready = self.engine_ready;
    }

    /// The engine and its binding are gone; later requests do nothing.
    pub fn stop(&mut self)
        ensures
            !final(self).engine_ready,
            !final(self).render_ready,
    {
        self.engine_ready = false;
        self.render_ready = false;
    }

    /// A free-form engine command; nothing without an engine.
    pub fn command(&self, name: String, args: Vec<String>) -> (r: Option<PlayerAction>)
        ensures
            !self.engine_ready ==> r is None,
            self.engine_ready ==> (r matches Some(PlayerAction::Command(n, a)) && n == name && a == args),
    {
        if self.engine_ready {
            Some(PlayerAction::Command(name, args))
        } else {
            None
        }
    }

    /// Observes a property by its class; unknown names are ignored.
    pub fn observe_property(&self, name: String) -> (r: Option<PlayerAction>)
        ensures
            !self.engine_ready || class_of(name@) is None ==> r is None,
            self.engine_ready && class_of(name@) is Some ==> (r matches Some(PlayerAction::Observe(n, c))
                && n == name && Some(c) == class_of(name@)),
    {
        if !self.engine_ready {
            return None;
        }
        match property_class(name.as_str()) {
            Some(class) => Some(PlayerAction::Observe(name, class)),
            None => None,
        }
    }

    /// Sets a property after checking its value against the name's class.
    pub fn set_property(&self, property: MpvProperty) -> (r: Result<Option<PlayerAction>, PropertyError>)
        ensures
            class_of(property.0@) is None ==> r == Err::<Option<PlayerAction>, PropertyError>(PropertyError::UnknownName),
            class_of(property.0@) matches Some(c) && c != class_of_value(property.1)
                ==> r == Err::<Option<PlayerAction>, PropertyError>(PropertyError::WrongType),
            class_of(property.0@) == Some(class_of_value(property.1)) && !self.engine_ready ==> r matches Ok(None),
            class_of(property.0@) == Some(class_of_value(property.1)) && self.engine_ready
                ==> (r matches Ok(Some(PlayerAction::SetProperty(p))) && p == property),
    {
        match property_class(property.name()) {
            None => Err(PropertyError::UnknownName),
            Some(class) => {
                if class != property.1.class() {
                    Err(PropertyError::WrongType)
                } else if self.engine_ready {
                    Ok(Some(PlayerAction::SetProperty(property)))
                } else {
                    Ok(None)
                }
            },
        }
    }

    /// Draws the current video frame into `fbo`; nothing before setup.
    pub fn render(&self, fbo: u32, width: i32, height: i32) -> (r: Option<PlayerAction>)
        ensures
            !self.render_ready ==> r is None,
            self.render_ready ==> (r matches Some(PlayerAction::Render { fbo: f, width: w, height: h })
                && f == fbo && w == width && h == height),
    {
        if self.render_ready {
            Some(PlayerAction::Render { fbo, width, height })
        } else {
            None
        }
    }

    /// Tells the engine a frame was presented; nothing before setup.
    pub fn report_swap(&self) -> (r: Option<PlayerAction>)
        ensures
            !self.render_ready ==> r is None,
            self.render_ready ==> r matches Some(PlayerAction::ReportSwap),
    {
        if self.render_ready {
            Some(PlayerAction::ReportSwap)
        } else {
            None
        }
    }
}

} // verus!
