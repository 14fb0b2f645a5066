//! Player properties: three closed name classes and values typed by them.

use vstd::prelude::*;
use crate::json::{Json, JsonView, json_parse, parse_json, str_eq};

verus! {

/// The value type that a player property name belongs to.
#[derive(Debug, Clone, Copy, PartialEq, Eq, Structural)]
pub enum PropertyClass {
    Float,
    Bool,
    Text,
}

pub open spec fn is_float_property(name: Seq<char>) -> bool {
    name == "time-pos"@ || name == "duration"@ || name == "volume"@ || name == "speed"@
        || name == "sub-pos"@ || name == "sub-scale"@ || name == "sub-delay"@
}

pub open spec fn is_bool_property(name: Seq<char>) -> bool {
    name == "pause"@ || name == "buffering"@ || name == "seeking"@ || name == "osc"@
        || name == "input-default-bindings"@ || name == "input-vo-keyboard"@
}

pub open spec fn is_text_property(name: Seq<char>) -> bool {
    name == "path"@ || name == "mpv-version"@ || name == "ffmpeg-version"@ || name == "hwdec"@
        || name == "vo"@ || name == "track-list"@ || name == "sub-color"@
        || name == "sub-back-color"@ || name == "sub-border-color"@ || name == "sid"@
        || name == "aid"@ || name == "mute"@
}

/// The class of a property name; `None` for a name outside the three sets.
pub open spec fn class_of(name: Seq<char>) -> Option<PropertyClass> {
    if is_float_property(name) {
        Some(PropertyClass::Float)
    } else if is_bool_property(name) {
        Some(PropertyClass::Bool)
    } else if is_text_property(name) {
        Some(PropertyClass::Text)
    } else {
        None
    }
}

pub fn property_class(name: &str) -> (r: Option<PropertyClass>)
    ensures
        r == class_of(name@),
{
    if str_eq(name, "time-pos") || str_eq(name, "duration") || str_eq(name, "volume")
        || str_eq(name, "speed") || str_eq(name, "sub-pos") || str_eq(name, "sub-scale")
        || str_eq(name, "sub-delay") {
        Some(PropertyClass::Float)
    } else if str_eq(name, "pause") || str_eq(name, "buffering") || str_eq(name, "seeking")
        || str_eq(name, "osc") || str_eq(name, "input-default-bindings")
        || str_eq(name, "input-vo-keyboard") {
        Some(PropertyClass::Bool)
    } else if str_eq(name, "path") || str_eq(name, "mpv-version") || str_eq(name, "ffmpeg-version")
        || str_eq(name, "hwdec") || str_eq(name, "vo") || str_eq(name, "track-list")
        || str_eq(name, "sub-color") || str_eq(name, "sub-back-color")
        || str_eq(name, "sub-border-color") || str_eq(name, "sid") || str_eq(name, "aid")
        || str_eq(name, "mute") {
        Some(PropertyClass::Text)
    } else {
        None
    }
}

/// A property value. A float keeps the decimal text of its JSON number.
#[derive(Debug)]
pub enum MpvPropertyValue {
    Float(String),
    Bool(bool),
    Text(String),
}

impl View for MpvPropertyValue {
    type V = JsonView;

    /// The value as a plain JSON scalar.
    open spec fn view(&self) -> JsonView {
        match self {
            MpvPropertyValue::Float(t) => JsonView::Number(t@),
            MpvPropertyValue::Bool(b) => JsonView::Bool(*b),
            MpvPropertyValue::Text(s) => JsonView::Str(s@),
        }
    }
}

pub open spec fn class_of_value(v: MpvPropertyValue) -> PropertyClass {
    match v {
        MpvPropertyValue::Float(_) => PropertyClass::Float,
        MpvPropertyValue::Bool(_) => PropertyClass::Bool,
        MpvPropertyValue::Text(_) => PropertyClass::Text,
    }
}

/// Whether a JSON value can stand for a property of the given class.
pub open spec fn fits_class(class: PropertyClass, v: JsonView) -> bool {
    match class {
        PropertyClass::Float => v is Number,
        PropertyClass::Bool => v is Bool,
        PropertyClass::Text => v is Str,
    }
}

/// The JSON that a property value is written as: a text that is itself JSON
/// is written as the value it holds.
pub open spec fn value_json(v: JsonView) -> JsonView {
    match v {
        JsonView::Str(s) => match json_parse(s) {
            Some(inner) => inner,
            None => v,
        },
        _ => v,
    }
}

impl MpvPropertyValue {
    /// The value of class `class` that a JSON scalar holds; `None` when the
    /// JSON value is of another type.
    pub fn from_json(class: PropertyClass, value: &Json) -> (r: Option<MpvPropertyValue>)
        ensures
            r is Some <==> fits_class(class, value@),
            r matches Some(v) ==> v@ == value@ && class_of_value(v) == class,
    {
        match (class, value) {
            (PropertyClass::Float, Json::Number(t)) => Some(MpvPropertyValue::Float(t.clone())),
            (PropertyClass::Bool, Json::Bool(b)) => Some(MpvPropertyValue::Bool(*b)),
            (PropertyClass::Text, Json::Str(s)) => Some(MpvPropertyValue::Text(s.clone())),
            _ => None,
        }
    }

    pub fn class(&self) -> (r: PropertyClass)
        ensures
            r == class_of_value(*self),
    {
        match self {
            MpvPropertyValue::Float(_) => PropertyClass::Float,
            MpvPropertyValue::Bool(_) => PropertyClass::Bool,
            MpvPropertyValue::Text(_) => PropertyClass::Text,
        }
    }

    /// The JSON form sent to the browser side.
    pub fn to_json(&self) -> (r: Json)
        ensures
            r@ == value_json(self@),
    {
        match self {
            MpvPropertyValue::Float(t) => Json::Number(t.clone()),
            MpvPropertyValue::Bool(b) => Json::Bool(*b),
            MpvPropertyValue::Text(s) => match parse_json(s.as_str()) {
                Some(inner) => inner,
                None => Json::Str(s.clone()),
            },
        }
    }
}

/// A named player property with its typed value.
#[derive(Debug)]
pub struct MpvProperty(pub String, pub MpvPropertyValue);

/// Why a name and a JSON value do not make a property.
#[derive(Debug, Clone, Copy, PartialEq, Eq, Structural)]
pub enum PropertyError {
    UnknownName,
    WrongType,
}

impl MpvProperty {
    pub fn name(&self) -> (r: &str)
        ensures
            r@ == self.0@,
    {
        self.0.as_str()
    }

    pub fn value(&self) -> (r: &MpvPropertyValue)
        ensures
            *r == self.1,
    {
        &self.1
    }

    /// The property `name` holding `value`, checked against the name's class.
    pub fn from_json(name: &str, value: &Json) -> (r: Result<MpvProperty, PropertyError>)
        ensures
            class_of(name@) is None ==> r == Err::<MpvProperty, PropertyError>(PropertyError::UnknownName),
            class_of(name@) matches Some(c) ==> {
                &&& !fits_class(c, value@) ==> r == Err::<MpvProperty, PropertyError>(PropertyError::WrongType)
                &&& fits_class(c, value@) ==> (r matches Ok(p) && p.0@ == name@ && p.1@ == value@
                    && class_of_value(p.1) == c)
            },
    {
        match property_class(name) {
            None => Err(PropertyError::UnknownName),
            Some(class) => match MpvPropertyValue::from_json(class, value) {
                Some(v) => Ok(MpvProperty(name.to_string(), v)),
                None => Err(PropertyError::WrongType),
            },
        }
    }

    /// `{"name": name, "data": value}`, as the browser side reads a property.
    pub fn to_json(&self) -> (r: Json)
        ensures
            r@ == JsonView::Object(seq![("name"@, JsonView::Str(self.0@)), ("data"@, value_json(self.1@))]),
    {
        let mut members: Vec<(String, Json)> = Vec::new();
        members.push(("name".to_string(), Json::Str(self.0.clone())));
        members.push(("data".to_string(), self.1.to_json()));
        proof {
            reveal_strlit("name");
            reveal_strlit("data");
            crate::json::lemma_view_members(members@);
        }
        let ghost expected = seq![("name"@, JsonView::Str(self.0@)), ("data"@, value_json(self.1@))];
        assert(crate::json::view_members(members@) =~= expected);
        Json::Object(members)
    }
}

} // verus!
