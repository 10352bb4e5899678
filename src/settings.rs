use vstd::prelude::*;

use vstd::utf8::encode_utf8_decode_utf8;

use crate::frame::BackendPixelTag;

verus! {

pub const DEFAULT_FPS: u32 = 25;

pub const DEFAULT_SHOW_CURSOR: bool = true;

pub const DEFAULT_PERFORM_INTERNAL_PREROLL: bool = false;

/// The element's configuration. It is read when a backend is built, so a
/// change takes effect on the next start.
#[derive(Clone, Copy, Debug, PartialEq, Eq, Structural)]
pub struct Settings {
    pub show_cursor: bool,
    pub fps: u32,
    pub perform_internal_preroll: bool,
}

/// The element's properties.
#[derive(Clone, Copy, Debug, PartialEq, Eq, Structural)]
pub enum PropertyId {
    /// `fps`: the rate to capture at, at least one frame per second.
    Fps,
    /// `show-cursor`: whether the cursor is captured.
    ShowCursor,
    /// `perform-internal-preroll`: whether one frame is pulled at start to
    /// learn the format before negotiation.
    PerformInternalPreroll,
}

/// A property value.
#[derive(Clone, Copy, Debug, PartialEq, Eq, Structural)]
pub enum PropertyValue {
    UInt(u32),
    Bool(bool),
}

/// Why a property write was refused.
#[derive(Clone, Copy, Debug, PartialEq, Eq, Structural)]
pub enum PropertyError {
    /// The value's type is not the property's.
    WrongType,
    /// The value lies outside the property's range.
    OutOfRange,
}

/// The options a capture backend is built with.
#[derive(Clone, Copy, Debug, PartialEq, Eq, Structural)]
pub struct BackendOptions {
    pub fps: u32,
    pub show_cursor: bool,
    pub show_highlight: bool,
    /// The layout the backend is asked to deliver.
    pub output_layout: BackendPixelTag,
}

/// The property a name refers to.
pub open spec fn property_of_name(name: Seq<char>) -> Option<PropertyId> {
    if name == "fps"@ {
        Some(PropertyId::Fps)
    } else if name == "show-cursor"@ {
        Some(PropertyId::ShowCursor)
    } else if name == "perform-internal-preroll"@ {
        Some(PropertyId::PerformInternalPreroll)
    } else {
        None
    }
}

/// Whether two strings are the same, compared by their UTF-8 bytes.
fn str_eq(a: &str, b: &str) -> (r: bool)
    ensures
        r == (a@ == b@),
{
    let r = bytes_eq(a.as_bytes(), b.as_bytes());
    proof {
        encode_utf8_decode_utf8(a@);
        encode_utf8_decode_utf8(b@);
    }
    r
}

fn bytes_eq(a: &[u8], b: &[u8]) -> (r: bool)
    ensures
        r == (a@ == b@),
{
    if a.len() != b.len() {
        return false;
    }
    let mut i: usize = 0;
    while i < a.len()
        invariant
            a@.len() == b@.len(),
            i <= a@.len(),
            a@.subrange(0, i as int) == b@.subrange(0, i as int),
        decreases a@.len() - i,
    {
        if a[i] != b[i] {
            assert(a@[i as int] != b@[i as int]);
            return false;
        }
        assert(a@.subrange(0, i + 1) =~= a@.subrange(0, i as int).push(a@[i as int]));
        assert(b@.subrange(0, i + 1) =~= b@.subrange(0, i as int).push(b@[i as int]));
        i = i + 1;
    }
    assert(a@ =~= a@.subrange(0, i as int));
    assert(b@ =~= b@.subrange(0, i as int));
    true
}

impl PropertyId {
    /// The name the property is known by.
    pub fn name(&self) -> (r: &'static str)
        ensures
            property_of_name(r@) == Some(*self),
    {
        proof {
            reveal_strlit("fps");
            reveal_strlit("show-cursor");
            reveal_strlit("perform-internal-preroll");
            assert("show-cursor"@.len() != "fps"@.len());
            assert("perform-internal-preroll"@.len() != "fps"@.len());
            assert("perform-internal-preroll"@.len() != "show-cursor"@.len());
        }
        match self {
            PropertyId::Fps => "fps",
            PropertyId::ShowCursor => "show-cursor",
            PropertyId::PerformInternalPreroll => "perform-internal-preroll",
        }
    }

    /// The value the property has on a new element.
    pub fn default_value(&self) -> (r: PropertyValue)
        ensures
            r == Settings::defaults().get_spec(*self),
    {
        match self {
            PropertyId::Fps => PropertyValue::UInt(DEFAULT_FPS),
            PropertyId::ShowCursor => PropertyValue::Bool(DEFAULT_SHOW_CURSOR),
            PropertyId::PerformInternalPreroll => PropertyValue::Bool(
                DEFAULT_PERFORM_INTERNAL_PREROLL,
            ),
        }
    }

    /// Looks a property up by its name.
    pub fn from_name(name: &str) -> (r: Option<PropertyId>)
        ensures
            r == property_of_name(name@),
    {
        if str_eq(name, "fps") {
            Some(PropertyId::Fps)
        } else if str_eq(name, "show-cursor") {
            Some(PropertyId::ShowCursor)
        } else if str_eq(name, "perform-internal-preroll") {
            Some(PropertyId::PerformInternalPreroll)
        } else {
            None
        }
    }
}

impl Settings {
    /// The configuration a new element starts with.
    pub open spec fn defaults() -> Settings {
        Settings {
            show_cursor: DEFAULT_SHOW_CURSOR,
            fps: DEFAULT_FPS,
            perform_internal_preroll: DEFAULT_PERFORM_INTERNAL_PREROLL,
        }
    }

    /// The frame rate is at least one frame per second.
    pub open spec fn wf(self) -> bool {
        self.fps >= 1
    }

    /// The value a property reads as.
    pub open spec fn get_spec(self, id: PropertyId) -> PropertyValue {
        match id {
            PropertyId::Fps => PropertyValue::UInt(self.fps),
            PropertyId::ShowCursor => PropertyValue::Bool(self.show_cursor),
            PropertyId::PerformInternalPreroll => PropertyValue::Bool(
                self.perform_internal_preroll,
            ),
        }
    }

    /// Why writing `value` to property `id` is refused, if it is.
    pub open spec fn write_error(id: PropertyId, value: PropertyValue) -> Option<PropertyError> {
        match (id, value) {
            (PropertyId::Fps, PropertyValue::UInt(v)) => if v >= 1 {
                None
            } else {
                Some(PropertyError::OutOfRange)
            },
            (PropertyId::Fps, _) => Some(PropertyError::WrongType),
            (_, PropertyValue::Bool(_)) => None,
            (_, _) => Some(PropertyError::WrongType),
        }
    }

    /// The configuration after an accepted write of `value` to `id`.
    pub open spec fn set_spec(self, id: PropertyId, value: PropertyValue) -> Settings {
        match (id, value) {
            (PropertyId::Fps, PropertyValue::UInt(v)) => Settings { fps: v, ..self },
            (PropertyId::ShowCursor, PropertyValue::Bool(b)) => Settings { show_cursor: b, ..self },
            (PropertyId::PerformInternalPreroll, PropertyValue::Bool(b)) => Settings {
                perform_internal_preroll: b,
                ..self
            },
            (_, _) => self,
        }
    }

    /// Reads a property.
    pub fn property(&self, id: PropertyId) -> (r: PropertyValue)
        ensures
            r == self.get_spec(id),
    {
        match id {
            PropertyId::Fps => PropertyValue::UInt(self.fps),
            PropertyId::ShowCursor => PropertyValue::Bool(self.show_cursor),
            PropertyId::PerformInternalPreroll => PropertyValue::Bool(self.perform_internal_preroll),
        }
    }

    /// Writes a property. A value of the wrong type, or a frame rate of
    /// zero, is refused and leaves the configuration as it was.
    pub fn set_property(&mut self, id: PropertyId, value: PropertyValue) -> (r: Result<
        (),
        PropertyError,
    >)
        ensures
            match Settings::write_error(id, value) {
                Some(e) => r == Err::<(), PropertyError>(e) && *final(self) == *old(self),
                None => r == Ok::<(), PropertyError>(()) && *final(self) == old(self).set_spec(
                    id,
                    value,
                ),
            },
            old(self).wf() ==> final(self).wf(),
    {
        match (id, value) {
            (PropertyId::Fps, PropertyValue::UInt(v)) => {
                if v < 1 {
                    return Err(PropertyError::OutOfRange);
                }
                self.fps = v;
                Ok(())
            },
            (PropertyId::ShowCursor, PropertyValue::Bool(b)) => {
                self.show_cursor = b;
                Ok(())
            },
            (PropertyId::PerformInternalPreroll, PropertyValue::Bool(b)) => {
                self.perform_internal_preroll = b;
                Ok(())
            },
            (_, _) => Err(PropertyError::WrongType),
        }
    }

    /// The options to build a backend with: the configured rate and cursor,
    /// highlighting on, and frames asked for in the blue-green-red-zero
    /// layout.
    pub fn backend_options(&self) -> (r: BackendOptions)
        ensures
            r == (BackendOptions {
                fps: self.fps,
                show_cursor: self.show_cursor,
                show_highlight: true,
                output_layout: BackendPixelTag::Bgr0,
            }),
    {
        BackendOptions {
            fps: self.fps,
            show_cursor: self.show_cursor,
            show_highlight: true,
            output_layout: BackendPixelTag::Bgr0,
        }
    }
}

impl Default for Settings {
    fn default() -> (r: Settings)
        ensures
            r == Settings::defaults(),
            r.wf(),
    {
        Settings {
            show_cursor: DEFAULT_SHOW_CURSOR,
            fps: DEFAULT_FPS,
            perform_internal_preroll: DEFAULT_PERFORM_INTERNAL_PREROLL,
        }
    }
}

} // verus!
