//! The parameters of a run, fixed once they are loaded.

use vstd::prelude::*;
use crate::document::{
    field_integer, field_text, integer_field, parse_document, parsed_document, text_field,
};

verus! {

/// Base speed used when the configuration names none.
pub const DEFAULT_BASE_SPEED: i32 = 5;

/// Shift multiplier used when the configuration names none.
pub const DEFAULT_SHIFT_MULTIPLIER: i32 = 3;

/// Path of the keyboard device used when the configuration names none.
pub open spec fn default_keyboard_device() -> Seq<char> {
    "/dev/input/event0"@
}

/// Where the keyboard is, how far one tick moves the pointer along an active
/// axis, and by how much the modifier multiplies that.
#[derive(Clone, Debug)]
pub struct Config {
    pub keyboard_device: String,
    pub base_speed: i32,
    pub shift_multiplier: i32,
}

/// A configuration as plain mathematical values.
pub struct ConfigView {
    pub keyboard_device: Seq<char>,
    pub base_speed: int,
    pub shift_multiplier: int,
}

impl ConfigView {
    /// The configuration in which every field has its default.
    pub open spec fn defaults() -> ConfigView {
        ConfigView {
            keyboard_device: default_keyboard_device(),
            base_speed: DEFAULT_BASE_SPEED as int,
            shift_multiplier: DEFAULT_SHIFT_MULTIPLIER as int,
        }
    }
}

impl View for Config {
    type V = ConfigView;

    open spec fn view(&self) -> ConfigView {
        ConfigView {
            keyboard_device: self.keyboard_device@,
            base_speed: self.base_speed as int,
            shift_multiplier: self.shift_multiplier as int,
        }
    }
}

impl Default for Config {
    /// The configuration of a run that was given no file.
    fn default() -> (config: Self)
        ensures
            config@ == ConfigView::defaults(),
    {
        Config {
            keyboard_device: "/dev/input/event0".to_owned(),
            base_speed: DEFAULT_BASE_SPEED,
            shift_multiplier: DEFAULT_SHIFT_MULTIPLIER,
        }
    }
}

/// How a configuration came about.
#[derive(Clone, Copy, Debug, PartialEq, Eq, Structural)]
pub enum ConfigOrigin {
    /// There was no text to read: every field has its default.
    NoFile,
    /// The text is no TOML document: every field has its default.
    Unparsable,
    /// The text was parsed and each field taken from it or defaulted.
    Document,
}

/// Whether an integer can serve as a speed or a multiplier: it is positive
/// and no larger than the largest movement a pointer takes.
pub open spec fn is_usable_number(value: i64) -> bool {
    1 <= value <= i32::MAX
}

/// The number a field stands for: the field's own value where it is there
/// and usable, the default in every other case. Zero, a negative number and
/// a number that is too large count as malformed.
pub open spec fn number_or_default(field: Option<i64>, default: i32) -> int {
    match field {
        Some(value) if is_usable_number(value) => value as int,
        _ => default as int,
    }
}

/// The configuration that three optional fields stand for: each field that
/// is there and well-formed is taken, every other gets its default.
pub open spec fn config_from_fields(
    keyboard_device: Option<Seq<char>>,
    base_speed: Option<i64>,
    shift_multiplier: Option<i64>,
) -> ConfigView {
    ConfigView {
        keyboard_device: match keyboard_device {
            Some(path) => path,
            None => default_keyboard_device(),
        },
        base_speed: number_or_default(base_speed, DEFAULT_BASE_SPEED),
        shift_multiplier: number_or_default(shift_multiplier, DEFAULT_SHIFT_MULTIPLIER),
    }
}

/// The configuration a parsed document stands for. A field counts as there
/// only if the document has an entry of its name and of its kind: a string
/// for `keyboard_device`, a positive integer within range for the other
/// two.
pub open spec fn config_of_document(document: toml::Value) -> ConfigView {
    config_from_fields(
        field_text(document, "keyboard_device"@),
        field_integer(document, "base_speed"@),
        field_integer(document, "shift_multiplier"@),
    )
}

/// The configuration an optional text stands for.
pub open spec fn config_of_text(text: Option<Seq<char>>) -> ConfigView {
    match text {
        None => ConfigView::defaults(),
        Some(t) => match parsed_document(t) {
            None => ConfigView::defaults(),
            Some(document) => config_of_document(document),
        },
    }
}

/// How the configuration of an optional text came about.
pub open spec fn origin_of_text(text: Option<Seq<char>>) -> ConfigOrigin {
    match text {
        None => ConfigOrigin::NoFile,
        Some(t) => match parsed_document(t) {
            None => ConfigOrigin::Unparsable,
            Some(_) => ConfigOrigin::Document,
        },
    }
}

/// The view of an optional string.
pub open spec fn text_view(text: Option<String>) -> Option<Seq<char>> {
    match text {
        Some(s) => Some(s@),
        None => None,
    }
}

/// The view of an optional string slice.
pub open spec fn str_view(text: Option<&str>) -> Option<Seq<char>> {
    match text {
        Some(s) => Some(s@),
        None => None,
    }
}

/// Picks the number of a field: its value where it is there and usable, the
/// default otherwise.
fn usable_or(field: Option<i64>, default: i32) -> (number: i32)
    ensures
        number == number_or_default(field, default),
{
    match field {
        Some(value) => {
            if 1 <= value && value <= i32::MAX as i64 {
                value as i32
            } else {
                default
            }
        },
        None => default,
    }
}

impl Config {
    /// Builds a configuration from the fields that were found, filling each
    /// gap with its default. A speed or multiplier that is not a positive
    /// number within range is a gap too, so both numbers of the result are
    /// positive.
    pub fn from_fields(
        keyboard_device: Option<String>,
        base_speed: Option<i64>,
        shift_multiplier: Option<i64>,
    ) -> (config: Config)
        ensures
            config@ == config_from_fields(
                text_view(keyboard_device),
                base_speed,
                shift_multiplier,
            ),
            config.base_speed >= 1,
            config.shift_multiplier >= 1,
    {
        let keyboard_device = match keyboard_device {
            Some(path) => path,
            None => "/dev/input/event0".to_owned(),
        };
        let base_speed = usable_or(base_speed, DEFAULT_BASE_SPEED);
        let shift_multiplier = usable_or(shift_multiplier, DEFAULT_SHIFT_MULTIPLIER);
        Config { keyboard_device, base_speed, shift_multiplier }
    }

    /// Builds a configuration from a parsed document. A field that is
    /// missing, of the wrong kind, or a number that is not positive or does
    /// not fit gets its default; the others are still taken.
    pub fn from_document(document: &toml::Value) -> (config: Config)
        ensures
            config@ == config_of_document(*document),
            config.base_speed >= 1,
            config.shift_multiplier >= 1,
    {
        let keyboard_device = text_field(document, "keyboard_device");
        let base_speed = integer_field(document, "base_speed");
        let shift_multiplier = integer_field(document, "shift_multiplier");
        Config::from_fields(keyboard_device, base_speed, shift_multiplier)
    }
}

/// Loads the configuration from the text of the configuration file, `None`
/// standing for a file that was not named or could not be read. Never
/// fails: a text that is no TOML document gives the defaults, and the
/// second component says so.
pub fn load_config(text: Option<&str>) -> (loaded: (Config, ConfigOrigin))
    ensures
        loaded.0@ == config_of_text(str_view(text)),
        loaded.1 == origin_of_text(str_view(text)),
        loaded.0.base_speed >= 1,
        loaded.0.shift_multiplier >= 1,
{
    match text {
        None => (Config::default(), ConfigOrigin::NoFile),
        Some(t) => match parse_document(t) {
            Err(_) => (Config::default(), ConfigOrigin::Unparsable),
            Ok(document) => (Config::from_document(&document), ConfigOrigin::Document),
        },
    }
}

/// Whatever the text, the loaded speed and multiplier are positive and fit
/// the pointer's range.
pub proof fn lemma_loaded_numbers_are_positive(text: Option<Seq<char>>)
    ensures
        1 <= config_of_text(text).base_speed <= i32::MAX,
        1 <= config_of_text(text).shift_multiplier <= i32::MAX,
{
}

/// A usable number is taken as written; any other number gives the default.
pub proof fn lemma_number_is_kept_or_defaulted(value: i64, default: i32)
    ensures
        is_usable_number(value) ==> number_or_default(Some(value), default) == value,
        !is_usable_number(value) ==> number_or_default(Some(value), default) == default,
        number_or_default(None, default) == default,
{
}

} // verus!
