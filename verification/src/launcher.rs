//! Launcher-wide configuration: interface language, temporary directory,
//! download speed limit and game edition.

use vstd::prelude::*;
use vstd::string::StrSliceExecFns;
use crate::json::ConfigValue;
use crate::text::str_eq;

verus! {

/// The game edition a configuration selects.
#[derive(Debug, Clone, Copy, PartialEq, Eq, Structural)]
pub enum GameEdition {
    Global,
    China,
}

/// Whether a locale name selects the Chinese game edition: at least five
/// characters long and starting with `zh_cn`, case-insensitively.
pub open spec fn spec_is_chinese_locale(l: Seq<char>) -> bool {
    &&& l.len() >= 5
    &&& (l[0] == 'z' || l[0] == 'Z')
    &&& (l[1] == 'h' || l[1] == 'H')
    &&& l[2] == '_'
    &&& (l[3] == 'c' || l[3] == 'C')
    &&& (l[4] == 'n' || l[4] == 'N')
}

impl GameEdition {
    /// The edition a locale name selects: `China` for a `zh_cn` locale,
    /// `Global` for every other.
    pub fn from_locale(locale: &str) -> (r: GameEdition)
        ensures
            r == (if spec_is_chinese_locale(locale@) {
                GameEdition::China
            } else {
                GameEdition::Global
            }),
    {
        let n = locale.unicode_len();
        if n < 5 {
            return GameEdition::Global;
        }
        let c0 = locale.get_char(0);
        let c1 = locale.get_char(1);
        let c2 = locale.get_char(2);
        let c3 = locale.get_char(3);
        let c4 = locale.get_char(4);
        if (c0 == 'z' || c0 == 'Z') && (c1 == 'h' || c1 == 'H') && c2 == '_' && (c3 == 'c' || c3
            == 'C') && (c4 == 'n' || c4 == 'N') {
            GameEdition::China
        } else {
            GameEdition::Global
        }
    }

    /// Which edition a configuration node names; the fallback when it
    /// names neither.
    pub open spec fn spec_from_value(v: ConfigValue, fallback: GameEdition) -> GameEdition {
        match v.spec_as_str() {
            Some(s) => if s@ == "Global"@ {
                GameEdition::Global
            } else if s@ == "China"@ {
                GameEdition::China
            } else {
                fallback
            },
            None => fallback,
        }
    }

    /// Read an edition from a configuration node.
    pub fn from_value(value: &ConfigValue, fallback: GameEdition) -> (r: GameEdition)
        ensures
            r == Self::spec_from_value(*value, fallback),
    {
        match value.as_str() {
            Some(s) => {
                if str_eq(s.as_str(), "Global") {
                    GameEdition::Global
                } else if str_eq(s.as_str(), "China") {
                    GameEdition::China
                } else {
                    fallback
                }
            },
            None => fallback,
        }
    }
}

/// Launcher-wide configuration values.
#[derive(Debug, Clone, PartialEq, Eq)]
pub struct Launcher {
    /// Interface language, e.g. `en-us`
    pub language: String,
    /// Directory for temporary files; `None` leaves it unset
    pub temp: Option<String>,
    /// Download speed limit, in bytes per second
    pub speed_limit: u64,
    /// Selected game edition
    pub edition: GameEdition,
}

impl Launcher {
    /// The stock configuration: English interface, the given temporary
    /// directory, no speed limit, the given edition.
    pub fn defaults(temp: Option<String>, edition: GameEdition) -> (r: Launcher)
        ensures
            r.language@ == "en-us"@,
            r.temp == temp,
            r.speed_limit == 0,
            r.edition == edition,
    {
        Launcher { language: "en-us".to_owned(), temp, speed_limit: 0, edition }
    }

    /// `self` with every field a configuration object names, and gives a
    /// usable value for, replaced by that value. An explicit null under
    /// `temp` unsets the directory.
    pub open spec fn spec_merged(self, v: ConfigValue) -> Launcher {
        Launcher {
            language: match v.spec_get("language"@) {
                Some(node) => match node.spec_as_str() {
                    Some(s) => s,
                    None => self.language,
                },
                None => self.language,
            },
            temp: match v.spec_get("temp"@) {
                Some(node) => if node is Null {
                    None
                } else {
                    match node.spec_as_str() {
                        Some(s) => Some(s),
                        None => self.temp,
                    }
                },
                None => self.temp,
            },
            speed_limit: match v.spec_get("speed_limit"@) {
                Some(node) => match node.spec_as_u64() {
                    Some(n) => n,
                    None => self.speed_limit,
                },
                None => self.speed_limit,
            },
            edition: match v.spec_get("edition"@) {
                Some(node) => GameEdition::spec_from_value(node, self.edition),
                None => self.edition,
            },
        }
    }

    /// Overwrite this configuration with the values a configuration
    /// object gives.
    pub fn merged_with(&self, value: &ConfigValue) -> (r: Launcher)
        ensures
            r == self.spec_merged(*value),
    {
        let language: String = match value.get("language") {
            Some(node) => match node.as_str() {
                Some(s) => s.clone(),
                None => self.language.clone(),
            },
            None => self.language.clone(),
        };
        let temp_kept: Option<String> = match &self.temp {
            Some(s) => Some(s.clone()),
            None => None,
        };
        let temp: Option<String> = match value.get("temp") {
            Some(node) => {
                if node.is_null() {
                    None
                } else {
                    match node.as_str() {
                        Some(s) => Some(s.clone()),
                        None => temp_kept,
                    }
                }
            },
            None => temp_kept,
        };
        let speed_limit: u64 = match value.get("speed_limit") {
            Some(node) => match node.as_u64() {
                Some(n) => n,
                None => self.speed_limit,
            },
            None => self.speed_limit,
        };
        let edition: GameEdition = match value.get("edition") {
            Some(node) => GameEdition::from_value(node, self.edition),
            None => self.edition,
        };
        Launcher { language, temp, speed_limit, edition }
    }
}

} // verus!
