//! Configuration values that the overlay reads: which indicators to show, and hotkey
//! entries that may hold a placeholder instead of a value.
use vstd::prelude::*;
use vstd::string::StringExecFns;

verus! {

/// What an indicator shows.
#[derive(Clone, Copy, Debug, PartialEq, Eq, Structural)]
pub enum IndicatorType {
    Igt,
    Position,
    PositionChange,
    GameVersion,
    ImguiDebug,
    Fps,
    FrameCount,
}

/// An indicator and whether it is shown.
#[derive(Clone, Copy, Debug, PartialEq, Eq, Structural)]
pub struct Indicator {
    pub indicator: IndicatorType,
    pub enabled: bool,
}

/// An indicator as a configuration file names it.
pub struct IndicatorConfig {
    pub indicator: String,
    pub enabled: bool,
}

/// The indicator type that a configuration key names, if any.
pub open spec fn indicator_of_key(k: Seq<char>) -> Option<IndicatorType> {
    if k == "igt"@ {
        Some(IndicatorType::Igt)
    } else if k == "position"@ {
        Some(IndicatorType::Position)
    } else if k == "position_change"@ {
        Some(IndicatorType::PositionChange)
    } else if k == "game_version"@ {
        Some(IndicatorType::GameVersion)
    } else if k == "fps"@ {
        Some(IndicatorType::Fps)
    } else if k == "framecount"@ {
        Some(IndicatorType::FrameCount)
    } else if k == "imgui_debug"@ {
        Some(IndicatorType::ImguiDebug)
    } else {
        None
    }
}

/// The indicators shown when the configuration names none: the game version and the
/// in-game time, with the others listed but hidden.
pub open spec fn default_indicators() -> Seq<Indicator> {
    seq![
        Indicator { indicator: IndicatorType::GameVersion, enabled: true },
        Indicator { indicator: IndicatorType::Igt, enabled: true },
        Indicator { indicator: IndicatorType::Position, enabled: false },
        Indicator { indicator: IndicatorType::PositionChange, enabled: false },
        Indicator { indicator: IndicatorType::Fps, enabled: false },
        Indicator { indicator: IndicatorType::FrameCount, enabled: false },
        Indicator { indicator: IndicatorType::ImguiDebug, enabled: false },
    ]
}

impl Indicator {
    /// The indicators shown when the configuration names none.
    pub fn default_set() -> (r: Vec<Indicator>)
        ensures
            r@ == default_indicators(),
    {
        let mut r: Vec<Indicator> = Vec::new();
        r.push(Indicator { indicator: IndicatorType::GameVersion, enabled: true });
        r.push(Indicator { indicator: IndicatorType::Igt, enabled: true });
        r.push(Indicator { indicator: IndicatorType::Position, enabled: false });
        r.push(Indicator { indicator: IndicatorType::PositionChange, enabled: false });
        r.push(Indicator { indicator: IndicatorType::Fps, enabled: false });
        r.push(Indicator { indicator: IndicatorType::FrameCount, enabled: false });
        r.push(Indicator { indicator: IndicatorType::ImguiDebug, enabled: false });
        assert(r@ =~= default_indicators());
        r
    }

    /// The indicator that a configuration entry names, or a message naming the unknown key.
    pub fn from_config(c: IndicatorConfig) -> (r: Result<Indicator, String>)
        ensures
            match indicator_of_key(c.indicator@) {
                Some(t) => r == Ok::<Indicator, String>(
                    Indicator { indicator: t, enabled: c.enabled },
                ),
                None => r is Err && r->Err_0@ == "Unrecognized indicator: "@ + c.indicator@,
            },
    {
        let k = &c.indicator;
        let t = if *k == String::from_str("igt") {
            IndicatorType::Igt
        } else if *k == String::from_str("position") {
            IndicatorType::Position
        } else if *k == String::from_str("position_change") {
            IndicatorType::PositionChange
        } else if *k == String::from_str("game_version") {
            IndicatorType::GameVersion
        } else if *k == String::from_str("fps") {
            IndicatorType::Fps
        } else if *k == String::from_str("framecount") {
            IndicatorType::FrameCount
        } else if *k == String::from_str("imgui_debug") {
            IndicatorType::ImguiDebug
        } else {
            let mut msg = String::from_str("Unrecognized indicator: ");
            msg.append(k.as_str());
            return Err(msg);
        };
        Ok(Indicator { indicator: t, enabled: c.enabled })
    }
}

/// A configuration entry that holds a value, or only a placeholder that stands for none.
pub enum PlaceholderOption<T> {
    Data(T),
    Placeholder(bool),
}

impl<T> PlaceholderOption<T> {
    /// The value held, if any.
    pub fn into_option(self) -> (r: Option<T>)
        ensures
            r == match self {
                PlaceholderOption::Data(d) => Some(d),
                PlaceholderOption::Placeholder(_) => None::<T>,
            },
    {
        match self {
            PlaceholderOption::Data(d) => Some(d),
            PlaceholderOption::Placeholder(_) => None,
        }
    }
}

} // verus!
