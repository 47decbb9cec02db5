//! The log level and log file chosen at start-up.
use vstd::prelude::*;
use crate::dnet_daemon::settings::path::{join, path_join};
use crate::text::digit_char;

verus! {

/// How much is logged.
#[derive(Clone, Copy, Debug, PartialEq, Eq, Structural)]
pub enum LogLevel {
    Off,
    Error,
    Warn,
    Info,
    Debug,
    Trace,
}

/// The level selected by the `--debug` argument: `0` to `4` select Error
/// to Trace; anything else, or no argument, turns logging off.
pub open spec fn arg_level_of(arg: Option<Seq<char>>) -> LogLevel {
    match arg {
        Some(a) => if a == "0"@ {
            LogLevel::Error
        } else if a == "1"@ {
            LogLevel::Warn
        } else if a == "2"@ {
            LogLevel::Info
        } else if a == "3"@ {
            LogLevel::Debug
        } else if a == "4"@ {
            LogLevel::Trace
        } else {
            LogLevel::Off
        },
        None => LogLevel::Off,
    }
}

/// The level named by the `log_level` setting: `Error`, `Warn`, `Info`,
/// `Debug` or `Trace`; anything else, or no setting, is Off.
pub open spec fn setting_level_of(setting: Option<Seq<char>>) -> LogLevel {
    match setting {
        Some(a) => if a == "Error"@ {
            LogLevel::Error
        } else if a == "Warn"@ {
            LogLevel::Warn
        } else if a == "Info"@ {
            LogLevel::Info
        } else if a == "Debug"@ {
            LogLevel::Debug
        } else if a == "Trace"@ {
            LogLevel::Trace
        } else {
            LogLevel::Off
        },
        None => LogLevel::Off,
    }
}

fn text_is(a: &str, b: &str) -> (r: bool)
    ensures
        r == (a@ == b@),
{
    a.to_string() == b.to_string()
}

/// The level selected by the `--debug` argument.
pub fn arg_log_level(arg: Option<&str>) -> (l: LogLevel)
    ensures
        l == arg_level_of(
            match arg {
                Some(a) => Some(a@),
                None => None,
            },
        ),
{
    match arg {
        Some(a) => {
            if text_is(a, "0") {
                LogLevel::Error
            } else if text_is(a, "1") {
                LogLevel::Warn
            } else if text_is(a, "2") {
                LogLevel::Info
            } else if text_is(a, "3") {
                LogLevel::Debug
            } else if text_is(a, "4") {
                LogLevel::Trace
            } else {
                LogLevel::Off
            }
        },
        None => LogLevel::Off,
    }
}

/// The level named by the `log_level` setting.
pub fn setting_log_level(setting: Option<&str>) -> (l: LogLevel)
    ensures
        l == setting_level_of(
            match setting {
                Some(a) => Some(a@),
                None => None,
            },
        ),
{
    match setting {
        Some(a) => {
            if text_is(a, "Error") {
                LogLevel::Error
            } else if text_is(a, "Warn") {
                LogLevel::Warn
            } else if text_is(a, "Info") {
                LogLevel::Info
            } else if text_is(a, "Debug") {
                LogLevel::Debug
            } else if text_is(a, "Trace") {
                LogLevel::Trace
            } else {
                LogLevel::Off
            }
        },
        None => LogLevel::Off,
    }
}

/// The level used: the argument's level when it is not Off.  The setting's
/// level is consulted only on a branch that the same test as the first
/// rules out, so it never takes effect.
pub fn effective_log_level(arg_level: LogLevel, setting_level: LogLevel) -> (l: LogLevel)
    ensures
        l == arg_level,
{
    let mut log_level = LogLevel::Off;
    if arg_level != log_level {
        log_level = arg_level;
    } else if arg_level != log_level {
        log_level = setting_level;
    }
    log_level
}

/// How much a level logs: nothing for Off, then more from Error to Trace.
pub open spec fn verbosity(l: LogLevel) -> int {
    match l {
        LogLevel::Off => 0,
        LogLevel::Error => 1,
        LogLevel::Warn => 2,
        LogLevel::Info => 3,
        LogLevel::Debug => 4,
        LogLevel::Trace => 5,
    }
}

/// `--debug n`, for a digit n from 0 to 4, selects the level n + 1 steps up
/// from Off (0 Error, 1 Warn, 2 Info, 3 Debug, 4 Trace), so a larger
/// number logs more; no argument, or any other text, logs nothing.
pub proof fn lemma_debug_argument(n: int, a: Seq<char>)
    ensures
        0 <= n <= 4 ==> verbosity(arg_level_of(Some(seq![digit_char(n)]))) == n + 1,
        (forall|d: int| 0 <= d <= 4 ==> a != seq![#[trigger] digit_char(d)]) ==> arg_level_of(Some(a))
            == LogLevel::Off,
        arg_level_of(None) == LogLevel::Off,
{
    reveal_strlit("0");
    reveal_strlit("1");
    reveal_strlit("2");
    reveal_strlit("3");
    reveal_strlit("4");
    assert("0"@ =~= seq![digit_char(0)]);
    assert("1"@ =~= seq![digit_char(1)]);
    assert("2"@ =~= seq![digit_char(2)]);
    assert("3"@ =~= seq![digit_char(3)]);
    assert("4"@ =~= seq![digit_char(4)]);
    let lits = seq!["0"@, "1"@, "2"@, "3"@, "4"@];
    assert forall|i: int, j: int| 0 <= i < 5 && 0 <= j < 5 && i != j implies #[trigger] lits[i]
        != #[trigger] lits[j] by {
        assert(lits[i][0] != lits[j][0]);
    }
    if 0 <= n <= 4 {
        assert(lits[n] == seq![digit_char(n)]);
        assert(lits[0] == "0"@ && lits[1] == "1"@ && lits[2] == "2"@ && lits[3] == "3"@ && lits[4]
            == "4"@);
    }
}

/// A level named in the settings (`Error`, `Warn`, `Info`, `Debug`,
/// `Trace`, in that order) is the level that many steps up from Off; any
/// other name, or none, logs nothing.
pub proof fn lemma_setting_names(a: Seq<char>)
    ensures
        verbosity(setting_level_of(Some("Error"@))) == 1,
        verbosity(setting_level_of(Some("Warn"@))) == 2,
        verbosity(setting_level_of(Some("Info"@))) == 3,
        verbosity(setting_level_of(Some("Debug"@))) == 4,
        verbosity(setting_level_of(Some("Trace"@))) == 5,
        a != "Error"@ && a != "Warn"@ && a != "Info"@ && a != "Debug"@ && a != "Trace"@
            ==> setting_level_of(Some(a)) == LogLevel::Off,
        setting_level_of(None) == LogLevel::Off,
{
    reveal_strlit("Error");
    reveal_strlit("Warn");
    reveal_strlit("Info");
    reveal_strlit("Debug");
    reveal_strlit("Trace");
    assert("Error"@ != "Warn"@ && "Error"@ != "Info"@ && "Error"@ != "Debug"@ && "Error"@ != "Trace"@) by {
        assert("Error"@[0] != "Warn"@[0] && "Error"@[0] != "Info"@[0] && "Error"@[0] != "Debug"@[0]
            && "Error"@[0] != "Trace"@[0]);
    }
    assert("Warn"@ != "Info"@ && "Warn"@ != "Debug"@ && "Warn"@ != "Trace"@) by {
        assert("Warn"@[0] != "Info"@[0] && "Warn"@[0] != "Debug"@[0] && "Warn"@[0] != "Trace"@[0]);
    }
    assert("Info"@ != "Debug"@ && "Info"@ != "Trace"@) by {
        assert("Info"@[0] != "Debug"@[0] && "Info"@[0] != "Trace"@[0]);
    }
    assert("Debug"@ != "Trace"@) by {
        assert("Debug"@[0] != "Trace"@[0]);
    }
}

/// The log directory used when the settings name none.
pub const DEFAULT_LOG_DIR: &'static str = "/var/log/ovr/";

/// The name of the log file in the log directory.
pub const LOG_FILENAME: &'static str = "ovrouter.log";

/// The log directory: the one the settings name, else the default one.
pub open spec fn log_dir_of(setting: Option<Seq<char>>) -> Seq<char> {
    match setting {
        Some(d) => d,
        None => DEFAULT_LOG_DIR@,
    }
}

/// The log directory the settings give.
pub fn log_dir(setting: Option<String>) -> (r: String)
    ensures
        r@ == log_dir_of(
            match setting {
                Some(d) => Some(d@),
                None => None,
            },
        ),
{
    match setting {
        Some(d) => d,
        None => DEFAULT_LOG_DIR.to_string(),
    }
}

/// The log file: `ovrouter.log` in the log directory.
pub fn log_file(dir: &str) -> (r: String)
    ensures
        r@ == path_join(dir@, LOG_FILENAME@),
{
    join(dir, LOG_FILENAME)
}

} // verus!
