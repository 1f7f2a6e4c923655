//! Alerts shown to the user, with the severity that styles them.
use vstd::prelude::*;

verus! {

/// The level of an alert, from the most to the least serious.
#[derive(Clone, Copy, Debug, PartialEq, Eq, Structural)]
pub enum Level {
    Error,
    Warn,
    Info,
    Debug,
    Trace,
}

/// A message shown to the user at a given level.
#[derive(Clone, Debug)]
pub struct Alert {
    pub level: Level,
    pub message: String,
}

/// The style class of an alert of level `level`.
pub open spec fn severity_of(level: Level) -> Seq<char> {
    match level {
        Level::Trace => "light"@,
        Level::Debug => "info"@,
        Level::Info => "success"@,
        Level::Warn => "warning"@,
        Level::Error => "danger"@,
    }
}

impl Alert {
    /// An informative alert carrying `message`.
    #[must_use]
    pub fn info(message: &str) -> (alert: Self)
        ensures
            alert.level == Level::Info,
            alert.message@ == message@,
    {
        Self::new(Level::Info, message)
    }

    /// An error alert carrying `message`.
    #[must_use]
    pub fn error(message: &str) -> (alert: Self)
        ensures
            alert.level == Level::Error,
            alert.message@ == message@,
    {
        Self::new(Level::Error, message)
    }

    fn new(level: Level, message: &str) -> (alert: Self)
        ensures
            alert.level == level,
            alert.message@ == message@,
    {
        Self { level, message: message.to_string() }
    }

    /// The style class of the alert: `light`, `info`, `success`, `warning`
    /// or `danger`, from the least to the most serious level.
    #[must_use]
    pub fn severity(&self) -> (severity: String)
        ensures
            severity@ == severity_of(self.level),
    {
        let severity = match self.level {
            Level::Trace => "light",
            Level::Debug => "info",
            Level::Info => "success",
            Level::Warn => "warning",
            Level::Error => "danger",
        };

        severity.to_string()
    }
}

/// Two alerts of different levels are styled differently.
pub proof fn lemma_severity_distinguishes_levels(a: Level, b: Level)
    requires
        a != b,
    ensures
        severity_of(a) != severity_of(b),
{
    reveal_strlit("light");
    reveal_strlit("info");
    reveal_strlit("success");
    reveal_strlit("warning");
    reveal_strlit("danger");
    assert(severity_of(a).len() != severity_of(b).len() || severity_of(a)[0] != severity_of(
        b,
    )[0]);
}

} // verus!
