//! What the supervisor tells the user.

use vstd::prelude::*;
use vstd::string::StringExecFns;

verus! {

/// A message for the user: a headline, the likely reasons, and a hint.
#[derive(Clone, Debug, PartialEq, Eq)]
pub struct Notice {
    pub summary: String,
    pub reasons: Vec<String>,
    pub help: Option<String>,
}

/// A message as a mathematical value.
pub struct NoticeText {
    pub summary: Seq<char>,
    pub reasons: Seq<Seq<char>>,
    pub help: Option<Seq<char>>,
}

impl View for Notice {
    type V = NoticeText;

    open spec fn view(&self) -> NoticeText {
        NoticeText {
            summary: self.summary@,
            reasons: self.reasons.deep_view(),
            help: self.help.deep_view(),
        }
    }
}

/// The reason that names the port of a conflict.
pub open spec fn port_reason(port: Seq<char>) -> Seq<char> {
    "Port number: "@ + port
}

/// Shown when the daemon cannot bind `port`.
pub open spec fn port_conflict_text(port: Seq<char>) -> NoticeText {
    NoticeText {
        summary: "OpenOCD reports: Address already in use"@,
        reasons: seq![
            "Maybe an old instance of OpenOCD?"@,
            "Maybe another program has port open on same machine?"@,
            port_reason(port),
        ],
        help: None,
    }
}

/// Shown when the daemon finds no probe.
pub open spec fn probe_missing_text() -> NoticeText {
    NoticeText {
        summary: "OpenOCD failed to connect to PicoProbe."@,
        reasons: seq!["Maybe it's unplugged?"@, "Maybe your udev is misconfigured?"@],
        help: None,
    }
}

/// Shown when the daemon finds no configuration file.
pub open spec fn config_missing_text() -> NoticeText {
    NoticeText {
        summary: "OpenOCD can't find config."@,
        reasons: seq!["Maybe you are launching with the wrong mode?"@],
        help: None,
    }
}

/// Shown when the daemon refuses further connections.
pub open spec fn connection_limit_text() -> NoticeText {
    NoticeText {
        summary: "OpenOCD reports too many connections"@,
        reasons: seq!["Could be too many ghost connections."@],
        help: None,
    }
}

/// Shown when the daemon cannot be started.
pub open spec fn spawn_failed_text() -> NoticeText {
    NoticeText {
        summary: "Could not spawn process"@,
        reasons: seq![],
        help: Some("Maybe a problem with PATH?"@),
    }
}

/// Shown when the daemon's standard output cannot be read.
pub open spec fn stdout_missing_text() -> NoticeText {
    NoticeText { summary: "Could not grab STDOUT. Weird :S"@, reasons: seq![], help: None }
}

/// Shown when the daemon's standard error cannot be read.
pub open spec fn stderr_missing_text() -> NoticeText {
    NoticeText { summary: "Could not grab STDERR... WTF?"@, reasons: seq![], help: None }
}

/// Shown when a process that holds the port cannot be terminated.
pub open spec fn reap_failed_text() -> NoticeText {
    NoticeText {
        summary: "Could not terminate a conflicting OpenOCD process"@,
        reasons: seq![],
        help: None,
    }
}

/// Shown when the daemon cannot be terminated for a restart.
pub open spec fn kill_failed_text() -> NoticeText {
    NoticeText { summary: "Could not terminate OpenOCD"@, reasons: seq![], help: None }
}

impl Notice {
    /// A message with a headline only.
    pub fn new(summary: &str) -> (notice: Notice)
        ensures
            notice@ == (NoticeText { summary: summary@, reasons: seq![], help: None }),
    {
        let notice = Notice { summary: String::from_str(summary), reasons: Vec::new(), help: None };
        assert(notice.reasons.deep_view() =~= seq![]);
        notice
    }

    /// Adds one more likely reason, after those already given.
    pub fn reason(self, reason: String) -> (notice: Notice)
        ensures
            notice@ == (NoticeText { reasons: self@.reasons.push(reason@), ..self@ }),
    {
        let mut notice = self;
        notice.reasons.push(reason);
        assert(notice.reasons.deep_view() =~= self.reasons.deep_view().push(reason@));
        notice
    }

    /// Sets the hint.
    pub fn help(self, help: &str) -> (notice: Notice)
        ensures
            notice@ == (NoticeText { help: Some(help@), ..self@ }),
    {
        let mut notice = self;
        notice.help = Some(String::from_str(help));
        notice
    }

    pub fn port_conflict(port: &str) -> (notice: Notice)
        ensures
            notice@ == port_conflict_text(port@),
    {
        let notice = Notice::new("OpenOCD reports: Address already in use").reason(
            String::from_str("Maybe an old instance of OpenOCD?"),
        ).reason(String::from_str("Maybe another program has port open on same machine?")).reason(
            String::from_str("Port number: ").concat(port),
        );
        assert(notice@.reasons =~= port_conflict_text(port@).reasons);
        notice
    }

    pub fn probe_missing() -> (notice: Notice)
        ensures
            notice@ == probe_missing_text(),
    {
        let notice = Notice::new("OpenOCD failed to connect to PicoProbe.").reason(
            String::from_str("Maybe it's unplugged?"),
        ).reason(String::from_str("Maybe your udev is misconfigured?"));
        assert(notice@.reasons =~= probe_missing_text().reasons);
        notice
    }

    pub fn config_missing() -> (notice: Notice)
        ensures
            notice@ == config_missing_text(),
    {
        let notice = Notice::new("OpenOCD can't find config.").reason(
            String::from_str("Maybe you are launching with the wrong mode?"),
        );
        assert(notice@.reasons =~= config_missing_text().reasons);
        notice
    }

    pub fn connection_limit() -> (notice: Notice)
        ensures
            notice@ == connection_limit_text(),
    {
        let notice = Notice::new("OpenOCD reports too many connections").reason(
            String::from_str("Could be too many ghost connections."),
        );
        assert(notice@.reasons =~= connection_limit_text().reasons);
        notice
    }

    pub fn spawn_failed() -> (notice: Notice)
        ensures
            notice@ == spawn_failed_text(),
    {
        Notice::new("Could not spawn process").help("Maybe a problem with PATH?")
    }

    pub fn stdout_missing() -> (notice: Notice)
        ensures
            notice@ == stdout_missing_text(),
    {
        Notice::new("Could not grab STDOUT. Weird :S")
    }

    pub fn stderr_missing() -> (notice: Notice)
        ensures
            notice@ == stderr_missing_text(),
    {
        Notice::new("Could not grab STDERR... WTF?")
    }

    pub fn reap_failed() -> (notice: Notice)
        ensures
            notice@ == reap_failed_text(),
    {
        Notice::new("Could not terminate a conflicting OpenOCD process")
    }

    pub fn kill_failed() -> (notice: Notice)
        ensures
            notice@ == kill_failed_text(),
    {
        Notice::new("Could not terminate OpenOCD")
    }
}

} // verus!
