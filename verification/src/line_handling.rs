//! Classification of one line of the daemon's output.

use crate::pattern::{captures, compile, regex_captures, regex_compiles, regex_source};
use regex::Regex;
use vstd::prelude::*;
use vstd::string::StringExecFns;

verus! {

/// The verdict on a line that reports nothing.
#[derive(Debug, PartialEq, Eq, Structural)]
pub struct LineSuccess {}

impl LineSuccess {
    pub fn new() -> (success: LineSuccess)
        ensures
            success == (LineSuccess {  }),
    {
        LineSuccess {  }
    }
}

/// What a line of the daemon's output can report.
#[derive(Debug, PartialEq, Eq, Structural)]
pub enum LineError {
    /// A port could not be bound because another process holds it.
    AddressAlreadyInUse,
    /// No probe is attached.
    PicoProbeNotFound,
    /// The daemon did not find its configuration file.
    CantFindOpenOCD,
    /// The daemon turned a client away because it serves too many already.
    NoMoreConnections,
}

impl LineError {
    /// The name by which a report is shown to the user.
    pub open spec fn label(self) -> Seq<char> {
        match self {
            LineError::AddressAlreadyInUse => "AddressAlreadyInUse"@,
            LineError::PicoProbeNotFound => "PicoProbeNotFound"@,
            LineError::CantFindOpenOCD => "CantFindOpenOCD"@,
            LineError::NoMoreConnections => "NoMoreConnections"@,
        }
    }

    /// Renders the report as text.
    pub fn describe(&self) -> (text: String)
        ensures
            text@ == self.label(),
    {
        match self {
            LineError::AddressAlreadyInUse => String::from_str("AddressAlreadyInUse"),
            LineError::PicoProbeNotFound => String::from_str("PicoProbeNotFound"),
            LineError::CantFindOpenOCD => String::from_str("CantFindOpenOCD"),
            LineError::NoMoreConnections => String::from_str("NoMoreConnections"),
        }
    }
}

/// The expression for a failed bind. Group 1 is the port, group 2 the reason
/// that the daemon gives.
pub open spec fn bind_failure_pattern() -> Seq<char> {
    r"bind.*port (\d*): (.*)"@
}

/// The expression for a missing probe.
pub open spec fn probe_missing_pattern() -> Seq<char> {
    r".*Can't find a picoprobe device!.*"@
}

/// The expression for a missing configuration file.
pub open spec fn config_missing_pattern() -> Seq<char> {
    r".*Can't find openocd.cfg.*"@
}

/// The expression for a refused connection: the two phrases of the message,
/// in either order and with anything between them.
pub open spec fn connection_limit_pattern() -> Seq<char> {
    "(?s:rejected.*no more connections allowed|no more connections allowed.*rejected)"@
}

/// The reason that makes a failed bind a port conflict.
pub open spec fn address_in_use() -> Seq<char> {
    "Address already in use"@
}

/// The port that is recorded before any conflict was seen.
pub open spec fn unknown_port() -> Seq<char> {
    "unknown"@
}

/// The port named by the groups of a bind failure, where the reason given is
/// that the address is in use.
pub open spec fn conflicting_port(groups: Option<Seq<Option<Seq<char>>>>) -> Option<Seq<char>> {
    match groups {
        Some(g) => if g.len() > 2 && g[1] is Some && g[2] == Some(address_in_use()) {
            g[1]
        } else {
            None
        },
        None => None,
    }
}

/// The verdict on a line, from what the four expressions found in it: the
/// groups of a bind failure, and whether the expressions for a missing probe,
/// a missing configuration file and a refused connection matched. The rules
/// are tried in this order and the first that applies decides.
pub open spec fn verdict(
    bind: Option<Seq<Option<Seq<char>>>>,
    probe: bool,
    config: bool,
    limit: bool,
) -> Result<LineSuccess, LineError> {
    if conflicting_port(bind) is Some {
        Err(LineError::AddressAlreadyInUse)
    } else if probe {
        Err(LineError::PicoProbeNotFound)
    } else if config {
        Err(LineError::CantFindOpenOCD)
    } else if limit {
        Err(LineError::NoMoreConnections)
    } else {
        Ok(LineSuccess {  })
    }
}

/// Decides on a line from what the four expressions found in it. Beside the
/// verdict stands the port to record, where the line reports a conflict.
pub fn classify(
    bind: &Option<Vec<Option<String>>>,
    probe: bool,
    config: bool,
    limit: bool,
) -> (outcome: (Result<LineSuccess, LineError>, Option<String>))
    ensures
        outcome.0 == verdict(bind.deep_view(), probe, config, limit),
        outcome.1.deep_view() == conflicting_port(bind.deep_view()),
{
    if let Some(groups) = bind {
        if groups.len() > 2 {
            if let Some(port) = &groups[1] {
                if let Some(reason) = &groups[2] {
                    if *reason == String::from_str("Address already in use") {
                        return (Err(LineError::AddressAlreadyInUse), Some(port.clone()));
                    }
                }
            }
        }
    }
    let verdict = if probe {
        Err(LineError::PicoProbeNotFound)
    } else if config {
        Err(LineError::CantFindOpenOCD)
    } else if limit {
        Err(LineError::NoMoreConnections)
    } else {
        Ok(LineSuccess::new())
    };
    (verdict, None)
}

/// The classifier as a mathematical value: its four expressions and what it
/// remembers of the last port conflict.
pub struct Classifier {
    pub bind_failure: Regex,
    pub probe_missing: Regex,
    pub config_missing: Regex,
    pub connection_limit: Regex,
    pub conflict_seen: bool,
    pub conflict_port: Seq<char>,
}

impl Classifier {
    /// The port that `line` reports as taken, if it reports one.
    pub open spec fn port_in_use(self, line: Seq<char>) -> Option<Seq<char>> {
        conflicting_port(regex_captures(self.bind_failure, line))
    }

    /// Whether the expression for a missing probe matches in `line`.
    pub open spec fn probe_is_missing(self, line: Seq<char>) -> bool {
        regex_captures(self.probe_missing, line) is Some
    }

    /// Whether the expression for a missing configuration file matches in
    /// `line`.
    pub open spec fn config_is_missing(self, line: Seq<char>) -> bool {
        regex_captures(self.config_missing, line) is Some
    }

    /// Whether the expression for a refused connection matches in `line`.
    pub open spec fn connection_is_refused(self, line: Seq<char>) -> bool {
        regex_captures(self.connection_limit, line) is Some
    }

    /// Whether none of the four expressions matches in `line`.
    pub open spec fn matches_nothing(self, line: Seq<char>) -> bool {
        &&& regex_captures(self.bind_failure, line) is None
        &&& !self.probe_is_missing(line)
        &&& !self.config_is_missing(line)
        &&& !self.connection_is_refused(line)
    }

    /// The verdict on `line`: the one that follows from what the four
    /// expressions find in it.
    pub open spec fn diagnose(self, line: Seq<char>) -> Result<LineSuccess, LineError> {
        verdict(
            regex_captures(self.bind_failure, line),
            self.probe_is_missing(line),
            self.config_is_missing(line),
            self.connection_is_refused(line),
        )
    }

    /// The classifier after it has seen `line`: a port conflict is recorded,
    /// any other line changes nothing.
    pub open spec fn record(self, line: Seq<char>) -> Classifier {
        match self.port_in_use(line) {
            Some(port) => Classifier { conflict_seen: true, conflict_port: port, ..self },
            None => self,
        }
    }

    /// The classifier after it has seen `lines`, first to last.
    pub open spec fn record_all(self, lines: Seq<Seq<char>>) -> Classifier
        decreases lines.len(),
    {
        if lines.len() == 0 {
            self
        } else {
            self.record_all(lines.drop_last()).record(lines.last())
        }
    }

    /// Whether the four expressions are the ones this supervisor looks for.
    pub open spec fn standard(self) -> bool {
        &&& regex_source(self.bind_failure) == bind_failure_pattern()
        &&& regex_source(self.probe_missing) == probe_missing_pattern()
        &&& regex_source(self.config_missing) == config_missing_pattern()
        &&& regex_source(self.connection_limit) == connection_limit_pattern()
    }

    /// Recording lines never touches the expressions.
    pub proof fn lemma_expressions_are_kept(self, lines: Seq<Seq<char>>)
        ensures
            self.record_all(lines).bind_failure == self.bind_failure,
            self.record_all(lines).probe_missing == self.probe_missing,
            self.record_all(lines).config_missing == self.config_missing,
            self.record_all(lines).connection_limit == self.connection_limit,
        decreases lines.len(),
    {
        if lines.len() > 0 {
            self.lemma_expressions_are_kept(lines.drop_last());
        }
    }

    /// Once a line has reported `port` as taken, `port` stays the recorded
    /// one for as long as no later line reports another.
    pub proof fn lemma_port_is_remembered(
        self,
        first: Seq<char>,
        later: Seq<Seq<char>>,
        port: Seq<char>,
    )
        requires
            self.port_in_use(first) == Some(port),
            forall|i: int|
                0 <= i < later.len() ==> {
                    let p = #[trigger] self.port_in_use(later[i]);
                    p is None || p == Some(port)
                },
        ensures
            self.record(first).record_all(later).conflict_seen,
            self.record(first).record_all(later).conflict_port == port,
        decreases later.len(),
    {
        if later.len() > 0 {
            let before = later.drop_last();
            assert forall|i: int| 0 <= i < before.len() implies {
                let p = #[trigger] self.port_in_use(before[i]);
                p is None || p == Some(port)
            } by {
                assert(before[i] == later[i]);
            }
            self.lemma_port_is_remembered(first, before, port);
            self.record(first).lemma_expressions_are_kept(before);
            let reached = self.record(first).record_all(before);
            assert(reached.port_in_use(later.last()) == self.port_in_use(later[later.len() - 1]));
        }
    }

    /// A line that no rule applies to leaves the classifier as it was, however
    /// many of them come.
    pub proof fn lemma_clean_lines_change_nothing(self, lines: Seq<Seq<char>>)
        requires
            forall|i: int| 0 <= i < lines.len() ==> #[trigger] self.diagnose(lines[i]) is Ok,
        ensures
            self.record_all(lines) == self,
        decreases lines.len(),
    {
        if lines.len() > 0 {
            let before = lines.drop_last();
            assert forall|i: int| 0 <= i < before.len() implies #[trigger] self.diagnose(
                before[i],
            ) is Ok by {
                assert(before[i] == lines[i]);
            }
            self.lemma_clean_lines_change_nothing(before);
            assert(self.diagnose(lines[lines.len() - 1]) is Ok);
        }
    }
}

/// The line classifier: four compiled expressions and the memory of the last
/// port conflict.
pub struct LineHandler {
    pub re_address_already_in_use: Regex,
    pub re_picoprobe_not_found: Regex,
    pub address_already_in_use: bool,
    pub address_already_in_use_port: String,
    pub re_cant_find_openocd: Regex,
    pub re_no_more_connections: Regex,
}

impl View for LineHandler {
    type V = Classifier;

    open spec fn view(&self) -> Classifier {
        Classifier {
            bind_failure: self.re_address_already_in_use,
            probe_missing: self.re_picoprobe_not_found,
            config_missing: self.re_cant_find_openocd,
            connection_limit: self.re_no_more_connections,
            conflict_seen: self.address_already_in_use,
            conflict_port: self.address_already_in_use_port@,
        }
    }
}

impl LineHandler {
    /// Whether the `regex` crate accepts all four expressions.
    pub open spec fn expressions_compile() -> bool {
        &&& regex_compiles(bind_failure_pattern())
        &&& regex_compiles(probe_missing_pattern())
        &&& regex_compiles(config_missing_pattern())
        &&& regex_compiles(connection_limit_pattern())
    }

    /// Puts a classifier together from the four expressions, where all four
    /// are there. It starts with no conflict seen and the port "unknown".
    pub fn from_expressions(
        bind_failure: Option<Regex>,
        probe_missing: Option<Regex>,
        config_missing: Option<Regex>,
        connection_limit: Option<Regex>,
    ) -> (made: Option<LineHandler>)
        ensures
            made is Some <==> bind_failure is Some && probe_missing is Some && config_missing
                is Some && connection_limit is Some,
            made matches Some(handler) ==> handler@ == (Classifier {
                bind_failure: bind_failure->0,
                probe_missing: probe_missing->0,
                config_missing: config_missing->0,
                connection_limit: connection_limit->0,
                conflict_seen: false,
                conflict_port: unknown_port(),
            }),
    {
        match (bind_failure, probe_missing, config_missing, connection_limit) {
            (
                Some(re_address_already_in_use),
                Some(re_picoprobe_not_found),
                Some(re_cant_find_openocd),
                Some(re_no_more_connections),
            ) => Some(
                LineHandler {
                    re_address_already_in_use,
                    re_picoprobe_not_found,
                    re_cant_find_openocd,
                    re_no_more_connections,
                    address_already_in_use: false,
                    address_already_in_use_port: String::from_str("unknown"),
                },
            ),
            _ => None,
        }
    }

    /// Compiles the four expressions and puts the classifier together.
    pub fn new() -> (made: Option<LineHandler>)
        ensures
            made is Some <==> Self::expressions_compile(),
            made matches Some(handler) ==> {
                &&& handler@.standard()
                &&& !handler@.conflict_seen
                &&& handler@.conflict_port == unknown_port()
            },
    {
        Self::from_expressions(
            compile(r"bind.*port (\d*): (.*)"),
            compile(r".*Can't find a picoprobe device!.*"),
            compile(r".*Can't find openocd.cfg.*"),
            compile(
                "(?s:rejected.*no more connections allowed|no more connections allowed.*rejected)",
            ),
        )
    }

    /// Classifies one line and records the port if the line reports a
    /// conflict.
    pub fn handle(&mut self, line: String) -> (verdict: Result<LineSuccess, LineError>)
        ensures
            verdict == old(self)@.diagnose(line@),
            final(self)@ == old(self)@.record(line@),
            // A line in which none of the four expressions matches is clean
            // and changes nothing.
            old(self)@.matches_nothing(line@) ==> verdict is Ok && final(self)@ == old(self)@,
            // A bind failure for the reason "Address already in use" is a
            // port conflict, and its port is the one recorded.
            old(self)@.port_in_use(line@) matches Some(port) ==> {
                &&& verdict == Err::<LineSuccess, LineError>(LineError::AddressAlreadyInUse)
                &&& final(self)@.conflict_seen
                &&& final(self)@.conflict_port == port
            },
            // Short of a port conflict, nothing is recorded, and a missing
            // probe is reported whatever else the line holds.
            old(self)@.port_in_use(line@) is None ==> {
                &&& final(self)@ == old(self)@
                &&& old(self)@.probe_is_missing(line@) ==> verdict == Err::<
                    LineSuccess,
                    LineError,
                >(LineError::PicoProbeNotFound)
            },
            // Short of both, a missing configuration file is reported.
            old(self)@.port_in_use(line@) is None && !old(self)@.probe_is_missing(line@) ==> {
                old(self)@.config_is_missing(line@) ==> verdict == Err::<LineSuccess, LineError>(
                    LineError::CantFindOpenOCD,
                )
            },
            // Short of all three, a refused connection is reported where the
            // fourth expression matches, and the line is clean where not.
            old(self)@.port_in_use(line@) is None && !old(self)@.probe_is_missing(line@) ==> {
                !old(self)@.config_is_missing(line@) ==> if old(self)@.connection_is_refused(
                    line@,
                ) {
                    verdict == Err::<LineSuccess, LineError>(LineError::NoMoreConnections)
                } else {
                    verdict is Ok
                }
            },
    {
        let bind = captures(&self.re_address_already_in_use, line.as_str());
        let probe = captures(&self.re_picoprobe_not_found, line.as_str()).is_some();
        let config = captures(&self.re_cant_find_openocd, line.as_str()).is_some();
        let limit = captures(&self.re_no_more_connections, line.as_str()).is_some();
        let (verdict, port) = classify(&bind, probe, config, limit);
        if let Some(port) = port {
            self.address_already_in_use = true;
            self.address_already_in_use_port = port;
        }
        verdict
    }
}

} // verus!
