//! The record of options that describes the units to generate, and the
//! checks made on it before anything is rendered.

use crate::kinds::{RestartPolicy, ServiceType};
use vstd::prelude::*;

verus! {

/// Everything that can be configured about the generated units. Paths are
/// held as text.
#[derive(Clone, Debug, PartialEq, Eq)]
pub struct Service {
    /// Base of the file names `<name>.service` and `<name>.timer`.
    pub name: String,
    pub description: Option<String>,
    pub before: Vec<String>,
    pub after: Vec<String>,
    pub conflicts: Vec<String>,
    pub requires: Vec<String>,
    pub on_failure: Option<String>,
    pub service_type: ServiceType,
    /// Path of the command that starts the service.
    pub exec_start: String,
    pub exec_reload: Option<String>,
    pub exec_stop: Option<String>,
    pub restart: Option<RestartPolicy>,
    pub restart_sec: Option<usize>,
    pub user: Option<String>,
    pub group: Option<String>,
    pub wanted_by: String,
    /// Whether a timer unit is generated beside the service unit.
    pub timer_enabled: bool,
    pub persistent: bool,
    pub on_calendar: Option<String>,
    pub on_unit_active_sec: Option<String>,
    pub on_unit_inactive_sec: Option<String>,
    /// Accepted and kept; no unit shows it.
    pub accuracy_sec: Option<String>,
    /// Directory that receives the generated files.
    pub output_dir: String,
    /// Accept an `exec_start` that does not exist.
    pub skip_exec_check: bool,
}

/// The mathematical value of a [`Service`]: every string is the sequence of
/// its characters.
pub struct ServiceView {
    pub name: Seq<char>,
    pub description: Option<Seq<char>>,
    pub before: Seq<Seq<char>>,
    pub after: Seq<Seq<char>>,
    pub conflicts: Seq<Seq<char>>,
    pub requires: Seq<Seq<char>>,
    pub on_failure: Option<Seq<char>>,
    pub service_type: ServiceType,
    pub exec_start: Seq<char>,
    pub exec_reload: Option<Seq<char>>,
    pub exec_stop: Option<Seq<char>>,
    pub restart: Option<RestartPolicy>,
    pub restart_sec: Option<nat>,
    pub user: Option<Seq<char>>,
    pub group: Option<Seq<char>>,
    pub wanted_by: Seq<char>,
    pub timer_enabled: bool,
    pub persistent: bool,
    pub on_calendar: Option<Seq<char>>,
    pub on_unit_active_sec: Option<Seq<char>>,
    pub on_unit_inactive_sec: Option<Seq<char>>,
    pub accuracy_sec: Option<Seq<char>>,
    pub output_dir: Seq<char>,
    pub skip_exec_check: bool,
}

/// The characters of an optional string.
pub open spec fn option_text(value: Option<String>) -> Option<Seq<char>> {
    match value {
        Some(text) => Some(text@),
        None => None,
    }
}

/// The characters of each string of a list, in order.
pub open spec fn list_text(values: Vec<String>) -> Seq<Seq<char>> {
    Seq::new(values@.len(), |i: int| values@[i]@)
}

impl View for Service {
    type V = ServiceView;

    open spec fn view(&self) -> ServiceView {
        ServiceView {
            name: self.name@,
            description: option_text(self.description),
            before: list_text(self.before),
            after: list_text(self.after),
            conflicts: list_text(self.conflicts),
            requires: list_text(self.requires),
            on_failure: option_text(self.on_failure),
            service_type: self.service_type,
            exec_start: self.exec_start@,
            exec_reload: option_text(self.exec_reload),
            exec_stop: option_text(self.exec_stop),
            restart: self.restart,
            restart_sec: match self.restart_sec {
                Some(seconds) => Some(seconds as nat),
                None => None,
            },
            user: option_text(self.user),
            group: option_text(self.group),
            wanted_by: self.wanted_by@,
            timer_enabled: self.timer_enabled,
            persistent: self.persistent,
            on_calendar: option_text(self.on_calendar),
            on_unit_active_sec: option_text(self.on_unit_active_sec),
            on_unit_inactive_sec: option_text(self.on_unit_inactive_sec),
            accuracy_sec: option_text(self.accuracy_sec),
            output_dir: self.output_dir@,
            skip_exec_check: self.skip_exec_check,
        }
    }
}

/// Why a record is refused before anything is rendered.
#[derive(Clone, Copy, Debug, PartialEq, Eq, Structural)]
pub enum ValidationError {
    /// The start command does not exist and the check was not skipped.
    ExecutableNotFound,
    /// A timer was asked for without a calendar expression.
    MissingCalendarSpec,
}

impl ServiceView {
    /// The record for the service `name` started by `exec_start` with every
    /// other option left alone: a `simple` service wanted by
    /// `multi-user.target`, no timer, files written to
    /// `/etc/systemd/system/`.
    pub open spec fn with_defaults(name: Seq<char>, exec_start: Seq<char>) -> ServiceView {
        ServiceView {
            name,
            description: None,
            before: Seq::empty(),
            after: Seq::empty(),
            conflicts: Seq::empty(),
            requires: Seq::empty(),
            on_failure: None,
            service_type: ServiceType::Simple,
            exec_start,
            exec_reload: None,
            exec_stop: None,
            restart: None,
            restart_sec: None,
            user: None,
            group: None,
            wanted_by: "multi-user.target"@,
            timer_enabled: false,
            persistent: false,
            on_calendar: None,
            on_unit_active_sec: None,
            on_unit_inactive_sec: None,
            accuracy_sec: None,
            output_dir: "/etc/systemd/system/"@,
            skip_exec_check: false,
        }
    }

    /// The record names its units and, where it asks for a timer, says when
    /// the timer elapses.
    pub open spec fn well_formed(self) -> bool {
        &&& self.name.len() > 0
        &&& self.timer_enabled ==> self.on_calendar is Some
    }

    /// The outcome of the check on the start command, given whether it
    /// exists.
    pub open spec fn exec_start_check(self, exec_start_exists: bool) -> Result<
        (),
        ValidationError,
    > {
        if exec_start_exists || self.skip_exec_check {
            Ok(())
        } else {
            Err(ValidationError::ExecutableNotFound)
        }
    }

    /// The outcome of the check on the timer options.
    pub open spec fn timer_check(self) -> Result<(), ValidationError> {
        if self.timer_enabled && self.on_calendar is None {
            Err(ValidationError::MissingCalendarSpec)
        } else {
            Ok(())
        }
    }

    /// The outcome of both checks: the first one that fails decides, the
    /// start command before the timer.
    pub open spec fn validation(self, exec_start_exists: bool) -> Result<(), ValidationError> {
        if self.exec_start_check(exec_start_exists) is Err {
            self.exec_start_check(exec_start_exists)
        } else {
            self.timer_check()
        }
    }
}

impl Service {
    /// A record for the service `name` started by `exec_start`, every other
    /// option at its default.
    pub fn new(name: &str, exec_start: &str) -> (service: Service)
        ensures
            service@ == ServiceView::with_defaults(name@, exec_start@),
    {
        let service = Service {
            name: name.to_owned(),
            description: None,
            before: Vec::new(),
            after: Vec::new(),
            conflicts: Vec::new(),
            requires: Vec::new(),
            on_failure: None,
            service_type: ServiceType::Simple,
            exec_start: exec_start.to_owned(),
            exec_reload: None,
            exec_stop: None,
            restart: None,
            restart_sec: None,
            user: None,
            group: None,
            wanted_by: "multi-user.target".to_owned(),
            timer_enabled: false,
            persistent: false,
            on_calendar: None,
            on_unit_active_sec: None,
            on_unit_inactive_sec: None,
            accuracy_sec: None,
            output_dir: "/etc/systemd/system/".to_owned(),
            skip_exec_check: false,
        };
        proof {
            let expected = ServiceView::with_defaults(name@, exec_start@);
            assert(service@.before =~= expected.before);
            assert(service@.after =~= expected.after);
            assert(service@.conflicts =~= expected.conflicts);
            assert(service@.requires =~= expected.requires);
        }
        service
    }

    /// Whether the record is well formed: it has a name and, where it asks
    /// for a timer, a calendar expression.
    pub fn is_well_formed(&self) -> (well_formed: bool)
        ensures
            well_formed == self@.well_formed(),
    {
        !self.name.as_str().is_empty() && (!self.timer_enabled || self.on_calendar.is_some())
    }

    /// Checks that the start command exists or that its check is skipped.
    /// Whether it exists is the caller's to find out.
    pub fn check_exec_start(&self, exec_start_exists: bool) -> (outcome: Result<
        (),
        ValidationError,
    >)
        ensures
            outcome == self@.exec_start_check(exec_start_exists),
            outcome is Err <==> !exec_start_exists && !self.skip_exec_check,
    {
        if !exec_start_exists && !self.skip_exec_check {
            Err(ValidationError::ExecutableNotFound)
        } else {
            Ok(())
        }
    }

    /// Checks that a requested timer has a calendar expression. A record
    /// that asks for no timer passes whatever its timer options hold.
    pub fn check_timer(&self) -> (outcome: Result<(), ValidationError>)
        ensures
            outcome == self@.timer_check(),
            outcome is Err <==> self.timer_enabled && self.on_calendar is None,
            !self.timer_enabled ==> outcome is Ok,
    {
        if self.timer_enabled && self.on_calendar.is_none() {
            Err(ValidationError::MissingCalendarSpec)
        } else {
            Ok(())
        }
    }

    /// Runs both checks in order and reports the first failure.
    pub fn validate(&self, exec_start_exists: bool) -> (outcome: Result<(), ValidationError>)
        ensures
            outcome == self@.validation(exec_start_exists),
            outcome is Ok <==> (exec_start_exists || self.skip_exec_check) && (self.timer_enabled
                ==> self.on_calendar is Some),
            !exec_start_exists && !self.skip_exec_check ==> outcome == Err::<(), ValidationError>(
                ValidationError::ExecutableNotFound,
            ),
    {
        match self.check_exec_start(exec_start_exists) {
            Err(error) => Err(error),
            Ok(()) => self.check_timer(),
        }
    }
}

} // verus!
