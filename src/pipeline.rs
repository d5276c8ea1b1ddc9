//! The logging pipeline: resolved once from the first construction request,
//! then consulted by every emit call.

use vstd::prelude::*;
use crate::severity::{Severity, admits, lemma_threshold_monotone, parse_severity, rank, severity_name};
use crate::timestamp::{DateTime, now_utc};
use crate::render::{json_line, plain_line, render_json, render_plain};

verus! {

/// What a caller may ask of the pipeline when constructing a logger.
pub struct LoggerOptions {
    pub level: Option<String>,
    pub json: Option<bool>,
}

/// Why the pipeline could not be set up.
#[derive(Clone, Copy, Debug, PartialEq, Eq, Structural)]
pub enum InitError {
    /// The override names none of the five severities.
    UnknownOverride,
    /// No override is given, and the configured level names none of the
    /// five severities.
    UnknownLevel,
}

/// The settings that an installed pipeline holds for the process lifetime.
pub struct Settings {
    pub threshold: Severity,
    pub json: bool,
    pub service_name: String,
}

/// The mathematical content of `Settings`.
pub struct SettingsView {
    pub threshold: Severity,
    pub json: bool,
    pub service: Seq<char>,
}

impl View for Settings {
    type V = SettingsView;

    open spec fn view(&self) -> SettingsView {
        SettingsView { threshold: self.threshold, json: self.json, service: self.service_name@ }
    }
}

/// One construction request: the service name, the options' level and json
/// flag, and the override read from the environment, if any.
pub struct InitRequest {
    pub name: Seq<char>,
    pub level: Option<Seq<char>>,
    pub json: Option<bool>,
    pub override_level: Option<Seq<char>>,
}

/// The characters of an optional string.
pub open spec fn opt_chars(s: Option<&str>) -> Option<Seq<char>> {
    match s {
        Some(x) => Some(x@),
        None => None,
    }
}

pub open spec fn options_level(options: Option<LoggerOptions>) -> Option<Seq<char>> {
    match options {
        Some(o) => match o.level {
            Some(l) => Some(l@),
            None => None,
        },
        None => None,
    }
}

pub open spec fn options_json(options: Option<LoggerOptions>) -> Option<bool> {
    match options {
        Some(o) => o.json,
        None => None,
    }
}

pub open spec fn request_of(
    name: Seq<char>,
    options: Option<LoggerOptions>,
    override_level: Option<Seq<char>>,
) -> InitRequest {
    InitRequest {
        name,
        level: options_level(options),
        json: options_json(options),
        override_level,
    }
}

/// The threshold in force: an override, when given, decides, and is an
/// error unless it names a severity; else the configured level, `info` when
/// none is given, and an error when it names no severity.
pub open spec fn resolved_threshold(
    override_level: Option<Seq<char>>,
    level: Option<Seq<char>>,
) -> Result<Severity, InitError> {
    match override_level {
        Some(o) => match severity_name(o) {
            Some(t) => Ok(t),
            None => Err(InitError::UnknownOverride),
        },
        None => match level {
            Some(l) => match severity_name(l) {
                Some(t) => Ok(t),
                None => Err(InitError::UnknownLevel),
            },
            None => Ok(Severity::Info),
        },
    }
}

/// What a construction request returns on an empty pipeline.
pub open spec fn init_outcome(req: InitRequest) -> Result<(), InitError> {
    match resolved_threshold(req.override_level, req.level) {
        Ok(_) => Ok(()),
        Err(e) => Err(e),
    }
}

/// The pipeline state after one construction request: an installed pipeline
/// stays as it is; an empty one is installed from the request, or stays
/// empty when the request's level is unknown.
pub open spec fn init_step(state: Option<SettingsView>, req: InitRequest) -> Option<SettingsView> {
    if state is Some {
        state
    } else {
        match resolved_threshold(req.override_level, req.level) {
            Ok(t) => Some(
                SettingsView {
                    threshold: t,
                    json: match req.json {
                        Some(j) => j,
                        None => false,
                    },
                    service: req.name,
                },
            ),
            Err(_) => None,
        }
    }
}

/// The state after a sequence of construction requests, in order.
pub open spec fn run_inits(state: Option<SettingsView>, reqs: Seq<InitRequest>) -> Option<
    SettingsView,
>
    decreases reqs.len(),
{
    if reqs.len() == 0 {
        state
    } else {
        run_inits(init_step(state, reqs[0]), reqs.drop_first())
    }
}

/// The line that an event produces under a pipeline state, if any.
pub open spec fn rendered(state: Option<SettingsView>, s: Severity, message: Seq<char>, t: DateTime) -> Option<
    Seq<char>,
> {
    match state {
        Some(v) => if admits(v.threshold, s) {
            Some(
                if v.json {
                    json_line(t, v.service, s, message)
                } else {
                    plain_line(t, v.service, s, message)
                },
            )
        } else {
            None
        },
        None => None,
    }
}

/// Resolves the threshold from an override and a configured level.
pub fn resolve_threshold(override_level: Option<&str>, level: Option<&str>) -> (r: Result<
    Severity,
    InitError,
>)
    ensures
        r == resolved_threshold(opt_chars(override_level), opt_chars(level)),
{
    match override_level {
        Some(o) => match parse_severity(o) {
            Some(t) => Ok(t),
            None => Err(InitError::UnknownOverride),
        },
        None => match level {
            Some(l) => match parse_severity(l) {
                Some(t) => Ok(t),
                None => Err(InitError::UnknownLevel),
            },
            None => Ok(Severity::Info),
        },
    }
}

/// The process-wide logging pipeline: empty until the first successful
/// construction request, then fixed.
pub struct Pipeline {
    settings: Option<Settings>,
}

impl View for Pipeline {
    type V = Option<SettingsView>;

    closed spec fn view(&self) -> Option<SettingsView> {
        match self.settings {
            Some(s) => Some(s@),
            None => None,
        }
    }
}

impl Pipeline {
    /// An empty pipeline.
    pub fn new() -> (r: Pipeline)
        ensures
            r@ is None,
    {
        Pipeline { settings: None }
    }

    /// Whether the pipeline has been installed.
    pub fn is_initialized(&self) -> (r: bool)
        ensures
            r == self@ is Some,
    {
        self.settings.is_some()
    }

    /// Installs the pipeline from this request unless it is installed
    /// already, in which case nothing changes and the request is dropped.
    pub fn ensure_initialized(
        &mut self,
        name: &str,
        options: &Option<LoggerOptions>,
        override_level: Option<&str>,
    ) -> (r: Result<(), InitError>)
        ensures
            final(self)@ == init_step(old(self)@, request_of(name@, *options, opt_chars(override_level))),
            r is Ok <==> final(self)@ is Some,
            old(self)@ is Some ==> r is Ok,
            old(self)@ is None ==> r == init_outcome(request_of(name@, *options, opt_chars(override_level))),
    {
        if self.settings.is_some() {
            return Ok(());
        }
        let (level, json): (Option<&str>, Option<bool>) = match options {
            Some(o) => (
                match &o.level {
                    Some(l) => Some(l.as_str()),
                    None => None,
                },
                o.json,
            ),
            None => (None, None),
        };
        match resolve_threshold(override_level, level) {
            Ok(t) => {
                let json = match json {
                    Some(j) => j,
                    None => false,
                };
                self.settings = Some(Settings { threshold: t, json, service_name: String::from_str(name) });
                Ok(())
            },
            Err(e) => Err(e),
        }
    }

    /// Whether an event at `s` passes this pipeline.
    pub fn passes(&self, s: Severity) -> (r: bool)
        ensures
            r == passes(self@, s),
    {
        match &self.settings {
            Some(st) => s.is_admitted_by(st.threshold),
            None => false,
        }
    }

    /// The line that an event at `s` with `message`, stamped `t`, produces:
    /// `None` when the pipeline is empty or filters the event out.
    pub fn emit(&self, s: Severity, message: &str, t: DateTime) -> (r: Option<String>)
        requires
            t.wf(),
        ensures
            match r {
                Some(line) => rendered(self@, s, message@, t) == Some(line@),
                None => rendered(self@, s, message@, t) is None,
            },
    {
        match &self.settings {
            Some(st) => {
                if s.is_admitted_by(st.threshold) {
                    if st.json {
                        Some(render_json(t, st.service_name.as_str(), s, message))
                    } else {
                        Some(render_plain(t, st.service_name.as_str(), s, message))
                    }
                } else {
                    None
                }
            },
            None => None,
        }
    }
}


/// An event at `s` passes the pipeline in this state.
pub open spec fn passes(state: Option<SettingsView>, s: Severity) -> bool {
    state is Some && admits(state->0.threshold, s)
}

/// `r` is what an event emitted now yields: a line rendered at some valid
/// instant when the event passes, nothing otherwise.
pub open spec fn emitted_now(
    state: Option<SettingsView>,
    s: Severity,
    message: Seq<char>,
    r: Option<String>,
) -> bool {
    match r {
        Some(line) => passes(state, s) && exists|t: DateTime|
            t.wf() && rendered(state, s, message, t) == Some(line@),
        None => !passes(state, s),
    }
}

/// A handle through which events are emitted; it holds no state of its
/// own, every handle routes through the one pipeline.
#[derive(Clone, Copy, Debug)]
pub struct Logger {}

impl Logger {
    /// Constructs a handle for the service `name`, installing the pipeline
    /// from this request if no earlier one did; a later request's name and
    /// options have no effect.
    pub fn new(
        pipeline: &mut Pipeline,
        name: String,
        options: Option<LoggerOptions>,
        override_level: Option<&str>,
    ) -> (r: Result<Logger, InitError>)
        ensures
            final(pipeline)@ == init_step(old(pipeline)@, request_of(name@, options, opt_chars(override_level))),
            r is Ok <==> final(pipeline)@ is Some,
            old(pipeline)@ is None ==> match r {
                Ok(_) => init_outcome(request_of(name@, options, opt_chars(override_level))) is Ok,
                Err(e) => init_outcome(request_of(name@, options, opt_chars(override_level))) == Err::<(), InitError>(e),
            },
    {
        match pipeline.ensure_initialized(name.as_str(), &options, override_level) {
            Ok(()) => Ok(Logger {}),
            Err(e) => Err(e),
        }
    }

    fn emit_now(&self, pipeline: &Pipeline, s: Severity, message: &str) -> (r: Option<String>)
        ensures
            emitted_now(pipeline@, s, message@, r),
    {
        if !pipeline.passes(s) {
            return None;
        }
        let t = now_utc();
        let r = pipeline.emit(s, message, t);
        if let Some(line) = &r {
            assert(rendered(pipeline@, s, message@, t) == Some(line@));
        }
        r
    }

    /// Emits `message` at debug severity, stamped with the current time.
    pub fn debug(&self, pipeline: &Pipeline, message: String) -> (r: Option<String>)
        ensures
            emitted_now(pipeline@, Severity::Debug, message@, r),
    {
        self.emit_now(pipeline, Severity::Debug, message.as_str())
    }

    /// Emits `message` at info severity, stamped with the current time.
    pub fn info(&self, pipeline: &Pipeline, message: String) -> (r: Option<String>)
        ensures
            emitted_now(pipeline@, Severity::Info, message@, r),
    {
        self.emit_now(pipeline, Severity::Info, message.as_str())
    }

    /// Emits `message` at warn severity, stamped with the current time.
    pub fn warn(&self, pipeline: &Pipeline, message: String) -> (r: Option<String>)
        ensures
            emitted_now(pipeline@, Severity::Warn, message@, r),
    {
        self.emit_now(pipeline, Severity::Warn, message.as_str())
    }

    /// Emits `message` at error severity, stamped with the current time.
    pub fn error(&self, pipeline: &Pipeline, message: String) -> (r: Option<String>)
        ensures
            emitted_now(pipeline@, Severity::Error, message@, r),
    {
        self.emit_now(pipeline, Severity::Error, message.as_str())
    }
}

/// Once the pipeline is installed, no later construction request changes
/// it, whatever its name, options or override.
pub proof fn lemma_installed_is_fixed(state: Option<SettingsView>, reqs: Seq<InitRequest>)
    requires
        state is Some,
    ensures
        run_inits(state, reqs) == state,
    decreases reqs.len(),
{
    if reqs.len() > 0 {
        lemma_installed_is_fixed(init_step(state, reqs[0]), reqs.drop_first());
    }
}

/// Over any sequence of construction requests whose first one succeeds, the
/// settings in force are the first request's: its level and json flag win.
pub proof fn lemma_first_request_wins(reqs: Seq<InitRequest>)
    requires
        reqs.len() > 0,
        init_step(None, reqs[0]) is Some,
    ensures
        run_inits(None, reqs) == init_step(None, reqs[0]),
{
    lemma_installed_is_fixed(init_step(None, reqs[0]), reqs.drop_first());
}

/// Under one pipeline, an event that is emitted at `s1` would also be
/// emitted at any more severe `s2`.
pub proof fn lemma_emission_monotone(
    state: Option<SettingsView>,
    s1: Severity,
    s2: Severity,
    message: Seq<char>,
    t: DateTime,
)
    requires
        rank(s1) < rank(s2),
        rendered(state, s1, message, t) is Some,
    ensures
        rendered(state, s2, message, t) is Some,
{
    lemma_threshold_monotone(state->0.threshold, s1, s2);
}

} // verus!
