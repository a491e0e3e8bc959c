//! The poller as a state machine: from a state and what the driver reports
//! to the next state and what the driver must do.

use crate::config::{
    delay_setting, loaded, Configuration, DelaySetting, DelaySettingView, DEFAULT_DELAY,
    TARGETS_KEY,
};
use crate::error::{StartupError, StartupErrorView};
use crate::listing::{
    first_directory, has_entry_named, locate_directory, verify_file_exists, DirectoryEntry,
    DirectoryEntryView,
};
use crate::outcome::{outcome_of_failure, outcome_of_status, OutcomeView, PollOutcome};
use vstd::prelude::*;

verus! {

/// Where the poller stands.
#[derive(Clone, Copy, Debug, PartialEq, Eq, Structural)]
pub enum Phase {
    /// Made and not yet started.
    Created,
    /// Waiting for the children of the documents directory.
    Locating,
    /// Waiting for the children of the directory that was found.
    Verifying,
    /// Waiting for the content of the configuration file.
    Loading,
    /// Waiting for the driver to announce that polling begins.
    Announcing,
    /// Waiting for the answer to the request for the current address.
    Requesting,
    /// Waiting for the driver to report the outcome and to pause.
    Reporting,
    /// Running with no address to poll.
    Idle,
    /// Stopped before polling.
    Failed,
}

/// What the driver reports back after it has done what it was asked.
#[derive(Debug, PartialEq, Eq)]
pub enum Event {
    /// The children of the directory that was to be listed; `None` where it
    /// cannot be resolved or listed.
    Listed { entries: Option<Vec<DirectoryEntry>> },
    /// The content of the file that was to be read; `None` where it cannot
    /// be read.
    FileRead { content: Option<String> },
    /// The request brought a response with this status code.
    Responded { status: u16 },
    /// The request brought no response; `detail` is the transport's own
    /// description of the failure.
    TransportFailed { detail: String },
    /// The driver has done what it was asked and has nothing to report.
    Done,
}

/// The mathematical value of an [`Event`].
pub enum EventView {
    Listed { entries: Option<Seq<DirectoryEntryView>> },
    FileRead { content: Option<Seq<char>> },
    Responded { status: u16 },
    TransportFailed { detail: Seq<char> },
    Done,
}

impl View for Event {
    type V = EventView;

    open spec fn view(&self) -> EventView {
        match self {
            Event::Listed { entries } => EventView::Listed { entries: entries.deep_view() },
            Event::FileRead { content } => EventView::FileRead { content: content.deep_view() },
            Event::Responded { status } => EventView::Responded { status: *status },
            Event::TransportFailed { detail } => EventView::TransportFailed { detail: detail@ },
            Event::Done => EventView::Done,
        }
    }
}

/// What the driver must do next.
#[derive(Debug, PartialEq, Eq)]
pub enum Action {
    /// List the children of the user's documents directory, where the
    /// directory `dirname` is looked for, and report them with
    /// [`Event::Listed`].
    ListDocuments { dirname: String },
    /// List the children of the directory at `path` and report them with
    /// [`Event::Listed`].
    ListDirectory { path: String },
    /// Read the file `file_name` in `directory` and report its content with
    /// [`Event::FileRead`].
    ReadFile { directory: String, file_name: String },
    /// Announce that polling begins, with what the configuration says of the
    /// delay, and report [`Event::Done`].
    Announce { delay: DelaySetting },
    /// Send one GET request to `url` and report [`Event::Responded`] or
    /// [`Event::TransportFailed`].
    Request { url: String },
    /// Log the outcome of the request to `url`, wait `pause` seconds and
    /// report [`Event::Done`].
    Report { url: String, outcome: PollOutcome, pause: u64 },
    /// Nothing is to be polled: keep running, and report [`Event::Done`] to
    /// ask again.
    Idle,
    /// Report the error and end the run.
    Stop { error: StartupError },
}

/// The mathematical value of an [`Action`].
pub enum ActionView {
    ListDocuments { dirname: Seq<char> },
    ListDirectory { path: Seq<char> },
    ReadFile { directory: Seq<char>, file_name: Seq<char> },
    Announce { delay: DelaySettingView },
    Request { url: Seq<char> },
    Report { url: Seq<char>, outcome: OutcomeView, pause: u64 },
    Idle,
    Stop { error: StartupErrorView },
}

impl View for Action {
    type V = ActionView;

    open spec fn view(&self) -> ActionView {
        match self {
            Action::ListDocuments { dirname } => ActionView::ListDocuments { dirname: dirname@ },
            Action::ListDirectory { path } => ActionView::ListDirectory { path: path@ },
            Action::ReadFile { directory, file_name } => ActionView::ReadFile {
                directory: directory@,
                file_name: file_name@,
            },
            Action::Announce { delay } => ActionView::Announce { delay: delay@ },
            Action::Request { url } => ActionView::Request { url: url@ },
            Action::Report { url, outcome, pause } => ActionView::Report {
                url: url@,
                outcome: outcome@,
                pause: *pause,
            },
            Action::Idle => ActionView::Idle,
            Action::Stop { error } => ActionView::Stop { error: error@ },
        }
    }
}

/// The answer to an event that the poller was not waiting for.
#[derive(Clone, Copy, Debug, PartialEq, Eq, Structural)]
pub struct UnexpectedEvent;

/// The poller: the names it was made with, what startup has found so far,
/// and where it stands in its round over the addresses.
pub struct RobotConsumer {
    /// The name of the directory, below the documents directory, that holds
    /// the configuration file.
    pub dirname: String,
    /// The name of the configuration file.
    pub filename: String,
    dirpath: Option<String>,
    consumer_config: Configuration,
    phase: Phase,
    delay: u64,
    cursor: usize,
}

/// The mathematical value of a [`RobotConsumer`].
pub struct ConsumerView {
    pub dirname: Seq<char>,
    pub filename: Seq<char>,
    /// The path of the directory that holds the configuration file, once it
    /// is found.
    pub dirpath: Option<Seq<char>>,
    /// The configuration, empty until it is loaded.
    pub config: Map<Seq<char>, Seq<Seq<char>>>,
    pub phase: Phase,
    /// The seconds to wait after each request.
    pub delay: u64,
    /// The position of the current address among the configured ones.
    pub cursor: nat,
}

impl View for RobotConsumer {
    type V = ConsumerView;

    closed spec fn view(&self) -> ConsumerView {
        ConsumerView {
            dirname: self.dirname@,
            filename: self.filename@,
            dirpath: self.dirpath.deep_view(),
            config: self.consumer_config@,
            phase: self.phase,
            delay: self.delay,
            cursor: self.cursor as nat,
        }
    }
}

impl ConsumerView {
    /// The state of a poller that was just made.
    pub open spec fn created(dirname: Seq<char>, filename: Seq<char>) -> ConsumerView {
        ConsumerView {
            dirname,
            filename,
            dirpath: None,
            config: Map::empty(),
            phase: Phase::Created,
            delay: DEFAULT_DELAY,
            cursor: 0,
        }
    }

    /// The configured addresses, in polling order; none where the
    /// configuration does not name any.
    pub open spec fn targets(self) -> Seq<Seq<char>> {
        if self.config.contains_key(TARGETS_KEY@) {
            self.config[TARGETS_KEY@]
        } else {
            Seq::empty()
        }
    }

    /// The address that the cursor stands at, if it stands at one.
    pub open spec fn current_target(self) -> Option<Seq<char>> {
        if self.cursor < self.targets().len() {
            Some(self.targets()[self.cursor as int])
        } else {
            None
        }
    }

    /// The position that follows the cursor in the round: one further, and
    /// from the last address back to the first.
    pub open spec fn next_cursor(self) -> nat {
        if self.cursor + 1 < self.targets().len() {
            self.cursor + 1
        } else {
            0
        }
    }

    /// Whether the poller is polling: it waits for a response or for the end
    /// of a pause.
    pub open spec fn is_polling(self) -> bool {
        self.phase == Phase::Requesting || self.phase == Phase::Reporting
    }

    /// What holds of every state that a poller reaches: it looks into a
    /// directory only once it has found one, it is past startup only with a
    /// configuration that has a `delay` key and with the delay that this key
    /// gives, it polls only with the cursor at an address, and it idles only
    /// where the list of addresses is there and empty.
    pub open spec fn well_formed(self) -> bool {
        &&& (self.phase == Phase::Verifying || self.phase == Phase::Loading)
            ==> self.dirpath is Some
        &&& (self.phase == Phase::Announcing || self.is_polling() || self.phase == Phase::Idle)
            ==> delay_setting(self.config).seconds() == Some(self.delay)
        &&& self.is_polling() ==> self.current_target() is Some
        &&& self.phase == Phase::Idle ==> self.config.contains_key(TARGETS_KEY@)
            && self.targets().len() == 0
    }

    /// Start: whatever came before, the search for the directory begins.
    pub open spec fn started(self) -> (ConsumerView, ActionView) {
        (
            ConsumerView { phase: Phase::Locating, ..self },
            ActionView::ListDocuments { dirname: self.dirname },
        )
    }

    /// Startup fails with `error`.
    pub open spec fn failed(self, error: StartupErrorView) -> (ConsumerView, ActionView) {
        (ConsumerView { phase: Phase::Failed, ..self }, ActionView::Stop { error })
    }

    /// The documents directory was listed: the first directory of the wanted
    /// name is the one to look into.
    pub open spec fn after_documents_listed(self, entries: Option<Seq<DirectoryEntryView>>) -> (
        ConsumerView,
        ActionView,
    ) {
        match entries {
            Some(children) => match first_directory(children, self.dirname) {
                Some(i) => (
                    ConsumerView {
                        phase: Phase::Verifying,
                        dirpath: Some(children[i].path),
                        ..self
                    },
                    ActionView::ListDirectory { path: children[i].path },
                ),
                None => self.failed(StartupErrorView::DirectoryNotFound),
            },
            None => self.failed(StartupErrorView::DirectoryNotFound),
        }
    }

    /// The directory at `directory` was listed: the file must be among its
    /// children.
    pub open spec fn after_directory_listed(
        self,
        directory: Seq<char>,
        entries: Option<Seq<DirectoryEntryView>>,
    ) -> (ConsumerView, ActionView) {
        if entries is Some && has_entry_named(entries->Some_0, self.filename) {
            (
                ConsumerView { phase: Phase::Loading, ..self },
                ActionView::ReadFile { directory, file_name: self.filename },
            )
        } else {
            self.failed(StartupErrorView::FileNotFound { file_name: self.filename })
        }
    }

    /// The file was read: its content must be a configuration with a
    /// `delay` key.
    pub open spec fn after_file_read(self, content: Option<Seq<char>>) -> (
        ConsumerView,
        ActionView,
    ) {
        match loaded(content) {
            Ok(config) => {
                let configured = ConsumerView { config, ..self };
                match delay_setting(config).seconds() {
                    Some(delay) => (
                        ConsumerView { phase: Phase::Announcing, delay, ..configured },
                        ActionView::Announce { delay: delay_setting(config) },
                    ),
                    None => configured.failed(StartupErrorView::MissingDelay),
                }
            },
            Err(error) => self.failed(error),
        }
    }

    /// Polling begins, with the first address.
    pub open spec fn first_request(self) -> (ConsumerView, ActionView) {
        if !self.config.contains_key(TARGETS_KEY@) {
            self.failed(StartupErrorView::MissingTargets)
        } else if self.targets().len() == 0 {
            (ConsumerView { phase: Phase::Idle, ..self }, ActionView::Idle)
        } else {
            (
                ConsumerView { phase: Phase::Requesting, cursor: 0, ..self },
                ActionView::Request { url: self.targets()[0] },
            )
        }
    }

    /// The request for the address `url` came to `outcome`.
    pub open spec fn reported(self, url: Seq<char>, outcome: OutcomeView) -> (
        ConsumerView,
        ActionView,
    ) {
        (
            ConsumerView { phase: Phase::Reporting, ..self },
            ActionView::Report { url, outcome, pause: self.delay },
        )
    }

    /// The pause is over: the next address of the round is requested.
    pub open spec fn next_request(self) -> (ConsumerView, ActionView) {
        (
            ConsumerView { phase: Phase::Requesting, cursor: self.next_cursor(), ..self },
            ActionView::Request { url: self.targets()[self.next_cursor() as int] },
        )
    }

    /// The next state and the next action, where `event` answers what the
    /// poller is waiting for; `None` where it does not.
    pub open spec fn transition(self, event: EventView) -> Option<(ConsumerView, ActionView)> {
        match (self.phase, event) {
            (Phase::Locating, EventView::Listed { entries }) => Some(
                self.after_documents_listed(entries),
            ),
            (Phase::Verifying, EventView::Listed { entries }) => match self.dirpath {
                Some(directory) => Some(self.after_directory_listed(directory, entries)),
                None => None,
            },
            (Phase::Loading, EventView::FileRead { content }) => Some(
                self.after_file_read(content),
            ),
            (Phase::Announcing, EventView::Done) => Some(self.first_request()),
            (Phase::Requesting, EventView::Responded { status }) => match self.current_target() {
                Some(url) => Some(self.reported(url, outcome_of_status(status))),
                None => None,
            },
            (Phase::Requesting, EventView::TransportFailed { detail }) => {
                match self.current_target() {
                    Some(url) => Some(self.reported(url, outcome_of_failure(detail))),
                    None => None,
                }
            },
            (Phase::Reporting, EventView::Done) => match self.current_target() {
                Some(_) => Some(self.next_request()),
                None => None,
            },
            (Phase::Idle, EventView::Done) => Some((self, ActionView::Idle)),
            _ => None,
        }
    }
}

impl RobotConsumer {
    /// A poller that will look for the file `robot_filename` in the
    /// directory `robot_dirname` below the user's documents directory.
    pub fn new(robot_dirname: String, robot_filename: String) -> (r: RobotConsumer)
        ensures
            r@ == ConsumerView::created(robot_dirname@, robot_filename@),
    {
        RobotConsumer {
            dirname: robot_dirname,
            filename: robot_filename,
            dirpath: None,
            consumer_config: Configuration::new(),
            phase: Phase::Created,
            delay: DEFAULT_DELAY,
            cursor: 0,
        }
    }

    /// Begins the run: the first thing to do is to list the documents
    /// directory.
    pub fn start(&mut self) -> (r: Action)
        ensures
            (final(self)@, r@) == old(self)@.started(),
    {
        self.phase = Phase::Locating;
        Action::ListDocuments { dirname: self.dirname.clone() }
    }

    /// Where the poller stands.
    pub fn phase(&self) -> (r: Phase)
        ensures
            r == self@.phase,
    {
        self.phase
    }

    /// The configuration: empty until the file is loaded.
    pub fn configuration(&self) -> (r: &Configuration)
        ensures
            r@ == self@.config,
    {
        &self.consumer_config
    }

    /// The seconds to wait after each request.
    pub fn delay(&self) -> (r: u64)
        ensures
            r == self@.delay,
    {
        self.delay
    }

    /// The path of the directory that holds the configuration file, once
    /// startup has found it.
    pub fn directory(&self) -> (r: Option<String>)
        ensures
            r.deep_view() == self@.dirpath,
    {
        match &self.dirpath {
            Some(path) => Some(path.clone()),
            None => None,
        }
    }

    fn fail(&mut self, error: StartupError) -> (r: Action)
        ensures
            (final(self)@, r@) == old(self)@.failed(error@),
    {
        self.phase = Phase::Failed;
        Action::Stop { error }
    }

    fn current_url(&self) -> (r: Option<String>)
        ensures
            r.deep_view() == self@.current_target(),
    {
        match self.consumer_config.targets() {
            Some(urls) => {
                if self.cursor < urls.len() {
                    let url = urls[self.cursor].clone();
                    Some(url)
                } else {
                    None
                }
            },
            None => None,
        }
    }

    /// Takes what the driver reports and says what it must do next.
    ///
    /// An event that does not answer what the poller is waiting for is
    /// refused, and the poller stays as it is.
    pub fn step(&mut self, event: Event) -> (r: Result<Action, UnexpectedEvent>)
        ensures
            match old(self)@.transition(event@) {
                Some((next, action)) => r is Ok && r->Ok_0@ == action && final(self)@ == next,
                None => r is Err && final(self)@ == old(self)@,
            },
    {
        match (self.phase, event) {
            (Phase::Locating, Event::Listed { entries }) => {
                match entries {
                    Some(children) => {
                        match locate_directory(&children, self.dirname.as_str()) {
                            Some(i) => {
                                let path = children[i].path.clone();
                                self.dirpath = Some(path.clone());
                                self.phase = Phase::Verifying;
                                Ok(Action::ListDirectory { path })
                            },
                            None => Ok(self.fail(StartupError::DirectoryNotFound)),
                        }
                    },
                    None => Ok(self.fail(StartupError::DirectoryNotFound)),
                }
            },
            (Phase::Verifying, Event::Listed { entries }) => {
                let directory = match &self.dirpath {
                    Some(path) => path.clone(),
                    None => {
                        return Err(UnexpectedEvent);
                    },
                };
                let found = match &entries {
                    Some(children) => verify_file_exists(children, self.filename.as_str()),
                    None => false,
                };
                if found {
                    self.phase = Phase::Loading;
                    Ok(Action::ReadFile { directory, file_name: self.filename.clone() })
                } else {
                    let file_name = self.filename.clone();
                    Ok(self.fail(StartupError::FileNotFound { file_name }))
                }
            },
            (Phase::Loading, Event::FileRead { content }) => {
                match Configuration::load(content) {
                    Ok(config) => {
                        let setting = config.delay();
                        self.consumer_config = config;
                        match setting.seconds() {
                            Some(delay) => {
                                self.delay = delay;
                                self.phase = Phase::Announcing;
                                Ok(Action::Announce { delay: setting })
                            },
                            None => Ok(self.fail(StartupError::MissingDelay)),
                        }
                    },
                    Err(error) => Ok(self.fail(error)),
                }
            },
            (Phase::Announcing, Event::Done) => {
                let first = match self.consumer_config.targets() {
                    Some(urls) => {
                        if urls.len() == 0 {
                            None
                        } else {
                            let url = urls[0].clone();
                            Some(url)
                        }
                    },
                    None => {
                        return Ok(self.fail(StartupError::MissingTargets));
                    },
                };
                match first {
                    Some(url) => {
                        self.cursor = 0;
                        self.phase = Phase::Requesting;
                        Ok(Action::Request { url })
                    },
                    None => {
                        self.phase = Phase::Idle;
                        Ok(Action::Idle)
                    },
                }
            },
            (Phase::Requesting, Event::Responded { status }) => {
                match self.current_url() {
                    Some(url) => {
                        let outcome = PollOutcome::from_status(status);
                        self.phase = Phase::Reporting;
                        Ok(Action::Report { url, outcome, pause: self.delay })
                    },
                    None => Err(UnexpectedEvent),
                }
            },
            (Phase::Requesting, Event::TransportFailed { detail }) => {
                match self.current_url() {
                    Some(url) => {
                        let outcome = PollOutcome::from_transport_error(detail);
                        self.phase = Phase::Reporting;
                        Ok(Action::Report { url, outcome, pause: self.delay })
                    },
                    None => Err(UnexpectedEvent),
                }
            },
            (Phase::Reporting, Event::Done) => {
                let next = match self.consumer_config.targets() {
                    Some(urls) => {
                        if self.cursor < urls.len() {
                            let position: usize = if self.cursor + 1 < urls.len() {
                                self.cursor + 1
                            } else {
                                0
                            };
                            let url = urls[position].clone();
                            Some((position, url))
                        } else {
                            None
                        }
                    },
                    None => None,
                };
                match next {
                    Some((position, url)) => {
                        self.cursor = position;
                        self.phase = Phase::Requesting;
                        Ok(Action::Request { url })
                    },
                    None => Err(UnexpectedEvent),
                }
            },
            (Phase::Idle, Event::Done) => Ok(Action::Idle),
            _ => Err(UnexpectedEvent),
        }
    }
}

} // verus!
