//! The server configuration and the steps that find, create, read and write it.
use vstd::prelude::*;
use vstd::string::StrSliceExecFns;
use vstd::string::StringExecFns;
use crate::common::{path_pushed, project_dir, project_dir_of, push_path};

verus! {

broadcast use vstd::string::group_string_axioms;

/// What a configuration holds, as mathematical values.
pub struct ConfigView {
    pub ip: Seq<char>,
    pub worker_count: usize,
    pub storage_dir: Seq<char>,
}

/// The server configuration: the address to listen on, how many workers
/// serve requests, and where the served files are stored.
pub struct Config {
    ip: String,
    worker_count: usize,
    storage_dir: String,
}

impl View for Config {
    type V = ConfigView;

    closed spec fn view(&self) -> ConfigView {
        ConfigView { ip: self.ip@, worker_count: self.worker_count, storage_dir: self.storage_dir@ }
    }
}

/// The default storage directory for the executable at `exe`: the folder
/// `storage` in its project directory.
pub open spec fn default_storage_path(exe: Seq<char>) -> Seq<char> {
    path_pushed(project_dir_of(exe), "storage"@)
}

/// The configuration used where nothing else is given, for the executable at
/// `exe`: address `0.0.0.0:8080`, one worker, storage in the project
/// directory's `storage` folder.
pub open spec fn default_view(exe: Seq<char>) -> ConfigView {
    ConfigView { ip: "0.0.0.0:8080"@, worker_count: 1, storage_dir: default_storage_path(exe) }
}

/// The configuration of the given address and worker count, each taking its
/// default when missing, and the storage directory `storage_dir`.
pub open spec fn settings_view(
    ip: Option<Seq<char>>,
    worker_count: Option<usize>,
    storage_dir: Seq<char>,
) -> ConfigView {
    ConfigView {
        ip: match ip {
            Some(s) => s,
            None => "0.0.0.0:8080"@,
        },
        worker_count: match worker_count {
            Some(n) => n,
            None => 1,
        },
        storage_dir,
    }
}

/// The configuration built from optional settings: each one given is kept,
/// each one missing takes its default for the executable at `exe`.
pub open spec fn config_from_options(
    ip: Option<Seq<char>>,
    worker_count: Option<usize>,
    storage_dir: Option<Seq<char>>,
    exe: Seq<char>,
) -> ConfigView {
    settings_view(
        ip,
        worker_count,
        match storage_dir {
            Some(s) => s,
            None => default_storage_path(exe),
        },
    )
}

/// The view of an optional string.
pub open spec fn opt_view(s: Option<String>) -> Option<Seq<char>> {
    match s {
        Some(t) => Some(t@),
        None => None,
    }
}

impl Config {
    /// Builds a configuration from optional settings, taking the default for
    /// each missing one. `exe`, the path of the running executable, is needed
    /// only when no storage directory is given: the default one is the
    /// `storage` folder of its project directory. It never fails.
    pub fn new(
        ip: Option<String>,
        worker_count: Option<usize>,
        master_dir: Option<String>,
        exe: Option<&String>,
    ) -> (res: Result<Config, std::io::Error>)
        requires
            master_dir is Some || exe is Some,
        ensures
            res matches Ok(c) && c@ == settings_view(
                opt_view(ip),
                worker_count,
                match master_dir {
                    Some(s) => s@,
                    None => default_storage_path(exe->0@),
                },
            ),
    {
        let ip = match ip {
            Some(s) => s,
            None => String::from_str("0.0.0.0:8080"),
        };
        let worker_count = match worker_count {
            Some(n) => n,
            None => 1usize,
        };
        let storage_dir = match master_dir {
            Some(s) => s,
            None => Self::defaults(exe.unwrap()).storage_dir,
        };
        Ok(Config { ip, worker_count, storage_dir })
    }

    /// The default configuration for the executable at `exe`.
    pub fn defaults(exe: &String) -> (res: Config)
        ensures
            res@ == default_view(exe@),
    {
        let project_dir = project_dir(exe);
        Config {
            ip: String::from_str("0.0.0.0:8080"),
            worker_count: 1usize,
            storage_dir: push_path(&project_dir, "storage"),
        }
    }

    /// The address the server listens on.
    pub fn get_ip(&self) -> (res: &String)
        ensures
            res@ == self@.ip,
    {
        &self.ip
    }

    /// The number of workers.
    pub fn get_worker_count(&self) -> (res: usize)
        ensures
            res == self@.worker_count,
    {
        self.worker_count
    }

    /// The storage directory.
    pub fn get_stroage_dir(&self) -> (res: &String)
        ensures
            res@ == self@.storage_dir,
    {
        &self.storage_dir
    }

    /// Replaces the address; nothing else changes.
    pub fn set_ip(&mut self, ip: String)
        ensures
            final(self)@ == (ConfigView { ip: ip@, ..old(self)@ }),
    {
        self.ip = ip
    }

    /// Replaces the number of workers; nothing else changes.
    pub fn set_worker_count(&mut self, worker_count: usize)
        ensures
            final(self)@ == (ConfigView { worker_count, ..old(self)@ }),
    {
        self.worker_count = worker_count
    }

    /// Replaces the storage directory; nothing else changes.
    pub fn set_storage_dir(&mut self, storage_dir: String)
        ensures
            final(self)@ == (ConfigView { storage_dir: storage_dir@, ..old(self)@ }),
    {
        self.storage_dir = storage_dir
    }

    /// A copy holding the same settings.
    pub fn clone(&self) -> (res: Self)
        ensures
            res@ == self@,
    {
        Config {
            ip: self.get_ip().clone(),
            worker_count: self.get_worker_count(),
            storage_dir: self.get_stroage_dir().clone(),
        }
    }
}

/// Where the configuration file is looked for by default: `config.toml` in
/// the project directory of the executable at `exe`.
pub open spec fn default_config_path(exe: Seq<char>) -> Seq<char> {
    path_pushed(project_dir_of(exe), "config.toml"@)
}

/// The default location of the configuration file, for the executable at `exe`.
pub fn default_config_dir(exe: &String) -> (res: String)
    ensures
        res@ == default_config_path(exe@),
{
    let project_dir = project_dir(exe);
    push_path(&project_dir, "config.toml")
}

/// A line read as an answer can be judged when its first character is a
/// single byte.
pub open spec fn answer_readable(line: Seq<char>) -> bool {
    line.len() >= 1 && (line[0] as u32) < 128
}

/// An answer says yes when it starts with `y` or `Y`.
pub open spec fn says_yes(line: Seq<char>) -> bool {
    line[0] == 'y' || line[0] == 'Y'
}

/// Whether an answer line says yes.
pub fn answer_is_yes(line: &String) -> (res: bool)
    requires
        answer_readable(line@),
    ensures
        res == says_yes(line@),
{
    let c = line.as_str().get_char(0);
    c == 'y' || c == 'Y'
}

/// The message of a failure to write a configuration as TOML.
pub open spec fn serialize_error_text(detail: Seq<char>) -> Seq<char> {
    "Could not serialize config: "@ + detail
}

fn serialize_error_message(detail: &String) -> (res: String)
    ensures
        res@ == serialize_error_text(detail@),
{
    let mut res = String::from_str("Could not serialize config: ");
    res.append(detail.as_str());
    res
}

/// How far finding the configuration has come.
#[derive(PartialEq, Eq, Structural)]
pub enum FetchStage {
    /// Nothing done yet.
    Start,
    /// No path was given; waiting for the executable's path, to show the
    /// default location.
    LocatingForPrompt,
    /// Waiting for the answer to whether the default location is used.
    AwaitingDefaultAnswer,
    /// Waiting for the executable's path, to use the default location.
    LocatingDefault,
    /// Waiting for the configuration file to be opened.
    Opening,
    /// Waiting for the answer to whether the file is created.
    AwaitingCreateAnswer,
    /// Waiting for the file to be created.
    Creating,
    /// Waiting for the file's contents.
    Reading,
    /// The file was empty; waiting for the executable's path, whose project
    /// directory holds the default storage folder.
    LocatingStorage,
    /// Waiting for the contents to be parsed as TOML.
    Parsing,
    /// Waiting for the configuration to be written as TOML.
    Serializing,
    /// Waiting for the TOML text to be written to the file.
    Writing,
    /// Finished: an exit or a result was handed out.
    Done,
}

/// What happened outside since the last step.
pub enum FetchEvent {
    /// The start.
    Begin,
    /// The path of the running executable, or why it is not known.
    Located(Result<String, std::io::Error>),
    /// The line the user answered with, or why none was read.
    Answered(Result<String, std::io::Error>),
    /// Whether the configuration file opened.
    Opened(Result<(), std::io::Error>),
    /// Whether the configuration file was created.
    Created(Result<(), std::io::Error>),
    /// The contents of the configuration file, or why they were not read.
    ReadDone(Result<String, std::io::Error>),
    /// The configuration the TOML contents describe, or why they do not.
    Parsed(Result<Config, std::io::Error>),
    /// The configuration written as TOML, or the serializer's error text.
    Serialized(Result<String, String>),
    /// Whether the TOML text was written to the configuration file.
    Written(Result<(), std::io::Error>),
}

/// Why finding the configuration ends the program, and with which status.
pub enum ExitReason {
    /// The user declined; status 1.
    Declined,
    /// The answer could not be read; status 3.
    StdinFailed(std::io::Error),
    /// The configuration file could not be created; status 4.
    CreateFailed(std::io::Error),
    /// The configuration file could not be read; status 2.
    ReadFailed(std::io::Error),
}

/// The exit status for each reason.
pub open spec fn exit_status(reason: ExitReason) -> i32 {
    match reason {
        ExitReason::Declined => 1,
        ExitReason::StdinFailed(_) => 3,
        ExitReason::CreateFailed(_) => 4,
        ExitReason::ReadFailed(_) => 2,
    }
}

impl ExitReason {
    /// The status the program exits with.
    pub fn status(&self) -> (res: i32)
        ensures
            res == exit_status(*self),
    {
        match self {
            ExitReason::Declined => 1,
            ExitReason::StdinFailed(_) => 3,
            ExitReason::CreateFailed(_) => 4,
            ExitReason::ReadFailed(_) => 2,
        }
    }
}

/// Why no configuration could be had.
pub enum FetchError {
    /// An input or output failure.
    Io(std::io::Error),
    /// The configuration could not be written as TOML; the message says why.
    Serialize(String),
}

/// What has to be done outside for the next step.
pub enum FetchAction {
    /// Say that no configuration path was given, then find the executable's path.
    AnnounceAndLocate,
    /// Find the executable's path.
    Locate,
    /// Say that the configuration file is empty and a new configuration is
    /// made, then find the executable's path.
    AnnounceEmptyAndLocate,
    /// Ask whether this default path is used, and read the answer line.
    AskUseDefault(String),
    /// Open the configuration file at this path for reading.
    Open(String),
    /// Report why the file did not open, ask whether to create it, and read the answer line.
    AskCreate(std::io::Error),
    /// Create the configuration file at this path.
    Create(String),
    /// Read the contents of the opened file.
    Read,
    /// Parse these contents as a TOML configuration.
    Parse(String),
    /// Write this configuration as TOML text, first saying that the file
    /// was empty and a new configuration is made when `announce_empty` is set.
    Serialize { config: Config, announce_empty: bool },
    /// Write this text to the configuration file at this path.
    Write { path: String, text: String },
    /// End the program.
    Exit(ExitReason),
    /// Finding the configuration is over: here is its result.
    Finish(Result<Config, FetchError>),
}

/// Finding the configuration, one step per event: the settings given on the
/// command line, the configuration file's location once known, and the
/// configuration once known.
pub struct FetchConfig {
    loc: Option<String>,
    ip: Option<String>,
    worker_count: Option<usize>,
    storage_dir: Option<String>,
    conf_loc: String,
    phase: Phase,
}

/// Where finding the configuration stands, with the configuration while it
/// is being written out.
enum Phase {
    Start,
    LocatingForPrompt,
    AwaitingDefaultAnswer,
    LocatingDefault,
    Opening,
    AwaitingCreateAnswer,
    Creating,
    Reading,
    LocatingStorage,
    Parsing,
    Serializing(Config),
    Writing(Config),
    Done,
}

/// The stage of a phase.
spec fn phase_stage(phase: Phase) -> FetchStage {
    match phase {
        Phase::Start => FetchStage::Start,
        Phase::LocatingForPrompt => FetchStage::LocatingForPrompt,
        Phase::AwaitingDefaultAnswer => FetchStage::AwaitingDefaultAnswer,
        Phase::LocatingDefault => FetchStage::LocatingDefault,
        Phase::Opening => FetchStage::Opening,
        Phase::AwaitingCreateAnswer => FetchStage::AwaitingCreateAnswer,
        Phase::Creating => FetchStage::Creating,
        Phase::Reading => FetchStage::Reading,
        Phase::LocatingStorage => FetchStage::LocatingStorage,
        Phase::Parsing => FetchStage::Parsing,
        Phase::Serializing(_) => FetchStage::Serializing,
        Phase::Writing(_) => FetchStage::Writing,
        Phase::Done => FetchStage::Done,
    }
}

/// The configuration a phase holds.
spec fn phase_config(phase: Phase) -> Option<ConfigView> {
    match phase {
        Phase::Serializing(c) => Some(c@),
        Phase::Writing(c) => Some(c@),
        _ => None,
    }
}

/// The state of finding the configuration as mathematical values.
pub struct FetchView {
    pub loc: Option<Seq<char>>,
    pub ip: Option<Seq<char>>,
    pub worker_count: Option<usize>,
    pub storage_dir: Option<Seq<char>>,
    pub conf_loc: Seq<char>,
    pub config: Option<ConfigView>,
    pub stage: FetchStage,
}

impl View for FetchConfig {
    type V = FetchView;

    closed spec fn view(&self) -> FetchView {
        FetchView {
            loc: opt_view(self.loc),
            ip: opt_view(self.ip),
            worker_count: self.worker_count,
            storage_dir: opt_view(self.storage_dir),
            conf_loc: self.conf_loc@,
            config: phase_config(self.phase),
            stage: phase_stage(self.phase),
        }
    }
}

/// The event a stage waits for, with an answer line that can be judged.
pub open spec fn event_fits(stage: FetchStage, event: FetchEvent) -> bool {
    match stage {
        FetchStage::Start => event is Begin,
        FetchStage::LocatingForPrompt => event is Located,
        FetchStage::AwaitingDefaultAnswer => match event {
            FetchEvent::Answered(Ok(line)) => answer_readable(line@),
            FetchEvent::Answered(Err(_)) => true,
            _ => false,
        },
        FetchStage::LocatingDefault => event is Located,
        FetchStage::Opening => event is Opened,
        FetchStage::AwaitingCreateAnswer => match event {
            FetchEvent::Answered(Ok(line)) => answer_readable(line@),
            FetchEvent::Answered(Err(_)) => true,
            _ => false,
        },
        FetchStage::Creating => event is Created,
        FetchStage::Reading => event is ReadDone,
        FetchStage::LocatingStorage => event is Located,
        FetchStage::Parsing => event is Parsed,
        FetchStage::Serializing => event is Serialized,
        FetchStage::Writing => event is Written,
        FetchStage::Done => false,
    }
}

/// The state stays well formed: a configuration is held exactly while it is
/// being written out.
pub open spec fn fetch_wf(v: FetchView) -> bool {
    (v.stage == FetchStage::Serializing || v.stage == FetchStage::Writing) <==> v.config is Some
}

/// One step: from the state `pre` and the event, the state `post` and the
/// action to take. The settings never change; the configuration file's
/// location changes only where it is decided.
pub open spec fn fetch_step(pre: FetchView, event: FetchEvent, post: FetchView, action: FetchAction) -> bool {
    let same_settings = post.loc == pre.loc && post.ip == pre.ip && post.worker_count
        == pre.worker_count && post.storage_dir == pre.storage_dir;
    let same_loc = post.conf_loc == pre.conf_loc;
    let done = post.stage == FetchStage::Done && same_loc;
    same_settings && fetch_wf(post) && match (pre.stage, event) {
        (FetchStage::Start, FetchEvent::Begin) => match pre.loc {
            Some(p) => post.stage == FetchStage::Opening && post.conf_loc == p && (action matches FetchAction::Open(
                q,
            ) && q@ == p),
            None => post.stage == FetchStage::LocatingForPrompt && same_loc
                && action is AnnounceAndLocate,
        },
        (FetchStage::LocatingForPrompt, FetchEvent::Located(Err(e))) => done && action
            == FetchAction::Finish(Err(FetchError::Io(e))),
        (FetchStage::LocatingForPrompt, FetchEvent::Located(Ok(exe))) => post.stage
            == FetchStage::AwaitingDefaultAnswer && same_loc && (action matches FetchAction::AskUseDefault(
            p,
        ) && p@ == default_config_path(exe@)),
        (FetchStage::AwaitingDefaultAnswer, FetchEvent::Answered(Err(e))) => done && action
            == FetchAction::Finish(Err(FetchError::Io(e))),
        (FetchStage::AwaitingDefaultAnswer, FetchEvent::Answered(Ok(line))) => if says_yes(
            line@,
        ) {
            post.stage == FetchStage::LocatingDefault && same_loc && action is Locate
        } else {
            done && action == FetchAction::Exit(ExitReason::Declined)
        },
        (FetchStage::LocatingDefault, FetchEvent::Located(Err(e))) => done && action
            == FetchAction::Finish(Err(FetchError::Io(e))),
        (FetchStage::LocatingDefault, FetchEvent::Located(Ok(exe))) => post.stage
            == FetchStage::Opening && post.conf_loc == default_config_path(exe@) && (action matches FetchAction::Open(
            p,
        ) && p@ == default_config_path(exe@)),
        (FetchStage::Opening, FetchEvent::Opened(Ok(()))) => post.stage == FetchStage::Reading
            && same_loc && action is Read,
        (FetchStage::Opening, FetchEvent::Opened(Err(e))) => post.stage
            == FetchStage::AwaitingCreateAnswer && same_loc && action == FetchAction::AskCreate(e),
        (FetchStage::AwaitingCreateAnswer, FetchEvent::Answered(Err(e))) => done && action
            == FetchAction::Exit(ExitReason::StdinFailed(e)),
        (FetchStage::AwaitingCreateAnswer, FetchEvent::Answered(Ok(line))) => if says_yes(
            line@,
        ) {
            post.stage == FetchStage::Creating && same_loc && (action matches FetchAction::Create(
                p,
            ) && p@ == pre.conf_loc)
        } else {
            done && action == FetchAction::Exit(ExitReason::Declined)
        },
        (FetchStage::Creating, FetchEvent::Created(Ok(()))) => post.stage == FetchStage::Reading
            && same_loc && action is Read,
        (FetchStage::Creating, FetchEvent::Created(Err(e))) => done && action == FetchAction::Exit(
            ExitReason::CreateFailed(e),
        ),
        (FetchStage::Reading, FetchEvent::ReadDone(Err(e))) => done && action == FetchAction::Exit(
            ExitReason::ReadFailed(e),
        ),
        (FetchStage::Reading, FetchEvent::ReadDone(Ok(contents))) => if contents@.len() == 0 {
            match pre.storage_dir {
                Some(dir) => {
                    let c = settings_view(pre.ip, pre.worker_count, dir);
                    post.stage == FetchStage::Serializing && same_loc && post.config == Some(c) && (action matches FetchAction::Serialize {
                        config,
                        announce_empty,
                    } && config@ == c && announce_empty)
                },
                None => post.stage == FetchStage::LocatingStorage && same_loc
                    && action is AnnounceEmptyAndLocate,
            }
        } else {
            post.stage == FetchStage::Parsing && same_loc && (action matches FetchAction::Parse(t)
                && t@ == contents@)
        },
        (FetchStage::LocatingStorage, FetchEvent::Located(Err(e))) => done && action
            == FetchAction::Finish(Err(FetchError::Io(e))),
        (FetchStage::LocatingStorage, FetchEvent::Located(Ok(exe))) => {
            let c = config_from_options(pre.ip, pre.worker_count, pre.storage_dir, exe@);
            post.stage == FetchStage::Serializing && same_loc && post.config == Some(c) && (action matches FetchAction::Serialize {
                config,
                announce_empty,
            } && config@ == c && !announce_empty)
        },
        (FetchStage::Parsing, FetchEvent::Parsed(Err(e))) => done && action == FetchAction::Finish(
            Err(FetchError::Io(e)),
        ),
        (FetchStage::Parsing, FetchEvent::Parsed(Ok(c))) => post.stage == FetchStage::Serializing
            && same_loc && post.config == Some(c@) && (action matches FetchAction::Serialize {
            config,
            announce_empty,
        } && config@ == c@ && !announce_empty),
        (FetchStage::Serializing, FetchEvent::Serialized(Err(msg))) => done && (action matches FetchAction::Finish(
            Err(FetchError::Serialize(m)),
        ) && m@ == serialize_error_text(msg@)),
        (FetchStage::Serializing, FetchEvent::Serialized(Ok(text))) => post.stage
            == FetchStage::Writing && same_loc && post.config == pre.config && (action matches FetchAction::Write {
            path,
            text: t,
        } && path@ == pre.conf_loc && t@ == text@),
        (FetchStage::Writing, FetchEvent::Written(Err(e))) => done && action == FetchAction::Finish(
            Err(FetchError::Io(e)),
        ),
        (FetchStage::Writing, FetchEvent::Written(Ok(()))) => done && (action matches FetchAction::Finish(
            Ok(c),
        ) && Some(c@) == pre.config),
        _ => false,
    }
}

impl FetchConfig {
    /// Starts finding the configuration for the settings given on the command
    /// line: the configuration file's path, the address, the number of
    /// workers and the storage directory.
    pub fn new(
        loc: Option<String>,
        ip: Option<String>,
        worker_count: Option<usize>,
        storage_dir: Option<String>,
    ) -> (res: Self)
        ensures
            res@.stage == FetchStage::Start,
            res@.loc == opt_view(loc),
            res@.ip == opt_view(ip),
            res@.worker_count == worker_count,
            res@.storage_dir == opt_view(storage_dir),
            res@.conf_loc == Seq::<char>::empty(),
            res@.config is None,
    {
        FetchConfig { loc, ip, worker_count, storage_dir, conf_loc: String::new(), phase: Phase::Start }
    }

    /// The state is always well formed: a configuration is held exactly while
    /// it is being written out.
    pub proof fn lemma_wf(&self)
        ensures
            fetch_wf(self@),
    {
    }

    /// Whether the event is one the current stage waits for.
    pub fn fits(&self, event: &FetchEvent) -> (res: bool)
        ensures
            res == event_fits(self@.stage, *event),
    {
        match (&self.phase, event) {
            (Phase::Start, FetchEvent::Begin) => true,
            (Phase::LocatingForPrompt, FetchEvent::Located(_)) => true,
            (Phase::AwaitingDefaultAnswer, FetchEvent::Answered(Ok(line))) => readable(line),
            (Phase::AwaitingDefaultAnswer, FetchEvent::Answered(Err(_))) => true,
            (Phase::LocatingDefault, FetchEvent::Located(_)) => true,
            (Phase::Opening, FetchEvent::Opened(_)) => true,
            (Phase::AwaitingCreateAnswer, FetchEvent::Answered(Ok(line))) => readable(line),
            (Phase::AwaitingCreateAnswer, FetchEvent::Answered(Err(_))) => true,
            (Phase::Creating, FetchEvent::Created(_)) => true,
            (Phase::Reading, FetchEvent::ReadDone(_)) => true,
            (Phase::LocatingStorage, FetchEvent::Located(_)) => true,
            (Phase::Parsing, FetchEvent::Parsed(_)) => true,
            (Phase::Serializing(_), FetchEvent::Serialized(_)) => true,
            (Phase::Writing(_), FetchEvent::Written(_)) => true,
            _ => false,
        }
    }

    /// Takes one step: what the event means for the state, and what has to be
    /// done outside next.
    pub fn step(&mut self, event: FetchEvent) -> (action: FetchAction)
        requires
            event_fits(old(self)@.stage, event),
        ensures
            fetch_step(old(self)@, event, final(self)@, action),
    {
        match event {
            FetchEvent::Begin => match &self.loc {
                Some(path) => {
                    self.conf_loc = path.clone();
                    self.phase = Phase::Opening;
                    FetchAction::Open(self.conf_loc.clone())
                },
                None => {
                    self.phase = Phase::LocatingForPrompt;
                    FetchAction::AnnounceAndLocate
                },
            },
            FetchEvent::Located(Err(e)) => {
                self.phase = Phase::Done;
                FetchAction::Finish(Err(FetchError::Io(e)))
            },
            FetchEvent::Located(Ok(exe)) => {
                let for_prompt = match &self.phase {
                    Phase::LocatingForPrompt => true,
                    _ => false,
                };
                let for_default = match &self.phase {
                    Phase::LocatingDefault => true,
                    _ => false,
                };
                if for_prompt {
                    self.phase = Phase::AwaitingDefaultAnswer;
                    FetchAction::AskUseDefault(default_config_dir(&exe))
                } else if for_default {
                    self.conf_loc = default_config_dir(&exe);
                    self.phase = Phase::Opening;
                    FetchAction::Open(self.conf_loc.clone())
                } else {
                    match Config::new(
                        self.ip.clone(),
                        self.worker_count,
                        self.storage_dir.clone(),
                        Some(&exe),
                    ) {
                        Ok(config) => {
                            let copy = config.clone();
                            self.phase = Phase::Serializing(config);
                            FetchAction::Serialize { config: copy, announce_empty: false }
                        },
                        Err(e) => {
                            self.phase = Phase::Done;
                            FetchAction::Finish(Err(FetchError::Io(e)))
                        },
                    }
                }
            },
            FetchEvent::Answered(Err(e)) => {
                let creating = match &self.phase {
                    Phase::AwaitingCreateAnswer => true,
                    _ => false,
                };
                self.phase = Phase::Done;
                if creating {
                    FetchAction::Exit(ExitReason::StdinFailed(e))
                } else {
                    FetchAction::Finish(Err(FetchError::Io(e)))
                }
            },
            FetchEvent::Answered(Ok(line)) => {
                let yes = answer_is_yes(&line);
                let for_default = match &self.phase {
                    Phase::AwaitingDefaultAnswer => true,
                    _ => false,
                };
                if !yes {
                    self.phase = Phase::Done;
                    FetchAction::Exit(ExitReason::Declined)
                } else if for_default {
                    self.phase = Phase::LocatingDefault;
                    FetchAction::Locate
                } else {
                    self.phase = Phase::Creating;
                    FetchAction::Create(self.conf_loc.clone())
                }
            },
            FetchEvent::Opened(Ok(())) => {
                self.phase = Phase::Reading;
                FetchAction::Read
            },
            FetchEvent::Opened(Err(e)) => {
                self.phase = Phase::AwaitingCreateAnswer;
                FetchAction::AskCreate(e)
            },
            FetchEvent::Created(Ok(())) => {
                self.phase = Phase::Reading;
                FetchAction::Read
            },
            FetchEvent::Created(Err(e)) => {
                self.phase = Phase::Done;
                FetchAction::Exit(ExitReason::CreateFailed(e))
            },
            FetchEvent::ReadDone(Err(e)) => {
                self.phase = Phase::Done;
                FetchAction::Exit(ExitReason::ReadFailed(e))
            },
            FetchEvent::ReadDone(Ok(contents)) => {
                if contents.as_str().is_empty() {
                    match &self.storage_dir {
                        Some(dir) => {
                            match Config::new(
                                self.ip.clone(),
                                self.worker_count,
                                Some(dir.clone()),
                                None,
                            ) {
                                Ok(config) => {
                                    let copy = config.clone();
                                    self.phase = Phase::Serializing(config);
                                    FetchAction::Serialize { config: copy, announce_empty: true }
                                },
                                Err(e) => {
                                    self.phase = Phase::Done;
                                    FetchAction::Finish(Err(FetchError::Io(e)))
                                },
                            }
                        },
                        None => {
                            self.phase = Phase::LocatingStorage;
                            FetchAction::AnnounceEmptyAndLocate
                        },
                    }
                } else {
                    self.phase = Phase::Parsing;
                    FetchAction::Parse(contents)
                }
            },
            FetchEvent::Parsed(Err(e)) => {
                self.phase = Phase::Done;
                FetchAction::Finish(Err(FetchError::Io(e)))
            },
            FetchEvent::Parsed(Ok(config)) => {
                let copy = config.clone();
                self.phase = Phase::Serializing(config);
                FetchAction::Serialize { config: copy, announce_empty: false }
            },
            FetchEvent::Serialized(Err(msg)) => {
                self.phase = Phase::Done;
                FetchAction::Finish(Err(FetchError::Serialize(serialize_error_message(&msg))))
            },
            FetchEvent::Serialized(Ok(text)) => {
                let mut phase = Phase::Done;
                std::mem::swap(&mut phase, &mut self.phase);
                match phase {
                    Phase::Serializing(config) => {
                        self.phase = Phase::Writing(config);
                        FetchAction::Write { path: self.conf_loc.clone(), text }
                    },
                    _ => {
                        assert(false);
                        FetchAction::Read
                    },
                }
            },
            FetchEvent::Written(Err(e)) => {
                self.phase = Phase::Done;
                FetchAction::Finish(Err(FetchError::Io(e)))
            },
            FetchEvent::Written(Ok(())) => {
                let mut phase = Phase::Done;
                std::mem::swap(&mut phase, &mut self.phase);
                match phase {
                    Phase::Writing(config) => FetchAction::Finish(Ok(config)),
                    _ => {
                        assert(false);
                        FetchAction::Read
                    },
                }
            },
        }
    }
}

/// With no setting given, a new configuration is the default one: address
/// `0.0.0.0:8080`, one worker, storage in the `storage` folder of the
/// executable's project directory.
pub proof fn law_nothing_given_means_defaults(exe: Seq<char>)
    ensures
        config_from_options(None, None, None, exe) == default_view(exe),
{
}

/// A setting that is given is kept, and a missing address or worker count
/// takes its default: address `0.0.0.0:8080`, one worker. The storage
/// directory is the one handed over.
pub proof fn law_given_settings_are_kept(
    ip: Option<Seq<char>>,
    worker_count: Option<usize>,
    storage_dir: Seq<char>,
)
    ensures
        ip matches Some(s) ==> settings_view(ip, worker_count, storage_dir).ip == s,
        ip is None ==> settings_view(ip, worker_count, storage_dir).ip == "0.0.0.0:8080"@,
        worker_count matches Some(n) ==> settings_view(ip, worker_count, storage_dir).worker_count
            == n,
        worker_count is None ==> settings_view(ip, worker_count, storage_dir).worker_count == 1,
        settings_view(ip, worker_count, storage_dir).storage_dir == storage_dir,
{
}

/// A given storage directory is kept, and a missing one is the `storage`
/// folder of the executable's project directory; the address and worker
/// count are kept when given.
pub proof fn law_options_are_kept(
    ip: Option<Seq<char>>,
    worker_count: Option<usize>,
    storage_dir: Option<Seq<char>>,
    exe: Seq<char>,
)
    ensures
        ip matches Some(s) ==> config_from_options(ip, worker_count, storage_dir, exe).ip == s,
        worker_count matches Some(n) ==> config_from_options(
            ip,
            worker_count,
            storage_dir,
            exe,
        ).worker_count == n,
        storage_dir matches Some(d) ==> config_from_options(
            ip,
            worker_count,
            storage_dir,
            exe,
        ).storage_dir == d,
        storage_dir is None ==> config_from_options(ip, worker_count, storage_dir, exe).storage_dir
            == path_pushed(project_dir_of(exe), "storage"@),
{
    law_given_settings_are_kept(
        ip,
        worker_count,
        match storage_dir {
            Some(d) => d,
            None => default_storage_path(exe),
        },
    );
}

/// A run of finding the configuration: from the start, each step taken on
/// the next event.
pub open spec fn fetch_run(
    states: Seq<FetchView>,
    events: Seq<FetchEvent>,
    actions: Seq<FetchAction>,
) -> bool {
    &&& states.len() == events.len() + 1
    &&& actions.len() == events.len()
    &&& states[0].stage == FetchStage::Start
    &&& states[0].config is None
    &&& forall|i: int|
        0 <= i < events.len() ==> #[trigger] fetch_step(states[i], events[i], states[i + 1], actions[i])
}

/// The configuration handed back is the one that was written: a run that
/// finishes with a configuration last wrote TOML text to the configuration
/// file's location, and before that had exactly that configuration written as
/// TOML.
pub proof fn law_returned_config_was_written(
    states: Seq<FetchView>,
    events: Seq<FetchEvent>,
    actions: Seq<FetchAction>,
)
    requires
        fetch_run(states, events, actions),
        actions.len() > 0,
    ensures
        actions.last() matches FetchAction::Finish(Ok(c)) ==> {
            &&& actions.len() >= 3
            &&& actions[actions.len() - 2] matches FetchAction::Write { path, text }
            &&& path@ == states[actions.len() - 2].conf_loc
            &&& actions[actions.len() - 3] matches FetchAction::Serialize { config, announce_empty }
            &&& config@ == c@
        },
{
    let n = actions.len() as int;
    if actions.last() matches FetchAction::Finish(Ok(c)) {
        let last = n - 1;
        assert(fetch_step(states[last], events[last], states[last + 1], actions[last]));
        assert(states[last].stage == FetchStage::Writing);
        let second = n - 2;
        assert(fetch_step(states[second], events[second], states[second + 1], actions[second]));
        assert(states[second].stage == FetchStage::Serializing);
        let third = n - 3;
        assert(fetch_step(states[third], events[third], states[third + 1], actions[third]));
    }
}

/// The configuration the file's contents parse to is the one written and
/// handed back unchanged: in a run where the contents parse to `c`, the next
/// action writes exactly `c` as TOML, and a run that finishes with a
/// configuration finishes with exactly `c`.
pub proof fn law_parsed_config_is_returned(
    states: Seq<FetchView>,
    events: Seq<FetchEvent>,
    actions: Seq<FetchAction>,
    i: int,
)
    requires
        fetch_run(states, events, actions),
        0 <= i < events.len(),
    ensures
        events[i] matches FetchEvent::Parsed(Ok(c)) ==> (actions[i] matches FetchAction::Serialize {
            config,
            announce_empty,
        } && config@ == c@),
        events[i] matches FetchEvent::Parsed(Ok(c)) ==> (actions.last() matches FetchAction::Finish(
            Ok(d),
        ) ==> d@ == c@),
{
    let n = events.len() as int;
    if let FetchEvent::Parsed(Ok(c)) = events[i] {
        assert(fetch_step(states[i], events[i], states[i + 1], actions[i]));
        assert(states[i + 1].config == Some(c@));
        if i + 1 < n {
            let j = i + 1;
            assert(fetch_step(states[j], events[j], states[j + 1], actions[j]));
            if i + 2 < n {
                let k = i + 2;
                assert(fetch_step(states[k], events[k], states[k + 1], actions[k]));
                if i + 3 < n {
                    let m = i + 3;
                    assert(fetch_step(states[m], events[m], states[m + 1], actions[m]));
                }
            }
        }
    }
}

proof fn lemma_settings_preserved(
    states: Seq<FetchView>,
    events: Seq<FetchEvent>,
    actions: Seq<FetchAction>,
    i: int,
)
    requires
        fetch_run(states, events, actions),
        0 <= i <= events.len(),
    ensures
        states[i].ip == states[0].ip,
        states[i].worker_count == states[0].worker_count,
        states[i].storage_dir == states[0].storage_dir,
    decreases i,
{
    if i > 0 {
        let prev = i - 1;
        lemma_settings_preserved(states, events, actions, prev);
        assert(fetch_step(states[prev], events[prev], states[prev + 1], actions[prev]));
    }
}

/// When no configuration is parsed from the file (it was empty), the
/// configuration a run finishes with keeps every setting given on the command
/// line; a missing address is `0.0.0.0:8080`, a missing worker count is one,
/// and a missing storage directory is the `storage` folder of the
/// executable's project directory.
pub proof fn law_new_config_keeps_given_settings(
    states: Seq<FetchView>,
    events: Seq<FetchEvent>,
    actions: Seq<FetchAction>,
)
    requires
        fetch_run(states, events, actions),
        actions.len() > 0,
        forall|k: int| 0 <= k < events.len() ==> !(#[trigger] events[k] is Parsed),
    ensures
        actions.last() matches FetchAction::Finish(Ok(d)) ==> {
            &&& (states[0].ip matches Some(s) ==> d@.ip == s)
            &&& (states[0].ip is None ==> d@.ip == "0.0.0.0:8080"@)
            &&& (states[0].worker_count matches Some(n) ==> d@.worker_count == n)
            &&& (states[0].worker_count is None ==> d@.worker_count == 1)
            &&& (states[0].storage_dir matches Some(p) ==> d@.storage_dir == p)
            &&& (states[0].storage_dir is None ==> exists|exe: Seq<char>|
                d@.storage_dir == #[trigger] path_pushed(project_dir_of(exe), "storage"@))
        },
{
    let n = actions.len() as int;
    if let FetchAction::Finish(Ok(d)) = actions.last() {
        let last = n - 1;
        assert(fetch_step(states[last], events[last], states[last + 1], actions[last]));
        let second = n - 2;
        assert(fetch_step(states[second], events[second], states[second + 1], actions[second]));
        let third = n - 3;
        assert(fetch_step(states[third], events[third], states[third + 1], actions[third]));
        assert(!(events[third] is Parsed));
        lemma_settings_preserved(states, events, actions, third);
        if states[third].stage == FetchStage::LocatingStorage {
            if let FetchEvent::Located(Ok(exe)) = events[third] {
                assert(d@.storage_dir == path_pushed(project_dir_of(exe@), "storage"@) || states[0].storage_dir is Some);
            }
        }
    }
}

/// The TOML text a configuration was written as is the text written to the
/// configuration file, at the file's location.
pub proof fn law_serialized_text_is_written(
    states: Seq<FetchView>,
    events: Seq<FetchEvent>,
    actions: Seq<FetchAction>,
    i: int,
)
    requires
        fetch_run(states, events, actions),
        0 <= i < events.len(),
    ensures
        events[i] matches FetchEvent::Serialized(Ok(text)) ==> (actions[i] matches FetchAction::Write {
            path,
            text: t,
        } && t@ == text@ && path@ == states[i].conf_loc),
{
    assert(fetch_step(states[i], events[i], states[i + 1], actions[i]));
}

/// How each refusal and failure ends the run: an answer other than yes ends
/// it with status 1; an unreadable answer to whether to create the file with
/// status 3; a file that cannot be created with status 4; a file that cannot
/// be read with status 2; a file that does not open leads to the question
/// whether to create it, with the reason.
pub proof fn law_exit_statuses(
    states: Seq<FetchView>,
    events: Seq<FetchEvent>,
    actions: Seq<FetchAction>,
    i: int,
)
    requires
        fetch_run(states, events, actions),
        0 <= i < events.len(),
    ensures
        events[i] matches FetchEvent::Answered(Ok(line)) ==> (!(line@[0] == 'y' || line@[0] == 'Y')
            ==> (actions[i] matches FetchAction::Exit(r) && exit_status(r) == 1)),
        events[i] matches FetchEvent::Answered(Err(e)) ==> (states[i].stage
            == FetchStage::AwaitingCreateAnswer ==> actions[i] == FetchAction::Exit(
            ExitReason::StdinFailed(e),
        )),
        events[i] matches FetchEvent::Created(Err(e)) ==> actions[i] == FetchAction::Exit(
            ExitReason::CreateFailed(e),
        ),
        events[i] matches FetchEvent::ReadDone(Err(e)) ==> actions[i] == FetchAction::Exit(
            ExitReason::ReadFailed(e),
        ),
        events[i] matches FetchEvent::Opened(Err(e)) ==> actions[i] == FetchAction::AskCreate(e),
        exit_status(ExitReason::Declined) == 1,
        forall|e: std::io::Error| #[trigger] exit_status(ExitReason::StdinFailed(e)) == 3,
        forall|e: std::io::Error| #[trigger] exit_status(ExitReason::CreateFailed(e)) == 4,
        forall|e: std::io::Error| #[trigger] exit_status(ExitReason::ReadFailed(e)) == 2,
{
    assert(fetch_step(states[i], events[i], states[i + 1], actions[i]));
}

/// An answer says yes exactly when its first character is `y` or `Y`.
pub proof fn law_yes_answers(line: Seq<char>)
    requires
        line.len() >= 1,
    ensures
        line[0] == 'y' ==> says_yes(line),
        line[0] == 'Y' ==> says_yes(line),
        line[0] != 'y' && line[0] != 'Y' ==> !says_yes(line),
{
}

/// The default configuration file is `config.toml` in the project
/// directory: for a project directory that is not empty and does not end in
/// `/`, its path with `/config.toml` appended.
pub proof fn law_default_config_path_is_config_toml(exe: Seq<char>)
    ensures
        project_dir_of(exe).len() > 0 && project_dir_of(exe).last() != '/' ==> default_config_path(
            exe,
        ) == project_dir_of(exe) + "/config.toml"@,
        default_config_path(exe) == path_pushed(project_dir_of(exe), "config.toml"@),
{
    reveal_strlit("config.toml");
    reveal_strlit("/config.toml");
    let pd = project_dir_of(exe);
    if pd.len() > 0 && pd.last() != '/' {
        assert(pd + seq!['/'] + "config.toml"@ =~= pd + "/config.toml"@);
    }
}

/// The stages that come before the configuration file's location is decided.
pub open spec fn before_location(stage: FetchStage) -> bool {
    stage == FetchStage::Start || stage == FetchStage::LocatingForPrompt || stage
        == FetchStage::AwaitingDefaultAnswer || stage == FetchStage::LocatingDefault
}

proof fn lemma_location_follows_given_path(
    states: Seq<FetchView>,
    events: Seq<FetchEvent>,
    actions: Seq<FetchAction>,
    i: int,
)
    requires
        fetch_run(states, events, actions),
        states[0].loc is Some,
        0 <= i <= events.len(),
    ensures
        states[i].loc == states[0].loc,
        i > 0 ==> !before_location(states[i].stage),
        i > 0 ==> states[i].conf_loc == states[0].loc->0,
    decreases i,
{
    if i > 0 {
        let prev = i - 1;
        lemma_location_follows_given_path(states, events, actions, prev);
        assert(fetch_step(states[prev], events[prev], states[prev + 1], actions[prev]));
    }
}

/// A configuration path given on the command line is the file that is
/// opened, created and written, and nothing is asked about a default path:
/// every action of the run that names a file names that path, and no action
/// announces a missing path, looks for the default one or asks about it.
pub proof fn law_given_path_is_used(
    states: Seq<FetchView>,
    events: Seq<FetchEvent>,
    actions: Seq<FetchAction>,
)
    requires
        fetch_run(states, events, actions),
        states[0].loc is Some,
    ensures
        forall|i: int|
            0 <= i < actions.len() ==> {
                &&& (#[trigger] actions[i] matches FetchAction::Open(p) ==> p@ == states[0].loc->0)
                &&& (actions[i] matches FetchAction::Create(p) ==> p@ == states[0].loc->0)
                &&& (actions[i] matches FetchAction::Write { path, text } ==> path@
                    == states[0].loc->0)
                &&& !(actions[i] is AnnounceAndLocate)
                &&& !(actions[i] is AskUseDefault)
                &&& !(actions[i] is Locate)
            },
{
    assert forall|i: int| 0 <= i < actions.len() implies {
        &&& (#[trigger] actions[i] matches FetchAction::Open(p) ==> p@ == states[0].loc->0)
        &&& (actions[i] matches FetchAction::Create(p) ==> p@ == states[0].loc->0)
        &&& (actions[i] matches FetchAction::Write { path, text } ==> path@ == states[0].loc->0)
        &&& !(actions[i] is AnnounceAndLocate)
        &&& !(actions[i] is AskUseDefault)
        &&& !(actions[i] is Locate)
    } by {
        lemma_location_follows_given_path(states, events, actions, i);
        assert(fetch_step(states[i], events[i], states[i + 1], actions[i]));
    }
}

/// Two states on the same course: everything that decides the steps ahead
/// once the configuration file's location is decided agrees.
pub open spec fn same_course(s1: FetchView, s2: FetchView) -> bool {
    &&& s1.stage == s2.stage
    &&& s1.conf_loc == s2.conf_loc
    &&& s1.ip == s2.ip
    &&& s1.worker_count == s2.worker_count
    &&& s1.storage_dir == s2.storage_dir
    &&& s1.config == s2.config
}

/// Two actions that ask for the same thing.
pub open spec fn same_action(a1: FetchAction, a2: FetchAction) -> bool {
    match (a1, a2) {
        (FetchAction::AnnounceAndLocate, FetchAction::AnnounceAndLocate) => true,
        (FetchAction::Locate, FetchAction::Locate) => true,
        (FetchAction::AnnounceEmptyAndLocate, FetchAction::AnnounceEmptyAndLocate) => true,
        (FetchAction::AskUseDefault(p), FetchAction::AskUseDefault(q)) => p@ == q@,
        (FetchAction::Open(p), FetchAction::Open(q)) => p@ == q@,
        (FetchAction::AskCreate(e), FetchAction::AskCreate(f)) => e == f,
        (FetchAction::Create(p), FetchAction::Create(q)) => p@ == q@,
        (FetchAction::Read, FetchAction::Read) => true,
        (FetchAction::Parse(t), FetchAction::Parse(u)) => t@ == u@,
        (
            FetchAction::Serialize { config: c, announce_empty: x },
            FetchAction::Serialize { config: d, announce_empty: y },
        ) => c@ == d@ && x == y,
        (FetchAction::Write { path: p, text: t }, FetchAction::Write { path: q, text: u }) => p@
            == q@ && t@ == u@,
        (FetchAction::Exit(r), FetchAction::Exit(q)) => r == q,
        (FetchAction::Finish(Ok(c)), FetchAction::Finish(Ok(d))) => c@ == d@,
        (FetchAction::Finish(Err(FetchError::Io(e))), FetchAction::Finish(Err(FetchError::Io(f)))) => e
            == f,
        (
            FetchAction::Finish(Err(FetchError::Serialize(m))),
            FetchAction::Finish(Err(FetchError::Serialize(n))),
        ) => m@ == n@,
        _ => false,
    }
}

/// Once the location is decided, states on the same course take the same
/// step on the same event.
proof fn lemma_same_course_step(
    s1: FetchView,
    s2: FetchView,
    event: FetchEvent,
    t1: FetchView,
    a1: FetchAction,
    t2: FetchView,
    a2: FetchAction,
)
    requires
        same_course(s1, s2),
        !before_location(s1.stage),
        fetch_step(s1, event, t1, a1),
        fetch_step(s2, event, t2, a2),
    ensures
        same_course(t1, t2),
        !before_location(t1.stage),
        same_action(a1, a2),
{
}

/// Two runs whose events agree from step `j` on, and whose states at that
/// step are on the same course with the location decided, take the same
/// actions from there and end on the same course.
proof fn lemma_runs_agree_from(
    states1: Seq<FetchView>,
    events1: Seq<FetchEvent>,
    actions1: Seq<FetchAction>,
    states2: Seq<FetchView>,
    events2: Seq<FetchEvent>,
    actions2: Seq<FetchAction>,
    j: int,
)
    requires
        fetch_run(states1, events1, actions1),
        fetch_run(states2, events2, actions2),
        events1.len() == events2.len() + 3,
        forall|k: int| 1 <= k < events2.len() ==> events1[k + 3] == events2[k],
        1 <= j <= events2.len(),
        same_course(states1[j + 3], states2[j]),
        !before_location(states2[j].stage),
    ensures
        forall|k: int| j <= k < actions2.len() ==> same_action(#[trigger] actions1[k + 3], actions2[k]),
        same_course(states1.last(), states2.last()),
    decreases events2.len() - j,
{
    if j < events2.len() {
        let k1 = j + 3;
        assert(fetch_step(states1[k1], events1[k1], states1[k1 + 1], actions1[k1]));
        assert(fetch_step(states2[j], events2[j], states2[j + 1], actions2[j]));
        lemma_same_course_step(
            states1[k1],
            states2[j],
            events2[j],
            states1[k1 + 1],
            actions1[k1],
            states2[j + 1],
            actions2[j],
        );
        lemma_runs_agree_from(states1, events1, actions1, states2, events2, actions2, j + 1);
    }
}

/// Answering yes to the default path does what giving that path does: a run
/// without a path that answers yes, with the executable at `exe`, takes from
/// then on the same actions as a run given `default_config_path(exe)` with the
/// same settings, on the same events, and ends in the same state.
pub proof fn law_default_answer_matches_given_path(
    states1: Seq<FetchView>,
    events1: Seq<FetchEvent>,
    actions1: Seq<FetchAction>,
    states2: Seq<FetchView>,
    events2: Seq<FetchEvent>,
    actions2: Seq<FetchAction>,
    exe: Seq<char>,
)
    requires
        fetch_run(states1, events1, actions1),
        fetch_run(states2, events2, actions2),
        states1[0].loc is None,
        states2[0].loc == Some(default_config_path(exe)),
        states1[0].ip == states2[0].ip,
        states1[0].worker_count == states2[0].worker_count,
        states1[0].storage_dir == states2[0].storage_dir,
        events2.len() >= 1,
        events1.len() == events2.len() + 3,
        events1[3] matches FetchEvent::Located(Ok(x)) && x@ == exe,
        forall|j: int| 1 <= j < events2.len() ==> events1[j + 3] == events2[j],
    ensures
        forall|j: int| 0 <= j < actions2.len() ==> same_action(#[trigger] actions1[j + 3], actions2[j]),
        same_course(states1.last(), states2.last()),
{
    assert(fetch_step(states1[0], events1[0], states1[0int + 1], actions1[0]));
    assert(fetch_step(states1[1], events1[1], states1[1int + 1], actions1[1]));
    assert(fetch_step(states1[2], events1[2], states1[2int + 1], actions1[2]));
    assert(fetch_step(states1[3], events1[3], states1[3int + 1], actions1[3]));
    assert(states1[1].stage == FetchStage::LocatingForPrompt);
    assert(states1[2].stage != FetchStage::Done);
    assert(states1[2].stage == FetchStage::AwaitingDefaultAnswer);
    assert(states1[3].stage != FetchStage::Done);
    assert(states1[3].stage == FetchStage::LocatingDefault);
    assert(fetch_step(states2[0], events2[0], states2[0int + 1], actions2[0]));
    assert(same_course(states1[4], states2[1]));
    assert(same_action(actions1[3], actions2[0]));
    lemma_runs_agree_from(states1, events1, actions1, states2, events2, actions2, 1);
}

/// Whether an answer line can be judged.
fn readable(line: &String) -> (res: bool)
    ensures
        res == answer_readable(line@),
{
    let s = line.as_str();
    if s.unicode_len() == 0 {
        false
    } else {
        let c = s.get_char(0);
        (c as u32) < 128
    }
}

} // verus!
