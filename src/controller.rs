//! The controller of the shell: one state, changed by one message at a time,
//! and the outside work each message calls for.
use vstd::prelude::*;
use crate::paths::{PathStyle, is_wav_path, has_wav_extension, names_a_file, output_path_of};
use crate::process::{processing_outcome, text_result};

verus! {

/// Where the shell stands.
#[derive(Debug, Clone)]
pub enum Status {
    /// Looking for the engine at startup.
    Checking,
    /// The engine is not installed; it can be downloaded.
    MissingBinary,
    /// The engine is being downloaded.
    Downloading,
    /// The engine is installed and no file is chosen yet.
    Idle,
    /// A WAV file is chosen and can be cleaned.
    Ready,
    /// The engine is cleaning the chosen file.
    Processing,
    /// The cleaned file was written here.
    Done(String),
    /// Something failed, for this reason.
    Error(String),
}

/// A [`Status`] with its texts as character sequences.
pub enum StatusView {
    Checking,
    MissingBinary,
    Downloading,
    Idle,
    Ready,
    Processing,
    Done(Seq<char>),
    Error(Seq<char>),
}

impl View for Status {
    type V = StatusView;

    open spec fn view(&self) -> StatusView {
        match self {
            Status::Checking => StatusView::Checking,
            Status::MissingBinary => StatusView::MissingBinary,
            Status::Downloading => StatusView::Downloading,
            Status::Idle => StatusView::Idle,
            Status::Ready => StatusView::Ready,
            Status::Processing => StatusView::Processing,
            Status::Done(p) => StatusView::Done(p@),
            Status::Error(e) => StatusView::Error(e@),
        }
    }
}

/// What the user, the system or a finished piece of work tells the shell.
#[derive(Debug)]
pub enum Message {
    /// The startup search for the engine ended: whether it was found.
    BinaryCheckCompleted(bool),
    /// The user asked to download the engine.
    StartDownload,
    /// The download reached this percentage.
    DownloadProgress(u128),
    /// The download ended: the saved path, or why it failed.
    DownloadFinished(Result<String, String>),
    /// The user asked to pick a file.
    SelectFile,
    /// The file picker closed, with the chosen file if any.
    FileSelected(Option<String>),
    /// A file was dropped onto the window.
    FileDropped(String),
    /// The user asked to clean the chosen file; carries where the engine was
    /// found, if it was.
    StartProcessing(Option<String>),
    /// The engine's run ended: the cleaned file, or why it failed.
    ProcessingFinished(Result<String, String>),
    /// The user asked to see this folder.
    OpenLocation(String),
}

/// A [`Message`] with its texts as character sequences.
pub enum MessageView {
    BinaryCheckCompleted(bool),
    StartDownload,
    DownloadProgress(u128),
    DownloadFinished(Result<Seq<char>, Seq<char>>),
    SelectFile,
    FileSelected(Option<Seq<char>>),
    FileDropped(Seq<char>),
    StartProcessing(Option<Seq<char>>),
    ProcessingFinished(Result<Seq<char>, Seq<char>>),
    OpenLocation(Seq<char>),
}

/// `o` with its text as a character sequence.
pub open spec fn text_option(o: Option<String>) -> Option<Seq<char>> {
    match o {
        Some(s) => Some(s@),
        None => None,
    }
}

impl View for Message {
    type V = MessageView;

    open spec fn view(&self) -> MessageView {
        match self {
            Message::BinaryCheckCompleted(b) => MessageView::BinaryCheckCompleted(*b),
            Message::StartDownload => MessageView::StartDownload,
            Message::DownloadProgress(p) => MessageView::DownloadProgress(*p),
            Message::DownloadFinished(r) => MessageView::DownloadFinished(text_result(*r)),
            Message::SelectFile => MessageView::SelectFile,
            Message::FileSelected(f) => MessageView::FileSelected(text_option(*f)),
            Message::FileDropped(p) => MessageView::FileDropped(p@),
            Message::StartProcessing(b) => MessageView::StartProcessing(text_option(*b)),
            Message::ProcessingFinished(r) => MessageView::ProcessingFinished(text_result(*r)),
            Message::OpenLocation(p) => MessageView::OpenLocation(p@),
        }
    }
}

/// Outside work that a message calls for.
#[derive(Debug)]
pub enum Effect {
    /// None.
    Nothing,
    /// Open the file picker, offering WAV files.
    PickFile,
    /// Run the engine at `engine` on `input`, away from the interface.
    RunEngine { input: String, engine: String },
    /// Show this folder in the system's file manager.
    OpenFolder(String),
}

/// An [`Effect`] with its texts as character sequences.
pub enum EffectView {
    Nothing,
    PickFile,
    RunEngine { input: Seq<char>, engine: Seq<char> },
    OpenFolder(Seq<char>),
}

impl View for Effect {
    type V = EffectView;

    open spec fn view(&self) -> EffectView {
        match self {
            Effect::Nothing => EffectView::Nothing,
            Effect::PickFile => EffectView::PickFile,
            Effect::RunEngine { input, engine } => EffectView::RunEngine {
                input: input@,
                engine: engine@,
            },
            Effect::OpenFolder(p) => EffectView::OpenFolder(p@),
        }
    }
}

/// The whole state of the shell.
pub struct AppController {
    /// How paths are spelled where the shell runs.
    pub style: PathStyle,
    /// Where the shell stands.
    pub status: Status,
    /// The file to clean; kept across failures so that it can be retried.
    pub selected_file: Option<String>,
    /// The last percentage the download reported.
    pub download_progress: u128,
}

/// The state of the shell with its texts as character sequences.
pub struct ControllerView {
    pub status: StatusView,
    pub selected_file: Option<Seq<char>>,
    pub download_progress: u128,
}

impl View for AppController {
    type V = ControllerView;

    open spec fn view(&self) -> ControllerView {
        ControllerView {
            status: self.status@,
            selected_file: text_option(self.selected_file),
            download_progress: self.download_progress,
        }
    }
}

/// The states in which a file can be chosen, by the picker or by dropping
/// it: the engine is installed and no run is under way.
pub open spec fn accepts_files(s: StatusView) -> bool {
    s is Idle || s is Ready || s is Done || s is Error
}

/// The message shown for a dropped file that is not WAV audio.
pub open spec fn unsupported_file_message() -> Seq<char> {
    "Only .wav files are supported"@
}

/// The message shown where the engine vanished before a run.
pub open spec fn engine_missing_message() -> Seq<char> {
    "Binary missing during processing"@
}

/// The message shown for a failed download with reason `e`.
pub open spec fn download_failed_message(e: Seq<char>) -> Seq<char> {
    "Download failed: "@ + e
}

/// `c` with its status replaced by `s`.
pub open spec fn with_status(c: ControllerView, s: StatusView) -> ControllerView {
    ControllerView { status: s, selected_file: c.selected_file, download_progress: c.download_progress }
}

/// The state after message `m` in state `c`, and the work it calls for.
pub open spec fn transition(style: PathStyle, c: ControllerView, m: MessageView) -> (
    ControllerView,
    EffectView,
) {
    match m {
        MessageView::BinaryCheckCompleted(found) => (
            with_status(
                c,
                if found {
                    StatusView::Idle
                } else {
                    StatusView::MissingBinary
                },
            ),
            EffectView::Nothing,
        ),
        MessageView::StartDownload => if c.status is MissingBinary {
            (
                ControllerView {
                    status: StatusView::Downloading,
                    selected_file: c.selected_file,
                    download_progress: 0,
                },
                EffectView::Nothing,
            )
        } else {
            (c, EffectView::Nothing)
        },
        MessageView::DownloadProgress(p) => (
            ControllerView {
                status: c.status,
                selected_file: c.selected_file,
                download_progress: p,
            },
            EffectView::Nothing,
        ),
        MessageView::DownloadFinished(Ok(_)) => (
            with_status(c, StatusView::Idle),
            EffectView::Nothing,
        ),
        MessageView::DownloadFinished(Err(e)) => (
            with_status(c, StatusView::Error(download_failed_message(e))),
            EffectView::Nothing,
        ),
        MessageView::SelectFile => (c, EffectView::PickFile),
        MessageView::FileSelected(Some(f)) => if accepts_files(c.status) {
            (
                ControllerView {
                    status: StatusView::Ready,
                    selected_file: Some(f),
                    download_progress: c.download_progress,
                },
                EffectView::Nothing,
            )
        } else {
            (c, EffectView::Nothing)
        },
        MessageView::FileSelected(None) => (c, EffectView::Nothing),
        MessageView::FileDropped(p) => if !accepts_files(c.status) {
            (c, EffectView::Nothing)
        } else if is_wav_path(style, p) {
            (
                ControllerView {
                    status: StatusView::Ready,
                    selected_file: Some(p),
                    download_progress: c.download_progress,
                },
                EffectView::Nothing,
            )
        } else {
            (with_status(c, StatusView::Error(unsupported_file_message())), EffectView::Nothing)
        },
        MessageView::StartProcessing(engine) => match c.selected_file {
            None => (c, EffectView::Nothing),
            Some(_) if !(c.status is Ready) => (c, EffectView::Nothing),
            Some(input) => match engine {
                Some(b) => (
                    with_status(c, StatusView::Processing),
                    EffectView::RunEngine { input, engine: b },
                ),
                None => (
                    with_status(c, StatusView::Error(engine_missing_message())),
                    EffectView::Nothing,
                ),
            },
        },
        MessageView::ProcessingFinished(Ok(p)) => (
            with_status(c, StatusView::Done(p)),
            EffectView::Nothing,
        ),
        MessageView::ProcessingFinished(Err(e)) => (
            with_status(c, StatusView::Error(e)),
            EffectView::Nothing,
        ),
        MessageView::OpenLocation(p) => (c, EffectView::OpenFolder(p)),
    }
}

impl AppController {
    /// The shell at startup: checking for the engine, nothing chosen.
    pub fn new(style: PathStyle) -> (r: AppController)
        ensures
            r.style == style,
            r@ == (ControllerView {
                status: StatusView::Checking,
                selected_file: None,
                download_progress: 0,
            }),
    {
        AppController { style, status: Status::Checking, selected_file: None, download_progress: 0 }
    }

    /// Whether the download should be running.
    pub fn is_downloading(&self) -> (r: bool)
        ensures
            r == (self@.status is Downloading),
    {
        match self.status {
            Status::Downloading => true,
            _ => false,
        }
    }

    /// Whether a file can be chosen now.
    pub fn accepts_files(&self) -> (r: bool)
        ensures
            r == accepts_files(self@.status),
    {
        match self.status {
            Status::Idle | Status::Ready | Status::Done(_) | Status::Error(_) => true,
            _ => false,
        }
    }

    /// Applies one message and returns the outside work it calls for.
    pub fn update(&mut self, message: Message) -> (r: Effect)
        ensures
            final(self).style == old(self).style,
            (final(self)@, r@) == transition(old(self).style, old(self)@, message@),
    {
        match message {
            Message::BinaryCheckCompleted(found) => {
                self.status = if found {
                    Status::Idle
                } else {
                    Status::MissingBinary
                };
            },
            Message::StartDownload => {
                if let Status::MissingBinary = self.status {
                    self.status = Status::Downloading;
                    self.download_progress = 0;
                }
            },
            Message::DownloadProgress(p) => {
                self.download_progress = p;
            },
            Message::DownloadFinished(Ok(_)) => {
                self.status = Status::Idle;
            },
            Message::DownloadFinished(Err(e)) => {
                self.status = Status::Error(String::from_str("Download failed: ").concat(e.as_str()));
            },
            Message::SelectFile => {
                return Effect::PickFile;
            },
            Message::FileSelected(file) => {
                if !self.accepts_files() {
                    return Effect::Nothing;
                }
                if let Some(path) = file {
                    self.selected_file = Some(path);
                    self.status = Status::Ready;
                }
            },
            Message::FileDropped(path) => {
                if !self.accepts_files() {
                    return Effect::Nothing;
                }
                if has_wav_extension(self.style, path.as_str()) {
                    self.selected_file = Some(path);
                    self.status = Status::Ready;
                } else {
                    self.status = Status::Error(String::from_str("Only .wav files are supported"));
                }
            },
            Message::StartProcessing(engine) => {
                let ready = match self.status {
                    Status::Ready => true,
                    _ => false,
                };
                if !ready {
                    return Effect::Nothing;
                }
                match &self.selected_file {
                    None => {},
                    Some(input) => {
                        match engine {
                            Some(b) => {
                                let input = input.clone();
                                self.status = Status::Processing;
                                return Effect::RunEngine { input, engine: b };
                            },
                            None => {
                                self.status = Status::Error(
                                    String::from_str("Binary missing during processing"),
                                );
                            },
                        }
                    },
                }
            },
            Message::ProcessingFinished(result) => {
                match result {
                    Ok(path) => {
                        self.status = Status::Done(path);
                    },
                    Err(e) => {
                        self.status = Status::Error(e);
                    },
                }
            },
            Message::OpenLocation(path) => {
                return Effect::OpenFolder(path);
            },
        }
        Effect::Nothing
    }
}

/// From Ready with a chosen file, starting to clean runs the engine on that
/// file; a successful exit then ends in Done at `dnf_clean` beside the input
/// under the input's file name, and an unsuccessful one ends in Error.
pub proof fn lemma_processing_ends_in_done_or_error(
    style: PathStyle,
    c: ControllerView,
    input: Seq<char>,
    engine: Seq<char>,
    success: bool,
)
    requires
        c.status is Ready,
        c.selected_file == Some(input),
        names_a_file(style, input),
    ensures
        ({
            let (c1, e1) = transition(style, c, MessageView::StartProcessing(Some(engine)));
            let outcome = processing_outcome(output_path_of(style, input), Ok(success));
            let (c2, e2) = transition(style, c1, MessageView::ProcessingFinished(outcome));
            &&& c1.status is Processing
            &&& e1 == (EffectView::RunEngine { input, engine })
            &&& success ==> c2.status == StatusView::Done(output_path_of(style, input))
            &&& !success ==> c2.status is Error
            &&& c2.selected_file == Some(input)
        }),
{
}

/// While the engine is not installed (checking, missing or downloading) or a
/// run is under way, a dropped or picked file changes nothing: neither the
/// state nor the chosen file.
pub proof fn lemma_files_ignored_while_busy(style: PathStyle, c: ControllerView, path: Seq<char>)
    requires
        !accepts_files(c.status),
    ensures
        transition(style, c, MessageView::FileDropped(path)) == (c, EffectView::Nothing),
        transition(style, c, MessageView::FileSelected(Some(path))) == (c, EffectView::Nothing),
{
}

/// A run of the engine is only ever started from Ready, and Processing is
/// only ever entered from Ready; so while one run is under way no second one
/// starts.
pub proof fn lemma_processing_only_from_ready(style: PathStyle, c: ControllerView, m: MessageView)
    ensures
        transition(style, c, m).1 is RunEngine ==> c.status is Ready,
        transition(style, c, m).0.status is Processing ==> (c.status is Ready || c.status is Processing),
        c.status is Processing ==> !(transition(style, c, m).1 is RunEngine),
{
}

/// A download is only entered from MissingBinary; a second request while
/// downloading changes nothing.
pub proof fn lemma_download_only_from_missing(style: PathStyle, c: ControllerView, m: MessageView)
    ensures
        transition(style, c, m).0.status is Downloading ==> (c.status is MissingBinary
            || c.status is Downloading),
        c.status is Downloading ==> transition(style, c, MessageView::StartDownload) == (
            c,
            EffectView::Nothing,
        ),
{
}

/// Once the engine is installed, a dropped file that is not WAV audio leads
/// to the unsupported-type error and leaves the chosen file as it was.
pub proof fn lemma_drop_rejects_other_types(style: PathStyle, c: ControllerView, path: Seq<char>)
    requires
        accepts_files(c.status),
        !is_wav_path(style, path),
    ensures
        transition(style, c, MessageView::FileDropped(path)).0.status == StatusView::Error(
            unsupported_file_message(),
        ),
        transition(style, c, MessageView::FileDropped(path)).0.selected_file == c.selected_file,
{
}

} // verus!
