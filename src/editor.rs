use vstd::prelude::*;

use crate::attempt::{checked, resolved, Attempt, AttemptView, CloseFileAction};
use crate::document::{
    decrypted_text, empty_document, registered_and_saved, Document, DocumentView, FileError,
};

verus! {

/// A save to be run away from the interface: the bytes of `snapshot` go to
/// `path`.
#[derive(Debug)]
pub struct SaveJob {
    pub path: String,
    pub snapshot: Document,
}

impl SaveJob {
    /// The bytes to write.
    pub fn bytes(&self) -> (r: Vec<u8>)
        ensures
            r@ == crate::document::encrypted_form(self.snapshot@.content),
    {
        self.snapshot.encrypted()
    }
}

/// What the host is to do after a step of the editor.
#[derive(Debug)]
pub enum Effect {
    /// Nothing.
    Nothing,
    /// Ask the user where to save, and pass the answer to `file_save_as`.
    AskSavePath,
    /// Ask the user which file to open, read it, and pass its bytes to
    /// `file_open_loaded`.
    AskOpenPath,
    /// Run the save in the background, then pass its outcome to
    /// `finish_concurrent_save`.
    SpawnSave(SaveJob),
}

/// How a background save ended.
#[derive(Clone, Debug)]
pub enum ConcurrentMessage {
    FinishConcurrentSave,
    /// The write failed, for the reason given.
    FailedConcurrentSave(String),
}

/// The editor: the open document, the guard in front of discarding it, and
/// the save in flight, if any.
#[derive(Debug)]
pub struct App {
    file: Document,
    attempting_file_close: Attempt,
    in_flight: Option<Document>,
    open_granted: bool,
    close_window_on_next_frame: bool,
}

/// What an `App` holds, as plain values. `in_flight` is what the save in
/// flight writes; the writing flag is up exactly while it is `Some`.
/// `open_granted` says that the unsaved-changes check has let an open
/// through, and its file has not been taken in yet.
pub struct AppView {
    pub file: DocumentView,
    pub attempt: AttemptView,
    pub in_flight: Option<DocumentView>,
    pub open_granted: bool,
    pub close_window: bool,
}

impl View for App {
    type V = AppView;

    closed spec fn view(&self) -> AppView {
        AppView {
            file: self.file@,
            attempt: self.attempting_file_close@,
            in_flight: match self.in_flight {
                Some(d) => Some(d@),
                None => None,
            },
            open_granted: self.open_granted,
            close_window: self.close_window_on_next_frame,
        }
    }
}

/// The editor as it starts.
pub open spec fn initial_app() -> AppView {
    AppView {
        file: empty_document(),
        attempt: crate::attempt::idle_attempt(),
        in_flight: None,
        open_granted: false,
        close_window: false,
    }
}

/// The state once a save of the open document has been started.
pub open spec fn started_save(a: AppView) -> AppView {
    AppView { in_flight: Some(a.file), ..a }
}

/// Whether `r` asks for the document `d` to be written to its path.
pub open spec fn is_save_of(r: Effect, d: DocumentView) -> bool {
    r matches Effect::SpawnSave(job) && d.path == Some(job.path@) && job.snapshot@ == d
}

/// The state once the save in flight has ended, well or not. The document
/// counts as saved only if the save succeeded and wrote its current text to
/// its current path.
pub open spec fn completed(a: AppView, success: bool) -> AppView {
    match a.in_flight {
        None => a,
        Some(s) => AppView {
            in_flight: None,
            file: if success && s.path == a.file.path && s.content == a.file.content {
                DocumentView { saved: true, ..a.file }
            } else {
                a.file
            },
            ..a
        },
    }
}

/// The state after the guard is consulted for discarding the document, with
/// `act` remembered if the guard holds it back; and whether it let it through.
pub open spec fn guarded(a: AppView, act: CloseFileAction) -> (AppView, bool) {
    let (att, ok) = checked(a.attempt, registered_and_saved(a.file));
    if ok {
        (AppView { attempt: att, open_granted: act == CloseFileAction::OpenFile || a.open_granted, ..a }, true)
    } else {
        (AppView { attempt: AttemptView { action: Some(act), ..att }, ..a }, false)
    }
}

/// The intent that the guard hands out in state `a`, if any.
pub open spec fn released(a: AppView) -> Option<CloseFileAction> {
    resolved(a.attempt, registered_and_saved(a.file)).1
}

/// The state after the remembered intent, if released, has been carried out.
pub open spec fn after_close_action(a: AppView) -> AppView {
    let (att, act) = resolved(a.attempt, registered_and_saved(a.file));
    let b = AppView { attempt: att, ..a };
    match act {
        Some(CloseFileAction::OpenFile) => AppView { open_granted: true, ..b },
        Some(CloseFileAction::NewFile) => AppView { file: empty_document(), ..b },
        Some(CloseFileAction::CloseWindow) => AppView { close_window: true, ..b },
        _ => b,
    }
}

/// Once the document is registered and saved, a remembered new-file intent
/// resets the document exactly once: resolving again, with no new intent,
/// changes nothing.
pub proof fn lemma_new_file_resolves_once(a: AppView)
    requires
        a.attempt.action == Some(CloseFileAction::NewFile),
        registered_and_saved(a.file),
    ensures
        released(a) == Some(CloseFileAction::NewFile),
        after_close_action(a).file == empty_document(),
        after_close_action(a).attempt.action is None,
        released(after_close_action(a)) is None,
        after_close_action(after_close_action(a)) == after_close_action(a),
{
}

/// The writing flag goes up when a save starts and comes down when its end,
/// well or not, is taken in; the guard and the intents it releases never
/// move it.
pub proof fn lemma_writing_flag(a: AppView, success: bool, act: CloseFileAction)
    ensures
        a.in_flight is None ==> started_save(a).in_flight is Some,
        a.in_flight is None ==> completed(started_save(a), success).in_flight is None,
        completed(a, success).in_flight is None,
        guarded(a, act).0.in_flight == a.in_flight,
        after_close_action(a).in_flight == a.in_flight,
{
}

impl Default for App {
    /// An editor on an empty, unregistered document.
    fn default() -> (r: App)
        ensures
            r@ == initial_app(),
    {
        App {
            file: Document::default(),
            attempting_file_close: Attempt::default(),
            in_flight: None,
            open_granted: false,
            close_window_on_next_frame: false,
        }
    }
}

impl App {
    /// Saves to the document's path, or asks for one first.
    /// A request while a save is in flight is turned down.
    pub fn file_save_or_save_as(&mut self) -> (r: Effect)
        ensures
            old(self)@.in_flight is Some ==> final(self)@ == old(self)@ && r is Nothing,
            old(self)@.in_flight is None && old(self)@.file.path is Some ==> final(self)@
                == started_save(old(self)@) && is_save_of(r, old(self)@.file),
            old(self)@.in_flight is None && old(self)@.file.path is None ==> final(self)@ == old(
                self,
            )@ && r is AskSavePath,
    {
        if self.in_flight.is_some() {
            return Effect::Nothing;
        }
        if self.file.is_registered() {
            self.file_save_existing()
        } else {
            Effect::AskSavePath
        }
    }

    /// Saves to `chosen`, the path the user picked, if any.
    /// A request while a save is in flight is turned down.
    pub fn file_save_as(&mut self, chosen: Option<String>) -> (r: Effect)
        ensures
            old(self)@.in_flight is Some || chosen is None ==> final(self)@ == old(self)@
                && r is Nothing,
            old(self)@.in_flight is None && chosen is Some ==> {
                let f = DocumentView { path: Some(chosen->Some_0@), saved: false, ..old(self)@.file };
                &&& final(self)@ == started_save(AppView { file: f, ..old(self)@ })
                &&& is_save_of(r, f)
            },
    {
        if self.in_flight.is_some() {
            return Effect::Nothing;
        }
        match chosen {
            Some(path) => {
                self.file.set_path(path);
                self.file_save_existing()
            },
            None => Effect::Nothing,
        }
    }

    /// Starts writing the document to its path: the writing flag goes up, and
    /// the save works on a copy taken now.
    pub fn file_save_existing(&mut self) -> (r: Effect)
        requires
            old(self)@.in_flight is None,
            old(self)@.file.path is Some,
        ensures
            final(self)@ == started_save(old(self)@),
            is_save_of(r, old(self)@.file),
    {
        let path = match self.file.path() {
            Some(p) => p.clone(),
            None => String::new(),
        };
        self.in_flight = Some(self.file.snapshot());
        Effect::SpawnSave(SaveJob { path, snapshot: self.file.snapshot() })
    }

    /// Takes in how the save in flight ended. The writing flag goes down; the
    /// document is marked saved if the save succeeded and what it wrote is
    /// still the document's text at the document's path. A failure's reason
    /// is handed back, to be shown to the user.
    pub fn finish_concurrent_save(&mut self, message: ConcurrentMessage) -> (r: Option<String>)
        ensures
            final(self)@ == completed(old(self)@, message is FinishConcurrentSave),
            match message {
                ConcurrentMessage::FailedConcurrentSave(reason) => r matches Some(s) && s@
                    == reason@,
                ConcurrentMessage::FinishConcurrentSave => r is None,
            },
    {
        let success = match &message {
            ConcurrentMessage::FinishConcurrentSave => true,
            ConcurrentMessage::FailedConcurrentSave(_) => false,
        };
        match self.in_flight.take() {
            None => {},
            Some(snapshot) => {
                if success && snapshot.same_path_and_content(&self.file) {
                    self.file.mark_saved();
                }
            },
        }
        match message {
            ConcurrentMessage::FinishConcurrentSave => None,
            ConcurrentMessage::FailedConcurrentSave(reason) => Some(reason),
        }
    }

    /// Asks to open another file. If the open document may not be discarded
    /// yet, the intent is remembered instead.
    pub fn file_open(&mut self) -> (r: Effect)
        ensures
            final(self)@ == guarded(old(self)@, CloseFileAction::OpenFile).0,
            guarded(old(self)@, CloseFileAction::OpenFile).1 ==> r is AskOpenPath,
            !guarded(old(self)@, CloseFileAction::OpenFile).1 ==> r is Nothing,
    {
        if !self.file_can_close() {
            self.attempting_file_close.set_action(CloseFileAction::OpenFile);
            return Effect::Nothing;
        }
        self.open_granted = true;
        Effect::AskOpenPath
    }

    /// Replaces the document by the one stored at `path`, whose bytes are
    /// `data`, if the unsaved-changes check has let an open through. That
    /// permission is used up. On failure the open document stays as it was.
    pub fn file_open_loaded(&mut self, path: String, data: &[u8]) -> (r: Result<(), FileError>)
        ensures
            !old(self)@.open_granted ==> r == Err::<(), FileError>(FileError::Blocked)
                && final(self)@ == old(self)@,
            old(self)@.open_granted ==> match decrypted_text(data@) {
                Ok(t) => r is Ok && final(self)@ == (AppView {
                    file: DocumentView { path: Some(path@), content: t, saved: true },
                    open_granted: false,
                    ..old(self)@
                }),
                Err(e) => r == Err::<(), FileError>(e) && final(self)@ == (AppView {
                    open_granted: false,
                    ..old(self)@
                }),
            },
    {
        if !self.open_granted {
            return Err(FileError::Blocked);
        }
        self.open_granted = false;
        match Document::open(path, data) {
            Ok(d) => {
                self.file = d;
                Ok(())
            },
            Err(e) => Err(e),
        }
    }

    /// Starts a new, empty document. If the open document may not be
    /// discarded yet, the intent is remembered instead.
    pub fn file_new(&mut self)
        ensures
            guarded(old(self)@, CloseFileAction::NewFile).1 ==> final(self)@ == (AppView {
                file: empty_document(),
                ..guarded(old(self)@, CloseFileAction::NewFile).0
            }),
            !guarded(old(self)@, CloseFileAction::NewFile).1 ==> final(self)@ == guarded(
                old(self)@,
                CloseFileAction::NewFile,
            ).0,
    {
        if !self.file_can_close() {
            self.attempting_file_close.set_action(CloseFileAction::NewFile);
            return;
        }
        self.file = Document::default();
    }

    /// Whether the document may be discarded: it is registered and saved, or
    /// the bypass is set (and then used up).
    pub fn file_can_close(&mut self) -> (r: bool)
        ensures
            (final(self)@.attempt, r) == checked(old(self)@.attempt, registered_and_saved(old(self)@.file)),
            final(self)@ == (AppView { attempt: final(self)@.attempt, ..old(self)@ }),
    {
        let saved = self.file.is_registered_and_saved();
        self.attempting_file_close.check_condition(saved)
    }

    /// Carries out the remembered intent once the guard lets it through.
    /// Opening asks for the file; a new file replaces the document; closing
    /// the window is flagged for the host. The first two are forgotten once
    /// done.
    pub fn call_close_action(&mut self) -> (r: Effect)
        ensures
            final(self)@ == after_close_action(old(self)@),
            released(old(self)@) == Some(CloseFileAction::OpenFile) ==> r is AskOpenPath,
            released(old(self)@) != Some(CloseFileAction::OpenFile) ==> r is Nothing,
    {
        let saved = self.file.is_registered_and_saved();
        match self.attempting_file_close.resolve(saved) {
            Some(CloseFileAction::OpenFile) => {
                self.open_granted = true;
                Effect::AskOpenPath
            },
            Some(CloseFileAction::NewFile) => {
                self.file = Document::default();
                Effect::Nothing
            },
            Some(CloseFileAction::CloseWindow) => {
                self.close_window_on_next_frame = true;
                Effect::Nothing
            },
            None => Effect::Nothing,
        }
    }

    /// Forgets the remembered intent.
    pub fn reset_close_action(&mut self)
        ensures
            final(self)@ == (AppView {
                attempt: AttemptView { action: None, ..old(self)@.attempt },
                ..old(self)@
            }),
    {
        self.attempting_file_close.reset_attempt();
    }

    /// Whether the window may close now. If not, the intent to close is
    /// remembered. A close already decided on goes through.
    pub fn request_close(&mut self) -> (r: bool)
        ensures
            old(self)@.close_window ==> final(self)@ == old(self)@ && r,
            !old(self)@.close_window ==> (final(self)@, r) == guarded(
                old(self)@,
                CloseFileAction::CloseWindow,
            ),
    {
        if self.close_window_on_next_frame {
            return true;
        }
        if !self.file_can_close() {
            self.attempting_file_close.set_action(CloseFileAction::CloseWindow);
            return false;
        }
        true
    }

    /// The user picked no file to open: the permission to open is dropped.
    pub fn file_open_cancelled(&mut self)
        ensures
            final(self)@ == (AppView { open_granted: false, ..old(self)@ }),
    {
        self.open_granted = false;
    }

    /// The user agreed to lose the unsaved changes: the next check passes.
    pub fn discard_changes(&mut self)
        ensures
            final(self)@ == (AppView {
                attempt: AttemptView { override_once: true, ..old(self)@.attempt },
                ..old(self)@
            }),
    {
        self.attempting_file_close.allow_once();
    }

    /// Replaces the text of the document.
    pub fn edit(&mut self, content: String)
        ensures
            final(self)@ == (AppView {
                file: DocumentView { content: content@, saved: false, ..old(self)@.file },
                ..old(self)@
            }),
    {
        self.file.set_content(content);
    }

    /// The open document.
    pub fn file(&self) -> (r: &Document)
        ensures
            r@ == self@.file,
    {
        &self.file
    }

    /// Whether a save is in flight.
    pub fn writing(&self) -> (r: bool)
        ensures
            r == self@.in_flight is Some,
    {
        self.in_flight.is_some()
    }

    /// Whether the host is to close the window.
    pub fn close_window_on_next_frame(&self) -> (r: bool)
        ensures
            r == self@.close_window,
    {
        self.close_window_on_next_frame
    }

    /// The remembered intent, if any.
    pub fn pending_action(&self) -> (r: Option<CloseFileAction>)
        ensures
            r == self@.attempt.action,
    {
        self.attempting_file_close.action()
    }
}

} // verus!
