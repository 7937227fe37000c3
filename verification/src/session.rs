use vstd::prelude::*;
use crate::edits::FieldEdit;
use crate::edits::apply_edit;

verus! {

/// The live state of one session: the three form groups (sync, generate,
/// launch) and the single outcome slot.
///
/// Fields hold raw user input verbatim; nothing is trimmed, normalized or
/// validated here. The outcome slot carries the most recent action's
/// message together with its error flag, or `None` before any action has
/// completed.
pub struct NimbleGui {
    pub sync_repo_url: String,
    pub sync_path: String,
    pub sync_dry_run: bool,
    pub gen_srf_path: String,
    pub launch_path: String,
    pub message: Option<(String, bool)>,
}

/// The mathematical image of a session: each text field as its character
/// sequence, the toggles and the error flag as booleans.
#[verifier::ext_equal]
pub struct SessionView {
    pub sync_repo_url: Seq<char>,
    pub sync_path: Seq<char>,
    pub sync_dry_run: bool,
    pub gen_srf_path: Seq<char>,
    pub launch_path: Seq<char>,
    pub message: Option<(Seq<char>, bool)>,
}

impl View for NimbleGui {
    type V = SessionView;

    open spec fn view(&self) -> SessionView {
        SessionView {
            sync_repo_url: self.sync_repo_url@,
            sync_path: self.sync_path@,
            sync_dry_run: self.sync_dry_run,
            gen_srf_path: self.gen_srf_path@,
            launch_path: self.launch_path@,
            message: match self.message {
                Option::Some(m) => Option::Some((m.0@, m.1)),
                Option::None => Option::None,
            },
        }
    }
}

/// The state a fresh session starts in: every text field empty, the dry-run
/// toggle off, and no outcome yet.
pub open spec fn init_view() -> SessionView {
    SessionView {
        sync_repo_url: Seq::<char>::empty(),
        sync_path: Seq::<char>::empty(),
        sync_dry_run: false,
        gen_srf_path: Seq::<char>::empty(),
        launch_path: Seq::<char>::empty(),
        message: Option::None,
    }
}

impl Default for NimbleGui {
    /// A fresh session, as a window opens on it.
    fn default() -> (s: Self)
        ensures
            s@ == init_view(),
    {
        NimbleGui {
            sync_repo_url: String::new(),
            sync_path: String::new(),
            sync_dry_run: false,
            gen_srf_path: String::new(),
            launch_path: String::new(),
            message: Option::None,
        }
    }
}

/// Which of the three path fields a folder choice lands in.
#[derive(Clone, Copy, Debug, PartialEq, Eq, Structural)]
pub enum PathField {
    SyncPath,
    GenSrfPath,
    LaunchPath,
}

/// The edit a chosen folder performs on its target field.
pub open spec fn path_edit(f: PathField, p: Seq<char>) -> FieldEdit {
    match f {
        PathField::SyncPath => FieldEdit::SyncPath(p),
        PathField::GenSrfPath => FieldEdit::GenSrfPath(p),
        PathField::LaunchPath => FieldEdit::LaunchPath(p),
    }
}

impl NimbleGui {
    /// Replace the outcome slot in full with a fresh outcome; every form
    /// field keeps its value.
    pub fn show_message(&mut self, msg: String, is_error: bool)
        ensures
            final(self)@ == (SessionView {
                message: Option::Some((msg@, is_error)),
                ..old(self)@
            }),
    {
        self.message = Option::Some((msg, is_error));
    }

    /// Take what the folder picker returned: a chosen path overwrites the
    /// target field in full; a canceled pick leaves the whole session
    /// exactly as it was.
    pub fn apply_folder_choice(&mut self, field: PathField, choice: Option<String>)
        ensures
            choice is None ==> final(self)@ == old(self)@,
            choice matches Some(p) ==> final(self)@ == apply_edit(
                old(self)@,
                path_edit(field, p@),
            ),
    {
        match choice {
            Option::Some(p) => match field {
                PathField::SyncPath => {
                    self.sync_path = p;
                },
                PathField::GenSrfPath => {
                    self.gen_srf_path = p;
                },
                PathField::LaunchPath => {
                    self.launch_path = p;
                },
            },
            Option::None => {},
        }
    }

    /// Overwrite the sync form's repository URL with the text as edited.
    pub fn set_sync_repo_url(&mut self, v: String)
        ensures
            final(self)@ == apply_edit(old(self)@, FieldEdit::SyncRepoUrl(v@)),
    {
        self.sync_repo_url = v;
    }

    /// Overwrite the sync form's target path with the text as edited.
    pub fn set_sync_path(&mut self, v: String)
        ensures
            final(self)@ == apply_edit(old(self)@, FieldEdit::SyncPath(v@)),
    {
        self.sync_path = v;
    }

    /// Set or clear the sync form's dry-run toggle.
    pub fn set_sync_dry_run(&mut self, v: bool)
        ensures
            final(self)@ == apply_edit(old(self)@, FieldEdit::SyncDryRun(v)),
    {
        self.sync_dry_run = v;
    }

    /// Overwrite the generate form's target path with the text as edited.
    pub fn set_gen_srf_path(&mut self, v: String)
        ensures
            final(self)@ == apply_edit(old(self)@, FieldEdit::GenSrfPath(v@)),
    {
        self.gen_srf_path = v;
    }

    /// Overwrite the launch form's target path with the text as edited.
    pub fn set_launch_path(&mut self, v: String)
        ensures
            final(self)@ == apply_edit(old(self)@, FieldEdit::LaunchPath(v@)),
    {
        self.launch_path = v;
    }

    /// The sync form as it stands right now: repository URL, target path,
    /// and dry-run flag, read verbatim for a submission.
    pub fn sync_inputs(&self) -> (r: (String, String, bool))
        ensures
            r.0@ == self@.sync_repo_url,
            r.1@ == self@.sync_path,
            r.2 == self@.sync_dry_run,
    {
        (self.sync_repo_url.clone(), self.sync_path.clone(), self.sync_dry_run)
    }

    /// The generate form's target path as it stands right now.
    pub fn gen_srf_input(&self) -> (r: String)
        ensures
            r@ == self@.gen_srf_path,
    {
        self.gen_srf_path.clone()
    }

    /// The launch form's target path as it stands right now.
    pub fn launch_input(&self) -> (r: String)
        ensures
            r@ == self@.launch_path,
    {
        self.launch_path.clone()
    }
}

} // verus!
