//! The state of one session of the front-end and the rules by which it
//! changes. The presentation layer draws the state, turns what the user does
//! into an [`Event`], hands it to [`LilypadApp::handle`] and carries out the
//! [`Command`] it gets back. Nothing here draws, reads a file or opens a
//! window.

use vstd::prelude::*;
use crate::config::GeneratorConfig;
use crate::generator::{generate, generated_from};
use crate::requirements::{all_satisfied, meets_requirements, requirements, verdicts_on};
use crate::strength::{evaluate, strength_score, tier_of_score};
use crate::welcome::{acknowledged, acknowledges};

verus! {

/// The address the welcome notice offers to open.
pub const REPOSITORY_URL: &'static str = "https://www.github.com/MotherSphere/Colony";

/// What the status bar shows while there is no message.
pub const STATUS_READY: &'static str = "Ready";

/// The status messages.
pub const STATUS_UNLOCKED: &'static str = "Vault unlocked";

pub const STATUS_ADD_ENTRY: &'static str = "Entry creation coming soon";

pub const STATUS_SETTINGS: &'static str = "Settings placeholder";

pub const STATUS_GENERATED: &'static str = "New password generated";

pub const STATUS_COPIED: &'static str = "Password copied to clipboard";

/// What the report of a failure begins with; the reason follows.
pub const BROWSER_FAILURE: &'static str = "Unable to open browser: ";

pub const CONFIG_FOLDER_FAILURE: &'static str = "Unable to prepare config folder: ";

pub const SAVE_FAILURE: &'static str = "Unable to save welcome state: ";

/// The number of entries in the navigation bar.
pub const CATEGORY_COUNT: usize = 5;

/// What fills the window. A session moves through the screens in this
/// order and never back.
#[derive(Clone, Copy, Debug, PartialEq, Eq, Structural)]
pub enum Screen {
    Welcome,
    Unlock,
    Main,
}

/// What the main panel shows.
#[derive(Clone, Copy, Debug, PartialEq, Eq, Structural)]
pub enum Section {
    Credentials,
    Generator,
    Alerts,
    Account,
    Security,
}

/// Something the presentation layer tried on the session's behalf and could
/// not do.
#[derive(Clone, Copy, Debug, PartialEq, Eq, Structural)]
pub enum Failure {
    OpenBrowser,
    PrepareConfigFolder,
    SaveWelcomeState,
}

/// What happened: an action of the user, or the failure of a command.
#[derive(Clone, Debug, PartialEq, Eq)]
pub enum Event {
    /// The welcome notice was acknowledged.
    WelcomeContinued,
    /// The link to the repository was followed.
    RepositoryRequested,
    /// A command failed; the text says why.
    Failed(Failure, String),
    /// The unlock button was pressed.
    UnlockRequested,
    /// A new entry was asked for; there is none to make yet.
    AddEntryRequested,
    /// The settings were asked for; there are none yet.
    SettingsRequested,
    /// The entry of the navigation bar with this index was chosen.
    CategorySelected(usize),
    /// A new password was asked for.
    GenerateRequested,
    /// The generated password is to be copied.
    CopyRequested,
}

/// What the presentation layer is to do after an event.
#[derive(Clone, Debug, PartialEq, Eq)]
pub enum Command {
    /// There is nothing to do.
    Nothing,
    /// Write the acknowledgement marker to its file.
    SaveAcknowledgement,
    /// Open [`REPOSITORY_URL`] in the browser.
    OpenRepository,
    /// Put this text on the clipboard.
    CopyText(String),
}

/// A [`Command`] with its text as a sequence of characters.
pub enum CommandModel {
    Nothing,
    SaveAcknowledgement,
    OpenRepository,
    CopyText(Seq<char>),
}

impl View for Command {
    type V = CommandModel;

    open spec fn view(&self) -> CommandModel {
        match self {
            Command::Nothing => CommandModel::Nothing,
            Command::SaveAcknowledgement => CommandModel::SaveAcknowledgement,
            Command::OpenRepository => CommandModel::OpenRepository,
            Command::CopyText(text) => CommandModel::CopyText(text@),
        }
    }
}

/// The state of a session. The fields the presentation layer edits in place
/// (the text fields, the length and the class switches) are public; nothing
/// depends on what they hold.
#[derive(Clone, Debug, PartialEq, Eq)]
pub struct LilypadApp {
    pub show_welcome: bool,
    pub vault_unlocked: bool,
    pub search_query: String,
    pub selected_category: usize,
    pub status_message: Option<String>,
    pub master_password: String,
    pub generated_password: String,
    pub generator: GeneratorConfig,
}

/// A session's state with its texts as sequences of characters.
pub struct AppModel {
    pub show_welcome: bool,
    pub vault_unlocked: bool,
    pub search_query: Seq<char>,
    pub selected_category: usize,
    pub status_message: Option<Seq<char>>,
    pub master_password: Seq<char>,
    pub generated_password: Seq<char>,
    pub generator: GeneratorConfig,
}

impl View for LilypadApp {
    type V = AppModel;

    open spec fn view(&self) -> AppModel {
        AppModel {
            show_welcome: self.show_welcome,
            vault_unlocked: self.vault_unlocked,
            search_query: self.search_query@,
            selected_category: self.selected_category,
            status_message: match self.status_message {
                Some(message) => Some(message@),
                None => None,
            },
            master_password: self.master_password@,
            generated_password: self.generated_password@,
            generator: self.generator,
        }
    }
}

impl Screen {
    /// The place of a screen in the order a session moves through.
    pub open spec fn order(self) -> nat {
        match self {
            Screen::Welcome => 0,
            Screen::Unlock => 1,
            Screen::Main => 2,
        }
    }
}

impl Failure {
    /// The words a failure report begins with.
    pub open spec fn spec_prefix(self) -> Seq<char> {
        match self {
            Failure::OpenBrowser => BROWSER_FAILURE@,
            Failure::PrepareConfigFolder => CONFIG_FOLDER_FAILURE@,
            Failure::SaveWelcomeState => SAVE_FAILURE@,
        }
    }

    /// The words a report of this failure begins with.
    pub fn prefix(self) -> (text: &'static str)
        ensures
            text@ == self.spec_prefix(),
    {
        match self {
            Failure::OpenBrowser => BROWSER_FAILURE,
            Failure::PrepareConfigFolder => CONFIG_FOLDER_FAILURE,
            Failure::SaveWelcomeState => SAVE_FAILURE,
        }
    }
}

/// The state a session starts in: the welcome notice up, the vault locked,
/// every text empty, the first category chosen, the default generator
/// configuration.
pub open spec fn initial_state() -> AppModel {
    AppModel {
        show_welcome: true,
        vault_unlocked: false,
        search_query: Seq::empty(),
        selected_category: 0,
        status_message: None,
        master_password: Seq::empty(),
        generated_password: Seq::empty(),
        generator: GeneratorConfig::initial(),
    }
}

/// The screen a state shows: the welcome notice until it is acknowledged,
/// then the unlock gate until the vault is unlocked, then the main view.
pub open spec fn screen_of(state: AppModel) -> Screen {
    if state.show_welcome {
        Screen::Welcome
    } else if !state.vault_unlocked {
        Screen::Unlock
    } else {
        Screen::Main
    }
}

/// The section a category index stands for. An index past the last entry
/// shows the credentials, as the first one does.
pub open spec fn section_of(category: usize) -> Section {
    if category == 1 {
        Section::Generator
    } else if category == 2 {
        Section::Alerts
    } else if category == 3 {
        Section::Account
    } else if category == 4 {
        Section::Security
    } else {
        Section::Credentials
    }
}

/// What the status bar shows for a state.
pub open spec fn status_line(state: AppModel) -> Seq<char> {
    match state.status_message {
        Some(message) => message,
        None => STATUS_READY@,
    }
}

/// `state` with its status message replaced.
pub open spec fn with_status(state: AppModel, text: Seq<char>) -> AppModel {
    AppModel { status_message: Some(text), ..state }
}

/// `state` once `password` was generated for it.
pub open spec fn with_generated(state: AppModel, password: Seq<char>) -> AppModel {
    AppModel {
        generated_password: password,
        status_message: Some(STATUS_GENERATED@),
        ..state
    }
}

/// The state after an event. For a request to generate this is the state
/// where nothing could be generated; where something was, see
/// [`with_generated`].
pub open spec fn step(state: AppModel, event: Event) -> AppModel {
    match event {
        Event::WelcomeContinued => AppModel { show_welcome: false, ..state },
        Event::RepositoryRequested => state,
        Event::Failed(failure, detail) => with_status(state, failure.spec_prefix() + detail@),
        Event::UnlockRequested => if meets_requirements(state.master_password) {
            AppModel { vault_unlocked: true, status_message: Some(STATUS_UNLOCKED@), ..state }
        } else {
            state
        },
        Event::AddEntryRequested => with_status(state, STATUS_ADD_ENTRY@),
        Event::SettingsRequested => with_status(state, STATUS_SETTINGS@),
        Event::CategorySelected(index) => AppModel { selected_category: index, ..state },
        Event::GenerateRequested => state,
        Event::CopyRequested => with_status(state, STATUS_COPIED@),
    }
}

/// The command that follows an event, with the same reading of a request
/// to generate as in [`step`].
pub open spec fn command_for(state: AppModel, event: Event) -> CommandModel {
    match event {
        Event::WelcomeContinued => CommandModel::SaveAcknowledgement,
        Event::RepositoryRequested => CommandModel::OpenRepository,
        Event::CopyRequested => CommandModel::CopyText(state.generated_password),
        _ => CommandModel::Nothing,
    }
}

/// `after` and `command` are a possible outcome of `event` in `before`. The
/// outcome is fixed by the state and the event, but for a request to
/// generate with some class enabled: there any password that the generator
/// may produce can come.
pub open spec fn outcome(
    before: AppModel,
    event: Event,
    after: AppModel,
    command: CommandModel,
) -> bool {
    if event is GenerateRequested && before.generator.any_class() {
        &&& generated_from(before.generator, after.generated_password)
        &&& after == with_generated(before, after.generated_password)
        &&& command == CommandModel::CopyText(after.generated_password)
    } else {
        &&& after == step(before, event)
        &&& command == command_for(before, event)
    }
}

impl LilypadApp {
    /// A fresh session.
    pub fn new() -> (app: LilypadApp)
        ensures
            app@ == initial_state(),
    {
        LilypadApp {
            show_welcome: true,
            vault_unlocked: false,
            search_query: String::new(),
            selected_category: 0,
            status_message: None,
            master_password: String::new(),
            generated_password: String::new(),
            generator: GeneratorConfig::new(),
        }
    }

    /// Takes in what the marker file held at start-up: the welcome notice
    /// is skipped if the contents acknowledge it.
    pub fn restore_acknowledgement(&mut self, contents: &str)
        ensures
            final(self)@ == (AppModel {
                show_welcome: old(self)@.show_welcome && !acknowledged(contents@),
                ..old(self)@
            }),
    {
        if acknowledges(contents) {
            self.show_welcome = false;
        }
    }

    /// The screen to draw.
    pub fn screen(&self) -> (screen: Screen)
        ensures
            screen == screen_of(self@),
    {
        if self.show_welcome {
            Screen::Welcome
        } else if !self.vault_unlocked {
            Screen::Unlock
        } else {
            Screen::Main
        }
    }

    /// The section of the main panel to draw.
    pub fn section(&self) -> (section: Section)
        ensures
            section == section_of(self.selected_category),
    {
        if self.selected_category == 1 {
            Section::Generator
        } else if self.selected_category == 2 {
            Section::Alerts
        } else if self.selected_category == 3 {
            Section::Account
        } else if self.selected_category == 4 {
            Section::Security
        } else {
            Section::Credentials
        }
    }

    /// The text of the status bar.
    pub fn status_text(&self) -> (text: &str)
        ensures
            text@ == status_line(self@),
    {
        match &self.status_message {
            Some(message) => message.as_str(),
            None => STATUS_READY,
        }
    }

    /// The four master-password rules with their verdicts on the password
    /// typed so far.
    pub fn password_requirements(&self) -> (rules: [(&'static str, bool); 4])
        ensures
            verdicts_on(rules, self@.master_password),
    {
        requirements(self.master_password.as_str())
    }

    /// Whether the password typed so far meets every rule, that is whether
    /// the vault may be unlocked.
    pub fn password_meets_requirements(&self) -> (ok: bool)
        ensures
            ok == meets_requirements(self@.master_password),
    {
        all_satisfied(self.master_password.as_str())
    }

    /// The label and the colour of the strength of the current generator
    /// configuration.
    pub fn generator_strength(&self) -> (shown: (&'static str, (u8, u8, u8)))
        ensures
            shown.0@ == tier_of_score(strength_score(self.generator)).spec_label(),
            shown.1 == tier_of_score(strength_score(self.generator)).spec_rgb(),
    {
        let tier = evaluate(&self.generator);
        (tier.label(), tier.rgb())
    }

    /// A password for the current generator configuration, or nothing if no
    /// class is enabled.
    pub fn generate_password(&self) -> (password: Option<String>)
        ensures
            password is None <==> !self.generator.any_class(),
            password matches Some(text) ==> generated_from(self.generator, text@),
    {
        match generate(&self.generator) {
            Ok(text) => Some(text),
            Err(_) => None,
        }
    }

    /// Takes in a freshly generated password: it becomes the password
    /// shown, the status says so, and it is to be copied.
    pub fn accept_generated(&mut self, password: String) -> (command: Command)
        ensures
            final(self)@ == with_generated(old(self)@, password@),
            command@ == CommandModel::CopyText(password@),
    {
        self.generated_password = password.clone();
        self.status_message = Some(String::from_str(STATUS_GENERATED));
        Command::CopyText(password)
    }

    /// Changes the state as `event` asks and says what is to be done.
    ///
    /// The vault is unlocked only if the master password meets every rule.
    /// A request to generate with no class enabled changes nothing. No
    /// event brings back a screen that the session has left.
    pub fn handle(&mut self, event: Event) -> (command: Command)
        ensures
            outcome(old(self)@, event, final(self)@, command@),
            screen_of(old(self)@).order() <= screen_of(final(self)@).order(),
    {
        match event {
            Event::WelcomeContinued => {
                self.show_welcome = false;
                Command::SaveAcknowledgement
            },
            Event::RepositoryRequested => Command::OpenRepository,
            Event::Failed(failure, detail) => {
                let mut text = String::from_str(failure.prefix());
                text.append(detail.as_str());
                self.status_message = Some(text);
                Command::Nothing
            },
            Event::UnlockRequested => {
                if self.password_meets_requirements() {
                    self.vault_unlocked = true;
                    self.status_message = Some(String::from_str(STATUS_UNLOCKED));
                }
                Command::Nothing
            },
            Event::AddEntryRequested => {
                self.status_message = Some(String::from_str(STATUS_ADD_ENTRY));
                Command::Nothing
            },
            Event::SettingsRequested => {
                self.status_message = Some(String::from_str(STATUS_SETTINGS));
                Command::Nothing
            },
            Event::CategorySelected(index) => {
                self.selected_category = index;
                Command::Nothing
            },
            Event::GenerateRequested => {
                match self.generate_password() {
                    Some(password) => self.accept_generated(password),
                    None => Command::Nothing,
                }
            },
            Event::CopyRequested => {
                let text = self.generated_password.clone();
                self.status_message = Some(String::from_str(STATUS_COPIED));
                Command::CopyText(text)
            },
        }
    }
}

impl Default for LilypadApp {
    /// A fresh session, as [`LilypadApp::new`] gives it.
    fn default() -> (app: LilypadApp)
        ensures
            app@ == initial_state(),
    {
        LilypadApp::new()
    }
}

/// No event makes a session show a screen that comes before the one it
/// shows: once the welcome notice is acknowledged it stays so, and once the
/// vault is unlocked it stays unlocked.
pub proof fn lemma_screens_one_way(
    before: AppModel,
    event: Event,
    after: AppModel,
    command: CommandModel,
)
    requires
        outcome(before, event, after, command),
    ensures
        screen_of(before).order() <= screen_of(after).order(),
        !before.show_welcome ==> !after.show_welcome,
        before.vault_unlocked ==> after.vault_unlocked,
{
}

/// The vault gets unlocked by an unlock request on a master password that
/// meets every rule, and by nothing else.
pub proof fn lemma_unlock_needs_requirements(
    before: AppModel,
    event: Event,
    after: AppModel,
    command: CommandModel,
)
    requires
        outcome(before, event, after, command),
        !before.vault_unlocked,
    ensures
        after.vault_unlocked <==> event is UnlockRequested && meets_requirements(
            before.master_password,
        ),
{
}

} // verus!
