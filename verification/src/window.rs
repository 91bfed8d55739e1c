//! The cleaner window's state machine. Each handler takes the shared state
//! and the window's contents, decides, and says what outside work to do next;
//! the program around it performs that work and reports back.

use vstd::prelude::*;
use crate::model::{
    AppMode, JunkItem, JunkType, JunkTypeView, LargeFile, StartupItem, junk_size_sum,
    large_size_sum, text_views,
};
use crate::text::{concat2, concat3, decimal, decimal_text};
use crate::units::{binary_size_text, format_binary_size};

verus! {

/// What the cleaner knows between events: the page shown, whether a scan or a
/// clean-up is running, what the last scan found, and a byte total (found
/// junk, large files, or bytes freed by the last clean-up).
pub struct AppState {
    pub mode: AppMode,
    pub is_working: bool,
    pub junk_items: Vec<JunkItem>,
    pub startup_items: Vec<StartupItem>,
    pub large_files: Vec<LargeFile>,
    pub total_size: u64,
}

impl Default for AppState {
    fn default() -> (s: AppState)
        ensures
            s.mode == AppMode::Junk,
            !s.is_working,
            s.junk_items@.len() == 0,
            s.startup_items@.len() == 0,
            s.large_files@.len() == 0,
            s.total_size == 0,
    {
        AppState {
            mode: AppMode::Junk,
            is_working: false,
            junk_items: Vec::new(),
            startup_items: Vec::new(),
            large_files: Vec::new(),
            total_size: 0,
        }
    }
}

/// The contents of the window's controls: the status and size labels, the
/// action and execute buttons, the RAM-optimisation check box, the list and
/// the progress bar (position in `0..=progress_max`, or a marquee).
pub struct Screen {
    pub status_text: String,
    pub size_text: String,
    pub action_text: String,
    pub action_visible: bool,
    pub action_enabled: bool,
    pub execute_text: String,
    pub execute_visible: bool,
    pub execute_enabled: bool,
    pub optimize_visible: bool,
    pub optimize_enabled: bool,
    pub list: Vec<String>,
    pub progress_pos: u32,
    pub progress_max: u32,
    pub progress_marquee: bool,
}

/// The abstract contents of a [`Screen`].
#[verifier::ext_equal]
pub struct ScreenView {
    pub status_text: Seq<char>,
    pub size_text: Seq<char>,
    pub action_text: Seq<char>,
    pub action_visible: bool,
    pub action_enabled: bool,
    pub execute_text: Seq<char>,
    pub execute_visible: bool,
    pub execute_enabled: bool,
    pub optimize_visible: bool,
    pub optimize_enabled: bool,
    pub list: Seq<Seq<char>>,
    pub progress_pos: u32,
    pub progress_max: u32,
    pub progress_marquee: bool,
}

impl View for Screen {
    type V = ScreenView;

    open spec fn view(&self) -> ScreenView {
        ScreenView {
            status_text: self.status_text@,
            size_text: self.size_text@,
            action_text: self.action_text@,
            action_visible: self.action_visible,
            action_enabled: self.action_enabled,
            execute_text: self.execute_text@,
            execute_visible: self.execute_visible,
            execute_enabled: self.execute_enabled,
            optimize_visible: self.optimize_visible,
            optimize_enabled: self.optimize_enabled,
            list: text_views(self.list@),
            progress_pos: self.progress_pos,
            progress_max: self.progress_max,
            progress_marquee: self.progress_marquee,
        }
    }
}

/// The window as it opens: ready on the junk page, with the execute button hidden.
pub open spec fn initial_screen() -> ScreenView {
    ScreenView {
        status_text: "Ready."@,
        size_text: "Total Size: 0 B"@,
        action_text: "Scan Junk"@,
        action_visible: true,
        action_enabled: true,
        execute_text: "Clean Junk"@,
        execute_visible: false,
        execute_enabled: false,
        optimize_visible: true,
        optimize_enabled: true,
        list: seq![],
        progress_pos: 0,
        progress_max: 100,
        progress_marquee: false,
    }
}

impl Screen {
    /// The window as it opens (see [`initial_screen`]).
    pub fn new() -> (s: Screen)
        ensures
            s@ == initial_screen(),
    {
        let s = Screen {
            status_text: String::from_str("Ready."),
            size_text: String::from_str("Total Size: 0 B"),
            action_text: String::from_str("Scan Junk"),
            action_visible: true,
            action_enabled: true,
            execute_text: String::from_str("Clean Junk"),
            execute_visible: false,
            execute_enabled: false,
            optimize_visible: true,
            optimize_enabled: true,
            list: Vec::new(),
            progress_pos: 0,
            progress_max: 100,
            progress_marquee: false,
        };
        assert(s@ =~= initial_screen());
        s
    }
}

impl Default for Screen {
    fn default() -> (s: Screen)
        ensures
            s@ == initial_screen(),
    {
        Screen::new()
    }
}

/// The status line shown when `mode`'s page is selected.
pub open spec fn mode_title(mode: AppMode) -> Seq<char> {
    match mode {
        AppMode::Junk => "Junk & Registry Cleaner Mode"@,
        AppMode::Startup => "Startup Manager Mode"@,
        AppMode::LargeFiles => "Large File Finder Mode"@,
    }
}

/// The action button's label on `mode`'s page.
pub open spec fn mode_action_text(mode: AppMode) -> Seq<char> {
    match mode {
        AppMode::Junk => "Scan Junk"@,
        AppMode::Startup => "Load Startup Items"@,
        AppMode::LargeFiles => "Scan Drive C: (>500MB)"@,
    }
}

/// The window after switching to `mode`'s page: its title and action, the
/// action button shown and enabled, the execute button hidden and disabled,
/// an empty list, a zero size and progress, and the RAM check box shown only
/// on the junk page.
pub open spec fn mode_screen(v: ScreenView, mode: AppMode) -> ScreenView {
    ScreenView {
        optimize_visible: mode == AppMode::Junk,
        status_text: mode_title(mode),
        action_text: mode_action_text(mode),
        action_visible: true,
        action_enabled: true,
        execute_visible: false,
        execute_enabled: false,
        list: seq![],
        size_text: "Total Size: 0 B"@,
        progress_pos: 0,
        ..v
    }
}

/// The window while a scan runs: the action disabled, "Scanning...", an empty
/// list and a running marquee over a 0..100 bar at 0.
pub open spec fn scanning_screen(v: ScreenView) -> ScreenView {
    ScreenView {
        action_enabled: false,
        status_text: "Scanning..."@,
        list: seq![],
        progress_max: 100,
        progress_pos: 0,
        progress_marquee: true,
        ..v
    }
}

/// The state after asking for `mode`'s page: unchanged while a scan or
/// clean-up runs, otherwise showing `mode`.
pub open spec fn switched(s: AppState, mode: AppMode) -> AppState {
    if s.is_working {
        s
    } else {
        AppState { mode, ..s }
    }
}

/// The scan that the action button starts in state `s`: none while a scan or
/// clean-up runs, otherwise one of the page shown.
pub open spec fn scan_request(s: AppState) -> Option<AppMode> {
    if s.is_working {
        None
    } else {
        Some(s.mode)
    }
}

/// The state after the action button: busy from then on, unless it was already.
pub open spec fn started(s: AppState) -> AppState {
    AppState { is_working: true, ..s }
}

impl AppState {
    fn switch_mode(&mut self, screen: &mut Screen, mode: AppMode)
        ensures
            old(self).is_working ==> *final(self) == *old(self) && *final(screen) == *old(screen),
            *final(self) == switched(*old(self), mode),
            !old(self).is_working ==> final(screen)@ == mode_screen(old(screen)@, mode),
    {
        if self.is_working {
            return;
        }
        self.mode = mode;
        screen.optimize_visible = match mode {
            AppMode::Junk => true,
            _ => false,
        };
        let (title, action) = match mode {
            AppMode::Junk => (
                String::from_str("Junk & Registry Cleaner Mode"),
                String::from_str("Scan Junk"),
            ),
            AppMode::Startup => (
                String::from_str("Startup Manager Mode"),
                String::from_str("Load Startup Items"),
            ),
            AppMode::LargeFiles => (
                String::from_str("Large File Finder Mode"),
                String::from_str("Scan Drive C: (>500MB)"),
            ),
        };
        screen.status_text = title;
        screen.action_text = action;
        screen.action_visible = true;
        screen.action_enabled = true;
        screen.execute_visible = false;
        screen.execute_enabled = false;
        screen.list = Vec::new();
        screen.size_text = String::from_str("Total Size: 0 B");
        screen.progress_pos = 0;
        assert(final(screen)@ =~= mode_screen(old(screen)@, mode));
    }

    /// Switches to the junk and registry page, unless a scan or clean-up runs.
    pub fn mode_junk(&mut self, screen: &mut Screen)
        ensures
            old(self).is_working ==> *final(self) == *old(self) && *final(screen) == *old(screen),
            *final(self) == switched(*old(self), AppMode::Junk),
            !old(self).is_working ==> final(screen)@ == mode_screen(old(screen)@, AppMode::Junk),
    {
        self.switch_mode(screen, AppMode::Junk)
    }

    /// Switches to the start-up manager page, unless a scan or clean-up runs.
    pub fn mode_startup(&mut self, screen: &mut Screen)
        ensures
            old(self).is_working ==> *final(self) == *old(self) && *final(screen) == *old(screen),
            *final(self) == switched(*old(self), AppMode::Startup),
            !old(self).is_working ==> final(screen)@ == mode_screen(old(screen)@, AppMode::Startup),
    {
        self.switch_mode(screen, AppMode::Startup)
    }

    /// Switches to the large-file finder page, unless a scan or clean-up runs.
    pub fn mode_large_files(&mut self, screen: &mut Screen)
        ensures
            old(self).is_working ==> *final(self) == *old(self) && *final(screen) == *old(screen),
            *final(self) == switched(*old(self), AppMode::LargeFiles),
            !old(self).is_working ==> final(screen)@ == mode_screen(old(screen)@, AppMode::LargeFiles),
    {
        self.switch_mode(screen, AppMode::LargeFiles)
    }

    /// The action button: starts a scan of the current page unless one is
    /// running. Returns the page to scan; the caller runs the scan, calling
    /// [`AppState::begin_scan`] and then [`AppState::finish_scan`].
    pub fn start_action(&mut self, screen: &mut Screen) -> (r: Option<AppMode>)
        ensures
            r == scan_request(*old(self)),
            *final(self) == started(*old(self)),
            old(self).is_working ==> *final(screen) == *old(screen),
            !old(self).is_working ==> final(screen)@ == scanning_screen(old(screen)@),
    {
        if self.is_working {
            return None;
        }
        self.is_working = true;
        screen.action_enabled = false;
        screen.status_text = String::from_str("Scanning...");
        screen.list = Vec::new();
        screen.progress_max = 100;
        screen.progress_pos = 0;
        screen.progress_marquee = true;
        assert(final(screen)@ =~= scanning_screen(old(screen)@));
        Some(self.mode)
    }

    /// The start of a scan: forgets what the previous scan found.
    pub fn begin_scan(&mut self)
        ensures
            final(self).mode == old(self).mode,
            final(self).is_working == old(self).is_working,
            final(self).junk_items@.len() == 0,
            final(self).startup_items@.len() == 0,
            final(self).large_files@.len() == 0,
            final(self).total_size == 0,
    {
        self.total_size = 0;
        self.junk_items.clear();
        self.startup_items.clear();
        self.large_files.clear();
    }
}

/// What a finished scan found.
pub enum ScanOutcome {
    /// The entries of the junk directories, then the dead `Run` values.
    Junk { dir_items: Vec<JunkItem>, dead_keys: Vec<JunkItem> },
    /// The values of the `Run` keys.
    Startup(Vec<StartupItem>),
    /// The large files on drive C:.
    LargeFiles(Vec<LargeFile>),
}

/// The byte total of an outcome fits in a `u64`.
pub open spec fn outcome_fits(outcome: ScanOutcome) -> bool {
    match outcome {
        ScanOutcome::Junk { dir_items, .. } => junk_size_sum(dir_items@) <= u64::MAX,
        ScanOutcome::Startup(_) => true,
        ScanOutcome::LargeFiles(files) => large_size_sum(files@) <= u64::MAX,
    }
}

impl AppState {
    /// The end of a scan: records what it found, with the bytes of the junk
    /// directories' entries or of the large files, and the window is no longer busy.
    pub fn finish_scan(&mut self, outcome: ScanOutcome)
        requires
            outcome_fits(outcome),
        ensures
            !final(self).is_working,
            final(self).mode == old(self).mode,
            match outcome {
                ScanOutcome::Junk { dir_items, dead_keys } => {
                    &&& final(self).junk_items@ == dir_items@ + dead_keys@
                    &&& final(self).total_size == junk_size_sum(dir_items@)
                    &&& final(self).startup_items == old(self).startup_items
                    &&& final(self).large_files == old(self).large_files
                },
                ScanOutcome::Startup(items) => {
                    &&& final(self).startup_items == items
                    &&& final(self).total_size == old(self).total_size
                    &&& final(self).junk_items == old(self).junk_items
                    &&& final(self).large_files == old(self).large_files
                },
                ScanOutcome::LargeFiles(files) => {
                    &&& final(self).large_files == files
                    &&& final(self).total_size == large_size_sum(files@)
                    &&& final(self).junk_items == old(self).junk_items
                    &&& final(self).startup_items == old(self).startup_items
                },
            },
    {
        match outcome {
            ScanOutcome::Junk { dir_items, dead_keys } => {
                let size = match crate::scanner::total_junk_size(&dir_items) {
                    Some(t) => t,
                    None => 0,
                };
                let mut items = dir_items;
                let mut keys = dead_keys;
                items.append(&mut keys);
                self.junk_items = items;
                self.total_size = size;
                self.is_working = false;
            },
            ScanOutcome::Startup(items) => {
                self.startup_items = items;
                self.is_working = false;
            },
            ScanOutcome::LargeFiles(files) => {
                let size = match crate::scanner::total_large_size(&files) {
                    Some(t) => t,
                    None => 0,
                };
                self.large_files = files;
                self.total_size = size;
                self.is_working = false;
            },
        }
    }
}

/// The list line for a start-up entry: `name -> command`.
pub open spec fn startup_line(item: StartupItem) -> Seq<char> {
    item.name@ + " -> "@ + item.command@
}

/// The list line for a large file: `[size] path`.
pub open spec fn large_file_line(file: LargeFile) -> Seq<char> {
    "["@ + binary_size_text(file.size) + "] "@ + file.path@
}

/// After a scan that found `count` entries: offer `execute_text` when there
/// is something to act on, otherwise bring the action button back.
pub open spec fn offer_screen(v: ScreenView, count: nat, execute_text: Seq<char>) -> ScreenView {
    if count > 0 {
        ScreenView { execute_text, execute_enabled: true, ..v }
    } else {
        ScreenView { action_enabled: true, action_visible: true, execute_visible: false, ..v }
    }
}

/// The window once a scan has finished, reporting what `s` holds for its page.
pub open spec fn scan_report_screen(s: AppState, v: ScreenView) -> ScreenView {
    let base = ScreenView {
        progress_marquee: false,
        progress_pos: 100,
        action_visible: false,
        execute_visible: true,
        ..v
    };
    match s.mode {
        AppMode::Junk => {
            let count = s.junk_items@.len();
            offer_screen(
                ScreenView {
                    size_text: "Total Junk: "@ + binary_size_text(s.total_size),
                    status_text: "Scan complete. Found "@ + decimal(count) + " junk/dead items."@,
                    list: base.list.push(
                        "Found "@ + decimal(count) + " files/folders/registry keys to clean."@,
                    ),
                    ..base
                },
                count,
                "Clean All Junk"@,
            )
        },
        AppMode::Startup => {
            let count = s.startup_items@.len();
            offer_screen(
                ScreenView {
                    status_text: "Found "@ + decimal(count) + " startup items."@,
                    list: base.list + s.startup_items@.map_values(|i: StartupItem| startup_line(i)),
                    ..base
                },
                count,
                "Disable Selected Startup Item"@,
            )
        },
        AppMode::LargeFiles => {
            let count = s.large_files@.len();
            offer_screen(
                ScreenView {
                    size_text: "Total Size: "@ + binary_size_text(s.total_size),
                    status_text: "Found "@ + decimal(count) + " large files."@,
                    list: base.list + s.large_files@.map_values(|f: LargeFile| large_file_line(f)),
                    ..base
                },
                count,
                "Delete Selected Large File"@,
            )
        },
    }
}

/// The execute button text of `mode`'s page.
pub open spec fn page_execute_text(mode: AppMode) -> Seq<char> {
    match mode {
        AppMode::Junk => "Clean All Junk"@,
        AppMode::Startup => "Disable Selected Startup Item"@,
        AppMode::LargeFiles => "Delete Selected Large File"@,
    }
}

/// The number of entries found for `s`'s page.
pub open spec fn page_count(s: AppState) -> nat {
    match s.mode {
        AppMode::Junk => s.junk_items@.len(),
        AppMode::Startup => s.startup_items@.len(),
        AppMode::LargeFiles => s.large_files@.len(),
    }
}

/// After a scan report, whatever was found can be acted on: with at least
/// one entry the execute button is shown, enabled, labelled for the page, and
/// the action button is hidden; with none the execute button is hidden and
/// the action button is shown and enabled again.
pub proof fn law_report_offers_what_was_found(s: AppState, v: ScreenView)
    ensures
        page_count(s) >= 1 ==> {
            let w = scan_report_screen(s, v);
            &&& w.execute_visible
            &&& w.execute_enabled
            &&& w.execute_text == page_execute_text(s.mode)
            &&& !w.action_visible
        },
        page_count(s) == 0 ==> {
            let w = scan_report_screen(s, v);
            &&& !w.execute_visible
            &&& w.action_visible
            &&& w.action_enabled
        },
{
}

impl Screen {
    fn push_line(&mut self, line: String)
        ensures
            final(self)@ == (ScreenView { list: old(self)@.list.push(line@), ..old(self)@ }),
    {
        let ghost l = line@;
        self.list.push(line);
        assert(text_views(final(self).list@) =~= text_views(old(self).list@).push(l));
        assert(final(self)@ =~= (ScreenView { list: old(self)@.list.push(l), ..old(self)@ }));
    }

    fn offer(&mut self, count: usize, execute_text: &str)
        ensures
            final(self)@ == offer_screen(old(self)@, count as nat, execute_text@),
    {
        if count > 0 {
            self.execute_text = String::from_str(execute_text);
            self.execute_enabled = true;
        } else {
            self.action_enabled = true;
            self.action_visible = true;
            self.execute_visible = false;
        }
        assert(final(self)@ =~= offer_screen(old(self)@, count as nat, execute_text@));
    }
}

impl AppState {
    /// The end of a scan as the window shows it: stops the marquee, fills the
    /// bar, swaps the action button for the execute button and reports what
    /// was found (see [`scan_report_screen`]).
    pub fn on_scan_progress(&self, screen: &mut Screen)
        ensures
            final(screen)@ == scan_report_screen(*self, old(screen)@),
    {
        screen.progress_marquee = false;
        screen.progress_pos = 100;
        screen.action_visible = false;
        screen.execute_visible = true;
        let ghost base = screen@;
        assert(base =~= (ScreenView {
            progress_marquee: false,
            progress_pos: 100,
            action_visible: false,
            execute_visible: true,
            ..old(screen)@
        }));
        match self.mode {
            AppMode::Junk => {
                let count = self.junk_items.len();
                let total = format_binary_size(self.total_size);
                screen.size_text = concat2("Total Junk: ", total.as_str());
                let n = decimal_text(count as u64);
                screen.status_text = concat3("Scan complete. Found ", n.as_str(), " junk/dead items.");
                screen.push_line(concat3("Found ", n.as_str(), " files/folders/registry keys to clean."));
                screen.offer(count, "Clean All Junk");
            },
            AppMode::Startup => {
                let count = self.startup_items.len();
                let n = decimal_text(count as u64);
                screen.status_text = concat3("Found ", n.as_str(), " startup items.");
                let mut i: usize = 0;
                while i < count
                    invariant
                        i <= count,
                        count == self.startup_items@.len(),
                        screen@ == (ScreenView {
                            status_text: "Found "@ + decimal(count as nat) + " startup items."@,
                            list: base.list + self.startup_items@.take(i as int).map_values(
                                |it: StartupItem| startup_line(it),
                            ),
                            ..base
                        }),
                    decreases count - i,
                {
                    let item = &self.startup_items[i];
                    let line = concat3(item.name.as_str(), " -> ", item.command.as_str());
                    screen.push_line(line);
                    assert(self.startup_items@.take(i + 1).map_values(|it: StartupItem| startup_line(it))
                        =~= self.startup_items@.take(i as int).map_values(
                        |it: StartupItem| startup_line(it),
                    ).push(startup_line(self.startup_items@[i as int])));
                    i = i + 1;
                }
                assert(self.startup_items@.take(count as int) =~= self.startup_items@);
                screen.offer(count, "Disable Selected Startup Item");
            },
            AppMode::LargeFiles => {
                let count = self.large_files.len();
                let total = format_binary_size(self.total_size);
                screen.size_text = concat2("Total Size: ", total.as_str());
                let n = decimal_text(count as u64);
                screen.status_text = concat3("Found ", n.as_str(), " large files.");
                let mut i: usize = 0;
                while i < count
                    invariant
                        i <= count,
                        count == self.large_files@.len(),
                        screen@ == (ScreenView {
                            size_text: "Total Size: "@ + binary_size_text(self.total_size),
                            status_text: "Found "@ + decimal(count as nat) + " large files."@,
                            list: base.list + self.large_files@.take(i as int).map_values(
                                |f: LargeFile| large_file_line(f),
                            ),
                            ..base
                        }),
                    decreases count - i,
                {
                    let file = &self.large_files[i];
                    let size = format_binary_size(file.size);
                    let mut line = concat3("[", size.as_str(), "] ");
                    line.append(file.path.as_str());
                    screen.push_line(line);
                    assert(self.large_files@.take(i + 1).map_values(|f: LargeFile| large_file_line(f))
                        =~= self.large_files@.take(i as int).map_values(
                        |f: LargeFile| large_file_line(f),
                    ).push(large_file_line(self.large_files@[i as int])));
                    i = i + 1;
                }
                assert(self.large_files@.take(count as int) =~= self.large_files@);
                screen.offer(count, "Delete Selected Large File");
            },
        }
    }
}

/// A message box: its title and text.
pub struct Notice {
    pub title: String,
    pub text: String,
}

/// The outside work that the execute button asks for.
pub enum Action {
    /// Nothing to do.
    Nothing,
    /// Show a message box.
    Notify(Notice),
    /// Delete the `Run` value `name` under `hkey\subkey`, show `notice`, then
    /// run the scan of `rescan` that was started.
    DisableStartupItem { hkey: isize, subkey: String, name: String, notice: Notice, rescan: AppMode },
    /// Delete the file at `path`, show `notice`, then run the scan of `rescan`
    /// that was started.
    DeleteLargeFile { path: String, notice: Notice, rescan: AppMode },
    /// Delete `items`, run Windows' disk clean-up, optimise RAM when
    /// `optimize_ram`, then report through [`AppState::finish_cleanup`].
    Clean { items: Vec<JunkItem>, optimize_ram: bool },
}

/// The notice has this title and text.
pub open spec fn notice_is(n: Notice, title: Seq<char>, text: Seq<char>) -> bool {
    n.title@ == title && n.text@ == text
}

/// The window while junk is deleted: the execute button and the RAM check box
/// disabled, "Cleaning...", one line in the list, and a bar over `0..total`
/// at 0.
pub open spec fn cleaning_screen(v: ScreenView, total: u32) -> ScreenView {
    ScreenView {
        execute_enabled: false,
        optimize_enabled: false,
        status_text: "Cleaning..."@,
        list: seq!["Cleaning temporary files and registry..."@],
        progress_max: total,
        progress_pos: 0,
        ..v
    }
}

impl AppState {
    /// The execute button. `selection` is the list entry selected, and
    /// `optimize_checked` the state of the RAM check box. On the start-up and
    /// large-file pages it removes the selected entry (then scans again), or
    /// asks for a selection; on the junk page it hands every found item over
    /// for deletion. Nothing happens while a scan or clean-up runs, nor when
    /// the selection is past the end of the list or no junk was found.
    pub fn execute_action(&mut self, screen: &mut Screen, selection: Option<usize>, optimize_checked: bool) -> (r: Action)
        ensures
            old(self).is_working ==> r is Nothing && *final(self) == *old(self) && *final(screen)
                == *old(screen),
            !old(self).is_working && old(self).mode == AppMode::Startup ==> match selection {
                None => {
                    &&& r matches Action::Notify(n) && notice_is(n, "Error"@, "Please select a startup item to disable."@)
                    &&& *final(self) == *old(self) && *final(screen) == *old(screen)
                },
                Some(idx) => if idx < old(self).startup_items@.len() {
                    let item = old(self).startup_items@[idx as int];
                    &&& r matches Action::DisableStartupItem { hkey, subkey, name, notice, rescan } && {
                        &&& hkey == item.hkey
                        &&& subkey@ == item.subkey@
                        &&& name@ == item.name@
                        &&& notice_is(notice, "Success"@, "Disabled startup item: "@ + item.name@)
                        &&& rescan == AppMode::Startup
                    }
                    &&& *final(self) == started(*old(self))
                    &&& final(screen)@ == scanning_screen(old(screen)@)
                } else {
                    &&& r is Nothing
                    &&& *final(self) == *old(self) && *final(screen) == *old(screen)
                },
            },
            !old(self).is_working && old(self).mode == AppMode::LargeFiles ==> match selection {
                None => {
                    &&& r matches Action::Notify(n) && notice_is(n, "Error"@, "Please select a large file to delete."@)
                    &&& *final(self) == *old(self) && *final(screen) == *old(screen)
                },
                Some(idx) => if idx < old(self).large_files@.len() {
                    let file = old(self).large_files@[idx as int];
                    &&& r matches Action::DeleteLargeFile { path, notice, rescan } && {
                        &&& path@ == file.path@
                        &&& notice_is(notice, "Success"@, "Deleted large file: "@ + file.path@)
                        &&& rescan == AppMode::LargeFiles
                    }
                    &&& *final(self) == started(*old(self))
                    &&& final(screen)@ == scanning_screen(old(screen)@)
                } else {
                    &&& r is Nothing
                    &&& *final(self) == *old(self) && *final(screen) == *old(screen)
                },
            },
            !old(self).is_working && old(self).mode == AppMode::Junk ==> if old(self).junk_items@.len() == 0 {
                &&& r is Nothing
                &&& *final(self) == *old(self) && *final(screen) == *old(screen)
            } else {
                &&& r matches Action::Clean { items, optimize_ram } && items@ == old(self).junk_items@
                    && optimize_ram == optimize_checked
                &&& final(self).is_working
                &&& final(self).junk_items@.len() == 0
                &&& final(self).mode == old(self).mode
                &&& final(self).startup_items == old(self).startup_items
                &&& final(self).large_files == old(self).large_files
                &&& final(self).total_size == old(self).total_size
                &&& final(screen)@ == cleaning_screen(old(screen)@, old(self).junk_items@.len() as u32)
            },
    {
        if self.is_working {
            return Action::Nothing;
        }
        match self.mode {
            AppMode::Startup => {
                match selection {
                    Some(idx) => {
                        if idx < self.startup_items.len() {
                            let item = &self.startup_items[idx];
                            let hkey = item.hkey;
                            let subkey = item.subkey.clone();
                            let name = item.name.clone();
                            let notice = Notice {
                                title: String::from_str("Success"),
                                text: concat2("Disabled startup item: ", item.name.as_str()),
                            };
                            self.start_action(screen);
                            Action::DisableStartupItem { hkey, subkey, name, notice, rescan: AppMode::Startup }
                        } else {
                            Action::Nothing
                        }
                    },
                    None => Action::Notify(
                        Notice {
                            title: String::from_str("Error"),
                            text: String::from_str("Please select a startup item to disable."),
                        },
                    ),
                }
            },
            AppMode::LargeFiles => {
                match selection {
                    Some(idx) => {
                        if idx < self.large_files.len() {
                            let file = &self.large_files[idx];
                            let path = file.path.clone();
                            let notice = Notice {
                                title: String::from_str("Success"),
                                text: concat2("Deleted large file: ", file.path.as_str()),
                            };
                            self.start_action(screen);
                            Action::DeleteLargeFile { path, notice, rescan: AppMode::LargeFiles }
                        } else {
                            Action::Nothing
                        }
                    },
                    None => Action::Notify(
                        Notice {
                            title: String::from_str("Error"),
                            text: String::from_str("Please select a large file to delete."),
                        },
                    ),
                }
            },
            AppMode::Junk => {
                if self.junk_items.len() == 0 {
                    return Action::Nothing;
                }
                self.is_working = true;
                let total = self.junk_items.len() as u32;
                screen.execute_enabled = false;
                screen.optimize_enabled = false;
                screen.status_text = String::from_str("Cleaning...");
                screen.list = Vec::new();
                screen.push_line(String::from_str("Cleaning temporary files and registry..."));
                screen.progress_max = total;
                screen.progress_pos = 0;
                let mut items: Vec<JunkItem> = Vec::new();
                std::mem::swap(&mut items, &mut self.junk_items);
                assert(final(screen)@ =~= cleaning_screen(old(screen)@, total));
                Action::Clean { items, optimize_ram: optimize_checked }
            },
        }
    }
}

/// `s` holds the outcome of a clean-up that deleted `count` items, freed
/// `size` bytes, and optimised RAM when `optimized`: the byte total, and two
/// marker items whose sizes carry the count and the flag.
pub open spec fn holds_cleanup(s: AppState, count: u64, size: u64, optimized: bool) -> bool {
    &&& s.total_size == size
    &&& s.junk_items@.len() == 2
    &&& s.junk_items@[0]@.junk_type == JunkTypeView::FileOrDir("DELETED_COUNT"@)
    &&& s.junk_items@[0].size == count
    &&& s.junk_items@[1]@.junk_type == JunkTypeView::FileOrDir("OPTIMIZED_RAM"@)
    &&& s.junk_items@[1].size == if optimized { 1u64 } else { 0u64 }
}

/// What the window reports of a finished clean-up held in `s`: bytes freed,
/// items deleted, and whether RAM was optimised.
pub open spec fn cleanup_report(s: AppState) -> (u64, u64, bool) {
    (s.total_size, s.junk_items@[0].size, s.junk_items@[1].size == 1)
}

/// The window after a clean-up that freed `size` bytes by deleting `count`
/// items: the report lines, a full bar, the action button back and the
/// execute button gone.
pub open spec fn cleanup_screen(v: ScreenView, size: u64, count: u64, optimized: bool) -> ScreenView {
    let lines = v.list.push("Successfully deleted "@ + decimal(count as nat) + " items."@).push(
        "Windows Disk Cleanup finished successfully."@,
    );
    ScreenView {
        status_text: "Cleaning complete."@,
        size_text: "Cleaned: "@ + binary_size_text(size),
        list: if optimized {
            lines.push("RAM & DNS Cache successfully optimized."@)
        } else {
            lines
        },
        progress_pos: v.progress_max,
        execute_enabled: false,
        execute_visible: false,
        action_enabled: true,
        action_visible: true,
        optimize_enabled: true,
        ..v
    }
}

/// The clean-up report keeps what the list showed and adds two lines, or three
/// when RAM was optimised, the first of which gives the count; the bar is
/// full and the window can start again.
pub proof fn law_cleanup_report_lines(v: ScreenView, size: u64, count: u64, optimized: bool)
    ensures
        ({
            let w = cleanup_screen(v, size, count, optimized);
            &&& w.list.len() == v.list.len() + if optimized { 3int } else { 2int }
            &&& w.list.subrange(0, v.list.len() as int) == v.list
            &&& w.list[v.list.len() as int] == "Successfully deleted "@ + decimal(count as nat) + " items."@
            &&& (optimized <==> w.list.len() == v.list.len() + 3)
            &&& w.progress_pos == w.progress_max
            &&& w.action_visible && w.action_enabled && !w.execute_visible
        }),
{
    let w = cleanup_screen(v, size, count, optimized);
    assert(w.list.subrange(0, v.list.len() as int) =~= v.list);
}

impl AppState {
    /// The end of a clean-up: the window is no longer busy and holds the
    /// outcome (see [`holds_cleanup`]).
    pub fn finish_cleanup(&mut self, deleted_count: u64, deleted_size: u64, optimized: bool)
        ensures
            !final(self).is_working,
            final(self).mode == old(self).mode,
            final(self).startup_items == old(self).startup_items,
            final(self).large_files == old(self).large_files,
            holds_cleanup(*final(self), deleted_count, deleted_size, optimized),
    {
        self.is_working = false;
        self.total_size = deleted_size;
        self.junk_items.clear();
        self.junk_items.push(
            JunkItem {
                junk_type: JunkType::FileOrDir(String::from_str("DELETED_COUNT")),
                size: deleted_count,
            },
        );
        self.junk_items.push(
            JunkItem {
                junk_type: JunkType::FileOrDir(String::from_str("OPTIMIZED_RAM")),
                size: if optimized { 1 } else { 0 },
            },
        );
    }

    /// The clean-up's end as the window shows it. On the junk page it reports
    /// the outcome held (see [`cleanup_report`]) and forgets it; on another
    /// page nothing changes.
    pub fn on_execute_progress(&mut self, screen: &mut Screen)
        requires
            old(self).mode == AppMode::Junk ==> old(self).junk_items@.len() >= 2,
        ensures
            old(self).mode != AppMode::Junk ==> *final(self) == *old(self) && *final(screen)
                == *old(screen),
            old(self).mode == AppMode::Junk ==> {
                let (size, count, optimized) = cleanup_report(*old(self));
                &&& final(screen)@ == cleanup_screen(old(screen)@, size, count, optimized)
                &&& final(self).junk_items@.len() == 0
                &&& final(self).total_size == 0
                &&& final(self).mode == old(self).mode
                &&& final(self).is_working == old(self).is_working
                &&& final(self).startup_items == old(self).startup_items
                &&& final(self).large_files == old(self).large_files
            },
    {
        match self.mode {
            AppMode::Junk => {},
            _ => {
                return;
            },
        }
        let deleted_size = self.total_size;
        let deleted_count = self.junk_items[0].size;
        let ram_optimized = self.junk_items[1].size == 1;
        self.junk_items.clear();
        self.total_size = 0;
        let size_text = format_binary_size(deleted_size);
        screen.status_text = String::from_str("Cleaning complete.");
        screen.size_text = concat2("Cleaned: ", size_text.as_str());
        let n = decimal_text(deleted_count);
        screen.push_line(concat3("Successfully deleted ", n.as_str(), " items."));
        screen.push_line(String::from_str("Windows Disk Cleanup finished successfully."));
        if ram_optimized {
            screen.push_line(String::from_str("RAM & DNS Cache successfully optimized."));
        }
        screen.progress_pos = screen.progress_max;
        screen.execute_enabled = false;
        screen.execute_visible = false;
        screen.action_enabled = true;
        screen.action_visible = true;
        screen.optimize_enabled = true;
        assert(final(screen)@ =~= cleanup_screen(
            old(screen)@,
            deleted_size,
            deleted_count,
            ram_optimized,
        ));
    }
}

/// A clean-up's outcome is reported as it was recorded: the state that
/// [`AppState::finish_cleanup`] leaves gives back, through
/// [`AppState::on_execute_progress`], the same bytes freed, items deleted and
/// RAM flag.
pub proof fn law_cleanup_report_round_trip(s: AppState, count: u64, size: u64, optimized: bool)
    requires
        holds_cleanup(s, count, size, optimized),
    ensures
        cleanup_report(s) == (size, count, optimized),
{
}

/// A busy window refuses every request: while a scan or clean-up runs,
/// asking for a page leaves the state as it is and the action button starts
/// no scan.
pub proof fn law_busy_window_refuses(s: AppState, mode: AppMode)
    requires
        s.is_working,
    ensures
        switched(s, mode) == s,
        scan_request(s) is None,
        started(s) == s,
{
}

/// The action button scans the page last asked for: after choosing `mode` in
/// an idle window, the scan started is one of `mode`, and the window is busy.
pub proof fn law_scan_follows_selected_page(s: AppState, mode: AppMode)
    requires
        !s.is_working,
    ensures
        scan_request(switched(s, mode)) == Some(mode),
        started(switched(s, mode)).is_working,
        started(switched(s, mode)).mode == mode,
{
}

} // verus!
