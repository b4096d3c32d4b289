//! The terminal identities, the result of a detection and the errors that a
//! caller can report.

use vstd::prelude::*;
use vstd::utf8::is_ascii_chars;
use vstd::string::StringExecFns;
use crate::environment::{Environment, EnvironmentView};
use crate::text::{
    ascii_lower, chars_of, leading, lower, skip_leading, skip_trailing, str_eq, substring,
    to_lowercase, trim, trim_end, CharClass,
};
use crate::utils::get_env;

verus! {

/// A terminal emulator: one of the known ones, or any other by the name it
/// goes by.
#[derive(Debug, Eq, Hash)]
pub enum Terminal {
    WindowsTerminal,
    CommandPrompt,
    PowerShell,
    ConEmu,
    Cmder,
    AppleTerminal,
    ITerm2,
    Alacritty,
    Kitty,
    Hyper,
    WezTerm,
    Tabby,
    GnomeTerminal,
    Konsole,
    XTerm,
    Rxvt,
    Terminator,
    Tilix,
    Termux,
    /// A terminal outside the known set, with the name it was found under.
    Generic(String),
}

/// What a `Terminal` stands for: the same variants, with the name of an
/// unknown terminal as a sequence of characters.
pub enum TerminalView {
    WindowsTerminal,
    CommandPrompt,
    PowerShell,
    ConEmu,
    Cmder,
    AppleTerminal,
    ITerm2,
    Alacritty,
    Kitty,
    Hyper,
    WezTerm,
    Tabby,
    GnomeTerminal,
    Konsole,
    XTerm,
    Rxvt,
    Terminator,
    Tilix,
    Termux,
    Generic(Seq<char>),
}

impl TerminalView {
    /// Whether this is one of the known terminals.
    pub open spec fn is_known(self) -> bool {
        !(self is Generic)
    }
}

impl View for Terminal {
    type V = TerminalView;

    open spec fn view(&self) -> TerminalView {
        match self {
            Terminal::WindowsTerminal => TerminalView::WindowsTerminal,
            Terminal::CommandPrompt => TerminalView::CommandPrompt,
            Terminal::PowerShell => TerminalView::PowerShell,
            Terminal::ConEmu => TerminalView::ConEmu,
            Terminal::Cmder => TerminalView::Cmder,
            Terminal::AppleTerminal => TerminalView::AppleTerminal,
            Terminal::ITerm2 => TerminalView::ITerm2,
            Terminal::Alacritty => TerminalView::Alacritty,
            Terminal::Kitty => TerminalView::Kitty,
            Terminal::Hyper => TerminalView::Hyper,
            Terminal::WezTerm => TerminalView::WezTerm,
            Terminal::Tabby => TerminalView::Tabby,
            Terminal::GnomeTerminal => TerminalView::GnomeTerminal,
            Terminal::Konsole => TerminalView::Konsole,
            Terminal::XTerm => TerminalView::XTerm,
            Terminal::Rxvt => TerminalView::Rxvt,
            Terminal::Terminator => TerminalView::Terminator,
            Terminal::Tilix => TerminalView::Tilix,
            Terminal::Termux => TerminalView::Termux,
            Terminal::Generic(name) => TerminalView::Generic(name@),
        }
    }
}

impl PartialEq for Terminal {
    fn eq(&self, other: &Self) -> (r: bool) {
        match (self, other) {
            (Terminal::WindowsTerminal, Terminal::WindowsTerminal) => true,
            (Terminal::CommandPrompt, Terminal::CommandPrompt) => true,
            (Terminal::PowerShell, Terminal::PowerShell) => true,
            (Terminal::ConEmu, Terminal::ConEmu) => true,
            (Terminal::Cmder, Terminal::Cmder) => true,
            (Terminal::AppleTerminal, Terminal::AppleTerminal) => true,
            (Terminal::ITerm2, Terminal::ITerm2) => true,
            (Terminal::Alacritty, Terminal::Alacritty) => true,
            (Terminal::Kitty, Terminal::Kitty) => true,
            (Terminal::Hyper, Terminal::Hyper) => true,
            (Terminal::WezTerm, Terminal::WezTerm) => true,
            (Terminal::Tabby, Terminal::Tabby) => true,
            (Terminal::GnomeTerminal, Terminal::GnomeTerminal) => true,
            (Terminal::Konsole, Terminal::Konsole) => true,
            (Terminal::XTerm, Terminal::XTerm) => true,
            (Terminal::Rxvt, Terminal::Rxvt) => true,
            (Terminal::Terminator, Terminal::Terminator) => true,
            (Terminal::Tilix, Terminal::Tilix) => true,
            (Terminal::Termux, Terminal::Termux) => true,
            (Terminal::Generic(a), Terminal::Generic(b)) => a.eq(b),
            _ => false,
        }
    }
}

impl vstd::std_specs::cmp::PartialEqSpecImpl for Terminal {
    open spec fn obeys_eq_spec() -> bool {
        true
    }

    open spec fn eq_spec(&self, other: &Self) -> bool {
        self@ == other@
    }
}

impl Clone for Terminal {
    fn clone(&self) -> (r: Self)
        ensures
            r@ == self@,
    {
        match self {
            Terminal::WindowsTerminal => Terminal::WindowsTerminal,
            Terminal::CommandPrompt => Terminal::CommandPrompt,
            Terminal::PowerShell => Terminal::PowerShell,
            Terminal::ConEmu => Terminal::ConEmu,
            Terminal::Cmder => Terminal::Cmder,
            Terminal::AppleTerminal => Terminal::AppleTerminal,
            Terminal::ITerm2 => Terminal::ITerm2,
            Terminal::Alacritty => Terminal::Alacritty,
            Terminal::Kitty => Terminal::Kitty,
            Terminal::Hyper => Terminal::Hyper,
            Terminal::WezTerm => Terminal::WezTerm,
            Terminal::Tabby => Terminal::Tabby,
            Terminal::GnomeTerminal => Terminal::GnomeTerminal,
            Terminal::Konsole => Terminal::Konsole,
            Terminal::XTerm => Terminal::XTerm,
            Terminal::Rxvt => Terminal::Rxvt,
            Terminal::Terminator => Terminal::Terminator,
            Terminal::Tilix => Terminal::Tilix,
            Terminal::Termux => Terminal::Termux,
            Terminal::Generic(name) => Terminal::Generic(name.clone()),
        }
    }
}

/// The name under which a terminal is shown: a fixed one for each known
/// terminal, and for an unknown one the name it carries, as it is.
pub open spec fn display_name(t: TerminalView) -> Seq<char> {
    match t {
        TerminalView::WindowsTerminal => "Windows Terminal"@,
        TerminalView::CommandPrompt => "Command Prompt"@,
        TerminalView::PowerShell => "PowerShell"@,
        TerminalView::ConEmu => "ConEmu"@,
        TerminalView::Cmder => "Cmder"@,
        TerminalView::AppleTerminal => "Terminal.app"@,
        TerminalView::ITerm2 => "iTerm2"@,
        TerminalView::Alacritty => "Alacritty"@,
        TerminalView::Kitty => "Kitty"@,
        TerminalView::Hyper => "Hyper"@,
        TerminalView::WezTerm => "WezTerm"@,
        TerminalView::Tabby => "Tabby"@,
        TerminalView::GnomeTerminal => "GNOME Terminal"@,
        TerminalView::Konsole => "Konsole"@,
        TerminalView::XTerm => "XTerm"@,
        TerminalView::Rxvt => "Rxvt"@,
        TerminalView::Terminator => "Terminator"@,
        TerminalView::Tilix => "Tilix"@,
        TerminalView::Termux => "Termux"@,
        TerminalView::Generic(name) => name,
    }
}

/// The terminal that a name stands for, given the name's lowercase form:
/// a known terminal where the lowercase form is one of its names or
/// abbreviations, otherwise an unknown terminal that carries the name as
/// it was written.
pub open spec fn classify(lowered: Seq<char>, written: Seq<char>) -> TerminalView {
    if lowered == "windows terminal"@ || lowered == "windowsterminal"@ {
        TerminalView::WindowsTerminal
    } else if lowered == "command prompt"@ || lowered == "cmd"@ || lowered == "cmd.exe"@ {
        TerminalView::CommandPrompt
    } else if lowered == "powershell"@ || lowered == "pwsh"@ {
        TerminalView::PowerShell
    } else if lowered == "conemu"@ {
        TerminalView::ConEmu
    } else if lowered == "cmder"@ {
        TerminalView::Cmder
    } else if lowered == "terminal.app"@ || lowered == "apple_terminal"@ || lowered
        == "apple terminal"@ {
        TerminalView::AppleTerminal
    } else if lowered == "iterm2"@ || lowered == "iterm.app"@ || lowered == "iterm"@ {
        TerminalView::ITerm2
    } else if lowered == "alacritty"@ {
        TerminalView::Alacritty
    } else if lowered == "kitty"@ {
        TerminalView::Kitty
    } else if lowered == "hyper"@ {
        TerminalView::Hyper
    } else if lowered == "wezterm"@ {
        TerminalView::WezTerm
    } else if lowered == "tabby"@ {
        TerminalView::Tabby
    } else if lowered == "gnome-terminal"@ || lowered == "gnome terminal"@ {
        TerminalView::GnomeTerminal
    } else if lowered == "konsole"@ {
        TerminalView::Konsole
    } else if lowered == "xterm"@ || lowered == "xterm-256color"@ {
        TerminalView::XTerm
    } else if lowered == "rxvt"@ || lowered == "rxvt-unicode"@ {
        TerminalView::Rxvt
    } else if lowered == "terminator"@ {
        TerminalView::Terminator
    } else if lowered == "tilix"@ {
        TerminalView::Tilix
    } else if lowered == "termux"@ {
        TerminalView::Termux
    } else {
        TerminalView::Generic(written)
    }
}

/// The terminal that a name stands for, whatever the case of its letters.
pub open spec fn parse(name: Seq<char>) -> TerminalView {
    classify(lower(name), name)
}

impl Terminal {
    /// The name under which the terminal is shown.
    pub fn to_string(&self) -> (r: String)
        ensures
            r@ == display_name(self@),
    {
        match self {
            Terminal::WindowsTerminal => "Windows Terminal".to_owned(),
            Terminal::CommandPrompt => "Command Prompt".to_owned(),
            Terminal::PowerShell => "PowerShell".to_owned(),
            Terminal::ConEmu => "ConEmu".to_owned(),
            Terminal::Cmder => "Cmder".to_owned(),
            Terminal::AppleTerminal => "Terminal.app".to_owned(),
            Terminal::ITerm2 => "iTerm2".to_owned(),
            Terminal::Alacritty => "Alacritty".to_owned(),
            Terminal::Kitty => "Kitty".to_owned(),
            Terminal::Hyper => "Hyper".to_owned(),
            Terminal::WezTerm => "WezTerm".to_owned(),
            Terminal::Tabby => "Tabby".to_owned(),
            Terminal::GnomeTerminal => "GNOME Terminal".to_owned(),
            Terminal::Konsole => "Konsole".to_owned(),
            Terminal::XTerm => "XTerm".to_owned(),
            Terminal::Rxvt => "Rxvt".to_owned(),
            Terminal::Terminator => "Terminator".to_owned(),
            Terminal::Tilix => "Tilix".to_owned(),
            Terminal::Termux => "Termux".to_owned(),
            Terminal::Generic(name) => name.clone(),
        }
    }

    /// The terminal that `written` stands for, where `lowered` is the
    /// lowercase form of `written`.
    pub fn from_lowercase(lowered: &str, written: &str) -> (r: Terminal)
        ensures
            r@ == classify(lowered@, written@),
    {
        if str_eq(lowered, "windows terminal") || str_eq(lowered, "windowsterminal") {
            Terminal::WindowsTerminal
        } else if str_eq(lowered, "command prompt") || str_eq(lowered, "cmd") || str_eq(
            lowered,
            "cmd.exe",
        ) {
            Terminal::CommandPrompt
        } else if str_eq(lowered, "powershell") || str_eq(lowered, "pwsh") {
            Terminal::PowerShell
        } else if str_eq(lowered, "conemu") {
            Terminal::ConEmu
        } else if str_eq(lowered, "cmder") {
            Terminal::Cmder
        } else if str_eq(lowered, "terminal.app") || str_eq(lowered, "apple_terminal") || str_eq(
            lowered,
            "apple terminal",
        ) {
            Terminal::AppleTerminal
        } else if str_eq(lowered, "iterm2") || str_eq(lowered, "iterm.app") || str_eq(
            lowered,
            "iterm",
        ) {
            Terminal::ITerm2
        } else if str_eq(lowered, "alacritty") {
            Terminal::Alacritty
        } else if str_eq(lowered, "kitty") {
            Terminal::Kitty
        } else if str_eq(lowered, "hyper") {
            Terminal::Hyper
        } else if str_eq(lowered, "wezterm") {
            Terminal::WezTerm
        } else if str_eq(lowered, "tabby") {
            Terminal::Tabby
        } else if str_eq(lowered, "gnome-terminal") || str_eq(lowered, "gnome terminal") {
            Terminal::GnomeTerminal
        } else if str_eq(lowered, "konsole") {
            Terminal::Konsole
        } else if str_eq(lowered, "xterm") || str_eq(lowered, "xterm-256color") {
            Terminal::XTerm
        } else if str_eq(lowered, "rxvt") || str_eq(lowered, "rxvt-unicode") {
            Terminal::Rxvt
        } else if str_eq(lowered, "terminator") {
            Terminal::Terminator
        } else if str_eq(lowered, "tilix") {
            Terminal::Tilix
        } else if str_eq(lowered, "termux") {
            Terminal::Termux
        } else {
            Terminal::Generic(written.to_owned())
        }
    }

    /// Reads a terminal from its name, whatever the case of its letters.
    /// Every string is a name: one that no known terminal goes by gives an
    /// unknown terminal of that name.
    pub fn from_str(s: &str) -> (r: Result<Terminal, ()>)
        ensures
            r is Ok,
            r->Ok_0@ == parse(s@),
    {
        let lowered = to_lowercase(s);
        Ok(Terminal::from_lowercase(lowered.as_str(), s))
    }
}

/// What a detection found: the terminal, its version where one is known, and
/// the values of `TERM` and `COLORTERM` in the surroundings.
#[derive(Debug, Eq)]
pub struct TerminalInfo {
    /// The terminal that was detected.
    pub terminal: Terminal,
    /// Its version, if known.
    pub version: Option<String>,
    /// The value of the variable `TERM`, if set.
    pub term_env: Option<String>,
    /// The value of the variable `COLORTERM`, if set.
    pub colorterm_env: Option<String>,
}

/// What a `TerminalInfo` stands for.
pub struct TerminalInfoView {
    pub terminal: TerminalView,
    pub version: Option<Seq<char>>,
    pub term_env: Option<Seq<char>>,
    pub colorterm_env: Option<Seq<char>>,
}

impl View for TerminalInfo {
    type V = TerminalInfoView;

    open spec fn view(&self) -> TerminalInfoView {
        TerminalInfoView {
            terminal: self.terminal@,
            version: self.version.deep_view(),
            term_env: self.term_env.deep_view(),
            colorterm_env: self.colorterm_env.deep_view(),
        }
    }
}

impl DeepView for TerminalInfo {
    type V = TerminalInfoView;

    open spec fn deep_view(&self) -> TerminalInfoView {
        self@
    }
}

impl PartialEq for TerminalInfo {
    fn eq(&self, other: &Self) -> (r: bool) {
        self.terminal == other.terminal && same_text(&self.version, &other.version) && same_text(
            &self.term_env,
            &other.term_env,
        ) && same_text(&self.colorterm_env, &other.colorterm_env)
    }
}

impl vstd::std_specs::cmp::PartialEqSpecImpl for TerminalInfo {
    open spec fn obeys_eq_spec() -> bool {
        true
    }

    open spec fn eq_spec(&self, other: &Self) -> bool {
        self@ == other@
    }
}

/// Tests whether two texts that may be missing are both missing or hold
/// the same characters.
fn same_text(a: &Option<String>, b: &Option<String>) -> (r: bool)
    ensures
        r == (a.deep_view() == b.deep_view()),
{
    match (a, b) {
        (Some(x), Some(y)) => x.eq(y),
        (None, None) => true,
        _ => false,
    }
}

impl Clone for TerminalInfo {
    fn clone(&self) -> (r: Self)
        ensures
            r@ == self@,
    {
        TerminalInfo {
            terminal: self.terminal.clone(),
            version: clone_text(&self.version),
            term_env: clone_text(&self.term_env),
            colorterm_env: clone_text(&self.colorterm_env),
        }
    }
}

/// A copy of a text that may be missing.
fn clone_text(text: &Option<String>) -> (r: Option<String>)
    ensures
        r.deep_view() == text.deep_view(),
{
    match text {
        Some(s) => Some(s.clone()),
        None => None,
    }
}

/// The result for a terminal and a version in given surroundings: it
/// carries the values that `TERM` and `COLORTERM` have there.
pub open spec fn info(
    terminal: TerminalView,
    version: Option<Seq<char>>,
    env: EnvironmentView,
) -> TerminalInfoView {
    TerminalInfoView {
        terminal,
        version,
        term_env: env.variable("TERM"@),
        colorterm_env: env.variable("COLORTERM"@),
    }
}

/// How a result is shown: the terminal's name, and the version in round
/// brackets behind it where one is known.
pub open spec fn display_info(i: TerminalInfoView) -> Seq<char> {
    match i.version {
        Some(version) => display_name(i.terminal) + " ("@ + version + ")"@,
        None => display_name(i.terminal),
    }
}

/// The place of the first `(` in a text, or the length of the text where
/// it has none.
pub open spec fn bracket(text: Seq<char>) -> int {
    leading(text, CharClass::Except('(')) as int
}

/// The result that a text is read as in given surroundings. A text with a
/// `(` gives the terminal named before it, the whitespace around the name
/// set aside, and as version what follows it, without the `)` at its end
/// and the whitespace around it. A text without one gives the terminal that
/// the whole text names, and no version.
pub open spec fn parse_info(text: Seq<char>, env: EnvironmentView) -> TerminalInfoView {
    let at = bracket(text);
    if at < text.len() {
        let name = trim(text.take(at));
        let version = trim(trim_end(text.skip(at + 1), CharClass::Only(')')));
        info(parse(name), Some(version), env)
    } else {
        info(parse(text), None, env)
    }
}

impl TerminalInfo {
    /// The result for `terminal` without a version, in the surroundings
    /// `env`.
    pub fn new(terminal: Terminal, env: &Environment) -> (r: TerminalInfo)
        ensures
            r@ == info(terminal@, None, env@),
    {
        TerminalInfo {
            terminal,
            version: None,
            term_env: get_env(env, "TERM"),
            colorterm_env: get_env(env, "COLORTERM"),
        }
    }

    /// The result for `terminal` with the version given, in the
    /// surroundings `env`.
    pub fn with_version(terminal: Terminal, version: Option<String>, env: &Environment) -> (r:
        TerminalInfo)
        ensures
            r@ == info(terminal@, version.deep_view(), env@),
    {
        TerminalInfo {
            terminal,
            version,
            term_env: get_env(env, "TERM"),
            colorterm_env: get_env(env, "COLORTERM"),
        }
    }

    /// Shows the result: the terminal's name, and the version in round
    /// brackets behind it where one is known.
    pub fn to_string(&self) -> (r: String)
        ensures
            r@ == display_info(self@),
    {
        let name = self.terminal.to_string();
        match &self.version {
            Some(version) => name.concat(" (").concat(version.as_str()).concat(")"),
            None => name,
        }
    }

    /// Reads a result from a text of the form that `to_string` gives, in
    /// the surroundings `env`. Every text is read as some result.
    pub fn from_str(s: &str, env: &Environment) -> (r: Result<TerminalInfo, ()>)
        ensures
            r is Ok,
            r->Ok_0@ == parse_info(s@, env@),
    {
        let chars = chars_of(s);
        let all = chars.as_slice();
        let size: usize = all.len();
        assert(all@.subrange(0, size as int) == s@);
        let at = skip_leading(all, 0, size, CharClass::Except('('));
        if at < size {
            let name_from = skip_leading(all, 0, at, CharClass::Whitespace);
            let name_to = skip_trailing(all, name_from, at, CharClass::Whitespace);
            let end = skip_trailing(all, at + 1, size, CharClass::Only(')'));
            let from = skip_leading(all, at + 1, end, CharClass::Whitespace);
            let to = skip_trailing(all, from, end, CharClass::Whitespace);
            proof {
                assert(s@.take(at as int) == all@.subrange(0, at as int));
                assert(s@.skip(at + 1) == all@.subrange(at + 1, size as int));
            }
            let name = substring(s, name_from, name_to);
            let version = substring(s, from, to);
            let terminal = Terminal::from_str(name.as_str()).unwrap();
            Ok(TerminalInfo::with_version(terminal, Some(version), env))
        } else {
            let terminal = Terminal::from_str(s).unwrap();
            Ok(TerminalInfo::new(terminal, env))
        }
    }
}

/// Why a caller may call a detection failed.
#[derive(Debug, Eq)]
pub enum DetectionError {
    /// No terminal could be detected.
    NoTerminalDetected,
    /// A terminal was detected, but something expected of it is missing.
    PartialDetection(String),
    /// The query for a version failed.
    VersionQueryFailed(String),
}

/// What a `DetectionError` stands for.
pub enum DetectionErrorView {
    NoTerminalDetected,
    PartialDetection(Seq<char>),
    VersionQueryFailed(Seq<char>),
}

impl View for DetectionError {
    type V = DetectionErrorView;

    open spec fn view(&self) -> DetectionErrorView {
        match self {
            DetectionError::NoTerminalDetected => DetectionErrorView::NoTerminalDetected,
            DetectionError::PartialDetection(what) => DetectionErrorView::PartialDetection(what@),
            DetectionError::VersionQueryFailed(what) => DetectionErrorView::VersionQueryFailed(
                what@,
            ),
        }
    }
}

impl PartialEq for DetectionError {
    fn eq(&self, other: &Self) -> (r: bool) {
        match (self, other) {
            (DetectionError::NoTerminalDetected, DetectionError::NoTerminalDetected) => true,
            (DetectionError::PartialDetection(a), DetectionError::PartialDetection(b)) => a.eq(b),
            (DetectionError::VersionQueryFailed(a), DetectionError::VersionQueryFailed(b)) => a.eq(
                b,
            ),
            _ => false,
        }
    }
}

impl vstd::std_specs::cmp::PartialEqSpecImpl for DetectionError {
    open spec fn obeys_eq_spec() -> bool {
        true
    }

    open spec fn eq_spec(&self, other: &Self) -> bool {
        self@ == other@
    }
}

impl Clone for DetectionError {
    fn clone(&self) -> (r: Self)
        ensures
            r@ == self@,
    {
        match self {
            DetectionError::NoTerminalDetected => DetectionError::NoTerminalDetected,
            DetectionError::PartialDetection(what) => DetectionError::PartialDetection(
                what.clone(),
            ),
            DetectionError::VersionQueryFailed(what) => DetectionError::VersionQueryFailed(
                what.clone(),
            ),
        }
    }
}

/// The message of an error.
pub open spec fn message(e: DetectionErrorView) -> Seq<char> {
    match e {
        DetectionErrorView::NoTerminalDetected => "No terminal could be detected"@,
        DetectionErrorView::PartialDetection(what) => "Partial detection: "@ + what,
        DetectionErrorView::VersionQueryFailed(what) => "Version query failed: "@ + what,
    }
}

impl DetectionError {
    /// The message of the error.
    pub fn to_string(&self) -> (r: String)
        ensures
            r@ == message(self@),
    {
        match self {
            DetectionError::NoTerminalDetected => "No terminal could be detected".to_owned(),
            DetectionError::PartialDetection(what) => "Partial detection: ".to_owned().concat(
                what.as_str(),
            ),
            DetectionError::VersionQueryFailed(what) => "Version query failed: ".to_owned().concat(
                what.as_str(),
            ),
        }
    }
}

/// Reading inverts showing: the name under which a known terminal is shown
/// is read back as that terminal.
pub proof fn lemma_parse_display_name(t: TerminalView)
    requires
        t.is_known(),
    ensures
        parse(display_name(t)) == t,
{
    reveal_strlit("windows terminal");
    reveal_strlit("windowsterminal");
    reveal_strlit("command prompt");
    reveal_strlit("cmd");
    reveal_strlit("cmd.exe");
    reveal_strlit("powershell");
    reveal_strlit("pwsh");
    reveal_strlit("conemu");
    reveal_strlit("cmder");
    reveal_strlit("terminal.app");
    reveal_strlit("apple_terminal");
    reveal_strlit("apple terminal");
    reveal_strlit("iterm2");
    reveal_strlit("iterm.app");
    reveal_strlit("iterm");
    reveal_strlit("alacritty");
    reveal_strlit("kitty");
    reveal_strlit("hyper");
    reveal_strlit("wezterm");
    reveal_strlit("tabby");
    reveal_strlit("gnome-terminal");
    reveal_strlit("gnome terminal");
    reveal_strlit("konsole");
    reveal_strlit("xterm");
    reveal_strlit("xterm-256color");
    reveal_strlit("rxvt");
    reveal_strlit("rxvt-unicode");
    reveal_strlit("terminator");
    reveal_strlit("tilix");
    reveal_strlit("termux");
    // Names of equal length differ in their first letter, but for two pairs.
    assert("cmd.exe"@[0] == 'c' && "wezterm"@[0] == 'w' && "konsole"@[0] == 'k');
    assert("pwsh"@[0] == 'p' && "rxvt"@[0] == 'r');
    assert("powershell"@[0] == 'p' && "terminator"@[0] == 't');
    assert("conemu"@[0] == 'c' && "iterm2"@[0] == 'i' && "termux"@[0] == 't');
    assert("iterm.app"@[0] == 'i' && "alacritty"@[0] == 'a');
    assert("cmder"@[0] == 'c' && "iterm"@[0] == 'i' && "kitty"@[0] == 'k');
    assert("hyper"@[0] == 'h' && "tabby"@[0] == 't' && "xterm"@[0] == 'x');
    assert("tilix"@[0] == 't' && "tabby"@[1] == 'a' && "tilix"@[1] == 'i');
    assert("command prompt"@[0] == 'c' && "apple_terminal"@[0] == 'a');
    assert("apple terminal"@[0] == 'a' && "gnome terminal"@[0] == 'g');
    assert("gnome-terminal"@[5] == '-' && "gnome terminal"@[5] == ' ');
    let shown = display_name(t);
    match t {
        TerminalView::WindowsTerminal => {
            reveal_strlit("Windows Terminal");
            assert(ascii_lower(shown) =~= "windows terminal"@);
        },
        TerminalView::CommandPrompt => {
            reveal_strlit("Command Prompt");
            assert(ascii_lower(shown) =~= "command prompt"@);
        },
        TerminalView::PowerShell => {
            reveal_strlit("PowerShell");
            assert(ascii_lower(shown) =~= "powershell"@);
        },
        TerminalView::ConEmu => {
            reveal_strlit("ConEmu");
            assert(ascii_lower(shown) =~= "conemu"@);
        },
        TerminalView::Cmder => {
            reveal_strlit("Cmder");
            assert(ascii_lower(shown) =~= "cmder"@);
        },
        TerminalView::AppleTerminal => {
            reveal_strlit("Terminal.app");
            assert(ascii_lower(shown) =~= "terminal.app"@);
        },
        TerminalView::ITerm2 => {
            reveal_strlit("iTerm2");
            assert(ascii_lower(shown) =~= "iterm2"@);
        },
        TerminalView::Alacritty => {
            reveal_strlit("Alacritty");
            assert(ascii_lower(shown) =~= "alacritty"@);
        },
        TerminalView::Kitty => {
            reveal_strlit("Kitty");
            assert(ascii_lower(shown) =~= "kitty"@);
        },
        TerminalView::Hyper => {
            reveal_strlit("Hyper");
            assert(ascii_lower(shown) =~= "hyper"@);
        },
        TerminalView::WezTerm => {
            reveal_strlit("WezTerm");
            assert(ascii_lower(shown) =~= "wezterm"@);
        },
        TerminalView::Tabby => {
            reveal_strlit("Tabby");
            assert(ascii_lower(shown) =~= "tabby"@);
        },
        TerminalView::GnomeTerminal => {
            reveal_strlit("GNOME Terminal");
            assert(ascii_lower(shown) =~= "gnome terminal"@);
        },
        TerminalView::Konsole => {
            reveal_strlit("Konsole");
            assert(ascii_lower(shown) =~= "konsole"@);
        },
        TerminalView::XTerm => {
            reveal_strlit("XTerm");
            assert(ascii_lower(shown) =~= "xterm"@);
        },
        TerminalView::Rxvt => {
            reveal_strlit("Rxvt");
            assert(ascii_lower(shown) =~= "rxvt"@);
        },
        TerminalView::Terminator => {
            reveal_strlit("Terminator");
            assert(ascii_lower(shown) =~= "terminator"@);
        },
        TerminalView::Tilix => {
            reveal_strlit("Tilix");
            assert(ascii_lower(shown) =~= "tilix"@);
        },
        TerminalView::Termux => {
            reveal_strlit("Termux");
            assert(ascii_lower(shown) =~= "termux"@);
        },
        TerminalView::Generic(_) => {},
    }
    assert(is_ascii_chars(shown));
}

} // verus!
