//! The version that a terminal's own executable reports.

use vstd::prelude::*;
use vstd::utf8::{decode_utf8, valid_utf8};
use crate::environment::{position, Environment, EnvironmentView, Outcome, OutcomeView, Platform};
use crate::text::{
    chars_of, digit, is_digit, leading, lemma_count_bounds, skip_leading, skip_trailing,
    substring, trim_end, trim_start, CharClass,
};
use crate::types::{Terminal, TerminalView};
use crate::version::VersionExtractor;

verus! {

/// The text that bytes which are not valid UTF-8 are read as: each invalid
/// part gives way to the replacement character. The text is a function of
/// the bytes alone; it is not written out here.
pub uninterp spec fn lossy_text(bytes: Seq<u8>) -> Seq<char>;

/// The text that the bytes written by an executable are read as.
pub open spec fn decoded(bytes: Seq<u8>) -> Seq<char> {
    if valid_utf8(bytes) {
        decode_utf8(bytes)
    } else {
        lossy_text(bytes)
    }
}

/// Calls `String::from_utf8_lossy` of the standard library. Believed, not
/// proved: valid UTF-8 is decoded as it stands; of other bytes the result
/// depends on nothing but the bytes.
#[verifier::external_body]
fn decode_lossy(bytes: &[u8]) -> (r: String)
    ensures
        valid_utf8(bytes@) ==> r@ == decode_utf8(bytes@),
        !valid_utf8(bytes@) ==> r@ == lossy_text(bytes@),
{
    String::from_utf8_lossy(bytes).into_owned()
}

/// Whether `s` has the shape of a version: two or more runs of digits,
/// joined by single dots.
pub open spec fn is_version(s: Seq<char>) -> bool {
    &&& s.len() > 0
    &&& forall|i: int| 0 <= i < s.len() ==> is_digit(#[trigger] s[i]) || s[i] == '.'
    &&& exists|i: int| 0 <= i < s.len() && #[trigger] s[i] == '.'
    &&& s[0] != '.'
    &&& s[s.len() - 1] != '.'
    &&& forall|i: int| 0 <= i < s.len() - 1 ==> !(#[trigger] s[i] == '.' && s[i + 1] == '.')
}

/// A word of output without what may surround a version: every `v` at its
/// start, then every `V`, every `,` at its end, then every `;`.
pub open spec fn clean(word: Seq<char>) -> Seq<char> {
    trim_end(
        trim_end(
            trim_start(trim_start(word, CharClass::Only('v')), CharClass::Only('V')),
            CharClass::Only(','),
        ),
        CharClass::Only(';'),
    )
}

/// The words of a text: its longest runs of characters that are not
/// whitespace, in order.
pub open spec fn words(text: Seq<char>) -> Seq<Seq<char>>
    decreases text.len(),
    via words_decreases
{
    let rest = trim_start(text, CharClass::Whitespace);
    let run = leading(rest, CharClass::Visible);
    if run == 0 {
        Seq::empty()
    } else {
        seq![rest.take(run as int)] + words(rest.skip(run as int))
    }
}

#[via_fn]
proof fn words_decreases(text: Seq<char>) {
    lemma_count_bounds(text, CharClass::Whitespace);
    lemma_count_bounds(trim_start(text, CharClass::Whitespace), CharClass::Visible);
}

/// The first of the words that, cleaned, has the shape of a version.
pub open spec fn first_version(words: Seq<Seq<char>>) -> Option<Seq<char>>
    decreases words.len(),
{
    if words.len() == 0 {
        None
    } else if is_version(clean(words[0])) {
        Some(clean(words[0]))
    } else {
        first_version(words.drop_first())
    }
}

/// The version that a text reports: its first word of that shape.
pub open spec fn version_in(text: Seq<char>) -> Option<Seq<char>> {
    first_version(words(text))
}

/// The version that the run of an executable reports: of one that ended
/// with success, the version in its standard output, or else the one in its
/// standard error; of any other run, none.
pub open spec fn version_of_outcome(outcome: OutcomeView) -> Option<Seq<char>> {
    match outcome {
        OutcomeView::NotStarted => None,
        OutcomeView::Finished { success, stdout, stderr } => {
            if !success {
                None
            } else if version_in(decoded(stdout)) is Some {
                version_in(decoded(stdout))
            } else {
                version_in(decoded(stderr))
            }
        },
    }
}

/// Tests whether `chars[lo..hi]` has the shape of a version.
pub fn version_shaped(chars: &[char], lo: usize, hi: usize) -> (r: bool)
    requires
        lo <= hi <= chars@.len(),
    ensures
        r == is_version(chars@.subrange(lo as int, hi as int)),
{
    let ghost part = chars@.subrange(lo as int, hi as int);
    if lo == hi {
        return false;
    }
    let mut i: usize = lo;
    let mut dotted: bool = false;
    let mut after_dot: bool = true;
    while i < hi
        invariant
            lo <= i <= hi <= chars@.len(),
            lo < hi,
            part == chars@.subrange(lo as int, hi as int),
            forall|k: int| 0 <= k < i - lo ==> is_digit(#[trigger] part[k]) || part[k] == '.',
            dotted == (exists|k: int| 0 <= k < i - lo && #[trigger] part[k] == '.'),
            after_dot == (i == lo || part[i - lo - 1] == '.'),
            i > lo ==> part[0] != '.',
            forall|k: int| 0 <= k < i - lo - 1 ==> !(#[trigger] part[k] == '.' && part[k + 1] == '.'),
        decreases hi - i,
    {
        let c = chars[i];
        assert(c == part[i - lo]);
        if c == '.' {
            if after_dot {
                proof {
                    if i > lo {
                        assert(part[i - lo - 1] == '.' && part[i - lo - 1 + 1] == '.');
                    }
                }
                return false;
            }
            dotted = true;
            after_dot = true;
        } else if digit(c) {
            after_dot = false;
        } else {
            return false;
        }
        i += 1;
    }
    dotted && !after_dot
}

/// A command line that asks an executable for its version.
#[derive(Debug, PartialEq, Eq)]
pub struct VersionQuery {
    /// The name of the executable.
    pub program: &'static str,
    /// The arguments to give it.
    pub args: Vec<&'static str>,
}

/// What a `VersionQuery` stands for.
pub struct VersionQueryView {
    pub program: &'static str,
    pub args: Seq<&'static str>,
}

impl View for VersionQuery {
    type V = VersionQueryView;

    open spec fn view(&self) -> VersionQueryView {
        VersionQueryView { program: self.program, args: self.args@ }
    }
}

/// The command line that asks the executable of `terminal` for its version,
/// for the terminals that have one. Windows Terminal is asked through
/// PowerShell, and on Windows only.
pub open spec fn version_command(terminal: TerminalView, platform: Platform) -> Option<
    VersionQueryView,
> {
    match terminal {
        TerminalView::Alacritty => Some(
            VersionQueryView { program: "alacritty", args: seq!["--version"] },
        ),
        TerminalView::Kitty => Some(VersionQueryView { program: "kitty", args: seq!["--version"] }),
        TerminalView::WezTerm => Some(
            VersionQueryView { program: "wezterm", args: seq!["--version"] },
        ),
        TerminalView::GnomeTerminal => Some(
            VersionQueryView { program: "gnome-terminal", args: seq!["--version"] },
        ),
        TerminalView::Konsole => Some(
            VersionQueryView { program: "konsole", args: seq!["--version"] },
        ),
        TerminalView::XTerm => Some(VersionQueryView { program: "xterm", args: seq!["-version"] }),
        TerminalView::Tilix => Some(VersionQueryView { program: "tilix", args: seq!["--version"] }),
        TerminalView::WindowsTerminal => if platform == Platform::Windows {
            Some(
                VersionQueryView {
                    program: "powershell",
                    args: seq![
                        "-NoProfile",
                        "-Command",
                        "(Get-AppxPackage Microsoft.WindowsTerminal).Version",
                    ],
                },
            )
        } else {
            None
        },
        _ => None,
    }
}

/// The version that the recorded run of `program` reports; none where it
/// was not run.
pub open spec fn version_from_run(env: EnvironmentView, program: Seq<char>) -> Option<Seq<char>> {
    match env.execution(program) {
        Some(outcome) => version_of_outcome(outcome),
        None => None,
    }
}

/// The version that the executable of `terminal` reports, as far as its run
/// is recorded in `env`.
pub open spec fn exec_version(terminal: TerminalView, env: EnvironmentView) -> Option<Seq<char>> {
    match version_command(terminal, env.platform) {
        Some(query) => version_from_run(env, query.program@),
        None => None,
    }
}

/// The strategy that asks the terminal's own executable.
#[derive(Clone, Copy, Debug)]
pub struct ExecVersionExtractor;

impl ExecVersionExtractor {
    /// Finds the version that a text reports: the first of its words that,
    /// without a leading `v` or `V` and a trailing `,` or `;`, consists of
    /// two or more runs of digits joined by dots.
    pub fn extract_version_from_output(text: &str) -> (r: Option<String>)
        ensures
            r.deep_view() == version_in(text@),
    {
        let chars = chars_of(text);
        let all = chars.as_slice();
        let size: usize = all.len();
        let mut i: usize = 0;
        assert(text@.skip(0) == text@);
        loop
            invariant
                all@ == text@,
                size == all@.len(),
                i <= size,
                version_in(text@) == first_version(words(text@.skip(i as int))),
            decreases size - i,
        {
            let ghost tail = text@.skip(i as int);
            let start = skip_leading(all, i, size, CharClass::Whitespace);
            let end = skip_leading(all, start, size, CharClass::Visible);
            proof {
                assert(tail == all@.subrange(i as int, size as int));
                assert(trim_start(tail, CharClass::Whitespace) == all@.subrange(
                    start as int,
                    size as int,
                ));
            }
            if end == start {
                return None;
            }
            let ghost rest = all@.subrange(start as int, size as int);
            let ghost word = all@.subrange(start as int, end as int);
            let small = skip_leading(all, start, end, CharClass::Only('v'));
            let from = skip_leading(all, small, end, CharClass::Only('V'));
            let comma = skip_trailing(all, from, end, CharClass::Only(','));
            let to = skip_trailing(all, from, comma, CharClass::Only(';'));
            proof {
                assert(rest.take(end - start) == word);
                assert(rest.skip(end - start) == text@.skip(end as int));
                let found = seq![word] + words(text@.skip(end as int));
                assert(words(tail) == found);
                assert(found[0] == word);
                assert(found.drop_first() == words(text@.skip(end as int)));
                assert(all@.subrange(from as int, to as int) == clean(word));
            }
            if version_shaped(all, from, to) {
                return Some(substring(text, from, to));
            }
            i = end;
        }
    }

    /// The version that the run of an executable reports: of one that
    /// ended with success, the version in its standard output, or else the
    /// one in its standard error; of any other run, none.
    pub fn read_outcome(outcome: &Outcome) -> (r: Option<String>)
        ensures
            r.deep_view() == version_of_outcome(outcome@),
    {
        match outcome {
            Outcome::NotStarted => None,
            Outcome::Finished { success, stdout, stderr } => {
                if !*success {
                    return None;
                }
                let out = decode_lossy(stdout.as_slice());
                let found = Self::extract_version_from_output(out.as_str());
                if found.is_some() {
                    return found;
                }
                let err = decode_lossy(stderr.as_slice());
                Self::extract_version_from_output(err.as_str())
            },
        }
    }

    /// The version that the recorded run of the executable `cmd` reports.
    /// There is none where the executable was not run, could not be started
    /// or did not end with success.
    pub fn query_command(env: &Environment, cmd: &str) -> (r: Option<String>)
        ensures
            r.deep_view() == version_from_run(env@, cmd@),
    {
        match position(&env.executions, cmd) {
            Some(at) => Self::read_outcome(&env.executions[at].1),
            None => None,
        }
    }

    /// The command line that asks the executable of `terminal` for its
    /// version, if the terminal has one on `platform`.
    pub fn command(terminal: &Terminal, platform: Platform) -> (r: Option<VersionQuery>)
        ensures
            r is Some <==> version_command(terminal@, platform) is Some,
            r matches Some(query) ==> query@ == version_command(terminal@, platform)->Some_0,
    {
        match terminal {
            Terminal::Alacritty => Some(Self::plain("alacritty", "--version")),
            Terminal::Kitty => Some(Self::plain("kitty", "--version")),
            Terminal::WezTerm => Some(Self::plain("wezterm", "--version")),
            Terminal::GnomeTerminal => Some(Self::plain("gnome-terminal", "--version")),
            Terminal::Konsole => Some(Self::plain("konsole", "--version")),
            Terminal::XTerm => Some(Self::plain("xterm", "-version")),
            Terminal::Tilix => Some(Self::plain("tilix", "--version")),
            Terminal::WindowsTerminal => {
                match platform {
                    Platform::Windows => {
                        let args = vec![
                            "-NoProfile",
                            "-Command",
                            "(Get-AppxPackage Microsoft.WindowsTerminal).Version",
                        ];
                        assert(args@ =~= seq![
                            "-NoProfile",
                            "-Command",
                            "(Get-AppxPackage Microsoft.WindowsTerminal).Version",
                        ]);
                        Some(VersionQuery { program: "powershell", args })
                    },
                    _ => None,
                }
            },
            _ => None,
        }
    }

    /// A command line with one argument.
    fn plain(program: &'static str, flag: &'static str) -> (r: VersionQuery)
        ensures
            r@ == (VersionQueryView { program, args: seq![flag] }),
    {
        let args = vec![flag];
        assert(args@ =~= seq![flag]);
        VersionQuery { program, args }
    }
}

impl VersionExtractor for ExecVersionExtractor {
    open spec fn version_of(&self, terminal: TerminalView, env: EnvironmentView) -> Option<
        Seq<char>,
    > {
        exec_version(terminal, env)
    }

    fn extract(&self, terminal: &Terminal, env: &Environment) -> (r: Option<String>) {
        match Self::command(terminal, env.platform) {
            Some(query) => Self::query_command(env, query.program),
            None => None,
        }
    }
}

} // verus!
