//! Configuration options, which are loaded from the YAML file `~/.insh-config.yaml` if it exists.

use vstd::prelude::*;

use crate::requests::{FileSortOptions, HiddenFileSort};
use crate::text::string_of;

verus! {

/// Configuration options.
#[derive(Debug, Clone, Copy, PartialEq, Eq, Structural)]
pub struct Config {
    /// General configuration.
    pub general: GeneralConfig,
    /// Input configuration.
    pub input: InputConfig,
    /// Configuration of how the screen is drawn.
    pub render: RenderConfig,
    /// Configuration of the Browser.
    pub browser: BrowserConfig,
}

impl Default for Config {
    fn default() -> (c: Config)
        ensures
            c == default_config(),
    {
        Config {
            general: GeneralConfig::default(),
            input: InputConfig::default(),
            render: RenderConfig::default(),
            browser: BrowserConfig::default(),
        }
    }
}

/// The configuration used when nothing is configured.
pub open spec fn default_config() -> Config {
    Config {
        general: GeneralConfig { tab_width: 4, bell: true },
        input: InputConfig { escape_timeout: 50 },
        render: RenderConfig { engine: RenderEngineConfig::Incr },
        browser: default_browser_config(),
    }
}

impl Config {
    /// Return the general configuration.
    pub fn general(&self) -> (g: &GeneralConfig)
        ensures
            *g == self.general,
    {
        &self.general
    }

    /// Return the configuration of how input is read.
    pub fn input(&self) -> (i: &InputConfig)
        ensures
            *i == self.input,
    {
        &self.input
    }

    /// Return the configuration of how the screen is drawn.
    pub fn render(&self) -> (r: &RenderConfig)
        ensures
            *r == self.render,
    {
        &self.render
    }

    /// Return the browser configuration.
    pub fn browser(&self) -> (b: &BrowserConfig)
        ensures
            *b == self.browser,
    {
        &self.browser
    }
}

/// A problem with determining a default path.
#[derive(Debug, Clone, Copy, PartialEq, Eq, Structural)]
pub enum ConfigDefaultPathError {
    /// The home directory could not be determined.
    CannotDetermineHomeDirectory,
}

/// General configuration options.
#[derive(Debug, Clone, Copy, PartialEq, Eq, Structural)]
pub struct GeneralConfig {
    /// The width of tab characters.
    pub tab_width: usize,
    /// Whether the bell sound should be made.
    pub bell: bool,
}

impl Default for GeneralConfig {
    fn default() -> (g: GeneralConfig)
        ensures
            g == (GeneralConfig { tab_width: 4, bell: true }),
    {
        GeneralConfig { tab_width: 4, bell: true }
    }
}

impl GeneralConfig {
    /// Return the width of tab characters.
    pub fn tab_width(&self) -> (w: usize)
        ensures
            w == self.tab_width,
    {
        self.tab_width
    }

    /// Return whether the bell sound should be made.
    pub fn bell(&self) -> (b: bool)
        ensures
            b == self.bell,
    {
        self.bell
    }
}

/// Configuration of how input is read.
#[derive(Debug, Clone, Copy, PartialEq, Eq, Structural)]
pub struct InputConfig {
    /// How many milliseconds to wait for the rest of an escape sequence before deciding that the
    /// escape key was pressed on its own. It is never zero.
    pub escape_timeout: u64,
}

/// Return how long to wait for the rest of an escape sequence by default, in milliseconds.
pub fn default_escape_timeout() -> (t: u64)
    ensures
        t == 50,
{
    50
}

/// The reason a configured escape timeout is refused.
#[derive(Debug, Clone, Copy, PartialEq, Eq, Structural)]
pub enum EscapeTimeoutError {
    /// The timeout was zero.
    Zero,
}

impl EscapeTimeoutError {
    /// Return the reason the escape timeout was refused.
    pub fn message(&self) -> (m: String)
        ensures
            m@ == "the escape timeout cannot be zero, because then no escape sequence would ever be read as the key it is for"@,
    {
        let m = string_of(
            "the escape timeout cannot be zero, because then no escape sequence would ever be read as the key it is for",
        );
        proof {
            reveal_strlit(
                "the escape timeout cannot be zero, because then no escape sequence would ever be read as the key it is for",
            );
        }
        m
    }
}

/// Return the escape timeout which was configured, refusing one of zero.
///
/// Waiting is the only thing which tells a press of the escape key apart from the start of a
/// sequence, so not waiting means every sequence is read as an escape and then the rest of it as
/// the characters it is spelled with: an arrow key would type `[A`.
pub fn check_escape_timeout(milliseconds: u64) -> (r: Result<u64, EscapeTimeoutError>)
    ensures
        milliseconds == 0 ==> r == Err::<u64, EscapeTimeoutError>(EscapeTimeoutError::Zero),
        milliseconds != 0 ==> r == Ok::<u64, EscapeTimeoutError>(milliseconds),
{
    if milliseconds == 0 {
        return Err(EscapeTimeoutError::Zero);
    }
    Ok(milliseconds)
}

impl Default for InputConfig {
    fn default() -> (i: InputConfig)
        ensures
            i == (InputConfig { escape_timeout: 50 }),
    {
        InputConfig { escape_timeout: default_escape_timeout() }
    }
}

/// The duration of some number of milliseconds, as `std::time::Duration::from_millis` makes it.
pub uninterp spec fn duration_of_millis(milliseconds: u64) -> std::time::Duration;

/// Return a duration of some number of milliseconds.
///
/// Calls `std::time::Duration::from_millis`, which makes the same duration of the same number of
/// milliseconds every time. Verus sees a duration as opaque, so what it holds is not written out
/// here: it is named `duration_of_millis`.
#[verifier::external_body]
fn duration_from_millis(milliseconds: u64) -> (d: std::time::Duration)
    ensures
        d == duration_of_millis(milliseconds),
{
    std::time::Duration::from_millis(milliseconds)
}

impl InputConfig {
    /// Return how many milliseconds to wait for the rest of an escape sequence.
    pub fn escape_timeout_millis(&self) -> (t: u64)
        ensures
            t == self.escape_timeout,
    {
        self.escape_timeout
    }

    /// Return how long to wait for the rest of an escape sequence before deciding that the escape
    /// key was pressed on its own.
    ///
    /// Waiting is what tells a press of the escape key apart from the start of a sequence, which
    /// look the same until the rest of the sequence does or does not turn up. Longer is more
    /// reliable over a slow connection, at the cost of the escape key feeling that much less
    /// responsive.
    pub fn escape_timeout(&self) -> (d: std::time::Duration)
        ensures
            d == duration_of_millis(self.escape_timeout),
    {
        duration_from_millis(self.escape_timeout)
    }
}

/// Configuration of how the screen is drawn.
#[derive(Debug, Clone, Copy, PartialEq, Eq, Structural)]
pub struct RenderConfig {
    /// How much of the screen is drawn.
    pub engine: RenderEngineConfig,
}

impl Default for RenderConfig {
    fn default() -> (r: RenderConfig)
        ensures
            r == (RenderConfig { engine: RenderEngineConfig::Incr }),
    {
        RenderConfig { engine: RenderEngineConfig::Incr }
    }
}

impl RenderConfig {
    /// Return how much of the screen is drawn.
    pub fn engine(&self) -> (e: RenderEngineConfig)
        ensures
            e == self.engine,
    {
        self.engine
    }
}

/// How much of the screen is drawn.
#[derive(Debug, Clone, Copy, PartialEq, Eq, Structural)]
pub enum RenderEngineConfig {
    /// All of the screen is drawn every time.
    Full,
    /// Only the parts of the screen which changed are drawn.
    Incr,
}

impl Default for RenderEngineConfig {
    fn default() -> (e: RenderEngineConfig)
        ensures
            e == RenderEngineConfig::Incr,
    {
        RenderEngineConfig::Incr
    }
}

/// Configuration for the Browser.
#[derive(Debug, Clone, Copy, PartialEq, Eq, Structural)]
pub struct BrowserConfig {
    /// How the files shown in the browser are sorted.
    pub sort: Option<BrowserSortConfig>,
    /// Whether the metadata of the files is shown.
    pub metadata: bool,
}

/// The browser configuration used when nothing is configured.
pub open spec fn default_browser_config() -> BrowserConfig {
    BrowserConfig { sort: Some(default_browser_sort_config()), metadata: false }
}

/// Return how the files are sorted by default.
pub fn default_sort() -> (s: Option<BrowserSortConfig>)
    ensures
        s == Some(default_browser_sort_config()),
{
    Some(BrowserSortConfig::default())
}

impl Default for BrowserConfig {
    fn default() -> (b: BrowserConfig)
        ensures
            b == default_browser_config(),
    {
        BrowserConfig { sort: default_sort(), metadata: false }
    }
}

impl BrowserConfig {
    /// Return how the files shown in the browser are sorted.
    pub fn sort(&self) -> (s: Option<&BrowserSortConfig>)
        ensures
            match self.sort {
                Some(sort) => s == Some(&sort),
                None => s is None,
            },
    {
        match &self.sort {
            Some(sort) => Some(sort),
            None => None,
        }
    }

    /// Return whether the metadata of the files is shown in the Browser.
    pub fn metadata(&self) -> (m: bool)
        ensures
            m == self.metadata,
    {
        self.metadata
    }
}

/// Configuration for how the files are sorted.
#[derive(Debug, Clone, Copy, PartialEq, Eq, Structural)]
pub struct BrowserSortConfig {
    /// Whether the case of filenames is ignored.
    pub case_insensitive: bool,
    /// How hidden files are sorted.
    pub hidden: BrowserSortHiddenConfig,
}

/// Return that an option is enabled by default.
pub fn enabled() -> (e: bool)
    ensures
        e,
{
    true
}

/// How the files are sorted when nothing is configured.
pub open spec fn default_browser_sort_config() -> BrowserSortConfig {
    BrowserSortConfig { case_insensitive: true, hidden: BrowserSortHiddenConfig::Last }
}

impl Default for BrowserSortConfig {
    fn default() -> (s: BrowserSortConfig)
        ensures
            s == default_browser_sort_config(),
    {
        BrowserSortConfig { case_insensitive: enabled(), hidden: BrowserSortHiddenConfig::default() }
    }
}

impl BrowserSortConfig {
    /// Return whether the case of filenames is ignored.
    pub fn case_insensitive(&self) -> (c: bool)
        ensures
            c == self.case_insensitive,
    {
        self.case_insensitive
    }

    /// Return how hidden files are sorted.
    pub fn hidden(&self) -> (h: BrowserSortHiddenConfig)
        ensures
            h == self.hidden,
    {
        self.hidden
    }

    /// Return the options which the daemon sorts files by.
    pub fn file_sort_options(&self) -> (o: FileSortOptions)
        ensures
            o.case_insensitive == self.case_insensitive,
            o.hidden == self.hidden.spec_hidden_file_sort(),
    {
        FileSortOptions {
            case_insensitive: self.case_insensitive,
            hidden: self.hidden.hidden_file_sort(),
        }
    }
}

/// How hidden files are sorted.
#[derive(Debug, Clone, Copy, PartialEq, Eq, Structural)]
pub enum BrowserSortHiddenConfig {
    /// Hidden files are sorted before all of the other files.
    First,
    /// Hidden files are sorted after all of the other files.
    Last,
    /// Hidden files are sorted as if they were not hidden.
    Mixed,
}

impl Default for BrowserSortHiddenConfig {
    fn default() -> (h: BrowserSortHiddenConfig)
        ensures
            h == BrowserSortHiddenConfig::Last,
    {
        BrowserSortHiddenConfig::Last
    }
}

impl BrowserSortHiddenConfig {
    /// The way the daemon sorts hidden files for each way they can be configured.
    pub open spec fn spec_hidden_file_sort(self) -> HiddenFileSort {
        match self {
            BrowserSortHiddenConfig::First => HiddenFileSort::First,
            BrowserSortHiddenConfig::Last => HiddenFileSort::Last,
            BrowserSortHiddenConfig::Mixed => HiddenFileSort::Mixed,
        }
    }

    /// Return the way the daemon sorts hidden files which this is configured as.
    pub fn hidden_file_sort(&self) -> (h: HiddenFileSort)
        ensures
            h == self.spec_hidden_file_sort(),
    {
        match self {
            BrowserSortHiddenConfig::First => HiddenFileSort::First,
            BrowserSortHiddenConfig::Last => HiddenFileSort::Last,
            BrowserSortHiddenConfig::Mixed => HiddenFileSort::Mixed,
        }
    }
}

} // verus!
