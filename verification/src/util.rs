//! Assets, identifiers and the values the host hands back.

use vstd::prelude::*;
use vstd::string::*;
use rand::Rng;
use crate::error::Error;

pub use crate::dom::{classlist_add, classlist_remove, classlist_toggle};

verus! {

/// A value received from the host, as far as the engine looks at it.
///
/// Numbers, symbols and object references are told apart but not read.
#[derive(Clone, Debug)]
pub enum HostValue {
    Undefined,
    Null,
    Bool(bool),
    Number,
    Symbol,
    String(String),
    Reference,
}

/// The static resources a page needs.
#[derive(Clone, Copy, Debug, PartialEq, Eq, Structural)]
pub enum Asset {
    /// The icon that opens the options menu.
    Options,
    /// The icon that opens the fullscreen view.
    Fullscreen,
    /// The stylesheet for the widgets.
    CSS,
}

/// What the extension runtime answered when asked for the URL of each
/// bundled asset.
#[derive(Clone, Debug)]
pub struct Lookups {
    pub options: HostValue,
    pub fullscreen: HostValue,
    pub css: HostValue,
}

/// How the engine is deployed. Chosen once, before the page is scanned.
#[derive(Clone, Debug)]
pub enum Deployment {
    /// An injected script next to its assets: relative paths serve.
    Standalone,
    /// A packaged extension: the runtime resolves each bundled path.
    Packaged(Lookups),
}

impl Lookups {
    /// The runtime's answer for one asset.
    pub open spec fn answer(self, asset: Asset) -> HostValue {
        match asset {
            Asset::Options => self.options,
            Asset::Fullscreen => self.fullscreen,
            Asset::CSS => self.css,
        }
    }
}

impl Asset {
    /// The asset's path relative to an injected script.
    pub open spec fn relative_path(self) -> Seq<char> {
        match self {
            Asset::Options => "options.svg"@,
            Asset::Fullscreen => "fullscreen.svg"@,
            Asset::CSS => "macro_railroad_ext.css"@,
        }
    }

    /// The asset's path inside a packaged extension.
    pub open spec fn bundled_path(self) -> Seq<char> {
        match self {
            Asset::Options => "assets/options.svg"@,
            Asset::Fullscreen => "assets/fullscreen.svg"@,
            Asset::CSS => "assets/macro_railroad_ext.css"@,
        }
    }

    /// What [`Asset::url`] returns: the relative path when standalone, else
    /// the runtime's answer if it is a string.
    pub open spec fn resolved(self, deployment: Deployment) -> Result<Seq<char>, Error> {
        match deployment {
            Deployment::Standalone => Ok(self.relative_path()),
            Deployment::Packaged(lookups) => match lookups.answer(self) {
                HostValue::String(href) => Ok(href@),
                _ => Err(Error::UnexpectedType),
            },
        }
    }

    /// The path under which a packaged extension bundles the asset; this is
    /// what the runtime is asked to resolve.
    pub fn bundle_path(&self) -> (path: &'static str)
        ensures
            path@ == self.bundled_path(),
    {
        match self {
            Asset::Options => "assets/options.svg",
            Asset::Fullscreen => "assets/fullscreen.svg",
            Asset::CSS => "assets/macro_railroad_ext.css",
        }
    }

    /// The URL under which the asset loads.
    ///
    /// Standalone, this is the asset's relative path and never fails.
    /// Packaged, it is the runtime's answer, and anything but a string is
    /// refused with [`Error::UnexpectedType`].
    pub fn url(&self, deployment: &Deployment) -> (result: Result<String, Error>)
        ensures
            match self.resolved(*deployment) {
                Ok(href) => result is Ok && result->Ok_0@ == href,
                Err(error) => result == Err::<String, Error>(error),
            },
    {
        match deployment {
            Deployment::Standalone => {
                let path = match self {
                    Asset::Options => "options.svg",
                    Asset::Fullscreen => "fullscreen.svg",
                    Asset::CSS => "macro_railroad_ext.css",
                };
                Ok(String::from_str(path))
            },
            Deployment::Packaged(lookups) => {
                let answer = match self {
                    Asset::Options => &lookups.options,
                    Asset::Fullscreen => &lookups.fullscreen,
                    Asset::CSS => &lookups.css,
                };
                match answer {
                    HostValue::String(href) => Ok(href.clone()),
                    _ => Err(Error::UnexpectedType),
                }
            },
        }
    }
}

/// The URLs of the three assets, resolved.
#[derive(Clone, Debug)]
pub struct Assets {
    pub options_icon: String,
    pub fullscreen_icon: String,
    pub stylesheet: String,
}

/// The mathematical content of [`Assets`].
pub struct AssetsView {
    pub options_icon: Seq<char>,
    pub fullscreen_icon: Seq<char>,
    pub stylesheet: Seq<char>,
}

impl View for Assets {
    type V = AssetsView;

    open spec fn view(&self) -> AssetsView {
        AssetsView {
            options_icon: self.options_icon@,
            fullscreen_icon: self.fullscreen_icon@,
            stylesheet: self.stylesheet@,
        }
    }
}

impl Assets {
    /// What [`Assets::resolve`] returns: all three URLs, or the refusal of
    /// the first asset that does not resolve.
    pub open spec fn resolved(deployment: Deployment) -> Result<AssetsView, Error> {
        match (
            Asset::CSS.resolved(deployment),
            Asset::Options.resolved(deployment),
            Asset::Fullscreen.resolved(deployment),
        ) {
            (Ok(stylesheet), Ok(options_icon), Ok(fullscreen_icon)) => Ok(
                AssetsView { options_icon, fullscreen_icon, stylesheet },
            ),
            _ => Err(Error::UnexpectedType),
        }
    }

    /// Resolves the stylesheet and both icons, in that order. Succeeds only
    /// if all three resolve.
    pub fn resolve(deployment: &Deployment) -> (result: Result<Assets, Error>)
        ensures
            match Assets::resolved(*deployment) {
                Ok(view) => result is Ok && result->Ok_0@ == view,
                Err(error) => result == Err::<Assets, Error>(error),
            },
    {
        let stylesheet = match Asset::CSS.url(deployment) {
            Ok(href) => href,
            Err(_) => {
                return Err(Error::UnexpectedType);
            },
        };
        let options_icon = match Asset::Options.url(deployment) {
            Ok(href) => href,
            Err(_) => {
                return Err(Error::UnexpectedType);
            },
        };
        let fullscreen_icon = match Asset::Fullscreen.url(deployment) {
            Ok(href) => href,
            Err(_) => {
                return Err(Error::UnexpectedType);
            },
        };
        Ok(Assets { options_icon, fullscreen_icon, stylesheet })
    }
}

/// Whether the host reported a checkbox as ticked: only the boolean `true`
/// counts.
pub fn is_checked(value: &HostValue) -> (checked: bool)
    ensures
        checked == (*value == HostValue::Bool(true)),
{
    match value {
        HostValue::Bool(flag) => *flag,
        _ => false,
    }
}

/// The line that announces the engine on the console.
pub open spec fn version_line(built: Seq<char>, compiler: Seq<char>, dependencies: Seq<char>) -> Seq<
    char,
> {
    "macro_railroad_ext built "@ + built + " on "@ + compiler + " using "@ + dependencies
}

/// Describes the build: when it was made, by which compiler, and against
/// which dependencies.
pub fn version_info(built: &str, compiler: &str, dependencies: &str) -> (line: String)
    ensures
        line@ == version_line(built@, compiler@, dependencies@),
{
    let mut line = String::from_str("macro_railroad_ext built ");
    line.append(built);
    line.append(" on ");
    line.append(compiler);
    line.append(" using ");
    line.append(dependencies);
    line
}

/// Letters and digits of ASCII.
pub open spec fn is_alphanumeric(c: char) -> bool {
    ('A' <= c && c <= 'Z') || ('a' <= c && c <= 'z') || ('0' <= c && c <= '9')
}

/// The shape of every identifier the engine hands out: the prefix
/// `railroad_` followed by eight letters or digits.
pub open spec fn is_widget_id(id: Seq<char>) -> bool {
    &&& id.len() == 17
    &&& id.subrange(0, 9) == "railroad_"@
    &&& forall|i: int| 9 <= i < 17 ==> is_alphanumeric(#[trigger] id[i])
}

/// Draws `count` characters from `rand::distributions::Alphanumeric` with
/// the thread's generator. The distribution yields only the 62 ASCII letters
/// and digits; which of them come out differs from call to call.
#[verifier::external_body]
fn random_alphanumerics(count: usize) -> (text: String)
    ensures
        text@.len() == count,
        forall|i: int| 0 <= i < count ==> is_alphanumeric(#[trigger] text@[i]),
{
    rand::thread_rng().sample_iter(&rand::distributions::Alphanumeric).take(count).collect()
}

/// Puts the identifier prefix in front of a suffix.
pub fn id_with_suffix(suffix: &str) -> (id: String)
    ensures
        id@ == "railroad_"@ + suffix@,
{
    let mut id = String::from_str("railroad_");
    id.append(suffix);
    id
}

/// A pseudo-random identifier for an element.
pub fn random_id() -> (id: String)
    ensures
        is_widget_id(id@),
{
    let suffix = random_alphanumerics(8);
    let id = id_with_suffix(suffix.as_str());
    proof {
        reveal_strlit("railroad_");
        assert(id@.subrange(0, 9) =~= "railroad_"@);
        assert forall|i: int| 9 <= i < 17 implies is_alphanumeric(#[trigger] id@[i]) by {
            assert(id@[i] == suffix@[i - 9]);
        }
    }
    id
}

/// The character of one decimal digit.
pub open spec fn digit(value: int) -> char {
    if value == 0 {
        '0'
    } else if value == 1 {
        '1'
    } else if value == 2 {
        '2'
    } else if value == 3 {
        '3'
    } else if value == 4 {
        '4'
    } else if value == 5 {
        '5'
    } else if value == 6 {
        '6'
    } else if value == 7 {
        '7'
    } else if value == 8 {
        '8'
    } else {
        '9'
    }
}

/// The decimal digits of a natural number, without leading zeros.
pub open spec fn digits(value: nat) -> Seq<char>
    decreases value,
{
    if value < 10 {
        seq![digit(value as int)]
    } else {
        digits(value / 10).push(digit((value % 10) as int))
    }
}

/// The decimal notation of an integer, with a minus sign where it is
/// negative.
pub open spec fn decimal_text(value: int) -> Seq<char> {
    if value < 0 {
        seq!['-'] + digits((-value) as nat)
    } else {
        digits(value as nat)
    }
}

/// One decimal digit as text.
fn digit_text(value: u64) -> (text: &'static str)
    requires
        value < 10,
    ensures
        text@ == seq![digit(value as int)],
{
    proof {
        reveal_strlit("0");
        reveal_strlit("1");
        reveal_strlit("2");
        reveal_strlit("3");
        reveal_strlit("4");
        reveal_strlit("5");
        reveal_strlit("6");
        reveal_strlit("7");
        reveal_strlit("8");
        reveal_strlit("9");
    }
    let text = if value == 0 {
        "0"
    } else if value == 1 {
        "1"
    } else if value == 2 {
        "2"
    } else if value == 3 {
        "3"
    } else if value == 4 {
        "4"
    } else if value == 5 {
        "5"
    } else if value == 6 {
        "6"
    } else if value == 7 {
        "7"
    } else if value == 8 {
        "8"
    } else {
        "9"
    };
    assert(text@ =~= seq![digit(value as int)]);
    text
}

/// Appends the decimal digits of `value` to `text`.
fn append_digits(text: &mut String, value: u64)
    ensures
        final(text)@ == old(text)@ + digits(value as nat),
    decreases value,
{
    if value >= 10 {
        append_digits(text, value / 10);
    }
    text.append(digit_text(value % 10));
    assert(text@ =~= old(text)@ + digits(value as nat));
}

/// The decimal notation of an integer.
pub fn decimal(value: i64) -> (text: String)
    ensures
        text@ == decimal_text(value as int),
{
    if value < 0 {
        let magnitude: u64 = ((-(value + 1)) as u64) + 1;
        let mut text = String::from_str("-");
        proof {
            reveal_strlit("-");
            assert(text@ =~= seq!['-']);
        }
        append_digits(&mut text, magnitude);
        text
    } else {
        let mut text = String::new();
        append_digits(&mut text, value as u64);
        assert(text@ =~= digits(value as nat));
        text
    }
}

/// `true` or `false`, spelled out.
pub open spec fn bool_text(value: bool) -> Seq<char> {
    if value {
        "true"@
    } else {
        "false"@
    }
}

/// Spells out a truth value.
pub fn bool_str(value: bool) -> (text: &'static str)
    ensures
        text@ == bool_text(value),
{
    if value {
        "true"
    } else {
        "false"
    }
}

} // verus!
