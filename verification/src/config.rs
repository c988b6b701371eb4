//! The process configuration and the reading of the command line into it.

use crate::text::same_text;
use vstd::prelude::*;
use vstd::string::StringExecFns;

verus! {

/// The configuration as the contracts see it.
pub struct ConfigView {
    pub telegram_token: Seq<char>,
    pub telegram_chat_id: Seq<char>,
    pub parse_mode: Seq<char>,
    pub verbose: bool,
}

/// The options that take a value which must be there.
#[derive(Clone, Copy, PartialEq, Eq, Structural, Debug)]
pub enum ValueOption {
    Token,
    ChatId,
}

/// What a command line amounts to, as the contracts see it.
pub enum ArgsView {
    /// Run with this configuration.
    Run(ConfigView),
    /// Show the help text and leave.
    Help,
    /// An option came last that needs a value.
    MissingValue(ValueOption),
    /// An argument that is no option.
    UnknownArgument(Seq<char>),
    /// The token or the chat identifier is missing or empty.
    MissingRequired,
}

/// The configuration before any argument is read.
pub open spec fn default_config() -> ConfigView {
    ConfigView {
        telegram_token: Seq::empty(),
        telegram_chat_id: Seq::empty(),
        parse_mode: "MarkdownV2"@,
        verbose: false,
    }
}

/// What the arguments from position `i` on amount to, `c` being what the
/// arguments before them gave. Arguments are read from left to right; an
/// option's value is the argument that follows it; the first request for
/// help, missing value or unknown argument decides.
pub open spec fn parse_from(args: Seq<Seq<char>>, i: int, c: ConfigView) -> ArgsView
    decreases args.len() - i,
{
    if i < 0 {
        ArgsView::MissingRequired
    } else if i >= args.len() {
        if c.telegram_token.len() == 0 || c.telegram_chat_id.len() == 0 {
            ArgsView::MissingRequired
        } else {
            ArgsView::Run(c)
        }
    } else {
        let a = args[i];
        if a == "--token"@ || a == "-t"@ {
            if i + 1 < args.len() {
                parse_from(args, i + 2, ConfigView { telegram_token: args[i + 1], ..c })
            } else {
                ArgsView::MissingValue(ValueOption::Token)
            }
        } else if a == "--chatid"@ || a == "-c"@ {
            if i + 1 < args.len() {
                parse_from(args, i + 2, ConfigView { telegram_chat_id: args[i + 1], ..c })
            } else {
                ArgsView::MissingValue(ValueOption::ChatId)
            }
        } else if a == "--parsemode"@ || a == "-p"@ {
            if i + 1 < args.len() {
                parse_from(args, i + 2, ConfigView { parse_mode: args[i + 1], ..c })
            } else {
                parse_from(args, i + 1, c)
            }
        } else if a == "--verbose"@ || a == "-v"@ {
            parse_from(args, i + 1, ConfigView { verbose: true, ..c })
        } else if a == "--help"@ || a == "-h"@ {
            ArgsView::Help
        } else {
            ArgsView::UnknownArgument(a)
        }
    }
}

/// What the arguments `args`, the program's name not among them, amount to.
pub open spec fn parsed(args: Seq<Seq<char>>) -> ArgsView {
    parse_from(args, 0, default_config())
}

/// The views of a vector of arguments.
pub open spec fn arg_views(v: Seq<String>) -> Seq<Seq<char>> {
    Seq::new(v.len(), |i: int| v[i]@)
}

/// The process configuration.
#[derive(Clone, PartialEq, Eq, Debug)]
pub struct Config {
    pub telegram_token: String,
    pub telegram_chat_id: String,
    pub parse_mode: String,
    pub verbose: bool,
}

impl View for Config {
    type V = ConfigView;

    open spec fn view(&self) -> ConfigView {
        ConfigView {
            telegram_token: self.telegram_token@,
            telegram_chat_id: self.telegram_chat_id@,
            parse_mode: self.parse_mode@,
            verbose: self.verbose,
        }
    }
}

/// What a command line amounts to.
#[derive(Clone, PartialEq, Eq, Debug)]
pub enum ParsedArgs {
    /// Run with this configuration.
    Run(Config),
    /// Show the help text and leave.
    Help,
    /// An option came last that needs a value.
    MissingValue(ValueOption),
    /// An argument that is no option.
    UnknownArgument(String),
    /// The token or the chat identifier is missing or empty.
    MissingRequired,
}

impl View for ParsedArgs {
    type V = ArgsView;

    open spec fn view(&self) -> ArgsView {
        match self {
            ParsedArgs::Run(c) => ArgsView::Run(c@),
            ParsedArgs::Help => ArgsView::Help,
            ParsedArgs::MissingValue(o) => ArgsView::MissingValue(*o),
            ParsedArgs::UnknownArgument(a) => ArgsView::UnknownArgument(a@),
            ParsedArgs::MissingRequired => ArgsView::MissingRequired,
        }
    }
}

/// Reads the arguments `args`, the program's name not among them.
pub fn parse_args(args: &Vec<String>) -> (r: ParsedArgs)
    ensures
        r@ == parsed(arg_views(args@)),
{
    let mut config = Config {
        telegram_token: String::new(),
        telegram_chat_id: String::new(),
        parse_mode: String::from_str("MarkdownV2"),
        verbose: false,
    };
    let mut i: usize = 0;
    while i < args.len()
        invariant
            i <= args.len(),
            parsed(arg_views(args@)) == parse_from(arg_views(args@), i as int, config@),
        decreases args.len() - i,
    {
        let a = args[i].as_str();
        assert(arg_views(args@)[i as int] == a@);
        let has_value = i + 1 < args.len();
        if same_text(a, "--token") || same_text(a, "-t") {
            if !has_value {
                return ParsedArgs::MissingValue(ValueOption::Token);
            }
            config.telegram_token = args[i + 1].clone();
            i += 2;
        } else if same_text(a, "--chatid") || same_text(a, "-c") {
            if !has_value {
                return ParsedArgs::MissingValue(ValueOption::ChatId);
            }
            config.telegram_chat_id = args[i + 1].clone();
            i += 2;
        } else if same_text(a, "--parsemode") || same_text(a, "-p") {
            if has_value {
                config.parse_mode = args[i + 1].clone();
                i += 2;
            } else {
                i += 1;
            }
        } else if same_text(a, "--verbose") || same_text(a, "-v") {
            config.verbose = true;
            i += 1;
        } else if same_text(a, "--help") || same_text(a, "-h") {
            return ParsedArgs::Help;
        } else {
            return ParsedArgs::UnknownArgument(args[i].clone());
        }
    }
    if config.telegram_token.as_str().unicode_len() == 0 || config.telegram_chat_id.as_str().unicode_len()
        == 0 {
        ParsedArgs::MissingRequired
    } else {
        ParsedArgs::Run(config)
    }
}

} // verus!
