//! What was given on the command line, as plain values, and the declarations
//! of the flags that capabilities and the configuration accept.

use vstd::prelude::*;

verus! {

/// The values of one parsed subcommand. A field is `None` where its flag was
/// not given and has no default.
pub struct CliInput {
    /// Each `--mount` value, in the order given.
    pub mounts: Option<Vec<String>>,
    /// The `--timezone` value.
    pub timezone: Option<String>,
    /// The `--memory` value.
    pub memory: Option<String>,
    /// The `--cpu-shares` value.
    pub cpu_shares: Option<String>,
    /// The `--network` value.
    pub network: Option<String>,
    /// The `--locale` value.
    pub locale: Option<String>,
    /// The `--profile` value.
    pub profile: Option<String>,
    /// The `--name` value.
    pub container_name: Option<String>,
    /// The words after `--` of the `cmd` subcommand.
    pub command: Option<Vec<String>>,
}

/// What a flag does with its values.
#[derive(Debug, Clone, Copy, PartialEq, Eq, Structural)]
pub enum FlagAction {
    /// Keeps the one value given.
    Single,
    /// Collects every value given.
    Repeated,
    /// Counts how often the flag occurs.
    Counted,
}

/// The declaration of one command-line flag.
#[derive(Debug)]
pub struct Flag {
    /// The name under which the parsed value is found.
    pub name: String,
    /// The one-letter form.
    pub short: Option<char>,
    /// The long form.
    pub long: Option<String>,
    /// The help text.
    pub help: Option<String>,
    /// What the flag does with its values.
    pub action: FlagAction,
    /// The value taken where the flag is absent.
    pub default_value: Option<String>,
    /// Whether the flag is accepted by every subcommand.
    pub global: bool,
    /// Whether the flag takes the words after `--`.
    pub last: bool,
    /// Whether the flag must be given.
    pub required: bool,
}

/// A [`Flag`] with its texts as character sequences.
pub struct FlagView {
    pub name: Seq<char>,
    pub short: Option<char>,
    pub long: Option<Seq<char>>,
    pub help: Option<Seq<char>>,
    pub action: FlagAction,
    pub default_value: Option<Seq<char>>,
    pub global: bool,
    pub last: bool,
    pub required: bool,
}

impl DeepView for Flag {
    type V = FlagView;

    open spec fn deep_view(&self) -> FlagView {
        FlagView {
            name: self.name@,
            short: self.short,
            long: self.long.deep_view(),
            help: self.help.deep_view(),
            action: self.action,
            default_value: self.default_value.deep_view(),
            global: self.global,
            last: self.last,
            required: self.required,
        }
    }
}

impl Clone for Flag {
    fn clone(&self) -> (r: Self)
        ensures
            r.deep_view() == self.deep_view(),
    {
        Flag {
            name: self.name.clone(),
            short: self.short,
            long: match &self.long {
                Some(v) => Some(v.clone()),
                None => None,
            },
            help: match &self.help {
                Some(v) => Some(v.clone()),
                None => None,
            },
            action: self.action,
            default_value: match &self.default_value {
                Some(v) => Some(v.clone()),
                None => None,
            },
            global: self.global,
            last: self.last,
            required: self.required,
        }
    }
}

/// A flag that takes one value, with a long form and a help text.
pub open spec fn single_flag(name: Seq<char>, long: Seq<char>, help: Seq<char>) -> FlagView {
    FlagView {
        name,
        short: None,
        long: Some(long),
        help: Some(help),
        action: FlagAction::Single,
        default_value: None,
        global: false,
        last: false,
        required: false,
    }
}

impl Flag {
    /// Declares a flag that takes one value, with a long form and a help
    /// text; the rest can be set on the result.
    pub fn single(name: &str, long: &str, help: &str) -> (r: Flag)
        ensures
            r.deep_view() == single_flag(name@, long@, help@),
    {
        Flag {
            name: String::from_str(name),
            short: None,
            long: Some(String::from_str(long)),
            help: Some(String::from_str(help)),
            action: FlagAction::Single,
            default_value: None,
            global: false,
            last: false,
            required: false,
        }
    }
}

} // verus!
