//! Run configuration: command-line options as plain values, and the
//! language selection for the prompt template.

use vstd::prelude::*;
use vstd::string::StrSliceExecFns;

verus! {

/// Output language for the generated commit message.
#[derive(Clone, Copy, Debug, PartialEq, Eq, Structural)]
pub enum Lang {
    En,
    Ru,
}

/// The language selected by a command-line code: exactly `"ru"` selects
/// Russian; any other code falls back to English.
pub open spec fn lang_of(code: Seq<char>) -> Lang {
    if code == "ru"@ {
        Lang::Ru
    } else {
        Lang::En
    }
}

impl Lang {
    /// Parses a language code, defaulting to English for unrecognized codes.
    pub fn from_code(code: &str) -> (l: Lang)
        ensures
            l == lang_of(code@),
    {
        proof {
            reveal_strlit("ru");
        }
        let n = code.unicode_len();
        if n != 2 {
            return Lang::En;
        }
        let c0 = code.get_char(0);
        let c1 = code.get_char(1);
        if c0 == 'r' && c1 == 'u' {
            proof {
                assert(code@ =~= "ru"@);
            }
            Lang::Ru
        } else {
            Lang::En
        }
    }
}

/// Command-line options, as plain values.
#[derive(Debug)]
pub struct Cli {
    /// Do not push after committing.
    pub no_push: bool,
    /// Only print the generated message; do not stage, commit or push.
    pub dry_run: bool,
    /// Language code for the commit message: `"en"` or `"ru"`.
    pub lang: String,
    /// Credential to persist into the credential store before running.
    pub with_api: Option<String>,
}

/// Immutable configuration for one run.
#[derive(Debug)]
pub struct RunConfig {
    pub push_enabled: bool,
    pub dry_run: bool,
    pub language: Lang,
    pub credential_override: Option<String>,
}

/// The configuration a set of command-line options denotes.
pub open spec fn config_of(cli: Cli) -> RunConfig {
    RunConfig {
        push_enabled: !cli.no_push,
        dry_run: cli.dry_run,
        language: lang_of(cli.lang@),
        credential_override: cli.with_api,
    }
}

impl Cli {
    /// Turns parsed command-line options into the run configuration.
    pub fn into_config(self) -> (c: RunConfig)
        ensures
            c == config_of(self),
    {
        let language = Lang::from_code(self.lang.as_str());
        RunConfig {
            push_enabled: !self.no_push,
            dry_run: self.dry_run,
            language,
            credential_override: self.with_api,
        }
    }
}

} // verus!
