//! Runtime configuration: the plain settings the protocol and executor read.

use vstd::prelude::*;

use crate::text::{eq_ignore_case, eq_ignore_case_seq, parse_usize, parse_usize_spec};

verus! {

/// A named command reference surfaced to the model in the system prompt.
pub struct Reference {
    pub command: String,
    pub description: String,
}

/// The settings that drive one session.
pub struct Config {
    pub debug: bool,
    pub api_addr: String,
    pub api_key: String,
    pub model: String,
    pub show_ai_commands_output: bool,
    pub context_window_size: usize,
    pub shell_type: String,
    pub require_confirmation: bool,
    /// Seconds to pause between consecutive unconfirmed executions.
    pub cooldown: u64,
    pub references: Vec<Reference>,
}

impl Default for Reference {
    fn default() -> (r: Reference)
        ensures
            r.command@ == Seq::<char>::empty(),
            r.description@ == Seq::<char>::empty(),
    {
        Reference { command: String::new(), description: String::new() }
    }
}

impl Default for Config {
    fn default() -> (r: Config)
        ensures
            !r.debug,
            r.api_addr@ == Seq::<char>::empty(),
            r.api_key@ == Seq::<char>::empty(),
            r.model@ == Seq::<char>::empty(),
            !r.show_ai_commands_output,
            r.context_window_size == 0,
            r.shell_type@ == Seq::<char>::empty(),
            !r.require_confirmation,
            r.cooldown == 0,
            r.references@ == Seq::<Reference>::empty(),
    {
        Config {
            debug: false,
            api_addr: String::new(),
            api_key: String::new(),
            model: String::new(),
            show_ai_commands_output: false,
            context_window_size: 0,
            shell_type: String::new(),
            require_confirmation: false,
            cooldown: 0,
            references: Vec::new(),
        }
    }
}

/// The built-in baseline that stands until the config file or the
/// environment overrides it.
pub fn initial_config() -> (r: Config)
    ensures
        !r.debug,
        r.api_addr@ == "https://openrouter.ai/api/v1"@,
        r.api_key@ == Seq::<char>::empty(),
        r.model@ == "qwen/qwen-2.5-coder-32b-instruct:free"@,
        r.show_ai_commands_output,
        r.context_window_size == 32,
        r.shell_type@ == "bash"@,
        r.require_confirmation,
        r.cooldown == 0,
        r.references@ == Seq::<Reference>::empty(),
{
    Config {
        debug: false,
        api_addr: String::from_str("https://openrouter.ai/api/v1"),
        api_key: String::new(),
        model: String::from_str("qwen/qwen-2.5-coder-32b-instruct:free"),
        show_ai_commands_output: true,
        context_window_size: 32,
        shell_type: String::from_str("bash"),
        require_confirmation: true,
        cooldown: 0,
        references: Vec::new(),
    }
}

/// The text of an environment flag means true: it reads `true` up to
/// ASCII case.
pub open spec fn is_true_flag(s: Seq<char>) -> bool {
    eq_ignore_case_seq(s, "true"@)
}

/// Apply the environment overrides to a configuration: each setting whose
/// variable is present replaces the configured one. Boolean variables
/// compare case-folded against `true`; the window size is taken only when
/// it parses as a decimal number.
pub fn apply_env_overrides(
    config: Config,
    debug: Option<String>,
    api_addr: Option<String>,
    api_key: Option<String>,
    model: Option<String>,
    show_output: Option<String>,
    window_size: Option<String>,
    shell_type: Option<String>,
    confirm: Option<String>,
) -> (r: Config)
    ensures
        r.debug == (match debug {
            Some(v) => is_true_flag(v@),
            None => config.debug,
        }),
        r.api_addr == (match api_addr {
            Some(v) => v,
            None => config.api_addr,
        }),
        r.api_key == (match api_key {
            Some(v) => v,
            None => config.api_key,
        }),
        r.model == (match model {
            Some(v) => v,
            None => config.model,
        }),
        r.show_ai_commands_output == (match show_output {
            Some(v) => is_true_flag(v@),
            None => config.show_ai_commands_output,
        }),
        r.context_window_size as int == (match window_size {
            Some(v) => match parse_usize_spec(v@) {
                Some(n) => n,
                None => config.context_window_size as int,
            },
            None => config.context_window_size as int,
        }),
        r.shell_type == (match shell_type {
            Some(v) => v,
            None => config.shell_type,
        }),
        r.require_confirmation == (match confirm {
            Some(v) => is_true_flag(v@),
            None => config.require_confirmation,
        }),
        r.cooldown == config.cooldown,
        r.references == config.references,
{
    let mut r = config;
    match debug {
        Some(v) => {
            r.debug = eq_ignore_case(v.as_str(), "true");
        },
        None => {},
    }
    match api_addr {
        Some(v) => {
            r.api_addr = v;
        },
        None => {},
    }
    match api_key {
        Some(v) => {
            r.api_key = v;
        },
        None => {},
    }
    match model {
        Some(v) => {
            r.model = v;
        },
        None => {},
    }
    match show_output {
        Some(v) => {
            r.show_ai_commands_output = eq_ignore_case(v.as_str(), "true");
        },
        None => {},
    }
    match window_size {
        Some(v) => {
            match parse_usize(v.as_str()) {
                Some(n) => {
                    r.context_window_size = n;
                },
                None => {},
            }
        },
        None => {},
    }
    match shell_type {
        Some(v) => {
            r.shell_type = v;
        },
        None => {},
    }
    match confirm {
        Some(v) => {
            r.require_confirmation = eq_ignore_case(v.as_str(), "true");
        },
        None => {},
    }
    r
}

} // verus!
