//! The aggregate session state: the four stores, the prompt, and the small
//! counters the read-eval loop keeps. `Default` builds the state a fresh
//! session starts from, with every store seeded from its default table.

use vstd::prelude::*;
use vstd::string::StringExecFns;
use crate::aliases::{Aliases, default_aliases};
use crate::arrays::{Array, default_shell_array_vars};
use crate::opt::{Opt, default_shopt_options, default_set_options};
use crate::prompt::Prompt;
use crate::variables::{Variables, seeded_with_fallback};

verus! {

/// Everything one shell session owns.
pub struct RuSh {
    /// The interactive (shopt-style) option registry.
    pub shopt_options: Opt,
    /// The execution (set-style) option registry.
    pub set_options: Opt,
    /// The scalar variable store.
    pub shell_vars: Variables,
    /// The array variable store.
    pub shell_array_vars: Array,
    /// The alias table.
    pub aliases: Aliases,
    /// Which of PS1 to PS4 the next prompt display uses.
    pub line_case: u8,
    /// How many commands this session has run; a prompt may show it.
    pub cmd_nb: u64,
    /// The prompt as last rendered.
    pub prompt: Prompt,
    /// Version information: major, minor, patch and build numbers, the
    /// release tag, and the machine-type string.
    pub versinfo: (u8, u8, u8, u8, String, String),
}

impl Default for RuSh {
    /// The state a fresh session starts from: every store seeded with its
    /// default table, the first prompt variable selected, no command run
    /// yet, and an empty prompt not yet rendered.
    fn default() -> (r: RuSh)
        ensures
            r.shopt_options@ == default_shopt_options(),
            r.set_options@ == default_set_options(),
            exists|rnd: Option<i64>| #[trigger] seeded_with_fallback(r.shell_vars@, rnd),
            r.shell_array_vars@ == default_shell_array_vars(),
            r.aliases@ == default_aliases(),
            r.line_case == 1,
            r.cmd_nb == 0,
            r.prompt.prompt@ == Seq::<char>::empty(),
            r.versinfo.0 == 0 && r.versinfo.1 == 0 && r.versinfo.2 == 0 && r.versinfo.3 == 0,
            r.versinfo.4@ == "alpha0"@,
            r.versinfo.5@ == "x86_64-redhat-linux-gnu"@,
    {
        let shell_vars = Variables::init_shell_vars();
        let r = RuSh {
            shopt_options: Opt::init_shopt_options(),
            set_options: Opt::init_set_options(),
            shell_vars,
            shell_array_vars: Array::init_shell_array_vars(),
            aliases: Aliases::init_aliases(),
            line_case: 1,
            cmd_nb: 0,
            prompt: Prompt { prompt: String::new() },
            versinfo: (
                0,
                0,
                0,
                0,
                String::from_str("alpha0"),
                String::from_str("x86_64-redhat-linux-gnu"),
            ),
        };
        proof {
            let rnd = choose|rnd: Option<i64>| seeded_with_fallback(r.shell_vars@, rnd);
            assert(seeded_with_fallback(r.shell_vars@, rnd));
        }
        r
    }
}

} // verus!
