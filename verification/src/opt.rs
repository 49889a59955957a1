//! The named boolean option registries: one generic flag table design,
//! instantiated once for the interactive (shopt-style) options and once for
//! the execution (set-style) options, each seeded from its fixed default
//! table.

use vstd::prelude::*;
use vstd::hash_map::StringHashMap;
use vstd::string::StringExecFns;
use crate::error::ShellError;
use crate::variables::Access;

verus! {

/// One named boolean flag: whether it is enabled, and whether it may be
/// rewritten.
#[derive(Clone, Copy, Debug, PartialEq, Eq)]
pub struct OptionRW {
    /// Is the option switched on?
    pub enabled: bool,
    /// May `set` overwrite this entry?
    pub access: Access,
}

impl OptionRW {
    /// Whether the option is switched on.
    pub fn get(&self) -> (r: bool)
        ensures
            r == self.enabled,
    {
        self.enabled
    }
}

/// A registry of named boolean options, modelled as a map from option name
/// to its flag entry.
pub struct Opt {
    opt: StringHashMap<OptionRW>,
}

impl View for Opt {
    type V = Map<Seq<char>, OptionRW>;

    closed spec fn view(&self) -> Map<Seq<char>, OptionRW> {
        self.opt@
    }
}

/// The effect of `Opt::set` on the model: a rewrite is refused only where
/// the existing entry is read-only.
pub open spec fn opt_set_map(m: Map<Seq<char>, OptionRW>, n: Seq<char>, v: OptionRW) -> Map<
    Seq<char>,
    OptionRW,
> {
    if m.contains_key(n) && m[n].access == Access::ReadOnly {
        m
    } else {
        m.insert(n, v)
    }
}

/// What `Opt::set` reports: an error exactly where the existing entry is
/// read-only.
pub open spec fn opt_set_result(m: Map<Seq<char>, OptionRW>, n: Seq<char>) -> Result<
    (),
    ShellError,
> {
    if m.contains_key(n) && m[n].access == Access::ReadOnly {
        Err(ShellError::ReadOnlyViolation)
    } else {
        Ok(())
    }
}

/// A read-write entry that is switched on or off: the shape of every entry
/// in the seeded default tables.
pub open spec fn rw_opt(enabled: bool) -> OptionRW {
    OptionRW { enabled, access: Access::ReadWrite }
}

/// The table that `init_shopt_options` seeds.
pub open spec fn default_shopt_options() -> Map<Seq<char>, OptionRW> {
    Map::<Seq<char>, OptionRW>::empty()
        .insert("autocd"@, rw_opt(false))
        .insert("cdable_vars"@, rw_opt(false))
        .insert("cdspell"@, rw_opt(false))
        .insert("checkhash"@, rw_opt(false))
        .insert("checkjobs"@, rw_opt(false))
        .insert("checkwinsize"@, rw_opt(true))
        .insert("cmdhist"@, rw_opt(true))
        .insert("compat31"@, rw_opt(false))
        .insert("compat32"@, rw_opt(false))
        .insert("compat40"@, rw_opt(false))
        .insert("compat41"@, rw_opt(false))
        .insert("compat42"@, rw_opt(false))
        .insert("complete_fullquote"@, rw_opt(true))
        .insert("direxpand"@, rw_opt(false))
        .insert("dirspell"@, rw_opt(false))
        .insert("dotglob"@, rw_opt(false))
        .insert("execfail"@, rw_opt(false))
        .insert("expand_aliases"@, rw_opt(true))
        .insert("extdebug"@, rw_opt(false))
        .insert("extglob"@, rw_opt(true))
        .insert("extquote"@, rw_opt(true))
        .insert("failglob"@, rw_opt(false))
        .insert("force_fignore"@, rw_opt(true))
        .insert("globasciiranges"@, rw_opt(false))
        .insert("globstar"@, rw_opt(false))
        .insert("gnu_errfmt"@, rw_opt(false))
        .insert("histappend"@, rw_opt(true))
        .insert("histreedit"@, rw_opt(false))
        .insert("histverify"@, rw_opt(false))
        .insert("hostcomplete"@, rw_opt(true))
        .insert("huponexit"@, rw_opt(false))
        .insert("interactive_comments"@, rw_opt(true))
        .insert("lastpipe"@, rw_opt(false))
        .insert("lithist"@, rw_opt(false))
        .insert("login_shell"@, rw_opt(false))
        .insert("mailwarn"@, rw_opt(false))
        .insert("no_empty_cmd_completion"@, rw_opt(false))
        .insert("nocaseglob"@, rw_opt(false))
        .insert("nocasematch"@, rw_opt(false))
        .insert("nullglob"@, rw_opt(false))
        .insert("progcomp"@, rw_opt(true))
        .insert("promptvars"@, rw_opt(true))
        .insert("restricted_shell"@, rw_opt(false))
        .insert("shift_verbose"@, rw_opt(false))
        .insert("sourcepath"@, rw_opt(true))
        .insert("xpg_echo"@, rw_opt(false))
}

/// The table that `init_set_options` seeds.
pub open spec fn default_set_options() -> Map<Seq<char>, OptionRW> {
    Map::<Seq<char>, OptionRW>::empty()
        .insert("allexport"@, rw_opt(false))
        .insert("braceexpand"@, rw_opt(true))
        .insert("emacs"@, rw_opt(false))
        .insert("errexit"@, rw_opt(false))
        .insert("errtrace"@, rw_opt(false))
        .insert("functrace"@, rw_opt(false))
        .insert("hashall"@, rw_opt(true))
        .insert("histexpand"@, rw_opt(true))
        .insert("history"@, rw_opt(false))
        .insert("ignoreeof"@, rw_opt(false))
        .insert("interactive-comments"@, rw_opt(false))
        .insert("keyword"@, rw_opt(false))
        .insert("monitor"@, rw_opt(true))
        .insert("noclobber"@, rw_opt(false))
        .insert("noexec"@, rw_opt(false))
        .insert("noglob"@, rw_opt(false))
        .insert("nolog"@, rw_opt(false))
        .insert("notify"@, rw_opt(false))
        .insert("nounset"@, rw_opt(false))
        .insert("onecmd"@, rw_opt(false))
        .insert("physical"@, rw_opt(false))
        .insert("pipefail"@, rw_opt(false))
        .insert("posix"@, rw_opt(false))
        .insert("privileged"@, rw_opt(false))
        .insert("verbose"@, rw_opt(false))
        .insert("vi"@, rw_opt(false))
        .insert("xtrace"@, rw_opt(false))
}

impl Opt {
    /// An empty option registry.
    pub fn new() -> (o: Opt)
        ensures
            o@ == Map::<Seq<char>, OptionRW>::empty(),
    {
        Opt { opt: StringHashMap::new() }
    }

    /// Look an option up by name; the entry comes back as a copy.
    pub fn get(&self, key: &str) -> (r: Option<OptionRW>)
        ensures
            match r {
                Some(v) => self@.contains_key(key@) && v == self@[key@],
                None => !self@.contains_key(key@),
            },
    {
        match self.opt.get(key) {
            Some(v) => Some(OptionRW { enabled: v.enabled, access: v.access }),
            None => None,
        }
    }

    /// Bind an option name to an entry. The write is refused, and the table
    /// left unchanged, exactly where an existing entry is read-only.
    pub fn set(&mut self, key: String, value: OptionRW) -> (r: Result<(), ShellError>)
        ensures
            final(self)@ == opt_set_map(old(self)@, key@, value),
            r == opt_set_result(old(self)@, key@),
    {
        match self.opt.get(key.as_str()) {
            Some(existing) => {
                match existing.access {
                    Access::ReadOnly => Err(ShellError::ReadOnlyViolation),
                    Access::ReadWrite => {
                        self.opt.insert(key, value);
                        Ok(())
                    },
                }
            },
            None => {
                self.opt.insert(key, value);
                Ok(())
            },
        }
    }


    /// Insert one seeded default entry (used only while building the
    /// initial tables, which hold no read-only entries).
    fn seed(&mut self, key: String, value: OptionRW)
        ensures
            final(self)@ == old(self)@.insert(key@, value),
    {
        self.opt.insert(key, value);
    }

    /// The default interactive (shopt-style) option table.
    pub fn init_shopt_options() -> (o: Opt)
        ensures
            o@ == default_shopt_options(),
    {
        let mut o = Opt::new();
        o.seed(String::from_str("autocd"), OptionRW { enabled: false, access: Access::ReadWrite });
        o.seed(String::from_str("cdable_vars"), OptionRW { enabled: false, access: Access::ReadWrite });
        o.seed(String::from_str("cdspell"), OptionRW { enabled: false, access: Access::ReadWrite });
        o.seed(String::from_str("checkhash"), OptionRW { enabled: false, access: Access::ReadWrite });
        o.seed(String::from_str("checkjobs"), OptionRW { enabled: false, access: Access::ReadWrite });
        o.seed(String::from_str("checkwinsize"), OptionRW { enabled: true, access: Access::ReadWrite });
        o.seed(String::from_str("cmdhist"), OptionRW { enabled: true, access: Access::ReadWrite });
        o.seed(String::from_str("compat31"), OptionRW { enabled: false, access: Access::ReadWrite });
        o.seed(String::from_str("compat32"), OptionRW { enabled: false, access: Access::ReadWrite });
        o.seed(String::from_str("compat40"), OptionRW { enabled: false, access: Access::ReadWrite });
        o.seed(String::from_str("compat41"), OptionRW { enabled: false, access: Access::ReadWrite });
        o.seed(String::from_str("compat42"), OptionRW { enabled: false, access: Access::ReadWrite });
        o.seed(String::from_str("complete_fullquote"), OptionRW { enabled: true, access: Access::ReadWrite });
        o.seed(String::from_str("direxpand"), OptionRW { enabled: false, access: Access::ReadWrite });
        o.seed(String::from_str("dirspell"), OptionRW { enabled: false, access: Access::ReadWrite });
        o.seed(String::from_str("dotglob"), OptionRW { enabled: false, access: Access::ReadWrite });
        o.seed(String::from_str("execfail"), OptionRW { enabled: false, access: Access::ReadWrite });
        o.seed(String::from_str("expand_aliases"), OptionRW { enabled: true, access: Access::ReadWrite });
        o.seed(String::from_str("extdebug"), OptionRW { enabled: false, access: Access::ReadWrite });
        o.seed(String::from_str("extglob"), OptionRW { enabled: true, access: Access::ReadWrite });
        o.seed(String::from_str("extquote"), OptionRW { enabled: true, access: Access::ReadWrite });
        o.seed(String::from_str("failglob"), OptionRW { enabled: false, access: Access::ReadWrite });
        o.seed(String::from_str("force_fignore"), OptionRW { enabled: true, access: Access::ReadWrite });
        o.seed(String::from_str("globasciiranges"), OptionRW { enabled: false, access: Access::ReadWrite });
        o.seed(String::from_str("globstar"), OptionRW { enabled: false, access: Access::ReadWrite });
        o.seed(String::from_str("gnu_errfmt"), OptionRW { enabled: false, access: Access::ReadWrite });
        o.seed(String::from_str("histappend"), OptionRW { enabled: true, access: Access::ReadWrite });
        o.seed(String::from_str("histreedit"), OptionRW { enabled: false, access: Access::ReadWrite });
        o.seed(String::from_str("histverify"), OptionRW { enabled: false, access: Access::ReadWrite });
        o.seed(String::from_str("hostcomplete"), OptionRW { enabled: true, access: Access::ReadWrite });
        o.seed(String::from_str("huponexit"), OptionRW { enabled: false, access: Access::ReadWrite });
        o.seed(String::from_str("interactive_comments"), OptionRW { enabled: true, access: Access::ReadWrite });
        o.seed(String::from_str("lastpipe"), OptionRW { enabled: false, access: Access::ReadWrite });
        o.seed(String::from_str("lithist"), OptionRW { enabled: false, access: Access::ReadWrite });
        o.seed(String::from_str("login_shell"), OptionRW { enabled: false, access: Access::ReadWrite });
        o.seed(String::from_str("mailwarn"), OptionRW { enabled: false, access: Access::ReadWrite });
        o.seed(String::from_str("no_empty_cmd_completion"), OptionRW { enabled: false, access: Access::ReadWrite });
        o.seed(String::from_str("nocaseglob"), OptionRW { enabled: false, access: Access::ReadWrite });
        o.seed(String::from_str("nocasematch"), OptionRW { enabled: false, access: Access::ReadWrite });
        o.seed(String::from_str("nullglob"), OptionRW { enabled: false, access: Access::ReadWrite });
        o.seed(String::from_str("progcomp"), OptionRW { enabled: true, access: Access::ReadWrite });
        o.seed(String::from_str("promptvars"), OptionRW { enabled: true, access: Access::ReadWrite });
        o.seed(String::from_str("restricted_shell"), OptionRW { enabled: false, access: Access::ReadWrite });
        o.seed(String::from_str("shift_verbose"), OptionRW { enabled: false, access: Access::ReadWrite });
        o.seed(String::from_str("sourcepath"), OptionRW { enabled: true, access: Access::ReadWrite });
        o.seed(String::from_str("xpg_echo"), OptionRW { enabled: false, access: Access::ReadWrite });
        o
    }

    /// The default execution (set-style) option table.
    pub fn init_set_options() -> (o: Opt)
        ensures
            o@ == default_set_options(),
    {
        let mut o = Opt::new();
        o.seed(String::from_str("allexport"), OptionRW { enabled: false, access: Access::ReadWrite });
        o.seed(String::from_str("braceexpand"), OptionRW { enabled: true, access: Access::ReadWrite });
        o.seed(String::from_str("emacs"), OptionRW { enabled: false, access: Access::ReadWrite });
        o.seed(String::from_str("errexit"), OptionRW { enabled: false, access: Access::ReadWrite });
        o.seed(String::from_str("errtrace"), OptionRW { enabled: false, access: Access::ReadWrite });
        o.seed(String::from_str("functrace"), OptionRW { enabled: false, access: Access::ReadWrite });
        o.seed(String::from_str("hashall"), OptionRW { enabled: true, access: Access::ReadWrite });
        o.seed(String::from_str("histexpand"), OptionRW { enabled: true, access: Access::ReadWrite });
        o.seed(String::from_str("history"), OptionRW { enabled: false, access: Access::ReadWrite });
        o.seed(String::from_str("ignoreeof"), OptionRW { enabled: false, access: Access::ReadWrite });
        o.seed(String::from_str("interactive-comments"), OptionRW { enabled: false, access: Access::ReadWrite });
        o.seed(String::from_str("keyword"), OptionRW { enabled: false, access: Access::ReadWrite });
        o.seed(String::from_str("monitor"), OptionRW { enabled: true, access: Access::ReadWrite });
        o.seed(String::from_str("noclobber"), OptionRW { enabled: false, access: Access::ReadWrite });
        o.seed(String::from_str("noexec"), OptionRW { enabled: false, access: Access::ReadWrite });
        o.seed(String::from_str("noglob"), OptionRW { enabled: false, access: Access::ReadWrite });
        o.seed(String::from_str("nolog"), OptionRW { enabled: false, access: Access::ReadWrite });
        o.seed(String::from_str("notify"), OptionRW { enabled: false, access: Access::ReadWrite });
        o.seed(String::from_str("nounset"), OptionRW { enabled: false, access: Access::ReadWrite });
        o.seed(String::from_str("onecmd"), OptionRW { enabled: false, access: Access::ReadWrite });
        o.seed(String::from_str("physical"), OptionRW { enabled: false, access: Access::ReadWrite });
        o.seed(String::from_str("pipefail"), OptionRW { enabled: false, access: Access::ReadWrite });
        o.seed(String::from_str("posix"), OptionRW { enabled: false, access: Access::ReadWrite });
        o.seed(String::from_str("privileged"), OptionRW { enabled: false, access: Access::ReadWrite });
        o.seed(String::from_str("verbose"), OptionRW { enabled: false, access: Access::ReadWrite });
        o.seed(String::from_str("vi"), OptionRW { enabled: false, access: Access::ReadWrite });
        o.seed(String::from_str("xtrace"), OptionRW { enabled: false, access: Access::ReadWrite });
        o
    }
}

} // verus!
