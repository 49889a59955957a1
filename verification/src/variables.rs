//! The scalar variable store: each name is bound to one typed value together
//! with an access flag that decides whether `set` may overwrite it.
//!
//! The store is modelled as a map from the name's characters to a
//! [`VariableView`]; every operation states its exact effect on that map.

use vstd::prelude::*;
use vstd::hash_map::StringHashMap;
use vstd::string::StringExecFns;
use rand::Rng;
use crate::error::ShellError;

verus! {

broadcast use vstd::string::group_string_axioms;

/// Whether a binding may be overwritten by `set`.
#[derive(Clone, Copy, Debug, Eq, Hash, PartialEq)]
pub enum Access {
    ReadWrite,
    ReadOnly,
}

/// A typed shell value: a 64-bit signed integer, a 64-bit floating-point
/// value carried as its IEEE-754 bit pattern, or text. The store never
/// computes with the floating-point payload, it only keeps and returns it,
/// so the bit pattern is the value.
#[derive(Clone, Debug, PartialEq)]
pub enum Value {
    /// An integer value.
    I(i64),
    /// A floating-point value, as the bit pattern given by `f64::to_bits`.
    F(u64),
    /// A text value.
    S(String),
}

/// The mathematical shape of a [`Value`]: text becomes its characters.
pub enum ValueView {
    I(i64),
    F(u64),
    S(Seq<char>),
}

impl View for Value {
    type V = ValueView;

    open spec fn view(&self) -> ValueView {
        match self {
            Value::I(i) => ValueView::I(*i),
            Value::F(b) => ValueView::F(*b),
            Value::S(s) => ValueView::S(s@),
        }
    }
}

/// One scalar binding: the value and its access flag.
#[derive(Clone, Debug, PartialEq)]
pub struct Variable {
    /// The stored value.
    pub value: Value,
    /// Whether `set` may overwrite the binding.
    pub access: Access,
}

/// The mathematical shape of a [`Variable`].
pub struct VariableView {
    pub value: ValueView,
    pub access: Access,
}

impl View for Variable {
    type V = VariableView;

    open spec fn view(&self) -> VariableView {
        VariableView { value: self.value@, access: self.access }
    }
}

/// What a typed integer extraction yields from a value.
pub open spec fn int_of(v: ValueView) -> Result<i64, ShellError> {
    match v {
        ValueView::I(i) => Ok(i),
        _ => Err(ShellError::TypeMismatch),
    }
}

/// What a typed floating-point extraction yields: the bit pattern.
pub open spec fn float_bits_of(v: ValueView) -> Result<u64, ShellError> {
    match v {
        ValueView::F(b) => Ok(b),
        _ => Err(ShellError::TypeMismatch),
    }
}

impl Variable {
    /// Extract the integer value; any other variant reports `TypeMismatch`
    /// instead of aborting.
    pub fn geti(&self) -> (r: Result<i64, ShellError>)
        ensures
            r == int_of(self@.value),
    {
        match &self.value {
            Value::I(i) => Ok(*i),
            _ => Err(ShellError::TypeMismatch),
        }
    }

    /// Extract the floating-point bit pattern; any other variant reports
    /// `TypeMismatch` instead of aborting.
    pub fn getf(&self) -> (r: Result<u64, ShellError>)
        ensures
            r == float_bits_of(self@.value),
    {
        match &self.value {
            Value::F(b) => Ok(*b),
            _ => Err(ShellError::TypeMismatch),
        }
    }

    /// Extract the text value as a copy; any other variant reports
    /// `TypeMismatch` instead of aborting.
    pub fn gets(&self) -> (r: Result<String, ShellError>)
        ensures
            match self@.value {
                ValueView::S(t) => r matches Ok(s) && s@ == t,
                _ => r matches Err(e) && e == ShellError::TypeMismatch,
            },
    {
        match &self.value {
            Value::S(s) => Ok(s.clone()),
            _ => Err(ShellError::TypeMismatch),
        }
    }
}

/// A copy of a value whose view is the original's.
pub(crate) fn dup_value(v: &Value) -> (r: Value)
    ensures
        r@ == v@,
{
    match v {
        Value::I(i) => Value::I(*i),
        Value::F(b) => Value::F(*b),
        Value::S(s) => Value::S(s.clone()),
    }
}

/// A copy of a binding whose view is the original's.
fn dup_variable(v: &Variable) -> (r: Variable)
    ensures
        r@ == v@,
{
    Variable { value: dup_value(&v.value), access: v.access }
}

/// The scalar variable store, modelled as a map from name to binding.
pub struct Variables {
    vars: StringHashMap<Variable>,
}

impl View for Variables {
    type V = Map<Seq<char>, VariableView>;

    closed spec fn view(&self) -> Map<Seq<char>, VariableView> {
        self.vars@.map_values(|v: Variable| v@)
    }
}

/// The effect of `Variables::set` on the model: an existing read-only
/// binding is left untouched, anything else is overwritten or created.
pub open spec fn vars_set_map(
    m: Map<Seq<char>, VariableView>,
    n: Seq<char>,
    v: VariableView,
) -> Map<Seq<char>, VariableView> {
    if m.contains_key(n) && m[n].access == Access::ReadOnly {
        m
    } else {
        m.insert(n, v)
    }
}

/// What `Variables::set` reports: an error exactly where the existing
/// binding is read-only.
pub open spec fn vars_set_result(m: Map<Seq<char>, VariableView>, n: Seq<char>) -> Result<
    (),
    ShellError,
> {
    if m.contains_key(n) && m[n].access == Access::ReadOnly {
        Err(ShellError::ReadOnlyViolation)
    } else {
        Ok(())
    }
}

/// The effect of `Variables::set_access` on the model: an absent name is
/// created with an empty text value, an existing binding keeps its value
/// and takes the new flag.
pub open spec fn vars_set_access_map(
    m: Map<Seq<char>, VariableView>,
    n: Seq<char>,
    a: Access,
) -> Map<Seq<char>, VariableView> {
    if m.contains_key(n) {
        m.insert(n, VariableView { value: m[n].value, access: a })
    } else {
        m.insert(n, VariableView { value: ValueView::S(Seq::<char>::empty()), access: a })
    }
}

impl Variables {
    /// An empty store.
    pub fn new() -> (vars: Variables)
        ensures
            vars@ == Map::<Seq<char>, VariableView>::empty(),
    {
        let vars = Variables { vars: StringHashMap::new() };
        proof {
            assert(vars@ =~= Map::<Seq<char>, VariableView>::empty());
        }
        vars
    }

    /// Look a binding up by name; it comes back as a copy.
    pub fn get(&self, key: &str) -> (r: Option<Variable>)
        ensures
            match r {
                Some(v) => self@.contains_key(key@) && v@ == self@[key@],
                None => !self@.contains_key(key@),
            },
    {
        match self.vars.get(key) {
            Some(v) => Some(dup_variable(v)),
            None => None,
        }
    }

    /// Look only the access flag up by name.
    pub fn get_access(&self, key: &str) -> (r: Option<Access>)
        ensures
            match r {
                Some(a) => self@.contains_key(key@) && a == self@[key@].access,
                None => !self@.contains_key(key@),
            },
    {
        match self.vars.get(key) {
            Some(v) => Some(v.access),
            None => None,
        }
    }

    /// Bind a name. An unbound name is created and a read-write binding is
    /// overwritten; a read-only binding is left unchanged and the call
    /// reports `ReadOnlyViolation`.
    pub fn set(&mut self, key: String, v: Variable) -> (r: Result<(), ShellError>)
        ensures
            final(self)@ == vars_set_map(old(self)@, key@, v@),
            r == vars_set_result(old(self)@, key@),
    {
        let existing_access = match self.vars.get(key.as_str()) {
            Some(existing) => Some(existing.access),
            None => None,
        };
        match existing_access {
            Some(Access::ReadOnly) => Err(ShellError::ReadOnlyViolation),
            _ => {
                self.vars.insert(key, v);
                proof {
                    assert(self@ =~= old(self)@.insert(key@, v@));
                }
                Ok(())
            },
        }
    }

    /// Insert one seeded default binding (used only while building the
    /// initial table; seeding never rebinds a name).
    fn seed(&mut self, key: String, v: Variable)
        ensures
            final(self)@ == old(self)@.insert(key@, v@),
    {
        self.vars.insert(key, v);
        proof {
            assert(self@ =~= old(self)@.insert(key@, v@));
        }
    }

    /// Give a name an access flag. An unbound name is created with an empty
    /// text value; an existing binding keeps its value, whatever its
    /// current flag.
    pub fn set_access(&mut self, key: String, v: Access)
        ensures
            final(self)@ == vars_set_access_map(old(self)@, key@, v),
    {
        match self.vars.get(key.as_str()) {
            Some(existing) => {
                let updated = Variable { value: dup_value(&existing.value), access: v };
                self.vars.insert(key, updated);
                proof {
                    assert(self@ =~= vars_set_access_map(old(self)@, key@, v));
                }
            },
            None => {
                self.vars.insert(key, Variable { value: Value::S(String::new()), access: v });
                proof {
                    assert(self@ =~= vars_set_access_map(old(self)@, key@, v));
                }
            },
        }
    }

    /// Remove a binding unconditionally: by design, `unset` is not subject
    /// to read-only protection.
    pub fn unset(&mut self, key: String)
        ensures
            final(self)@ == old(self)@.remove(key@),
    {
        self.vars.remove(key.as_str());
        proof {
            assert(self@ =~= old(self)@.remove(key@));
        }
    }
}

/// The host identity read once at session start: process ids, user and
/// group ids, and the name strings the host reports. These are inputs to
/// the store; querying them is the embedding program's concern.
pub struct HostInfo {
    pub pid: i64,
    pub ppid: i64,
    pub uid: i64,
    pub euid: i64,
    pub gid: i64,
    pub login: String,
    pub hostname: String,
    pub cwd: String,
    pub exe: String,
    /// A drawn random seed for the RANDOM variable, where one was drawn.
    pub random: Option<i64>,
}

/// The mathematical shape of a [`HostInfo`].
pub struct HostView {
    pub pid: i64,
    pub ppid: i64,
    pub uid: i64,
    pub euid: i64,
    pub gid: i64,
    pub login: Seq<char>,
    pub hostname: Seq<char>,
    pub cwd: Seq<char>,
    pub exe: Seq<char>,
    pub random: Option<i64>,
}

impl View for HostInfo {
    type V = HostView;

    open spec fn view(&self) -> HostView {
        HostView {
            pid: self.pid,
            ppid: self.ppid,
            uid: self.uid,
            euid: self.euid,
            gid: self.gid,
            login: self.login@,
            hostname: self.hostname@,
            cwd: self.cwd@,
            exe: self.exe@,
            random: self.random,
        }
    }
}

/// A read-write integer binding.
pub open spec fn int_rw(i: i64) -> VariableView {
    VariableView { value: ValueView::I(i), access: Access::ReadWrite }
}

/// A read-only integer binding.
pub open spec fn int_ro(i: i64) -> VariableView {
    VariableView { value: ValueView::I(i), access: Access::ReadOnly }
}

/// A read-write text binding.
pub open spec fn text_rw(s: Seq<char>) -> VariableView {
    VariableView { value: ValueView::S(s), access: Access::ReadWrite }
}

/// A read-only text binding.
pub open spec fn text_ro(s: Seq<char>) -> VariableView {
    VariableView { value: ValueView::S(s), access: Access::ReadOnly }
}

/// The table that `init_shell_vars_from` seeds, given the host identity.
pub open spec fn default_shell_vars(h: HostView) -> Map<Seq<char>, VariableView> {
    let base = Map::<Seq<char>, VariableView>::empty()
        .insert("RUSH"@, text_rw(h.exe))
        .insert("RUSHPID"@, int_rw(h.pid))
        .insert("RUSH_COMMAND"@, text_rw(Seq::<char>::empty()))
        .insert("RUSH_SUBSHELL"@, int_rw(0))
        .insert("RUSH_VERSION"@, text_ro("0.0.0.0-alpha0-x86_64-redhat-linux-gnu"@))
        .insert("EUID"@, int_ro(h.euid))
        .insert("HOSTNAME"@, text_rw(h.hostname))
        .insert("LINENO"@, int_rw(1))
        .insert("OLDPWD"@, text_rw("."@))
        .insert("PPID"@, int_ro(h.ppid))
        .insert("PWD"@, text_rw(h.cwd));
    let with_random = match h.random {
        Some(r) => base.insert("RANDOM"@, int_rw(r)),
        None => base,
    };
    with_random.insert("SECONDS"@, int_rw(0))
        .insert("SHELL"@, text_rw(h.exe))
        .insert("SHLVL"@, int_rw(1))
        .insert("UID"@, int_ro(h.uid))
        .insert("GID"@, int_ro(h.gid))
        .insert("USERNAME"@, text_ro(h.login))
        .insert("HISTSIZE"@, int_rw(1000))
}

/// Whether a drawn RANDOM seed lies in the range the generator promises.
pub open spec fn random_seed_ok(rnd: Option<i64>) -> bool {
    match rnd {
        Some(r) => -32768 <= r <= 32767,
        None => true,
    }
}

/// The host identity used when no host query is made: zero ids and the
/// documented fallback strings, with the given RANDOM seed.
pub open spec fn fallback_host(rnd: Option<i64>) -> HostView {
    HostView {
        pid: 0,
        ppid: 0,
        uid: 0,
        euid: 0,
        gid: 0,
        login: "no login"@,
        hostname: "wtf"@,
        cwd: "/"@,
        exe: "/"@,
        random: rnd,
    }
}

/// The outcome of `init_shell_vars`: the default table seeded from the
/// fallback host identity and some admissible RANDOM draw.
pub open spec fn seeded_with_fallback(
    m: Map<Seq<char>, VariableView>,
    rnd: Option<i64>,
) -> bool {
    random_seed_ok(rnd) && m == default_shell_vars(fallback_host(rnd))
}

/// Relies on rand::thread_rng and Rng::gen::<bool>: a coin flip from the
/// thread-local generator; nothing is promised of the outcome.
#[verifier::external_body]
fn coin_flip() -> bool {
    let mut rng = rand::thread_rng();
    rng.gen()
}

/// Relies on rand::thread_rng and Rng::gen::<i16>: a 16-bit draw from the
/// thread-local generator, widened; every outcome lies in the i16 range.
#[verifier::external_body]
fn random_shell_value() -> (r: i64)
    ensures
        -32768 <= r <= 32767,
{
    let mut rng = rand::thread_rng();
    let v: i16 = rng.gen();
    i64::from(v)
}

impl Variables {
    /// Seed the default shell variables from the given host identity.
    pub fn init_shell_vars_from(h: &HostInfo) -> (vars: Variables)
        ensures
            vars@ == default_shell_vars(h@),
    {
        let mut vars = Variables::new();
        vars.seed(
            String::from_str("RUSH"),
            Variable { value: Value::S(h.exe.clone()), access: Access::ReadWrite },
        );
        vars.seed(
            String::from_str("RUSHPID"),
            Variable { value: Value::I(h.pid), access: Access::ReadWrite },
        );
        vars.seed(
            String::from_str("RUSH_COMMAND"),
            Variable { value: Value::S(String::new()), access: Access::ReadWrite },
        );
        vars.seed(
            String::from_str("RUSH_SUBSHELL"),
            Variable { value: Value::I(0), access: Access::ReadWrite },
        );
        vars.seed(
            String::from_str("RUSH_VERSION"),
            Variable {
                value: Value::S(String::from_str("0.0.0.0-alpha0-x86_64-redhat-linux-gnu")),
                access: Access::ReadOnly,
            },
        );
        vars.seed(
            String::from_str("EUID"),
            Variable { value: Value::I(h.euid), access: Access::ReadOnly },
        );
        vars.seed(
            String::from_str("HOSTNAME"),
            Variable { value: Value::S(h.hostname.clone()), access: Access::ReadWrite },
        );
        vars.seed(
            String::from_str("LINENO"),
            Variable { value: Value::I(1), access: Access::ReadWrite },
        );
        vars.seed(
            String::from_str("OLDPWD"),
            Variable { value: Value::S(String::from_str(".")), access: Access::ReadWrite },
        );
        vars.seed(
            String::from_str("PPID"),
            Variable { value: Value::I(h.ppid), access: Access::ReadOnly },
        );
        vars.seed(
            String::from_str("PWD"),
            Variable { value: Value::S(h.cwd.clone()), access: Access::ReadWrite },
        );
        match h.random {
            Some(r) => {
                vars.seed(
                    String::from_str("RANDOM"),
                    Variable { value: Value::I(r), access: Access::ReadWrite },
                );
            },
            None => {},
        }
        vars.seed(
            String::from_str("SECONDS"),
            Variable { value: Value::I(0), access: Access::ReadWrite },
        );
        vars.seed(
            String::from_str("SHELL"),
            Variable { value: Value::S(h.exe.clone()), access: Access::ReadWrite },
        );
        vars.seed(
            String::from_str("SHLVL"),
            Variable { value: Value::I(1), access: Access::ReadWrite },
        );
        vars.seed(
            String::from_str("UID"),
            Variable { value: Value::I(h.uid), access: Access::ReadOnly },
        );
        vars.seed(
            String::from_str("GID"),
            Variable { value: Value::I(h.gid), access: Access::ReadOnly },
        );
        vars.seed(
            String::from_str("USERNAME"),
            Variable { value: Value::S(h.login.clone()), access: Access::ReadOnly },
        );
        vars.seed(
            String::from_str("HISTSIZE"),
            Variable { value: Value::I(1000), access: Access::ReadWrite },
        );
        vars
    }

    /// Seed the default shell variables without querying the host: every
    /// identity input takes its documented fallback, and the RANDOM
    /// variable is seeded from the generator on a coin flip, as at startup.
    pub fn init_shell_vars() -> (vars: Variables)
        ensures
            exists|rnd: Option<i64>| #[trigger] seeded_with_fallback(vars@, rnd),
    {
        let seed_random = coin_flip();
        let drawn: Option<i64> = if seed_random {
            Some(random_shell_value())
        } else {
            None
        };
        let host = HostInfo {
            pid: 0,
            ppid: 0,
            uid: 0,
            euid: 0,
            gid: 0,
            login: String::from_str("no login"),
            hostname: String::from_str("wtf"),
            cwd: String::from_str("/"),
            exe: String::from_str("/"),
            random: drawn,
        };
        let vars = Variables::init_shell_vars_from(&host);
        proof {
            assert(host@ == fallback_host(drawn));
            assert(seeded_with_fallback(vars@, drawn));
        }
        vars
    }
}

/// Round-trip law: a value written by `set` into a name that is unbound or
/// read-write is exactly what a later `get` of that name reads back.
pub proof fn lemma_set_get_round_trip(
    m: Map<Seq<char>, VariableView>,
    n: Seq<char>,
    v: VariableView,
)
    requires
        !m.contains_key(n) || m[n].access == Access::ReadWrite,
    ensures
        vars_set_result(m, n) == Ok::<(), ShellError>(()),
        vars_set_map(m, n, v).contains_key(n),
        vars_set_map(m, n, v)[n] == v,
{
}

/// Read-only enforcement law: `set` against a read-only binding reports
/// `ReadOnlyViolation` and leaves the whole store unchanged, so a later
/// `get` still reads the old value.
pub proof fn lemma_read_only_set_rejected(
    m: Map<Seq<char>, VariableView>,
    n: Seq<char>,
    v: VariableView,
)
    requires
        m.contains_key(n),
        m[n].access == Access::ReadOnly,
    ensures
        vars_set_map(m, n, v) == m,
        vars_set_result(m, n) == Err::<(), ShellError>(ShellError::ReadOnlyViolation),
{
}

/// Read-only enforcement across the interface: once `set_access` has marked
/// a name read-only, a `set` of that name reports `ReadOnlyViolation` and
/// the store — so the binding a later `get` reads — is unchanged.
pub proof fn lemma_set_access_then_set_rejected(
    m: Map<Seq<char>, VariableView>,
    n: Seq<char>,
    v: VariableView,
)
    ensures
        vars_set_map(vars_set_access_map(m, n, Access::ReadOnly), n, v) == vars_set_access_map(
            m,
            n,
            Access::ReadOnly,
        ),
        vars_set_result(vars_set_access_map(m, n, Access::ReadOnly), n) == Err::<(), ShellError>(
            ShellError::ReadOnlyViolation,
        ),
{
}

/// Two character sequences of different lengths differ.
proof fn lemma_unequal_length(a: Seq<char>, b: Seq<char>)
    requires
        a.len() != b.len(),
    ensures
        a != b,
{
}

/// Default seeding law: whatever the host reports, the seeded store binds
/// HISTSIZE to read-write Integer 1000 and RUSH_COMMAND to read-write empty
/// text, and binds UID, GID, EUID and PPID read-only to the host's ids.
pub proof fn lemma_default_seeding(h: HostView)
    ensures
        default_shell_vars(h).contains_key("HISTSIZE"@),
        default_shell_vars(h)["HISTSIZE"@] == int_rw(1000),
        default_shell_vars(h).contains_key("RUSH_COMMAND"@),
        default_shell_vars(h)["RUSH_COMMAND"@] == text_rw(Seq::<char>::empty()),
        default_shell_vars(h).contains_key("UID"@),
        default_shell_vars(h)["UID"@] == int_ro(h.uid),
        default_shell_vars(h).contains_key("GID"@),
        default_shell_vars(h)["GID"@] == int_ro(h.gid),
        default_shell_vars(h).contains_key("EUID"@),
        default_shell_vars(h)["EUID"@] == int_ro(h.euid),
        default_shell_vars(h).contains_key("PPID"@),
        default_shell_vars(h)["PPID"@] == int_ro(h.ppid),
{
    reveal_strlit("RUSH");
    reveal_strlit("RUSHPID");
    reveal_strlit("RUSH_COMMAND");
    reveal_strlit("RUSH_SUBSHELL");
    reveal_strlit("RUSH_VERSION");
    reveal_strlit("EUID");
    reveal_strlit("HOSTNAME");
    reveal_strlit("LINENO");
    reveal_strlit("OLDPWD");
    reveal_strlit("PPID");
    reveal_strlit("PWD");
    reveal_strlit("RANDOM");
    reveal_strlit("SECONDS");
    reveal_strlit("SHELL");
    reveal_strlit("SHLVL");
    reveal_strlit("UID");
    reveal_strlit("GID");
    reveal_strlit("USERNAME");
    reveal_strlit("HISTSIZE");
    lemma_unequal_length("RUSH_COMMAND"@, "RUSH_SUBSHELL"@);
    assert("RUSH_COMMAND"@ != "RUSH_VERSION"@) by {
        assert("RUSH_COMMAND"@[5] != "RUSH_VERSION"@[5]);
    }
    lemma_unequal_length("RUSH_COMMAND"@, "EUID"@);
    lemma_unequal_length("RUSH_COMMAND"@, "HOSTNAME"@);
    lemma_unequal_length("RUSH_COMMAND"@, "LINENO"@);
    lemma_unequal_length("RUSH_COMMAND"@, "OLDPWD"@);
    lemma_unequal_length("RUSH_COMMAND"@, "PPID"@);
    lemma_unequal_length("RUSH_COMMAND"@, "PWD"@);
    lemma_unequal_length("RUSH_COMMAND"@, "RANDOM"@);
    lemma_unequal_length("RUSH_COMMAND"@, "SECONDS"@);
    lemma_unequal_length("RUSH_COMMAND"@, "SHELL"@);
    lemma_unequal_length("RUSH_COMMAND"@, "SHLVL"@);
    lemma_unequal_length("RUSH_COMMAND"@, "UID"@);
    lemma_unequal_length("RUSH_COMMAND"@, "GID"@);
    lemma_unequal_length("RUSH_COMMAND"@, "USERNAME"@);
    lemma_unequal_length("RUSH_COMMAND"@, "HISTSIZE"@);
    lemma_unequal_length("EUID"@, "HOSTNAME"@);
    lemma_unequal_length("EUID"@, "LINENO"@);
    lemma_unequal_length("EUID"@, "OLDPWD"@);
    assert("EUID"@ != "PPID"@) by {
        assert("EUID"@[0] != "PPID"@[0]);
    }
    lemma_unequal_length("EUID"@, "PWD"@);
    lemma_unequal_length("EUID"@, "RANDOM"@);
    lemma_unequal_length("EUID"@, "SECONDS"@);
    lemma_unequal_length("EUID"@, "SHELL"@);
    lemma_unequal_length("EUID"@, "SHLVL"@);
    lemma_unequal_length("EUID"@, "UID"@);
    lemma_unequal_length("EUID"@, "GID"@);
    lemma_unequal_length("EUID"@, "USERNAME"@);
    lemma_unequal_length("EUID"@, "HISTSIZE"@);
    lemma_unequal_length("PPID"@, "PWD"@);
    lemma_unequal_length("PPID"@, "RANDOM"@);
    lemma_unequal_length("PPID"@, "SECONDS"@);
    lemma_unequal_length("PPID"@, "SHELL"@);
    lemma_unequal_length("PPID"@, "SHLVL"@);
    lemma_unequal_length("PPID"@, "UID"@);
    lemma_unequal_length("PPID"@, "GID"@);
    lemma_unequal_length("PPID"@, "USERNAME"@);
    lemma_unequal_length("PPID"@, "HISTSIZE"@);
    assert("UID"@ != "GID"@) by {
        assert("UID"@[0] != "GID"@[0]);
    }
    lemma_unequal_length("UID"@, "USERNAME"@);
    lemma_unequal_length("UID"@, "HISTSIZE"@);
    lemma_unequal_length("GID"@, "USERNAME"@);
    lemma_unequal_length("GID"@, "HISTSIZE"@);
}

} // verus!
