use rush::arrays::{Array, Index};
use rush::builtins;
use rush::error::{CharError, Position, ShellError, SizeError};
use rush::opt::Opt;
use rush::variables::{Access, Value, Variable, Variables};

#[test]
fn value_round_trip_all_variants() {
    let mut vars = Variables::new();
    let _ = vars.set(
        String::from("N_I"),
        Variable { value: Value::I(-7), access: Access::ReadWrite },
    );
    let _ = vars.set(
        String::from("N_F"),
        Variable { value: Value::F((2.5f64).to_bits()), access: Access::ReadWrite },
    );
    let _ = vars.set(
        String::from("N_S"),
        Variable { value: Value::S(String::from("seven")), access: Access::ReadWrite },
    );
    assert_eq!(vars.get("N_I").unwrap().value, Value::I(-7));
    assert_eq!(vars.get("N_F").unwrap().value, Value::F((2.5f64).to_bits()));
    assert_eq!(vars.get("N_S").unwrap().value, Value::S(String::from("seven")));
}

#[test]
fn read_only_binding_keeps_its_value() {
    let mut vars = Variables::new();
    let _ = vars.set(
        String::from("FROZEN"),
        Variable { value: Value::I(1), access: Access::ReadWrite },
    );
    vars.set_access(String::from("FROZEN"), Access::ReadOnly);
    let before = vars.get("FROZEN").unwrap();
    let outcome = vars.set(
        String::from("FROZEN"),
        Variable { value: Value::I(2), access: Access::ReadWrite },
    );
    assert_eq!(outcome, Err(ShellError::ReadOnlyViolation));
    let after = vars.get("FROZEN").unwrap();
    assert_eq!(after.value, before.value);
    assert_eq!(after.access, Access::ReadOnly);
}

#[test]
fn read_only_created_by_set_access_rejects_writes() {
    let mut vars = Variables::new();
    vars.set_access(String::from("SEALED"), Access::ReadOnly);
    let v0 = vars.get("SEALED").unwrap();
    assert_eq!(v0.value, Value::S(String::new()));
    let outcome = vars.set(
        String::from("SEALED"),
        Variable { value: Value::S(String::from("other")), access: Access::ReadWrite },
    );
    assert_eq!(outcome, Err(ShellError::ReadOnlyViolation));
    assert_eq!(vars.get("SEALED").unwrap().value, v0.value);
}

#[test]
fn default_seeding_access_flags() {
    let vars = Variables::init_shell_vars();
    assert_eq!(vars.get("HISTSIZE").unwrap().value, Value::I(1000));
    assert_eq!(vars.get_access("HISTSIZE"), Some(Access::ReadWrite));
    assert_eq!(vars.get("RUSH_COMMAND").unwrap().value, Value::S(String::new()));
    assert_eq!(vars.get_access("UID"), Some(Access::ReadOnly));
    assert_eq!(vars.get_access("GID"), Some(Access::ReadOnly));
    assert_eq!(vars.get_access("EUID"), Some(Access::ReadOnly));
    assert_eq!(vars.get_access("PPID"), Some(Access::ReadOnly));
    // a seeded RANDOM value, when the coin flip drew one, lies in the
    // 16-bit range the generator promises
    if let Some(v) = vars.get("RANDOM") {
        let r = v.geti().unwrap();
        assert!((-32768..=32767).contains(&r));
    }
}

#[test]
fn array_miss_semantics() {
    let mut arrays = Array::new();
    assert_eq!(arrays.get("X", &Index::I(0)), None);
    let _ = arrays.set("X", Index::A(String::from("k")), Value::I(42));
    assert_eq!(arrays.get("X", &Index::I(0)), None);
    match arrays.get("X", &Index::A(String::from("k"))) {
        Some(Value::I(i)) => assert_eq!(i, 42),
        _ => panic!("X[k] should hold Integer 42"),
    }
}

#[test]
fn array_read_only_rejects_writes() {
    let mut arrays = Array::new();
    let _ = arrays.set("A", Index::I(0), Value::I(1));
    arrays.set_access("A", Access::ReadOnly);
    let outcome = arrays.set("A", Index::I(0), Value::I(2));
    assert_eq!(outcome, Err(ShellError::ReadOnlyViolation));
    assert_eq!(arrays.get("A", &Index::I(0)), Some(Value::I(1)));
    // unset against a read-only array is a no-op
    arrays.unset("A", &Index::I(0));
    assert_eq!(arrays.get("A", &Index::I(0)), Some(Value::I(1)));
}

#[test]
fn alias_scenario() {
    let mut aliases = rush::aliases::Aliases::init_aliases();
    assert_eq!(aliases.get("egrep"), Some(String::from("egrep --color=auto")));
    aliases.set(String::from("egrep"), String::from("egrep -i"));
    assert_eq!(aliases.get("egrep"), Some(String::from("egrep -i")));
}

#[test]
fn option_defaults() {
    let shopt = Opt::init_shopt_options();
    assert_eq!(shopt.get("extglob").unwrap().enabled, true);
    assert_eq!(shopt.get("autocd").unwrap().enabled, false);
    assert!(shopt.get("nosuchoption").is_none());
    let set_opts = Opt::init_set_options();
    assert_eq!(set_opts.get("monitor").unwrap().enabled, true);
    assert_eq!(set_opts.get("posix").unwrap().enabled, false);
}

#[test]
fn typed_extraction_reports_mismatch() {
    let v = Variable { value: Value::I(5), access: Access::ReadWrite };
    assert_eq!(v.geti(), Ok(5));
    assert_eq!(v.getf(), Err(ShellError::TypeMismatch));
    assert_eq!(v.gets(), Err(ShellError::TypeMismatch));
    let s = Variable { value: Value::S(String::from("x")), access: Access::ReadWrite };
    assert_eq!(s.geti(), Err(ShellError::TypeMismatch));
    assert_eq!(s.gets(), Ok(String::from("x")));
    let f = Variable { value: Value::F((1.0f64).to_bits()), access: Access::ReadWrite };
    assert_eq!(f.getf(), Ok((1.0f64).to_bits()));
    assert_eq!(f.geti(), Err(ShellError::TypeMismatch));
}

#[test]
fn unsupported_escape_is_reported() {
    let ctx = rush::prompt::PromptContext {
        date: String::new(),
        time24: String::new(),
        time12: String::new(),
        time12ampm: String::new(),
        host: String::new(),
        user: String::new(),
        pwd: String::new(),
        root: false,
    };
    assert_eq!(
        rush::prompt::Prompt::render("\\q", &ctx).err(),
        Some(ShellError::UnsupportedEscape('q'))
    );
}

#[test]
fn builtin_placeholders_report_unimplemented() {
    assert!(builtins::colon(&["ignored"]));
    assert_eq!(builtins::fc(&[]), Err(ShellError::Unimplemented));
    assert_eq!(builtins::history(&["-c"]), Err(ShellError::Unimplemented));
    assert_eq!(builtins::export(&["A=1"]), Err(ShellError::Unimplemented));
    assert_eq!(builtins::jobs(&[]), Err(ShellError::Unimplemented));
}

#[test]
fn diagnostic_records_carry_their_fields() {
    let pos = Position::new(3, 9);
    assert_eq!(pos.line, 3);
    assert_eq!(pos.column, 9);
    let ce = CharError::new('a', 'b', &pos);
    assert_eq!(ce.expected, 'a');
    assert_eq!(ce.got, 'b');
    assert_eq!(ce.position, pos);
    let se = SizeError::new(2, 5, &pos);
    assert_eq!(se.nb_elements_expected, 2);
    assert_eq!(se.nb_elements_got, 5);
    assert_eq!(se.position, pos);
}

#[test]
fn session_default_state() {
    let rush = rush::rush::RuSh::default();
    assert_eq!(rush.line_case, 1);
    assert_eq!(rush.cmd_nb, 0);
    assert_eq!(rush.prompt.prompt, "");
    assert_eq!(rush.versinfo.4, "alpha0");
    assert_eq!(rush.versinfo.5, "x86_64-redhat-linux-gnu");
    assert_eq!(rush.aliases.get("grep"), Some(String::from("grep --color=auto")));
    assert_eq!(rush.shopt_options.get("extglob").unwrap().enabled, true);
    assert_eq!(rush.set_options.get("braceexpand").unwrap().enabled, true);
    match rush.shell_array_vars.get("RUSH_ALIASES", &Index::A(String::from("ls"))) {
        Some(Value::S(s)) => assert_eq!(s, "ls --color=auto"),
        _ => panic!("RUSH_ALIASES[ls] should be seeded"),
    }
}
