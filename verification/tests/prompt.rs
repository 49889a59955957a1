use rush::prompt::{Prompt, PromptContext};
use rush::rush::RuSh;
use rush::variables::{Access, Value, Variable, Variables};

#[test]
fn prompt_test_get() {
    let mut rush = RuSh::default();
    let mut p = Prompt::get(&mut rush.shell_vars, "PS2").unwrap();
    assert_eq!(p.prompt, ">");
    p = Prompt::get(&mut rush.shell_vars, "PS3").unwrap();
    assert_eq!(p.prompt, ">");
    p = Prompt::get(&mut rush.shell_vars, "PS4").unwrap();
    assert_eq!(p.prompt, ">");
}

fn plain_context() -> PromptContext {
    PromptContext {
        date: String::from("Mon Jan  1"),
        time24: String::from("13:05:59"),
        time12: String::from("01:05:59"),
        time12ampm: String::from("01:05:59pm"),
        host: String::from("box.example.org"),
        user: String::from("someone"),
        pwd: String::from("/home/user/project"),
        root: false,
    }
}

#[test]
fn prompt_default_seeds_store_and_is_idempotent() {
    let mut vars = Variables::new();
    let p = Prompt::get(&mut vars, "PS2").unwrap();
    assert_eq!(p.prompt, ">");
    // the default was stored as a side effect
    let stored = vars.get("PS2").expect("PS2 should have been seeded");
    assert_eq!(stored.gets().unwrap(), ">");
    assert_eq!(stored.access, Access::ReadWrite);
    // a second render of the unchanged state yields the same prompt
    let again = Prompt::get(&mut vars, "PS2").unwrap();
    assert_eq!(again.prompt, ">");
    assert_eq!(vars.get("PS2").unwrap().gets().unwrap(), ">");
}

#[test]
fn prompt_dollar_escape_follows_uid() {
    let mut ctx = plain_context();
    ctx.root = true;
    assert_eq!(Prompt::render("\\$", &ctx).unwrap().prompt, "#");
    ctx.root = false;
    assert_eq!(Prompt::render("\\$", &ctx).unwrap().prompt, "$");
}

#[test]
fn prompt_dollar_escape_through_store() {
    let mut vars = Variables::new();
    let _ = vars.set(
        String::from("UID"),
        Variable { value: Value::I(0), access: Access::ReadOnly },
    );
    let _ = vars.set(
        String::from("PS1"),
        Variable { value: Value::S(String::from("\\$")), access: Access::ReadWrite },
    );
    assert_eq!(Prompt::get(&mut vars, "PS1").unwrap().prompt, "#");

    let mut vars = Variables::new();
    let _ = vars.set(
        String::from("UID"),
        Variable { value: Value::I(1000), access: Access::ReadOnly },
    );
    let _ = vars.set(
        String::from("PS1"),
        Variable { value: Value::S(String::from("\\$")), access: Access::ReadWrite },
    );
    assert_eq!(Prompt::get(&mut vars, "PS1").unwrap().prompt, "$");
}

#[test]
fn prompt_working_directory_escapes() {
    let ctx = plain_context();
    assert_eq!(Prompt::render("\\W", &ctx).unwrap().prompt, "project");
    assert_eq!(Prompt::render("\\w", &ctx).unwrap().prompt, "/home/user/project");
    let mut root_dir = plain_context();
    root_dir.pwd = String::from("/project");
    assert_eq!(Prompt::render("\\W", &root_dir).unwrap().prompt, "/project");
}

#[test]
fn prompt_host_and_user_escapes() {
    let ctx = plain_context();
    assert_eq!(Prompt::render("\\h", &ctx).unwrap().prompt, "box");
    assert_eq!(Prompt::render("\\H", &ctx).unwrap().prompt, "box.example.org");
    assert_eq!(Prompt::render("\\u", &ctx).unwrap().prompt, "someone");
    assert_eq!(
        Prompt::render("[\\u@\\h \\W]\\$ ", &ctx).unwrap().prompt,
        "[someone@box project]$ "
    );
}

#[test]
fn prompt_time_and_date_escapes() {
    let ctx = plain_context();
    assert_eq!(Prompt::render("\\d", &ctx).unwrap().prompt, "Mon Jan  1");
    assert_eq!(Prompt::render("\\t", &ctx).unwrap().prompt, "13:05:59");
    assert_eq!(Prompt::render("\\T", &ctx).unwrap().prompt, "01:05:59");
    assert_eq!(Prompt::render("\\@", &ctx).unwrap().prompt, "01:05:59pm");
}

#[test]
fn prompt_literal_escapes() {
    let ctx = plain_context();
    assert_eq!(Prompt::render("a\\nb", &ctx).unwrap().prompt, "a\nb");
    assert_eq!(Prompt::render("a\\rb", &ctx).unwrap().prompt, "a\rb");
    assert_eq!(Prompt::render("a\\\\b", &ctx).unwrap().prompt, "a\\b");
    // a trailing backslash is emitted literally
    assert_eq!(Prompt::render("ab\\", &ctx).unwrap().prompt, "ab\\");
    assert_eq!(Prompt::render("plain text", &ctx).unwrap().prompt, "plain text");
}

#[test]
fn prompt_octal_escapes() {
    let ctx = plain_context();
    // octal 101 is 'A', octal 7 is the bell character
    assert_eq!(Prompt::render("\\101", &ctx).unwrap().prompt, "A");
    assert_eq!(Prompt::render("\\7!", &ctx).unwrap().prompt, "\u{7}!");
    assert_eq!(Prompt::render("\\33[1m", &ctx).unwrap().prompt, "\u{1b}[1m");
}
