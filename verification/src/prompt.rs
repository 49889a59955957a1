//! The prompt renderer: a state machine over the template's characters.
//!
//! In the normal state a backslash switches to the escaped state and emits
//! nothing; any other character is copied through. In the escaped state the
//! next character selects a substitution (date, host, user, working
//! directory, time, the root marker, a literal, or an octal character code)
//! and the machine returns to the normal state. An escape code outside the
//! understood set is reported as `UnsupportedEscape`, aborting only the
//! current render. A trailing backslash is emitted literally.
//!
//! The renderer proper is a pure function of the template and a
//! [`PromptContext`]; `Prompt::get` builds that context from the variable
//! store and the wall clock, seeding the documented default template first
//! when the prompt variable is unset.

use vstd::prelude::*;
use vstd::string::StrSliceExecFns;
use vstd::string::StringExecFns;
use crate::error::ShellError;
use crate::variables::{Access, Value, ValueView, Variable, VariableView, Variables, text_rw};

verus! {

broadcast use vstd::string::group_string_axioms;

/// The rendered prompt text.
pub struct Prompt {
    /// The prompt, with every escape already substituted.
    pub prompt: String,
}

/// The live state a render reads: host identity strings from the store and
/// the wall-clock strings read at render time.
pub struct PromptContext {
    /// The current date, formatted "Weekday Mon D".
    pub date: String,
    /// The current time, 24-hour clock.
    pub time24: String,
    /// The current time, 12-hour clock.
    pub time12: String,
    /// The current time, 12-hour clock with the am/pm marker.
    pub time12ampm: String,
    /// The full hostname.
    pub host: String,
    /// The user name.
    pub user: String,
    /// The full working directory.
    pub pwd: String,
    /// Whether the UID variable holds the integer zero.
    pub root: bool,
}

/// The mathematical shape of a [`PromptContext`].
pub struct PromptContextView {
    pub date: Seq<char>,
    pub time24: Seq<char>,
    pub time12: Seq<char>,
    pub time12ampm: Seq<char>,
    pub host: Seq<char>,
    pub user: Seq<char>,
    pub pwd: Seq<char>,
    pub root: bool,
}

impl View for PromptContext {
    type V = PromptContextView;

    open spec fn view(&self) -> PromptContextView {
        PromptContextView {
            date: self.date@,
            time24: self.time24@,
            time12: self.time12@,
            time12ampm: self.time12ampm@,
            host: self.host@,
            user: self.user@,
            pwd: self.pwd@,
            root: self.root,
        }
    }
}

/// The prefix of `s` that stands before its first dot: what the short
/// hostname escape emits.
pub open spec fn upto_dot(s: Seq<char>) -> Seq<char>
    decreases s.len(),
{
    if s.len() == 0 {
        s
    } else if s[0] == '.' {
        Seq::<char>::empty()
    } else {
        seq![s[0]] + upto_dot(s.skip(1))
    }
}

/// The index of the last slash in `s`, or -1 where there is none.
pub open spec fn last_slash(s: Seq<char>) -> int
    decreases s.len(),
{
    if s.len() == 0 {
        -1
    } else if s[s.len() - 1] == '/' {
        s.len() - 1
    } else {
        last_slash(s.take(s.len() - 1))
    }
}

/// The last path component of `s`: everything after the last slash, except
/// that a path without a slash, or whose only slash leads it, is emitted
/// whole.
pub open spec fn last_component(s: Seq<char>) -> Seq<char> {
    let p = last_slash(s);
    if p <= 0 {
        s
    } else {
        s.subrange(p + 1, s.len() as int)
    }
}

/// Whether `c` is an octal digit.
pub open spec fn is_octal_digit(c: char) -> bool {
    48 <= (c as u32) && (c as u32) <= 55
}

/// The numeric value of one octal digit.
pub open spec fn oct_digit_val(c: char) -> int {
    (c as u32) - 48
}

/// How many octal digits an octal escape consumes from `s` (whose first
/// character is already known to be an octal digit): up to three.
pub open spec fn oct_take(s: Seq<char>) -> int {
    if s.len() >= 2 && is_octal_digit(s[1]) {
        if s.len() >= 3 && is_octal_digit(s[2]) {
            3
        } else {
            2
        }
    } else {
        1
    }
}

/// The value of the first `k` octal digits of `s`.
pub open spec fn oct_value(s: Seq<char>, k: int) -> int {
    if k == 1 {
        oct_digit_val(s[0])
    } else if k == 2 {
        oct_digit_val(s[0]) * 8 + oct_digit_val(s[1])
    } else {
        oct_digit_val(s[0]) * 64 + oct_digit_val(s[1]) * 8 + oct_digit_val(s[2])
    }
}

/// The character an octal escape emits: the code, taken modulo 256.
pub open spec fn octal_char(v: int) -> char {
    ((v % 256) as u8) as char
}

/// What a single-character escape code substitutes, or nothing where the
/// code is not understood. Octal digits are handled separately.
pub open spec fn expand_escape(c: char, ctx: PromptContextView) -> Option<Seq<char>> {
    if c == 'd' {
        Some(ctx.date)
    } else if c == 'h' {
        Some(upto_dot(ctx.host))
    } else if c == 'H' {
        Some(ctx.host)
    } else if c == 't' {
        Some(ctx.time24)
    } else if c == 'T' {
        Some(ctx.time12)
    } else if c == '@' {
        Some(ctx.time12ampm)
    } else if c == 'u' {
        Some(ctx.user)
    } else if c == 'w' {
        Some(ctx.pwd)
    } else if c == 'W' {
        Some(last_component(ctx.pwd))
    } else if c == '$' {
        Some(if ctx.root { "#"@ } else { "$"@ })
    } else if c == 'n' {
        Some("\n"@)
    } else if c == 'r' {
        Some("\r"@)
    } else if c == '\\' {
        Some("\\"@)
    } else {
        None
    }
}

/// The render of the remaining template `s`: the state machine, written as
/// recursion over the suffix. An unknown escape code yields it as the
/// error.
pub open spec fn render_suffix(s: Seq<char>, ctx: PromptContextView) -> Result<Seq<char>, char>
    decreases s.len(),
{
    if s.len() == 0 {
        Ok(Seq::<char>::empty())
    } else if s[0] == '\\' {
        if s.len() == 1 {
            Ok(seq!['\\'])
        } else if is_octal_digit(s[1]) {
            let k = oct_take(s.skip(1));
            let v = oct_value(s.skip(1), k);
            match render_suffix(s.skip(1 + k), ctx) {
                Ok(t) => Ok(seq![octal_char(v)] + t),
                Err(e) => Err(e),
            }
        } else {
            match expand_escape(s[1], ctx) {
                Some(piece) => match render_suffix(s.skip(2), ctx) {
                    Ok(t) => Ok(piece + t),
                    Err(e) => Err(e),
                },
                None => Err(s[1]),
            }
        }
    } else {
        match render_suffix(s.skip(1), ctx) {
            Ok(t) => Ok(seq![s[0]] + t),
            Err(e) => Err(e),
        }
    }
}

/// Prefixing a partial render result with already-emitted output.
pub open spec fn render_compose(prefix: Seq<char>, rest: Result<Seq<char>, char>) -> Result<
    Seq<char>,
    char,
> {
    match rest {
        Ok(t) => Ok(prefix + t),
        Err(e) => Err(e),
    }
}

proof fn lemma_compose_step(out: Seq<char>, piece: Seq<char>, rest: Result<Seq<char>, char>)
    ensures
        render_compose(out + piece, rest) == render_compose(
            out,
            match rest {
                Ok(t) => Ok::<Seq<char>, char>(piece + t),
                Err(e) => Err(e),
            },
        ),
{
    match rest {
        Ok(t) => {
            assert((out + piece) + t =~= out + (piece + t));
        },
        Err(_) => {},
    }
}

/// Relies on String::push: appends exactly the one character.
#[verifier::external_body]
fn push_char(s: &mut String, c: char)
    ensures
        final(s)@ == old(s)@.push(c),
{
    s.push(c);
}

/// Whether `c` is an octal digit (executable form).
fn oct_digit(c: char) -> (r: bool)
    ensures
        r == is_octal_digit(c),
{
    let u = c as u32;
    48 <= u && u <= 55
}

/// The index of the first occurrence of `target` in `s`, or the length
/// where it does not occur.
fn find_char(s: &str, target: char) -> (r: usize)
    ensures
        r <= s@.len(),
        forall|j: int| 0 <= j < r ==> s@[j] != target,
        r < s@.len() ==> s@[r as int] == target,
{
    let n = s.unicode_len();
    let mut i: usize = 0;
    while i < n
        invariant
            i <= n,
            n == s@.len(),
            forall|j: int| 0 <= j < i ==> s@[j] != target,
        decreases n - i,
    {
        if s.get_char(i) == target {
            return i;
        }
        i = i + 1;
    }
    n
}

/// The index of the last occurrence of `target` in `s`, where it occurs.
fn rfind_char(s: &str, target: char) -> (r: Option<usize>)
    ensures
        match r {
            Some(p) => p < s@.len() && s@[p as int] == target && (forall|j: int|
                p < j < s@.len() ==> s@[j] != target),
            None => forall|j: int| 0 <= j < s@.len() ==> s@[j] != target,
        },
{
    let n = s.unicode_len();
    let mut i: usize = n;
    while i > 0
        invariant
            i <= n,
            n == s@.len(),
            forall|j: int| i <= j < n ==> s@[j] != target,
        decreases i,
    {
        i = i - 1;
        if s.get_char(i) == target {
            return Some(i);
        }
    }
    None
}

proof fn lemma_upto_dot_prefix(s: Seq<char>, i: int)
    requires
        0 <= i <= s.len(),
        forall|j: int| 0 <= j < i ==> s[j] != '.',
        i < s.len() ==> s[i] == '.',
    ensures
        upto_dot(s) == s.subrange(0, i),
    decreases i,
{
    if i == 0 {
        if s.len() == 0 {
            assert(upto_dot(s) =~= s.subrange(0, 0));
        } else {
            assert(s[0] == '.');
            assert(upto_dot(s) =~= s.subrange(0, 0));
        }
    } else {
        assert(s[0] != '.');
        lemma_upto_dot_prefix(s.skip(1), i - 1);
        assert(seq![s[0]] + s.skip(1).subrange(0, i - 1) =~= s.subrange(0, i));
    }
}

proof fn lemma_last_slash_at(s: Seq<char>, p: int)
    requires
        0 <= p < s.len(),
        s[p] == '/',
        forall|j: int| p < j < s.len() ==> s[j] != '/',
    ensures
        last_slash(s) == p,
    decreases s.len(),
{
    if s[s.len() - 1] == '/' {
        assert(p == s.len() - 1);
    } else {
        assert(p < s.len() - 1);
        lemma_last_slash_at(s.take(s.len() - 1), p);
    }
}

proof fn lemma_last_slash_none(s: Seq<char>)
    requires
        forall|j: int| 0 <= j < s.len() ==> s[j] != '/',
    ensures
        last_slash(s) == -1,
    decreases s.len(),
{
    if s.len() > 0 {
        lemma_last_slash_none(s.take(s.len() - 1));
    }
}

/// The hostname up to its first dot: what the short-hostname escape emits.
fn host_short(h: &str) -> (r: String)
    ensures
        r@ == upto_dot(h@),
{
    let p = find_char(h, '.');
    let r = h.substring_char(0, p);
    proof {
        lemma_upto_dot_prefix(h@, p as int);
    }
    r.to_owned()
}

/// The last path component: what the short-working-directory escape emits.
fn path_base(p: &str) -> (r: String)
    ensures
        r@ == last_component(p@),
{
    match rfind_char(p, '/') {
        Some(pos) => {
            proof {
                lemma_last_slash_at(p@, pos as int);
            }
            if pos == 0 {
                String::from_str(p)
            } else {
                let n = p.unicode_len();
                let r = p.substring_char(pos + 1, n);
                r.to_owned()
            }
        },
        None => {
            proof {
                lemma_last_slash_none(p@);
            }
            String::from_str(p)
        },
    }
}

/// What one escape code substitutes, as an executable computation over the
/// context; an unknown code yields nothing.
fn expand_exec(c: char, ctx: &PromptContext) -> (r: Option<String>)
    ensures
        match (r, expand_escape(c, ctx@)) {
            (Some(s), Some(t)) => s@ == t,
            (None, None) => true,
            _ => false,
        },
{
    if c == 'd' {
        Some(ctx.date.clone())
    } else if c == 'h' {
        Some(host_short(ctx.host.as_str()))
    } else if c == 'H' {
        Some(ctx.host.clone())
    } else if c == 't' {
        Some(ctx.time24.clone())
    } else if c == 'T' {
        Some(ctx.time12.clone())
    } else if c == '@' {
        Some(ctx.time12ampm.clone())
    } else if c == 'u' {
        Some(ctx.user.clone())
    } else if c == 'w' {
        Some(ctx.pwd.clone())
    } else if c == 'W' {
        Some(path_base(ctx.pwd.as_str()))
    } else if c == '$' {
        if ctx.root {
            Some(String::from_str("#"))
        } else {
            Some(String::from_str("$"))
        }
    } else if c == 'n' {
        Some(String::from_str("\n"))
    } else if c == 'r' {
        Some(String::from_str("\r"))
    } else if c == '\\' {
        Some(String::from_str("\\"))
    } else {
        None
    }
}

impl Prompt {
    /// Render a template against a context. The result is exactly what the
    /// state machine yields: the substituted text, or the offending escape
    /// code as `UnsupportedEscape`.
    pub fn render(template: &str, ctx: &PromptContext) -> (r: Result<Prompt, ShellError>)
        ensures
            match (r, render_suffix(template@, ctx@)) {
                (Ok(p), Ok(t)) => p.prompt@ == t,
                (Err(e), Err(c)) => e == ShellError::UnsupportedEscape(c),
                _ => false,
            },
    {
        let ghost s = template@;
        let n = template.unicode_len();
        let mut out = String::new();
        let mut i: usize = 0;
        proof {
            assert(s.skip(0) =~= s);
            match render_suffix(s, ctx@) {
                Ok(t) => {
                    assert(Seq::<char>::empty() + t =~= t);
                },
                Err(_) => {},
            }
        }
        while i < n
            invariant
                i <= n,
                n == s.len(),
                s == template@,
                render_compose(out@, render_suffix(s.skip(i as int), ctx@)) == render_suffix(
                    s,
                    ctx@,
                ),
            decreases n - i,
        {
            let ghost rest = s.skip(i as int);
            proof {
                assert(rest[0] == s[i as int]);
                assert(rest.len() == n - i);
            }
            let c = template.get_char(i);
            if c == '\\' {
                if i + 1 == n {
                    // a trailing backslash is emitted literally
                    proof {
                        let prev = out@;
                        assert(rest =~= seq!['\\']);
                        assert(rest.skip(1) =~= s.skip(i + 1));
                        assert(render_suffix(rest, ctx@) == Ok::<Seq<char>, char>(seq!['\\']));
                        assert(s.skip(i + 1) =~= Seq::<char>::empty());
                        lemma_compose_step(prev, seq!['\\'], render_suffix(s.skip(i + 1), ctx@));
                        assert(prev.push('\\') =~= prev + seq!['\\']);
                        assert(Seq::<char>::empty() + seq!['\\'] =~= seq!['\\']);
                    }
                    push_char(&mut out, '\\');
                    i = i + 1;
                } else {
                    let e = template.get_char(i + 1);
                    proof {
                        assert(rest[1] == s[i + 1]);
                    }
                    if oct_digit(e) {
                        let mut k: usize = 1;
                        let mut val: u32 = (e as u32) - 48;
                        if i + 2 < n {
                            let d2 = template.get_char(i + 2);
                            proof {
                                assert(rest[2] == s[i + 2]);
                            }
                            if oct_digit(d2) {
                                k = 2;
                                val = val * 8 + ((d2 as u32) - 48);
                                if i + 3 < n {
                                    let d3 = template.get_char(i + 3);
                                    proof {
                                        assert(rest[3] == s[i + 3]);
                                    }
                                    if oct_digit(d3) {
                                        k = 3;
                                        val = val * 8 + ((d3 as u32) - 48);
                                    }
                                }
                            }
                        }
                        proof {
                            let digits = rest.skip(1);
                            assert(digits[0] == rest[1]);
                            assert(digits.len() >= 2 ==> digits[1] == rest[2]);
                            assert(digits.len() >= 3 ==> digits[2] == rest[3]);
                            assert(k as int == oct_take(digits));
                            assert(val as int == oct_value(digits, k as int));
                            assert(rest.skip(1 + k as int) =~= s.skip(i + 1 + k as int));
                            lemma_compose_step(
                                out@,
                                seq![octal_char(val as int)],
                                render_suffix(s.skip(i + 1 + k as int), ctx@),
                            );
                            assert(out@.push(octal_char(val as int)) =~= out@ + seq![
                                octal_char(val as int),
                            ]);
                        }
                        push_char(&mut out, ((val % 256) as u8) as char);
                        i = i + 1 + k;
                    } else {
                        match expand_exec(e, ctx) {
                            Some(piece) => {
                                proof {
                                    assert(rest.skip(2) =~= s.skip(i + 2));
                                    lemma_compose_step(
                                        out@,
                                        piece@,
                                        render_suffix(s.skip(i + 2), ctx@),
                                    );
                                }
                                out.append(piece.as_str());
                                i = i + 2;
                            },
                            None => {
                                proof {
                                    assert(render_suffix(rest, ctx@) == Err::<Seq<char>, char>(
                                        s[i + 1],
                                    ));
                                }
                                return Err(ShellError::UnsupportedEscape(e));
                            },
                        }
                    }
                }
            } else {
                proof {
                    assert(rest.skip(1) =~= s.skip(i + 1));
                    lemma_compose_step(out@, seq![s[i as int]], render_suffix(s.skip(i + 1), ctx@));
                    assert(out@.push(s[i as int]) =~= out@ + seq![s[i as int]]);
                }
                push_char(&mut out, c);
                i = i + 1;
            }
        }
        proof {
            assert(s.skip(n as int) =~= Seq::<char>::empty());
            assert(out@ + Seq::<char>::empty() =~= out@);
        }
        Ok(Prompt { prompt: out })
    }
}


/// The text of a bound name, where it holds text; empty otherwise. The
/// renderer reads host identity from the store this way.
pub open spec fn text_or_empty(m: Map<Seq<char>, VariableView>, n: Seq<char>) -> Seq<char> {
    if m.contains_key(n) {
        match m[n].value {
            ValueView::S(s) => s,
            _ => Seq::<char>::empty(),
        }
    } else {
        Seq::<char>::empty()
    }
}

/// Whether the store says the user is root: the UID variable holds the
/// integer zero. Anything else, a missing UID included, does not.
pub open spec fn uid_is_root(m: Map<Seq<char>, VariableView>) -> bool {
    m.contains_key("UID"@) && m["UID"@].value == ValueView::I(0)
}

/// The documented default template of a prompt variable: the full primary
/// prompt for PS1, a bare ">" for the others.
pub open spec fn default_template(n: Seq<char>) -> Seq<char> {
    if n == "PS1"@ {
        "[\\u@\\h \\W]\\$ "@
    } else {
        ">"@
    }
}

/// The store after `Prompt::get` has seeded the prompt variable: unchanged
/// where the name is bound, else the name bound read-write to its default
/// template.
pub open spec fn seeded_store(m: Map<Seq<char>, VariableView>, n: Seq<char>) -> Map<
    Seq<char>,
    VariableView,
> {
    if m.contains_key(n) {
        m
    } else {
        m.insert(n, text_rw(default_template(n)))
    }
}

/// The template text `Prompt::get` renders: the bound text where the name
/// holds a read-write text value, and empty text otherwise.
pub open spec fn template_of(m: Map<Seq<char>, VariableView>, n: Seq<char>) -> Seq<char> {
    if m.contains_key(n) && m[n].access == Access::ReadWrite {
        match m[n].value {
            ValueView::S(s) => s,
            _ => Seq::<char>::empty(),
        }
    } else {
        Seq::<char>::empty()
    }
}

/// Everything `Prompt::get` promises of its outcome, for the context it
/// read: the context's store-derived fields come from the seeded store, and
/// the result is exactly the render of the seeded template against that
/// context. Only the clock strings of the context are unconstrained.
pub open spec fn prompt_outcome(
    m: Map<Seq<char>, VariableView>,
    n: Seq<char>,
    cv: PromptContextView,
    r: Result<Prompt, ShellError>,
) -> bool {
    &&& cv.host == text_or_empty(seeded_store(m, n), "HOSTNAME"@)
    &&& cv.user == text_or_empty(seeded_store(m, n), "USERNAME"@)
    &&& cv.pwd == text_or_empty(seeded_store(m, n), "PWD"@)
    &&& cv.root == uid_is_root(seeded_store(m, n))
    &&& match (r, render_suffix(template_of(seeded_store(m, n), n), cv)) {
        (Ok(p), Ok(t)) => p.prompt@ == t,
        (Err(e), Err(c)) => e == ShellError::UnsupportedEscape(c),
        _ => false,
    }
}

/// Relies on chrono::Local::now and DateTime::format with "%a %b %e": the
/// current local date as "Weekday Mon D". The text depends on the clock, so
/// nothing is promised of it.
#[verifier::external_body]
fn local_date_string() -> String {
    chrono::Local::now().format("%a %b %e").to_string()
}

/// Relies on chrono::Local::now and DateTime::format with "%H:%M:%S": the
/// current local time on the 24-hour clock. The text depends on the clock,
/// so nothing is promised of it.
#[verifier::external_body]
fn local_time24_string() -> String {
    chrono::Local::now().format("%H:%M:%S").to_string()
}

/// Relies on chrono::Local::now and DateTime::format with "%I:%M:%S": the
/// current local time on the 12-hour clock. The text depends on the clock,
/// so nothing is promised of it.
#[verifier::external_body]
fn local_time12_string() -> String {
    chrono::Local::now().format("%I:%M:%S").to_string()
}

/// Relies on chrono::Local::now and DateTime::format with "%I:%M:%S%P": the
/// current local time on the 12-hour clock with the am/pm marker. The text
/// depends on the clock, so nothing is promised of it.
#[verifier::external_body]
fn local_time12ampm_string() -> String {
    chrono::Local::now().format("%I:%M:%S%P").to_string()
}

/// Build the render context: host identity from the store, the clock
/// strings as given.
fn shell_context(
    vars: &Variables,
    date: String,
    time24: String,
    time12: String,
    time12ampm: String,
) -> (c: PromptContext)
    ensures
        c@.host == text_or_empty(vars@, "HOSTNAME"@),
        c@.user == text_or_empty(vars@, "USERNAME"@),
        c@.pwd == text_or_empty(vars@, "PWD"@),
        c@.root == uid_is_root(vars@),
        c@.date == date@,
        c@.time24 == time24@,
        c@.time12 == time12@,
        c@.time12ampm == time12ampm@,
{
    let host = match vars.get("HOSTNAME") {
        Some(v) => match v.value {
            Value::S(s) => s,
            _ => String::new(),
        },
        None => String::new(),
    };
    let user = match vars.get("USERNAME") {
        Some(v) => match v.value {
            Value::S(s) => s,
            _ => String::new(),
        },
        None => String::new(),
    };
    let pwd = match vars.get("PWD") {
        Some(v) => match v.value {
            Value::S(s) => s,
            _ => String::new(),
        },
        None => String::new(),
    };
    let root = match vars.get("UID") {
        Some(v) => match v.value {
            Value::I(i) => i == 0,
            _ => false,
        },
        None => false,
    };
    PromptContext { date, time24, time12, time12ampm, host, user, pwd, root }
}

impl Prompt {
    /// Interpret one of the prompt variables PS1 to PS4. An unset variable
    /// is first seeded with its documented default template, as a side
    /// effect on the store; the (possibly just seeded) template is then
    /// rendered against the store and the wall clock. Only the clock
    /// strings of the context escape the contract.
    pub fn get(vars: &mut Variables, name: &str) -> (r: Result<Prompt, ShellError>)
        requires
            name@ == "PS1"@ || name@ == "PS2"@ || name@ == "PS3"@ || name@ == "PS4"@,
        ensures
            final(vars)@ == seeded_store(old(vars)@, name@),
            exists|cv: PromptContextView| #[trigger] prompt_outcome(old(vars)@, name@, cv, r),
    {
        let bound = match vars.get(name) {
            Some(_) => true,
            None => false,
        };
        if !bound {
            let name_string = String::from_str(name);
            let is_ps1 = name_string == String::from_str("PS1");
            let tmpl = if is_ps1 {
                String::from_str("[\\u@\\h \\W]\\$ ")
            } else {
                String::from_str(">")
            };
            let _ = vars.set(
                String::from_str(name),
                Variable { value: Value::S(tmpl), access: Access::ReadWrite },
            );
        }
        let template = match vars.get(name) {
            Some(v) => {
                let writable = match v.access {
                    Access::ReadWrite => true,
                    Access::ReadOnly => false,
                };
                if writable {
                    match v.value {
                        Value::S(s) => s,
                        _ => String::new(),
                    }
                } else {
                    String::new()
                }
            },
            None => String::new(),
        };
        let date = local_date_string();
        let time24 = local_time24_string();
        let time12 = local_time12_string();
        let time12ampm = local_time12ampm_string();
        let ctx = shell_context(vars, date, time24, time12, time12ampm);
        let out = Prompt::render(template.as_str(), &ctx);
        proof {
            assert(prompt_outcome(old(vars)@, name@, ctx@, out));
        }
        out
    }
}

/// Prompt seeding law: seeding is idempotent. Once the prompt variable is
/// bound — in particular right after a first `get` has seeded it — another
/// `get` leaves the store unchanged and renders the same template, so an
/// unchanged state yields the same prompt.
pub proof fn lemma_prompt_seed_idempotent(m: Map<Seq<char>, VariableView>, n: Seq<char>)
    ensures
        seeded_store(m, n).contains_key(n),
        seeded_store(seeded_store(m, n), n) == seeded_store(m, n),
        template_of(seeded_store(seeded_store(m, n), n), n) == template_of(seeded_store(m, n), n),
{
}

/// Prompt default law: where the prompt variable is unset, seeding binds it
/// to its documented default template, and that is what is rendered.
pub proof fn lemma_prompt_default_template(m: Map<Seq<char>, VariableView>, n: Seq<char>)
    requires
        !m.contains_key(n),
    ensures
        seeded_store(m, n)[n] == text_rw(default_template(n)),
        template_of(seeded_store(m, n), n) == default_template(n),
{
}

/// Rendering the one-character default template ">" yields ">" in every
/// context: the default secondary prompt is context-free.
pub proof fn lemma_render_default_secondary(cv: PromptContextView)
    ensures
        render_suffix(">"@, cv) == Ok::<Seq<char>, char>(">"@),
{
    reveal_strlit(">");
    let s = ">"@;
    assert(s.len() == 1);
    assert(s[0] == '>');
    assert(s.skip(1) =~= Seq::<char>::empty());
    assert(render_suffix(s.skip(1), cv) == Ok::<Seq<char>, char>(Seq::<char>::empty()));
    assert(seq!['>'] + Seq::<char>::empty() =~= s);
}

} // verus!
