//! The shell builtins. Only `colon` has behaviour of its own; every other
//! builtin here is a placeholder that reports it is not provided, as a
//! recoverable error rather than by aborting the session.

#![allow(unused_variables)]

use vstd::prelude::*;
use crate::error::ShellError;

verus! {

/// The `:` builtin: does nothing, and always succeeds.
pub fn colon(command: &[&str]) -> (r: bool)
    ensures
        r,
{
    true
}

/// Placeholder for the `fc` builtin: reports that it is not provided.
pub fn fc(command: &[&str]) -> (r: Result<(), ShellError>)
    ensures
        r == Err::<(), ShellError>(ShellError::Unimplemented),
{
    Err(ShellError::Unimplemented)
}

/// Placeholder for the `history` builtin: reports that it is not provided.
pub fn history(command: &[&str]) -> (r: Result<(), ShellError>)
    ensures
        r == Err::<(), ShellError>(ShellError::Unimplemented),
{
    Err(ShellError::Unimplemented)
}

/// Placeholder for the `and` builtin: reports that it is not provided.
pub fn and(command: &[&str]) -> (r: Result<(), ShellError>)
    ensures
        r == Err::<(), ShellError>(ShellError::Unimplemented),
{
    Err(ShellError::Unimplemented)
}

/// Placeholder for the `bi_if` builtin: reports that it is not provided.
pub fn bi_if(command: &[&str]) -> (r: Result<(), ShellError>)
    ensures
        r == Err::<(), ShellError>(ShellError::Unimplemented),
{
    Err(ShellError::Unimplemented)
}

/// Placeholder for the `dand` builtin: reports that it is not provided.
pub fn dand(command: &[&str]) -> (r: Result<(), ShellError>)
    ensures
        r == Err::<(), ShellError>(ShellError::Unimplemented),
{
    Err(ShellError::Unimplemented)
}

/// Placeholder for the `dbracket` builtin: reports that it is not provided.
pub fn dbracket(command: &[&str]) -> (r: Result<(), ShellError>)
    ensures
        r == Err::<(), ShellError>(ShellError::Unimplemented),
{
    Err(ShellError::Unimplemented)
}

/// Placeholder for the `dpipe` builtin: reports that it is not provided.
pub fn dpipe(command: &[&str]) -> (r: Result<(), ShellError>)
    ensures
        r == Err::<(), ShellError>(ShellError::Unimplemented),
{
    Err(ShellError::Unimplemented)
}

/// Placeholder for the `etest` builtin: reports that it is not provided.
pub fn etest(command: &[&str]) -> (r: Result<(), ShellError>)
    ensures
        r == Err::<(), ShellError>(ShellError::Unimplemented),
{
    Err(ShellError::Unimplemented)
}

/// Placeholder for the `obrace` builtin: reports that it is not provided.
pub fn obrace(command: &[&str]) -> (r: Result<(), ShellError>)
    ensures
        r == Err::<(), ShellError>(ShellError::Unimplemented),
{
    Err(ShellError::Unimplemented)
}

/// Placeholder for the `obracket` builtin: reports that it is not provided.
pub fn obracket(command: &[&str]) -> (r: Result<(), ShellError>)
    ensures
        r == Err::<(), ShellError>(ShellError::Unimplemented),
{
    Err(ShellError::Unimplemented)
}

/// Placeholder for the `pipe` builtin: reports that it is not provided.
pub fn pipe(command: &[&str]) -> (r: Result<(), ShellError>)
    ensures
        r == Err::<(), ShellError>(ShellError::Unimplemented),
{
    Err(ShellError::Unimplemented)
}

/// Placeholder for the `test` builtin: reports that it is not provided.
pub fn test(command: &[&str]) -> (r: Result<(), ShellError>)
    ensures
        r == Err::<(), ShellError>(ShellError::Unimplemented),
{
    Err(ShellError::Unimplemented)
}

/// Placeholder for the `dgtsign` builtin: reports that it is not provided.
pub fn dgtsign(command: &[&str]) -> (r: Result<(), ShellError>)
    ensures
        r == Err::<(), ShellError>(ShellError::Unimplemented),
{
    Err(ShellError::Unimplemented)
}

/// Placeholder for the `dltsign` builtin: reports that it is not provided.
pub fn dltsign(command: &[&str]) -> (r: Result<(), ShellError>)
    ensures
        r == Err::<(), ShellError>(ShellError::Unimplemented),
{
    Err(ShellError::Unimplemented)
}

/// Placeholder for the `gtsign` builtin: reports that it is not provided.
pub fn gtsign(command: &[&str]) -> (r: Result<(), ShellError>)
    ensures
        r == Err::<(), ShellError>(ShellError::Unimplemented),
{
    Err(ShellError::Unimplemented)
}

/// Placeholder for the `ltsign` builtin: reports that it is not provided.
pub fn ltsign(command: &[&str]) -> (r: Result<(), ShellError>)
    ensures
        r == Err::<(), ShellError>(ShellError::Unimplemented),
{
    Err(ShellError::Unimplemented)
}

/// Placeholder for the `mapfile` builtin: reports that it is not provided.
pub fn mapfile(command: &[&str]) -> (r: Result<(), ShellError>)
    ensures
        r == Err::<(), ShellError>(ShellError::Unimplemented),
{
    Err(ShellError::Unimplemented)
}

/// Placeholder for the `printf` builtin: reports that it is not provided.
pub fn printf(command: &[&str]) -> (r: Result<(), ShellError>)
    ensures
        r == Err::<(), ShellError>(ShellError::Unimplemented),
{
    Err(ShellError::Unimplemented)
}

/// Placeholder for the `read` builtin: reports that it is not provided.
pub fn read(command: &[&str]) -> (r: Result<(), ShellError>)
    ensures
        r == Err::<(), ShellError>(ShellError::Unimplemented),
{
    Err(ShellError::Unimplemented)
}

/// Placeholder for the `readarray` builtin: reports that it is not provided.
pub fn readarray(command: &[&str]) -> (r: Result<(), ShellError>)
    ensures
        r == Err::<(), ShellError>(ShellError::Unimplemented),
{
    Err(ShellError::Unimplemented)
}

/// Placeholder for the `umask` builtin: reports that it is not provided.
pub fn umask(command: &[&str]) -> (r: Result<(), ShellError>)
    ensures
        r == Err::<(), ShellError>(ShellError::Unimplemented),
{
    Err(ShellError::Unimplemented)
}

/// Placeholder for the `dirs` builtin: reports that it is not provided.
pub fn dirs(command: &[&str]) -> (r: Result<(), ShellError>)
    ensures
        r == Err::<(), ShellError>(ShellError::Unimplemented),
{
    Err(ShellError::Unimplemented)
}

/// Placeholder for the `popd` builtin: reports that it is not provided.
pub fn popd(command: &[&str]) -> (r: Result<(), ShellError>)
    ensures
        r == Err::<(), ShellError>(ShellError::Unimplemented),
{
    Err(ShellError::Unimplemented)
}

/// Placeholder for the `pushd` builtin: reports that it is not provided.
pub fn pushd(command: &[&str]) -> (r: Result<(), ShellError>)
    ensures
        r == Err::<(), ShellError>(ShellError::Unimplemented),
{
    Err(ShellError::Unimplemented)
}

/// Placeholder for the `bi_let` builtin: reports that it is not provided.
pub fn bi_let(command: &[&str]) -> (r: Result<(), ShellError>)
    ensures
        r == Err::<(), ShellError>(ShellError::Unimplemented),
{
    Err(ShellError::Unimplemented)
}

/// Placeholder for the `caller` builtin: reports that it is not provided.
pub fn caller(command: &[&str]) -> (r: Result<(), ShellError>)
    ensures
        r == Err::<(), ShellError>(ShellError::Unimplemented),
{
    Err(ShellError::Unimplemented)
}

/// Placeholder for the `declare` builtin: reports that it is not provided.
pub fn declare(command: &[&str]) -> (r: Result<(), ShellError>)
    ensures
        r == Err::<(), ShellError>(ShellError::Unimplemented),
{
    Err(ShellError::Unimplemented)
}

/// Placeholder for the `dparenthesis` builtin: reports that it is not provided.
pub fn dparenthesis(command: &[&str]) -> (r: Result<(), ShellError>)
    ensures
        r == Err::<(), ShellError>(ShellError::Unimplemented),
{
    Err(ShellError::Unimplemented)
}

/// Placeholder for the `dquote` builtin: reports that it is not provided.
pub fn dquote(command: &[&str]) -> (r: Result<(), ShellError>)
    ensures
        r == Err::<(), ShellError>(ShellError::Unimplemented),
{
    Err(ShellError::Unimplemented)
}

/// Placeholder for the `eval` builtin: reports that it is not provided.
pub fn eval(command: &[&str]) -> (r: Result<(), ShellError>)
    ensures
        r == Err::<(), ShellError>(ShellError::Unimplemented),
{
    Err(ShellError::Unimplemented)
}

/// Placeholder for the `exec` builtin: reports that it is not provided.
pub fn exec(command: &[&str]) -> (r: Result<(), ShellError>)
    ensures
        r == Err::<(), ShellError>(ShellError::Unimplemented),
{
    Err(ShellError::Unimplemented)
}

/// Placeholder for the `export` builtin: reports that it is not provided.
pub fn export(command: &[&str]) -> (r: Result<(), ShellError>)
    ensures
        r == Err::<(), ShellError>(ShellError::Unimplemented),
{
    Err(ShellError::Unimplemented)
}

/// Placeholder for the `getopts` builtin: reports that it is not provided.
pub fn getopts(command: &[&str]) -> (r: Result<(), ShellError>)
    ensures
        r == Err::<(), ShellError>(ShellError::Unimplemented),
{
    Err(ShellError::Unimplemented)
}

/// Placeholder for the `local` builtin: reports that it is not provided.
pub fn local(command: &[&str]) -> (r: Result<(), ShellError>)
    ensures
        r == Err::<(), ShellError>(ShellError::Unimplemented),
{
    Err(ShellError::Unimplemented)
}

/// Placeholder for the `readonly` builtin: reports that it is not provided.
pub fn readonly(command: &[&str]) -> (r: Result<(), ShellError>)
    ensures
        r == Err::<(), ShellError>(ShellError::Unimplemented),
{
    Err(ShellError::Unimplemented)
}

/// Placeholder for the `set` builtin: reports that it is not provided.
pub fn set(command: &[&str]) -> (r: Result<(), ShellError>)
    ensures
        r == Err::<(), ShellError>(ShellError::Unimplemented),
{
    Err(ShellError::Unimplemented)
}

/// Placeholder for the `shift` builtin: reports that it is not provided.
pub fn shift(command: &[&str]) -> (r: Result<(), ShellError>)
    ensures
        r == Err::<(), ShellError>(ShellError::Unimplemented),
{
    Err(ShellError::Unimplemented)
}

/// Placeholder for the `shopt` builtin: reports that it is not provided.
pub fn shopt(command: &[&str]) -> (r: Result<(), ShellError>)
    ensures
        r == Err::<(), ShellError>(ShellError::Unimplemented),
{
    Err(ShellError::Unimplemented)
}

/// Placeholder for the `source` builtin: reports that it is not provided.
pub fn source(command: &[&str]) -> (r: Result<(), ShellError>)
    ensures
        r == Err::<(), ShellError>(ShellError::Unimplemented),
{
    Err(ShellError::Unimplemented)
}

/// Placeholder for the `squote` builtin: reports that it is not provided.
pub fn squote(command: &[&str]) -> (r: Result<(), ShellError>)
    ensures
        r == Err::<(), ShellError>(ShellError::Unimplemented),
{
    Err(ShellError::Unimplemented)
}

/// Placeholder for the `typeset` builtin: reports that it is not provided.
pub fn typeset(command: &[&str]) -> (r: Result<(), ShellError>)
    ensures
        r == Err::<(), ShellError>(ShellError::Unimplemented),
{
    Err(ShellError::Unimplemented)
}

/// Placeholder for the `unset` builtin: reports that it is not provided.
pub fn unset(command: &[&str]) -> (r: Result<(), ShellError>)
    ensures
        r == Err::<(), ShellError>(ShellError::Unimplemented),
{
    Err(ShellError::Unimplemented)
}

/// Placeholder for the `alias` builtin: reports that it is not provided.
pub fn alias(command: &[&str]) -> (r: Result<(), ShellError>)
    ensures
        r == Err::<(), ShellError>(ShellError::Unimplemented),
{
    Err(ShellError::Unimplemented)
}

/// Placeholder for the `backtick` builtin: reports that it is not provided.
pub fn backtick(command: &[&str]) -> (r: Result<(), ShellError>)
    ensures
        r == Err::<(), ShellError>(ShellError::Unimplemented),
{
    Err(ShellError::Unimplemented)
}

/// Placeholder for the `bi_break` builtin: reports that it is not provided.
pub fn bi_break(command: &[&str]) -> (r: Result<(), ShellError>)
    ensures
        r == Err::<(), ShellError>(ShellError::Unimplemented),
{
    Err(ShellError::Unimplemented)
}

/// Placeholder for the `bi_continue` builtin: reports that it is not provided.
pub fn bi_continue(command: &[&str]) -> (r: Result<(), ShellError>)
    ensures
        r == Err::<(), ShellError>(ShellError::Unimplemented),
{
    Err(ShellError::Unimplemented)
}

/// Placeholder for the `bi_false` builtin: reports that it is not provided.
pub fn bi_false(command: &[&str]) -> (r: Result<(), ShellError>)
    ensures
        r == Err::<(), ShellError>(ShellError::Unimplemented),
{
    Err(ShellError::Unimplemented)
}

/// Placeholder for the `bi_for` builtin: reports that it is not provided.
pub fn bi_for(command: &[&str]) -> (r: Result<(), ShellError>)
    ensures
        r == Err::<(), ShellError>(ShellError::Unimplemented),
{
    Err(ShellError::Unimplemented)
}

/// Placeholder for the `bi_return` builtin: reports that it is not provided.
pub fn bi_return(command: &[&str]) -> (r: Result<(), ShellError>)
    ensures
        r == Err::<(), ShellError>(ShellError::Unimplemented),
{
    Err(ShellError::Unimplemented)
}

/// Placeholder for the `bi_true` builtin: reports that it is not provided.
pub fn bi_true(command: &[&str]) -> (r: Result<(), ShellError>)
    ensures
        r == Err::<(), ShellError>(ShellError::Unimplemented),
{
    Err(ShellError::Unimplemented)
}

/// Placeholder for the `bi_type` builtin: reports that it is not provided.
pub fn bi_type(command: &[&str]) -> (r: Result<(), ShellError>)
    ensures
        r == Err::<(), ShellError>(ShellError::Unimplemented),
{
    Err(ShellError::Unimplemented)
}

/// Placeholder for the `bi_while` builtin: reports that it is not provided.
pub fn bi_while(command: &[&str]) -> (r: Result<(), ShellError>)
    ensures
        r == Err::<(), ShellError>(ShellError::Unimplemented),
{
    Err(ShellError::Unimplemented)
}

/// Placeholder for the `bind` builtin: reports that it is not provided.
pub fn bind(command: &[&str]) -> (r: Result<(), ShellError>)
    ensures
        r == Err::<(), ShellError>(ShellError::Unimplemented),
{
    Err(ShellError::Unimplemented)
}

/// Placeholder for the `case` builtin: reports that it is not provided.
pub fn case(command: &[&str]) -> (r: Result<(), ShellError>)
    ensures
        r == Err::<(), ShellError>(ShellError::Unimplemented),
{
    Err(ShellError::Unimplemented)
}

/// Placeholder for the `coproc` builtin: reports that it is not provided.
pub fn coproc(command: &[&str]) -> (r: Result<(), ShellError>)
    ensures
        r == Err::<(), ShellError>(ShellError::Unimplemented),
{
    Err(ShellError::Unimplemented)
}

/// Placeholder for the `expr` builtin: reports that it is not provided.
pub fn expr(command: &[&str]) -> (r: Result<(), ShellError>)
    ensures
        r == Err::<(), ShellError>(ShellError::Unimplemented),
{
    Err(ShellError::Unimplemented)
}

/// Placeholder for the `function` builtin: reports that it is not provided.
pub fn function(command: &[&str]) -> (r: Result<(), ShellError>)
    ensures
        r == Err::<(), ShellError>(ShellError::Unimplemented),
{
    Err(ShellError::Unimplemented)
}

/// Placeholder for the `hash` builtin: reports that it is not provided.
pub fn hash(command: &[&str]) -> (r: Result<(), ShellError>)
    ensures
        r == Err::<(), ShellError>(ShellError::Unimplemented),
{
    Err(ShellError::Unimplemented)
}

/// Placeholder for the `help` builtin: reports that it is not provided.
pub fn help(command: &[&str]) -> (r: Result<(), ShellError>)
    ensures
        r == Err::<(), ShellError>(ShellError::Unimplemented),
{
    Err(ShellError::Unimplemented)
}

/// Placeholder for the `select` builtin: reports that it is not provided.
pub fn select(command: &[&str]) -> (r: Result<(), ShellError>)
    ensures
        r == Err::<(), ShellError>(ShellError::Unimplemented),
{
    Err(ShellError::Unimplemented)
}

/// Placeholder for the `unalias` builtin: reports that it is not provided.
pub fn unalias(command: &[&str]) -> (r: Result<(), ShellError>)
    ensures
        r == Err::<(), ShellError>(ShellError::Unimplemented),
{
    Err(ShellError::Unimplemented)
}

/// Placeholder for the `until` builtin: reports that it is not provided.
pub fn until(command: &[&str]) -> (r: Result<(), ShellError>)
    ensures
        r == Err::<(), ShellError>(ShellError::Unimplemented),
{
    Err(ShellError::Unimplemented)
}

/// Placeholder for the `autoload` builtin: reports that it is not provided.
pub fn autoload(command: &[&str]) -> (r: Result<(), ShellError>)
    ensures
        r == Err::<(), ShellError>(ShellError::Unimplemented),
{
    Err(ShellError::Unimplemented)
}

/// Placeholder for the `bg` builtin: reports that it is not provided.
pub fn bg(command: &[&str]) -> (r: Result<(), ShellError>)
    ensures
        r == Err::<(), ShellError>(ShellError::Unimplemented),
{
    Err(ShellError::Unimplemented)
}

/// Placeholder for the `builtin` builtin: reports that it is not provided.
pub fn builtin(command: &[&str]) -> (r: Result<(), ShellError>)
    ensures
        r == Err::<(), ShellError>(ShellError::Unimplemented),
{
    Err(ShellError::Unimplemented)
}

/// Placeholder for the `command` builtin: reports that it is not provided.
pub fn command(args: &[&str]) -> (r: Result<(), ShellError>)
    ensures
        r == Err::<(), ShellError>(ShellError::Unimplemented),
{
    Err(ShellError::Unimplemented)
}

/// Placeholder for the `disown` builtin: reports that it is not provided.
pub fn disown(command: &[&str]) -> (r: Result<(), ShellError>)
    ensures
        r == Err::<(), ShellError>(ShellError::Unimplemented),
{
    Err(ShellError::Unimplemented)
}

/// Placeholder for the `enable` builtin: reports that it is not provided.
pub fn enable(command: &[&str]) -> (r: Result<(), ShellError>)
    ensures
        r == Err::<(), ShellError>(ShellError::Unimplemented),
{
    Err(ShellError::Unimplemented)
}

/// Placeholder for the `exit` builtin: reports that it is not provided.
pub fn exit(command: &[&str]) -> (r: Result<(), ShellError>)
    ensures
        r == Err::<(), ShellError>(ShellError::Unimplemented),
{
    Err(ShellError::Unimplemented)
}

/// Placeholder for the `fg` builtin: reports that it is not provided.
pub fn fg(command: &[&str]) -> (r: Result<(), ShellError>)
    ensures
        r == Err::<(), ShellError>(ShellError::Unimplemented),
{
    Err(ShellError::Unimplemented)
}

/// Placeholder for the `jobs` builtin: reports that it is not provided.
pub fn jobs(command: &[&str]) -> (r: Result<(), ShellError>)
    ensures
        r == Err::<(), ShellError>(ShellError::Unimplemented),
{
    Err(ShellError::Unimplemented)
}

/// Placeholder for the `job_spec` builtin: reports that it is not provided.
pub fn job_spec(command: &[&str]) -> (r: Result<(), ShellError>)
    ensures
        r == Err::<(), ShellError>(ShellError::Unimplemented),
{
    Err(ShellError::Unimplemented)
}

/// Placeholder for the `kill` builtin: reports that it is not provided.
pub fn kill(command: &[&str]) -> (r: Result<(), ShellError>)
    ensures
        r == Err::<(), ShellError>(ShellError::Unimplemented),
{
    Err(ShellError::Unimplemented)
}

/// Placeholder for the `logout` builtin: reports that it is not provided.
pub fn logout(command: &[&str]) -> (r: Result<(), ShellError>)
    ensures
        r == Err::<(), ShellError>(ShellError::Unimplemented),
{
    Err(ShellError::Unimplemented)
}

/// Placeholder for the `suspend` builtin: reports that it is not provided.
pub fn suspend(command: &[&str]) -> (r: Result<(), ShellError>)
    ensures
        r == Err::<(), ShellError>(ShellError::Unimplemented),
{
    Err(ShellError::Unimplemented)
}

/// Placeholder for the `time` builtin: reports that it is not provided.
pub fn time(command: &[&str]) -> (r: Result<(), ShellError>)
    ensures
        r == Err::<(), ShellError>(ShellError::Unimplemented),
{
    Err(ShellError::Unimplemented)
}

/// Placeholder for the `times` builtin: reports that it is not provided.
pub fn times(command: &[&str]) -> (r: Result<(), ShellError>)
    ensures
        r == Err::<(), ShellError>(ShellError::Unimplemented),
{
    Err(ShellError::Unimplemented)
}

/// Placeholder for the `trap` builtin: reports that it is not provided.
pub fn trap(command: &[&str]) -> (r: Result<(), ShellError>)
    ensures
        r == Err::<(), ShellError>(ShellError::Unimplemented),
{
    Err(ShellError::Unimplemented)
}

/// Placeholder for the `ulimit` builtin: reports that it is not provided.
pub fn ulimit(command: &[&str]) -> (r: Result<(), ShellError>)
    ensures
        r == Err::<(), ShellError>(ShellError::Unimplemented),
{
    Err(ShellError::Unimplemented)
}

/// Placeholder for the `wait` builtin: reports that it is not provided.
pub fn wait(command: &[&str]) -> (r: Result<(), ShellError>)
    ensures
        r == Err::<(), ShellError>(ShellError::Unimplemented),
{
    Err(ShellError::Unimplemented)
}

/// Placeholder for the `compgen` builtin: reports that it is not provided.
pub fn compgen(command: &[&str]) -> (r: Result<(), ShellError>)
    ensures
        r == Err::<(), ShellError>(ShellError::Unimplemented),
{
    Err(ShellError::Unimplemented)
}

/// Placeholder for the `complete` builtin: reports that it is not provided.
pub fn complete(command: &[&str]) -> (r: Result<(), ShellError>)
    ensures
        r == Err::<(), ShellError>(ShellError::Unimplemented),
{
    Err(ShellError::Unimplemented)
}

/// Placeholder for the `compopt` builtin: reports that it is not provided.
pub fn compopt(command: &[&str]) -> (r: Result<(), ShellError>)
    ensures
        r == Err::<(), ShellError>(ShellError::Unimplemented),
{
    Err(ShellError::Unimplemented)
}

/// Placeholder for the `echo` builtin: reports that it is not provided.
pub fn echo(command: &[&str]) -> (r: Result<(), ShellError>)
    ensures
        r == Err::<(), ShellError>(ShellError::Unimplemented),
{
    Err(ShellError::Unimplemented)
}

/// Placeholder for the `killall` builtin: reports that it is not provided.
pub fn killall(command: &[&str]) -> (r: Result<(), ShellError>)
    ensures
        r == Err::<(), ShellError>(ShellError::Unimplemented),
{
    Err(ShellError::Unimplemented)
}

/// Placeholder for the `chown` builtin: reports that it is not provided.
pub fn chown(command: &[&str]) -> (r: Result<(), ShellError>)
    ensures
        r == Err::<(), ShellError>(ShellError::Unimplemented),
{
    Err(ShellError::Unimplemented)
}

/// Placeholder for the `chmod` builtin: reports that it is not provided.
pub fn chmod(command: &[&str]) -> (r: Result<(), ShellError>)
    ensures
        r == Err::<(), ShellError>(ShellError::Unimplemented),
{
    Err(ShellError::Unimplemented)
}

/// Placeholder for the `mkdir` builtin: reports that it is not provided.
pub fn mkdir(command: &[&str]) -> (r: Result<(), ShellError>)
    ensures
        r == Err::<(), ShellError>(ShellError::Unimplemented),
{
    Err(ShellError::Unimplemented)
}

/// Placeholder for the `rmdir` builtin: reports that it is not provided.
pub fn rmdir(command: &[&str]) -> (r: Result<(), ShellError>)
    ensures
        r == Err::<(), ShellError>(ShellError::Unimplemented),
{
    Err(ShellError::Unimplemented)
}

/// Placeholder for the `touch` builtin: reports that it is not provided.
pub fn touch(command: &[&str]) -> (r: Result<(), ShellError>)
    ensures
        r == Err::<(), ShellError>(ShellError::Unimplemented),
{
    Err(ShellError::Unimplemented)
}

/// Placeholder for the `ln` builtin: reports that it is not provided.
pub fn ln(command: &[&str]) -> (r: Result<(), ShellError>)
    ensures
        r == Err::<(), ShellError>(ShellError::Unimplemented),
{
    Err(ShellError::Unimplemented)
}

} // verus!
