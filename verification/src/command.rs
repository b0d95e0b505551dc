//! The command runner's verified half: splitting a command line into a
//! program and its arguments, composing the lines sent to the device,
//! and turning a finished child process's output into a result.
//!
//! Spawning the child process itself is input/output and stays with the
//! caller; it hands back the exit status and the two captured streams.

use vstd::prelude::*;

use crate::bytes::extend_bytes;
use crate::bytes::views_of;
use crate::error::Error;
use crate::lit;
use crate::tokenize::tokenize;
use crate::tokenize::tokens_of;

verus! {

/// The remote listing command for a directory: `adb shell su -c "ls <dir>"`.
pub open spec fn ls_cmd_spec(dir: Seq<u8>) -> Seq<u8> {
    lit::ls_prefix() + dir + seq![34u8]
}

pub fn ls_cmd(dir: &Vec<u8>) -> (r: Vec<u8>)
    ensures
        r@ == ls_cmd_spec(dir@),
{
    let mut v = lit::make_ls_prefix();
    extend_bytes(&mut v, dir);
    v.push(34);
    proof {
        assert(v@ =~= ls_cmd_spec(dir@));
    }
    v
}

/// The staging command: `adb push <file> /sdcard/<base>`.
pub open spec fn push_cmd_spec(file: Seq<u8>, base: Seq<u8>) -> Seq<u8> {
    lit::push_prefix() + file + lit::sdcard_prefix() + base
}

pub fn push_cmd(file: &Vec<u8>, base: &Vec<u8>) -> (r: Vec<u8>)
    ensures
        r@ == push_cmd_spec(file@, base@),
{
    let mut v = lit::make_push_prefix();
    extend_bytes(&mut v, file);
    let sep = lit::make_sdcard_prefix();
    extend_bytes(&mut v, &sep);
    extend_bytes(&mut v, base);
    proof {
        assert(v@ =~= push_cmd_spec(file@, base@));
    }
    v
}

/// The privileged copy command:
/// `adb shell su -c "cp /sdcard/<base> <dest>"`.
pub open spec fn cp_cmd_spec(base: Seq<u8>, dest: Seq<u8>) -> Seq<u8> {
    lit::cp_prefix() + base + seq![32u8] + dest + seq![34u8]
}

pub fn cp_cmd(base: &Vec<u8>, dest: &Vec<u8>) -> (r: Vec<u8>)
    ensures
        r@ == cp_cmd_spec(base@, dest@),
{
    let mut v = lit::make_cp_prefix();
    extend_bytes(&mut v, base);
    v.push(32);
    extend_bytes(&mut v, dest);
    v.push(34);
    proof {
        assert(v@ =~= cp_cmd_spec(base@, dest@));
    }
    v
}

/// The staging clean-up command: `adb shell rm /sdcard/<base>`.
pub open spec fn rm_cmd_spec(base: Seq<u8>) -> Seq<u8> {
    lit::rm_prefix() + base
}

pub fn rm_cmd(base: &Vec<u8>) -> (r: Vec<u8>)
    ensures
        r@ == rm_cmd_spec(base@),
{
    let mut v = lit::make_rm_prefix();
    extend_bytes(&mut v, base);
    v
}

/// Splits a command line into the program and its argument list.
/// Fails with `EmptyCommand` when the line holds no token.
pub fn parse_command(line: &Vec<u8>) -> (r: Result<(Vec<u8>, Vec<Vec<u8>>), Error>)
    ensures
        tokens_of(line@).len() == 0 ==> (r matches Err(e) && e == Error::EmptyCommand),
        tokens_of(line@).len() > 0 ==> (r matches Ok(pa) && pa.0@ == tokens_of(line@)[0]
            && views_of(pa.1@) == tokens_of(line@).subrange(1, tokens_of(line@).len() as int)),
{
    let mut toks = tokenize(line);
    if toks.len() == 0 {
        return Err(Error::EmptyCommand);
    }
    let prog = toks.remove(0);
    proof {
        assert(views_of(toks@) =~= tokens_of(line@).subrange(1, tokens_of(line@).len() as int));
    }
    Ok((prog, toks))
}

/// Turns a finished command's exit status and captured streams into the
/// runner's result: the standard output on success, and on failure
/// `CommandFailed` holding the exit code and both streams joined by a
/// line feed.
pub fn compose_output(success: bool, exit_code: Option<i32>, stdout: Vec<u8>, stderr: Vec<u8>) -> (r:
    Result<Vec<u8>, Error>)
    ensures
        success ==> (r matches Ok(o) && o@ == stdout@),
        !success ==> (r matches Err(e) && e matches Error::CommandFailed {
            exit_code: c,
            output: o,
        } && c == exit_code && o@ == stdout@ + seq![10u8] + stderr@),
{
    if success {
        Ok(stdout)
    } else {
        let ghost out0 = stdout@;
        let mut out = stdout;
        out.push(10);
        extend_bytes(&mut out, &stderr);
        proof {
            assert(out@ =~= out0 + seq![10u8] + stderr@);
        }
        Err(Error::CommandFailed { exit_code, output: out })
    }
}

} // verus!
