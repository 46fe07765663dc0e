use vstd::prelude::*;

use crate::command::{Command, LaunchError};
use crate::strutil::{extend_strings, strings_view};

verus! {

/// How to start the running program again, without elevation.
pub struct RestartPlan {
    /// The path of the running executable.
    pub program: String,
    /// The arguments of the new process.
    pub args: Vec<String>,
    /// Detach the new process from the caller's session and streams.
    pub detach: bool,
    /// Wait for the new process to exit.
    pub wait_to_complete: bool,
}

/// How to start the running program again, possibly elevated.
pub enum ElevatedRestart {
    /// The process is already elevated: restart it directly.
    Direct(RestartPlan),
    /// Run this configuration through the elevation strategy.
    Elevate(Command),
}

/// The executable's path is known.
pub open spec fn resolved(current_exe: Option<String>) -> bool {
    current_exe matches Some(p) && p@.len() > 0
}

/// The views of the extra arguments; none when there are none.
pub open spec fn extra_view(extra: Option<Vec<String>>) -> Seq<Seq<char>> {
    match extra {
        Some(v) => strings_view(v@),
        None => Seq::empty(),
    }
}

/// The new process's arguments: the running process's own, without the
/// program-name slot, followed by the extra ones.
pub open spec fn restart_args(process_args: Seq<Seq<char>>, extra: Option<Vec<String>>) -> Seq<
    Seq<char>,
> {
    (if process_args.len() > 0 {
        process_args.drop_first()
    } else {
        process_args
    }) + extra_view(extra)
}

/// Appends the process's own arguments, without the program-name slot,
/// then the extra ones.
fn push_restart_args(dst: &mut Vec<String>, process_args: &Vec<String>, extra: &Option<Vec<String>>)
    ensures
        strings_view(final(dst)@) == strings_view(old(dst)@) + restart_args(
            strings_view(process_args@),
            *extra,
        ),
{
    let ghost start = strings_view(dst@);
    let ghost pv = strings_view(process_args@);
    if process_args.len() > 0 {
        let mut i: usize = 1;
        while i < process_args.len()
            invariant
                1 <= i <= process_args.len(),
                pv == strings_view(process_args@),
                strings_view(dst@) == start + pv.subrange(1, i as int),
            decreases process_args.len() - i,
        {
            let s = process_args[i].clone();
            let ghost prev = dst@;
            dst.push(s);
            proof {
                assert(strings_view(dst@) =~= strings_view(prev).push(s@));
                assert(pv.subrange(1, i as int + 1) =~= pv.subrange(1, i as int).push(
                    pv[i as int],
                ));
            }
            i = i + 1;
        }
        proof {
            assert(pv.subrange(1, pv.len() as int) =~= pv.drop_first());
        }
    } else {
        proof {
            assert(start + pv =~= start);
        }
    }
    match extra {
        Some(e) => {
            extend_strings(dst, e);
        },
        None => {},
    }
    proof {
        assert(strings_view(dst@) =~= start + restart_args(pv, *extra));
    }
}

/// Plans restarting the running program, given the path of its executable
/// (`None` when it could not be determined) and its own arguments, program
/// name first.
pub fn restart_self(
    current_exe: Option<String>,
    process_args: &Vec<String>,
    extra: Option<Vec<String>>,
    wait_to_complete: bool,
) -> (r: Result<RestartPlan, LaunchError>)
    ensures
        !resolved(current_exe) <==> r == Err::<RestartPlan, LaunchError>(
            LaunchError::PathResolutionFailed,
        ),
        resolved(current_exe) ==> r is Ok,
        r matches Ok(p) ==> current_exe matches Some(e) && p.program@ == e@ && strings_view(p.args@)
            == restart_args(strings_view(process_args@), extra) && p.detach == !wait_to_complete
            && p.wait_to_complete == wait_to_complete,
{
    match current_exe {
        Some(program) => {
            if program.unicode_len() == 0 {
                return Err(LaunchError::PathResolutionFailed);
            }
            let mut args: Vec<String> = Vec::new();
            push_restart_args(&mut args, process_args, &extra);
            proof {
                assert(strings_view(Seq::<String>::empty()) =~= Seq::<Seq<char>>::empty());
                assert(Seq::<Seq<char>>::empty() + restart_args(strings_view(process_args@), extra)
                    =~= restart_args(strings_view(process_args@), extra));
            }
            Ok(RestartPlan { program, args, detach: !wait_to_complete, wait_to_complete })
        },
        None => Err(LaunchError::PathResolutionFailed),
    }
}

/// The configuration through which the running program is restarted
/// elevated.
pub open spec fn elevated_config_fits(
    c: Command,
    exe: Seq<char>,
    process_args: Seq<Seq<char>>,
    extra: Option<Vec<String>>,
    gui: bool,
    wait_to_complete: bool,
    elevation_timeout: Option<u64>,
) -> bool {
    c.command@ == exe && c.view_args() == restart_args(process_args, extra) && c.gui == gui
        && c.wait_to_complete == wait_to_complete && !c.force_prompt && !c.hidden
        && c.elevation_timeout == elevation_timeout
}

/// Plans restarting the running program with elevated privileges: directly
/// when `elevated` says the process already is, else through a configuration
/// for the elevation strategy.
pub fn restart_self_elevated(
    elevated: bool,
    current_exe: Option<String>,
    process_args: &Vec<String>,
    extra: Option<Vec<String>>,
    gui: bool,
    wait_to_complete: bool,
    elevation_timeout: Option<u64>,
) -> (r: Result<ElevatedRestart, LaunchError>)
    ensures
        !resolved(current_exe) <==> r == Err::<ElevatedRestart, LaunchError>(
            LaunchError::PathResolutionFailed,
        ),
        resolved(current_exe) ==> r is Ok,
        r matches Ok(x) ==> current_exe matches Some(e) && match x {
            ElevatedRestart::Direct(p) => elevated && p.program@ == e@ && strings_view(p.args@)
                == restart_args(strings_view(process_args@), extra) && p.detach == !wait_to_complete
                && p.wait_to_complete == wait_to_complete,
            ElevatedRestart::Elevate(c) => !elevated && c.wf() && elevated_config_fits(
                c,
                e@,
                strings_view(process_args@),
                extra,
                gui,
                wait_to_complete,
                elevation_timeout,
            ),
        },
{
    if elevated {
        return match restart_self(current_exe, process_args, extra, wait_to_complete) {
            Ok(p) => Ok(ElevatedRestart::Direct(p)),
            Err(e) => Err(e),
        };
    }
    match current_exe {
        Some(program) => {
            if program.unicode_len() == 0 {
                return Err(LaunchError::PathResolutionFailed);
            }
            let mut c = Command::new(program.as_str()).gui(gui).wait_to_complete(
                wait_to_complete,
            ).elevation_timeout(elevation_timeout);
            let ghost before = c.view_args();
            push_restart_args(&mut c.args, process_args, &extra);
            proof {
                assert(before =~= Seq::<Seq<char>>::empty());
                assert(c.view_args() =~= restart_args(strings_view(process_args@), extra));
            }
            Ok(ElevatedRestart::Elevate(c))
        },
        None => Err(LaunchError::PathResolutionFailed),
    }
}

} // verus!
