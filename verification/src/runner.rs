//! Invocation planning for the patcher process.
//!
//! A patch run is a subprocess invocation of the materialized patcher
//! executable. This module builds the exact command to run — program path and
//! argument list — for a whole-file patch, and the complete plan for an
//! offset patch: the slice's bytes, the temporary file name and path under
//! which the slice must be written, and the command that consumes it. The
//! embedding application spawns the command, drains its two output streams
//! (stdout through `classify`, stderr unconditionally at warning severity),
//! waits, maps the exit condition through `exit_outcome`, and deletes the
//! slice file unconditionally afterward.

use vstd::prelude::*;

use crate::classify::classify;
use crate::classify::classify_spec;
use crate::LogLevel;
use crate::PatchError;
use crate::slicing::slice_bytes;
use crate::slicing::slice_spec;
use crate::slicing::sliced_diff_file_name;
use crate::slicing::sliced_name_spec;
use crate::slicing::joined_path;

verus! {

/// Which bundled patcher payload and default behavior to use.
#[derive(Clone, Copy, PartialEq, Eq, Structural, Debug)]
pub enum HPatchzType {
    Hoyo,
    Kuro,
}

/// Which output stream of the child process a line arrived on.
#[derive(Clone, Copy, PartialEq, Eq, Structural, Debug)]
pub enum StreamSource {
    Stdout,
    Stderr,
}

/// The drain rule for one line of child output: a stdout line (already
/// trimmed) goes through the classifier and is surfaced only if allow-listed;
/// a stderr line is surfaced unconditionally at warning severity, unfiltered.
pub fn drain_decision(source: StreamSource, line: &str) -> (r: Option<LogLevel>)
    ensures
        source == StreamSource::Stdout ==> r == classify_spec(line@),
        source == StreamSource::Stderr ==> r == Some(LogLevel::Warn),
{
    match source {
        StreamSource::Stdout => classify(line),
        StreamSource::Stderr => Some(LogLevel::Warn),
    }
}

/// A runnable patcher: its variant, the path of the materialized executable,
/// and extra invocation arguments appended verbatim after the mandatory ones.
pub struct HPatchz {
    pub e_type: HPatchzType,
    pub extracted_path: String,
    pub custom_args: Vec<String>,
}

/// A fully built subprocess invocation: the program to spawn and its argument
/// list, in order.
pub struct PatchCommand {
    pub program: String,
    pub args: Vec<String>,
}

/// Everything an offset patch needs: the slice's bytes, the temporary file
/// name and full path under which the caller writes them, and the command
/// that consumes the slice. The caller deletes the slice file after the
/// invocation completes, whatever its outcome.
pub struct OffsetPatchPlan {
    pub sliced_file_name: String,
    pub sliced_path: String,
    pub sliced_bytes: Vec<u8>,
    pub command: PatchCommand,
}

impl HPatchz {
    /// A handle over an already materialized executable.
    pub fn new(e_type: HPatchzType, extracted_path: String, custom_args: Vec<String>) -> (h: Self)
        ensures
            h.e_type == e_type,
            h.extracted_path == extracted_path,
            h.custom_args == custom_args,
    {
        HPatchz { e_type, extracted_path, custom_args }
    }

    /// The patcher's argument list: source, diff and destination in that
    /// fixed positional order, the force-overwrite flag, then the handle's
    /// extra arguments verbatim.
    pub open spec fn args_model(self, src: Seq<char>, dest: Seq<char>, diff: Seq<char>) -> Seq<
        Seq<char>,
    > {
        seq![src, diff, dest, "-f"@] + self.custom_args.deep_view()
    }

    /// Builds the whole-file patch invocation: the materialized executable,
    /// run with `[source, diff, destination, "-f", ...extra arguments]`.
    pub fn patch(&self, src_path: &str, dest_path: &str, diff_file: &str) -> (cmd: PatchCommand)
        ensures
            cmd.program@ == self.extracted_path@,
            cmd.args.deep_view() == self.args_model(src_path@, dest_path@, diff_file@),
    {
        let mut args: Vec<String> = Vec::new();
        args.push(src_path.to_owned());
        args.push(diff_file.to_owned());
        args.push(dest_path.to_owned());
        args.push("-f".to_owned());
        let mut k: usize = 0;
        while k < self.custom_args.len()
            invariant
                0 <= k <= self.custom_args.len(),
                args@.len() == 4 + k,
                args@[0]@ == src_path@,
                args@[1]@ == diff_file@,
                args@[2]@ == dest_path@,
                args@[3]@ == "-f"@,
                forall|j: int| 0 <= j < k ==> args@[4 + j] == self.custom_args@[j],
            decreases self.custom_args.len() - k,
        {
            args.push(self.custom_args[k].clone());
            k += 1;
        }
        proof {
            let model = self.args_model(src_path@, dest_path@, diff_file@);
            assert forall|i: int| 0 <= i < args@.len() implies args.deep_view()[i] == model[i] by {
                if i >= 4 {
                    assert(args@[i] == self.custom_args@[i - 4]);
                    assert(model[i] == self.custom_args.deep_view()[i - 4]);
                }
            }
            assert(args.deep_view() =~= model);
        }
        PatchCommand { program: self.extracted_path.clone(), args }
    }

    /// The whole-file patch invocation, built from plain string paths.
    pub fn patch_legacy(&self, src: &str, dest: &str, diff: &str) -> (cmd: PatchCommand)
        ensures
            cmd.program@ == self.extracted_path@,
            cmd.args.deep_view() == self.args_model(src@, dest@, diff@),
    {
        self.patch(src, dest, diff)
    }

    /// Builds the complete plan for patching against a byte range of a
    /// combined diff file: the slice's bytes (the requested range, truncated
    /// at the end of the file), its deterministic temporary file name inside
    /// the destination directory, and the invocation that uses the slice as
    /// its diff. An offset beyond the end of the file is an I/O error.
    pub fn patch_offset(
        &self,
        src_path: &str,
        dest_path: &str,
        diff_file_name: &str,
        diff_data: &Vec<u8>,
        start_offset: u64,
        patch_size: u64,
    ) -> (r: Result<OffsetPatchPlan, PatchError>)
        ensures
            match r {
                Ok(plan) => start_offset as nat <= diff_data@.len() && plan.sliced_bytes@
                    == slice_spec(diff_data@, start_offset as nat, patch_size as nat)
                    && plan.sliced_file_name@ == sliced_name_spec(
                    diff_file_name@,
                    start_offset as nat,
                    patch_size as nat,
                ) && plan.sliced_path@ == dest_path@ + "/"@ + plan.sliced_file_name@
                    && plan.command.program@ == self.extracted_path@
                    && plan.command.args.deep_view() == self.args_model(
                    src_path@,
                    dest_path@,
                    plan.sliced_path@,
                ),
                Err(e) => start_offset as nat > diff_data@.len() && e == PatchError::Io,
            },
    {
        let sliced_bytes = match slice_bytes(diff_data, start_offset, patch_size) {
            Ok(bytes) => bytes,
            Err(e) => {
                return Err(e);
            },
        };
        let sliced_file_name = sliced_diff_file_name(diff_file_name, start_offset, patch_size);
        let sliced_path = joined_path(dest_path, sliced_file_name.as_str());
        let command = self.patch(src_path, dest_path, sliced_path.as_str());
        Ok(
            OffsetPatchPlan {
                sliced_file_name,
                sliced_path,
                sliced_bytes,
                command,
            },
        )
    }
}

} // verus!
