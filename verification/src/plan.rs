//! What an installation does to its target, step by step. The library decides
//! on the steps; the program carries them out in order and stops at the first
//! one that fails, those marked as tolerant aside.
use vstd::prelude::*;

use crate::error::DeploytixError;
use crate::text;
use crate::text::{concat, trim, Text};

verus! {

/// One step.
#[derive(Clone)]
#[allow(inconsistent_fields)]
pub enum Step {
    /// Print a line.
    Say(String),
    /// Make a directory and those above it.
    MakeDir(String),
    /// Write a file, and set its permissions where they are given.
    Write { path: String, content: String, mode: Option<u32> },
    /// Make a symbolic link.
    Link { target: String, path: String },
    /// Copy a file.
    Copy { from: String, to: String },
    /// Set the permissions of a file.
    SetMode { path: String, mode: u32 },
    /// Remove a file; go on where that fails.
    Remove(String),
    /// Run a shell command inside the target.
    Chroot { root: String, command: String },
    /// Run a shell command inside the target; go on where it fails.
    TryChroot { root: String, command: String },
    /// Run a program of the host.
    Run { program: String, args: Vec<String> },
    /// Run a program of the host; go on where it fails.
    TryRun { program: String, args: Vec<String> },
    /// Print a line, where the file is there by then.
    SayIf { guard: String, line: String },
    /// Run a shell command inside the target, where the guarding file is there by
    /// then; a failure is reported under the label.
    ChrootAs { root: String, command: String, label: String, guard: Option<String> },
    /// Run a program of the host, where the guarding file is there by then; a
    /// failure is reported under the label.
    RunAs { program: String, args: Vec<String>, label: String, guard: Option<String> },
    /// Run cryptsetup.
    Cryptsetup(Cryptsetup),
    /// Make the directory that holds a path, and those above it.
    MakeParent(String),
    /// Write a file, where the guarding path is there by then.
    WriteIf { guard: String, path: String, content: String },
    /// Look into what packages need before they are installed; go on whatever
    /// comes of it.
    Preflight { root: String, packages: Vec<String> },
    /// Run a pacman command inside the target, recovering from bad signatures.
    Pacman { root: String, command: String },
    /// Add Arch's [extra] repository to the target's pacman.conf, where it is not
    /// there by then.
    AddRepo { root: String },
    /// Make a symbolic link in place of whatever is at its path.
    Relink { target: String, path: String },
    /// Install packages once the user has agreed; whether they did decides on what
    /// follows.
    Review { root: String, title: String, packages: Vec<String> },
    /// Unmount; where that fails, detach lazily, and go on whatever comes of it.
    Unmount(String),
    /// Hand sfdisk a script for a device; where it reports failure, hand fdisk the
    /// other one. Go on whatever comes of it.
    Partition { device: String, script: String, otherwise: String },
}

/// A step as the contracts speak of it.
#[allow(inconsistent_fields)]
pub enum Act {
    Say(Text),
    MakeDir(Text),
    Write { path: Text, content: Text, mode: Option<u32> },
    Link { target: Text, path: Text },
    Copy { from: Text, to: Text },
    SetMode { path: Text, mode: u32 },
    Remove(Text),
    Chroot { root: Text, command: Text },
    TryChroot { root: Text, command: Text },
    Run { program: Text, args: Seq<Text> },
    TryRun { program: Text, args: Seq<Text> },
    SayIf { guard: Text, line: Text },
    ChrootAs { root: Text, command: Text, label: Text, guard: Option<Text> },
    RunAs { program: Text, args: Seq<Text>, label: Text, guard: Option<Text> },
    Cryptsetup(CryptsetupCall),
    MakeParent(Text),
    WriteIf { guard: Text, path: Text, content: Text },
    Preflight { root: Text, packages: Seq<Text> },
    Pacman { root: Text, command: Text },
    AddRepo { root: Text },
    Relink { target: Text, path: Text },
    Review { root: Text, title: Text, packages: Seq<Text> },
    Unmount(Text),
    Partition { device: Text, script: Text, otherwise: Text },
}

/// How much of what a failing cryptsetup printed is reported.
#[derive(Debug, Clone, Copy, PartialEq, Eq, Structural)]
pub enum Quote {
    Nothing,
    Whole,
    Trimmed,
}

/// A call of cryptsetup.
#[derive(Clone)]
pub struct Cryptsetup {
    pub args: Vec<String>,
    /// The line that it reads from its standard input, where it reads one.
    pub secret: Option<String>,
    /// Under which name a failure is reported.
    pub label: String,
    /// What is reported, followed by what it printed as far as that is quoted.
    pub complaint: String,
    pub quote: Quote,
    /// The program waits for the device to appear.
    pub settles: bool,
}

/// A call of cryptsetup as the contracts speak of it.
pub struct CryptsetupCall {
    pub args: Seq<Text>,
    pub secret: Option<Text>,
    pub label: Text,
    pub complaint: Text,
    pub quote: Quote,
    pub settles: bool,
}

impl View for Cryptsetup {
    type V = CryptsetupCall;

    open spec fn view(&self) -> CryptsetupCall {
        CryptsetupCall {
            args: self.args.deep_view(),
            secret: seen(self.secret),
            label: self.label@,
            complaint: self.complaint@,
            quote: self.quote,
            settles: self.settles,
        }
    }
}

/// What is reported of a failing call.
pub open spec fn report_of(call: CryptsetupCall, stderr: Text) -> Text {
    call.complaint + match call.quote {
        Quote::Nothing => ""@,
        Quote::Whole => stderr,
        Quote::Trimmed => text::trimmed(stderr),
    }
}

impl Cryptsetup {
    /// The error of a call that ran and failed.
    pub fn failure(&self, stderr: &str) -> (r: DeploytixError)
        ensures
            r matches DeploytixError::CommandFailed { command, stderr: said } && command@
                == self.label@ && said@ == report_of(self@, stderr@),
    {
        let said = match self.quote {
            Quote::Nothing => concat(self.complaint.as_str(), ""),
            Quote::Whole => concat(self.complaint.as_str(), stderr),
            Quote::Trimmed => concat(self.complaint.as_str(), trim(stderr).as_str()),
        };
        DeploytixError::CommandFailed { command: self.label.clone(), stderr: said }
    }
}

/// An optional text as the contracts speak of it.
pub open spec fn seen(t: Option<String>) -> Option<Text> {
    match t {
        Some(s) => Some(s@),
        None => None,
    }
}

/// A borrowed optional text as the contracts speak of it.
pub open spec fn seen_str(t: Option<&str>) -> Option<Text> {
    match t {
        Some(s) => Some(s@),
        None => None,
    }
}

impl View for Step {
    type V = Act;

    open spec fn view(&self) -> Act {
        match *self {
            Step::Say(l) => Act::Say(l@),
            Step::MakeDir(p) => Act::MakeDir(p@),
            Step::Write { path, content, mode } => Act::Write {
                path: path@,
                content: content@,
                mode,
            },
            Step::Link { target, path } => Act::Link { target: target@, path: path@ },
            Step::Copy { from, to } => Act::Copy { from: from@, to: to@ },
            Step::SetMode { path, mode } => Act::SetMode { path: path@, mode },
            Step::Remove(p) => Act::Remove(p@),
            Step::Chroot { root, command } => Act::Chroot { root: root@, command: command@ },
            Step::TryChroot { root, command } => Act::TryChroot { root: root@, command: command@ },
            Step::Run { program, args } => Act::Run { program: program@, args: args.deep_view() },
            Step::TryRun { program, args } => Act::TryRun {
                program: program@,
                args: args.deep_view(),
            },
            Step::SayIf { guard, line } => Act::SayIf { guard: guard@, line: line@ },
            Step::ChrootAs { root, command, label, guard } => Act::ChrootAs {
                root: root@,
                command: command@,
                label: label@,
                guard: seen(guard),
            },
            Step::RunAs { program, args, label, guard } => Act::RunAs {
                program: program@,
                args: args.deep_view(),
                label: label@,
                guard: seen(guard),
            },
            Step::Cryptsetup(c) => Act::Cryptsetup(c@),
            Step::MakeParent(p) => Act::MakeParent(p@),
            Step::WriteIf { guard, path, content } => Act::WriteIf {
                guard: guard@,
                path: path@,
                content: content@,
            },
            Step::Preflight { root, packages } => Act::Preflight {
                root: root@,
                packages: packages.deep_view(),
            },
            Step::Pacman { root, command } => Act::Pacman { root: root@, command: command@ },
            Step::AddRepo { root } => Act::AddRepo { root: root@ },
            Step::Relink { target, path } => Act::Relink { target: target@, path: path@ },
            Step::Review { root, title, packages } => Act::Review {
                root: root@,
                title: title@,
                packages: packages.deep_view(),
            },
            Step::Unmount(p) => Act::Unmount(p@),
            Step::Partition { device, script, otherwise } => Act::Partition {
                device: device@,
                script: script@,
                otherwise: otherwise@,
            },
        }
    }
}

/// A list of steps as the contracts speak of it.
pub open spec fn acts(v: Seq<Step>) -> Seq<Act> {
    Seq::new(v.len(), |i: int| v[i]@)
}

/// A line to print, or a command, which a dry run prints as well.
pub open spec fn harmless_act(a: Act) -> bool {
    a is Say || a is SayIf || a is Chroot || a is TryChroot || a is ChrootAs || a is Run
        || a is TryRun || a is RunAs
}

/// Nothing but lines to print and commands.
pub open spec fn harmless(v: Seq<Act>) -> bool {
    forall|i: int| 0 <= i < v.len() ==> harmless_act(#[trigger] v[i])
}

/// Appends a step.
pub fn add_step(plan: &mut Vec<Step>, step: Step)
    ensures
        acts(final(plan)@) == acts(old(plan)@).push(step@),
{
    plan.push(step);
    assert(acts(plan@) =~= acts(old(plan)@).push(step@));
}

pub fn say(plan: &mut Vec<Step>, line: &str)
    ensures
        acts(final(plan)@) == acts(old(plan)@).push(Act::Say(line@)),
{
    add_step(plan, Step::Say(line.to_owned()));
}

pub fn make_dir(plan: &mut Vec<Step>, path: &str)
    ensures
        acts(final(plan)@) == acts(old(plan)@).push(Act::MakeDir(path@)),
{
    add_step(plan, Step::MakeDir(path.to_owned()));
}

pub fn write_file(plan: &mut Vec<Step>, path: &str, content: &str, mode: Option<u32>)
    ensures
        acts(final(plan)@) == acts(old(plan)@).push(
            (Act::Write { path: path@, content: content@, mode }),
        ),
{
    add_step(plan, Step::Write { path: path.to_owned(), content: content.to_owned(), mode });
}

pub fn link(plan: &mut Vec<Step>, target: &str, path: &str)
    ensures
        acts(final(plan)@) == acts(old(plan)@).push((Act::Link { target: target@, path: path@ })),
{
    add_step(plan, Step::Link { target: target.to_owned(), path: path.to_owned() });
}

pub fn copy_file(plan: &mut Vec<Step>, from: &str, to: &str)
    ensures
        acts(final(plan)@) == acts(old(plan)@).push((Act::Copy { from: from@, to: to@ })),
{
    add_step(plan, Step::Copy { from: from.to_owned(), to: to.to_owned() });
}

pub fn set_mode(plan: &mut Vec<Step>, path: &str, mode: u32)
    ensures
        acts(final(plan)@) == acts(old(plan)@).push((Act::SetMode { path: path@, mode })),
{
    add_step(plan, Step::SetMode { path: path.to_owned(), mode });
}

pub fn remove(plan: &mut Vec<Step>, path: &str)
    ensures
        acts(final(plan)@) == acts(old(plan)@).push(Act::Remove(path@)),
{
    add_step(plan, Step::Remove(path.to_owned()));
}

pub fn chroot(plan: &mut Vec<Step>, root: &str, command: &str)
    ensures
        acts(final(plan)@) == acts(old(plan)@).push(
            (Act::Chroot { root: root@, command: command@ }),
        ),
{
    add_step(plan, Step::Chroot { root: root.to_owned(), command: command.to_owned() });
}

pub fn try_chroot(plan: &mut Vec<Step>, root: &str, command: &str)
    ensures
        acts(final(plan)@) == acts(old(plan)@).push(
            (Act::TryChroot { root: root@, command: command@ }),
        ),
{
    add_step(plan, Step::TryChroot { root: root.to_owned(), command: command.to_owned() });
}

pub fn run(plan: &mut Vec<Step>, program: &str, args: Vec<String>)
    ensures
        acts(final(plan)@) == acts(old(plan)@).push(
            (Act::Run { program: program@, args: args.deep_view() }),
        ),
{
    add_step(plan, Step::Run { program: program.to_owned(), args });
}

pub fn try_run(plan: &mut Vec<Step>, program: &str, args: Vec<String>)
    ensures
        acts(final(plan)@) == acts(old(plan)@).push(
            (Act::TryRun { program: program@, args: args.deep_view() }),
        ),
{
    add_step(plan, Step::TryRun { program: program.to_owned(), args });
}

pub fn cryptsetup(plan: &mut Vec<Step>, call: Cryptsetup)
    ensures
        acts(final(plan)@) == acts(old(plan)@).push(Act::Cryptsetup(call@)),
{
    add_step(plan, Step::Cryptsetup(call));
}

pub fn make_parent(plan: &mut Vec<Step>, path: &str)
    ensures
        acts(final(plan)@) == acts(old(plan)@).push(Act::MakeParent(path@)),
{
    add_step(plan, Step::MakeParent(path.to_owned()));
}

pub fn chroot_as(plan: &mut Vec<Step>, root: &str, command: &str, label: &str)
    ensures
        acts(final(plan)@) == acts(old(plan)@).push(
            (Act::ChrootAs { root: root@, command: command@, label: label@, guard: None }),
        ),
{
    add_step(
        plan,
        Step::ChrootAs {
            root: root.to_owned(),
            command: command.to_owned(),
            label: label.to_owned(),
            guard: None,
        },
    );
}

pub fn write_if(plan: &mut Vec<Step>, guard: &str, path: &str, content: &str)
    ensures
        acts(final(plan)@) == acts(old(plan)@).push(
            (Act::WriteIf { guard: guard@, path: path@, content: content@ }),
        ),
{
    add_step(
        plan,
        Step::WriteIf {
            guard: guard.to_owned(),
            path: path.to_owned(),
            content: content.to_owned(),
        },
    );
}

pub fn preflight(plan: &mut Vec<Step>, root: &str, packages: Vec<String>)
    ensures
        acts(final(plan)@) == acts(old(plan)@).push(
            (Act::Preflight { root: root@, packages: packages.deep_view() }),
        ),
{
    add_step(plan, Step::Preflight { root: root.to_owned(), packages });
}

pub fn pacman(plan: &mut Vec<Step>, root: &str, command: &str)
    ensures
        acts(final(plan)@) == acts(old(plan)@).push(
            (Act::Pacman { root: root@, command: command@ }),
        ),
{
    add_step(plan, Step::Pacman { root: root.to_owned(), command: command.to_owned() });
}

pub fn add_repo(plan: &mut Vec<Step>, root: &str)
    ensures
        acts(final(plan)@) == acts(old(plan)@).push((Act::AddRepo { root: root@ })),
{
    add_step(plan, Step::AddRepo { root: root.to_owned() });
}

pub fn relink(plan: &mut Vec<Step>, target: &str, path: &str)
    ensures
        acts(final(plan)@) == acts(old(plan)@).push((Act::Relink { target: target@, path: path@ })),
{
    add_step(plan, Step::Relink { target: target.to_owned(), path: path.to_owned() });
}

pub fn review(plan: &mut Vec<Step>, root: &str, title: &str, packages: Vec<String>)
    ensures
        acts(final(plan)@) == acts(old(plan)@).push(
            (Act::Review { root: root@, title: title@, packages: packages.deep_view() }),
        ),
{
    add_step(
        plan,
        Step::Review { root: root.to_owned(), title: title.to_owned(), packages },
    );
}

/// Appends the steps of another plan.
pub fn extend(plan: &mut Vec<Step>, mut more: Vec<Step>)
    ensures
        acts(final(plan)@) == acts(old(plan)@) + acts(more@),
{
    let ghost a = acts(plan@);
    let ghost b = acts(more@);
    plan.append(&mut more);
    assert(acts(plan@) =~= a + b);
}

} // verus!
