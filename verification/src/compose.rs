//! The `docker compose` command lines that start, stop and inspect the
//! containers of a network. The commands are built here; running them is the
//! caller's part.

use vstd::prelude::*;
use vstd::string::StringExecFns;
use crate::text::{decimal, decimal_text, trim, trimmed};

verus! {

/// One invocation of `docker`.
pub struct DockerCommand {
    /// The directory to run it in.
    pub dir: String,
    /// The arguments behind the program's name.
    pub args: Vec<String>,
}

/// What a `DockerCommand` holds, as plain values.
pub struct DockerCommandView {
    pub dir: Seq<char>,
    pub args: Seq<Seq<char>>,
}

impl View for DockerCommand {
    type V = DockerCommandView;

    open spec fn view(&self) -> DockerCommandView {
        DockerCommandView { dir: self.dir@, args: self.args.deep_view() }
    }
}

/// What `up_with_profile` asks for: an optional build, then the start.
pub struct ProfileStart {
    pub build: Option<DockerCommand>,
    pub start: DockerCommand,
}

fn push_arg(args: &mut Vec<String>, arg: &str)
    ensures
        final(args).deep_view() == old(args).deep_view().push(arg@),
{
    args.push(String::from_str(arg));
    assert(args.deep_view() =~= old(args).deep_view().push(arg@));
}

fn push_args(args: &mut Vec<String>, more: &Vec<String>)
    ensures
        final(args).deep_view() == old(args).deep_view() + more.deep_view(),
{
    let mut i: usize = 0;
    assert(args.deep_view() =~= old(args).deep_view() + more.deep_view().take(0));
    while i < more.len()
        invariant
            i <= more.len(),
            args.deep_view() == old(args).deep_view() + more.deep_view().take(i as int),
        decreases more.len() - i,
    {
        let ghost before = args.deep_view();
        push_arg(args, more[i].as_str());
        assert(more.deep_view().take(i + 1) =~= more.deep_view().take(i as int).push(more[i as int]@));
        assert(before.push(more[i as int]@) =~= old(args).deep_view() + more.deep_view().take(
            i + 1,
        ));
        i += 1;
    }
    assert(more.deep_view().take(more.len() as int) =~= more.deep_view());
}

/// The compose project of a network, by the directory that holds it.
#[derive(Clone)]
pub struct DockerCompose {
    project_dir: String,
}

impl View for DockerCompose {
    type V = Seq<char>;

    /// The project directory.
    closed spec fn view(&self) -> Seq<char> {
        self.project_dir@
    }
}

impl DockerCompose {
    /// The project in `project_dir`.
    pub fn new(project_dir: &str) -> (compose: Self)
        ensures
            compose@ == project_dir@,
    {
        DockerCompose { project_dir: String::from_str(project_dir) }
    }

    pub fn project_dir(&self) -> (dir: &str)
        ensures
            dir@ == self@,
    {
        self.project_dir.as_str()
    }

    fn command(&self, args: Vec<String>) -> (command: DockerCommand)
        ensures
            command@ == (DockerCommandView { dir: self@, args: args.deep_view() }),
    {
        DockerCommand { dir: self.project_dir.clone(), args }
    }

    /// Starts the named services in the background.
    pub fn up(&self, services: &Vec<String>) -> (command: DockerCommand)
        ensures
            command@.dir == self@,
            command@.args == seq!["compose"@, "up"@, "-d"@] + services.deep_view(),
    {
        let mut args: Vec<String> = Vec::new();
        assert(args.deep_view() =~= Seq::<Seq<char>>::empty());
        push_arg(&mut args, "compose");
        push_arg(&mut args, "up");
        push_arg(&mut args, "-d");
        assert(args.deep_view() =~= seq!["compose"@, "up"@, "-d"@]);
        push_args(&mut args, services);
        self.command(args)
    }

    /// Lists the images that the services of a profile run.
    pub fn images(&self, profile: &str) -> (command: DockerCommand)
        ensures
            command@.dir == self@,
            command@.args == seq!["compose"@, "--profile"@, profile@, "config"@, "--images"@],
    {
        let mut args: Vec<String> = Vec::new();
        assert(args.deep_view() =~= Seq::<Seq<char>>::empty());
        push_arg(&mut args, "compose");
        push_arg(&mut args, "--profile");
        push_arg(&mut args, profile);
        push_arg(&mut args, "config");
        push_arg(&mut args, "--images");
        assert(args.deep_view() =~= seq![
            "compose"@,
            "--profile"@,
            profile@,
            "config"@,
            "--images"@,
        ]);
        self.command(args)
    }

    /// Asks whether the image named on one line of the image list is there.
    pub fn inspect_image(&self, line: &str) -> (command: DockerCommand)
        ensures
            command@.dir == self@,
            command@.args == seq!["image"@, "inspect"@, trimmed(line@)],
    {
        let mut args: Vec<String> = Vec::new();
        assert(args.deep_view() =~= Seq::<Seq<char>>::empty());
        push_arg(&mut args, "image");
        push_arg(&mut args, "inspect");
        let image = trim(line);
        push_arg(&mut args, image.as_str());
        assert(args.deep_view() =~= seq!["image"@, "inspect"@, trimmed(line@)]);
        self.command(args)
    }

    /// Whether every image of a profile is there. `listed` says whether the
    /// image list could be had, and `found` how the inspection of each
    /// listed image went.
    pub fn images_exist(&self, listed: bool, found: &Vec<bool>) -> (all: bool)
        ensures
            all == (listed && forall|i: int| 0 <= i < found@.len() ==> found@[i]),
    {
        if !listed {
            return false;
        }
        let mut i: usize = 0;
        while i < found.len()
            invariant
                i <= found@.len(),
                forall|j: int| 0 <= j < i ==> found@[j],
            decreases found@.len() - i,
        {
            if !found[i] {
                return false;
            }
            i += 1;
        }
        true
    }

    /// Starts the services of a profile. The images are built first if that
    /// is forced or if they are not all there.
    pub fn up_with_profile(&self, profile: &str, force_build: bool, images_exist: bool) -> (plan:
        ProfileStart)
        ensures
            plan.build is Some <==> force_build || !images_exist,
            plan.build matches Some(build) ==> build@ == (DockerCommandView {
                dir: self@,
                args: seq!["compose"@, "--profile"@, profile@, "build"@],
            }),
            plan.start@ == (DockerCommandView {
                dir: self@,
                args: seq!["compose"@, "--profile"@, profile@, "up"@, "-d"@],
            }),
    {
        let build = if force_build || !images_exist {
            let mut args: Vec<String> = Vec::new();
            assert(args.deep_view() =~= Seq::<Seq<char>>::empty());
            push_arg(&mut args, "compose");
            push_arg(&mut args, "--profile");
            push_arg(&mut args, profile);
            push_arg(&mut args, "build");
            assert(args.deep_view() =~= seq!["compose"@, "--profile"@, profile@, "build"@]);
            Some(self.command(args))
        } else {
            None
        };
        let mut args: Vec<String> = Vec::new();
        assert(args.deep_view() =~= Seq::<Seq<char>>::empty());
        push_arg(&mut args, "compose");
        push_arg(&mut args, "--profile");
        push_arg(&mut args, profile);
        push_arg(&mut args, "up");
        push_arg(&mut args, "-d");
        assert(args.deep_view() =~= seq!["compose"@, "--profile"@, profile@, "up"@, "-d"@]);
        ProfileStart { build, start: self.command(args) }
    }

    /// Stops the network; with `volumes`, its data goes too.
    pub fn down(&self, volumes: bool) -> (command: DockerCommand)
        ensures
            command@.dir == self@,
            command@.args == if volumes {
                seq!["compose"@, "down"@, "-v"@]
            } else {
                seq!["compose"@, "down"@]
            },
    {
        let mut args: Vec<String> = Vec::new();
        assert(args.deep_view() =~= Seq::<Seq<char>>::empty());
        push_arg(&mut args, "compose");
        push_arg(&mut args, "down");
        assert(args.deep_view() =~= seq!["compose"@, "down"@]);
        if volumes {
            push_arg(&mut args, "-v");
            assert(args.deep_view() =~= seq!["compose"@, "down"@, "-v"@]);
        }
        self.command(args)
    }

    /// Lists the containers as a table.
    pub fn ps(&self) -> (command: DockerCommand)
        ensures
            command@.dir == self@,
            command@.args == seq!["compose"@, "ps"@, "--format"@, "table"@],
    {
        let mut args: Vec<String> = Vec::new();
        assert(args.deep_view() =~= Seq::<Seq<char>>::empty());
        push_arg(&mut args, "compose");
        push_arg(&mut args, "ps");
        push_arg(&mut args, "--format");
        push_arg(&mut args, "table");
        assert(args.deep_view() =~= seq!["compose"@, "ps"@, "--format"@, "table"@]);
        self.command(args)
    }

    /// Shows the last `tail` lines of a service's log.
    pub fn logs(&self, service: &str, tail: usize) -> (command: DockerCommand)
        ensures
            command@.dir == self@,
            command@.args == seq![
                "compose"@,
                "logs"@,
                "--tail"@,
                decimal_text(tail as nat),
                service@,
            ],
    {
        let mut args: Vec<String> = Vec::new();
        assert(args.deep_view() =~= Seq::<Seq<char>>::empty());
        push_arg(&mut args, "compose");
        push_arg(&mut args, "logs");
        push_arg(&mut args, "--tail");
        let count = decimal(tail as u64);
        push_arg(&mut args, count.as_str());
        push_arg(&mut args, service);
        assert(args.deep_view() =~= seq![
            "compose"@,
            "logs"@,
            "--tail"@,
            decimal_text(tail as nat),
            service@,
        ]);
        self.command(args)
    }

    /// Runs a command in the container of a service, without a terminal.
    pub fn exec(&self, service: &str, command: &Vec<String>) -> (invocation: DockerCommand)
        ensures
            invocation@.dir == self@,
            invocation@.args == seq!["compose"@, "exec"@, "-T"@, service@] + command.deep_view(),
    {
        let mut args: Vec<String> = Vec::new();
        assert(args.deep_view() =~= Seq::<Seq<char>>::empty());
        push_arg(&mut args, "compose");
        push_arg(&mut args, "exec");
        push_arg(&mut args, "-T");
        push_arg(&mut args, service);
        assert(args.deep_view() =~= seq!["compose"@, "exec"@, "-T"@, service@]);
        push_args(&mut args, command);
        self.command(args)
    }

    /// Lists the ids of the running containers; the network is running
    /// exactly when the list is not empty.
    pub fn is_running(&self) -> (command: DockerCommand)
        ensures
            command@.dir == self@,
            command@.args == seq!["compose"@, "ps"@, "-q"@],
    {
        let mut args: Vec<String> = Vec::new();
        assert(args.deep_view() =~= Seq::<Seq<char>>::empty());
        push_arg(&mut args, "compose");
        push_arg(&mut args, "ps");
        push_arg(&mut args, "-q");
        assert(args.deep_view() =~= seq!["compose"@, "ps"@, "-q"@]);
        self.command(args)
    }
}

} // verus!
