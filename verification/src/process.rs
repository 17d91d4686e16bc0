//! The description of a child process to start: its program, arguments and
//! standard streams.

use vstd::prelude::*;

verus! {

/// What a standard stream of a child process is connected to.
#[derive(Debug, Clone, Copy, PartialEq, Eq, Structural)]
pub enum ProcessStdio {
    Inherit,
    Null,
}

impl ProcessStdio {
    /// A stream connected to nothing.
    pub fn null() -> (r: Self)
        ensures
            r == ProcessStdio::Null,
    {
        ProcessStdio::Null
    }

    /// A stream shared with the parent process.
    pub fn inherit() -> (r: Self)
        ensures
            r == ProcessStdio::Inherit,
    {
        ProcessStdio::Inherit
    }
}

impl Default for ProcessStdio {
    fn default() -> (r: Self)
        ensures
            r == ProcessStdio::Inherit,
    {
        ProcessStdio::Inherit
    }
}

/// The model of a process description.
pub struct ProcessBuilderView {
    pub program: Seq<char>,
    pub stdin: ProcessStdio,
    pub stdout: ProcessStdio,
    pub stderr: ProcessStdio,
    pub args: Seq<Seq<char>>,
}

/// The description of a child process.
pub struct ProcessBuilder {
    program: String,
    stdin: ProcessStdio,
    stdout: ProcessStdio,
    stderr: ProcessStdio,
    args: Vec<String>,
}

impl View for ProcessBuilder {
    type V = ProcessBuilderView;

    closed spec fn view(&self) -> ProcessBuilderView {
        ProcessBuilderView {
            program: self.program@,
            stdin: self.stdin,
            stdout: self.stdout,
            stderr: self.stderr,
            args: self.args@.map_values(|s: String| s@),
        }
    }
}

impl ProcessBuilder {
    /// A process running `program` without arguments, sharing the
    /// parent's standard streams.
    pub fn new(program: &str) -> (r: Self)
        ensures
            r@ == (ProcessBuilderView {
                program: program@,
                stdin: ProcessStdio::Inherit,
                stdout: ProcessStdio::Inherit,
                stderr: ProcessStdio::Inherit,
                args: seq![],
            }),
    {
        let r = ProcessBuilder {
            program: String::from_str(program),
            stdin: ProcessStdio::default(),
            stdout: ProcessStdio::default(),
            stderr: ProcessStdio::default(),
            args: Vec::new(),
        };
        assert(r@.args =~= Seq::<Seq<char>>::empty());
        r
    }

    /// The program to run.
    pub fn get_program(&self) -> (r: &str)
        ensures
            r@ == self@.program,
    {
        self.program.as_str()
    }

    /// Connects standard input.
    pub fn stdin(&mut self, cfg: ProcessStdio) -> (r: &mut Self)
        ensures
            (*r)@ == (ProcessBuilderView { stdin: cfg, ..old(self)@ }),
            *final(self) == *final(r),
    {
        self.stdin = cfg;
        self
    }

    /// What standard input is connected to.
    pub fn get_stdin(&self) -> (r: ProcessStdio)
        ensures
            r == self@.stdin,
    {
        self.stdin
    }

    /// Connects standard output.
    pub fn stdout(&mut self, cfg: ProcessStdio) -> (r: &mut Self)
        ensures
            (*r)@ == (ProcessBuilderView { stdout: cfg, ..old(self)@ }),
            *final(self) == *final(r),
    {
        self.stdout = cfg;
        self
    }

    /// What standard output is connected to.
    pub fn get_stdout(&self) -> (r: ProcessStdio)
        ensures
            r == self@.stdout,
    {
        self.stdout
    }

    /// Connects standard error.
    pub fn stderr(&mut self, cfg: ProcessStdio) -> (r: &mut Self)
        ensures
            (*r)@ == (ProcessBuilderView { stderr: cfg, ..old(self)@ }),
            *final(self) == *final(r),
    {
        self.stderr = cfg;
        self
    }

    /// What standard error is connected to.
    pub fn get_stderr(&self) -> (r: ProcessStdio)
        ensures
            r == self@.stderr,
    {
        self.stderr
    }

    /// Appends one argument.
    pub fn arg(&mut self, arg: &str) -> (r: &mut Self)
        ensures
            (*r)@ == (ProcessBuilderView { args: old(self)@.args.push(arg@), ..old(self)@ }),
            *final(self) == *final(r),
    {
        let ghost before = self.args@;
        self.args.push(String::from_str(arg));
        assert(self.args@.map_values(|s: String| s@) =~= before.map_values(|s: String| s@).push(arg@));
        self
    }

    /// Appends arguments, in order.
    pub fn args(&mut self, args: &[&str]) -> (r: &mut Self)
        ensures
            (*r)@ == (ProcessBuilderView {
                args: old(self)@.args + args@.map_values(|a: &str| a@),
                ..old(self)@
            }),
            *final(self) == *final(r),
    {
        let ghost start = self.args@.map_values(|s: String| s@);
        let mut i: usize = 0;
        while i < args.len()
            invariant
                i <= args@.len(),
                self.program == old(self).program,
                self.stdin == old(self).stdin,
                self.stdout == old(self).stdout,
                self.stderr == old(self).stderr,
                start == old(self)@.args,
                self.args@.map_values(|s: String| s@) =~= start + args@.take(i as int).map_values(|a: &str| a@),
            decreases args@.len() - i,
        {
            let ghost before = self.args@;
            self.args.push(String::from_str(args[i]));
            assert(self.args@.map_values(|s: String| s@) =~= before.map_values(|s: String| s@).push(args@[i as int]@));
            assert(args@.take(i + 1).map_values(|a: &str| a@) =~= args@.take(i as int).map_values(|a: &str| a@).push(args@[i as int]@));
            i = i + 1;
        }
        assert(args@.take(i as int) =~= args@);
        self
    }

    /// The arguments.
    pub fn get_args(&self) -> (r: &[String])
        ensures
            r@.map_values(|s: String| s@) == self@.args,
    {
        self.args.as_slice()
    }
}

} // verus!
