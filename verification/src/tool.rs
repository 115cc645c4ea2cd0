//! A tool with its parameters and settings, the command line that runs it, and the state
//! of a run as the dialog shows it.

use vstd::prelude::*;
use vstd::string::*;

use crate::json::JsonValue;
use crate::parameter::{
    after_space, argument_defined, argument_of, concat3, parameters_view, parse_parameters,
    parsed_parameters, Argument, ArgumentView, PathProbe, RunError, RunErrorView, ToolParameter,
    ToolParameterView,
};
use crate::text::{
    contains_char, is_blank, lemma_split_seq_two_pieces, remove_char, remove_char_seq, split_on,
    split_seq, trim, trim_seq,
};

verus! {

/// A tool, its parameters and the settings it is run with.
pub struct ToolInfo {
    pub tool_name: String,
    pub parameters: Vec<ToolParameter>,
    json_parameters: JsonValue,
    exe_path: String,
    working_dir: String,
    output_command: bool,
    verbose_mode: bool,
    compress_rasters: bool,
}

/// A tool with its strings taken as characters.
pub struct ToolInfoView {
    pub tool_name: Seq<char>,
    pub parameters: Seq<ToolParameterView>,
    /// The description the parameters were read from.
    pub description: JsonValue,
    pub exe_path: Seq<char>,
    pub working_dir: Seq<char>,
    pub output_command: bool,
    pub verbose_mode: bool,
    pub compress_rasters: bool,
}

impl View for ToolInfo {
    type V = ToolInfoView;

    closed spec fn view(&self) -> ToolInfoView {
        ToolInfoView {
            tool_name: self.tool_name@,
            parameters: parameters_view(self.parameters@),
            description: self.json_parameters,
            exe_path: self.exe_path@,
            working_dir: self.working_dir@,
            output_command: self.output_command,
            verbose_mode: self.verbose_mode,
            compress_rasters: self.compress_rasters,
        }
    }
}

/// The state of a run as the dialog shows it.
pub struct RunStatus {
    cancel: bool,
    output: String,
    progress_label: String,
    continuous_mode: bool,
}

/// The state of a run with its strings taken as characters.
pub struct RunStatusView {
    /// The user has asked to cancel the running tool.
    pub cancel_requested: bool,
    /// What the tool has written so far, with the messages of the dialog.
    pub output: Seq<char>,
    /// The label of the progress bar.
    pub progress_label: Seq<char>,
    /// A tool is running and the dialog follows its output.
    pub running: bool,
}

impl View for RunStatus {
    type V = RunStatusView;

    closed spec fn view(&self) -> RunStatusView {
        RunStatusView {
            cancel_requested: self.cancel,
            output: self.output@,
            progress_label: self.progress_label@,
            running: self.continuous_mode,
        }
    }
}

// ---------------------------------------------------------------------------------------
// The command line of a run
// ---------------------------------------------------------------------------------------

/// The arguments and the echoed text that the first `n` parameters give, or the error of
/// the first of them that stops the run.
pub open spec fn collect_arguments(
    params: Seq<ToolParameterView>,
    probes: Seq<PathProbe>,
    n: nat,
) -> Result<(Seq<Seq<char>>, Seq<char>), RunErrorView>
    decreases n,
{
    if n == 0 {
        Ok((Seq::empty(), Seq::empty()))
    } else {
        match collect_arguments(params, probes, (n - 1) as nat) {
            Err(e) => Err(e),
            Ok((args, shown)) => match argument_of(params[n - 1], probes[n - 1]) {
                ArgumentView::Omitted => Ok((args, shown)),
                ArgumentView::Included { arg, shown: s } => Ok((args.push(arg), shown + s)),
                ArgumentView::Rejected(e) => Err(e),
            },
        }
    }
}

/// The argument that sets verbose output.
pub open spec fn verbose_argument(verbose: bool) -> Seq<char> {
    if verbose {
        "-v=true"@
    } else {
        "-v=false"@
    }
}

/// The argument that sets raster compression.
pub open spec fn compress_argument(compress: bool) -> Seq<char> {
    if compress {
        "--compress_rasters=true"@
    } else {
        "--compress_rasters=false"@
    }
}

/// The arguments of a run and the parameter text echoed with it, or the error that stops
/// it: a blank executable path stops it first, then the first parameter that stops it.
pub open spec fn run_outcome(info: ToolInfoView, probes: Seq<PathProbe>) -> Result<
    (Seq<Seq<char>>, Seq<char>),
    RunErrorView,
> {
    if trim_seq(info.exe_path).len() == 0 {
        Err(RunErrorView::MissingExecutable)
    } else {
        match collect_arguments(info.parameters, probes, info.parameters.len()) {
            Err(e) => Err(e),
            Ok((args, shown)) => Ok(
                (
                    seq!["-r="@ + info.tool_name, "--wd="@ + info.working_dir] + args + seq![
                        verbose_argument(info.verbose_mode),
                        compress_argument(info.compress_rasters),
                    ],
                    shown + " "@ + verbose_argument(info.verbose_mode) + " "@ + compress_argument(
                        info.compress_rasters,
                    ),
                ),
            ),
        }
    }
}

/// The command line that a run writes to the output when asked to.
pub open spec fn echo_line(info: ToolInfoView, shown: Seq<char>) -> Seq<char> {
    info.exe_path + " -r="@ + info.tool_name + " --wd=\""@ + info.working_dir + "\" "@ + shown
        + "\n"@
}

/// A run can be prepared without an undefined parameter: there is one probe per
/// parameter, and every parameter that the run reaches has a flag and a valid choice.
pub open spec fn run_defined(info: ToolInfoView, probes: Seq<PathProbe>) -> bool {
    &&& probes.len() == info.parameters.len()
    &&& trim_seq(info.exe_path).len() > 0 ==> forall|i: int|
        0 <= i < info.parameters.len() && (#[trigger] collect_arguments(
            info.parameters,
            probes,
            i as nat,
        )) is Ok ==> argument_defined(info.parameters[i])
}

/// The first `n` arguments are computed from the first `n` probes alone.
proof fn lemma_collect_step(params: Seq<ToolParameterView>, probes: Seq<PathProbe>, n: nat)
    ensures
        collect_arguments(params, probes, n + 1) == match collect_arguments(params, probes, n) {
            Err(e) => Err(e),
            Ok((args, shown)) => match argument_of(params[n as int], probes[n as int]) {
                ArgumentView::Omitted => Ok((args, shown)),
                ArgumentView::Included { arg, shown: s } => Ok((args.push(arg), shown + s)),
                ArgumentView::Rejected(e) => Err(e),
            },
        },
{
}

/// `a + b` as one string.
fn join2(a: &str, b: &str) -> (r: String)
    ensures
        r@ == a@ + b@,
{
    let mut r = a.to_owned();
    r.append(b);
    r
}

impl ToolInfo {
    /// A tool named `tool_name` whose parameters are read from the description
    /// `parameters`, with an empty executable path and working directory and every
    /// setting off.
    pub fn new(tool_name: &str, parameters: JsonValue) -> (r: ToolInfo)
        ensures
            r@.tool_name == tool_name@,
            r@.parameters == parsed_parameters(parameters),
            r@.description == parameters,
            r@.exe_path == Seq::<char>::empty(),
            r@.working_dir == Seq::<char>::empty(),
            !r@.output_command,
            !r@.verbose_mode,
            !r@.compress_rasters,
    {
        let parameter_values = parse_parameters(&parameters);
        ToolInfo {
            tool_name: tool_name.to_owned(),
            parameters: parameter_values,
            json_parameters: parameters,
            exe_path: String::new(),
            working_dir: String::new(),
            output_command: false,
            verbose_mode: false,
            compress_rasters: false,
        }
    }

    /// Puts every parameter back as the description gives it, and clears the run state:
    /// no cancel request, no output, the progress label back to `Progress`.
    pub fn reset(&mut self, status: &mut RunStatus)
        ensures
            final(self)@.parameters == parsed_parameters(old(self)@.description),
            final(self)@.tool_name == old(self)@.tool_name,
            final(self)@.description == old(self)@.description,
            final(self)@.exe_path == old(self)@.exe_path,
            final(self)@.working_dir == old(self)@.working_dir,
            final(self)@.output_command == old(self)@.output_command,
            final(self)@.verbose_mode == old(self)@.verbose_mode,
            final(self)@.compress_rasters == old(self)@.compress_rasters,
            !final(status)@.cancel_requested,
            final(status)@.output == Seq::<char>::empty(),
            final(status)@.progress_label == "Progress"@,
            final(status)@.running == old(status)@.running,
    {
        self.parameters = parse_parameters(&self.json_parameters);
        status.reset();
    }

    /// Asks the running tool to stop.
    pub fn cancel(&self, status: &mut RunStatus)
        ensures
            final(status)@ == (RunStatusView { cancel_requested: true, ..old(status)@ }),
    {
        status.request_cancel();
    }

    /// Sets the path of the WhiteboxTools executable.
    pub fn update_exe_path(&mut self, exe_path: &str)
        ensures
            final(self)@ == (ToolInfoView { exe_path: exe_path@, ..old(self)@ }),
    {
        self.exe_path = exe_path.to_owned();
    }

    /// Sets the working directory the tool runs in.
    pub fn update_working_dir(&mut self, working_dir: &str)
        ensures
            final(self)@ == (ToolInfoView { working_dir: working_dir@, ..old(self)@ }),
    {
        self.working_dir = working_dir.to_owned();
    }

    /// Sets whether a run writes its command line to the output.
    pub fn update_output_command(&mut self, value: bool)
        ensures
            final(self)@ == (ToolInfoView { output_command: value, ..old(self)@ }),
    {
        self.output_command = value;
    }

    /// Sets whether the tool runs in verbose mode.
    pub fn update_verbose_mode(&mut self, value: bool)
        ensures
            final(self)@ == (ToolInfoView { verbose_mode: value, ..old(self)@ }),
    {
        self.verbose_mode = value;
    }

    /// Sets whether the tool compresses the rasters it writes.
    pub fn update_compress_rasters(&mut self, value: bool)
        ensures
            final(self)@ == (ToolInfoView { compress_rasters: value, ..old(self)@ }),
    {
        self.compress_rasters = value;
    }

    /// The path of the WhiteboxTools executable.
    pub fn exe_path(&self) -> (r: &str)
        ensures
            r@ == self@.exe_path,
    {
        self.exe_path.as_str()
    }

    /// The working directory the tool runs in.
    pub fn working_dir(&self) -> (r: &str)
        ensures
            r@ == self@.working_dir,
    {
        self.working_dir.as_str()
    }

    /// The argument that asks the executable for the help text of this tool.
    pub fn tool_help_argument(&self) -> (r: String)
        ensures
            r@ == "--toolhelp="@ + self@.tool_name,
    {
        join2("--toolhelp=", self.tool_name.as_str())
    }

    /// Whether a run with these probes reaches only parameters that have a flag and a
    /// valid choice, as `run` requires.
    pub fn run_is_defined(&self, probes: &Vec<PathProbe>) -> (r: bool)
        ensures
            r == run_defined(self@, probes@),
    {
        if probes.len() != self.parameters.len() {
            return false;
        }
        if is_blank(self.exe_path.as_str()) {
            return true;
        }
        let ghost params = self@.parameters;
        let mut i: usize = 0;
        while i < self.parameters.len()
            invariant
                params == self@.parameters,
                params == parameters_view(self.parameters@),
                probes@.len() == params.len(),
                trim_seq(self@.exe_path).len() > 0,
                i <= params.len(),
                forall|j: int|
                    0 <= j < i && (#[trigger] collect_arguments(params, probes@, j as nat)) is Ok
                        ==> argument_defined(params[j]),
                collect_arguments(params, probes@, i as nat) is Ok,
            decreases self.parameters.len() - i,
        {
            let p = &self.parameters[i];
            assert(p@ == params[i as int]);
            if !p.argument_defined() {
                let ghost j: int = i as int;
                assert(collect_arguments(params, probes@, j as nat) is Ok);
                assert(!argument_defined(params[j]));
                return false;
            }
            proof {
                lemma_collect_step(params, probes@, i as nat);
            }
            match p.command_argument(&probes[i]) {
                Argument::Rejected(_) => {
                    assert forall|j: int|
                        0 <= j < params.len() && (#[trigger] collect_arguments(
                            params,
                            probes@,
                            j as nat,
                        )) is Ok implies argument_defined(params[j]) by {
                        if j > i {
                            lemma_collect_stays_failed(params, probes@, (i + 1) as nat, j as nat);
                        }
                    }
                    return true;
                },
                _ => {},
            }
            i = i + 1;
        }
        true
    }

    /// Prepares a run: clears any cancel request, then checks the executable path and the
    /// parameters. Where they allow the run, marks the tool running, writes the command
    /// line to the output when asked to, and returns the arguments to start the executable
    /// with; otherwise returns what stops the run and leaves the rest of the state as it was.
    pub fn run(&self, status: &mut RunStatus, probes: &Vec<PathProbe>) -> (r: Result<
        Vec<String>,
        RunError,
    >)
        requires
            run_defined(self@, probes@),
        ensures
            !final(status)@.cancel_requested,
            final(status)@.progress_label == old(status)@.progress_label,
            match run_outcome(self@, probes@) {
                Err(e) => {
                    &&& r matches Err(err) && err@ == e
                    &&& final(status)@.output == old(status)@.output
                    &&& final(status)@.running == old(status)@.running
                },
                Ok((args, shown)) => {
                    &&& r matches Ok(a) && a.deep_view() == args
                    &&& final(status)@.running
                    &&& final(status)@.output == old(status)@.output + if self@.output_command {
                        echo_line(self@, shown)
                    } else {
                        Seq::<char>::empty()
                    }
                },
            },
    {
        status.cancel = false;
        if is_blank(self.exe_path.as_str()) {
            return Err(RunError::MissingExecutable);
        }
        let ghost params = self@.parameters;
        let ghost st0 = status@;
        let mut args: Vec<String> = Vec::new();
        args.push(join2("-r=", self.tool_name.as_str()));
        args.push(join2("--wd=", self.working_dir.as_str()));
        let ghost head = args.deep_view();
        let mut shown = String::new();
        let ghost mut acc: Seq<Seq<char>> = Seq::empty();
        let mut i: usize = 0;
        while i < self.parameters.len()
            invariant
                params == self@.parameters,
                params == parameters_view(self.parameters@),
                run_defined(self@, probes@),
                trim_seq(self@.exe_path).len() > 0,
                i <= params.len(),
                head == seq!["-r="@ + self@.tool_name, "--wd="@ + self@.working_dir],
                status@ == st0,
                !st0.cancel_requested,
                st0.progress_label == old(status)@.progress_label,
                st0.output == old(status)@.output,
                st0.running == old(status)@.running,
                args.deep_view() == head + acc,
                collect_arguments(params, probes@, i as nat) == Ok::<
                    (Seq<Seq<char>>, Seq<char>),
                    RunErrorView,
                >((acc, shown@)),
            decreases self.parameters.len() - i,
        {
            let p = &self.parameters[i];
            assert(p@ == params[i as int]);
            proof {
                lemma_collect_step(params, probes@, i as nat);
            }
            match p.command_argument(&probes[i]) {
                Argument::Omitted => {},
                Argument::Included { arg, shown: s } => {
                    let ghost before = args.deep_view();
                    proof {
                        acc = acc.push(arg@);
                    }
                    args.push(arg);
                    assert(args.deep_view() =~= before.push(arg@));
                    assert(head + acc =~= before.push(arg@));
                    shown.append(s.as_str());
                },
                Argument::Rejected(e) => {
                    proof {
                        lemma_collect_stays_failed(params, probes@, (i + 1) as nat, params.len());
                    }
                    return Err(e);
                },
            }
            i = i + 1;
        }
        let verbose = if self.verbose_mode {
            "-v=true".to_owned()
        } else {
            "-v=false".to_owned()
        };
        let compress = if self.compress_rasters {
            "--compress_rasters=true".to_owned()
        } else {
            "--compress_rasters=false".to_owned()
        };
        shown.append(after_space(verbose.as_str()).as_str());
        shown.append(after_space(compress.as_str()).as_str());
        let ghost before = args.deep_view();
        args.push(verbose);
        args.push(compress);
        assert(args.deep_view() =~= before.push(verbose_argument(self@.verbose_mode)).push(
            compress_argument(self@.compress_rasters),
        ));
        status.continuous_mode = true;
        if self.output_command {
            let mut line = join2(self.exe_path.as_str(), " -r=");
            line.append(self.tool_name.as_str());
            line.append(" --wd=\"");
            line.append(self.working_dir.as_str());
            line.append("\" ");
            line.append(shown.as_str());
            line.append("\n");
            status.output.append(line.as_str());
        }
        Ok(args)
    }
}

/// Once the first `n` parameters stop a run, so do the first `m` for every `m >= n`.
pub proof fn lemma_collect_stays_failed(params: Seq<ToolParameterView>, probes: Seq<PathProbe>, n: nat, m: nat)
    requires
        n <= m,
        collect_arguments(params, probes, n) is Err,
    ensures
        collect_arguments(params, probes, m) == collect_arguments(params, probes, n),
    decreases m - n,
{
    if n < m {
        lemma_collect_stays_failed(params, probes, n, (m - 1) as nat);
    }
}

/// The label of a progress line: what comes before its first `:`.
pub open spec fn progress_label_of(line: Seq<char>) -> Seq<char> {
    split_seq(line, ':')[0]
}

/// The percent text of a progress line: what lies between its first and second `:`,
/// without `%` signs, trimmed.
pub open spec fn percent_text_of(line: Seq<char>) -> Seq<char> {
    trim_seq(remove_char_seq(split_seq(line, ':')[1], '%'))
}

impl RunStatus {
    /// The state before any run: no cancel request, no output, the progress label
    /// `Progress:`, nothing running.
    pub fn new() -> (r: RunStatus)
        ensures
            r@ == (RunStatusView {
                cancel_requested: false,
                output: Seq::empty(),
                progress_label: "Progress:"@,
                running: false,
            }),
    {
        RunStatus {
            cancel: false,
            output: String::new(),
            progress_label: "Progress:".to_owned(),
            continuous_mode: false,
        }
    }

    /// Clears the cancel request and the output, and puts the progress label back to
    /// `Progress`.
    pub fn reset(&mut self)
        ensures
            final(self)@ == (RunStatusView {
                cancel_requested: false,
                output: Seq::empty(),
                progress_label: "Progress"@,
                ..old(self)@
            }),
    {
        self.cancel = false;
        self.output = String::new();
        self.progress_label = "Progress".to_owned();
    }

    /// Asks the running tool to stop.
    pub fn request_cancel(&mut self)
        ensures
            final(self)@ == (RunStatusView { cancel_requested: true, ..old(self)@ }),
    {
        self.cancel = true;
    }

    /// Whether the user has asked the running tool to stop.
    pub fn cancel_requested(&self) -> (r: bool)
        ensures
            r == self@.cancel_requested,
    {
        self.cancel
    }

    /// Notes in the output that the running tool is being stopped.
    pub fn begin_cancel(&mut self)
        ensures
            final(self)@ == (RunStatusView {
                output: old(self)@.output + "\nCancelling process...\n"@,
                ..old(self)@
            }),
    {
        self.output.append("\nCancelling process...\n");
    }

    /// Notes in the output that the running tool was stopped, and clears the request.
    pub fn end_cancel(&mut self)
        ensures
            final(self)@ == (RunStatusView {
                cancel_requested: false,
                output: old(self)@.output + "\nProcess cancelled\n"@,
                ..old(self)@
            }),
    {
        self.cancel = false;
        self.output.append("\nProcess cancelled\n");
    }

    /// Adds what the tool has written to the output. Where the text holds a `%`, it is a
    /// progress line `label: percent%`: the label goes to the progress bar, and the percent
    /// text, without its `%` signs and trimmed, is returned.
    pub fn record_output(&mut self, chunk: &str) -> (r: Option<String>)
        requires
            chunk@.contains('%') ==> chunk@.contains(':'),
        ensures
            final(self)@.output == old(self)@.output + chunk@,
            final(self)@.cancel_requested == old(self)@.cancel_requested,
            final(self)@.running == old(self)@.running,
            chunk@.contains('%') ==> {
                &&& final(self)@.progress_label == progress_label_of(chunk@)
                &&& r matches Some(t) && t@ == percent_text_of(chunk@)
            },
            !chunk@.contains('%') ==> {
                &&& final(self)@.progress_label == old(self)@.progress_label
                &&& r is None
            },
    {
        let mut percent = None;
        if contains_char(chunk, '%') {
            let pieces = split_on(chunk, ':');
            proof {
                lemma_split_seq_two_pieces(chunk@, ':');
            }
            assert(pieces.deep_view()[0] == pieces[0]@);
            assert(pieces.deep_view()[1] == pieces[1]@);
            let value = remove_char(pieces[1].as_str(), '%');
            percent = Some(trim(value.as_str()));
            self.progress_label = pieces[0].as_str().to_owned();
        }
        self.output.append(chunk);
        percent
    }

    /// Marks the run finished: nothing running, the progress label back to `Progress`.
    pub fn finish(&mut self)
        ensures
            final(self)@ == (RunStatusView {
                progress_label: "Progress"@,
                running: false,
                ..old(self)@
            }),
    {
        self.progress_label = "Progress".to_owned();
        self.continuous_mode = false;
    }

    /// Empties the output.
    pub fn clear_output(&mut self)
        ensures
            final(self)@ == (RunStatusView { output: Seq::empty(), ..old(self)@ }),
    {
        self.output = String::new();
    }

    /// Puts `text` in place of the output.
    pub fn set_output(&mut self, text: String)
        ensures
            final(self)@ == (RunStatusView { output: text@, ..old(self)@ }),
    {
        self.output = text;
    }

    /// What the tool has written so far.
    pub fn output(&self) -> (r: &str)
        ensures
            r@ == self@.output,
    {
        self.output.as_str()
    }

    /// The label of the progress bar.
    pub fn progress_label(&self) -> (r: &str)
        ensures
            r@ == self@.progress_label,
    {
        self.progress_label.as_str()
    }

    /// Whether a tool is running and the dialog follows its output.
    pub fn is_running(&self) -> (r: bool)
        ensures
            r == self@.running,
    {
        self.continuous_mode
    }
}

} // verus!
