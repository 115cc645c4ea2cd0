//! Properties that hold across the operations of the library.

use vstd::prelude::*;

use crate::json::{as_array, as_text, index_key, member, JsonValue};
use crate::parameter::{
    argument_of, file_kinds, file_type_named, geometry_type_named, included,
    law_words_name_their_kinds, normalized, parsed_parameter, parsed_parameters, quoted,
    type_word, ArgumentView, ParameterFileType, ParameterType, PathProbe, RunErrorView,
    ToolParameterView, VectorGeometryType,
};
use crate::numeric::{
    all_ascii_digits, decimal_text, decimal_value, is_exponent_marker,
    law_decimal_numbers_parse_as_float, law_digit_runs_parse_as_usize, optional_sign,
};
use crate::text::{
    law_split_at_a_separator, law_split_without_separator_is_whole, remove_char_seq, split_seq,
    trim_seq, unicode_lowercase,
};
use crate::tool::{
    collect_arguments, compress_argument, lemma_collect_stays_failed, percent_text_of,
    progress_label_of, run_outcome, verbose_argument, ToolInfoView,
};

verus! {

/// Resetting a tool gives back exactly the parameters it was created with, whatever was
/// done to them in between: both read the same description, which nothing changes.
pub proof fn law_reset_restores_initial_parameters(
    description: JsonValue,
    created: ToolInfoView,
    later: ToolInfoView,
)
    requires
        created.parameters == parsed_parameters(description),
        created.description == description,
        later.description == created.description,
    ensures
        parsed_parameters(later.description) == created.parameters,
{
}

/// A tool has one parameter per element of its description's `parameters` array, in order.
pub proof fn law_one_parameter_per_entry(description: JsonValue)
    ensures
        parsed_parameters(description).len() == match as_array(
            index_key(description, "parameters"@),
        ) {
            Some(items) => items.len(),
            None => 0,
        },
{
}

/// An optional parameter left blank neither stops a run nor adds an argument (switches and
/// option lists always have a value and are not concerned).
pub proof fn law_blank_optional_parameter_is_left_out(p: ToolParameterView, probe: PathProbe)
    requires
        p.optional,
        trim_seq(p.str_value).len() == 0,
        p.parameter_type != ParameterType::Boolean,
        p.parameter_type != ParameterType::OptionList,
    ensures
        argument_of(p, probe) == ArgumentView::Omitted,
{
}

/// A required parameter left blank stops the run, naming the parameter.
pub proof fn law_blank_required_parameter_stops_run(p: ToolParameterView, probe: PathProbe)
    requires
        !p.optional,
        trim_seq(p.str_value).len() == 0,
        p.parameter_type != ParameterType::Boolean,
        p.parameter_type != ParameterType::OptionList,
    ensures
        argument_of(p, probe) == ArgumentView::Rejected(RunErrorView::Unspecified(p.name)),
{
}

/// A switch adds its flag, alone, exactly when it is on.
pub proof fn law_switch_adds_flag_when_on(p: ToolParameterView, probe: PathProbe)
    requires
        p.parameter_type == ParameterType::Boolean,
    ensures
        p.bool_value ==> argument_of(p, probe) == included(p.flags.last()),
        !p.bool_value ==> argument_of(p, probe) == ArgumentView::Omitted,
{
}

/// What the file system says matters only to the parameters that name paths that must
/// exist: existing files, directories and file lists.
pub proof fn law_only_path_parameters_look_at_the_file_system(
    p: ToolParameterView,
    probe1: PathProbe,
    probe2: PathProbe,
)
    requires
        p.parameter_type != ParameterType::ExistingFile,
        p.parameter_type != ParameterType::Directory,
        p.parameter_type != ParameterType::FileList,
    ensures
        argument_of(p, probe1) == argument_of(p, probe2),
{
}

/// A run that goes ahead names the tool and the working directory first, and ends with
/// the verbose and compression settings.
pub proof fn law_run_arguments_are_framed(info: ToolInfoView, probes: Seq<PathProbe>)
    requires
        run_outcome(info, probes) is Ok,
    ensures
        ({
            let args = run_outcome(info, probes)->Ok_0.0;
            &&& args.len() >= 4
            &&& args[0] == "-r="@ + info.tool_name
            &&& args[1] == "--wd="@ + info.working_dir
            &&& args[args.len() - 2] == verbose_argument(info.verbose_mode)
            &&& args[args.len() - 1] == compress_argument(info.compress_rasters)
        }),
{
}

/// A blank executable path stops a run before any parameter is looked at.
pub proof fn law_blank_executable_stops_run_first(info: ToolInfoView, probes: Seq<PathProbe>)
    requires
        trim_seq(info.exe_path).len() == 0,
    ensures
        run_outcome(info, probes) == Err::<(Seq<Seq<char>>, Seq<char>), RunErrorView>(
            RunErrorView::MissingExecutable,
        ),
{
}

/// The echoed command line shows each argument as it is passed, after a space, except that
/// existing and new files are shown with their paths trimmed.
pub proof fn law_echo_shows_arguments_as_passed(p: ToolParameterView, probe: PathProbe)
    requires
        argument_of(p, probe) is Included,
        p.parameter_type != ParameterType::ExistingFile,
        p.parameter_type != ParameterType::NewFile,
    ensures
        argument_of(p, probe)->shown == " "@ + argument_of(p, probe)->arg,
{
}

/// The arguments of the first `n` parameters depend on those parameters and their probes
/// alone.
pub proof fn lemma_collect_depends_on_prefix(
    params1: Seq<ToolParameterView>,
    probes1: Seq<PathProbe>,
    params2: Seq<ToolParameterView>,
    probes2: Seq<PathProbe>,
    n: nat,
)
    requires
        n <= params1.len(),
        n <= params2.len(),
        n <= probes1.len(),
        n <= probes2.len(),
        params1.take(n as int) == params2.take(n as int),
        probes1.take(n as int) == probes2.take(n as int),
    ensures
        collect_arguments(params1, probes1, n) == collect_arguments(params2, probes2, n),
    decreases n,
{
    if n > 0 {
        let m = (n - 1) as nat;
        assert(params1.take(m as int) =~= params1.take(n as int).take(m as int));
        assert(params2.take(m as int) =~= params2.take(n as int).take(m as int));
        assert(probes1.take(m as int) =~= probes1.take(n as int).take(m as int));
        assert(probes2.take(m as int) =~= probes2.take(n as int).take(m as int));
        assert(params1[m as int] == params1.take(n as int)[m as int]);
        assert(params2[m as int] == params2.take(n as int)[m as int]);
        assert(probes1[m as int] == probes1.take(n as int)[m as int]);
        assert(probes2[m as int] == probes2.take(n as int)[m as int]);
        lemma_collect_depends_on_prefix(params1, probes1, params2, probes2, m);
    }
}

/// Once a parameter stops a run, the parameters after it (and what the file system says
/// of them) change nothing: the run stops with the same error.
pub proof fn law_parameters_after_a_stop_do_not_matter(
    info1: ToolInfoView,
    probes1: Seq<PathProbe>,
    info2: ToolInfoView,
    probes2: Seq<PathProbe>,
    n: nat,
)
    requires
        info1.exe_path == info2.exe_path,
        n <= info1.parameters.len(),
        n <= info2.parameters.len(),
        n <= probes1.len(),
        n <= probes2.len(),
        info1.parameters.take(n as int) == info2.parameters.take(n as int),
        probes1.take(n as int) == probes2.take(n as int),
        collect_arguments(info1.parameters, probes1, n) is Err,
    ensures
        run_outcome(info1, probes1) is Err,
        run_outcome(info1, probes1) == run_outcome(info2, probes2),
{
    lemma_collect_depends_on_prefix(info1.parameters, probes1, info2.parameters, probes2, n);
    lemma_collect_stays_failed(info1.parameters, probes1, n, info1.parameters.len());
    lemma_collect_stays_failed(info2.parameters, probes2, n, info2.parameters.len());
}

/// Where each of the first `n` parameters is included, the first `n` parameters give their
/// arguments, one each, in order.
pub proof fn lemma_all_included_collect(
    params: Seq<ToolParameterView>,
    probes: Seq<PathProbe>,
    n: nat,
)
    requires
        n <= params.len(),
        n <= probes.len(),
        forall|i: int| 0 <= i < n ==> (#[trigger] argument_of(params[i], probes[i])) is Included,
    ensures
        collect_arguments(params, probes, n) is Ok,
        collect_arguments(params, probes, n)->Ok_0.0.len() == n,
        forall|i: int|
            0 <= i < n ==> collect_arguments(params, probes, n)->Ok_0.0[i] == (#[trigger] argument_of(
                params[i],
                probes[i],
            ))->arg,
    decreases n,
{
    if n > 0 {
        lemma_all_included_collect(params, probes, (n - 1) as nat);
        assert(argument_of(params[n - 1], probes[n - 1]) is Included);
    }
}

/// A run that goes ahead passes `-r=<tool>`, `--wd=<dir>`, then the arguments the
/// parameters give, in order, then the verbose and compression settings.
pub proof fn law_run_passes_the_parameter_arguments(info: ToolInfoView, probes: Seq<PathProbe>)
    requires
        run_outcome(info, probes) is Ok,
    ensures
        collect_arguments(info.parameters, probes, info.parameters.len()) is Ok,
        run_outcome(info, probes)->Ok_0.0 == seq!["-r="@ + info.tool_name, "--wd="@ + info.working_dir]
            + collect_arguments(info.parameters, probes, info.parameters.len())->Ok_0.0 + seq![
            verbose_argument(info.verbose_mode),
            compress_argument(info.compress_rasters),
        ],
{
}

/// Where every parameter is included, a run that goes ahead passes each parameter's
/// argument, at its place after `-r` and `--wd`, and nothing else between them and the
/// settings.
pub proof fn law_run_passes_each_included_argument(info: ToolInfoView, probes: Seq<PathProbe>)
    requires
        run_outcome(info, probes) is Ok,
        probes.len() == info.parameters.len(),
        forall|i: int|
            0 <= i < info.parameters.len() ==> (#[trigger] argument_of(info.parameters[i], probes[i])) is Included,
    ensures
        run_outcome(info, probes)->Ok_0.0.len() == info.parameters.len() + 4,
        forall|i: int|
            0 <= i < info.parameters.len() ==> run_outcome(info, probes)->Ok_0.0[i + 2] == (#[trigger] argument_of(
                info.parameters[i],
                probes[i],
            ))->arg,
{
    lemma_all_included_collect(info.parameters, probes, info.parameters.len());
    let args = collect_arguments(info.parameters, probes, info.parameters.len())->Ok_0.0;
    let full = run_outcome(info, probes)->Ok_0.0;
    assert forall|i: int| 0 <= i < info.parameters.len() implies full[i + 2] == (#[trigger] argument_of(
        info.parameters[i],
        probes[i],
    ))->arg by {
        assert(full[i + 2] == args[i]);
    }
}

/// The compression setting changes only the last argument of a run: whether the run goes
/// ahead or stops, and every other argument, are the same either way.
pub proof fn law_compression_changes_only_the_last_argument(
    info: ToolInfoView,
    probes: Seq<PathProbe>,
    compress: bool,
)
    ensures
        ({
            let other = ToolInfoView { compress_rasters: compress, ..info };
            &&& (run_outcome(info, probes) is Ok <==> run_outcome(other, probes) is Ok)
            &&& run_outcome(info, probes) is Err ==> run_outcome(other, probes) == run_outcome(info, probes)
            &&& run_outcome(info, probes) is Ok ==> {
                &&& run_outcome(info, probes)->Ok_0.0.drop_last() == run_outcome(other, probes)->Ok_0.0.drop_last()
                &&& run_outcome(other, probes)->Ok_0.0.last() == compress_argument(compress)
            }
        }),
{
    let other = ToolInfoView { compress_rasters: compress, ..info };
    if run_outcome(info, probes) is Ok {
        assert(run_outcome(info, probes)->Ok_0.0.drop_last() =~= run_outcome(other, probes)->Ok_0.0.drop_last());
    }
}

/// The verbose setting changes only the argument before the last.
pub proof fn law_verbosity_changes_only_its_argument(
    info: ToolInfoView,
    probes: Seq<PathProbe>,
    verbose: bool,
)
    ensures
        ({
            let other = ToolInfoView { verbose_mode: verbose, ..info };
            &&& (run_outcome(info, probes) is Ok <==> run_outcome(other, probes) is Ok)
            &&& run_outcome(info, probes) is Ok ==> {
                let a = run_outcome(info, probes)->Ok_0.0;
                let b = run_outcome(other, probes)->Ok_0.0;
                &&& a.len() == b.len()
                &&& b[b.len() - 2] == verbose_argument(verbose)
                &&& forall|i: int| 0 <= i < a.len() && i != a.len() - 2 ==> a[i] == b[i]
            }
        }),
{
}

/// An existing-file parameter with a value is accepted exactly when its path is found,
/// as given or in the working directory; it then passes its value quoted, and the echo
/// shows the trimmed path. Where the path is found in neither place, the run stops on it.
pub proof fn law_existing_file_accepted_when_found(p: ToolParameterView, probe: PathProbe)
    requires
        p.parameter_type == ParameterType::ExistingFile,
        trim_seq(p.str_value).len() > 0,
    ensures
        (probe.value_exists || probe.value_exists_in_working_dir) ==> argument_of(p, probe)
            == (ArgumentView::Included {
            arg: p.flags.last() + "='"@ + p.str_value + "'"@,
            shown: " "@ + p.flags.last() + "='"@ + trim_seq(p.str_value) + "'"@,
        }),
        !(probe.value_exists || probe.value_exists_in_working_dir) ==> argument_of(p, probe)
            == ArgumentView::Rejected(RunErrorView::FileNotFound(p.name)),
        probe.value_exists ==> argument_of(p, probe) is Included,
{
    assert(" "@ + quoted(p.flags.last(), trim_seq(p.str_value)) =~= " "@ + p.flags.last() + "='"@
        + trim_seq(p.str_value) + "'"@);
}

/// Finding more paths never stops a run: where an existing-file or directory parameter is
/// accepted, it is still accepted, with the same argument, when more of its paths are found.
pub proof fn law_finding_paths_never_rejects(p: ToolParameterView, probe1: PathProbe, probe2: PathProbe)
    requires
        p.parameter_type == ParameterType::ExistingFile || p.parameter_type == ParameterType::Directory,
        probe1.value_exists ==> probe2.value_exists,
        probe1.value_exists_in_working_dir ==> probe2.value_exists_in_working_dir,
        argument_of(p, probe1) is Included,
    ensures
        argument_of(p, probe2) == argument_of(p, probe1),
{
}

/// A progress line `label:rest`, with no `:` in the label, gives the label to the progress
/// bar, and (where `rest` holds no `:` either) its percent text is `rest` without `%` signs,
/// trimmed.
pub proof fn law_progress_line_parts(label: Seq<char>, rest: Seq<char>)
    requires
        !label.contains(':'),
    ensures
        progress_label_of(label + seq![':'] + rest) == label,
        split_seq(label + seq![':'] + rest, ':')[0] == label,
        !rest.contains(':') ==> split_seq(label + seq![':'] + rest, ':')[1] == rest,
        !rest.contains(':') ==> percent_text_of(label + seq![':'] + rest) == trim_seq(
            remove_char_seq(rest, '%'),
        ),
{
    law_split_at_a_separator(label, rest, ':');
    law_split_without_separator_is_whole(label, ':');
    if !rest.contains(':') {
        law_split_without_separator_is_whole(rest, ':');
    }
}

/// An integer parameter whose trimmed value is a run of digits (with or without `+`) that
/// fits in a `usize` passes `flag=value`, the value as typed.
pub proof fn law_integer_values_are_passed(
    p: ToolParameterView,
    probe: PathProbe,
    plus: bool,
    d: Seq<char>,
)
    requires
        p.parameter_type == ParameterType::Integer,
        d.len() > 0,
        all_ascii_digits(d),
        decimal_value(d) <= usize::MAX,
        trim_seq(p.str_value) == if plus {
            seq!['+'] + d
        } else {
            d
        },
    ensures
        argument_of(p, probe) == (ArgumentView::Included {
            arg: p.flags.last() + "="@ + p.str_value,
            shown: " "@ + (p.flags.last() + "="@ + p.str_value),
        }),
{
    law_digit_runs_parse_as_usize(plus, d);
}

/// A float parameter whose trimmed value is a decimal number of the documented grammar
/// passes `flag=value`, the value as typed.
pub proof fn law_float_values_are_passed(
    p: ToolParameterView,
    probe: PathProbe,
    sign: Seq<char>,
    int_part: Seq<char>,
    frac: Option<Seq<char>>,
    exp: Option<(char, Seq<char>, Seq<char>)>,
)
    requires
        p.parameter_type == ParameterType::Float,
        optional_sign(sign),
        all_ascii_digits(int_part),
        frac matches Some(f) ==> all_ascii_digits(f),
        int_part.len() > 0 || (frac matches Some(f) && f.len() > 0),
        exp matches Some((m, es, ed)) ==> is_exponent_marker(m) && optional_sign(es) && ed.len()
            > 0 && all_ascii_digits(ed),
        trim_seq(p.str_value) == decimal_text(sign, int_part, frac, exp),
    ensures
        argument_of(p, probe) == (ArgumentView::Included {
            arg: p.flags.last() + "="@ + p.str_value,
            shown: " "@ + (p.flags.last() + "="@ + p.str_value),
        }),
{
    law_decimal_numbers_parse_as_float(sign, int_part, frac, exp);
    assert(decimal_text(sign, int_part, frac, exp).len() > 0);
}

/// Strings, attribute fields, strings-or-numbers, files-or-floats and new files with a
/// value pass `flag='value'`, whatever the file system says.
pub proof fn law_plain_values_are_passed_quoted(p: ToolParameterView, probe: PathProbe)
    requires
        p.parameter_type == ParameterType::String || p.parameter_type
            == ParameterType::VectorAttributeField || p.parameter_type
            == ParameterType::StringOrNumber || p.parameter_type
            == ParameterType::ExistingFileOrFloat || p.parameter_type == ParameterType::NewFile,
        trim_seq(p.str_value).len() > 0,
    ensures
        argument_of(p, probe) is Included,
        argument_of(p, probe)->arg == p.flags.last() + "='"@ + p.str_value + "'"@,
{
}

/// An option list passes `flag='option'` for the chosen option.
pub proof fn law_option_list_passes_the_choice(p: ToolParameterView, probe: PathProbe)
    requires
        p.parameter_type == ParameterType::OptionList,
    ensures
        argument_of(p, probe) is Included,
        argument_of(p, probe)->arg == p.flags.last() + "='"@ + p.str_vec_value[p.int_value as int]
            + "'"@,
{
}

/// A directory with a value is passed quoted where it is found as given; otherwise the
/// run stops on it, naming the parameter (trimmed), wherever else it might be found.
pub proof fn law_directory_must_exist_as_given(p: ToolParameterView, probe: PathProbe)
    requires
        p.parameter_type == ParameterType::Directory,
        trim_seq(p.str_value).len() > 0,
    ensures
        probe.value_exists ==> argument_of(p, probe)->arg == p.flags.last() + "='"@ + p.str_value
            + "'"@ && argument_of(p, probe) is Included,
        !probe.value_exists ==> argument_of(p, probe) == ArgumentView::Rejected(
            RunErrorView::DirectoryNotFound(trim_seq(p.name)),
        ),
{
}

/// A `parameter_type` written as one of the kind words (in any case) gives that kind; a
/// number kind starts from its default trimmed, a string, directory or string-or-number
/// kind from its default as written.
pub proof fn law_kind_words_give_their_kind(p: JsonValue, t: ParameterType)
    requires
        index_key(p, "parameter_type"@) matches JsonValue::Text(s) && type_word(t) == Some(
            unicode_lowercase(s@),
        ),
    ensures
        parsed_parameter(p).parameter_type == t,
        (t == ParameterType::Float || t == ParameterType::Integer) ==> (as_text(
            index_key(p, "default_value"@),
        ) matches Some(d) ==> parsed_parameter(p).str_value == trim_seq(d)),
        (t == ParameterType::String || t == ParameterType::Directory || t
            == ParameterType::StringOrNumber) ==> (as_text(index_key(p, "default_value"@)) matches Some(
            d,
        ) ==> parsed_parameter(p).str_value == d),
{
    law_words_name_their_kinds(t, ParameterFileType::Any, VectorGeometryType::Any);
}

/// An existing-file entry written as a file word gives an existing-file parameter of that
/// kind of file.
pub proof fn law_existing_file_entries_give_their_file_kind(p: JsonValue)
    requires
        index_key(index_key(p, "parameter_type"@), "ExistingFile"@) matches JsonValue::Text(_),
        index_key(p, "parameter_type"@) is Object,
    ensures
        parsed_parameter(p).parameter_type == ParameterType::ExistingFile,
        index_key(index_key(p, "parameter_type"@), "ExistingFile"@) matches JsonValue::Text(w)
            ==> parsed_parameter(p).file_type == file_type_named(normalized(w@)),
{
}

/// A file-type object `{"Vector": g}` names a vector file of geometry `g`, and
/// `{"RasterAndVector": g}` (with no `Vector` entry) a raster-or-vector file of geometry `g`.
pub proof fn law_vector_entries_give_their_geometry(f: JsonValue)
    requires
        f is Object,
    ensures
        member(f, "Vector"@) matches Some(JsonValue::Text(g)) ==> file_kinds(f) == (
            ParameterFileType::Vector,
            geometry_type_named(normalized(g@)),
        ),
        member(f, "Vector"@) is None ==> (member(f, "RasterAndVector"@) matches Some(
            JsonValue::Text(g),
        ) ==> file_kinds(f) == (
            ParameterFileType::RasterAndVector,
            geometry_type_named(normalized(g@)),
        )),
{
}

} // verus!
