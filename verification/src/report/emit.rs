//! What is done with a report once a run is over.
use vstd::prelude::*;
use crate::reporting::{ReportOutputArgs, ReportView};
use crate::text::{copied_option_text, option_str_view, option_view};

verus! {

/// One thing to do with a report. A written JSON file is announced or not; a
/// Markdown file is written by the caller's own writer or by the default one.
#[derive(Clone, Debug, PartialEq, Eq)]
pub enum EmitStep {
    PrintJson,
    PrintTree,
    PrintSummary,
    WriteJson { path: String, announced: bool },
    WriteCsv { path: String },
    WriteMarkdown { path: String, own_writer: bool },
}

/// What a step does.
pub enum EmitAction {
    PrintJson,
    PrintTree,
    PrintSummary,
    WriteJson(Seq<char>, bool),
    WriteCsv(Seq<char>),
    WriteMarkdown(Seq<char>, bool),
}

/// What a step does.
pub open spec fn action_of(step: EmitStep) -> EmitAction {
    match step {
        EmitStep::PrintJson => EmitAction::PrintJson,
        EmitStep::PrintTree => EmitAction::PrintTree,
        EmitStep::PrintSummary => EmitAction::PrintSummary,
        EmitStep::WriteJson { path, announced } => EmitAction::WriteJson(path@, announced),
        EmitStep::WriteCsv { path } => EmitAction::WriteCsv(path@),
        EmitStep::WriteMarkdown { path, own_writer } => EmitAction::WriteMarkdown(
            path@,
            own_writer,
        ),
    }
}

/// What the steps do, in turn.
pub open spec fn actions_of(steps: Seq<EmitStep>) -> Seq<EmitAction> {
    Seq::new(steps.len(), |i: int| action_of(steps[i]))
}

/// The showing of a view, where there is one.
pub open spec fn view_actions(view: Option<ReportView>) -> Seq<EmitAction> {
    match view {
        Some(ReportView::Tree) => seq![EmitAction::PrintTree],
        Some(ReportView::Summary) => seq![EmitAction::PrintSummary],
        None => Seq::empty(),
    }
}

/// What is printed: JSON where asked for, else the tree where asked for, else
/// the quick or the default view.
pub open spec fn print_actions(
    args: ReportOutputArgs,
    default_view: Option<ReportView>,
    quick_view: Option<ReportView>,
) -> Seq<EmitAction> {
    if args.json_mode {
        seq![EmitAction::PrintJson]
    } else if args.tree_mode {
        seq![EmitAction::PrintTree]
    } else if args.quick_mode {
        view_actions(quick_view)
    } else {
        view_actions(default_view)
    }
}

/// The writing of a JSON file, where a path is given.
pub open spec fn json_actions(path: Option<Seq<char>>, announced: bool) -> Seq<EmitAction> {
    match path {
        Some(path) => seq![EmitAction::WriteJson(path, announced)],
        None => Seq::empty(),
    }
}

/// The writing of a CSV file, where a path is given.
pub open spec fn csv_actions(path: Option<Seq<char>>) -> Seq<EmitAction> {
    match path {
        Some(path) => seq![EmitAction::WriteCsv(path)],
        None => Seq::empty(),
    }
}

/// The writing of a Markdown file, where a path is given.
pub open spec fn markdown_actions(path: Option<Seq<char>>, own_writer: bool) -> Seq<EmitAction> {
    match path {
        Some(path) => seq![EmitAction::WriteMarkdown(path, own_writer)],
        None => Seq::empty(),
    }
}

/// All that is done with a structured report, in turn: printing, then the
/// files that the arguments name, then the JSON files named by the environment
/// and by the caller.
pub open spec fn emit_actions(
    args: ReportOutputArgs,
    default_view: Option<ReportView>,
    quick_view: Option<ReportView>,
    own_writer: bool,
    env_json_out: Option<Seq<char>>,
    extra_json_out: Option<Seq<char>>,
) -> Seq<EmitAction> {
    print_actions(args, default_view, quick_view) + json_actions(option_view(args.json_out), true)
        + csv_actions(option_view(args.csv_out)) + markdown_actions(
        option_view(args.markdown_out),
        own_writer,
    ) + json_actions(env_json_out, false) + json_actions(extra_json_out, false)
}

/// All that is done with a flat report, in turn: what is done with its
/// structured form, the caller's own Markdown writer coming last.
pub open spec fn emit_flat_actions(
    args: ReportOutputArgs,
    default_view: Option<ReportView>,
    quick_view: Option<ReportView>,
    own_writer: bool,
    env_json_out: Option<Seq<char>>,
    extra_json_out: Option<Seq<char>>,
) -> Seq<EmitAction> {
    if own_writer {
        emit_actions(
            ReportOutputArgs { markdown_out: None, ..args },
            default_view,
            quick_view,
            false,
            env_json_out,
            extra_json_out,
        ) + markdown_actions(option_view(args.markdown_out), true)
    } else {
        emit_actions(args, default_view, quick_view, false, env_json_out, extra_json_out)
    }
}

/// Adds a step.
fn push_step(steps: &mut Vec<EmitStep>, step: EmitStep)
    ensures
        actions_of(final(steps)@) == actions_of(old(steps)@) + seq![action_of(step)],
{
    let ghost before = actions_of(steps@);
    steps.push(step);
    assert(actions_of(steps@) =~= before + seq![action_of(step)]);
}

/// Adds the showing of a view.
fn push_view(steps: &mut Vec<EmitStep>, view: Option<ReportView>)
    ensures
        actions_of(final(steps)@) == actions_of(old(steps)@) + view_actions(view),
{
    match view {
        Some(ReportView::Tree) => push_step(steps, EmitStep::PrintTree),
        Some(ReportView::Summary) => push_step(steps, EmitStep::PrintSummary),
        None => {
            assert(actions_of(steps@) + view_actions(view) =~= actions_of(steps@));
        },
    }
}

/// Adds the writing of a JSON file.
fn push_json(steps: &mut Vec<EmitStep>, path: Option<String>, announced: bool)
    ensures
        actions_of(final(steps)@) == actions_of(old(steps)@) + json_actions(
            option_view(path),
            announced,
        ),
{
    match path {
        Some(path) => push_step(steps, EmitStep::WriteJson { path, announced }),
        None => {
            assert(actions_of(steps@) + Seq::<EmitAction>::empty() =~= actions_of(steps@));
        },
    }
}

/// A copy of an optional borrowed text.
fn owned(text: Option<&str>) -> (r: Option<String>)
    ensures
        option_view(r) == option_str_view(text),
{
    match text {
        Some(t) => Some(t.to_owned()),
        None => None,
    }
}

/// What is done with a structured report, where nothing but the arguments and
/// the environment names a file.
pub fn emit_report(
    args: &ReportOutputArgs,
    default_view: Option<ReportView>,
    quick_view: Option<ReportView>,
    own_writer: bool,
    env_json_out: Option<&str>,
) -> (r: Vec<EmitStep>)
    ensures
        actions_of(r@) == emit_actions(
            *args,
            default_view,
            quick_view,
            own_writer,
            option_str_view(env_json_out),
            None,
        ),
{
    emit_report_with_extra_json(args, default_view, quick_view, own_writer, env_json_out, None)
}

/// What is done with a structured report.
pub fn emit_report_with_extra_json(
    args: &ReportOutputArgs,
    default_view: Option<ReportView>,
    quick_view: Option<ReportView>,
    own_writer: bool,
    env_json_out: Option<&str>,
    extra_json_out: Option<&str>,
) -> (r: Vec<EmitStep>)
    ensures
        actions_of(r@) == emit_actions(
            *args,
            default_view,
            quick_view,
            own_writer,
            option_str_view(env_json_out),
            option_str_view(extra_json_out),
        ),
{
    let mut steps: Vec<EmitStep> = Vec::new();
    if args.json_mode {
        push_step(&mut steps, EmitStep::PrintJson);
    } else if args.tree_mode {
        push_step(&mut steps, EmitStep::PrintTree);
    } else if args.quick_mode {
        push_view(&mut steps, quick_view);
    } else {
        push_view(&mut steps, default_view);
    }
    assert(actions_of(steps@) =~= print_actions(*args, default_view, quick_view));
    push_json(&mut steps, copied_option_text(&args.json_out), true);
    let ghost before_csv = actions_of(steps@);
    if let Some(path) = copied_option_text(&args.csv_out) {
        push_step(&mut steps, EmitStep::WriteCsv { path });
    }
    assert(actions_of(steps@) =~= before_csv + csv_actions(option_view(args.csv_out)));
    let ghost before_markdown = actions_of(steps@);
    if let Some(path) = copied_option_text(&args.markdown_out) {
        push_step(&mut steps, EmitStep::WriteMarkdown { path, own_writer });
    }
    assert(actions_of(steps@) =~= before_markdown + markdown_actions(
        option_view(args.markdown_out),
        own_writer,
    ));
    push_json(&mut steps, owned(env_json_out), false);
    push_json(&mut steps, owned(extra_json_out), false);
    steps
}

/// What is done with a flat report.
pub fn emit_flat_report_with_extra_json(
    args: &ReportOutputArgs,
    default_view: Option<ReportView>,
    quick_view: Option<ReportView>,
    own_writer: bool,
    env_json_out: Option<&str>,
    extra_json_out: Option<&str>,
) -> (r: Vec<EmitStep>)
    ensures
        actions_of(r@) == emit_flat_actions(
            *args,
            default_view,
            quick_view,
            own_writer,
            option_str_view(env_json_out),
            option_str_view(extra_json_out),
        ),
{
    if !own_writer {
        return emit_report_with_extra_json(
            args,
            default_view,
            quick_view,
            false,
            env_json_out,
            extra_json_out,
        );
    }
    let forwarded = ReportOutputArgs {
        json_mode: args.json_mode,
        quick_mode: args.quick_mode,
        tree_mode: args.tree_mode,
        json_out: copied_option_text(&args.json_out),
        csv_out: copied_option_text(&args.csv_out),
        markdown_out: None,
    };
    let mut steps = emit_report_with_extra_json(
        &forwarded,
        default_view,
        quick_view,
        false,
        env_json_out,
        extra_json_out,
    );
    let ghost before = actions_of(steps@);
    if let Some(path) = copied_option_text(&args.markdown_out) {
        push_step(&mut steps, EmitStep::WriteMarkdown { path, own_writer: true });
    }
    assert(actions_of(steps@) =~= before + markdown_actions(option_view(args.markdown_out), true));
    steps
}

/// What a sum of two sequences holds.
proof fn lemma_held_by_either(a: Seq<EmitAction>, b: Seq<EmitAction>)
    ensures
        forall|x: EmitAction| #[trigger] (a + b).contains(x) <==> a.contains(x) || b.contains(x),
{
    assert forall|x: EmitAction| #[trigger] (a + b).contains(x) <==> a.contains(x) || b.contains(
        x,
    ) by {
        if a.contains(x) {
            let i = choose|i: int| 0 <= i < a.len() && a[i] == x;
            assert((a + b)[i] == x);
        }
        if b.contains(x) {
            let i = choose|i: int| 0 <= i < b.len() && b[i] == x;
            assert((a + b)[a.len() + i] == x);
        }
        if (a + b).contains(x) {
            let i = choose|i: int| 0 <= i < (a + b).len() && (a + b)[i] == x;
            if i < a.len() {
                assert(a[i] == x);
            } else {
                assert(b[i - a.len()] == x);
            }
        }
    }
}

/// A JSON file is written exactly to where the arguments, the environment and
/// the caller name one, and announced where the arguments do; a CSV file and a
/// Markdown file exactly to where the arguments name one.
pub proof fn law_files_named_are_files_written(
    args: ReportOutputArgs,
    default_view: Option<ReportView>,
    quick_view: Option<ReportView>,
    own_writer: bool,
    env_json_out: Option<Seq<char>>,
    extra_json_out: Option<Seq<char>>,
)
    ensures
        ({
            let actions = emit_actions(
                args,
                default_view,
                quick_view,
                own_writer,
                env_json_out,
                extra_json_out,
            );
            &&& forall|path: Seq<char>, flag: bool| #[trigger]
                actions.contains(EmitAction::WriteJson(path, flag)) <==> if flag {
                    option_view(args.json_out) == Some(path)
                } else {
                    env_json_out == Some(path) || extra_json_out == Some(path)
                }
            &&& forall|path: Seq<char>, flag: bool| #[trigger]
                actions.contains(EmitAction::WriteMarkdown(path, flag)) <==> option_view(
                    args.markdown_out,
                ) == Some(path) && flag == own_writer
            &&& forall|path: Seq<char>| #[trigger]
                actions.contains(EmitAction::WriteCsv(path)) <==> option_view(args.csv_out)
                    == Some(path)
        }),
{
    lemma_actions_held(args, default_view, quick_view, own_writer, env_json_out, extra_json_out);
}

/// What is done with a report is what the arguments and the environment ask for.
proof fn lemma_actions_held(
    args: ReportOutputArgs,
    default_view: Option<ReportView>,
    quick_view: Option<ReportView>,
    own_writer: bool,
    env_json_out: Option<Seq<char>>,
    extra_json_out: Option<Seq<char>>,
)
    ensures
        forall|x: EmitAction| #[trigger]
            emit_actions(
                args,
                default_view,
                quick_view,
                own_writer,
                env_json_out,
                extra_json_out,
            ).contains(x) <==> {
                ||| x is PrintJson && args.json_mode
                ||| x is PrintTree && !args.json_mode && (args.tree_mode || shown_view(
                    args,
                    default_view,
                    quick_view,
                ) == Some(ReportView::Tree))
                ||| x is PrintSummary && !args.json_mode && !args.tree_mode && shown_view(
                    args,
                    default_view,
                    quick_view,
                ) == Some(ReportView::Summary)
                ||| x is WriteJson && x->WriteJson_1 && option_view(args.json_out) == Some(
                    x->WriteJson_0,
                )
                ||| x is WriteJson && !x->WriteJson_1 && (env_json_out == Some(x->WriteJson_0)
                    || extra_json_out == Some(x->WriteJson_0))
                ||| x is WriteCsv && option_view(args.csv_out) == Some(x->WriteCsv_0)
                ||| x is WriteMarkdown && x->WriteMarkdown_1 == own_writer && option_view(
                    args.markdown_out,
                ) == Some(x->WriteMarkdown_0)
            },
{
    let printed = print_actions(args, default_view, quick_view);
    let json = json_actions(option_view(args.json_out), true);
    let csv = csv_actions(option_view(args.csv_out));
    let markdown = markdown_actions(option_view(args.markdown_out), own_writer);
    let env = json_actions(env_json_out, false);
    let extra = json_actions(extra_json_out, false);
    lemma_held_by_either(printed, json);
    lemma_held_by_either(printed + json, csv);
    lemma_held_by_either(printed + json + csv, markdown);
    lemma_held_by_either(printed + json + csv + markdown, env);
    lemma_held_by_either(printed + json + csv + markdown + env, extra);
    lemma_one_action(printed);
    lemma_one_action(json);
    lemma_one_action(csv);
    lemma_one_action(markdown);
    lemma_one_action(env);
    lemma_one_action(extra);
}

/// A sequence of at most one action holds that one.
proof fn lemma_one_action(a: Seq<EmitAction>)
    requires
        a.len() <= 1,
    ensures
        forall|x: EmitAction| #[trigger] a.contains(x) <==> a.len() == 1 && a[0] == x,
{
    assert forall|x: EmitAction| #[trigger] a.contains(x) <==> a.len() == 1 && a[0] == x by {
        if a.len() == 1 && a[0] == x {
            assert(a.contains(a[0]));
        }
    }
}

/// The view that is asked for where neither JSON nor the tree is.
pub open spec fn shown_view(
    args: ReportOutputArgs,
    default_view: Option<ReportView>,
    quick_view: Option<ReportView>,
) -> Option<ReportView> {
    if args.quick_mode {
        quick_view
    } else {
        default_view
    }
}

/// At most one thing is printed, and before any file is written: JSON where it
/// is asked for; else the tree where it is asked for; else, in quick mode, the
/// quick view, and otherwise the default view.
pub proof fn law_one_view_is_printed_first(
    args: ReportOutputArgs,
    default_view: Option<ReportView>,
    quick_view: Option<ReportView>,
    own_writer: bool,
    env_json_out: Option<Seq<char>>,
    extra_json_out: Option<Seq<char>>,
)
    ensures
        ({
            let actions = emit_actions(
                args,
                default_view,
                quick_view,
                own_writer,
                env_json_out,
                extra_json_out,
            );
            let asked = if args.quick_mode {
                quick_view
            } else {
                default_view
            };
            &&& actions.contains(EmitAction::PrintJson) <==> args.json_mode
            &&& actions.contains(EmitAction::PrintTree) <==> !args.json_mode && (args.tree_mode
                || asked == Some(ReportView::Tree))
            &&& actions.contains(EmitAction::PrintSummary) <==> !args.json_mode && !args.tree_mode
                && asked == Some(ReportView::Summary)
            &&& forall|i: int|
                #![trigger actions[i]]
                0 < i < actions.len() ==> actions[i] is WriteJson || actions[i] is WriteCsv
                    || actions[i] is WriteMarkdown
        }),
{
    lemma_actions_held(args, default_view, quick_view, own_writer, env_json_out, extra_json_out);
}

/// A Markdown file of a flat report is written to where the arguments name one,
/// by the caller's own writer, which comes last, or by the default one.
pub proof fn law_own_markdown_comes_last(
    args: ReportOutputArgs,
    default_view: Option<ReportView>,
    quick_view: Option<ReportView>,
    env_json_out: Option<Seq<char>>,
    extra_json_out: Option<Seq<char>>,
    path: Seq<char>,
)
    requires
        option_view(args.markdown_out) == Some(path),
    ensures
        ({
            let actions = emit_flat_actions(
                args,
                default_view,
                quick_view,
                true,
                env_json_out,
                extra_json_out,
            );
            &&& actions.len() > 0
            &&& actions.last() == EmitAction::WriteMarkdown(path, true)
            &&& forall|i: int|
                0 <= i < actions.len() - 1 ==> !(#[trigger] actions[i] is WriteMarkdown)
        }),
        emit_flat_actions(
            args,
            default_view,
            quick_view,
            false,
            env_json_out,
            extra_json_out,
        ).contains(EmitAction::WriteMarkdown(path, false)),
{
    let forwarded = ReportOutputArgs { markdown_out: None, ..args };
    let before = emit_actions(
        forwarded,
        default_view,
        quick_view,
        false,
        env_json_out,
        extra_json_out,
    );
    lemma_actions_held(
        forwarded,
        default_view,
        quick_view,
        false,
        env_json_out,
        extra_json_out,
    );
    lemma_actions_held(args, default_view, quick_view, false, env_json_out, extra_json_out);
    let actions = emit_flat_actions(
        args,
        default_view,
        quick_view,
        true,
        env_json_out,
        extra_json_out,
    );
    assert forall|i: int| 0 <= i < actions.len() - 1 implies !(
    #[trigger] actions[i] is WriteMarkdown) by {
        assert(actions[i] == before[i]);
        assert(before.contains(before[i]));
    }
}

/// The JSON, CSV and printing of a flat report are those of its structured form.
pub proof fn law_flat_report_is_emitted_alike(
    args: ReportOutputArgs,
    default_view: Option<ReportView>,
    quick_view: Option<ReportView>,
    own_writer: bool,
    env_json_out: Option<Seq<char>>,
    extra_json_out: Option<Seq<char>>,
    action: EmitAction,
)
    requires
        !(action is WriteMarkdown),
    ensures
        emit_flat_actions(
            args,
            default_view,
            quick_view,
            own_writer,
            env_json_out,
            extra_json_out,
        ).contains(action) <==> emit_actions(
            args,
            default_view,
            quick_view,
            own_writer,
            env_json_out,
            extra_json_out,
        ).contains(action),
{
    let forwarded = ReportOutputArgs { markdown_out: None, ..args };
    lemma_actions_held(args, default_view, quick_view, own_writer, env_json_out, extra_json_out);
    lemma_actions_held(args, default_view, quick_view, false, env_json_out, extra_json_out);
    lemma_actions_held(
        forwarded,
        default_view,
        quick_view,
        false,
        env_json_out,
        extra_json_out,
    );
    let before = emit_actions(
        forwarded,
        default_view,
        quick_view,
        false,
        env_json_out,
        extra_json_out,
    );
    let markdown = markdown_actions(option_view(args.markdown_out), true);
    lemma_held_by_either(before, markdown);
    lemma_one_action(markdown);
}

} // verus!
