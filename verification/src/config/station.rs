use vstd::prelude::*;

use super::ui_config::{text_view, UiConfig, UiView};

verus! {

/// A named entry of the configuration: a short description and a command
/// template in whose arguments every `{}` receives the user's input.
#[derive(Debug, PartialEq, Eq, PartialOrd, Ord)]
pub struct Station {
    pub name: String,
    pub description: String,
    /// Command and arguments, run directly without a shell.
    pub run: Vec<String>,
    /// Used in place of an empty submission.
    pub default: Option<String>,
    /// UI settings laid over the global UI block for this station.
    pub override_ui: Option<UiConfig>,
}

/// The abstract value of a `Station`.
pub struct StationView {
    pub name: Seq<char>,
    pub description: Seq<char>,
    pub run: Seq<Seq<char>>,
    pub default: Option<Seq<char>>,
    pub override_ui: Option<UiView>,
}

pub open spec fn ui_layer_view(u: Option<UiConfig>) -> Option<UiView> {
    match u {
        Some(c) => Some(c@),
        None => None,
    }
}

impl View for Station {
    type V = StationView;

    open spec fn view(&self) -> StationView {
        StationView {
            name: self.name@,
            description: self.description@,
            run: self.run@.map_values(|s: String| s@),
            default: text_view(self.default),
            override_ui: ui_layer_view(self.override_ui),
        }
    }
}

/// The view of a station holds every field: its strings as their characters
/// and its UI settings as their view.
pub proof fn lemma_station_view_fields(s: Station)
    ensures
        s@.name == s.name@,
        s@.description == s.description@,
        s@.run.len() == s.run@.len(),
        forall|i: int| 0 <= i < s.run@.len() ==> #[trigger] s@.run[i] == s.run@[i]@,
        s.default is None <==> s@.default is None,
        forall|t: String| s.default == Some(t) ==> #[trigger] s@.default == Some(t@),
        s.override_ui is None <==> s@.override_ui is None,
        forall|u: UiConfig| s.override_ui == Some(u) ==> #[trigger] s@.override_ui == Some(u@),
{
}

/// Whether the placeholder `{}` starts at position `i` of `arg`.
pub open spec fn placeholder_at(arg: Seq<char>, i: int) -> bool {
    0 <= i && i + 1 < arg.len() && arg[i] == '{' && arg[i + 1] == '}'
}

/// One argument of the template with the input in place of every `{}`, the
/// occurrences taken from left to right without overlapping.
pub open spec fn fill_arg(arg: Seq<char>, input: Seq<char>) -> Seq<char>
    decreases arg.len(),
{
    if arg.len() == 0 {
        arg
    } else if placeholder_at(arg, 0) {
        input + fill_arg(arg.subrange(2, arg.len() as int), input)
    } else {
        seq![arg[0]] + fill_arg(arg.subrange(1, arg.len() as int), input)
    }
}

/// The command line for `input`: every argument of the template with the
/// input in place of each `{}` it holds.
pub open spec fn fill_template(run: Seq<Seq<char>>, input: Seq<char>) -> Seq<Seq<char>> {
    run.map_values(|arg: Seq<char>| fill_arg(arg, input))
}

/// An argument in which `{` is never directly followed by `}` is left as it
/// is.
pub proof fn lemma_fill_arg_without_placeholder(arg: Seq<char>, input: Seq<char>)
    requires
        forall|i: int| 0 <= i < arg.len() - 1 ==> !(#[trigger] arg[i] == '{' && arg[i + 1] == '}'),
    ensures
        fill_arg(arg, input) == arg,
    decreases arg.len(),
{
    if arg.len() > 0 {
        let rest = arg.subrange(1, arg.len() as int);
        assert forall|i: int| 0 <= i < rest.len() - 1 implies !(#[trigger] rest[i] == '{' && rest[i
            + 1] == '}') by {
            assert(rest[i] == arg[i + 1] && rest[i + 1] == arg[i + 2]);
        }
        if arg.len() >= 2 {
            assert(!(arg[0] == '{' && arg[1] == '}'));
        }
        lemma_fill_arg_without_placeholder(rest, input);
        assert(seq![arg[0]] + rest =~= arg);
    }
}

/// Filling an argument replaces its first `{}` by the input and keeps all
/// that stands before it and, filled in turn, all that follows it: nothing of
/// the argument is lost, whatever the input.
pub proof fn lemma_fill_arg_first_placeholder(a: Seq<char>, b: Seq<char>, input: Seq<char>)
    requires
        forall|i: int| 0 <= i < a.len() - 1 ==> !(#[trigger] a[i] == '{' && a[i + 1] == '}'),
    ensures
        fill_arg(a + seq!['{', '}'] + b, input) == a + input + fill_arg(b, input),
    decreases a.len(),
{
    let w = a + seq!['{', '}'] + b;
    if a.len() == 0 {
        assert(placeholder_at(w, 0));
        assert(w.subrange(2, w.len() as int) =~= b);
        assert(a + input + fill_arg(b, input) =~= input + fill_arg(b, input));
    } else {
        if a.len() >= 2 {
            assert(!(a[0] == '{' && a[1] == '}'));
        }
        assert(!placeholder_at(w, 0));
        let a1 = a.subrange(1, a.len() as int);
        assert forall|i: int| 0 <= i < a1.len() - 1 implies !(#[trigger] a1[i] == '{' && a1[i + 1]
            == '}') by {
            assert(a1[i] == a[i + 1] && a1[i + 1] == a[i + 2]);
        }
        assert(w.subrange(1, w.len() as int) =~= a1 + seq!['{', '}'] + b);
        lemma_fill_arg_first_placeholder(a1, b, input);
        assert(seq![a[0]] + (a1 + input + fill_arg(b, input)) =~= a + input + fill_arg(b, input));
    }
}

/// Filling a template keeps its length, turns an argument that is exactly
/// `{}` into the input, as one argument, and leaves an argument without `{}`
/// unchanged.
pub proof fn lemma_fill_template(run: Seq<Seq<char>>, input: Seq<char>)
    ensures
        fill_template(run, input).len() == run.len(),
        forall|i: int|
            0 <= i < run.len() && run[i] == "{}"@ ==> #[trigger] fill_template(run, input)[i]
                == input,
        forall|i: int|
            0 <= i < run.len() && (forall|j: int|
                0 <= j < run[i].len() - 1 ==> !(#[trigger] run[i][j] == '{' && run[i][j + 1]
                    == '}')) ==> #[trigger] fill_template(run, input)[i] == run[i],
{
    assert forall|i: int| 0 <= i < run.len() && run[i] == "{}"@ implies #[trigger] fill_template(
        run,
        input,
    )[i] == input by {
        reveal_strlit("{}");
        let arg = run[i];
        assert(arg.len() == 2 && arg[0] == '{' && arg[1] == '}');
        assert(placeholder_at(arg, 0));
        assert(arg.subrange(2, 2) =~= Seq::<char>::empty());
        assert(fill_arg(arg.subrange(2, 2), input) == Seq::<char>::empty());
        assert(input + Seq::<char>::empty() =~= input);
        assert(fill_template(run, input)[i] == fill_arg(arg, input));
    }
    assert forall|i: int|
        0 <= i < run.len() && (forall|j: int|
            0 <= j < run[i].len() - 1 ==> !(#[trigger] run[i][j] == '{' && run[i][j + 1] == '}'))
            implies #[trigger] fill_template(run, input)[i] == run[i] by {
        lemma_fill_arg_without_placeholder(run[i], input);
    }
}

/// What a submission stands for: the station's default when the submission is
/// empty and a default is set, else the submission itself.
pub open spec fn effective_input(default: Option<Seq<char>>, submitted: Seq<char>) -> Seq<char> {
    if submitted.len() == 0 && default is Some {
        default->0
    } else {
        submitted
    }
}

/// `arg` with `input` in place of every `{}` (see `fill_arg`).
pub fn fill_placeholders(arg: &str, input: &str) -> (filled: String)
    ensures
        filled@ == fill_arg(arg@, input@),
{
    let n = arg.unicode_len();
    let mut out = String::new();
    let mut start: usize = 0;
    let mut i: usize = 0;
    assert(arg@.subrange(0, n as int) =~= arg@);
    assert(out@ + arg@.subrange(0, 0) =~= Seq::<char>::empty());
    while i < n
        invariant
            n == arg@.len(),
            start <= i <= n,
            out@ + arg@.subrange(start as int, i as int) + fill_arg(
                arg@.subrange(i as int, n as int),
                input@,
            ) == fill_arg(arg@, input@),
        decreases n - i,
    {
        let ghost rest = arg@.subrange(i as int, n as int);
        let c = arg.get_char(i);
        if c == '{' && i + 1 < n && arg.get_char(i + 1) == '}' {
            assert(placeholder_at(rest, 0));
            assert(rest.subrange(2, rest.len() as int) =~= arg@.subrange(i + 2, n as int));
            out.append(arg.substring_char(start, i));
            out.append(input);
            proof {
                assert(arg@.subrange((i + 2) as int, (i + 2) as int) =~= Seq::<char>::empty());
                assert(out@ + arg@.subrange((i + 2) as int, (i + 2) as int) =~= out@);
            }
            start = i + 2;
            i = i + 2;
        } else {
            assert(!placeholder_at(rest, 0));
            assert(rest.subrange(1, rest.len() as int) =~= arg@.subrange(i + 1, n as int));
            assert(arg@.subrange(start as int, i as int) + seq![rest[0]] =~= arg@.subrange(
                start as int,
                i + 1,
            ));
            i = i + 1;
        }
    }
    out.append(arg.substring_char(start, n));
    proof {
        assert(arg@.subrange(n as int, n as int) =~= Seq::<char>::empty());
    }
    out
}

/// A submission that is not empty is used as it is, whatever the default; an
/// empty one takes the default when there is one and stays empty otherwise.
pub proof fn lemma_effective_input(default: Option<Seq<char>>, submitted: Seq<char>)
    ensures
        submitted.len() > 0 ==> effective_input(default, submitted) == submitted,
        default is None ==> effective_input(default, submitted) == submitted,
        forall|d: Seq<char>|
            default == Some(d) && submitted.len() == 0 ==> #[trigger] effective_input(
                Some(d),
                submitted,
            ) == d,
{
}

impl Station {
    /// The arguments the station runs for `input`, the program first.
    pub fn command_args(&self, input: &str) -> (args: Vec<String>)
        ensures
            args@.map_values(|s: String| s@) == fill_template(self@.run, input@),
    {
        let mut args: Vec<String> = Vec::new();
        let n = self.run.len();
        for i in 0..n
            invariant
                n == self.run.len(),
                args@.len() == i,
                forall|j: int|
                    0 <= j < i ==> #[trigger] args@[j]@ == fill_template(self@.run, input@)[j],
        {
            args.push(fill_placeholders(self.run[i].as_str(), input));
        }
        assert(args@.map_values(|s: String| s@) =~= fill_template(self@.run, input@));
        args
    }

    /// The input that a submission stands for (see `effective_input`).
    pub fn input_for(&self, submitted: &str) -> (input: String)
        ensures
            input@ == effective_input(self@.default, submitted@),
    {
        if submitted.is_empty() {
            if let Some(d) = &self.default {
                return d.clone();
            }
        }
        submitted.to_owned()
    }

    /// The title shown on the prompt box: the description between two spaces.
    pub fn title(&self) -> (t: String)
        ensures
            t@ == seq![' '] + self.description@ + seq![' '],
    {
        let t = String::from_str(" ");
        let t = t.concat(self.description.as_str());
        let t = t.concat(" ");
        proof {
            reveal_strlit(" ");
        }
        t
    }
}

} // verus!
