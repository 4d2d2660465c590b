//! The registry of the exercises that can be launched, and the ways to
//! pick one of them.

use crate::exercises::Exercise;
use crate::runner::Runner;
use crate::decimal::{
    append_decimal, decimal, lemma_decimal_has_no_period, lemma_decimal_reads_back, parse_i32_in,
    spec_parse_i32,
};
use crate::text::{
    chars_of, find_char, lemma_first_after_joining, lemma_prefix_len_is_first, prefix_len, str_eq,
};
use vstd::prelude::*;
use vstd::string::StringExecFns;

verus! {

/// Possible ways to identify the run.
#[derive(Clone, Debug, PartialEq, Eq)]
pub enum RunID {
    Numeric { chapter: i32, section: i32 },
    Named(String),
}

/// Error for when the run is not found.
#[derive(Clone, Copy, Debug, PartialEq, Eq, Structural)]
pub struct RunIDNotFound;

/// Why an argument with a period in it names no run: the text before the
/// first period, or the text after it, is not a number.
#[derive(Clone, Copy, Debug, PartialEq, Eq, Structural)]
pub enum InvalidRunID {
    Chapter,
    Section,
}

impl RunID {
    /// The id that a command-line argument stands for. An argument without
    /// a period is a name. One with a period is `CHAPTER.SECTION`: the
    /// chapter is read from the text before the first period, the section
    /// from the text between the first period and the second, or the end
    /// where there is no second.
    pub open spec fn spec_from_arg(arg: String) -> Result<RunID, InvalidRunID> {
        let dot = prefix_len(arg@, '.') as int;
        if dot == arg@.len() {
            Ok(RunID::Named(arg))
        } else {
            let rest = arg@.skip(dot + 1);
            match spec_parse_i32(arg@.take(dot)) {
                None => Err(InvalidRunID::Chapter),
                Some(chapter) => match spec_parse_i32(rest.take(prefix_len(rest, '.') as int)) {
                    None => Err(InvalidRunID::Section),
                    Some(section) => Ok(RunID::Numeric { chapter, section }),
                },
            }
        }
    }

    /// Reads a command-line argument as an id: `CHAPTER.SECTION` or a name.
    pub fn from_arg(arg: String) -> (r: Result<RunID, InvalidRunID>)
        ensures
            r == Self::spec_from_arg(arg),
    {
        let chars = chars_of(arg.as_str());
        assert(chars@.skip(0) =~= arg@);
        let dot = find_char(&chars, 0, '.');
        if dot == chars.len() {
            return Ok(RunID::Named(arg));
        }
        let end = find_char(&chars, dot + 1, '.');
        proof {
            let rest = arg@.skip(dot + 1);
            assert(chars@.subrange(0, dot as int) =~= arg@.take(dot as int));
            assert(chars@.subrange(dot + 1, end as int) =~= rest.take(
                prefix_len(rest, '.') as int,
            ));
        }
        match parse_i32_in(&chars, 0, dot) {
            None => Err(InvalidRunID::Chapter),
            Some(chapter) => match parse_i32_in(&chars, dot + 1, end) {
                None => Err(InvalidRunID::Section),
                Some(section) => Ok(RunID::Numeric { chapter, section }),
            },
        }
    }

    /// Whether this id picks `runner`: by chapter and section for a numeric
    /// id, by the exact name for a named one.
    pub open spec fn identifies<R: Runner>(&self, runner: &R) -> bool {
        match self {
            RunID::Numeric { chapter, section } => runner.spec_chapter() == *chapter
                && runner.spec_section() == *section,
            RunID::Named(name) => runner.spec_name() == name@,
        }
    }

    /// Whether this id picks `runner`.
    pub fn matches<R: Runner>(&self, runner: &R) -> (r: bool)
        ensures
            r == self.identifies(runner),
    {
        match self {
            RunID::Numeric { chapter, section } => runner.chapter() == *chapter
                && runner.section() == *section,
            RunID::Named(name) => str_eq(runner.name(), name.as_str()),
        }
    }
}

/// The first of `exercises` that `id` picks, if there is one.
pub open spec fn first_identified(exercises: Seq<Exercise>, id: RunID) -> Option<Exercise>
    decreases exercises.len(),
{
    if exercises.len() == 0 {
        None
    } else if id.identifies(&exercises[0]) {
        Some(exercises[0])
    } else {
        first_identified(exercises.drop_first(), id)
    }
}

/// The exercises that a new registry holds, in the order in which they are
/// listed and searched.
pub open spec fn registered() -> Seq<Exercise> {
    seq![
        Exercise::CreatingAWindow,
        Exercise::HelloWindow,
        Exercise::HelloTriangle,
        Exercise::Shader,
        Exercise::Textures,
    ]
}

/// The line that describes `runner` in a listing.
pub open spec fn description<R: Runner>(runner: &R) -> Seq<char> {
    "Ch: "@ + decimal(runner.spec_chapter() as int) + ", S: "@ + decimal(
        runner.spec_section() as int,
    ) + ", Name: \""@ + runner.spec_name() + "\""@
}

/// The descriptions of `exercises`, one per line, with a line feed between
/// two of them and none at the end.
pub open spec fn listing(exercises: Seq<Exercise>) -> Seq<char>
    decreases exercises.len(),
{
    if exercises.len() == 0 {
        Seq::empty()
    } else if exercises.len() == 1 {
        description(&exercises[0])
    } else {
        listing(exercises.drop_last()) + "\n"@ + description(&exercises.last())
    }
}

/// Describes `runner` in one line: chapter, section and quoted name.
pub fn describe_runner<R: Runner>(runner: &R) -> (r: String)
    ensures
        r@ == description(runner),
{
    let chapter = runner.chapter();
    let section = runner.section();
    let name = runner.name();
    let mut out = String::new();
    out.append("Ch: ");
    append_decimal(&mut out, chapter);
    out.append(", S: ");
    append_decimal(&mut out, section);
    out.append(", Name: \"");
    out.append(name);
    out.append("\"");
    assert(out@ =~= description(runner));
    out
}

/// Keeps track of the available runs.
pub struct Lister {
    /// List of available runs.
    exercises: Vec<Exercise>,
}

impl View for Lister {
    type V = Seq<Exercise>;

    closed spec fn view(&self) -> Seq<Exercise> {
        self.exercises@
    }
}

impl Lister {
    /// Creates a new list of the available runs for launching.
    pub fn new() -> (r: Self)
        ensures
            r@ == registered(),
    {
        let mut exercises: Vec<Exercise> = Vec::new();
        exercises.push(Exercise::CreatingAWindow);
        exercises.push(Exercise::HelloWindow);
        exercises.push(Exercise::HelloTriangle);
        exercises.push(Exercise::Shader);
        exercises.push(Exercise::Textures);
        assert(exercises@ =~= registered());
        Lister { exercises }
    }

    /// Picks the run to launch: the first listed exercise that `id`
    /// identifies. Fails when it identifies none.
    pub fn launch(&self, id: RunID) -> (r: Result<Exercise, RunIDNotFound>)
        ensures
            r == match first_identified(self@, id) {
                Some(exercise) => Ok::<Exercise, RunIDNotFound>(exercise),
                None => Err(RunIDNotFound),
            },
    {
        let mut i: usize = 0;
        assert(self@.skip(0) =~= self@);
        while i < self.exercises.len()
            invariant
                i <= self.exercises.len(),
                first_identified(self@, id) == first_identified(self@.skip(i as int), id),
            decreases self.exercises.len() - i,
        {
            let exercise = self.exercises[i];
            if id.matches(&exercise) {
                return Ok(exercise);
            }
            assert(self@.skip(i as int).drop_first() =~= self@.skip(i + 1));
            i = i + 1;
        }
        Err(RunIDNotFound)
    }

    /// The listing of the available runs, one line each.
    pub fn to_string(&self) -> (r: String)
        ensures
            r@ == listing(self@),
    {
        let mut out = String::new();
        let mut i: usize = 0;
        while i < self.exercises.len()
            invariant
                i <= self.exercises.len(),
                out@ == listing(self@.take(i as int)),
            decreases self.exercises.len() - i,
        {
            if i > 0 {
                out.append("\n");
            }
            let line = describe_runner(&self.exercises[i]);
            out.append(line.as_str());
            proof {
                let next = self@.take(i + 1);
                assert(next.drop_last() =~= self@.take(i as int));
                assert(next.last() == self@[i as int]);
                assert(out@ =~= listing(next));
            }
            i = i + 1;
        }
        assert(self@.take(self@.len() as int) =~= self@);
        out
    }
}

/// What `first_identified` returns is the listed exercise with the least
/// index that `id` identifies; it returns nothing exactly when `id` identifies
/// none of them.
pub proof fn lemma_first_identified(exercises: Seq<Exercise>, id: RunID)
    ensures
        match first_identified(exercises, id) {
            Some(exercise) => exists|i: int|
                {
                    &&& 0 <= i < exercises.len()
                    &&& #[trigger] exercises[i] == exercise
                    &&& id.identifies(&exercises[i])
                    &&& forall|j: int| 0 <= j < i ==> !id.identifies(&#[trigger] exercises[j])
                },
            None => forall|j: int|
                0 <= j < exercises.len() ==> !id.identifies(&#[trigger] exercises[j]),
        },
    decreases exercises.len(),
{
    if exercises.len() == 0 {
    } else if id.identifies(&exercises[0]) {
        assert(exercises[0] == exercises[0]);
    } else {
        let rest = exercises.drop_first();
        lemma_first_identified(rest, id);
        match first_identified(rest, id) {
            Some(exercise) => {
                let i = choose|i: int|
                    {
                        &&& 0 <= i < rest.len()
                        &&& #[trigger] rest[i] == exercise
                        &&& id.identifies(&rest[i])
                        &&& forall|j: int| 0 <= j < i ==> !id.identifies(&#[trigger] rest[j])
                    };
                assert(exercises[i + 1] == exercise);
                assert forall|j: int| 0 <= j < i + 1 implies !id.identifies(
                    &#[trigger] exercises[j],
                ) by {
                    if j > 0 {
                        assert(exercises[j] == rest[j - 1]);
                    }
                }
            },
            None => {
                assert forall|j: int| 0 <= j < exercises.len() implies !id.identifies(
                    &#[trigger] exercises[j],
                ) by {
                    if j > 0 {
                        assert(exercises[j] == rest[j - 1]);
                    }
                }
            },
        }
    }
}

/// No two exercises share both chapter and section.
pub proof fn lemma_numbers_are_distinct(a: Exercise, b: Exercise)
    requires
        a.spec_chapter() == b.spec_chapter(),
        a.spec_section() == b.spec_section(),
    ensures
        a == b,
{
}

/// No two exercises share a name.
pub proof fn lemma_names_are_distinct(a: Exercise, b: Exercise)
    requires
        a.spec_name() == b.spec_name(),
    ensures
        a == b,
{
    reveal_strlit("creating a window");
    reveal_strlit("hello window");
    reveal_strlit("hello triangle");
    reveal_strlit("shader");
    reveal_strlit("textures");
    assert(Exercise::CreatingAWindow.spec_name().len() == 17);
    assert(Exercise::HelloWindow.spec_name().len() == 12);
    assert(Exercise::HelloTriangle.spec_name().len() == 14);
    assert(Exercise::Shader.spec_name().len() == 6);
    assert(Exercise::Textures.spec_name().len() == 8);
}

/// An id that identifies one of the listed exercises picks that exercise,
/// wherever it stands in the list and whatever stands before it.
pub proof fn lemma_identified_is_found(exercises: Seq<Exercise>, id: RunID, exercise: Exercise)
    requires
        exercises.contains(exercise),
        id.identifies(&exercise),
    ensures
        first_identified(exercises, id) == Some(exercise),
{
    lemma_first_identified(exercises, id);
    let k = choose|k: int| 0 <= k < exercises.len() && exercises[k] == exercise;
    match first_identified(exercises, id) {
        Some(found) => {
            match id {
                RunID::Numeric { .. } => lemma_numbers_are_distinct(found, exercise),
                RunID::Named(_) => lemma_names_are_distinct(found, exercise),
            }
        },
        None => {
            assert(!id.identifies(&exercises[k]));
        },
    }
}

/// A new registry holds every exercise.
pub proof fn lemma_all_registered(exercise: Exercise)
    ensures
        registered().contains(exercise),
{
    let i = match exercise {
        Exercise::CreatingAWindow => 0int,
        Exercise::HelloWindow => 1,
        Exercise::HelloTriangle => 2,
        Exercise::Shader => 3,
        Exercise::Textures => 4,
    };
    assert(registered()[i] == exercise);
}

/// The chapter and section of an exercise pick it from a new registry.
pub proof fn lemma_registered_by_number(exercise: Exercise)
    ensures
        first_identified(
            registered(),
            RunID::Numeric {
                chapter: exercise.spec_chapter(),
                section: exercise.spec_section(),
            },
        ) == Some(exercise),
{
    lemma_all_registered(exercise);
    lemma_identified_is_found(
        registered(),
        RunID::Numeric { chapter: exercise.spec_chapter(), section: exercise.spec_section() },
        exercise,
    );
}

/// The name of an exercise picks it from a new registry.
pub proof fn lemma_registered_by_name(exercise: Exercise, name: String)
    requires
        name@ == exercise.spec_name(),
    ensures
        first_identified(registered(), RunID::Named(name)) == Some(exercise),
{
    lemma_all_registered(exercise);
    lemma_identified_is_found(registered(), RunID::Named(name), exercise);
}

/// An argument is read as a name exactly when it holds no period.
pub proof fn lemma_from_arg_named(arg: String)
    ensures
        RunID::spec_from_arg(arg) is Ok && RunID::spec_from_arg(arg)->Ok_0 is Named
            <==> !arg@.contains('.'),
        !arg@.contains('.') ==> RunID::spec_from_arg(arg) == Ok::<RunID, InvalidRunID>(
            RunID::Named(arg),
        ),
{
    lemma_prefix_len_is_first(arg@, '.');
}

/// An argument made of the decimal numeral of a chapter, a period and the
/// decimal numeral of a section is read as that chapter and section.
pub proof fn lemma_from_arg_numeric(arg: String, chapter: i32, section: i32)
    requires
        arg@ == decimal(chapter as int) + seq!['.'] + decimal(section as int),
    ensures
        RunID::spec_from_arg(arg) == Ok::<RunID, InvalidRunID>(
            RunID::Numeric { chapter, section },
        ),
{
    let first = decimal(chapter as int);
    let second = decimal(section as int);
    lemma_decimal_has_no_period(chapter as int);
    lemma_decimal_has_no_period(section as int);
    lemma_first_after_joining(first, '.', second);
    lemma_prefix_len_is_first(second, '.');
    lemma_decimal_reads_back(chapter);
    lemma_decimal_reads_back(section);
    let dot = first.len() as int;
    assert(arg@.take(dot) =~= first);
    assert(arg@.skip(dot + 1) =~= second);
    assert(second.take(second.len() as int) =~= second);
}

} // verus!
