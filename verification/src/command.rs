//! The arguments that programs are started with.
use vstd::prelude::*;

verus! {

/// An argument of a program: a text, or the path of a file or directory, which need not be text.
#[derive(Debug, PartialEq, Eq)]
pub enum Argument {
    Text(String),
    /// The directory that holds the tools.
    ToolDirectory,
    /// The file that is read.
    Input,
    /// The file that is written.
    Output,
}

/// What an [`Argument`] says.
pub enum ArgumentView {
    Text(Seq<char>),
    ToolDirectory,
    Input,
    Output,
}

impl View for Argument {
    type V = ArgumentView;

    open spec fn view(&self) -> ArgumentView {
        match *self {
            Argument::Text(text) => ArgumentView::Text(text@),
            Argument::ToolDirectory => ArgumentView::ToolDirectory,
            Argument::Input => ArgumentView::Input,
            Argument::Output => ArgumentView::Output,
        }
    }
}

/// What each argument says.
pub open spec fn argument_views(arguments: Seq<Argument>) -> Seq<ArgumentView> {
    arguments.map_values(|a: Argument| a@)
}

/// Texts as arguments.
pub open spec fn texts(words: Seq<Seq<char>>) -> Seq<ArgumentView> {
    words.map_values(|word: Seq<char>| ArgumentView::Text(word))
}

/// The characters of each word.
pub open spec fn word_views(words: Seq<&str>) -> Seq<Seq<char>> {
    words.map_values(|word: &str| word@)
}

/// Appends texts as arguments.
pub fn push_texts(arguments: &mut Vec<Argument>, words: &[&str])
    ensures
        argument_views(final(arguments)@) == argument_views(old(arguments)@) + texts(
            word_views(words@),
        ),
{
    let mut i: usize = 0;
    while i < words.len()
        invariant
            i <= words.len(),
            argument_views(arguments@) =~= argument_views(old(arguments)@) + texts(
                word_views(words@.take(i as int)),
            ),
        decreases words.len() - i,
    {
        let ghost before = argument_views(arguments@);
        let ghost said = ArgumentView::Text(words@[i as int]@);
        arguments.push(Argument::Text(words[i].to_owned()));
        assert(argument_views(arguments@) =~= before.push(said));
        assert(texts(word_views(words@.take(i + 1))) =~= texts(
            word_views(words@.take(i as int)),
        ).push(said));
        i += 1;
    }
    assert(words@.take(words@.len() as int) =~= words@);
}

/// Appends one argument.
pub fn push_argument(arguments: &mut Vec<Argument>, argument: Argument)
    ensures
        argument_views(final(arguments)@) == argument_views(old(arguments)@).push(argument@),
{
    arguments.push(argument);
    assert(argument_views(arguments@) =~= argument_views(old(arguments)@).push(argument@));
}

// ---------------------------------------------------------------------------------------------
// What arguments ask for
// ---------------------------------------------------------------------------------------------

/// A text stands among the arguments.
#[verifier::opaque]
pub open spec fn asks(arguments: Seq<ArgumentView>, word: Seq<char>) -> bool {
    exists|i: int| 0 <= i < arguments.len() && #[trigger] arguments[i] == ArgumentView::Text(word)
}

/// A value stands directly behind an option.
#[verifier::opaque]
pub open spec fn gives(
    arguments: Seq<ArgumentView>,
    option: Seq<char>,
    value: ArgumentView,
) -> bool {
    exists|i: int|
        0 <= i < arguments.len() - 1 && #[trigger] arguments[i] == ArgumentView::Text(option)
            && arguments[i + 1] == value
}

/// A value stands directly behind an option, and nothing else stands behind it anywhere.
#[verifier::opaque]
pub open spec fn set_to(
    arguments: Seq<ArgumentView>,
    option: Seq<char>,
    value: ArgumentView,
) -> bool {
    &&& gives(arguments, option, value)
    &&& forall|i: int|
        0 <= i < arguments.len() && #[trigger] arguments[i] == ArgumentView::Text(option) ==> i + 1
            < arguments.len() && arguments[i + 1] == value
}

/// A text stands directly behind an option, and nothing else stands behind it anywhere.
pub open spec fn set_to_text(
    arguments: Seq<ArgumentView>,
    option: Seq<char>,
    value: Seq<char>,
) -> bool {
    set_to(arguments, option, ArgumentView::Text(value))
}

/// What is asked for in one of two parts is asked for in the whole, and what stands behind an option
/// in one part, the other not having it, is what stands behind it in the whole.
pub proof fn lemma_parts(a: Seq<ArgumentView>, b: Seq<ArgumentView>)
    ensures
        forall|option: Seq<char>| #[trigger]
            asks(a + b, option) == (asks(a, option) || asks(b, option)),
        forall|option: Seq<char>, value: ArgumentView| #[trigger]
            gives(a + b, option, value) <== gives(a, option, value) || gives(b, option, value),
        forall|option: Seq<char>, value: ArgumentView|
            set_to(a, option, value) && !asks(b, option) || !asks(a, option) && set_to(
                b,
                option,
                value,
            ) ==> #[trigger] set_to(a + b, option, value),
{
    reveal(asks);
    reveal(gives);
    reveal(set_to);
    let whole = a + b;
    assert(forall|i: int| 0 <= i < a.len() ==> whole[i] == a[i]);
    assert(forall|i: int| 0 <= i < b.len() ==> whole[i + a.len()] == b[i]);
    assert(forall|i: int| a.len() <= i < whole.len() ==> whole[i] == b[i - a.len()]);
    assert forall|option: Seq<char>| #[trigger]
        asks(whole, option) == (asks(a, option) || asks(b, option)) by {
        if asks(a, option) {
            let i = choose|i: int|
                0 <= i < a.len() && #[trigger] a[i] == ArgumentView::Text(option);
            assert(whole[i] == ArgumentView::Text(option));
        }
        if asks(b, option) {
            let i = choose|i: int|
                0 <= i < b.len() && #[trigger] b[i] == ArgumentView::Text(option);
            assert(whole[i + a.len()] == ArgumentView::Text(option));
        }
    }
    assert forall|option: Seq<char>, value: ArgumentView|
        gives(a, option, value) || gives(b, option, value) implies #[trigger] gives(
        whole,
        option,
        value,
    ) by {
        if gives(a, option, value) {
            let i = choose|i: int|
                0 <= i < a.len() - 1 && #[trigger] a[i] == ArgumentView::Text(option) && a[i + 1]
                    == value;
            assert(whole[i] == ArgumentView::Text(option) && whole[i + 1] == value);
        } else {
            let i = choose|i: int|
                0 <= i < b.len() - 1 && #[trigger] b[i] == ArgumentView::Text(option) && b[i + 1]
                    == value;
            assert(whole[i + a.len()] == ArgumentView::Text(option));
            assert(whole[i + 1 + a.len()] == value);
        }
    }
    assert forall|option: Seq<char>, value: ArgumentView|
        set_to(a, option, value) && !asks(b, option) || !asks(a, option) && set_to(
            b,
            option,
            value,
        ) implies #[trigger] set_to(whole, option, value) by {
        assert(gives(whole, option, value));
        assert forall|i: int|
            0 <= i < whole.len() && #[trigger] whole[i] == ArgumentView::Text(option) implies i + 1
            < whole.len() && whole[i + 1] == value by {
            if i < a.len() {
                assert(a[i] == ArgumentView::Text(option));
                assert(whole[i + 1] == a[i + 1]);
            } else {
                assert(b[i - a.len()] == ArgumentView::Text(option));
                assert(whole[i + 1] == b[i - a.len() + 1]);
            }
        }
    }
}

/// Behind an option that is set to one value no other stands.
pub proof fn lemma_set_to_one(
    arguments: Seq<ArgumentView>,
    option: Seq<char>,
    value: ArgumentView,
    other: ArgumentView,
)
    requires
        set_to(arguments, option, value),
        gives(arguments, option, other),
    ensures
        other == value,
{
    reveal(gives);
    reveal(set_to);
}

/// Where there are no arguments, nothing is asked for.
pub proof fn lemma_nothing_asked(word: Seq<char>)
    ensures
        !asks(Seq::empty(), word),
{
    reveal(asks);
}

} // verus!
