//! Selection among listed options: the menu model, the capability that makes
//! a type selectable, and the rule that resolves one line of input.
use vstd::prelude::*;
use crate::text::{
    chars_of, decimal, decimal_chars, is_prefix, lemma_decimal_injective, lemma_decimal_nonempty,
    lower_of, lowercase, same_chars, starts_with, trim, trimmed,
};

verus! {

/// The text shown for one option: a name and a description.
pub struct SelectionInfo {
    pub name: String,
    pub description: String,
}

/// One menu: its description, its options in order, and the position of the
/// option taken on empty input, if any.
pub struct Selections<T> {
    pub description: String,
    pub default: Option<usize>,
    pub options: Vec<(SelectionInfo, T)>,
}

/// Why a line of input selected nothing.
#[derive(Clone, Copy, Debug, PartialEq, Eq, Structural)]
pub enum SelectionError {
    /// The line was empty and the menu has no default.
    EmptyInput,
    /// No option answers to the line.
    NoMatch,
}

/// A type whose values can be offered in a menu.
pub trait TuiSelectable: Sized + Copy {
    type Context;

    /// The menu offering values of this type.
    fn get_selections(context: Self::Context) -> (r: Selections<Self>)
        ensures
            r.wf(),
    ;
}

/// Whether the option at position `i` (counted from zero), with the given
/// lower-cased name and description, answers to the normalised input: its
/// ordinal counted from one, written in decimal, is the input, or its name or
/// description starts with it.
pub open spec fn folded_matches(
    name: Seq<char>,
    description: Seq<char>,
    i: int,
    input: Seq<char>,
) -> bool {
    ||| input == decimal((i + 1) as nat)
    ||| is_prefix(input, name)
    ||| is_prefix(input, description)
}

/// Whether the option at position `i` answers to the normalised input, once
/// its name and description are lower-cased.
pub open spec fn option_matches(info: SelectionInfo, i: int, input: Seq<char>) -> bool {
    folded_matches(lower_of(info.name@), lower_of(info.description@), i, input)
}

/// The first position from `i` on whose lower-cased (name, description)
/// pair answers to the input.
pub open spec fn first_folded_match(folded: Seq<(String, String)>, input: Seq<char>, i: int) -> Option<
    int,
>
    decreases folded.len() - i,
{
    if i < 0 || i >= folded.len() {
        None
    } else if folded_matches(folded[i].0@, folded[i].1@, i, input) {
        Some(i)
    } else {
        first_folded_match(folded, input, i + 1)
    }
}

/// Finds the first option that answers to the input, given the options'
/// names and descriptions already lower-cased, in order.
pub fn find_folded(folded: &Vec<(String, String)>, input: &str) -> (r: Option<usize>)
    ensures
        r matches Some(k) ==> first_folded_match(folded@, input@, 0) == Some(k as int),
        r is None ==> first_folded_match(folded@, input@, 0) is None,
{
    let inp = chars_of(input);
    let n = folded.len();
    let mut i: usize = 0;
    while i < n
        invariant
            n == folded@.len(),
            i <= n,
            inp@ == input@,
            first_folded_match(folded@, input@, 0) == first_folded_match(folded@, input@, i as int),
        decreases n - i,
    {
        let ordinal = decimal_chars(i + 1);
        let name = chars_of(folded[i].0.as_str());
        let description = chars_of(folded[i].1.as_str());
        if same_chars(&inp, &ordinal) || starts_with(&name, &inp) || starts_with(
            &description,
            &inp,
        ) {
            return Some(i);
        }
        i = i + 1;
    }
    None
}

proof fn lemma_first_match_is_folded<T>(
    options: Seq<(SelectionInfo, T)>,
    folded: Seq<(String, String)>,
    input: Seq<char>,
    i: int,
)
    requires
        folded.len() == options.len(),
        forall|k: int|
            0 <= k < options.len() ==> (#[trigger] folded[k]).0@ == lower_of(options[k].0.name@)
                && folded[k].1@ == lower_of(options[k].0.description@),
    ensures
        first_match(options, input, i) == first_folded_match(folded, input, i),
    decreases options.len() - i,
{
    if 0 <= i < options.len() {
        assert(folded[i].0@ == lower_of(options[i].0.name@));
        lemma_first_match_is_folded(options, folded, input, i + 1);
    }
}

/// The first position from `i` on whose option answers to the input.
pub open spec fn first_match<T>(
    options: Seq<(SelectionInfo, T)>,
    input: Seq<char>,
    i: int,
) -> Option<int>
    decreases options.len() - i,
{
    if i < 0 || i >= options.len() {
        None
    } else if option_matches(options[i].0, i, input) {
        Some(i)
    } else {
        first_match(options, input, i + 1)
    }
}

impl<T> Selections<T> {
    /// The default, where there is one, is a position in the options.
    pub open spec fn wf(&self) -> bool {
        self.default matches Some(d) ==> d < self.options@.len()
    }

    /// What a normalised (trimmed, lower-cased) line selects.
    pub open spec fn outcome(&self, input: Seq<char>) -> Result<T, SelectionError> {
        if input.len() == 0 {
            match self.default {
                Some(d) => Ok(self.options@[d as int].1),
                None => Err(SelectionError::EmptyInput),
            }
        } else {
            match first_match(self.options@, input, 0) {
                Some(i) => Ok(self.options@[i].1),
                None => Err(SelectionError::NoMatch),
            }
        }
    }
}

proof fn lemma_first_match_bounds<T>(
    options: Seq<(SelectionInfo, T)>,
    input: Seq<char>,
    i: int,
)
    ensures
        first_match(options, input, i) matches Some(k) ==> i <= k < options.len(),
    decreases options.len() - i,
{
    if 0 <= i < options.len() && !option_matches(options[i].0, i, input) {
        lemma_first_match_bounds(options, input, i + 1);
    }
}

impl<T: Copy> Selections<T> {
    /// Resolves an input that is already trimmed and lower-cased.
    pub fn select_normalized(&self, input: &str) -> (r: Result<T, SelectionError>)
        requires
            self.wf(),
        ensures
            r == self.outcome(input@),
    {
        let inp = chars_of(input);
        if inp.len() == 0 {
            return match self.default {
                Some(d) => Ok(self.options[d].1),
                None => Err(SelectionError::EmptyInput),
            };
        }
        let n = self.options.len();
        let mut folded: Vec<(String, String)> = Vec::new();
        let mut i: usize = 0;
        while i < n
            invariant
                n == self.options@.len(),
                i <= n,
                folded@.len() == i,
                forall|k: int|
                    0 <= k < i ==> (#[trigger] folded@[k]).0@ == lower_of(
                        self.options@[k].0.name@,
                    ) && folded@[k].1@ == lower_of(self.options@[k].0.description@),
            decreases n - i,
        {
            let info = &self.options[i].0;
            folded.push((lowercase(info.name.as_str()), lowercase(info.description.as_str())));
            i = i + 1;
        }
        proof {
            lemma_first_match_is_folded(self.options@, folded@, input@, 0);
            lemma_first_match_bounds(self.options@, input@, 0);
        }
        match find_folded(&folded, input) {
            Some(k) => Ok(self.options[k].1),
            None => Err(SelectionError::NoMatch),
        }
    }

    /// Resolves one line as typed: it is trimmed and lower-cased, then
    /// matched against the options.
    pub fn select_line(&self, line: &str) -> (r: Result<T, SelectionError>)
        requires
            self.wf(),
        ensures
            r == self.outcome(lower_of(trimmed(line@))),
    {
        let folded = lowercase(trim(line));
        self.select_normalized(folded.as_str())
    }
}

proof fn lemma_first_match_reaches<T>(
    options: Seq<(SelectionInfo, T)>,
    input: Seq<char>,
    k: int,
    i: int,
)
    requires
        0 <= k <= i < options.len(),
        option_matches(options[i].0, i, input),
        forall|j: int| k <= j < i ==> !option_matches(#[trigger] options[j].0, j, input),
    ensures
        first_match(options, input, k) == Some(i),
    decreases i - k,
{
    if k < i {
        lemma_first_match_reaches(options, input, k + 1, i);
    }
}

/// Empty input selects the default option of a menu that has one.
pub proof fn lemma_empty_input_takes_default<T>(sel: Selections<T>, d: usize)
    requires
        sel.wf(),
        sel.default == Some(d),
    ensures
        sel.outcome(Seq::empty()) == Ok::<T, SelectionError>(sel.options@[d as int].1),
{
}

/// Empty input selects nothing from a menu without a default: the prompt asks
/// again.
pub proof fn lemma_empty_input_without_default<T>(sel: Selections<T>)
    requires
        sel.default is None,
    ensures
        sel.outcome(Seq::empty()) == Err::<T, SelectionError>(SelectionError::EmptyInput),
{
}

/// Typing an option's ordinal (counted from one) selects that option, unless
/// an option listed before it has a name or description that starts with the
/// same digits: matching goes by position, first match wins.
pub proof fn lemma_ordinal_selects<T>(sel: Selections<T>, i: int)
    requires
        0 <= i < sel.options@.len(),
        forall|j: int|
            0 <= j < i ==> {
                let info = #[trigger] sel.options@[j].0;
                &&& !is_prefix(decimal((i + 1) as nat), lower_of(info.name@))
                &&& !is_prefix(decimal((i + 1) as nat), lower_of(info.description@))
            },
    ensures
        sel.outcome(decimal((i + 1) as nat)) == Ok::<T, SelectionError>(sel.options@[i].1),
{
    let input = decimal((i + 1) as nat);
    lemma_decimal_nonempty((i + 1) as nat);
    assert forall|j: int| 0 <= j < i implies !option_matches(
        #[trigger] sel.options@[j].0,
        j,
        input,
    ) by {
        if input == decimal((j + 1) as nat) {
            lemma_decimal_injective((j + 1) as nat, (i + 1) as nat);
        }
    }
    lemma_first_match_reaches(sel.options@, input, 0, i);
}

} // verus!
