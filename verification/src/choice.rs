//! The prompt that asks a yes-or-no question.

use crate::component::PasswordComponent;
use crate::error::InputError;
use crate::text::lowercase;
use vstd::prelude::*;

verus! {

/// The texts of a list of strings.
pub open spec fn texts(tokens: Seq<String>) -> Seq<Seq<char>> {
    Seq::new(tokens.len(), |i: int| tokens[i]@)
}

/// The lowercase forms of a list of texts, in the same order.
pub open spec fn lowered(tokens: Seq<Seq<char>>) -> Seq<Seq<char>> {
    Seq::new(tokens.len(), |i: int| lowercase(tokens[i]))
}

/// Whether no text of `a` is also a text of `b`.
pub open spec fn disjoint(a: Seq<Seq<char>>, b: Seq<Seq<char>>) -> bool {
    forall|i: int, j: int| 0 <= i < a.len() && 0 <= j < b.len() ==> a[i] != b[j]
}

/// The side that `answer` is on: `Some(true)` where it is one of `positive`,
/// `Some(false)` where it is one of `negative`, `None` where it is neither.
pub open spec fn side_of(
    positive: Seq<Seq<char>>,
    negative: Seq<Seq<char>>,
    answer: Seq<char>,
) -> Option<bool> {
    if positive.contains(answer) {
        Some(true)
    } else if negative.contains(answer) {
        Some(false)
    } else {
        None
    }
}

/// The side of an answer as it was typed: the side of its lowercase form.
pub open spec fn resolution(
    positive: Seq<Seq<char>>,
    negative: Seq<Seq<char>>,
    answer: Seq<char>,
) -> Option<bool> {
    side_of(positive, negative, lowercase(answer))
}

/// Whether `text` is one of `tokens`.
fn is_among(tokens: &Vec<String>, text: &String) -> (found: bool)
    ensures
        found == texts(tokens@).contains(text@),
{
    let mut i: usize = 0;
    while i < tokens.len()
        invariant
            i <= tokens.len(),
            forall|k: int| 0 <= k < i ==> texts(tokens@)[k] != text@,
        decreases tokens.len() - i,
    {
        if tokens[i] == *text {
            assert(texts(tokens@)[i as int] == text@);
            return true;
        }
        i += 1;
    }
    false
}

/// The lowercase forms of `tokens`, in the same order.
fn lower_all(tokens: &Vec<String>) -> (forms: Vec<String>)
    ensures
        texts(forms@) == lowered(texts(tokens@)),
{
    let mut forms: Vec<String> = Vec::new();
    let mut i: usize = 0;
    while i < tokens.len()
        invariant
            i <= tokens.len(),
            forms.len() == i,
            forall|k: int| 0 <= k < i ==> forms[k]@ == lowercase(#[trigger] tokens[k]@),
        decreases tokens.len() - i,
    {
        forms.push(tokens[i].as_str().to_lowercase());
        i += 1;
    }
    assert(texts(forms@) =~= lowered(texts(tokens@)));
    forms
}

/// Whether no string of `a` is also a string of `b`.
fn share_nothing(a: &Vec<String>, b: &Vec<String>) -> (apart: bool)
    ensures
        apart == disjoint(texts(a@), texts(b@)),
{
    let mut i: usize = 0;
    while i < a.len()
        invariant
            i <= a.len(),
            forall|k: int, j: int|
                0 <= k < i && 0 <= j < b.len() ==> texts(a@)[k] != texts(b@)[j],
        decreases a.len() - i,
    {
        if is_among(b, &a[i]) {
            let ghost j = choose|j: int| 0 <= j < b.len() && texts(b@)[j] == a[i as int]@;
            assert(texts(a@)[i as int] == texts(b@)[j]);
            return false;
        }
        i += 1;
    }
    true
}

/// The answers that a yes-or-no question takes for a yes and for a no.
///
/// The tokens are held in the form in which they are compared: an answer is
/// lowered and is then on a side where it is one of that side's tokens,
/// letter for letter. No token stands on both sides.
#[derive(Debug)]
pub struct AcceptedTokens {
    positive: Vec<String>,
    negative: Vec<String>,
}

impl AcceptedTokens {
    /// The tokens that stand for a yes, as they are compared.
    pub closed spec fn positive(&self) -> Seq<Seq<char>> {
        texts(self.positive@)
    }

    /// The tokens that stand for a no, as they are compared.
    pub closed spec fn negative(&self) -> Seq<Seq<char>> {
        texts(self.negative@)
    }

    #[verifier::type_invariant]
    spec fn sides_apart(&self) -> bool {
        disjoint(self.positive(), self.negative())
    }

    /// "yes" and "y" for a yes, "no" and "n" for a no.
    pub fn standard() -> (tokens: AcceptedTokens)
        ensures
            tokens.positive() == seq!["yes"@, "y"@],
            tokens.negative() == seq!["no"@, "n"@],
    {
        let mut positive: Vec<String> = Vec::new();
        positive.push("yes".to_string());
        positive.push("y".to_string());
        let mut negative: Vec<String> = Vec::new();
        negative.push("no".to_string());
        negative.push("n".to_string());
        proof {
            reveal_strlit("yes");
            reveal_strlit("y");
            reveal_strlit("no");
            reveal_strlit("n");
            assert("yes"@.len() == 3 && "no"@.len() == 2);
            assert("y"@[0] == 'y' && "n"@[0] == 'n');
            assert(texts(positive@) =~= seq!["yes"@, "y"@]);
            assert(texts(negative@) =~= seq!["no"@, "n"@]);
        }
        AcceptedTokens { positive, negative }
    }

    /// Tokens of the caller's choice, held as they are written. An answer
    /// matches such a token when its lowercase form is the token letter for
    /// letter, so a token with an uppercase letter in it matches nothing.
    /// There are none where a token stands on both sides.
    pub fn verbatim(positive: Vec<String>, negative: Vec<String>) -> (r: Option<AcceptedTokens>)
        ensures
            r is Some <==> disjoint(texts(positive@), texts(negative@)),
            r matches Some(tokens) ==> tokens.positive() == texts(positive@) && tokens.negative()
                == texts(negative@),
    {
        if share_nothing(&positive, &negative) {
            Some(AcceptedTokens { positive, negative })
        } else {
            None
        }
    }

    /// Tokens of the caller's choice, taken in their lowercase forms. There
    /// are none where the lowercase form of a token stands on both sides.
    pub fn new(positive: Vec<String>, negative: Vec<String>) -> (r: Option<AcceptedTokens>)
        ensures
            r is Some <==> disjoint(lowered(texts(positive@)), lowered(texts(negative@))),
            r matches Some(tokens) ==> tokens.positive() == lowered(texts(positive@))
                && tokens.negative() == lowered(texts(negative@)),
    {
        AcceptedTokens::verbatim(lower_all(&positive), lower_all(&negative))
    }

    /// The side of an answer that is in lowercase already. As no token
    /// stands on both sides, it is at most one.
    pub fn classify(&self, lowered_answer: &str) -> (side: Option<bool>)
        ensures
            side == side_of(self.positive(), self.negative(), lowered_answer@),
            side == Some(true) <==> self.positive().contains(lowered_answer@),
            side == Some(false) <==> self.negative().contains(lowered_answer@),
    {
        proof {
            use_type_invariant(self);
        }
        let answer = lowered_answer.to_string();
        if is_among(&self.positive, &answer) {
            Some(true)
        } else if is_among(&self.negative, &answer) {
            Some(false)
        } else {
            None
        }
    }

    /// The side of an answer as the operator typed it.
    pub fn resolve(&self, answer: &str) -> (side: Option<bool>)
        ensures
            side == resolution(self.positive(), self.negative(), answer@),
            side == Some(true) <==> self.positive().contains(lowercase(answer@)),
            side == Some(false) <==> self.negative().contains(lowercase(answer@)),
    {
        let lowered_answer = answer.to_lowercase();
        self.classify(lowered_answer.as_str())
    }
}

/// The word that an empty answer stands for, where the question has a
/// default. It is "Yes" or "No" whatever tokens the question accepts.
pub open spec fn default_word(default: Option<bool>) -> Option<Seq<char>> {
    match default {
        Some(true) => Some("Yes"@),
        Some(false) => Some("No"@),
        None => None,
    }
}

/// The answer that a submitted line amounts to: the default word for an
/// empty line where there is a default, else the line itself.
pub open spec fn effective_answer(default: Option<bool>, line: Seq<char>) -> Seq<char> {
    if line.len() == 0 && default is Some {
        default_word(default)->0
    } else {
        line
    }
}

/// What a yes-or-no question makes of a submitted line: the side of the
/// lowered answer, or `InvalidFormat` where it is on neither side.
pub open spec fn choice_response(
    positive: Seq<Seq<char>>,
    negative: Seq<Seq<char>>,
    default: Option<bool>,
    line: Seq<char>,
) -> Result<bool, InputError> {
    match resolution(positive, negative, effective_answer(default, line)) {
        Some(side) => Ok(side),
        None => Err(InputError::InvalidFormat),
    }
}

/// A yes-or-no question, the tokens it accepts, and what an empty answer
/// stands for.
///
/// An empty answer to a question with a default is read as the word "Yes" or
/// "No" and then judged like any typed answer. With tokens that do not take
/// that word the empty answer is turned down like any other answer that is on
/// neither side.
#[derive(Debug)]
pub struct BinaryChoicePrompt {
    /// The question put to the operator.
    pub prompt: String,
    /// The answers taken for a yes and for a no.
    pub tokens: AcceptedTokens,
    /// `Some(true)` where an empty answer stands for "Yes", `Some(false)`
    /// where it stands for "No", `None` where it stands for nothing.
    pub default: Option<bool>,
}

impl BinaryChoicePrompt {
    pub fn new(prompt: String, tokens: AcceptedTokens, default: Option<bool>) -> (p:
        BinaryChoicePrompt)
        ensures
            p.prompt == prompt,
            p.tokens == tokens,
            p.default == default,
    {
        BinaryChoicePrompt { prompt, tokens, default }
    }

    /// The question of a component, with the standard tokens and the
    /// component's default.
    pub fn for_component(component: &PasswordComponent) -> (p: BinaryChoicePrompt)
        ensures
            p.prompt@ == component.prompt@,
            p.tokens.positive() == seq!["yes"@, "y"@],
            p.tokens.negative() == seq!["no"@, "n"@],
            p.default == component.default,
    {
        BinaryChoicePrompt::new(
            component.prompt.clone(),
            AcceptedTokens::standard(),
            component.default,
        )
    }

    /// The question as it is shown: the prompt followed by " [y/n]".
    pub fn label(&self) -> (shown: String)
        ensures
            shown@ == self.prompt@ + " [y/n]"@,
    {
        self.prompt.clone().concat(" [y/n]")
    }

    /// The word shown as the default, if there is one.
    pub fn default_text(&self) -> (word: Option<&'static str>)
        ensures
            word is Some <==> self.default is Some,
            word matches Some(w) ==> default_word(self.default) == Some(w@),
    {
        match self.default {
            Some(true) => Some("Yes"),
            Some(false) => Some("No"),
            None => None,
        }
    }

    /// What is said to the operator when a line is turned down.
    pub fn rejection() -> (message: &'static str)
        ensures
            message@ == "Please enter \"y\" or \"n\"!"@,
    {
        "Please enter \"y\" or \"n\"!"
    }

    /// Turns a submitted line into the operator's choice: `true` for a yes,
    /// `false` for a no. A line that is on neither side is turned down as
    /// `InvalidFormat`, and is to be asked for again.
    pub fn respond(&self, line: &str) -> (r: Result<bool, InputError>)
        ensures
            r == choice_response(
                self.tokens.positive(),
                self.tokens.negative(),
                self.default,
                line@,
            ),
    {
        let side = if line.is_empty() {
            match self.default {
                Some(true) => self.tokens.resolve("Yes"),
                Some(false) => self.tokens.resolve("No"),
                None => self.tokens.resolve(line),
            }
        } else {
            self.tokens.resolve(line)
        };
        match side {
            Some(choice) => Ok(choice),
            None => Err(InputError::InvalidFormat),
        }
    }

    /// Tests a submitted line: it passes exactly when `respond` makes a
    /// choice of it.
    pub fn validate(&self, line: &str) -> (r: Result<(), InputError>)
        ensures
            r is Ok <==> choice_response(
                self.tokens.positive(),
                self.tokens.negative(),
                self.default,
                line@,
            ) is Ok,
            r is Err ==> r == Err::<(), InputError>(InputError::InvalidFormat),
    {
        match self.respond(line) {
            Ok(_) => Ok(()),
            Err(e) => Err(e),
        }
    }
}

/// Upper and lower case make no difference: two answers with the same
/// lowercase form are on the same side.
pub proof fn lemma_resolution_ignores_case(
    positive: Seq<Seq<char>>,
    negative: Seq<Seq<char>>,
    a: Seq<char>,
    b: Seq<char>,
)
    requires
        lowercase(a) == lowercase(b),
    ensures
        resolution(positive, negative, a) == resolution(positive, negative, b),
{
}

/// Where no token stands on both sides, an answer is taken for a no exactly
/// when it is one of the negative tokens, and for a yes exactly when it is
/// one of the positive tokens: the order of the two tests is of no account.
pub proof fn lemma_sides_exclusive(
    positive: Seq<Seq<char>>,
    negative: Seq<Seq<char>>,
    answer: Seq<char>,
)
    requires
        disjoint(positive, negative),
    ensures
        side_of(positive, negative, answer) == Some(true) <==> positive.contains(answer),
        side_of(positive, negative, answer) == Some(false) <==> negative.contains(answer),
{
}

} // verus!
