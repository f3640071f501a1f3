//! Password components: the character classes a password may draw on, the
//! fixed list of them, and the pool that the chosen ones make up.

use crate::text::chars_of;
use vstd::prelude::*;

verus! {

/// A class of characters that the operator may include in the generated
/// passwords, with the question that asks for it.
#[derive(Debug)]
pub struct PasswordComponent {
    /// The question put to the operator.
    pub prompt: String,
    /// The characters of the class, in the order in which they enter a pool.
    pub characters: Vec<char>,
    /// What an empty answer stands for: `Some(true)` includes the class,
    /// `Some(false)` leaves it out, `None` means there is no default.
    pub default: Option<bool>,
}

impl PasswordComponent {
    pub fn new(prompt: String, characters: Vec<char>, default: Option<bool>) -> (component:
        PasswordComponent)
        ensures
            component.prompt == prompt,
            component.characters == characters,
            component.default == default,
    {
        PasswordComponent { prompt, characters, default }
    }
}

/// The four components on offer, in the order in which they are asked for
/// and in which they enter a pool: lowercase letters, uppercase letters and
/// digits, each included by default, and symbols, left out by default.
pub open spec fn registry_spec() -> Seq<(Seq<char>, Seq<char>, Option<bool>)> {
    seq![
        ("Include lowercase alphabet (a-z)?"@, "abcdefghijklmnopqrstuvwxyz"@, Some(true)),
        ("Include uppercase alphabet (A-Z)?"@, "ABCDEFGHIJKLMNOPQRSTUVWXYZ"@, Some(true)),
        ("Include numbers (0-9)?"@, "0123456789"@, Some(true)),
        (
            "Include symbols (e.g. @#$%)?"@,
            "!\u{201d}#$%&()*+,-./:;<=>?@[\\]^_`{|}~"@,
            Some(false),
        ),
    ]
}

/// No component on offer holds a character twice, and no character belongs
/// to two of them.
pub proof fn lemma_registry_characters_distinct()
    ensures
        registry_spec().len() == 4,
        forall|i: int|
            0 <= i < registry_spec().len() ==> (#[trigger] registry_spec()[i]).1.no_duplicates(),
        forall|i: int, j: int, c: char|
            0 <= i < j < registry_spec().len() && registry_spec()[i].1.contains(c)
                ==> !registry_spec()[j].1.contains(c),
{
    reveal_strlit("abcdefghijklmnopqrstuvwxyz");
    reveal_strlit("ABCDEFGHIJKLMNOPQRSTUVWXYZ");
    reveal_strlit("0123456789");
    reveal_strlit("!\u{201d}#$%&()*+,-./:;<=>?@[\\]^_`{|}~");
}

/// The components on offer.
pub fn registry() -> (components: Vec<PasswordComponent>)
    ensures
        components.len() == registry_spec().len(),
        forall|i: int|
            0 <= i < components.len() ==> {
                &&& (#[trigger] components[i]).prompt@ == registry_spec()[i].0
                &&& components[i].characters@ == registry_spec()[i].1
                &&& components[i].default == registry_spec()[i].2
            },
{
    let mut components: Vec<PasswordComponent> = Vec::new();
    components.push(
        PasswordComponent::new(
            "Include lowercase alphabet (a-z)?".to_string(),
            chars_of("abcdefghijklmnopqrstuvwxyz"),
            Some(true),
        ),
    );
    components.push(
        PasswordComponent::new(
            "Include uppercase alphabet (A-Z)?".to_string(),
            chars_of("ABCDEFGHIJKLMNOPQRSTUVWXYZ"),
            Some(true),
        ),
    );
    components.push(
        PasswordComponent::new(
            "Include numbers (0-9)?".to_string(),
            chars_of("0123456789"),
            Some(true),
        ),
    );
    components.push(
        PasswordComponent::new(
            "Include symbols (e.g. @#$%)?".to_string(),
            chars_of("!\u{201d}#$%&()*+,-./:;<=>?@[\\]^_`{|}~"),
            Some(false),
        ),
    );
    components
}

/// A component together with the operator's answer to its question.
#[derive(Debug)]
pub struct Decision {
    pub component: PasswordComponent,
    /// Whether the component's characters enter the pool.
    pub included: bool,
}

impl Decision {
    pub fn new(component: PasswordComponent, included: bool) -> (decision: Decision)
        ensures
            decision.component == component,
            decision.included == included,
    {
        Decision { component, included }
    }

    /// What the decision adds to a pool: the component's characters where
    /// it is included, nothing where it is not.
    pub open spec fn share(&self) -> Seq<char> {
        if self.included {
            self.component.characters@
        } else {
            Seq::empty()
        }
    }
}

/// The pool that a list of decisions makes up: the characters of the
/// included components one after another, in the order of the list, with
/// nothing left out and nothing moved.
pub open spec fn pool_of(decisions: Seq<Decision>) -> Seq<char>
    decreases decisions.len(),
{
    if decisions.len() == 0 {
        Seq::empty()
    } else {
        pool_of(decisions.drop_last()) + decisions.last().share()
    }
}

/// Puts the characters of the included components together.
pub fn assemble_pool(decisions: &Vec<Decision>) -> (pool: Vec<char>)
    ensures
        pool@ == pool_of(decisions@),
{
    let mut pool: Vec<char> = Vec::new();
    let mut i: usize = 0;
    while i < decisions.len()
        invariant
            i <= decisions.len(),
            pool@ == pool_of(decisions@.take(i as int)),
        decreases decisions.len() - i,
    {
        let decision = &decisions[i];
        let ghost before = pool@;
        if decision.included {
            let mut j: usize = 0;
            while j < decision.component.characters.len()
                invariant
                    j <= decision.component.characters.len(),
                    pool@ == before + decision.component.characters@.take(j as int),
                decreases decision.component.characters.len() - j,
            {
                pool.push(decision.component.characters[j]);
                assert(decision.component.characters@.take(j + 1)
                    == decision.component.characters@.take(j as int).push(
                    decision.component.characters@[j as int],
                ));
                j += 1;
            }
            assert(decision.component.characters@.take(j as int)
                == decision.component.characters@);
        }
        assert(pool@ == before + decision.share());
        assert(decisions@.take(i + 1).drop_last() == decisions@.take(i as int));
        i += 1;
    }
    assert(decisions@.take(i as int) == decisions@);
    pool
}

/// A pool is put together piece by piece: the pool of two lists of
/// decisions, one after the other, is the pool of the first followed by the
/// pool of the second.
pub proof fn lemma_pool_concatenates(first: Seq<Decision>, second: Seq<Decision>)
    ensures
        pool_of(first + second) == pool_of(first) + pool_of(second),
    decreases second.len(),
{
    if second.len() == 0 {
        assert(first + second == first);
    } else {
        lemma_pool_concatenates(first, second.drop_last());
        assert((first + second).drop_last() == first + second.drop_last());
        assert((first + second).last() == second.last());
    }
}

/// A single decision gives its component's characters as they stand, or
/// nothing.
pub proof fn lemma_pool_of_one(decision: Decision)
    ensures
        pool_of(seq![decision]) == decision.share(),
{
    let one = seq![decision];
    assert(one.drop_last() == Seq::<Decision>::empty());
    assert(pool_of(one.drop_last()) == Seq::<char>::empty());
    assert(one.last() == decision);
    assert(Seq::<char>::empty() + decision.share() == decision.share());
}

/// A character is in the pool exactly when an included component holds it.
pub proof fn lemma_pool_members(decisions: Seq<Decision>, c: char)
    ensures
        pool_of(decisions).contains(c) <==> exists|i: int|
            0 <= i < decisions.len() && (#[trigger] decisions[i]).share().contains(c),
    decreases decisions.len(),
{
    if decisions.len() > 0 {
        let front = decisions.drop_last();
        let last = decisions.last();
        lemma_pool_members(front, c);
        if pool_of(decisions).contains(c) {
            let k = choose|k: int| 0 <= k < pool_of(decisions).len() && pool_of(decisions)[k] == c;
            if k < pool_of(front).len() {
                assert(pool_of(front)[k] == c);
                let i = choose|i: int| 0 <= i < front.len() && (#[trigger] front[i]).share().contains(c);
                assert(decisions[i] == front[i]);
            } else {
                assert(last.share()[k - pool_of(front).len()] == c);
                assert(decisions[decisions.len() - 1] == last);
            }
        }
        if exists|i: int| 0 <= i < decisions.len() && (#[trigger] decisions[i]).share().contains(c) {
            let i = choose|i: int|
                0 <= i < decisions.len() && (#[trigger] decisions[i]).share().contains(c);
            if i < front.len() {
                assert(front[i] == decisions[i]);
                let k = choose|k: int| 0 <= k < pool_of(front).len() && pool_of(front)[k] == c;
                assert(pool_of(decisions)[k] == c);
            } else {
                let k = choose|k: int| 0 <= k < last.share().len() && last.share()[k] == c;
                assert(pool_of(decisions)[pool_of(front).len() + k] == c);
            }
        }
    }
}

} // verus!
