//! Checks that an input has to pass before a session ends with it.
use vstd::prelude::*;

verus! {

/// A check on an input, and the message to show where the input fails it.
///
/// What a check answers is its own matter and need not be the same each
/// time it is asked. The two relations say which answers it can give; what
/// a session does is stated over them.
pub trait Validate {
    /// Whether the check can answer `passes` to the question whether `text`
    /// passes.
    spec fn judges(&self, text: Seq<char>, passes: bool) -> bool;

    /// Whether the check can word `message` for `text`.
    spec fn words(&self, text: Seq<char>, message: Seq<char>) -> bool;

    /// Whether `text` passes.
    fn validate(&self, text: &str) -> (passes: bool)
        ensures
            self.judges(text@, passes),
    ;

    /// What to tell the user about a `text` that does not pass.
    fn error_message(&self, text: &str) -> (message: String)
        ensures
            self.words(text@, message@),
    ;
}

/// The check that every input passes, to stand where no check is set.
#[derive(Clone, Copy, Debug, PartialEq, Eq)]
pub struct Unchecked;

impl Validate for Unchecked {
    open spec fn judges(&self, text: Seq<char>, passes: bool) -> bool {
        passes
    }

    open spec fn words(&self, text: Seq<char>, message: Seq<char>) -> bool {
        message == Seq::<char>::empty()
    }

    fn validate(&self, text: &str) -> (passes: bool) {
        true
    }

    fn error_message(&self, text: &str) -> (message: String) {
        String::new()
    }
}

/// Whether `f` can answer `passes` on a string of the characters `text`.
pub open spec fn answers<V: Fn(&str) -> bool>(f: V, text: Seq<char>, passes: bool) -> bool {
    exists|s: &str| s@ == text && #[trigger] call_ensures(f, (s,), passes)
}

/// Whether `f` can answer a string of the characters `message` on a string
/// of the characters `text`.
pub open spec fn phrases<F: Fn(&str) -> String>(
    f: F,
    text: Seq<char>,
    message: Seq<char>,
) -> bool {
    exists|s: &str, out: String|
        s@ == text && out@ == message && #[trigger] call_ensures(f, (s,), out)
}

/// A check made of two functions: one that says whether an input passes, and
/// one that words the message for an input that does not.
pub struct Validator<V: Fn(&str) -> bool, F: Fn(&str) -> String> {
    validator: V,
    error_message_configure: F,
}

impl<V: Fn(&str) -> bool, F: Fn(&str) -> String> Validator<V, F> {
    #[verifier::type_invariant]
    closed spec fn both_take_every_input(self) -> bool {
        &&& forall|text: &str| call_requires(self.validator, (text,))
        &&& forall|text: &str| call_requires(self.error_message_configure, (text,))
    }

    /// The function that says whether an input passes.
    pub closed spec fn predicate(self) -> V {
        self.validator
    }

    /// The function that words the message for an input that does not pass.
    pub closed spec fn wording(self) -> F {
        self.error_message_configure
    }

    /// A check made of two functions that take every input.
    pub fn new(validator: V, error_message_configure: F) -> (v: Self)
        requires
            forall|text: &str| call_requires(validator, (text,)),
            forall|text: &str| call_requires(error_message_configure, (text,)),
        ensures
            v.predicate() == validator,
            v.wording() == error_message_configure,
    {
        Validator { validator, error_message_configure }
    }
}

impl<V: Fn(&str) -> bool, F: Fn(&str) -> String> Validate for Validator<V, F> {
    /// The check can give the answers that its first function can give.
    open spec fn judges(&self, text: Seq<char>, passes: bool) -> bool {
        answers(self.predicate(), text, passes)
    }

    /// The check can word the messages that its second function can give.
    open spec fn words(&self, text: Seq<char>, message: Seq<char>) -> bool {
        phrases(self.wording(), text, message)
    }

    /// What the first function answers on `text`.
    fn validate(&self, text: &str) -> (passes: bool) {
        proof {
            use_type_invariant(self);
        }
        let passes = (self.validator)(text);
        assert(call_ensures(self.predicate(), (text,), passes));
        passes
    }

    /// What the second function answers on `text`.
    fn error_message(&self, text: &str) -> (message: String) {
        proof {
            use_type_invariant(self);
        }
        let message = (self.error_message_configure)(text);
        assert(call_ensures(self.wording(), (text,), message));
        message
    }
}

} // verus!
