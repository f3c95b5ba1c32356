//! The questions that the run puts to the user.

use vstd::prelude::*;
use vstd::string::*;

verus! {

/// The answer that a prompt takes when the user just presses return.
#[derive(Clone, Copy, Debug, PartialEq, Eq, Structural)]
pub enum PromptDefault {
    Yes,
    No,
    /// The user has to give an answer.
    Unset,
}

/// A question with a yes or no answer.
#[derive(Clone, Copy, Debug, PartialEq, Eq, Structural)]
pub enum Question {
    /// After the review: whether to go on with the installation.
    InstallReviewed,
    /// After the builds: whether to remove the make dependencies.
    RemoveMakeDependencies,
}

impl Question {
    /// The words of the question.
    pub open spec fn spec_text(self) -> Seq<char> {
        match self {
            Question::InstallReviewed => "Do you still want to install these packages?"@,
            Question::RemoveMakeDependencies => "Remove installed make-dependencies?"@,
        }
    }

    /// The words of the question.
    pub fn text(self) -> (text: String)
        ensures
            text@ == self.spec_text(),
    {
        match self {
            Question::InstallReviewed => String::from_str(
                "Do you still want to install these packages?",
            ),
            Question::RemoveMakeDependencies => String::from_str(
                "Remove installed make-dependencies?",
            ),
        }
    }

    /// The answer taken when the user just presses return: yes, for both
    /// questions.
    pub fn default_answer(self) -> (default: PromptDefault)
        ensures
            default == PromptDefault::Yes,
    {
        PromptDefault::Yes
    }
}

} // verus!
