use vstd::prelude::*;

verus! {

/// A multiple-choice question with four options, of which the one numbered
/// `correct_answer` (counting from 1) is right.
pub struct QuizQuestion {
    pub question: String,
    pub options: [String; 4],
    pub correct_answer: usize,
}

impl QuizQuestion {
    /// Whether `answer` is the number of the right option.
    pub fn is_correct(&self, answer: usize) -> (r: bool)
        ensures
            r == (answer == self.correct_answer),
    {
        answer == self.correct_answer
    }

    /// Whether `answer` names one of the four options, numbered from 1.
    pub fn is_option_number(answer: usize) -> (r: bool)
        ensures
            r == (1 <= answer <= 4),
    {
        1 <= answer && answer <= 4
    }
}

/// Whether the reply to "add another question?", already trimmed and in
/// lower case, asks to go on: it does exactly when it is `yes`.
pub fn wants_another(reply: &str) -> (r: bool)
    ensures
        r == (reply@ == "yes"@),
{
    reply.to_owned() == "yes".to_owned()
}

} // verus!
